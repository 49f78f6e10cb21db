//! The per-tick systems that move data between the transports and the
//! engine: accepting received bytes into the packet queues, and assembling
//! the outgoing tick batch. The socket reads, the wire encoding and the
//! channel sends happen outside the library; they hand bytes in and take the
//! assembled batch out.

use vstd::prelude::*;

use crate::message::{NetworkMessage, UDP};
use crate::net_manage::{Packet, TcpConnection, UdpConnection};
use crate::net_reconciliation::{BUFFER_SIZE, ObjectState, ReconcileBuffer, store_game_state};

verus! {

/// Accepts one received datagram. The first datagram only announces the
/// remote end and carries no payload; every later one is queued for
/// decoding.
pub fn udp_client_net_receive(connection: &mut UdpConnection, bytes: Vec<u8>)
    ensures
        final(connection).connected,
        old(connection).connected ==> final(connection).input_packet_buffer@ == old(
            connection,
        ).input_packet_buffer@.push((Packet { bytes })),
        !old(connection).connected ==> final(connection).input_packet_buffer@ == old(
            connection,
        ).input_packet_buffer@,
        final(connection).output_message@ == old(connection).output_message@,
        final(connection).ping == old(connection).ping,
{
    if connection.connected {
        connection.input_packet_buffer.push_back(Packet { bytes });
    } else {
        connection.connected = true;
    }
}

/// Accepts one received stream segment, in the same two phases as the
/// datagram side: the first segment only announces the established stream.
pub fn tcp_client_net_receive(connection: &mut TcpConnection, bytes: Vec<u8>)
    ensures
        final(connection).connected,
        old(connection).connected ==> final(connection).input_packet_buffer@ == old(
            connection,
        ).input_packet_buffer@.push((Packet { bytes })),
        !old(connection).connected ==> final(connection).input_packet_buffer@ == old(
            connection,
        ).input_packet_buffer@,
        final(connection).output_message@ == old(connection).output_message@,
{
    if connection.connected {
        connection.input_packet_buffer.push_back(Packet { bytes });
    } else {
        connection.connected = true;
    }
}

/// Closes out the tick on the sending side, when there is anything to send:
/// tags the outgoing batch with the current sequence counter, records the
/// gathered frame under that counter, and steps the counter to the next
/// tick. Returns whether a batch is ready; encoding it and clearing the
/// queue after a successful send happen outside the library, and a full
/// outbound channel simply leaves the batch queued for the next tick.
pub fn udp_client_net_send(
    connection: &mut UdpConnection,
    game_state: Vec<ObjectState>,
    reconcile_buffer: &mut ReconcileBuffer,
) -> (send: bool)
    requires
        old(reconcile_buffer).wf(),
    ensures
        final(reconcile_buffer).wf(),
        send == (old(connection).output_message@.len() > 0),
        !send ==> {
            &&& final(connection).output_message@ == old(connection).output_message@
            &&& forall|i: int|
                final(reconcile_buffer).slot_at(i) == old(reconcile_buffer).slot_at(i)
            &&& final(reconcile_buffer).seq_counter() == old(reconcile_buffer).seq_counter()
            &&& final(reconcile_buffer).miss_counter() == old(reconcile_buffer).miss_counter()
        },
        send ==> {
            &&& final(connection).output_message@ == old(connection).output_message@.push(
                (NetworkMessage(
                    UDP::Sequence { sequence_number: old(reconcile_buffer).seq_counter() },
                )),
            )
            &&& final(reconcile_buffer).slot(old(reconcile_buffer).seq_counter()) == Some(
                game_state@,
            )
            &&& forall|i: int|
                0 <= i < BUFFER_SIZE as int && i != old(reconcile_buffer).seq_counter() as int
                    ==> final(reconcile_buffer).slot_at(i) == old(reconcile_buffer).slot_at(i)
            &&& final(reconcile_buffer).seq_counter() as int == if old(
                reconcile_buffer,
            ).seq_counter() == BUFFER_SIZE as u32 - 1 {
                0
            } else {
                old(reconcile_buffer).seq_counter() + 1
            }
            &&& final(reconcile_buffer).miss_counter() == old(reconcile_buffer).miss_counter()
        },
        final(connection).connected == old(connection).connected,
        final(connection).input_packet_buffer@ == old(connection).input_packet_buffer@,
        final(connection).ping == old(connection).ping,
{
    if connection.output_message.len() > 0 {
        proof {
            reconcile_buffer.lemma_wf_bounds();
            vstd::arithmetic::div_mod::lemma_small_mod(
                reconcile_buffer.seq_counter() as nat,
                BUFFER_SIZE as nat,
            );
        }
        sequence_message(connection, reconcile_buffer);
        store_game_state(game_state, reconcile_buffer);
        reconcile_buffer.increment_sequence_num();
        true
    } else {
        false
    }
}

/// Tags the outgoing batch with the sequence number the tick being closed
/// out was simulated under.
pub fn sequence_message(connection: &mut UdpConnection, reconcile_buffer: &ReconcileBuffer)
    ensures
        final(connection).output_message@ == old(connection).output_message@.push(
            (NetworkMessage(UDP::Sequence { sequence_number: reconcile_buffer.seq_counter() })),
        ),
        final(connection).connected == old(connection).connected,
        final(connection).input_packet_buffer@ == old(connection).input_packet_buffer@,
        final(connection).ping == old(connection).ping,
{
    let current_sequence = reconcile_buffer.sequence_counter();
    connection.add_message(NetworkMessage(UDP::Sequence { sequence_number: current_sequence }));
}

} // verus!
