//! The simulation's view of the two transport channels. The sockets, tasks
//! and channels that move bytes live outside the library; here a connection
//! is what the per-tick systems read and write: whether the remote end is
//! known, the packets waiting to be decoded, and the records accumulated for
//! the next outgoing batch.

use std::collections::VecDeque;
use vstd::prelude::*;

use crate::message::{NetworkMessage, TCP, UDP};

verus! {

/// One received datagram or stream segment, as raw bytes.
#[derive(Debug)]
pub struct Packet {
    pub bytes: Vec<u8>,
}

/// The per-tick view of the unreliable channel.
#[derive(Debug)]
pub struct UdpConnection {
    /// Whether the remote end has announced itself yet; nothing is sent and
    /// no payload is queued before it has.
    pub connected: bool,
    pub input_packet_buffer: VecDeque<Packet>,
    pub output_message: Vec<NetworkMessage<UDP>>,
    /// The last measured round trip, in milliseconds.
    pub ping: u32,
}

/// The per-tick view of the reliable channel.
#[derive(Debug)]
pub struct TcpConnection {
    /// Whether the stream to the server is established yet.
    pub connected: bool,
    pub input_packet_buffer: VecDeque<Packet>,
    pub output_message: Vec<NetworkMessage<TCP>>,
}

impl UdpConnection {
    pub fn new(connected: bool) -> (r: UdpConnection)
        ensures
            r.connected == connected,
            r.input_packet_buffer@.len() == 0,
            r.output_message@.len() == 0,
            r.ping == 0,
    {
        UdpConnection {
            connected,
            input_packet_buffer: VecDeque::new(),
            output_message: Vec::new(),
            ping: 0,
        }
    }

    /// Queues one record for the next outgoing batch.
    pub fn add_message(&mut self, message: NetworkMessage<UDP>)
        ensures
            final(self).output_message@ == old(self).output_message@.push(message),
            final(self).connected == old(self).connected,
            final(self).input_packet_buffer@ == old(self).input_packet_buffer@,
            final(self).ping == old(self).ping,
    {
        self.output_message.push(message);
    }
}

impl TcpConnection {
    pub fn new(connected: bool) -> (r: TcpConnection)
        ensures
            r.connected == connected,
            r.input_packet_buffer@.len() == 0,
            r.output_message@.len() == 0,
    {
        TcpConnection { connected, input_packet_buffer: VecDeque::new(), output_message: Vec::new() }
    }

    /// Queues one record for the next outgoing batch.
    pub fn add_message(&mut self, message: NetworkMessage<TCP>)
        ensures
            final(self).output_message@ == old(self).output_message@.push(message),
            final(self).connected == old(self).connected,
            final(self).input_packet_buffer@ == old(self).input_packet_buffer@,
    {
        self.output_message.push(message);
    }
}

} // verus!
