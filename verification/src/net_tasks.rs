//! Handling of decoded inbound batches. Decoding bytes happens outside the
//! library; what arrives here is the batch as plain records. A snapshot
//! batch without a sequence tag is ignored wholesale; a tagged one drives
//! one reconciliation pass per player-state record it carries.

use vstd::prelude::*;

use crate::chat::{Chat, ChatMessage, add_chat_message, kept_len};
use crate::common::Id;
use crate::message::{SequenceNumber, TCP, UDP};
use crate::net_reconciliation::{BUFFER_SIZE, ObjectState, ReconcileBuffer};
use crate::player::{
    PlayerInfo, ResimulatePlayer, reconcile_outcome, reconcile_player, set_player_id,
};

verus! {

/// The sequence number a batch is tagged with: the value of its last
/// `Sequence` record, or nothing if it carries none.
pub open spec fn last_sequence(msgs: Seq<UDP>) -> Option<SequenceNumber>
    decreases msgs.len(),
{
    if msgs.len() == 0 {
        None
    } else {
        match msgs.last() {
            UDP::Sequence { sequence_number } => Some(sequence_number),
            _ => last_sequence(msgs.drop_last()),
        }
    }
}

/// What reconciling every `Players` record of a batch, in order, does to the
/// miss-prediction counter, and which rollback commands it emits. The
/// recorded slot for the tagged tick does not change along the way, so every
/// pass reads the same one.
pub open spec fn process_players(
    msgs: Seq<UDP>,
    seq: SequenceNumber,
    id: Id,
    slot: Option<Seq<ObjectState>>,
    misses: u16,
) -> (u16, Seq<(SequenceNumber, Seq<ObjectState>)>)
    decreases msgs.len(),
{
    if msgs.len() == 0 {
        (misses, Seq::empty())
    } else {
        match msgs[0] {
            UDP::Players { players } => {
                let outcome = reconcile_outcome(seq, players@, id, slot, misses);
                let rest = process_players(msgs.skip(1), seq, id, slot, outcome.0);
                (
                    rest.0,
                    match outcome.1 {
                        Some(c) => seq![c] + rest.1,
                        None => rest.1,
                    },
                )
            },
            _ => process_players(msgs.skip(1), seq, id, slot, misses),
        }
    }
}

/// Processes one decoded snapshot batch. A batch with no `Sequence` record
/// is ignored whole. Otherwise every `Players` record is reconciled against
/// the prediction recorded for the tagged tick, and the rollback commands
/// that come out of it are returned for the simulation to run between
/// ticks. Recorded history itself is never changed here.
pub fn handle_udp_message(
    messages: &Vec<UDP>,
    player_info: &PlayerInfo,
    reconcile_buffer: &mut ReconcileBuffer,
) -> (r: Vec<ResimulatePlayer>)
    requires
        old(reconcile_buffer).wf(),
    ensures
        final(reconcile_buffer).wf(),
        final(reconcile_buffer).seq_counter() == old(reconcile_buffer).seq_counter(),
        forall|i: int| final(reconcile_buffer).slot_at(i) == old(reconcile_buffer).slot_at(i),
        match last_sequence(messages@) {
            None => {
                &&& final(reconcile_buffer).miss_counter() == old(reconcile_buffer).miss_counter()
                &&& r@.len() == 0
            },
            Some(seq) => {
                let outcome = process_players(
                    messages@,
                    seq,
                    player_info.current_player_id,
                    old(reconcile_buffer).slot(seq),
                    old(reconcile_buffer).miss_counter(),
                );
                &&& final(reconcile_buffer).miss_counter() == outcome.0
                &&& r@.len() == outcome.1.len()
                &&& forall|i: int|
                    0 <= i < outcome.1.len() ==> (#[trigger] r@[i]).received_sequence_number
                        == outcome.1[i].0 && r@[i].object_states@ == outcome.1[i].1
            },
        },
{
    let ghost rb0 = *reconcile_buffer;
    let mut seq_num: Option<SequenceNumber> = None;
    let mut i: usize = 0;
    proof {
        assert(messages@.take(0) =~= Seq::<UDP>::empty());
    }
    while i < messages.len()
        invariant
            0 <= i <= messages@.len(),
            seq_num == last_sequence(messages@.take(i as int)),
        decreases messages@.len() - i,
    {
        match &messages[i] {
            UDP::Sequence { sequence_number } => {
                seq_num = Some(*sequence_number);
            },
            _ => {},
        }
        proof {
            assert(messages@.take(i as int + 1).drop_last() =~= messages@.take(i as int));
            assert(messages@.take(i as int + 1).last() == messages@[i as int]);
        }
        i += 1;
    }
    proof {
        assert(messages@.take(messages@.len() as int) =~= messages@);
    }
    match seq_num {
        None => Vec::new(),
        Some(seq) => {
            let ghost slot0 = rb0.slot(seq);
            let ghost total = process_players(
                messages@,
                seq,
                player_info.current_player_id,
                slot0,
                rb0.miss_counter(),
            );
            let mut out: Vec<ResimulatePlayer> = Vec::new();
            let ghost mut out_model: Seq<(SequenceNumber, Seq<ObjectState>)> = Seq::empty();
            let mut k: usize = 0;
            proof {
                assert(messages@.skip(0) =~= messages@);
            }
            while k < messages.len()
                invariant
                    0 <= k <= messages@.len(),
                    slot0 == rb0.slot(seq),
                    reconcile_buffer.wf(),
                    reconcile_buffer.seq_counter() == rb0.seq_counter(),
                    forall|i: int| reconcile_buffer.slot_at(i) == rb0.slot_at(i),
                    out@.len() == out_model.len(),
                    forall|i: int|
                        0 <= i < out_model.len() ==> (#[trigger] out@[i]).received_sequence_number
                            == out_model[i].0 && out@[i].object_states@ == out_model[i].1,
                    total == ({
                        let rest = process_players(
                            messages@.skip(k as int),
                            seq,
                            player_info.current_player_id,
                            slot0,
                            reconcile_buffer.miss_counter(),
                        );
                        ((rest.0, out_model + rest.1))
                    }),
                decreases messages@.len() - k,
            {
                match &messages[k] {
                    UDP::Players { players } => {
                        proof {
                            let ix = seq as int % (BUFFER_SIZE as int);
                            assert(reconcile_buffer.slot_at(ix) == rb0.slot_at(ix));
                            assert(reconcile_buffer.slot(seq) == slot0);
                        }
                        let cmd = reconcile_player(seq, players, player_info, reconcile_buffer);
                        proof {
                            assert(messages@.skip(k as int)[0] == messages@[k as int]);
                        }
                        match cmd {
                            Some(c) => {
                                let ghost pair = (c.received_sequence_number, c.object_states@);
                                out.push(c);
                                proof {
                                    out_model = out_model.push(pair);
                                    let rest_after = process_players(
                                        messages@.skip(k as int + 1),
                                        seq,
                                        player_info.current_player_id,
                                        slot0,
                                        reconcile_buffer.miss_counter(),
                                    );
                                    assert(messages@.skip(k as int).skip(1) =~= messages@.skip(
                                        k as int + 1,
                                    ));
                                    assert(out_model.drop_last() + (seq![pair] + rest_after.1)
                                        =~= out_model + rest_after.1);
                                }
                            },
                            None => {
                                proof {
                                    assert(messages@.skip(k as int).skip(1) =~= messages@.skip(
                                        k as int + 1,
                                    ));
                                }
                            },
                        }
                    },
                    _ => {
                        proof {
                            assert(messages@.skip(k as int)[0] == messages@[k as int]);
                            assert(messages@.skip(k as int).skip(1) =~= messages@.skip(
                                k as int + 1,
                            ));
                        }
                    },
                }
                k += 1;
            }
            proof {
                assert(messages@.skip(messages@.len() as int) =~= Seq::<UDP>::empty());
                assert(out_model + Seq::<(SequenceNumber, Seq<ObjectState>)>::empty()
                    =~= out_model);
            }
            out
        },
    }
}

/// What processing every record of a reliable-channel batch, in order, does
/// to the client's identity, the chat history, and whether the history
/// buffer has been cleared by an identity change along the way.
pub open spec fn tcp_fold(msgs: Seq<TCP>, id: Id, chat: Seq<(Id, ChatMessage)>, cleared: bool) -> (
    Id,
    Seq<(Id, ChatMessage)>,
    bool,
)
    decreases msgs.len(),
{
    if msgs.len() == 0 {
        (id, chat, cleared)
    } else {
        match msgs[0] {
            TCP::Chat { messages } => tcp_fold(
                msgs.skip(1),
                id,
                messages@.take(kept_len(messages@.len() as int)),
                cleared,
            ),
            TCP::PlayerId { player_uid } => tcp_fold(msgs.skip(1), player_uid, chat, true),
            _ => tcp_fold(msgs.skip(1), id, chat, cleared),
        }
    }
}

/// Processes one decoded reliable-channel batch, consuming it: chat history
/// records replace the shown history, and an assigned identity switches the
/// client to it, clearing all recorded history.
pub fn handle_tcp_message(
    messages: Vec<TCP>,
    player_info: &mut PlayerInfo,
    chat: &mut Chat,
    reconcile_buffer: &mut ReconcileBuffer,
)
    requires
        old(reconcile_buffer).wf(),
    ensures
        final(reconcile_buffer).wf(),
        final(reconcile_buffer).miss_counter() == old(reconcile_buffer).miss_counter(),
        final(player_info).player_inputs == old(player_info).player_inputs,
        final(player_info).mouse_delta == old(player_info).mouse_delta,
        ({
            let outcome = tcp_fold(
                messages@,
                old(player_info).current_player_id,
                old(chat).chat_history@,
                false,
            );
            &&& final(player_info).current_player_id == outcome.0
            &&& final(chat).chat_history@ == outcome.1
            &&& if outcome.2 {
                &&& final(reconcile_buffer).seq_counter() == 0
                &&& forall|i: int|
                    0 <= i < BUFFER_SIZE as int ==> final(reconcile_buffer).slot_at(i) is None
            } else {
                &&& final(reconcile_buffer).seq_counter() == old(reconcile_buffer).seq_counter()
                &&& forall|i: int|
                    final(reconcile_buffer).slot_at(i) == old(reconcile_buffer).slot_at(i)
            }
        }),
{
    let mut messages = messages;
    let ghost total = tcp_fold(
        messages@,
        player_info.current_player_id,
        chat.chat_history@,
        false,
    );
    let ghost rb0 = *reconcile_buffer;
    let ghost pi0 = *player_info;
    let ghost mut cleared: bool = false;
    while messages.len() > 0
        invariant
            reconcile_buffer.wf(),
            reconcile_buffer.miss_counter() == rb0.miss_counter(),
            player_info.player_inputs == pi0.player_inputs,
            player_info.mouse_delta == pi0.mouse_delta,
            total == tcp_fold(
                messages@,
                player_info.current_player_id,
                chat.chat_history@,
                cleared,
            ),
            if cleared {
                &&& reconcile_buffer.seq_counter() == 0
                &&& forall|i: int|
                    0 <= i < BUFFER_SIZE as int ==> reconcile_buffer.slot_at(i) is None
            } else {
                &&& reconcile_buffer.seq_counter() == rb0.seq_counter()
                &&& forall|i: int| reconcile_buffer.slot_at(i) == rb0.slot_at(i)
            },
        decreases messages@.len(),
    {
        let ghost before = messages@;
        let m = messages.remove(0);
        proof {
            assert(before.remove(0) =~= before.skip(1));
        }
        match m {
            TCP::Chat { messages: mut batch } => {
                add_chat_message(&mut batch, chat);
            },
            TCP::PlayerId { player_uid } => {
                set_player_id(player_info, player_uid, reconcile_buffer);
                proof {
                    cleared = true;
                }
            },
            _ => {},
        }
    }
    proof {
        assert(messages@.len() == 0);
    }
}

} // verus!
