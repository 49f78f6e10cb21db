//! The local player's kinematic state, its tolerant comparison, and the
//! decoding of the per-tick input bitmask.

use vstd::prelude::*;

use crate::common::{Id, Scalar, Vec2, Vec3, vec3_close};
use crate::message::{BitMask, NetworkMessage, SequenceNumber, UDP};
use crate::net_manage::UdpConnection;
use crate::net_reconciliation::{
    BUFFER_SIZE, MISS_PREDICT_LIMIT, ObjectState, ReconcileBuffer, StateType, find_player_state,
    find_input_state, first_input_state, first_player_state, frame_input, replace_player_states,
    replaced_frame, replaced_slot, replay_count, ring_index, copy_frame,
};

verus! {

/// Marks the entity that carries the locally simulated player.
#[derive(Clone, Copy, Debug)]
pub struct PlayerMarker;

/// Which looping animation the player model shows.
#[derive(Clone, Copy, Debug, PartialEq, Eq, Structural)]
pub enum AnimationState {
    Idle,
    Walking,
}

/// The animation chosen for a player this tick.
#[derive(Clone, Copy, Debug, PartialEq, Eq, Structural)]
pub struct PlayerAnimationState(pub AnimationState);

/// Everything the engine records and compares about the local player at one
/// tick. Scalars are bit patterns of the simulation's 32-bit values.
#[derive(Clone, Copy, Debug, PartialEq, Eq, Structural)]
pub struct Player {
    pub position: Vec3,
    pub linear_velocity: Vec3,
    pub yaw: Scalar,
    pub pitch: Scalar,
    pub animation_state: AnimationState,
}

/// Agreement of two player states: position, velocity and both view angles
/// within tolerance, the animation the same.
pub open spec fn player_close(a: Player, b: Player) -> bool {
    &&& vec3_close(a.position, b.position)
    &&& vec3_close(a.linear_velocity, b.linear_velocity)
    &&& a.yaw.close_to(b.yaw)
    &&& a.pitch.close_to(b.pitch)
    &&& a.animation_state == b.animation_state
}

impl Player {
    pub fn new(
        position: Vec3,
        linear_velocity: Vec3,
        yaw: Scalar,
        pitch: Scalar,
        animation_state: AnimationState,
    ) -> (r: Player)
        ensures
            r == (Player { position, linear_velocity, yaw, pitch, animation_state }),
    {
        Player { position, linear_velocity, yaw, pitch, animation_state }
    }

    /// Tolerant comparison against an authoritative state; true means the
    /// prediction is counted as confirmed.
    pub fn approx_eq(&self, other: &Player) -> (r: bool)
        ensures
            r == player_close(*self, *other),
    {
        self.position.approx_eq(&other.position) && self.linear_velocity.approx_eq(
            &other.linear_velocity,
        ) && self.yaw.approx_eq(other.yaw) && self.pitch.approx_eq(other.pitch)
            && (match (self.animation_state, other.animation_state) {
            (AnimationState::Idle, AnimationState::Idle) => true,
            (AnimationState::Walking, AnimationState::Walking) => true,
            _ => false,
        })
    }
}

/// What the client knows about its own identity and the latest sampled input.
#[derive(Clone, Copy, Debug)]
pub struct PlayerInfo {
    pub current_player_id: Id,
    pub player_inputs: BitMask,
    pub mouse_delta: Vec2,
}

/// The bit assigned to each movement intent in the encoded input mask.
pub const INPUT_FORWARD: BitMask = 1;

pub const INPUT_BACK: BitMask = 2;

pub const INPUT_RIGHT: BitMask = 4;

pub const INPUT_LEFT: BitMask = 8;

pub const INPUT_JUMP: BitMask = 16;

/// The mask that the five movement intents pack into, as a sum of the
/// disjoint per-intent bits.
pub open spec fn movement_bits(
    forward: bool,
    back: bool,
    right: bool,
    left: bool,
    jump: bool,
) -> int {
    (if forward {
        INPUT_FORWARD as int
    } else {
        0
    }) + (if back {
        INPUT_BACK as int
    } else {
        0
    }) + (if right {
        INPUT_RIGHT as int
    } else {
        0
    }) + (if left {
        INPUT_LEFT as int
    } else {
        0
    }) + (if jump {
        INPUT_JUMP as int
    } else {
        0
    })
}

/// Packs the five movement intents into the wire bitmask.
pub fn encode_input(forward: bool, back: bool, right: bool, left: bool, jump: bool) -> (r: BitMask)
    ensures
        r as int == movement_bits(forward, back, right, left, jump),
{
    let a: BitMask = if forward {
        INPUT_FORWARD
    } else {
        0
    };
    let b: BitMask = if back {
        INPUT_BACK
    } else {
        0
    };
    let c: BitMask = if right {
        INPUT_RIGHT
    } else {
        0
    };
    let d: BitMask = if left {
        INPUT_LEFT
    } else {
        0
    };
    let e: BitMask = if jump {
        INPUT_JUMP
    } else {
        0
    };
    let encoded: BitMask = (((a | b) | c) | d) | e;
    proof {
        assert((((a | b) | c) | d) | e == a + b + c + d + e) by (bit_vector)
            requires
                (a == 0u8 || a == 1u8) && (b == 0u8 || b == 2u8) && (c == 0u8 || c == 4u8) && (d
                    == 0u8 || d == 8u8) && (e == 0u8 || e == 16u8),
        ;
    }
    encoded
}

/// The unit contribution of each set input bit along the player-local axes:
/// forward and back move on Z, right and left on X, jump raises Y. The
/// combined direction is what the movement step normalizes, turns by the
/// current yaw and scales by the move speed.
pub fn decode_movement(encoded_input: BitMask) -> (r: (i8, i8, bool))
    ensures
        r.0 == (if encoded_input & INPUT_RIGHT != 0 {
            1int
        } else {
            0int
        }) - (if encoded_input & INPUT_LEFT != 0 {
            1int
        } else {
            0int
        }),
        r.1 == (if encoded_input & INPUT_BACK != 0 {
            1int
        } else {
            0int
        }) - (if encoded_input & INPUT_FORWARD != 0 {
            1int
        } else {
            0int
        }),
        r.2 == (encoded_input & INPUT_JUMP != 0),
{
    let mut x: i8 = 0;
    let mut z: i8 = 0;
    if encoded_input & INPUT_FORWARD != 0 {
        z = z - 1;
    }
    if encoded_input & INPUT_BACK != 0 {
        z = z + 1;
    }
    if encoded_input & INPUT_RIGHT != 0 {
        x = x + 1;
    }
    if encoded_input & INPUT_LEFT != 0 {
        x = x - 1;
    }
    let jump = encoded_input & INPUT_JUMP != 0;
    (x, z, jump)
}

/// The authoritative state a snapshot carries for `id`: the first entry
/// listed under that identity, if any.
pub open spec fn lookup_player(players: Seq<(Id, Player)>, id: Id) -> Option<Player>
    decreases players.len(),
{
    if players.len() == 0 {
        None
    } else if players[0].0 == id {
        Some(players[0].1)
    } else {
        lookup_player(players.skip(1), id)
    }
}

/// Returns the authoritative state a snapshot carries for `id`, if any.
pub fn find_server_player(players: &Vec<(Id, Player)>, id: Id) -> (r: Option<Player>)
    ensures
        r == lookup_player(players@, id),
{
    proof {
        assert(players@.skip(0) =~= players@);
    }
    let mut i: usize = 0;
    while i < players.len()
        invariant
            0 <= i <= players@.len(),
            lookup_player(players@, id) == lookup_player(players@.skip(i as int), id),
        decreases players@.len() - i,
    {
        if players[i].0 == id {
            return Some(players[i].1);
        }
        proof {
            assert(players@.skip(i as int).skip(1) =~= players@.skip(i as int + 1));
        }
        i += 1;
    }
    None
}

/// Switches the client to a newly assigned identity and forgets all history
/// recorded under the old one: every buffered tick is dropped and the
/// sequence counter restarts at zero.
pub fn set_player_id(
    player_info: &mut PlayerInfo,
    player_id: Id,
    reconcile_buffer: &mut ReconcileBuffer,
)
    requires
        old(reconcile_buffer).wf(),
    ensures
        final(player_info).current_player_id == player_id,
        final(player_info).player_inputs == old(player_info).player_inputs,
        final(player_info).mouse_delta == old(player_info).mouse_delta,
        final(reconcile_buffer).wf(),
        final(reconcile_buffer).seq_counter() == 0,
        final(reconcile_buffer).miss_counter() == old(reconcile_buffer).miss_counter(),
        forall|i: int|
            0 <= i < BUFFER_SIZE as int ==> final(reconcile_buffer).slot_at(i) is None,
{
    player_info.current_player_id = player_id;
    reconcile_buffer.clear()
}

/// A queued rollback: the tick the authoritative snapshot belongs to, and
/// the frame (authoritative player state, original inputs) to rewind it to.
pub struct ResimulatePlayer {
    pub received_sequence_number: SequenceNumber,
    pub object_states: Vec<ObjectState>,
}

/// What one reconciliation pass does, given the snapshot's state for the
/// local player, the recorded slot for the snapshot's tick, and the current
/// miss-prediction count: the new count, and the rollback command (the
/// divergent tick and the frame to rewind it to), if one is triggered.
pub open spec fn reconcile_outcome(
    seq: SequenceNumber,
    server: Seq<(Id, Player)>,
    id: Id,
    slot: Option<Seq<ObjectState>>,
    misses: u16,
) -> (u16, Option<(SequenceNumber, Seq<ObjectState>)>) {
    match (lookup_player(server, id), slot) {
        (Some(s), Some(f)) => match first_player_state(f) {
            Some(c) => if player_close(s, c) {
                (0u16, None)
            } else if misses >= MISS_PREDICT_LIMIT - 1 {
                (0u16, Some((seq, replace_player_states(f, s))))
            } else {
                ((misses + 1) as u16, None)
            },
            None => (misses, None),
        },
        _ => (misses, None),
    }
}

/// Compares the authoritative snapshot for a past tick against the recorded
/// prediction for that same tick and applies the hysteresis policy.
///
/// When nothing can be compared (the snapshot carries no state for the local
/// player, the tick was never recorded or has been overwritten, or the
/// recorded frame holds no player state) the call is a no-op. A match resets
/// the miss-prediction counter. A mismatch increments it, until the counter
/// stands at `MISS_PREDICT_LIMIT - 1`: that mismatch resets the counter and
/// returns the rollback command for the divergent tick, carrying the
/// recorded frame with its player state overwritten by the authoritative
/// one and its input sample untouched.
pub fn reconcile_player(
    message_seq_num: SequenceNumber,
    server_players: &Vec<(Id, Player)>,
    player_info: &PlayerInfo,
    reconcile_buffer: &mut ReconcileBuffer,
) -> (r: Option<ResimulatePlayer>)
    requires
        old(reconcile_buffer).wf(),
    ensures
        final(reconcile_buffer).wf(),
        final(reconcile_buffer).seq_counter() == old(reconcile_buffer).seq_counter(),
        forall|i: int|
            final(reconcile_buffer).slot_at(i) == old(reconcile_buffer).slot_at(i),
        ({
            let outcome = reconcile_outcome(
                message_seq_num,
                server_players@,
                player_info.current_player_id,
                old(reconcile_buffer).slot(message_seq_num),
                old(reconcile_buffer).miss_counter(),
            );
            &&& final(reconcile_buffer).miss_counter() == outcome.0
            &&& match (r, outcome.1) {
                (None, None) => true,
                (Some(cmd), Some(c)) => {
                    &&& cmd.received_sequence_number == c.0
                    &&& cmd.object_states@ == c.1
                },
                _ => false,
            }
        }),
{
    let server_player_state = find_server_player(server_players, player_info.current_player_id);
    match reconcile_buffer.get(message_seq_num) {
        Some(reconcile_objects) => {
            let client_player_state = find_player_state(reconcile_objects);
            match (server_player_state, client_player_state) {
                (Some(sps), Some(cps)) => {
                    if !sps.approx_eq(&cps) {
                        if reconcile_buffer.miss_predict_counter() >= MISS_PREDICT_LIMIT - 1 {
                            let new_frame_state = replaced_frame(reconcile_objects, sps);
                            reconcile_buffer.set_miss_predict(0);
                            Some(
                                ResimulatePlayer {
                                    received_sequence_number: message_seq_num,
                                    object_states: new_frame_state,
                                },
                            )
                        } else {
                            let misses = reconcile_buffer.miss_predict_counter();
                            reconcile_buffer.set_miss_predict(misses + 1);
                            None
                        }
                    } else {
                        reconcile_buffer.set_miss_predict(0);
                        None
                    }
                },
                _ => None,
            }
        },
        None => None,
    }
}

impl ResimulatePlayer {
    /// Rollback: rewinds history at the divergence point. The carried frame
    /// overwrites the recorded one, and the player state found in it is
    /// returned so the live simulation can be set to it.
    pub fn rollback_player(&self, reconcile_buffer: &mut ReconcileBuffer) -> (r: Option<Player>)
        requires
            old(reconcile_buffer).wf(),
        ensures
            final(reconcile_buffer).wf(),
            final(reconcile_buffer).seq_counter() == old(reconcile_buffer).seq_counter(),
            final(reconcile_buffer).miss_counter() == old(reconcile_buffer).miss_counter(),
            final(reconcile_buffer).slot(self.received_sequence_number) == Some(
                self.object_states@,
            ),
            forall|i: int|
                0 <= i < BUFFER_SIZE as int && i != ring_index(self.received_sequence_number)
                    ==> final(reconcile_buffer).slot_at(i) == old(reconcile_buffer).slot_at(i),
            r == first_player_state(self.object_states@),
    {
        let frame = copy_frame(&self.object_states);
        reconcile_buffer.insert(self.received_sequence_number, frame);
        find_player_state(&self.object_states)
    }

    /// Replay: starting from `start`, re-runs the prediction step for every
    /// buffered tick from the rollback point up to (but excluding) the tick
    /// the sequence counter stands at, in strictly increasing order. Each
    /// replayed tick is stepped with the input recorded for it (an empty or
    /// input-less slot contributes no input, but the step still runs), and
    /// the recomputed state overwrites the recorded one, inputs untouched.
    ///
    /// Returns the state after the last replayed tick, together with the
    /// whole replayed trajectory, which successive entries of the step
    /// relation connect.
    pub fn resimulate_player<F: Fn(Player, Option<(BitMask, Vec2)>) -> Player>(
        &self,
        reconcile_buffer: &mut ReconcileBuffer,
        start: Player,
        step: &F,
    ) -> (r: (Player, Ghost<Seq<Player>>))
        requires
            old(reconcile_buffer).wf(),
            forall|p: Player, inp: Option<(BitMask, Vec2)>| call_requires(*step, (p, inp)),
        ensures
            final(reconcile_buffer).wf(),
            final(reconcile_buffer).seq_counter() == old(reconcile_buffer).seq_counter(),
            final(reconcile_buffer).miss_counter() == old(reconcile_buffer).miss_counter(),
            ({
                let seq = self.received_sequence_number;
                let n = replay_count(seq, old(reconcile_buffer).seq_counter());
                let tr = r.1@;
                &&& tr.len() == n + 1
                &&& tr[0] == start
                &&& r.0 == tr[n]
                &&& forall|j: int|
                    0 <= j < n ==> call_ensures(
                        *step,
                        (#[trigger] tr[j], frame_input(old(reconcile_buffer).slot_at(seq as int + j))),
                        tr[j + 1],
                    )
                &&& forall|k: int|
                    seq as int <= k < seq as int + n ==> final(reconcile_buffer).slot_at(k)
                        == replaced_slot(old(reconcile_buffer).slot_at(k), tr[k - seq as int + 1])
                &&& forall|k: int|
                    0 <= k < BUFFER_SIZE as int && !(seq as int <= k < seq as int + n)
                        ==> final(reconcile_buffer).slot_at(k) == old(reconcile_buffer).slot_at(k)
            }),
    {
        let ghost rb0 = *reconcile_buffer;
        proof {
            rb0.lemma_wf_bounds();
        }
        let seq = self.received_sequence_number;
        let end = reconcile_buffer.sequence_counter();
        let mut cur = start;
        let ghost mut tr: Seq<Player> = seq![start];
        let mut i: u32 = seq;
        while i < end
            invariant
                forall|p: Player, inp: Option<(BitMask, Vec2)>| call_requires(*step, (p, inp)),
                reconcile_buffer.wf(),
                reconcile_buffer.seq_counter() == rb0.seq_counter(),
                reconcile_buffer.miss_counter() == rb0.miss_counter(),
                end == rb0.seq_counter(),
                end < BUFFER_SIZE as u32,
                seq <= i,
                seq < end ==> i <= end,
                seq >= end ==> i == seq,
                tr.len() == i - seq + 1,
                tr[0] == start,
                cur == tr[i - seq],
                forall|j: int|
                    0 <= j < i - seq ==> call_ensures(
                        *step,
                        (#[trigger] tr[j], frame_input(rb0.slot_at(seq as int + j))),
                        tr[j + 1],
                    ),
                forall|k: int|
                    seq as int <= k < i as int ==> reconcile_buffer.slot_at(k) == replaced_slot(
                        rb0.slot_at(k),
                        tr[k - seq as int + 1],
                    ),
                forall|k: int|
                    0 <= k < BUFFER_SIZE as int && !(seq as int <= k < i as int)
                        ==> reconcile_buffer.slot_at(k) == rb0.slot_at(k),
            decreases end - i,
        {
            proof {
                assert(i as int % (BUFFER_SIZE as int) == i as int);
            }
            let frame_input_now = match reconcile_buffer.get(i) {
                Some(f) => find_input_state(f),
                None => None,
            };
            let next = step(cur, frame_input_now);
            proof {
                tr = tr.push(next);
            }
            match reconcile_buffer.get(i) {
                Some(f) => {
                    let new_frame = replaced_frame(f, next);
                    reconcile_buffer.insert(i, new_frame);
                },
                None => {},
            }
            cur = next;
            i += 1;
        }
        (cur, Ghost(tr))
    }

    /// Commit: reads back the recorded state one tick below the sequence
    /// counter, the new best guess for the present tick.
    pub fn set_updated_player_state(&self, reconcile_buffer: &ReconcileBuffer) -> (r: Option<
        Player,
    >)
        requires
            reconcile_buffer.wf(),
        ensures
            r == reconcile_buffer.commit_state(),
    {
        proof {
            reconcile_buffer.lemma_wf_bounds();
        }
        let index: u32 = if reconcile_buffer.sequence_counter() != 0 {
            reconcile_buffer.sequence_counter() - 1
        } else {
            BUFFER_SIZE as u32 - 1
        };
        proof {
            assert(index as int % (BUFFER_SIZE as int) == index as int);
        }
        match reconcile_buffer.get(index) {
            Some(frame) => find_player_state(frame),
            None => None,
        }
    }

    /// Runs the whole correction atomically with respect to the simulation:
    /// rollback, replay, commit. `current_live` is the live state the
    /// simulation holds when the correction starts; it is only consulted if
    /// the carried frame holds no player state. The returned state is what
    /// the live simulation must be set to, and the returned trajectory is
    /// the replayed history, each step of which the step relation connects.
    #[verifier::rlimit(60)]
    pub fn apply<F: Fn(Player, Option<(BitMask, Vec2)>) -> Player>(
        self,
        reconcile_buffer: &mut ReconcileBuffer,
        current_live: Player,
        step: &F,
    ) -> (r: (Player, Ghost<Seq<Player>>))
        requires
            old(reconcile_buffer).wf(),
            forall|p: Player, inp: Option<(BitMask, Vec2)>| call_requires(*step, (p, inp)),
        ensures
            final(reconcile_buffer).wf(),
            final(reconcile_buffer).seq_counter() == old(reconcile_buffer).seq_counter(),
            final(reconcile_buffer).miss_counter() == old(reconcile_buffer).miss_counter(),
            ({
                let seq = self.received_sequence_number;
                let n = replay_count(seq, old(reconcile_buffer).seq_counter());
                let start = match first_player_state(self.object_states@) {
                    Some(p) => p,
                    None => current_live,
                };
                let tr = r.1@;
                &&& tr.len() == n + 1
                &&& tr[0] == start
                &&& forall|j: int|
                    0 <= j < n ==> call_ensures(
                        *step,
                        (
                            #[trigger] tr[j],
                            if j == 0 {
                                first_input_state(self.object_states@)
                            } else {
                                frame_input(old(reconcile_buffer).slot_at(seq as int + j))
                            },
                        ),
                        tr[j + 1],
                    )
                &&& n > 0 ==> final(reconcile_buffer).slot_at(seq as int) == Some(
                    replace_player_states(self.object_states@, tr[1]),
                )
                &&& n == 0 ==> final(reconcile_buffer).slot(seq) == Some(self.object_states@)
                &&& forall|k: int|
                    seq as int + 1 <= k < seq as int + n ==> final(reconcile_buffer).slot_at(k)
                        == replaced_slot(old(reconcile_buffer).slot_at(k), tr[k - seq as int + 1])
                &&& forall|k: int|
                    0 <= k < BUFFER_SIZE as int && !(seq as int <= k < seq as int + n) && k
                        != ring_index(seq) ==> final(reconcile_buffer).slot_at(k) == old(
                        reconcile_buffer,
                    ).slot_at(k)
                &&& r.0 == match final(reconcile_buffer).commit_state() {
                    Some(p) => p,
                    None => tr[n],
                }
            }),
    {
        let ghost rb0 = *reconcile_buffer;
        proof {
            rb0.lemma_wf_bounds();
        }
        let rollback_state = self.rollback_player(reconcile_buffer);
        let ghost rb1 = *reconcile_buffer;
        let start = match rollback_state {
            Some(p) => p,
            None => current_live,
        };
        let (replayed, tr) = self.resimulate_player(reconcile_buffer, start, step);
        let committed = self.set_updated_player_state(reconcile_buffer);
        let live = match committed {
            Some(p) => p,
            None => replayed,
        };
        proof {
            let seq = self.received_sequence_number;
            let end = rb0.seq_counter();
            let n = replay_count(seq, end);
            vstd::arithmetic::div_mod::lemma_mod_bound(
                seq as int,
                BUFFER_SIZE as int,
            );
            if n > 0 {
                assert(seq < end);
                vstd::arithmetic::div_mod::lemma_small_mod(seq as nat, BUFFER_SIZE as nat);
                assert(ring_index(seq) == seq as int);
                assert(rb1.slot_at(seq as int) == Some(self.object_states@));
                assert(frame_input(rb1.slot_at(seq as int)) == first_input_state(
                    self.object_states@,
                ));
                assert(final(reconcile_buffer).slot_at(seq as int) == replaced_slot(
                    Some(self.object_states@),
                    tr@[1],
                ));
            } else {
                assert(rb1.slot_at(ring_index(seq)) == Some(self.object_states@));
                assert(final(reconcile_buffer).slot_at(ring_index(seq)) == rb1.slot_at(
                    ring_index(seq),
                ));
            }
        }
        (live, tr)
    }
}

/// Replay is deterministic: when the step function is deterministic (every
/// pair of outcomes it admits for the same state and input coincide), any
/// two trajectories that start from the same state and are driven by the
/// same recorded inputs are identical, tick for tick. Live prediction and
/// rollback resimulation both produce such trajectories, so replaying the
/// buffered inputs reproduces exactly what live prediction produced.
pub proof fn lemma_replay_deterministic<F: Fn(Player, Option<(BitMask, Vec2)>) -> Player>(
    step: F,
    start: Player,
    inputs: Seq<Option<(BitMask, Vec2)>>,
    t1: Seq<Player>,
    t2: Seq<Player>,
)
    requires
        forall|a: (Player, Option<(BitMask, Vec2)>), r1: Player, r2: Player|
            call_ensures(step, a, r1) && call_ensures(step, a, r2) ==> r1 == r2,
        t1.len() == inputs.len() + 1,
        t2.len() == inputs.len() + 1,
        t1[0] == start,
        t2[0] == start,
        forall|j: int|
            0 <= j < inputs.len() ==> call_ensures(step, (t1[j], inputs[j]), t1[j + 1]),
        forall|j: int|
            0 <= j < inputs.len() ==> call_ensures(step, (t2[j], inputs[j]), t2[j + 1]),
    ensures
        t1 == t2,
    decreases inputs.len(),
{
    if inputs.len() == 0 {
        assert(t1 =~= t2);
    } else {
        let n = inputs.len() as int;
        lemma_replay_deterministic(
            step,
            start,
            inputs.drop_last(),
            t1.drop_last(),
            t2.drop_last(),
        );
        assert forall|j: int| 0 <= j < n implies t1[j] == t2[j] by {
            assert(t1.drop_last()[j] == t1[j]);
            assert(t2.drop_last()[j] == t2[j]);
        }
        assert(call_ensures(step, (t1[n - 1], inputs[n - 1]), t1[n]));
        assert(call_ensures(step, (t2[n - 1], inputs[n - 1]), t2[n]));
        assert(t1 =~= t2);
    }
}

/// Whether `id` is among the identities already present on the client.
pub open spec fn contains_id(clients: Seq<Id>, id: Id) -> bool {
    exists|i: int| 0 <= i < clients.len() && clients[i] == id
}

/// Returns whether `id` is among the identities already present.
pub fn contains_client(clients: &Vec<Id>, id: Id) -> (r: bool)
    ensures
        r == contains_id(clients@, id),
{
    let mut i: usize = 0;
    while i < clients.len()
        invariant
            0 <= i <= clients@.len(),
            forall|j: int| 0 <= j < i ==> clients@[j] != id,
        decreases clients@.len() - i,
    {
        if clients[i].0 == id.0 {
            return true;
        }
        i += 1;
    }
    false
}

/// The updates a snapshot calls for: every already-present player that the
/// snapshot carries a state for, except the locally predicted one, paired
/// with that authoritative state, in the order the client lists them.
pub open spec fn update_list(clients: Seq<Id>, server: Seq<(Id, Player)>, current: Id) -> Seq<
    (Id, Player),
>
    decreases clients.len(),
{
    if clients.len() == 0 {
        Seq::empty()
    } else {
        let rest = update_list(clients.skip(1), server, current);
        match lookup_player(server, clients[0]) {
            Some(p) => if clients[0] != current {
                seq![(clients[0], p)] + rest
            } else {
                rest
            },
            None => rest,
        }
    }
}

/// The spawns a snapshot calls for: every player the snapshot carries that
/// is not yet present on the client, in snapshot order.
pub open spec fn spawn_list(server: Seq<(Id, Player)>, clients: Seq<Id>) -> Seq<(Id, Player)>
    decreases server.len(),
{
    if server.len() == 0 {
        Seq::empty()
    } else {
        let rest = spawn_list(server.skip(1), clients);
        if !contains_id(clients, server[0].0) {
            seq![server[0]] + rest
        } else {
            rest
        }
    }
}

/// Works out what an authoritative snapshot means for the other players on
/// screen: which already-present players get their state overwritten by the
/// server (never the locally predicted one), and which players have to be
/// spawned because the server knows them and the client does not. Applying
/// the transforms and spawning the scene objects happen outside the library.
pub fn update_players(
    server_players: &Vec<(Id, Player)>,
    client_players: &Vec<Id>,
    info: &PlayerInfo,
) -> (r: (Vec<(Id, Player)>, Vec<(Id, Player)>))
    ensures
        r.0@ == update_list(client_players@, server_players@, info.current_player_id),
        r.1@ == spawn_list(server_players@, client_players@),
{
    let mut updates: Vec<(Id, Player)> = Vec::new();
    let ghost total_updates = update_list(
        client_players@,
        server_players@,
        info.current_player_id,
    );
    let mut i: usize = 0;
    proof {
        assert(client_players@.skip(0) =~= client_players@);
    }
    while i < client_players.len()
        invariant
            0 <= i <= client_players@.len(),
            total_updates == update_list(
                client_players@,
                server_players@,
                info.current_player_id,
            ),
            total_updates == updates@ + update_list(
                client_players@.skip(i as int),
                server_players@,
                info.current_player_id,
            ),
        decreases client_players@.len() - i,
    {
        let id = client_players[i];
        match find_server_player(server_players, id) {
            Some(p) => {
                if id.0 != info.current_player_id.0 {
                    updates.push((id, p));
                }
            },
            None => {},
        }
        proof {
            assert(client_players@.skip(i as int)[0] == client_players@[i as int]);
            assert(client_players@.skip(i as int).skip(1) =~= client_players@.skip(i as int + 1));
            let rest = update_list(
                client_players@.skip(i as int + 1),
                server_players@,
                info.current_player_id,
            );
            match lookup_player(server_players@, client_players@[i as int]) {
                Some(p) => {
                    if client_players@[i as int] != info.current_player_id {
                        assert(updates@.drop_last() + (seq![(client_players@[i as int], p)] + rest)
                            =~= updates@ + rest);
                    }
                },
                None => {},
            }
        }
        i += 1;
    }
    proof {
        assert(client_players@.skip(client_players@.len() as int) =~= Seq::<Id>::empty());
        assert(updates@ + Seq::<(Id, Player)>::empty() =~= updates@);
    }
    let mut spawns: Vec<(Id, Player)> = Vec::new();
    let ghost total_spawns = spawn_list(server_players@, client_players@);
    let mut k: usize = 0;
    proof {
        assert(server_players@.skip(0) =~= server_players@);
    }
    while k < server_players.len()
        invariant
            0 <= k <= server_players@.len(),
            total_spawns == spawn_list(server_players@, client_players@),
            total_spawns == spawns@ + spawn_list(server_players@.skip(k as int), client_players@),
        decreases server_players@.len() - k,
    {
        let entry = server_players[k];
        if !contains_client(client_players, entry.0) {
            spawns.push(entry);
        }
        proof {
            assert(server_players@.skip(k as int)[0] == server_players@[k as int]);
            assert(server_players@.skip(k as int).skip(1) =~= server_players@.skip(k as int + 1));
            let rest = spawn_list(server_players@.skip(k as int + 1), client_players@);
            if !contains_id(client_players@, server_players@[k as int].0) {
                assert(spawns@.drop_last() + (seq![server_players@[k as int]] + rest) =~= spawns@
                    + rest);
            }
        }
        k += 1;
    }
    proof {
        assert(server_players@.skip(server_players@.len() as int) =~= Seq::<(Id, Player)>::empty());
        assert(spawns@ + Seq::<(Id, Player)>::empty() =~= spawns@);
    }
    (updates, spawns)
}

/// Closes out the sampling of one live tick, once the remote end is known:
/// decides the animation the tick shows (walking exactly when any movement
/// bit is set), queues the sampled input for the server tagged with the
/// local identity, remembers the sampled bits, and hands back the frame --
/// the predicted state as recorded and the input that produced it -- for the
/// history buffer. Before the remote end is known nothing happens.
///
/// `player` is the predicted state of the local player after this tick's
/// movement and camera input have been applied by the simulation.
pub fn player_control(
    encoded_input: BitMask,
    mouse_delta: Vec2,
    player: Player,
    player_info: &mut PlayerInfo,
    connection: &mut UdpConnection,
) -> (r: Option<(AnimationState, Vec<ObjectState>)>)
    ensures
        !old(connection).connected ==> {
            &&& r is None
            &&& final(connection).output_message@ == old(connection).output_message@
            &&& *final(player_info) == *old(player_info)
        },
        old(connection).connected ==> ({
            let anim = if encoded_input != 0 {
                AnimationState::Walking
            } else {
                AnimationState::Idle
            };
            let recorded = Player {
                position: player.position,
                linear_velocity: player.linear_velocity,
                yaw: player.yaw,
                pitch: player.pitch,
                animation_state: anim,
            };
            &&& match r {
                Some(pair) => {
                    &&& pair.0 == anim
                    &&& pair.1@ == seq![
                        ObjectState(StateType::PlayerState { player: recorded }),
                        ObjectState(StateType::InputState { encoded_input, mouse_delta }),
                    ]
                },
                None => false,
            }
            &&& final(player_info).player_inputs == encoded_input
            &&& final(player_info).current_player_id == old(player_info).current_player_id
            &&& final(player_info).mouse_delta == old(player_info).mouse_delta
            &&& final(connection).output_message@ == old(connection).output_message@.push(
                (NetworkMessage(
                    UDP::Input {
                        keymask: encoded_input,
                        mouse_delta,
                        player_id: old(player_info).current_player_id,
                    },
                )),
            )
        }),
        final(connection).connected == old(connection).connected,
        final(connection).input_packet_buffer@ == old(connection).input_packet_buffer@,
        final(connection).ping == old(connection).ping,
{
    if connection.connected {
        let animation = if encoded_input != 0 {
            AnimationState::Walking
        } else {
            AnimationState::Idle
        };
        let recorded = Player::new(
            player.position,
            player.linear_velocity,
            player.yaw,
            player.pitch,
            animation,
        );
        let mut frame: Vec<ObjectState> = Vec::new();
        frame.push(ObjectState(StateType::PlayerState { player: recorded }));
        frame.push(ObjectState(StateType::InputState { encoded_input, mouse_delta }));
        let player_id = player_info.current_player_id;
        player_info.player_inputs = encoded_input;
        connection.add_message(
            NetworkMessage(UDP::Input { keymask: encoded_input, mouse_delta, player_id }),
        );
        Some((animation, frame))
    } else {
        None
    }
}

} // verus!
