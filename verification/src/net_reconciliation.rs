//! The history buffer: a fixed-capacity ring of recorded ticks, keyed by
//! sequence number modulo the capacity, together with the sequence counter
//! that tags each outgoing tick and the miss-prediction counter the
//! reconciler uses for hysteresis.

use vstd::prelude::*;

use crate::common::Vec2;
use crate::message::{BitMask, SequenceNumber};
use crate::player::Player;

verus! {

/// How many past ticks the history buffer can hold; entries older than this
/// are silently overwritten by the ring indexing.
pub const BUFFER_SIZE: u16 = 1024;

/// How many consecutive mismatches it takes before a correction is applied;
/// anything shorter is treated as transient noise.
pub const MISS_PREDICT_LIMIT: u16 = 20;

/// One recorded fact about a tick.
#[derive(Clone, Copy, Debug, PartialEq, Eq, Structural)]
pub struct ObjectState(pub StateType);

/// What a recorded fact can be: the predicted player state for the tick, or
/// the input sample that produced the next tick.
#[derive(Clone, Copy, Debug, PartialEq, Eq, Structural)]
pub enum StateType {
    PlayerState { player: Player },
    InputState { encoded_input: BitMask, mouse_delta: Vec2 },
}

/// The player state recorded in a frame: the first `PlayerState` entry, if
/// any.
pub open spec fn first_player_state(frame: Seq<ObjectState>) -> Option<Player>
    decreases frame.len(),
{
    if frame.len() == 0 {
        None
    } else {
        match frame[0].0 {
            StateType::PlayerState { player } => Some(player),
            StateType::InputState { .. } => first_player_state(frame.skip(1)),
        }
    }
}

/// The input recorded in a frame: the first `InputState` entry, if any.
pub open spec fn first_input_state(frame: Seq<ObjectState>) -> Option<(BitMask, Vec2)>
    decreases frame.len(),
{
    if frame.len() == 0 {
        None
    } else {
        match frame[0].0 {
            StateType::InputState { encoded_input, mouse_delta } => Some(
                (encoded_input, mouse_delta),
            ),
            StateType::PlayerState { .. } => first_input_state(frame.skip(1)),
        }
    }
}

/// The ring slot a sequence number is stored in.
pub open spec fn ring_index(seq: SequenceNumber) -> int {
    seq as int % (BUFFER_SIZE as int)
}

/// The input recorded in a slot, if the slot holds a frame at all.
pub open spec fn frame_input(slot: Option<Seq<ObjectState>>) -> Option<(BitMask, Vec2)> {
    match slot {
        Some(f) => first_input_state(f),
        None => None,
    }
}

/// A slot after the resimulator stores a recomputed player state in it: an
/// empty slot stays empty, a frame keeps its inputs and has its player states
/// overwritten.
pub open spec fn replaced_slot(slot: Option<Seq<ObjectState>>, p: Player) -> Option<
    Seq<ObjectState>,
> {
    match slot {
        Some(f) => Some(replace_player_states(f, p)),
        None => None,
    }
}

/// How many ticks a rollback at `seq` has to replay to reach the tick the
/// counter stands at; nothing is buffered at or past the counter, so a
/// rollback point at or past it replays nothing.
pub open spec fn replay_count(seq: SequenceNumber, end: SequenceNumber) -> int {
    if seq < end {
        end - seq
    } else {
        0
    }
}

/// The slot the committed present-tick state is read back from: one below
/// the sequence counter, wrapping to the last slot when the counter is zero.
pub open spec fn commit_index(end: SequenceNumber) -> int {
    if end != 0 {
        end - 1
    } else {
        BUFFER_SIZE as int - 1
    }
}

/// A frame with every recorded player state overwritten by `p`; input entries
/// are untouched.
pub open spec fn replace_player_states(frame: Seq<ObjectState>, p: Player) -> Seq<ObjectState> {
    frame.map_values(
        |os: ObjectState|
            match os.0 {
                StateType::PlayerState { .. } => ObjectState(StateType::PlayerState { player: p }),
                StateType::InputState { .. } => os,
            },
    )
}

/// Returns the player state recorded in `frame`, if any.
pub fn find_player_state(frame: &Vec<ObjectState>) -> (r: Option<Player>)
    ensures
        r == first_player_state(frame@),
{
    proof {
        assert(frame@.skip(0) =~= frame@);
    }
    let mut i: usize = 0;
    while i < frame.len()
        invariant
            0 <= i <= frame@.len(),
            first_player_state(frame@) == first_player_state(frame@.skip(i as int)),
        decreases frame@.len() - i,
    {
        match frame[i].0 {
            StateType::PlayerState { player } => {
                return Some(player);
            },
            StateType::InputState { .. } => {},
        }
        proof {
            assert(frame@.skip(i as int).skip(1) =~= frame@.skip(i as int + 1));
        }
        i += 1;
    }
    None
}

/// Returns the input sample recorded in `frame`, if any.
pub fn find_input_state(frame: &Vec<ObjectState>) -> (r: Option<(BitMask, Vec2)>)
    ensures
        r == first_input_state(frame@),
{
    proof {
        assert(frame@.skip(0) =~= frame@);
    }
    let mut i: usize = 0;
    while i < frame.len()
        invariant
            0 <= i <= frame@.len(),
            first_input_state(frame@) == first_input_state(frame@.skip(i as int)),
        decreases frame@.len() - i,
    {
        match frame[i].0 {
            StateType::InputState { encoded_input, mouse_delta } => {
                return Some((encoded_input, mouse_delta));
            },
            StateType::PlayerState { .. } => {},
        }
        proof {
            assert(frame@.skip(i as int).skip(1) =~= frame@.skip(i as int + 1));
        }
        i += 1;
    }
    None
}

/// Builds the frame that records `frame` with its player states overwritten
/// by `p`.
pub fn replaced_frame(frame: &Vec<ObjectState>, p: Player) -> (r: Vec<ObjectState>)
    ensures
        r@ == replace_player_states(frame@, p),
{
    let mut out: Vec<ObjectState> = Vec::new();
    let mut i: usize = 0;
    while i < frame.len()
        invariant
            0 <= i <= frame@.len(),
            out@ == replace_player_states(frame@.take(i as int), p),
        decreases frame@.len() - i,
    {
        match frame[i].0 {
            StateType::PlayerState { .. } => {
                out.push(ObjectState(StateType::PlayerState { player: p }));
            },
            StateType::InputState { .. } => {
                out.push(frame[i]);
            },
        }
        proof {
            assert(out@ =~= replace_player_states(frame@.take(i as int + 1), p));
        }
        i += 1;
    }
    proof {
        assert(frame@.take(frame@.len() as int) =~= frame@);
    }
    out
}

/// A copy of a recorded frame.
pub fn copy_frame(frame: &Vec<ObjectState>) -> (r: Vec<ObjectState>)
    ensures
        r@ == frame@,
{
    let mut out: Vec<ObjectState> = Vec::new();
    let mut i: usize = 0;
    while i < frame.len()
        invariant
            0 <= i <= frame@.len(),
            out@ == frame@.take(i as int),
        decreases frame@.len() - i,
    {
        out.push(frame[i]);
        proof {
            assert(out@ =~= frame@.take(i as int + 1));
        }
        i += 1;
    }
    proof {
        assert(frame@.take(frame@.len() as int) =~= frame@);
    }
    out
}

/// The ring of recorded ticks, the sequence counter, and the reconciler's
/// miss-prediction counter. The ring always holds exactly `BUFFER_SIZE`
/// slots; a slot is `None` until a tick is first recorded in it and after the
/// buffer is cleared.
pub struct ReconcileBuffer {
    buffer: Vec<Option<Vec<ObjectState>>>,
    counter: SequenceNumber,
    misses: u16,
}

impl ReconcileBuffer {
    /// The frame recorded in ring slot `i`.
    pub closed spec fn slot_at(&self, i: int) -> Option<Seq<ObjectState>> {
        match self.buffer@[i] {
            Some(f) => Some(f@),
            None => None,
        }
    }

    /// The frame recorded for sequence number `seq`: slot `seq` modulo the
    /// capacity.
    pub open spec fn slot(&self, seq: SequenceNumber) -> Option<Seq<ObjectState>> {
        self.slot_at(seq as int % (BUFFER_SIZE as int))
    }

    /// The sequence number the next recorded tick will carry.
    pub closed spec fn seq_counter(&self) -> SequenceNumber {
        self.counter
    }

    /// How many consecutive mismatches the reconciler has seen so far.
    pub closed spec fn miss_counter(&self) -> u16 {
        self.misses
    }

    /// The state the resimulator commits as the new live state: the player
    /// state recorded one slot below the sequence counter.
    pub open spec fn commit_state(&self) -> Option<Player> {
        match self.slot_at(commit_index(self.seq_counter())) {
            Some(f) => first_player_state(f),
            None => None,
        }
    }

    /// Structural soundness: the ring is full-sized and both counters are in
    /// range.
    pub closed spec fn wf(&self) -> bool {
        &&& self.buffer@.len() == BUFFER_SIZE as int
        &&& self.counter < BUFFER_SIZE as u32
        &&& self.misses < MISS_PREDICT_LIMIT
    }

    /// What a well-formed buffer guarantees of its counters.
    pub proof fn lemma_wf_bounds(&self)
        requires
            self.wf(),
        ensures
            self.seq_counter() < BUFFER_SIZE as u32,
            self.miss_counter() < MISS_PREDICT_LIMIT,
    {
    }

    /// The current value of the sequence counter.
    pub fn sequence_counter(&self) -> (r: SequenceNumber)
        ensures
            r == self.seq_counter(),
    {
        self.counter
    }

    /// The current value of the miss-prediction counter.
    pub fn miss_predict_counter(&self) -> (r: u16)
        ensures
            r == self.miss_counter(),
    {
        self.misses
    }

    /// Sets the miss-prediction counter; only the reconciler moves it.
    pub(crate) fn set_miss_predict(&mut self, misses: u16)
        requires
            old(self).wf(),
            misses < MISS_PREDICT_LIMIT,
        ensures
            final(self).wf(),
            final(self).miss_counter() == misses,
            final(self).seq_counter() == old(self).seq_counter(),
            forall|i: int| final(self).slot_at(i) == old(self).slot_at(i),
    {
        self.misses = misses;
    }

    /// An empty history: every slot unrecorded, both counters at zero.
    pub fn new() -> (r: ReconcileBuffer)
        ensures
            r.wf(),
            r.seq_counter() == 0,
            r.miss_counter() == 0,
            forall|i: int| 0 <= i < BUFFER_SIZE as int ==> r.slot_at(i) is None,
    {
        let mut buffer: Vec<Option<Vec<ObjectState>>> = Vec::new();
        let mut i: usize = 0;
        while i < BUFFER_SIZE as usize
            invariant
                0 <= i <= BUFFER_SIZE as int,
                buffer@.len() == i,
                forall|j: int| 0 <= j < i ==> buffer@[j] is None,
            decreases BUFFER_SIZE as int - i,
        {
            buffer.push(None);
            i += 1;
        }
        ReconcileBuffer { buffer, counter: 0, misses: 0 }
    }

    /// Steps the sequence counter to the next tick, wrapping to zero after
    /// the last representable sequence number.
    pub fn increment_sequence_num(&mut self)
        requires
            old(self).wf(),
        ensures
            final(self).wf(),
            final(self).seq_counter() as int == if old(self).seq_counter() == BUFFER_SIZE as u32
                - 1 {
                0
            } else {
                old(self).seq_counter() + 1
            },
            forall|i: int| final(self).slot_at(i) == old(self).slot_at(i),
            final(self).miss_counter() == old(self).miss_counter(),
    {
        if self.counter >= BUFFER_SIZE as u32 - 1 {
            self.counter = 0;
        } else {
            self.counter = self.counter + 1;
        }
    }

    /// The frame recorded for `sequence_number`, if its slot holds one.
    pub fn get(&self, sequence_number: SequenceNumber) -> (r: Option<&Vec<ObjectState>>)
        requires
            self.wf(),
        ensures
            match r {
                Some(f) => self.slot(sequence_number) == Some(f@),
                None => self.slot(sequence_number) is None,
            },
    {
        let index = (sequence_number % BUFFER_SIZE as u32) as usize;
        match &self.buffer[index] {
            Some(f) => Some(f),
            None => None,
        }
    }

    /// Records `frame` for `sequence_number`, overwriting whatever the slot
    /// held.
    pub fn insert(&mut self, sequence_number: SequenceNumber, frame: Vec<ObjectState>)
        requires
            old(self).wf(),
        ensures
            final(self).wf(),
            final(self).slot(sequence_number) == Some(frame@),
            forall|i: int|
                0 <= i < BUFFER_SIZE as int && i != sequence_number as int % (BUFFER_SIZE as int)
                    ==> final(self).slot_at(i) == old(self).slot_at(i),
            final(self).seq_counter() == old(self).seq_counter(),
            final(self).miss_counter() == old(self).miss_counter(),
    {
        let index = (sequence_number % BUFFER_SIZE as u32) as usize;
        *vstd::std_specs::vec::vec_index_mut(&mut self.buffer, index) = Some(frame);
    }

    /// Forgets every recorded tick and restarts the sequence counter; invoked
    /// when the client's identity changes.
    pub fn clear(&mut self)
        requires
            old(self).wf(),
        ensures
            final(self).wf(),
            final(self).seq_counter() == 0,
            final(self).miss_counter() == old(self).miss_counter(),
            forall|i: int| 0 <= i < BUFFER_SIZE as int ==> final(self).slot_at(i) is None,
    {
        let mut buffer: Vec<Option<Vec<ObjectState>>> = Vec::new();
        let mut i: usize = 0;
        while i < BUFFER_SIZE as usize
            invariant
                0 <= i <= BUFFER_SIZE as int,
                buffer@.len() == i,
                forall|j: int| 0 <= j < i ==> buffer@[j] is None,
            decreases BUFFER_SIZE as int - i,
        {
            buffer.push(None);
            i += 1;
        }
        self.buffer = buffer;
        self.counter = 0;
    }
}

/// Records the tick that is being sent right now: the gathered frame is
/// stored under the current sequence counter.
pub fn store_game_state(game_state: Vec<ObjectState>, reconcile_buffer: &mut ReconcileBuffer)
    requires
        old(reconcile_buffer).wf(),
    ensures
        final(reconcile_buffer).wf(),
        final(reconcile_buffer).slot(old(reconcile_buffer).seq_counter()) == Some(game_state@),
        forall|i: int|
            0 <= i < BUFFER_SIZE as int && i != old(reconcile_buffer).seq_counter() as int % (
            BUFFER_SIZE as int) ==> final(reconcile_buffer).slot_at(i) == old(
                reconcile_buffer,
            ).slot_at(i),
        final(reconcile_buffer).seq_counter() == old(reconcile_buffer).seq_counter(),
        final(reconcile_buffer).miss_counter() == old(reconcile_buffer).miss_counter(),
{
    let current_sequence = reconcile_buffer.sequence_counter();
    reconcile_buffer.insert(current_sequence, game_state);
}

} // verus!
