//! Rollback correctness: after a sustained divergence triggers a correction,
//! the resimulator rewrites history exactly as re-running the prediction
//! step from the authoritative state would, and commits the last recomputed
//! tick as the live state. Replay is deterministic: the same inputs from the
//! same start give the same trajectory, run after run.

use rollback::common::{Id, Scalar, Vec2, Vec3};
use rollback::net_reconciliation::{ObjectState, ReconcileBuffer, StateType, store_game_state};
use rollback::player::{AnimationState, Player, PlayerInfo, reconcile_player};

fn scalar(v: f32) -> Scalar {
    Scalar(v.to_bits())
}

fn vec2_zero() -> Vec2 {
    Vec2 { x: scalar(0.0), y: scalar(0.0) }
}

fn player_with_bits(x: u32) -> Player {
    Player {
        position: Vec3 { x: Scalar(x), y: Scalar(0), z: Scalar(0) },
        linear_velocity: Vec3 { x: Scalar(0), y: Scalar(0), z: Scalar(0) },
        yaw: Scalar(0),
        pitch: Scalar(0),
        animation_state: AnimationState::Idle,
    }
}

/// A deterministic stand-in for one prediction-plus-physics step, working on
/// the raw bit patterns.
fn step(p: Player, inp: Option<(u8, Vec2)>) -> Player {
    let bump: u32 = match inp {
        Some((mask, _)) => 1 + mask as u32,
        None => 7,
    };
    Player {
        position: Vec3 {
            x: Scalar(p.position.x.0.wrapping_mul(31).wrapping_add(bump)),
            y: p.position.y,
            z: p.position.z,
        },
        ..p
    }
}

fn frame(state: Player, encoded_input: u8) -> Vec<ObjectState> {
    vec![
        ObjectState(StateType::PlayerState { player: state }),
        ObjectState(StateType::InputState { encoded_input, mouse_delta: vec2_zero() }),
    ]
}

fn recorded_player(buf: &ReconcileBuffer, seq: u32) -> Player {
    let f = buf.get(seq).expect("slot must be recorded");
    for os in f.iter() {
        if let StateType::PlayerState { player } = os.0 {
            return player;
        }
    }
    panic!("no player state recorded at {seq}");
}

fn recorded_input(buf: &ReconcileBuffer, seq: u32) -> u8 {
    let f = buf.get(seq).expect("slot must be recorded");
    for os in f.iter() {
        if let StateType::InputState { encoded_input, .. } = os.0 {
            return encoded_input;
        }
    }
    panic!("no input recorded at {seq}");
}

/// Records ticks 100..110 with distinct states and inputs; the counter ends
/// at 110.
fn build_history() -> ReconcileBuffer {
    let mut buf = ReconcileBuffer::new();
    for s in 0..110u32 {
        if s >= 100 {
            let state = player_with_bits(1000 + s);
            let input = (s % 5) as u8;
            store_game_state(frame(state, input), &mut buf);
        }
        buf.increment_sequence_num();
    }
    assert_eq!(buf.sequence_counter(), 110);
    buf
}

fn trigger_correction(buf: &mut ReconcileBuffer, authoritative: Player) -> rollback::player::ResimulatePlayer {
    let server = vec![(Id(7), authoritative)];
    let me = PlayerInfo { current_player_id: Id(7), player_inputs: 0, mouse_delta: vec2_zero() };
    let mut cmd = None;
    for _ in 0..20 {
        cmd = reconcile_player(100, &server, &me, buf);
    }
    cmd.expect("twenty consecutive mismatches must trigger a correction")
}

#[test]
fn rollback_replays_history_from_the_authoritative_state() {
    let mut buf = build_history();
    let authoritative = player_with_bits(555_555);
    let original_inputs: Vec<u8> = (100..110).map(|s| recorded_input(&buf, s)).collect();
    let cmd = trigger_correction(&mut buf, authoritative);

    let live_before = player_with_bits(42);
    let (live, _) = cmd.apply(&mut buf, live_before, &step);

    // Recompute by hand what replaying from the authoritative state with the
    // originally buffered inputs must give.
    let mut expected = authoritative;
    for (k, seq) in (100..110u32).enumerate() {
        expected = step(expected, Some((original_inputs[k], vec2_zero())));
        assert_eq!(
            recorded_player(&buf, seq),
            expected,
            "replayed entry at tick {seq} must equal the recomputation"
        );
        assert_eq!(
            recorded_input(&buf, seq),
            original_inputs[k],
            "inputs must survive the rollback untouched"
        );
    }
    // The live state is the recomputed entry one tick below the counter.
    assert_eq!(buf.sequence_counter(), 110);
    assert_eq!(live, recorded_player(&buf, 109));
    assert_eq!(live, expected);
}

#[test]
fn replay_is_deterministic_run_for_run() {
    let authoritative = player_with_bits(999_999);
    let mut first = build_history();
    let cmd1 = trigger_correction(&mut first, authoritative);
    let (live1, _) = cmd1.apply(&mut first, player_with_bits(1), &step);

    let mut second = build_history();
    let cmd2 = trigger_correction(&mut second, authoritative);
    let (live2, _) = cmd2.apply(&mut second, player_with_bits(1), &step);

    assert_eq!(live1, live2);
    for seq in 100..110u32 {
        assert_eq!(recorded_player(&first, seq), recorded_player(&second, seq));
    }
}

#[test]
fn rollback_past_the_counter_only_rewrites_the_divergent_tick() {
    // A rollback point at or past the counter has nothing buffered after it:
    // the frame is rewritten, nothing is replayed, and history elsewhere is
    // untouched.
    let mut buf = build_history();
    let authoritative = player_with_bits(777);
    let cmd = rollback::player::ResimulatePlayer {
        received_sequence_number: 110,
        object_states: frame(authoritative, 3),
    };
    let before_105 = recorded_player(&buf, 105);
    let (live, _) = cmd.apply(&mut buf, player_with_bits(1), &step);
    assert_eq!(recorded_player(&buf, 110), authoritative);
    assert_eq!(recorded_player(&buf, 105), before_105);
    // The commit still reads back the entry below the counter.
    assert_eq!(live, recorded_player(&buf, 109));
}

#[test]
fn commit_wraps_to_the_last_slot_when_the_counter_is_zero() {
    // Fill the whole revolution so the counter is back at zero, with the
    // newest recorded tick in the last slot.
    let mut buf = ReconcileBuffer::new();
    for s in 0..1024u32 {
        store_game_state(frame(player_with_bits(s), 0), &mut buf);
        buf.increment_sequence_num();
    }
    assert_eq!(buf.sequence_counter(), 0);
    // Nothing is replayed (the rollback point is not below the counter), but
    // the commit still reads back the slot one below it, wrapping around.
    let cmd = rollback::player::ResimulatePlayer {
        received_sequence_number: 500,
        object_states: frame(player_with_bits(999_999), 0),
    };
    let (live, _) = cmd.apply(&mut buf, player_with_bits(1), &step);
    assert_eq!(live, player_with_bits(1023));
    assert_eq!(recorded_player(&buf, 500), player_with_bits(999_999));
}
