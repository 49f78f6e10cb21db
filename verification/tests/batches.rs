//! Decoded inbound batches: the sequence-tag rule on the snapshot side, and
//! chat and identity handling on the reliable side.

use rollback::chat::{Chat, ChatKey, ChatMessage, add_chat_message, chat_window};
use rollback::common::{Id, Scalar, Vec2, Vec3};
use rollback::message::{TCP, UDP};
use rollback::net_reconciliation::{
    ObjectState, ReconcileBuffer, StateType, store_game_state,
};
use rollback::net_tasks::{handle_tcp_message, handle_udp_message};
use rollback::player::{AnimationState, Player, PlayerInfo};
use std::collections::VecDeque;

fn scalar(v: f32) -> Scalar {
    Scalar(v.to_bits())
}

fn vec2_zero() -> Vec2 {
    Vec2 { x: scalar(0.0), y: scalar(0.0) }
}

fn player_at(x: f32) -> Player {
    Player {
        position: Vec3 { x: scalar(x), y: scalar(0.0), z: scalar(0.0) },
        linear_velocity: Vec3 { x: scalar(0.0), y: scalar(0.0), z: scalar(0.0) },
        yaw: scalar(0.0),
        pitch: scalar(0.0),
        animation_state: AnimationState::Idle,
    }
}

fn frame(state: Player) -> Vec<ObjectState> {
    vec![
        ObjectState(StateType::PlayerState { player: state }),
        ObjectState(StateType::InputState { encoded_input: 0, mouse_delta: vec2_zero() }),
    ]
}

fn info(id: u32) -> PlayerInfo {
    PlayerInfo { current_player_id: Id(id), player_inputs: 0, mouse_delta: vec2_zero() }
}

fn msg(text: &str) -> ChatMessage {
    ChatMessage { message: text.to_string() }
}

#[test]
fn a_batch_without_a_sequence_tag_is_ignored() {
    let mut buf = ReconcileBuffer::new();
    store_game_state(frame(player_at(1.0)), &mut buf);
    buf.increment_sequence_num();
    let batch = vec![UDP::Players { players: vec![(Id(7), player_at(50.0))] }];
    let cmds = handle_udp_message(&batch, &info(7), &mut buf);
    assert!(cmds.is_empty());
    assert_eq!(buf.miss_predict_counter(), 0);
}

#[test]
fn a_tagged_batch_reconciles_each_players_record() {
    let mut buf = ReconcileBuffer::new();
    store_game_state(frame(player_at(1.0)), &mut buf);
    buf.increment_sequence_num();
    let batch = vec![
        UDP::Sequence { sequence_number: 0 },
        UDP::Players { players: vec![(Id(7), player_at(50.0))] },
        UDP::Players { players: vec![(Id(7), player_at(50.0))] },
    ];
    let cmds = handle_udp_message(&batch, &info(7), &mut buf);
    assert!(cmds.is_empty());
    // Both records mismatched, so two misses are on the counter.
    assert_eq!(buf.miss_predict_counter(), 2);

    // A matching record drops the counter back to zero.
    let matching = vec![
        UDP::Sequence { sequence_number: 0 },
        UDP::Players { players: vec![(Id(7), player_at(1.0))] },
    ];
    let cmds = handle_udp_message(&matching, &info(7), &mut buf);
    assert!(cmds.is_empty());
    assert_eq!(buf.miss_predict_counter(), 0);
}

#[test]
fn the_twentieth_mismatch_in_batches_emits_the_command() {
    let mut buf = ReconcileBuffer::new();
    store_game_state(frame(player_at(1.0)), &mut buf);
    buf.increment_sequence_num();
    let batch = vec![
        UDP::Sequence { sequence_number: 0 },
        UDP::Players { players: vec![(Id(7), player_at(50.0))] },
    ];
    let mut commands = Vec::new();
    for _ in 0..20 {
        commands = handle_udp_message(&batch, &info(7), &mut buf);
    }
    assert_eq!(commands.len(), 1);
    assert_eq!(commands[0].received_sequence_number, 0);
    assert_eq!(buf.miss_predict_counter(), 0);
}

#[test]
fn an_assigned_identity_clears_history() {
    let mut buf = ReconcileBuffer::new();
    store_game_state(frame(player_at(1.0)), &mut buf);
    buf.increment_sequence_num();
    let mut me = info(7);
    let mut chat = Chat { chat_history: VecDeque::new() };
    let batch = vec![TCP::PlayerId { player_uid: Id(12) }];
    handle_tcp_message(batch, &mut me, &mut chat, &mut buf);
    assert_eq!(me.current_player_id, Id(12));
    assert_eq!(buf.sequence_counter(), 0);
    assert!(buf.get(0).is_none());
}

#[test]
fn chat_batches_replace_the_history_in_order() {
    let mut buf = ReconcileBuffer::new();
    let mut me = info(7);
    let mut chat = Chat { chat_history: VecDeque::new() };
    let batch = vec![TCP::Chat {
        messages: vec![(Id(1), msg("hello")), (Id(2), msg("there"))],
    }];
    handle_tcp_message(batch, &mut me, &mut chat, &mut buf);
    assert_eq!(chat.chat_history.len(), 2);
    assert_eq!(chat.chat_history[0].0, Id(1));
    assert_eq!(chat.chat_history[0].1.message, "hello");
    assert_eq!(chat.chat_history[1].1.message, "there");
    // Identity and history were untouched.
    assert_eq!(me.current_player_id, Id(7));
    assert_eq!(buf.sequence_counter(), 0);
}

#[test]
fn the_history_keeps_only_the_head_of_a_long_batch() {
    let mut chat = Chat { chat_history: VecDeque::new() };
    let mut messages: Vec<(Id, ChatMessage)> =
        (0..30u32).map(|i| (Id(i), msg(&format!("m{i}")))).collect();
    add_chat_message(&mut messages, &mut chat);
    assert!(messages.is_empty());
    assert_eq!(chat.chat_history.len(), 11);
    for i in 0..11u32 {
        assert_eq!(chat.chat_history[i as usize].0, Id(i));
    }
}

#[test]
fn the_input_line_edits_by_keystroke() {
    let mut line: Vec<char> = Vec::new();
    let mut active = false;

    // Typing while inactive does nothing.
    assert!(chat_window(&mut line, &mut active, ChatKey::Character('x'), true).is_none());
    assert!(line.is_empty());

    assert!(chat_window(&mut line, &mut active, ChatKey::Activate, true).is_none());
    assert!(active);
    chat_window(&mut line, &mut active, ChatKey::Character('h'), true);
    chat_window(&mut line, &mut active, ChatKey::Character('i'), true);
    chat_window(&mut line, &mut active, ChatKey::Space, true);
    chat_window(&mut line, &mut active, ChatKey::Character('!'), true);
    chat_window(&mut line, &mut active, ChatKey::Backspace, true);
    assert_eq!(line, vec!['h', 'i', ' ']);

    // Enter without a connection clears the line but sends nothing.
    assert!(chat_window(&mut line, &mut active, ChatKey::Enter, false).is_none());
    assert!(line.is_empty());

    chat_window(&mut line, &mut active, ChatKey::Character('o'), true);
    chat_window(&mut line, &mut active, ChatKey::Character('k'), true);
    let sent = chat_window(&mut line, &mut active, ChatKey::Enter, true);
    assert_eq!(sent, Some(vec!['o', 'k']));
    assert!(line.is_empty());

    chat_window(&mut line, &mut active, ChatKey::Deactivate, true);
    assert!(!active);
}
