//! Chat history kept by the client, and the keystroke-level editing of the
//! chat input line. Rendering the window and reading the keyboard happen
//! outside the library; this module holds the decisions they feed.

use std::collections::VecDeque;
use vstd::prelude::*;

use crate::common::Id;

verus! {

/// How many past messages the history keeps beyond the one being inserted.
pub const CHAT_HISTORY_LEN: usize = 10;

#[derive(Clone, Debug)]
pub struct ChatMessage {
    pub message: String,
}

/// The chat history shown to the player.
#[derive(Debug)]
pub struct Chat {
    pub chat_history: VecDeque<(Id, ChatMessage)>,
}

/// The number of entries a freshly received batch of `n` messages leaves in
/// the history: the batch is kept whole up to one entry beyond
/// `CHAT_HISTORY_LEN`.
pub open spec fn kept_len(n: int) -> int {
    vstd::math::min(n, CHAT_HISTORY_LEN as int + 1)
}

/// Replaces the chat history with the head of `messages`, draining `messages`
/// in the process. The kept entries stay in the order they arrived.
pub fn add_chat_message(messages: &mut Vec<(Id, ChatMessage)>, chat: &mut Chat)
    ensures
        final(messages)@.len() == 0,
        final(chat).chat_history@ == old(messages)@.take(kept_len(old(messages)@.len() as int)),
{
    chat.chat_history.clear();
    let ghost orig: Seq<(Id, ChatMessage)> = messages@;
    while !messages.is_empty()
        invariant
            messages@.len() <= orig.len(),
            messages@ == orig.take(messages@.len() as int),
            chat.chat_history@ == orig.subrange(
                messages@.len() as int,
                vstd::math::min(
                    orig.len() as int,
                    messages@.len() as int + CHAT_HISTORY_LEN as int + 1,
                ),
            ),
        decreases messages@.len(),
    {
        if chat.chat_history.len() > CHAT_HISTORY_LEN {
            chat.chat_history.pop_back();
        }
        let ghost k = messages@.len() as int;
        let message = messages.pop().unwrap();
        chat.chat_history.push_front(message);
        proof {
            assert(messages@ =~= orig.take(k - 1));
            assert(chat.chat_history@ =~= orig.subrange(
                k - 1,
                vstd::math::min(orig.len() as int, k + CHAT_HISTORY_LEN as int),
            ));
        }
    }
    proof {
        assert(chat.chat_history@ =~= orig.take(kept_len(orig.len() as int)));
    }
}

/// One keystroke, as the chat window cares about it. Activation comes from
/// the key that opens the chat and deactivation from the key that leaves it,
/// whatever else the same keystroke may type.
#[derive(Clone, Copy, Debug, PartialEq, Eq, Structural)]
pub enum ChatKey {
    Backspace,
    Enter,
    Character(char),
    Space,
    Activate,
    Deactivate,
    Other,
}

/// A copy of the input line.
fn copy_line(line: &Vec<char>) -> (r: Vec<char>)
    ensures
        r@ == line@,
{
    let mut out: Vec<char> = Vec::new();
    let mut i: usize = 0;
    while i < line.len()
        invariant
            0 <= i <= line@.len(),
            out@ == line@.take(i as int),
        decreases line@.len() - i,
    {
        out.push(line[i]);
        proof {
            assert(out@ =~= line@.take(i as int + 1));
        }
        i += 1;
    }
    proof {
        assert(line@.take(line@.len() as int) =~= line@);
    }
    out
}

/// Edits the chat input line by one keystroke. While the window is active,
/// characters and spaces append, backspace deletes the last character, and
/// enter clears the line -- handing its content back to be sent, but only
/// when the server connection stands. The opening key activates the window
/// and the leaving key deactivates it, in either state. Reading the
/// keyboard and rendering the line happen outside the library.
pub fn chat_window(
    message_buffer: &mut Vec<char>,
    is_active: &mut bool,
    key: ChatKey,
    connected: bool,
) -> (r: Option<Vec<char>>)
    ensures
        ({
            let edited = if *old(is_active) {
                match key {
                    ChatKey::Backspace => if old(message_buffer)@.len() == 0 {
                        old(message_buffer)@
                    } else {
                        old(message_buffer)@.drop_last()
                    },
                    ChatKey::Enter => Seq::<char>::empty(),
                    ChatKey::Character(c) => old(message_buffer)@.push(c),
                    ChatKey::Space => old(message_buffer)@.push(' '),
                    _ => old(message_buffer)@,
                }
            } else {
                old(message_buffer)@
            };
            &&& final(message_buffer)@ == edited
            &&& match r {
                Some(line) => {
                    &&& *old(is_active) && key is Enter && connected
                    &&& line@ == old(message_buffer)@
                },
                None => !(*old(is_active) && key is Enter && connected),
            }
        }),
        *final(is_active) == match key {
            ChatKey::Activate => true,
            ChatKey::Deactivate => false,
            _ => *old(is_active),
        },
{
    let mut sent: Option<Vec<char>> = None;
    if *is_active {
        match key {
            ChatKey::Backspace => {
                message_buffer.pop();
            },
            ChatKey::Enter => {
                if connected {
                    sent = Some(copy_line(message_buffer));
                }
                message_buffer.clear();
            },
            ChatKey::Character(c) => {
                message_buffer.push(c);
            },
            ChatKey::Space => {
                message_buffer.push(' ');
            },
            _ => {},
        }
    }
    match key {
        ChatKey::Activate => {
            *is_active = true;
        },
        ChatKey::Deactivate => {
            *is_active = false;
        },
        _ => {},
    }
    sent
}

} // verus!
