//! The messages the client exchanges with the server. Wire encoding and
//! decoding happen outside the library; here the batches are plain values.

use vstd::prelude::*;

use crate::chat::ChatMessage;
use crate::common::{Id, Vec2};
use crate::player::Player;

verus! {

/// Marker for the payload kinds a [`NetworkMessage`] may carry.
pub trait NetworkMessageType {

}

/// One outbound or inbound record, tagged with its transport.
#[derive(Clone, Debug)]
pub struct NetworkMessage<T: NetworkMessageType>(pub T);

/// Identifies a tick; increases by one each tick and wraps at the history
/// buffer's capacity.
pub type SequenceNumber = u32;

/// The five movement intents, one bit each.
pub type BitMask = u8;

/// Records exchanged over the unreliable, per-tick channel.
#[derive(Clone, Debug)]
pub enum UDP {
    /// The tick a batch belongs to; a batch without one is meaningless and is
    /// dropped wholesale by whichever side receives it.
    Sequence { sequence_number: SequenceNumber },
    /// The authoritative state of every player, as the server knew it at the
    /// tagged tick.
    Players { players: Vec<(Id, Player)> },
    /// The local player's sampled input for the tagged tick.
    Input { keymask: BitMask, mouse_delta: Vec2, player_id: Id },
}

impl NetworkMessageType for UDP {

}

/// Records exchanged over the reliable channel.
#[derive(Clone, Debug)]
pub enum TCP {
    /// A chat line this client sends.
    ChatMessage { player_id: Id, message: ChatMessage },
    /// The recent chat history the server distributes.
    Chat { messages: Vec<(Id, ChatMessage)> },
    /// A request to join a lobby.
    Join { lobby_id: Id },
    /// The identity the server assigned to this client.
    PlayerId { player_uid: Id },
}

impl NetworkMessageType for TCP {

}

} // verus!
