//! Client-side prediction and server-reconciliation engine for a multiplayer
//! game client.
//!
//! The client simulates the local player immediately, records every predicted
//! tick in a fixed-capacity history buffer, and, when an authoritative server
//! snapshot for a past tick disagrees with the recorded prediction for long
//! enough, rewinds to the authoritative state and deterministically replays
//! the buffered inputs back to the present.
//!
//! Kinematic scalars are carried as the raw bit patterns of the 32-bit
//! floating-point values the surrounding simulation works with; the library
//! itself performs no floating-point arithmetic. Tolerant state comparison is
//! done directly on those bit patterns, in units in the last place.

pub mod chat;
pub mod common;
pub mod entity;
pub mod message;
pub mod net_manage;
pub mod net_reconciliation;
pub mod net_system;
pub mod net_tasks;
pub mod player;
