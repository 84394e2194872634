//! Server-authoritative two-player pong over an unreliable datagram
//! transport: wire codec, matchmaking, per-match fixed-tick simulation,
//! message routing, and client-side state synchronization.
//!
//! All geometry is carried in integer milli-pixel units so that every
//! rule of the simulation can be stated and checked exactly.

pub mod arguments;
pub mod ball;
pub mod codec;
pub mod configuration;
pub mod match_loop;
pub mod messages;
pub mod multiplayer_pong;
pub mod paddle;
pub mod player_state;
pub mod server;
pub mod state;
