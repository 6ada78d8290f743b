//! Server-authoritative engine for a two-player paddle-and-ball match:
//! the wire codec, the per-player input handling, the matchmaking queue,
//! the tick simulation and the client-side mirror of the match.
use vstd::prelude::*;

pub mod client;
pub mod game_drawer;
pub mod gamemode;
pub mod matchmaking;
pub mod packet;
pub mod player;
mod random;
pub mod standard;

verus! {

} // verus!
