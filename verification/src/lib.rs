//! Combat-resolution core of a two-player, frame-data fighting game: a
//! deterministic, fixed-tick simulation that turns per-frame player inputs
//! into character state transitions, hit detection, damage and meter
//! reactions, and round and match outcomes.
//!
//! All quantities are integers. Distances and coordinates are stage units
//! (a character body is 400 units wide), health is measured in centipoints
//! (one health point is 100 centipoints), percentages are plain percent
//! values, and every timer counts simulation frames at 60 frames per second.

pub mod attack;
pub mod breath;
pub mod chain;
pub mod character;
pub mod collision;
pub mod combat;
pub mod combo;
pub mod damage;
pub mod evade;
pub mod events;
pub mod input;
pub mod movement;
pub mod geometry;
pub mod guard;
pub mod health;
pub mod hitstop;
pub mod initiative;
pub mod momentum;
pub mod movelist;
pub mod pressure;
pub mod sim;
pub mod state;
pub mod stumble;

use vstd::prelude::*;

verus! {

} // verus!
