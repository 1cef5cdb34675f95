//! Abstract per-tick input record, and the derived attack direction.
//!
//! Movement input is digital: each axis is -1, 0 or 1.

use vstd::prelude::*;
use crate::movelist::AttackDirection;

verus! {

/// Raw input state for one player on one tick.
#[derive(Debug, Clone, Copy, PartialEq, Eq, Structural)]
pub struct PlayerInput {
    /// Horizontal movement: -1 left, 0 none, 1 right.
    pub movement_x: i32,
    /// Vertical movement: -1 down, 0 none, 1 up.
    pub movement_y: i32,
    pub light_attack: bool,
    pub heavy_attack: bool,
    pub grab: bool,
    pub block: bool,
    /// Quick dash.
    pub step: bool,
    pub backdash: bool,
}

impl Default for PlayerInput {
    fn default() -> (r: Self)
        ensures
            r.movement_x == 0 && r.movement_y == 0,
            !r.light_attack && !r.heavy_attack && !r.grab && !r.block && !r.step && !r.backdash,
    {
        PlayerInput {
            movement_x: 0,
            movement_y: 0,
            light_attack: false,
            heavy_attack: false,
            grab: false,
            block: false,
            step: false,
            backdash: false,
        }
    }
}

/// The attack direction an input resolves to: down dominates, then a
/// horizontal input resolves to forward or back by comparing its sign with
/// the direction the opponent lies in, and no direction is neutral.
pub open spec fn spec_attack_direction(
    input: PlayerInput,
    opponent_x: int,
    player_x: int,
) -> AttackDirection {
    let facing_right = opponent_x > player_x;
    if input.movement_y < 0 {
        AttackDirection::Down
    } else if input.movement_x != 0 {
        if (facing_right && input.movement_x > 0) || (!facing_right && input.movement_x < 0) {
            AttackDirection::Forward
        } else {
            AttackDirection::Back
        }
    } else {
        AttackDirection::Neutral
    }
}

impl PlayerInput {
    /// Attack direction for this input, given where this player and the
    /// opponent stand: holding down is a down attack regardless of any
    /// horizontal hold; a horizontal hold toward the opponent is forward and
    /// away is back; otherwise neutral.
    pub fn get_attack_direction(&self, opponent_x: i32, player_x: i32) -> (r: AttackDirection)
        ensures
            r == spec_attack_direction(*self, opponent_x as int, player_x as int),
    {
        let facing_right = opponent_x > player_x;
        if self.movement_y < 0 {
            AttackDirection::Down
        } else if self.movement_x != 0 {
            if (facing_right && self.movement_x > 0) || (!facing_right && self.movement_x < 0) {
                AttackDirection::Forward
            } else {
                AttackDirection::Back
            }
        } else {
            AttackDirection::Neutral
        }
    }
}

/// Both players' inputs for the current tick.
#[derive(Debug, Clone, Copy, PartialEq, Eq, Structural)]
pub struct CurrentInputs {
    pub player_one: PlayerInput,
    pub player_two: PlayerInput,
}

impl Default for CurrentInputs {
    fn default() -> (r: Self)
        ensures
            r.player_one.movement_x == 0 && r.player_two.movement_x == 0,
    {
        CurrentInputs { player_one: Default::default(), player_two: Default::default() }
    }
}

} // verus!
