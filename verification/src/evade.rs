//! Evade: a short dash with invincibility frames in its middle.
//!
//! An evade lasts 15 frames: 3 of startup, 4 of invincibility, 8 of
//! recovery.

use vstd::prelude::*;
use crate::input::PlayerInput;
use crate::state::{CharacterState, StateTimer};

verus! {

/// Evade speed, in stage units per second.
pub const EVADE_SPEED: i32 = 2000;

/// Total evade duration, in frames.
pub const EVADE_DURATION: u32 = 15;

/// An evade in progress.
#[derive(Debug, Clone, Copy, PartialEq, Eq, Structural)]
pub struct EvadeData {
    /// Horizontal direction of the evade: -1, 0 or 1.
    pub direction_x: i32,
    /// Whether invincibility frames are currently active.
    pub invincible: bool,
}

/// Begin an evade on a step input with a held direction from a movement
/// state: the evade tracker and a duration timer are attached, and
/// velocity is set to evade speed in the held direction. Anything else
/// changes nothing.
pub fn handle_evade_input(
    state: &CharacterState,
    input: &PlayerInput,
    evade: &mut Option<EvadeData>,
    timer: &mut Option<StateTimer>,
    velocity: &mut i32,
)
    requires
        -1 <= input.movement_x <= 1,
    ensures
        ({
            let starts = state.accepts_input() && *old(evade) is None && input.step
                && input.movement_x != 0;
            if starts {
                &&& *final(evade) matches Some(e) && e.direction_x == input.movement_x
                    && !e.invincible
                &&& *final(timer) == Some(StateTimer { elapsed: 0, target: EVADE_DURATION })
                &&& *final(velocity) == input.movement_x * EVADE_SPEED
            } else {
                *final(evade) == *old(evade) && *final(timer) == *old(timer) && *final(velocity)
                    == *old(velocity)
            }
        }),
{
    if !(matches!(state, CharacterState::Idle) || matches!(state, CharacterState::Walking)) {
        return ;
    }
    if evade.is_some() {
        return ;
    }
    if input.step && input.movement_x != 0 {
        *evade = Some(EvadeData { direction_x: input.movement_x, invincible: false });
        *timer = Some(StateTimer::new(EVADE_DURATION));
        *velocity = input.movement_x * EVADE_SPEED;
    }
}

/// Advance a running evade by one frame: the timer ticks, invincibility
/// holds exactly during frames 3 through 6 of the evade, and a completed
/// evade removes its tracker and timer and stops the character.
pub fn progress_evade(
    evade: &mut Option<EvadeData>,
    timer: &mut Option<StateTimer>,
    velocity: &mut i32,
)
    requires
        *old(timer) matches Some(t) ==> t.elapsed < u32::MAX,
    ensures
        *old(evade) is None || *old(timer) is None ==> *final(evade) == *old(evade) && *final(timer)
            == *old(timer) && *final(velocity) == *old(velocity),
        *old(evade) matches Some(e) ==> (*old(timer) matches Some(t) ==> ({
            let elapsed = t.elapsed + 1;
            if elapsed >= t.target {
                &&& *final(evade) is None
                &&& *final(timer) is None
                &&& *final(velocity) == 0
            } else {
                &&& *final(evade) matches Some(e2) && e2.direction_x == e.direction_x
                    && e2.invincible == (3 <= elapsed < 7)
                &&& *final(timer) == Some(StateTimer { elapsed: elapsed as u32, target: t.target })
                &&& *final(velocity) == *old(velocity)
            }
        })),
{
    let e = match evade {
        Some(e) => e,
        None => {
            return ;
        }
    };
    let t = match timer {
        Some(t) => t,
        None => {
            return ;
        }
    };
    t.tick();
    if t.elapsed >= 3 && t.elapsed < 7 {
        e.invincible = true;
    } else {
        e.invincible = false;
    }
    if t.is_complete() {
        *evade = None;
        *timer = None;
        *velocity = 0;
    }
}

} // verus!
