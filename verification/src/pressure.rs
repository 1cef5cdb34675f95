//! Pressure: a 0-3 offensive-intensity level that grants movement-speed and
//! attack-startup bonuses, and drains while idle.
//!
//! The idle clock is an explicit per-character field, so drain is a pure
//! function of the character's own state.

use vstd::prelude::*;
use crate::initiative::Initiative;
use crate::state::CharacterState;

verus! {

/// Pressure tracker.
#[derive(Debug, Clone, Copy, PartialEq, Eq, Structural)]
pub struct Pressure {
    /// Intensity level: 0 none, 1 light, 2 medium, 3 heavy.
    pub intensity: u8,
    /// Frames spent idle since the last intensity change or drain.
    pub idle_frames: u32,
}

impl Pressure {
    pub fn new() -> (r: Self)
        ensures
            r.intensity == 0,
            r.idle_frames == 0,
    {
        Pressure { intensity: 0, idle_frames: 0 }
    }

    /// Raise intensity by one, capped at 3.
    pub fn increase(&mut self)
        ensures
            final(self).intensity == if old(self).intensity >= 3 {
                3
            } else {
                old(self).intensity + 1
            },
            final(self).idle_frames == old(self).idle_frames,
    {
        if self.intensity >= 3 {
            self.intensity = 3;
        } else {
            self.intensity = self.intensity + 1;
        }
    }

    /// Lower intensity by one, floored at 0.
    pub fn decrease(&mut self)
        ensures
            final(self).intensity == if old(self).intensity > 0 {
                old(self).intensity - 1
            } else {
                0
            },
            final(self).idle_frames == old(self).idle_frames,
    {
        if self.intensity > 0 {
            self.intensity = self.intensity - 1;
        }
    }

    /// Drop to no pressure.
    pub fn reset(&mut self)
        ensures
            final(self).intensity == 0,
            final(self).idle_frames == old(self).idle_frames,
    {
        self.intensity = 0;
    }

    /// Movement speed multiplier, in percent: 100, 105, 110, 115 by
    /// intensity.
    pub fn movement_bonus(&self) -> (r: u32)
        ensures
            self.intensity == 0 ==> r == 100,
            self.intensity == 1 ==> r == 105,
            self.intensity == 2 ==> r == 110,
            self.intensity >= 3 ==> r == 115,
    {
        match self.intensity {
            0 => 100,
            1 => 105,
            2 => 110,
            _ => 115,
        }
    }

    /// Frames shaved off attack startup: none below medium intensity, one at
    /// medium, two at heavy.
    pub fn attack_speed_bonus(&self) -> (r: u32)
        ensures
            self.intensity <= 1 ==> r == 0,
            self.intensity == 2 ==> r == 1,
            self.intensity >= 3 ==> r == 2,
    {
        match self.intensity {
            0 => 0,
            1 => 0,
            2 => 1,
            _ => 2,
        }
    }
}

impl Default for Pressure {
    fn default() -> (r: Self)
        ensures
            r.intensity == 0,
            r.idle_frames == 0,
    {
        Pressure::new()
    }
}

// ==================== PRESSURE SYSTEMS ====================

/// Build pressure from a hit: the attacker gains intensity on a landed
/// hit, or on a blocked one thrown while holding frame advantage; the
/// defender of an unblocked hit drops to no pressure.
pub fn build_pressure(
    attacker_initiative: &Initiative,
    attacker_pressure: &mut Pressure,
    defender_pressure: &mut Pressure,
    was_blocked: bool,
)
    ensures
        ({
            let builds = !was_blocked || attacker_initiative.frames > 0;
            if builds {
                final(attacker_pressure).intensity == if old(attacker_pressure).intensity >= 3 {
                    3int
                } else {
                    old(attacker_pressure).intensity + 1
                }
            } else {
                final(attacker_pressure).intensity == old(attacker_pressure).intensity
            }
        }),
        final(attacker_pressure).idle_frames == old(attacker_pressure).idle_frames,
        !was_blocked ==> final(defender_pressure).intensity == 0,
        was_blocked ==> final(defender_pressure).intensity == old(defender_pressure).intensity,
        final(defender_pressure).idle_frames == old(defender_pressure).idle_frames,
{
    let should_build = !was_blocked || attacker_initiative.has_advantage();
    if should_build {
        attacker_pressure.increase();
    }
    if !was_blocked {
        defender_pressure.reset();
    }
}

/// Drain pressure while idle: the idle clock runs only in the Idle state,
/// and every 120th consecutive idle frame costs one intensity level; any
/// other state clears the clock.
pub fn drain_pressure_passive(pressure: &mut Pressure, state: &CharacterState)
    requires
        old(pressure).idle_frames < u32::MAX,
    ensures
        !(*state is Idle) ==> final(pressure).intensity == old(pressure).intensity && final(pressure).idle_frames == 0,
        *state is Idle ==> ({
            if old(pressure).idle_frames + 1 >= 120 {
                &&& final(pressure).idle_frames == 0
                &&& final(pressure).intensity == if old(pressure).intensity > 0 {
                    old(pressure).intensity - 1
                } else {
                    0int
                }
            } else {
                &&& final(pressure).idle_frames == old(pressure).idle_frames + 1
                &&& final(pressure).intensity == old(pressure).intensity
            }
        }),
{
    if !(matches!(state, CharacterState::Idle)) {
        pressure.idle_frames = 0;
        return ;
    }
    pressure.idle_frames = pressure.idle_frames + 1;
    if pressure.idle_frames >= 120 {
        pressure.decrease();
        pressure.idle_frames = 0;
    }
}

/// Base movement speed, in stage units per second.
pub const BASE_MOVE_SPEED: u32 = 1200;

/// Set a character's maximum speed from its pressure bonus: the base speed
/// scaled by the intensity's percent bonus.
pub fn apply_pressure_movement_bonus(max_speed: &mut u32, pressure: &Pressure)
    ensures
        *final(max_speed) == BASE_MOVE_SPEED * spec_pressure_movement_bonus(
            pressure.intensity as int,
        ) / 100,
{
    let bonus = pressure.movement_bonus();
    *max_speed = BASE_MOVE_SPEED * bonus / 100;
}

/// The pressure movement bonus, in percent, for an intensity.
pub open spec fn spec_pressure_movement_bonus(intensity: int) -> int {
    if intensity == 0 {
        100
    } else if intensity == 1 {
        105
    } else if intensity == 2 {
        110
    } else {
        115
    }
}

} // verus!
