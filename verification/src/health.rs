//! Health meter with four discrete states, each of which modulates movement
//! speed, frame advantage, guard fill, pressure cap and parry window.
//!
//! Health is measured in centipoints: one health point is 100 units, so the
//! default maximum of 100 points is 10000 units.

use vstd::prelude::*;
use crate::initiative::Initiative;
use crate::momentum::Momentum;
use crate::pressure::{Pressure, BASE_MOVE_SPEED};

verus! {

/// Upper bound on a health maximum, in centipoints. Keeps every percentage
//  computation inside `u32`.
pub const HEALTH_LIMIT: u32 = 1000000;

/// Discrete character health states.
#[derive(Debug, Clone, Copy, PartialEq, Eq, Structural)]
pub enum HealthState {
    /// Above 75% health: full power, no restrictions.
    Whole,
    /// Above 50% and up to 75%: first blood, minor penalties.
    Cut,
    /// Above 25% and up to 50%: significant damage, clear disadvantage.
    Wounded,
    /// At or below 25%: critical state, vulnerable to a decisive blow.
    Broken,
}

/// The health state for a current/max pair: Whole above three quarters of
/// max, Cut above half, Wounded above a quarter, Broken otherwise.
pub open spec fn health_state_of(current: int, max: int) -> HealthState {
    if 4 * current > 3 * max {
        HealthState::Whole
    } else if 2 * current > max {
        HealthState::Cut
    } else if 4 * current > max {
        HealthState::Wounded
    } else {
        HealthState::Broken
    }
}

impl HealthState {
    /// Movement speed multiplier, in percent.
    pub fn movement_speed_multiplier(&self) -> (r: u32)
        ensures
            self is Whole ==> r == 100,
            self is Cut ==> r == 95,
            self is Wounded ==> r == 90,
            self is Broken ==> r == 85,
    {
        match self {
            HealthState::Whole => 100,
            HealthState::Cut => 95,
            HealthState::Wounded => 90,
            HealthState::Broken => 85,
        }
    }

    /// Frame advantage penalty applied to the defender on unblocked hits.
    pub fn frame_advantage_penalty(&self) -> (r: i32)
        ensures
            self is Whole ==> r == 0,
            self is Cut ==> r == 0,
            self is Wounded ==> r == -2,
            self is Broken ==> r == -4,
    {
        match self {
            HealthState::Whole => 0,
            HealthState::Cut => 0,
            HealthState::Wounded => -2,
            HealthState::Broken => -4,
        }
    }

    /// Guard meter fill rate multiplier, in percent.
    pub fn guard_fill_multiplier(&self) -> (r: u32)
        ensures
            self is Whole ==> r == 100,
            self is Cut ==> r == 110,
            self is Wounded ==> r == 120,
            self is Broken ==> r == 130,
    {
        match self {
            HealthState::Whole => 100,
            HealthState::Cut => 110,
            HealthState::Wounded => 120,
            HealthState::Broken => 130,
        }
    }

    /// Pressure decay rate multiplier, in percent.
    pub fn pressure_decay_multiplier(&self) -> (r: u32)
        ensures
            self is Whole ==> r == 100,
            self is Cut ==> r == 120,
            self is Wounded ==> r == 150,
            self is Broken ==> r == 200,
    {
        match self {
            HealthState::Whole => 100,
            HealthState::Cut => 120,
            HealthState::Wounded => 150,
            HealthState::Broken => 200,
        }
    }

    /// Highest pressure intensity allowed in this state.
    pub fn max_pressure_intensity(&self) -> (r: u8)
        ensures
            self is Whole ==> r == 3,
            self is Cut ==> r == 3,
            self is Wounded ==> r == 2,
            self is Broken ==> r == 0,
    {
        match self {
            HealthState::Whole => 3,
            HealthState::Cut => 3,
            HealthState::Wounded => 2,
            HealthState::Broken => 0,
        }
    }

    /// Length of the parry's active window in this state, in frames.
    pub fn parry_window_frames(&self) -> (r: u32)
        ensures
            self is Whole ==> r == 6,
            self is Cut ==> r == 6,
            self is Wounded ==> r == 4,
            self is Broken ==> r == 3,
    {
        match self {
            HealthState::Whole => 6,
            HealthState::Cut => 6,
            HealthState::Wounded => 4,
            HealthState::Broken => 3,
        }
    }

    /// Whether momentum can be built in this state.
    pub fn can_build_momentum(&self) -> (r: bool)
        ensures
            r == !(self is Broken),
    {
        match self {
            HealthState::Broken => false,
            _ => true,
        }
    }
}

/// Character health: current and maximum centipoints, and the derived
/// discrete state.
#[derive(Debug, Clone, Copy, PartialEq, Eq, Structural)]
pub struct Health {
    /// Current health, in centipoints.
    pub current: u32,
    /// Maximum health, in centipoints.
    pub max: u32,
    /// Discrete state derived from the current percentage of max.
    pub state: HealthState,
}

impl Health {
    /// Current never exceeds max, max is positive and bounded, and the
    /// discrete state matches the percentage thresholds.
    pub open spec fn wf(self) -> bool {
        &&& 0 < self.max <= HEALTH_LIMIT
        &&& self.current <= self.max
        &&& self.state == health_state_of(self.current as int, self.max as int)
    }

    /// Full health at the given maximum.
    pub fn new(max: u32) -> (r: Self)
        requires
            0 < max <= HEALTH_LIMIT,
        ensures
            r.current == max,
            r.max == max,
            r.state is Whole,
            r.wf(),
    {
        Health { current: max, max, state: HealthState::Whole }
    }

    /// Recompute the discrete state from the current percentage of max.
    pub fn update_state(&mut self)
        requires
            0 < old(self).max <= HEALTH_LIMIT,
            old(self).current <= old(self).max,
        ensures
            final(self).current == old(self).current,
            final(self).max == old(self).max,
            final(self).state == health_state_of(old(self).current as int, old(self).max as int),
            final(self).wf(),
    {
        self.state = if 4 * self.current > 3 * self.max {
            HealthState::Whole
        } else if 2 * self.current > self.max {
            HealthState::Cut
        } else if 4 * self.current > self.max {
            HealthState::Wounded
        } else {
            HealthState::Broken
        };
    }

    /// Apply damage: health drops by the damage amount, floored at zero, and
    /// the discrete state is refreshed.
    pub fn take_damage(&mut self, damage: u32)
        requires
            old(self).wf(),
        ensures
            final(self).current == if damage >= old(self).current {
                0
            } else {
                old(self).current - damage
            },
            final(self).max == old(self).max,
            final(self).wf(),
    {
        if damage >= self.current {
            self.current = 0;
        } else {
            self.current = self.current - damage;
        }
        self.update_state();
    }

    /// Restore full health (for round resets).
    pub fn restore_full(&mut self)
        requires
            0 < old(self).max <= HEALTH_LIMIT,
        ensures
            final(self).current == old(self).max,
            final(self).max == old(self).max,
            final(self).state is Whole,
            final(self).wf(),
    {
        self.current = self.max;
        self.state = HealthState::Whole;
    }

    /// Health percentage of max, in whole percent (0 through 100).
    pub fn percentage(&self) -> (r: u32)
        requires
            self.wf(),
        ensures
            r == self.current * 100 / self.max as int,
            r <= 100,
    {
        proof {
            assert(self.current * 100 <= self.max * 100) by (nonlinear_arith)
                requires
                    self.current <= self.max,
            ;
            assert(self.max * 100 / self.max as int == 100) by (nonlinear_arith)
                requires
                    self.max > 0,
            ;
            assert(self.current * 100 / self.max as int <= self.max * 100 / self.max as int) by (nonlinear_arith)
                requires
                    self.current * 100 <= self.max * 100 && self.max > 0,
            ;
        }
        self.current * 100 / self.max
    }

    /// Whether this character is in the critical Broken state.
    pub fn is_broken(&self) -> (r: bool)
        ensures
            r == (self.state is Broken),
    {
        matches!(self.state, HealthState::Broken)
    }

    /// Whether this character is healthy enough to land a decisive blow
    /// (Whole or Cut).
    pub fn can_decisive_blow(&self) -> (r: bool)
        ensures
            r == (self.state is Whole || self.state is Cut),
    {
        matches!(self.state, HealthState::Whole | HealthState::Cut)
    }
}

impl Default for Health {
    /// Full health at the standard 100-point maximum.
    fn default() -> (r: Self)
        ensures
            r.current == 10000 && r.max == 10000,
            r.state is Whole,
            r.wf(),
    {
        Health::new(10000)
    }
}

// ==================== HEALTH-STATE SYSTEMS ====================

/// The movement speed multiplier, in percent, for a health state.
pub open spec fn spec_movement_speed_multiplier(state: HealthState) -> int {
    match state {
        HealthState::Whole => 100,
        HealthState::Cut => 95,
        HealthState::Wounded => 90,
        HealthState::Broken => 85,
    }
}

/// Set a character's maximum speed from its health state: the base speed
/// scaled by the state's percent multiplier.
pub fn apply_movement_speed_modifier(max_speed: &mut u32, health_state: HealthState)
    ensures
        *final(max_speed) == BASE_MOVE_SPEED * spec_movement_speed_multiplier(health_state) / 100,
{
    let multiplier = health_state.movement_speed_multiplier();
    *max_speed = BASE_MOVE_SPEED * multiplier / 100;
}

/// The frame advantage penalty for a health state.
pub open spec fn spec_frame_advantage_penalty(state: HealthState) -> int {
    match state {
        HealthState::Whole => 0,
        HealthState::Cut => 0,
        HealthState::Wounded => -2,
        HealthState::Broken => -4,
    }
}

/// Worsen an unblocked hit's defender's initiative by their health state's
/// penalty: nothing while Whole or Cut, two frames while Wounded, four
/// while Broken. Blocked hits carry no penalty.
pub fn apply_frame_advantage_penalty(
    health_state: HealthState,
    initiative: &mut Initiative,
    was_blocked: bool,
)
    requires
        -1000000 <= old(initiative).frames <= 1000000,
    ensures
        was_blocked ==> *final(initiative) == *old(initiative),
        !was_blocked ==> final(initiative).frames == ({
            let penalty = spec_frame_advantage_penalty(health_state);
            let lowered = old(initiative).frames + penalty;
            if penalty == 0 {
                old(initiative).frames as int
            } else if lowered < -1000 {
                -1000int
            } else {
                lowered
            }
        }),
{
    if was_blocked {
        return ;
    }
    let penalty = health_state.frame_advantage_penalty();
    if penalty != 0 {
        let lowered = initiative.frames + penalty;
        initiative.frames = if lowered < -1000 {
            -1000
        } else {
            lowered
        };
    }
}

/// Cap a character's pressure intensity at what their health state allows.
pub fn restrict_pressure_by_health(health_state: HealthState, pressure: &mut Pressure)
    ensures
        final(pressure).intensity == if old(pressure).intensity > spec_max_pressure_intensity(
            health_state,
        ) {
            spec_max_pressure_intensity(health_state)
        } else {
            old(pressure).intensity as int
        },
        final(pressure).idle_frames == old(pressure).idle_frames,
{
    let max_intensity = health_state.max_pressure_intensity();
    if pressure.intensity > max_intensity {
        pressure.intensity = max_intensity;
    }
}

/// The highest pressure intensity a health state allows.
pub open spec fn spec_max_pressure_intensity(state: HealthState) -> int {
    match state {
        HealthState::Whole => 3,
        HealthState::Cut => 3,
        HealthState::Wounded => 2,
        HealthState::Broken => 0,
    }
}

/// Force a character's momentum level to zero while their health state
/// forbids building momentum (Broken).
pub fn restrict_momentum_by_health(health_state: HealthState, momentum: &mut Momentum)
    ensures
        health_state is Broken ==> final(momentum).level == 0,
        !(health_state is Broken) ==> final(momentum).level == old(momentum).level,
        final(momentum).frames_since_action == old(momentum).frames_since_action,
        final(momentum).decay_threshold == old(momentum).decay_threshold,
{
    if !health_state.can_build_momentum() {
        if momentum.level > 0 {
            momentum.level = 0;
        }
    }
}

} // verus!
