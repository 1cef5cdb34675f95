//! Guard meter: fills when blocking attacks, breaks when full.
//!
//! The meter runs from 0 to [`GUARD_MAX`]. That scale makes every rate in
//! the design exact in integers: a light blocked hit adds 180 (15% of max),
//! a heavy one 420 (35%), and the passive drain of 5% of max per second is
//! exactly one unit per frame at 60 frames per second.

use vstd::prelude::*;
use crate::events::HitEvent;
use crate::health::HealthState;
use crate::state::{AttackType, CharacterState, StateTimer};

verus! {

/// Full scale of the guard meter.
pub const GUARD_MAX: u32 = 1200;

/// Guard meter.
#[derive(Debug, Clone, Copy, PartialEq, Eq, Structural)]
pub struct GuardMeter {
    /// Current fill, from 0 to `max`.
    pub current: u32,
    /// Fill at which the guard breaks.
    pub max: u32,
}

impl GuardMeter {
    /// The fill never exceeds the break point.
    pub open spec fn wf(self) -> bool {
        self.current <= self.max && self.max <= 1000000000
    }

    /// An empty meter at the standard scale.
    pub fn new() -> (r: Self)
        ensures
            r.current == 0,
            r.max == GUARD_MAX,
            r.wf(),
    {
        GuardMeter { current: 0, max: GUARD_MAX }
    }

    /// Add to the meter (on a blocked hit), capped at the break point.
    pub fn fill(&mut self, amount: u32)
        requires
            old(self).wf(),
            amount <= 1000000000,
        ensures
            final(self).current == if old(self).current + amount >= old(self).max {
                old(self).max
            } else {
                (old(self).current + amount) as u32
            },
            final(self).max == old(self).max,
            final(self).wf(),
    {
        if self.current + amount >= self.max {
            self.current = self.max;
        } else {
            self.current = self.current + amount;
        }
    }

    /// Reduce the meter (passive drain), floored at zero.
    pub fn drain(&mut self, amount: u32)
        requires
            old(self).wf(),
        ensures
            final(self).current == if amount >= old(self).current {
                0
            } else {
                old(self).current - amount
            },
            final(self).max == old(self).max,
            final(self).wf(),
    {
        if amount >= self.current {
            self.current = 0;
        } else {
            self.current = self.current - amount;
        }
    }

    /// Whether the guard has filled to its break point.
    pub fn is_broken(&self) -> (r: bool)
        ensures
            r == (self.current >= self.max),
    {
        self.current >= self.max
    }

    /// Empty the meter (after a guard break).
    pub fn reset(&mut self)
        ensures
            final(self).current == 0,
            final(self).max == old(self).max,
            old(self).wf() ==> final(self).wf(),
    {
        self.current = 0;
    }
}

impl Default for GuardMeter {
    fn default() -> (r: Self)
        ensures
            r.current == 0,
            r.max == GUARD_MAX,
    {
        GuardMeter::new()
    }
}

// ==================== BLOCK, PARRY AND GUARD SYSTEMS ====================

/// Handle the block button: a press from a movement state opens a parry
/// attempt whose active window comes from the holder's health state, with a
/// two-frame startup timer; releasing the button while blocking returns to
/// rest. Anything else stays as it is.
pub fn handle_block_input(
    state: &mut CharacterState,
    timer: &mut Option<StateTimer>,
    block_held: bool,
    parry_window: u32,
)
    ensures
        old(state).accepts_input() && block_held ==> *final(state) == (CharacterState::Parrying {
            frames_remaining: parry_window,
        }) && *final(timer) == Some(StateTimer { elapsed: 0, target: 2 }),
        !(old(state).accepts_input() && block_held) && *old(state) is Blocking && !block_held
            ==> *final(state) is Idle && *final(timer) == *old(timer),
        !(old(state).accepts_input() && block_held) && !(*old(state) is Blocking && !block_held)
            ==> *final(state) == *old(state) && *final(timer) == *old(timer),
{
    let can_block = matches!(*state, CharacterState::Idle) || matches!(
        *state,
        CharacterState::Walking,
    );
    if can_block && block_held {
        *state = CharacterState::Parrying { frames_remaining: parry_window };
        *timer = Some(StateTimer::new(2));
    } else if matches!(*state, CharacterState::Blocking) && !block_held {
        *state = CharacterState::Idle;
    }
}

/// Guard meter gain for a blocked hit, before the health multiplier: 15% of
/// the full scale for a light, 35% for a heavy, 10% otherwise.
pub open spec fn spec_guard_fill_base(attack_type: AttackType) -> int {
    match attack_type {
        AttackType::Light => 180,
        AttackType::Heavy => 420,
        AttackType::Grab => 120,
    }
}

/// Fill the defender's guard meter on a blocked, blockable hit: the
/// attack-type amount scaled by the defender's health-state fill
/// multiplier (a percent), capped at the break point. Unblocked or
/// unblockable hits change nothing.
pub fn fill_guard_on_block(
    guard: &mut GuardMeter,
    state: &CharacterState,
    health_state: HealthState,
    event: &HitEvent,
)
    requires
        old(guard).wf(),
    ensures
        final(guard).wf(),
        final(guard).max == old(guard).max,
        ({
            let fills = *state is Blocking && !event.unblockable;
            if fills {
                let amount = spec_guard_fill_base(event.attack_type)
                    * spec_guard_fill_multiplier(health_state) / 100;
                final(guard).current == if old(guard).current + amount >= old(guard).max {
                    old(guard).max as int
                } else {
                    old(guard).current + amount
                }
            } else {
                final(guard).current == old(guard).current
            }
        }),
{
    if !(matches!(state, CharacterState::Blocking)) || event.unblockable {
        return ;
    }
    let base: u32 = match event.attack_type {
        AttackType::Light => 180,
        AttackType::Heavy => 420,
        AttackType::Grab => 120,
    };
    let multiplier = health_state.guard_fill_multiplier();
    let amount = base * multiplier / 100;
    guard.fill(amount);
}

/// The guard fill multiplier, in percent, for a health state.
pub open spec fn spec_guard_fill_multiplier(health_state: HealthState) -> int {
    match health_state {
        HealthState::Whole => 100,
        HealthState::Cut => 110,
        HealthState::Wounded => 120,
        HealthState::Broken => 130,
    }
}

/// Passively drain the guard meter by one unit per frame while not
/// blocking; at the standard scale that is five percent of the full meter
/// per second.
pub fn drain_guard_meter(guard: &mut GuardMeter, state: &CharacterState)
    requires
        old(guard).wf(),
    ensures
        final(guard).wf(),
        final(guard).max == old(guard).max,
        !(*state is Blocking) && old(guard).current > 0 ==> final(guard).current == old(guard).current - 1,
        *state is Blocking || old(guard).current == 0 ==> final(guard).current == old(guard).current,
{
    if !(matches!(state, CharacterState::Blocking)) && guard.current > 0 {
        guard.drain(1);
    }
}

/// A full guard meter breaks: the holder is staggered for 40 frames and the
/// meter empties. Returns whether the guard broke this tick.
pub fn check_guard_break(guard: &mut GuardMeter, state: &mut CharacterState) -> (broke: bool)
    requires
        old(guard).wf(),
    ensures
        final(guard).wf(),
        final(guard).max == old(guard).max,
        broke == (old(guard).current >= old(guard).max),
        broke ==> *final(state) == (CharacterState::Staggered { frames_remaining: 40 }) && final(guard).current == 0,
        !broke ==> *final(state) == *old(state) && final(guard).current == old(guard).current,
{
    if guard.is_broken() {
        *state = CharacterState::Staggered { frames_remaining: 40 };
        guard.reset();
        true
    } else {
        false
    }
}

/// Count a stagger down by one frame; at zero the character returns to
/// rest. Other states are untouched.
pub fn progress_stagger(state: &mut CharacterState)
    ensures
        *old(state) matches CharacterState::Staggered { frames_remaining } ==> *final(state) == (
        if frames_remaining > 0 {
            CharacterState::Staggered { frames_remaining: (frames_remaining - 1) as u32 }
        } else {
            CharacterState::Idle
        }),
        !(*old(state) is Staggered) ==> *final(state) == *old(state),
{
    if let CharacterState::Staggered { frames_remaining } = *state {
        if frames_remaining > 0 {
            *state = CharacterState::Staggered { frames_remaining: frames_remaining - 1 };
        } else {
            *state = CharacterState::Idle;
        }
    }
}

/// Count a parry's active window down by one frame. An expired window
/// returns to rest with the timer removed, or settles into blocking while
/// the button is still held. Other states are untouched.
pub fn progress_parry(state: &mut CharacterState, timer: &mut Option<StateTimer>, block_held: bool)
    ensures
        *old(state) matches CharacterState::Parrying { frames_remaining } ==> ({
            if frames_remaining > 0 {
                *final(state) == (CharacterState::Parrying {
                    frames_remaining: (frames_remaining - 1) as u32,
                }) && *final(timer) == *old(timer)
            } else {
                (if block_held {
                    *final(state) is Blocking
                } else {
                    *final(state) is Idle
                }) && *final(timer) is None
            }
        }),
        !(*old(state) is Parrying) ==> *final(state) == *old(state) && *final(timer) == *old(timer),
{
    if let CharacterState::Parrying { frames_remaining } = *state {
        if frames_remaining > 0 {
            *state = CharacterState::Parrying { frames_remaining: frames_remaining - 1 };
        } else {
            if block_held {
                *state = CharacterState::Blocking;
            } else {
                *state = CharacterState::Idle;
            }
            *timer = None;
        }
    }
}

/// Resolve a hit against a parrying defender: the parry succeeds, the
/// defender's guard meter refunds a quarter of the scale, the defender
/// returns to rest ready to act with the timer removed, and the attacker is
/// staggered for 20 frames. Returns whether a parry happened; a
/// non-parrying defender changes nothing.
pub fn check_parry_success(
    defender_state: &mut CharacterState,
    defender_guard: &mut GuardMeter,
    defender_timer: &mut Option<StateTimer>,
    attacker_state: &mut CharacterState,
) -> (parried: bool)
    requires
        old(defender_guard).wf(),
    ensures
        final(defender_guard).wf(),
        final(defender_guard).max == old(defender_guard).max,
        parried == (*old(defender_state) is Parrying),
        parried ==> ({
            &&& *final(defender_state) is Idle
            &&& *final(defender_timer) is None
            &&& *final(attacker_state) == (CharacterState::Staggered { frames_remaining: 20 })
            &&& final(defender_guard).current == if old(defender_guard).current >= 300 {
                old(defender_guard).current - 300
            } else {
                0int
            }
        }),
        !parried ==> *final(defender_state) == *old(defender_state) && *final(defender_timer)
            == *old(defender_timer) && *final(attacker_state) == *old(attacker_state) && final(defender_guard).current == old(defender_guard).current,
{
    if matches!(*defender_state, CharacterState::Parrying { .. }) {
        defender_guard.drain(300);
        *defender_state = CharacterState::Idle;
        *defender_timer = None;
        *attacker_state = CharacterState::Staggered { frames_remaining: 20 };
        true
    } else {
        false
    }
}

} // verus!
