//! Initiative: signed frame advantage. Positive means this character can
//! act first, negative means they must wait.

use vstd::prelude::*;
use crate::events::HitEvent;
use crate::state::AttackType;

verus! {

/// Signed frame advantage tracker.
#[derive(Debug, Clone, Copy, PartialEq, Eq, Structural)]
pub struct Initiative {
    /// Current frame advantage: positive is advantage, negative
    /// disadvantage.
    pub frames: i32,
}

impl Initiative {
    pub fn new() -> (r: Self)
        ensures
            r.frames == 0,
    {
        Initiative { frames: 0 }
    }

    /// Grant frame advantage.
    pub fn gain(&mut self, frames: i32)
        ensures
            final(self).frames == frames,
    {
        self.frames = frames;
    }

    /// Set frame disadvantage.
    pub fn lose(&mut self, frames: i32)
        requires
            frames != i32::MIN,
        ensures
            final(self).frames == -frames,
    {
        self.frames = -frames;
    }

    /// Whether this character has advantage (can act first).
    pub fn has_advantage(&self) -> (r: bool)
        ensures
            r == (self.frames > 0),
    {
        self.frames > 0
    }

    /// Whether this character has disadvantage (must wait).
    pub fn has_disadvantage(&self) -> (r: bool)
        ensures
            r == (self.frames < 0),
    {
        self.frames < 0
    }

    /// Advance one frame: the count moves one step toward zero.
    pub fn tick(&mut self)
        ensures
            final(self).frames == if old(self).frames > 0 {
                old(self).frames - 1
            } else if old(self).frames < 0 {
                old(self).frames + 1
            } else {
                0
            },
    {
        if self.frames > 0 {
            self.frames = self.frames - 1;
        } else if self.frames < 0 {
            self.frames = self.frames + 1;
        }
    }

    /// Return to neutral.
    pub fn reset(&mut self)
        ensures
            final(self).frames == 0,
    {
        self.frames = 0;
    }
}

impl Default for Initiative {
    fn default() -> (r: Self)
        ensures
            r.frames == 0,
    {
        Initiative::new()
    }
}

// ==================== INITIATIVE SYSTEMS ====================

/// Frames of disadvantage an attack's wielder takes when it is blocked:
/// 2 for a light, 8 for a heavy, 2 otherwise.
pub open spec fn spec_on_block_penalty(attack_type: AttackType) -> int {
    match attack_type {
        AttackType::Light => 2,
        AttackType::Heavy => 8,
        AttackType::Grab => 2,
    }
}

/// Frames of advantage a landed attack grants: 4 for a light, 6 for a
/// heavy, 4 otherwise.
pub open spec fn spec_on_hit_advantage(attack_type: AttackType) -> int {
    match attack_type {
        AttackType::Light => 4,
        AttackType::Heavy => 6,
        AttackType::Grab => 4,
    }
}

/// Settle initiative after a hit: a landed hit puts the attacker ahead and
/// the defender behind by the attack's advantage; a blocked hit puts the
/// attacker behind and the defender ahead by the attack's block penalty.
pub fn apply_frame_advantage(
    attacker_initiative: &mut Initiative,
    defender_initiative: &mut Initiative,
    event: &HitEvent,
)
    ensures
        event.was_blocked ==> final(attacker_initiative).frames == -spec_on_block_penalty(
            event.attack_type,
        ) && final(defender_initiative).frames == spec_on_block_penalty(event.attack_type),
        !event.was_blocked ==> final(attacker_initiative).frames == spec_on_hit_advantage(
            event.attack_type,
        ) && final(defender_initiative).frames == -spec_on_hit_advantage(event.attack_type),
{
    if event.was_blocked {
        let disadvantage: i32 = match event.attack_type {
            AttackType::Light => 2,
            AttackType::Heavy => 8,
            AttackType::Grab => 2,
        };
        attacker_initiative.lose(disadvantage);
        defender_initiative.gain(disadvantage);
    } else {
        let advantage: i32 = match event.attack_type {
            AttackType::Light => 4,
            AttackType::Heavy => 6,
            AttackType::Grab => 4,
        };
        attacker_initiative.gain(advantage);
        defender_initiative.lose(advantage);
    }
}

/// Settle initiative after a parry: the parrier gains twelve frames of
/// advantage and the parried attacker falls twelve behind.
pub fn apply_parry_advantage(
    defender_initiative: &mut Initiative,
    attacker_initiative: &mut Initiative,
)
    ensures
        final(defender_initiative).frames == 12,
        final(attacker_initiative).frames == -12,
{
    defender_initiative.gain(12);
    attacker_initiative.lose(12);
}

/// Tick initiative one frame toward neutral.
pub fn tick_initiative(initiative: &mut Initiative)
    ensures
        final(initiative).frames == if old(initiative).frames > 0 {
            old(initiative).frames - 1
        } else if old(initiative).frames < 0 {
            old(initiative).frames + 1
        } else {
            0
        },
{
    initiative.tick();
}

} // verus!
