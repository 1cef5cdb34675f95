//! Momentum: a 0-5 win-streak level that grants damage and guard-damage
//! bonuses at level 3 and above, and decays while idle.

use vstd::prelude::*;

verus! {

/// Momentum tracker.
#[derive(Debug, Clone, Copy, PartialEq, Eq, Structural)]
pub struct Momentum {
    /// Current momentum level (0 through 5).
    pub level: u8,
    /// Frames since the last successful action.
    pub frames_since_action: u32,
    /// Idle frames before momentum starts decaying.
    pub decay_threshold: u32,
}

impl Momentum {
    pub fn new() -> (r: Self)
        ensures
            r.level == 0,
            r.frames_since_action == 0,
            r.decay_threshold == 120,
    {
        Momentum { level: 0, frames_since_action: 0, decay_threshold: 120 }
    }

    /// Gain one level from a successful action, capped at 5; the idle clock
    /// restarts.
    pub fn gain(&mut self)
        ensures
            final(self).level == if old(self).level >= 5 {
                5
            } else {
                old(self).level + 1
            },
            final(self).frames_since_action == 0,
            final(self).decay_threshold == old(self).decay_threshold,
    {
        if self.level >= 5 {
            self.level = 5;
        } else {
            self.level = self.level + 1;
        }
        self.frames_since_action = 0;
    }

    /// Lose one level from being hit, floored at 0; the idle clock restarts.
    pub fn lose(&mut self)
        ensures
            final(self).level == if old(self).level > 0 {
                old(self).level - 1
            } else {
                0
            },
            final(self).frames_since_action == 0,
            final(self).decay_threshold == old(self).decay_threshold,
    {
        if self.level > 0 {
            self.level = self.level - 1;
        }
        self.frames_since_action = 0;
    }

    /// Reset momentum completely.
    pub fn reset(&mut self)
        ensures
            final(self).level == 0,
            final(self).frames_since_action == 0,
            final(self).decay_threshold == old(self).decay_threshold,
    {
        self.level = 0;
        self.frames_since_action = 0;
    }

    /// Damage multiplier, in percent: 100 below level 3, then 110, 115, 125.
    pub fn damage_bonus(&self) -> (r: u32)
        ensures
            self.level <= 2 ==> r == 100,
            self.level == 3 ==> r == 110,
            self.level == 4 ==> r == 115,
            self.level >= 5 ==> r == 125,
    {
        match self.level {
            0 => 100,
            1 => 100,
            2 => 100,
            3 => 110,
            4 => 115,
            _ => 125,
        }
    }

    /// Guard damage multiplier, in percent: 100 below level 3, then 120,
    /// 130, 150.
    pub fn guard_damage_bonus(&self) -> (r: u32)
        ensures
            self.level <= 2 ==> r == 100,
            self.level == 3 ==> r == 120,
            self.level == 4 ==> r == 130,
            self.level >= 5 ==> r == 150,
    {
        match self.level {
            0 => 100,
            1 => 100,
            2 => 100,
            3 => 120,
            4 => 130,
            _ => 150,
        }
    }

    /// One frame of idling: the counter keeps climbing (saturating only at
    /// the integer's limit), and once it is past the decay threshold one
    /// level is lost on every sixtieth further frame.
    pub fn tick(&mut self)
        ensures
            final(self).frames_since_action == if old(self).frames_since_action < u32::MAX {
                old(self).frames_since_action + 1
            } else {
                u32::MAX as int
            },
            final(self).level == if final(self).frames_since_action > old(self).decay_threshold
                && (final(self).frames_since_action - old(self).decay_threshold) % 60 == 0
                && old(self).level > 0 {
                (old(self).level - 1) as u8
            } else {
                old(self).level
            },
            final(self).decay_threshold == old(self).decay_threshold,
    {
        if self.frames_since_action < u32::MAX {
            self.frames_since_action = self.frames_since_action + 1;
        }
        if self.frames_since_action > self.decay_threshold {
            let frames_over = self.frames_since_action - self.decay_threshold;
            if frames_over % 60 == 0 && self.level > 0 {
                self.level = self.level - 1;
            }
        }
    }
}

impl Default for Momentum {
    fn default() -> (r: Self)
        ensures
            r.level == 0,
            r.frames_since_action == 0,
            r.decay_threshold == 120,
    {
        Momentum::new()
    }
}

// ==================== MOMENTUM SYSTEMS ====================

/// Settle momentum after a hit: the attacker gains a level for any
/// connecting hit, and the defender loses one if the hit was not blocked.
pub fn build_momentum_on_hit(
    attacker_momentum: &mut Momentum,
    defender_momentum: &mut Momentum,
    was_blocked: bool,
)
    ensures
        final(attacker_momentum).level == if old(attacker_momentum).level >= 5 {
            5int
        } else {
            old(attacker_momentum).level + 1
        },
        final(attacker_momentum).frames_since_action == 0,
        final(attacker_momentum).decay_threshold == old(attacker_momentum).decay_threshold,
        !was_blocked ==> final(defender_momentum).level == if old(defender_momentum).level > 0 {
            old(defender_momentum).level - 1
        } else {
            0int
        } && final(defender_momentum).frames_since_action == 0,
        was_blocked ==> *final(defender_momentum) == *old(defender_momentum),
        final(defender_momentum).decay_threshold == old(defender_momentum).decay_threshold,
{
    attacker_momentum.gain();
    if !was_blocked {
        defender_momentum.lose();
    }
}

/// Settle momentum after a parry: the parrier gains two levels (capped at
/// five) and the parried attacker loses one.
pub fn build_momentum_on_parry(
    defender_momentum: &mut Momentum,
    attacker_momentum: &mut Momentum,
)
    ensures
        final(defender_momentum).level == if old(defender_momentum).level >= 4 {
            5int
        } else {
            old(defender_momentum).level + 2
        },
        final(defender_momentum).frames_since_action == 0,
        final(attacker_momentum).level == if old(attacker_momentum).level > 0 {
            old(attacker_momentum).level - 1
        } else {
            0int
        },
        final(attacker_momentum).frames_since_action == 0,
        final(defender_momentum).decay_threshold == old(defender_momentum).decay_threshold,
        final(attacker_momentum).decay_threshold == old(attacker_momentum).decay_threshold,
{
    defender_momentum.gain();
    defender_momentum.gain();
    attacker_momentum.lose();
}

/// Tick a character's momentum decay clock: every sixtieth idle frame past
/// the decay threshold costs one level.
pub fn tick_momentum(momentum: &mut Momentum)
    ensures
        final(momentum).frames_since_action == if old(momentum).frames_since_action < u32::MAX {
            old(momentum).frames_since_action + 1
        } else {
            u32::MAX as int
        },
        final(momentum).level == if final(momentum).frames_since_action > old(
            momentum,
        ).decay_threshold && (final(momentum).frames_since_action - old(
            momentum,
        ).decay_threshold) % 60 == 0 && old(momentum).level > 0 {
            (old(momentum).level - 1) as u8
        } else {
            old(momentum).level
        },
        final(momentum).decay_threshold == old(momentum).decay_threshold,
{
    momentum.tick();
}

} // verus!
