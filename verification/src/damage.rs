//! Damage resolution: base damage per attack type, the full damage formula
//! with counter, momentum and chip multipliers, and hitstun reactions.

use vstd::prelude::*;
use crate::events::HitEvent;
use crate::health::Health;
use crate::momentum::Momentum;
use crate::state::{AttackType, CharacterState};

verus! {

/// Base damage for an attack type, in health centipoints: 8 points for a
/// light, 15 for a heavy, 12 for a grab.
pub fn calculate_base_damage(attack_type: AttackType) -> (r: u32)
    ensures
        attack_type is Light ==> r == 800,
        attack_type is Heavy ==> r == 1500,
        attack_type is Grab ==> r == 1200,
        r <= 1500,
{
    match attack_type {
        AttackType::Light => 800,
        AttackType::Heavy => 1500,
        AttackType::Grab => 1200,
    }
}

/// Spec twin of [`calculate_base_damage`].
pub open spec fn spec_base_damage(attack_type: AttackType) -> int {
    match attack_type {
        AttackType::Light => 800,
        AttackType::Heavy => 1500,
        AttackType::Grab => 1200,
    }
}

/// The damage a hit deals: base damage for the attack type, times one and a
/// half on a counter hit, times the attacker's momentum bonus (a percent),
/// and quartered to chip damage when blocked, rounded down.
pub open spec fn spec_final_damage(
    attack_type: AttackType,
    counter_hit: bool,
    momentum_bonus: int,
    was_blocked: bool,
) -> int {
    spec_base_damage(attack_type) * (if counter_hit {
        3int
    } else {
        2int
    }) * momentum_bonus / (if was_blocked {
        800int
    } else {
        200int
    })
}

/// Apply a hit's damage to the defender's health: the full formula over
/// attack type, counter hit, the attacker's momentum and blocking, floored
/// at zero health, with the discrete health state refreshed.
pub fn apply_health_damage(health: &mut Health, attacker_momentum: &Momentum, event: &HitEvent)
    requires
        old(health).wf(),
    ensures
        final(health).wf(),
        final(health).max == old(health).max,
        ({
            let dmg = spec_final_damage(
                event.attack_type,
                event.counter_hit,
                spec_momentum_bonus(attacker_momentum.level as int),
                event.was_blocked,
            );
            final(health).current == if dmg >= old(health).current {
                0int
            } else {
                old(health).current - dmg
            }
        }),
{
    let base_damage = calculate_base_damage(event.attack_type);
    let counter_numerator: u32 = if event.counter_hit {
        3
    } else {
        2
    };
    let momentum_bonus = attacker_momentum.damage_bonus();
    let divisor: u32 = if event.was_blocked {
        800
    } else {
        200
    };
    proof {
        assert(base_damage * counter_numerator <= 4500) by (nonlinear_arith)
            requires
                base_damage <= 1500 && counter_numerator <= 3,
        ;
        assert(base_damage * counter_numerator * momentum_bonus <= 562500) by (nonlinear_arith)
            requires
                base_damage * counter_numerator <= 4500 && momentum_bonus <= 125,
        ;
        assert(base_damage * counter_numerator * momentum_bonus / divisor as int <= 562500)
            by (nonlinear_arith)
            requires
                0 <= base_damage * counter_numerator * momentum_bonus <= 562500 && divisor >= 200,
        ;
    }
    let final_damage: u32 = base_damage * counter_numerator * momentum_bonus / divisor;
    health.take_damage(final_damage);
}

/// The momentum damage multiplier, in percent, for a momentum level.
pub open spec fn spec_momentum_bonus(level: int) -> int {
    if level <= 2 {
        100
    } else if level == 3 {
        110
    } else if level == 4 {
        115
    } else {
        125
    }
}

/// Hitstun frames an unblocked hit inflicts: 15 for a light, 25 for a
/// heavy, 20 for a grab, plus 10 on a counter hit.
pub open spec fn spec_hitstun_frames(attack_type: AttackType, counter_hit: bool) -> int {
    (match attack_type {
        AttackType::Light => 15int,
        AttackType::Heavy => 25int,
        AttackType::Grab => 20int,
    }) + if counter_hit {
        10int
    } else {
        0int
    }
}

/// Stagger the defender of an unblocked hit for the hit's hitstun frames;
/// a blocked hit leaves the defender's state alone (the guard system
/// handles it).
pub fn apply_hit_reactions(state: &mut CharacterState, event: &HitEvent)
    ensures
        event.was_blocked ==> *final(state) == *old(state),
        !event.was_blocked ==> *final(state) == (CharacterState::Staggered {
            frames_remaining: spec_hitstun_frames(event.attack_type, event.counter_hit) as u32,
        }),
{
    if event.was_blocked {
        return ;
    }
    let base_hitstun: u32 = match event.attack_type {
        AttackType::Light => 15,
        AttackType::Heavy => 25,
        AttackType::Grab => 20,
    };
    let hitstun_frames = if event.counter_hit {
        base_hitstun + 10
    } else {
        base_hitstun
    };
    *state = CharacterState::Staggered { frames_remaining: hitstun_frames };
}

} // verus!
