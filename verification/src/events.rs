//! Combat events: single-tick messages produced by the collision and
//! reaction passes and fully drained within the same tick.

use vstd::prelude::*;
use crate::character::Player;
use crate::state::AttackType;

verus! {

/// Event produced when an active hitbox overlaps an opposing hurtbox.
#[derive(Debug, Clone, Copy, PartialEq, Eq, Structural)]
pub struct HitEvent {
    /// Player that performed the attack.
    pub attacker: Player,
    /// Player that was hit.
    pub defender: Player,
    /// Damage carried by the hitbox, in health centipoints.
    pub damage: u32,
    /// Type of the attack.
    pub attack_type: AttackType,
    /// Whether the hit was blocked.
    pub was_blocked: bool,
    /// Whether the attack could not be blocked.
    pub unblockable: bool,
    /// Whether this was a counter hit (it landed during the defender's
    /// attack startup).
    pub counter_hit: bool,
}

impl HitEvent {
    /// A plain unblocked, non-counter hit.
    pub fn new(attacker: Player, defender: Player, damage: u32, attack_type: AttackType) -> (r:
        Self)
        ensures
            r.attacker == attacker,
            r.defender == defender,
            r.damage == damage,
            r.attack_type == attack_type,
            !r.was_blocked,
            !r.unblockable,
            !r.counter_hit,
    {
        HitEvent {
            attacker,
            defender,
            damage,
            attack_type,
            was_blocked: false,
            unblockable: false,
            counter_hit: false,
        }
    }

    /// Mark the hit as blocked.
    pub fn blocked(self) -> (r: Self)
        ensures
            r == (HitEvent { was_blocked: true, ..self }),
    {
        HitEvent { was_blocked: true, ..self }
    }

    /// Mark the attack as unblockable.
    pub fn unblockable(self) -> (r: Self)
        ensures
            r == (HitEvent { unblockable: true, ..self }),
    {
        HitEvent { unblockable: true, ..self }
    }

    /// Mark the hit as a counter hit.
    pub fn counter_hit(self) -> (r: Self)
        ensures
            r == (HitEvent { counter_hit: true, ..self }),
    {
        HitEvent { counter_hit: true, ..self }
    }
}

/// Event produced when a parry deflects an attack.
#[derive(Debug, Clone, Copy, PartialEq, Eq, Structural)]
pub struct ParryEvent {
    /// Player that performed the parry.
    pub defender: Player,
    /// Player whose attack was parried.
    pub attacker: Player,
}

/// Event produced when a guard meter fills and breaks.
#[derive(Debug, Clone, Copy, PartialEq, Eq, Structural)]
pub struct GuardBreakEvent {
    /// Player whose guard broke.
    pub entity: Player,
}

/// Event produced when a grab connects.
#[derive(Debug, Clone, Copy, PartialEq, Eq, Structural)]
pub struct GrabEvent {
    /// Player that performed the grab.
    pub attacker: Player,
    /// Player that was grabbed.
    pub defender: Player,
}

} // verus!
