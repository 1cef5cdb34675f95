//! Collision and hit resolution: world-space overlap tests between active
//! hitboxes and opposing hurtboxes, and classification of the outcome.

use vstd::prelude::*;
use crate::character::Player;
use crate::combat::{AttackProperty, Hitbox, Hurtbox};
use crate::events::HitEvent;
use crate::geometry::{rects_intersect, Rect, COORD_LIMIT};
use crate::state::{AttackPhase, AttackType, CharacterState};

verus! {

/// Whether two local-space rectangles, translated to the world by their
/// owners' positions, overlap with positive area.
pub open spec fn boxes_overlap(
    a: Rect,
    ax: int,
    ay: int,
    b: Rect,
    bx: int,
    by: int,
) -> bool {
    &&& a.min_x + ax < b.max_x + bx
    &&& a.max_x + ax > b.min_x + bx
    &&& a.min_y + ay < b.max_y + by
    &&& a.max_y + ay > b.min_y + by
}

/// The attack type a hit carries: the attacker's current attack, or a light
/// attack if the attacker is somehow not attacking.
pub open spec fn spec_attack_type_of(state: CharacterState) -> AttackType {
    match state {
        CharacterState::Attacking { attack_type, .. } => attack_type,
        _ => AttackType::Light,
    }
}

/// The hit event one (attacker, defender) pair produces this tick, if any:
/// an event exactly when the attacker's hitbox exists and is active, the
/// defender is not invincible, and the world rectangles overlap. The event
/// carries the hitbox's damage and properties, counts as blocked when the
/// defender blocks and the attack is blockable, and as a counter hit when
/// the defender is in attack startup.
pub open spec fn spec_check_hit(
    attacker: Player,
    attacker_state: CharacterState,
    hitbox: Option<Hitbox>,
    ax: int,
    ay: int,
    defender: Player,
    defender_state: CharacterState,
    hurtbox: Hurtbox,
    dx: int,
    dy: int,
    defender_invincible: bool,
) -> Option<HitEvent> {
    match hitbox {
        Some(hb) => {
            if hb.active && !defender_invincible && boxes_overlap(
                hb.rect,
                ax,
                ay,
                hurtbox.rect,
                dx,
                dy,
            ) {
                let unblockable = hb.properties@.contains(AttackProperty::Unblockable);
                let counter = defender_state matches CharacterState::Attacking {
                    phase: AttackPhase::Startup,
                    ..
                };
                Some(
                    HitEvent {
                        attacker,
                        defender,
                        damage: hb.damage,
                        attack_type: spec_attack_type_of(attacker_state),
                        was_blocked: !unblockable && defender_state is Blocking,
                        unblockable,
                        counter_hit: counter,
                    },
                )
            } else {
                None
            }
        }
        None => None,
    }
}

/// Disjoint rectangles never produce a hit event: whenever the attacker's
/// and defender's world rectangles do not overlap, the pair's hit check
/// comes back empty.
pub proof fn lemma_disjoint_no_hit(
    attacker: Player,
    attacker_state: CharacterState,
    hitbox: Option<Hitbox>,
    ax: int,
    ay: int,
    defender: Player,
    defender_state: CharacterState,
    hurtbox: Hurtbox,
    dx: int,
    dy: int,
    defender_invincible: bool,
)
    requires
        hitbox matches Some(hb) ==> !boxes_overlap(hb.rect, ax, ay, hurtbox.rect, dx, dy),
    ensures
        spec_check_hit(
            attacker,
            attacker_state,
            hitbox,
            ax,
            ay,
            defender,
            defender_state,
            hurtbox,
            dx,
            dy,
            defender_invincible,
        ) is None,
{
}

/// Test one (attacker, defender) pair for a hit this tick. Disjoint
/// rectangles never produce a hit event, and an invincible defender is
/// skipped entirely.
pub fn check_hit(
    attacker: Player,
    attacker_state: &CharacterState,
    hitbox: &Option<Hitbox>,
    attacker_x: i32,
    attacker_y: i32,
    defender: Player,
    defender_state: &CharacterState,
    hurtbox: &Hurtbox,
    defender_x: i32,
    defender_y: i32,
    defender_invincible: bool,
) -> (r: Option<HitEvent>)
    requires
        hitbox matches Some(hb) ==> hb.rect.in_bounds(),
        hurtbox.rect.in_bounds(),
        -COORD_LIMIT <= attacker_x <= COORD_LIMIT,
        -COORD_LIMIT <= attacker_y <= COORD_LIMIT,
        -COORD_LIMIT <= defender_x <= COORD_LIMIT,
        -COORD_LIMIT <= defender_y <= COORD_LIMIT,
    ensures
        r == spec_check_hit(
            attacker,
            *attacker_state,
            *hitbox,
            attacker_x as int,
            attacker_y as int,
            defender,
            *defender_state,
            *hurtbox,
            defender_x as int,
            defender_y as int,
            defender_invincible,
        ),
{
    let hb = match hitbox {
        Some(hb) => hb,
        None => {
            return None;
        }
    };
    if !hb.active {
        return None;
    }
    if defender_invincible {
        return None;
    }
    let hitbox_rect = hb.world_rect(attacker_x, attacker_y);
    let hurtbox_rect = hurtbox.world_rect(defender_x, defender_y);
    if !rects_intersect(&hitbox_rect, &hurtbox_rect) {
        return None;
    }

    let attack_type = match attacker_state {
        CharacterState::Attacking { attack_type, .. } => *attack_type,
        _ => AttackType::Light,
    };
    let unblockable = hb.has_property(AttackProperty::Unblockable);
    let counter_hit = matches!(
        defender_state,
        CharacterState::Attacking { phase: AttackPhase::Startup, .. },
    );
    let was_blocked = !unblockable && matches!(defender_state, CharacterState::Blocking);

    Some(
        HitEvent {
            attacker,
            defender,
            damage: hb.damage,
            attack_type,
            was_blocked,
            unblockable,
            counter_hit,
        },
    )
}

} // verus!
