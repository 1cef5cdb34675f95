//! Attack systems: initiating attacks from input, advancing attack phases,
//! and activating hitboxes during the active phase.

use vstd::prelude::*;
use crate::chain::{lookup_move, lookup_move_spec};
use crate::combat::{clone_properties, AttackProperty, Hitbox};
use crate::evade::EvadeData;
use crate::geometry::Rect;
use crate::input::{spec_attack_direction, PlayerInput};
use crate::movelist::Movelist;
use crate::movement::DashData;
use crate::state::{
    attack_phase_model, get_attack_data, phase_step, AttackPhase, AttackType, CharacterState,
    PhaseState, StateTimer,
};

verus! {

/// Advance an attacking character's phase machine by one tick: the timer
/// ticks, and a completed timer moves the attack to its next phase with a
/// fresh timer sized from the move table (startup to active to recovery,
/// then back to rest with the timer removed). Characters that are not
/// attacking, or attack without a timer, are untouched. The transition is
/// exactly one step of the abstract phase machine, with the active and
/// recovery frame counts of the attack's move.
pub fn progress_attack_phases(
    state: &mut CharacterState,
    timer: &mut Option<StateTimer>,
    movelist: &Movelist,
)
    requires
        movelist.wf(),
        movelist.has_neutrals(),
        *old(timer) matches Some(t) ==> t.elapsed < u32::MAX,
    ensures
        ({
            match *old(state) {
                CharacterState::Attacking { attack_type, direction, phase } => {
                    match *old(timer) {
                        Some(t) => {
                            let md = lookup_move_spec(*movelist, attack_type, direction);
                            &&& (md matches Some(m) ==> attack_phase_model(
                                *final(state),
                                *final(timer),
                            ) == phase_step(
                                attack_phase_model(*old(state), *old(timer)),
                                m.active_frames as int,
                                m.recovery_frames as int,
                            ))
                            &&& (*final(state) matches CharacterState::Attacking {
                                attack_type: t2,
                                direction: d2,
                                ..
                            } ==> t2 == attack_type && d2 == direction)
                            &&& (!(*final(state) matches CharacterState::Attacking { .. })
                                ==> *final(state) is Idle && *final(timer) is None)
                            &&& (phase is Recovery && t.elapsed + 1 >= t.target
                                ==> *final(state) is Idle && *final(timer) is None)
                        }
                        None => { *final(state) == *old(state) && *final(timer) == *old(timer) }
                    }
                }
                _ => { *final(state) == *old(state) && *final(timer) == *old(timer) },
            }
        }),
{
    let (attack_type, direction, phase) = match *state {
        CharacterState::Attacking { attack_type, direction, phase } => {
            (attack_type, direction, phase)
        }
        _ => {
            return ;
        }
    };
    let t = match timer {
        Some(t) => t,
        None => {
            return ;
        }
    };
    t.tick();
    if t.is_complete() {
        let move_data = lookup_move(movelist, attack_type, direction);
        match phase {
            AttackPhase::Startup => {
                *state = CharacterState::Attacking {
                    attack_type,
                    direction,
                    phase: AttackPhase::Active,
                };
                t.reset(move_data.active_frames);
            }
            AttackPhase::Active => {
                *state = CharacterState::Attacking {
                    attack_type,
                    direction,
                    phase: AttackPhase::Recovery,
                };
                t.reset(move_data.recovery_frames);
            }
            AttackPhase::Recovery => {
                *state = CharacterState::Idle;
                *timer = None;
            }
        }
    }
}

/// Keep the hitbox's active flag in step with the state machine: active
/// exactly while the owner is in the active phase of an attack.
pub fn activate_hitboxes(state: &CharacterState, hitbox: &mut Option<Hitbox>)
    ensures
        *old(hitbox) is None ==> *final(hitbox) is None,
        *old(hitbox) matches Some(hb) ==> (*final(hitbox) matches Some(hb2) && hb2.rect == hb.rect
            && hb2.damage == hb.damage && hb2.properties@ == hb.properties@ && hb2.active == (
        state matches CharacterState::Attacking { phase, .. } && phase is Active)),
{
    if let Some(hb) = hitbox {
        match state {
            CharacterState::Attacking { phase: AttackPhase::Active, .. } => {
                hb.activate();
            }
            _ => {
                hb.deactivate();
            }
        }
    }
}

/// The attack type a tick's button presses initiate, with lights read
/// first, then heavies, then grabs.
pub open spec fn spec_attack_choice(input: PlayerInput) -> Option<AttackType> {
    if input.light_attack {
        Some(AttackType::Light)
    } else if input.heavy_attack {
        Some(AttackType::Heavy)
    } else if input.grab {
        Some(AttackType::Grab)
    } else {
        None
    }
}

/// Initiate an attack from this tick's input. A character in a movement
/// state who presses an attack button enters the startup phase of the
/// chosen attack, with the direction resolved from held movement and
/// facing, a startup timer taken from the move table (falling back to the
/// type's neutral entry), a fresh inactive hitbox built from the move's
/// geometry, and any running dash or evade cancelled. Without a press, or
/// outside the movement states, nothing changes.
pub fn handle_attack_input(
    state: &mut CharacterState,
    timer: &mut Option<StateTimer>,
    hitbox: &mut Option<Hitbox>,
    dash: &mut Option<DashData>,
    evade: &mut Option<EvadeData>,
    movelist: &Movelist,
    input: &PlayerInput,
    player_x: i32,
    opponent_x: i32,
)
    requires
        movelist.wf(),
        movelist.has_neutrals(),
    ensures
        ({
            let started = old(state).accepts_input() && spec_attack_choice(*input) is Some;
            if started {
                let attack_type = spec_attack_choice(*input)->0;
                let direction = spec_attack_direction(*input, opponent_x as int, player_x as int);
                let md = lookup_move_spec(*movelist, attack_type, direction);
                &&& *final(state) == (CharacterState::Attacking {
                    attack_type,
                    direction,
                    phase: AttackPhase::Startup,
                })
                &&& (md matches Some(m) ==> *final(timer) == Some(
                    StateTimer { elapsed: 0, target: m.startup_frames },
                ))
                &&& (md matches Some(m) ==> (*final(hitbox) matches Some(hb) && !hb.active
                    && hb.damage == m.damage && hb.properties@ == m.properties@
                    && hb.rect.in_bounds()))
                &&& *final(dash) is None
                &&& *final(evade) is None
            } else {
                &&& *final(state) == *old(state)
                &&& *final(timer) == *old(timer)
                &&& *final(hitbox) == *old(hitbox)
                &&& *final(dash) == *old(dash)
                &&& *final(evade) == *old(evade)
            }
        }),
{
    if !(matches!(*state, CharacterState::Idle) || matches!(*state, CharacterState::Walking)) {
        return ;
    }
    let attack_type = if input.light_attack {
        AttackType::Light
    } else if input.heavy_attack {
        AttackType::Heavy
    } else if input.grab {
        AttackType::Grab
    } else {
        return ;
    };

    let direction = input.get_attack_direction(opponent_x, player_x);
    let move_data = lookup_move(movelist, attack_type, direction);

    *state = CharacterState::Attacking { attack_type, direction, phase: AttackPhase::Startup };

    // Dash and evade are cancellable into attacks.
    *dash = None;
    *evade = None;

    *timer = Some(StateTimer::new(move_data.startup_frames));

    let rect = Rect::from_center_size(
        move_data.hitbox_offset_x,
        move_data.hitbox_offset_y,
        move_data.hitbox_size_x,
        move_data.hitbox_size_y,
    );
    *hitbox = Some(
        Hitbox::new(rect, move_data.damage).with_properties(
            clone_properties(&move_data.properties),
        ),
    );
}

/// Build the coarse hitbox for an attack type alone, using the type's base
/// frame data: a small jab box for lights, a larger armored box for
/// heavies, and a short unblockable box for grabs.
pub fn create_hitbox(attack_type: AttackType) -> (r: Hitbox)
    ensures
        !r.active,
        attack_type is Light ==> r.damage == 100 && r.properties@.len() == 0,
        attack_type is Heavy ==> r.damage == 200 && r.properties@ == seq![
            AttackProperty::LightArmor,
        ],
        attack_type is Grab ==> r.damage == 0 && r.properties@ == seq![
            AttackProperty::Unblockable,
        ],
{
    let data = get_attack_data(attack_type);
    match attack_type {
        AttackType::Light => {
            let rect = Rect::from_center_size(200, 0, 160, 240);
            Hitbox::new(rect, data.damage)
        }
        AttackType::Heavy => {
            let rect = Rect::from_center_size(240, 0, 240, 320);
            Hitbox::new(rect, data.damage).with_properties(vec![AttackProperty::LightArmor])
        }
        AttackType::Grab => {
            let rect = Rect::from_center_size(160, 0, 200, 280);
            Hitbox::new(rect, data.damage).with_properties(vec![AttackProperty::Unblockable])
        }
    }
}

} // verus!
