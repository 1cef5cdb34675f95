//! Movement: walk velocity from input, position integration, stage
//! clamping, attack-carried movement and the dash system.
//!
//! Distances are stage units; speeds are stage units per second, applied at
//! 60 frames per second.

use vstd::prelude::*;
use crate::chain::lookup_move_spec;
use crate::input::PlayerInput;
use crate::movelist::Movelist;
use crate::state::{AttackPhase, CharacterState};

verus! {

/// Full stage width, in stage units.
pub const STAGE_WIDTH: i32 = 4000;

/// Half the stage width.
pub const STAGE_HALF_WIDTH: i32 = 2000;

/// Half a character body's width.
pub const CHARACTER_HALF_WIDTH: i32 = 120;

/// Fixed dash travel distance.
pub const DASH_DISTANCE: i32 = 480;

/// Dash speed, in stage units per frame.
pub const DASH_SPEED: i32 = 80;

/// Dash cooldown, in frames.
pub const DASH_COOLDOWN: u32 = 30;

/// Signed stage units a velocity in units per second covers in one frame,
/// rounded toward zero.
pub open spec fn per_frame(v: int) -> int {
    if v >= 0 {
        v / 60
    } else {
        -((-v) / 60)
    }
}

/// Walk velocity for a held direction: full speed toward it, or zero.
pub open spec fn walk_velocity(movement_x: int, max_speed: int) -> int {
    if movement_x > 0 {
        max_speed
    } else if movement_x < 0 {
        -max_speed
    } else {
        0
    }
}

/// Update a character's walk velocity from this tick's input: dash and
/// evade movement take precedence, states outside Idle and Walking stop
/// horizontal movement, and otherwise the held direction scales the
/// character's maximum speed.
pub fn process_movement_input(
    state: &CharacterState,
    velocity: &mut i32,
    max_speed: u32,
    input: &PlayerInput,
    dashing: bool,
    evading: bool,
)
    requires
        -1 <= input.movement_x <= 1,
        max_speed <= 1000000,
    ensures
        dashing || evading ==> *final(velocity) == *old(velocity),
        !dashing && !evading && !state.accepts_input() ==> *final(velocity) == 0,
        !dashing && !evading && state.accepts_input() ==> *final(velocity) == walk_velocity(
            input.movement_x as int,
            max_speed as int,
        ),
{
    if dashing || evading {
        return ;
    }
    if !(matches!(state, CharacterState::Idle) || matches!(state, CharacterState::Walking)) {
        *velocity = 0;
        return ;
    }
    if input.movement_x > 0 {
        *velocity = max_speed as i32;
    } else if input.movement_x < 0 {
        *velocity = -(max_speed as i32);
    } else {
        *velocity = 0;
    }
}

/// Move between the Idle and Walking states by current velocity; other
/// states are untouched.
pub fn update_movement_state(velocity: i32, state: &mut CharacterState)
    ensures
        !old(state).accepts_input() ==> *final(state) == *old(state),
        old(state).accepts_input() && velocity != 0 ==> *final(state) is Walking,
        old(state).accepts_input() && velocity == 0 ==> *final(state) is Idle,
{
    if !(matches!(*state, CharacterState::Idle) || matches!(*state, CharacterState::Walking)) {
        return ;
    }
    if velocity != 0 {
        *state = CharacterState::Walking;
    } else {
        *state = CharacterState::Idle;
    }
}

/// Advance a position by one frame of its velocity.
pub fn apply_velocity(position_x: &mut i32, velocity: i32)
    requires
        -1000000 <= *old(position_x) <= 1000000,
        -10000000 <= velocity <= 10000000,
    ensures
        *final(position_x) == *old(position_x) + per_frame(velocity as int),
{
    if velocity >= 0 {
        *position_x = *position_x + velocity / 60;
    } else {
        *position_x = *position_x - (-velocity) / 60;
    }
}

/// Clamp a character to the stage, leaving room for half its body.
pub fn clamp_to_stage(position_x: &mut i32)
    ensures
        *final(position_x) == if *old(position_x) < -(STAGE_HALF_WIDTH - CHARACTER_HALF_WIDTH) {
            -(STAGE_HALF_WIDTH - CHARACTER_HALF_WIDTH) as int
        } else if *old(position_x) > STAGE_HALF_WIDTH - CHARACTER_HALF_WIDTH {
            (STAGE_HALF_WIDTH - CHARACTER_HALF_WIDTH) as int
        } else {
            *old(position_x) as int
        },
        -STAGE_HALF_WIDTH <= *final(position_x) <= STAGE_HALF_WIDTH,
{
    let limit = STAGE_HALF_WIDTH - CHARACTER_HALF_WIDTH;
    if *position_x < -limit {
        *position_x = -limit;
    } else if *position_x > limit {
        *position_x = limit;
    }
}

// ==================== ATTACK MOVEMENT ====================

/// Progress of the movement a move carries its attacker through.
#[derive(Debug, Clone, Copy, PartialEq, Eq, Structural)]
pub struct ActiveAttackMovement {
    /// Total signed distance to cover (positive is toward the opponent).
    pub total_distance: i32,
    /// Signed distance covered so far.
    pub distance_moved: i32,
    /// Stage units covered per frame.
    pub speed: u32,
    /// 1 when facing right, -1 when facing left.
    pub facing_multiplier: i32,
}

impl ActiveAttackMovement {
    pub fn new(movement: &crate::movelist::AttackMovement, facing_right: bool) -> (r: Self)
        ensures
            r.total_distance == movement.distance,
            r.distance_moved == 0,
            r.speed == movement.speed,
            r.facing_multiplier == if facing_right {
                1int
            } else {
                -1int
            },
    {
        ActiveAttackMovement {
            total_distance: movement.distance,
            distance_moved: 0,
            speed: movement.speed,
            facing_multiplier: if facing_right {
                1
            } else {
                -1
            },
        }
    }

    /// Whether the full distance has been covered.
    pub fn is_complete(&self) -> (r: bool)
        requires
            -1000000 <= self.total_distance <= 1000000,
            -1000000 <= self.distance_moved <= 1000000,
        ensures
            r == (abs_spec(self.distance_moved as int) >= abs_spec(self.total_distance as int)),
    {
        let moved = if self.distance_moved < 0 {
            -self.distance_moved
        } else {
            self.distance_moved
        };
        let total = if self.total_distance < 0 {
            -self.total_distance
        } else {
            self.total_distance
        };
        moved >= total
    }

    /// Signed distance still to cover.
    pub fn remaining_distance(&self) -> (r: i32)
        requires
            -1000000 <= self.total_distance <= 1000000,
            -1000000 <= self.distance_moved <= 1000000,
        ensures
            r == self.total_distance - self.distance_moved,
    {
        self.total_distance - self.distance_moved
    }
}

/// Absolute value.
pub open spec fn abs_spec(v: int) -> int {
    if v >= 0 {
        v
    } else {
        -v
    }
}

/// Attach attack movement when a character stands at the start of the
/// active phase of a move that carries movement and none is attached yet.
pub fn initiate_attack_movement(
    state: &CharacterState,
    movelist: &Movelist,
    attack_movement: &mut Option<ActiveAttackMovement>,
    player_x: i32,
    opponent_x: i32,
)
    requires
        movelist.wf(),
        movelist.has_neutrals(),
    ensures
        *old(attack_movement) is Some ==> *final(attack_movement) == *old(attack_movement),
        !state.in_active_phase() ==> *final(attack_movement) == *old(attack_movement),
        *old(attack_movement) is None && state.in_active_phase() ==> (state matches
            CharacterState::Attacking { attack_type, direction, .. } ==> ({
            match lookup_move_spec(*movelist, *attack_type, *direction) {
                Some(md) => match md.movement {
                    Some(m) => *final(attack_movement) matches Some(am) && am.total_distance
                        == m.distance && am.distance_moved == 0 && am.speed == m.speed
                        && am.facing_multiplier == (
                    if opponent_x > player_x {
                        1int
                    } else {
                        -1int
                    }),
                    None => *final(attack_movement) is None,
                },
                None => *final(attack_movement) is None,
            }
        })),
{
    if attack_movement.is_some() {
        return ;
    }
    if let CharacterState::Attacking { attack_type, direction, phase } = state {
        if matches!(phase, AttackPhase::Active) {
            let move_data = crate::chain::lookup_move(movelist, *attack_type, *direction);
            if let Some(m) = &move_data.movement {
                let facing_right = opponent_x > player_x;
                *attack_movement = Some(ActiveAttackMovement::new(m, facing_right));
            }
        }
    }
}

/// Apply one frame of attack movement during the active phase: the attacker
/// advances by its per-frame speed (or the remainder, if smaller) in the
/// move's direction adjusted for facing. Outside the active phase the
/// tracker is removed.
pub fn apply_attack_movement(
    state: &CharacterState,
    position_x: &mut i32,
    attack_movement: &mut Option<ActiveAttackMovement>,
)
    requires
        -1000000 <= *old(position_x) <= 1000000,
        *old(attack_movement) matches Some(am) ==> -1000000 <= am.total_distance <= 1000000
            && -1000000 <= am.distance_moved <= 1000000 && am.speed <= 10000 && (
        am.facing_multiplier == 1 || am.facing_multiplier == -1),
    ensures
        *old(attack_movement) is None ==> *final(attack_movement) is None && *final(position_x)
            == *old(position_x),
        *old(attack_movement) matches Some(am) ==> (!state.in_active_phase() ==> *final(attack_movement) is None && *final(position_x) == *old(position_x)),
        *old(attack_movement) matches Some(am) ==> (state.in_active_phase() ==> ({
            let remaining = am.total_distance - am.distance_moved;
            let step = clamp_step(remaining, am.speed as int);
            &&& *final(position_x) == *old(position_x) + step * am.facing_multiplier
            &&& (*final(attack_movement) matches Some(am2) && am2.distance_moved
                == am.distance_moved + step && am2.total_distance == am.total_distance
                && am2.speed == am.speed && am2.facing_multiplier == am.facing_multiplier)
        })),
{
    let am = match attack_movement {
        Some(am) => am,
        None => {
            return ;
        }
    };
    if !(matches!(state, CharacterState::Attacking { phase: AttackPhase::Active, .. })) {
        *attack_movement = None;
        return ;
    }
    let remaining = am.total_distance - am.distance_moved;
    let speed = am.speed as i32;
    let step = if remaining > speed {
        speed
    } else if remaining < -speed {
        -speed
    } else {
        remaining
    };
    *position_x = *position_x + step * am.facing_multiplier;
    am.distance_moved = am.distance_moved + step;
}

/// A signed step limited to one frame's speed.
pub open spec fn clamp_step(remaining: int, speed: int) -> int {
    if remaining > speed {
        speed
    } else if remaining < -speed {
        -speed
    } else {
        remaining
    }
}

// ==================== DASH ====================

/// A dash in progress.
#[derive(Debug, Clone, Copy, PartialEq, Eq, Structural)]
pub struct DashData {
    /// Dash direction: 1 right, -1 left.
    pub direction: i32,
    /// Stage units travelled so far.
    pub distance_traveled: i32,
}

/// Cooldown before the next dash.
#[derive(Debug, Clone, Copy, PartialEq, Eq, Structural)]
pub struct DashCooldown {
    pub frames_remaining: u32,
}

impl DashCooldown {
    pub fn new() -> (r: Self)
        ensures
            r.frames_remaining == DASH_COOLDOWN,
    {
        DashCooldown { frames_remaining: DASH_COOLDOWN }
    }

    pub fn is_ready(&self) -> (r: bool)
        ensures
            r == (self.frames_remaining == 0),
    {
        self.frames_remaining == 0
    }

    pub fn tick(&mut self)
        ensures
            final(self).frames_remaining == if old(self).frames_remaining > 0 {
                old(self).frames_remaining - 1
            } else {
                0
            },
    {
        if self.frames_remaining > 0 {
            self.frames_remaining = self.frames_remaining - 1;
        }
    }

    pub fn reset(&mut self)
        ensures
            final(self).frames_remaining == DASH_COOLDOWN,
    {
        self.frames_remaining = DASH_COOLDOWN;
    }
}

/// Begin a dash on a step input with a held direction, from a movement
/// state, when no dash is running and the cooldown is over; the cooldown
/// restarts. Anything else leaves dash and cooldown untouched.
pub fn handle_dash_input(
    state: &CharacterState,
    input: &PlayerInput,
    dash: &mut Option<DashData>,
    cooldown: &mut Option<DashCooldown>,
)
    requires
        -1 <= input.movement_x <= 1,
    ensures
        ({
            let ready = match *old(cooldown) {
                Some(cd) => cd.frames_remaining == 0,
                None => true,
            };
            let starts = state.accepts_input() && *old(dash) is None && ready && input.step
                && input.movement_x != 0;
            if starts {
                &&& *final(dash) matches Some(d) && d.direction == input.movement_x
                    && d.distance_traveled == 0
                &&& *final(cooldown) matches Some(cd) && cd.frames_remaining == DASH_COOLDOWN
            } else {
                *final(dash) == *old(dash) && *final(cooldown) == *old(cooldown)
            }
        }),
{
    if !(matches!(state, CharacterState::Idle) || matches!(state, CharacterState::Walking)) {
        return ;
    }
    if dash.is_some() {
        return ;
    }
    let ready = match cooldown {
        Some(cd) => cd.is_ready(),
        None => true,
    };
    if !ready {
        return ;
    }
    if input.step && input.movement_x != 0 {
        *dash = Some(DashData { direction: input.movement_x, distance_traveled: 0 });
        *cooldown = Some(DashCooldown::new());
    }
}

/// Apply one frame of dash movement: an attacking character's dash is
/// cancelled; otherwise the character covers one frame of dash speed (or
/// the remainder) in the dash direction, and a finished dash is removed.
pub fn apply_dash_movement(
    state: &CharacterState,
    position_x: &mut i32,
    dash: &mut Option<DashData>,
)
    requires
        -1000000 <= *old(position_x) <= 1000000,
        *old(dash) matches Some(d) ==> (d.direction == 1 || d.direction == -1) && 0
            <= d.distance_traveled <= DASH_DISTANCE,
    ensures
        *old(dash) is None ==> *final(dash) is None && *final(position_x) == *old(position_x),
        *old(dash) matches Some(d) ==> (state matches CharacterState::Attacking { .. } ==> *final(dash) is None && *final(position_x) == *old(position_x)),
        *old(dash) matches Some(d) ==> (!(state matches CharacterState::Attacking { .. }) ==> ({
            let step = if DASH_DISTANCE - d.distance_traveled < DASH_SPEED {
                DASH_DISTANCE - d.distance_traveled
            } else {
                DASH_SPEED as int
            };
            &&& *final(position_x) == *old(position_x) + step * d.direction
            &&& (d.distance_traveled + step >= DASH_DISTANCE ==> *final(dash) is None)
            &&& (d.distance_traveled + step < DASH_DISTANCE ==> (*final(dash) matches Some(d2)
                && d2.direction == d.direction && d2.distance_traveled == d.distance_traveled
                + step))
        })),
{
    let d = match dash {
        Some(d) => d,
        None => {
            return ;
        }
    };
    if matches!(state, CharacterState::Attacking { .. }) {
        *dash = None;
        return ;
    }
    let remaining = DASH_DISTANCE - d.distance_traveled;
    let step = if remaining < DASH_SPEED {
        remaining
    } else {
        DASH_SPEED
    };
    *position_x = *position_x + step * d.direction;
    d.distance_traveled = d.distance_traveled + step;
    if d.distance_traveled >= DASH_DISTANCE {
        *dash = None;
    }
}

/// Tick down a dash cooldown.
pub fn tick_dash_cooldown(cooldown: &mut Option<DashCooldown>)
    ensures
        *old(cooldown) is None ==> *final(cooldown) is None,
        *old(cooldown) matches Some(cd) ==> (*final(cooldown) matches Some(cd2)
            && cd2.frames_remaining == if cd.frames_remaining > 0 {
            cd.frames_remaining - 1
        } else {
            0
        }),
{
    if let Some(cd) = cooldown {
        cd.tick();
    }
}

} // verus!
