//! Player identity, basic movement attributes, and the full per-character
//! record that the simulation tick operates on.

use vstd::prelude::*;
use crate::breath::Breath;
use crate::chain::ChainState;
use crate::combat::{Hitbox, Hurtbox};
use crate::combo::InputBuffer;
use crate::evade::EvadeData;
use crate::guard::GuardMeter;
use crate::health::Health;
use crate::hitstop::Hitstop;
use crate::initiative::Initiative;
use crate::momentum::Momentum;
use crate::movelist::Movelist;
use crate::movement::{ActiveAttackMovement, DashCooldown, DashData};
use crate::pressure::{Pressure, BASE_MOVE_SPEED};
use crate::state::{CharacterState, StateTimer};
use crate::stumble::{StumbleState, STUMBLE_FRAMES_CAP};

verus! {

/// Identifies one of the two players.
#[derive(Debug, Clone, Copy, PartialEq, Eq, Structural)]
pub enum Player {
    One,
    Two,
}

impl Player {
    /// The other player.
    pub fn opponent(&self) -> (r: Player)
        ensures
            self is One ==> r is Two,
            self is Two ==> r is One,
    {
        match self {
            Player::One => Player::Two,
            Player::Two => Player::One,
        }
    }
}

/// Maximum movement speed, in stage units per second.
#[derive(Debug, Clone, Copy, PartialEq, Eq, Structural)]
pub struct MaxSpeed(pub u32);

/// Current horizontal velocity, in stage units per second (signed).
#[derive(Debug, Clone, Copy, PartialEq, Eq, Structural)]
pub struct Velocity(pub i32);

impl Default for Velocity {
    fn default() -> (r: Self)
        ensures
            r.0 == 0,
    {
        Velocity(0)
    }
}

/// Horizontal spawn position of a player, in stage units.
pub open spec fn spec_spawn_x(player: Player) -> int {
    match player {
        Player::One => -1200,
        Player::Two => 1200,
    }
}

/// One combatant: identity, position, combat state, move table, input
/// buffer, collision boxes, and every meter. Transient pieces (hitbox,
/// state timer, stumble, hitstop, dash, evade, attack movement) are
/// optional and attached or detached by the transitions that own them.
#[derive(Debug, Clone)]
pub struct Character {
    pub player: Player,
    /// Horizontal position, in stage units.
    pub position_x: i32,
    pub state: CharacterState,
    pub timer: Option<StateTimer>,
    pub movelist: Movelist,
    pub buffer: InputBuffer,
    pub hitbox: Option<Hitbox>,
    pub hurtbox: Hurtbox,
    pub guard: GuardMeter,
    pub health: Health,
    pub initiative: Initiative,
    pub momentum: Momentum,
    pub pressure: Pressure,
    pub breath: Breath,
    pub chain: ChainState,
    pub stumble: Option<StumbleState>,
    pub hitstop: Option<Hitstop>,
    pub evade: Option<EvadeData>,
    pub dash: Option<DashData>,
    pub dash_cooldown: Option<DashCooldown>,
    pub attack_movement: Option<ActiveAttackMovement>,
    /// Maximum movement speed, in stage units per second.
    pub max_speed: u32,
    /// Current horizontal velocity, in stage units per second.
    pub velocity_x: i32,
}

impl Character {
    /// Every component is in its safe range: the move table is complete,
    /// the meters respect their bounds, positions stay on the stage scale,
    /// timers and trackers are small enough that one more tick can never
    /// overflow.
    pub open spec fn wf(self) -> bool {
        &&& self.movelist.wf()
        &&& self.movelist.has_neutrals()
        &&& self.health.wf()
        &&& self.guard.wf()
        &&& self.buffer.wf()
        &&& -100000 <= self.position_x <= 100000
        &&& (self.timer matches Some(t) ==> t.elapsed <= 100000 && t.target <= 100000)
        &&& (self.hitbox matches Some(hb) ==> hb.rect.in_bounds())
        &&& self.hurtbox.rect.in_bounds()
        &&& (self.stumble matches Some(s) ==> s.frames_remaining <= STUMBLE_FRAMES_CAP
            && s.elapsed_frames <= STUMBLE_FRAMES_CAP)
        &&& (self.hitstop matches Some(h) ==> h.wf())
        &&& (self.dash matches Some(d) ==> (d.direction == 1 || d.direction == -1) && 0
            <= d.distance_traveled <= crate::movement::DASH_DISTANCE)
        &&& (self.attack_movement matches Some(am) ==> -100000 <= am.total_distance <= 100000
            && -200000 <= am.distance_moved <= 200000 && 1 <= am.speed <= 10000 && (
        am.facing_multiplier == 1 || am.facing_multiplier == -1))
        &&& self.max_speed <= 100000
        &&& -100000 <= self.velocity_x <= 100000
        &&& self.momentum.decay_threshold == 120
        &&& -1000 <= self.initiative.frames <= 1000
        &&& self.pressure.idle_frames <= 120
    }

    /// A fresh combatant at their spawn position with full meters and the
    /// standard move table.
    pub fn new(player: Player) -> (r: Self)
        ensures
            r.wf(),
            r.player == player,
            r.position_x == spec_spawn_x(player),
            r.state is Idle,
            r.timer is None,
            r.hitbox is None,
            r.stumble is None,
            r.hitstop is None,
            r.health.current == 10000,
            r.breath.current == 3,
    {
        let position_x: i32 = match player {
            Player::One => -1200,
            Player::Two => 1200,
        };
        Character {
            player,
            position_x,
            state: CharacterState::Idle,
            timer: None,
            movelist: Movelist::default_character(),
            buffer: InputBuffer::new(),
            hitbox: None,
            hurtbox: Hurtbox::default(),
            guard: GuardMeter::new(),
            health: Health::new(10000),
            initiative: Initiative::new(),
            momentum: Momentum::new(),
            pressure: Pressure::new(),
            breath: Breath::new(3),
            chain: ChainState::new(),
            stumble: None,
            hitstop: None,
            evade: None,
            dash: None,
            dash_cooldown: None,
            attack_movement: None,
            max_speed: BASE_MOVE_SPEED,
            velocity_x: 0,
        }
    }

    /// Reset a combatant for the next round: full health, spawn position,
    /// resting state, and neutral initiative, pressure and momentum; breath
    /// and the guard meter carry over.
    pub fn reset_for_round(&mut self)
        requires
            old(self).wf(),
        ensures
            final(self).wf(),
            final(self).health.current == final(self).health.max,
            final(self).position_x == spec_spawn_x(final(self).player),
            final(self).state is Idle,
            final(self).initiative.frames == 0,
            final(self).pressure.intensity == 0,
            final(self).momentum.level == 0,
            final(self).breath == old(self).breath,
            final(self).player == old(self).player,
            final(self).timer is None,
            final(self).hitbox is None,
            final(self).stumble is None,
            final(self).hitstop is None,
    {
        self.health.restore_full();
        self.position_x = match self.player {
            Player::One => -1200,
            Player::Two => 1200,
        };
        self.state = CharacterState::Idle;
        self.timer = None;
        self.hitbox = None;
        self.stumble = None;
        self.hitstop = None;
        self.evade = None;
        self.dash = None;
        self.attack_movement = None;
        self.initiative.reset();
        self.pressure.reset();
        self.momentum.reset();
        self.chain.reset();
        self.velocity_x = 0;
    }
}

} // verus!
