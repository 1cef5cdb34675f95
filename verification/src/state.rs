//! Character state machine: the tagged state a character is in on each tick,
//! the frame timer that paces state transitions, and the exact
//! startup/active/recovery timeline of an attack.

use vstd::prelude::*;
use crate::movelist::AttackDirection;

verus! {

/// Type of attack being performed.
#[derive(Debug, Clone, Copy, PartialEq, Eq, Structural, Hash)]
pub enum AttackType {
    Light,
    Heavy,
    Grab,
}

/// Phase of an attack animation.
#[derive(Debug, Clone, Copy, PartialEq, Eq, Structural)]
pub enum AttackPhase {
    /// Windup before the hitbox becomes active.
    Startup,
    /// The hitbox is active and can hit.
    Active,
    /// Cool-down after the hitbox deactivates.
    Recovery,
}

/// The combat state a character is in. Exactly one state per character per
/// tick; transitions are the only way phases and timers change.
#[derive(Debug, Clone, Copy, PartialEq, Eq, Structural)]
pub enum CharacterState {
    Idle,
    Walking,
    Stepping,
    Backdashing,
    /// Performing an attack.
    Attacking { attack_type: AttackType, direction: AttackDirection, phase: AttackPhase },
    /// Holding block.
    Blocking,
    /// Attempting a parry.
    Parrying { frames_remaining: u32 },
    /// Knocked back, unable to act.
    Staggered { frames_remaining: u32 },
}

impl CharacterState {
    /// States from which movement, attack, block and step input is accepted.
    pub open spec fn accepts_input(self) -> bool {
        self is Idle || self is Walking
    }

    /// Whether this character is in the active phase of an attack.
    pub open spec fn in_active_phase(self) -> bool {
        match self {
            CharacterState::Attacking { phase, .. } => phase is Active,
            _ => false,
        }
    }
}

impl Default for CharacterState {
    fn default() -> (r: Self)
        ensures
            r is Idle,
    {
        CharacterState::Idle
    }
}

/// Frame timer for state transitions: counts elapsed frames toward a target.
#[derive(Debug, Clone, Copy, PartialEq, Eq, Structural)]
pub struct StateTimer {
    pub elapsed: u32,
    pub target: u32,
}

impl StateTimer {
    pub fn new(target: u32) -> (r: Self)
        ensures
            r.elapsed == 0,
            r.target == target,
    {
        StateTimer { elapsed: 0, target }
    }

    pub fn tick(&mut self)
        requires
            old(self).elapsed < u32::MAX,
        ensures
            final(self).elapsed == old(self).elapsed + 1,
            final(self).target == old(self).target,
    {
        self.elapsed = self.elapsed + 1;
    }

    pub fn is_complete(&self) -> (r: bool)
        ensures
            r == (self.elapsed >= self.target),
    {
        self.elapsed >= self.target
    }

    pub fn reset(&mut self, new_target: u32)
        ensures
            final(self).elapsed == 0,
            final(self).target == new_target,
    {
        self.elapsed = 0;
        self.target = new_target;
    }
}

/// Coarse frame data for an attack type alone, without a directional variant.
#[derive(Debug, Clone, Copy, PartialEq, Eq, Structural)]
pub struct AttackData {
    pub attack_type: AttackType,
    /// Frames before the hitbox becomes active.
    pub startup_frames: u32,
    /// Frames the hitbox remains active.
    pub active_frames: u32,
    /// Frames of recovery after the hitbox deactivates.
    pub recovery_frames: u32,
    /// Damage dealt, in health centipoints.
    pub damage: u32,
    /// Frame advantage on block (negative means disadvantage).
    pub on_block: i32,
}

impl AttackData {
    /// Light attack frame data: 6f startup, 2f active, 10f recovery.
    pub fn light() -> (r: Self)
        ensures
            r.attack_type is Light,
            r.startup_frames == 6 && r.active_frames == 2 && r.recovery_frames == 10,
            r.damage == 100 && r.on_block == -2,
    {
        AttackData {
            attack_type: AttackType::Light,
            startup_frames: 6,
            active_frames: 2,
            recovery_frames: 10,
            damage: 100,
            on_block: -2,
        }
    }

    /// Heavy attack frame data: 14f startup, 4f active, 18f recovery.
    pub fn heavy() -> (r: Self)
        ensures
            r.attack_type is Heavy,
            r.startup_frames == 14 && r.active_frames == 4 && r.recovery_frames == 18,
            r.damage == 200 && r.on_block == -8,
    {
        AttackData {
            attack_type: AttackType::Heavy,
            startup_frames: 14,
            active_frames: 4,
            recovery_frames: 18,
            damage: 200,
            on_block: -8,
        }
    }

    /// Grab frame data: 10f startup, 2f active, 20f recovery; no direct damage.
    pub fn grab() -> (r: Self)
        ensures
            r.attack_type is Grab,
            r.startup_frames == 10 && r.active_frames == 2 && r.recovery_frames == 20,
            r.damage == 0 && r.on_block == 0,
    {
        AttackData {
            attack_type: AttackType::Grab,
            startup_frames: 10,
            active_frames: 2,
            recovery_frames: 20,
            damage: 0,
            on_block: 0,
        }
    }

    /// Frame count of one phase of this attack.
    pub fn phase_duration(&self, phase: AttackPhase) -> (r: u32)
        ensures
            phase is Startup ==> r == self.startup_frames,
            phase is Active ==> r == self.active_frames,
            phase is Recovery ==> r == self.recovery_frames,
    {
        match phase {
            AttackPhase::Startup => self.startup_frames,
            AttackPhase::Active => self.active_frames,
            AttackPhase::Recovery => self.recovery_frames,
        }
    }
}

/// Coarse frame data for an attack type.
pub fn get_attack_data(attack_type: AttackType) -> (r: AttackData)
    ensures
        r.attack_type == attack_type,
        attack_type is Light ==> r.startup_frames == 6 && r.active_frames == 2
            && r.recovery_frames == 10 && r.damage == 100 && r.on_block == -2,
        attack_type is Heavy ==> r.startup_frames == 14 && r.active_frames == 4
            && r.recovery_frames == 18 && r.damage == 200 && r.on_block == -8,
        attack_type is Grab ==> r.startup_frames == 10 && r.active_frames == 2
            && r.recovery_frames == 20 && r.damage == 0 && r.on_block == 0,
{
    match attack_type {
        AttackType::Light => AttackData::light(),
        AttackType::Heavy => AttackData::heavy(),
        AttackType::Grab => AttackData::grab(),
    }
}

// ==================== ATTACK PHASE TIMELINE ====================
//
// The three phases of an attack advance strictly Startup -> Active ->
// Recovery -> rest, each paced by a timer that ticks once per frame and
// completes when it reaches the phase's frame count. The model below
// captures that machine abstractly, and the lemmas pin down its exact
// timeline: with startup `s`, active `a` and recovery `r`, the attack
// occupies exactly `s + a + r` ticks, and is in its active phase exactly
// during ticks `s + 1` through `s + a`.

/// Abstract state of the attack phase machine: either inside a phase with an
/// elapsed count and a target, or finished (returned to rest).
pub enum PhaseState {
    Running { phase: AttackPhase, elapsed: int, target: int },
    Finished,
}

/// One tick of the phase machine: the timer advances, and a completed timer
/// moves the attack to the next phase with a fresh timer sized to that
/// phase's frame count (`a` for active, `r` for recovery).
pub open spec fn phase_step(ps: PhaseState, a: int, r: int) -> PhaseState {
    match ps {
        PhaseState::Running { phase, elapsed, target } => {
            if elapsed + 1 >= target {
                match phase {
                    AttackPhase::Startup => PhaseState::Running {
                        phase: AttackPhase::Active,
                        elapsed: 0,
                        target: a,
                    },
                    AttackPhase::Active => PhaseState::Running {
                        phase: AttackPhase::Recovery,
                        elapsed: 0,
                        target: r,
                    },
                    AttackPhase::Recovery => PhaseState::Finished,
                }
            } else {
                PhaseState::Running { phase, elapsed: elapsed + 1, target }
            }
        }
        PhaseState::Finished => PhaseState::Finished,
    }
}

/// The phase machine after `n` ticks, starting from a freshly entered
/// startup phase with frame counts `s`, `a`, `r`.
pub open spec fn phase_run(s: int, a: int, r: int, n: nat) -> PhaseState
    decreases n,
{
    if n == 0 {
        PhaseState::Running { phase: AttackPhase::Startup, elapsed: 0, target: s }
    } else {
        phase_step(phase_run(s, a, r, (n - 1) as nat), a, r)
    }
}

/// Closed form of the timeline: startup for the first `s` ticks, active for
/// the next `a`, recovery for the next `r`, finished from tick `s + a + r` on.
pub open spec fn phase_timeline(s: int, a: int, r: int, n: int) -> PhaseState {
    if n < s {
        PhaseState::Running { phase: AttackPhase::Startup, elapsed: n, target: s }
    } else if n < s + a {
        PhaseState::Running { phase: AttackPhase::Active, elapsed: n - s, target: a }
    } else if n < s + a + r {
        PhaseState::Running { phase: AttackPhase::Recovery, elapsed: n - (s + a), target: r }
    } else {
        PhaseState::Finished
    }
}

/// The abstract phase machine a concrete character corresponds to: an
/// attacking character with a timer is inside a phase; any other character
/// is not running an attack.
pub open spec fn attack_phase_model(state: CharacterState, timer: Option<StateTimer>) -> PhaseState {
    match state {
        CharacterState::Attacking { phase, .. } => match timer {
            Some(t) => PhaseState::Running {
                phase,
                elapsed: t.elapsed as int,
                target: t.target as int,
            },
            None => PhaseState::Finished,
        },
        _ => PhaseState::Finished,
    }
}

/// The phase machine follows the closed-form timeline exactly.
pub proof fn lemma_phase_run_timeline(s: int, a: int, r: int, n: nat)
    requires
        1 <= s,
        1 <= a,
        1 <= r,
    ensures
        phase_run(s, a, r, n) == phase_timeline(s, a, r, n as int),
    decreases n,
{
    if n > 0 {
        lemma_phase_run_timeline(s, a, r, (n - 1) as nat);
    }
}

/// Attack phase durations are exact: an attack with startup `s`, active `a`
/// and recovery `r` occupies exactly `s + a + r` ticks from entering its
/// startup phase until it finishes, and its hitbox-bearing active phase holds
/// exactly from tick `s + 1` through tick `s + a` (the state after `n` ticks
/// is the state during tick `n + 1`).
pub proof fn lemma_attack_duration_exact(s: int, a: int, r: int, n: nat)
    requires
        1 <= s,
        1 <= a,
        1 <= r,
    ensures
        (phase_run(s, a, r, n) is Finished) <==> n >= s + a + r,
        (phase_run(s, a, r, n) matches PhaseState::Running { phase, .. } && phase is Active)
            <==> s <= n < s + a,
{
    lemma_phase_run_timeline(s, a, r, n);
}

} // verus!
