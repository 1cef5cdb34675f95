//! Stumble state: an extended vulnerable state allowing follow-up hits
//! (extenders), escape (tech), wall bounces and hard-knockdown finishers.

use vstd::prelude::*;
use crate::combat::StumbleProperty;
use crate::events::HitEvent;
use crate::initiative::Initiative;
use crate::input::PlayerInput;
use crate::movelist::Movelist;
use crate::state::{AttackPhase, AttackType, CharacterState};

verus! {

/// Direction of a stumble or tumble.
#[derive(Clone, Copy, Debug, PartialEq, Eq, Structural)]
pub enum StumbleDirection {
    /// Stumble backward (away from the attacker).
    Backward,
    /// Stumble forward (toward the attacker).
    Forward,
    /// Stumble down (low tumble).
    Down,
}

/// Frames added by an extension, by the number of extensions already taken:
/// the full base amount first, then four fifths, two thirds and fifty-three
/// hundredths of it (each rounded down), and nothing from the fifth
/// extension on.
pub open spec fn extension_amount(count: int, base: int) -> int {
    if count == 0 {
        base
    } else if count == 1 {
        base * 4 / 5
    } else if count == 2 {
        base * 2 / 3
    } else if count == 3 {
        base * 53 / 100
    } else {
        0
    }
}

/// Ceiling on stumble frame counters: every mutation clamps to this, so a
/// stumble's numbers stay in a safe range whatever sequence of extensions
/// and bounces occurs.
pub const STUMBLE_FRAMES_CAP: u32 = 1000000;

/// A sum clamped to the stumble frame ceiling.
pub open spec fn capped_add(a: int, b: int) -> int {
    if a + b > STUMBLE_FRAMES_CAP {
        STUMBLE_FRAMES_CAP as int
    } else {
        a + b
    }
}

/// Stumble state: the defender is off balance and vulnerable but can act.
/// Present only while a character is juggle-vulnerable; removed on tech
/// success, timeout or a spike finisher.
#[derive(Clone, Copy, Debug, PartialEq, Eq, Structural)]
pub struct StumbleState {
    /// Remaining frames of stumble (includes extensions).
    pub frames_remaining: u32,
    /// Direction of the stumble.
    pub direction: StumbleDirection,
    /// Frame at which the tech window opens.
    pub tech_window_start: u32,
    /// Frame at which the tech window closes (inclusive).
    pub tech_window_end: u32,
    /// Whether this stumble can be teched at all.
    pub can_tech: bool,
    /// Number of times this stumble has been extended.
    pub extension_count: u8,
    /// Whether this stumble came from a counter hit.
    pub from_counter_hit: bool,
    /// Frames elapsed since the stumble (or its latest extension) began.
    pub elapsed_frames: u32,
}

impl StumbleState {
    /// Start a fresh stumble with the tech window at frames 5 through 13.
    pub fn new(direction: StumbleDirection, duration: u32, can_tech: bool) -> (r: Self)
        ensures
            r.frames_remaining == duration,
            r.direction == direction,
            r.tech_window_start == 5,
            r.tech_window_end == 13,
            r.can_tech == can_tech,
            r.extension_count == 0,
            !r.from_counter_hit,
            r.elapsed_frames == 0,
    {
        StumbleState {
            frames_remaining: duration,
            direction,
            tech_window_start: 5,
            tech_window_end: 13,
            can_tech,
            extension_count: 0,
            from_counter_hit: false,
            elapsed_frames: 0,
        }
    }

    /// The tech window is open exactly while the stumble can be teched and
    /// the elapsed frame count lies between the window's start and end,
    /// inclusive on both ends.
    pub fn is_in_tech_window(&self) -> (r: bool)
        ensures
            r == (self.can_tech && self.tech_window_start <= self.elapsed_frames
                <= self.tech_window_end),
    {
        self.can_tech && self.elapsed_frames >= self.tech_window_start
            && self.elapsed_frames <= self.tech_window_end
    }

    /// Advance the stumble by one frame.
    pub fn tick(&mut self)
        ensures
            final(self).elapsed_frames == capped_add(old(self).elapsed_frames as int, 1),
            final(self).frames_remaining == if old(self).frames_remaining > 0 {
                old(self).frames_remaining - 1
            } else {
                0
            },
            *final(self) == (StumbleState {
                elapsed_frames: final(self).elapsed_frames,
                frames_remaining: final(self).frames_remaining,
                ..*old(self)
            }),
    {
        if self.elapsed_frames < STUMBLE_FRAMES_CAP {
            self.elapsed_frames = self.elapsed_frames + 1;
        } else {
            self.elapsed_frames = STUMBLE_FRAMES_CAP;
        }
        if self.frames_remaining > 0 {
            self.frames_remaining = self.frames_remaining - 1;
        }
    }

    /// Extend the stumble by a diminishing-returns share of `base_frames`.
    /// A successful extension (one that adds at least one frame) takes the
    /// new direction, resets the elapsed count and the tech window to frames
    /// 5 through 13, and counts one more extension; otherwise nothing
    /// changes.
    pub fn extend(&mut self, direction: StumbleDirection, base_frames: u32)
        requires
            base_frames <= 10000,
        ensures
            ({
                let added = extension_amount(old(self).extension_count as int, base_frames as int);
                if added > 0 {
                    *final(self) == (StumbleState {
                        frames_remaining: capped_add(
                            old(self).frames_remaining as int,
                            added,
                        ) as u32,
                        direction: direction,
                        extension_count: (old(self).extension_count + 1) as u8,
                        elapsed_frames: 0,
                        tech_window_start: 5,
                        tech_window_end: 13,
                        ..*old(self)
                    })
                } else {
                    *final(self) == *old(self)
                }
            }),
    {
        let scaled_frames: u32 = match self.extension_count {
            0 => base_frames,
            1 => base_frames * 4 / 5,
            2 => base_frames * 2 / 3,
            3 => base_frames * 53 / 100,
            _ => 0,
        };
        if scaled_frames > 0 {
            if self.frames_remaining > STUMBLE_FRAMES_CAP - scaled_frames {
                self.frames_remaining = STUMBLE_FRAMES_CAP;
            } else {
                self.frames_remaining = self.frames_remaining + scaled_frames;
            }
            self.direction = direction;
            self.extension_count = self.extension_count + 1;
            self.elapsed_frames = 0;
            self.tech_window_start = 5;
            self.tech_window_end = 13;
        }
    }

    /// The stumble ends once its duration runs out or it has been extended
    /// four times, whichever comes first.
    pub fn should_end(&self) -> (r: bool)
        ensures
            r == (self.frames_remaining == 0 || self.extension_count >= 4),
    {
        self.frames_remaining == 0 || self.extension_count >= 4
    }

    /// Wall bounce: the stumble direction reverses (a down tumble is
    /// unaffected), twenty frames are added, teching is disabled, and the
    /// elapsed count restarts.
    pub fn apply_wall_bounce(&mut self)
        ensures
            final(self).direction == (match old(self).direction {
                StumbleDirection::Backward => StumbleDirection::Forward,
                StumbleDirection::Forward => StumbleDirection::Backward,
                StumbleDirection::Down => StumbleDirection::Down,
            }),
            final(self).frames_remaining == capped_add(old(self).frames_remaining as int, 20),
            !final(self).can_tech,
            final(self).elapsed_frames == 0,
            final(self).tech_window_start == old(self).tech_window_start,
            final(self).tech_window_end == old(self).tech_window_end,
            final(self).extension_count == old(self).extension_count,
            final(self).from_counter_hit == old(self).from_counter_hit,
    {
        self.direction = match self.direction {
            StumbleDirection::Backward => StumbleDirection::Forward,
            StumbleDirection::Forward => StumbleDirection::Backward,
            d => d,
        };
        if self.frames_remaining > STUMBLE_FRAMES_CAP - 20 {
            self.frames_remaining = STUMBLE_FRAMES_CAP;
        } else {
            self.frames_remaining = self.frames_remaining + 20;
        }
        self.can_tech = false;
        self.elapsed_frames = 0;
    }
}

// ==================== STUMBLE SYSTEMS ====================

/// Stage coordinate at which a stumbling character meets a wall.
pub const WALL_BOUNCE_THRESHOLD: i32 = 1880;

/// Apply a fresh stumble to the defender of an unblocked hit whose move is
/// a launcher, landed during the attacker's active phase, when the defender
/// is not already stumbling. A counter hit adds ten frames and makes the
/// stumble untechable. Any other hit changes nothing.
pub fn apply_stumble_on_hit(
    stumble: &mut Option<StumbleState>,
    attacker_state: &CharacterState,
    attacker_movelist: &Movelist,
    event: &HitEvent,
)
    requires
        attacker_movelist.wf(),
    ensures
        ({
            let considers = !event.was_blocked && *old(stumble) is None
                && attacker_state.in_active_phase();
            if considers {
                match *attacker_state {
                    CharacterState::Attacking { attack_type, direction, .. } => {
                        match attacker_movelist.spec_get(attack_type, direction) {
                            Some(md) => match md.stumble_property {
                                StumbleProperty::Launcher(dir, duration) => *final(stumble)
                                    == Some(
                                    StumbleState {
                                        frames_remaining: (duration + if event.counter_hit {
                                            10int
                                        } else {
                                            0int
                                        }) as u32,
                                        direction: dir,
                                        tech_window_start: 5,
                                        tech_window_end: 13,
                                        can_tech: !event.counter_hit,
                                        extension_count: 0,
                                        from_counter_hit: event.counter_hit,
                                        elapsed_frames: 0,
                                    },
                                ),
                                _ => *final(stumble) == *old(stumble),
                            },
                            None => *final(stumble) == *old(stumble),
                        }
                    }
                    _ => *final(stumble) == *old(stumble),
                }
            } else {
                *final(stumble) == *old(stumble)
            }
        }),
{
    if event.was_blocked {
        return ;
    }
    if stumble.is_some() {
        return ;
    }
    if let CharacterState::Attacking { attack_type, direction, phase } = attacker_state {
        if matches!(phase, AttackPhase::Active) {
            if let Some(move_data) = attacker_movelist.get_move(*attack_type, *direction) {
                if let StumbleProperty::Launcher(dir, duration) = move_data.stumble_property {
                    let can_tech = !event.counter_hit;
                    let mut new_stumble = StumbleState::new(dir, duration, can_tech);
                    if event.counter_hit {
                        new_stumble.from_counter_hit = true;
                        new_stumble.frames_remaining = new_stumble.frames_remaining + 10;
                    }
                    *stumble = Some(new_stumble);
                }
            }
        }
    }
}

/// Extend an already-stumbling defender's stumble when an unblocked
/// extender move lands during the attacker's active phase: the stumble
/// gains the diminishing-returns share of the move's base frames, takes the
/// extender's direction, and its tech window restarts. Any other hit
/// changes nothing.
pub fn extend_stumble_on_hit(
    stumble: &mut Option<StumbleState>,
    attacker_state: &CharacterState,
    attacker_movelist: &Movelist,
    event: &HitEvent,
)
    requires
        attacker_movelist.wf(),
    ensures
        ({
            let considers = !event.was_blocked && *old(stumble) is Some
                && attacker_state.in_active_phase();
            if considers {
                match *attacker_state {
                    CharacterState::Attacking { attack_type, direction, .. } => {
                        match attacker_movelist.spec_get(attack_type, direction) {
                            Some(md) => match md.stumble_property {
                                StumbleProperty::Extender(dir, frames) => (*old(stumble) matches Some(s) ==> ({
                                    let added = extension_amount(
                                        s.extension_count as int,
                                        frames as int,
                                    );
                                    if added > 0 {
                                        *final(stumble) == Some(
                                            StumbleState {
                                                frames_remaining: capped_add(
                                                    s.frames_remaining as int,
                                                    added,
                                                ) as u32,
                                                direction: dir,
                                                extension_count: (s.extension_count + 1) as u8,
                                                elapsed_frames: 0,
                                                tech_window_start: 5,
                                                tech_window_end: 13,
                                                ..s
                                            },
                                        )
                                    } else {
                                        *final(stumble) == *old(stumble)
                                    }
                                })),
                                _ => *final(stumble) == *old(stumble),
                            },
                            None => *final(stumble) == *old(stumble),
                        }
                    }
                    _ => *final(stumble) == *old(stumble),
                }
            } else {
                *final(stumble) == *old(stumble)
            }
        }),
{
    if event.was_blocked {
        return ;
    }
    let s = match stumble {
        Some(s) => s,
        None => {
            return ;
        }
    };
    if let CharacterState::Attacking { attack_type, direction, phase } = attacker_state {
        if matches!(phase, AttackPhase::Active) {
            if let Some(move_data) = attacker_movelist.get_move(*attack_type, *direction) {
                if let StumbleProperty::Extender(dir, frames) = move_data.stumble_property {
                    s.extend(dir, frames);
                }
            }
        }
    }
}

/// Resolve a tech attempt: any attack button pressed inside the open tech
/// window removes the stumble and puts the defender five frames behind.
/// Returns whether the tech succeeded; outside the window, without a press,
/// or without a stumble, nothing changes.
pub fn handle_tech_input(
    stumble: &mut Option<StumbleState>,
    initiative: &mut Initiative,
    input: &PlayerInput,
) -> (teched: bool)
    ensures
        ({
            let pressed = input.light_attack || input.heavy_attack || input.grab;
            let in_window = match *old(stumble) {
                Some(s) => s.can_tech && s.tech_window_start <= s.elapsed_frames
                    <= s.tech_window_end,
                None => false,
            };
            &&& teched == (pressed && in_window)
            &&& (teched ==> *final(stumble) is None && final(initiative).frames == -5)
            &&& (!teched ==> *final(stumble) == *old(stumble) && *final(initiative) == *old(initiative))
        }),
{
    let s = match stumble {
        Some(s) => s,
        None => {
            return false;
        }
    };
    if !s.is_in_tech_window() {
        return false;
    }
    let tech_pressed = input.light_attack || input.heavy_attack || input.grab;
    if tech_pressed {
        *stumble = None;
        initiative.frames = -5;
        true
    } else {
        false
    }
}

/// Bounce a stumbling character off a stage wall: at or past the left wall
/// while stumbling backward, or the right wall while stumbling forward, the
/// stumble reverses direction, gains twenty frames, loses its tech, and its
/// elapsed count restarts. Returns whether a bounce happened.
pub fn detect_wall_bounce(stumble: &mut Option<StumbleState>, position_x: i32) -> (bounced: bool)
    ensures
        ({
            let hits_wall = match *old(stumble) {
                Some(s) => (position_x <= -WALL_BOUNCE_THRESHOLD && s.direction is Backward) || (
                position_x >= WALL_BOUNCE_THRESHOLD && s.direction is Forward),
                None => false,
            };
            &&& bounced == hits_wall
            &&& (!bounced ==> *final(stumble) == *old(stumble))
            &&& (bounced ==> (*old(stumble) matches Some(s) ==> *final(stumble) == Some(
                StumbleState {
                    direction: if s.direction is Backward {
                        StumbleDirection::Forward
                    } else {
                        StumbleDirection::Backward
                    },
                    frames_remaining: capped_add(s.frames_remaining as int, 20) as u32,
                    can_tech: false,
                    elapsed_frames: 0,
                    ..s
                },
            )))
        }),
{
    let s = match stumble {
        Some(s) => s,
        None => {
            return false;
        }
    };
    let hit_left_wall = position_x <= -WALL_BOUNCE_THRESHOLD && matches!(
        s.direction,
        StumbleDirection::Backward,
    );
    let hit_right_wall = position_x >= WALL_BOUNCE_THRESHOLD && matches!(
        s.direction,
        StumbleDirection::Forward,
    );
    if hit_left_wall || hit_right_wall {
        s.apply_wall_bounce();
        true
    } else {
        false
    }
}

/// Whether a move spikes a stumbling opponent: the neutral and down heavies
/// always do, and so does any move tagged as a spike in the move table.
pub open spec fn spec_can_spike(
    attack_type: AttackType,
    direction: crate::movelist::AttackDirection,
    move_data: Option<crate::movelist::MoveData>,
) -> bool {
    ||| (attack_type is Heavy && (direction is Neutral || direction is Down))
    ||| (move_data matches Some(md) && md.stumble_property is Spike)
}

/// Resolve a spike finisher: an unblocked spiking move landing during the
/// attacker's active phase on a stumbling defender removes the stumble
/// immediately (hard knockdown), regardless of remaining duration or
/// extensions. Returns whether a spike landed.
pub fn handle_spike_finisher(
    stumble: &mut Option<StumbleState>,
    attacker_state: &CharacterState,
    attacker_movelist: &Movelist,
    event: &HitEvent,
) -> (spiked: bool)
    requires
        attacker_movelist.wf(),
    ensures
        ({
            let lands = !event.was_blocked && *old(stumble) is Some
                && attacker_state.in_active_phase() && (match *attacker_state {
                CharacterState::Attacking { attack_type, direction, .. } => spec_can_spike(
                    attack_type,
                    direction,
                    attacker_movelist.spec_get(attack_type, direction),
                ),
                _ => false,
            });
            &&& spiked == lands
            &&& (spiked ==> *final(stumble) is None)
            &&& (!spiked ==> *final(stumble) == *old(stumble))
        }),
{
    if event.was_blocked {
        return false;
    }
    if stumble.is_none() {
        return false;
    }
    if let CharacterState::Attacking { attack_type, direction, phase } = attacker_state {
        if !matches!(phase, AttackPhase::Active) {
            return false;
        }
        let can_spike = match (attack_type, direction) {
            (AttackType::Heavy, crate::movelist::AttackDirection::Neutral) => true,
            (AttackType::Heavy, crate::movelist::AttackDirection::Down) => true,
            _ => {
                match attacker_movelist.get_move(*attack_type, *direction) {
                    Some(move_data) => matches!(move_data.stumble_property, StumbleProperty::Spike),
                    None => false,
                }
            }
        };
        if can_spike {
            *stumble = None;
            return true;
        }
        false
    } else {
        false
    }
}

/// Tick a running stumble down one frame; a stumble whose duration has run
/// out, or which has taken its fourth extension, ends and is removed.
pub fn process_stumble(stumble: &mut Option<StumbleState>)
    ensures
        *old(stumble) is None ==> *final(stumble) is None,
        *old(stumble) matches Some(s) ==> ({
            let ticked = StumbleState {
                elapsed_frames: capped_add(s.elapsed_frames as int, 1) as u32,
                frames_remaining: if s.frames_remaining > 0 {
                    (s.frames_remaining - 1) as u32
                } else {
                    0u32
                },
                ..s
            };
            if ticked.frames_remaining == 0 || ticked.extension_count >= 4 {
                *final(stumble) is None
            } else {
                *final(stumble) == Some(ticked)
            }
        }),
{
    let s = match stumble {
        Some(s) => s,
        None => {
            return ;
        }
    };
    s.tick();
    if s.should_end() {
        *stumble = None;
    }
}

} // verus!
