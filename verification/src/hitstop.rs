//! Hitstop: a shared freeze applied to both participants of a hit for
//! impact feel. A frozen character skips its normal per-tick advancement.

use vstd::prelude::*;
use crate::chain::{lookup_move, lookup_move_spec};
use crate::events::HitEvent;
use crate::movelist::Movelist;
use crate::state::{AttackType, CharacterState};

verus! {

/// Freeze timer applied to both attacker and defender when an attack
/// connects.
#[derive(Debug, Clone, Copy, PartialEq, Eq, Structural)]
pub struct Hitstop {
    /// Frames remaining in the freeze.
    pub frames_remaining: u32,
    /// Total frames of this freeze (kept for visual effects).
    pub total_frames: u32,
}

impl Hitstop {
    /// The remaining count never exceeds the total.
    pub open spec fn wf(self) -> bool {
        self.frames_remaining <= self.total_frames && self.total_frames <= 1000000
    }

    pub fn new(frames: u32) -> (r: Self)
        requires
            frames <= 1000000,
        ensures
            r.frames_remaining == frames,
            r.total_frames == frames,
            r.wf(),
    {
        Hitstop { frames_remaining: frames, total_frames: frames }
    }

    /// Tick the freeze down one frame. Returns whether the freeze was still
    /// running (and so consumed this frame).
    pub fn tick(&mut self) -> (r: bool)
        ensures
            r == (old(self).frames_remaining > 0),
            final(self).frames_remaining == if old(self).frames_remaining > 0 {
                old(self).frames_remaining - 1
            } else {
                0
            },
            final(self).total_frames == old(self).total_frames,
            old(self).wf() ==> final(self).wf(),
    {
        if self.frames_remaining > 0 {
            self.frames_remaining = self.frames_remaining - 1;
            true
        } else {
            false
        }
    }

    /// Whether the freeze has run out.
    pub fn is_complete(&self) -> (r: bool)
        ensures
            r == (self.frames_remaining == 0),
    {
        self.frames_remaining == 0
    }

    /// How far the freeze has progressed, in percent: 0 just started, 100
    /// complete.
    pub fn progress(&self) -> (r: u32)
        requires
            self.wf(),
        ensures
            self.total_frames == 0 ==> r == 100,
            self.total_frames > 0 ==> r == 100 - self.frames_remaining * 100 / self.total_frames as int,
    {
        if self.total_frames == 0 {
            100
        } else {
            proof {
                assert(self.frames_remaining * 100 <= self.total_frames * 100)
                    by (nonlinear_arith)
                    requires
                        self.frames_remaining <= self.total_frames,
                ;
                assert(self.frames_remaining * 100 / self.total_frames as int <= self.total_frames * 100
                    / self.total_frames as int) by (nonlinear_arith)
                    requires
                        self.frames_remaining * 100 <= self.total_frames * 100
                            && self.total_frames > 0,
                ;
                assert(self.total_frames * 100 / self.total_frames as int == 100) by (nonlinear_arith)
                    requires
                        self.total_frames > 0,
                ;
            }
            100 - self.frames_remaining * 100 / self.total_frames
        }
    }
}

// ==================== HITSTOP SYSTEMS ====================

/// Fallback freeze-frame counts for an attack type alone, with precedence
/// counter, then blocked, then normal hit: lights freeze 9/6/12 frames,
/// heavies 13/10/16, grabs 11/0/14.
pub open spec fn spec_default_hitstop(
    attack_type: AttackType,
    was_blocked: bool,
    counter_hit: bool,
) -> int {
    let triple = match attack_type {
        AttackType::Light => (9int, 6int, 12int),
        AttackType::Heavy => (13int, 10int, 16int),
        AttackType::Grab => (11int, 0int, 14int),
    };
    if counter_hit {
        triple.2
    } else if was_blocked {
        triple.1
    } else {
        triple.0
    }
}

/// The freeze a hit applies to both participants: the per-move triple from
/// the attacker's current move where one exists, otherwise the attack
/// type's fallback counts; counter hits take precedence over blocked hits.
pub open spec fn spec_hitstop_for(
    attacker_state: CharacterState,
    movelist: Movelist,
    event: HitEvent,
) -> int {
    match attacker_state {
        CharacterState::Attacking { attack_type, direction, .. } => {
            match lookup_move_spec(movelist, attack_type, direction) {
                Some(md) => if event.counter_hit {
                    md.hitstop_on_counter as int
                } else if event.was_blocked {
                    md.hitstop_on_block as int
                } else {
                    md.hitstop_on_hit as int
                },
                None => spec_default_hitstop(event.attack_type, event.was_blocked,
                    event.counter_hit),
            }
        }
        _ => spec_default_hitstop(event.attack_type, event.was_blocked, event.counter_hit),
    }
}

/// Freeze both attacker and defender of a hit for the same data-driven
/// duration, selected from the attacker's current move with precedence
/// counter, then blocked, then normal hit.
pub fn apply_hitstop_on_hit(
    attacker_state: &CharacterState,
    attacker_movelist: &Movelist,
    event: &HitEvent,
    attacker_hitstop: &mut Option<Hitstop>,
    defender_hitstop: &mut Option<Hitstop>,
)
    requires
        attacker_movelist.wf(),
        attacker_movelist.has_neutrals(),
    ensures
        ({
            let frames = spec_hitstop_for(*attacker_state, *attacker_movelist, *event);
            &&& *final(attacker_hitstop) == Some(
                Hitstop { frames_remaining: frames as u32, total_frames: frames as u32 },
            )
            &&& *final(defender_hitstop) == Some(
                Hitstop { frames_remaining: frames as u32, total_frames: frames as u32 },
            )
        }),
{
    let frames: u32 = match attacker_state {
        CharacterState::Attacking { attack_type, direction, .. } => {
            let move_data = lookup_move(attacker_movelist, *attack_type, *direction);
            move_data.get_hitstop(event.was_blocked, event.counter_hit)
        }
        _ => {
            let triple: (u32, u32, u32) = match event.attack_type {
                AttackType::Light => (9, 6, 12),
                AttackType::Heavy => (13, 10, 16),
                AttackType::Grab => (11, 0, 14),
            };
            if event.counter_hit {
                triple.2
            } else if event.was_blocked {
                triple.1
            } else {
                triple.0
            }
        }
    };
    *attacker_hitstop = Some(Hitstop::new(frames));
    *defender_hitstop = Some(Hitstop::new(frames));
}

/// Tick a running freeze down one frame; a freeze that had already run out
/// is removed, so a character thaws one tick after its counter reaches
/// zero.
pub fn process_hitstop(hitstop: &mut Option<Hitstop>)
    ensures
        *old(hitstop) is None ==> *final(hitstop) is None,
        *old(hitstop) matches Some(h) ==> ({
            if h.frames_remaining > 0 {
                *final(hitstop) == Some(
                    Hitstop {
                        frames_remaining: (h.frames_remaining - 1) as u32,
                        total_frames: h.total_frames,
                    },
                )
            } else {
                *final(hitstop) is None
            }
        }),
{
    let h = match hitstop {
        Some(h) => h,
        None => {
            return ;
        }
    };
    if !h.tick() {
        *hitstop = None;
    }
}

} // verus!
