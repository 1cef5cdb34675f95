//! Chain/combo controller: tracks cancel eligibility and chain depth, and
//! applies buffered inputs to cancel an attack's recovery into a new attack.

use vstd::prelude::*;
use crate::combat::Hitbox;
use crate::combo::InputBuffer;
use crate::events::HitEvent;
use crate::geometry::Rect;
use crate::movelist::{AttackDirection, MoveData, Movelist};
use crate::state::{AttackPhase, AttackType, CharacterState, StateTimer};

verus! {

/// Chain attack state.
#[derive(Debug, Clone)]
pub struct ChainState {
    /// Number of cancels taken in the current chain (display counter).
    pub chain_count: u8,
    /// Total hits landed in the chain (display escalation).
    pub hit_count: u8,
    /// Whether the last attack connected and may be cancelled.
    pub can_chain: bool,
    /// Whether the cancel window is currently open.
    pub in_chain_window: bool,
    /// Attack types the connected move may cancel into.
    pub cancellable_into: Vec<AttackType>,
}

impl ChainState {
    pub fn new() -> (r: Self)
        ensures
            r.chain_count == 0,
            r.hit_count == 0,
            !r.can_chain,
            !r.in_chain_window,
            r.cancellable_into@ =~= Seq::<AttackType>::empty(),
    {
        ChainState {
            chain_count: 0,
            hit_count: 0,
            can_chain: false,
            in_chain_window: false,
            cancellable_into: Vec::new(),
        }
    }

    /// Clear the chain completely.
    pub fn reset(&mut self)
        ensures
            final(self).chain_count == 0,
            final(self).hit_count == 0,
            !final(self).can_chain,
            !final(self).in_chain_window,
            final(self).cancellable_into@ =~= Seq::<AttackType>::empty(),
    {
        self.chain_count = 0;
        self.hit_count = 0;
        self.can_chain = false;
        self.in_chain_window = false;
        self.cancellable_into.clear();
    }

    /// Whether another link may still be added to the chain.
    pub fn can_continue_chain(&self) -> (r: bool)
        ensures
            r == (self.can_chain && self.in_chain_window && self.chain_count < 2),
    {
        self.can_chain && self.in_chain_window && self.chain_count < 2
    }

    /// Whether the open window allows a cancel into the given attack type.
    pub fn can_cancel_into(&self, attack_type: AttackType) -> (r: bool)
        ensures
            r == (self.can_chain && self.in_chain_window && self.cancellable_into@.contains(
                attack_type,
            )),
    {
        if !(self.can_chain && self.in_chain_window) {
            return false;
        }
        let mut i: usize = 0;
        while i < self.cancellable_into.len()
            invariant
                self.can_chain && self.in_chain_window,
                i <= self.cancellable_into@.len(),
                forall|j: int| 0 <= j < i ==> self.cancellable_into@[j] != attack_type,
            decreases self.cancellable_into@.len() - i,
        {
            if self.cancellable_into[i] == attack_type {
                return true;
            }
            i = i + 1;
        }
        false
    }
}

impl Default for ChainState {
    fn default() -> (r: Self)
        ensures
            r.chain_count == 0,
            r.hit_count == 0,
            !r.can_chain,
            !r.in_chain_window,
    {
        ChainState::new()
    }
}

/// Record this tick's attack button presses into the input buffer.
pub fn record_inputs_to_buffer(
    buffer: &mut InputBuffer,
    light_pressed: bool,
    heavy_pressed: bool,
    grab_pressed: bool,
)
    ensures
        final(buffer).light == if light_pressed {
            1int
        } else {
            old(buffer).light as int
        },
        final(buffer).heavy == if heavy_pressed {
            1int
        } else {
            old(buffer).heavy as int
        },
        final(buffer).grab == if grab_pressed {
            1int
        } else {
            old(buffer).grab as int
        },
        final(buffer).window == old(buffer).window,
        old(buffer).wf() ==> final(buffer).wf(),
{
    if light_pressed {
        buffer.press(AttackType::Light);
    }
    if heavy_pressed {
        buffer.press(AttackType::Heavy);
    }
    if grab_pressed {
        buffer.press(AttackType::Grab);
    }
}

/// Age the input buffer by one frame.
pub fn age_input_buffers(buffer: &mut InputBuffer)
    requires
        old(buffer).wf(),
    ensures
        final(buffer).wf(),
        final(buffer).light == crate::combo::aged(
            old(buffer).light as int,
            old(buffer).window as int,
        ),
        final(buffer).heavy == crate::combo::aged(
            old(buffer).heavy as int,
            old(buffer).window as int,
        ),
        final(buffer).grab == crate::combo::aged(
            old(buffer).grab as int,
            old(buffer).window as int,
        ),
        final(buffer).window == old(buffer).window,
{
    buffer.tick();
}

/// Mark the attacker's chain hot when an unblocked hit connects during the
/// active phase of a move that has cancel options: the chain may be
/// cancelled, the window opens, the hit count rises, and the move's cancel
/// targets are recorded. Any other hit leaves the chain untouched.
pub fn mark_chainable_on_hit(
    chain: &mut ChainState,
    state: &CharacterState,
    movelist: &Movelist,
    event: &HitEvent,
)
    requires
        movelist.wf(),
    ensures
        ({
            let hot = !event.was_blocked
                && (state matches CharacterState::Attacking { attack_type, direction, phase }
                && phase is Active
                && (movelist.spec_get(*attack_type, *direction) matches Some(md)
                && md.cancellable_into@.len() > 0 && md.cancel_window_frames > 0));
            if hot {
                &&& final(chain).can_chain
                &&& final(chain).in_chain_window
                &&& final(chain).hit_count == if old(chain).hit_count >= 255 {
                    255int
                } else {
                    old(chain).hit_count + 1
                }
                &&& final(chain).chain_count == old(chain).chain_count
                &&& (state matches CharacterState::Attacking { attack_type, direction, .. }
                    ==> (movelist.spec_get(*attack_type, *direction) matches Some(md)
                    ==> final(chain).cancellable_into@ == md.cancellable_into@))
            } else {
                *final(chain) == *old(chain)
            }
        }),
{
    if event.was_blocked {
        return ;
    }
    if let CharacterState::Attacking { attack_type, direction, phase } = state {
        if matches!(phase, AttackPhase::Active) {
            if let Some(move_data) = movelist.get_move(*attack_type, *direction) {
                if move_data.cancellable_into.len() > 0 && move_data.cancel_window_frames > 0 {
                    chain.can_chain = true;
                    chain.in_chain_window = true;
                    if chain.hit_count < 255 {
                        chain.hit_count = chain.hit_count + 1;
                    }
                    chain.cancellable_into = clone_attack_types(&move_data.cancellable_into);
                }
            }
        }
    }
}

/// Copy a list of attack types element for element.
fn clone_attack_types(v: &Vec<AttackType>) -> (r: Vec<AttackType>)
    ensures
        r@ == v@,
{
    let mut out: Vec<AttackType> = Vec::new();
    let mut i: usize = 0;
    while i < v.len()
        invariant
            i <= v@.len(),
            out@ =~= v@.take(i as int),
        decreases v@.len() - i,
    {
        out.push(v[i]);
        i = i + 1;
    }
    proof {
        assert(v@.take(v@.len() as int) =~= v@);
    }
    out
}

/// Keep the cancel window open only while the attacker is in recovery, the
/// chain is hot, and fewer recovery frames have elapsed than the move's
/// cancel window; close it in any other attacking phase or state. Returning
/// to rest resets the chain entirely.
pub fn manage_chain_window(
    chain: &mut ChainState,
    state: &CharacterState,
    timer: Option<&StateTimer>,
    movelist: &Movelist,
)
    requires
        movelist.wf(),
    ensures
        state matches CharacterState::Attacking { attack_type, direction, phase } ==> ({
            &&& final(chain).chain_count == old(chain).chain_count
            &&& final(chain).hit_count == old(chain).hit_count
            &&& final(chain).can_chain == old(chain).can_chain
            &&& final(chain).cancellable_into@ == old(chain).cancellable_into@
            &&& (phase is Recovery ==> (movelist.spec_get(*attack_type, *direction) matches Some(md)
                ==> (timer matches Some(t) ==> final(chain).in_chain_window
                    == (old(chain).can_chain && t.elapsed < md.cancel_window_frames))))
            &&& (phase is Recovery && movelist.spec_get(*attack_type, *direction) is None ==> !final(chain).in_chain_window)
            &&& (phase is Recovery && timer is None ==> !final(chain).in_chain_window)
            &&& (!(phase is Recovery) ==> !final(chain).in_chain_window)
        }),
        state is Idle ==> final(chain).chain_count == 0 && final(chain).hit_count == 0 && !final(chain).can_chain && !final(chain).in_chain_window && final(chain).cancellable_into@.len() == 0,
        !(state matches CharacterState::Attacking { .. }) && !(state is Idle) ==> final(chain).chain_count == old(chain).chain_count && final(chain).hit_count == old(chain).hit_count
            && final(chain).can_chain == old(chain).can_chain && final(chain).cancellable_into@ == old(chain).cancellable_into@ && !final(chain).in_chain_window,
{
    match state {
        CharacterState::Attacking { attack_type, direction, phase } => {
            if matches!(phase, AttackPhase::Recovery) {
                if let Some(move_data) = movelist.get_move(*attack_type, *direction) {
                    if let Some(t) = timer {
                        if t.elapsed < move_data.cancel_window_frames && chain.can_chain {
                            chain.in_chain_window = true;
                        } else {
                            chain.in_chain_window = false;
                        }
                    } else {
                        chain.in_chain_window = false;
                    }
                } else {
                    chain.in_chain_window = false;
                }
            } else {
                chain.in_chain_window = false;
            }
        }
        CharacterState::Idle => {
            chain.reset();
        }
        _ => {
            chain.in_chain_window = false;
        }
    }
}

/// The attack type a buffered cancel selects, by the fixed priority heavy,
/// then grab, then light, among the types that are both buffered and listed
/// as cancel targets of the open window.
pub open spec fn spec_cancel_choice(chain: ChainState, buffer: InputBuffer) -> Option<AttackType> {
    if buffer.spec_buffered(AttackType::Heavy) && chain.can_chain && chain.in_chain_window
        && chain.cancellable_into@.contains(AttackType::Heavy) {
        Some(AttackType::Heavy)
    } else if buffer.spec_buffered(AttackType::Grab) && chain.can_chain && chain.in_chain_window
        && chain.cancellable_into@.contains(AttackType::Grab) {
        Some(AttackType::Grab)
    } else if buffer.spec_buffered(AttackType::Light) && chain.can_chain && chain.in_chain_window
        && chain.cancellable_into@.contains(AttackType::Light) {
        Some(AttackType::Light)
    } else {
        None
    }
}

/// The cancel a tick selects: only an attacker in the recovery phase with
/// the window open may cancel, into a buffered, cancel-eligible attack
/// chosen by priority heavy, then grab, then light.
pub open spec fn spec_chain_cancel(
    state: CharacterState,
    chain: ChainState,
    buffer: InputBuffer,
) -> Option<AttackType> {
    match state {
        CharacterState::Attacking { phase: AttackPhase::Recovery, .. } => spec_cancel_choice(
            chain,
            buffer,
        ),
        _ => None,
    }
}

/// Apply a buffered chain cancel: while the attacker is in recovery with
/// the window open and the buffer holds a cancel-eligible attack, the
/// cancel (chosen by priority heavy, grab, light) consumes the buffered
/// input, counts one more link, closes the window, re-enters the startup
/// phase of the new attack with that attack's own startup frames and the
/// direction read from current input, and replaces the hitbox with the new
/// move's. Outside recovery, or with no eligible input, everything stays
/// as it was.
pub fn handle_chain_input(
    state: &mut CharacterState,
    chain: &mut ChainState,
    buffer: &mut InputBuffer,
    timer: &mut StateTimer,
    hitbox: &mut Option<Hitbox>,
    movelist: &Movelist,
    direction: AttackDirection,
)
    requires
        movelist.wf(),
        movelist.has_neutrals(),
    ensures
        ({
            match spec_chain_cancel(*old(state), *old(chain), *old(buffer)) {
                Some(cancel_type) => {
                let md = lookup_move_spec(*movelist, cancel_type, direction);
                &&& *final(state) == (CharacterState::Attacking {
                    attack_type: cancel_type,
                    direction,
                    phase: AttackPhase::Startup,
                })
                &&& final(chain).chain_count == if old(chain).chain_count >= 255 {
                    255int
                } else {
                    old(chain).chain_count + 1
                }
                &&& !final(chain).can_chain
                &&& !final(chain).in_chain_window
                &&& final(chain).cancellable_into@.len() == 0
                &&& final(chain).hit_count == old(chain).hit_count
                &&& final(buffer).spec_frames(cancel_type) == 0
                &&& final(buffer).window == old(buffer).window
                &&& (old(buffer).wf() ==> final(buffer).wf())
                &&& final(timer).elapsed == 0
                &&& (md matches Some(m) ==> final(timer).target == m.startup_frames)
                &&& (md matches Some(m) ==> (*final(hitbox) matches Some(hb)
                    && hb.damage == m.damage && !hb.active && hb.rect.in_bounds()))
                }
                None => {
                &&& *final(state) == *old(state)
                &&& final(chain).chain_count == old(chain).chain_count
                &&& final(chain).hit_count == old(chain).hit_count
                &&& final(chain).can_chain == old(chain).can_chain
                &&& final(chain).in_chain_window == old(chain).in_chain_window
                &&& final(chain).cancellable_into@ == old(chain).cancellable_into@
                &&& *final(buffer) == *old(buffer)
                &&& *final(timer) == *old(timer)
                &&& *final(hitbox) == *old(hitbox)
                }
            }
        }),
{
    if !(matches!(*state, CharacterState::Attacking { phase: AttackPhase::Recovery, .. })) {
        return ;
    }
    let cancel_type: Option<AttackType> = if buffer.is_buffered(AttackType::Heavy)
        && chain.can_cancel_into(AttackType::Heavy) {
        Some(AttackType::Heavy)
    } else if buffer.is_buffered(AttackType::Grab) && chain.can_cancel_into(AttackType::Grab) {
        Some(AttackType::Grab)
    } else if buffer.is_buffered(AttackType::Light) && chain.can_cancel_into(AttackType::Light) {
        Some(AttackType::Light)
    } else {
        None
    };

    if let Some(attack_type) = cancel_type {
        buffer.consume(attack_type);
        if chain.chain_count < 255 {
            chain.chain_count = chain.chain_count + 1;
        }
        chain.can_chain = false;
        chain.in_chain_window = false;
        chain.cancellable_into.clear();

        *state = CharacterState::Attacking { attack_type, direction, phase: AttackPhase::Startup };

        let move_data = lookup_move(movelist, attack_type, direction);
        timer.reset(move_data.startup_frames);

        let rect = Rect::from_center_size(
            move_data.hitbox_offset_x,
            move_data.hitbox_offset_y,
            move_data.hitbox_size_x,
            move_data.hitbox_size_y,
        );
        let new_hitbox = Hitbox::new(rect, move_data.damage).with_properties(
            crate::combat::clone_properties(&move_data.properties),
        );
        *hitbox = Some(new_hitbox);
    }
}

/// The move a (type, direction) request resolves to: the entry for the pair
/// itself, or the type's neutral entry where the pair has none.
pub open spec fn lookup_move_spec(
    movelist: Movelist,
    attack_type: AttackType,
    direction: AttackDirection,
) -> Option<MoveData> {
    if movelist.spec_get(attack_type, direction) is Some {
        movelist.spec_get(attack_type, direction)
    } else {
        movelist.spec_get(attack_type, AttackDirection::Neutral)
    }
}

/// Resolve a (type, direction) request against the move table, falling back
/// to the type's neutral entry, which always exists in a well-formed table.
pub fn lookup_move<'a>(
    movelist: &'a Movelist,
    attack_type: AttackType,
    direction: AttackDirection,
) -> (r: &'a MoveData)
    requires
        movelist.wf(),
        movelist.has_neutrals(),
    ensures
        lookup_move_spec(*movelist, attack_type, direction) == Some(*r),
        r.valid(),
{
    match movelist.get_move(attack_type, direction) {
        Some(md) => md,
        None => {
            let neutral = movelist.get_move(attack_type, AttackDirection::Neutral);
            match neutral {
                Some(md) => md,
                None => {
                    // A well-formed table always has the neutral entry.
                    proof {
                        assert(false);
                    }
                    unreached()
                }
            }
        }
    }
}

} // verus!
