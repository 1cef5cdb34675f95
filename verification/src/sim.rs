//! The whole match: both combatants, the round state, and the fixed-tick
//! simulation step that runs every pass in its load-bearing order.

use vstd::prelude::*;
use crate::attack;
use crate::breath::{
    check_decisive_blow, check_timeout, tick_round_countdown, tick_round_timer, MatchState,
    RoundEndEvent, RoundEndReason,
};
use crate::chain;
use crate::character::{Character, Player};
use crate::state::CharacterState;
use crate::collision::{check_hit, spec_check_hit};
use crate::damage;
use crate::evade;
use crate::events::{GuardBreakEvent, HitEvent, ParryEvent};
use crate::guard;
use crate::health;
use crate::hitstop;
use crate::input::CurrentInputs;
use crate::momentum;
use crate::movement;
use crate::pressure;
use crate::stumble;

verus! {

/// The events one simulation tick produced, for reaction consumers and the
/// presentation layer. Each queue lives for a single tick. The ghost trace
/// records the tick's intermediate states, so the tick's contract can pin
/// each pass against them.
pub struct TickEvents {
    pub hits: Vec<HitEvent>,
    pub parries: Vec<ParryEvent>,
    pub guard_breaks: Vec<GuardBreakEvent>,
    pub round_ends: Vec<RoundEndEvent>,
    /// The tick's intermediate states (ghost).
    pub trace: Ghost<TickTrace>,
}

/// The intermediate states one tick ran through: both characters as they
/// stood at collision time (after the input, progression and movement
/// passes), whether each was frozen, and the pair of characters before and
/// after each reaction step.
pub struct TickTrace {
    /// Player one at collision time.
    pub collision_p1: Character,
    /// Player two at collision time.
    pub collision_p2: Character,
    /// Whether player one was frozen this tick.
    pub p1_frozen: bool,
    /// Whether player two was frozen this tick.
    pub p2_frozen: bool,
    /// The (player one, player two) pair before the first reaction step,
    /// between steps, and after the last: one more entry than hit events.
    pub reaction_steps: Seq<(Character, Character)>,
}

/// A sequence holding an option's value, if any.
pub open spec fn opt_seq<T>(o: Option<T>) -> Seq<T> {
    match o {
        Some(v) => seq![v],
        None => Seq::empty(),
    }
}

/// Whether a character currently has evade invincibility frames.
pub open spec fn spec_invincible(c: Character) -> bool {
    c.evade matches Some(e) && e.invincible
}

/// Whether a character with this freeze is frozen for the coming tick: the
/// freeze ticks down first, and only a freeze with frames still to burn
/// holds the character.
pub open spec fn spec_frozen(hitstop: Option<crate::hitstop::Hitstop>) -> bool {
    hitstop matches Some(h) && h.frames_remaining > 0
}

/// One frame of the momentum clock (mirrors `Momentum::tick`).
pub open spec fn spec_momentum_tick(m: crate::momentum::Momentum) -> crate::momentum::Momentum {
    let advanced: u32 = if m.frames_since_action < u32::MAX {
        (m.frames_since_action + 1) as u32
    } else {
        u32::MAX
    };
    let level: u8 = if advanced > m.decay_threshold && (advanced - m.decay_threshold) % 60 == 0
        && m.level > 0 {
        (m.level - 1) as u8
    } else {
        m.level
    };
    crate::momentum::Momentum { level, frames_since_action: advanced, ..m }
}

/// One frame of initiative ticking toward neutral.
pub open spec fn spec_initiative_tick(frames: int) -> int {
    if frames > 0 {
        frames - 1
    } else if frames < 0 {
        frames + 1
    } else {
        0
    }
}

/// The round bookkeeping one tick performs before any round end is
/// settled: the pre-round countdown falls (and at zero the round starts
/// with a full timer), then a running round's timer falls by one frame.
pub open spec fn spec_match_clock_tick(ms: MatchState) -> MatchState {
    let after_countdown = if !ms.round_active && ms.countdown > 0 && !ms.match_over {
        if ms.countdown == 1 {
            MatchState { countdown: 0, round_active: true, round_time: ms.max_round_time, ..ms }
        } else {
            MatchState { countdown: (ms.countdown - 1) as u32, ..ms }
        }
    } else {
        ms
    };
    if after_countdown.round_active && after_countdown.round_time > 0 {
        MatchState {
            round_time: (after_countdown.round_time - 1) as u32,
            ..after_countdown
        }
    } else {
        after_countdown
    }
}

/// What the input, progression and movement passes guarantee of one
/// character, from their state at the start of the tick to their state at
/// collision time. Identity, the move table, the hurtbox, health, breath
/// and the speed cap never change in these passes; the freeze ticks down;
/// a frozen character takes no timer, meter or movement advancement at
/// all; an unfrozen character's momentum clock ticks, their initiative
/// moves one step toward neutral unless a successful tech set it five
/// behind, and they end the passes clamped onto the stage.
pub open spec fn pre_collision_rel(
    before: Character,
    at_collision: Character,
    frozen: bool,
) -> bool {
    &&& at_collision.wf()
    &&& at_collision.player == before.player
    &&& at_collision.movelist == before.movelist
    &&& at_collision.hurtbox == before.hurtbox
    &&& at_collision.health == before.health
    &&& at_collision.breath == before.breath
    &&& at_collision.guard.max == before.guard.max
    &&& at_collision.max_speed == before.max_speed
    &&& frozen == spec_frozen(before.hitstop)
    &&& at_collision.hitstop == (match before.hitstop {
        Some(h) => if h.frames_remaining > 0 {
            Some(
                crate::hitstop::Hitstop {
                    frames_remaining: (h.frames_remaining - 1) as u32,
                    total_frames: h.total_frames,
                },
            )
        } else {
            None
        },
        None => None,
    })
    &&& (frozen ==> at_collision.position_x == before.position_x)
    &&& (frozen ==> at_collision.momentum == before.momentum)
    &&& (frozen ==> at_collision.initiative == before.initiative)
    &&& (frozen ==> at_collision.pressure == before.pressure)
    &&& (frozen ==> at_collision.guard == before.guard)
    &&& (frozen ==> at_collision.stumble == before.stumble)
    &&& (!frozen ==> at_collision.momentum == spec_momentum_tick(before.momentum))
    &&& (!frozen ==> (at_collision.initiative.frames == spec_initiative_tick(
        before.initiative.frames as int,
    ) || (at_collision.initiative.frames == -5 && at_collision.stumble is None)))
    &&& (!frozen ==> -1880 <= at_collision.position_x <= 1880)
}

/// What one reaction step guarantees, from the pair's states before the
/// step to their states after it, for the hit event it consumes. A
/// parrying defender deflects: no damage, no freeze, the defender recovers
/// with twelve frames of advantage and the attacker is staggered twenty
/// frames and set twelve behind. Otherwise the defender's health drops by
/// the exact damage formula, both sides freeze for the move's hitstop, an
/// unblocked hit staggers the defender, and the defender's breath falls by
/// one exactly when the hit is a decisive blow.
pub open spec fn reaction_rel(
    attacker_before: Character,
    defender_before: Character,
    attacker_after: Character,
    defender_after: Character,
    ev: HitEvent,
) -> bool {
    let parried = defender_before.state is Parrying;
    &&& attacker_after.wf()
    &&& defender_after.wf()
    &&& attacker_after.player == attacker_before.player
    &&& defender_after.player == defender_before.player
    &&& attacker_after.breath == attacker_before.breath
    &&& if parried {
        &&& defender_after.health == defender_before.health
        &&& defender_after.breath == defender_before.breath
        &&& defender_after.state is Idle
        &&& defender_after.timer is None
        &&& attacker_after.state == (CharacterState::Staggered { frames_remaining: 20 })
        &&& defender_after.initiative.frames == 12
        &&& attacker_after.initiative.frames == -12
        &&& defender_after.hitstop == defender_before.hitstop
        &&& attacker_after.hitstop == attacker_before.hitstop
        &&& defender_after.stumble == defender_before.stumble
    } else {
        let dmg = crate::damage::spec_final_damage(
            ev.attack_type,
            ev.counter_hit,
            crate::damage::spec_momentum_bonus(attacker_before.momentum.level as int),
            ev.was_blocked,
        );
        let new_current = if dmg >= defender_before.health.current {
            0int
        } else {
            defender_before.health.current - dmg
        };
        let health_after = crate::health::Health {
            current: new_current as u32,
            max: defender_before.health.max,
            state: crate::health::health_state_of(
                new_current,
                defender_before.health.max as int,
            ),
        };
        let freeze = crate::hitstop::spec_hitstop_for(
            attacker_before.state,
            attacker_before.movelist,
            ev,
        );
        let decisive = crate::breath::spec_is_decisive_blow(
            ev,
            health_after,
            attacker_before.health,
        );
        &&& defender_after.health == health_after
        &&& attacker_after.hitstop == Some(
            crate::hitstop::Hitstop {
                frames_remaining: freeze as u32,
                total_frames: freeze as u32,
            },
        )
        &&& defender_after.hitstop == Some(
            crate::hitstop::Hitstop {
                frames_remaining: freeze as u32,
                total_frames: freeze as u32,
            },
        )
        &&& defender_after.breath.current == if decisive && defender_before.breath.current > 0 {
            defender_before.breath.current - 1
        } else {
            defender_before.breath.current as int
        }
        &&& defender_after.breath.max == defender_before.breath.max
        &&& (!ev.was_blocked ==> defender_after.state is Staggered)
        &&& (ev.was_blocked ==> defender_after.stumble == defender_before.stumble)
    }
}

/// Test both (attacker, defender) orderings for hits this tick: first
/// player one's hitbox against player two's hurtbox, then the reverse. A
/// character cannot hit itself, an invincible defender produces no event,
/// and a frozen attacker's offense is suspended: their hitbox produces no
/// events while their freeze runs. The suspension follows from the freeze
/// semantics: a frozen attacker's active window is paused along with their
/// timers, so a single active window cannot land once per frame of its own
/// hitstop and multiply its damage.
pub fn detect_hits(
    player_one: &Character,
    player_two: &Character,
    p1_frozen: bool,
    p2_frozen: bool,
) -> (events: Vec<HitEvent>)
    requires
        player_one.wf(),
        player_two.wf(),
        player_one.player is One,
        player_two.player is Two,
    ensures
        events@ == opt_seq(
            if p1_frozen {
                None
            } else {
                spec_check_hit(
                    Player::One,
                    player_one.state,
                    player_one.hitbox,
                    player_one.position_x as int,
                    0,
                    Player::Two,
                    player_two.state,
                    player_two.hurtbox,
                    player_two.position_x as int,
                    0,
                    spec_invincible(*player_two),
                )
            },
        ) + opt_seq(
            if p2_frozen {
                None
            } else {
                spec_check_hit(
                    Player::Two,
                    player_two.state,
                    player_two.hitbox,
                    player_two.position_x as int,
                    0,
                    Player::One,
                    player_one.state,
                    player_one.hurtbox,
                    player_one.position_x as int,
                    0,
                    spec_invincible(*player_one),
                )
            },
        ),
{
    let mut events: Vec<HitEvent> = Vec::new();
    let p2_invincible = match &player_two.evade {
        Some(e) => e.invincible,
        None => false,
    };
    let p1_invincible = match &player_one.evade {
        Some(e) => e.invincible,
        None => false,
    };
    let first = if p1_frozen {
        None
    } else {
        check_hit(
            Player::One,
            &player_one.state,
            &player_one.hitbox,
            player_one.position_x,
            0,
            Player::Two,
            &player_two.state,
            &player_two.hurtbox,
            player_two.position_x,
            0,
            p2_invincible,
        )
    };
    if let Some(ev) = first {
        events.push(ev);
    }
    let second = if p2_frozen {
        None
    } else {
        check_hit(
            Player::Two,
            &player_two.state,
            &player_two.hitbox,
            player_two.position_x,
            0,
            Player::One,
            &player_one.state,
            &player_one.hurtbox,
            player_one.position_x,
            0,
            p1_invincible,
        )
    };
    if let Some(ev) = second {
        events.push(ev);
    }
    proof {
        assert(events@ =~= opt_seq(first) + opt_seq(second));
    }
    events
}

/// Apply the reaction passes for one hit event, in the tick's pass order.
/// A parrying defender deflects the hit entirely: the parry resolves (the
/// defender recovers and gains twelve frames and double momentum, the
/// attacker is staggered twenty frames and set twelve behind) and no other
/// reaction runs. Otherwise the hit freezes both characters, may start,
/// extend or spike a stumble, staggers and damages the defender, settles
/// guard, initiative, pressure, momentum and the attacker's chain, and may
/// end the round with a decisive blow.
fn react_to_hit(
    attacker: &mut Character,
    defender: &mut Character,
    event: &HitEvent,
    parries: &mut Vec<ParryEvent>,
    guard_breaks: &mut Vec<GuardBreakEvent>,
    round_ends: &mut Vec<RoundEndEvent>,
)
    requires
        old(attacker).wf(),
        old(defender).wf(),
    ensures
        reaction_rel(*old(attacker), *old(defender), *final(attacker), *final(defender), *event),
        ({
            let parried = old(defender).state is Parrying;
            &&& final(parries)@ == if parried {
                old(parries)@.push(
                    ParryEvent { defender: event.defender, attacker: event.attacker },
                )
            } else {
                old(parries)@
            }
            &&& (parried ==> final(guard_breaks)@ == old(guard_breaks)@ && final(round_ends)@
                == old(round_ends)@)
            &&& final(round_ends)@.len() <= old(round_ends)@.len() + 1
            &&& old(round_ends)@.is_prefix_of(final(round_ends)@)
            &&& (forall|k: int|
                old(round_ends)@.len() <= k < final(round_ends)@.len()
                    ==> #[trigger] final(round_ends)@[k] == (RoundEndEvent {
                    winner: event.attacker,
                    reason: RoundEndReason::DecisiveBlow,
                }))
            &&& old(guard_breaks)@.is_prefix_of(final(guard_breaks)@)
        }),
{
    // A parry deflects the attack before any other reaction.
    let parried = guard::check_parry_success(
        &mut defender.state,
        &mut defender.guard,
        &mut defender.timer,
        &mut attacker.state,
    );
    if parried {
        parries.push(ParryEvent { defender: event.defender, attacker: event.attacker });
        crate::initiative::apply_parry_advantage(
            &mut defender.initiative,
            &mut attacker.initiative,
        );
        momentum::build_momentum_on_parry(&mut defender.momentum, &mut attacker.momentum);
        return ;
    }

    proof {
        match attacker.state {
            crate::state::CharacterState::Attacking { attack_type, direction, .. } => {
                attacker.movelist.lemma_wf_entries_valid(attack_type, direction);
                attacker.movelist.lemma_wf_entries_valid(
                    attack_type,
                    crate::movelist::AttackDirection::Neutral,
                );
            }
            _ => {}
        }
    }

    // Freeze both participants for the move's hitstop.
    hitstop::apply_hitstop_on_hit(
        &attacker.state,
        &attacker.movelist,
        event,
        &mut attacker.hitstop,
        &mut defender.hitstop,
    );

    // Stumble reactions: launch, extend, or spike.
    stumble::apply_stumble_on_hit(&mut defender.stumble, &attacker.state, &attacker.movelist,
        event);
    stumble::extend_stumble_on_hit(&mut defender.stumble, &attacker.state, &attacker.movelist,
        event);
    stumble::handle_spike_finisher(&mut defender.stumble, &attacker.state, &attacker.movelist,
        event);

    // Hitstun, damage, and the defender's health-state consequences.
    damage::apply_hit_reactions(&mut defender.state, event);
    damage::apply_health_damage(&mut defender.health, &attacker.momentum, event);
    health::apply_movement_speed_modifier(&mut defender.max_speed, defender.health.state);
    health::apply_frame_advantage_penalty(
        defender.health.state,
        &mut defender.initiative,
        event.was_blocked,
    );

    // Guard: fill on block, then break if full.
    guard::fill_guard_on_block(&mut defender.guard, &defender.state, defender.health.state, event);
    let broke = guard::check_guard_break(&mut defender.guard, &mut defender.state);
    if broke {
        guard_breaks.push(GuardBreakEvent { entity: event.defender });
    }

    // Initiative, pressure and momentum, capped by health state.
    crate::initiative::apply_frame_advantage(
        &mut attacker.initiative,
        &mut defender.initiative,
        event,
    );
    pressure::build_pressure(
        &attacker.initiative,
        &mut attacker.pressure,
        &mut defender.pressure,
        event.was_blocked,
    );
    health::restrict_pressure_by_health(attacker.health.state, &mut attacker.pressure);
    health::restrict_pressure_by_health(defender.health.state, &mut defender.pressure);
    momentum::build_momentum_on_hit(
        &mut attacker.momentum,
        &mut defender.momentum,
        event.was_blocked,
    );
    health::restrict_momentum_by_health(attacker.health.state, &mut attacker.momentum);

    // The attacker's chain may become cancellable.
    chain::mark_chainable_on_hit(&mut attacker.chain, &attacker.state, &attacker.movelist, event);

    // A qualifying hit on a Broken defender is a decisive blow.
    let round_end = check_decisive_blow(
        event,
        &defender.health,
        &attacker.health,
        &mut defender.breath,
    );
    if let Some(re) = round_end {
        round_ends.push(re);
    }
}

/// One reaction step with the roles read off the event: the event's
/// attacker reacts as attacker and the other player as defender.
pub open spec fn step_rel(
    before: (Character, Character),
    after: (Character, Character),
    ev: HitEvent,
) -> bool {
    match ev.attacker {
        Player::One => reaction_rel(before.0, before.1, after.0, after.1, ev),
        Player::Two => reaction_rel(before.1, before.0, after.1, after.0, ev),
    }
}

/// What settling a round guarantees, from the states as the round ended to
/// the states after: the loser gives up exactly one breath on a timeout (a
/// decisive blow already took its breath when the event was made), the
/// winner's breath never changes, a loser left with no breath ends the
/// match with the winner recorded and neither character reset, and
/// otherwise both characters reset fully while the next round's countdown
/// begins.
pub open spec fn round_end_rel(
    event: RoundEndEvent,
    ms_before: MatchState,
    p1_before: Character,
    p2_before: Character,
    ms_after: MatchState,
    p1_after: Character,
    p2_after: Character,
) -> bool {
    &&& (p1_after.wf())
    &&& (p2_after.wf())
    &&& (p1_after.player == p1_before.player)
    &&& (p2_after.player == p2_before.player)
    &&& (ms_after.max_round_time == ms_before.max_round_time)
    &&& (ms_after.round_time == ms_before.round_time)
    &&& (({
            let loser_before = if event.winner is One {
                p2_before.breath.current as int
            } else {
                p1_before.breath.current as int
            };
            let loser_after = if event.reason is Timeout && loser_before > 0 {
                loser_before - 1
            } else {
                loser_before
            };
            // The loser gives up exactly one breath on a timeout; a decisive
            // blow already took its breath when the event was made. The
            // winner's breath never changes here.
            &&& (if event.winner is One {
                p2_after.breath.current as int
            } else {
                p1_after.breath.current as int
            }) == loser_after
            &&& (if event.winner is One {
                p2_after.breath.max == p2_before.breath.max
            } else {
                p1_after.breath.max == p1_before.breath.max
            })
            &&& (if event.winner is One {
                p1_after.breath == p1_before.breath
            } else {
                p2_after.breath == p2_before.breath
            })
            &&& if loser_after == 0 {
                // Match over: the winner is recorded and neither character
                // is reset; only the loser's breath has changed.
                &&& ms_after.match_over
                &&& ms_after.winner == Some(event.winner)
                &&& p1_after == (Character {
                    breath: p1_after.breath,
                    ..p1_before
                })
                &&& p2_after == (Character {
                    breath: p2_after.breath,
                    ..p2_before
                })
            } else {
                // The match continues: both characters reset fully for the
                // next round and its countdown begins.
                &&& !ms_after.match_over
                &&& !ms_after.round_active
                &&& ms_after.countdown == crate::breath::COUNTDOWN_FRAMES
                &&& ms_after.round_number == if ms_before.round_number
                    < u32::MAX {
                    ms_before.round_number + 1
                } else {
                    u32::MAX as int
                }
                &&& p1_after.health.current == p1_after.health.max
                &&& p2_after.health.current == p2_after.health.max
                &&& p1_after.state is Idle
                &&& p2_after.state is Idle
                &&& p1_after.initiative.frames == 0
                &&& p2_after.initiative.frames == 0
                &&& p1_after.pressure.intensity == 0
                &&& p2_after.pressure.intensity == 0
                &&& p1_after.momentum.level == 0
                &&& p2_after.momentum.level == 0
                &&& p1_after.position_x == crate::character::spec_spawn_x(
                    p1_before.player,
                )
                &&& p2_after.position_x == crate::character::spec_spawn_x(
                    p2_before.player,
                )
                &&& p1_after.timer is None && p1_after.hitbox is None
                    && p1_after.stumble is None && p1_after.hitstop is None
                &&& p2_after.timer is None && p2_after.hitbox is None
                    && p2_after.stumble is None && p2_after.hitstop is None
            }
        }))
}

/// Settle a finished round: on a timeout the loser gives up a breath (a
/// decisive blow has already taken its breath when the event was made). A
/// loser left with no breath ends the match in the winner's favor;
/// otherwise both combatants reset for the next round and its countdown
/// begins.
pub fn handle_round_end(
    event: &RoundEndEvent,
    match_state: &mut MatchState,
    player_one: &mut Character,
    player_two: &mut Character,
)
    requires
        old(player_one).wf(),
        old(player_two).wf(),
        !old(match_state).match_over,
    ensures
        final(player_one).wf(),
        final(player_two).wf(),
        round_end_rel(
            *event,
            *old(match_state),
            *old(player_one),
            *old(player_two),
            *final(match_state),
            *final(player_one),
            *final(player_two),
        ),
{
    let loser_is_one = matches!(event.winner, Player::Two);

    if matches!(event.reason, RoundEndReason::Timeout) {
        if loser_is_one {
            player_one.breath.lose_breath();
        } else {
            player_two.breath.lose_breath();
        }
    }

    let loser_defeated = if loser_is_one {
        player_one.breath.is_defeated()
    } else {
        player_two.breath.is_defeated()
    };

    if loser_defeated {
        match_state.end_match(event.winner);
    } else {
        player_one.reset_for_round();
        player_two.reset_for_round();
        match_state.end_round();
    }
}

/// A whole match: two combatants and the round state.
#[derive(Debug, Clone)]
pub struct Game {
    pub player_one: Character,
    pub player_two: Character,
    pub match_state: MatchState,
}

impl Game {
    /// Both combatants are well formed and carry the identity of their
    /// slot, and the round bookkeeping stays in range.
    pub open spec fn wf(self) -> bool {
        &&& self.player_one.wf()
        &&& self.player_two.wf()
        &&& self.player_one.player is One
        &&& self.player_two.player is Two
    }

    /// A fresh match: both combatants at their spawns with full meters, and
    /// the first round's countdown about to run.
    pub fn new() -> (r: Self)
        ensures
            r.wf(),
            !r.match_state.round_active,
            !r.match_state.match_over,
            r.match_state.round_number == 1,
    {
        Game {
            player_one: Character::new(Player::One),
            player_two: Character::new(Player::Two),
            match_state: MatchState::new(),
        }
    }

    /// One simulation tick, in the load-bearing pass order: input capture
    /// has already happened (the inputs come in as plain values); then
    /// buffer aging and cancel handling, hitstop before state progression so
    /// frozen characters do not advance, movement and boundary clamping,
    /// collision, the reaction pass consuming this tick's hit events exactly
    /// once, and round bookkeeping. Returns the tick's event queues, fully
    /// drained by the reactions that consume them. Once the match is over
    /// the simulation stands still.
    pub fn tick(&mut self, inputs: &CurrentInputs) -> (events: TickEvents)
        requires
            old(self).wf(),
            -1 <= inputs.player_one.movement_x <= 1,
            -1 <= inputs.player_one.movement_y <= 1,
            -1 <= inputs.player_two.movement_x <= 1,
            -1 <= inputs.player_two.movement_y <= 1,
        ensures
            final(self).wf(),
            old(self).match_state.match_over ==> *final(self) == *old(self),
            final(self).match_state.max_round_time == old(self).match_state.max_round_time,
            !old(self).match_state.match_over && old(self).match_state.round_active && old(
                self,
            ).match_state.round_time > 0 ==> final(self).match_state.round_time == old(
                self,
            ).match_state.round_time - 1,
            !old(self).match_state.match_over ==> ({
                let tr = events.trace@;
                let stepped = spec_match_clock_tick(old(self).match_state);
                let hit_count = events.hits@.len() as int;
                let last = tr.reaction_steps[hit_count];
                // The freeze is computed from the start-of-tick freezes, and
                // the collision snapshots follow from the input, progression
                // and movement passes.
                &&& tr.p1_frozen == spec_frozen(old(self).player_one.hitstop)
                &&& tr.p2_frozen == spec_frozen(old(self).player_two.hitstop)
                &&& pre_collision_rel(old(self).player_one, tr.collision_p1, tr.p1_frozen)
                &&& pre_collision_rel(old(self).player_two, tr.collision_p2, tr.p2_frozen)
                // The returned hits are exactly the collision classification
                // of the snapshots, with a frozen attacker's offense at rest.
                &&& events.hits@ == opt_seq(
                    if tr.p1_frozen {
                        None
                    } else {
                        spec_check_hit(
                            Player::One,
                            tr.collision_p1.state,
                            tr.collision_p1.hitbox,
                            tr.collision_p1.position_x as int,
                            0,
                            Player::Two,
                            tr.collision_p2.state,
                            tr.collision_p2.hurtbox,
                            tr.collision_p2.position_x as int,
                            0,
                            spec_invincible(tr.collision_p2),
                        )
                    },
                ) + opt_seq(
                    if tr.p2_frozen {
                        None
                    } else {
                        spec_check_hit(
                            Player::Two,
                            tr.collision_p2.state,
                            tr.collision_p2.hitbox,
                            tr.collision_p2.position_x as int,
                            0,
                            Player::One,
                            tr.collision_p1.state,
                            tr.collision_p1.hurtbox,
                            tr.collision_p1.position_x as int,
                            0,
                            spec_invincible(tr.collision_p1),
                        )
                    },
                )
                // The reaction pass consumes each hit exactly once, stepping
                // the pair through the reaction relation.
                &&& tr.reaction_steps.len() == hit_count + 1
                &&& tr.reaction_steps[0] == (tr.collision_p1, tr.collision_p2)
                &&& (forall|j: int|
                    0 <= j < hit_count ==> #[trigger] step_rel(
                        tr.reaction_steps[j],
                        tr.reaction_steps[j + 1],
                        events.hits@[j],
                    ))
                // Round bookkeeping: the clock steps; without a round end the
                // characters stand as the reactions left them and no expired
                // round went unresolved; a round end settles per its relation.
                &&& (events.round_ends@.len() == 0 ==> final(self).match_state == stepped && !(
                stepped.round_active && stepped.round_time == 0) && final(self).player_one
                    == last.0 && final(self).player_two == last.1)
                &&& (events.round_ends@.len() > 0 ==> round_end_rel(
                    events.round_ends@[0],
                    stepped,
                    last.0,
                    last.1,
                    final(self).match_state,
                    final(self).player_one,
                    final(self).player_two,
                ))
                // Every decisive round-end event names an attacker of one of
                // this tick's hits; a timeout event certifies the expired
                // round and its winner by strictly greater health.
                &&& (forall|k: int|
                    0 <= k < events.round_ends@.len() && events.round_ends@[k].reason
                        is DecisiveBlow ==> exists|j: int|
                        0 <= j < hit_count && #[trigger] events.hits@[j].attacker
                            == events.round_ends@[k].winner)
                &&& (events.round_ends@.len() > 0 && events.round_ends@[0].reason is Timeout
                    ==> stepped.round_active && stepped.round_time == 0
                    && events.round_ends@[0].winner == crate::breath::spec_timeout_winner(
                    last.0.health.current as int,
                    last.1.health.current as int,
                ))
            }),
    {
        let mut out = TickEvents {
            hits: Vec::new(),
            parries: Vec::new(),
            guard_breaks: Vec::new(),
            round_ends: Vec::new(),
            trace: Ghost(arbitrary()),
        };
        if self.match_state.match_over {
            return out;
        }

        let p1_input = inputs.player_one;
        let p2_input = inputs.player_two;
        let p1_x = self.player_one.position_x;
        let p2_x = self.player_two.position_x;

        // Pass 2: input buffers and input-driven transitions.
        tick_character_input(&mut self.player_one, &p1_input, p2_x);
        tick_character_input(&mut self.player_two, &p2_input, p1_x);

        // Pass 3: hitstop first, then timers and phase progression.
        hitstop::process_hitstop(&mut self.player_one.hitstop);
        hitstop::process_hitstop(&mut self.player_two.hitstop);
        tick_round_countdown(&mut self.match_state);
        tick_round_timer(&mut self.match_state);
        let p1_frozen = self.player_one.hitstop.is_some();
        let p2_frozen = self.player_two.hitstop.is_some();
        if !p1_frozen {
            tick_character_progress(&mut self.player_one, &p1_input);
        }
        if !p2_frozen {
            tick_character_progress(&mut self.player_two, &p2_input);
        }

        // Pass 4: movement, physics and boundary clamping.
        if !p1_frozen {
            tick_character_movement(&mut self.player_one, self.player_two.position_x);
        }
        if !p2_frozen {
            tick_character_movement(&mut self.player_two, self.player_one.position_x);
        }

        // Pass 5: collision detection; a frozen character's offense rests.
        let ghost collision_p1 = self.player_one;
        let ghost collision_p2 = self.player_two;
        let hits = detect_hits(&self.player_one, &self.player_two, p1_frozen, p2_frozen);

        // Pass 6: reactions, consuming this tick's hit events exactly once.
        let ghost old_match_state = self.match_state;
        let ghost mut steps: Seq<(Character, Character)> = seq![(collision_p1, collision_p2)];
        let mut i: usize = 0;
        while i < hits.len()
            invariant
                self.player_one.wf(),
                self.player_two.wf(),
                self.player_one.player is One,
                self.player_two.player is Two,
                self.match_state == old_match_state,
                i <= hits@.len(),
                steps.len() == i + 1,
                steps[0] == (collision_p1, collision_p2),
                steps[i as int] == (self.player_one, self.player_two),
                forall|j: int|
                    0 <= j < i ==> #[trigger] step_rel(steps[j], steps[j + 1], hits@[j]),
                forall|k: int|
                    0 <= k < out.round_ends@.len() ==> exists|j: int|
                        0 <= j < i && #[trigger] out.round_ends@[k] == (RoundEndEvent {
                            winner: hits@[j].attacker,
                            reason: RoundEndReason::DecisiveBlow,
                        }),
            decreases hits@.len() - i,
        {
            let ghost pre_round_ends = out.round_ends@;
            let ev = hits[i];
            match ev.attacker {
                Player::One => {
                    react_to_hit(
                        &mut self.player_one,
                        &mut self.player_two,
                        &ev,
                        &mut out.parries,
                        &mut out.guard_breaks,
                        &mut out.round_ends,
                    );
                }
                Player::Two => {
                    react_to_hit(
                        &mut self.player_two,
                        &mut self.player_one,
                        &ev,
                        &mut out.parries,
                        &mut out.guard_breaks,
                        &mut out.round_ends,
                    );
                }
            }
            proof {
                steps = steps.push((self.player_one, self.player_two));
                assert forall|k: int| 0 <= k < out.round_ends@.len() implies exists|j: int|
                    0 <= j < i + 1 && #[trigger] out.round_ends@[k] == (RoundEndEvent {
                        winner: hits@[j].attacker,
                        reason: RoundEndReason::DecisiveBlow,
                    }) by {
                    if k < pre_round_ends.len() {
                        assert(out.round_ends@[k] == pre_round_ends[k]);
                    } else {
                        assert(out.round_ends@[k] == (RoundEndEvent {
                            winner: hits@[i as int].attacker,
                            reason: RoundEndReason::DecisiveBlow,
                        }));
                    }
                }
            }
            i = i + 1;
        }
        out.hits = hits;
        proof {
            out.trace@ = TickTrace {
                collision_p1,
                collision_p2,
                p1_frozen,
                p2_frozen,
                reaction_steps: steps,
            };
        }

        // Pass 7: round bookkeeping. A decisive blow may already have ended
        // the round; otherwise an expired timer decides it on health.
        if out.round_ends.len() == 0 {
            let timeout_end = check_timeout(
                &self.match_state,
                &self.player_one.health,
                &self.player_two.health,
            );
            if let Some(re) = timeout_end {
                out.round_ends.push(re);
            }
        }
        if out.round_ends.len() > 0 {
            let re = out.round_ends[0];
            handle_round_end(
                &re,
                &mut self.match_state,
                &mut self.player_one,
                &mut self.player_two,
            );
        }
        out
    }
}

/// The input pass for one character: record and age buffered presses, then
/// resolve movement, dash, attack, block, evade and chain-cancel input in
/// order. It touches only the buffer, velocity, dash, cooldown, state,
/// timer, hitbox, evade and chain; everything else is left alone.
fn tick_character_input(character: &mut Character, input: &crate::input::PlayerInput, opponent_x: i32)
    requires
        old(character).wf(),
        -1 <= input.movement_x <= 1,
        -1 <= input.movement_y <= 1,
        -100000 <= opponent_x <= 100000,
    ensures
        final(character).wf(),
        final(character).player == old(character).player,
        final(character).breath == old(character).breath,
        final(character).movelist == old(character).movelist,
        final(character).hurtbox == old(character).hurtbox,
        final(character).health == old(character).health,
        final(character).max_speed == old(character).max_speed,
        final(character).guard == old(character).guard,
        final(character).momentum == old(character).momentum,
        final(character).initiative == old(character).initiative,
        final(character).pressure == old(character).pressure,
        final(character).stumble == old(character).stumble,
        final(character).hitstop == old(character).hitstop,
        final(character).position_x == old(character).position_x,
{
    chain::record_inputs_to_buffer(
        &mut character.buffer,
        input.light_attack,
        input.heavy_attack,
        input.grab,
    );
    chain::age_input_buffers(&mut character.buffer);

    let dashing = character.dash.is_some();
    let evading = character.evade.is_some();
    movement::process_movement_input(
        &character.state,
        &mut character.velocity_x,
        character.max_speed,
        input,
        dashing,
        evading,
    );
    movement::handle_dash_input(
        &character.state,
        input,
        &mut character.dash,
        &mut character.dash_cooldown,
    );
    attack::handle_attack_input(
        &mut character.state,
        &mut character.timer,
        &mut character.hitbox,
        &mut character.dash,
        &mut character.evade,
        &character.movelist,
        input,
        character.position_x,
        opponent_x,
    );
    proof {
        match character.state {
            crate::state::CharacterState::Attacking { attack_type, direction, .. } => {
                character.movelist.lemma_wf_entries_valid(attack_type, direction);
                character.movelist.lemma_wf_entries_valid(
                    attack_type,
                    crate::movelist::AttackDirection::Neutral,
                );
            }
            _ => {}
        }
    }
    let parry_window = character.health.state.parry_window_frames();
    guard::handle_block_input(&mut character.state, &mut character.timer, input.block,
        parry_window);
    evade::handle_evade_input(
        &character.state,
        input,
        &mut character.evade,
        &mut character.timer,
        &mut character.velocity_x,
    );
    if character.timer.is_some() {
        let direction = input.get_attack_direction(opponent_x, character.position_x);
        let mut timer_value = match character.timer {
            Some(t) => t,
            None => crate::state::StateTimer { elapsed: 0, target: 0 },
        };
        chain::handle_chain_input(
            &mut character.state,
            &mut character.chain,
            &mut character.buffer,
            &mut timer_value,
            &mut character.hitbox,
            &character.movelist,
            direction,
        );
        character.timer = Some(timer_value);
    proof {
        match character.state {
            crate::state::CharacterState::Attacking { attack_type, direction, .. } => {
                character.movelist.lemma_wf_entries_valid(attack_type, direction);
                character.movelist.lemma_wf_entries_valid(
                    attack_type,
                    crate::movelist::AttackDirection::Neutral,
                );
            }
            _ => {}
        }
    }
    }
    movement::update_movement_state(character.velocity_x, &mut character.state);
}

/// The state-progression pass for one unfrozen character: attack phases,
/// stagger, parry, evade, cooldowns, initiative, momentum, pressure, the
/// chain window, tech input, the stumble clock, guard drain, and hitbox
/// activation. The momentum clock always ticks; initiative moves one step
/// toward neutral unless a successful tech sets it five behind and removes
/// the stumble.
fn tick_character_progress(character: &mut Character, input: &crate::input::PlayerInput)
    requires
        old(character).wf(),
    ensures
        final(character).wf(),
        final(character).player == old(character).player,
        final(character).breath == old(character).breath,
        final(character).movelist == old(character).movelist,
        final(character).hurtbox == old(character).hurtbox,
        final(character).health == old(character).health,
        final(character).max_speed == old(character).max_speed,
        final(character).hitstop == old(character).hitstop,
        final(character).dash == old(character).dash,
        final(character).position_x == old(character).position_x,
        final(character).guard.max == old(character).guard.max,
        final(character).momentum == spec_momentum_tick(old(character).momentum),
        final(character).initiative.frames == spec_initiative_tick(
            old(character).initiative.frames as int,
        ) || (final(character).initiative.frames == -5 && final(character).stumble is None),
{
    attack::progress_attack_phases(
        &mut character.state,
        &mut character.timer,
        &character.movelist,
    );
    proof {
        match character.state {
            crate::state::CharacterState::Attacking { attack_type, direction, .. } => {
                character.movelist.lemma_wf_entries_valid(attack_type, direction);
                character.movelist.lemma_wf_entries_valid(
                    attack_type,
                    crate::movelist::AttackDirection::Neutral,
                );
            }
            _ => {}
        }
    }
    guard::progress_stagger(&mut character.state);
    guard::progress_parry(&mut character.state, &mut character.timer, input.block);
    evade::progress_evade(
        &mut character.evade,
        &mut character.timer,
        &mut character.velocity_x,
    );
    movement::tick_dash_cooldown(&mut character.dash_cooldown);
    crate::initiative::tick_initiative(&mut character.initiative);
    momentum::tick_momentum(&mut character.momentum);
    pressure::drain_pressure_passive(&mut character.pressure, &character.state);
    chain::manage_chain_window(
        &mut character.chain,
        &character.state,
        character.timer.as_ref(),
        &character.movelist,
    );
    stumble::handle_tech_input(&mut character.stumble, &mut character.initiative, input);
    stumble::process_stumble(&mut character.stumble);
    guard::drain_guard_meter(&mut character.guard, &character.state);
    attack::activate_hitboxes(&character.state, &mut character.hitbox);
}

/// The movement pass for one unfrozen character: dash and attack-carried
/// movement, walk velocity, stage clamping and wall bounces. It moves and
/// clamps the position and may update the dash, attack-movement and
/// stumble trackers; everything else is left alone.
fn tick_character_movement(character: &mut Character, opponent_x: i32)
    requires
        old(character).wf(),
    ensures
        final(character).wf(),
        final(character).player == old(character).player,
        final(character).breath == old(character).breath,
        final(character).movelist == old(character).movelist,
        final(character).hurtbox == old(character).hurtbox,
        final(character).health == old(character).health,
        final(character).max_speed == old(character).max_speed,
        final(character).hitstop == old(character).hitstop,
        final(character).guard == old(character).guard,
        final(character).momentum == old(character).momentum,
        final(character).initiative == old(character).initiative,
        final(character).pressure == old(character).pressure,
        old(character).stumble is None ==> final(character).stumble is None,
        -1880 <= final(character).position_x <= 1880,
{
    movement::apply_dash_movement(
        &character.state,
        &mut character.position_x,
        &mut character.dash,
    );
    movement::initiate_attack_movement(
        &character.state,
        &character.movelist,
        &mut character.attack_movement,
        character.position_x,
        opponent_x,
    );
    proof {
        match character.state {
            crate::state::CharacterState::Attacking { attack_type, direction, .. } => {
                character.movelist.lemma_wf_entries_valid(attack_type, direction);
                character.movelist.lemma_wf_entries_valid(
                    attack_type,
                    crate::movelist::AttackDirection::Neutral,
                );
            }
            _ => {}
        }
    }
    movement::apply_attack_movement(
        &character.state,
        &mut character.position_x,
        &mut character.attack_movement,
    );
    movement::apply_velocity(&mut character.position_x, character.velocity_x);
    movement::clamp_to_stage(&mut character.position_x);
    stumble::detect_wall_bounce(&mut character.stumble, character.position_x);
}

} // verus!
