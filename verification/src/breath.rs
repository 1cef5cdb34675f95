//! Breath (lives) and the match-wide round state.
//!
//! The round timer and countdown count simulation frames at 60 frames per
//! second: a 60-second round is 3600 frames and the 3-second pre-round
//! countdown is 180 frames.

use vstd::prelude::*;
use crate::character::Player;
use crate::events::HitEvent;
use crate::health::Health;
use crate::state::AttackType;

verus! {

/// Frames in a full round: 60 seconds at 60 frames per second.
pub const ROUND_TIME_FRAMES: u32 = 3600;

/// Frames of pre-round countdown: 3 seconds at 60 frames per second.
pub const COUNTDOWN_FRAMES: u32 = 180;

/// Breath: how many more rounds a player can lose. Losing the last one ends
/// the match.
#[derive(Debug, Clone, Copy, PartialEq, Eq, Structural)]
pub struct Breath {
    /// Breaths remaining.
    pub current: u8,
    /// Breaths at match start.
    pub max: u8,
}

impl Breath {
    pub fn new(max: u8) -> (r: Self)
        ensures
            r.current == max,
            r.max == max,
    {
        Breath { current: max, max }
    }

    /// Lose one breath, floored at zero.
    pub fn lose_breath(&mut self)
        ensures
            final(self).current == if old(self).current > 0 {
                old(self).current - 1
            } else {
                0
            },
            final(self).max == old(self).max,
    {
        if self.current > 0 {
            self.current = self.current - 1;
        }
    }

    /// Whether this player has lost all breaths.
    pub fn is_defeated(&self) -> (r: bool)
        ensures
            r == (self.current == 0),
    {
        self.current == 0
    }

    /// Restore all breaths (for a new match).
    pub fn reset(&mut self)
        ensures
            final(self).current == old(self).max,
            final(self).max == old(self).max,
    {
        self.current = self.max;
    }
}

impl Default for Breath {
    fn default() -> (r: Self)
        ensures
            r.current == 3 && r.max == 3,
    {
        Breath::new(3)
    }
}

/// Match-wide round state: round number, timer, countdown and outcome.
/// Created at match start, mutated only by the match controller, reset on
/// rematch.
#[derive(Debug, Clone, Copy, PartialEq, Eq, Structural)]
pub struct MatchState {
    /// Current round number (1-based).
    pub round_number: u32,
    /// Frames remaining in the current round.
    pub round_time: u32,
    /// Frames in a full round.
    pub max_round_time: u32,
    /// Whether the round is currently being fought.
    pub round_active: bool,
    /// Frames of countdown left before the round starts.
    pub countdown: u32,
    /// Whether the match is over.
    pub match_over: bool,
    /// Winner of the match, once it is over.
    pub winner: Option<Player>,
}

impl MatchState {
    pub fn new() -> (r: Self)
        ensures
            r.round_number == 1,
            r.round_time == ROUND_TIME_FRAMES,
            r.max_round_time == ROUND_TIME_FRAMES,
            !r.round_active,
            r.countdown == COUNTDOWN_FRAMES,
            !r.match_over,
            r.winner is None,
    {
        MatchState {
            round_number: 1,
            round_time: ROUND_TIME_FRAMES,
            max_round_time: ROUND_TIME_FRAMES,
            round_active: false,
            countdown: COUNTDOWN_FRAMES,
            match_over: false,
            winner: None,
        }
    }

    /// Start a new round: the timer refills and the countdown clears.
    pub fn start_round(&mut self)
        ensures
            final(self).round_active,
            final(self).round_time == old(self).max_round_time,
            final(self).countdown == 0,
            final(self).round_number == old(self).round_number,
            final(self).max_round_time == old(self).max_round_time,
            final(self).match_over == old(self).match_over,
            final(self).winner == old(self).winner,
    {
        self.round_active = true;
        self.round_time = self.max_round_time;
        self.countdown = 0;
    }

    /// End the current round and prepare the next round's countdown.
    pub fn end_round(&mut self)
        ensures
            !final(self).round_active,
            final(self).round_number == if old(self).round_number < u32::MAX {
                old(self).round_number + 1
            } else {
                u32::MAX as int
            },
            final(self).countdown == COUNTDOWN_FRAMES,
            final(self).round_time == old(self).round_time,
            final(self).max_round_time == old(self).max_round_time,
            final(self).match_over == old(self).match_over,
            final(self).winner == old(self).winner,
    {
        self.round_active = false;
        if self.round_number < u32::MAX {
            self.round_number = self.round_number + 1;
        }
        self.countdown = COUNTDOWN_FRAMES;
    }

    /// End the match with a winner.
    pub fn end_match(&mut self, winner: Player)
        ensures
            !final(self).round_active,
            final(self).match_over,
            final(self).winner == Some(winner),
            final(self).round_number == old(self).round_number,
            final(self).round_time == old(self).round_time,
            final(self).max_round_time == old(self).max_round_time,
            final(self).countdown == old(self).countdown,
    {
        self.round_active = false;
        self.match_over = true;
        self.winner = Some(winner);
    }

    /// Whether the round timer has run out.
    pub fn is_timeout(&self) -> (r: bool)
        ensures
            r == (self.round_time == 0),
    {
        self.round_time == 0
    }

    /// Reset for a new match.
    pub fn reset(&mut self)
        ensures
            final(self).round_number == 1,
            final(self).round_time == old(self).max_round_time,
            final(self).max_round_time == old(self).max_round_time,
            !final(self).round_active,
            final(self).countdown == COUNTDOWN_FRAMES,
            !final(self).match_over,
            final(self).winner is None,
    {
        self.round_number = 1;
        self.round_time = self.max_round_time;
        self.round_active = false;
        self.countdown = COUNTDOWN_FRAMES;
        self.match_over = false;
        self.winner = None;
    }
}

impl Default for MatchState {
    fn default() -> (r: Self)
        ensures
            r.round_number == 1,
            r.round_time == ROUND_TIME_FRAMES,
            !r.round_active,
            r.countdown == COUNTDOWN_FRAMES,
            !r.match_over,
            r.winner is None,
    {
        MatchState::new()
    }
}

/// Why a round ended.
#[derive(Debug, Clone, Copy, PartialEq, Eq, Structural)]
pub enum RoundEndReason {
    /// A decisive blow landed (heavy or grab on a Broken opponent).
    DecisiveBlow,
    /// The round timer expired.
    Timeout,
}

/// Event fired when a round ends.
#[derive(Debug, Clone, Copy, PartialEq, Eq, Structural)]
pub struct RoundEndEvent {
    /// Player that won the round.
    pub winner: Player,
    /// Why the round ended.
    pub reason: RoundEndReason,
}

// ==================== MATCH AND ROUND SYSTEMS ====================

/// Whether a hit qualifies as a decisive blow: it was not blocked, it is a
/// heavy or a grab, the defender's health state is Broken, and the
/// attacker's is Whole or Cut.
pub open spec fn spec_is_decisive_blow(
    event: HitEvent,
    defender_health: Health,
    attacker_health: Health,
) -> bool {
    &&& !event.was_blocked
    &&& defender_health.state is Broken
    &&& (event.attack_type is Heavy || event.attack_type is Grab)
    &&& (attacker_health.state is Whole || attacker_health.state is Cut)
}

/// Resolve a possible decisive blow: a qualifying hit costs the defender
/// exactly one breath and ends the round for the attacker; any other hit
/// produces no round-end event and leaves the defender's breath alone.
pub fn check_decisive_blow(
    event: &HitEvent,
    defender_health: &Health,
    attacker_health: &Health,
    defender_breath: &mut Breath,
) -> (r: Option<RoundEndEvent>)
    ensures
        r is Some <==> spec_is_decisive_blow(*event, *defender_health, *attacker_health),
        r matches Some(e) ==> e.winner == event.attacker && e.reason is DecisiveBlow,
        r is Some ==> final(defender_breath).current == if old(defender_breath).current > 0 {
            old(defender_breath).current - 1
        } else {
            0int
        },
        r is None ==> *final(defender_breath) == *old(defender_breath),
        final(defender_breath).max == old(defender_breath).max,
{
    if event.was_blocked {
        return None;
    }
    if !defender_health.is_broken() {
        return None;
    }
    if !(matches!(event.attack_type, AttackType::Heavy | AttackType::Grab)) {
        return None;
    }
    if !attacker_health.can_decisive_blow() {
        return None;
    }
    defender_breath.lose_breath();
    Some(RoundEndEvent { winner: event.attacker, reason: RoundEndReason::DecisiveBlow })
}

/// Tick the pre-round countdown: while no round is running and the match
/// is not over, the countdown falls by one frame, and at zero the round
/// starts with a full timer.
pub fn tick_round_countdown(match_state: &mut MatchState)
    ensures
        ({
            let counting = !old(match_state).round_active && old(match_state).countdown > 0
                && !old(match_state).match_over;
            if counting {
                if old(match_state).countdown == 1 {
                    &&& final(match_state).round_active
                    &&& final(match_state).countdown == 0
                    &&& final(match_state).round_time == old(match_state).max_round_time
                } else {
                    &&& *final(match_state) == (MatchState {
                        countdown: (old(match_state).countdown - 1) as u32,
                        ..*old(match_state)
                    })
                }
            } else {
                *final(match_state) == *old(match_state)
            }
        }),
        final(match_state).round_number == old(match_state).round_number,
        final(match_state).max_round_time == old(match_state).max_round_time,
        final(match_state).match_over == old(match_state).match_over,
        final(match_state).winner == old(match_state).winner,
{
    if !match_state.round_active && match_state.countdown > 0 && !match_state.match_over {
        match_state.countdown = match_state.countdown - 1;
        if match_state.countdown == 0 {
            match_state.start_round();
        }
    }
}

/// Tick the round timer down by one frame while the round is running.
pub fn tick_round_timer(match_state: &mut MatchState)
    ensures
        old(match_state).round_active && old(match_state).round_time > 0 ==> *final(match_state)
            == (MatchState {
            round_time: (old(match_state).round_time - 1) as u32,
            ..*old(match_state)
        }),
        !(old(match_state).round_active && old(match_state).round_time > 0) ==> *final(match_state) == *old(match_state),
{
    if match_state.round_active && match_state.round_time > 0 {
        match_state.round_time = match_state.round_time - 1;
    }
}

/// The match's winner, if the match is over.
pub fn check_match_victory(match_state: &MatchState) -> (r: Option<Player>)
    ensures
        match_state.match_over ==> r == match_state.winner,
        !match_state.match_over ==> r is None,
{
    if match_state.match_over {
        match_state.winner
    } else {
        None
    }
}

/// The winner a timeout awards the round to: whichever player holds
/// strictly more health. An exact tie goes to the first player; the round
/// is not drawn.
pub open spec fn spec_timeout_winner(p1_health: int, p2_health: int) -> Player {
    if p1_health > p2_health {
        Player::One
    } else if p2_health > p1_health {
        Player::Two
    } else {
        Player::One
    }
}

/// Resolve a round timeout: while the round is running with an expired
/// timer, the round ends in favor of the player with strictly more health
/// (a tie favors the first player); otherwise nothing happens.
pub fn check_timeout(
    match_state: &MatchState,
    p1_health: &Health,
    p2_health: &Health,
) -> (r: Option<RoundEndEvent>)
    ensures
        r is Some <==> match_state.round_active && match_state.round_time == 0,
        r matches Some(e) ==> e.winner == spec_timeout_winner(
            p1_health.current as int,
            p2_health.current as int,
        ) && e.reason is Timeout,
{
    if !(match_state.round_active && match_state.is_timeout()) {
        return None;
    }
    let winner = if p1_health.current > p2_health.current {
        Player::One
    } else if p2_health.current > p1_health.current {
        Player::Two
    } else {
        Player::One
    };
    Some(RoundEndEvent { winner, reason: RoundEndReason::Timeout })
}

} // verus!
