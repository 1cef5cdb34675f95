use fudoshin::breath::{check_decisive_blow, check_timeout, Breath, MatchState, RoundEndReason};
use fudoshin::chain::lookup_move;
use fudoshin::attack::{activate_hitboxes, progress_attack_phases};
use fudoshin::damage::apply_health_damage;
use fudoshin::character::Player;
use fudoshin::combat::Hitbox;
use fudoshin::events::HitEvent;
use fudoshin::geometry::Rect;
use fudoshin::guard::{check_guard_break, fill_guard_on_block, GuardMeter};
use fudoshin::health::{Health, HealthState};
use fudoshin::momentum::Momentum;
use fudoshin::movelist::{AttackDirection, Movelist};
use fudoshin::state::{AttackPhase, AttackType, CharacterState, StateTimer};

fn health_at(current: u32) -> Health {
    let mut health = Health::new(10000);
    health.current = current;
    health.update_state();
    health
}

#[test]
fn test_health_state_boundaries() {
    // current/max of 0.76 is Whole, 0.75 Cut, 0.51 Cut, 0.50 Wounded,
    // 0.26 Wounded, 0.25 Broken.
    assert_eq!(health_at(7600).state, HealthState::Whole);
    assert_eq!(health_at(7500).state, HealthState::Cut);
    assert_eq!(health_at(5100).state, HealthState::Cut);
    assert_eq!(health_at(5000).state, HealthState::Wounded);
    assert_eq!(health_at(2600).state, HealthState::Wounded);
    assert_eq!(health_at(2500).state, HealthState::Broken);
}

#[test]
fn test_decisive_blow_heavy_on_broken() {
    let attacker_health = health_at(7000); // Cut
    let defender_health = health_at(2000); // Broken
    let mut defender_breath = Breath::new(3);
    let event = HitEvent::new(Player::One, Player::Two, 1500, AttackType::Heavy);

    let result = check_decisive_blow(&event, &defender_health, &attacker_health, &mut defender_breath);
    let round_end = result.expect("a heavy on a Broken defender is decisive");
    assert_eq!(round_end.winner, Player::One);
    assert_eq!(round_end.reason, RoundEndReason::DecisiveBlow);
    assert_eq!(defender_breath.current, 2);
}

#[test]
fn test_light_attack_is_never_decisive() {
    let attacker_health = health_at(7000); // Cut
    let defender_health = health_at(2000); // Broken
    let mut defender_breath = Breath::new(3);
    let event = HitEvent::new(Player::One, Player::Two, 800, AttackType::Light);

    let result = check_decisive_blow(&event, &defender_health, &attacker_health, &mut defender_breath);
    assert!(result.is_none());
    assert_eq!(defender_breath.current, 3);
}

#[test]
fn test_blocked_or_unhealthy_attacker_is_not_decisive() {
    let defender_health = health_at(2000); // Broken
    let mut defender_breath = Breath::new(3);

    // Blocked heavy: not decisive.
    let blocked = HitEvent::new(Player::One, Player::Two, 1500, AttackType::Heavy).blocked();
    assert!(check_decisive_blow(&blocked, &defender_health, &health_at(7000), &mut defender_breath).is_none());

    // Wounded attacker: not decisive.
    let event = HitEvent::new(Player::One, Player::Two, 1500, AttackType::Heavy);
    assert!(check_decisive_blow(&event, &defender_health, &health_at(4000), &mut defender_breath).is_none());
    assert_eq!(defender_breath.current, 3);
}

#[test]
fn test_guard_break_after_repeated_blocked_hits() {
    // Three blocked heavies fill the meter to its break point; the next
    // check staggers the defender for 40 frames and resets the meter.
    let mut guard = GuardMeter::new();
    let mut state = CharacterState::Blocking;
    let heavy = HitEvent::new(Player::One, Player::Two, 1500, AttackType::Heavy).blocked();

    for _ in 0..3 {
        fill_guard_on_block(&mut guard, &state, HealthState::Whole, &heavy);
    }
    assert!(guard.current >= guard.max);

    let broke = check_guard_break(&mut guard, &mut state);
    assert!(broke);
    assert_eq!(state, CharacterState::Staggered { frames_remaining: 40 });
    assert_eq!(guard.current, 0);
}

#[test]
fn test_guard_fill_amounts() {
    // A blocked light fills 15% of the meter, a blocked heavy 35%; a
    // Wounded defender's meter fills 20% faster.
    let mut guard = GuardMeter::new();
    let state = CharacterState::Blocking;
    let light = HitEvent::new(Player::One, Player::Two, 800, AttackType::Light).blocked();
    fill_guard_on_block(&mut guard, &state, HealthState::Whole, &light);
    assert_eq!(guard.current, 180);

    let heavy = HitEvent::new(Player::One, Player::Two, 1500, AttackType::Heavy).blocked();
    fill_guard_on_block(&mut guard, &state, HealthState::Whole, &heavy);
    assert_eq!(guard.current, 600);

    let mut wounded_guard = GuardMeter::new();
    fill_guard_on_block(&mut wounded_guard, &state, HealthState::Wounded, &light);
    assert_eq!(wounded_guard.current, 216);
}

#[test]
fn test_round_timeout_awards_higher_health() {
    let mut match_state = MatchState::new();
    match_state.start_round();
    match_state.round_time = 0;

    let p1 = health_at(4000);
    let p2 = health_at(3000);
    let result = check_timeout(&match_state, &p1, &p2);
    let round_end = result.expect("an expired timer ends the round");
    assert_eq!(round_end.winner, Player::One);
    assert_eq!(round_end.reason, RoundEndReason::Timeout);

    // With the timer still running, no round end fires.
    let mut running = MatchState::new();
    running.start_round();
    assert!(check_timeout(&running, &p1, &p2).is_none());
}

#[test]
fn test_damage_formula_exact_values() {

    // Unblocked counter heavy with no momentum: 15 * 1.5 = 22.5 points.
    let mut health = Health::new(10000);
    let momentum = Momentum::new();
    let event = HitEvent::new(Player::One, Player::Two, 1500, AttackType::Heavy).counter_hit();
    apply_health_damage(&mut health, &momentum, &event);
    assert_eq!(health.current, 10000 - 2250);

    // Blocked light with no momentum: 8 * 0.25 = 2 points of chip.
    let mut health = Health::new(10000);
    let event = HitEvent::new(Player::One, Player::Two, 800, AttackType::Light).blocked();
    apply_health_damage(&mut health, &momentum, &event);
    assert_eq!(health.current, 10000 - 200);

    // Level-5 momentum scales an unblocked grab by 1.25: 12 * 1.25 = 15.
    let mut health = Health::new(10000);
    let mut hot = Momentum::new();
    for _ in 0..5 {
        hot.gain();
    }
    let event = HitEvent::new(Player::One, Player::Two, 1200, AttackType::Grab);
    apply_health_damage(&mut health, &hot, &event);
    assert_eq!(health.current, 10000 - 1500);

    // Damage is floored at zero health.
    let mut health = health_at(100);
    let event = HitEvent::new(Player::One, Player::Two, 1500, AttackType::Heavy);
    apply_health_damage(&mut health, &momentum, &event);
    assert_eq!(health.current, 0);
    assert_eq!(health.state, HealthState::Broken);
}

#[test]
fn test_attack_phase_timeline_is_exact() {
    // An attack with startup 5, active 2, recovery 10 occupies exactly 17
    // ticks from entering startup, with the hitbox active only during
    // ticks 6 and 7. The neutral light has exactly that frame data.

    let movelist = Movelist::default_character();
    let mut state = CharacterState::Attacking {
        attack_type: AttackType::Light,
        direction: AttackDirection::Neutral,
        phase: AttackPhase::Startup,
    };
    let mut timer = Some(StateTimer::new(5));
    let mut hitbox = Some(Hitbox::new(Rect::from_center_size(200, 0, 600, 476), 800));

    let mut active_ticks: Vec<u32> = Vec::new();
    let mut tick_count: u32 = 0;
    while !matches!(state, CharacterState::Idle) {
        tick_count += 1;
        assert!(tick_count <= 17, "the attack must finish by tick 17");
        // The state during this tick is what the hitbox pass sees.
        activate_hitboxes(&state, &mut hitbox);
        if hitbox.as_ref().unwrap().active {
            active_ticks.push(tick_count);
        }
        progress_attack_phases(&mut state, &mut timer, &movelist);
    }
    assert_eq!(tick_count, 17);
    assert!(timer.is_none());
    assert_eq!(active_ticks, vec![6, 7]);
}

#[test]
fn test_missing_move_falls_back_to_neutral() {

    let movelist = Movelist::default_character();
    // No forward grab exists; the lookup falls back to the neutral grab.
    let md = lookup_move(&movelist, AttackType::Grab, AttackDirection::Forward);
    assert_eq!(md.name, "Grab");
    assert_eq!(md.startup_frames, 10);

    // A pair that exists resolves to its own entry.
    let md = lookup_move(&movelist, AttackType::Light, AttackDirection::Forward);
    assert_eq!(md.name, "Dash Jab");
    assert_eq!(md.startup_frames, 3);
}

#[test]
fn test_hitstop_selection_precedence() {
    let movelist = Movelist::default_character();
    let md = movelist
        .get_move(AttackType::Heavy, AttackDirection::Neutral)
        .unwrap();
    // Counter beats blocked beats normal hit.
    assert_eq!(md.get_hitstop(false, false), 13);
    assert_eq!(md.get_hitstop(true, false), 10);
    assert_eq!(md.get_hitstop(false, true), 16);
    assert_eq!(md.get_hitstop(true, true), 16);
}
