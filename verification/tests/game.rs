use fudoshin::breath::RoundEndReason;
use fudoshin::input::{CurrentInputs, PlayerInput};
use fudoshin::sim::Game;
use fudoshin::state::CharacterState;

fn no_input() -> CurrentInputs {
    CurrentInputs::default()
}

#[test]
fn test_countdown_starts_the_round() {
    let mut game = Game::new();
    assert!(!game.match_state.round_active);
    for _ in 0..179 {
        game.tick(&no_input());
    }
    assert!(!game.match_state.round_active);
    game.tick(&no_input());
    assert!(game.match_state.round_active);
    // The timer pass runs in the same tick the round starts, so one frame
    // has already elapsed.
    assert_eq!(game.match_state.round_time, 3599);
}

#[test]
fn test_round_timer_counts_frames() {
    let mut game = Game::new();
    for _ in 0..180 {
        game.tick(&no_input());
    }
    assert!(game.match_state.round_active);
    for _ in 0..60 {
        game.tick(&no_input());
    }
    // One frame elapsed in the starting tick, then sixty more.
    assert_eq!(game.match_state.round_time, 3539);
}

#[test]
fn test_jab_connects_and_staggers() {
    let mut game = Game::new();
    game.player_one.position_x = -100;
    game.player_two.position_x = 100;

    let press = CurrentInputs {
        player_one: PlayerInput {
            light_attack: true,
            ..Default::default()
        },
        ..Default::default()
    };
    let first = game.tick(&press);
    assert!(first.hits.is_empty(), "startup frames land no hit");

    let mut landed = false;
    for _ in 0..10 {
        let events = game.tick(&no_input());
        if !events.hits.is_empty() {
            landed = true;
            let hit = events.hits[0];
            assert_eq!(hit.damage, 800);
            assert!(!hit.was_blocked);
            // An unblocked light staggers the defender for 15 frames and
            // deals 8 points of damage.
            assert_eq!(game.player_two.health.current, 10000 - 800);
            assert!(matches!(
                game.player_two.state,
                CharacterState::Staggered { frames_remaining: 15 }
            ));
            assert!(game.player_one.hitstop.is_some());
            assert!(game.player_two.hitstop.is_some());
            break;
        }
    }
    assert!(landed, "the jab must connect within its active window");
}

#[test]
fn test_walking_moves_and_stage_clamps() {
    let mut game = Game::new();
    let walk_left = CurrentInputs {
        player_one: PlayerInput {
            movement_x: -1,
            ..Default::default()
        },
        ..Default::default()
    };
    // Walking covers 20 units per frame at base speed; the stage edge
    // clamps the character at 1880 units from center.
    let start = game.player_one.position_x;
    game.tick(&walk_left);
    assert_eq!(game.player_one.position_x, start - 20);
    assert!(matches!(game.player_one.state, CharacterState::Walking));

    for _ in 0..200 {
        game.tick(&walk_left);
    }
    assert_eq!(game.player_one.position_x, -1880);
}

#[test]
fn test_decisive_blow_ends_round_and_takes_one_breath() {
    let mut game = Game::new();
    game.player_one.position_x = -100;
    game.player_two.position_x = 100;
    game.player_two.health.current = 2000;
    game.player_two.health.update_state();

    let press = CurrentInputs {
        player_one: PlayerInput {
            heavy_attack: true,
            ..Default::default()
        },
        ..Default::default()
    };
    game.tick(&press);

    let mut round_ended = false;
    for _ in 0..20 {
        let events = game.tick(&no_input());
        if !events.round_ends.is_empty() {
            round_ended = true;
            assert_eq!(events.round_ends[0].reason, RoundEndReason::DecisiveBlow);
            break;
        }
    }
    assert!(round_ended, "a heavy on a Broken defender ends the round");
    // Exactly one breath is lost, the round advances, and both fighters
    // reset to full health at their spawns.
    assert_eq!(game.player_two.breath.current, 2);
    assert_eq!(game.match_state.round_number, 2);
    assert_eq!(game.player_one.health.current, 10000);
    assert_eq!(game.player_two.health.current, 10000);
    assert_eq!(game.player_one.position_x, -1200);
    assert_eq!(game.player_two.position_x, 1200);
}

#[test]
fn test_chain_cancel_after_connecting_jab() {
    let mut game = Game::new();
    game.player_one.position_x = -100;
    game.player_two.position_x = 100;

    let press_light = CurrentInputs {
        player_one: PlayerInput {
            light_attack: true,
            ..Default::default()
        },
        ..Default::default()
    };
    game.tick(&press_light);

    // Wait for the jab to connect; the chain then becomes cancellable.
    let mut landed = false;
    for _ in 0..10 {
        let events = game.tick(&no_input());
        if !events.hits.is_empty() {
            landed = true;
            break;
        }
    }
    assert!(landed);
    assert!(game.player_one.chain.can_chain);

    // Keep the light buffered; once the attack reaches its recovery frames
    // the cancel fires and a new attack begins from its startup phase.
    let mut cancelled = false;
    for _ in 0..30 {
        game.tick(&press_light);
        if game.player_one.chain.chain_count == 1 {
            cancelled = true;
            break;
        }
    }
    assert!(cancelled, "a buffered light must cancel the recovery");
    assert!(matches!(
        game.player_one.state,
        CharacterState::Attacking {
            phase: fudoshin::state::AttackPhase::Startup,
            ..
        }
    ));
}

#[test]
fn test_parry_deflects_a_jab() {
    let mut game = Game::new();
    game.player_one.position_x = -100;
    game.player_two.position_x = 100;

    // Player two holds block (opening a parry window) while player one jabs.
    let both = CurrentInputs {
        player_one: PlayerInput {
            light_attack: true,
            ..Default::default()
        },
        player_two: PlayerInput {
            block: true,
            ..Default::default()
        },
    };
    game.tick(&both);

    let hold_block = CurrentInputs {
        player_two: PlayerInput {
            block: true,
            ..Default::default()
        },
        ..Default::default()
    };
    let mut parried = false;
    for _ in 0..10 {
        let events = game.tick(&hold_block);
        if !events.parries.is_empty() {
            parried = true;
            break;
        }
    }
    assert!(parried, "a jab into the parry window must be deflected");
    // The deflected attacker is staggered and falls behind; the parrier
    // takes no damage and can act at once.
    assert!(matches!(
        game.player_one.state,
        CharacterState::Staggered { frames_remaining: 20 }
    ));
    assert_eq!(game.player_one.initiative.frames, -12);
    assert_eq!(game.player_two.health.current, 10000);
    assert_eq!(game.player_two.initiative.frames, 12);
}

#[test]
fn test_timeout_round_end_through_the_tick() {
    let mut game = Game::new();
    // Run the countdown out, then hand the round an almost-expired timer
    // and asymmetric health.
    for _ in 0..180 {
        game.tick(&no_input());
    }
    game.match_state.round_time = 5;
    game.player_one.health.current = 4000;
    game.player_one.health.update_state();
    game.player_two.health.current = 3000;
    game.player_two.health.update_state();

    let mut round_ended = false;
    for _ in 0..6 {
        let events = game.tick(&no_input());
        if !events.round_ends.is_empty() {
            round_ended = true;
            let re = events.round_ends[0];
            assert_eq!(re.reason, RoundEndReason::Timeout);
            assert_eq!(re.winner, fudoshin::character::Player::One);
            break;
        }
    }
    assert!(round_ended, "an expired round timer must end the round");
    // The loser of the timeout gives up a breath and both fighters reset.
    assert_eq!(game.player_two.breath.current, 2);
    assert_eq!(game.player_one.breath.current, 3);
    assert_eq!(game.match_state.round_number, 2);
    assert_eq!(game.player_one.health.current, 10000);
}

#[test]
fn test_match_stands_still_once_over() {
    let mut game = Game::new();
    game.match_state.end_match(fudoshin::character::Player::One);
    let before = game.match_state;
    let events = game.tick(&no_input());
    assert!(events.hits.is_empty());
    assert_eq!(game.match_state, before);
}
