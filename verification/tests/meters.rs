use fudoshin::guard::GuardMeter;
use fudoshin::breath::Breath;
use fudoshin::health::HealthState;
use fudoshin::hitstop::Hitstop;
use fudoshin::initiative::Initiative;
use fudoshin::momentum::Momentum;
use fudoshin::pressure::{drain_pressure_passive, Pressure};
use fudoshin::state::CharacterState;

#[test]
fn test_health_state_modifiers() {
    assert_eq!(HealthState::Whole.movement_speed_multiplier(), 100);
    assert_eq!(HealthState::Cut.movement_speed_multiplier(), 95);
    assert_eq!(HealthState::Wounded.movement_speed_multiplier(), 90);
    assert_eq!(HealthState::Broken.movement_speed_multiplier(), 85);

    assert_eq!(HealthState::Wounded.frame_advantage_penalty(), -2);
    assert_eq!(HealthState::Broken.frame_advantage_penalty(), -4);

    assert_eq!(HealthState::Broken.guard_fill_multiplier(), 130);
    assert_eq!(HealthState::Wounded.max_pressure_intensity(), 2);
    assert_eq!(HealthState::Broken.max_pressure_intensity(), 0);
    assert_eq!(HealthState::Wounded.parry_window_frames(), 4);
    assert_eq!(HealthState::Broken.parry_window_frames(), 3);
    assert!(!HealthState::Broken.can_build_momentum());
    assert!(HealthState::Wounded.can_build_momentum());
}

#[test]
fn test_momentum_levels_and_bonuses() {
    let mut momentum = Momentum::new();
    for _ in 0..7 {
        momentum.gain();
    }
    assert_eq!(momentum.level, 5);
    assert_eq!(momentum.damage_bonus(), 125);
    assert_eq!(momentum.guard_damage_bonus(), 150);

    momentum.lose();
    assert_eq!(momentum.level, 4);
    assert_eq!(momentum.damage_bonus(), 115);

    momentum.reset();
    assert_eq!(momentum.level, 0);
    assert_eq!(momentum.damage_bonus(), 100);
}

#[test]
fn test_momentum_decays_after_idle_threshold() {
    let mut momentum = Momentum::new();
    momentum.gain();
    momentum.gain();
    assert_eq!(momentum.level, 2);

    // 120 threshold frames plus 59 more: no decay yet.
    for _ in 0..179 {
        momentum.tick();
    }
    assert_eq!(momentum.level, 2);

    // The 180th idle frame costs a level.
    momentum.tick();
    assert_eq!(momentum.level, 1);

    // Sixty further idle frames cost the next.
    for _ in 0..60 {
        momentum.tick();
    }
    assert_eq!(momentum.level, 0);
}

#[test]
fn test_pressure_levels_and_drain() {
    let mut pressure = Pressure::new();
    for _ in 0..5 {
        pressure.increase();
    }
    assert_eq!(pressure.intensity, 3);
    assert_eq!(pressure.movement_bonus(), 115);
    assert_eq!(pressure.attack_speed_bonus(), 2);

    // 119 idle frames change nothing; the 120th drains a level.
    let idle = CharacterState::Idle;
    for _ in 0..119 {
        drain_pressure_passive(&mut pressure, &idle);
    }
    assert_eq!(pressure.intensity, 3);
    drain_pressure_passive(&mut pressure, &idle);
    assert_eq!(pressure.intensity, 2);

    // Leaving the idle state clears the idle clock.
    let walking = CharacterState::Walking;
    drain_pressure_passive(&mut pressure, &walking);
    assert_eq!(pressure.idle_frames, 0);
    assert_eq!(pressure.intensity, 2);
}

#[test]
fn test_initiative_ticks_toward_zero() {
    let mut initiative = Initiative::new();
    initiative.gain(3);
    assert!(initiative.has_advantage());
    initiative.tick();
    initiative.tick();
    initiative.tick();
    assert_eq!(initiative.frames, 0);

    initiative.lose(2);
    assert!(initiative.has_disadvantage());
    initiative.tick();
    assert_eq!(initiative.frames, -1);
}

#[test]
fn test_guard_meter_clamps() {
    let mut guard = GuardMeter::new();
    guard.fill(5000);
    assert_eq!(guard.current, guard.max);
    assert!(guard.is_broken());
    guard.drain(50);
    assert_eq!(guard.current, guard.max - 50);
    guard.drain(100000);
    assert_eq!(guard.current, 0);
}

#[test]
fn test_hitstop_progress() {
    let mut hitstop = Hitstop::new(10);
    assert_eq!(hitstop.progress(), 0);
    for _ in 0..5 {
        assert!(hitstop.tick());
    }
    assert_eq!(hitstop.progress(), 50);
    for _ in 0..5 {
        assert!(hitstop.tick());
    }
    assert!(hitstop.is_complete());
    assert_eq!(hitstop.progress(), 100);
    assert!(!hitstop.tick());
}

#[test]
fn test_breath_counts_down_to_defeat() {
    let mut breath = Breath::new(3);
    breath.lose_breath();
    breath.lose_breath();
    assert!(!breath.is_defeated());
    breath.lose_breath();
    assert!(breath.is_defeated());
    breath.lose_breath();
    assert_eq!(breath.current, 0);
    breath.reset();
    assert_eq!(breath.current, 3);
}
