use fudoshin::character::Player;
use fudoshin::collision::check_hit;
use fudoshin::combat::{AttackProperty, Hitbox, Hurtbox};
use fudoshin::geometry::{rects_intersect, Rect};
use fudoshin::movelist::AttackDirection;
use fudoshin::state::{AttackPhase, AttackType, CharacterState};

#[test]
fn test_rects_intersect() {
    let a = Rect::from_center_size(0, 0, 10, 10);
    let b = Rect::from_center_size(5, 0, 10, 10);
    assert!(rects_intersect(&a, &b));

    let c = Rect::from_center_size(20, 0, 10, 10);
    assert!(!rects_intersect(&a, &c));
}

#[test]
fn test_intersection_is_symmetric() {
    let a = Rect::from_center_size(0, 0, 10, 10);
    let b = Rect::from_center_size(5, 3, 8, 12);
    let c = Rect::from_center_size(40, 0, 10, 10);
    assert_eq!(rects_intersect(&a, &b), rects_intersect(&b, &a));
    assert_eq!(rects_intersect(&a, &c), rects_intersect(&c, &a));
}

fn attacking_state() -> CharacterState {
    CharacterState::Attacking {
        attack_type: AttackType::Heavy,
        direction: AttackDirection::Neutral,
        phase: AttackPhase::Active,
    }
}

#[test]
fn test_disjoint_boxes_produce_no_hit_event() {
    let mut hitbox = Hitbox::new(Rect::from_center_size(200, 0, 100, 100), 1500);
    hitbox.activate();
    let hurtbox = Hurtbox::default();
    // The defender stands far beyond the hitbox's reach.
    let result = check_hit(
        Player::One,
        &attacking_state(),
        &Some(hitbox),
        0,
        0,
        Player::Two,
        &CharacterState::Idle,
        &hurtbox,
        1500,
        0,
        false,
    );
    assert!(result.is_none());
}

#[test]
fn test_overlapping_active_hitbox_hits() {
    let mut hitbox = Hitbox::new(Rect::from_center_size(200, 0, 400, 400), 1500);
    hitbox.activate();
    let hurtbox = Hurtbox::default();
    let result = check_hit(
        Player::One,
        &attacking_state(),
        &Some(hitbox),
        0,
        0,
        Player::Two,
        &CharacterState::Idle,
        &hurtbox,
        300,
        0,
        false,
    );
    let event = result.expect("overlapping boxes must produce a hit");
    assert_eq!(event.attacker, Player::One);
    assert_eq!(event.defender, Player::Two);
    assert_eq!(event.damage, 1500);
    assert_eq!(event.attack_type, AttackType::Heavy);
    assert!(!event.was_blocked);
    assert!(!event.counter_hit);
}

#[test]
fn test_inactive_hitbox_never_hits() {
    let hitbox = Hitbox::new(Rect::from_center_size(200, 0, 400, 400), 1500);
    let result = check_hit(
        Player::One,
        &attacking_state(),
        &Some(hitbox),
        0,
        0,
        Player::Two,
        &CharacterState::Idle,
        &Hurtbox::default(),
        300,
        0,
        false,
    );
    assert!(result.is_none());
}

#[test]
fn test_invincible_defender_is_skipped() {
    let mut hitbox = Hitbox::new(Rect::from_center_size(200, 0, 400, 400), 1500);
    hitbox.activate();
    let result = check_hit(
        Player::One,
        &attacking_state(),
        &Some(hitbox),
        0,
        0,
        Player::Two,
        &CharacterState::Idle,
        &Hurtbox::default(),
        300,
        0,
        true,
    );
    assert!(result.is_none());
}

#[test]
fn test_blocking_defender_marks_blocked_unless_unblockable() {
    let mut hitbox = Hitbox::new(Rect::from_center_size(200, 0, 400, 400), 1500);
    hitbox.activate();
    let blocked = check_hit(
        Player::One,
        &attacking_state(),
        &Some(hitbox.clone()),
        0,
        0,
        Player::Two,
        &CharacterState::Blocking,
        &Hurtbox::default(),
        300,
        0,
        false,
    )
    .unwrap();
    assert!(blocked.was_blocked);
    assert!(!blocked.unblockable);

    let unblockable_box = hitbox.with_properties(vec![AttackProperty::Unblockable]);
    let unblocked = check_hit(
        Player::One,
        &attacking_state(),
        &Some(unblockable_box),
        0,
        0,
        Player::Two,
        &CharacterState::Blocking,
        &Hurtbox::default(),
        300,
        0,
        false,
    )
    .unwrap();
    assert!(!unblocked.was_blocked);
    assert!(unblocked.unblockable);
}

#[test]
fn test_defender_in_startup_is_counter_hit() {
    let mut hitbox = Hitbox::new(Rect::from_center_size(200, 0, 400, 400), 800);
    hitbox.activate();
    let defender_state = CharacterState::Attacking {
        attack_type: AttackType::Light,
        direction: AttackDirection::Neutral,
        phase: AttackPhase::Startup,
    };
    let event = check_hit(
        Player::One,
        &attacking_state(),
        &Some(hitbox),
        0,
        0,
        Player::Two,
        &defender_state,
        &Hurtbox::default(),
        300,
        0,
        false,
    )
    .unwrap();
    assert!(event.counter_hit);
}
