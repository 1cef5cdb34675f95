use fudoshin::initiative::Initiative;
use fudoshin::stumble::detect_wall_bounce;
use fudoshin::input::PlayerInput;
use fudoshin::stumble::{handle_tech_input, StumbleDirection, StumbleState};

#[test]
fn test_stumble_creation() {
    let stumble = StumbleState::new(StumbleDirection::Backward, 30, true);
    assert_eq!(stumble.frames_remaining, 30);
    assert_eq!(stumble.direction, StumbleDirection::Backward);
    assert!(stumble.can_tech);
    assert_eq!(stumble.extension_count, 0);
}

#[test]
fn test_tech_window() {
    let mut stumble = StumbleState::new(StumbleDirection::Backward, 30, true);

    // Before window
    assert!(!stumble.is_in_tech_window());

    // Advance to window
    for _ in 0..5 {
        stumble.tick();
    }
    assert!(stumble.is_in_tech_window());

    // Past window
    for _ in 0..10 {
        stumble.tick();
    }
    assert!(!stumble.is_in_tech_window());
}

#[test]
fn test_extension_diminishing_returns() {
    let mut stumble = StumbleState::new(StumbleDirection::Backward, 30, true);

    // First extension: 100%
    stumble.extend(StumbleDirection::Forward, 15);
    assert_eq!(stumble.extension_count, 1);

    // Second extension: 80%
    stumble.extend(StumbleDirection::Backward, 15);
    assert_eq!(stumble.extension_count, 2);

    // Third extension: 66%
    stumble.extend(StumbleDirection::Forward, 15);
    assert_eq!(stumble.extension_count, 3);

    // Fourth extension: 53%
    stumble.extend(StumbleDirection::Backward, 15);
    assert_eq!(stumble.extension_count, 4);

    // Fifth extension: blocked (max 4)
    let count_before = stumble.extension_count;
    stumble.extend(StumbleDirection::Forward, 15);
    assert_eq!(stumble.extension_count, count_before);
}

#[test]
fn test_wall_bounce() {
    let mut stumble = StumbleState::new(StumbleDirection::Backward, 30, true);

    stumble.apply_wall_bounce();

    // Direction reversed
    assert_eq!(stumble.direction, StumbleDirection::Forward);

    // Extra time added
    assert_eq!(stumble.frames_remaining, 50); // 30 + 20

    // Cannot tech
    assert!(!stumble.can_tech);
}

#[test]
fn test_extension_frames_from_base_fifteen() {
    // Diminishing-return schedule for a 15-frame base: the four extensions
    // add 15, 12, 10 and 7 frames, and a fifth adds nothing.
    let mut stumble = StumbleState::new(StumbleDirection::Backward, 30, true);

    stumble.extend(StumbleDirection::Backward, 15);
    assert_eq!(stumble.frames_remaining, 45);

    stumble.extend(StumbleDirection::Backward, 15);
    assert_eq!(stumble.frames_remaining, 57);

    stumble.extend(StumbleDirection::Backward, 15);
    assert_eq!(stumble.frames_remaining, 67);

    stumble.extend(StumbleDirection::Backward, 15);
    assert_eq!(stumble.frames_remaining, 74);

    stumble.extend(StumbleDirection::Backward, 15);
    assert_eq!(stumble.frames_remaining, 74);
}

#[test]
fn test_tech_window_inclusive_bounds() {
    // A tech press at elapsed frame 5 or 13 succeeds; at 4 or 14 it fails.
    let press = PlayerInput {
        light_attack: true,
        ..Default::default()
    };
    for (elapsed, expected) in [(4u32, false), (5, true), (13, true), (14, false)] {
        let mut stumble = Some(StumbleState {
            elapsed_frames: elapsed,
            ..StumbleState::new(StumbleDirection::Backward, 30, true)
        });
        let mut initiative = Initiative::new();
        let teched = handle_tech_input(&mut stumble, &mut initiative, &press);
        assert_eq!(teched, expected, "tech at elapsed {}", elapsed);
        if expected {
            assert!(stumble.is_none());
            assert_eq!(initiative.frames, -5);
        } else {
            assert!(stumble.is_some());
            assert_eq!(initiative.frames, 0);
        }
    }
}

#[test]
fn test_wall_bounce_detection_thresholds() {

    // Backward stumble at the left wall bounces.
    let mut stumble = Some(StumbleState::new(StumbleDirection::Backward, 30, true));
    assert!(detect_wall_bounce(&mut stumble, -1880));
    let bounced = stumble.unwrap();
    assert_eq!(bounced.direction, StumbleDirection::Forward);
    assert_eq!(bounced.frames_remaining, 50);
    assert!(!bounced.can_tech);

    // Backward stumble at the right wall does not.
    let mut stumble = Some(StumbleState::new(StumbleDirection::Backward, 30, true));
    assert!(!detect_wall_bounce(&mut stumble, 1880));

    // A down tumble never bounces.
    let mut stumble = Some(StumbleState::new(StumbleDirection::Down, 30, true));
    assert!(!detect_wall_bounce(&mut stumble, -1880));
}
