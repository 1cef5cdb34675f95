use fudoshin::combo::InputBuffer;
use fudoshin::state::AttackType;

#[test]
fn test_input_buffer_press() {
    let mut buffer = InputBuffer::new();

    buffer.press(AttackType::Light);
    assert_eq!(buffer.light, 1);
    assert!(buffer.is_buffered(AttackType::Light));
}

#[test]
fn test_input_buffer_aging() {
    let mut buffer = InputBuffer::new();

    buffer.press(AttackType::Light);
    assert_eq!(buffer.light, 1);

    buffer.tick();
    assert_eq!(buffer.light, 2);
    assert!(buffer.is_buffered(AttackType::Light));

    // Age beyond window
    for _ in 0..7 {
        buffer.tick();
    }
    assert!(!buffer.is_buffered(AttackType::Light));
    assert_eq!(buffer.light, 0);
}

#[test]
fn test_input_buffer_consume() {
    let mut buffer = InputBuffer::new();

    buffer.press(AttackType::Heavy);
    assert!(buffer.is_buffered(AttackType::Heavy));

    buffer.consume(AttackType::Heavy);
    assert!(!buffer.is_buffered(AttackType::Heavy));
}

#[test]
fn test_multiple_inputs() {
    let mut buffer = InputBuffer::new();

    buffer.press(AttackType::Light);
    buffer.press(AttackType::Heavy);

    assert!(buffer.is_buffered(AttackType::Light));
    assert!(buffer.is_buffered(AttackType::Heavy));
    assert!(!buffer.is_buffered(AttackType::Grab));
}

#[test]
fn test_buffer_clear_and_frames_ago() {
    let mut buffer = InputBuffer::new();
    buffer.press(AttackType::Grab);
    buffer.tick();
    buffer.tick();
    assert_eq!(buffer.frames_ago(AttackType::Grab), 3);
    assert_eq!(buffer.frames_ago(AttackType::Light), 0);
    buffer.clear();
    assert!(!buffer.is_buffered(AttackType::Grab));
}
