use boros::keyboard::{Input, Key, Keyboard, MetaKey};

fn pressed_char(c: char) -> Option<Input> {
    Some(Input::Pressed(Key::Char(c)))
}

fn pressed_meta(key: MetaKey) -> Option<Input> {
    Some(Input::Pressed(Key::Meta(key)))
}

#[test]
fn keyboard_sits_at_port_0x60() {
    assert_eq!(Keyboard::new().port, 0x60);
}

#[test]
fn rows_of_the_keyboard() {
    let keyboard = Keyboard::new();
    let rows: [(u8, &str); 6] = [
        (0x02, "1234568890ß´"),
        (0x10, "qwertzuiopü+"),
        (0x1e, "asdfghjklöä^"),
        (0x2b, "#"),
        (0x2c, "yxcvbnm,.-"),
        (0x39, " "),
    ];
    for (first, row) in rows {
        for (index, c) in row.chars().enumerate() {
            assert_eq!(keyboard.poll(first + index as u8), pressed_char(c));
            assert_eq!(keyboard.next_key(first + index as u8), Some(Key::Char(c)));
        }
    }
}

#[test]
fn keys_without_a_character() {
    let keyboard = Keyboard::new();
    let keys = [
        (0x01, MetaKey::Esc),
        (0x0e, MetaKey::Backspace),
        (0x0f, MetaKey::Tab),
        (0x1c, MetaKey::Enter),
        (0x1d, MetaKey::LeftCtrl),
        (0x2a, MetaKey::LeftShift),
        (0x36, MetaKey::RightShift),
        (0x37, MetaKey::Print),
        (0x38, MetaKey::Alt),
        (0x3a, MetaKey::CapsLock),
        (0x3b, MetaKey::F1),
        (0x3c, MetaKey::F2),
        (0x3d, MetaKey::F3),
        (0x3e, MetaKey::F4),
        (0x3f, MetaKey::F5),
    ];
    for (scancode, key) in keys {
        assert_eq!(keyboard.poll(scancode), pressed_meta(key));
        assert_eq!(keyboard.next_key(scancode), Some(Key::Meta(key)));
    }
}

#[test]
fn scancodes_that_say_nothing() {
    let keyboard = Keyboard::new();
    for scancode in [0x00u8, 0x40, 0x41, 0x57, 0x7f, 0x80, 0x81, 0x90, 0xe0, 0xff] {
        assert_eq!(keyboard.poll(scancode), None);
        assert_eq!(keyboard.next_key(scancode), None);
    }
    let known = (0..=255u8).filter(|scancode| keyboard.poll(*scancode).is_some()).count();
    assert_eq!(known, 0x3f);
}

#[test]
fn seven_is_missing_and_eight_stands_twice() {
    let keyboard = Keyboard::new();
    assert_eq!(keyboard.poll(0x07), pressed_char('6'));
    assert_eq!(keyboard.poll(0x08), pressed_char('8'));
    assert_eq!(keyboard.poll(0x09), pressed_char('8'));
    assert_eq!(keyboard.poll(0x0a), pressed_char('9'));
}
