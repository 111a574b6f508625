use bevy_pn_chat::{
    characters_filter, digits_filter, keyboard_handler, letter_filter, special_characters_filter,
    ChannelResource, InputBox, KeyCode, KeyboardInput, TaskKind, TaskRegistry,
};

fn press(k: KeyCode) -> KeyboardInput {
    KeyboardInput { key_code: Some(k), pressed: true }
}

fn release(k: KeyCode) -> KeyboardInput {
    KeyboardInput { key_code: Some(k), pressed: false }
}

#[test]
fn filter_not_characters_codes() {
    let cases = vec![
        (KeyCode::A, Some('A')),
        (KeyCode::B, Some('B')),
        (KeyCode::C, Some('C')),
        (KeyCode::F1, None),
        (KeyCode::F2, None),
        (KeyCode::Left, None),
        (KeyCode::Right, None),
        (KeyCode::Key1, Some('1')),
        (KeyCode::Key2, Some('2')),
        (KeyCode::Key3, Some('3')),
        (KeyCode::Numpad1, Some('1')),
        (KeyCode::Numpad2, Some('2')),
        (KeyCode::Numpad3, Some('3')),
        (KeyCode::Space, Some(' ')),
        (KeyCode::Comma, Some(',')),
        (KeyCode::Period, Some('.')),
        (KeyCode::Slash, Some('/')),
        (KeyCode::Semicolon, Some(';')),
        (KeyCode::Apostrophe, Some('\'')),
        (KeyCode::Backslash, Some('\\')),
        (KeyCode::LBracket, Some('[')),
        (KeyCode::RBracket, Some(']')),
        (KeyCode::Grave, Some('`')),
        (KeyCode::Minus, Some('-')),
        (KeyCode::Equals, Some('=')),
    ];
    for (key, expected) in cases {
        assert_eq!(characters_filter(key), expected, "{:?}", key);
    }
}

#[test]
fn special_table_is_exact() {
    let table = [
        (KeyCode::Space, ' '),
        (KeyCode::Comma, ','),
        (KeyCode::Period, '.'),
        (KeyCode::Slash, '/'),
        (KeyCode::Semicolon, ';'),
        (KeyCode::Apostrophe, '\''),
        (KeyCode::Backslash, '\\'),
        (KeyCode::LBracket, '['),
        (KeyCode::RBracket, ']'),
        (KeyCode::Grave, '`'),
        (KeyCode::Minus, '-'),
        (KeyCode::Equals, '='),
    ];
    for (key, c) in table {
        assert_eq!(special_characters_filter(&key), Some(c));
        assert_eq!(characters_filter(key), Some(c));
    }
}

#[test]
fn keys_outside_the_tables_type_nothing() {
    let keys = [
        KeyCode::F1,
        KeyCode::F12,
        KeyCode::F24,
        KeyCode::Left,
        KeyCode::Up,
        KeyCode::Right,
        KeyCode::Down,
        KeyCode::Escape,
        KeyCode::LShift,
        KeyCode::RControl,
        KeyCode::Tab,
        KeyCode::Return,
        KeyCode::Back,
        KeyCode::NumpadAdd,
        KeyCode::Plus,
        KeyCode::Colon,
    ];
    for key in keys {
        assert_eq!(characters_filter(key), None, "{:?}", key);
    }
}

#[test]
fn letters_and_digits_are_single_and_stable() {
    for _ in 0..3 {
        assert_eq!(characters_filter(KeyCode::A), Some('A'));
        assert_eq!(characters_filter(KeyCode::Key1), Some('1'));
        assert_eq!(characters_filter(KeyCode::Numpad1), Some('1'));
    }
    assert_eq!(letter_filter(&KeyCode::Z), Some('Z'));
    assert_eq!(letter_filter(&KeyCode::Key1), None);
    assert_eq!(digits_filter(&KeyCode::Key0), Some('0'));
    assert_eq!(digits_filter(&KeyCode::Numpad9), Some('9'));
    assert_eq!(digits_filter(&KeyCode::A), None);
}

#[test]
fn commit_on_empty_input_enqueues_nothing() {
    let mut input = InputBox::new();
    let mut registry = TaskRegistry::new();
    let channel = ChannelResource("room1".to_string());
    keyboard_handler(&vec![press(KeyCode::Return)], &mut input, &channel, &mut registry);
    assert_eq!(registry.len(), 0);
    assert_eq!(input.text(), "");
    assert_eq!(input.cursor(), 0);
}

#[test]
fn typing_then_commit_publishes_once() {
    let mut input = InputBox::new();
    let mut registry = TaskRegistry::new();
    let channel = ChannelResource("room1".to_string());
    let events = vec![press(KeyCode::H), release(KeyCode::H), press(KeyCode::I), release(KeyCode::I)];
    keyboard_handler(&events, &mut input, &channel, &mut registry);
    assert_eq!(input.text(), "HI");
    assert_eq!(input.cursor(), 2);
    assert_eq!(registry.len(), 0);

    keyboard_handler(&vec![press(KeyCode::Return)], &mut input, &channel, &mut registry);
    assert_eq!(input.text(), "");
    assert_eq!(input.cursor(), 0);
    assert_eq!(input.selection(), None);
    assert_eq!(registry.len(), 1);
    match &registry.task_at(0).kind {
        TaskKind::Publish(p) => {
            assert_eq!(p.message, "HI");
            assert_eq!(p.channel, "room1");
        }
        TaskKind::Subscribe(_) => panic!("expected a publish"),
    }
}

#[test]
fn backspace_and_events_in_one_frame() {
    let mut input = InputBox::new();
    let mut registry = TaskRegistry::new();
    let channel = ChannelResource("c".to_string());
    let events = vec![
        press(KeyCode::Back),
        press(KeyCode::A),
        press(KeyCode::Key1),
        press(KeyCode::Back),
        press(KeyCode::Space),
        press(KeyCode::Numpad7),
        KeyboardInput { key_code: None, pressed: true },
        press(KeyCode::F5),
        press(KeyCode::Return),
        press(KeyCode::B),
        press(KeyCode::Return),
        press(KeyCode::Return),
    ];
    keyboard_handler(&events, &mut input, &channel, &mut registry);
    assert_eq!(registry.len(), 2);
    let messages: Vec<String> = (0..registry.len())
        .map(|i| match &registry.task_at(i).kind {
            TaskKind::Publish(p) => p.message.clone(),
            TaskKind::Subscribe(_) => panic!("expected a publish"),
        })
        .collect();
    assert_eq!(messages, vec!["A 7".to_string(), "B".to_string()]);
    assert_eq!(registry.task_at(0).handle, 0);
    assert_eq!(registry.task_at(1).handle, 1);
    assert_eq!(input.text(), "");
}

#[test]
fn insert_and_erase_at_the_caret() {
    let mut input = InputBox::new();
    input.insert('x');
    input.insert('y');
    assert_eq!(input.text(), "xy");
    assert_eq!(input.cursor(), 2);
    input.backspace();
    assert_eq!(input.text(), "x");
    assert_eq!(input.cursor(), 1);
    input.backspace();
    input.backspace();
    assert_eq!(input.text(), "");
    assert_eq!(input.cursor(), 0);
    assert!(input.is_empty());
}
