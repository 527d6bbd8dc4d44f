use paste_trigger::plan::{PASTE_CHAR, PASTE_LEN};
use paste_trigger::{paste_event, paste_modifier, paste_sequence, Direction, Key, KeyEvent, Platform};

#[test]
fn paste_on_macos_is_command_v() {
    assert_eq!(
        paste_sequence(Platform::MacOs),
        vec![
            KeyEvent { key: Key::Meta, direction: Direction::Press },
            KeyEvent { key: Key::Unicode('v'), direction: Direction::Click },
            KeyEvent { key: Key::Meta, direction: Direction::Release },
        ]
    );
}

#[test]
fn paste_elsewhere_is_control_v() {
    assert_eq!(
        paste_sequence(Platform::Other),
        vec![
            KeyEvent { key: Key::Control, direction: Direction::Press },
            KeyEvent { key: Key::Unicode('v'), direction: Direction::Click },
            KeyEvent { key: Key::Control, direction: Direction::Release },
        ]
    );
}

#[test]
fn paste_has_three_events() {
    assert_eq!(PASTE_LEN, 3);
    assert_eq!(PASTE_CHAR, 'v');
    assert_eq!(paste_sequence(Platform::MacOs).len(), 3);
    assert_eq!(paste_sequence(Platform::Other).len(), 3);
}

#[test]
fn paste_presses_and_releases_the_same_modifier() {
    for platform in [Platform::MacOs, Platform::Other] {
        let events = paste_sequence(platform);
        assert_eq!(events[0].key, paste_modifier(platform));
        assert_eq!(events[2].key, paste_modifier(platform));
        assert_eq!(events[0].direction, Direction::Press);
        assert_eq!(events[1].direction, Direction::Click);
        assert_eq!(events[2].direction, Direction::Release);
    }
}

#[test]
fn paste_event_indexes_the_sequence() {
    for platform in [Platform::MacOs, Platform::Other] {
        let events = paste_sequence(platform);
        for index in 0..events.len() {
            assert_eq!(paste_event(platform, index), Some(events[index]));
        }
    }
}

#[test]
fn paste_event_by_position() {
    assert_eq!(
        paste_event(Platform::Other, 0),
        Some(KeyEvent { key: Key::Control, direction: Direction::Press })
    );
    assert_eq!(
        paste_event(Platform::MacOs, 1),
        Some(KeyEvent { key: Key::Unicode('v'), direction: Direction::Click })
    );
    assert_eq!(
        paste_event(Platform::MacOs, 2),
        Some(KeyEvent { key: Key::Meta, direction: Direction::Release })
    );
}

#[test]
fn paste_event_past_the_end_is_none() {
    for platform in [Platform::MacOs, Platform::Other] {
        assert_eq!(paste_event(platform, 3), None);
        assert_eq!(paste_event(platform, 4), None);
        assert_eq!(paste_event(platform, usize::MAX), None);
    }
}

#[test]
fn paste_leaves_no_key_down() {
    for platform in [Platform::MacOs, Platform::Other] {
        let mut down: Vec<Key> = Vec::new();
        let mut down_at_click: Vec<Key> = Vec::new();
        for event in paste_sequence(platform) {
            match event.direction {
                Direction::Press => down.push(event.key),
                Direction::Release => down.retain(|key| *key != event.key),
                Direction::Click => down_at_click = down.clone(),
            }
        }
        assert_eq!(down_at_click, vec![paste_modifier(platform)]);
        assert_eq!(down, Vec::<Key>::new());
    }
}
