use lazymusic::bindings::KeyBindings;
use lazymusic::event::{Event, EventHandler, KeyEvent, KeyEventKind};
use lazymusic::keymap::{KeyCode, KeyModifiers, MediaKeyCode, ModifierKeyCode};
use lazymusic::types::KeyStatus;

#[test]
fn test_default_keybindings() {
    let mut event_handler = EventHandler::new();

    let event_q = Event::Key(KeyEvent::new_with_kind(
        KeyCode::Char('q'),
        KeyModifiers::none(),
        KeyEventKind::Press,
    ));
    assert_eq!(event_handler.handle_event(&event_q), KeyStatus::Quit);

    let event_p = Event::Key(KeyEvent::new_with_kind(
        KeyCode::Char('p'),
        KeyModifiers::none(),
        KeyEventKind::Press,
    ));
    assert_eq!(event_handler.handle_event(&event_p), KeyStatus::TogglePlay);

    let event_enter = Event::Key(KeyEvent::new_with_kind(
        KeyCode::Enter,
        KeyModifiers::none(),
        KeyEventKind::Press,
    ));
    assert_eq!(
        event_handler.handle_event(&event_enter),
        KeyStatus::PlaySelected
    );
}

#[test]
fn test_handle_event_noop_for_unmapped_key() {
    let mut event_handler = EventHandler::new();
    let event = Event::Key(KeyEvent::new_with_kind(
        KeyCode::Char('z'),
        KeyModifiers::none(),
        KeyEventKind::Press,
    ));
    assert_eq!(event_handler.handle_event(&event), KeyStatus::NoOp);
}

#[test]
fn test_handle_event_noop_for_key_release() {
    let mut event_handler = EventHandler::new();
    let event = Event::Key(KeyEvent::new_with_kind(
        KeyCode::Char('q'),
        KeyModifiers::none(),
        KeyEventKind::Release,
    ));
    assert_eq!(event_handler.handle_event(&event), KeyStatus::NoOp);
}

#[test]
fn test_add_keybindings() {
    let mut event_handler = EventHandler::new();
    let mut new_bindings = KeyBindings::new();
    new_bindings.insert(
        KeyCode::Char('a'),
        KeyModifiers::none(),
        KeyStatus::NextTrack,
    );
    event_handler.add_keybindings(new_bindings);

    let event = Event::Key(KeyEvent::new_with_kind(
        KeyCode::Char('a'),
        KeyModifiers::none(),
        KeyEventKind::Press,
    ));
    assert_eq!(event_handler.handle_event(&event), KeyStatus::NextTrack);
}

#[test]
fn test_ctrl_keybinding() {
    let mut event_handler = EventHandler::new();
    let mut new_bindings = KeyBindings::new();
    new_bindings.insert(KeyCode::Char('a'), KeyModifiers::control(), KeyStatus::Quit);
    event_handler.add_keybindings(new_bindings);

    let event = Event::Key(KeyEvent::new_with_kind(
        KeyCode::Char('a'),
        KeyModifiers::control(),
        KeyEventKind::Press,
    ));
    assert_eq!(event_handler.handle_event(&event), KeyStatus::Quit);
}

#[test]
fn test_add_keybindings_replaces_by_value() {
    let mut event_handler = EventHandler::new();

    let mut new_bindings = KeyBindings::new();
    new_bindings.insert(KeyCode::Char('x'), KeyModifiers::control(), KeyStatus::Quit);
    event_handler.add_keybindings(new_bindings);

    // The old key no longer stands for Quit.
    let event_q = Event::Key(KeyEvent::new_with_kind(
        KeyCode::Char('q'),
        KeyModifiers::none(),
        KeyEventKind::Press,
    ));
    assert_eq!(event_handler.handle_event(&event_q), KeyStatus::NoOp);

    // The new key does.
    let event_cx = Event::Key(KeyEvent::new_with_kind(
        KeyCode::Char('x'),
        KeyModifiers::control(),
        KeyEventKind::Press,
    ));
    assert_eq!(event_handler.handle_event(&event_cx), KeyStatus::Quit);

    // One binding went and one came: 14 as before.
    assert_eq!(event_handler.read_keybindings().len(), 14);
}

#[test]
fn default_keybindings_bind_fourteen_combinations() {
    let bindings = EventHandler::default_keybindings();
    assert_eq!(bindings.len(), 14);
    assert_eq!(
        bindings.get(KeyCode::Char('+'), KeyModifiers::none()),
        Some(KeyStatus::VolumeIncrease)
    );
    assert_eq!(
        bindings.get(KeyCode::Char('H'), KeyModifiers::none()),
        Some(KeyStatus::NavbarPrev)
    );
    assert_eq!(bindings.get(KeyCode::Char('H'), KeyModifiers::shift()), None);
}

#[test]
fn other_events_are_noop() {
    let mut handler = EventHandler::new();
    assert_eq!(handler.handle_event(&Event::FocusGained), KeyStatus::NoOp);
    assert_eq!(handler.handle_event(&Event::Resize(80, 24)), KeyStatus::NoOp);
    let repeat = Event::Key(KeyEvent::new_with_kind(
        KeyCode::Char('q'),
        KeyModifiers::none(),
        KeyEventKind::Repeat,
    ));
    assert_eq!(handler.handle_event(&repeat), KeyStatus::NoOp);
    // A modifier that the binding does not name makes another combination.
    let with_super = Event::Key(KeyEvent::new(
        KeyCode::Char('q'),
        KeyModifiers::from_bits(KeyModifiers::SUPER),
    ));
    assert_eq!(handler.handle_event(&with_super), KeyStatus::NoOp);
}

#[test]
fn merge_drops_every_old_key_of_a_rebound_status() {
    let mut bindings = KeyBindings::new();
    bindings.insert(KeyCode::Char('a'), KeyModifiers::none(), KeyStatus::Quit);
    bindings.insert(KeyCode::Char('b'), KeyModifiers::none(), KeyStatus::Quit);
    bindings.insert(KeyCode::Char('c'), KeyModifiers::none(), KeyStatus::TogglePlay);
    let mut batch = KeyBindings::new();
    batch.insert(KeyCode::Char('c'), KeyModifiers::none(), KeyStatus::Quit);
    bindings.merge(&batch);
    assert_eq!(bindings.len(), 1);
    assert_eq!(
        bindings.get(KeyCode::Char('c'), KeyModifiers::none()),
        Some(KeyStatus::Quit)
    );
    assert_eq!(bindings.get(KeyCode::Char('a'), KeyModifiers::none()), None);
    assert_eq!(bindings.get(KeyCode::Char('b'), KeyModifiers::none()), None);
    assert!(bindings.has_status(KeyStatus::Quit));
    assert!(!bindings.has_status(KeyStatus::TogglePlay));
}

#[test]
fn merge_of_a_batch_with_two_keys_for_one_status_keeps_both() {
    let mut handler = EventHandler::new();
    let mut batch = KeyBindings::new();
    batch.insert(KeyCode::Char('a'), KeyModifiers::none(), KeyStatus::Quit);
    batch.insert(KeyCode::Char('x'), KeyModifiers::none(), KeyStatus::Quit);
    handler.add_keybindings(batch);
    let map = handler.read_keybindings();
    assert_eq!(map.get(KeyCode::Char('a'), KeyModifiers::none()), Some(KeyStatus::Quit));
    assert_eq!(map.get(KeyCode::Char('x'), KeyModifiers::none()), Some(KeyStatus::Quit));
    assert_eq!(map.get(KeyCode::Char('q'), KeyModifiers::none()), None);
    assert_eq!(map.len(), 15);
}

#[test]
fn insert_replaces_and_reports_what_was_bound() {
    let mut bindings = KeyBindings::new();
    assert!(bindings.is_empty());
    assert_eq!(
        bindings.insert(KeyCode::F(1), KeyModifiers::none(), KeyStatus::Quit),
        None
    );
    assert_eq!(
        bindings.insert(KeyCode::F(1), KeyModifiers::none(), KeyStatus::NoOp),
        Some(KeyStatus::Quit)
    );
    assert_eq!(bindings.len(), 1);
    let copy = bindings.clone();
    assert_eq!(copy.get(KeyCode::F(1), KeyModifiers::none()), Some(KeyStatus::NoOp));
    assert_eq!(copy.to_vec().len(), 1);
}

#[test]
fn every_combination_is_kept_apart_from_every_other() {
    let codes = vec![
        KeyCode::Backspace,
        KeyCode::Enter,
        KeyCode::Left,
        KeyCode::Right,
        KeyCode::Up,
        KeyCode::Down,
        KeyCode::Home,
        KeyCode::End,
        KeyCode::PageUp,
        KeyCode::PageDown,
        KeyCode::Tab,
        KeyCode::BackTab,
        KeyCode::Delete,
        KeyCode::Insert,
        KeyCode::F(0),
        KeyCode::F(1),
        KeyCode::F(22),
        KeyCode::F(255),
        KeyCode::Char('\0'),
        KeyCode::Char('\u{1}'),
        KeyCode::Char('\u{16}'),
        KeyCode::Char('a'),
        KeyCode::Char('A'),
        KeyCode::Char('é'),
        KeyCode::Char('\u{10FFFF}'),
        KeyCode::Null,
        KeyCode::Esc,
        KeyCode::CapsLock,
        KeyCode::ScrollLock,
        KeyCode::NumLock,
        KeyCode::PrintScreen,
        KeyCode::Pause,
        KeyCode::Menu,
        KeyCode::KeypadBegin,
        KeyCode::Media(MediaKeyCode::Play),
        KeyCode::Media(MediaKeyCode::Pause),
        KeyCode::Media(MediaKeyCode::MuteVolume),
        KeyCode::Modifier(ModifierKeyCode::LeftShift),
        KeyCode::Modifier(ModifierKeyCode::LeftControl),
        KeyCode::Modifier(ModifierKeyCode::IsoLevel5Shift),
    ];
    let statuses = [
        KeyStatus::Quit,
        KeyStatus::TogglePlay,
        KeyStatus::VolumeIncrease,
        KeyStatus::NextTrack,
        KeyStatus::NoOp,
        KeyStatus::NavbarPrev,
        KeyStatus::SwitchMode,
    ];
    let bits = [0u8, 1, 2, 4, 3, 0x20, 0xff];
    let mut bindings = KeyBindings::new();
    let mut count = 0;
    for (i, code) in codes.iter().enumerate() {
        for (j, b) in bits.iter().enumerate() {
            let status = statuses[(i + 3 * j) % statuses.len()];
            assert_eq!(bindings.insert(*code, KeyModifiers::from_bits(*b), status), None);
            count += 1;
            assert_eq!(bindings.len(), count);
        }
    }
    for (i, code) in codes.iter().enumerate() {
        for (j, b) in bits.iter().enumerate() {
            let status = statuses[(i + 3 * j) % statuses.len()];
            assert_eq!(bindings.get(*code, KeyModifiers::from_bits(*b)), Some(status));
        }
    }
    assert_eq!(bindings.get(KeyCode::F(2), KeyModifiers::none()), None);
    assert_eq!(bindings.get(KeyCode::Char('b'), KeyModifiers::none()), None);
    let list = bindings.to_vec();
    assert_eq!(list.len(), count);
    for entry in &list {
        assert_eq!(bindings.get(entry.code, entry.modifiers), Some(entry.status));
    }
    for (i, first) in list.iter().enumerate() {
        for second in &list[i + 1..] {
            assert!((first.code, first.modifiers) != (second.code, second.modifiers));
        }
    }
    assert!(statuses.iter().all(|s| bindings.has_status(*s)));
    assert!(!bindings.has_status(KeyStatus::PickerNext));
}

#[test]
fn a_copy_binds_what_the_key_map_binds() {
    let mut bindings = KeyBindings::new();
    assert!(bindings.is_empty());
    bindings.insert(KeyCode::Char('q'), KeyModifiers::none(), KeyStatus::Quit);
    bindings.insert(KeyCode::Enter, KeyModifiers::control(), KeyStatus::PlaySelected);
    assert_eq!(
        bindings.insert(KeyCode::Char('q'), KeyModifiers::none(), KeyStatus::NoOp),
        Some(KeyStatus::Quit)
    );
    let copy = bindings.duplicate();
    bindings.insert(KeyCode::Char('x'), KeyModifiers::none(), KeyStatus::Quit);
    assert_eq!(copy.len(), 2);
    assert!(!copy.is_empty());
    assert_eq!(copy.get(KeyCode::Char('q'), KeyModifiers::none()), Some(KeyStatus::NoOp));
    assert_eq!(
        copy.get(KeyCode::Enter, KeyModifiers::control()),
        Some(KeyStatus::PlaySelected)
    );
    assert_eq!(copy.get(KeyCode::Char('x'), KeyModifiers::none()), None);
    assert_eq!(bindings.len(), 3);
}
