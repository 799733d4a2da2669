//! Input events and the logical statuses that they stand for.

use vstd::prelude::*;
use crate::bindings::{merge_bindings, KeyBindings, KeyCombo};
use crate::keymap::{KeyCode, KeyModifiers};
use crate::types::KeyStatus;

verus! {

/// Whether a key went down, is held, or came up.
#[derive(Clone, Copy, Debug, PartialEq, Eq, Hash, Structural)]
pub enum KeyEventKind {
    Press,
    Repeat,
    Release,
}

/// A key event as the terminal reports it.
#[derive(Clone, Copy, Debug, PartialEq, Eq, Hash, Structural)]
pub struct KeyEvent {
    pub code: KeyCode,
    pub modifiers: KeyModifiers,
    pub kind: KeyEventKind,
}

impl KeyEvent {
    /// A key press.
    pub fn new(code: KeyCode, modifiers: KeyModifiers) -> (event: KeyEvent)
        ensures
            event == (KeyEvent { code, modifiers, kind: KeyEventKind::Press }),
    {
        KeyEvent { code, modifiers, kind: KeyEventKind::Press }
    }

    /// A key event of the given kind.
    pub fn new_with_kind(code: KeyCode, modifiers: KeyModifiers, kind: KeyEventKind) -> (event:
        KeyEvent)
        ensures
            event == (KeyEvent { code, modifiers, kind }),
    {
        KeyEvent { code, modifiers, kind }
    }
}

/// What the terminal can report. Only key events carry what the key map
/// reads; of the others the kind is kept.
#[derive(Clone, Copy, Debug, PartialEq, Eq, Hash, Structural)]
pub enum Event {
    FocusGained,
    FocusLost,
    Key(KeyEvent),
    Mouse,
    Paste,
    Resize(u16, u16),
}

/// The status that an event stands for under a key map: what a pressed
/// combination is bound to, and `NoOp` for everything else.
pub open spec fn key_status_spec(keymap: Map<KeyCombo, KeyStatus>, event: Event) -> KeyStatus {
    match event {
        Event::Key(key) => if key.kind == KeyEventKind::Press && keymap.dom().contains(
            (key.code, key.modifiers),
        ) {
            keymap[(key.code, key.modifiers)]
        } else {
            KeyStatus::NoOp
        },
        _ => KeyStatus::NoOp,
    }
}

/// The bindings that the program starts with.
pub open spec fn default_keymap() -> Map<KeyCombo, KeyStatus> {
    let none = KeyModifiers { bits: 0 };
    Map::<KeyCombo, KeyStatus>::empty().insert((KeyCode::Char('q'), none), KeyStatus::Quit).insert(
        (KeyCode::Char('p'), none),
        KeyStatus::TogglePlay,
    ).insert((KeyCode::Char('+'), none), KeyStatus::VolumeIncrease).insert(
        (KeyCode::Char('-'), none),
        KeyStatus::VolumeDecrease,
    ).insert((KeyCode::Char('l'), none), KeyStatus::ProgressIncrease).insert(
        (KeyCode::Char('h'), none),
        KeyStatus::ProgressDecrease,
    ).insert((KeyCode::Char('j'), none), KeyStatus::PickerNext).insert(
        (KeyCode::Char('k'), none),
        KeyStatus::PickerPrev,
    ).insert((KeyCode::Char('m'), none), KeyStatus::SwitchMode).insert(
        (KeyCode::Char(']'), none),
        KeyStatus::NextTrack,
    ).insert((KeyCode::Char('['), none), KeyStatus::PrevTrack).insert(
        (KeyCode::Char('L'), none),
        KeyStatus::NavbarNext,
    ).insert((KeyCode::Char('H'), none), KeyStatus::NavbarPrev).insert(
        (KeyCode::Enter, none),
        KeyStatus::PlaySelected,
    )
}

/// Turns terminal events into logical statuses through a key map.
pub struct EventHandler {
    keymap: KeyBindings,
}

impl EventHandler {
    /// The key map in use.
    pub closed spec fn keymap(&self) -> Map<KeyCombo, KeyStatus> {
        self.keymap@
    }

    /// A handler with the default bindings.
    pub fn new() -> (handler: EventHandler)
        ensures
            handler.keymap() == default_keymap(),
    {
        EventHandler { keymap: EventHandler::default_keybindings() }
    }

    /// The bindings that the program starts with.
    pub fn default_keybindings() -> (bindings: KeyBindings)
        ensures
            bindings@ == default_keymap(),
    {
        let none = KeyModifiers::none();
        let mut bindings = KeyBindings::new();
        bindings.insert(KeyCode::Char('q'), none, KeyStatus::Quit);
        bindings.insert(KeyCode::Char('p'), none, KeyStatus::TogglePlay);
        bindings.insert(KeyCode::Char('+'), none, KeyStatus::VolumeIncrease);
        bindings.insert(KeyCode::Char('-'), none, KeyStatus::VolumeDecrease);
        bindings.insert(KeyCode::Char('l'), none, KeyStatus::ProgressIncrease);
        bindings.insert(KeyCode::Char('h'), none, KeyStatus::ProgressDecrease);
        bindings.insert(KeyCode::Char('j'), none, KeyStatus::PickerNext);
        bindings.insert(KeyCode::Char('k'), none, KeyStatus::PickerPrev);
        bindings.insert(KeyCode::Char('m'), none, KeyStatus::SwitchMode);
        bindings.insert(KeyCode::Char(']'), none, KeyStatus::NextTrack);
        bindings.insert(KeyCode::Char('['), none, KeyStatus::PrevTrack);
        bindings.insert(KeyCode::Char('L'), none, KeyStatus::NavbarNext);
        bindings.insert(KeyCode::Char('H'), none, KeyStatus::NavbarPrev);
        bindings.insert(KeyCode::Enter, none, KeyStatus::PlaySelected);
        bindings
    }

    /// The status that an event stands for. Only the press of a bound
    /// combination gives anything but `NoOp`. The key map stays as it is.
    pub fn handle_event(&mut self, event: &Event) -> (status: KeyStatus)
        ensures
            status == key_status_spec(old(self).keymap(), *event),
            final(self).keymap() == old(self).keymap(),
    {
        if let Event::Key(key) = event {
            if key.kind == KeyEventKind::Press {
                return match self.keymap.get(key.code, key.modifiers) {
                    Some(status) => status,
                    None => KeyStatus::NoOp,
                };
            }
        }
        KeyStatus::NoOp
    }

    /// Merges new bindings in, exclusively by status: an old binding whose
    /// status is bound anew is dropped, whatever its key.
    pub fn add_keybindings(&mut self, key_bindings: KeyBindings)
        ensures
            final(self).keymap() == merge_bindings(old(self).keymap(), key_bindings@),
    {
        self.keymap.merge(&key_bindings);
    }

    /// A copy of the key map in use.
    pub fn read_keybindings(&self) -> (bindings: KeyBindings)
        ensures
            bindings@ == self.keymap(),
    {
        self.keymap.duplicate()
    }
}

/// The status that a read of the input stream stands for under a key map:
/// that of the event where one arrived; none where the stream failed or
/// ended.
pub open spec fn stream_status(
    keymap: Map<KeyCombo, KeyStatus>,
    next: Option<Result<Event, String>>,
) -> Option<KeyStatus> {
    match next {
        Some(Ok(event)) => Some(key_status_spec(keymap, event)),
        _ => None,
    }
}

impl EventHandler {
    /// Turns what the input stream gave into a status. A failed read counts
    /// as no event in this cycle, and so does the end of the stream.
    pub fn next_key_status(&mut self, next: Option<Result<Event, String>>) -> (status: Option<
        KeyStatus,
    >)
        ensures
            status == stream_status(old(self).keymap(), next),
            final(self).keymap() == old(self).keymap(),
    {
        match next {
            Some(Ok(event)) => Some(self.handle_event(&event)),
            _ => None,
        }
    }
}

impl Default for EventHandler {
    fn default() -> (handler: EventHandler)
        ensures
            handler.keymap() == default_keymap(),
    {
        EventHandler::new()
    }
}

} // verus!
