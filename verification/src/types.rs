//! The logical intents that a key press can stand for.

use vstd::prelude::*;
use crate::text::{chars_eq_str, to_chars};

verus! {

/// What the user asked for, whatever key was bound to it.
#[derive(Clone, Copy, Debug, PartialEq, Eq, Hash, Structural)]
pub enum KeyStatus {
    Quit,
    TogglePlay,
    VolumeIncrease,
    VolumeDecrease,
    ProgressIncrease,
    ProgressDecrease,
    PickerNext,
    PickerPrev,
    SwitchMode,
    NextTrack,
    PrevTrack,
    PlaySelected,
    NavbarNext,
    NavbarPrev,
    NoOp,
}

impl Default for KeyStatus {
    fn default() -> (status: KeyStatus)
        ensures
            status == KeyStatus::NoOp,
    {
        KeyStatus::NoOp
    }
}

impl KeyStatus {
    /// The name under which a status is written in a configuration file:
    /// lower case, words separated by one space.
    pub open spec fn name_spec(self) -> Seq<char> {
        match self {
            KeyStatus::Quit => "quit"@,
            KeyStatus::TogglePlay => "toggle play"@,
            KeyStatus::VolumeIncrease => "volume increase"@,
            KeyStatus::VolumeDecrease => "volume decrease"@,
            KeyStatus::ProgressIncrease => "progress increase"@,
            KeyStatus::ProgressDecrease => "progress decrease"@,
            KeyStatus::PickerNext => "picker next"@,
            KeyStatus::PickerPrev => "picker prev"@,
            KeyStatus::SwitchMode => "switch mode"@,
            KeyStatus::NextTrack => "next track"@,
            KeyStatus::PrevTrack => "prev track"@,
            KeyStatus::PlaySelected => "play selected"@,
            KeyStatus::NavbarNext => "navbar next"@,
            KeyStatus::NavbarPrev => "navbar prev"@,
            KeyStatus::NoOp => "NoOp"@,
        }
    }

    /// The status that a configuration name stands for, if it is one.
    pub open spec fn from_name_spec(name: Seq<char>) -> Option<KeyStatus> {
        if name == "quit"@ {
            Some(KeyStatus::Quit)
        } else if name == "toggle play"@ {
            Some(KeyStatus::TogglePlay)
        } else if name == "volume increase"@ {
            Some(KeyStatus::VolumeIncrease)
        } else if name == "volume decrease"@ {
            Some(KeyStatus::VolumeDecrease)
        } else if name == "progress increase"@ {
            Some(KeyStatus::ProgressIncrease)
        } else if name == "progress decrease"@ {
            Some(KeyStatus::ProgressDecrease)
        } else if name == "picker next"@ {
            Some(KeyStatus::PickerNext)
        } else if name == "picker prev"@ {
            Some(KeyStatus::PickerPrev)
        } else if name == "switch mode"@ {
            Some(KeyStatus::SwitchMode)
        } else if name == "next track"@ {
            Some(KeyStatus::NextTrack)
        } else if name == "prev track"@ {
            Some(KeyStatus::PrevTrack)
        } else if name == "play selected"@ {
            Some(KeyStatus::PlaySelected)
        } else if name == "navbar next"@ {
            Some(KeyStatus::NavbarNext)
        } else if name == "navbar prev"@ {
            Some(KeyStatus::NavbarPrev)
        } else if name == "NoOp"@ {
            Some(KeyStatus::NoOp)
        } else {
            None
        }
    }

    /// The configuration name of this status.
    pub fn name(self) -> (name: &'static str)
        ensures
            name@ == self.name_spec(),
    {
        match self {
            KeyStatus::Quit => "quit",
            KeyStatus::TogglePlay => "toggle play",
            KeyStatus::VolumeIncrease => "volume increase",
            KeyStatus::VolumeDecrease => "volume decrease",
            KeyStatus::ProgressIncrease => "progress increase",
            KeyStatus::ProgressDecrease => "progress decrease",
            KeyStatus::PickerNext => "picker next",
            KeyStatus::PickerPrev => "picker prev",
            KeyStatus::SwitchMode => "switch mode",
            KeyStatus::NextTrack => "next track",
            KeyStatus::PrevTrack => "prev track",
            KeyStatus::PlaySelected => "play selected",
            KeyStatus::NavbarNext => "navbar next",
            KeyStatus::NavbarPrev => "navbar prev",
            KeyStatus::NoOp => "NoOp",
        }
    }

    /// Reads a configuration name. An unknown name gives `None`: it never
    /// falls back to `NoOp`.
    pub fn from_name(name: &str) -> (status: Option<KeyStatus>)
        ensures
            status == KeyStatus::from_name_spec(name@),
    {
        let chars = to_chars(name);
        if chars_eq_str(&chars, "quit") {
            Some(KeyStatus::Quit)
        } else if chars_eq_str(&chars, "toggle play") {
            Some(KeyStatus::TogglePlay)
        } else if chars_eq_str(&chars, "volume increase") {
            Some(KeyStatus::VolumeIncrease)
        } else if chars_eq_str(&chars, "volume decrease") {
            Some(KeyStatus::VolumeDecrease)
        } else if chars_eq_str(&chars, "progress increase") {
            Some(KeyStatus::ProgressIncrease)
        } else if chars_eq_str(&chars, "progress decrease") {
            Some(KeyStatus::ProgressDecrease)
        } else if chars_eq_str(&chars, "picker next") {
            Some(KeyStatus::PickerNext)
        } else if chars_eq_str(&chars, "picker prev") {
            Some(KeyStatus::PickerPrev)
        } else if chars_eq_str(&chars, "switch mode") {
            Some(KeyStatus::SwitchMode)
        } else if chars_eq_str(&chars, "next track") {
            Some(KeyStatus::NextTrack)
        } else if chars_eq_str(&chars, "prev track") {
            Some(KeyStatus::PrevTrack)
        } else if chars_eq_str(&chars, "play selected") {
            Some(KeyStatus::PlaySelected)
        } else if chars_eq_str(&chars, "navbar next") {
            Some(KeyStatus::NavbarNext)
        } else if chars_eq_str(&chars, "navbar prev") {
            Some(KeyStatus::NavbarPrev)
        } else if chars_eq_str(&chars, "NoOp") {
            Some(KeyStatus::NoOp)
        } else {
            None
        }
    }
}

/// A status is read back from its own name: no two statuses share a name.
pub proof fn law_name_is_read_back(status: KeyStatus)
    ensures
        KeyStatus::from_name_spec(status.name_spec()) == Some(status),
{
    reveal_strlit("quit");
    reveal_strlit("toggle play");
    reveal_strlit("volume increase");
    reveal_strlit("volume decrease");
    reveal_strlit("progress increase");
    reveal_strlit("progress decrease");
    reveal_strlit("picker next");
    reveal_strlit("picker prev");
    reveal_strlit("switch mode");
    reveal_strlit("next track");
    reveal_strlit("prev track");
    reveal_strlit("play selected");
    reveal_strlit("navbar next");
    reveal_strlit("navbar prev");
    reveal_strlit("NoOp");
    assert("quit"@ =~= seq!['q', 'u', 'i', 't']);
    assert("toggle play"@ =~= seq!['t', 'o', 'g', 'g', 'l', 'e', ' ', 'p', 'l', 'a', 'y']);
    assert("volume increase"@ =~= seq![
        'v', 'o', 'l', 'u', 'm', 'e', ' ', 'i', 'n', 'c', 'r', 'e', 'a', 's', 'e',
    ]);
    assert("volume decrease"@ =~= seq![
        'v', 'o', 'l', 'u', 'm', 'e', ' ', 'd', 'e', 'c', 'r', 'e', 'a', 's', 'e',
    ]);
    assert("progress increase"@ =~= seq![
        'p', 'r', 'o', 'g', 'r', 'e', 's', 's', ' ', 'i', 'n', 'c', 'r', 'e', 'a', 's', 'e',
    ]);
    assert("progress decrease"@ =~= seq![
        'p', 'r', 'o', 'g', 'r', 'e', 's', 's', ' ', 'd', 'e', 'c', 'r', 'e', 'a', 's', 'e',
    ]);
    assert("picker next"@ =~= seq!['p', 'i', 'c', 'k', 'e', 'r', ' ', 'n', 'e', 'x', 't']);
    assert("picker prev"@ =~= seq!['p', 'i', 'c', 'k', 'e', 'r', ' ', 'p', 'r', 'e', 'v']);
    assert("switch mode"@ =~= seq!['s', 'w', 'i', 't', 'c', 'h', ' ', 'm', 'o', 'd', 'e']);
    assert("next track"@ =~= seq!['n', 'e', 'x', 't', ' ', 't', 'r', 'a', 'c', 'k']);
    assert("prev track"@ =~= seq!['p', 'r', 'e', 'v', ' ', 't', 'r', 'a', 'c', 'k']);
    assert("play selected"@ =~= seq![
        'p', 'l', 'a', 'y', ' ', 's', 'e', 'l', 'e', 'c', 't', 'e', 'd',
    ]);
    assert("navbar next"@ =~= seq!['n', 'a', 'v', 'b', 'a', 'r', ' ', 'n', 'e', 'x', 't']);
    assert("navbar prev"@ =~= seq!['n', 'a', 'v', 'b', 'a', 'r', ' ', 'p', 'r', 'e', 'v']);
    assert("NoOp"@ =~= seq!['N', 'o', 'O', 'p']);
}

} // verus!
