//! Plain values that widgets exchange: rectangles, layout constraints,
//! directions, spans of time and the events of the user interface.

use vstd::prelude::*;

verus! {

/// A rectangular region of the terminal, in cells.
#[derive(Clone, Copy, Debug, PartialEq, Eq, Hash, Structural)]
pub struct Rect {
    pub x: u16,
    pub y: u16,
    pub width: u16,
    pub height: u16,
}

/// Addition that stops at the largest value.
pub open spec fn saturating_add_spec(a: u16, b: u16) -> u16 {
    if a + b > u16::MAX {
        u16::MAX
    } else {
        (a + b) as u16
    }
}

/// Subtraction that stops at zero.
pub open spec fn saturating_sub_spec(a: u16, b: u16) -> u16 {
    if a < b {
        0
    } else {
        (a - b) as u16
    }
}

impl Rect {
    /// The column just right of the rectangle.
    pub open spec fn right(self) -> u16 {
        saturating_add_spec(self.x, self.width)
    }

    /// The row just below the rectangle.
    pub open spec fn bottom(self) -> u16 {
        saturating_add_spec(self.y, self.height)
    }

    pub fn new(x: u16, y: u16, width: u16, height: u16) -> (rect: Rect)
        ensures
            rect == (Rect { x, y, width, height }),
    {
        Rect { x, y, width, height }
    }
}

/// What a layout asks for one of its parts.
#[derive(Clone, Copy, Debug, PartialEq, Eq, Hash, Structural)]
pub enum Constraint {
    Min(u16),
    Max(u16),
    Length(u16),
    Percentage(u16),
    Ratio(u32, u32),
    Fill(u16),
}

/// A step to the left or to the right.
#[derive(Clone, Copy, Debug, PartialEq, Eq, Hash, Structural)]
pub enum Direction {
    Left,
    Right,
}

/// A span of time: whole seconds and the nanoseconds of a started one.
#[derive(Clone, Copy, Debug, PartialEq, Eq, Hash, Structural)]
pub struct Duration {
    pub secs: u64,
    pub nanos: u32,
}

impl Duration {
    /// No time at all.
    pub fn zero() -> (duration: Duration)
        ensures
            duration == (Duration { secs: 0, nanos: 0 }),
    {
        Duration { secs: 0, nanos: 0 }
    }

    /// So many whole seconds.
    pub fn from_secs(secs: u64) -> (duration: Duration)
        ensures
            duration == (Duration { secs, nanos: 0 }),
    {
        Duration { secs, nanos: 0 }
    }

    /// So many milliseconds.
    pub fn from_millis(millis: u64) -> (duration: Duration)
        ensures
            duration == (Duration {
                secs: millis / 1000,
                nanos: ((millis % 1000) * 1_000_000) as u32,
            }),
    {
        Duration { secs: millis / 1000, nanos: ((millis % 1000) * 1_000_000) as u32 }
    }

    /// The whole seconds of the span.
    pub fn as_secs(&self) -> (secs: u64)
        ensures
            secs == self.secs,
    {
        self.secs
    }
}

/// The events of the user interface. Each is made, dispatched and dropped
/// within one handling cycle.
#[derive(Clone, Debug)]
pub enum TuiEnent {
    /// Toggle between playing and paused.
    Playback,
    /// Change the volume by so much.
    Volume(i8),
    /// The time played of the current track, then its whole length.
    PlaybackProgress(Duration, Duration),
    /// Go to the next playback mode.
    PlaybackMode,
    /// The name of the artist.
    Artist(String),
    /// The name of the track.
    Track(String),
    /// Move the selection of the navigation bar.
    Navbar(Direction),
    /// The icons of the navigation bar: for the selected item, then for the others.
    NavbarIcon(String, String),
}

} // verus!
