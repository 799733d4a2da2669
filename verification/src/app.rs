//! The application driver: whether the program runs, how often it redraws,
//! and what a wake-up of its loop leads to.

use vstd::prelude::*;
use crate::bindings::KeyCombo;
use crate::event::{default_keymap, stream_status, Event, EventHandler};
use crate::tui::types::Duration;
use crate::types::KeyStatus;

verus! {

/// Why the loop woke up. One wake-up is served at a time: the input that
/// arrived, or the tick of the redraw timer, whichever was ready first.
pub enum Wakeup {
    /// What the input stream gave: an event, a failure with its message, or
    /// nothing more.
    Input(Option<Result<Event, String>>),
    /// The redraw timer fired.
    Tick,
}

/// What the loop is to do after a wake-up.
#[derive(Clone, Copy, Debug, PartialEq, Eq, Structural)]
pub enum Action {
    /// Wait for the next wake-up.
    Wait,
    /// Draw the interface, then wait for the next wake-up.
    Redraw,
    /// Leave the loop and restore the terminal.
    Exit,
}

/// The application: its running flag, its key map and the period of its
/// redraw timer.
pub struct App {
    running: bool,
    event: EventHandler,
    tui_interval: Duration,
}

impl App {
    /// Whether the program is running.
    pub closed spec fn running(&self) -> bool {
        self.running
    }

    /// The key map in use.
    pub closed spec fn keymap(&self) -> Map<KeyCombo, KeyStatus> {
        self.event.keymap()
    }

    /// The period of the redraw timer.
    pub closed spec fn interval(&self) -> Duration {
        self.tui_interval
    }

    /// Whether the program is running once it has acted on `status`: a
    /// quit stops it, nothing else does.
    pub open spec fn running_after(running: bool, status: Option<KeyStatus>) -> bool {
        running && status != Some(KeyStatus::Quit)
    }

    pub fn is_running(&self) -> (running: bool)
        ensures
            running == self.running(),
    {
        self.running
    }

    pub fn start(&mut self)
        ensures
            final(self).running(),
            final(self).keymap() == old(self).keymap(),
            final(self).interval() == old(self).interval(),
    {
        self.running = true;
    }

    pub fn stop(&mut self)
        ensures
            !final(self).running(),
            final(self).keymap() == old(self).keymap(),
            final(self).interval() == old(self).interval(),
    {
        self.running = false;
    }

    /// Sets the period of the redraw timer. A tick that is missed is
    /// skipped, never made up for.
    pub fn set_tui_interval(&mut self, duration: Duration)
        ensures
            final(self).interval() == duration,
            final(self).running() == old(self).running(),
            final(self).keymap() == old(self).keymap(),
    {
        self.tui_interval = duration;
    }

    /// The period of the redraw timer.
    pub fn tui_interval(&self) -> (duration: Duration)
        ensures
            duration == self.interval(),
    {
        self.tui_interval
    }

    /// The handler that turns input events into statuses.
    pub fn events(&mut self) -> (handler: &mut EventHandler)
        ensures
            handler.keymap() == old(self).keymap(),
            final(self).keymap() == final(handler).keymap(),
            final(self).running() == old(self).running(),
            final(self).interval() == old(self).interval(),
    {
        &mut self.event
    }

    /// Acts on a status: a quit stops the program; every other status
    /// leaves it as it is.
    pub fn event_handler(&mut self, key_status: KeyStatus)
        ensures
            final(self).running() == (old(self).running() && key_status != KeyStatus::Quit),
            final(self).keymap() == old(self).keymap(),
            final(self).interval() == old(self).interval(),
    {
        match key_status {
            KeyStatus::Quit => self.stop(),
            _ => {},
        }
    }

    /// Serves one wake-up of the loop. An input is turned into a status and
    /// acted on; a tick asks for a redraw. The loop is left once the program
    /// has stopped.
    pub fn step(&mut self, wakeup: Wakeup) -> (action: Action)
        ensures
            final(self).keymap() == old(self).keymap(),
            final(self).interval() == old(self).interval(),
            match wakeup {
                Wakeup::Input(next) => {
                    &&& final(self).running() == App::running_after(
                        old(self).running(),
                        stream_status(old(self).keymap(), next),
                    )
                    &&& action == if final(self).running() {
                        Action::Wait
                    } else {
                        Action::Exit
                    }
                },
                Wakeup::Tick => {
                    &&& final(self).running() == old(self).running()
                    &&& action == if old(self).running() {
                        Action::Redraw
                    } else {
                        Action::Exit
                    }
                },
            },
    {
        match wakeup {
            Wakeup::Input(next) => {
                if let Some(key) = self.event.next_key_status(next) {
                    self.event_handler(key);
                }
                if self.running {
                    Action::Wait
                } else {
                    Action::Exit
                }
            },
            Wakeup::Tick => {
                if self.running {
                    Action::Redraw
                } else {
                    Action::Exit
                }
            },
        }
    }
}

impl Default for App {
    fn default() -> (app: App)
        ensures
            !app.running(),
            app.keymap() == default_keymap(),
            app.interval() == (Duration { secs: 0, nanos: 100_000_000 }),
    {
        App { running: false, event: EventHandler::new(), tui_interval: Duration::from_millis(100) }
    }
}

} // verus!
