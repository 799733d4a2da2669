use lazymusic::app::{Action, App, Wakeup};
use lazymusic::bindings::KeyBindings;
use lazymusic::event::{Event, EventHandler, KeyEvent, KeyEventKind};
use lazymusic::keymap::{KeyCode, KeyModifiers};
use lazymusic::tui::types::Duration;
use lazymusic::types::KeyStatus;

fn press(c: char) -> Event {
    Event::Key(KeyEvent::new(KeyCode::Char(c), KeyModifiers::none()))
}

#[test]
fn app_starts_stopped_and_runs_until_quit() {
    let mut app = App::default();
    assert!(!app.is_running());
    assert_eq!(app.tui_interval(), Duration::from_millis(100));
    assert_eq!(app.tui_interval(), Duration { secs: 0, nanos: 100_000_000 });
    app.start();
    assert!(app.is_running());
    assert_eq!(app.step(Wakeup::Tick), Action::Redraw);
    assert_eq!(app.step(Wakeup::Input(Some(Ok(press('p'))))), Action::Wait);
    assert_eq!(app.step(Wakeup::Input(Some(Ok(press('z'))))), Action::Wait);
    assert_eq!(app.step(Wakeup::Input(Some(Err("broken".to_string())))), Action::Wait);
    assert_eq!(app.step(Wakeup::Input(None)), Action::Wait);
    assert!(app.is_running());
    assert_eq!(app.step(Wakeup::Input(Some(Ok(press('q'))))), Action::Exit);
    assert!(!app.is_running());
    assert_eq!(app.step(Wakeup::Tick), Action::Exit);
}

#[test]
fn only_quit_stops_the_app() {
    let all = [
        KeyStatus::TogglePlay,
        KeyStatus::VolumeIncrease,
        KeyStatus::VolumeDecrease,
        KeyStatus::ProgressIncrease,
        KeyStatus::ProgressDecrease,
        KeyStatus::PickerNext,
        KeyStatus::PickerPrev,
        KeyStatus::SwitchMode,
        KeyStatus::NextTrack,
        KeyStatus::PrevTrack,
        KeyStatus::PlaySelected,
        KeyStatus::NavbarNext,
        KeyStatus::NavbarPrev,
        KeyStatus::NoOp,
    ];
    let mut app = App::default();
    app.start();
    for status in all {
        app.event_handler(status);
        assert!(app.is_running());
    }
    app.event_handler(KeyStatus::Quit);
    assert!(!app.is_running());
    app.start();
    app.stop();
    assert!(!app.is_running());
}

#[test]
fn new_bindings_reach_the_loop() {
    let mut app = App::default();
    app.start();
    let mut batch = KeyBindings::new();
    batch.insert(KeyCode::Esc, KeyModifiers::none(), KeyStatus::Quit);
    app.events().add_keybindings(batch);
    assert_eq!(app.step(Wakeup::Input(Some(Ok(press('q'))))), Action::Wait);
    let release = Event::Key(KeyEvent::new_with_kind(
        KeyCode::Esc,
        KeyModifiers::none(),
        KeyEventKind::Release,
    ));
    assert_eq!(app.step(Wakeup::Input(Some(Ok(release)))), Action::Wait);
    let esc = Event::Key(KeyEvent::new(KeyCode::Esc, KeyModifiers::none()));
    assert_eq!(app.step(Wakeup::Input(Some(Ok(esc)))), Action::Exit);
}

#[test]
fn interval_is_set() {
    let mut app = App::default();
    app.set_tui_interval(Duration::from_millis(1500));
    assert_eq!(app.tui_interval(), Duration { secs: 1, nanos: 500_000_000 });
    assert_eq!(Duration::from_secs(3).as_secs(), 3);
}

#[test]
fn stream_outcomes_become_statuses() {
    let mut handler = EventHandler::default();
    assert_eq!(handler.next_key_status(None), None);
    assert_eq!(handler.next_key_status(Some(Err("io".to_string()))), None);
    assert_eq!(
        handler.next_key_status(Some(Ok(press('m')))),
        Some(KeyStatus::SwitchMode)
    );
    assert_eq!(
        handler.next_key_status(Some(Ok(Event::FocusLost))),
        Some(KeyStatus::NoOp)
    );
}
