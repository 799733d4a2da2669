use lazymusic::types::KeyStatus;

#[test]
fn test_deserialize_key_status_simple() {
    assert_eq!(KeyStatus::from_name("toggle play"), Some(KeyStatus::TogglePlay));
    assert_eq!(KeyStatus::from_name("quit"), Some(KeyStatus::Quit));
}

#[test]
fn test_deserialize_key_status_with_arg() {
    assert_eq!(
        KeyStatus::from_name("volume decrease"),
        Some(KeyStatus::VolumeDecrease)
    );
}

#[test]
fn test_deserialize_key_status_with_extra_whitespace() {
    assert_eq!(
        KeyStatus::from_name("volume decrease"),
        Some(KeyStatus::VolumeDecrease)
    );
}

#[test]
fn test_deserialize_key_status_invalid_command() {
    assert!(KeyStatus::from_name("invalid command").is_none());
}

#[test]
fn test_deserialize_key_status_invalid_arg() {
    assert!(KeyStatus::from_name("volume decrease abc").is_none());
}

#[test]
fn every_status_is_read_back_from_its_name() {
    let all = [
        KeyStatus::Quit,
        KeyStatus::TogglePlay,
        KeyStatus::VolumeIncrease,
        KeyStatus::VolumeDecrease,
        KeyStatus::ProgressIncrease,
        KeyStatus::ProgressDecrease,
        KeyStatus::PickerNext,
        KeyStatus::PickerPrev,
        KeyStatus::SwitchMode,
        KeyStatus::NextTrack,
        KeyStatus::PrevTrack,
        KeyStatus::PlaySelected,
        KeyStatus::NavbarNext,
        KeyStatus::NavbarPrev,
        KeyStatus::NoOp,
    ];
    for status in all {
        assert_eq!(KeyStatus::from_name(status.name()), Some(status));
    }
    assert_eq!(KeyStatus::VolumeIncrease.name(), "volume increase");
    assert_eq!(KeyStatus::from_name("Quit"), None);
    assert_eq!(KeyStatus::from_name(""), None);
    assert_eq!(KeyStatus::default(), KeyStatus::NoOp);
}
