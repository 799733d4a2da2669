use lazymusic::bindings::KeyBindings;
use lazymusic::config::{
    default_config_path, expand_user_path, home_and_rest, ActionArgument, ConfigLoader,
    KeymapConfig, Keymaps, LazyConfig, LoadAction, ReadOutcome,
};
use lazymusic::event::{Event, EventHandler, KeyEvent};
use lazymusic::keymap::{KeyCode, KeyModifiers};
use lazymusic::types::KeyStatus;

#[test]
fn test_keymaps_from_conversion() {
    let keymaps = Keymaps {
        configs: vec![
            KeymapConfig {
                on: "q".to_string(),
                run: KeyStatus::Quit,
                ..Default::default()
            },
            KeymapConfig {
                on: "<c-p>".to_string(),
                run: KeyStatus::TogglePlay,
                ..Default::default()
            },
            KeymapConfig {
                on: "invalid-key".to_string(), // This one cannot be read
                run: KeyStatus::NoOp,
                ..Default::default()
            },
        ],
    };

    // The conversion fails and names the text that it could not read
    let failed: Result<KeyBindings, String> = KeyBindings::try_from(&keymaps);
    assert_eq!(failed.err(), Some("invalid-key".to_string()));

    // Without that entry the 2 valid keymaps are converted
    let mut configs = keymaps.configs;
    configs.truncate(2);
    let valid = Keymaps { configs };
    let bindings: KeyBindings = KeyBindings::try_from(&valid).unwrap();
    assert_eq!(bindings.len(), 2);

    // Check if the valid keys are correctly mapped
    assert_eq!(
        bindings.get(KeyCode::Char('q'), KeyModifiers::none()),
        Some(KeyStatus::Quit)
    );
    assert_eq!(
        bindings.get(KeyCode::Char('p'), KeyModifiers::control()),
        Some(KeyStatus::TogglePlay)
    );
}

#[test]
fn test_keymaps_from_hashmap_conversion() {
    let mut bindings = KeyBindings::new();
    bindings.insert(KeyCode::Char('q'), KeyModifiers::none(), KeyStatus::Quit);
    bindings.insert(
        KeyCode::Char('p'),
        KeyModifiers::control(),
        KeyStatus::TogglePlay,
    );

    let keymaps: Keymaps = bindings.into();

    assert_eq!(keymaps.configs.len(), 2);

    let config1_found = keymaps
        .configs
        .iter()
        .any(|c| c.on == "q" && c.run == KeyStatus::Quit);
    let config2_found = keymaps
        .configs
        .iter()
        .any(|c| c.on == "<c-p>" && c.run == KeyStatus::TogglePlay);

    assert!(config1_found, "Config for 'q' not found or incorrect");
    assert!(config2_found, "Config for '<c-p>' not found or incorrect");
    assert!(keymaps.configs.iter().all(|c| c.argument.is_none() && c.desc.is_none()));
}

#[test]
fn later_entry_for_one_combination_counts() {
    let keymaps = Keymaps {
        configs: vec![
            KeymapConfig {
                on: "<C-a>".to_string(),
                run: KeyStatus::Quit,
                ..Default::default()
            },
            KeymapConfig {
                on: "<ctrl-A>".to_string(),
                run: KeyStatus::NextTrack,
                ..Default::default()
            },
        ],
    };
    let bindings = keymaps.checked_bindings().unwrap();
    assert_eq!(bindings.len(), 1);
    assert_eq!(
        bindings.get(KeyCode::Char('a'), KeyModifiers::control()),
        Some(KeyStatus::NextTrack)
    );
    assert_eq!(Keymaps::default().checked_bindings().unwrap().len(), 0);
}

fn keymaps_of_toml(text: &str) -> Keymaps {
    let table: toml::Table = text.parse().unwrap();
    let mut configs = Vec::new();
    for item in table["keymaps"].as_array().unwrap() {
        let run = KeyStatus::from_name(item["run"].as_str().unwrap()).unwrap();
        configs.push(KeymapConfig {
            on: item["on"].as_str().unwrap().to_string(),
            run,
            ..Default::default()
        });
    }
    Keymaps { configs }
}

#[test]
fn configured_quit_moves_from_q_to_control_a() {
    let keymaps = keymaps_of_toml("[[keymaps]]\non = \"<c-a>\"\nrun = \"quit\"\n");
    let mut handler = EventHandler::new();
    handler.add_keybindings(keymaps.checked_bindings().unwrap());

    let control_a = Event::Key(KeyEvent::new(KeyCode::Char('a'), KeyModifiers::control()));
    assert_eq!(handler.handle_event(&control_a), KeyStatus::Quit);
    let q = Event::Key(KeyEvent::new(KeyCode::Char('q'), KeyModifiers::none()));
    assert_eq!(handler.handle_event(&q), KeyStatus::NoOp);
    let p = Event::Key(KeyEvent::new(KeyCode::Char('p'), KeyModifiers::none()));
    assert_eq!(handler.handle_event(&p), KeyStatus::TogglePlay);
    assert_eq!(handler.read_keybindings().len(), 14);
}

#[test]
fn default_keymaps_are_the_default_bindings() {
    let keymaps = Keymaps::default_keymaps();
    assert_eq!(keymaps.configs.len(), 14);
    assert_eq!(keymaps.configs[0].on, "q");
    assert_eq!(keymaps.configs[0].run, KeyStatus::Quit);
    assert_eq!(keymaps.configs[0].argument, None);
    assert_eq!(keymaps.configs[0].desc.as_deref(), Some("退出程序"));
    assert_eq!(keymaps.configs[1].on, "+");
    assert_eq!(keymaps.configs[1].argument, Some(ActionArgument::Value(10)));
    assert_eq!(keymaps.configs[12].on, "<enter>");
    assert_eq!(keymaps.configs[12].run, KeyStatus::PlaySelected);
    assert_eq!(keymaps.configs[13].run, KeyStatus::TogglePlay);

    // Read as a key map they are what the handler starts with.
    let bindings = keymaps.checked_bindings().unwrap();
    let defaults = EventHandler::default_keybindings();
    assert_eq!(bindings.len(), 14);
    for binding in defaults.to_vec() {
        assert_eq!(
            bindings.get(binding.code, binding.modifiers),
            Some(binding.status)
        );
    }

    let config = LazyConfig::with_default_keymaps("/tmp/x/config.toml".to_string());
    assert_eq!(config.path, "/tmp/x/config.toml");
    assert_eq!(config.keymap.unwrap().configs.len(), 14);
    assert!(LazyConfig::new("a".to_string()).keymap.is_none());
}

fn read_path(action: LoadAction) -> String {
    match action {
        LoadAction::Read { path } => path,
        _ => panic!("a read was expected"),
    }
}

#[test]
fn user_path_is_tried_first_and_the_default_path_after_it() {
    let (mut loader, first) =
        ConfigLoader::start(Some("/home/u/my.toml".to_string()), "/etc/d.toml".to_string());
    assert_eq!(read_path(first), "/home/u/my.toml");
    let second = loader.step(ReadOutcome::Failed("no such file".to_string()));
    assert_eq!(read_path(second), "/etc/d.toml");
    match loader.step(ReadOutcome::Failed("denied".to_string())) {
        LoadAction::Fail { message, cause } => {
            assert_eq!(
                message,
                "尝试主要路径 '/home/u/my.toml' (失败: no such file) 后，读取备用路径 '/etc/d.toml' 也失败"
            );
            assert_eq!(cause, "denied");
        }
        _ => panic!("both reads failed"),
    }
    assert!(loader.is_done());
}

#[test]
fn contents_are_parsed_with_the_path_they_came_from() {
    let (mut loader, _) = ConfigLoader::start(Some("a.toml".to_string()), "d.toml".to_string());
    match loader.step(ReadOutcome::Contents("x = 1".to_string())) {
        LoadAction::Parse { contents, path } => {
            assert_eq!(contents, "x = 1");
            assert_eq!(path, "a.toml");
        }
        _ => panic!("the text is to be parsed"),
    }

    let (mut loader, _) = ConfigLoader::start(Some("a.toml".to_string()), "d.toml".to_string());
    loader.step(ReadOutcome::Failed("gone".to_string()));
    assert!(!loader.is_done());
    match loader.step(ReadOutcome::Contents("y = 2".to_string())) {
        LoadAction::Parse { contents, path } => {
            assert_eq!(contents, "y = 2");
            assert_eq!(path, "d.toml");
        }
        _ => panic!("the text is to be parsed"),
    }
}

#[test]
fn without_a_user_path_only_the_default_path_is_tried() {
    let (mut loader, first) = ConfigLoader::start(None, "d.toml".to_string());
    assert_eq!(read_path(first), "d.toml");
    match loader.step(ReadOutcome::Failed("gone".to_string())) {
        LoadAction::Fail { message, cause } => {
            assert_eq!(message, "无法从默认路径 'd.toml' 读取配置");
            assert_eq!(cause, "gone");
        }
        _ => panic!("the read failed"),
    }
    assert!(loader.is_done());
}

#[test]
fn unreadable_key_text_is_named() {
    let keymaps = Keymaps {
        configs: vec![
            KeymapConfig {
                on: "q".to_string(),
                run: KeyStatus::Quit,
                ..Default::default()
            },
            KeymapConfig {
                on: "invalid-key".to_string(),
                run: KeyStatus::NoOp,
                ..Default::default()
            },
            KeymapConfig {
                on: "<f13>".to_string(),
                run: KeyStatus::NoOp,
                ..Default::default()
            },
        ],
    };
    match keymaps.checked_bindings() {
        Err(token) => assert_eq!(token, "invalid-key"),
        Ok(_) => panic!("the second entry cannot be read"),
    }
    assert_eq!(
        KeyBindings::try_from(&keymaps).err(),
        Some("invalid-key".to_string())
    );
}

#[test]
fn readable_key_texts_give_the_key_map() {
    let keymaps = Keymaps {
        configs: vec![
            KeymapConfig {
                on: "é".to_string(),
                run: KeyStatus::Quit,
                ..Default::default()
            },
            KeymapConfig {
                on: "<c-p>".to_string(),
                run: KeyStatus::TogglePlay,
                ..Default::default()
            },
        ],
    };
    let bindings = keymaps.checked_bindings().unwrap();
    assert_eq!(bindings.len(), 2);
    assert_eq!(
        bindings.get(KeyCode::Char('é'), KeyModifiers::none()),
        Some(KeyStatus::Quit)
    );
    assert_eq!(
        bindings.get(KeyCode::Char('p'), KeyModifiers::control()),
        Some(KeyStatus::TogglePlay)
    );
    assert_eq!(Keymaps::default().checked_bindings().unwrap().len(), 0);
    assert_eq!(Keymaps::default_keymaps().checked_bindings().unwrap().len(), 14);
}

#[test]
fn bindings_written_out_read_back_as_themselves() {
    let mut bindings = KeyBindings::new();
    bindings.insert(KeyCode::Char('q'), KeyModifiers::none(), KeyStatus::Quit);
    bindings.insert(KeyCode::F(5), KeyModifiers::alt(), KeyStatus::NextTrack);
    bindings.insert(KeyCode::Char('é'), KeyModifiers::control(), KeyStatus::TogglePlay);
    let keymaps: Keymaps = bindings.duplicate().into();
    assert_eq!(keymaps.configs.len(), 3);
    let back = KeyBindings::try_from(&keymaps).unwrap();
    assert_eq!(back.len(), 3);
    assert_eq!(
        back.get(KeyCode::Char('q'), KeyModifiers::none()),
        Some(KeyStatus::Quit)
    );
    assert_eq!(
        back.get(KeyCode::F(5), KeyModifiers::alt()),
        Some(KeyStatus::NextTrack)
    );
    assert_eq!(
        back.get(KeyCode::Char('é'), KeyModifiers::control()),
        Some(KeyStatus::TogglePlay)
    );
}

#[test]
fn default_path_follows_the_environment() {
    assert_eq!(
        default_config_path(Some("/xdg".to_string()), Some("/home/u".to_string())),
        "/xdg/lazymusic/config.toml"
    );
    assert_eq!(
        default_config_path(None, Some("/home/u".to_string())),
        "/home/u/.config/lazymusic/config.toml"
    );
    assert_eq!(default_config_path(None, None), "./lazymusic/config.toml");
    assert_eq!(
        default_config_path(Some("/xdg/".to_string()), None),
        "/xdg/lazymusic/config.toml"
    );
}

#[test]
fn leading_tilde_becomes_the_home_directory() {
    assert_eq!(
        expand_user_path("~/music/config.toml", Some("/home/u".to_string())),
        "/home/u/music/config.toml"
    );
    assert_eq!(expand_user_path("~", Some("/home/u".to_string())), "/home/u/");
    assert_eq!(
        expand_user_path("~/music/config.toml", None),
        "~/music/config.toml"
    );
    assert_eq!(
        expand_user_path("/etc/config.toml", Some("/home/u".to_string())),
        "/etc/config.toml"
    );
    // A name that only begins with the sign is no path under the home directory.
    assert_eq!(
        expand_user_path("~other/config.toml", Some("/home/u".to_string())),
        "~other/config.toml"
    );
}

#[test]
fn home_and_rest_need_both() {
    assert_eq!(
        home_and_rest(Some("a/b".to_string()), Some("/home/u".to_string())),
        Some(("/home/u".to_string(), "a/b".to_string()))
    );
    assert_eq!(home_and_rest(None, Some("/home/u".to_string())), None);
    assert_eq!(home_and_rest(Some("a/b".to_string()), None), None);
    assert_eq!(home_and_rest(None, None), None);
}
