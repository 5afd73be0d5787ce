use std::path::PathBuf;

use appconfig::{
    config_dir_name, config_file_name, locate, locate_in, AppConfigManager, ConfigError,
    CONFIG_FILE_NAME,
};

#[derive(Debug, Clone, PartialEq)]
struct MyAppConfig {
    window_pos: (u32, u32),
}

impl Default for MyAppConfig {
    fn default() -> Self {
        Self {
            window_pos: (320, 280),
        }
    }
}

fn encode(config: &MyAppConfig) -> Result<String, ConfigError> {
    let mut pos = toml::value::Array::new();
    pos.push(toml::Value::Integer(config.window_pos.0 as i64));
    pos.push(toml::Value::Integer(config.window_pos.1 as i64));
    let mut table = toml::Table::new();
    table.insert("window_pos".to_string(), toml::Value::Array(pos));
    toml::to_string(&table).map_err(|_| ConfigError::Serialization)
}

fn decode(text: &str) -> Result<MyAppConfig, ConfigError> {
    let table: toml::Table = toml::from_str(text).map_err(|_| ConfigError::Deserialization)?;
    let pos = table
        .get("window_pos")
        .and_then(|v| v.as_array())
        .ok_or(ConfigError::Deserialization)?;
    if pos.len() != 2 {
        return Err(ConfigError::Deserialization);
    }
    let coord = |v: &toml::Value| {
        v.as_integer()
            .and_then(|i| u32::try_from(i).ok())
            .ok_or(ConfigError::Deserialization)
    };
    Ok(MyAppConfig {
        window_pos: (coord(&pos[0])?, coord(&pos[1])?),
    })
}

/// Stands in for the file: `None` when there is none.
fn read(file: &Option<String>) -> Result<MyAppConfig, ConfigError> {
    match file {
        None => Err(ConfigError::Read),
        Some(text) => decode(text),
    }
}

fn save(manager: &AppConfigManager<MyAppConfig>, file: &mut Option<String>) {
    *file = Some(encode(manager.data()).unwrap());
}

fn load(
    manager: &mut AppConfigManager<MyAppConfig>,
    file: &Option<String>,
) -> Result<(), ConfigError> {
    manager.apply_load(read(file), MyAppConfig::default())
}

#[test]
fn it_works() {
    let mut file = None;
    let mut manager = AppConfigManager::new(MyAppConfig::default(), "appconfig", "sumibi-yakitori");
    save(&manager, &mut file);
    load(&mut manager, &file).unwrap();
    assert_eq!(*manager.data(), MyAppConfig::default());
}

#[test]
fn window_pos_scenario() {
    let mut file = None;
    let mut manager = AppConfigManager::new(MyAppConfig::default(), "myapp", "sumibi-yakitori");
    load(&mut manager, &file).unwrap();
    assert_eq!(manager.data().window_pos, (320, 280));
    manager.data_mut().window_pos = (640, 480);
    save(&manager, &mut file);

    let mut fresh = AppConfigManager::new(MyAppConfig::default(), "myapp", "sumibi-yakitori");
    load(&mut fresh, &file).unwrap();
    assert_eq!(fresh.data().window_pos, (640, 480));
}

#[test]
fn round_trip_keeps_value() {
    let mut file = None;
    let mut manager = AppConfigManager::new(MyAppConfig { window_pos: (7, 0) }, "a", "b");
    save(&manager, &mut file);
    manager.data_mut().window_pos = (1, 1);
    load(&mut manager, &file).unwrap();
    assert_eq!(manager.data().window_pos, (7, 0));
    manager.set_skip_parsing_error_when_loading(false);
    manager.data_mut().window_pos = (2, 2);
    load(&mut manager, &file).unwrap();
    assert_eq!(manager.data().window_pos, (7, 0));
}

#[test]
fn missing_file_gives_default() {
    let mut manager = AppConfigManager::new(MyAppConfig { window_pos: (1, 2) }, "a", "b");
    assert_eq!(load(&mut manager, &None), Ok(()));
    assert_eq!(*manager.data(), MyAppConfig::default());
}

#[test]
fn missing_file_fails_without_recovery() {
    let mut manager = AppConfigManager::new(MyAppConfig { window_pos: (1, 2) }, "a", "b")
        .with_skip_parsing_error_when_loading(false);
    assert_eq!(load(&mut manager, &None), Err(ConfigError::Read));
    assert_eq!(manager.data().window_pos, (1, 2));
}

#[test]
fn malformed_file_gives_default() {
    let file = Some("window_pos = [".to_string());
    let mut manager = AppConfigManager::new(MyAppConfig { window_pos: (1, 2) }, "a", "b");
    assert_eq!(load(&mut manager, &file), Ok(()));
    assert_eq!(*manager.data(), MyAppConfig::default());
}

#[test]
fn malformed_file_fails_without_recovery() {
    let file = Some("window_pos = \"left\"".to_string());
    let mut manager = AppConfigManager::new(MyAppConfig { window_pos: (1, 2) }, "a", "b");
    manager.set_skip_parsing_error_when_loading(false);
    assert_eq!(load(&mut manager, &file), Err(ConfigError::Deserialization));
    assert_eq!(manager.data().window_pos, (1, 2));
}

#[test]
fn other_failures_are_not_absorbed() {
    let mut manager = AppConfigManager::new(MyAppConfig { window_pos: (1, 2) }, "a", "b");
    for e in [
        ConfigError::PathResolution,
        ConfigError::CreateDir,
        ConfigError::Write,
        ConfigError::Serialization,
    ] {
        assert_eq!(manager.apply_load(Err(e), MyAppConfig::default()), Err(e));
        assert_eq!(manager.data().window_pos, (1, 2));
    }
}

#[test]
fn recoverable_errors() {
    assert!(ConfigError::Read.is_recoverable());
    assert!(ConfigError::Deserialization.is_recoverable());
    assert!(!ConfigError::PathResolution.is_recoverable());
    assert!(!ConfigError::CreateDir.is_recoverable());
    assert!(!ConfigError::Write.is_recoverable());
    assert!(!ConfigError::Serialization.is_recoverable());
}

#[test]
fn second_save_replaces_first() {
    let mut file = None;
    let mut manager = AppConfigManager::new(MyAppConfig { window_pos: (1, 2) }, "a", "b");
    save(&manager, &mut file);
    manager.data_mut().window_pos = (3, 4);
    save(&manager, &mut file);
    let text = file.clone().unwrap();
    assert!(!text.contains('1'));
    manager.data_mut().window_pos = (0, 0);
    load(&mut manager, &file).unwrap();
    assert_eq!(manager.data().window_pos, (3, 4));
}

#[test]
fn release_saves_by_default() {
    let mut manager = AppConfigManager::new(MyAppConfig::default(), "a", "b");
    assert!(manager.saves_on_release());
    manager.data_mut().window_pos = (5, 6);
    assert!(manager.saves_on_release());
    manager.set_auto_saving(false);
    assert!(!manager.saves_on_release());
    let manager = manager.with_auto_saving(true);
    assert!(manager.saves_on_release());
}

#[test]
fn dir_name_from_names() {
    assert_eq!(config_dir_name("sumibi-yakitori", "myapp"), "com.sumibi-yakitori.myapp");
    assert_eq!(config_dir_name("", ""), "com..");
    assert_eq!(config_file_name(), "app_config.toml");
    assert_eq!(CONFIG_FILE_NAME, "app_config.toml");
}

#[test]
fn locate_without_root_fails() {
    assert_eq!(
        locate_in(None, "sumibi-yakitori", "myapp").err(),
        Some(ConfigError::PathResolution)
    );
}

#[test]
fn locate_under_root() {
    let location = locate_in(Some(PathBuf::from("/home/alice/.config")), "org", "app").unwrap();
    assert_eq!(location.root, PathBuf::from("/home/alice/.config"));
    assert_eq!(location.dir_name, "com.org.app");
    assert_eq!(location.file_name, "app_config.toml");
}

#[test]
fn locate_on_this_machine() {
    match locate("org", "app") {
        Ok(location) => {
            assert_eq!(location.dir_name, "com.org.app");
            assert_eq!(location.file_name, "app_config.toml");
        }
        Err(e) => assert_eq!(e, ConfigError::PathResolution),
    }
}

#[test]
fn manager_location_follows_names() {
    let manager = AppConfigManager::new(0u8, "first", "org")
        .with_app_name("second")
        .with_organization_name("other");
    if let Ok(location) = manager.location() {
        assert_eq!(location.dir_name, "com.other.second");
    }
    let mut manager = manager;
    manager.set_app_name("x").set_organization_name("y");
    if let Ok(location) = manager.location() {
        assert_eq!(location.dir_name, "com.y.x");
    }
}
