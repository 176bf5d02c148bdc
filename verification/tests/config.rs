use bang::application::Application;
use bang::command::CommandBuilder;
use bang::config::{Config, ConfigError, ConfigFile};

fn file() -> ConfigFile {
    ConfigFile {
        commands: vec![
            CommandBuilder::new("ping -i 0.1 localhost".to_string(), None, None),
            CommandBuilder::new(
                "ls".to_string(),
                Some("list config dir".to_string()),
                Some("~/.config/".to_string()),
            ),
        ],
    }
}

#[test]
fn default_location_is_under_home() {
    assert_eq!(Config::default_location("/home/u"), "/home/u/./.config/bang/bang.toml");
    assert_eq!(Config::default_location("/"), "/./.config/bang/bang.toml");
}

#[test]
fn explicit_location_wins() {
    assert_eq!(
        Config::location_with_home(Some("my.toml".to_string()), Some("/home/u")),
        Some("my.toml".to_string())
    );
    assert_eq!(
        Config::location_with_home(Some("my.toml".to_string()), None),
        Some("my.toml".to_string())
    );
    assert_eq!(Config::location(Some("my.toml".to_string())).unwrap(), "my.toml");
}

#[test]
fn default_location_needs_home() {
    assert_eq!(
        Config::location_with_home(None, Some("/home/u")),
        Some("/home/u/./.config/bang/bang.toml".to_string())
    );
    assert_eq!(Config::location_with_home(None, None), None);
}

#[test]
fn location_looks_up_home() {
    let home = dirs::home_dir().map(|h| h.to_str().unwrap().to_string());
    match (Config::location(None), home) {
        (Ok(l), Some(h)) => {
            let expected = std::path::Path::new(&h).join("./.config/bang/bang.toml");
            assert_eq!(l, expected.to_str().unwrap());
        }
        (Err(ConfigError::NoHomeDirectory), None) => {}
        (other, h) => panic!("unexpected {:?} with home {:?}", other, h),
    }
}

#[test]
fn missing_file_is_not_found() {
    let r = Config::create_or_get_config("/nope/bang.toml".to_string(), None, Err("x".to_string()));
    match r {
        Err(e) => assert_eq!(e.message(), "config not found at /nope/bang.toml"),
        Ok(_) => panic!("expected an error"),
    }
}

#[test]
fn parse_error_comes_before_canonical_path() {
    let r = Config::create_or_get_config(
        "bang.toml".to_string(),
        Some(Err("expected `=`".to_string())),
        Err("no such file".to_string()),
    );
    match r {
        Err(ConfigError::Parse(m)) => assert_eq!(m, "expected `=`"),
        other => panic!("unexpected {:?}", other),
    }
}

#[test]
fn canonical_path_error_is_io() {
    let r = Config::create_or_get_config(
        "bang.toml".to_string(),
        Some(Ok(file())),
        Err("permission denied".to_string()),
    );
    match r {
        Err(e @ ConfigError::Io(_)) => assert_eq!(e.message(), "permission denied"),
        other => panic!("unexpected {:?}", other),
    }
}

#[test]
fn directory_is_the_parent_of_the_canonical_path() {
    let r = Config::create_or_get_config(
        "bang.toml".to_string(),
        Some(Ok(file())),
        Ok("/home/u/.config/bang/bang.toml".to_string()),
    )
    .unwrap();
    assert_eq!(r.directory, "/home/u/.config/bang");
    assert_eq!(r.config.commands.len(), 2);
    assert_eq!(r.config.commands[1].display_name(), "list config dir");
}

#[test]
fn application_keeps_its_config() {
    let cfg = Config::create_or_get_config(
        "bang.toml".to_string(),
        Some(Ok(file())),
        Ok("/etc/bang.toml".to_string()),
    )
    .unwrap();
    let app = Application::new(cfg);
    assert_eq!(app.config.directory, "/etc");
    assert_eq!(app.config.config.commands[0].command, "ping -i 0.1 localhost");
}

#[test]
fn error_messages() {
    assert_eq!(ConfigError::NoHomeDirectory.message(), "home directory not found");
    assert_eq!(ConfigError::Parse("bad".to_string()).message(), "bad");
}
