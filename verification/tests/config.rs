use plextvapi::config::config_file_in;
use plextvapi::config::get_config_file;
use plextvapi::config::ConfigError;
use plextvapi::config::CONFIG_FILE_NAME;
use plextvapi::config::TOKEN_KEY;
use plextvapi::config::TOKEN_SECTION;

#[test]
fn the_token_is_kept_under_plextv_token() {
    assert_eq!(TOKEN_SECTION, "plextv");
    assert_eq!(TOKEN_KEY, "token");
    assert_eq!(CONFIG_FILE_NAME, "mapleconfig.ini");
}

#[test]
fn the_config_file_lies_in_the_directory_given() {
    let path = config_file_in(Some(String::from("/home/alice/.config/maple")));
    assert_eq!(path.unwrap(), "/home/alice/.config/maple/mapleconfig.ini");
    assert_eq!(config_file_in(Some(String::new())).unwrap(), "/mapleconfig.ini");
    assert_eq!(config_file_in(Some(String::from("/"))).unwrap(), "//mapleconfig.ini");
}

#[test]
fn without_a_directory_there_is_no_valid_home() {
    assert!(matches!(config_file_in(None), Err(ConfigError::NoValidHome)));
}

#[test]
fn get_config_file_names_the_settings_file_or_no_valid_home() {
    match get_config_file() {
        Ok(path) => {
            assert!(path.ends_with("/mapleconfig.ini"));
            assert!(path.len() > "/mapleconfig.ini".len());
        },
        Err(e) => assert!(matches!(e, ConfigError::NoValidHome)),
    }
}

#[test]
fn config_error_messages_quote_the_cause() {
    let e = ConfigError::CouldNotLoadConfig { ini_error: String::from("line 3: no section") };
    assert_eq!(e.message(), "Could not load config file: \"line 3: no section\"");
    let e = ConfigError::CouldNotWriteConfig { ini_error: String::from("disk \"full\"\n") };
    assert_eq!(e.message(), "Could not write config file: \"disk \\\"full\\\"\\n\"");
    let e = ConfigError::CouldNotLoadConfig { ini_error: String::new() };
    assert_eq!(e.message(), "Could not load config file: \"\"");
    assert_eq!(
        ConfigError::NoValidHome.message(),
        "No valid home location could be determined."
    );
}

#[test]
fn config_errors_hand_out_their_cause() {
    let e = ConfigError::CouldNotLoadConfig { ini_error: String::from("no section") };
    assert_eq!(e.cause(), "no section");
    let e = ConfigError::CouldNotWriteConfig { ini_error: String::from("disk full") };
    assert_eq!(e.cause(), "disk full");
    assert_eq!(ConfigError::NoValidHome.cause(), "");
}

#[test]
fn message_with_puts_the_cause_after_the_fixed_text() {
    let e = ConfigError::CouldNotLoadConfig { ini_error: String::from("ignored") };
    assert_eq!(e.message_with("<cause>"), "Could not load config file: <cause>");
    assert_eq!(e.message_with(""), "Could not load config file: ");
    let e = ConfigError::CouldNotWriteConfig { ini_error: String::from("ignored") };
    assert_eq!(e.message_with("<cause>"), "Could not write config file: <cause>");
    assert_eq!(
        ConfigError::NoValidHome.message_with("<cause>"),
        "No valid home location could be determined."
    );
}
