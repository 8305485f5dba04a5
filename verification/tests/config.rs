use ini::Ini;
use server_switcher::config::read_session;
use server_switcher::config::LiveConfig;
use server_switcher::error::SwitchError;
use server_switcher::session::Session;

/// The text with the line endings of any system written as `\n`.
fn unix(text: Option<String>) -> Option<String> {
    text.map(|text| text.replace("\r\n", "\n"))
}

const CLIENT_CONFIG: &str = "# osu! configuration\nVolume = 80\nCredentialEndpoint = foo.example\nUsername = bob\nPassword = p2\nFullscreen = 1\n";

#[test]
fn read_session_of_missing_config_fails() {
    assert!(matches!(read_session(None), Err(SwitchError::MissingConfig)));
}

#[test]
fn read_session_finds_the_three_keys() {
    let session = read_session(Some(CLIENT_CONFIG)).expect("all three keys are there");
    assert_eq!(session.server_endpoint, "foo.example");
    assert_eq!(session.username, "bob");
    assert_eq!(session.password, "p2");
    assert!(!session.is_home());
}

#[test]
fn read_session_takes_empty_endpoint_as_home() {
    let session = read_session(Some("CredentialEndpoint = \nUsername = alice\nPassword = p1\n"))
        .expect("an empty endpoint is no error");
    assert_eq!(session.server_endpoint, "");
    assert_eq!(session.username, "alice");
    assert_eq!(session.password, "p1");
    assert!(session.is_home());
}

#[test]
fn read_session_without_endpoint_is_malformed() {
    assert!(matches!(
        read_session(Some("Username = alice\nPassword = p1\n")),
        Err(SwitchError::MalformedConfig)
    ));
}

#[test]
fn read_session_without_username_is_malformed() {
    assert!(matches!(
        read_session(Some("CredentialEndpoint = \nPassword = p1\n")),
        Err(SwitchError::MalformedConfig)
    ));
}

#[test]
fn read_session_without_password_is_malformed() {
    assert!(matches!(
        read_session(Some("CredentialEndpoint = \nUsername = alice\n")),
        Err(SwitchError::MalformedConfig)
    ));
}

#[test]
fn read_session_of_empty_text_is_malformed() {
    assert!(matches!(read_session(Some("")), Err(SwitchError::MalformedConfig)));
}

#[test]
fn read_session_of_unreadable_text_is_malformed() {
    assert!(matches!(read_session(Some("[broken")), Err(SwitchError::MalformedConfig)));
}

#[test]
fn read_session_does_not_look_into_named_sections() {
    assert!(matches!(
        read_session(Some("[Account]\nCredentialEndpoint = \nUsername = alice\nPassword = p1\n")),
        Err(SwitchError::MalformedConfig)
    ));
}

#[test]
fn read_session_skips_a_byte_order_mark() {
    let session =
        read_session(Some("\u{feff}CredentialEndpoint = \nUsername = alice\nPassword = p1\n"))
            .expect("the mark is no part of the first key");
    assert_eq!(session.username, "alice");
}

#[test]
fn keys_are_matched_letter_for_letter() {
    assert!(matches!(
        read_session(Some("credentialendpoint = \nusername = alice\npassword = p1\n")),
        Err(SwitchError::MalformedConfig)
    ));
}

#[test]
fn new_config_has_no_session() {
    let config = LiveConfig::new();
    assert!(matches!(config.read_session(), Err(SwitchError::MalformedConfig)));
    assert_eq!(unix(config.to_text()).as_deref(), Some(""));
}

#[test]
fn write_session_into_empty_config_gives_the_three_keys() {
    let mut config = LiveConfig::new();
    config.write_session(&Session::new("foo.example", "bob", "p2"));
    assert_eq!(
        unix(config.to_text()).as_deref(),
        Some("CredentialEndpoint=foo.example\nUsername=bob\nPassword=p2\n")
    );
}

#[test]
fn write_session_then_read_session_gives_it_back() {
    let mut config = LiveConfig::parse(CLIENT_CONFIG).expect("well formed");
    config.write_session(&Session::new("bar.example", "carol", "p3"));
    let session = config.read_session().expect("the session was written");
    assert_eq!(session.server_endpoint, "bar.example");
    assert_eq!(session.username, "carol");
    assert_eq!(session.password, "p3");
}

#[test]
fn write_session_keeps_every_other_key() {
    let text = "Volume = 80\nCredentialEndpoint = foo.example\nUsername = bob\nPassword = p2\nFullscreen = 1\n[Keys]\nLeft = Z\n";
    let mut config = LiveConfig::parse(text).expect("well formed");
    config.write_session(&Session::blank("bar.example"));
    let written = unix(config.to_text()).expect("a configuration in memory can be written");
    assert_eq!(
        written,
        "Volume=80\nFullscreen=1\nCredentialEndpoint=bar.example\nUsername=\nPassword=\n\n[Keys]\nLeft=Z\n"
    );
    let read = Ini::load_from_str(&written).expect("what was written can be read");
    assert_eq!(read.get_from(None::<String>, "Volume"), Some("80"));
    assert_eq!(read.get_from(None::<String>, "Fullscreen"), Some("1"));
    assert_eq!(read.get_from(Some("Keys"), "Left"), Some("Z"));
    assert_eq!(read.get_from(None::<String>, "CredentialEndpoint"), Some("bar.example"));
    assert_eq!(read.get_from(None::<String>, "Username"), Some(""));
    assert_eq!(read.get_from(None::<String>, "Password"), Some(""));
}

#[test]
fn parse_then_to_text_keeps_the_session() {
    let config = LiveConfig::parse(CLIENT_CONFIG).expect("well formed");
    let written = unix(config.to_text()).expect("a configuration in memory can be written");
    let session = read_session(Some(&written)).expect("the session is still there");
    assert_eq!(session.server_endpoint, "foo.example");
    assert_eq!(session.username, "bob");
    assert_eq!(session.password, "p2");
}

#[test]
fn session_constructors() {
    let session = Session::new("foo.example", "bob", "p2");
    assert_eq!(session.server_endpoint, "foo.example");
    assert_eq!(session.username, "bob");
    assert_eq!(session.password, "p2");
    let blank = Session::blank("foo.example");
    assert_eq!(blank.server_endpoint, "foo.example");
    assert_eq!(blank.username, "");
    assert_eq!(blank.password, "");
    assert!(Session::blank("").is_home());
}

#[test]
fn configuration_that_would_not_read_back_is_not_handed_out() {
    let mut config = LiveConfig::new();
    config.write_session(&Session::new("foo.example", "bob", "p2 "));
    assert!(config.read_session().is_ok());
    assert!(config.to_text().is_none());
}

#[test]
fn configuration_with_repeated_keys_and_sections_reads_back() {
    let text = "Username = first\nUsername = second\nCredentialEndpoint = \nPassword = p1\n[Keys]\nLeft = Z\n[Keys]\nLeft = X\n";
    let config = LiveConfig::parse(text).expect("well formed");
    let session = config.read_session().expect("all three keys are there");
    assert_eq!(session.username, "first");
    let written = config.to_text().expect("the format keeps repeated keys");
    let again = read_session(Some(&written)).expect("the session is still there");
    assert_eq!(again.username, "first");
    assert_eq!(again.password, "p1");
}

#[test]
fn confirm_text_keeps_a_text_that_reads_as_the_configuration() {
    let mut config = LiveConfig::new();
    config.write_session(&Session::new("foo.example", "bob", "p2"));
    let own = config.to_text().expect("the format keeps these values");
    assert_eq!(config.confirm_text(Some(own.clone())), Some(own));
    let reordered =
        "# by hand\nPassword = p2\nUsername = bob\nCredentialEndpoint = foo.example\n".to_string();
    assert_eq!(config.confirm_text(Some(reordered.clone())), Some(reordered));
}

#[test]
fn confirm_text_drops_a_text_that_reads_otherwise() {
    let mut config = LiveConfig::new();
    config.write_session(&Session::new("foo.example", "bob", "p2"));
    assert_eq!(config.confirm_text(None), None);
    let other_value = "CredentialEndpoint=foo.example\nUsername=bob\nPassword=p3\n".to_string();
    assert_eq!(config.confirm_text(Some(other_value)), None);
    let missing_key = "CredentialEndpoint=foo.example\nUsername=bob\n".to_string();
    assert_eq!(config.confirm_text(Some(missing_key)), None);
    let extra_key =
        "CredentialEndpoint=foo.example\nUsername=bob\nPassword=p2\nVolume=80\n".to_string();
    assert_eq!(config.confirm_text(Some(extra_key)), None);
    let other_section =
        "[Account]\nCredentialEndpoint=foo.example\nUsername=bob\nPassword=p2\n".to_string();
    assert_eq!(config.confirm_text(Some(other_section)), None);
    assert_eq!(config.confirm_text(Some("[broken".to_string())), None);
    assert_eq!(config.confirm_text(Some(String::new())), None);
}

#[test]
fn to_text_gives_the_writers_text_with_fixed_line_endings() {
    let mut config = LiveConfig::new();
    config.write_session(&Session::new("foo.example", "bob", "p2"));
    assert_eq!(
        config.to_text().as_deref(),
        Some("CredentialEndpoint=foo.example\r\nUsername=bob\r\nPassword=p2\r\n")
    );
}
