use multibot::config::Config;
use multibot::messages::{CentralMessage, Received, ServerMessage};
use multibot::server::{
    handle_command, should_stop, AppState, Bail, Caller, KeyHeader, ServerError,
};

fn caller(port: u16) -> Caller {
    Caller::V4 { ip: 0x7f000001, port }
}

fn key(text: &str) -> KeyHeader {
    KeyHeader::Present(text.to_string())
}

#[test]
fn right_key_reaches_the_dispatcher() {
    let mut state = AppState::new("secret");
    let config = Config::new();
    let answer = handle_command(&mut state, caller(1), key("secret"), "bot? ping", &config);
    assert_eq!(answer.ok(), Some("pong".to_string()));
    let again = handle_command(&mut state, caller(1), key("secret"), "bot? whoami", &config);
    assert_eq!(again.ok(), Some(multibot::cli::show_help()));
    let silent =
        handle_command(&mut state, caller(1), key("secret"), "bot? admin reload-config", &config);
    assert_eq!(silent.ok(), Some("No output!".to_string()));
    let bare = handle_command(&mut state, caller(1), key("secret"), "ping", &config);
    assert_eq!(bare.ok(), Some("pong".to_string()));
    let wrong = handle_command(&mut state, caller(1), key("secret"), "nonsense", &config);
    assert_eq!(wrong.ok(), Some(multibot::cli::show_help_with(&config)));
}

#[test]
fn missing_key_confuses_then_rebuffs_then_ignores() {
    let mut state = AppState::new("secret");
    let config = Config::new();
    let first = handle_command(&mut state, caller(2), KeyHeader::Missing, "bot? ping", &config);
    assert!(matches!(first, Err(ServerError::NoKey)));
    let second = handle_command(&mut state, caller(2), key("secret"), "bot? ping", &config);
    assert_eq!(second.ok(), Some("Fuck you".to_string()));
    for _ in 0..3 {
        let later = handle_command(&mut state, caller(2), key("secret"), "bot? ping", &config);
        assert!(matches!(later, Err(ServerError::Ignored)));
    }
    let other = handle_command(&mut state, caller(3), key("secret"), "bot? ping", &config);
    assert_eq!(other.ok(), Some("pong".to_string()));
}

#[test]
fn wrong_key_is_held_against_the_caller() {
    let mut state = AppState::new("secret");
    let config = Config::new();
    let first = handle_command(&mut state, caller(4), key("guess"), "bot? ping", &config);
    assert!(matches!(first, Err(ServerError::InvalidKey)));
    let second = handle_command(&mut state, caller(4), KeyHeader::Missing, "bot? ping", &config);
    assert_eq!(second.ok(), Some("Fuck you".to_string()));
    let third = handle_command(&mut state, caller(4), key("secret"), "bot? ping", &config);
    assert!(matches!(third, Err(ServerError::Ignored)));
}

#[test]
fn unreadable_key_is_an_error_that_is_not_held() {
    let mut state = AppState::new("secret");
    let config = Config::new();
    let first = handle_command(&mut state, caller(5), KeyHeader::Unreadable, "bot? ping", &config);
    assert!(matches!(first, Err(ServerError::UnreadableKey)));
    let second = handle_command(&mut state, caller(5), key("secret"), "bot? ping", &config);
    assert_eq!(second.ok(), Some("pong".to_string()));
}

#[test]
fn callers_are_told_apart_by_every_part_of_the_address() {
    let mut state = AppState::new("secret");
    let v6 = Caller::V6 { ip: 1, port: 80, flowinfo: 0, scope_id: 0 };
    let scoped = Caller::V6 { ip: 1, port: 80, flowinfo: 0, scope_id: 2 };
    state.add_bad_actor(v6);
    state.add_bad_actor(v6);
    state.add_confused_actor(caller(80));
    assert!(matches!(state.should_bail(&scoped), Bail::No));
    assert!(matches!(state.should_bail(&caller(81)), Bail::No));
    assert!(matches!(state.should_bail(&v6), Bail::YesWithResponse));
    assert!(matches!(state.should_bail(&v6), Bail::YesIgnore));
    assert!(matches!(state.should_bail(&caller(80)), Bail::YesWithResponse));
    assert!(matches!(state.should_bail(&caller(80)), Bail::YesIgnore));
    assert!(state.accepts(&"secret".to_string()));
    assert!(!state.accepts(&"Secret".to_string()));
}

#[test]
fn errors_have_words() {
    assert_eq!(ServerError::NoKey.message(), "No api key found, bailing out");
    assert_eq!(ServerError::InvalidKey.message(), "Invalid api key detected");
    assert_eq!(ServerError::UnreadableKey.message(), "failed to convert header to a str");
    assert_eq!(ServerError::Ignored.message(), "Bailing out");
}

#[test]
fn entry_point_stops_on_shutdown_and_not_on_lag() {
    assert!(should_stop(Received::Message(CentralMessage::Shutdown)));
    assert!(should_stop(Received::Closed));
    assert!(!should_stop(Received::Lagged(7)));
    assert!(!should_stop(Received::Empty));
    assert!(!should_stop(Received::Message(CentralMessage::ConfigUpdated)));
    assert!(!should_stop(Received::Message(CentralMessage::Server(ServerMessage::Ready))));
}
