use multibot::config::Config;
use multibot::messages::{CentralMessage, DiscordMessage, Received, ServerMessage, TwitchMessage};
use multibot::supervisor::{Adapter, ConfigStore, Step, Supervisor, RESTART_BACKOFF_MILLIS};

fn changed() -> Config {
    let mut config = Config::new();
    config.check_live_ticks = 5;
    config.ad_hoc.insert("mycommand".to_string(), "hello".to_string());
    config
}

#[test]
fn store_keeps_the_last_valid_settings() {
    let mut store = ConfigStore::new();
    assert_eq!(store.read().check_live_ticks, 240);
    assert_eq!(store.current_version(), 0);
    assert!(!store.reload(None));
    assert_eq!(store.read().check_live_ticks, 240);
    assert_eq!(store.current_version(), 0);
    assert!(store.reload(Some(changed())));
    assert_eq!(store.current_version(), 1);
    assert_eq!(store.read().check_live_ticks, 5);
    assert_eq!(store.read().ad_hoc_command(&"mycommand".to_string()), Some("hello".to_string()));
    assert!(!store.reload(None));
    assert_eq!(store.read().check_live_ticks, 5);
    assert!(store.reload(Some(Config::new())));
    assert_eq!(store.read().check_live_ticks, 240);
    assert_eq!(store.read().ad_hoc.len(), 0);
}

#[test]
fn malformed_document_changes_nothing() {
    let mut supervisor = Supervisor::new();
    supervisor.on_config_document(Ok(changed()));
    match supervisor.on_config_document(Err("expected an equals".to_string())) {
        Step::Log { error: true, text } => assert_eq!(text, "expected an equals"),
        other => panic!("unexpected step: {:?}", other),
    }
    assert_eq!(supervisor.config().check_live_ticks, 5);
}

#[test]
fn valid_document_replaces_the_settings_and_is_announced() {
    let mut supervisor = Supervisor::new();
    assert_eq!(supervisor.config().check_live_ticks, 240);
    assert!(matches!(
        supervisor.on_config_document(Ok(changed())),
        Step::Broadcast(CentralMessage::ConfigUpdated)
    ));
    assert_eq!(supervisor.config().check_live_ticks, 5);
    assert!(matches!(
        supervisor.on_discord(Received::Message(DiscordMessage::ConfigUpdated(Config::new()))),
        Step::Broadcast(CentralMessage::ConfigUpdated)
    ));
    assert_eq!(supervisor.config().check_live_ticks, 240);
}

#[test]
fn dependents_start_once_discord_is_ready() {
    let mut supervisor = Supervisor::new();
    assert!(matches!(supervisor.on_discord(Received::Empty), Step::Idle));
    assert!(matches!(
        supervisor.on_discord(Received::Message(DiscordMessage::Ready)),
        Step::StartDependents
    ));
    assert!(matches!(supervisor.on_discord(Received::Message(DiscordMessage::Ready)), Step::Idle));
}

#[test]
fn adapter_reports_are_logged() {
    let mut supervisor = Supervisor::new();
    match supervisor.on_discord(Received::Message(DiscordMessage::Debug("d".to_string()))) {
        Step::Log { error: false, text } => assert_eq!(text, "d"),
        other => panic!("unexpected step: {:?}", other),
    }
    match supervisor.on_twitch(Received::Message(TwitchMessage::Error("e".to_string()))) {
        Step::Log { error: true, text } => assert_eq!(text, "e"),
        other => panic!("unexpected step: {:?}", other),
    }
    match supervisor.on_server(Received::Message(ServerMessage::Debug("s".to_string()))) {
        Step::Log { error: false, text } => assert_eq!(text, "s"),
        other => panic!("unexpected step: {:?}", other),
    }
    match supervisor.on_discord(Received::Lagged(12)) {
        Step::Log { error: true, text } => {
            assert_eq!(text, "Discord receiver lagged by 12 messages")
        }
        other => panic!("unexpected step: {:?}", other),
    }
    match supervisor.on_twitch(Received::Lagged(0)) {
        Step::Log { error: true, text } => assert_eq!(text, "Twitch receiver lagged by 0 messages"),
        other => panic!("unexpected step: {:?}", other),
    }
    match supervisor.on_server(Received::Lagged(3)) {
        Step::Log { error: true, text } => assert_eq!(text, "Server receiver lagged by 3 messages"),
        other => panic!("unexpected step: {:?}", other),
    }
    assert!(matches!(supervisor.on_twitch(Received::Message(TwitchMessage::Ready)), Step::Idle));
    assert!(matches!(supervisor.on_server(Received::Message(ServerMessage::Ready)), Step::Idle));
    assert!(matches!(supervisor.on_twitch(Received::Empty), Step::Idle));
    assert!(matches!(supervisor.on_server(Received::Empty), Step::Idle));
}

#[test]
fn live_channel_is_forwarded_to_every_adapter() {
    let mut supervisor = Supervisor::new();
    let live = TwitchMessage::ChannelLive {
        channel: "youwin".to_string(),
        title: "bots".to_string(),
        url: "https://twitch.tv/youwin".to_string(),
    };
    match supervisor.on_twitch(Received::Message(live)) {
        Step::Broadcast(CentralMessage::Twitch(TwitchMessage::ChannelLive {
            channel,
            title,
            url,
        })) => {
            assert_eq!(channel, "youwin");
            assert_eq!(title, "bots");
            assert_eq!(url, "https://twitch.tv/youwin");
        }
        other => panic!("unexpected step: {:?}", other),
    }
}

#[test]
fn expired_token_restarts_twitch() {
    let mut supervisor = Supervisor::new();
    assert!(matches!(
        supervisor.on_twitch(Received::Message(TwitchMessage::TokenExpired)),
        Step::RestartAfter { adapter: Adapter::Twitch, millis: 5000 }
    ));
    assert!(matches!(
        supervisor.on_exit(Adapter::Server),
        Step::RestartAfter { adapter: Adapter::Server, millis: 5000 }
    ));
    match supervisor.on_exit(Adapter::Twitch) {
        Step::RestartAfter { adapter: Adapter::Twitch, millis } => {
            assert_eq!(millis, RESTART_BACKOFF_MILLIS);
            assert_eq!(millis, 5000);
        }
        other => panic!("unexpected step: {:?}", other),
    }
}

#[test]
fn interrupt_shuts_down_once_and_for_all() {
    let mut supervisor = Supervisor::new();
    supervisor.on_config_document(Ok(changed()));
    assert!(!supervisor.is_stopping());
    assert!(matches!(supervisor.on_interrupt(), Step::Shutdown));
    assert!(supervisor.is_stopping());
    assert!(matches!(supervisor.on_interrupt(), Step::Idle));
    assert!(matches!(supervisor.on_discord(Received::Message(DiscordMessage::Ready)), Step::Idle));
    assert!(matches!(
        supervisor.on_discord(Received::Message(DiscordMessage::ConfigUpdated(Config::new()))),
        Step::Idle
    ));
    assert!(matches!(supervisor.on_config_document(Ok(Config::new())), Step::Idle));
    assert_eq!(supervisor.config().check_live_ticks, 5);
    assert!(matches!(
        supervisor.on_twitch(Received::Message(TwitchMessage::TokenExpired)),
        Step::Idle
    ));
    assert!(matches!(supervisor.on_server(Received::Closed), Step::Idle));
    assert!(matches!(supervisor.on_exit(Adapter::Twitch), Step::Idle));
    assert!(supervisor.is_stopping());
}

#[test]
fn closed_channel_shuts_down() {
    let mut by_discord = Supervisor::new();
    assert!(matches!(by_discord.on_discord(Received::Closed), Step::Shutdown));
    assert!(by_discord.is_stopping());
    let mut by_twitch = Supervisor::new();
    assert!(matches!(by_twitch.on_twitch(Received::Closed), Step::Shutdown));
    assert!(by_twitch.is_stopping());
    let mut by_server = Supervisor::new();
    assert!(matches!(by_server.on_server(Received::Closed), Step::Shutdown));
    assert!(by_server.is_stopping());
}
