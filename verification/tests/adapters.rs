use multibot::cli::{show_help_with, CommandOutput};
use multibot::config::Config;
use multibot::creds::{DiscordCreds, TwitchCreds};
use multibot::discord::{
    discord_answer, newest_document, next_page, Candidate, notification_due, notification_or_fallback, render_notification,
    repair, Bot, JobStep, MemberCheck, Repair, RoleCheck, PAGE_MAX, UNKNOWN_MEMBER_CODE,
};
use multibot::messages::{CentralMessage, DiscordMessage, Received, TwitchMessage};
use multibot::twitch::{
    chat_answer, chat_pass, is_token_expired, refresh_report, ApiBot, ApiStep, ChatBot, ChatStatus,
    ChatStep, IrcEvent, LiveQuery, LiveStep,
};

fn bot() -> Bot {
    Bot::new(DiscordCreds::new("token", "1", "2", "3", "4").ok().unwrap())
}

fn twitch_creds() -> TwitchCreds {
    TwitchCreds::new("r", "id", "secret", "bot", "youwin")
}

fn live() -> CentralMessage {
    CentralMessage::Twitch(TwitchMessage::ChannelLive {
        channel: "youwin".to_string(),
        title: "bots".to_string(),
        url: "https://twitch.tv/youwin".to_string(),
    })
}

#[test]
fn own_messages_are_left_alone() {
    let mut bot = bot();
    let config = Config::new();
    for _ in 0..10 {
        let plan = bot.message(&config, 1, "bot".to_string(), 9, "bot? ping");
        assert!(!plan.warn && !plan.delete);
        assert_eq!(plan.reply, None);
    }
}

#[test]
fn commands_are_answered() {
    let mut bot = bot();
    let config = Config::new();
    let plan = bot.message(&config, 7, "ferris".to_string(), 9, "bot? whoami");
    assert!(!plan.warn && !plan.delete);
    assert_eq!(plan.reply, Some("You are ferris!".to_string()));
    let chatter = bot.message(&config, 8, "crab".to_string(), 9, "hello there");
    assert_eq!(chatter.reply, None);
    let wrong = bot.message(&config, 9, "gopher".to_string(), 9, "bot? nonsense");
    assert_eq!(wrong.reply, Some(format!("```{}```", show_help_with(&config))));
    let reload = bot.message(&config, 10, "admin".to_string(), 9, "bot? admin reload-config");
    assert_eq!(reload.reply, None);
}

#[test]
fn spammers_are_warned_then_silenced() {
    let mut bot = bot();
    let config = Config::new();
    let mut plans = Vec::new();
    for _ in 0..7 {
        plans.push(bot.message(&config, 7, "ferris".to_string(), 9, "bot? ping"));
    }
    for plan in &plans {
        assert_eq!(plan.reply, Some("pong".to_string()));
    }
    for plan in &plans[0..4] {
        assert!(!plan.warn && !plan.delete);
    }
    assert!(plans[4].warn && plans[4].delete);
    assert!(!plans[5].warn && plans[5].delete);
    assert!(!plans[6].warn && plans[6].delete);
}

#[test]
fn discord_wraps_errors_in_a_fence() {
    let error = CommandOutput::Error { message: "usage".to_string(), is_help: true };
    assert_eq!(discord_answer(error), Some("```usage```".to_string()));
    let operator = CommandOutput::AdminCommand {
        value: Some("done".to_string()),
        command: multibot::cli::AdminCommands::Test,
    };
    assert_eq!(discord_answer(operator), None);
}

#[test]
fn job_loop_follows_the_bus() {
    let mut bot = bot();
    assert!(bot.ready());
    assert!(!bot.ready());
    assert!(matches!(bot.on_central(Received::Empty), JobStep::Continue));
    assert!(matches!(bot.on_central(Received::Lagged(3)), JobStep::Continue));
    assert!(matches!(
        bot.on_central(Received::Message(CentralMessage::Discord(DiscordMessage::Ready))),
        JobStep::Continue
    ));
    assert!(matches!(
        bot.on_central(Received::Message(CentralMessage::ConfigUpdated)),
        JobStep::RefreshRoles
    ));
    match bot.on_central(Received::Message(live())) {
        JobStep::Notify { channel, title, url } => {
            assert_eq!(channel, "youwin");
            assert_eq!(title, "bots");
            assert_eq!(url, "https://twitch.tv/youwin");
        }
        other => panic!("unexpected step: {:?}", other),
    }
}

#[test]
fn nothing_is_processed_after_shutdown() {
    let mut bot = bot();
    let config = Config::new();
    assert!(matches!(bot.on_central(Received::Message(CentralMessage::Shutdown)), JobStep::Stop));
    assert!(matches!(bot.on_central(Received::Message(live())), JobStep::Stop));
    assert!(matches!(bot.on_central(Received::Empty), JobStep::Stop));
    let plan = bot.message(&config, 7, "ferris".to_string(), 9, "bot? ping");
    assert!(!plan.warn && !plan.delete);
    assert_eq!(plan.reply, None);
    let mut closed = self::bot();
    assert!(matches!(closed.on_central(Received::Closed), JobStep::Stop));
    assert!(matches!(
        closed.on_central(Received::Message(CentralMessage::ConfigUpdated)),
        JobStep::Stop
    ));
}

#[test]
fn settings_channel_is_watched() {
    let bot = bot();
    assert!(bot.message_update(4));
    assert!(!bot.message_update(5));
}

#[test]
fn roles_are_handed_out_by_emoji() {
    let mut bot = bot();
    let mut config = Config::new();
    config.reaction_roles.insert("artist".to_string(), "🎨".to_string());
    config.reaction_roles.insert("coder".to_string(), "🦀".to_string());
    bot.cache_role(&config, 10, "artist");
    bot.cache_role(&config, 11, "moderator");
    bot.cache_role(&config, 12, "coder");
    assert_eq!(bot.role_for("🎨"), Some(10));
    assert_eq!(bot.role_for("🦀"), Some(12));
    assert_eq!(bot.role_for("moderator"), None);
    bot.cache_role(&config, 13, "artist");
    assert_eq!(bot.role_for("🎨"), Some(13));
    assert_eq!(bot.cached_roles(), vec![("🎨".to_string(), 13), ("🦀".to_string(), 12)]);
}

#[test]
fn notification_waits_for_the_minimum_interval() {
    assert!(!notification_due(None, 0));
    assert!(!notification_due(None, 21600));
    assert!(!notification_due(Some(21599), 21600));
    assert!(notification_due(Some(21600), 21600));
    assert!(notification_due(Some(0), 0));
}

#[test]
fn notification_uses_the_template() {
    assert_eq!(
        render_notification("{channel} went live: {title} <{url}>", "youwin", "bots", "u"),
        "youwin went live: bots <u>"
    );
    assert_eq!(render_notification("plain", "youwin", "bots", "u"), "plain");
    assert_eq!(render_notification("", "youwin", "bots", "u"), "");
}

#[test]
fn broken_template_falls_back() {
    let fallback =
        "youwin is live! bots\nu\n\nERROR occurred: Failed to format message using custom format :<";
    assert_eq!(render_notification("{nothing}", "youwin", "bots", "u"), fallback);
    assert_eq!(render_notification("{channel", "youwin", "bots", "u"), fallback);
    assert_eq!(notification_or_fallback(None, "youwin", "bots", "u"), fallback);
    assert_eq!(notification_or_fallback(Some("x".to_string()), "youwin", "bots", "u"), "x");
}

#[test]
fn pages_follow_until_one_is_short() {
    assert_eq!(PAGE_MAX, 100);
    assert_eq!(next_page(100, Some(77)), Some(77));
    assert_eq!(next_page(150, Some(77)), Some(77));
    assert_eq!(next_page(99, Some(77)), None);
    assert_eq!(next_page(0, None), None);
    assert_eq!(next_page(100, None), None);
}

#[test]
fn reactions_are_repaired() {
    assert_eq!(UNKNOWN_MEMBER_CODE, 10007);
    assert!(matches!(repair(RoleCheck::Has, MemberCheck::Settled), Repair::Nothing));
    assert!(matches!(repair(RoleCheck::Lacks, MemberCheck::Broken), Repair::AddRole));
    assert!(matches!(repair(RoleCheck::Failed, MemberCheck::Settled), Repair::RemoveReaction));
    assert!(matches!(repair(RoleCheck::Failed, MemberCheck::Broken), Repair::RemoveReaction));
    assert!(matches!(
        repair(RoleCheck::Failed, MemberCheck::Refused { code: 10007 }),
        Repair::RemoveReaction
    ));
    assert!(matches!(
        repair(RoleCheck::Failed, MemberCheck::Refused { code: 50013 }),
        Repair::Nothing
    ));
}

#[test]
fn stream_is_checked_every_so_many_ticks() {
    let mut api = ApiBot::new(twitch_creds(), 3);
    let checks: Vec<bool> = (0..7).map(|_| api.tick()).collect();
    assert_eq!(checks, vec![false, false, true, false, false, true, false]);
    let mut eager = ApiBot::new(twitch_creds(), 0);
    assert!(eager.tick() && eager.tick());
    let mut every = ApiBot::new(twitch_creds(), 1);
    assert!(every.tick() && every.tick());
    let mut never = ApiBot::new(twitch_creds(), u64::MAX);
    assert!(!never.tick());
}

#[test]
fn live_stream_is_reported_with_its_address() {
    let api = ApiBot::new(twitch_creds(), 240);
    assert!(matches!(api.check_channel_live(LiveQuery::Offline), LiveStep::Nothing));
    assert!(matches!(api.check_channel_live(LiveQuery::Unauthorized), LiveStep::RefreshToken));
    match api.check_channel_live(LiveQuery::Failed("timeout".to_string())) {
        LiveStep::Fail(reason) => assert_eq!(reason, "timeout"),
        other => panic!("unexpected step: {:?}", other),
    }
    let query = LiveQuery::Live { user_name: "YouWin".to_string(), title: "bots".to_string() };
    match api.check_channel_live(query) {
        LiveStep::Report(TwitchMessage::ChannelLive { channel, title, url }) => {
            assert_eq!(channel, "YouWin");
            assert_eq!(title, "bots");
            assert_eq!(url, "https://twitch.tv/youwin");
        }
        other => panic!("unexpected step: {:?}", other),
    }
}

#[test]
fn token_expiry_is_status_401() {
    assert!(is_token_expired(401));
    assert!(!is_token_expired(400));
    assert!(!is_token_expired(403));
    assert!(!is_token_expired(500));
    assert!(refresh_report(true).is_none());
    match refresh_report(false) {
        Some(TwitchMessage::Error(text)) => assert_eq!(text, "Unable to refresh user token"),
        other => panic!("unexpected report: {:?}", other),
    }
    assert_eq!(chat_pass("abc"), "oauth:abc");
}

#[test]
fn api_loop_follows_the_bus() {
    let mut api = ApiBot::new(twitch_creds(), 240);
    assert!(matches!(api.handle_central_message(Received::Empty), ApiStep::Continue));
    assert!(matches!(api.handle_central_message(Received::Lagged(2)), ApiStep::Continue));
    assert!(matches!(api.handle_central_message(Received::Message(live())), ApiStep::Continue));
    assert!(matches!(
        api.handle_central_message(Received::Message(CentralMessage::ConfigUpdated)),
        ApiStep::Retime
    ));
    assert!(matches!(
        api.handle_central_message(Received::Message(CentralMessage::Shutdown)),
        ApiStep::Stop
    ));
    assert!(matches!(
        api.handle_central_message(Received::Message(CentralMessage::ConfigUpdated)),
        ApiStep::Stop
    ));
    let mut closed = ApiBot::new(twitch_creds(), 240);
    assert!(matches!(closed.handle_central_message(Received::Closed), ApiStep::Stop));
    assert!(matches!(closed.handle_central_message(Received::Empty), ApiStep::Stop));
}

#[test]
fn chat_lines_are_answered() {
    let chat = ChatBot::new(twitch_creds());
    let mut config = Config::new();
    config.ad_hoc.insert("socials".to_string(), "See the panels".to_string());
    let say = |id: &str, text: &str| chat.handle_privmsg(id, text, "crab".to_string(), false, &config);
    assert_eq!(say("m1", "bot? ping"), Some("pong".to_string()));
    assert_eq!(say("m1", "bot? whoami"), Some("You are crab!".to_string()));
    assert_eq!(say("m1", "bot? socials"), Some("See the panels".to_string()));
    assert_eq!(say("m1", "bot? admin reload-config"), Some("No output!".to_string()));
    assert_eq!(say("", "bot? ping"), None);
    assert_eq!(say("m1", "ping"), None);
    assert_eq!(say("m1", " bot? ping"), None);
    assert_eq!(
        say("m1", "bot? nonsense"),
        Some(
            "Ping, Whoami, HighFive, FerrisSay { text: [] }, Roll { sides: \"\" }, AdHoc { text: \"\" }, Rhai { script: [] }, Admin(Admin { command: Test }), socials"
                .to_string()
        )
    );
    let output = CommandOutput::Error { message: "m".to_string(), is_help: false };
    assert!(chat_answer(output, &Config::new()).ends_with("Admin(Admin { command: Test })"));
}

#[test]
fn chat_events_are_handled() {
    let chat = ChatBot::new(twitch_creds());
    let config = Config::new();
    assert!(matches!(
        chat.handle_message(IrcEvent::IrcReady, &config),
        ChatStep::Report(TwitchMessage::Ready)
    ));
    match chat.handle_message(IrcEvent::Ready, &config) {
        ChatStep::Say(line) => assert_eq!(line, "Bot ready!"),
        other => panic!("unexpected step: {:?}", other),
    }
    assert!(matches!(chat.handle_message(IrcEvent::Notice, &config), ChatStep::Nothing));
    assert!(matches!(chat.handle_message(IrcEvent::Other, &config), ChatStep::Nothing));
    match chat.handle_message(IrcEvent::Reconnect, &config) {
        ChatStep::Reconnect(TwitchMessage::Debug(text)) => assert_eq!(text, "Reconnect received"),
        other => panic!("unexpected step: {:?}", other),
    }
    let line = IrcEvent::Privmsg {
        id: "m1".to_string(),
        text: "bot? high-five".to_string(),
        name: "crab".to_string(),
        is_vip: true,
    };
    match chat.handle_message(line, &config) {
        ChatStep::Say(line) => assert_eq!(line, "👏"),
        other => panic!("unexpected step: {:?}", other),
    }
    let quiet = IrcEvent::Privmsg {
        id: "m1".to_string(),
        text: "hello".to_string(),
        name: "crab".to_string(),
        is_vip: true,
    };
    assert!(matches!(chat.handle_message(quiet, &config), ChatStep::Nothing));
}

#[test]
fn chat_ends_when_the_connection_quits() {
    let chat = ChatBot::new(twitch_creds());
    let config = Config::new();
    match chat.handle_chat(ChatStatus::Quit, &config) {
        Err(quit) => assert_eq!(quit.message(), "Quit detected from Twitch chat"),
        Ok(step) => panic!("unexpected step: {:?}", step),
    }
    assert!(matches!(chat.handle_chat(ChatStatus::Idle, &config), Ok(ChatStep::Nothing)));
    assert!(matches!(
        chat.handle_chat(ChatStatus::Message(IrcEvent::IrcReady), &config),
        Ok(ChatStep::Report(TwitchMessage::Ready))
    ));
}

#[test]
fn the_document_written_last_is_in_force() {
    let settings = |ticks: u64| {
        let mut config = Config::new();
        config.check_live_ticks = ticks;
        Some(config)
    };
    let ticks = |candidates: Vec<Candidate>| newest_document(candidates).map(|c| c.check_live_ticks);
    assert_eq!(ticks(vec![]), None);
    assert_eq!(ticks(vec![Candidate { stamp: 9, settings: None }]), None);
    assert_eq!(
        ticks(vec![
            Candidate { stamp: 30, settings: settings(3) },
            Candidate { stamp: 20, settings: settings(2) },
            Candidate { stamp: 10, settings: settings(1) },
        ]),
        Some(3)
    );
    assert_eq!(
        ticks(vec![
            Candidate { stamp: 10, settings: settings(1) },
            Candidate { stamp: 40, settings: None },
            Candidate { stamp: 30, settings: settings(3) },
            Candidate { stamp: 20, settings: settings(2) },
        ]),
        Some(3)
    );
    assert_eq!(
        ticks(vec![
            Candidate { stamp: 5, settings: settings(1) },
            Candidate { stamp: 5, settings: settings(2) },
        ]),
        Some(1)
    );
}

#[test]
fn spam_memory_can_be_cleared() {
    let mut bot = bot();
    let config = Config::new();
    for _ in 0..5 {
        bot.message(&config, 7, "ferris".to_string(), 9, "hello");
    }
    assert!(bot.message(&config, 7, "ferris".to_string(), 9, "hello").delete);
    bot.reset_spam();
    for _ in 0..4 {
        let plan = bot.message(&config, 7, "ferris".to_string(), 9, "hello");
        assert!(!plan.warn && !plan.delete);
    }
}
