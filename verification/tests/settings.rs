use multibot::config::{
    default_check_live_ticks, default_max_message_width, default_min_stream_notification_secs,
    default_tick_duration, Config, TextMap,
};
use multibot::creds::{BotCreds, DiscordCreds, TwitchCreds};
use multibot::discord::strip_document;
use multibot::text::{
    chars_of, decimal_string, is_white_space, join_strings, parse_unsigned, split_words,
    string_of,
};

#[test]
fn defaults_are_fixed() {
    assert_eq!(default_tick_duration(), 500);
    assert_eq!(default_check_live_ticks(), 240);
    assert_eq!(default_max_message_width(), 36);
    assert_eq!(default_min_stream_notification_secs(), 21600);
    let config = Config::new();
    assert_eq!(config.tick_duration, 500);
    assert_eq!(config.check_live_ticks, 240);
    assert_eq!(config.max_message_width, 36);
    assert_eq!(config.min_stream_notification_secs, 21600);
    assert_eq!(config.timeout_role_id, 0);
    assert_eq!(config.stream_notification_channel, 0);
    assert_eq!(config.debug_channel, 0);
    assert_eq!(config.roles_channel, 0);
    assert_eq!(config.stream_notification_format, "");
    assert_eq!(config.reaction_roles.len(), 0);
    assert_eq!(config.ad_hoc.len(), 0);
    assert!(config.ad_hoc_commands().is_empty());
}

#[test]
fn table_keeps_one_value_for_each_key() {
    let mut table: TextMap<u64> = TextMap::new();
    assert_eq!(table.get("a"), None);
    table.insert("a".to_string(), 1);
    table.insert("b".to_string(), 2);
    table.insert("a".to_string(), 3);
    assert_eq!(table.len(), 2);
    assert_eq!(table.get("a"), Some(&3));
    assert_eq!(table.get("b"), Some(&2));
    assert_eq!(table.get("c"), None);
    assert_eq!(table.get(""), None);
    assert_eq!(table.name_at(0), "a");
    assert_eq!(table.name_at(1), "b");
}

#[test]
fn ad_hoc_commands_are_looked_up_by_name() {
    let mut config = Config::new();
    config.ad_hoc.insert("lurk".to_string(), "Enjoy the lurk!".to_string());
    config.ad_hoc.insert("socials".to_string(), "See the panels".to_string());
    assert_eq!(config.ad_hoc_command(&"lurk".to_string()), Some("Enjoy the lurk!".to_string()));
    assert_eq!(config.ad_hoc_command(&"Lurk".to_string()), None);
    assert_eq!(config.ad_hoc_commands(), vec!["lurk", "socials"]);
}

#[test]
fn document_loses_its_fence() {
    assert_eq!(strip_document("```TOML\ncheck_live_ticks = 5\n```"), "check_live_ticks = 5");
    assert_eq!(strip_document("  \n```\na = 1\n```  \n"), "a = 1");
    assert_eq!(strip_document("a = 1"), "a = 1");
    assert_eq!(strip_document("`TOMLTOML x `` "), "x");
    assert_eq!(strip_document("```toml\na = 1```"), "toml\na = 1");
    assert_eq!(strip_document("``` TOML```"), "TOML");
    assert_eq!(strip_document("\u{3000}``````\u{a0}"), "");
    assert_eq!(strip_document(""), "");
}

#[test]
fn numbers_are_written_in_decimal() {
    assert_eq!(decimal_string(0), "0");
    assert_eq!(decimal_string(7), "7");
    assert_eq!(decimal_string(10), "10");
    assert_eq!(decimal_string(1234567890), "1234567890");
    assert_eq!(decimal_string(u64::MAX), "18446744073709551615");
}

#[test]
fn numbers_are_read_from_decimal() {
    let read = |s: &str| parse_unsigned(&chars_of(s));
    assert_eq!(read("0"), Some(0));
    assert_eq!(read("42"), Some(42));
    assert_eq!(read("+42"), Some(42));
    assert_eq!(read("007"), Some(7));
    assert_eq!(read("18446744073709551615"), Some(u64::MAX));
    assert_eq!(read("18446744073709551616"), None);
    assert_eq!(read("99999999999999999999999"), None);
    assert_eq!(read(""), None);
    assert_eq!(read("+"), None);
    assert_eq!(read("-1"), None);
    assert_eq!(read("++1"), None);
    assert_eq!(read(" 1"), None);
    assert_eq!(read("1 "), None);
    assert_eq!(read("1_000"), None);
    assert_eq!(read("١"), None);
    for s in ["0", "+0", "12", "", "+", "-0", "4x", "18446744073709551615", "18446744073709551616"] {
        assert_eq!(read(s), s.parse::<u64>().ok());
    }
}

#[test]
fn text_is_split_into_words_and_joined() {
    let pieces = |s: &str, from: usize| -> Vec<String> {
        split_words(&chars_of(s), from).iter().map(string_of).collect()
    };
    assert_eq!(pieces("a b c", 0), vec!["a", "b", "c"]);
    assert_eq!(pieces("", 0), Vec::<String>::new());
    assert_eq!(pieces(" \t\n", 0), Vec::<String>::new());
    assert_eq!(pieces("  a  b ", 0), vec!["a", "b"]);
    assert_eq!(pieces("a\tb\u{3000}c\r\nd", 0), vec!["a", "b", "c", "d"]);
    assert_eq!(pieces("bot?ping now", 4), vec!["ping", "now"]);
    assert_eq!(pieces("abc", 3), Vec::<String>::new());
    for s in ["a b c", "", " ", "a  b ", "héllo wörld", "\u{a0}x\u{2003}y z"] {
        let expected: Vec<String> = s.split_whitespace().map(|p| p.to_string()).collect();
        assert_eq!(pieces(s, 0), expected);
    }
    assert_eq!(join_strings(&vec![], ", "), "");
    assert_eq!(join_strings(&vec!["x".to_string()], ", "), "x");
    assert_eq!(join_strings(&vec!["x".to_string(), "y".to_string()], ", "), "x, y");
}

#[test]
fn twitch_credentials_are_kept() {
    let creds = TwitchCreds::new("r", "id", "secret", "bot", "channel");
    assert_eq!(creds.refresh_token, "r");
    assert_eq!(creds.client_id, "id");
    assert_eq!(creds.client_secret, "secret");
    assert_eq!(creds.bot_name, "bot");
    assert_eq!(creds.channel_name, "channel");
    assert_eq!(creds.bot_prefix(), "bot?");
}

#[test]
fn discord_credentials_need_numbers() {
    let creds = DiscordCreds::new("token", "1", "22", "333", "4444").ok().unwrap();
    assert_eq!(creds.token, "token");
    assert_eq!(creds.bot_id, 1);
    assert_eq!(creds.admin_id, 22);
    assert_eq!(creds.guild_id, 333);
    assert_eq!(creds.data_channel, 4444);
    assert_eq!(creds.bot_prefix(), "bot?");
    assert!(DiscordCreds::new("token", "x", "22", "333", "4444").is_err());
    assert!(DiscordCreds::new("token", "1", "", "333", "4444").is_err());
    assert!(DiscordCreds::new("token", "1", "22", "-3", "4444").is_err());
    assert!(DiscordCreds::new("token", "1", "22", "333", "18446744073709551616").is_err());
}

#[test]
fn white_space_is_what_the_standard_library_calls_so() {
    for code in 0..=0x10FFFFu32 {
        if let Some(c) = char::from_u32(code) {
            assert_eq!(is_white_space(c), c.is_whitespace());
        }
    }
}
