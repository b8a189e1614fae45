//! The credentials of the bot on each platform.

use crate::text::{chars_of, parse_unsigned, unsigned_of};
use vstd::prelude::*;
use vstd::string::*;

verus! {

/// The prefix that a line of chat must begin with to be a command.
pub open spec fn prefix_text() -> Seq<char> {
    "bot?"@
}

/// What the credentials of every platform share.
pub trait BotCreds {
    /// The prefix that a line of chat must begin with to be a command.
    fn bot_prefix(&self) -> (r: &str)
        ensures
            r@ == prefix_text(),
    ;
}

impl BotCreds for TwitchCreds {
    fn bot_prefix(&self) -> (r: &str) {
        "bot?"
    }
}

impl BotCreds for DiscordCreds {
    fn bot_prefix(&self) -> (r: &str) {
        "bot?"
    }
}

/// What the bot needs to sign in to Twitch.
#[derive(Clone)]
pub struct TwitchCreds {
    pub refresh_token: String,
    pub client_id: String,
    pub client_secret: String,
    pub bot_name: String,
    pub channel_name: String,
}

impl TwitchCreds {
    /// The credentials made of the five texts.
    pub fn new(
        refresh_token: &str,
        client_id: &str,
        client_secret: &str,
        bot_name: &str,
        channel_name: &str,
    ) -> (r: Self)
        ensures
            r.refresh_token@ == refresh_token@,
            r.client_id@ == client_id@,
            r.client_secret@ == client_secret@,
            r.bot_name@ == bot_name@,
            r.channel_name@ == channel_name@,
    {
        TwitchCreds {
            refresh_token: String::from_str(refresh_token),
            client_id: String::from_str(client_id),
            client_secret: String::from_str(client_secret),
            bot_name: String::from_str(bot_name),
            channel_name: String::from_str(channel_name),
        }
    }
}

/// What the bot needs to sign in to Discord, and the ids it acts on.
#[derive(Clone)]
pub struct DiscordCreds {
    pub token: String,
    pub bot_id: u64,
    pub admin_id: u64,
    pub guild_id: u64,
    pub data_channel: u64,
}

/// An id that is not written as an unsigned decimal number.
#[derive(Debug, Clone, Copy)]
pub struct InvalidId;

/// The number that an id writes.
fn id_of(text: &str) -> (r: Option<u64>)
    ensures
        r == unsigned_of(text@),
{
    let chars = chars_of(text);
    parse_unsigned(&chars)
}

impl DiscordCreds {
    /// The credentials made of the token and the four ids, each written in
    /// decimal. They are made exactly when every id is a number.
    pub fn new(token: &str, bot_id: &str, admin_id: &str, guild_id: &str, data_channel: &str) -> (r:
        Result<Self, InvalidId>)
        ensures
            r is Ok <==> unsigned_of(bot_id@) is Some && unsigned_of(admin_id@) is Some
                && unsigned_of(guild_id@) is Some && unsigned_of(data_channel@) is Some,
            r matches Ok(c) ==> {
                &&& c.token@ == token@
                &&& Some(c.bot_id) == unsigned_of(bot_id@)
                &&& Some(c.admin_id) == unsigned_of(admin_id@)
                &&& Some(c.guild_id) == unsigned_of(guild_id@)
                &&& Some(c.data_channel) == unsigned_of(data_channel@)
            },
    {
        let bot_id = match id_of(bot_id) {
            Some(id) => id,
            None => {
                return Err(InvalidId);
            },
        };
        let admin_id = match id_of(admin_id) {
            Some(id) => id,
            None => {
                return Err(InvalidId);
            },
        };
        let guild_id = match id_of(guild_id) {
            Some(id) => id,
            None => {
                return Err(InvalidId);
            },
        };
        let data_channel = match id_of(data_channel) {
            Some(id) => id,
            None => {
                return Err(InvalidId);
            },
        };
        Ok(DiscordCreds { token: String::from_str(token), bot_id, admin_id, guild_id, data_channel })
    }
}

} // verus!
