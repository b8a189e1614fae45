//! The decisions of the Twitch adapter: when to look whether the channel is
//! live, what to report of it, and what to answer in chat.

use crate::cli::{
    dispatched, parse, possible, AdditionalInfo, CommandOutput, Commands, OutputModel,
};
use crate::config::Config;
use crate::creds::{prefix_text, BotCreds, TwitchCreds};
use crate::messages::{CentralMessage, Received, TwitchMessage};
use crate::scripting::Verdict;
use crate::text::{chars_of, join, join_strings, starts_with, views};
use vstd::prelude::*;
use vstd::string::*;

verus! {

/// What the question whether the channel is live gave.
#[derive(Debug, Clone)]
pub enum LiveQuery {
    /// No stream is running.
    Offline,
    /// A stream is running under this name and title.
    Live { user_name: String, title: String },
    /// The access token was refused.
    Unauthorized,
    /// The request failed, with the reason.
    Failed(String),
}

/// What is done about the answer to that question.
#[derive(Debug, Clone)]
pub enum LiveStep {
    Nothing,
    /// Tell the supervisor.
    Report(TwitchMessage),
    /// Get a new access token.
    RefreshToken,
    /// Give up on this check, with the reason.
    Fail(String),
}

/// What the API loop does after a look at the bus.
#[derive(Debug, Clone, Copy)]
pub enum ApiStep {
    Continue,
    /// The settings changed: take the new tick.
    Retime,
    Stop,
}

/// What came in from chat.
#[derive(Debug, Clone)]
pub enum IrcEvent {
    /// The connection is registered.
    IrcReady,
    /// The channel is joined.
    Ready,
    Notice,
    /// A chatter's line, with the id tag of the message.
    Privmsg { id: String, text: String, name: String, is_vip: bool },
    /// The server asks for a new connection.
    Reconnect,
    Other,
}

/// What one wait on the chat connection gave.
#[derive(Debug, Clone)]
pub enum ChatStatus {
    /// Something came in.
    Message(IrcEvent),
    /// The connection was told to quit.
    Quit,
    /// Anything else.
    Idle,
}

/// The chat connection has quit.
#[derive(Debug, Clone, Copy)]
pub struct ChatQuit;

impl ChatQuit {
    /// The error in words.
    pub fn message(&self) -> (r: String)
        ensures
            r@ == "Quit detected from Twitch chat"@,
    {
        String::from_str("Quit detected from Twitch chat")
    }
}

/// What is done about something that came in from chat.
#[derive(Debug, Clone)]
pub enum ChatStep {
    Nothing,
    /// Tell the supervisor.
    Report(TwitchMessage),
    /// Write the line to the channel.
    Say(String),
    /// Tell the supervisor, close the connection and open a new one.
    Reconnect(TwitchMessage),
}

/// The address of a channel's stream.
pub open spec fn stream_url(channel_name: Seq<char>) -> Seq<char> {
    "https://twitch.tv/"@ + channel_name
}

/// What is done about the answer to the question whether the channel is
/// live: a running stream is reported with its address, a refused token is
/// renewed, a failure ends the check.
pub open spec fn live_step(query: LiveQuery, channel_name: Seq<char>, step: LiveStep) -> bool {
    match query {
        LiveQuery::Offline => step == LiveStep::Nothing,
        LiveQuery::Live { user_name, title } => step matches LiveStep::Report(
            TwitchMessage::ChannelLive { channel, title: t, url },
        ) && channel == user_name && t == title && url@ == stream_url(channel_name),
        LiveQuery::Unauthorized => step == LiveStep::RefreshToken,
        LiveQuery::Failed(reason) => step == LiveStep::Fail(reason),
    }
}

/// What the API loop does with what one look at the bus gave.
pub open spec fn api_step(received: Received<CentralMessage>) -> ApiStep {
    match received {
        Received::Message(CentralMessage::ConfigUpdated) => ApiStep::Retime,
        Received::Message(CentralMessage::Shutdown) => ApiStep::Stop,
        Received::Closed => ApiStep::Stop,
        _ => ApiStep::Continue,
    }
}

/// Whether a status code of the API means that the token has expired.
pub fn is_token_expired(status: u16) -> (r: bool)
    ensures
        r == (status == 401),
{
    400 <= status && status < 500 && status == 401
}

/// What the supervisor is told after an attempt to renew the token: nothing
/// if it worked, an error if it did not.
pub fn refresh_report(renewed: bool) -> (r: Option<TwitchMessage>)
    ensures
        renewed ==> r is None,
        !renewed ==> (r matches Some(TwitchMessage::Error(m)) && m@
            == "Unable to refresh user token"@),
{
    if renewed {
        None
    } else {
        Some(TwitchMessage::Error(String::from_str("Unable to refresh user token")))
    }
}

/// The password that the chat connection signs in with.
pub fn chat_pass(token: &str) -> (r: String)
    ensures
        r@ == "oauth:"@ + token@,
{
    let mut out = String::from_str("oauth:");
    out.append(token);
    out
}

/// The part of the Twitch adapter that asks the API.
pub struct ApiBot {
    creds: TwitchCreds,
    ticks: u64,
    check_live_ticks: u64,
    stopped: bool,
}

impl ApiBot {
    /// The ticks counted since the last check.
    pub closed spec fn count(&self) -> u64 {
        self.ticks
    }

    /// The number of ticks between two checks.
    pub closed spec fn period(&self) -> u64 {
        self.check_live_ticks
    }

    /// The name of the watched channel.
    pub closed spec fn channel(&self) -> Seq<char> {
        self.creds.channel_name@
    }

    /// Whether the loop has ended.
    pub closed spec fn stopped(&self) -> bool {
        self.stopped
    }

    /// A bot that has counted no tick.
    pub fn new(creds: TwitchCreds, check_live_ticks: u64) -> (r: Self)
        ensures
            r.count() == 0,
            r.period() == check_live_ticks,
            r.channel() == creds.channel_name@,
            !r.stopped(),
    {
        ApiBot { creds, ticks: 0, check_live_ticks, stopped: false }
    }

    /// Counts one tick, and tells whether the channel is to be checked now:
    /// every `check_live_ticks` ticks, after which the count starts again.
    pub fn tick(&mut self) -> (check: bool)
        ensures
            check == (old(self).count() + 1 >= old(self).period()),
            final(self).count() == if check {
                0
            } else {
                (old(self).count() + 1) as u64
            },
            final(self).period() == old(self).period(),
            final(self).channel() == old(self).channel(),
            final(self).stopped() == old(self).stopped(),
    {
        if self.check_live_ticks == 0 || self.ticks >= self.check_live_ticks - 1 {
            self.ticks = 0;
            true
        } else {
            self.ticks = self.ticks + 1;
            false
        }
    }

    /// Decides what is done about the answer to the question whether the
    /// channel is live.
    pub fn check_channel_live(&self, query: LiveQuery) -> (step: LiveStep)
        ensures
            live_step(query, self.channel(), step),
    {
        match query {
            LiveQuery::Offline => LiveStep::Nothing,
            LiveQuery::Live { user_name, title } => {
                let mut url = String::from_str("https://twitch.tv/");
                url.append(self.creds.channel_name.as_str());
                LiveStep::Report(TwitchMessage::ChannelLive { channel: user_name, title, url })
            },
            LiveQuery::Unauthorized => LiveStep::RefreshToken,
            LiveQuery::Failed(reason) => LiveStep::Fail(reason),
        }
    }

    /// Handles a message from the supervisor. Once the bus has shut down or
    /// closed, the loop ends and stays ended.
    pub fn handle_central_message(&mut self, received: Received<CentralMessage>) -> (step: ApiStep)
        ensures
            step == if old(self).stopped() {
                ApiStep::Stop
            } else {
                api_step(received)
            },
            final(self).stopped() == (step is Stop),
            final(self).count() == old(self).count(),
            final(self).period() == old(self).period(),
            final(self).channel() == old(self).channel(),
    {
        if self.stopped {
            return ApiStep::Stop;
        }
        match received {
            Received::Message(CentralMessage::ConfigUpdated) => ApiStep::Retime,
            Received::Message(CentralMessage::Shutdown) => {
                self.stopped = true;
                ApiStep::Stop
            },
            Received::Closed => {
                self.stopped = true;
                ApiStep::Stop
            },
            _ => ApiStep::Continue,
        }
    }
}

/// What is written to chat for an output: the reply of a command, a fixed
/// text where it has none, and for an error the list of all commands.
pub open spec fn chat_reply(output: OutputModel, config: Config) -> Seq<char> {
    match output {
        OutputModel::Command { value, .. } => match value {
            Some(v) => v,
            None => "No output!"@,
        },
        OutputModel::AdminCommand { value, .. } => match value {
            Some(v) => v,
            None => "No output!"@,
        },
        OutputModel::Error { .. } => join(Commands::listing() + config.ad_hoc.names(), ", "@),
    }
}

/// Whether `line` is what chat is sent for the line `text` from the sender
/// `info`, for some number the die can show and some outcome the script can
/// have.
pub open spec fn chatted(text: Seq<char>, info: AdditionalInfo, config: Config, line: Seq<char>) -> bool {
    exists|drawn: u64, verdict: Verdict|
        possible(text, info, drawn, verdict) && line == chat_reply(
            #[trigger] dispatched(text, info, config, drawn, verdict),
            config,
        )
}

/// What is written to chat for an output.
pub fn chat_answer(output: CommandOutput, config: &Config) -> (r: String)
    ensures
        r@ == chat_reply(output@, *config),
{
    match output {
        CommandOutput::Command { value, .. } => match value {
            Some(v) => v,
            None => String::from_str("No output!"),
        },
        CommandOutput::AdminCommand { value, .. } => match value {
            Some(v) => v,
            None => String::from_str("No output!"),
        },
        CommandOutput::Error { .. } => {
            let mut names = Commands::commands();
            let mut extra = config.ad_hoc_commands();
            let ghost first = names@;
            let ghost second = extra@;
            names.append(&mut extra);
            proof {
                assert(views(names@) =~= views(first) + views(second));
            }
            join_strings(&names, ", ")
        },
    }
}

/// What is done about something that came in from chat: readiness is
/// reported or greeted, a request for a new connection is followed, and a
/// chatter's line is answered if it has an id and begins with the prefix.
pub open spec fn chat_step(event: IrcEvent, config: Config, step: ChatStep) -> bool {
    match event {
        IrcEvent::IrcReady => step == ChatStep::Report(TwitchMessage::Ready),
        IrcEvent::Ready => step matches ChatStep::Say(line) && line@ == "Bot ready!"@,
        IrcEvent::Notice => step == ChatStep::Nothing,
        IrcEvent::Other => step == ChatStep::Nothing,
        IrcEvent::Reconnect => step matches ChatStep::Reconnect(TwitchMessage::Debug(m))
            && m@ == "Reconnect received"@,
        IrcEvent::Privmsg { id, text, name, is_vip } => if id@.len() == 0
            || !prefix_text().is_prefix_of(text@) {
            step == ChatStep::Nothing
        } else {
            step matches ChatStep::Say(line) && chatted(
                text@,
                AdditionalInfo::Twitch { name, is_vip },
                config,
                line@,
            )
        },
    }
}

/// The part of the Twitch adapter that sits in chat.
pub struct ChatBot {
    creds: TwitchCreds,
}

impl ChatBot {
    /// The credentials that the chat bot signs in with.
    pub closed spec fn creds(&self) -> TwitchCreds {
        self.creds
    }

    /// A chat bot with these credentials.
    pub fn new(creds: TwitchCreds) -> (r: Self)
        ensures
            r.creds() == creds,
    {
        ChatBot { creds }
    }

    /// Decides what is answered to a chatter's line: nothing to a line
    /// without an id or without the prefix, else what its dispatch gives.
    pub fn handle_privmsg(
        &self,
        id: &str,
        text: &str,
        name: String,
        is_vip: bool,
        config: &Config,
    ) -> (r: Option<String>)
        ensures
            id@.len() == 0 || !prefix_text().is_prefix_of(text@) ==> r is None,
            id@.len() > 0 && prefix_text().is_prefix_of(text@) ==> (r matches Some(line) && chatted(
                text@,
                AdditionalInfo::Twitch { name, is_vip },
                *config,
                line@,
            )),
    {
        if id.is_empty() {
            return None;
        }
        let prefix = chars_of(self.creds.bot_prefix());
        let line = chars_of(text);
        if !starts_with(&line, &prefix) {
            return None;
        }
        let info = AdditionalInfo::Twitch { name, is_vip };
        let ghost seen = info;
        let output = parse(text, info, config);
        let answer = chat_answer(output, config);
        proof {
            let (drawn, verdict) = choose|drawn: u64, verdict: Verdict|
                possible(text@, seen, drawn, verdict) && output@ == #[trigger] dispatched(
                    text@,
                    seen,
                    *config,
                    drawn,
                    verdict,
                );
            assert(possible(text@, seen, drawn, verdict) && answer@ == chat_reply(
                dispatched(text@, seen, *config, drawn, verdict),
                *config,
            ));
        }
        Some(answer)
    }

    /// Decides what is done after one wait on the chat connection: what came
    /// in is handled, a connection that has quit is an error that ends the
    /// chat loop, and anything else is passed over.
    pub fn handle_chat(&self, status: ChatStatus, config: &Config) -> (r: Result<ChatStep, ChatQuit>)
        ensures
            match status {
                ChatStatus::Message(event) => r matches Ok(step) && chat_step(event, *config, step),
                ChatStatus::Quit => r is Err,
                ChatStatus::Idle => r == Ok::<ChatStep, ChatQuit>(ChatStep::Nothing),
            },
    {
        match status {
            ChatStatus::Message(event) => Ok(self.handle_message(event, config)),
            ChatStatus::Quit => Err(ChatQuit),
            ChatStatus::Idle => Ok(ChatStep::Nothing),
        }
    }

    /// Decides what is done about something that came in from chat.
    pub fn handle_message(&self, event: IrcEvent, config: &Config) -> (step: ChatStep)
        ensures
            chat_step(event, *config, step),
    {
        match event {
            IrcEvent::IrcReady => ChatStep::Report(TwitchMessage::Ready),
            IrcEvent::Ready => ChatStep::Say(String::from_str("Bot ready!")),
            IrcEvent::Notice => ChatStep::Nothing,
            IrcEvent::Other => ChatStep::Nothing,
            IrcEvent::Reconnect => ChatStep::Reconnect(
                TwitchMessage::Debug(String::from_str("Reconnect received")),
            ),
            IrcEvent::Privmsg { id, text, name, is_vip } => {
                match self.handle_privmsg(id.as_str(), text.as_str(), name, is_vip, config) {
                    Some(line) => ChatStep::Say(line),
                    None => ChatStep::Nothing,
                }
            },
        }
    }
}

} // verus!
