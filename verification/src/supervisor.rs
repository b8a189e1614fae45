//! The supervisor's decisions: what it does with each thing that reaches it
//! from an adapter, and the settings it keeps for all of them.

use crate::config::Config;
use crate::messages::{CentralMessage, DiscordMessage, Received, ServerMessage, TwitchMessage};
use crate::text::{decimal, push_decimal};
use vstd::prelude::*;
use vstd::string::*;

verus! {

/// The pause before an adapter that failed is started again, in milliseconds.
pub const RESTART_BACKOFF_MILLIS: u64 = 5000;

/// The settings that every component reads. They change only as a whole, and
/// only for a document that was valid.
pub struct ConfigStore {
    current: Config,
    version: u64,
}

/// The number of the version after `version`; the count stays at its largest
/// value once it is there.
pub open spec fn next_version(version: u64) -> u64 {
    if version < u64::MAX {
        (version + 1) as u64
    } else {
        version
    }
}

impl ConfigStore {
    /// The settings in force.
    pub closed spec fn settings(&self) -> Config {
        self.current
    }

    /// How many times the settings were replaced.
    pub closed spec fn version(&self) -> u64 {
        self.version
    }

    /// A store that holds the defaults, as version 0.
    pub fn new() -> (r: Self)
        ensures
            r.settings().is_default(),
            r.version() == 0,
    {
        ConfigStore { current: Config::new(), version: 0 }
    }

    /// How many times the settings were replaced.
    pub fn current_version(&self) -> (r: u64)
        ensures
            r == self.version(),
    {
        self.version
    }

    /// The settings in force.
    pub fn read(&self) -> (r: &Config)
        ensures
            *r == self.settings(),
    {
        &self.current
    }

    /// Takes in what a document gave. A document that was malformed leaves
    /// the settings as they are; a valid one replaces them all. Tells
    /// whether the settings were replaced.
    pub fn reload(&mut self, parsed: Option<Config>) -> (r: bool)
        ensures
            r == parsed is Some,
            final(self).settings() == match parsed {
                Some(config) => config,
                None => old(self).settings(),
            },
            final(self).version() == if parsed is Some {
                next_version(old(self).version())
            } else {
                old(self).version()
            },
    {
        match parsed {
            Some(config) => {
                self.current = config;
                if self.version < u64::MAX {
                    self.version = self.version + 1;
                }
                true
            },
            None => false,
        }
    }
}

/// An adapter of the bot.
#[derive(Debug, Clone, Copy)]
pub enum Adapter {
    Discord,
    Twitch,
    Server,
}

/// What the supervisor does next.
#[derive(Debug, Clone)]
pub enum Step {
    /// Nothing.
    Idle,
    /// Start the adapters that wait for the first platform to be ready.
    StartDependents,
    /// Send the message to every adapter.
    Broadcast(CentralMessage),
    /// Stop the adapter if it runs, and start it again after the pause.
    RestartAfter { adapter: Adapter, millis: u64 },
    /// Write the text to the log, as an error or for debugging.
    Log { error: bool, text: String },
    /// Tell every adapter to shut down, cancel them, and end.
    Shutdown,
}

/// Where the supervisor stands.
pub struct Phase {
    /// Whether the adapters that wait for the first platform were started.
    pub started: bool,
    /// Whether shutdown has begun.
    pub stopping: bool,
}

/// The log line for a receiver that fell behind.
pub open spec fn lag_text(who: Seq<char>, missed: u64) -> Seq<char> {
    who + " receiver lagged by "@ + decimal(missed as nat) + " messages"@
}

/// The step for something that reached the supervisor from the Discord
/// adapter, unless shutdown has begun.
pub open spec fn discord_step(phase: Phase, received: Received<DiscordMessage>, step: Step) -> bool {
    match received {
        Received::Message(DiscordMessage::Ready) => if phase.started {
            step == Step::Idle
        } else {
            step == Step::StartDependents
        },
        Received::Message(DiscordMessage::ConfigUpdated(_)) => step == Step::Broadcast(
            CentralMessage::ConfigUpdated,
        ),
        Received::Message(DiscordMessage::Debug(m)) => step == (Step::Log { error: false, text: m }),
        Received::Message(DiscordMessage::Error(m)) => step == (Step::Log { error: true, text: m }),
        Received::Empty => step == Step::Idle,
        Received::Closed => step == Step::Shutdown,
        Received::Lagged(n) => step matches Step::Log { error: true, text } && text@ == lag_text(
            "Discord"@,
            n,
        ),
    }
}

/// The step for something that reached the supervisor from the Twitch
/// adapter, unless shutdown has begun.
pub open spec fn twitch_step(received: Received<TwitchMessage>, step: Step) -> bool {
    match received {
        Received::Message(TwitchMessage::Ready) => step == Step::Idle,
        Received::Message(TwitchMessage::ChannelLive { channel, title, url }) => step
            == Step::Broadcast(
            CentralMessage::Twitch(TwitchMessage::ChannelLive { channel, title, url }),
        ),
        Received::Message(TwitchMessage::Debug(m)) => step == (Step::Log { error: false, text: m }),
        Received::Message(TwitchMessage::Error(m)) => step == (Step::Log { error: true, text: m }),
        Received::Message(TwitchMessage::TokenExpired) => step == (Step::RestartAfter {
            adapter: Adapter::Twitch,
            millis: RESTART_BACKOFF_MILLIS,
        }),
        Received::Empty => step == Step::Idle,
        Received::Closed => step == Step::Shutdown,
        Received::Lagged(n) => step matches Step::Log { error: true, text } && text@ == lag_text(
            "Twitch"@,
            n,
        ),
    }
}

/// The step for something that reached the supervisor from the HTTP adapter,
/// unless shutdown has begun.
pub open spec fn server_step(received: Received<ServerMessage>, step: Step) -> bool {
    match received {
        Received::Message(ServerMessage::Ready) => step == Step::Idle,
        Received::Message(ServerMessage::Debug(m)) => step == (Step::Log { error: false, text: m }),
        Received::Message(ServerMessage::Error(m)) => step == (Step::Log { error: true, text: m }),
        Received::Empty => step == Step::Idle,
        Received::Closed => step == Step::Shutdown,
        Received::Lagged(n) => step matches Step::Log { error: true, text } && text@ == lag_text(
            "Server"@,
            n,
        ),
    }
}

/// The log line for a receiver that fell behind.
fn lag_line(who: &str, missed: u64) -> (r: String)
    ensures
        r@ == lag_text(who@, missed),
{
    let mut out = String::from_str(who);
    out.append(" receiver lagged by ");
    push_decimal(missed, &mut out);
    out.append(" messages");
    out
}

/// The supervisor: the settings, and how far start-up and shutdown have come.
pub struct Supervisor {
    store: ConfigStore,
    started: bool,
    stopping: bool,
}

impl Supervisor {
    /// Where the supervisor stands.
    pub closed spec fn phase(&self) -> Phase {
        Phase { started: self.started, stopping: self.stopping }
    }

    /// The settings in force.
    pub closed spec fn settings(&self) -> Config {
        self.store.settings()
    }

    /// A supervisor with the default settings, before anything was started.
    pub fn new() -> (r: Self)
        ensures
            r.settings().is_default(),
            r.phase() == (Phase { started: false, stopping: false }),
    {
        Supervisor { store: ConfigStore::new(), started: false, stopping: false }
    }

    /// The settings in force.
    pub fn config(&self) -> (r: &Config)
        ensures
            *r == self.settings(),
    {
        self.store.read()
    }

    /// Whether shutdown has begun.
    pub fn is_stopping(&self) -> (r: bool)
        ensures
            r == self.phase().stopping,
    {
        self.stopping
    }

    /// Takes in what a settings document gave: the settings it holds, or the
    /// reason it is malformed. A valid document replaces the settings and is
    /// announced to every adapter; a malformed one is logged and changes
    /// nothing. Once shutdown has begun nothing is taken in.
    pub fn on_config_document(&mut self, parsed: Result<Config, String>) -> (step: Step)
        ensures
            final(self).phase() == old(self).phase(),
            old(self).phase().stopping ==> step == Step::Idle,
            old(self).phase().stopping ==> final(self).settings() == old(self).settings(),
            !old(self).phase().stopping ==> match parsed {
                Ok(config) => final(self).settings() == config && step == Step::Broadcast(
                    CentralMessage::ConfigUpdated,
                ),
                Err(reason) => final(self).settings() == old(self).settings() && step == (Step::Log {
                    error: true,
                    text: reason,
                }),
            },
    {
        if self.stopping {
            return Step::Idle;
        }
        match parsed {
            Ok(config) => {
                self.store.reload(Some(config));
                Step::Broadcast(CentralMessage::ConfigUpdated)
            },
            Err(reason) => {
                self.store.reload(None);
                Step::Log { error: true, text: reason }
            },
        }
    }

    /// Handles what one look at the Discord adapter's channel gave.
    pub fn on_discord(&mut self, received: Received<DiscordMessage>) -> (step: Step)
        ensures
            old(self).phase().stopping ==> step == Step::Idle,
            old(self).phase().stopping ==> final(self).phase() == old(self).phase(),
            old(self).phase().stopping ==> final(self).settings() == old(self).settings(),
            !old(self).phase().stopping ==> {
                &&& discord_step(old(self).phase(), received, step)
                &&& final(self).phase().stopping == (received is Closed)
                &&& final(self).phase().started == (old(self).phase().started
                    || received == Received::Message(DiscordMessage::Ready))
                &&& final(self).settings() == match received {
                    Received::Message(DiscordMessage::ConfigUpdated(config)) => config,
                    _ => old(self).settings(),
                }
            },
    {
        if self.stopping {
            return Step::Idle;
        }
        match received {
            Received::Message(DiscordMessage::Ready) => {
                if self.started {
                    Step::Idle
                } else {
                    self.started = true;
                    Step::StartDependents
                }
            },
            Received::Message(DiscordMessage::ConfigUpdated(config)) => {
                self.store.reload(Some(config));
                Step::Broadcast(CentralMessage::ConfigUpdated)
            },
            Received::Message(DiscordMessage::Debug(m)) => Step::Log { error: false, text: m },
            Received::Message(DiscordMessage::Error(m)) => Step::Log { error: true, text: m },
            Received::Empty => Step::Idle,
            Received::Closed => {
                self.stopping = true;
                Step::Shutdown
            },
            Received::Lagged(n) => Step::Log { error: true, text: lag_line("Discord", n) },
        }
    }

    /// Handles what one look at the Twitch adapter's channel gave.
    pub fn on_twitch(&mut self, received: Received<TwitchMessage>) -> (step: Step)
        ensures
            final(self).settings() == old(self).settings(),
            final(self).phase().started == old(self).phase().started,
            old(self).phase().stopping ==> step == Step::Idle && final(self).phase().stopping,
            !old(self).phase().stopping ==> twitch_step(received, step),
            !old(self).phase().stopping ==> final(self).phase().stopping == (received is Closed),
    {
        if self.stopping {
            return Step::Idle;
        }
        match received {
            Received::Message(TwitchMessage::Ready) => Step::Idle,
            Received::Message(TwitchMessage::ChannelLive { channel, title, url }) => Step::Broadcast(
                CentralMessage::Twitch(TwitchMessage::ChannelLive { channel, title, url }),
            ),
            Received::Message(TwitchMessage::Debug(m)) => Step::Log { error: false, text: m },
            Received::Message(TwitchMessage::Error(m)) => Step::Log { error: true, text: m },
            Received::Message(TwitchMessage::TokenExpired) => Step::RestartAfter {
                adapter: Adapter::Twitch,
                millis: RESTART_BACKOFF_MILLIS,
            },
            Received::Empty => Step::Idle,
            Received::Closed => {
                self.stopping = true;
                Step::Shutdown
            },
            Received::Lagged(n) => Step::Log { error: true, text: lag_line("Twitch", n) },
        }
    }

    /// Handles what one look at the HTTP adapter's channel gave.
    pub fn on_server(&mut self, received: Received<ServerMessage>) -> (step: Step)
        ensures
            final(self).settings() == old(self).settings(),
            final(self).phase().started == old(self).phase().started,
            old(self).phase().stopping ==> step == Step::Idle && final(self).phase().stopping,
            !old(self).phase().stopping ==> server_step(received, step),
            !old(self).phase().stopping ==> final(self).phase().stopping == (received is Closed),
    {
        if self.stopping {
            return Step::Idle;
        }
        match received {
            Received::Message(ServerMessage::Ready) => Step::Idle,
            Received::Message(ServerMessage::Debug(m)) => Step::Log { error: false, text: m },
            Received::Message(ServerMessage::Error(m)) => Step::Log { error: true, text: m },
            Received::Empty => Step::Idle,
            Received::Closed => {
                self.stopping = true;
                Step::Shutdown
            },
            Received::Lagged(n) => Step::Log { error: true, text: lag_line("Server", n) },
        }
    }

    /// Handles the interrupt signal: shutdown begins, once.
    pub fn on_interrupt(&mut self) -> (step: Step)
        ensures
            final(self).settings() == old(self).settings(),
            final(self).phase() == (Phase { stopping: true, ..old(self).phase() }),
            step == if old(self).phase().stopping {
                Step::Idle
            } else {
                Step::Shutdown
            },
    {
        if self.stopping {
            return Step::Idle;
        }
        self.stopping = true;
        Step::Shutdown
    }

    /// Handles the end of an adapter's task: it is started again after the
    /// pause, unless shutdown has begun.
    pub fn on_exit(&self, adapter: Adapter) -> (step: Step)
        ensures
            step == if self.phase().stopping {
                Step::Idle
            } else {
                Step::RestartAfter { adapter, millis: RESTART_BACKOFF_MILLIS }
            },
    {
        if self.stopping {
            Step::Idle
        } else {
            Step::RestartAfter { adapter, millis: RESTART_BACKOFF_MILLIS }
        }
    }
}

} // verus!
