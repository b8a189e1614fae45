//! The rules of the HTTP entry point: who is answered, who is rebuffed, and
//! who is ignored.

use crate::cli::{dispatched, parse, possible, AdditionalInfo, CommandOutput, OutputModel};
use crate::config::Config;
use crate::messages::{CentralMessage, Received};
use crate::scripting::Verdict;
use vstd::prelude::*;
use vstd::string::*;

verus! {

/// The address that a request came from.
#[derive(Debug, Clone, Copy, PartialEq, Eq, Structural)]
pub enum Caller {
    V4 { ip: u32, port: u16 },
    V6 { ip: u128, port: u16, flowinfo: u32, scope_id: u32 },
}

/// Whether a request is turned away before its key is looked at.
#[derive(Debug, Clone, Copy)]
pub enum Bail {
    /// The request is handled.
    No,
    /// The caller has offended before and gets the fixed rebuff.
    YesWithResponse,
    /// The caller has been rebuffed before and gets nothing.
    YesIgnore,
}

/// The header that carries the pre-shared key, as it came.
#[derive(Debug, Clone)]
pub enum KeyHeader {
    /// The request has no such header.
    Missing,
    /// The header holds bytes that are no visible text.
    Unreadable,
    /// The header's text.
    Present(String),
}

/// Why a request got no answer.
#[derive(Debug, Clone, Copy)]
pub enum ServerError {
    /// The request carried no key.
    NoKey,
    /// The request carried a key that is not the shared one.
    InvalidKey,
    /// The key could not be read as text.
    UnreadableKey,
    /// The caller is ignored.
    Ignored,
}

impl ServerError {
    /// The error in words.
    pub open spec fn text(&self) -> Seq<char> {
        match self {
            ServerError::NoKey => "No api key found, bailing out"@,
            ServerError::InvalidKey => "Invalid api key detected"@,
            ServerError::UnreadableKey => "failed to convert header to a str"@,
            ServerError::Ignored => "Bailing out"@,
        }
    }

    /// The error in words.
    pub fn message(&self) -> (r: String)
        ensures
            r@ == self.text(),
    {
        match self {
            ServerError::NoKey => String::from_str("No api key found, bailing out"),
            ServerError::InvalidKey => String::from_str("Invalid api key detected"),
            ServerError::UnreadableKey => String::from_str("failed to convert header to a str"),
            ServerError::Ignored => String::from_str("Bailing out"),
        }
    }
}

/// What the entry point remembers, as plain values.
pub struct Actors {
    /// The shared key.
    pub api_key: Seq<char>,
    /// The callers that sent no key.
    pub confused: Seq<Caller>,
    /// The callers that sent a wrong key.
    pub bad: Seq<Caller>,
    /// The callers that came back after an offence.
    pub repeat: Seq<Caller>,
}

/// The list with `who` noted at its end, unless it is in the list already.
pub open spec fn noted(list: Seq<Caller>, who: Caller) -> Seq<Caller> {
    if list.contains(who) {
        list
    } else {
        list.push(who)
    }
}

/// Whether a request from `who` is turned away: ignored if `who` came back
/// before, rebuffed if `who` offended before, else handled.
pub open spec fn bail(actors: Actors, who: Caller) -> Bail {
    if actors.repeat.contains(who) {
        Bail::YesIgnore
    } else if actors.confused.contains(who) || actors.bad.contains(who) {
        Bail::YesWithResponse
    } else {
        Bail::No
    }
}

/// What is remembered once the question of turning `who` away is settled: a
/// caller that is rebuffed now is ignored from then on.
pub open spec fn after_bail(actors: Actors, who: Caller) -> Actors {
    match bail(actors, who) {
        Bail::YesWithResponse => Actors { repeat: actors.repeat.push(who), ..actors },
        _ => actors,
    }
}

/// What is remembered after a request from `who` with the header `key`.
pub open spec fn after_request(actors: Actors, who: Caller, key: KeyHeader) -> Actors {
    match bail(actors, who) {
        Bail::No => match key {
            KeyHeader::Missing => Actors { confused: noted(actors.confused, who), ..actors },
            KeyHeader::Unreadable => actors,
            KeyHeader::Present(k) => if k@ == actors.api_key {
                actors
            } else {
                Actors { bad: noted(actors.bad, who), ..actors }
            },
        },
        _ => after_bail(actors, who),
    }
}

/// The fixed answer to a caller that comes back after an offence.
pub open spec fn rebuff() -> Seq<char> {
    "Fuck you"@
}

/// What a caller over HTTP is sent for an output: the message of an error,
/// the reply of a command, or a fixed text where there is no reply.
pub open spec fn http_reply(output: OutputModel) -> Seq<char> {
    match output {
        OutputModel::Error { message, .. } => message,
        OutputModel::Command { value, .. } => match value {
            Some(v) => v,
            None => "No output!"@,
        },
        OutputModel::AdminCommand { value, .. } => match value {
            Some(v) => v,
            None => "No output!"@,
        },
    }
}

/// Whether what one look at the bus gave ends the entry point: only the
/// order to shut down and a closed bus do. A receiver that fell behind goes
/// on.
pub open spec fn ends_server(received: Received<CentralMessage>) -> bool {
    received is Closed || received == Received::Message(CentralMessage::Shutdown)
}

/// Tells whether the entry point is to stop after what one look at the bus
/// gave.
pub fn should_stop(received: Received<CentralMessage>) -> (stop: bool)
    ensures
        stop == ends_server(received),
{
    match received {
        Received::Message(CentralMessage::Shutdown) => true,
        Received::Closed => true,
        _ => false,
    }
}

/// What the entry point remembers of its callers.
pub struct AppState {
    api_key: String,
    confused_actors: Vec<Caller>,
    bad_actors: Vec<Caller>,
    repeat_offenders: Vec<Caller>,
}

impl View for AppState {
    type V = Actors;

    closed spec fn view(&self) -> Actors {
        Actors {
            api_key: self.api_key@,
            confused: self.confused_actors@,
            bad: self.bad_actors@,
            repeat: self.repeat_offenders@,
        }
    }
}

/// Whether `who` is in `list`.
fn holds(list: &Vec<Caller>, who: &Caller) -> (r: bool)
    ensures
        r == list@.contains(*who),
{
    let mut i: usize = 0;
    while i < list.len()
        invariant
            i <= list.len(),
            forall|k: int| 0 <= k < i ==> list@[k] != *who,
        decreases list.len() - i,
    {
        if list[i] == *who {
            return true;
        }
        i += 1;
    }
    false
}

impl AppState {
    /// A state that knows the shared key and no caller.
    pub fn new(api_key: &str) -> (r: Self)
        ensures
            r@ == (Actors {
                api_key: api_key@,
                confused: Seq::empty(),
                bad: Seq::empty(),
                repeat: Seq::empty(),
            }),
    {
        AppState {
            api_key: String::from_str(api_key),
            confused_actors: Vec::new(),
            bad_actors: Vec::new(),
            repeat_offenders: Vec::new(),
        }
    }

    /// Notes that `info` sent no key.
    pub fn add_confused_actor(&mut self, info: Caller)
        ensures
            final(self)@ == (Actors { confused: noted(old(self)@.confused, info), ..old(self)@ }),
    {
        if !holds(&self.confused_actors, &info) {
            self.confused_actors.push(info);
        }
    }

    /// Notes that `info` sent a wrong key.
    pub fn add_bad_actor(&mut self, info: Caller)
        ensures
            final(self)@ == (Actors { bad: noted(old(self)@.bad, info), ..old(self)@ }),
    {
        if !holds(&self.bad_actors, &info) {
            self.bad_actors.push(info);
        }
    }

    /// Settles whether a request from `info` is turned away, and remembers a
    /// caller that is rebuffed.
    pub fn should_bail(&mut self, info: &Caller) -> (r: Bail)
        ensures
            r == bail(old(self)@, *info),
            final(self)@ == after_bail(old(self)@, *info),
    {
        if holds(&self.repeat_offenders, info) {
            return Bail::YesIgnore;
        }
        if holds(&self.confused_actors, info) || holds(&self.bad_actors, info) {
            self.repeat_offenders.push(*info);
            return Bail::YesWithResponse;
        }
        Bail::No
    }

    /// Whether `key` is the shared key.
    pub fn accepts(&self, key: &String) -> (r: bool)
        ensures
            r == (key@ == self@.api_key),
    {
        *key == self.api_key
    }
}

/// What a caller over HTTP is sent for an output.
pub fn http_answer(output: CommandOutput) -> (r: String)
    ensures
        r@ == http_reply(output@),
{
    match output {
        CommandOutput::Error { message, .. } => message,
        CommandOutput::Command { value, .. } => match value {
            Some(v) => v,
            None => String::from_str("No output!"),
        },
        CommandOutput::AdminCommand { value, .. } => match value {
            Some(v) => v,
            None => String::from_str("No output!"),
        },
    }
}

/// Handles one request. A caller that is ignored gets an error and a caller
/// that is rebuffed the fixed answer, without a look at the key or the body.
/// A request without the shared key is an error that is held against the
/// caller. Any other request has its body dispatched as a line of chat from
/// a sender without identity.
pub fn handle_command(
    state: &mut AppState,
    info: Caller,
    key: KeyHeader,
    body: &str,
    config: &Config,
) -> (r: Result<String, ServerError>)
    ensures
        final(state)@ == after_request(old(state)@, info, key),
        match bail(old(state)@, info) {
            Bail::YesIgnore => r matches Err(e) && e is Ignored,
            Bail::YesWithResponse => r matches Ok(s) && s@ == rebuff(),
            Bail::No => match key {
                KeyHeader::Missing => r matches Err(e) && e is NoKey,
                KeyHeader::Unreadable => r matches Err(e) && e is UnreadableKey,
                KeyHeader::Present(k) => if k@ == old(state)@.api_key {
                    r matches Ok(s) && exists|drawn: u64, verdict: Verdict|
                        possible(body@, AdditionalInfo::Anonymous, drawn, verdict) && s@
                            == http_reply(
                            #[trigger] dispatched(
                                body@,
                                AdditionalInfo::Anonymous,
                                *config,
                                drawn,
                                verdict,
                            ),
                        )
                } else {
                    r matches Err(e) && e is InvalidKey
                },
            },
        },
{
    match state.should_bail(&info) {
        Bail::No => {
            match key {
                KeyHeader::Present(k) => {
                    if !state.accepts(&k) {
                        state.add_bad_actor(info);
                        return Err(ServerError::InvalidKey);
                    }
                },
                KeyHeader::Missing => {
                    state.add_confused_actor(info);
                    return Err(ServerError::NoKey);
                },
                KeyHeader::Unreadable => {
                    return Err(ServerError::UnreadableKey);
                },
            }
            let output = parse(body, AdditionalInfo::Anonymous, config);
            let answer = http_answer(output);
            proof {
                let (drawn, verdict) = choose|drawn: u64, verdict: Verdict|
                    possible(body@, AdditionalInfo::Anonymous, drawn, verdict) && output@
                        == #[trigger] dispatched(
                        body@,
                        AdditionalInfo::Anonymous,
                        *config,
                        drawn,
                        verdict,
                    );
                assert(possible(body@, AdditionalInfo::Anonymous, drawn, verdict) && answer@
                    == http_reply(
                    dispatched(body@, AdditionalInfo::Anonymous, *config, drawn, verdict),
                ));
            }
            Ok(answer)
        },
        Bail::YesWithResponse => Ok(String::from_str("Fuck you")),
        Bail::YesIgnore => Err(ServerError::Ignored),
    }
}

} // verus!
