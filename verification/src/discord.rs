//! The decisions of the Discord adapter: what to do with a message, with a
//! message from the bus, with a settings document and with a reaction.

use crate::assoc::find;
use crate::antispam::{
    penalized, recorded, silenced, spam, Antispam, Chatter, ChatterModel, History,
};
use crate::cli::{
    dispatched, fence, parse, possible, text_of, AdditionalInfo, CommandOutput, OutputModel,
};
use crate::config::{Config, TextMap};
use crate::creds::{prefix_text, BotCreds, DiscordCreds};
use crate::messages::{CentralMessage, Received, TwitchMessage};
use crate::scripting::Verdict;
use crate::text::{
    chars_of, drop_leading, drop_leading_word, drop_trailing, skip_leading, skip_trailing,
    skip_word, slice_of, starts_with, string_of, trimmed,
};
use std::collections::HashMap;
use vstd::prelude::*;
use vstd::string::*;

verus! {

/// The number of users that one page of a reaction's users holds.
pub const PAGE_MAX: usize = 100;

/// The error code with which Discord answers for a member it does not know.
pub const UNKNOWN_MEMBER_CODE: isize = 10007;

/// What is to be done about one message.
pub struct MessagePlan {
    /// Whether the author is told not to spam.
    pub warn: bool,
    /// Whether the message is deleted.
    pub delete: bool,
    /// What is replied to the message, if anything.
    pub reply: Option<String>,
}

/// What the job loop does after a look at the bus.
#[derive(Debug, Clone)]
pub enum JobStep {
    /// Go on with the next tick.
    Continue,
    /// The settings changed: take the new tick, and map the guild's roles to
    /// their emoji again.
    RefreshRoles,
    /// The stream went live: announce it, if the last announcement is old
    /// enough.
    Notify { channel: String, title: String, url: String },
    /// End the loop.
    Stop,
}

/// What the check of a user's role gave.
#[derive(Debug, Clone, Copy)]
pub enum RoleCheck {
    Has,
    Lacks,
    Failed,
}

/// What the search for a member gave.
#[derive(Debug, Clone, Copy)]
pub enum MemberCheck {
    /// The member was found, or the search failed outside of HTTP.
    Settled,
    /// Discord refused the request with this code.
    Refused { code: isize },
    /// The request failed in another way.
    Broken,
}

/// What is done about one user that reacted for a role.
#[derive(Debug, Clone, Copy)]
pub enum Repair {
    Nothing,
    AddRole,
    RemoveReaction,
}

/// The text that stands for a settings document in a message: the message
/// without white space around it, without the backticks and the word `TOML`
/// that open its fence, without the backticks that close it, and without
/// white space around what is left.
pub open spec fn document_of(content: Seq<char>) -> Seq<char> {
    trimmed(
        drop_trailing(
            drop_leading_word(drop_leading(trimmed(content), true), "TOML"@),
            true,
        ),
    )
}

/// Takes the fence off a settings document.
pub fn strip_document(content: &str) -> (r: String)
    ensures
        r@ == document_of(content@),
{
    let v = chars_of(content);
    let word = chars_of("TOML");
    proof {
        assert(v@.subrange(0, v@.len() as int) =~= v@);
    }
    let lo = skip_leading(&v, 0, v.len(), false);
    let hi = skip_trailing(&v, lo, v.len(), false);
    let lo = skip_leading(&v, lo, hi, true);
    let lo = skip_word(&v, lo, hi, &word);
    let hi = skip_trailing(&v, lo, hi, true);
    let lo = skip_leading(&v, lo, hi, false);
    let hi = skip_trailing(&v, lo, hi, false);
    let body = slice_of(&v, lo, hi);
    string_of(&body)
}

/// What one message of the settings channel gave: when it was written, as a
/// number that grows with time, and the settings it holds if it is a valid
/// document.
pub struct Candidate {
    pub stamp: u64,
    pub settings: Option<Config>,
}

/// The valid document that was written last. Of two valid documents with the
/// same stamp the one that comes first in the list counts.
pub open spec fn newest(candidates: Seq<Candidate>) -> Option<Candidate>
    decreases candidates.len(),
{
    if candidates.len() == 0 {
        None
    } else {
        let later = newest(candidates.drop_first());
        if candidates[0].settings is Some && (later is None || candidates[0].stamp
            >= later->0.stamp) {
            Some(candidates[0])
        } else {
            later
        }
    }
}

/// The document in force is a valid one of the list, and no valid document
/// of the list was written after it; there is none only where no document is
/// valid.
pub proof fn law_newest(candidates: Seq<Candidate>)
    ensures
        newest(candidates) is None <==> forall|i: int|
            0 <= i < candidates.len() ==> (#[trigger] candidates[i]).settings is None,
        newest(candidates) matches Some(w) ==> {
            &&& w.settings is Some
            &&& candidates.contains(w)
            &&& forall|i: int|
                0 <= i < candidates.len() && (#[trigger] candidates[i]).settings is Some
                    ==> candidates[i].stamp <= w.stamp
        },
    decreases candidates.len(),
{
    if candidates.len() == 0 {
    } else {
        let rest = candidates.drop_first();
        law_newest(rest);
        assert forall|i: int| 1 <= i < candidates.len() implies #[trigger] candidates[i] == rest[i
            - 1] by {}
        match newest(candidates) {
            Some(w) => {
                if w == candidates[0] {
                    assert(candidates[0] == w);
                } else {
                    let k = choose|k: int| 0 <= k < rest.len() && rest[k] == w;
                    assert(candidates[k + 1] == w);
                }
                assert forall|i: int|
                    0 <= i < candidates.len() && (
                    #[trigger] candidates[i]).settings is Some implies candidates[i].stamp
                    <= w.stamp by {
                    if i > 0 {
                        assert(rest[i - 1] == candidates[i]);
                    }
                }
            },
            None => {
                assert forall|i: int| 0 <= i < candidates.len() implies (
                #[trigger] candidates[i]).settings is None by {
                    if i > 0 {
                        assert(rest[i - 1] == candidates[i]);
                    }
                }
            },
        }
        if forall|i: int| 0 <= i < candidates.len() ==> (#[trigger] candidates[i]).settings is None {
            assert(candidates[0].settings is None);
            assert forall|i: int| 0 <= i < rest.len() implies (#[trigger] rest[i]).settings is None by {
                assert(rest[i] == candidates[i + 1]);
            }
        }
    }
}

/// Picks the settings in force from the messages of the settings channel:
/// those of the valid document that was written last.
pub fn newest_document(candidates: Vec<Candidate>) -> (r: Option<Config>)
    ensures
        r == match newest(candidates@) {
            Some(w) => w.settings,
            None => None,
        },
{
    let mut rest = candidates;
    let mut best: Option<Candidate> = None;
    proof {
        assert(candidates@.skip(candidates@.len() as int) =~= Seq::<Candidate>::empty());
    }
    while rest.len() > 0
        invariant
            rest@.len() <= candidates@.len(),
            rest@ == candidates@.take(rest@.len() as int),
            best == newest(candidates@.skip(rest@.len() as int)),
        decreases rest.len(),
    {
        let ghost n = rest@.len() as int;
        let last = rest.pop();
        proof {
            assert(candidates@.skip(n - 1).drop_first() =~= candidates@.skip(n));
            assert(candidates@.skip(n - 1)[0] == candidates@[n - 1]);
            assert(rest@ =~= candidates@.take(n - 1));
        }
        match last {
            Some(candidate) => {
                let newer = match &best {
                    Some(later) => candidate.stamp >= later.stamp,
                    None => true,
                };
                if candidate.settings.is_some() && newer {
                    best = Some(candidate);
                }
            },
            None => {},
        }
    }
    proof {
        assert(candidates@.skip(0) =~= candidates@);
    }
    match best {
        Some(w) => w.settings,
        None => None,
    }
}

/// Whether a stream notification may go out: only if the age of the last
/// one is known and is at least the minimum.
pub open spec fn due(age_secs: Option<u64>, min_secs: u64) -> bool {
    match age_secs {
        Some(age) => age >= min_secs,
        None => false,
    }
}

/// Whether a stream notification may go out, given the age in seconds of the
/// last one, if that could be found out.
pub fn notification_due(age_secs: Option<u64>, min_secs: u64) -> (r: bool)
    ensures
        r == due(age_secs, min_secs),
{
    match age_secs {
        Some(age) => age >= min_secs,
        None => false,
    }
}

/// What `strfmt::strfmt` makes of a template and named values; `None` where
/// it gives an error. Where a name comes twice the later value counts.
pub uninterp spec fn formatted(
    template: Seq<char>,
    values: Seq<(Seq<char>, Seq<char>)>,
) -> Option<Seq<char>>;

/// The names and values of a list of pairs as text.
pub open spec fn pairs_of(values: Seq<(String, String)>) -> Seq<(Seq<char>, Seq<char>)> {
    Seq::new(values.len(), |i: int| (values[i].0@, values[i].1@))
}

/// The values that a stream notification may name.
pub open spec fn notification_values(
    channel: Seq<char>,
    title: Seq<char>,
    url: Seq<char>,
) -> Seq<(Seq<char>, Seq<char>)> {
    seq![("channel"@, channel), ("title"@, title), ("url"@, url)]
}

/// Calls `strfmt::strfmt` with the template and a map made of the pairs. The
/// contract only names what it returns.
#[verifier::external_body]
fn format_template(template: &str, values: &Vec<(String, String)>) -> (r: Option<String>)
    ensures
        text_of(r) == formatted(template@, pairs_of(values@)),
{
    let map: HashMap<String, String> = values.iter().cloned().collect();
    strfmt::strfmt(template, &map).ok()
}

/// The announcement that is sent where the template cannot be used.
pub open spec fn fallback(channel: Seq<char>, title: Seq<char>, url: Seq<char>) -> Seq<char> {
    channel + " is live! "@ + title + "\n"@ + url
        + "\n\nERROR occurred: Failed to format message using custom format :<"@
}

/// The announcement: what the template gave, or the fallback.
pub open spec fn announcement(
    rendered: Option<Seq<char>>,
    channel: Seq<char>,
    title: Seq<char>,
    url: Seq<char>,
) -> Seq<char> {
    match rendered {
        Some(text) => text,
        None => fallback(channel, title, url),
    }
}

/// The announcement for what the template gave: that text, or, where the
/// template failed, the fixed text with the three values and a note.
pub fn notification_or_fallback(
    rendered: Option<String>,
    channel: &str,
    title: &str,
    url: &str,
) -> (r: String)
    ensures
        r@ == announcement(text_of(rendered), channel@, title@, url@),
{
    match rendered {
        Some(text) => text,
        None => {
            let mut out = String::from_str(channel);
            out.append(" is live! ");
            out.append(title);
            out.append("\n");
            out.append(url);
            out.append("\n\nERROR occurred: Failed to format message using custom format :<");
            out
        },
    }
}

/// The announcement of a stream, made with the template of the settings.
pub fn render_notification(template: &str, channel: &str, title: &str, url: &str) -> (r: String)
    ensures
        r@ == announcement(
            formatted(template@, notification_values(channel@, title@, url@)),
            channel@,
            title@,
            url@,
        ),
{
    let mut values: Vec<(String, String)> = Vec::new();
    values.push((String::from_str("channel"), String::from_str(channel)));
    values.push((String::from_str("title"), String::from_str(title)));
    values.push((String::from_str("url"), String::from_str(url)));
    proof {
        assert(pairs_of(values@) =~= notification_values(channel@, title@, url@));
    }
    notification_or_fallback(format_template(template, &values), channel, title, url)
}

/// The user after whom the next page of a reaction's users starts: the last
/// user of this page if the page is full, none if it is not.
pub open spec fn following(count: usize, last_user_id: Option<u64>) -> Option<u64> {
    match last_user_id {
        Some(id) => if count >= PAGE_MAX {
            Some(id)
        } else {
            None
        },
        None => None,
    }
}

/// Where to go on after a page of `count` users that ends with
/// `last_user_id`.
pub fn next_page(count: usize, last_user_id: Option<u64>) -> (r: Option<u64>)
    ensures
        r == following(count, last_user_id),
{
    match last_user_id {
        Some(id) => if count >= PAGE_MAX {
            Some(id)
        } else {
            None
        },
        None => None,
    }
}

/// What is done about a user that reacted for a role. A user that has the
/// role is left alone and one that lacks it gets it. Where the check failed,
/// the reaction is removed, unless Discord refused the search for the member
/// with another code than that for an unknown member.
pub open spec fn repair_of(role: RoleCheck, member: MemberCheck) -> Repair {
    match role {
        RoleCheck::Has => Repair::Nothing,
        RoleCheck::Lacks => Repair::AddRole,
        RoleCheck::Failed => match member {
            MemberCheck::Refused { code } => if code != UNKNOWN_MEMBER_CODE {
                Repair::Nothing
            } else {
                Repair::RemoveReaction
            },
            _ => Repair::RemoveReaction,
        },
    }
}

/// Decides what is done about a user that reacted for a role.
pub fn repair(role: RoleCheck, member: MemberCheck) -> (r: Repair)
    ensures
        r == repair_of(role, member),
{
    match role {
        RoleCheck::Has => Repair::Nothing,
        RoleCheck::Lacks => Repair::AddRole,
        RoleCheck::Failed => match member {
            MemberCheck::Refused { code } => if code != UNKNOWN_MEMBER_CODE {
                Repair::Nothing
            } else {
                Repair::RemoveReaction
            },
            _ => Repair::RemoveReaction,
        },
    }
}

/// What is replied on Discord for an output: the reply of a command, nothing
/// for an operator's command, and an error's message inside a fence.
pub open spec fn discord_reply(output: OutputModel) -> Option<Seq<char>> {
    match output {
        OutputModel::Command { value, .. } => value,
        OutputModel::AdminCommand { .. } => None,
        OutputModel::Error { message, .. } => Some(fence() + message + fence()),
    }
}

/// What is replied on Discord for an output.
pub fn discord_answer(output: CommandOutput) -> (r: Option<String>)
    ensures
        text_of(r) == discord_reply(output@),
{
    match output {
        CommandOutput::Command { value, .. } => value,
        CommandOutput::AdminCommand { .. } => None,
        CommandOutput::Error { message, .. } => {
            let mut out = String::from_str("```");
            out.append(message.as_str());
            out.append("```");
            Some(out)
        },
    }
}

/// Whether `reply` is what Discord is sent for the line `content` from the
/// sender `info`, for some number the die can show and some outcome the
/// script can have.
pub open spec fn answered(
    content: Seq<char>,
    info: AdditionalInfo,
    config: Config,
    reply: Option<Seq<char>>,
) -> bool {
    exists|drawn: u64, verdict: Verdict|
        possible(content, info, drawn, verdict) && reply == discord_reply(
            #[trigger] dispatched(content, info, config, drawn, verdict),
        )
}

/// Whether the author of a message at `now` is warned, and whether the
/// message is deleted: both only for spam from a chatter that is over the
/// limit of strikes, and the warning only while the chatter is not silenced.
pub open spec fn moderation(known: Option<History>, now: u64) -> (bool, bool) {
    let after = Some(recorded(known, now));
    if spam(known, now) && penalized(after) {
        (!silenced(after), true)
    } else {
        (false, false)
    }
}

/// What the job loop does with what one look at the bus gave.
pub open spec fn job_step(received: Received<CentralMessage>, step: JobStep) -> bool {
    match received {
        Received::Message(CentralMessage::ConfigUpdated) => step == JobStep::RefreshRoles,
        Received::Message(CentralMessage::Twitch(TwitchMessage::ChannelLive { channel, title, url })) =>
            step == (JobStep::Notify { channel, title, url }),
        Received::Message(CentralMessage::Shutdown) => step == JobStep::Stop,
        Received::Closed => step == JobStep::Stop,
        _ => step == JobStep::Continue,
    }
}

/// Whether what one look at the bus gave ends the job loop.
pub open spec fn ends_job(received: Received<CentralMessage>) -> bool {
    received is Closed || received == Received::Message(CentralMessage::Shutdown)
}

/// The Discord adapter's own state.
pub struct Bot {
    creds: DiscordCreds,
    is_initted: bool,
    stopped: bool,
    antispam: Antispam,
    reaction_roles: TextMap<u64>,
}

impl Bot {
    /// The id of the bot's own account.
    pub closed spec fn bot_id(&self) -> u64 {
        self.creds.bot_id
    }

    /// The channel that holds the settings documents.
    pub closed spec fn data_channel(&self) -> u64 {
        self.creds.data_channel
    }

    /// Whether the adapter was ready before.
    pub closed spec fn initted(&self) -> bool {
        self.is_initted
    }

    /// Whether the adapter has seen the bus shut down.
    pub closed spec fn stopped(&self) -> bool {
        self.stopped
    }

    /// What the adapter remembers of a chatter.
    pub closed spec fn history(&self, chatter: ChatterModel) -> Option<History> {
        self.antispam.history(chatter)
    }

    /// The emoji that hand out roles, each with its role.
    pub closed spec fn roles(&self) -> Seq<(Seq<char>, u64)> {
        self.reaction_roles.entries()
    }

    /// The role that is handed out for an emoji, if any.
    pub open spec fn role_of(&self, emoji: Seq<char>) -> Option<u64> {
        find(self.roles(), emoji)
    }

    /// An adapter that has seen nothing yet.
    pub fn new(creds: DiscordCreds) -> (r: Self)
        ensures
            r.bot_id() == creds.bot_id,
            r.data_channel() == creds.data_channel,
            !r.initted(),
            !r.stopped(),
            forall|c: ChatterModel| r.history(c) is None,
            forall|e: Seq<char>| r.role_of(e) is None,
    {
        Bot {
            creds,
            is_initted: false,
            stopped: false,
            antispam: Antispam::new(),
            reaction_roles: TextMap::new(),
        }
    }

    /// Notes that the gateway is ready, and tells whether the job loop is to
    /// be started: only the first time.
    pub fn ready(&mut self) -> (start_jobs: bool)
        ensures
            start_jobs == !old(self).initted(),
            final(self).initted(),
            final(self).stopped() == old(self).stopped(),
            final(self).bot_id() == old(self).bot_id(),
            final(self).data_channel() == old(self).data_channel(),
            forall|c: ChatterModel| final(self).history(c) == old(self).history(c),
            forall|e: Seq<char>| final(self).role_of(e) == old(self).role_of(e),
    {
        let first = !self.is_initted;
        self.is_initted = true;
        first
    }

    /// Decides what is done about a message. The bot's own messages, and any
    /// message once the bus has shut down, are left alone. Any other message
    /// counts against its author in the spam check, by the clock; and if it
    /// begins with the prefix it is dispatched and answered.
    pub fn message(
        &mut self,
        config: &Config,
        author_id: u64,
        author_name: String,
        channel_id: u64,
        content: &str,
    ) -> (plan: MessagePlan)
        ensures
            final(self).stopped() == old(self).stopped(),
            final(self).initted() == old(self).initted(),
            final(self).bot_id() == old(self).bot_id(),
            forall|other: ChatterModel|
                other != ChatterModel::Discord(author_id) ==> #[trigger] final(self).history(other)
                    == old(self).history(other),
            author_id == old(self).bot_id() || old(self).stopped() ==> {
                &&& !plan.warn && !plan.delete && plan.reply is None
                &&& final(self).history(ChatterModel::Discord(author_id)) == old(self).history(
                    ChatterModel::Discord(author_id),
                )
            },
            author_id != old(self).bot_id() && !old(self).stopped() ==> {
                &&& exists|now: u64|
                    {
                        &&& (plan.warn, plan.delete) == #[trigger] moderation(
                            old(self).history(ChatterModel::Discord(author_id)),
                            now,
                        )
                        &&& final(self).history(ChatterModel::Discord(author_id)) == Some(
                            recorded(old(self).history(ChatterModel::Discord(author_id)), now),
                        )
                    }
                &&& !prefix_text().is_prefix_of(content@) ==> plan.reply is None
                &&& prefix_text().is_prefix_of(content@) ==> answered(
                    content@,
                    AdditionalInfo::Discord { name: author_name, user_id: author_id, channel_id },
                    *config,
                    text_of(plan.reply),
                )
            },
    {
        if author_id == self.creds.bot_id || self.stopped {
            return MessagePlan { warn: false, delete: false, reply: None };
        }
        let chatter = Chatter::Discord(author_id);
        let ghost known = self.antispam.history(chatter@);
        let mut warn = false;
        let mut delete = false;
        let spamming = self.antispam.is_spam(&chatter);
        if spamming {
            if self.antispam.too_many_strikes(&chatter) {
                warn = !self.antispam.should_silent_delete(&chatter);
                delete = true;
            }
        }
        proof {
            let now = choose|now: u64|
                {
                    &&& spamming == #[trigger] spam(known, now)
                    &&& self.antispam.history(chatter@) == Some(recorded(known, now))
                };
            assert((warn, delete) == moderation(known, now));
        }
        let prefix = chars_of(self.creds.bot_prefix());
        let line = chars_of(content);
        if !starts_with(&line, &prefix) {
            return MessagePlan { warn, delete, reply: None };
        }
        let info = AdditionalInfo::Discord { name: author_name, user_id: author_id, channel_id };
        let ghost seen = info;
        let output = parse(content, info, config);
        let reply = discord_answer(output);
        proof {
            let (drawn, verdict) = choose|drawn: u64, verdict: Verdict|
                possible(content@, seen, drawn, verdict) && output@ == #[trigger] dispatched(
                    content@,
                    seen,
                    *config,
                    drawn,
                    verdict,
                );
            assert(possible(content@, seen, drawn, verdict) && text_of(reply) == discord_reply(
                dispatched(content@, seen, *config, drawn, verdict),
            ));
        }
        MessagePlan { warn, delete, reply }
    }

    /// Forgets what is remembered of every chatter. To be called from time to
    /// time, so that the memory does not grow without end.
    pub fn reset_spam(&mut self)
        ensures
            forall|c: ChatterModel| final(self).history(c) is None,
            final(self).stopped() == old(self).stopped(),
            final(self).initted() == old(self).initted(),
            final(self).bot_id() == old(self).bot_id(),
            final(self).data_channel() == old(self).data_channel(),
            final(self).roles() == old(self).roles(),
    {
        self.antispam.reset();
    }

    /// Whether a change to a message calls for the settings to be read
    /// again: if it happened in the channel that holds them.
    pub fn message_update(&self, channel_id: u64) -> (r: bool)
        ensures
            r == (channel_id == self.data_channel()),
    {
        channel_id == self.creds.data_channel
    }

    /// Decides what the job loop does with what one look at the bus gave.
    /// Once the bus has shut down or closed, the loop ends and stays ended.
    pub fn on_central(&mut self, received: Received<CentralMessage>) -> (step: JobStep)
        ensures
            old(self).stopped() ==> step == JobStep::Stop,
            !old(self).stopped() ==> job_step(received, step),
            final(self).stopped() == (old(self).stopped() || ends_job(received)),
            final(self).initted() == old(self).initted(),
            final(self).bot_id() == old(self).bot_id(),
            final(self).data_channel() == old(self).data_channel(),
            forall|c: ChatterModel| final(self).history(c) == old(self).history(c),
            forall|e: Seq<char>| final(self).role_of(e) == old(self).role_of(e),
    {
        if self.stopped {
            return JobStep::Stop;
        }
        match received {
            Received::Message(CentralMessage::ConfigUpdated) => JobStep::RefreshRoles,
            Received::Message(
                CentralMessage::Twitch(TwitchMessage::ChannelLive { channel, title, url }),
            ) => JobStep::Notify { channel, title, url },
            Received::Message(CentralMessage::Shutdown) => {
                self.stopped = true;
                JobStep::Stop
            },
            Received::Closed => {
                self.stopped = true;
                JobStep::Stop
            },
            _ => JobStep::Continue,
        }
    }

    /// Notes a role of the guild: if the settings give the role an emoji,
    /// that emoji hands out the role from now on.
    pub fn cache_role(&mut self, config: &Config, role_id: u64, role_name: &str)
        ensures
            final(self).stopped() == old(self).stopped(),
            final(self).initted() == old(self).initted(),
            final(self).bot_id() == old(self).bot_id(),
            final(self).data_channel() == old(self).data_channel(),
            forall|c: ChatterModel| final(self).history(c) == old(self).history(c),
            match config.reaction_roles.lookup(role_name@) {
                Some(emoji) => {
                    &&& final(self).role_of(emoji@) == Some(role_id)
                    &&& forall|other: Seq<char>|
                        other != emoji@ ==> #[trigger] final(self).role_of(other) == old(
                            self,
                        ).role_of(other)
                },
                None => forall|e: Seq<char>| final(self).role_of(e) == old(self).role_of(e),
            },
    {
        match config.reaction_roles.get(role_name) {
            Some(emoji) => {
                self.reaction_roles.insert(emoji.clone(), role_id);
                proof {
                    assert(self.reaction_roles.lookup(emoji@) == Some(role_id));
                    assert forall|other: Seq<char>| other != emoji@ implies #[trigger] self.role_of(
                        other,
                    ) == old(self).role_of(other) by {
                        assert(self.reaction_roles.lookup(other) == old(
                            self,
                        ).reaction_roles.lookup(other));
                    }
                }
            },
            None => {},
        }
    }

    /// The emoji that hand out roles, each with its role, in the order in
    /// which they were first noted.
    pub fn cached_roles(&self) -> (r: Vec<(String, u64)>)
        ensures
            r@.len() == self.roles().len(),
            forall|i: int|
                0 <= i < r@.len() ==> (#[trigger] r@[i]).0@ == self.roles()[i].0 && r@[i].1
                    == self.roles()[i].1,
    {
        let mut out: Vec<(String, u64)> = Vec::new();
        let mut i: usize = 0;
        while i < self.reaction_roles.len()
            invariant
                i <= self.reaction_roles.entries().len(),
                out@.len() == i,
                forall|k: int|
                    0 <= k < i ==> (#[trigger] out@[k]).0@ == self.reaction_roles.entries()[k].0
                        && out@[k].1 == self.reaction_roles.entries()[k].1,
            decreases self.reaction_roles.entries().len() - i,
        {
            let emoji = self.reaction_roles.name_at(i);
            let role = *self.reaction_roles.value_at(i);
            out.push((emoji, role));
            i += 1;
        }
        out
    }

    /// The role that is handed out for a reaction with this emoji, if any.
    pub fn role_for(&self, emoji: &str) -> (r: Option<u64>)
        ensures
            r == self.role_of(emoji@),
    {
        match self.reaction_roles.get(emoji) {
            Some(id) => Some(*id),
            None => None,
        }
    }
}

} // verus!
