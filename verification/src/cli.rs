//! The command vocabulary: how a line of chat is read as a command, and what
//! the bot answers to it.

use crate::commands::{
    faces, ferris_say, high_five, high_five_text, ping, ping_text, roll, said, whoami,
    whoami_text,
};
use crate::config::Config;
use crate::creds::prefix_text;
use crate::scripting::{execute, outcome_allowed, verdict_of, ScriptError, Verdict};
use crate::text::{
    chars_of, decimal, decimal_string, ends_with, join, join_strings,
    parse_unsigned, rows, same_text, slice_of, split_words, starts_with, string_of,
    unsigned_of, views, words,
};
use vstd::prelude::*;
use vstd::string::*;

verus! {

/// What the operator can ask of the bot.
#[derive(Debug, Clone, Copy)]
pub enum AdminCommands {
    Test,
    ReloadConfig,
}

/// An operator's command.
#[derive(Debug, Clone)]
pub struct Admin {
    pub command: AdminCommands,
}

/// The commands the bot knows.
#[derive(Debug, Clone)]
pub enum Commands {
    /// Ping the bot.
    Ping,
    /// Receive a username and reply appropriately.
    Whoami,
    /// Reply with a clap emoji.
    HighFive,
    /// Have Ferris say something.
    FerrisSay {
        /// The text to say.
        text: Vec<String>,
    },
    /// Generate a random number from 1 - input.
    Roll {
        /// The max number that can be rolled.
        sides: String,
    },
    /// An ad hoc command that only returns a String value.
    AdHoc {
        /// The ad-hoc command to run.
        text: String,
    },
    /// Run a Rhai script in safe mode.
    Rhai {
        /// The script, inside a fence of three backticks that opens with
        /// `rhai` or `rust`.
        script: Vec<String>,
    },
    Admin(Admin),
}

/// A line that was read as a command.
#[derive(Debug, Clone)]
pub struct Cli {
    pub command: Commands,
}

/// What a line of chat came to.
#[derive(Debug, Clone)]
pub enum CommandOutput {
    /// The line is no command; `is_help` tells a request for help from a
    /// mistake.
    Error { message: String, is_help: bool },
    /// A command and its reply; no reply means that nothing is to be sent.
    Command { value: Option<String>, command: Commands },
    /// An operator's command and its reply.
    AdminCommand { value: Option<String>, command: AdminCommands },
}

/// What is known of the sender of a line.
#[derive(Debug, Clone)]
pub enum AdditionalInfo {
    /// A sender without an identity, such as a caller over HTTP.
    Anonymous,
    Discord { name: String, user_id: u64, channel_id: u64 },
    Twitch { name: String, is_vip: bool },
}

/// A command as plain text values.
pub enum CommandModel {
    Ping,
    Whoami,
    HighFive,
    FerrisSay { text: Seq<Seq<char>> },
    Roll { sides: Seq<char> },
    AdHoc { text: Seq<char> },
    Rhai { script: Seq<Seq<char>> },
    Admin(AdminCommands),
}

/// An output as plain text values.
pub enum OutputModel {
    Error { message: Seq<char>, is_help: bool },
    Command { value: Option<Seq<char>>, command: CommandModel },
    AdminCommand { value: Option<Seq<char>>, command: AdminCommands },
}

impl View for Commands {
    type V = CommandModel;

    open spec fn view(&self) -> CommandModel {
        match *self {
            Commands::Ping => CommandModel::Ping,
            Commands::Whoami => CommandModel::Whoami,
            Commands::HighFive => CommandModel::HighFive,
            Commands::FerrisSay { text } => CommandModel::FerrisSay { text: views(text@) },
            Commands::Roll { sides } => CommandModel::Roll { sides: sides@ },
            Commands::AdHoc { text } => CommandModel::AdHoc { text: text@ },
            Commands::Rhai { script } => CommandModel::Rhai { script: views(script@) },
            Commands::Admin(admin) => CommandModel::Admin(admin.command),
        }
    }
}

/// The view of an optional string.
pub open spec fn text_of(value: Option<String>) -> Option<Seq<char>> {
    match value {
        Some(s) => Some(s@),
        None => None,
    }
}

impl View for CommandOutput {
    type V = OutputModel;

    open spec fn view(&self) -> OutputModel {
        match *self {
            CommandOutput::Error { message, is_help } => OutputModel::Error {
                message: message@,
                is_help,
            },
            CommandOutput::Command { value, command } => OutputModel::Command {
                value: text_of(value),
                command: command@,
            },
            CommandOutput::AdminCommand { value, command } => OutputModel::AdminCommand {
                value: text_of(value),
                command,
            },
        }
    }
}

impl AdditionalInfo {
    /// The sender's display name, where the platform has one.
    pub open spec fn name(&self) -> Option<Seq<char>> {
        match *self {
            AdditionalInfo::Anonymous => None,
            AdditionalInfo::Discord { name, .. } => Some(name@),
            AdditionalInfo::Twitch { name, .. } => Some(name@),
        }
    }
}

/// The usage text.
pub open spec fn usage() -> Seq<char> {
    "A multibot made by youwin.\n\nUsage: bot? <COMMAND>\n\nCommands:\n  ping        Ping the bot\n  whoami      Receive a username and reply appropriately\n  high-five   Reply with a clap emoji\n  ferris-say  Have Ferris say something [aliases: cowsay, ferrissay]\n  roll        Generate a random number from 1 - input\n  ad-hoc      An ad hoc command that only returns a String value [aliases: adhoc]\n  rhai        Run a Rhai script in safe mode\n  admin       Commands for the bot's operator: test, reload-config\n  help        Print this message\n"@
}

/// The usage text followed by the names of the ad-hoc commands.
pub open spec fn help_text(config: Config) -> Seq<char> {
    usage() + "\nAd-hoc commands:\n  "@ + join(config.ad_hoc.names(), ", "@)
}

/// What a platform without frames or scripts answers to a request for one.
pub open spec fn refusal() -> Seq<char> {
    "This does not work in Twitch chat!"@
}

/// What a script outside a proper fence is answered.
pub open spec fn decline() -> Seq<char> {
    "Improperly formatted script, declining to run."@
}

/// Three backticks.
pub open spec fn fence() -> Seq<char> {
    "```"@
}

/// Whether `s` opens with a fence marked `rhai` or `rust` and, after it,
/// closes with a fence.
pub open spec fn fenced(s: Seq<char>) -> bool {
    &&& s.len() >= 10
    &&& ("```rhai"@.is_prefix_of(s) || "```rust"@.is_prefix_of(s))
    &&& "```"@.is_suffix_of(s)
}

/// What stands between the opening and the closing fence of `s`.
pub open spec fn script_body(s: Seq<char>) -> Seq<char> {
    s.subrange(7, s.len() - 3)
}

/// The reply to a script with the given outcome: the output inside a fence,
/// or the error's text as it is.
pub open spec fn script_reply(verdict: Verdict) -> Seq<char> {
    match verdict {
        Verdict::Done(out) => fence() + out + fence(),
        Verdict::Forbidden => ScriptError::Forbidden.text(),
        Verdict::TooManyOperations => ScriptError::TooManyOperations.text(),
        Verdict::Failed(m) => m,
    }
}

/// The number of sides that the argument of `roll` asks for: the number it
/// writes, or six where it writes none.
pub open spec fn sides_of(sides: Seq<char>) -> u64 {
    match unsigned_of(sides) {
        Some(n) => n,
        None => 6,
    }
}

/// Whether `word` is a flag that asks for help.
pub open spec fn asks_help(word: Seq<char>) -> bool {
    word == "--help"@ || word == "-h"@
}

/// Whether `name` is a word of the command vocabulary: the name or an alias
/// of a command, or a request for help.
pub open spec fn is_builtin(name: Seq<char>) -> bool {
    ||| name == "help"@
    ||| asks_help(name)
    ||| name == "ping"@
    ||| name == "whoami"@
    ||| name == "high-five"@
    ||| name == "ferris-say"@
    ||| name == "cowsay"@
    ||| name == "ferrissay"@
    ||| name == "roll"@
    ||| name == "ad-hoc"@
    ||| name == "adhoc"@
    ||| name == "rhai"@
    ||| name == "admin"@
}

/// Whether one of the words is a flag that asks for help.
pub open spec fn any_asks_help(words: Seq<Seq<char>>) -> bool {
    exists|i: int| 0 <= i < words.len() && asks_help(#[trigger] words[i])
}

/// The command that the words after the prefix spell, or `Err` with the flag
/// that tells a request for help from a mistake. Help is asked for by the
/// word `help` or a help flag in place of a command, and by a help flag
/// anywhere among the arguments of a command.
pub open spec fn grammar(words: Seq<Seq<char>>) -> Result<CommandModel, bool> {
    if words.len() == 0 {
        Err(false)
    } else {
        let name = words[0];
        let args = words.drop_first();
        if name == "help"@ || asks_help(name) {
            Err(true)
        } else if is_builtin(name) && any_asks_help(args) {
            Err(true)
        } else if name == "ping"@ {
            if args.len() == 0 {
                Ok(CommandModel::Ping)
            } else {
                Err(false)
            }
        } else if name == "whoami"@ {
            if args.len() == 0 {
                Ok(CommandModel::Whoami)
            } else {
                Err(false)
            }
        } else if name == "high-five"@ {
            if args.len() == 0 {
                Ok(CommandModel::HighFive)
            } else {
                Err(false)
            }
        } else if name == "ferris-say"@ || name == "cowsay"@ || name == "ferrissay"@ {
            if args.len() >= 1 {
                Ok(CommandModel::FerrisSay { text: args })
            } else {
                Err(false)
            }
        } else if name == "roll"@ {
            if args.len() == 1 {
                Ok(CommandModel::Roll { sides: args[0] })
            } else {
                Err(false)
            }
        } else if name == "ad-hoc"@ || name == "adhoc"@ {
            if args.len() == 1 {
                Ok(CommandModel::AdHoc { text: args[0] })
            } else {
                Err(false)
            }
        } else if name == "rhai"@ {
            Ok(CommandModel::Rhai { script: args })
        } else if name == "admin"@ {
            if args.len() == 1 && args[0] == "test"@ {
                Ok(CommandModel::Admin(AdminCommands::Test))
            } else if args.len() == 1 && args[0] == "reload-config"@ {
                Ok(CommandModel::Admin(AdminCommands::ReloadConfig))
            } else {
                Err(args.len() >= 1 && args[0] == "help"@)
            }
        } else {
            Err(false)
        }
    }
}

/// The name under which a line that spells no command is looked up among the
/// ad-hoc commands: its first word, unless that is a word of the command
/// vocabulary or the line has no word.
pub open spec fn ad_hoc_name(words: Seq<Seq<char>>) -> Option<Seq<char>> {
    if words.len() > 0 && !is_builtin(words[0]) {
        Some(words[0])
    } else {
        None
    }
}

/// The ad-hoc command that a line which spells no command falls back to: its
/// name and canned reply, if the line's first word names one.
pub open spec fn fallback_of(words: Seq<Seq<char>>, config: Config) -> Option<
    (Seq<char>, Seq<char>),
> {
    match ad_hoc_name(words) {
        Some(name) => match config.reply_of(name) {
            Some(canned) => Some((name, canned)),
            None => None,
        },
        None => None,
    }
}

/// A line without the prefix at its start; a line that does not begin with
/// the prefix is left as it is.
pub open spec fn unprefixed(input: Seq<char>) -> Seq<char> {
    if prefix_text().is_prefix_of(input) {
        input.skip(prefix_text().len() as int)
    } else {
        input
    }
}

/// The words of a line: the pieces between runs of white space of what
/// follows the prefix.
pub open spec fn words_of(input: Seq<char>) -> Seq<Seq<char>> {
    words(unprefixed(input))
}

/// The reply to a command, given the number that the die showed and the
/// outcome of the script, where the command has one.
pub open spec fn reply(
    command: CommandModel,
    info: AdditionalInfo,
    config: Config,
    drawn: u64,
    verdict: Verdict,
) -> Option<Seq<char>> {
    match command {
        CommandModel::Ping => Some(ping_text()),
        CommandModel::Whoami => match info.name() {
            Some(name) => Some(whoami_text(name)),
            None => Some(usage()),
        },
        CommandModel::HighFive => Some(high_five_text()),
        CommandModel::FerrisSay { text } => if info is Discord {
            Some(fence() + said(join(text, " "@)) + fence())
        } else {
            Some(refusal())
        },
        CommandModel::Roll { sides } => Some(decimal(drawn as nat)),
        CommandModel::AdHoc { text } => match config.reply_of(text) {
            Some(canned) => Some(canned),
            None => Some(usage()),
        },
        CommandModel::Rhai { script } => if info is Twitch {
            Some(refusal())
        } else if !fenced(join(script, " "@)) {
            Some(decline())
        } else {
            Some(script_reply(verdict))
        },
        CommandModel::Admin(admin) => match admin {
            AdminCommands::ReloadConfig => None,
            AdminCommands::Test => Some(usage()),
        },
    }
}

/// Whether the die can have shown `drawn`, and the script can have come to
/// `verdict`, for this command from this sender.
pub open spec fn admissible(
    command: CommandModel,
    info: AdditionalInfo,
    drawn: u64,
    verdict: Verdict,
) -> bool {
    match command {
        CommandModel::Roll { sides } => 1 <= drawn <= faces(sides_of(sides)),
        CommandModel::Rhai { script } => !(info is Twitch) && fenced(join(script, " "@))
            ==> outcome_allowed(script_body(join(script, " "@)), verdict),
        _ => true,
    }
}

/// What a line comes to, given the number that the die showed and the
/// outcome of the script. A line that spells a command gets that command's
/// reply. Any other line is looked up by its first word among the ad-hoc
/// commands, unless that word belongs to the vocabulary, and if that gives
/// nothing it is an error with the help text.
pub open spec fn dispatched(
    input: Seq<char>,
    info: AdditionalInfo,
    config: Config,
    drawn: u64,
    verdict: Verdict,
) -> OutputModel {
    match grammar(words_of(input)) {
        Ok(command) => OutputModel::Command {
            value: reply(command, info, config, drawn, verdict),
            command,
        },
        Err(is_help) => match fallback_of(words_of(input), config) {
            Some((name, canned)) => OutputModel::Command {
                value: Some(canned),
                command: CommandModel::AdHoc { text: name },
            },
            None => OutputModel::Error { message: help_text(config), is_help },
        },
    }
}

/// Whether the die and the script can have come out so for this line.
pub open spec fn possible(
    input: Seq<char>,
    info: AdditionalInfo,
    drawn: u64,
    verdict: Verdict,
) -> bool {
    match grammar(words_of(input)) {
        Ok(command) => admissible(command, info, drawn, verdict),
        Err(_) => true,
    }
}

/// Whether `v` spells `word`.
fn is_word(v: &Vec<char>, word: &str) -> (r: bool)
    ensures
        r == (v@ == word@),
{
    let w = chars_of(word);
    same_text(v, &w)
}

/// Whether `v` is a flag that asks for help.
fn is_help_flag(v: &Vec<char>) -> (r: bool)
    ensures
        r == asks_help(v@),
{
    is_word(v, "--help") || is_word(v, "-h")
}

/// Whether one of the pieces from position `from` on is a flag that asks for
/// help.
fn has_help_flag(pieces: &Vec<Vec<char>>, from: usize) -> (r: bool)
    requires
        from <= pieces.len(),
    ensures
        r == any_asks_help(rows(pieces@).skip(from as int)),
{
    let ghost args = rows(pieces@).skip(from as int);
    let mut i: usize = from;
    while i < pieces.len()
        invariant
            from <= i <= pieces.len(),
            args == rows(pieces@).skip(from as int),
            forall|k: int| 0 <= k < i - from ==> !asks_help(#[trigger] args[k]),
        decreases pieces.len() - i,
    {
        if is_help_flag(&pieces[i]) {
            proof {
                assert(asks_help(args[i - from]));
            }
            return true;
        }
        i += 1;
    }
    false
}

/// The words of the line `input`.
fn line_words(input: &str) -> (r: Vec<Vec<char>>)
    ensures
        rows(r@) == words_of(input@),
{
    let chars = chars_of(input);
    let prefix = chars_of("bot?");
    let start: usize = if starts_with(&chars, &prefix) {
        prefix.len()
    } else {
        0
    };
    proof {
        assert(chars@.skip(0) =~= chars@);
    }
    split_words(&chars, start)
}

/// Whether `v` is a word of the command vocabulary.
fn is_builtin_word(v: &Vec<char>) -> (r: bool)
    ensures
        r == is_builtin(v@),
{
    is_word(v, "help") || is_help_flag(v) || is_word(v, "ping") || is_word(v, "whoami") || is_word(
        v,
        "high-five",
    ) || is_word(v, "ferris-say") || is_word(v, "cowsay") || is_word(v, "ferrissay") || is_word(
        v,
        "roll",
    ) || is_word(v, "ad-hoc") || is_word(v, "adhoc") || is_word(v, "rhai") || is_word(v, "admin")
}

/// The pieces from position `from` on, as strings.
fn strings_from(pieces: &Vec<Vec<char>>, from: usize) -> (r: Vec<String>)
    requires
        from <= pieces.len(),
    ensures
        views(r@) == rows(pieces@).skip(from as int),
{
    let mut out: Vec<String> = Vec::new();
    let mut i: usize = from;
    while i < pieces.len()
        invariant
            from <= i <= pieces.len(),
            views(out@) == rows(pieces@).subrange(from as int, i as int),
        decreases pieces.len() - i,
    {
        let s = string_of(&pieces[i]);
        let ghost before = out@;
        out.push(s);
        proof {
            assert(views(out@) =~= views(before).push(s@));
            assert(rows(pieces@).subrange(from as int, i + 1) =~= rows(pieces@).subrange(
                from as int,
                i as int,
            ).push(pieces@[i as int]@));
        }
        i += 1;
    }
    out
}

impl Commands {
    /// The commands, each as its variant is written with empty arguments.
    pub open spec fn listing() -> Seq<Seq<char>> {
        seq![
            "Ping"@,
            "Whoami"@,
            "HighFive"@,
            "FerrisSay { text: [] }"@,
            "Roll { sides: \"\" }"@,
            "AdHoc { text: \"\" }"@,
            "Rhai { script: [] }"@,
            "Admin(Admin { command: Test })"@,
        ]
    }

    /// The list of the commands.
    pub fn commands() -> (r: Vec<String>)
        ensures
            views(r@) == Self::listing(),
    {
        let mut out: Vec<String> = Vec::new();
        out.push(String::from_str("Ping"));
        out.push(String::from_str("Whoami"));
        out.push(String::from_str("HighFive"));
        out.push(String::from_str("FerrisSay { text: [] }"));
        out.push(String::from_str("Roll { sides: \"\" }"));
        out.push(String::from_str("AdHoc { text: \"\" }"));
        out.push(String::from_str("Rhai { script: [] }"));
        out.push(String::from_str("Admin(Admin { command: Test })"));
        proof {
            assert(views(out@) =~= Self::listing());
        }
        out
    }

    /// The command as a chatter would type it after the prefix.
    pub open spec fn spelled(command: CommandModel) -> Seq<char> {
        match command {
            CommandModel::Ping => "ping"@,
            CommandModel::Whoami => "whoami"@,
            CommandModel::HighFive => "high-five"@,
            CommandModel::FerrisSay { text } => "ferris-say "@ + join(text, " "@),
            CommandModel::Roll { sides } => "roll "@ + sides,
            CommandModel::AdHoc { text } => "ad-hoc "@ + text,
            CommandModel::Rhai { script } => "rhai "@ + join(script, " "@),
            CommandModel::Admin(admin) => "admin "@ + AdminCommands::spelled(admin),
        }
    }

    /// The command as text.
    pub fn to_text(&self) -> (r: String)
        ensures
            r@ == Self::spelled(self@),
    {
        match self {
            Commands::Ping => String::from_str("ping"),
            Commands::Whoami => String::from_str("whoami"),
            Commands::HighFive => String::from_str("high-five"),
            Commands::FerrisSay { text } => {
                let mut out = String::from_str("ferris-say ");
                let joined = join_strings(text, " ");
                out.append(joined.as_str());
                out
            },
            Commands::Roll { sides } => {
                let mut out = String::from_str("roll ");
                out.append(sides.as_str());
                out
            },
            Commands::AdHoc { text } => {
                let mut out = String::from_str("ad-hoc ");
                out.append(text.as_str());
                out
            },
            Commands::Rhai { script } => {
                let mut out = String::from_str("rhai ");
                let joined = join_strings(script, " ");
                out.append(joined.as_str());
                out
            },
            Commands::Admin(admin) => {
                let mut out = String::from_str("admin ");
                let name = admin.command.to_text();
                out.append(name.as_str());
                out
            },
        }
    }
}

impl AdminCommands {
    /// The command as the operator would type it.
    pub open spec fn spelled(command: AdminCommands) -> Seq<char> {
        match command {
            AdminCommands::Test => "test"@,
            AdminCommands::ReloadConfig => "reload-config"@,
        }
    }

    /// The command as text.
    pub fn to_text(&self) -> (r: String)
        ensures
            r@ == Self::spelled(*self),
    {
        match self {
            AdminCommands::Test => String::from_str("test"),
            AdminCommands::ReloadConfig => String::from_str("reload-config"),
        }
    }
}

impl Default for Admin {
    fn default() -> (r: Self)
        ensures
            r.command is Test,
    {
        Admin { command: AdminCommands::Test }
    }
}

impl CommandOutput {
    /// What is to be sent: the reply of a command, or the message of an error.
    pub fn get_value(&self) -> (r: Option<String>)
        ensures
            text_of(r) == match self@ {
                OutputModel::Command { value, .. } => value,
                OutputModel::AdminCommand { value, .. } => value,
                OutputModel::Error { message, .. } => Some(message),
            },
    {
        match self {
            CommandOutput::Command { value, .. } => match value {
                Some(v) => Some(v.clone()),
                None => None,
            },
            CommandOutput::AdminCommand { value, .. } => match value {
                Some(v) => Some(v.clone()),
                None => None,
            },
            CommandOutput::Error { message, .. } => Some(message.clone()),
        }
    }

    /// The command as text, or the message of an error.
    pub fn get_command_name(&self) -> (r: String)
        ensures
            r@ == match self@ {
                OutputModel::Command { command, .. } => Commands::spelled(command),
                OutputModel::AdminCommand { command, .. } => AdminCommands::spelled(command),
                OutputModel::Error { message, .. } => message,
            },
    {
        match self {
            CommandOutput::Command { command, .. } => command.to_text(),
            CommandOutput::AdminCommand { command, .. } => command.to_text(),
            CommandOutput::Error { message, .. } => message.clone(),
        }
    }
}

impl From<(Commands, Option<String>)> for CommandOutput {
    /// The output for a command and its reply.
    fn from(value: (Commands, Option<String>)) -> (r: Self) {
        CommandOutput::Command { value: value.1, command: value.0 }
    }
}

impl vstd::std_specs::convert::FromSpecImpl<(Commands, Option<String>)> for CommandOutput {
    open spec fn obeys_from_spec() -> bool {
        true
    }

    open spec fn from_spec(value: (Commands, Option<String>)) -> Self {
        CommandOutput::Command { value: value.1, command: value.0 }
    }
}

impl From<(AdminCommands, Option<String>)> for CommandOutput {
    /// The output for an operator's command and its reply.
    fn from(value: (AdminCommands, Option<String>)) -> (r: Self) {
        CommandOutput::AdminCommand { value: value.1, command: value.0 }
    }
}

impl vstd::std_specs::convert::FromSpecImpl<(AdminCommands, Option<String>)> for CommandOutput {
    open spec fn obeys_from_spec() -> bool {
        true
    }

    open spec fn from_spec(value: (AdminCommands, Option<String>)) -> Self {
        CommandOutput::AdminCommand { value: value.1, command: value.0 }
    }
}

impl Cli {
    /// Reads a line as a command. The prefix at the start of the line counts
    /// for nothing; the first word after it names the command. `Err` carries
    /// the flag that tells a request for help from a mistake.
    pub fn try_parse(input: &str) -> (r: Result<Cli, bool>)
        ensures
            match r {
                Ok(cli) => grammar(words_of(input@)) == Ok::<CommandModel, bool>(cli.command@),
                Err(is_help) => grammar(words_of(input@)) == Err::<CommandModel, bool>(is_help),
            },
    {
        let pieces = line_words(input);
        let ghost words = words_of(input@);
        if pieces.len() < 1 {
            return Err(false);
        }
        let name = &pieces[0];
        let count: usize = pieces.len() - 1;
        proof {
            assert(words[0] == name@);
            assert(words.drop_first() =~= rows(pieces@).skip(1));
            assert(words.drop_first().len() == count);
            if count >= 1 {
                assert(words.drop_first()[0] == pieces@[1]@);
            }
        }
        if is_word(name, "help") || is_help_flag(name) {
            Err(true)
        } else if is_builtin_word(name) && has_help_flag(&pieces, 1) {
            Err(true)
        } else if is_word(name, "ping") {
            if count == 0 {
                Ok(Cli { command: Commands::Ping })
            } else {
                Err(false)
            }
        } else if is_word(name, "whoami") {
            if count == 0 {
                Ok(Cli { command: Commands::Whoami })
            } else {
                Err(false)
            }
        } else if is_word(name, "high-five") {
            if count == 0 {
                Ok(Cli { command: Commands::HighFive })
            } else {
                Err(false)
            }
        } else if is_word(name, "ferris-say") || is_word(name, "cowsay") || is_word(
            name,
            "ferrissay",
        ) {
            if count >= 1 {
                Ok(Cli { command: Commands::FerrisSay { text: strings_from(&pieces, 1) } })
            } else {
                Err(false)
            }
        } else if is_word(name, "roll") {
            if count == 1 {
                Ok(Cli { command: Commands::Roll { sides: string_of(&pieces[1]) } })
            } else {
                Err(false)
            }
        } else if is_word(name, "ad-hoc") || is_word(name, "adhoc") {
            if count == 1 {
                Ok(Cli { command: Commands::AdHoc { text: string_of(&pieces[1]) } })
            } else {
                Err(false)
            }
        } else if is_word(name, "rhai") {
            Ok(Cli { command: Commands::Rhai { script: strings_from(&pieces, 1) } })
        } else if is_word(name, "admin") {
            if count == 1 && is_word(&pieces[1], "test") {
                Ok(Cli { command: Commands::Admin(Admin { command: AdminCommands::Test }) })
            } else if count == 1 && is_word(&pieces[1], "reload-config") {
                Ok(
                    Cli {
                        command: Commands::Admin(Admin { command: AdminCommands::ReloadConfig }),
                    },
                )
            } else {
                Err(count >= 1 && is_word(&pieces[1], "help"))
            }
        } else {
            Err(false)
        }
    }
}

/// The usage text.
pub fn show_help() -> (r: String)
    ensures
        r@ == usage(),
{
    String::from_str(
        "A multibot made by youwin.\n\nUsage: bot? <COMMAND>\n\nCommands:\n  ping        Ping the bot\n  whoami      Receive a username and reply appropriately\n  high-five   Reply with a clap emoji\n  ferris-say  Have Ferris say something [aliases: cowsay, ferrissay]\n  roll        Generate a random number from 1 - input\n  ad-hoc      An ad hoc command that only returns a String value [aliases: adhoc]\n  rhai        Run a Rhai script in safe mode\n  admin       Commands for the bot's operator: test, reload-config\n  help        Print this message\n",
    )
}

/// The usage text followed by the names of the ad-hoc commands of `config`.
pub fn show_help_with(config: &Config) -> (r: String)
    ensures
        r@ == help_text(*config),
{
    let mut out = show_help();
    out.append("\nAd-hoc commands:\n  ");
    let names = config.ad_hoc_commands();
    let listed = join_strings(&names, ", ");
    out.append(listed.as_str());
    out
}

/// The text inside a fence.
fn in_fence(text: &str) -> (r: String)
    ensures
        r@ == fence() + text@ + fence(),
{
    let mut out = String::from_str("```");
    out.append(text);
    out.append("```");
    out
}

/// The reply to a roll that showed `drawn`.
pub fn roll_reply(drawn: u64) -> (r: String)
    ensures
        r@ == decimal(drawn as nat),
{
    decimal_string(drawn)
}

/// The reply to a script that came to `result`: the output inside a fence, or
/// the error's text as it is.
pub fn rhai_reply(result: Result<String, ScriptError>) -> (r: String)
    ensures
        r@ == script_reply(verdict_of(result)),
{
    match result {
        Ok(out) => in_fence(out.as_str()),
        Err(e) => e.message(),
    }
}

/// The script between its fences, if `script` is properly fenced.
pub fn unfence(script: &String) -> (r: Option<String>)
    ensures
        match r {
            Some(body) => fenced(script@) && body@ == script_body(script@),
            None => !fenced(script@),
        },
{
    let chars = chars_of(script.as_str());
    let rhai = chars_of("```rhai");
    let rust = chars_of("```rust");
    let close = chars_of("```");
    if chars.len() >= 10 && (starts_with(&chars, &rhai) || starts_with(&chars, &rust))
        && ends_with(&chars, &close) {
        let body = slice_of(&chars, 7, chars.len() - 3);
        Some(string_of(&body))
    } else {
        None
    }
}

/// The number of sides that the argument of `roll` asks for.
pub fn sides_from(sides: &String) -> (r: u64)
    ensures
        r == sides_of(sides@),
{
    let chars = chars_of(sides.as_str());
    match parse_unsigned(&chars) {
        Some(n) => n,
        None => 6,
    }
}

/// Answers a command. What `roll` shows and what a script comes to are not
/// in this function's hands: the reply is that of `reply` for some number
/// the die can show and some outcome the script can have.
pub fn respond(command: &Commands, info: &AdditionalInfo, config: &Config) -> (r: Option<String>)
    ensures
        exists|drawn: u64, verdict: Verdict|
            admissible(command@, *info, drawn, verdict) && text_of(r) == #[trigger] reply(
                command@,
                *info,
                *config,
                drawn,
                verdict,
            ),
{
    let ghost mut shown: u64 = 1;
    let ghost mut outcome = Verdict::Forbidden;
    let r = match command {
        Commands::Ping => Some(ping()),
        Commands::Whoami => match info {
            AdditionalInfo::Discord { name, .. } => Some(whoami(name)),
            AdditionalInfo::Twitch { name, .. } => Some(whoami(name)),
            AdditionalInfo::Anonymous => Some(show_help()),
        },
        Commands::HighFive => Some(high_five()),
        Commands::FerrisSay { text } => match info {
            AdditionalInfo::Discord { .. } => {
                let joined = join_strings(text, " ");
                let drawing = ferris_say(&joined);
                Some(in_fence(drawing.as_str()))
            },
            _ => Some(String::from_str("This does not work in Twitch chat!")),
        },
        Commands::Roll { sides } => {
            let drawn = roll(sides_from(sides));
            proof {
                shown = drawn;
            }
            Some(roll_reply(drawn))
        },
        Commands::AdHoc { text } => match config.ad_hoc_command(text) {
            Some(canned) => Some(canned),
            None => Some(show_help()),
        },
        Commands::Rhai { script } => match info {
            AdditionalInfo::Twitch { .. } => Some(
                String::from_str("This does not work in Twitch chat!"),
            ),
            _ => {
                let joined = join_strings(script, " ");
                match unfence(&joined) {
                    None => Some(
                        String::from_str("Improperly formatted script, declining to run."),
                    ),
                    Some(body) => {
                        let result = execute(body.as_str());
                        proof {
                            outcome = verdict_of(result);
                        }
                        Some(rhai_reply(result))
                    },
                }
            },
        },
        Commands::Admin(admin) => match admin.command {
            AdminCommands::ReloadConfig => None,
            AdminCommands::Test => Some(show_help()),
        },
    };
    proof {
        assert(admissible(command@, *info, shown, outcome) && text_of(r) == reply(
            command@,
            *info,
            *config,
            shown,
            outcome,
        ));
    }
    r
}

/// The name under which `input` is looked up among the ad-hoc commands.
fn unknown_name(input: &str) -> (r: Option<String>)
    ensures
        match r {
            Some(name) => ad_hoc_name(words_of(input@)) == Some(name@),
            None => ad_hoc_name(words_of(input@)) is None,
        },
{
    let pieces = line_words(input);
    if pieces.len() < 1 {
        return None;
    }
    proof {
        assert(words_of(input@)[0] == pieces@[0]@);
    }
    if is_builtin_word(&pieces[0]) {
        None
    } else {
        Some(string_of(&pieces[0]))
    }
}

/// The ad-hoc command that `input` falls back to, with its reply.
fn fallback(input: &str, config: &Config) -> (r: Option<(String, String)>)
    ensures
        match r {
            Some((name, canned)) => fallback_of(words_of(input@), *config) == Some(
                (name@, canned@),
            ),
            None => fallback_of(words_of(input@), *config) is None,
        },
{
    match unknown_name(input) {
        Some(name) => match config.ad_hoc_command(&name) {
            Some(canned) => Some((name, canned)),
            None => None,
        },
        None => None,
    }
}

/// Turns a line of chat into a command and its reply. A line that spells no
/// command falls back to the ad-hoc commands of `config`, looked up by the
/// line's first word where that is no word of the vocabulary; if that fails
/// too, the output is an error that carries the help text. The output is that of `dispatched` for some number the die
/// can show and some outcome the script can have.
pub fn parse(input: &str, info: AdditionalInfo, config: &Config) -> (r: CommandOutput)
    ensures
        exists|drawn: u64, verdict: Verdict|
            possible(input@, info, drawn, verdict) && r@ == #[trigger] dispatched(
                input@,
                info,
                *config,
                drawn,
                verdict,
            ),
{
    match Cli::try_parse(input) {
        Ok(cli) => {
            let value = respond(&cli.command, &info, config);
            let r = CommandOutput::Command { value, command: cli.command };
            proof {
                let (drawn, verdict) = choose|drawn: u64, verdict: Verdict|
                    admissible(cli.command@, info, drawn, verdict) && text_of(value)
                        == #[trigger] reply(cli.command@, info, *config, drawn, verdict);
                assert(possible(input@, info, drawn, verdict) && r@ == dispatched(
                    input@,
                    info,
                    *config,
                    drawn,
                    verdict,
                ));
            }
            r
        },
        Err(is_help) => {
            let r = match fallback(input, config) {
                Some((name, canned)) => CommandOutput::Command {
                    value: Some(canned),
                    command: Commands::AdHoc { text: name },
                },
                None => CommandOutput::Error { message: show_help_with(config), is_help },
            };
            proof {
                assert(possible(input@, info, 1, Verdict::Forbidden) && r@ == dispatched(
                    input@,
                    info,
                    *config,
                    1,
                    Verdict::Forbidden,
                ));
            }
            r
        },
    }
}

} // verus!
