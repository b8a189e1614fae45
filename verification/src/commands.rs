//! What each built-in command answers.

use crate::text::{chars_of, find_from, first_index, slice_of, string_of};
use rand::Rng;
use vstd::prelude::*;
use vstd::string::*;
use vstd::utf8::*;

verus! {

/// The column at which framed text is wrapped.
pub const FRAME_WIDTH: usize = 36;

/// The longest text, in characters, that is framed.
pub const MAX_FRAME_TEXT: usize = 100_000;

/// What `ferris_says::say` writes for a text and a wrapping width: the bytes
/// of the framed drawing, or the message of the error it returned.
pub uninterp spec fn framed(text: Seq<char>, width: usize) -> Result<Seq<u8>, Seq<char>>;

/// The message with which `String::from_utf8` refuses bytes that are not UTF-8.
pub uninterp spec fn utf8_refusal(bytes: Seq<u8>) -> Seq<char>;

/// Calls `ferris_says::say` on the bytes of `text` with a vector as the
/// writer. The contract only names what comes back: the written bytes, or the
/// text of the error. The call wraps the text with penalties that it adds up
/// in 32 bits; the width and the length asked for here keep the sum in range.
#[verifier::external_body]
fn frame(text: &str, width: usize) -> (r: Result<Vec<u8>, String>)
    requires
        width == FRAME_WIDTH,
        text@.len() <= MAX_FRAME_TEXT,
    ensures
        match r {
            Ok(bytes) => framed(text@, width) == Ok::<Seq<u8>, Seq<char>>(bytes@),
            Err(e) => framed(text@, width) == Err::<Seq<u8>, Seq<char>>(e@),
        },
{
    let mut out: Vec<u8> = Vec::new();
    match ferris_says::say(text.as_bytes(), width, &mut out) {
        Ok(()) => Ok(out),
        Err(e) => Err(e.to_string()),
    }
}

/// Calls `String::from_utf8`. It accepts exactly the byte sequences that are
/// UTF-8 and then gives the text they encode; otherwise the contract names the
/// message of its error.
#[verifier::external_body]
fn decode(bytes: Vec<u8>) -> (r: Result<String, String>)
    ensures
        match r {
            Ok(s) => valid_utf8(bytes@) && s@ == decode_utf8(bytes@),
            Err(e) => !valid_utf8(bytes@) && e@ == utf8_refusal(bytes@),
        },
{
    match String::from_utf8(bytes) {
        Ok(s) => Ok(s),
        Err(e) => Err(e.to_string()),
    }
}

/// Calls `rand::thread_rng().gen_range(1..=high)`, which draws a number from
/// the range; the contract states only that the number lies in it.
#[verifier::external_body]
fn draw(high: u64) -> (r: u64)
    requires
        high >= 1,
    ensures
        1 <= r <= high,
{
    rand::thread_rng().gen_range(1..=high)
}

/// The answer to a ping.
pub open spec fn ping_text() -> Seq<char> {
    "pong"@
}

/// Ping pong.
pub fn ping() -> (r: String)
    ensures
        r@ == ping_text(),
{
    String::from_str("pong")
}

/// What a chatter called `name` is told about who they are.
pub open spec fn whoami_text(name: Seq<char>) -> Seq<char> {
    "You are "@ + name + "!"@
}

/// Receive a username and reply appropriately.
pub fn whoami(name: &String) -> (r: String)
    ensures
        r@ == whoami_text(name@),
{
    let mut out = String::from_str("You are ");
    out.append(name.as_str());
    out.append("!");
    out
}

/// The clap emoji.
pub open spec fn high_five_text() -> Seq<char> {
    "👏"@
}

/// Reply with a clap emoji.
pub fn high_five() -> (r: String)
    ensures
        r@ == high_five_text(),
{
    String::from_str("👏")
}

/// What a chatter called `name` is told when they start lurking.
pub open spec fn lurk_text(name: Seq<char>) -> Seq<char> {
    "You are now lurking, "@ + name
}

/// Acknowledge that a chatter is lurking.
pub fn lurk(name: &String) -> (r: String)
    ensures
        r@ == lurk_text(name@),
{
    let mut out = String::from_str("You are now lurking, ");
    out.append(name.as_str());
    out
}

/// The words that open the explanation of a drawing that could not be made.
pub open spec fn apology() -> Seq<char> {
    "Ferris wasn't able to say anything: "@
}

/// The reply made from what the framing call returned: the drawing as text
/// where the call succeeded and wrote UTF-8, else the apology with the reason.
pub open spec fn drawing_or_apology(outcome: Result<Seq<u8>, Seq<char>>) -> Seq<char> {
    match outcome {
        Ok(bytes) => if valid_utf8(bytes) {
            decode_utf8(bytes)
        } else {
            apology() + utf8_refusal(bytes)
        },
        Err(e) => apology() + e,
    }
}

/// Turns what the framing call returned into a reply. Bytes that are not
/// UTF-8, and an error of the call, become an apology; nothing fails.
pub fn say_or_apologize(outcome: Result<Vec<u8>, String>) -> (r: String)
    ensures
        r@ == drawing_or_apology(
            match outcome {
                Ok(bytes) => Ok(bytes@),
                Err(e) => Err(e@),
            },
        ),
{
    match outcome {
        Ok(bytes) => match decode(bytes) {
            Ok(s) => s,
            Err(e) => {
                let mut out = String::from_str("Ferris wasn't able to say anything: ");
                out.append(e.as_str());
                out
            },
        },
        Err(e) => {
            let mut out = String::from_str("Ferris wasn't able to say anything: ");
            out.append(e.as_str());
            out
        },
    }
}

/// Why a text that is too long is not framed.
pub open spec fn too_long() -> Seq<char> {
    "the text is too long"@
}

/// What is said for a text: the apology for a text of more than
/// `MAX_FRAME_TEXT` characters, else the drawing of the text wrapped at
/// `FRAME_WIDTH` columns, or the apology with the reason it could not be made.
pub open spec fn said(text: Seq<char>) -> Seq<char> {
    if text.len() > MAX_FRAME_TEXT {
        apology() + too_long()
    } else {
        drawing_or_apology(framed(text, FRAME_WIDTH))
    }
}

/// Similar to how `cowsay` works, take a message and make it fancy: the text
/// wrapped at `FRAME_WIDTH` columns inside a speech bubble. A text that is
/// too long to be framed gets the apology instead.
pub fn ferris_say(text: &String) -> (r: String)
    ensures
        r@ == said(text@),
{
    if text.as_str().unicode_len() > MAX_FRAME_TEXT {
        let mut out = String::from_str("Ferris wasn't able to say anything: ");
        out.append("the text is too long");
        out
    } else {
        say_or_apologize(frame(text.as_str(), FRAME_WIDTH))
    }
}

/// The number of faces a die with `sides` sides is rolled with: at least two.
pub open spec fn faces(sides: u64) -> u64 {
    if sides < 2 {
        2
    } else {
        sides
    }
}

/// Roll a die with the given number of sides; fewer than two count as two.
/// The result is drawn at random from 1 up to the number of faces.
pub fn roll(sides: u64) -> (r: u64)
    ensures
        1 <= r <= faces(sides),
        sides <= 1 ==> r == 1 || r == 2,
{
    let faces: u64 = if sides < 2 {
        2
    } else {
        sides
    };
    draw(faces)
}

/// Asks for the settings to be read again. The reload itself is the
/// supervisor's work, so there is nothing to do here.
pub fn reload_config() {
}

/// What follows the first space of `text`, or all of `text` if it has none.
pub open spec fn without_prefix(text: Seq<char>) -> Seq<char> {
    let i = first_index(text, ' ');
    if 0 <= i < text.len() {
        text.skip(i + 1)
    } else {
        text
    }
}

/// Drops the first word of `text` and the space after it.
pub fn strip_command_prefix(text: &String) -> (r: String)
    ensures
        r@ == without_prefix(text@),
{
    let chars = chars_of(text.as_str());
    let i = find_from(&chars, 0, ' ');
    proof {
        assert(chars@.skip(0) =~= chars@);
    }
    if i < chars.len() {
        let rest = slice_of(&chars, i + 1, chars.len());
        string_of(&rest)
    } else {
        text.clone()
    }
}

} // verus!
