//! Per-chatter spam tracking: when a chatter last wrote, and how many times
//! in a row they wrote too soon.

use crate::assoc::{find, keys_of, lemma_find, lemma_find_absent, lemma_find_changed};
use tokio::time::Instant;
use vstd::prelude::*;

verus! {

/// A message that follows the last one sooner than this many milliseconds is
/// spam.
pub const MIN_NON_SPAM_MILLIS: u64 = 750;

/// Strikes above this count mark a chatter for a penalty.
pub const MAX_STRIKES: u8 = 3;

/// Strikes above this count mark a chatter's messages for deletion without a
/// warning.
pub const SILENT_DELETE_AMOUNT: u8 = 4;

/// Who wrote a message: the platform, and the identifier the platform gives.
#[derive(Debug, Clone)]
pub enum Chatter {
    /// A Discord user, by numeric id.
    Discord(u64),
    /// A Twitch user, by login.
    Twitch(String),
}

/// A chatter as plain values.
pub enum ChatterModel {
    Discord(u64),
    Twitch(Seq<char>),
}

impl View for Chatter {
    type V = ChatterModel;

    open spec fn view(&self) -> ChatterModel {
        match *self {
            Chatter::Discord(id) => ChatterModel::Discord(id),
            Chatter::Twitch(login) => ChatterModel::Twitch(login@),
        }
    }
}

impl Chatter {
    /// Whether two identities are the same chatter.
    pub fn same(&self, other: &Chatter) -> (r: bool)
        ensures
            r == (self@ == other@),
    {
        match (self, other) {
            (Chatter::Discord(a), Chatter::Discord(b)) => *a == *b,
            (Chatter::Twitch(a), Chatter::Twitch(b)) => *a == *b,
            _ => false,
        }
    }

    /// A copy of this identity.
    pub fn duplicate(&self) -> (r: Chatter)
        ensures
            r@ == self@,
    {
        match self {
            Chatter::Discord(id) => Chatter::Discord(*id),
            Chatter::Twitch(login) => Chatter::Twitch(login.clone()),
        }
    }
}

/// What is remembered of one chatter.
#[derive(Debug, Clone, Copy)]
pub struct History {
    /// When the chatter last wrote, in milliseconds since the engine started.
    pub last_timestamp: u64,
    /// How many messages in a row came too soon.
    pub strikes: u8,
    /// Whether the chatter's messages are deleted without a warning.
    pub silent_delete: bool,
}

/// The time from `last` to `now`; none if `now` is the earlier.
pub open spec fn elapsed(last: u64, now: u64) -> u64 {
    if now >= last {
        (now - last) as u64
    } else {
        0
    }
}

/// One strike more; the count stays at its largest value once it is there.
pub open spec fn bump(strikes: u8) -> u8 {
    if strikes < u8::MAX {
        (strikes + 1) as u8
    } else {
        strikes
    }
}

/// Whether a message at `now` from a chatter with this history is spam: the
/// chatter is known and wrote less than the minimum interval ago.
pub open spec fn spam(known: Option<History>, now: u64) -> bool {
    match known {
        Some(h) => elapsed(h.last_timestamp, now) < MIN_NON_SPAM_MILLIS,
        None => false,
    }
}

/// The history of a chatter after a message at `now`. The time is that of
/// the message in every case. Spam adds a strike; anything else, and a first
/// message, leaves none.
pub open spec fn recorded(known: Option<History>, now: u64) -> History {
    match known {
        Some(h) => if spam(known, now) {
            History {
                last_timestamp: now,
                strikes: bump(h.strikes),
                silent_delete: h.silent_delete || bump(h.strikes) > SILENT_DELETE_AMOUNT,
            }
        } else {
            History { last_timestamp: now, strikes: 0, silent_delete: false }
        },
        None => History { last_timestamp: now, strikes: 0, silent_delete: false },
    }
}

/// Whether the flag of a history says what its strikes say: messages are
/// deleted without a warning exactly while the strikes are above
/// `SILENT_DELETE_AMOUNT`.
pub open spec fn steady(h: History) -> bool {
    h.silent_delete == (h.strikes > SILENT_DELETE_AMOUNT)
}

/// Whether a chatter with this history is to be penalized.
pub open spec fn penalized(known: Option<History>) -> bool {
    match known {
        Some(h) => h.strikes > MAX_STRIKES,
        None => false,
    }
}

/// Whether the messages of a chatter with this history are deleted without a
/// warning.
pub open spec fn silenced(known: Option<History>) -> bool {
    match known {
        Some(h) => h.silent_delete,
        None => false,
    }
}

/// `tokio::time::Instant`, a point in time of which nothing is known here.
#[verifier::external_type_specification]
#[verifier::external_body]
pub struct ExInstant(Instant);

/// Calls `tokio::time::Instant::now`. Nothing is claimed of the instant.
#[verifier::external_body]
fn clock_start() -> (start: Instant) {
    Instant::now()
}

/// Calls `tokio::time::Instant::elapsed` and gives the whole milliseconds of
/// the duration. Nothing is claimed of the number: it is the time.
#[verifier::external_body]
fn millis_since(start: &Instant) -> (millis: u64) {
    start.elapsed().as_millis() as u64
}

/// Checks if a message from a chatter is spam based on the time since the
/// chatter's last message.
pub struct Antispam {
    started: Instant,
    chatter_history: Vec<(Chatter, History)>,
}

impl Antispam {
    /// The chatters and their histories, in the order of first contact.
    pub closed spec fn entries(&self) -> Seq<(ChatterModel, History)> {
        Seq::new(
            self.chatter_history@.len(),
            |i: int| (self.chatter_history@[i].0@, self.chatter_history@[i].1),
        )
    }

    /// What is remembered of `chatter`, if anything.
    pub open spec fn history(&self, chatter: ChatterModel) -> Option<History> {
        find(self.entries(), chatter)
    }

    /// No chatter has two histories, and every history is steady. Every
    /// engine made by `new` and changed by its own methods is so.
    pub open spec fn wf(&self) -> bool {
        &&& keys_of(self.entries()).no_duplicates()
        &&& forall|i: int| 0 <= i < self.entries().len() ==> steady(#[trigger] self.entries()[i].1)
    }

    /// Create a new instance of `Antispam`, which remembers nobody.
    pub fn new() -> (r: Self)
        ensures
            r.wf(),
            forall|c: ChatterModel| r.history(c) is None,
    {
        let r = Antispam { started: clock_start(), chatter_history: Vec::new() };
        proof {
            assert(r.entries() =~= Seq::<(ChatterModel, History)>::empty());
        }
        r
    }

    /// The position of the chatter's entry, or the number of entries.
    fn position(&self, chatter: &Chatter) -> (i: usize)
        ensures
            i <= self.entries().len(),
            self.entries().len() == self.chatter_history@.len(),
            forall|k: int| 0 <= k < i ==> self.entries()[k].0 != chatter@,
            i < self.entries().len() ==> self.entries()[i as int].0 == chatter@,
            self.history(chatter@) == if i < self.entries().len() {
                Some(self.entries()[i as int].1)
            } else {
                None
            },
    {
        let mut i: usize = 0;
        while i < self.chatter_history.len()
            invariant
                i <= self.chatter_history.len(),
                forall|k: int| 0 <= k < i ==> self.entries()[k].0 != chatter@,
            decreases self.chatter_history.len() - i,
        {
            if self.chatter_history[i].0.same(chatter) {
                proof {
                    lemma_find(self.entries(), chatter@, i as int);
                }
                return i;
            }
            i += 1;
        }
        proof {
            lemma_find(self.entries(), chatter@, i as int);
        }
        i
    }

    /// Records a message from `chatter` at `now`, in milliseconds since the
    /// engine started, and tells whether it is spam.
    pub fn record_at(&mut self, chatter: &Chatter, now: u64) -> (r: bool)
        ensures
            r == spam(old(self).history(chatter@), now),
            final(self).history(chatter@) == Some(recorded(old(self).history(chatter@), now)),
            forall|other: ChatterModel|
                other != chatter@ ==> #[trigger] final(self).history(other) == old(self).history(
                    other,
                ),
            old(self).wf() ==> final(self).wf(),
    {
        let i = self.position(chatter);
        let ghost before = self.entries();
        let known: Option<History> = if i < self.chatter_history.len() {
            Some(self.chatter_history[i].1)
        } else {
            None
        };
        let r = match known {
            Some(h) => {
                let since: u64 = if now >= h.last_timestamp {
                    now - h.last_timestamp
                } else {
                    0
                };
                since < MIN_NON_SPAM_MILLIS
            },
            None => false,
        };
        let next = match known {
            Some(h) => if r {
                let strikes: u8 = if h.strikes < u8::MAX {
                    h.strikes + 1
                } else {
                    h.strikes
                };
                History {
                    last_timestamp: now,
                    strikes,
                    silent_delete: h.silent_delete || strikes > SILENT_DELETE_AMOUNT,
                }
            } else {
                History { last_timestamp: now, strikes: 0, silent_delete: false }
            },
            None => History { last_timestamp: now, strikes: 0, silent_delete: false },
        };
        if i < self.chatter_history.len() {
            self.chatter_history.set(i, (chatter.duplicate(), next));
        } else {
            self.chatter_history.push((chatter.duplicate(), next));
        }
        let ghost after = self.entries();
        proof {
            if i < before.len() {
                assert(after =~= before.update(i as int, (chatter@, next)));
                assert(keys_of(after) =~= keys_of(before));
            } else {
                assert(after =~= before.push((chatter@, next)));
                assert(keys_of(after) =~= keys_of(before).push(chatter@));
                lemma_find_absent(before, chatter@);
            }
            lemma_find(after, chatter@, i as int);
            assert forall|other: ChatterModel| other != chatter@ implies #[trigger] find(
                after,
                other,
            ) == find(before, other) by {
                lemma_find_changed(before, after, chatter@, other, i as int);
            }
            if old(self).wf() {
                if i < before.len() {
                    assert(steady(before[i as int].1));
                }
                assert(steady(next));
                assert forall|j: int| 0 <= j < after.len() implies steady(
                    #[trigger] after[j].1,
                ) by {
                    if j != i {
                        assert(after[j] == before[j]);
                    }
                }
            }
        }
        r
    }

    /// Check if the given chatter is spamming, by the clock: records the
    /// message at the present time, whatever that is, as `record_at` does.
    pub fn is_spam(&mut self, chatter: &Chatter) -> (r: bool)
        ensures
            exists|now: u64|
                {
                    &&& r == #[trigger] spam(old(self).history(chatter@), now)
                    &&& final(self).history(chatter@) == Some(
                        recorded(old(self).history(chatter@), now),
                    )
                },
            forall|other: ChatterModel|
                other != chatter@ ==> #[trigger] final(self).history(other) == old(self).history(
                    other,
                ),
            old(self).wf() ==> final(self).wf(),
    {
        let now = millis_since(&self.started);
        let r = self.record_at(chatter, now);
        proof {
            assert(r == spam(old(self).history(chatter@), now));
        }
        r
    }

    /// What is remembered of the chatter, if anything.
    pub fn history_of(&self, chatter: &Chatter) -> (r: Option<History>)
        ensures
            r == self.history(chatter@),
    {
        let i = self.position(chatter);
        if i < self.chatter_history.len() {
            Some(self.chatter_history[i].1)
        } else {
            None
        }
    }

    /// Whether the chatter has more strikes than are let pass.
    pub fn too_many_strikes(&self, chatter: &Chatter) -> (r: bool)
        ensures
            r == penalized(self.history(chatter@)),
    {
        let i = self.position(chatter);
        if i < self.chatter_history.len() {
            self.chatter_history[i].1.strikes > MAX_STRIKES
        } else {
            false
        }
    }

    /// Whether the chatter's messages are deleted without a warning.
    pub fn should_silent_delete(&self, chatter: &Chatter) -> (r: bool)
        ensures
            r == silenced(self.history(chatter@)),
            self.wf() ==> r == match self.history(chatter@) {
                Some(h) => h.strikes > SILENT_DELETE_AMOUNT,
                None => false,
            },
    {
        let i = self.position(chatter);
        if i < self.chatter_history.len() {
            self.chatter_history[i].1.silent_delete
        } else {
            false
        }
    }

    /// Clears the spam history. Needed so the history does not grow
    /// infinitely large.
    pub fn reset(&mut self)
        ensures
            final(self).wf(),
            forall|c: ChatterModel| final(self).history(c) is None,
    {
        self.chatter_history.clear();
        proof {
            assert(self.entries() =~= Seq::<(ChatterModel, History)>::empty());
        }
    }
}

/// A chatter's first message is never spam and leaves no strike.
pub proof fn law_first_contact(now: u64)
    ensures
        !spam(None, now),
        recorded(None, now).strikes == 0,
        recorded(None, now).last_timestamp == now,
{
}

/// The second message of a chatter is spam, and the first strike, exactly if
/// it follows the first within the minimum interval.
pub proof fn law_second_contact(first: u64, second: u64)
    ensures
        spam(Some(recorded(None, first)), second) <==> elapsed(first, second)
            < MIN_NON_SPAM_MILLIS,
        recorded(Some(recorded(None, first)), second).strikes == if elapsed(first, second)
            < MIN_NON_SPAM_MILLIS {
            1u8
        } else {
            0u8
        },
{
}

/// A message that follows the last within the minimum interval is spam and
/// adds one strike, as long as the count has room.
pub proof fn law_within_interval(h: History, now: u64)
    requires
        elapsed(h.last_timestamp, now) < MIN_NON_SPAM_MILLIS,
        h.strikes < u8::MAX,
    ensures
        spam(Some(h), now),
        recorded(Some(h), now).strikes == h.strikes + 1,
        recorded(Some(h), now).last_timestamp == now,
{
}

/// A message that comes once the minimum interval has passed is never spam
/// and clears the strikes.
pub proof fn law_after_interval(h: History, now: u64)
    requires
        elapsed(h.last_timestamp, now) >= MIN_NON_SPAM_MILLIS,
    ensures
        !spam(Some(h), now),
        recorded(Some(h), now).strikes == 0,
        recorded(Some(h), now).last_timestamp == now,
{
}

/// The flag for deleting without a warning follows the strikes: it is steady
/// after a first message, and stays steady through every message after it.
pub proof fn law_silence(h: History, now: u64)
    ensures
        steady(recorded(None, now)),
        steady(h) ==> steady(recorded(Some(h), now)),
        steady(h) ==> (silenced(Some(recorded(Some(h), now))) <==> recorded(Some(h), now).strikes
            > SILENT_DELETE_AMOUNT),
{
}

/// A chatter is penalized exactly while the strikes are above the threshold:
/// spam never lowers the count, so the penalty stays until a message that is
/// no spam clears the strikes.
pub proof fn law_penalty(h: History, now: u64)
    ensures
        penalized(Some(h)) <==> h.strikes > MAX_STRIKES,
        !penalized(None),
        spam(Some(h), now) ==> recorded(Some(h), now).strikes >= h.strikes,
        spam(Some(h), now) && penalized(Some(h)) ==> penalized(Some(recorded(Some(h), now))),
        !spam(Some(h), now) ==> !penalized(Some(recorded(Some(h), now))),
{
}

} // verus!
