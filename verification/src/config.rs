//! Bot settings: the snapshot that every component reads, its defaults, and
//! the small text-keyed table it is built from.

use crate::assoc::{find, keys_of, lemma_find, lemma_find_absent, lemma_find_changed};
use vstd::prelude::*;

verus! {

/// A table from text keys to values in which no key occurs twice. It keeps
/// its entries in the order in which their keys first came.
#[derive(Debug, Clone)]
pub struct TextMap<V> {
    items: Vec<(String, V)>,
}

impl<V> TextMap<V> {
    /// The entries as pairs of key text and value, in order.
    pub closed spec fn entries(&self) -> Seq<(Seq<char>, V)> {
        Seq::new(self.items@.len(), |i: int| (self.items@[i].0@, self.items@[i].1))
    }

    /// The keys, in order.
    pub open spec fn names(&self) -> Seq<Seq<char>> {
        keys_of(self.entries())
    }

    /// The value stored under `key`, if any.
    pub open spec fn lookup(&self, key: Seq<char>) -> Option<V> {
        find(self.entries(), key)
    }

    /// No key occurs twice. Every table made by `new` and `insert` is so.
    pub open spec fn wf(&self) -> bool {
        self.names().no_duplicates()
    }

    /// A table without entries.
    pub fn new() -> (r: Self)
        ensures
            r.entries() == Seq::<(Seq<char>, V)>::empty(),
            r.wf(),
    {
        let r = TextMap { items: Vec::new() };
        proof {
            assert(r.entries() =~= Seq::<(Seq<char>, V)>::empty());
        }
        r
    }

    /// The number of entries.
    pub fn len(&self) -> (n: usize)
        ensures
            n == self.entries().len(),
    {
        self.items.len()
    }

    /// The position of the entry with this key, or the number of entries.
    fn position(&self, key: &str) -> (i: usize)
        ensures
            i <= self.entries().len(),
            forall|k: int| 0 <= k < i ==> self.entries()[k].0 != key@,
            i < self.entries().len() ==> self.entries()[i as int].0 == key@,
    {
        let wanted = crate::text::chars_of(key);
        let mut i: usize = 0;
        while i < self.items.len()
            invariant
                i <= self.items.len(),
                wanted@ == key@,
                forall|k: int| 0 <= k < i ==> self.entries()[k].0 != key@,
            decreases self.items.len() - i,
        {
            let here = crate::text::chars_of(self.items[i].0.as_str());
            if crate::text::same_text(&here, &wanted) {
                return i;
            }
            i += 1;
        }
        i
    }

    /// The value stored under `key`, if any.
    pub fn get(&self, key: &str) -> (r: Option<&V>)
        ensures
            r == match self.lookup(key@) {
                Some(v) => Some(&v),
                None => None,
            },
    {
        let i = self.position(key);
        proof {
            lemma_find(self.entries(), key@, i as int);
        }
        if i < self.items.len() {
            Some(&self.items[i].1)
        } else {
            None
        }
    }

    /// The value of entry `i`.
    pub fn value_at(&self, i: usize) -> (r: &V)
        requires
            i < self.entries().len(),
        ensures
            *r == self.entries()[i as int].1,
    {
        &self.items[i].1
    }

    /// The key of entry `i`.
    pub fn name_at(&self, i: usize) -> (r: String)
        requires
            i < self.entries().len(),
        ensures
            r@ == self.names()[i as int],
    {
        self.items[i].0.clone()
    }

    /// Stores `value` under `key`. An entry that had this key keeps its place
    /// and gets the new value; a new key goes to the end.
    pub fn insert(&mut self, key: String, value: V)
        ensures
            final(self).lookup(key@) == Some(value),
            forall|other: Seq<char>|
                other != key@ ==> #[trigger] final(self).lookup(other) == old(self).lookup(other),
            final(self).names() == if old(self).lookup(key@) is Some {
                old(self).names()
            } else {
                old(self).names().push(key@)
            },
            old(self).wf() ==> final(self).wf(),
    {
        let i = self.position(key.as_str());
        let ghost before = self.entries();
        proof {
            lemma_find(before, key@, i as int);
        }
        if i < self.items.len() {
            self.items.set(i, (key, value));
        } else {
            self.items.push((key, value));
        }
        let ghost after = self.entries();
        proof {
            if i < before.len() {
                assert(after =~= before.update(i as int, (key@, value)));
                assert(keys_of(after) =~= keys_of(before));
            } else {
                assert(after =~= before.push((key@, value)));
                assert(keys_of(after) =~= keys_of(before).push(key@));
                lemma_find_absent(before, key@);
            }
            lemma_find(after, key@, i as int);
            assert forall|other: Seq<char>| other != key@ implies #[trigger] find(after, other)
                == find(before, other) by {
                lemma_find_changed(before, after, key@, other, i as int);
            }
        }
    }
}

/// The pause between two ticks of an adapter, in milliseconds, where no
/// document sets one.
pub fn default_tick_duration() -> (r: u64)
    ensures
        r == 500,
{
    500
}

/// The number of ticks between two checks of the stream, where no document
/// sets one.
pub fn default_check_live_ticks() -> (r: u64)
    ensures
        r == 240,
{
    240
}

/// The width to which framed messages are wrapped, where no document sets one.
pub fn default_max_message_width() -> (r: u16)
    ensures
        r == 36,
{
    36
}

/// The least number of seconds between two stream notifications, where no
/// document sets one.
pub fn default_min_stream_notification_secs() -> (r: u64)
    ensures
        r == 21600,
{
    21600
}

/// One version of the settings. A new document replaces the whole snapshot.
#[derive(Debug, Clone)]
pub struct Config {
    /// The pause between two ticks, in milliseconds.
    pub tick_duration: u64,
    /// Ticks to elapse before the stream is checked again.
    pub check_live_ticks: u64,
    /// Role name to reaction emoji.
    pub reaction_roles: TextMap<String>,
    /// The width to wrap framed messages to.
    pub max_message_width: u16,
    /// The role given to silence a chatter; 0 means there is none.
    pub timeout_role_id: u64,
    /// The channel that stream notifications go to.
    pub stream_notification_channel: u64,
    /// The least number of seconds between two stream notifications.
    pub min_stream_notification_secs: u64,
    /// The template of a stream notification.
    pub stream_notification_format: String,
    /// The channel that debug messages go to.
    pub debug_channel: u64,
    /// The channel whose reactions hand out roles.
    pub roles_channel: u64,
    /// Ad-hoc command name to its canned reply.
    pub ad_hoc: TextMap<String>,
}

impl Config {
    /// Whether every field has its default value.
    pub open spec fn is_default(&self) -> bool {
        &&& self.tick_duration == 500
        &&& self.check_live_ticks == 240
        &&& self.reaction_roles.entries().len() == 0
        &&& self.max_message_width == 36
        &&& self.timeout_role_id == 0
        &&& self.stream_notification_channel == 0
        &&& self.min_stream_notification_secs == 21600
        &&& self.stream_notification_format@.len() == 0
        &&& self.debug_channel == 0
        &&& self.roles_channel == 0
        &&& self.ad_hoc.entries().len() == 0
    }

    /// The reply of the ad-hoc command `name`, if there is such a command.
    pub open spec fn reply_of(&self, name: Seq<char>) -> Option<Seq<char>> {
        match self.ad_hoc.lookup(name) {
            Some(reply) => Some(reply@),
            None => None,
        }
    }

    /// The settings with every field at its default.
    pub fn new() -> (r: Self)
        ensures
            r.is_default(),
    {
        Config {
            tick_duration: default_tick_duration(),
            check_live_ticks: default_check_live_ticks(),
            reaction_roles: TextMap::new(),
            max_message_width: default_max_message_width(),
            timeout_role_id: 0,
            stream_notification_channel: 0,
            min_stream_notification_secs: default_min_stream_notification_secs(),
            stream_notification_format: String::new(),
            debug_channel: 0,
            roles_channel: 0,
            ad_hoc: TextMap::new(),
        }
    }

    /// The canned reply of the ad-hoc command `command`, if there is one.
    pub fn ad_hoc_command(&self, command: &String) -> (r: Option<String>)
        ensures
            match r {
                Some(reply) => self.reply_of(command@) == Some(reply@),
                None => self.reply_of(command@) is None,
            },
    {
        match self.ad_hoc.get(command.as_str()) {
            Some(reply) => Some(reply.clone()),
            None => None,
        }
    }

    /// The names of the ad-hoc commands, in the order of the table.
    pub fn ad_hoc_commands(&self) -> (r: Vec<String>)
        ensures
            crate::text::views(r@) == self.ad_hoc.names(),
    {
        let mut out: Vec<String> = Vec::new();
        let mut i: usize = 0;
        while i < self.ad_hoc.len()
            invariant
                i <= self.ad_hoc.entries().len(),
                crate::text::views(out@) == self.ad_hoc.names().take(i as int),
            decreases self.ad_hoc.entries().len() - i,
        {
            let name = self.ad_hoc.name_at(i);
            let ghost before = out@;
            out.push(name);
            proof {
                assert(crate::text::views(out@) =~= crate::text::views(before).push(name@));
                assert(self.ad_hoc.names().take(i + 1) =~= self.ad_hoc.names().take(
                    i as int,
                ).push(name@));
            }
            i += 1;
        }
        proof {
            assert(self.ad_hoc.names().take(i as int) =~= self.ad_hoc.names());
        }
        out
    }
}

} // verus!
