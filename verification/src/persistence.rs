//! A persistence facade over the key-value store: raw values are stored
//! under string keys, and saves are debounced to at most one per interval.
//!
//! Time is handed in by the caller as a monotonic millisecond reading, so
//! every decision here is a function of the arguments alone. Encoding a
//! typed value to its string form (and decoding it back) is the host's
//! side of the boundary: this facade stores and returns the encoded text.

use vstd::prelude::*;

use crate::storage::FileStorage;
use crate::storage::json_map_of;
use crate::storage::json_of;

verus! {

/// The interval a freshly constructed facade saves at, in milliseconds.
pub const DEFAULT_AUTO_SAVE_INTERVAL_MS: u64 = 30000;

/// An autosave at `now` is due once strictly more than `interval` has
/// passed since `last`.
pub open spec fn autosave_due(last: u64, interval: u64, now: u64) -> bool {
    last + interval < now
}

/// Debounce: once an autosave has fired at `t1`, no call within the next
/// interval fires again; only a call strictly after `t1 + interval` does.
/// `maybe_autosave` resets its reference point to the firing time, so this
/// bounds the saves to at most one per interval however often it is called.
pub proof fn lemma_autosave_debounce(last: u64, interval: u64, t1: u64, t2: u64)
    requires
        autosave_due(last, interval, t1),
    ensures
        t2 <= t1 + interval ==> !autosave_due(t1, interval, t2),
        t2 > t1 + interval ==> autosave_due(t1, interval, t2),
{
}

/// Debounce, over a whole run of calls: once an autosave has fired at
/// `t1`, any number of further calls at times up to `t1 + interval` fires
/// nothing at all; `maybe_autosave` leaves the reference point at `t1`
/// through every one of them, so exactly one save fires per elapsed
/// interval, however many times it is invoked.
pub proof fn lemma_autosave_debounce_run(interval: u64, t1: u64, times: Seq<u64>)
    requires
        forall|i: int| 0 <= i < times.len() ==> times[i] <= t1 + interval,
    ensures
        forall|i: int| 0 <= i < times.len() ==> !autosave_due(t1, interval, times[i]),
{
}

/// Round trip: a mapping returns under `key` exactly the value just
/// inserted there, with no flush or reload in between. `set_value` leaves
/// the store at `old@.insert(key@, value@)` and `get_value` returns the
/// mapped value, so the two compose to `Some(value)`.
pub proof fn lemma_set_then_get(m: Map<Seq<char>, Seq<char>>, k: Seq<char>, v: Seq<char>)
    ensures
        m.insert(k, v).contains_key(k),
        m.insert(k, v)[k] == v,
{
}

/// Stores raw string values under string keys and saves them, debounced,
/// through the host: the store yields the encoded text, the host writes it.
pub struct Persistence {
    storage: FileStorage,
    last_auto_save: u64,
    auto_save_interval: u64,
}

impl Persistence {
    /// The mapping currently held.
    pub closed spec fn view(&self) -> Map<Seq<char>, Seq<char>> {
        self.storage@
    }

    /// The store holds each key at most once.
    pub closed spec fn wf(&self) -> bool {
        self.storage.wf()
    }

    /// True when the mapping has changed since the last acknowledged save.
    pub closed spec fn spec_dirty(&self) -> bool {
        self.storage.spec_dirty()
    }

    /// The monotonic reading at which the last autosave fired.
    pub closed spec fn spec_last_auto_save(&self) -> u64 {
        self.last_auto_save
    }

    /// The debounce interval, in milliseconds.
    pub closed spec fn spec_auto_save_interval(&self) -> u64 {
        self.auto_save_interval
    }

    /// Builds the facade from the text of the backing file (`None` when the
    /// file could not be read) and the current monotonic reading. Corrupt
    /// or missing content yields an empty mapping, never a failure.
    pub fn from_content(content: Option<&str>, now: u64) -> (r: Persistence)
        ensures
            r.wf(),
            !r.spec_dirty(),
            r.spec_last_auto_save() == now,
            r.spec_auto_save_interval() == DEFAULT_AUTO_SAVE_INTERVAL_MS,
            r.view() == match content {
                Some(s) => match json_map_of(s@) {
                    Some(m) => m,
                    None => Map::<Seq<char>, Seq<char>>::empty(),
                },
                None => Map::<Seq<char>, Seq<char>>::empty(),
            },
    {
        Persistence {
            storage: FileStorage::from_content(content),
            last_auto_save: now,
            auto_save_interval: DEFAULT_AUTO_SAVE_INTERVAL_MS,
        }
    }

    /// Replaces the debounce interval.
    pub fn set_auto_save_interval(&mut self, auto_save_interval_ms: u64)
        ensures
            final(self).spec_auto_save_interval() == auto_save_interval_ms,
            final(self).view() == old(self).view(),
            final(self).wf() == old(self).wf(),
            final(self).spec_dirty() == old(self).spec_dirty(),
            final(self).spec_last_auto_save() == old(self).spec_last_auto_save(),
    {
        self.auto_save_interval = auto_save_interval_ms;
    }

    /// Stores the encoded text of a value under `key`. Storing the text a
    /// key already holds changes nothing and does not mark the store dirty.
    pub fn set_value(&mut self, key: &str, value: &str)
        requires
            old(self).wf(),
        ensures
            final(self).wf(),
            final(self).view() == old(self).view().insert(key@, value@),
            final(self).spec_dirty() == (old(self).spec_dirty() || !(old(self).view().contains_key(
                key@,
            ) && old(self).view()[key@] == value@)),
            final(self).spec_last_auto_save() == old(self).spec_last_auto_save(),
            final(self).spec_auto_save_interval() == old(self).spec_auto_save_interval(),
    {
        self.storage.set_string(key, value.to_owned());
    }

    /// The encoded text stored under `key`, if any. The host decodes it;
    /// a text that fails to decode is treated by callers exactly like a
    /// missing key.
    pub fn get_value(&self, key: &str) -> (r: Option<String>)
        requires
            self.wf(),
        ensures
            match r {
                Some(v) => self.view().contains_key(key@) && v@ == self.view()[key@],
                None => !self.view().contains_key(key@),
            },
    {
        self.storage.get_string(key)
    }

    /// Unconditional save: if anything is unsaved, yields the encoded
    /// mapping for the host to write; otherwise yields nothing, so a
    /// quiescent facade performs no write at all. The payload decodes
    /// back to the mapping it was written for.
    pub fn save(&self) -> (r: Option<String>)
        requires
            self.wf(),
        ensures
            match r {
                Some(p) => self.spec_dirty() && p@ == json_of(self.view())
                    && json_map_of(p@) == Some(self.view()),
                None => !self.spec_dirty(),
            },
    {
        self.storage.flush()
    }

    /// Records that the text yielded by `save` or `maybe_autosave` was
    /// durably written. A failed write skips this call, so the changes are
    /// offered again at the next save.
    pub fn confirm_saved(&mut self)
        ensures
            final(self).view() == old(self).view(),
            final(self).wf() == old(self).wf(),
            !final(self).spec_dirty(),
            final(self).spec_last_auto_save() == old(self).spec_last_auto_save(),
            final(self).spec_auto_save_interval() == old(self).spec_auto_save_interval(),
    {
        self.storage.mark_clean();
    }

    /// Time-debounced save: fires only when strictly more than one interval
    /// has passed since the last firing, and then resets the reference
    /// point to `now`; within the interval it does nothing, however often
    /// it is called. `now` is a monotonic millisecond reading.
    pub fn maybe_autosave(&mut self, now: u64) -> (r: Option<String>)
        requires
            old(self).wf(),
        ensures
            final(self).wf(),
            final(self).view() == old(self).view(),
            final(self).spec_dirty() == old(self).spec_dirty(),
            final(self).spec_auto_save_interval() == old(self).spec_auto_save_interval(),
            autosave_due(
                old(self).spec_last_auto_save(),
                old(self).spec_auto_save_interval(),
                now,
            ) ==> {
                &&& final(self).spec_last_auto_save() == now
                &&& match r {
                    Some(p) => old(self).spec_dirty() && p@ == json_of(old(self).view())
                        && json_map_of(p@) == Some(old(self).view()),
                    None => !old(self).spec_dirty(),
                }
            },
            !autosave_due(
                old(self).spec_last_auto_save(),
                old(self).spec_auto_save_interval(),
                now,
            ) ==> final(self).spec_last_auto_save() == old(self).spec_last_auto_save() && r is None,
    {
        if now > self.last_auto_save && now - self.last_auto_save > self.auto_save_interval {
            let r = self.save();
            self.last_auto_save = now;
            r
        } else {
            None
        }
    }
}

} // verus!
