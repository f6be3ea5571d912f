//! A key-value store held as an entry list with a dirty flag.
//!
//! The store is constructed from the text of a backing file (read by the
//! host), and flushing hands the encoded text back to the host to write:
//! the store itself never touches the file system. The dirty flag is set
//! only by a `set_string` that actually changes the mapping, and cleared
//! only when the host reports a successful write through `mark_clean`.

use vstd::prelude::*;

verus! {

/// The mapping an entry list denotes; a later entry overwrites an earlier
/// one with the same key.
pub open spec fn map_of(entries: Seq<(String, String)>) -> Map<Seq<char>, Seq<char>>
    decreases entries.len(),
{
    if entries.len() == 0 {
        Map::empty()
    } else {
        map_of(entries.drop_last()).insert(entries.last().0@, entries.last().1@)
    }
}

/// Entry keys are pairwise distinct.
pub open spec fn unique_keys(entries: Seq<(String, String)>) -> bool {
    forall|i: int, j: int|
        0 <= i < j < entries.len() ==> entries[i].0@ != entries[j].0@
}

/// The key-value mapping the JSON decoder reads out of a text, if the text
/// is a flat string-to-string object.
pub uninterp spec fn json_map_of(s: Seq<char>) -> Option<Map<Seq<char>, Seq<char>>>;

/// The text the JSON encoder produces for a mapping.
pub uninterp spec fn json_of(m: Map<Seq<char>, Seq<char>>) -> Seq<char>;

/// Relies on serde_json::from_str: decoding a text as a flat
/// string-to-string object is a function of the text alone, and decoding
/// into a `HashMap` leaves the keys pairwise distinct.
#[verifier::external_body]
fn parse_entries(s: &str) -> (r: Option<Vec<(String, String)>>)
    ensures
        match r {
            Some(v) => {
                &&& json_map_of(s@) matches Some(m) && map_of(v@) == m
                &&& unique_keys(v@)
            },
            None => json_map_of(s@) is None,
        },
{
    match serde_json::from_str::<std::collections::HashMap<String, String>>(s) {
        Ok(m) => Some(m.into_iter().collect()),
        Err(_) => None,
    }
}

/// Relies on serde_json::to_string_pretty: encoding a string-to-string map
/// never fails, and a `BTreeMap` argument fixes the key order, so the text
/// is a function of the mapping alone. The text is a flat JSON object
/// holding exactly that mapping, so serde_json::from_str decodes it back
/// to the same mapping: flushing and reloading restores the store.
#[verifier::external_body]
fn encode_entries(entries: &Vec<(String, String)>) -> (r: String)
    ensures
        r@ == json_of(map_of(entries@)),
        json_map_of(r@) == Some(map_of(entries@)),
{
    let m: std::collections::BTreeMap<&str, &str> =
        entries.iter().map(|e| (e.0.as_str(), e.1.as_str())).collect();
    serde_json::to_string_pretty(&m).unwrap()
}

/// A string-to-string store that tracks whether it has unsaved changes.
pub struct FileStorage {
    entries: Vec<(String, String)>,
    dirty: bool,
}

impl View for FileStorage {
    type V = Map<Seq<char>, Seq<char>>;

    closed spec fn view(&self) -> Map<Seq<char>, Seq<char>> {
        map_of(self.entries@)
    }
}

impl FileStorage {
    /// The store holds each key at most once.
    pub closed spec fn wf(&self) -> bool {
        unique_keys(self.entries@)
    }

    /// True when the mapping has changed since the last acknowledged write.
    pub closed spec fn spec_dirty(&self) -> bool {
        self.dirty
    }

    /// Builds a store from the text of the backing file, or from `None`
    /// when the file could not be read. Text that does not decode as a
    /// string-to-string object yields an empty store: a missing or corrupt
    /// file never prevents startup.
    pub fn from_content(content: Option<&str>) -> (r: FileStorage)
        ensures
            r.wf(),
            !r.spec_dirty(),
            r@ == match content {
                Some(s) => match json_map_of(s@) {
                    Some(m) => m,
                    None => Map::<Seq<char>, Seq<char>>::empty(),
                },
                None => Map::<Seq<char>, Seq<char>>::empty(),
            },
    {
        let entries: Vec<(String, String)> = match content {
            Some(s) => match parse_entries(s) {
                Some(v) => v,
                None => Vec::new(),
            },
            None => Vec::new(),
        };
        proof {
            assert(map_of(Seq::<(String, String)>::empty()) == Map::<Seq<char>, Seq<char>>::empty());
        }
        FileStorage { entries, dirty: false }
    }

    /// Pure lookup: the value stored under `key`, if any.
    pub fn get_string(&self, key: &str) -> (r: Option<String>)
        requires
            self.wf(),
        ensures
            match r {
                Some(v) => self@.contains_key(key@) && v@ == self@[key@],
                None => !self@.contains_key(key@),
            },
    {
        let k = key.to_owned();
        let n = self.entries.len();
        let mut i: usize = 0;
        while i < n
            invariant
                n == self.entries@.len(),
                0 <= i <= n,
                self.wf(),
                k@ == key@,
                forall|j: int| 0 <= j < i ==> self.entries@[j].0@ != key@,
            decreases n - i,
        {
            if self.entries[i].0 == k {
                proof {
                    lemma_map_of_in(self.entries@, i as int);
                }
                return Some(self.entries[i].1.clone());
            }
            i += 1;
        }
        proof {
            lemma_map_of_keys(self.entries@, key@);
        }
        None
    }

    /// Inserts or overwrites `key`. The dirty flag is raised only when the
    /// mapping actually changes: setting a key to its current value leaves
    /// both the mapping and the flag as they were.
    #[verifier::loop_isolation(false)]
    pub fn set_string(&mut self, key: &str, value: String)
        requires
            old(self).wf(),
        ensures
            final(self).wf(),
            final(self)@ == old(self)@.insert(key@, value@),
            final(self).spec_dirty() == (old(self).spec_dirty() || !(old(self)@.contains_key(key@)
                && old(self)@[key@] == value@)),
            old(self)@.contains_key(key@) && old(self)@[key@] == value@ ==> final(self)@ == old(self)@ && final(self).spec_dirty() == old(self).spec_dirty(),
    {
        let k = key.to_owned();
        let n = self.entries.len();
        let mut i: usize = 0;
        while i < n
            invariant
                n == self.entries@.len(),
                0 <= i <= n,
                self.entries@ == old(self).entries@,
                self.dirty == old(self).dirty,
                self.wf(),
                k@ == key@,
                forall|j: int| 0 <= j < i ==> self.entries@[j].0@ != key@,
            decreases n - i,
        {
            if self.entries[i].0 == k {
                proof {
                    lemma_map_of_in(self.entries@, i as int);
                }
                if self.entries[i].1 == value {
                    // The stored value already matches: nothing changes.
                    proof {
                        assert(self@ =~= self@.insert(key@, value@));
                    }
                    return ;
                }
                proof {
                    lemma_map_of_update(self.entries@, i as int, (k, value));
                }
                self.entries.set(i, (k, value));
                self.dirty = true;
                return ;
            }
            i += 1;
        }
        proof {
            lemma_map_of_keys(self.entries@, key@);
        }
        let ghost oldseq = self.entries@;
        let entry = (k, value);
        let ghost gentry = entry;
        self.entries.push(entry);
        self.dirty = true;
        proof {
            assert(self.entries@ == oldseq.push(gentry));
            assert(self.entries@.drop_last() =~= oldseq);
            assert(self.entries@.last() == gentry);
            assert(map_of(self.entries@) == map_of(oldseq).insert(key@, value@));
            assert(unique_keys(self.entries@)) by {
                assert(forall|j: int| 0 <= j < oldseq.len() ==> self.entries@[j] == oldseq[j]);
            }
        }
    }

    /// True when the mapping has changed since the last acknowledged write.
    pub fn is_dirty(&self) -> (r: bool)
        ensures
            r == self.spec_dirty(),
    {
        self.dirty
    }

    /// If the store is dirty, yields the full encoded mapping for the host
    /// to write to the backing file; a clean store yields nothing, so no
    /// write happens. The flag stays set until the host acknowledges the
    /// write through `mark_clean`, so a failed write is retried later.
    /// The payload decodes back to this store's mapping, so a store built
    /// `from_content` of what was written holds the same mapping.
    pub fn flush(&self) -> (r: Option<String>)
        requires
            self.wf(),
        ensures
            match r {
                Some(p) => self.spec_dirty() && p@ == json_of(self@)
                    && json_map_of(p@) == Some(self@),
                None => !self.spec_dirty(),
            },
    {
        if self.dirty {
            Some(encode_entries(&self.entries))
        } else {
            None
        }
    }

    /// Records that the encoded mapping was durably written.
    pub fn mark_clean(&mut self)
        ensures
            final(self)@ == old(self)@,
            final(self).wf() == old(self).wf(),
            !final(self).spec_dirty(),
    {
        self.dirty = false;
    }
}

/// The key of each entry is in the denoted mapping, and with pairwise
/// distinct keys the entry's value is the one mapped.
proof fn lemma_map_of_in(entries: Seq<(String, String)>, i: int)
    requires
        0 <= i < entries.len(),
        unique_keys(entries),
    ensures
        map_of(entries).contains_key(entries[i].0@),
        map_of(entries)[entries[i].0@] == entries[i].1@,
    decreases entries.len(),
{
    if i == entries.len() - 1 {
    } else {
        assert(entries.drop_last()[i] == entries[i]);
        lemma_map_of_in(entries.drop_last(), i);
        assert(entries[i].0@ != entries.last().0@);
    }
}

/// A key outside every entry is outside the denoted mapping.
proof fn lemma_map_of_keys(entries: Seq<(String, String)>, k: Seq<char>)
    requires
        forall|j: int| 0 <= j < entries.len() ==> entries[j].0@ != k,
    ensures
        !map_of(entries).contains_key(k),
    decreases entries.len(),
{
    if entries.len() > 0 {
        assert(forall|j: int|
            0 <= j < entries.drop_last().len() ==> entries.drop_last()[j] == entries[j]);
        lemma_map_of_keys(entries.drop_last(), k);
    }
}

/// Overwriting the entry that holds a key denotes the same mapping as
/// inserting the new value under that key.
proof fn lemma_map_of_update(entries: Seq<(String, String)>, i: int, x: (String, String))
    requires
        0 <= i < entries.len(),
        unique_keys(entries),
        entries[i].0@ == x.0@,
    ensures
        map_of(entries.update(i, x)) == map_of(entries).insert(x.0@, x.1@),
        unique_keys(entries.update(i, x)),
    decreases entries.len(),
{
    let updated = entries.update(i, x);
    assert(unique_keys(updated)) by {
        assert(forall|p: int, q: int|
            0 <= p < q < updated.len() ==> updated[p].0@ != updated[q].0@) by {
            assert(forall|j: int| 0 <= j < entries.len() && j != i ==> updated[j] == entries[j]);
        }
    }
    if i == entries.len() - 1 {
        assert(updated.drop_last() =~= entries.drop_last());
        assert(map_of(updated) == map_of(entries.drop_last()).insert(x.0@, x.1@));
        assert(map_of(entries).insert(x.0@, x.1@) =~= map_of(entries.drop_last()).insert(
            x.0@,
            x.1@,
        ));
    } else {
        assert(updated.drop_last() =~= entries.drop_last().update(i, x));
        assert(updated.last() == entries.last());
        assert(entries.drop_last()[i] == entries[i]);
        lemma_map_of_update(entries.drop_last(), i, x);
        assert(x.0@ != entries.last().0@);
        assert(map_of(entries.drop_last()).insert(x.0@, x.1@).insert(
            entries.last().0@,
            entries.last().1@,
        ) =~= map_of(entries.drop_last()).insert(entries.last().0@, entries.last().1@).insert(
            x.0@,
            x.1@,
        ));
    }
}

} // verus!
