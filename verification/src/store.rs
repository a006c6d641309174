//! The deduplicating store: an append-only table of observed live broadcasts
//! in which no two records share the same `(live_id, title)` pair. The insert
//! is idempotent: a pair already present leaves the store unchanged.

use vstd::prelude::*;
use crate::text::str_eq;

verus! {

/// A persisted record of one observed live broadcast.
#[derive(Debug)]
pub struct LiveEntry {
    pub id: i32,
    pub title: String,
    pub live_id: String,
}

/// A record's content, without the surrogate id.
#[derive(Debug)]
pub struct LiveInfo {
    pub title: String,
    pub live_id: String,
}

/// The fields of a record about to be inserted.
pub struct NewLiveEntry<'a> {
    pub title: &'a str,
    pub live_id: &'a str,
}

/// A record as the contracts see it.
pub ghost struct RecordV {
    pub id: int,
    pub title: Seq<char>,
    pub live_id: Seq<char>,
}

impl View for LiveEntry {
    type V = RecordV;

    open spec fn view(&self) -> RecordV {
        RecordV { id: self.id as int, title: self.title@, live_id: self.live_id@ }
    }
}

/// The record carries the pair.
pub open spec fn has_pair(r: RecordV, title: Seq<char>, live_id: Seq<char>) -> bool {
    r.title == title && r.live_id == live_id
}

/// Some record of `s` carries the pair.
pub open spec fn contains_pair(s: Seq<RecordV>, title: Seq<char>, live_id: Seq<char>) -> bool {
    exists|i: int| 0 <= i < s.len() && has_pair(s[i], title, live_id)
}

/// How many records of `s` carry the pair.
pub open spec fn count_pair(s: Seq<RecordV>, title: Seq<char>, live_id: Seq<char>) -> nat {
    s.filter(|r: RecordV| has_pair(r, title, live_id)).len()
}

/// The store after an insert-if-absent of the pair: unchanged where the pair
/// is already present, extended by one fresh record otherwise.
pub open spec fn insert_model(s: Seq<RecordV>, title: Seq<char>, live_id: Seq<char>) -> Seq<
    RecordV,
> {
    if contains_pair(s, title, live_id) {
        s
    } else {
        s.push(RecordV { id: s.len() as int + 1, title, live_id })
    }
}

/// The deduplicating store.
pub struct LiveStore {
    entries: Vec<LiveEntry>,
}

impl View for LiveStore {
    type V = Seq<RecordV>;

    closed spec fn view(&self) -> Seq<RecordV> {
        self.entries@.map_values(|e: LiveEntry| e@)
    }
}

impl LiveStore {
    /// No two records share a pair, and ids run from 1 in insertion order.
    pub open spec fn wf(self) -> bool {
        &&& forall|i: int, j: int|
            0 <= i < j < self@.len() ==> !(self@[i].title == self@[j].title && self@[i].live_id
                == self@[j].live_id)
        &&& forall|i: int| 0 <= i < self@.len() ==> #[trigger] self@[i].id == i + 1
    }

    pub fn new() -> (s: Self)
        ensures
            s@ =~= Seq::<RecordV>::empty(),
            s.wf(),
    {
        LiveStore { entries: Vec::new() }
    }

    pub fn len(&self) -> (n: usize)
        ensures
            n == self@.len(),
    {
        self.entries.len()
    }

    /// Is a record with the pair present?
    pub fn contains(&self, title: &str, live_id: &str) -> (r: bool)
        ensures
            r == contains_pair(self@, title@, live_id@),
    {
        let mut i: usize = 0;
        while i < self.entries.len()
            invariant
                i <= self.entries@.len(),
                self@.len() == self.entries@.len(),
                forall|k: int| 0 <= k < i ==> !has_pair(self@[k], title@, live_id@),
            decreases self.entries@.len() - i,
        {
            let e = &self.entries[i];
            if str_eq(e.title.as_str(), title) && str_eq(e.live_id.as_str(), live_id) {
                proof {
                    assert(has_pair(self@[i as int], title@, live_id@));
                }
                return true;
            }
            i += 1;
        }
        false
    }

    /// Atomically record the pair unless a record with it is already present.
    /// Returns the new record where one was inserted, and nothing where the
    /// pair was already recorded; in the latter case nothing is mutated.
    pub fn insert_if_absent(&mut self, title: &str, live_id: &str) -> (r: Option<LiveEntry>)
        requires
            old(self).wf(),
            old(self)@.len() < i32::MAX,
        ensures
            final(self).wf(),
            final(self)@ == insert_model(old(self)@, title@, live_id@),
            contains_pair(old(self)@, title@, live_id@) ==> r is None && final(self)@ == old(
                self,
            )@,
            !contains_pair(old(self)@, title@, live_id@) ==> (r matches Some(e) && e@ == (RecordV {
                id: old(self)@.len() as int + 1,
                title: title@,
                live_id: live_id@,
            }) && final(self)@ == old(self)@.push(e@)),
    {
        if self.contains(title, live_id) {
            return None;
        }
        let id = (self.entries.len() + 1) as i32;
        let e = LiveEntry {
            id,
            title: String::from_str(title),
            live_id: String::from_str(live_id),
        };
        let ghost prev = self@;
        self.entries.push(e);
        proof {
            assert(self@ =~= prev.push(
                RecordV { id: prev.len() as int + 1, title: title@, live_id: live_id@ },
            ));
        }
        Some(
            LiveEntry {
                id,
                title: String::from_str(title),
                live_id: String::from_str(live_id),
            },
        )
    }

    /// All records, oldest first.
    pub fn list_all(&self) -> (r: &Vec<LiveEntry>)
        ensures
            r@.map_values(|e: LiveEntry| e@) == self@,
    {
        &self.entries
    }
}

/// Inserting a pair leaves a store that contains it, and whose record count
/// for it rose by one exactly where it was absent.
pub proof fn lemma_insert_model_count(s: Seq<RecordV>, title: Seq<char>, live_id: Seq<char>)
    ensures
        contains_pair(insert_model(s, title, live_id), title, live_id),
        count_pair(s, title, live_id) == 0 ==> count_pair(insert_model(s, title, live_id), title,
        live_id) == 1,
{
    let pred = |r: RecordV| has_pair(r, title, live_id);
    if contains_pair(s, title, live_id) {
        if count_pair(s, title, live_id) == 0 {
            let i = choose|i: int| 0 <= i < s.len() && has_pair(s[i], title, live_id);
            s.lemma_filter_contains(pred, i);
        }
    } else {
        let s1 = insert_model(s, title, live_id);
        assert(has_pair(s1[s.len() as int], title, live_id));
        s.lemma_filter_len_push(pred, RecordV { id: s.len() as int + 1, title, live_id });
    }
}

/// Insert-if-absent is idempotent: a second insert of the same pair returns
/// the store the first left.
pub proof fn lemma_insert_model_idempotent(s: Seq<RecordV>, title: Seq<char>, live_id: Seq<char>)
    ensures
        insert_model(insert_model(s, title, live_id), title, live_id) == insert_model(
            s,
            title,
            live_id,
        ),
{
    lemma_insert_model_count(s, title, live_id);
}

/// Any number of insert-if-absent calls with one pair, in any interleaving the
/// store serializes them in, leave exactly the store that a single call
/// leaves: one call inserts, every other changes nothing, and exactly one
/// matching record stands afterwards.
pub open spec fn insert_n(s: Seq<RecordV>, title: Seq<char>, live_id: Seq<char>, n: nat) -> Seq<
    RecordV,
>
    decreases n,
{
    if n == 0 {
        s
    } else {
        insert_model(insert_n(s, title, live_id, (n - 1) as nat), title, live_id)
    }
}

pub proof fn lemma_repeated_insert_single_row(
    s: Seq<RecordV>,
    title: Seq<char>,
    live_id: Seq<char>,
    n: nat,
)
    requires
        n >= 1,
        count_pair(s, title, live_id) == 0,
    ensures
        insert_n(s, title, live_id, n) == insert_model(s, title, live_id),
        count_pair(insert_n(s, title, live_id, n), title, live_id) == 1,
    decreases n,
{
    lemma_insert_model_count(s, title, live_id);
    if n == 1 {
        assert(insert_n(s, title, live_id, 0) == s);
    } else {
        lemma_repeated_insert_single_row(s, title, live_id, (n - 1) as nat);
        lemma_insert_model_idempotent(s, title, live_id);
    }
}

} // verus!
