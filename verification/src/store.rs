//! The claim store: a map from fingerprint to claim, and nothing else.
//!
//! The store applies no policy and reports no events. It keeps its entries
//! in a vector in which no fingerprint occurs twice, and is viewed as the
//! mathematical map from fingerprint to claim.

use vstd::prelude::*;
use crate::types::Claim;

verus! {

/// Whether two byte strings hold the same bytes.
pub fn same_bytes(a: &Vec<u8>, b: &Vec<u8>) -> (same: bool)
    ensures
        same == (a@ == b@),
{
    if a.len() != b.len() {
        return false;
    }
    let mut i: usize = 0;
    while i < a.len()
        invariant
            i <= a.len(),
            a.len() == b.len(),
            forall|k: int| 0 <= k < i ==> a@[k] == b@[k],
        decreases a.len() - i,
    {
        if a[i] != b[i] {
            return false;
        }
        i = i + 1;
    }
    assert(a@ =~= b@);
    true
}

/// A fresh vector with the bytes of `source`.
pub fn copy_bytes(source: &Vec<u8>) -> (copy: Vec<u8>)
    ensures
        copy@ == source@,
{
    let mut copy: Vec<u8> = Vec::new();
    let mut i: usize = 0;
    while i < source.len()
        invariant
            i <= source.len(),
            copy@ == source@.take(i as int),
        decreases source.len() - i,
    {
        copy.push(source[i]);
        assert(copy@ =~= source@.take(i + 1));
        i = i + 1;
    }
    assert(source@.take(source.len() as int) =~= source@);
    copy
}

/// One stored claim under its fingerprint.
struct Entry {
    fingerprint: Vec<u8>,
    claim: Claim,
}

/// Entry `i` of `entries` is the one stored under `fingerprint`.
spec fn stored_at(entries: Seq<Entry>, fingerprint: Seq<u8>, i: int) -> bool {
    0 <= i < entries.len() && entries[i].fingerprint@ == fingerprint
}

/// No fingerprint occurs in two entries.
spec fn distinct(entries: Seq<Entry>) -> bool {
    forall|i: int, j: int|
        #![trigger entries[i], entries[j]]
        0 <= i < entries.len() && 0 <= j < entries.len() && i != j
            ==> entries[i].fingerprint@ != entries[j].fingerprint@
}

/// The map that a duplicate-free sequence of entries stands for.
spec fn model(entries: Seq<Entry>) -> Map<Seq<u8>, Claim> {
    Map::new(
        |f: Seq<u8>| exists|i: int| stored_at(entries, f, i),
        |f: Seq<u8>| entries[choose|i: int| stored_at(entries, f, i)].claim,
    )
}

/// An entry found at some index is what the model holds under its fingerprint.
proof fn lemma_present(entries: Seq<Entry>, fingerprint: Seq<u8>, i: int)
    requires
        distinct(entries),
        stored_at(entries, fingerprint, i),
    ensures
        model(entries).contains_key(fingerprint),
        model(entries)[fingerprint] == entries[i].claim,
{
    let j = choose|j: int| stored_at(entries, fingerprint, j);
    assert(stored_at(entries, fingerprint, j));
    if j != i {
        assert(entries[i].fingerprint@ != entries[j].fingerprint@);
    }
}

/// A key of the model is stored at some index.
proof fn lemma_key_index(entries: Seq<Entry>, fingerprint: Seq<u8>) -> (i: int)
    requires
        model(entries).contains_key(fingerprint),
    ensures
        stored_at(entries, fingerprint, i),
{
    choose|i: int| stored_at(entries, fingerprint, i)
}

/// Appending an entry under a fingerprint not yet stored inserts it.
proof fn lemma_push(entries: Seq<Entry>, entry: Entry)
    requires
        distinct(entries),
        !model(entries).contains_key(entry.fingerprint@),
    ensures
        distinct(entries.push(entry)),
        model(entries.push(entry)) == model(entries).insert(entry.fingerprint@, entry.claim),
{
    let after = entries.push(entry);
    let f = entry.fingerprint@;
    assert forall|i: int| 0 <= i < entries.len() implies entries[i].fingerprint@ != f by {
        if entries[i].fingerprint@ == f {
            assert(stored_at(entries, f, i));
        }
    }
    assert(distinct(after));
    let got = model(after);
    let want = model(entries).insert(f, entry.claim);
    assert forall|k: Seq<u8>|
        #![trigger got.dom().contains(k)]
        #![trigger want.dom().contains(k)]
        got.dom().contains(k) == want.dom().contains(k) && (got.dom().contains(k) ==> got[k]
            == want[k]) by {
        if k == f {
            assert(stored_at(after, f, entries.len() as int));
            lemma_present(after, f, entries.len() as int);
        } else if model(entries).contains_key(k) {
            let i = lemma_key_index(entries, k);
            assert(stored_at(after, k, i));
            lemma_present(after, k, i);
            lemma_present(entries, k, i);
        } else if model(after).contains_key(k) {
            let i = lemma_key_index(after, k);
            assert(stored_at(entries, k, i));
        }
    }
    assert(got =~= want);
}

/// Replacing the entry at `i` by one under the same fingerprint overwrites
/// the claim under that fingerprint.
proof fn lemma_update(entries: Seq<Entry>, i: int, entry: Entry)
    requires
        distinct(entries),
        stored_at(entries, entry.fingerprint@, i),
    ensures
        distinct(entries.update(i, entry)),
        model(entries.update(i, entry)) == model(entries).insert(entry.fingerprint@, entry.claim),
{
    let after = entries.update(i, entry);
    let f = entry.fingerprint@;
    assert forall|a: int, b: int|
        #![trigger after[a], after[b]]
        0 <= a < after.len() && 0 <= b < after.len() && a != b implies after[a].fingerprint@
        != after[b].fingerprint@ by {
        assert(entries[a].fingerprint@ != entries[b].fingerprint@);
    }
    let got = model(after);
    let want = model(entries).insert(f, entry.claim);
    assert forall|k: Seq<u8>|
        #![trigger got.dom().contains(k)]
        #![trigger want.dom().contains(k)]
        got.dom().contains(k) == want.dom().contains(k) && (got.dom().contains(k) ==> got[k]
            == want[k]) by {
        if k == f {
            assert(stored_at(after, f, i));
            lemma_present(after, f, i);
        } else if model(entries).contains_key(k) {
            let j = lemma_key_index(entries, k);
            assert(stored_at(after, k, j));
            lemma_present(after, k, j);
            lemma_present(entries, k, j);
        } else if model(after).contains_key(k) {
            let j = lemma_key_index(after, k);
            assert(stored_at(entries, k, j));
        }
    }
    assert(got =~= want);
}

/// Taking out the entry at `i` removes its fingerprint, and only that.
proof fn lemma_remove(entries: Seq<Entry>, i: int)
    requires
        distinct(entries),
        0 <= i < entries.len(),
    ensures
        distinct(entries.remove(i)),
        model(entries.remove(i)) == model(entries).remove(entries[i].fingerprint@),
{
    let after = entries.remove(i);
    let f = entries[i].fingerprint@;
    assert forall|a: int, b: int|
        #![trigger after[a], after[b]]
        0 <= a < after.len() && 0 <= b < after.len() && a != b implies after[a].fingerprint@
        != after[b].fingerprint@ by {
        let a0 = if a < i { a } else { a + 1 };
        let b0 = if b < i { b } else { b + 1 };
        assert(entries[a0].fingerprint@ != entries[b0].fingerprint@);
    }
    let got = model(after);
    let want = model(entries).remove(f);
    assert forall|k: Seq<u8>|
        #![trigger got.dom().contains(k)]
        #![trigger want.dom().contains(k)]
        got.dom().contains(k) == want.dom().contains(k) && (got.dom().contains(k) ==> got[k]
            == want[k]) by {
        if model(after).contains_key(k) {
            let a = lemma_key_index(after, k);
            let a0 = if a < i { a } else { a + 1 };
            assert(stored_at(entries, k, a0));
            lemma_present(entries, k, a0);
            lemma_present(after, k, a);
            assert(entries[a0].fingerprint@ != entries[i].fingerprint@);
        } else if k != f && model(entries).contains_key(k) {
            let j = lemma_key_index(entries, k);
            let a = if j < i { j } else { j - 1 };
            assert(after[a] == entries[j]);
            assert(stored_at(after, k, a));
        }
    }
    assert(got =~= want);
}

/// A map from fingerprint to claim.
pub struct ClaimStore {
    entries: Vec<Entry>,
}

impl View for ClaimStore {
    type V = Map<Seq<u8>, Claim>;

    closed spec fn view(&self) -> Map<Seq<u8>, Claim> {
        model(self.entries@)
    }
}

impl ClaimStore {
    /// The store's invariant: no fingerprint is stored twice.
    pub closed spec fn wf(&self) -> bool {
        distinct(self.entries@)
    }

    /// The empty store.
    pub fn new() -> (store: ClaimStore)
        ensures
            store.wf(),
            store@ == Map::<Seq<u8>, Claim>::empty(),
    {
        let store = ClaimStore { entries: Vec::new() };
        assert(store@ =~= Map::<Seq<u8>, Claim>::empty());
        store
    }

    /// Where `fingerprint` is stored, if anywhere.
    fn find(&self, fingerprint: &Vec<u8>) -> (found: Option<usize>)
        requires
            self.wf(),
        ensures
            match found {
                Some(i) => stored_at(self.entries@, fingerprint@, i as int),
                None => !self@.contains_key(fingerprint@),
            },
    {
        let mut i: usize = 0;
        while i < self.entries.len()
            invariant
                i <= self.entries.len(),
                forall|k: int| 0 <= k < i ==> !stored_at(self.entries@, fingerprint@, k),
            decreases self.entries.len() - i,
        {
            if same_bytes(&self.entries[i].fingerprint, fingerprint) {
                return Some(i);
            }
            i = i + 1;
        }
        None
    }

    /// Whether `fingerprint` is claimed.
    pub fn contains(&self, fingerprint: &Vec<u8>) -> (present: bool)
        requires
            self.wf(),
        ensures
            present == self@.contains_key(fingerprint@),
    {
        match self.find(fingerprint) {
            Some(i) => {
                proof {
                    lemma_present(self.entries@, fingerprint@, i as int);
                }
                true
            },
            None => false,
        }
    }

    /// The claim on `fingerprint`, if there is one.
    pub fn get(&self, fingerprint: &Vec<u8>) -> (claim: Option<Claim>)
        requires
            self.wf(),
        ensures
            claim == self@.get(fingerprint@),
    {
        match self.find(fingerprint) {
            Some(i) => {
                proof {
                    lemma_present(self.entries@, fingerprint@, i as int);
                }
                Some(self.entries[i].claim)
            },
            None => None,
        }
    }

    /// Stores `claim` under `fingerprint`, over whatever was stored there.
    pub fn insert(&mut self, fingerprint: Vec<u8>, claim: Claim)
        requires
            old(self).wf(),
        ensures
            final(self).wf(),
            final(self)@ == old(self)@.insert(fingerprint@, claim),
    {
        let found = self.find(&fingerprint);
        let entry = Entry { fingerprint, claim };
        match found {
            Some(i) => {
                proof {
                    lemma_update(self.entries@, i as int, entry);
                }
                self.entries.set(i, entry);
            },
            None => {
                proof {
                    lemma_push(self.entries@, entry);
                }
                self.entries.push(entry);
            },
        }
    }

    /// Removes the claim on `fingerprint`; does nothing where there is none.
    pub fn remove(&mut self, fingerprint: &Vec<u8>)
        requires
            old(self).wf(),
        ensures
            final(self).wf(),
            final(self)@ == old(self)@.remove(fingerprint@),
    {
        match self.find(fingerprint) {
            Some(i) => {
                proof {
                    lemma_remove(self.entries@, i as int);
                }
                let _ = self.entries.remove(i);
            },
            None => {
                assert(self@.remove(fingerprint@) =~= self@);
            },
        }
    }
}

} // verus!
