//! The per-buyer purchase ledger: a growable mapping from buyer identity to the
//! cumulative whole tokens that buyer has purchased.
//!
//! It is backed by an association vector with pairwise-distinct keys. Its
//! mathematical model is the total lookup function [`PurchaseMap::spec_get`]
//! (zero for an unseen buyer) together with the sum of all recorded values,
//! [`PurchaseMap::total`], which the accounting identity of the sale ties to
//! the global sold counter.
//!
//! Capacity contract: the ledger grows by at most one entry per distinct
//! buyer and an existing entry never disappears; it carries no fixed entry
//! count of its own, so the storage collaborator that persists it must
//! provision space for the number of distinct buyers it is willing to admit.

use vstd::prelude::*;

verus! {

/// Cumulative purchase recorded for `key`: the value of the entry holding
/// `key`, or zero when no entry does.
pub open spec fn seq_get(s: Seq<(u64, u64)>, key: u64) -> u64
    decreases s.len(),
{
    if s.len() == 0 {
        0
    } else if s.last().0 == key {
        s.last().1
    } else {
        seq_get(s.drop_last(), key)
    }
}

/// Sum of all recorded values.
pub open spec fn seq_total(s: Seq<(u64, u64)>) -> int
    decreases s.len(),
{
    if s.len() == 0 {
        0
    } else {
        seq_total(s.drop_last()) + s.last().1
    }
}

/// No two entries record the same buyer.
pub open spec fn distinct_keys(s: Seq<(u64, u64)>) -> bool {
    forall|i: int, j: int|
        0 <= i < j < s.len() ==> (#[trigger] s[i]).0 != (#[trigger] s[j]).0
}

/// Some entry records `key`.
pub open spec fn seq_has_key(s: Seq<(u64, u64)>, key: u64) -> bool {
    exists|i: int| 0 <= i < s.len() && (#[trigger] s[i]).0 == key
}

/// With distinct keys, the lookup returns the value stored at the index that
/// holds the key.
proof fn lemma_get_at_index(s: Seq<(u64, u64)>, i: int)
    requires
        distinct_keys(s),
        0 <= i < s.len(),
    ensures
        seq_get(s, s[i].0) == s[i].1,
    decreases s.len(),
{
    if i < s.len() - 1 {
        assert(s.last() == s[s.len() - 1]);
        assert(distinct_keys(s.drop_last())) by {
            assert(forall|p: int, q: int|
                0 <= p < q < s.drop_last().len() ==> s.drop_last()[p] == s[p]
                    && s.drop_last()[q] == s[q]);
        }
        assert(s.drop_last()[i] == s[i]);
        lemma_get_at_index(s.drop_last(), i);
    }
}

/// A key no entry records looks up to zero.
proof fn lemma_get_absent(s: Seq<(u64, u64)>, key: u64)
    requires
        forall|i: int| 0 <= i < s.len() ==> (#[trigger] s[i]).0 != key,
    ensures
        seq_get(s, key) == 0,
    decreases s.len(),
{
    if s.len() > 0 {
        assert(forall|i: int|
            0 <= i < s.drop_last().len() ==> (#[trigger] s.drop_last()[i]) == s[i]);
        lemma_get_absent(s.drop_last(), key);
    }
}

/// Overwriting the entry at one index changes the sum by the difference of the
/// values.
proof fn lemma_total_update(s: Seq<(u64, u64)>, i: int, p: (u64, u64))
    requires
        0 <= i < s.len(),
    ensures
        seq_total(s.update(i, p)) == seq_total(s) - s[i].1 + p.1,
    decreases s.len(),
{
    let t = s.update(i, p);
    if i == s.len() - 1 {
        assert(t.drop_last() =~= s.drop_last());
        assert(t.last() == p);
    } else {
        assert(t.drop_last() =~= s.drop_last().update(i, p));
        assert(s.drop_last()[i] == s[i]);
        lemma_total_update(s.drop_last(), i, p);
        assert(t.last() == s.last());
    }
}

/// Effect of overwriting the entry that records `key` with the value `value`:
/// the lookup of `key` becomes `value`, every other lookup is unchanged, and
/// the sum moves by the difference.
proof fn lemma_update_entry(s: Seq<(u64, u64)>, i: int, key: u64, value: u64)
    requires
        distinct_keys(s),
        0 <= i < s.len(),
        s[i].0 == key,
    ensures
        distinct_keys(s.update(i, (key, value))),
        seq_get(s.update(i, (key, value)), key) == value,
        forall|k: u64| k != key ==> seq_get(s.update(i, (key, value)), k) == seq_get(s, k),
        seq_total(s.update(i, (key, value))) == seq_total(s) - seq_get(s, key) + value,
{
    let t = s.update(i, (key, value));
    assert(forall|j: int| 0 <= j < s.len() ==> ((#[trigger] t[j]).0 == s[j].0));
    lemma_get_at_index(s, i);
    lemma_get_at_index(t, i);
    lemma_total_update(s, i, (key, value));
    assert forall|k: u64| k != key implies seq_get(t, k) == seq_get(s, k) by {
        if seq_has_key(s, k) {
            let j = choose|j: int| 0 <= j < s.len() && (#[trigger] s[j]).0 == k;
            assert(t[j] == s[j]);
            lemma_get_at_index(s, j);
            lemma_get_at_index(t, j);
        } else {
            assert(forall|j: int| 0 <= j < s.len() ==> (#[trigger] s[j]).0 != k);
            lemma_get_absent(s, k);
            lemma_get_absent(t, k);
        }
    }
}

/// Effect of appending an entry for a key no entry records: its lookup becomes
/// the new value, every other lookup is unchanged, and the sum grows by the new
/// value.
proof fn lemma_push_entry(s: Seq<(u64, u64)>, key: u64, value: u64)
    requires
        distinct_keys(s),
        forall|i: int| 0 <= i < s.len() ==> (#[trigger] s[i]).0 != key,
    ensures
        distinct_keys(s.push((key, value))),
        seq_get(s.push((key, value)), key) == value,
        forall|k: u64| k != key ==> seq_get(s.push((key, value)), k) == seq_get(s, k),
        seq_total(s.push((key, value))) == seq_total(s) + value,
        seq_get(s, key) == 0,
{
    let t = s.push((key, value));
    assert(t.last() == (key, value));
    assert(t.drop_last() =~= s);
    lemma_get_absent(s, key);
    assert(distinct_keys(t)) by {
        assert(forall|j: int| 0 <= j < s.len() ==> (#[trigger] t[j]) == s[j]);
    }
}

/// Mapping from buyer identity to cumulative purchased whole tokens. Keys are
/// unique; insertion order carries no meaning.
#[derive(Clone, Debug, PartialEq, Eq)]
pub struct PurchaseMap {
    entries: Vec<(u64, u64)>,
}

impl PurchaseMap {
    /// Well-formed: no buyer is recorded twice.
    pub closed spec fn wf(self) -> bool {
        distinct_keys(self.entries@)
    }

    /// The cumulative purchase recorded for `key`; zero for an unseen buyer.
    pub closed spec fn spec_get(self, key: u64) -> u64 {
        seq_get(self.entries@, key)
    }

    /// Sum of the cumulative purchases of all recorded buyers.
    pub closed spec fn total(self) -> int {
        seq_total(self.entries@)
    }

    /// Whether `key` has a recorded entry.
    pub closed spec fn contains(self, key: u64) -> bool {
        seq_has_key(self.entries@, key)
    }

    /// Number of recorded buyers.
    pub closed spec fn num_entries(self) -> int {
        self.entries@.len() as int
    }

    /// The empty ledger: every lookup is zero and the sum is zero.
    pub fn new() -> (r: PurchaseMap)
        ensures
            r.wf(),
            forall|k: u64| r.spec_get(k) == 0,
            r.total() == 0,
            r.num_entries() == 0,
    {
        let r = PurchaseMap { entries: Vec::new() };
        proof {
            assert forall|k: u64| r.spec_get(k) == 0 by {
                lemma_get_absent(r.entries@, k);
            }
        }
        r
    }

    /// The cumulative purchase recorded for `key`, zero if `key` is unseen.
    pub fn get(&self, key: u64) -> (r: u64)
        requires
            self.wf(),
        ensures
            r == self.spec_get(key),
    {
        let n = self.entries.len();
        let mut i: usize = 0;
        while i < n
            invariant
                n == self.entries@.len(),
                i <= n,
                self.wf(),
                forall|j: int| 0 <= j < i ==> (#[trigger] self.entries@[j]).0 != key,
            decreases n - i,
        {
            if self.entries[i].0 == key {
                proof {
                    lemma_get_at_index(self.entries@, i as int);
                }
                return self.entries[i].1;
            }
            i += 1;
        }
        proof {
            lemma_get_absent(self.entries@, key);
        }
        0
    }

    /// Record `value` as the cumulative purchase of `key`, replacing any
    /// earlier entry. The sum moves by the difference; every other buyer's
    /// record is untouched; at most one entry is added, and only for an unseen
    /// buyer.
    pub fn set(&mut self, key: u64, value: u64)
        requires
            old(self).wf(),
        ensures
            final(self).wf(),
            final(self).spec_get(key) == value,
            forall|k: u64| k != key ==> final(self).spec_get(k) == old(self).spec_get(k),
            final(self).total() == old(self).total() - old(self).spec_get(key) + value,
            old(self).contains(key) ==> final(self).num_entries() == old(self).num_entries(),
            !old(self).contains(key) ==> final(self).num_entries() == old(self).num_entries()
                + 1,
    {
        let n = self.entries.len();
        let mut i: usize = 0;
        while i < n
            invariant
                n == self.entries@.len(),
                i <= n,
                self == old(self),
                self.wf(),
                forall|j: int| 0 <= j < i ==> (#[trigger] self.entries@[j]).0 != key,
            decreases n - i,
        {
            if self.entries[i].0 == key {
                proof {
                    lemma_update_entry(self.entries@, i as int, key, value);
                }
                self.entries[i] = (key, value);
                return;
            }
            i += 1;
        }
        proof {
            lemma_push_entry(self.entries@, key, value);
        }
        self.entries.push((key, value));
    }

    /// Number of recorded buyers.
    pub fn len(&self) -> (r: usize)
        ensures
            r == self.num_entries(),
    {
        self.entries.len()
    }
}

} // verus!
