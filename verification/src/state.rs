//! The per-channel account store.
//!
//! `AccountStore` maps a channel id to the channel's cached `AccountData`.
//! It is kept as an association list sorted by channel id, so listing the
//! accounts in ascending id order is a plain walk. Its view is the map from
//! channel-id character sequences to account views; every operation's
//! contract is stated against that map.

use crate::lex::{lemma_lex_asym, lemma_lex_connex, lemma_lex_trans, lex_lt, str_lt};
use vstd::prelude::*;

verus! {

/// The cached state of one channel: when the last successful acknowledgment
/// was applied (zero means never) and the remote value it carried.
#[derive(Debug)]
pub struct AccountData {
    /// Nanoseconds since the epoch of the acknowledgment last applied.
    pub last_update_time: u64,
    /// Decimal rendering of the last successfully observed remote value.
    pub remote_spot_price: String,
}

/// Specification-level image of an `AccountData`.
pub struct AccountDataV {
    pub last_update_time: u64,
    pub remote_spot_price: Seq<char>,
}

impl View for AccountData {
    type V = AccountDataV;

    open spec fn view(&self) -> AccountDataV {
        AccountDataV {
            last_update_time: self.last_update_time,
            remote_spot_price: self.remote_spot_price@,
        }
    }
}

/// The state a freshly connected channel's account starts in.
pub open spec fn zero_account() -> AccountDataV {
    AccountDataV { last_update_time: 0, remote_spot_price: Seq::empty() }
}

impl Default for AccountData {
    /// An account with zero timestamp and empty remote value.
    fn default() -> (d: Self)
        ensures
            d@ == zero_account(),
    {
        AccountData { last_update_time: 0, remote_spot_price: String::new() }
    }
}

impl Clone for AccountData {
    fn clone(&self) -> (res: Self)
        ensures
            res == *self,
    {
        AccountData {
            last_update_time: self.last_update_time,
            remote_spot_price: self.remote_spot_price.clone(),
        }
    }
}

spec fn entries_sorted(s: Seq<(String, AccountData)>) -> bool {
    forall|i: int, j: int| 0 <= i < j < s.len() ==> lex_lt(s[i].0@, s[j].0@)
}

spec fn distinct_keys(s: Seq<(String, AccountData)>) -> bool {
    forall|i: int, j: int| 0 <= i < j < s.len() ==> s[i].0@ != s[j].0@
}

spec fn assoc_map(s: Seq<(String, AccountData)>) -> Map<Seq<char>, AccountDataV>
    decreases s.len(),
{
    if s.len() == 0 {
        Map::empty()
    } else {
        assoc_map(s.drop_last()).insert(s.last().0@, s.last().1@)
    }
}

proof fn lemma_sorted_distinct(s: Seq<(String, AccountData)>)
    requires
        entries_sorted(s),
    ensures
        distinct_keys(s),
{
    assert forall|i: int, j: int| 0 <= i < j < s.len() implies s[i].0@ != s[j].0@ by {
        lemma_lex_asym(s[i].0@, s[j].0@);
    }
}

proof fn lemma_assoc_map_contains(s: Seq<(String, AccountData)>, k: Seq<char>)
    ensures
        assoc_map(s).contains_key(k) <==> exists|i: int| 0 <= i < s.len() && s[i].0@ == k,
    decreases s.len(),
{
    if s.len() > 0 {
        let dl = s.drop_last();
        lemma_assoc_map_contains(dl, k);
        if assoc_map(s).contains_key(k) {
            if s.last().0@ == k {
                assert(s[s.len() - 1].0@ == k);
            } else {
                let i = choose|i: int| 0 <= i < dl.len() && dl[i].0@ == k;
                assert(s[i].0@ == k);
            }
        }
        if exists|i: int| 0 <= i < s.len() && s[i].0@ == k {
            let i = choose|i: int| 0 <= i < s.len() && s[i].0@ == k;
            if i < s.len() - 1 {
                assert(dl[i].0@ == k);
            }
        }
    }
}

proof fn lemma_assoc_map_at(s: Seq<(String, AccountData)>, i: int)
    requires
        distinct_keys(s),
        0 <= i < s.len(),
    ensures
        assoc_map(s).contains_key(s[i].0@),
        assoc_map(s)[s[i].0@] == s[i].1@,
    decreases s.len(),
{
    if i < s.len() - 1 {
        let dl = s.drop_last();
        lemma_assoc_map_at(dl, i);
    }
}

proof fn lemma_assoc_map_update(s: Seq<(String, AccountData)>, i: int, e: (String, AccountData))
    requires
        distinct_keys(s),
        0 <= i < s.len(),
        e.0@ == s[i].0@,
    ensures
        assoc_map(s.update(i, e)) == assoc_map(s).insert(e.0@, e.1@),
    decreases s.len(),
{
    let t = s.update(i, e);
    if i == s.len() - 1 {
        assert(t.drop_last() =~= s.drop_last());
        assert(t.last() == e);
        assert(assoc_map(s.drop_last()).insert(s.last().0@, s.last().1@).insert(e.0@, e.1@)
            =~= assoc_map(s.drop_last()).insert(e.0@, e.1@));
    } else {
        assert(t.drop_last() =~= s.drop_last().update(i, e));
        assert(t.last() == s.last());
        lemma_assoc_map_update(s.drop_last(), i, e);
        // The replaced key differs from the last entry's key, so the two
        // inserts commute.
        assert(e.0@ != s.last().0@);
        assert(assoc_map(s.drop_last()).insert(e.0@, e.1@).insert(s.last().0@, s.last().1@)
            =~= assoc_map(s.drop_last()).insert(s.last().0@, s.last().1@).insert(e.0@, e.1@));
    }
}

proof fn lemma_assoc_map_insert(s: Seq<(String, AccountData)>, i: int, e: (String, AccountData))
    requires
        0 <= i <= s.len(),
        forall|j: int| 0 <= j < s.len() ==> s[j].0@ != e.0@,
    ensures
        assoc_map(s.insert(i, e)) == assoc_map(s).insert(e.0@, e.1@),
    decreases s.len(),
{
    let t = s.insert(i, e);
    if i == s.len() {
        assert(t.drop_last() =~= s);
        assert(t.last() == e);
    } else {
        assert(t.drop_last() =~= s.drop_last().insert(i, e));
        assert(t.last() == s.last());
        lemma_assoc_map_insert(s.drop_last(), i, e);
        assert(s[s.len() - 1].0@ != e.0@);
        assert(assoc_map(s.drop_last()).insert(e.0@, e.1@).insert(s.last().0@, s.last().1@)
            =~= assoc_map(s.drop_last()).insert(s.last().0@, s.last().1@).insert(e.0@, e.1@));
    }
}

proof fn lemma_assoc_map_remove(s: Seq<(String, AccountData)>, i: int)
    requires
        distinct_keys(s),
        0 <= i < s.len(),
    ensures
        assoc_map(s.remove(i)) == assoc_map(s).remove(s[i].0@),
    decreases s.len(),
{
    let t = s.remove(i);
    if i == s.len() - 1 {
        assert(t =~= s.drop_last());
        lemma_assoc_map_contains(s.drop_last(), s[i].0@);
        assert(assoc_map(s.drop_last())
            =~= assoc_map(s.drop_last()).insert(s.last().0@, s.last().1@).remove(s[i].0@));
    } else {
        assert(t.drop_last() =~= s.drop_last().remove(i));
        assert(t.last() == s.last());
        lemma_assoc_map_remove(s.drop_last(), i);
        assert(s[i].0@ != s.last().0@);
        assert(assoc_map(s.drop_last()).remove(s[i].0@).insert(s.last().0@, s.last().1@)
            =~= assoc_map(s.drop_last()).insert(s.last().0@, s.last().1@).remove(s[i].0@));
    }
}

/// A key below the insertion point of `k`, with `k` below the entry at the
/// insertion point, occurs nowhere in a sorted list.
proof fn lemma_locate_miss(s: Seq<(String, AccountData)>, k: Seq<char>, i: int)
    requires
        entries_sorted(s),
        0 <= i <= s.len(),
        forall|j: int| 0 <= j < i ==> lex_lt(s[j].0@, k),
        i < s.len() ==> lex_lt(k, s[i].0@),
    ensures
        forall|j: int| 0 <= j < s.len() ==> s[j].0@ != k,
        !assoc_map(s).contains_key(k),
{
    assert forall|j: int| 0 <= j < s.len() implies s[j].0@ != k by {
        if j < i {
            lemma_lex_asym(s[j].0@, k);
        } else if j == i {
            lemma_lex_asym(k, s[j].0@);
        } else {
            lemma_lex_trans(k, s[i].0@, s[j].0@);
            lemma_lex_asym(k, s[j].0@);
        }
    }
    lemma_assoc_map_contains(s, k);
}

/// Keyed store of per-channel accounts, listed in ascending channel-id order.
pub struct AccountStore {
    entries: Vec<(String, AccountData)>,
}

impl View for AccountStore {
    type V = Map<Seq<char>, AccountDataV>;

    closed spec fn view(&self) -> Map<Seq<char>, AccountDataV> {
        assoc_map(self.entries@)
    }
}

impl AccountStore {
    /// The store's internal order: entries strictly ascending by channel id.
    pub closed spec fn wf(self) -> bool {
        entries_sorted(self.entries@)
    }

    /// An empty store.
    pub fn new() -> (s: Self)
        ensures
            s.wf(),
            s@ == Map::<Seq<char>, AccountDataV>::empty(),
    {
        AccountStore { entries: Vec::new() }
    }

    /// Index of the first entry whose key is not below `channel_id`, and
    /// whether that entry's key equals `channel_id`.
    fn locate(&self, channel_id: &str) -> (r: (usize, bool))
        requires
            self.wf(),
        ensures
            r.0 <= self.entries@.len(),
            forall|j: int| 0 <= j < r.0 ==> lex_lt(self.entries@[j].0@, channel_id@),
            r.1 <==> (r.0 < self.entries@.len() && self.entries@[r.0 as int].0@ == channel_id@),
            (r.0 < self.entries@.len() && !r.1) ==> lex_lt(channel_id@, self.entries@[r.0 as int].0@),
    {
        let n = self.entries.len();
        let mut i: usize = 0;
        while i < n
            invariant
                self.wf(),
                n == self.entries@.len(),
                i <= n,
                forall|j: int| 0 <= j < i ==> lex_lt(self.entries@[j].0@, channel_id@),
            decreases n - i,
        {
            let entry = &self.entries[i];
            if str_lt(entry.0.as_str(), channel_id) {
                i = i + 1;
            } else {
                let eq = !str_lt(channel_id, entry.0.as_str());
                proof {
                    if eq {
                        lemma_lex_connex(entry.0@, channel_id@);
                    } else {
                        lemma_lex_asym(channel_id@, entry.0@);
                    }
                }
                return (i, eq);
            }
        }
        (i, false)
    }

    /// Whether an account exists for `channel_id`.
    pub fn has(&self, channel_id: &str) -> (r: bool)
        requires
            self.wf(),
        ensures
            r == self@.contains_key(channel_id@),
    {
        let (i, found) = self.locate(channel_id);
        proof {
            if found {
                lemma_sorted_distinct(self.entries@);
                lemma_assoc_map_at(self.entries@, i as int);
            } else {
                lemma_locate_miss(self.entries@, channel_id@, i as int);
            }
        }
        found
    }

    /// The account stored for `channel_id`, if any.
    pub fn load(&self, channel_id: &str) -> (r: Option<AccountData>)
        requires
            self.wf(),
        ensures
            r is Some <==> self@.contains_key(channel_id@),
            r matches Some(a) ==> a@ == self@[channel_id@],
    {
        let (i, found) = self.locate(channel_id);
        if found {
            proof {
                lemma_sorted_distinct(self.entries@);
                lemma_assoc_map_at(self.entries@, i as int);
            }
            Some(self.entries[i].1.clone())
        } else {
            proof {
                lemma_locate_miss(self.entries@, channel_id@, i as int);
            }
            None
        }
    }

    /// Inserts or overwrites the account for `channel_id`.
    pub fn save(&mut self, channel_id: String, account: AccountData)
        requires
            old(self).wf(),
        ensures
            final(self).wf(),
            final(self)@ == old(self)@.insert(channel_id@, account@),
    {
        let ghost s = self.entries@;
        let ghost k = channel_id@;
        let (i, found) = self.locate(channel_id.as_str());
        if found {
            let _replaced = self.entries.remove(i);
            self.entries.insert(i, (channel_id, account));
            proof {
                let t = self.entries@;
                assert(t =~= s.update(i as int, t[i as int]));
                lemma_sorted_distinct(s);
                lemma_assoc_map_update(s, i as int, t[i as int]);
                assert forall|p: int, q: int| 0 <= p < q < t.len() implies lex_lt(
                    t[p].0@,
                    t[q].0@,
                ) by {
                    assert(t[p].0@ == s[p].0@);
                    assert(t[q].0@ == s[q].0@);
                }
            }
        } else {
            self.entries.insert(i, (channel_id, account));
            proof {
                let t = self.entries@;
                lemma_locate_miss(s, k, i as int);
                lemma_assoc_map_insert(s, i as int, t[i as int]);
                assert forall|p: int, q: int| 0 <= p < q < t.len() implies lex_lt(
                    t[p].0@,
                    t[q].0@,
                ) by {
                    if q < i {
                        assert(t[p].0@ == s[p].0@ && t[q].0@ == s[q].0@);
                    } else if q == i {
                        assert(t[p].0@ == s[p].0@ && t[q].0@ == k);
                    } else if p < i {
                        assert(t[p].0@ == s[p].0@ && t[q].0@ == s[q - 1].0@);
                    } else if p == i {
                        assert(t[p].0@ == k && t[q].0@ == s[q - 1].0@);
                        if i < q - 1 {
                            lemma_lex_trans(k, s[i as int].0@, s[q - 1].0@);
                        }
                    } else {
                        assert(t[p].0@ == s[p - 1].0@ && t[q].0@ == s[q - 1].0@);
                    }
                }
            }
        }
    }

    /// Loads the account for `channel_id`, replaces its timestamp and remote
    /// value, persists the result, and returns it; `None` when the channel
    /// has no account, in which case the store is untouched.
    pub fn update(&mut self, channel_id: &str, last_update_time: u64, remote_spot_price: String) -> (r:
        Option<AccountData>)
        requires
            old(self).wf(),
        ensures
            final(self).wf(),
            r is Some <==> old(self)@.contains_key(channel_id@),
            r matches Some(a)
                ==> a@ == (AccountDataV { last_update_time, remote_spot_price: remote_spot_price@ })
                && final(self)@ == old(self)@.insert(channel_id@, a@),
            r is None ==> *final(self) == *old(self),
    {
        let ghost s = self.entries@;
        let (i, found) = self.locate(channel_id);
        if found {
            proof {
                lemma_sorted_distinct(s);
                lemma_assoc_map_at(s, i as int);
            }
            let (key, _replaced) = self.entries.remove(i);
            let updated = AccountData { last_update_time, remote_spot_price };
            let result = updated.clone();
            self.entries.insert(i, (key, updated));
            proof {
                let t = self.entries@;
                assert(t =~= s.update(i as int, t[i as int]));
                lemma_assoc_map_update(s, i as int, t[i as int]);
                assert forall|p: int, q: int| 0 <= p < q < t.len() implies lex_lt(
                    t[p].0@,
                    t[q].0@,
                ) by {
                    assert(t[p].0@ == s[p].0@);
                    assert(t[q].0@ == s[q].0@);
                }
            }
            Some(result)
        } else {
            proof {
                lemma_locate_miss(s, channel_id@, i as int);
            }
            None
        }
    }

    /// Removes the account for `channel_id`; a no-op when none exists.
    pub fn delete(&mut self, channel_id: &str)
        requires
            old(self).wf(),
        ensures
            final(self).wf(),
            final(self)@ == old(self)@.remove(channel_id@),
            !final(self)@.contains_key(channel_id@),
    {
        let ghost s = self.entries@;
        let (i, found) = self.locate(channel_id);
        if found {
            self.entries.remove(i);
            proof {
                let t = self.entries@;
                lemma_sorted_distinct(s);
                lemma_assoc_map_remove(s, i as int);
                assert forall|p: int, q: int| 0 <= p < q < t.len() implies lex_lt(
                    t[p].0@,
                    t[q].0@,
                ) by {
                    if q < i {
                        assert(t[p].0@ == s[p].0@ && t[q].0@ == s[q].0@);
                    } else if p < i {
                        assert(t[p].0@ == s[p].0@ && t[q].0@ == s[q + 1].0@);
                    } else {
                        assert(t[p].0@ == s[p + 1].0@ && t[q].0@ == s[q + 1].0@);
                    }
                }
            }
        } else {
            proof {
                lemma_locate_miss(s, channel_id@, i as int);
                assert(old(self)@.remove(channel_id@) =~= old(self)@);
            }
        }
    }

    /// All entries, in ascending channel-id order. Every pair is in the
    /// store's map, and every channel in the map appears exactly once.
    pub fn scan_ascending(&self) -> (r: Vec<(String, AccountData)>)
        requires
            self.wf(),
        ensures
            forall|i: int|
                0 <= i < r@.len() ==> self@.contains_key(#[trigger] r@[i].0@) && self@[r@[i].0@]
                    == r@[i].1@,
            forall|i: int, j: int| 0 <= i < j < r@.len() ==> lex_lt(r@[i].0@, r@[j].0@),
            forall|k: Seq<char>|
                #[trigger] self@.contains_key(k) ==> exists|i: int|
                    0 <= i < r@.len() && r@[i].0@ == k,
    {
        let n = self.entries.len();
        let mut out: Vec<(String, AccountData)> = Vec::new();
        let mut i: usize = 0;
        while i < n
            invariant
                self.wf(),
                n == self.entries@.len(),
                i <= n,
                out@.len() == i,
                forall|j: int|
                    0 <= j < i ==> (#[trigger] out@[j].0@) == self.entries@[j].0@ && out@[j].1@
                        == self.entries@[j].1@,
            decreases n - i,
        {
            let entry = &self.entries[i];
            out.push((entry.0.clone(), entry.1.clone()));
            i = i + 1;
        }
        proof {
            let s = self.entries@;
            lemma_sorted_distinct(s);
            assert forall|j: int|
                0 <= j < out@.len() implies self@.contains_key(#[trigger] out@[j].0@)
                && self@[out@[j].0@] == out@[j].1@ by {
                lemma_assoc_map_at(s, j);
            }
            assert forall|k: Seq<char>| #[trigger] self@.contains_key(k) implies exists|i2: int|
                0 <= i2 < out@.len() && out@[i2].0@ == k by {
                lemma_assoc_map_contains(s, k);
                let j = choose|j: int| 0 <= j < s.len() && s[j].0@ == k;
                assert(out@[j].0@ == k);
            }
        }
        out
    }
}

} // verus!
