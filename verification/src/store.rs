//! The registry store: the committed mapping from canonical pair key
//! to resolved pair record.
//!
//! Entries are held in ascending canonical-key order with no two
//! entries naming the same unordered pair. `put` refuses a duplicate
//! key instead of overwriting, and `list` enumerates entries strictly
//! after a cursor, capped by a limit.

use vstd::prelude::*;
use crate::asset::AssetInfoPair;
use crate::error::ContractError;
use crate::pair_key::{PairKey, key_wf, key_eqv, key_lt, key_eq_exec, key_lt_exec,
    lemma_key_lt_asym, lemma_key_lt_trichotomy, lemma_key_lt_trans, lemma_key_lt_eqv};

verus! {

/// A committed pair record: the descriptors as the creator supplied
/// them and the two addresses the acknowledgment resolved.
#[derive(Debug, PartialEq, Eq)]
pub struct PairInfo {
    pub asset_infos: AssetInfoPair,
    pub contract_addr: String,
    pub liquidity_token: String,
}

impl Clone for PairInfo {
    /// Cloning a record yields an equal record.
    fn clone(&self) -> (r: Self)
        ensures
            r == *self,
    {
        PairInfo {
            asset_infos: self.asset_infos.clone(),
            contract_addr: self.contract_addr.clone(),
            liquidity_token: self.liquidity_token.clone(),
        }
    }
}

/// One registry entry: a record filed under its canonical key.
#[derive(Debug, PartialEq, Eq)]
pub struct PairEntry {
    pub key: PairKey,
    pub info: PairInfo,
}

impl Clone for PairEntry {
    /// Cloning an entry yields an equal entry.
    fn clone(&self) -> (r: Self)
        ensures
            r == *self,
    {
        PairEntry { key: self.key.clone(), info: self.info.clone() }
    }
}

/// The registry store. Its entries are kept in the shape `store_wf`
/// describes: `put` preserves it, and the other operations rely on it.
#[derive(Debug, PartialEq, Eq)]
pub struct PairStore {
    pub entries: Vec<PairEntry>,
}

/// The store's invariant: keys are well-formed and strictly ascending,
/// so no two entries name the same unordered pair.
pub open spec fn store_wf(s: Seq<PairEntry>) -> bool {
    &&& forall|i: int, j: int|
        0 <= i < j < s.len() ==> key_lt(#[trigger] s[i].key, #[trigger] s[j].key)
    &&& forall|i: int| 0 <= i < s.len() ==> key_wf(#[trigger] s[i].key)
}

/// Whether some entry is filed under a key naming the same pair as `k`.
pub open spec fn contains_key(s: Seq<PairEntry>, k: PairKey) -> bool {
    exists|i: int| 0 <= i < s.len() && key_eqv(#[trigger] s[i].key, k)
}

/// Whether an entry comes strictly after the cursor, in key order.
pub open spec fn after_start(e: PairEntry, start: Option<PairKey>) -> bool {
    match start {
        None => true,
        Some(c) => key_lt(c, e.key),
    }
}

/// The page that enumerating from index `i` yields: the first `n`
/// entries at or after `i` that come strictly after the cursor.
pub open spec fn spec_page(s: Seq<PairEntry>, i: int, start: Option<PairKey>, n: nat) -> Seq<
    PairEntry,
>
    decreases s.len() - i,
{
    if i < 0 || i >= s.len() || n == 0 {
        Seq::empty()
    } else if after_start(s[i], start) {
        seq![s[i]] + spec_page(s, i + 1, start, (n - 1) as nat)
    } else {
        spec_page(s, i + 1, start, n)
    }
}

/// A page holds at most `n` entries.
pub proof fn lemma_page_len(s: Seq<PairEntry>, i: int, start: Option<PairKey>, n: nat)
    ensures
        spec_page(s, i, start, n).len() <= n,
    decreases s.len() - i,
{
    if 0 <= i < s.len() && n > 0 {
        lemma_page_len(s, i + 1, start, (n - 1) as nat);
        lemma_page_len(s, i + 1, start, n);
    }
}

/// Whether `e` is one of the store's entries at or after index `i`
/// that comes after the cursor.
pub open spec fn from_store_after(
    s: Seq<PairEntry>,
    i: int,
    start: Option<PairKey>,
    e: PairEntry,
) -> bool {
    exists|m: int| i <= m < s.len() && e == #[trigger] s[m] && after_start(s[m], start)
}

/// Every element of a page is an entry of the store at or after `i`,
/// and it comes after the cursor.
pub proof fn lemma_page_member(s: Seq<PairEntry>, i: int, start: Option<PairKey>, n: nat)
    ensures
        forall|p: int|
            0 <= p < spec_page(s, i, start, n).len() ==> from_store_after(
                s,
                i,
                start,
                #[trigger] spec_page(s, i, start, n)[p],
            ),
    decreases s.len() - i,
{
    if 0 <= i < s.len() && n > 0 {
        let page = spec_page(s, i, start, n);
        if after_start(s[i], start) {
            lemma_page_member(s, i + 1, start, (n - 1) as nat);
            let tail = spec_page(s, i + 1, start, (n - 1) as nat);
            assert forall|p: int| 0 <= p < page.len() implies from_store_after(
                s,
                i,
                start,
                #[trigger] page[p],
            ) by {
                if p == 0 {
                    assert(page[0] == s[i] && after_start(s[i], start));
                } else {
                    assert(page[p] == tail[p - 1]);
                    assert(from_store_after(s, i + 1, start, tail[p - 1]));
                    let m = choose|m: int|
                        i + 1 <= m < s.len() && tail[p - 1] == #[trigger] s[m] && after_start(
                            s[m],
                            start,
                        );
                    assert(page[p] == s[m] && after_start(s[m], start));
                }
            }
        } else {
            lemma_page_member(s, i + 1, start, n);
            assert forall|p: int| 0 <= p < page.len() implies from_store_after(
                s,
                i,
                start,
                #[trigger] page[p],
            ) by {
                let tail = spec_page(s, i + 1, start, n);
                assert(page[p] == tail[p]);
                assert(from_store_after(s, i + 1, start, tail[p]));
                let m = choose|m: int|
                    i + 1 <= m < s.len() && tail[p] == #[trigger] s[m] && after_start(s[m], start);
                assert(page[p] == s[m] && after_start(s[m], start));
            }
        }
    }
}

/// A page of a sorted store is itself strictly ascending.
pub proof fn lemma_page_sorted(s: Seq<PairEntry>, i: int, start: Option<PairKey>, n: nat)
    requires
        store_wf(s),
    ensures
        forall|p: int, q: int|
            0 <= p < q < spec_page(s, i, start, n).len() ==> key_lt(
                #[trigger] spec_page(s, i, start, n)[p].key,
                #[trigger] spec_page(s, i, start, n)[q].key,
            ),
    decreases s.len() - i,
{
    if 0 <= i < s.len() && n > 0 {
        let page = spec_page(s, i, start, n);
        if after_start(s[i], start) {
            lemma_page_sorted(s, i + 1, start, (n - 1) as nat);
            lemma_page_member(s, i + 1, start, (n - 1) as nat);
            let tail = spec_page(s, i + 1, start, (n - 1) as nat);
            assert forall|p: int, q: int| 0 <= p < q < page.len() implies key_lt(
                #[trigger] page[p].key,
                #[trigger] page[q].key,
            ) by {
                if p == 0 {
                    assert(page[q] == tail[q - 1]);
                    assert(from_store_after(s, i + 1, start, tail[q - 1]));
                    let m = choose|m: int|
                        i + 1 <= m < s.len() && tail[q - 1] == #[trigger] s[m] && after_start(
                            s[m],
                            start,
                        );
                    assert(key_lt(s[i].key, s[m].key));
                } else {
                    assert(page[p] == tail[p - 1] && page[q] == tail[q - 1]);
                }
            }
        } else {
            lemma_page_sorted(s, i + 1, start, n);
        }
    }
}

/// Two cursors that agree on every entry from `i` on yield the same
/// page.
pub proof fn lemma_page_same_cursor(
    s: Seq<PairEntry>,
    i: int,
    c1: Option<PairKey>,
    c2: Option<PairKey>,
    n: nat,
)
    requires
        forall|j: int|
            i <= j < s.len() ==> after_start(#[trigger] s[j], c1) == after_start(s[j], c2),
    ensures
        spec_page(s, i, c1, n) == spec_page(s, i, c2, n),
    decreases s.len() - i,
{
    if 0 <= i < s.len() && n > 0 {
        lemma_page_same_cursor(s, i + 1, c1, c2, (n - 1) as nat);
        lemma_page_same_cursor(s, i + 1, c1, c2, n);
    }
}

/// A larger budget never yields a shorter page.
pub proof fn lemma_page_len_mono(s: Seq<PairEntry>, i: int, start: Option<PairKey>, n1: nat, n2: nat)
    requires
        n1 <= n2,
    ensures
        spec_page(s, i, start, n1).len() <= spec_page(s, i, start, n2).len(),
    decreases s.len() - i,
{
    if 0 <= i < s.len() && n1 > 0 {
        lemma_page_len_mono(s, i + 1, start, (n1 - 1) as nat, (n2 - 1) as nat);
        lemma_page_len_mono(s, i + 1, start, n1, n2);
    }
}

/// Pagination is stable: when a page comes back full, enumerating
/// again with its last entry as the cursor continues exactly where the
/// page ended — the two pages together are one longer page, with no
/// overlap and no gap.
pub proof fn lemma_page_chain(s: Seq<PairEntry>, i: int, start: Option<PairKey>, n: nat, m: nat)
    requires
        store_wf(s),
        n > 0,
        spec_page(s, i, start, n).len() == n,
    ensures
        spec_page(s, i, Some(spec_page(s, i, start, n).last().key), m) == spec_page(
            s,
            i,
            start,
            n + m,
        ).skip(n as int),
    decreases s.len() - i,
{
    lemma_page_len(s, i, start, n);
    if !(0 <= i < s.len()) {
        assert(spec_page(s, i, start, n).len() == 0);
    } else {
        let page = spec_page(s, i, start, n);
        let last = page.last();
        lemma_page_member(s, i, start, n);
        assert(from_store_after(s, i, start, page[n - 1]));
        let w = choose|w: int|
            i <= w < s.len() && page[n - 1] == #[trigger] s[w] && after_start(s[w], start);
        if after_start(s[i], start) {
            let tail = spec_page(s, i + 1, start, (n - 1) as nat);
            assert(page == seq![s[i]] + tail);
            if n == 1 {
                // The page is exactly the entry at `i`; everything
                // beyond it comes after both cursors.
                assert(last == s[i]);
                lemma_key_lt_asym(s[i].key, s[i].key);
                assert(!after_start(s[i], Some(s[i].key)));
                assert forall|j: int| i + 1 <= j < s.len() implies after_start(
                    #[trigger] s[j],
                    Some(s[i].key),
                ) == after_start(s[j], start) by {
                    assert(key_lt(s[i].key, s[j].key));
                    match start {
                        None => {},
                        Some(c) => {
                            lemma_key_lt_trans(c, s[i].key, s[j].key);
                        },
                    }
                }
                lemma_page_same_cursor(s, i + 1, Some(s[i].key), start, m);
                assert(spec_page(s, i, Some(last.key), m) == spec_page(s, i + 1, start, m));
                assert(spec_page(s, i, start, n + m) == seq![s[i]] + spec_page(
                    s,
                    i + 1,
                    start,
                    (n + m - 1) as nat,
                ));
                assert((seq![s[i]] + spec_page(s, i + 1, start, m)).skip(1) =~= spec_page(
                    s,
                    i + 1,
                    start,
                    m,
                ));
            } else {
                // The page continues into the tail; recurse there.
                assert(tail.len() == n - 1);
                assert(last == tail.last());
                lemma_page_chain(s, i + 1, start, (n - 1) as nat, m);
                lemma_page_member(s, i + 1, start, (n - 1) as nat);
                assert(from_store_after(s, i + 1, start, tail[n - 2]));
                let w2 = choose|w2: int|
                    i + 1 <= w2 < s.len() && tail[n - 2] == #[trigger] s[w2] && after_start(
                        s[w2],
                        start,
                    );
                assert(key_lt(s[i].key, s[w2].key));
                lemma_key_lt_asym(s[i].key, last.key);
                assert(!after_start(s[i], Some(last.key)));
                assert(spec_page(s, i, Some(last.key), m) == spec_page(s, i + 1, Some(last.key), m));
                assert(spec_page(s, i, start, n + m) == seq![s[i]] + spec_page(
                    s,
                    i + 1,
                    start,
                    (n + m - 1) as nat,
                ));
                lemma_page_len_mono(s, i + 1, start, (n - 1) as nat, (n + m - 1) as nat);
                assert((seq![s[i]] + spec_page(s, i + 1, start, (n + m - 1) as nat)).skip(n as int)
                    =~= spec_page(s, i + 1, start, ((n - 1) + m) as nat).skip(n - 1));
            }
        } else {
            // The entry at `i` is before both cursors.
            assert(page == spec_page(s, i + 1, start, n));
            assert(w >= i + 1);
            assert(key_lt(s[i].key, s[w].key));
            lemma_key_lt_asym(s[i].key, last.key);
            assert(!after_start(s[i], Some(last.key)));
            lemma_page_chain(s, i + 1, start, n, m);
        }
    }
}

impl PairStore {
    /// An empty registry.
    pub fn new() -> (r: PairStore)
        ensures
            r.entries@ =~= Seq::<PairEntry>::empty(),
            store_wf(r.entries@),
    {
        PairStore { entries: Vec::new() }
    }

    /// Point lookup: the record filed under the key naming the same
    /// pair as `key`, if one exists.
    pub fn get(&self, key: &PairKey) -> (r: Option<PairInfo>)
        ensures
            r is Some <==> contains_key(self.entries@, *key),
            r matches Some(info) ==> exists|i: int|
                0 <= i < self.entries@.len() && key_eqv(#[trigger] self.entries@[i].key, *key)
                    && info == self.entries@[i].info,
    {
        let n = self.entries.len();
        let mut i: usize = 0;
        while i < n
            invariant
                n == self.entries@.len(),
                i <= n,
                forall|j: int| 0 <= j < i ==> !key_eqv(#[trigger] self.entries@[j].key, *key),
            decreases n - i,
        {
            if key_eq_exec(&self.entries[i].key, key) {
                return Some(self.entries[i].info.clone());
            }
            i += 1;
        }
        None
    }

    /// Files a new entry, keeping the order; refuses a key under which
    /// an entry already stands instead of overwriting it.
    pub fn put(&mut self, entry: PairEntry) -> (r: Result<(), ContractError>)
        requires
            store_wf(old(self).entries@),
            key_wf(entry.key),
        ensures
            r is Ok <==> !contains_key(old(self).entries@, entry.key),
            r matches Err(e) ==> e == ContractError::AlreadyExists && final(self).entries@ == old(
                self,
            ).entries@,
            r is Ok ==> store_wf(final(self).entries@) && exists|p: int|
                0 <= p <= old(self).entries@.len() && final(self).entries@ == old(
                    self,
                ).entries@.insert(p, entry),
            r is Ok ==> forall|k: PairKey|
                #[trigger] contains_key(final(self).entries@, k) == (contains_key(
                    old(self).entries@,
                    k,
                ) || key_eqv(entry.key, k)),
    {
        let ghost s0 = self.entries@;
        let n = self.entries.len();
        let mut i: usize = 0;
        while i < n && key_lt_exec(&self.entries[i].key, &entry.key)
            invariant
                self.entries@ == s0,
                store_wf(s0),
                key_wf(entry.key),
                n == s0.len(),
                i <= n,
                forall|j: int| 0 <= j < i ==> key_lt(#[trigger] s0[j].key, entry.key),
            decreases n - i,
        {
            i += 1;
        }
        if i < n && key_eq_exec(&self.entries[i].key, &entry.key) {
            return Err(ContractError::AlreadyExists);
        }
        proof {
            // No entry names the same pair as the new key: entries
            // before `i` are strictly below it, the entry at `i` was
            // just compared, and entries beyond are strictly above.
            if i < s0.len() {
                lemma_key_lt_trichotomy(s0[i as int].key, entry.key);
            }
            assert forall|j: int| 0 <= j < s0.len() implies !key_eqv(
                #[trigger] s0[j].key,
                entry.key,
            ) by {
                if key_eqv(s0[j].key, entry.key) {
                    lemma_key_lt_asym(entry.key, entry.key);
                    lemma_key_lt_eqv(entry.key, s0[j].key, entry.key);
                    if j > i {
                        lemma_key_lt_trans(entry.key, s0[i as int].key, s0[j].key);
                    }
                }
            }
            assert(!contains_key(s0, entry.key));
        }
        self.entries.insert(i, entry);
        proof {
            let s1 = self.entries@;
            assert(s1 == s0.insert(i as int, entry));
            assert forall|a: int, b: int| 0 <= a < b < s1.len() implies key_lt(
                #[trigger] s1[a].key,
                #[trigger] s1[b].key,
            ) by {
                if a < i && b == i {
                    assert(s1[a] == s0[a]);
                } else if a == i && b > i {
                    assert(s1[b] == s0[b - 1]);
                    lemma_key_lt_trichotomy(s0[i as int].key, entry.key);
                    lemma_key_lt_trans(entry.key, s0[i as int].key, s0[b - 1].key);
                } else if a < i && b > i {
                    assert(s1[a] == s0[a] && s1[b] == s0[b - 1]);
                } else if a > i && b > i {
                    assert(s1[a] == s0[a - 1] && s1[b] == s0[b - 1]);
                } else if a < i && b < i {
                    assert(s1[a] == s0[a] && s1[b] == s0[b]);
                }
            }
            assert forall|k: PairKey| #[trigger] contains_key(s1, k) == (contains_key(s0, k)
                || key_eqv(entry.key, k)) by {
                if contains_key(s1, k) {
                    let w = choose|w: int| 0 <= w < s1.len() && key_eqv(#[trigger] s1[w].key, k);
                    if w < i {
                        assert(key_eqv(s0[w].key, k));
                    } else if w > i {
                        assert(key_eqv(s0[w - 1].key, k));
                    }
                }
                if contains_key(s0, k) {
                    let w = choose|w: int| 0 <= w < s0.len() && key_eqv(#[trigger] s0[w].key, k);
                    if w < i {
                        assert(key_eqv(s1[w].key, k));
                    } else {
                        assert(key_eqv(s1[w + 1].key, k));
                    }
                }
                if key_eqv(entry.key, k) {
                    assert(key_eqv(s1[i as int].key, k));
                }
            }
        }
        Ok(())
    }

    /// Enumerates at most `n` entries strictly after the cursor, in
    /// ascending key order.
    pub fn list(&self, start_after: Option<PairKey>, n: u32) -> (r: Vec<PairEntry>)
        requires
            store_wf(self.entries@),
            start_after matches Some(c) ==> key_wf(c),
        ensures
            r@ == spec_page(self.entries@, 0, start_after, n as nat),
    {
        let ghost s = self.entries@;
        let ghost eff = n as nat;
        let len = self.entries.len();
        let mut out: Vec<PairEntry> = Vec::new();
        let mut i: usize = 0;
        while i < len && out.len() < n as usize
            invariant
                s == self.entries@,
                store_wf(s),
                start_after matches Some(c) ==> key_wf(c),
                eff == n as nat,
                len == s.len(),
                i <= len,
                out@.len() <= eff,
                spec_page(s, 0, start_after, eff) == out@ + spec_page(
                    s,
                    i as int,
                    start_after,
                    (eff - out@.len()) as nat,
                ),
            decreases len - i,
        {
            let selected = match &start_after {
                None => true,
                Some(c) => key_lt_exec(c, &self.entries[i].key),
            };
            let ghost out0 = out@;
            if selected {
                out.push(self.entries[i].clone());
                proof {
                    let rem = (eff - out0.len()) as nat;
                    assert(spec_page(s, i as int, start_after, rem) == seq![s[i as int]]
                        + spec_page(s, i + 1, start_after, (rem - 1) as nat));
                    assert(out0 + spec_page(s, i as int, start_after, rem) =~= out@ + spec_page(
                        s,
                        i + 1,
                        start_after,
                        (eff - out@.len()) as nat,
                    ));
                }
            } else {
                proof {
                    assert(spec_page(s, i as int, start_after, (eff - out@.len()) as nat)
                        == spec_page(s, i + 1, start_after, (eff - out@.len()) as nat));
                }
            }
            i += 1;
        }
        proof {
            assert(spec_page(s, i as int, start_after, (eff - out@.len()) as nat).len() == 0);
            assert(spec_page(s, 0, start_after, eff) =~= out@);
        }
        out
    }
}

} // verus!
