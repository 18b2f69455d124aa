//! A ledger store held in memory: the entries in a vector, oldest first.
use crate::decimal::Dec;
use crate::ledger_service::{
    all_balances, already_booked, balance_of_latest, kept, latest_balance, latest_entry, moves,
    page, refers_to, selected, selects, AssetBalance, LedgerEntry, LedgerFilters, LedgerStore,
};
use crate::text::text_is;
use crate::ws_manager::Exchange;
use vstd::prelude::*;

verus! {

/// Entries kept in memory, in the order they were booked.
pub struct MemoryLedgerStore {
    entries: Vec<LedgerEntry>,
}

/// Whether `e` refers to record `id` of `kind` on `exchange`.
fn refers(e: &LedgerEntry, exchange: Exchange, kind: &str, id: &str) -> (r: bool)
    ensures
        r == refers_to(*e, exchange, kind@, id@),
{
    if e.exchange != exchange {
        return false;
    }
    match (&e.reference_type, &e.reference_id) {
        (Some(k), Some(i)) => text_is(k.as_str(), kind) && text_is(i.as_str(), id),
        _ => false,
    }
}

/// Whether the filters let `e` through (limit and offset aside).
fn filter_allows(f: &LedgerFilters, e: &LedgerEntry) -> (r: bool)
    ensures
        r == selects(*f, *e),
{
    if let Some(x) = f.exchange {
        if e.exchange != x {
            return false;
        }
    }
    if let Some(t) = f.entry_type {
        if e.entry_type != t {
            return false;
        }
    }
    if let Some(a) = &f.asset {
        if !text_is(e.asset.as_str(), a.as_str()) {
            return false;
        }
    }
    if let Some(t) = f.start_time {
        if e.timestamp < t {
            return false;
        }
    }
    if let Some(t) = f.end_time {
        if e.timestamp > t {
            return false;
        }
    }
    if let Some(m) = f.min_amount {
        if !e.amount.ge(&m) {
            return false;
        }
    }
    if let Some(m) = f.max_amount {
        if !e.amount.le(&m) {
            return false;
        }
    }
    true
}

/// Whether some balance in `bs` is of `asset`.
fn lists_asset(bs: &Vec<AssetBalance>, asset: &str) -> (r: bool)
    ensures
        r == exists|i: int| 0 <= i < bs@.len() && #[trigger] bs@[i].asset@ == asset@,
{
    let mut i: usize = 0;
    while i < bs.len()
        invariant
            i <= bs@.len(),
            forall|k: int| 0 <= k < i ==> #[trigger] bs@[k].asset@ != asset@,
        decreases bs@.len() - i,
    {
        if text_is(bs[i].asset.as_str(), asset) {
            return true;
        }
        i += 1;
    }
    false
}

/// One more entry of `s` decides `latest_entry` as the last one.
proof fn lemma_latest_step(s: Seq<LedgerEntry>, i: int, exchange: Exchange, asset: Seq<char>)
    requires
        0 <= i < s.len(),
    ensures
        latest_entry(s.take(i + 1), exchange, asset) == if moves(s[i], exchange, asset) {
            Some(s[i])
        } else {
            latest_entry(s.take(i), exchange, asset)
        },
{
    assert(s.take(i + 1).drop_last() =~= s.take(i));
    assert(s.take(i + 1).last() == s[i]);
}

/// An entry that moves the asset makes the last such entry exist.
proof fn lemma_latest_exists(s: Seq<LedgerEntry>, m: int, exchange: Exchange, asset: Seq<char>)
    requires
        0 <= m < s.len(),
        moves(s[m], exchange, asset),
    ensures
        latest_entry(s, exchange, asset) is Some,
    decreases s.len(),
{
    if !moves(s.last(), exchange, asset) {
        assert(m < s.len() - 1);
        assert(s.drop_last()[m] == s[m]);
        lemma_latest_exists(s.drop_last(), m, exchange, asset);
    }
}

/// One more entry of `s` is kept or not, as `keep` says.
proof fn lemma_kept_step(s: Seq<LedgerEntry>, i: int, keep: spec_fn(LedgerEntry) -> bool)
    requires
        0 <= i < s.len(),
    ensures
        kept(s.take(i + 1), keep) == if keep(s[i]) {
            kept(s.take(i), keep).push(s[i])
        } else {
            kept(s.take(i), keep)
        },
{
    assert(s.take(i + 1).drop_last() =~= s.take(i));
    assert(s.take(i + 1).last() == s[i]);
}

impl MemoryLedgerStore {
    /// An empty store.
    pub fn new() -> (r: Self)
        ensures
            r.stored() == Seq::<LedgerEntry>::empty(),
    {
        MemoryLedgerStore { entries: Vec::new() }
    }

    /// Where the last entry of `asset` on `exchange` stands.
    fn latest_index(&self, exchange: Exchange, asset: &str) -> (r: Option<usize>)
        ensures
            match r {
                Some(i) => i < self.entries@.len() && latest_entry(self.entries@, exchange, asset@)
                    == Some(self.entries@[i as int]),
                None => latest_entry(self.entries@, exchange, asset@) is None,
            },
    {
        let mut found: Option<usize> = None;
        let mut i: usize = 0;
        while i < self.entries.len()
            invariant
                i <= self.entries@.len(),
                match found {
                    Some(k) => k < i && latest_entry(self.entries@.take(i as int), exchange, asset@)
                        == Some(self.entries@[k as int]),
                    None => latest_entry(self.entries@.take(i as int), exchange, asset@) is None,
                },
            decreases self.entries@.len() - i,
        {
            proof {
                lemma_latest_step(self.entries@, i as int, exchange, asset@);
            }
            let e = &self.entries[i];
            if e.exchange == exchange && text_is(e.asset.as_str(), asset) {
                found = Some(i);
            }
            i += 1;
        }
        assert(self.entries@.take(self.entries@.len() as int) =~= self.entries@);
        found
    }
}

impl LedgerStore for MemoryLedgerStore {
    closed spec fn refused(&self) -> Seq<(Seq<LedgerEntry>, Seq<char>)> {
        Seq::empty()
    }

    closed spec fn stored(&self) -> Seq<LedgerEntry> {
        self.entries@
    }

    fn insert_entry(&mut self, entry: &LedgerEntry) -> (r: Result<(), String>)
        ensures
            r is Ok,
    {
        self.entries.push(entry.duplicate());
        Ok(())
    }

    fn insert_entries(&mut self, entries: &Vec<LedgerEntry>) -> (r: Result<(), String>)
        ensures
            r is Ok,
    {
        let ghost before = self.entries@;
        let mut i: usize = 0;
        while i < entries.len()
            invariant
                i <= entries@.len(),
                self.entries@ == before + entries@.take(i as int),
            decreases entries@.len() - i,
        {
            self.entries.push(entries[i].duplicate());
            assert(entries@.take(i as int + 1) =~= entries@.take(i as int).push(entries@[i as int]));
            assert(self.entries@ =~= before + entries@.take(i as int + 1));
            i += 1;
        }
        assert(entries@.take(entries@.len() as int) =~= entries@);
        Ok(())
    }

    fn get_entry(&self, id: &str) -> (r: Option<LedgerEntry>) {
        let mut i: usize = 0;
        while i < self.entries.len()
            invariant
                i <= self.entries@.len(),
                forall|k: int| 0 <= k < i ==> #[trigger] self.entries@[k].id@ != id@,
            decreases self.entries@.len() - i,
        {
            if text_is(self.entries[i].id.as_str(), id) {
                return Some(self.entries[i].duplicate());
            }
            i += 1;
        }
        None
    }

    fn get_last_entry(&self, exchange: Exchange, asset: &str) -> (r: Option<LedgerEntry>) {
        match self.latest_index(exchange, asset) {
            Some(i) => Some(self.entries[i].duplicate()),
            None => None,
        }
    }

    fn get_entry_by_reference(&self, exchange: Exchange, reference_type: &str, reference_id: &str) -> (r:
        Option<LedgerEntry>) {
        let mut i: usize = 0;
        while i < self.entries.len()
            invariant
                i <= self.entries@.len(),
                forall|k: int|
                    0 <= k < i ==> !#[trigger] refers_to(
                        self.entries@[k],
                        exchange,
                        reference_type@,
                        reference_id@,
                    ),
            decreases self.entries@.len() - i,
        {
            if refers(&self.entries[i], exchange, reference_type, reference_id) {
                return Some(self.entries[i].duplicate());
            }
            i += 1;
        }
        None
    }

    fn get_entries(&self, filters: &LedgerFilters) -> (r: Vec<LedgerEntry>) {
        let mut all: Vec<LedgerEntry> = Vec::new();
        let mut i: usize = 0;
        while i < self.entries.len()
            invariant
                i <= self.entries@.len(),
                all@ == selected(self.entries@.take(i as int), *filters),
            decreases self.entries@.len() - i,
        {
            proof {
                lemma_kept_step(self.entries@, i as int, |e: LedgerEntry| selects(*filters, e));
            }
            if filter_allows(filters, &self.entries[i]) {
                all.push(self.entries[i].duplicate());
            }
            i += 1;
        }
        assert(self.entries@.take(self.entries@.len() as int) =~= self.entries@);
        let n = all.len();
        let from: usize = match filters.offset {
            Some(o) => if o <= n {
                o
            } else {
                n
            },
            None => 0,
        };
        let to: usize = match filters.limit {
            Some(l) => if l < n - from {
                from + l
            } else {
                n
            },
            None => n,
        };
        let mut out: Vec<LedgerEntry> = Vec::new();
        let mut j: usize = from;
        while j < to
            invariant
                from <= j <= to <= n,
                n == all@.len(),
                out@ == all@.subrange(from as int, j as int),
            decreases to - j,
        {
            out.push(all[j].duplicate());
            j += 1;
            assert(out@ =~= all@.subrange(from as int, j as int));
        }
        assert(page(all@, *filters) =~= all@.subrange(from as int, to as int));
        out
    }

    fn get_balance(&self, exchange: Exchange, asset: &str) -> (r: Dec) {
        match self.latest_index(exchange, asset) {
            Some(i) => self.entries[i].balance_after,
            None => Dec::zero(),
        }
    }

    fn get_all_balances(&self, exchange: Exchange) -> (r: Vec<AssetBalance>) {
        let mut out: Vec<AssetBalance> = Vec::new();
        let mut k: usize = 0;
        while k < self.entries.len()
            invariant
                k <= self.entries@.len(),
                forall|i: int|
                    0 <= i < out@.len() ==> balance_of_latest(
                        self.entries@,
                        exchange,
                        #[trigger] out@[i],
                    ),
                forall|i: int, j: int|
                    0 <= i < j < out@.len() ==> #[trigger] out@[i].asset@ != #[trigger] out@[j].asset@,
                forall|m: int|
                    0 <= m < k && (#[trigger] self.entries@[m]).exchange == exchange ==> exists|i: int|
                        0 <= i < out@.len() && #[trigger] out@[i].asset@ == self.entries@[m].asset@,
            decreases self.entries@.len() - k,
        {
            let e = &self.entries[k];
            if e.exchange == exchange && !lists_asset(&out, e.asset.as_str()) {
                proof {
                    lemma_latest_exists(self.entries@, k as int, exchange, e.asset@);
                }
                match self.latest_index(exchange, e.asset.as_str()) {
                    Some(j) => {
                        let b = AssetBalance {
                            exchange,
                            asset: e.asset.clone(),
                            balance: self.entries[j].balance_after,
                            last_updated: self.entries[j].timestamp,
                        };
                        let ghost before = out@;
                        out.push(b);
                        proof {
                            assert(out@[before.len() as int] == b);
                            assert forall|m: int|
                                0 <= m < k + 1 && (#[trigger] self.entries@[m]).exchange
                                    == exchange implies exists|i: int|
                                0 <= i < out@.len() && #[trigger] out@[i].asset@
                                    == self.entries@[m].asset@ by {
                                if m == k {
                                    assert(out@[before.len() as int].asset@ == self.entries@[m].asset@);
                                } else {
                                    let i0 = choose|i: int|
                                        0 <= i < before.len() && #[trigger] before[i].asset@
                                            == self.entries@[m].asset@;
                                    assert(out@[i0].asset@ == self.entries@[m].asset@);
                                }
                            }
                        }
                    },
                    None => {},
                }
            }
            k += 1;
        }
        out
    }

    fn count_entries(&self, filters: &LedgerFilters) -> (r: u64) {
        let mut count: usize = 0;
        let mut i: usize = 0;
        while i < self.entries.len()
            invariant
                i <= self.entries@.len(),
                count <= i,
                count == selected(self.entries@.take(i as int), *filters).len(),
            decreases self.entries@.len() - i,
        {
            proof {
                lemma_kept_step(self.entries@, i as int, |e: LedgerEntry| selects(*filters, e));
            }
            if filter_allows(filters, &self.entries[i]) {
                count += 1;
            }
            i += 1;
        }
        assert(self.entries@.take(self.entries@.len() as int) =~= self.entries@);
        count as u64
    }
}

} // verus!
