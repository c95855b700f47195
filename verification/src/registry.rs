//! The registry of deployed stocks: a map from stock id to the addresses of
//! the stock's components, kept as a sequence in ascending id order.

use vstd::prelude::*;
use crate::error::ContractError;

verus! {

/// The addresses that belong to one deployed stock.
#[derive(Debug, PartialEq, Eq)]
pub struct StockInfo {
    pub id: u32,
    pub stock_address: String,
    pub pool_address: String,
    pub shorting_address: String,
    pub trading_address: String,
    pub providing_address: String,
}

impl Clone for StockInfo {
    fn clone(&self) -> (r: Self)
        ensures
            r == *self,
    {
        StockInfo {
            id: self.id,
            stock_address: self.stock_address.clone(),
            pool_address: self.pool_address.clone(),
            shorting_address: self.shorting_address.clone(),
            trading_address: self.trading_address.clone(),
            providing_address: self.providing_address.clone(),
        }
    }
}

/// Ids grow strictly from left to right.
pub open spec fn ascending(s: Seq<StockInfo>) -> bool {
    forall|i: int, j: int| 0 <= i < j < s.len() ==> s[i].id < s[j].id
}

/// Some record of `s` carries `id`.
pub open spec fn seq_has(s: Seq<StockInfo>, id: u32) -> bool {
    exists|i: int| 0 <= i < s.len() && #[trigger] s[i].id == id
}

/// A position in `s` of a record that carries `id`, where there is one.
pub open spec fn seq_pos(s: Seq<StockInfo>, id: u32) -> int {
    choose|i: int| 0 <= i < s.len() && #[trigger] s[i].id == id
}

/// `s` holds exactly the records of `m`, each at the id that it carries.
pub open spec fn enumerates(s: Seq<StockInfo>, m: Map<u32, StockInfo>) -> bool {
    &&& forall|i: int| 0 <= i < s.len() ==> m.contains_key(#[trigger] s[i].id) && m[s[i].id] == s[i]
    &&& forall|k: u32|
        m.contains_key(k) ==> exists|i: int| 0 <= i < s.len() && #[trigger] s[i].id == k
}

/// The map from id to record that `s` stands for.
pub open spec fn seq_map(s: Seq<StockInfo>) -> Map<u32, StockInfo> {
    Map::new(|k: u32| seq_has(s, k), |k: u32| s[seq_pos(s, k)])
}

/// In an ascending sequence each id occurs at one position only.
pub proof fn lemma_pos(s: Seq<StockInfo>, i: int)
    requires
        ascending(s),
        0 <= i < s.len(),
    ensures
        seq_has(s, s[i].id),
        seq_pos(s, s[i].id) == i,
        seq_map(s).contains_key(s[i].id),
        seq_map(s)[s[i].id] == s[i],
{
    let p = seq_pos(s, s[i].id);
    assert(0 <= p < s.len() && s[p].id == s[i].id);
    if p < i {
        assert(s[p].id < s[i].id);
    }
    if i < p {
        assert(s[i].id < s[p].id);
    }
}

/// An id that does not stand at its place in the order stands nowhere.
pub proof fn lemma_absent(s: Seq<StockInfo>, i: int, id: u32)
    requires
        ascending(s),
        0 <= i <= s.len(),
        forall|j: int| 0 <= j < i ==> s[j].id < id,
        forall|j: int| i <= j < s.len() ==> id <= s[j].id,
        i == s.len() || s[i].id != id,
    ensures
        !seq_has(s, id),
        seq_map(s).remove(id) == seq_map(s),
{
    if seq_has(s, id) {
        let p = seq_pos(s, id);
        if p < i {
            assert(s[p].id < id);
        } else if p > i {
            assert(s[i].id < s[p].id);
        }
    }
    assert(seq_map(s).remove(id) =~= seq_map(s));
}

/// Inserting a record with a new id at its place in the order adds one
/// binding and keeps the order.
pub proof fn lemma_insert(s: Seq<StockInfo>, i: int, r: StockInfo)
    requires
        ascending(s),
        0 <= i <= s.len(),
        forall|j: int| 0 <= j < i ==> s[j].id < r.id,
        forall|j: int| i <= j < s.len() ==> r.id < s[j].id,
    ensures
        ascending(s.insert(i, r)),
        seq_map(s.insert(i, r)) == seq_map(s).insert(r.id, r),
{
    let t = s.insert(i, r);
    assert(ascending(t));
    assert(t[i] == r);
    lemma_pos(t, i);
    assert forall|k: u32| seq_has(t, k) <==> (k == r.id || seq_has(s, k)) by {
        if seq_has(t, k) && k != r.id {
            let p = seq_pos(t, k);
            if p < i {
                assert(s[p].id == k);
            } else {
                assert(s[p - 1].id == k);
            }
        }
        if seq_has(s, k) {
            let p = seq_pos(s, k);
            if p < i {
                assert(t[p].id == k);
            } else {
                assert(t[p + 1].id == k);
            }
        }
    }
    assert forall|k: u32| seq_has(s, k) && k != r.id implies t[seq_pos(t, k)] == s[seq_pos(
        s,
        k,
    )] by {
        let p = seq_pos(s, k);
        lemma_pos(s, p);
        if p < i {
            assert(t[p] == s[p]);
            lemma_pos(t, p);
        } else {
            assert(t[p + 1] == s[p]);
            lemma_pos(t, p + 1);
        }
    }
    assert(seq_map(t) =~= seq_map(s).insert(r.id, r));
}

/// Taking the record at `i` out removes its binding and keeps the order.
pub proof fn lemma_remove(s: Seq<StockInfo>, i: int)
    requires
        ascending(s),
        0 <= i < s.len(),
    ensures
        ascending(s.remove(i)),
        seq_map(s.remove(i)) == seq_map(s).remove(s[i].id),
{
    let t = s.remove(i);
    let id = s[i].id;
    assert(ascending(t)) by {
        assert forall|a: int, b: int| 0 <= a < b < t.len() implies t[a].id < t[b].id by {
            let a2 = if a < i { a } else { a + 1 };
            let b2 = if b < i { b } else { b + 1 };
            assert(t[a] == s[a2] && t[b] == s[b2]);
        }
    }
    assert forall|k: u32| seq_has(t, k) <==> (k != id && seq_has(s, k)) by {
        if seq_has(t, k) {
            let p = seq_pos(t, k);
            let p2 = if p < i { p } else { p + 1 };
            assert(s[p2].id == k);
            if k == id {
                lemma_pos(s, i);
                lemma_pos(s, p2);
            }
        }
        if seq_has(s, k) && k != id {
            let p = seq_pos(s, k);
            if p < i {
                assert(t[p].id == k);
            } else {
                assert(t[p - 1].id == k);
            }
        }
    }
    assert forall|k: u32| seq_has(s, k) && k != id implies t[seq_pos(t, k)] == s[seq_pos(
        s,
        k,
    )] by {
        let p = seq_pos(s, k);
        lemma_pos(s, p);
        if p < i {
            assert(t[p] == s[p]);
            lemma_pos(t, p);
        } else {
            assert(t[p - 1] == s[p]);
            lemma_pos(t, p - 1);
        }
    }
    assert(seq_map(t) =~= seq_map(s).remove(id));
}

/// The map that comes of storing the records of `s` one after the other,
/// each under its own id.
pub open spec fn stored(s: Seq<StockInfo>) -> Map<u32, StockInfo>
    decreases s.len(),
{
    if s.len() == 0 {
        Map::empty()
    } else {
        stored(s.drop_last()).insert(s.last().id, s.last())
    }
}

/// Storing the records of an ascending sequence one after the other gives
/// the map that the sequence stands for.
pub proof fn lemma_stored_ascending(s: Seq<StockInfo>)
    requires
        ascending(s),
    ensures
        stored(s) == seq_map(s),
    decreases s.len(),
{
    if s.len() == 0 {
        assert(seq_map(s) =~= Map::<u32, StockInfo>::empty());
    } else {
        let front = s.drop_last();
        lemma_stored_ascending(front);
        lemma_insert(front, front.len() as int, s.last());
        assert(front.insert(front.len() as int, s.last()) =~= s);
    }
}

/// Two ascending sequences that stand for the same map are the same.
pub proof fn lemma_ascending_unique(s: Seq<StockInfo>, t: Seq<StockInfo>)
    requires
        ascending(s),
        ascending(t),
        seq_map(s) == seq_map(t),
    ensures
        s == t,
    decreases s.len(),
{
    if s.len() == 0 {
        if t.len() > 0 {
            lemma_pos(t, 0);
            assert(seq_map(s).contains_key(t[0].id));
        }
        assert(s =~= t);
    } else {
        let n = s.len() - 1;
        lemma_pos(s, n);
        assert(seq_map(t).contains_key(s[n].id));
        let m = t.len() - 1;
        assert(t.len() > 0);
        lemma_pos(t, m);
        assert(seq_map(s).contains_key(t[m].id));
        let ps = seq_pos(s, t[m].id);
        let pt = seq_pos(t, s[n].id);
        assert(s[ps].id == t[m].id && t[pt].id == s[n].id);
        assert(s[n].id == t[m].id) by {
            if ps < n {
                assert(s[ps].id < s[n].id);
            }
            if pt < m {
                assert(t[pt].id < t[m].id);
            }
        }
        assert(s[n] == t[m]);
        lemma_remove(s, n);
        lemma_remove(t, m);
        assert(s.remove(n) =~= s.drop_last());
        assert(t.remove(m) =~= t.drop_last());
        lemma_ascending_unique(s.drop_last(), t.drop_last());
        assert(s =~= s.drop_last().push(s[n]));
        assert(t =~= t.drop_last().push(t[m]));
    }
}

/// The stock registry.
#[derive(Debug, PartialEq, Eq)]
pub struct Registry {
    items: Vec<StockInfo>,
}

impl View for Registry {
    type V = Map<u32, StockInfo>;

    /// The registry as a map from id to record.
    open spec fn view(&self) -> Map<u32, StockInfo> {
        seq_map(self.records())
    }
}

impl Registry {
    /// The records in the order in which `list` gives them.
    pub closed spec fn records(&self) -> Seq<StockInfo> {
        self.items@
    }

    /// The records stand in strictly ascending id order.
    pub open spec fn wf(&self) -> bool {
        ascending(self.records())
    }

    /// A registry without records.
    pub fn new() -> (r: Self)
        ensures
            r.wf(),
            r.records() == Seq::<StockInfo>::empty(),
            r@ == Map::<u32, StockInfo>::empty(),
    {
        let r = Registry { items: Vec::new() };
        assert(r@ =~= Map::<u32, StockInfo>::empty());
        r
    }

    /// The registry that holds the enumerated records, each under its own
    /// id; where the enumeration failed, `Map2ListFailed`.
    pub fn from_listing(listing: Result<Vec<StockInfo>, String>) -> (r: Result<Self, ContractError>)
        ensures
            listing is Err ==> r == Err::<Self, ContractError>(ContractError::Map2ListFailed {  }),
            listing is Ok ==> r is Ok && r->Ok_0.wf() && r->Ok_0@ == stored(listing->Ok_0@),
            listing is Ok && ascending(listing->Ok_0@) ==> r->Ok_0.records() == listing->Ok_0@,
    {
        let records = match listing {
            Ok(records) => records,
            Err(_) => {
                return Err(ContractError::Map2ListFailed {  });
            },
        };
        let mut registry = Registry::new();
        let mut i: usize = 0;
        while i < records.len()
            invariant
                registry.wf(),
                i <= records@.len(),
                registry@ == stored(records@.subrange(0, i as int)),
            decreases records@.len() - i,
        {
            let record = records[i].clone();
            proof {
                let next = records@.subrange(0, i + 1);
                assert(next.drop_last() =~= records@.subrange(0, i as int));
                assert(next.last() == records@[i as int]);
            }
            registry.put(record.id, record);
            i += 1;
        }
        proof {
            assert(records@.subrange(0, i as int) =~= records@);
            if ascending(records@) {
                lemma_stored_ascending(records@);
                lemma_ascending_unique(registry.items@, records@);
            }
        }
        Ok(registry)
    }

    /// The number of records.
    pub fn len(&self) -> (n: usize)
        ensures
            n == self.records().len(),
    {
        self.items.len()
    }

    /// The first position whose id is not below `id`.
    fn position(&self, id: u32) -> (i: usize)
        requires
            self.wf(),
        ensures
            i <= self.records().len(),
            forall|j: int| 0 <= j < i ==> self.records()[j].id < id,
            forall|j: int| i <= j < self.records().len() ==> id <= self.records()[j].id,
    {
        let mut i: usize = 0;
        while i < self.items.len() && self.items[i].id < id
            invariant
                self.wf(),
                i <= self.items@.len(),
                forall|j: int| 0 <= j < i ==> self.items@[j].id < id,
            decreases self.items@.len() - i,
        {
            i += 1;
        }
        i
    }

    /// Stores `record` under `id`, in place of what was stored there.
    pub fn put(&mut self, id: u32, record: StockInfo)
        requires
            old(self).wf(),
            record.id == id,
        ensures
            final(self).wf(),
            final(self)@ == old(self)@.insert(id, record),
    {
        let i = self.position(id);
        if i < self.items.len() && self.items[i].id == id {
            proof {
                lemma_remove(self.items@, i as int);
            }
            self.items.remove(i);
        } else {
            proof {
                lemma_absent(self.items@, i as int, id);
            }
        }
        proof {
            lemma_insert(self.items@, i as int, record);
            assert(old(self)@.remove(id).insert(id, record) =~= old(self)@.insert(id, record));
        }
        self.items.insert(i, record);
    }

    /// What the registry holds under `id`.
    pub open spec fn found(&self, id: u32) -> Option<StockInfo> {
        if self@.contains_key(id) {
            Some(self@[id])
        } else {
            None
        }
    }

    /// The record stored under `id`, if there is one.
    pub fn get(&self, id: u32) -> (r: Option<StockInfo>)
        requires
            self.wf(),
        ensures
            r == self.found(id),
    {
        let i = self.position(id);
        if i < self.items.len() && self.items[i].id == id {
            proof {
                lemma_pos(self.items@, i as int);
            }
            Some(self.items[i].clone())
        } else {
            proof {
                lemma_absent(self.items@, i as int, id);
            }
            None
        }
    }

    /// Removes what is stored under `id`; nothing changes where nothing is.
    pub fn remove(&mut self, id: u32)
        requires
            old(self).wf(),
        ensures
            final(self).wf(),
            final(self)@ == old(self)@.remove(id),
            !old(self)@.contains_key(id) ==> *final(self) == *old(self),
    {
        let i = self.position(id);
        if i < self.items.len() && self.items[i].id == id {
            proof {
                lemma_remove(self.items@, i as int);
            }
            self.items.remove(i);
        } else {
            proof {
                lemma_absent(self.items@, i as int, id);
            }
        }
    }

    /// All records, in ascending id order.
    pub fn list(&self) -> (r: Vec<StockInfo>)
        requires
            self.wf(),
        ensures
            r@ == self.records(),
            ascending(r@),
            enumerates(r@, self@),
    {
        let mut out: Vec<StockInfo> = Vec::new();
        let mut i: usize = 0;
        while i < self.items.len()
            invariant
                i <= self.items@.len(),
                out@ == self.items@.subrange(0, i as int),
            decreases self.items@.len() - i,
        {
            out.push(self.items[i].clone());
            assert(out@ =~= self.items@.subrange(0, i + 1));
            i += 1;
        }
        proof {
            assert(out@ =~= self.items@);
            assert forall|j: int| 0 <= j < out@.len() implies self@.contains_key(
                #[trigger] out@[j].id,
            ) && self@[out@[j].id] == out@[j] by {
                lemma_pos(self.items@, j);
            }
        }
        out
    }

    /// Removes every record, one after the other in ascending id order.
    pub fn remove_all(&mut self)
        requires
            old(self).wf(),
        ensures
            final(self).wf(),
            final(self)@ == Map::<u32, StockInfo>::empty(),
            final(self).records() == Seq::<StockInfo>::empty(),
    {
        let all = self.list();
        let mut i: usize = 0;
        while i < all.len()
            invariant
                self.wf(),
                i <= all@.len(),
                forall|k: u32|
                    self@.contains_key(k) ==> exists|j: int|
                        i <= j < all@.len() && #[trigger] all@[j].id == k,
            decreases all@.len() - i,
        {
            let id: u32 = all[i].id;
            self.remove(id);
            i += 1;
        }
        proof {
            assert(self@ =~= Map::<u32, StockInfo>::empty());
            if self.items@.len() > 0 {
                lemma_pos(self.items@, 0);
            }
            assert(self.items@ =~= Seq::<StockInfo>::empty());
        }
    }
}

} // verus!
