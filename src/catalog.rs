//! The catalog: records keyed by id, in the order they were first stored.
use vstd::prelude::*;

use crate::record::{
    StrategyData, StrategyView, authorize, minimal_record, opt_record_view, records_view, stamped,
};
use crate::text::{
    complete_stored_message, deleted_message, framed, framed_count, info_message, push_decimal, stored_message,
    updated_message,
};

verus! {

/// No two records share an id.
pub open spec fn ids_unique(s: Seq<StrategyView>) -> bool {
    forall|i: int, j: int|
        0 <= i < s.len() && 0 <= j < s.len() && i != j ==> #[trigger] s[i].id != #[trigger] s[j].id
}

/// Some record has this id.
pub open spec fn has_id(s: Seq<StrategyView>, id: Seq<char>) -> bool {
    exists|i: int| 0 <= i < s.len() && #[trigger] s[i].id == id
}

/// The position of the record with this id (meaningful when `has_id`).
pub open spec fn index_of(s: Seq<StrategyView>, id: Seq<char>) -> int {
    choose|i: int| 0 <= i < s.len() && #[trigger] s[i].id == id
}

/// The record with this id, if any.
pub open spec fn lookup(s: Seq<StrategyView>, id: Seq<char>) -> Option<StrategyView> {
    if has_id(s, id) {
        Some(s[index_of(s, id)])
    } else {
        None
    }
}

/// `s` with `rec` stored: the record with the same id replaced in place, or
/// `rec` appended when there is none.
pub open spec fn upsert(s: Seq<StrategyView>, rec: StrategyView) -> Seq<StrategyView> {
    if has_id(s, rec.id) {
        s.update(index_of(s, rec.id), rec)
    } else {
        s.push(rec)
    }
}

/// `s` without the record with this id.
pub open spec fn without(s: Seq<StrategyView>, id: Seq<char>) -> Seq<StrategyView> {
    if has_id(s, id) {
        s.remove(index_of(s, id))
    } else {
        s
    }
}

/// The records of `s` whose creator is `who`, in the order of `s`.
pub open spec fn owned_by(s: Seq<StrategyView>, who: Seq<char>) -> Seq<StrategyView> {
    s.filter(|r: StrategyView| r.creator == who)
}

/// In a catalog with unique ids, the record at `i` is the one found by its id.
pub proof fn lemma_index_of(s: Seq<StrategyView>, id: Seq<char>, i: int)
    requires
        ids_unique(s),
        0 <= i < s.len(),
        s[i].id == id,
    ensures
        has_id(s, id),
        index_of(s, id) == i,
        lookup(s, id) == Some(s[i]),
{
    assert(has_id(s, id));
    let j = index_of(s, id);
    assert(s[j].id == id);
}

/// Storing keeps ids unique.
pub proof fn lemma_upsert_unique(s: Seq<StrategyView>, rec: StrategyView)
    requires
        ids_unique(s),
    ensures
        ids_unique(upsert(s, rec)),
{
    if has_id(s, rec.id) {
        let k = index_of(s, rec.id);
        assert(s[k].id == rec.id);
        let t = upsert(s, rec);
        assert forall|i: int, j: int|
            0 <= i < t.len() && 0 <= j < t.len() && i != j implies #[trigger] t[i].id
            != #[trigger] t[j].id by {
            assert(t[i].id == s[i].id);
            assert(t[j].id == s[j].id);
        }
    } else {
        let t = upsert(s, rec);
        assert forall|i: int, j: int|
            0 <= i < t.len() && 0 <= j < t.len() && i != j implies #[trigger] t[i].id
            != #[trigger] t[j].id by {
            if i < s.len() && j < s.len() {
                assert(t[i] == s[i] && t[j] == s[j]);
            } else if i < s.len() {
                assert(t[i] == s[i]);
            } else {
                assert(t[j] == s[j]);
            }
        }
    }
}

/// Removing keeps ids unique.
pub proof fn lemma_without_unique(s: Seq<StrategyView>, id: Seq<char>)
    requires
        ids_unique(s),
    ensures
        ids_unique(without(s, id)),
{
    if has_id(s, id) {
        let k = index_of(s, id);
        let t = without(s, id);
        assert forall|i: int, j: int|
            0 <= i < t.len() && 0 <= j < t.len() && i != j implies #[trigger] t[i].id
            != #[trigger] t[j].id by {
            let a = if i < k { i } else { i + 1 };
            let b = if j < k { j } else { j + 1 };
            assert(t[i] == s[a]);
            assert(t[j] == s[b]);
        }
    }
}

/// Why an operation on the catalog was refused. A refused operation leaves
/// the catalog as it was.
pub enum StrategyError {
    /// The payload could not be read as a record: the reader's diagnostic,
    /// and the payload itself.
    MalformedInput { diagnostic: String, payload: String },
    /// A required field (the id) was empty.
    MissingField(String),
    /// No record has this id.
    NotFound(String),
    /// The caller is not the record's creator.
    Forbidden,
}

/// The catalog of strategy records, each with a distinct id.
pub struct YetifyStrategyStorage {
    strategies: Vec<StrategyData>,
}

impl View for YetifyStrategyStorage {
    type V = Seq<StrategyView>;

    closed spec fn view(&self) -> Seq<StrategyView> {
        records_view(self.strategies)
    }
}

impl Default for YetifyStrategyStorage {
    fn default() -> (r: Self)
        ensures
            r.wf(),
            r@ == Seq::<StrategyView>::empty(),
    {
        YetifyStrategyStorage::new()
    }
}

impl YetifyStrategyStorage {
    /// The catalog's invariant: ids are unique.
    pub open spec fn wf(&self) -> bool {
        ids_unique(self@)
    }

    /// An empty catalog.
    pub fn new() -> (r: Self)
        ensures
            r.wf(),
            r@ == Seq::<StrategyView>::empty(),
    {
        let r = YetifyStrategyStorage { strategies: Vec::new() };
        assert(r@ =~= Seq::<StrategyView>::empty());
        r
    }

    /// A catalog holding `records` in this order, or `None` when two of them
    /// share an id.
    pub fn from_records(records: Vec<StrategyData>) -> (r: Option<Self>)
        ensures
            match r {
                Some(c) => c.wf() && c@ == records_view(records),
                None => !ids_unique(records_view(records)),
            },
    {
        let ghost v = records_view(records);
        let n = records.len();
        let mut i: usize = 0;
        while i < n
            invariant
                n == records@.len(),
                n == v.len(),
                v == records_view(records),
                i <= n,
                forall|a: int, b: int|
                    0 <= a < i && 0 <= b < i && a != b ==> #[trigger] v[a].id != #[trigger] v[b].id,
            decreases n - i,
        {
            let mut j: usize = 0;
            while j < i
                invariant
                    n == records@.len(),
                    n == v.len(),
                    v == records_view(records),
                    j <= i < n,
                    forall|b: int| 0 <= b < j ==> #[trigger] v[b].id != v[i as int].id,
                decreases i - j,
            {
                assert(v[j as int] == records@[j as int]@);
                assert(v[i as int] == records@[i as int]@);
                if records[j].id == records[i].id {
                    assert(v[j as int].id == v[i as int].id);
                    return None;
                }
                j = j + 1;
            }
            i = i + 1;
        }
        Some(YetifyStrategyStorage { strategies: records })
    }

    fn find_index(&self, id: &String) -> (r: Option<usize>)
        requires
            self.wf(),
        ensures
            match r {
                Some(i) => i < self@.len() && self@[i as int].id == id@ && index_of(self@, id@)
                    == i && has_id(self@, id@),
                None => !has_id(self@, id@),
            },
    {
        let n = self.strategies.len();
        let mut i: usize = 0;
        while i < n
            invariant
                n == self@.len(),
                n == self.strategies@.len(),
                i <= n,
                self.wf(),
                forall|j: int| 0 <= j < i ==> #[trigger] self@[j].id != id@,
            decreases n - i,
        {
            assert(self@[i as int] == self.strategies@[i as int]@);
            if self.strategies[i].id == *id {
                proof {
                    lemma_index_of(self@, id@, i as int);
                }
                return Some(i);
            }
            i = i + 1;
        }
        None
    }

    /// The record with this id, if any. Anyone may read any record.
    pub fn get_strategy(&self, id: String) -> (r: Option<StrategyData>)
        requires
            self.wf(),
        ensures
            opt_record_view(r) == lookup(self@, id@),
    {
        match self.find_index(&id) {
            Some(i) => {
                assert(self@[i as int] == self.strategies@[i as int]@);
                Some(self.strategies[i].clone())
            },
            None => None,
        }
    }

    /// How many records the catalog holds.
    pub fn total_strategies(&self) -> (r: u64)
        ensures
            r == self@.len(),
    {
        self.strategies.len() as u64
    }

    /// A one-line summary with the number of records.
    pub fn get_contract_info(&self) -> (r: String)
        ensures
            r@ == info_message(self@.len()),
    {
        let mut r = String::from_str("Yetify Strategy Storage - Total strategies: ");
        push_decimal(&mut r, self.total_strategies());
        r
    }

    /// Every record, in catalog order. Anyone may read any record.
    pub fn get_all_strategies(&self) -> (r: Vec<StrategyData>)
        ensures
            records_view(r) == self@,
    {
        let n = self.strategies.len();
        let mut out: Vec<StrategyData> = Vec::new();
        let mut i: usize = 0;
        while i < n
            invariant
                n == self.strategies@.len(),
                n == self@.len(),
                i <= n,
                records_view(out) =~= self@.take(i as int),
            decreases n - i,
        {
            assert(self@[i as int] == self.strategies@[i as int]@);
            let ghost before = records_view(out);
            out.push(self.strategies[i].clone());
            assert(records_view(out) =~= before.push(self@[i as int]));
            assert(self@.take(i + 1) =~= self@.take(i as int).push(self@[i as int]));
            i = i + 1;
        }
        assert(self@.take(n as int) =~= self@);
        out
    }

    /// The records whose creator is `creator`, in catalog order; empty when
    /// `creator` owns nothing.
    pub fn get_strategies_by_creator(&self, creator: String) -> (r: Vec<StrategyData>)
        ensures
            records_view(r) == owned_by(self@, creator@),
    {
        let n = self.strategies.len();
        let mut out: Vec<StrategyData> = Vec::new();
        let mut i: usize = 0;
        proof {
            reveal(Seq::filter);
            assert(self@.take(0) =~= Seq::<StrategyView>::empty());
            assert(records_view(out) =~= owned_by(self@.take(0), creator@));
        }
        while i < n
            invariant
                n == self.strategies@.len(),
                n == self@.len(),
                i <= n,
                records_view(out) == owned_by(self@.take(i as int), creator@),
            decreases n - i,
        {
            assert(self@[i as int] == self.strategies@[i as int]@);
            let ghost before = records_view(out);
            proof {
                reveal(Seq::filter);
                assert(self@.take(i + 1).drop_last() =~= self@.take(i as int));
                assert(self@.take(i + 1).last() == self@[i as int]);
            }
            if self.strategies[i].creator == creator {
                out.push(self.strategies[i].clone());
                assert(records_view(out) =~= before.push(self@[i as int]));
            }
            i = i + 1;
        }
        assert(self@.take(n as int) =~= self@);
        out
    }

    fn put(&mut self, rec: StrategyData)
        requires
            old(self).wf(),
        ensures
            final(self).wf(),
            final(self)@ == upsert(old(self)@, rec@),
    {
        let ghost before = self@;
        match self.find_index(&rec.id) {
            Some(i) => {
                let ghost v = rec@;
                self.strategies.set(i, rec);
                assert(self@ =~= before.update(i as int, v));
            },
            None => {
                let ghost v = rec@;
                self.strategies.push(rec);
                assert(self@ =~= before.push(v));
            },
        }
        proof {
            lemma_upsert_unique(before, rec@);
        }
    }

    fn take_at(&mut self, i: usize)
        requires
            old(self).wf(),
            i < old(self)@.len(),
        ensures
            final(self)@ == old(self)@.remove(i as int),
    {
        let ghost before = self@;
        self.strategies.remove(i);
        assert(self@ =~= before.remove(i as int));
    }

    /// Stores a bare record under `id` for `caller` at time `now`: no chains,
    /// protocols or steps, risk level "medium", no optional field. A record
    /// with the same id is replaced.
    pub fn store_strategy(&mut self, caller: String, now: u64, id: String, goal: String) -> (r:
        Result<String, StrategyError>)
        requires
            old(self).wf(),
        ensures
            final(self).wf(),
            id@.len() == 0 ==> final(self)@ == old(self)@ && match r {
                Err(StrategyError::MissingField(f)) => f@ == "id"@,
                _ => false,
            },
            id@.len() > 0 ==> final(self)@ == upsert(
                old(self)@,
                minimal_record(id@, goal@, caller@, now),
            ) && match r {
                Ok(m) => m@ == stored_message(id@),
                _ => false,
            },
    {
        if id.as_str().is_empty() {
            return Err(StrategyError::MissingField(String::from_str("id")));
        }
        let rec = StrategyData::minimal(id.clone(), goal, caller, now);
        self.put(rec);
        Ok(framed("Strategy '", id.as_str(), "' stored successfully!"))
    }

    /// Stores a complete record for `caller` at time `now`. The record's own
    /// creator and creation time are ignored: the caller and `now` take their
    /// place. A record with the same id is replaced.
    pub fn store_complete_strategy(&mut self, caller: String, now: u64, strategy: StrategyData) -> (r:
        Result<String, StrategyError>)
        requires
            old(self).wf(),
        ensures
            final(self).wf(),
            strategy.id@.len() == 0 ==> final(self)@ == old(self)@ && match r {
                Err(StrategyError::MissingField(f)) => f@ == "id"@,
                _ => false,
            },
            strategy.id@.len() > 0 ==> final(self)@ == upsert(
                old(self)@,
                stamped(strategy@, caller@, now),
            ) && match r {
                Ok(m) => m@ == complete_stored_message(strategy.id@, final(self)@.len()),
                _ => false,
            },
    {
        if strategy.id.as_str().is_empty() {
            return Err(StrategyError::MissingField(String::from_str("id")));
        }
        let id = strategy.id.clone();
        let mut rec = strategy;
        rec.creator = caller;
        rec.created_at = now;
        assert(rec@ =~= stamped(strategy@, caller@, now));
        self.put(rec);
        Ok(
            framed_count(
                "Complete strategy '",
                id.as_str(),
                "' stored successfully! Total strategies: ",
                self.total_strategies(),
            ),
        )
    }

    /// Replaces the record with the same id as `strategy`, for its creator
    /// only. The stored creator and creation time are kept, whatever
    /// `strategy` holds in those fields; every other field is taken from
    /// `strategy`.
    pub fn update_strategy(&mut self, caller: String, strategy: StrategyData) -> (r: Result<
        String,
        StrategyError,
    >)
        requires
            old(self).wf(),
        ensures
            final(self).wf(),
            match lookup(old(self)@, strategy.id@) {
                None => final(self)@ == old(self)@ && match r {
                    Err(StrategyError::NotFound(m)) => m@ == strategy.id@,
                    _ => false,
                },
                Some(prev) => if prev.creator != caller@ {
                    final(self)@ == old(self)@ && r matches Err(StrategyError::Forbidden)
                } else {
                    final(self)@ == upsert(
                        old(self)@,
                        stamped(strategy@, prev.creator, prev.created_at),
                    ) && match r {
                        Ok(m) => m@ == updated_message(strategy.id@),
                        _ => false,
                    }
                },
            },
    {
        let i = match self.find_index(&strategy.id) {
            Some(i) => i,
            None => {
                return Err(StrategyError::NotFound(strategy.id));
            },
        };
        assert(self@[i as int] == self.strategies@[i as int]@);
        if !authorize(&self.strategies[i], &caller) {
            return Err(StrategyError::Forbidden);
        }
        let id = strategy.id.clone();
        let mut rec = strategy;
        rec.creator = self.strategies[i].creator.clone();
        rec.created_at = self.strategies[i].created_at;
        assert(rec@ =~= stamped(strategy@, self@[i as int].creator, self@[i as int].created_at));
        self.put(rec);
        Ok(framed("Strategy '", id.as_str(), "' updated successfully!"))
    }

    /// Removes the record with this id, for its creator only.
    pub fn delete_strategy(&mut self, caller: String, id: String) -> (r: Result<
        String,
        StrategyError,
    >)
        requires
            old(self).wf(),
        ensures
            final(self).wf(),
            match lookup(old(self)@, id@) {
                None => final(self)@ == old(self)@ && match r {
                    Err(StrategyError::NotFound(m)) => m@ == id@,
                    _ => false,
                },
                Some(prev) => if prev.creator != caller@ {
                    final(self)@ == old(self)@ && r matches Err(StrategyError::Forbidden)
                } else {
                    final(self)@ == without(old(self)@, id@) && match r {
                        Ok(m) => m@ == deleted_message(id@, final(self)@.len()),
                        _ => false,
                    }
                },
            },
    {
        let i = match self.find_index(&id) {
            Some(i) => i,
            None => {
                return Err(StrategyError::NotFound(id));
            },
        };
        assert(self@[i as int] == self.strategies@[i as int]@);
        if !authorize(&self.strategies[i], &caller) {
            return Err(StrategyError::Forbidden);
        }
        proof {
            lemma_without_unique(self@, id@);
        }
        self.take_at(i);
        Ok(
            framed_count(
                "Strategy '",
                id.as_str(),
                "' deleted successfully! Total strategies: ",
                self.total_strategies(),
            ),
        )
    }
}

} // verus!
