//! Properties of the catalog that relate several operations.
use vstd::prelude::*;

use crate::catalog::{has_id, ids_unique, index_of, lemma_index_of, lookup, owned_by, upsert, without};
use crate::record::{StrategyView, minimal_record, stamped};

verus! {

/// A bare store followed by a lookup of the same id finds the record just
/// built: its id and goal are the ones given, its risk level is "medium" and
/// its creator is the caller.
pub proof fn law_store_then_get(
    s: Seq<StrategyView>,
    id: Seq<char>,
    goal: Seq<char>,
    caller: Seq<char>,
    now: u64,
)
    requires
        ids_unique(s),
    ensures
        lookup(upsert(s, minimal_record(id, goal, caller, now)), id) == Some(
            minimal_record(id, goal, caller, now),
        ),
        ({
            let r = lookup(upsert(s, minimal_record(id, goal, caller, now)), id).unwrap();
            &&& r.id == id
            &&& r.goal == goal
            &&& r.risk_level == "medium"@
            &&& r.creator == caller
        }),
{
    law_store_then_lookup(s, minimal_record(id, goal, caller, now));
}

/// After storing `rec`, a lookup of its id finds `rec`, and ids stay unique.
pub proof fn law_store_then_lookup(s: Seq<StrategyView>, rec: StrategyView)
    requires
        ids_unique(s),
    ensures
        ids_unique(upsert(s, rec)),
        lookup(upsert(s, rec), rec.id) == Some(rec),
{
    crate::catalog::lemma_upsert_unique(s, rec);
    let t = upsert(s, rec);
    if has_id(s, rec.id) {
        let k = index_of(s, rec.id);
        assert(s[k].id == rec.id);
        lemma_index_of(t, rec.id, k);
    } else {
        lemma_index_of(t, rec.id, s.len() as int);
    }
}

/// The count of a catalog equals the number of distinct ids it holds: one
/// entry per id.
pub proof fn law_count_is_key_count(s: Seq<StrategyView>)
    requires
        ids_unique(s),
    ensures
        s.map_values(|r: StrategyView| r.id).to_set().len() == s.len(),
{
    let ids = s.map_values(|r: StrategyView| r.id);
    assert(ids.no_duplicates()) by {
        assert forall|i: int, j: int| 0 <= i < ids.len() && 0 <= j < ids.len() && i != j implies ids[i]
            != ids[j] by {
            assert(ids[i] == s[i].id);
            assert(ids[j] == s[j].id);
        }
    }
    ids.unique_seq_to_set();
}

/// An update by the creator keeps the stored creator and creation time,
/// whatever the submitted record holds in those fields, and takes every other
/// field from the submitted record.
pub proof fn law_update_keeps_owner_fields(s: Seq<StrategyView>, rec: StrategyView)
    requires
        ids_unique(s),
        has_id(s, rec.id),
    ensures
        ({
            let prev = lookup(s, rec.id).unwrap();
            let after = lookup(upsert(s, stamped(rec, prev.creator, prev.created_at)), rec.id);
            &&& after == Some(stamped(rec, prev.creator, prev.created_at))
            &&& after.unwrap().creator == prev.creator
            &&& after.unwrap().created_at == prev.created_at
            &&& after.unwrap().goal == rec.goal
            &&& after.unwrap().risk_level == rec.risk_level
            &&& upsert(s, stamped(rec, prev.creator, prev.created_at)).len() == s.len()
        }),
{
    let prev = lookup(s, rec.id).unwrap();
    law_store_then_lookup(s, stamped(rec, prev.creator, prev.created_at));
}

/// Removing an id that is present leaves no record with that id and one
/// record fewer.
pub proof fn law_delete_removes(s: Seq<StrategyView>, id: Seq<char>)
    requires
        ids_unique(s),
        has_id(s, id),
    ensures
        lookup(without(s, id), id) == None::<StrategyView>,
        without(s, id).len() == s.len() - 1,
{
    let k = index_of(s, id);
    let t = without(s, id);
    assert(s[k].id == id);
    if has_id(t, id) {
        let j = choose|j: int| 0 <= j < t.len() && #[trigger] t[j].id == id;
        if j < k {
            assert(t[j] == s[j]);
        } else {
            assert(t[j] == s[j + 1]);
        }
    }
}

/// The records owned by `who` are exactly the records of the catalog whose
/// creator is `who`, in catalog order; there are none when `who` owns nothing.
pub proof fn law_owned_by_is_subset(s: Seq<StrategyView>, who: Seq<char>)
    ensures
        forall|i: int|
            0 <= i < owned_by(s, who).len() ==> #[trigger] owned_by(s, who)[i].creator == who
                && s.contains(owned_by(s, who)[i]),
        forall|i: int|
            0 <= i < s.len() && #[trigger] s[i].creator == who ==> owned_by(s, who).contains(s[i]),
        (forall|i: int| 0 <= i < s.len() ==> #[trigger] s[i].creator != who) ==> owned_by(
            s,
            who,
        ).len() == 0,
{
    broadcast use vstd::seq_lib::group_filter_ensures;

    let p = |r: StrategyView| r.creator == who;
    assert forall|i: int| 0 <= i < owned_by(s, who).len() implies #[trigger] owned_by(s, who)[i].creator
        == who && s.contains(owned_by(s, who)[i]) by {
        s.lemma_filter_pred(p, i);
        assert(s.filter(p).contains(s.filter(p)[i]));
        s.lemma_filter_contains_rev(p, s.filter(p)[i]);
    }
    assert forall|i: int| 0 <= i < s.len() && #[trigger] s[i].creator == who implies owned_by(
        s,
        who,
    ).contains(s[i]) by {
        s.lemma_filter_contains(p, i);
    }
    if forall|i: int| 0 <= i < s.len() ==> #[trigger] s[i].creator != who {
        assert(s.all(|x: StrategyView| !p(x)));
        s.lemma_all_neg_filter_empty(p);
    }
}

} // verus!
