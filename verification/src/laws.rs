//! Laws of the store, proved over the model in `model`: what sequences of
//! operations guarantee, beyond each operation's own contract. The
//! executable operations promise (in their `ensures`) to follow the model's
//! step functions, so these laws carry over to every run of the store.

use vstd::prelude::*;

use crate::model::{
    contains_id, create_all, create_step, created_id, delete_step, ids_issued, index_of_id,
    lemma_create_step_wf, lemma_index_of_id_is, lemma_update_step_wf, make_record, record_of,
    store_wf, update_step, InputView, StoreView,
};

verus! {

/// Law: for every sequence of create calls, the identifiers returned are the
/// consecutive counter values `last_id + 1, last_id + 2, ...` — strictly
/// increasing, hence pairwise distinct.
pub proof fn lemma_create_ids_strictly_increasing(s: StoreView, inputs: Seq<InputView>)
    ensures
        ids_issued(s, inputs).len() == inputs.len(),
        forall|k: int|
            0 <= k < inputs.len() ==> #[trigger] ids_issued(s, inputs)[k] == s.last_id + 1 + k,
        forall|p: int, q: int|
            0 <= p < q < inputs.len() ==> ids_issued(s, inputs)[p] < ids_issued(s, inputs)[q],
    decreases inputs.len(),
{
    if inputs.len() > 0 {
        let t = create_step(s, inputs[0]);
        lemma_create_ids_strictly_increasing(t, inputs.drop_first());
        assert forall|k: int| 0 <= k < inputs.len() implies #[trigger] ids_issued(s, inputs)[k]
            == s.last_id + 1 + k by {
            if k > 0 {
                assert(ids_issued(s, inputs)[k] == ids_issued(t, inputs.drop_first())[k - 1]);
            }
        }
    }
}

/// Law: identifiers are never reused. Every live record's identifier lies
/// strictly below the one the next creation will assign, so no identifier
/// ever handed out — kept or since deleted — comes back.
pub proof fn lemma_created_id_fresh(s: StoreView)
    requires
        store_wf(s),
    ensures
        !contains_id(s.records, created_id(s)),
        forall|i: int| 0 <= i < s.records.len() ==> #[trigger] s.records[i].id < created_id(s),
{
}

/// Law: in a well-formed store the identifiers of live records are pairwise
/// distinct.
pub proof fn lemma_ids_pairwise_distinct(s: StoreView)
    requires
        store_wf(s),
    ensures
        forall|i: int, j: int|
            0 <= i < j < s.records.len()
                ==> #[trigger] s.records[i].id != #[trigger] s.records[j].id,
{
}

/// Law: N create calls grow the store by exactly N records, move the counter
/// up by exactly N, and leave the store well-formed — so the new records
/// carry N pairwise distinct identifiers and none is lost.
pub proof fn lemma_create_all_grows(s: StoreView, inputs: Seq<InputView>)
    requires
        store_wf(s),
        s.last_id + inputs.len() <= i32::MAX,
    ensures
        store_wf(create_all(s, inputs)),
        create_all(s, inputs).records.len() == s.records.len() + inputs.len(),
        create_all(s, inputs).last_id == s.last_id + inputs.len(),
    decreases inputs.len(),
{
    if inputs.len() > 0 {
        lemma_create_step_wf(s, inputs[0]);
        lemma_create_all_grows(create_step(s, inputs[0]), inputs.drop_first());
    }
}

/// Law: a record just created is found again under the identifier creation
/// returned, equal to the created one.
pub proof fn lemma_create_then_find(s: StoreView, fields: InputView)
    requires
        store_wf(s),
        s.last_id < i32::MAX,
    ensures
        contains_id(create_step(s, fields).records, created_id(s)),
        record_of(create_step(s, fields).records, created_id(s)) == make_record(
            created_id(s),
            fields,
        ),
{
    let t = create_step(s, fields);
    lemma_create_step_wf(s, fields);
    lemma_index_of_id_is(t, created_id(s), s.records.len() as int);
}

/// Law: after a deletion no live record carries the deleted identifier any
/// more — a lookup of it fails and a listing holds no entry with it.
pub proof fn lemma_delete_then_find(s: StoreView, id: int)
    requires
        store_wf(s),
        contains_id(s.records, id),
    ensures
        !contains_id(delete_step(s, id).records, id),
        forall|j: int|
            0 <= j < delete_step(s, id).records.len()
                ==> #[trigger] delete_step(s, id).records[j].id != id,
{
    let k = index_of_id(s.records, id);
    assert(0 <= k < s.records.len() && s.records[k].id == id);
    let t = delete_step(s, id);
    assert forall|j: int| 0 <= j < t.records.len() implies #[trigger] t.records[j].id != id by {
        let sj: int = if j < k {
            j
        } else {
            j + 1
        };
        assert(t.records[j] == s.records[sj]);
        lemma_index_of_id_is(s, id, k);
        if s.records[sj].id == id {
            lemma_index_of_id_is(s, id, sj);
        }
    }
}

/// Law: after a successful update the same identifier yields a record that
/// carries the new payload's fields under the unchanged identifier.
pub proof fn lemma_update_then_find(s: StoreView, id: int, fields: InputView)
    requires
        store_wf(s),
        contains_id(s.records, id),
    ensures
        contains_id(update_step(s, id, fields).records, id),
        record_of(update_step(s, id, fields).records, id) == make_record(id, fields),
{
    let k = index_of_id(s.records, id);
    assert(0 <= k < s.records.len() && s.records[k].id == id);
    lemma_update_step_wf(s, id, fields);
    lemma_index_of_id_is(update_step(s, id, fields), id, k);
}

} // verus!
