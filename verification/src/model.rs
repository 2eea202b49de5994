//! The mathematical model of the store: ghost views of records and of the
//! whole store, and the step functions that say what each operation does to
//! that model. The executable code in `store` promises, operation by
//! operation, that it follows these steps.

use vstd::prelude::*;

verus! {

/// The fields a caller supplies when creating or updating a record: every
/// field of a record except the identifier.
pub ghost struct InputView {
    pub first_name: Seq<char>,
    pub last_name: Seq<char>,
    pub department: Seq<char>,
    pub is_graduated: bool,
    pub age: int,
}

/// A stored record: the supplied fields plus the identifier the store
/// assigned to it.
pub ghost struct RecordView {
    pub id: int,
    pub first_name: Seq<char>,
    pub last_name: Seq<char>,
    pub department: Seq<char>,
    pub is_graduated: bool,
    pub age: int,
}

/// The whole store: the last identifier handed out, and the live records in
/// increasing order of identifier.
#[verifier::ext_equal]
pub ghost struct StoreView {
    pub last_id: int,
    pub records: Seq<RecordView>,
}

/// The record built from `fields` under identifier `id`.
pub open spec fn make_record(id: int, fields: InputView) -> RecordView {
    RecordView {
        id: id,
        first_name: fields.first_name,
        last_name: fields.last_name,
        department: fields.department,
        is_graduated: fields.is_graduated,
        age: fields.age,
    }
}

/// Whether some live record carries identifier `id`.
pub open spec fn contains_id(records: Seq<RecordView>, id: int) -> bool {
    exists|i: int| 0 <= i < records.len() && records[i].id == id
}

/// The position of the record carrying `id`; meaningful only when
/// `contains_id(records, id)` holds.
pub open spec fn index_of_id(records: Seq<RecordView>, id: int) -> int {
    choose|i: int| 0 <= i < records.len() && records[i].id == id
}

/// The live record carrying `id`; meaningful only when
/// `contains_id(records, id)` holds.
pub open spec fn record_of(records: Seq<RecordView>, id: int) -> RecordView {
    records[index_of_id(records, id)]
}

/// Well-formedness of the store model: the counter has not run out, every
/// identifier was handed out by the counter and is at least 1, and records
/// sit in strictly increasing identifier order (so identifiers are unique).
pub open spec fn store_wf(s: StoreView) -> bool {
    &&& 0 <= s.last_id <= i32::MAX
    &&& forall|i: int| 0 <= i < s.records.len() ==> 1 <= #[trigger] s.records[i].id <= s.last_id
    &&& forall|i: int, j: int|
        0 <= i < j < s.records.len() ==> #[trigger] s.records[i].id < #[trigger] s.records[j].id
}

/// What creation does to the model: the counter moves up by one and a record
/// with the fresh identifier is appended.
pub open spec fn create_step(s: StoreView, fields: InputView) -> StoreView {
    StoreView { last_id: s.last_id + 1, records: s.records.push(make_record(s.last_id + 1, fields)) }
}

/// The identifier that creation assigns when the store is in state `s`.
pub open spec fn created_id(s: StoreView) -> int {
    s.last_id + 1
}

/// What a successful update does to the model: the record carrying `id` is
/// rebuilt from the new fields, in place, under the same identifier; the
/// counter does not move.
pub open spec fn update_step(s: StoreView, id: int, fields: InputView) -> StoreView {
    StoreView {
        last_id: s.last_id,
        records: s.records.update(index_of_id(s.records, id), make_record(id, fields)),
    }
}

/// What a successful deletion does to the model: the record carrying `id`
/// disappears; the counter does not move.
pub open spec fn delete_step(s: StoreView, id: int) -> StoreView {
    StoreView { last_id: s.last_id, records: s.records.remove(index_of_id(s.records, id)) }
}

/// The store after a whole sequence of create calls, one per input, in
/// order.
pub open spec fn create_all(s: StoreView, inputs: Seq<InputView>) -> StoreView
    decreases inputs.len(),
{
    if inputs.len() == 0 {
        s
    } else {
        create_all(create_step(s, inputs[0]), inputs.drop_first())
    }
}

/// The identifiers a whole sequence of create calls returns, in order.
pub open spec fn ids_issued(s: StoreView, inputs: Seq<InputView>) -> Seq<int>
    decreases inputs.len(),
{
    if inputs.len() == 0 {
        Seq::empty()
    } else {
        seq![created_id(s)] + ids_issued(create_step(s, inputs[0]), inputs.drop_first())
    }
}

/// In a well-formed store identifiers are pairwise distinct, so a position
/// known to carry `id` is exactly the one `index_of_id` picks.
pub proof fn lemma_index_of_id_is(s: StoreView, id: int, i: int)
    requires
        store_wf(s),
        0 <= i < s.records.len(),
        s.records[i].id == id,
    ensures
        contains_id(s.records, id),
        index_of_id(s.records, id) == i,
{
    assert(contains_id(s.records, id));
    let j = index_of_id(s.records, id);
    assert(0 <= j < s.records.len() && s.records[j].id == id);
    if j < i {
        assert(s.records[j].id < s.records[i].id);
    }
    if i < j {
        assert(s.records[i].id < s.records[j].id);
    }
}

/// Creation preserves well-formedness: the fresh identifier is positive,
/// within the counter's new value, and strictly above every stored one.
pub proof fn lemma_create_step_wf(s: StoreView, fields: InputView)
    requires
        store_wf(s),
        s.last_id < i32::MAX,
    ensures
        store_wf(create_step(s, fields)),
{
    let t = create_step(s, fields);
    assert forall|i: int, j: int| 0 <= i < j < t.records.len() implies #[trigger] t.records[i].id
        < #[trigger] t.records[j].id by {
        if j < s.records.len() {
            assert(t.records[i] == s.records[i]);
            assert(t.records[j] == s.records[j]);
        } else {
            assert(t.records[j].id == s.last_id + 1);
            assert(t.records[i] == s.records[i]);
        }
    }
}

/// A successful update preserves well-formedness: it rewrites one record's
/// fields but keeps its identifier and its position.
pub proof fn lemma_update_step_wf(s: StoreView, id: int, fields: InputView)
    requires
        store_wf(s),
        contains_id(s.records, id),
    ensures
        store_wf(update_step(s, id, fields)),
{
    let k = index_of_id(s.records, id);
    assert(0 <= k < s.records.len() && s.records[k].id == id);
    let t = update_step(s, id, fields);
    assert forall|i: int| 0 <= i < t.records.len() implies 1 <= #[trigger] t.records[i].id
        <= t.last_id by {
        if i != k {
            assert(t.records[i] == s.records[i]);
        }
    }
    assert forall|i: int, j: int| 0 <= i < j < t.records.len() implies #[trigger] t.records[i].id
        < #[trigger] t.records[j].id by {
        assert(t.records[i].id == s.records[i].id);
        assert(t.records[j].id == s.records[j].id);
    }
}

/// A successful deletion preserves well-formedness: removing a record keeps
/// the rest in strictly increasing identifier order.
pub proof fn lemma_delete_step_wf(s: StoreView, id: int)
    requires
        store_wf(s),
        contains_id(s.records, id),
    ensures
        store_wf(delete_step(s, id)),
{
    let k = index_of_id(s.records, id);
    assert(0 <= k < s.records.len() && s.records[k].id == id);
    let t = delete_step(s, id);
    assert forall|i: int| 0 <= i < t.records.len() implies 1 <= #[trigger] t.records[i].id
        <= t.last_id by {
        if i < k {
            assert(t.records[i] == s.records[i]);
        } else {
            assert(t.records[i] == s.records[i + 1]);
        }
    }
    assert forall|i: int, j: int| 0 <= i < j < t.records.len() implies #[trigger] t.records[i].id
        < #[trigger] t.records[j].id by {
        let si: int = if i < k { i } else { i + 1 };
        let sj: int = if j < k { j } else { j + 1 };
        assert(t.records[i] == s.records[si]);
        assert(t.records[j] == s.records[sj]);
        assert(si < sj);
    }
}

} // verus!
