use vstd::prelude::*;
use crate::handlers::{
    is_creation_step, is_get_response, not_found_text, table_after, AddStep, Body, STATUS_NOT_FOUND,
    STATUS_OK, STATUS_SEE_OTHER,
};
use crate::model::{is_record_of, Flower, NewFlower};
use crate::store::{is_id_lookup, is_name_lookup, without_id, StoreError};
use crate::uid::uid_text;

verus! {

/// Creating a flower under a name that the table already holds answers with
/// 303 and a record of the table under that name, and inserts nothing: the
/// table stays as it was, so no second row with that name appears.
pub proof fn lemma_existing_name_answers_existing(
    t: Seq<Flower>,
    new_flower: NewFlower,
    reply: Option<Flower>,
    id: Seq<u8>,
    step: AddStep,
)
    requires
        exists|i: int| 0 <= i < t.len() && (#[trigger] t[i]).flw_name@ == new_flower.flw_name@,
        is_name_lookup(t, new_flower.flw_name@, reply),
        is_creation_step(new_flower, Ok::<Option<Flower>, StoreError>(reply), id, step),
    ensures
        step matches AddStep::Respond(r) && r.status == STATUS_SEE_OTHER && (r.body matches Body::Flower(
            f,
        ) && t.contains(f) && f.flw_name@ == new_flower.flw_name@ && reply == Some(f)),
        table_after(t, step) == t,
{
}

/// A record created under an identifier that no row of the table had is what
/// a lookup of that identifier then finds, and getting it answers 200 with
/// that record, whose fields are those supplied.
pub proof fn lemma_created_is_found(
    t: Seq<Flower>,
    new_flower: NewFlower,
    id: Seq<u8>,
    row: Flower,
    reply: Option<Flower>,
)
    requires
        forall|i: int| 0 <= i < t.len() ==> (#[trigger] t[i]).flw_id@ != uid_text(id),
        is_creation_step(
            new_flower,
            Ok::<Option<Flower>, StoreError>(None),
            id,
            AddStep::Insert(row),
        ),
        is_id_lookup(table_after(t, AddStep::Insert(row)), uid_text(id), reply),
    ensures
        reply == Some(row),
        is_record_of(row, new_flower, uid_text(id)),
        forall|r| #[trigger]
            is_get_response(id, Ok::<Option<Flower>, StoreError>(reply), r) ==> r.status == STATUS_OK
                && r.body == Body::Flower(row),
{
    let t2 = table_after(t, AddStep::Insert(row));
    assert(t2[t.len() as int] == row);
    match reply {
        None => {
            assert(t2[t.len() as int].flw_id@ != uid_text(id));
        },
        Some(f) => {
            let k = choose|k: int| 0 <= k < t2.len() && t2[k] == f;
            if k < t.len() {
                assert(t2[k] == t[k]);
            }
        },
    }
}

/// After every row with an identifier has been deleted, a lookup of that
/// identifier finds nothing, and getting it answers 404 "not found".
pub proof fn lemma_deleted_is_not_found(t: Seq<Flower>, id: Seq<u8>, reply: Option<Flower>)
    requires
        is_id_lookup(without_id(t, uid_text(id)), uid_text(id), reply),
    ensures
        reply is None,
        forall|r| #[trigger]
            is_get_response(id, Ok::<Option<Flower>, StoreError>(reply), r) ==> r.status
                == STATUS_NOT_FOUND && (r.body matches Body::Text(m) && m@ == not_found_text(id)),
{
    let pred = |f: Flower| f.flw_id@ != uid_text(id);
    let t2 = without_id(t, uid_text(id));
    if let Some(f) = reply {
        let k = choose|k: int| 0 <= k < t2.len() && t2[k] == f;
        t.lemma_filter_pred(pred, k);
    }
}

} // verus!
