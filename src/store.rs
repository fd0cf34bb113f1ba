use vstd::prelude::*;
use crate::model::Flower;

verus! {

/// Why the record store could not answer.
#[derive(Debug, Clone, Copy, PartialEq, Eq)]
pub enum StoreError {
    /// No connection could be leased from the pool.
    PoolExhausted,
    /// The statement failed in the store.
    Query,
}

/// The most rows that listing the flowers returns.
pub const LIST_LIMIT: usize = 10;

// The table is modelled as the sequence of its rows. The functions below say
// which answers of the store fit a table; the store picks among them.

/// `reply` is a possible answer to looking up identifier `id` in `t`: absent
/// exactly when no row has that identifier, else one of those rows.
pub open spec fn is_id_lookup(t: Seq<Flower>, id: Seq<char>, reply: Option<Flower>) -> bool {
    match reply {
        None => forall|i: int| 0 <= i < t.len() ==> (#[trigger] t[i]).flw_id@ != id,
        Some(f) => t.contains(f) && f.flw_id@ == id,
    }
}

/// `reply` is a possible answer to looking up name `name` in `t`: absent
/// exactly when no row has that name, else one of those rows.
pub open spec fn is_name_lookup(t: Seq<Flower>, name: Seq<char>, reply: Option<Flower>) -> bool {
    match reply {
        None => forall|i: int| 0 <= i < t.len() ==> (#[trigger] t[i]).flw_name@ != name,
        Some(f) => t.contains(f) && f.flw_name@ == name,
    }
}

/// The table after deleting every row with identifier `id`.
pub open spec fn without_id(t: Seq<Flower>, id: Seq<char>) -> Seq<Flower> {
    t.filter(|f: Flower| f.flw_id@ != id)
}

/// The table after inserting `row`.
pub open spec fn with_row(t: Seq<Flower>, row: Flower) -> Seq<Flower> {
    t.push(row)
}

} // verus!
