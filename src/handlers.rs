use vstd::prelude::*;
use vstd::string::*;
use crate::model::{is_record_of, Flower, NewFlower};
use crate::store::{with_row, StoreError, LIST_LIMIT};
use crate::uid::{is_random_uid, uid_text, Uid};

verus! {

pub const STATUS_OK: u16 = 200;

pub const STATUS_SEE_OTHER: u16 = 303;

pub const STATUS_BAD_REQUEST: u16 = 400;

pub const STATUS_NOT_FOUND: u16 = 404;

pub const STATUS_SERVER_ERROR: u16 = 500;

/// What a response carries.
#[derive(Debug, Clone)]
pub enum Body {
    /// A JSON array of records.
    Flowers(Vec<Flower>),
    /// One JSON record.
    Flower(Flower),
    /// Plain text.
    Text(String),
    /// The JSON object `{flw_uid, status}` that answers a deletion.
    Deletion { flw_uid: String, status: String },
    /// Nothing.
    Empty,
}

/// A status code and a body.
#[derive(Debug, Clone)]
pub struct Response {
    pub status: u16,
    pub body: Body,
}

/// The next thing to do while creating a flower.
#[derive(Debug, Clone)]
pub enum AddStep {
    /// Answer now.
    Respond(Response),
    /// Insert this row, then answer with `creation_response`.
    Insert(Flower),
}

/// A failure of the store: status 500, and nothing of the cause.
pub open spec fn is_server_error(r: Response) -> bool {
    r.status == STATUS_SERVER_ERROR && r.body is Empty
}

/// The text of the answer to a lookup that found nothing.
pub open spec fn not_found_text(id: Seq<u8>) -> Seq<char> {
    "No flower found with uid: "@ + uid_text(id)
}

/// The answer to listing the flowers, given what the store returned: at most
/// the first `LIST_LIMIT` of the rows.
pub open spec fn is_list_response(rows: Result<Vec<Flower>, StoreError>, r: Response) -> bool {
    match rows {
        Ok(v) => {
            &&& r.status == STATUS_OK
            &&& r.body matches Body::Flowers(out)
            &&& out@ == if v@.len() <= LIST_LIMIT { v@ } else { v@.subrange(0, LIST_LIMIT as int) }
        },
        Err(_) => is_server_error(r),
    }
}

/// The answer to getting flower `id`, given the store's lookup.
pub open spec fn is_get_response(
    id: Seq<u8>,
    found: Result<Option<Flower>, StoreError>,
    r: Response,
) -> bool {
    match found {
        Ok(Some(f)) => r.status == STATUS_OK && r.body == Body::Flower(f),
        Ok(None) => {
            &&& r.status == STATUS_NOT_FOUND
            &&& r.body matches Body::Text(t)
            &&& t@ == not_found_text(id)
        },
        Err(_) => is_server_error(r),
    }
}

/// The answer to deleting flower `id`: the same whether or not a row was deleted.
pub open spec fn is_delete_response(
    id: Seq<u8>,
    outcome: Result<usize, StoreError>,
    r: Response,
) -> bool {
    match outcome {
        Ok(_) => {
            &&& r.status == STATUS_OK
            &&& r.body matches Body::Deletion { flw_uid, status }
            &&& flw_uid@ == uid_text(id)
            &&& status@ == "deleted"@
        },
        Err(_) => is_server_error(r),
    }
}

/// The step after looking up the name of `new_flower`: an existing record is
/// answered with 303; else a row with identifier `id` is inserted.
pub open spec fn is_creation_step(
    new_flower: NewFlower,
    existing: Result<Option<Flower>, StoreError>,
    id: Seq<u8>,
    step: AddStep,
) -> bool {
    match existing {
        Ok(Some(f)) => step == AddStep::Respond(
            Response { status: STATUS_SEE_OTHER, body: Body::Flower(f) },
        ),
        Ok(None) => step matches AddStep::Insert(row) && is_record_of(row, new_flower, uid_text(id)),
        Err(_) => step matches AddStep::Respond(r) && is_server_error(r),
    }
}

/// The answer once the row has been inserted, or has failed to be.
pub open spec fn is_creation_response(
    row: Flower,
    outcome: Result<usize, StoreError>,
    r: Response,
) -> bool {
    match outcome {
        Ok(_) => r.status == STATUS_OK && r.body == Body::Flower(row),
        Err(_) => is_server_error(r),
    }
}

/// The table once `step` has been carried out on `t`.
pub open spec fn table_after(t: Seq<Flower>, step: AddStep) -> Seq<Flower> {
    match step {
        AddStep::Insert(row) => with_row(t, row),
        AddStep::Respond(_) => t,
    }
}

/// The answer to a path segment that is no identifier.
pub open spec fn is_bad_request(r: Response) -> bool {
    r.status == STATUS_BAD_REQUEST && r.body is Empty
}

pub fn server_error() -> (r: Response)
    ensures
        is_server_error(r),
{
    Response { status: STATUS_SERVER_ERROR, body: Body::Empty }
}

pub fn bad_request() -> (r: Response)
    ensures
        is_bad_request(r),
{
    Response { status: STATUS_BAD_REQUEST, body: Body::Empty }
}

/// Answers `GET /flowers` from the rows that the store listed.
pub fn flower_list_response(rows: Result<Vec<Flower>, StoreError>) -> (r: Response)
    ensures
        is_list_response(rows, r),
        r.body matches Body::Flowers(out) ==> out@.len() <= LIST_LIMIT,
{
    match rows {
        Ok(v) => {
            let mut out = v;
            out.truncate(LIST_LIMIT);
            assert(v@.len() <= LIST_LIMIT ==> out@ =~= v@);
            Response { status: STATUS_OK, body: Body::Flowers(out) }
        },
        Err(_) => server_error(),
    }
}

/// Answers `GET /flower/{id}` from the store's lookup of `id`.
pub fn flower_response(id: &Uid, found: Result<Option<Flower>, StoreError>) -> (r: Response)
    ensures
        is_get_response(id.bytes@, found, r),
{
    match found {
        Ok(Some(f)) => Response { status: STATUS_OK, body: Body::Flower(f) },
        Ok(None) => {
            let mut text = String::from_str("No flower found with uid: ");
            let id_text = id.to_text();
            text.append(id_text.as_str());
            Response { status: STATUS_NOT_FOUND, body: Body::Text(text) }
        },
        Err(_) => server_error(),
    }
}

/// Answers `DELETE /flower/{id}`: success names `id`, whether or not a row
/// was deleted.
pub fn deletion_response(id: &Uid, outcome: Result<usize, StoreError>) -> (r: Response)
    ensures
        is_delete_response(id.bytes@, outcome, r),
{
    match outcome {
        Ok(_) => Response {
            status: STATUS_OK,
            body: Body::Deletion { flw_uid: id.to_text(), status: String::from_str("deleted") },
        },
        Err(_) => server_error(),
    }
}

/// The step after the lookup of the new flower's name, with `id` as the
/// identifier of a row to insert.
pub fn creation_step(
    new_flower: NewFlower,
    existing: Result<Option<Flower>, StoreError>,
    id: Uid,
) -> (r: AddStep)
    ensures
        is_creation_step(new_flower, existing, id.bytes@, r),
{
    match existing {
        Ok(Some(f)) => AddStep::Respond(Response { status: STATUS_SEE_OTHER, body: Body::Flower(f) }),
        Ok(None) => AddStep::Insert(Flower::from_new(&new_flower, id.to_text())),
        Err(_) => AddStep::Respond(server_error()),
    }
}

/// The step after the lookup of the new flower's name. A row to insert gets a
/// fresh random identifier.
pub fn add_flower_step(new_flower: NewFlower, existing: Result<Option<Flower>, StoreError>) -> (r:
    AddStep)
    ensures
        exists|id: Seq<u8>| is_random_uid(id) && is_creation_step(new_flower, existing, id, r),
{
    match existing {
        Ok(None) => {
            let id = Uid::new_random();
            creation_step(new_flower, existing, id)
        },
        _ => {
            let ghost w = seq![0u8, 0, 0, 0, 0, 0, 64, 0, 128, 0, 0, 0, 0, 0, 0, 0];
            let r = creation_step(new_flower, existing, Uid { bytes: [0u8; 16] });
            assert(is_random_uid(w));
            assert(is_creation_step(new_flower, existing, w, r));
            r
        },
    }
}

/// Answers `POST /flower` once the new row has been inserted, or has failed to be.
pub fn creation_response(row: Flower, outcome: Result<usize, StoreError>) -> (r: Response)
    ensures
        is_creation_response(row, outcome, r),
{
    match outcome {
        Ok(_) => Response { status: STATUS_OK, body: Body::Flower(row) },
        Err(_) => server_error(),
    }
}

} // verus!
