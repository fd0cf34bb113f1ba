//! Flower catalogue: records, identifiers, the table model and the
//! decisions of the request handlers.
pub mod model;
pub mod uid;
pub mod store;
pub mod handlers;
pub mod lemmas;
