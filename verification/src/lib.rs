//! A small user/post record service, verified with Verus.
//!
//! The library holds the storage model (two tables with uniqueness
//! constraints), the entity layer (record construction and row decoding),
//! and the route handlers (validation, the single store operation each
//! handler issues, and status mapping).

use vstd::prelude::*;

pub mod datetime;
pub mod entities;
pub mod posts;
pub mod status;
pub mod store;
pub mod users;

verus! {

/// Handler for the root path: it does nothing and answers with an empty body.
pub fn index() {
}

} // verus!
