//! Client library for a remote book-catalog search service.
//!
//! The library has two verified cores: a query builder that turns search
//! predicates and options into a canonical request URL, and a response
//! resolver that classifies an HTTP status and JSON body into a typed
//! result or a small error taxonomy.

use vstd::prelude::*;

pub mod encoding;
pub mod errors;
pub mod json;
pub mod models;
pub mod queries;
pub mod resolve;

verus! {

/// A status code in the 2xx range means the remote call succeeded.
pub open spec fn spec_is_success_status(status: u16) -> bool {
    200 <= status < 300
}

/// Decides whether a raw HTTP status belongs to the success class.
pub fn is_success_status(status: u16) -> (r: bool)
    ensures
        r == spec_is_success_status(status),
{
    200 <= status && status < 300
}

} // verus!
