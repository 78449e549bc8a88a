//! The error taxonomy of the data-access core.

use vstd::prelude::*;

verus! {

/// Outcome classes for repository and pool operations.
///
/// `NotFound` marks a lookup that matched no row, `Conflict` a uniqueness
/// violation, `PoolExhausted` a checkout that found no free connection
/// within its bounded wait, `StoreUnavailable` a connection or transport
/// failure of the underlying store, and `ValidationFailed` malformed input
/// reaching the core, such as an empty required field.
#[derive(Debug, Clone, Copy, PartialEq, Eq)]
pub enum DataError {
    NotFound,
    Conflict,
    PoolExhausted,
    StoreUnavailable,
    ValidationFailed,
}

} // verus!
