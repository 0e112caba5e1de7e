//! Entry dispatcher: the one routing decision at the top of a validation.
//!
//! A transaction that carries a non-empty first witness asks for the
//! signature-authorized cancellation path, where only ownership is checked
//! (by an external signature library, through the host glue); one that
//! carries no witness asks for the order-matching path and its conservation
//! rules.

use vstd::prelude::*;

verus! {

/// Where a transaction is routed.
#[derive(Clone, Copy, Debug, PartialEq, Eq, Structural)]
pub enum Route {
    /// No witness: check the order conservation rules.
    OrderPath,
    /// Non-empty first witness: check the owner's signature (delegated).
    SignaturePath,
}

/// The routing decision: the signature path exactly when a first witness is
/// present and non-empty.
pub open spec fn spec_dispatch(first_witness_len: Option<usize>) -> Route {
    match first_witness_len {
        None => Route::OrderPath,
        Some(n) => if n == 0 {
            Route::OrderPath
        } else {
            Route::SignaturePath
        },
    }
}

/// Routes a transaction from the length of its first witness entry (`None`
/// when the transaction carries no witness at all).
pub fn dispatch(first_witness_len: Option<usize>) -> (r: Route)
    ensures
        r == spec_dispatch(first_witness_len),
{
    match first_witness_len {
        None => Route::OrderPath,
        Some(n) => if n == 0 {
            Route::OrderPath
        } else {
            Route::SignaturePath
        },
    }
}

} // verus!
