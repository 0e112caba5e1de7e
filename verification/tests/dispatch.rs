//! Entry dispatcher: witness presence routes a transaction.

use ckb_dex::dispatch::{dispatch, Route};

// No witness at all: the order-matching path.
#[test]
fn test_no_witness_goes_to_orders() {
    assert_eq!(dispatch(None), Route::OrderPath);
}

// An empty first witness is treated as absent.
#[test]
fn test_empty_witness_goes_to_orders() {
    assert_eq!(dispatch(Some(0)), Route::OrderPath);
}

// A non-empty first witness asks for the signature-cancellation path.
#[test]
fn test_witness_goes_to_signature_path() {
    assert_eq!(dispatch(Some(97)), Route::SignaturePath);
}
