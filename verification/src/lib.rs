//! Validation engine for a decentralized limit-order exchange running as an
//! on-ledger script.
//!
//! Given the data of one proposed transaction, the library decides whether the
//! transaction is a valid atomic fill (partial or full) of a resting order,
//! enforcing the wire format of order records, the pairing of an order's
//! before/after snapshots, and the buy/sell conservation and price invariants.
//! All arithmetic is exact: the fee (0.3%) and the tolerance (0.001) are
//! rational constants, cleared of denominators before any comparison.
//!
//! The host runtime's accessors (loading the transaction, cell data, cell
//! capacities and the script's own arguments) are I/O and stay outside the
//! library; callers hand in plain values.

pub mod codec;
pub mod dispatch;
pub mod error;
pub mod order;
pub mod price;
pub mod wide;
