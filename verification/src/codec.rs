//! Order record codec: the fixed-length binary wire format of one order
//! cell's data payload.
//!
//! Two encodings exist. The 16-byte settled form holds `sudt_amount` alone
//! (the order is fully filled, or the cell is a plain balance cell); every
//! other field is implicitly zero. The 57-byte open-order form holds all five
//! fields. All numeric fields are little-endian fixed-width integers.

use vstd::bytes::*;
use vstd::prelude::*;
use vstd::slice::*;

use crate::error::Error;

verus! {

/// Byte length of the settled wire form: `sudt_amount` alone.
pub const SETTLED_LEN: usize = 16;

/// Byte length of the open-order wire form: all five fields.
pub const ORDER_LEN: usize = 57;

/// The decoded contents of one order cell's data payload.
#[derive(Clone, Copy, Debug, PartialEq, Eq, Structural)]
pub struct OrderData {
    /// Token quantity currently locked in the cell.
    pub sudt_amount: u128,
    /// Cumulative quantity already matched against the counter side.
    pub dealt_amount: u128,
    /// Remaining quantity still open to be matched.
    pub undealt_amount: u128,
    /// Fixed-point price: the real price is `price / PRICE_PARAM`.
    pub price: u64,
    /// `ORDER_TYPE_BUY` or `ORDER_TYPE_SELL`; any other value is rejected.
    pub order_type: u8,
}

/// The record whose fields are all zero: what a cell with no (or foreign)
/// data decodes to.
pub open spec fn spec_zero_record() -> OrderData {
    OrderData {
        sudt_amount: 0,
        dealt_amount: 0,
        undealt_amount: 0,
        price: 0,
        order_type: 0,
    }
}

/// What decoding a data payload yields: the settled form for 16 bytes, the
/// full record for 57 bytes, and an error for every other length.
pub open spec fn spec_parse_order_data(s: Seq<u8>) -> Result<OrderData, Error> {
    if s.len() == SETTLED_LEN {
        Ok(
            OrderData {
                sudt_amount: spec_u128_from_le_bytes(s.subrange(0, 16)),
                dealt_amount: 0,
                undealt_amount: 0,
                price: 0,
                order_type: 0,
            },
        )
    } else if s.len() == ORDER_LEN {
        Ok(
            OrderData {
                sudt_amount: spec_u128_from_le_bytes(s.subrange(0, 16)),
                dealt_amount: spec_u128_from_le_bytes(s.subrange(16, 32)),
                undealt_amount: spec_u128_from_le_bytes(s.subrange(32, 48)),
                price: spec_u64_from_le_bytes(s.subrange(48, 56)),
                order_type: s[56],
            },
        )
    } else {
        Err(Error::WrongDataLengthOrFormat)
    }
}

/// The record a cell stands for: a payload of any length other than 16 or 57
/// bytes counts as no order at all and decodes to the all-zero record.
pub open spec fn spec_parse_cell_data(s: Seq<u8>) -> OrderData {
    match spec_parse_order_data(s) {
        Ok(r) => r,
        Err(_) => spec_zero_record(),
    }
}

/// The 57-byte open-order encoding of a record: `sudt_amount` (16 bytes LE)
/// ‖ `dealt_amount` (16) ‖ `undealt_amount` (16) ‖ `price` (8) ‖
/// `order_type` (1).
pub open spec fn spec_encode_order_data(r: OrderData) -> Seq<u8> {
    spec_u128_to_le_bytes(r.sudt_amount) + spec_u128_to_le_bytes(r.dealt_amount)
        + spec_u128_to_le_bytes(r.undealt_amount) + spec_u64_to_le_bytes(r.price)
        + seq![r.order_type]
}

/// Decodes a data payload, rejecting every length other than 16 or 57 bytes
/// with `WrongDataLengthOrFormat`.
pub fn parse_order_data(data: &[u8]) -> (r: Result<OrderData, Error>)
    ensures
        r == spec_parse_order_data(data@),
{
    if data.len() == SETTLED_LEN {
        let sudt_amount = u128_from_le_bytes(slice_subrange(data, 0, 16));
        Ok(
            OrderData {
                sudt_amount,
                dealt_amount: 0,
                undealt_amount: 0,
                price: 0,
                order_type: 0,
            },
        )
    } else if data.len() == ORDER_LEN {
        let sudt_amount = u128_from_le_bytes(slice_subrange(data, 0, 16));
        let dealt_amount = u128_from_le_bytes(slice_subrange(data, 16, 32));
        let undealt_amount = u128_from_le_bytes(slice_subrange(data, 32, 48));
        let price = u64_from_le_bytes(slice_subrange(data, 48, 56));
        let order_type = *slice_index_get(data, 56);
        Ok(OrderData { sudt_amount, dealt_amount, undealt_amount, price, order_type })
    } else {
        Err(Error::WrongDataLengthOrFormat)
    }
}

/// Decodes what a cell stands for: the all-zero record when the payload has
/// a foreign length, the decoded record otherwise.
pub fn parse_cell_data(data: &[u8]) -> (r: OrderData)
    ensures
        r == spec_parse_cell_data(data@),
{
    match parse_order_data(data) {
        Ok(r) => r,
        Err(_) => OrderData {
            sudt_amount: 0,
            dealt_amount: 0,
            undealt_amount: 0,
            price: 0,
            order_type: 0,
        },
    }
}

/// Encodes a record in the 57-byte open-order form, the exact inverse of
/// `parse_order_data` on that form.
pub fn encode_order_data(r: &OrderData) -> (out: Vec<u8>)
    ensures
        out@ == spec_encode_order_data(*r),
        out@.len() == ORDER_LEN,
{
    let mut out = u128_to_le_bytes(r.sudt_amount);
    let mut dealt = u128_to_le_bytes(r.dealt_amount);
    out.append(&mut dealt);
    let mut undealt = u128_to_le_bytes(r.undealt_amount);
    out.append(&mut undealt);
    let mut price = u64_to_le_bytes(r.price);
    out.append(&mut price);
    out.push(r.order_type);
    proof {
        assert(out@ =~= spec_encode_order_data(*r));
    }
    out
}

/// Rejection law: decoding any byte string whose length is neither 16 nor
/// 57 fails with `WrongDataLengthOrFormat`, whatever the bytes hold.
pub proof fn lemma_malformed_length_rejected(s: Seq<u8>)
    requires
        s.len() != SETTLED_LEN,
        s.len() != ORDER_LEN,
    ensures
        spec_parse_order_data(s) == Err::<OrderData, Error>(Error::WrongDataLengthOrFormat),
{
}

/// Round-trip law: decoding the 57-byte encoding of any record gives the
/// record back, every field intact.
pub proof fn lemma_order_codec_round_trip(r: OrderData)
    ensures
        spec_encode_order_data(r).len() == ORDER_LEN,
        spec_parse_order_data(spec_encode_order_data(r)) == Ok::<OrderData, Error>(r),
{
    lemma_auto_spec_u128_to_from_le_bytes();
    lemma_auto_spec_u64_to_from_le_bytes();
    let s = spec_encode_order_data(r);
    assert(s.subrange(0, 16) =~= spec_u128_to_le_bytes(r.sudt_amount));
    assert(s.subrange(16, 32) =~= spec_u128_to_le_bytes(r.dealt_amount));
    assert(s.subrange(32, 48) =~= spec_u128_to_le_bytes(r.undealt_amount));
    assert(s.subrange(48, 56) =~= spec_u64_to_le_bytes(r.price));
    assert(s[56] == r.order_type);
}

} // verus!
