//! Order state validator: one before/after pair of snapshots at a time.

use ckb_dex::codec::OrderData;
use ckb_dex::error::Error;
use ckb_dex::order::validate_order;

fn record(
    sudt_amount: u128,
    dealt_amount: u128,
    undealt_amount: u128,
    price: u64,
    order_type: u8,
) -> OrderData {
    OrderData { sudt_amount, dealt_amount, undealt_amount, price, order_type }
}

const PRICE_FIVE: u64 = 50_000_000_000;

// The buy side of the matched-fill scenario: 150 tokens gained for 752.25
// native units of capacity at price 5 plus the 0.3% fee.
#[test]
fn test_buy_fill_accepts() {
    let i = record(5_000_000_000, 5_000_000_000, 15_000_000_000, PRICE_FIVE, 0);
    let o = record(20_000_000_000, 0, 0, 0, 0);
    assert_eq!(validate_order(&i, &o, 200_000_000_000, 124_775_000_000), Ok(()));
}

// The sell side of the matched-fill scenario: 150.45 tokens spent (dealt
// plus fee) for 750 native units received.
#[test]
fn test_sell_fill_accepts() {
    let i = record(25_000_000_000, 10_000_000_000, 20_000_000_000, PRICE_FIVE, 1);
    let o = record(9_955_000_000, 25_000_000_000, 5_000_000_000, PRICE_FIVE, 1);
    assert_eq!(validate_order(&i, &o, 80_000_000_000, 155_000_000_000), Ok(()));
}

// A zero-price input order is rejected whatever the other fields hold.
#[test]
fn test_zero_price_rejects() {
    let i = record(7, 8, 9, 0, 0);
    let o = record(7, 8, 9, 0, 0);
    assert_eq!(validate_order(&i, &o, 1, 1), Err(Error::OrderPriceNotZero));
    let i = record(5_000_000_000, 5_000_000_000, 15_000_000_000, 0, 1);
    let o = record(20_000_000_000, 0, 0, 0, 0);
    assert_eq!(
        validate_order(&i, &o, 200_000_000_000, 124_775_000_000),
        Err(Error::OrderPriceNotZero)
    );
}

// An input order with nothing left to match is rejected first of all.
#[test]
fn test_zero_undealt_rejects() {
    let i = record(5, 5, 0, PRICE_FIVE, 0);
    let o = record(5, 5, 0, PRICE_FIVE, 0);
    assert_eq!(validate_order(&i, &o, 10, 10), Err(Error::WrongSUDTInputAmount));
}

// An order type byte that is neither buy nor sell is rejected once the
// liveness checks pass.
#[test]
fn test_wrong_order_type_rejects() {
    let i = record(5, 0, 5, PRICE_FIVE, 2);
    let o = record(5, 0, 5, PRICE_FIVE, 2);
    assert_eq!(validate_order(&i, &o, 10, 10), Err(Error::WrongOrderType));
}

// A buy order pays capacity: its output capacity may never rise.
#[test]
fn test_buy_capacity_direction() {
    let i = record(0, 0, 1_000, 10_000_000_000, 0);
    let o = record(1_000, 0, 0, 0, 0);
    assert_eq!(validate_order(&i, &o, 997, 2_000), Err(Error::WrongDiffCapacity));
}

// A sell order receives capacity: its output capacity may never fall.
#[test]
fn test_sell_capacity_direction() {
    let i = record(2_000, 0, 1_000, 10_000_000_000, 1);
    let o = record(997, 0, 0, 0, 0);
    assert_eq!(validate_order(&i, &o, 2_000, 997), Err(Error::WrongDiffCapacity));
}

// The remaining undealt amount may never grow, on either side.
#[test]
fn test_undealt_monotonicity() {
    let i = record(0, 0, 1_000, 10_000_000_000, 0);
    let o = record(0, 0, 1_001, 0, 0);
    assert_eq!(validate_order(&i, &o, 2_000, 997), Err(Error::WrongSUDTDiffAmount));
    let i = record(2_000, 0, 1_000, 10_000_000_000, 1);
    let o = record(997, 0, 1_001, 0, 0);
    assert_eq!(validate_order(&i, &o, 997, 2_000), Err(Error::WrongSUDTDiffAmount));
}

// A buy order's token balance may never fall, a sell order's never rise.
#[test]
fn test_sudt_direction() {
    let i = record(1_000, 0, 1_000, 10_000_000_000, 0);
    let o = record(999, 0, 0, 0, 0);
    assert_eq!(validate_order(&i, &o, 2_000, 997), Err(Error::WrongSUDTDiffAmount));
    let i = record(1_000, 0, 1_000, 10_000_000_000, 1);
    let o = record(1_001, 0, 0, 0, 0);
    assert_eq!(validate_order(&i, &o, 997, 2_000), Err(Error::WrongSUDTDiffAmount));
}

// While the output stays an open order, dealt and undealt move in
// lock-step: the dealt gain must equal the undealt loss.
#[test]
fn test_buy_dealt_lockstep() {
    // dealt grows by 400 while undealt falls by 500
    let i = record(0, 100, 1_000, 10_000_000_000, 0);
    let o = record(500, 500, 500, 10_000_000_000, 0);
    assert_eq!(validate_order(&i, &o, 2_000, 1_000), Err(Error::WrongSUDTDiffAmount));
    // the dealt amount may never shrink
    let i = record(0, 600, 1_000, 10_000_000_000, 0);
    let o = record(500, 500, 500, 10_000_000_000, 0);
    assert_eq!(validate_order(&i, &o, 2_000, 1_000), Err(Error::WrongSUDTDiffAmount));
}

// The sell side applies the same lock-step rule whenever the output is not
// fully settled.
#[test]
fn test_sell_dealt_lockstep() {
    let i = record(2_000, 100, 1_000, 10_000_000_000, 1);
    let o = record(1_000, 500, 500, 10_000_000_000, 1);
    assert_eq!(validate_order(&i, &o, 1_000, 2_000), Err(Error::WrongSUDTDiffAmount));
}

// A buy fill's token gain must equal its undealt loss exactly: no
// tolerance on the integer conservation law.
#[test]
fn test_buy_exact_conservation() {
    let i = record(0, 0, 1_000, 10_000_000_000, 0);
    let o = record(999, 0, 0, 0, 0);
    assert_eq!(validate_order(&i, &o, 2_000, 997), Err(Error::WrongSUDTDiffAmount));
    let o = record(1_001, 0, 0, 0, 0);
    assert_eq!(validate_order(&i, &o, 2_000, 997), Err(Error::WrongSUDTDiffAmount));
}

// The buy-side swap bound at its exact boundary: gaining 1000 tokens at
// price 1.0 with the 0.3% fee needs 1003 units of capacity; within the
// 0.001 tolerance, one unit less of payment is already too little.
#[test]
fn test_buy_swap_bound_boundary() {
    let i = record(0, 0, 1_000, 10_000_000_000, 0);
    let o = record(1_000, 0, 0, 0, 0);
    assert_eq!(validate_order(&i, &o, 2_000, 997), Ok(()));
    assert_eq!(validate_order(&i, &o, 2_000, 998), Err(Error::WrongSwapAmount));
}

// The sell-side fee bound at its exact boundary: dealing 1000 tokens
// permits a token spend of 1003 but not 1004.
#[test]
fn test_sell_fee_bound_boundary() {
    let i = record(2_000, 0, 1_000, 10_000_000_000, 1);
    let ok_out = record(997, 0, 0, 0, 0);
    assert_eq!(validate_order(&i, &ok_out, 0, 100_000), Ok(()));
    let bad_out = record(996, 0, 0, 0, 0);
    assert_eq!(validate_order(&i, &bad_out, 0, 100_000), Err(Error::WrongSUDTDiffAmount));
}

// The sell-side capacity bound at its exact boundary: spending 1003 tokens
// at price 1.0 must bring in at least 1000 units of capacity.
#[test]
fn test_sell_capacity_bound_boundary() {
    let i = record(2_000, 0, 1_000, 10_000_000_000, 1);
    let o = record(997, 0, 0, 0, 0);
    assert_eq!(validate_order(&i, &o, 0, 1_000), Ok(()));
    assert_eq!(validate_order(&i, &o, 0, 999), Err(Error::WrongSwapAmount));
}

// Amounts near the top of u128 are compared exactly: the products behind
// the bounds span more than 128 bits and must neither wrap nor saturate.
#[test]
fn test_huge_amounts_compared_exactly() {
    // a sell of every token there can be: the fee bound holds, but no u64
    // capacity can pay the fair value
    let i = record(u128::MAX, 0, u128::MAX, 1, 1);
    let o = record(0, 0, 0, 0, 0);
    assert_eq!(validate_order(&i, &o, 0, u64::MAX), Err(Error::WrongSwapAmount));
    // a buy at the exact edge of what the largest capacities justify:
    // gaining 10^29 tokens at fixed-point price 1 needs 1.003 * 10^19
    // capacity, one unit less is too little
    let i = record(0, 0, 100_000_000_000_000_000_000_000_000_000, 1, 0);
    let o = record(100_000_000_000_000_000_000_000_000_000, 0, 0, 0, 0);
    assert_eq!(validate_order(&i, &o, 10_030_000_000_000_000_000, 0), Ok(()));
    assert_eq!(
        validate_order(&i, &o, 10_029_999_999_999_999_999, 0),
        Err(Error::WrongSwapAmount)
    );
}

// The price is read from the input snapshot alone: a tampered output price
// does not change the outcome of an otherwise settled fill.
#[test]
fn test_price_from_input_snapshot() {
    let i = record(0, 0, 1_000, 10_000_000_000, 0);
    let o = record(1_000, 0, 0, 1, 0);
    assert_eq!(validate_order(&i, &o, 2_000, 997), Ok(()));
}
