//! Order locator and order state validator.
//!
//! A resting order lives in one cell; a transaction that fills it carries
//! the order's "before" snapshot among its inputs and the "after" snapshot
//! at the same position among its outputs. The locator pairs the snapshots
//! by identity: it scans the outputs in order for the first cell whose
//! lock-argument prefix equals the invoking script's own identity. The
//! state validator then applies the buy/sell conservation laws and the
//! fee-adjusted price bounds to the pair.

use vstd::prelude::*;

use crate::codec::OrderData;
use crate::codec::parse_cell_data;
use crate::codec::spec_parse_cell_data;
use crate::error::Error;
use crate::price::buy_swap_ok;
use crate::price::sell_capacity_ok;
use crate::price::sell_fee_ok;
use crate::price::spec_buy_swap_ok;
use crate::price::spec_sell_capacity_ok;
use crate::price::spec_sell_fee_ok;

verus! {

/// Order type byte of a buy order: it spends native capacity to gain token.
pub const ORDER_TYPE_BUY: u8 = 0;

/// Order type byte of a sell order: it spends token to gain capacity.
pub const ORDER_TYPE_SELL: u8 = 1;

/// Identity prefix length: the first 20 bytes of a lock's arguments are the
/// order owner's identity hash.
pub const ID_LEN: usize = 20;

/// The whole decision for one order pair, first violation reported:
/// the liveness preconditions, then by order type the capacity direction,
/// the amount monotonicity, the dealt/undealt lock-step when the output is
/// still an open order, the exact token conservation, and the fee-adjusted
/// price bounds.
pub open spec fn spec_validate_order(
    i: OrderData,
    o: OrderData,
    input_capacity: u64,
    output_capacity: u64,
) -> Result<(), Error> {
    if i.undealt_amount == 0 {
        Err(Error::WrongSUDTInputAmount)
    } else if i.price == 0 {
        Err(Error::OrderPriceNotZero)
    } else if i.order_type == ORDER_TYPE_BUY {
        if input_capacity < output_capacity {
            Err(Error::WrongDiffCapacity)
        } else if i.sudt_amount > o.sudt_amount || i.undealt_amount < o.undealt_amount {
            Err(Error::WrongSUDTDiffAmount)
        } else if o.dealt_amount != 0 && o.undealt_amount != 0 && i.dealt_amount
            > o.dealt_amount {
            Err(Error::WrongSUDTDiffAmount)
        } else if o.dealt_amount != 0 && o.undealt_amount != 0 && o.dealt_amount
            - i.dealt_amount != i.undealt_amount - o.undealt_amount {
            Err(Error::WrongSUDTDiffAmount)
        } else if o.sudt_amount - i.sudt_amount != i.undealt_amount - o.undealt_amount {
            Err(Error::WrongSUDTDiffAmount)
        } else if !spec_buy_swap_ok(
            i.undealt_amount - o.undealt_amount,
            input_capacity - output_capacity,
            i.price as int,
        ) {
            Err(Error::WrongSwapAmount)
        } else {
            Ok(())
        }
    } else if i.order_type == ORDER_TYPE_SELL {
        if input_capacity > output_capacity {
            Err(Error::WrongDiffCapacity)
        } else if i.sudt_amount < o.sudt_amount || i.undealt_amount < o.undealt_amount {
            Err(Error::WrongSUDTDiffAmount)
        } else if (o.dealt_amount != 0 || o.undealt_amount != 0) && i.dealt_amount
            > o.dealt_amount {
            Err(Error::WrongSUDTDiffAmount)
        } else if (o.dealt_amount != 0 || o.undealt_amount != 0) && o.dealt_amount
            - i.dealt_amount != i.undealt_amount - o.undealt_amount {
            Err(Error::WrongSUDTDiffAmount)
        } else if !spec_sell_fee_ok(
            i.sudt_amount - o.sudt_amount,
            i.undealt_amount - o.undealt_amount,
        ) {
            Err(Error::WrongSUDTDiffAmount)
        } else if !spec_sell_capacity_ok(
            i.sudt_amount - o.sudt_amount,
            output_capacity - input_capacity,
            i.price as int,
        ) {
            Err(Error::WrongSwapAmount)
        } else {
            Ok(())
        }
    } else {
        Err(Error::WrongOrderType)
    }
}

/// Applies every conservation and price check of one fill to the order's
/// before/after snapshots and their native capacities; accepts exactly when
/// the whole decision tree accepts, and otherwise reports the first
/// violation.
pub fn validate_order(
    input_order: &OrderData,
    output_order: &OrderData,
    input_capacity: u64,
    output_capacity: u64,
) -> (r: Result<(), Error>)
    ensures
        r == spec_validate_order(*input_order, *output_order, input_capacity, output_capacity),
{
    let i = *input_order;
    let o = *output_order;
    if i.undealt_amount == 0 {
        return Err(Error::WrongSUDTInputAmount);
    }
    if i.price == 0 {
        return Err(Error::OrderPriceNotZero);
    }
    if i.order_type == ORDER_TYPE_BUY {
        if input_capacity < output_capacity {
            return Err(Error::WrongDiffCapacity);
        }
        if i.sudt_amount > o.sudt_amount || i.undealt_amount < o.undealt_amount {
            return Err(Error::WrongSUDTDiffAmount);
        }
        let d_undealt: u128 = i.undealt_amount - o.undealt_amount;
        if o.dealt_amount != 0 && o.undealt_amount != 0 {
            if i.dealt_amount > o.dealt_amount {
                return Err(Error::WrongSUDTDiffAmount);
            }
            let d_dealt: u128 = o.dealt_amount - i.dealt_amount;
            if d_dealt != d_undealt {
                return Err(Error::WrongSUDTDiffAmount);
            }
        }
        let d_capacity: u64 = input_capacity - output_capacity;
        let d_sudt: u128 = o.sudt_amount - i.sudt_amount;
        if d_sudt != d_undealt {
            return Err(Error::WrongSUDTDiffAmount);
        }
        if !buy_swap_ok(d_undealt, d_capacity, i.price) {
            return Err(Error::WrongSwapAmount);
        }
        Ok(())
    } else if i.order_type == ORDER_TYPE_SELL {
        if input_capacity > output_capacity {
            return Err(Error::WrongDiffCapacity);
        }
        if i.sudt_amount < o.sudt_amount || i.undealt_amount < o.undealt_amount {
            return Err(Error::WrongSUDTDiffAmount);
        }
        let d_undealt: u128 = i.undealt_amount - o.undealt_amount;
        if o.dealt_amount != 0 || o.undealt_amount != 0 {
            if i.dealt_amount > o.dealt_amount {
                return Err(Error::WrongSUDTDiffAmount);
            }
            let d_dealt: u128 = o.dealt_amount - i.dealt_amount;
            if d_dealt != d_undealt {
                return Err(Error::WrongSUDTDiffAmount);
            }
        }
        let d_capacity: u64 = output_capacity - input_capacity;
        let d_sudt: u128 = i.sudt_amount - o.sudt_amount;
        if !sell_fee_ok(d_sudt, d_undealt) {
            return Err(Error::WrongSUDTDiffAmount);
        }
        if !sell_capacity_ok(d_sudt, d_capacity, i.price) {
            return Err(Error::WrongSwapAmount);
        }
        Ok(())
    } else {
        Err(Error::WrongOrderType)
    }
}

/// Conservation law (buy): every accepted buy fill gains exactly as much
/// token as it consumes undealt amount, pays capacity (never receives any),
/// and stays within the fee-adjusted price bound.
pub proof fn lemma_buy_conservation(
    i: OrderData,
    o: OrderData,
    input_capacity: u64,
    output_capacity: u64,
)
    requires
        i.order_type == ORDER_TYPE_BUY,
        spec_validate_order(i, o, input_capacity, output_capacity) == Ok::<(), Error>(()),
    ensures
        o.sudt_amount - i.sudt_amount == i.undealt_amount - o.undealt_amount,
        output_capacity <= input_capacity,
        spec_buy_swap_ok(
            i.undealt_amount - o.undealt_amount,
            input_capacity - output_capacity,
            i.price as int,
        ),
{
}

/// Conservation law (sell): every accepted sell fill spends token (never
/// gains any), receives capacity, keeps the token spend within the dealt
/// amount plus fee, and receives at least the fee-adjusted fair value.
pub proof fn lemma_sell_conservation(
    i: OrderData,
    o: OrderData,
    input_capacity: u64,
    output_capacity: u64,
)
    requires
        i.order_type == ORDER_TYPE_SELL,
        spec_validate_order(i, o, input_capacity, output_capacity) == Ok::<(), Error>(()),
    ensures
        o.sudt_amount <= i.sudt_amount,
        input_capacity <= output_capacity,
        spec_sell_fee_ok(i.sudt_amount - o.sudt_amount, i.undealt_amount - o.undealt_amount),
        spec_sell_capacity_ok(
            i.sudt_amount - o.sudt_amount,
            output_capacity - input_capacity,
            i.price as int,
        ),
{
}

/// Monotonicity law: a validated fill never increases the remaining
/// undealt amount, whatever the other fields hold; equivalently, any pair
/// with `output.undealt_amount > input.undealt_amount` is rejected.
pub proof fn lemma_undealt_monotonic(
    i: OrderData,
    o: OrderData,
    input_capacity: u64,
    output_capacity: u64,
)
    requires
        spec_validate_order(i, o, input_capacity, output_capacity) == Ok::<(), Error>(()),
    ensures
        o.undealt_amount <= i.undealt_amount,
        i.undealt_amount > 0,
        i.price > 0,
{
}

/// Zero-price law: a live input order (something left to match) whose
/// price is zero is rejected with `OrderPriceNotZero`, whatever the other
/// fields and capacities hold.
pub proof fn lemma_zero_price_rejected(
    i: OrderData,
    o: OrderData,
    input_capacity: u64,
    output_capacity: u64,
)
    requires
        i.undealt_amount != 0,
        i.price == 0,
    ensures
        spec_validate_order(i, o, input_capacity, output_capacity) == Err::<(), Error>(
            Error::OrderPriceNotZero,
        ),
{
}

/// Order-type law: once the liveness checks pass, an input order whose
/// type byte is neither buy nor sell is rejected with `WrongOrderType`,
/// whatever the other fields and capacities hold.
pub proof fn lemma_wrong_order_type_rejected(
    i: OrderData,
    o: OrderData,
    input_capacity: u64,
    output_capacity: u64,
)
    requires
        i.undealt_amount != 0,
        i.price != 0,
        i.order_type != ORDER_TYPE_BUY,
        i.order_type != ORDER_TYPE_SELL,
    ensures
        spec_validate_order(i, o, input_capacity, output_capacity) == Err::<(), Error>(
            Error::WrongOrderType,
        ),
{
}

/// One transaction cell as the validator sees it: its native capacity, its
/// data payload, and its lock script's arguments.
#[derive(Debug)]
pub struct Cell {
    /// Native base-currency quantity held by the cell.
    pub capacity: u64,
    /// The cell's data payload (an order record, for order cells).
    pub data: Vec<u8>,
    /// The arguments of the cell's lock script; the first 20 bytes name the
    /// owner.
    pub lock_args: Vec<u8>,
}

/// Whether a cell's lock arguments name the given identity: they carry at
/// least 20 bytes and agree with the identity's first 20 bytes. Arguments
/// shorter than 20 bytes name nobody.
pub open spec fn spec_lock_matches(args: Seq<u8>, lock_args: Seq<u8>) -> bool {
    lock_args.len() >= ID_LEN && args.subrange(0, ID_LEN as int) == lock_args.subrange(
        0,
        ID_LEN as int,
    )
}

/// The least output index whose lock arguments name the identity.
pub open spec fn spec_first_match(args: Seq<u8>, outputs: Seq<Cell>) -> Option<int>
    decreases outputs.len(),
{
    if outputs.len() == 0 {
        None
    } else if spec_lock_matches(args, outputs[0].lock_args@) {
        Some(0)
    } else {
        match spec_first_match(args, outputs.drop_first()) {
            None => None,
            Some(i) => Some(i + 1),
        }
    }
}

proof fn lemma_first_match_some(args: Seq<u8>, outputs: Seq<Cell>, i: int)
    requires
        0 <= i < outputs.len(),
        spec_lock_matches(args, outputs[i].lock_args@),
        forall|j: int| 0 <= j < i ==> !spec_lock_matches(args, outputs[j].lock_args@),
    ensures
        spec_first_match(args, outputs) == Some(i),
    decreases i,
{
    if i > 0 {
        assert(!spec_lock_matches(args, outputs[0].lock_args@));
        let rest = outputs.drop_first();
        assert(rest[i - 1] == outputs[i]);
        assert(forall|j: int| 0 <= j < i - 1 ==> rest[j] == outputs[j + 1]);
        lemma_first_match_some(args, rest, i - 1);
    }
}

proof fn lemma_first_match_none(args: Seq<u8>, outputs: Seq<Cell>)
    requires
        forall|j: int| 0 <= j < outputs.len() ==> !spec_lock_matches(args, outputs[j].lock_args@),
    ensures
        spec_first_match(args, outputs) == None::<int>,
    decreases outputs.len(),
{
    if outputs.len() > 0 {
        let rest = outputs.drop_first();
        assert(forall|j: int| 0 <= j < rest.len() ==> rest[j] == outputs[j + 1]);
        lemma_first_match_none(args, rest);
    }
}

/// Whether `lock_args` names the identity carried in the first 20 bytes of
/// `args`.
fn lock_args_match(args: &Vec<u8>, lock_args: &Vec<u8>) -> (r: bool)
    requires
        args@.len() >= ID_LEN,
    ensures
        r == spec_lock_matches(args@, lock_args@),
{
    if lock_args.len() < ID_LEN {
        return false;
    }
    let mut k: usize = 0;
    while k < ID_LEN
        invariant
            k <= ID_LEN,
            args@.len() >= ID_LEN,
            lock_args@.len() >= ID_LEN,
            forall|j: int| 0 <= j < k ==> args@[j] == lock_args@[j],
        decreases ID_LEN - k,
    {
        if args[k] != lock_args[k] {
            proof {
                assert(args@.subrange(0, ID_LEN as int)[k as int] != lock_args@.subrange(
                    0,
                    ID_LEN as int,
                )[k as int]);
            }
            return false;
        }
        k += 1;
    }
    proof {
        assert(args@.subrange(0, ID_LEN as int) =~= lock_args@.subrange(0, ID_LEN as int));
    }
    true
}

/// Scans the outputs in order and returns the first index whose
/// lock-argument prefix equals the invoking script's identity; fails with
/// `ItemMissing` when no output names it.
pub fn locate_order(args: &Vec<u8>, outputs: &Vec<Cell>) -> (r: Result<usize, Error>)
    requires
        args@.len() >= ID_LEN,
    ensures
        match r {
            Ok(idx) => idx < outputs@.len() && spec_first_match(args@, outputs@) == Some(
                idx as int,
            ) && spec_lock_matches(args@, outputs@[idx as int].lock_args@) && (forall|j: int|
                0 <= j < idx ==> !spec_lock_matches(args@, outputs@[j].lock_args@)),
            Err(e) => e == Error::ItemMissing && spec_first_match(args@, outputs@) == None::<int>
                && (forall|j: int|
                0 <= j < outputs@.len() ==> !spec_lock_matches(args@, outputs@[j].lock_args@)),
        },
{
    let n = outputs.len();
    let mut idx: usize = 0;
    while idx < n
        invariant
            idx <= n,
            n == outputs@.len(),
            args@.len() >= ID_LEN,
            forall|j: int| 0 <= j < idx ==> !spec_lock_matches(args@, outputs@[j].lock_args@),
        decreases n - idx,
    {
        let cell: &Cell = &outputs[idx];
        if lock_args_match(args, &cell.lock_args) {
            proof {
                lemma_first_match_some(args@, outputs@, idx as int);
            }
            return Ok(idx);
        }
        idx += 1;
    }
    proof {
        lemma_first_match_none(args@, outputs@);
    }
    Err(Error::ItemMissing)
}

/// The whole decision for one proposed transaction: reject out of hand when
/// the input and output lists differ in length, fail with `ItemMissing`
/// when no output pairs with the invoking script's identity, and otherwise
/// put the located pair of snapshots to the order state checks.
pub open spec fn spec_validate(args: Seq<u8>, inputs: Seq<Cell>, outputs: Seq<Cell>) -> Result<
    (),
    Error,
> {
    if inputs.len() != outputs.len() {
        Err(Error::InputsAndOutputsAmountNotSame)
    } else {
        match spec_first_match(args, outputs) {
            None => Err(Error::ItemMissing),
            Some(i) => spec_validate_order(
                spec_parse_cell_data(inputs[i].data@),
                spec_parse_cell_data(outputs[i].data@),
                inputs[i].capacity,
                outputs[i].capacity,
            ),
        }
    }
}

/// Validates one proposed transaction against the invoking script's
/// identity: the 1:1 pairing of inputs and outputs, the location of the
/// order's before/after snapshots, their decoding, and every conservation
/// and price check, exactly as `spec_validate` lays them out.
pub fn validate(args: &Vec<u8>, inputs: &Vec<Cell>, outputs: &Vec<Cell>) -> (r: Result<(), Error>)
    requires
        args@.len() >= ID_LEN,
    ensures
        r == spec_validate(args@, inputs@, outputs@),
{
    if inputs.len() != outputs.len() {
        return Err(Error::InputsAndOutputsAmountNotSame);
    }
    let idx = match locate_order(args, outputs) {
        Ok(idx) => idx,
        Err(e) => {
            return Err(e);
        },
    };
    let input_cell: &Cell = &inputs[idx];
    let output_cell: &Cell = &outputs[idx];
    let input_order = parse_cell_data(input_cell.data.as_slice());
    let output_order = parse_cell_data(output_cell.data.as_slice());
    validate_order(&input_order, &output_order, input_cell.capacity, output_cell.capacity)
}

/// Pairing law: a transaction whose input and output lists differ in
/// length is rejected with `InputsAndOutputsAmountNotSame` before any cell
/// is examined or any record decoded, whatever the cells hold.
pub proof fn lemma_count_mismatch_rejected(args: Seq<u8>, inputs: Seq<Cell>, outputs: Seq<Cell>)
    requires
        inputs.len() != outputs.len(),
    ensures
        spec_validate(args, inputs, outputs) == Err::<(), Error>(
            Error::InputsAndOutputsAmountNotSame,
        ),
{
}

} // verus!
