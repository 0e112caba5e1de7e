use vstd::prelude::*;

verus! {

/// One typed rejection reason. Every failing check aborts the whole
/// validation at once: the first violation found is reported, and there is no
/// partial success or retry.
#[derive(Clone, Copy, Debug, PartialEq, Eq, Structural)]
pub enum Error {
    /// A cell index points past the end of the transaction.
    IndexOutOfBound,
    /// No cell pairs with the invoking script's identity.
    ItemMissing,
    /// A host buffer was shorter than the data it should carry.
    LengthNotEnough,
    /// The host handed back data it could not decode.
    Encoding,
    /// The transaction's input and output lists differ in length, so no 1:1
    /// positional pairing of order snapshots exists.
    InputsAndOutputsAmountNotSame,
    /// A cell data payload is neither the 16-byte settled form nor the
    /// 57-byte open-order form.
    WrongDataLengthOrFormat,
    /// The recovered public key's hash does not match the order owner
    /// (signature path, delegated to the host glue).
    WrongPubkey,
    /// The signature library's prefilled data could not be loaded
    /// (signature path, delegated to the host glue).
    LoadPrefilledData,
    /// Public-key recovery from the witness signature failed
    /// (signature path, delegated to the host glue).
    RecoverPubkey,
    /// The input order's type byte is neither buy nor sell.
    WrongOrderType,
    /// The input order carries a zero price.
    OrderPriceNotZero,
    /// The input order has nothing left to match (`undealt_amount == 0`).
    WrongSUDTInputAmount,
    /// The token amounts of the two snapshots break a conservation rule.
    WrongSUDTDiffAmount,
    /// The native capacities of the two snapshots move the wrong way.
    WrongDiffCapacity,
    /// The amount swapped breaks the fee-adjusted price bound.
    WrongSwapAmount,
}

} // verus!
