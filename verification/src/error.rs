//! Why an operation on the ledger was refused, and why the host could not
//! move funds.

use vstd::prelude::*;

verus! {

/// Reasons for which an operation is refused. A refused operation changes
/// nothing.
#[derive(Clone, Copy, Debug, PartialEq, Eq)]
pub enum LedgerError {
    /// A record already stands where one was to be created.
    AlreadyExists,
    /// No record stands where one was expected.
    NotFound,
    /// The caller did not authorise the request.
    Unauthorized,
    /// The supplied account is not the one derived for the record.
    InvalidAccount,
    /// The payer cannot cover what the operation costs.
    InsufficientFunds,
    /// The host did not carry out the transfer.
    TransferFailed,
    /// A counter or total would leave the range of 64 unsigned bits.
    ArithmeticOverflow,
}

/// Reasons for which the host reports that it moved no funds.
#[derive(Clone, Copy, Debug, PartialEq, Eq)]
pub enum TransferError {
    /// The paying account holds too little.
    InsufficientFunds,
    /// The host rejected the transfer for another reason.
    TransferFailed,
}

} // verus!
