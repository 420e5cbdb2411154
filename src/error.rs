use vstd::prelude::*;

verus! {

/// Why a ledger operation was refused. A refused operation changes nothing.
#[derive(Clone, Copy, Debug, PartialEq, Eq, Structural)]
pub enum ContractError {
    /// The caller may not perform this operation (no operation of the
    /// ledger is restricted to one caller at present).
    Unauthorized,
    /// A deposit notification came from a token that is neither of the two ledger tokens.
    InvalidCw20Hook,
    /// The expected payment was not attached to the call, a staked payment
    /// is zero, or a borrow asks for nothing.
    NoFunds,
    /// A withdrawal asks for more than the account holds, or for nothing.
    InsufficientFunds,
    /// A borrow would take the account beyond its collateral ceiling.
    ExceedsCollateralRatio,
    /// A repayment is larger than the amount owed.
    ExcessRepayment,
    /// A query named an account that has never been written.
    NotFound,
    /// An addition left the range of the amount type.
    Overflow,
    /// A subtraction went below zero.
    Underflow,
}

} // verus!
