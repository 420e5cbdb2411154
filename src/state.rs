use vstd::prelude::*;

verus! {

/// The fixed denominator of `Config::collateral_ratio`: the ratio is a
/// percentage, so a ratio of 150 lets an account owe one and a half times its
/// stake, and a ratio of 1 lets it owe one hundredth of it.
pub const RATIO_DENOMINATOR: u128 = 100;

/// The ledger's configuration, written once when the ledger is created.
#[derive(Debug)]
pub struct Config {
    /// Who created the ledger.
    pub owner: String,
    /// The collateral token, which participants stake.
    pub usd_token: String,
    /// The borrow token, which participants borrow and repay.
    pub om_token: String,
    /// Borrow ceiling as a multiple of the stake, over `RATIO_DENOMINATOR`.
    pub collateral_ratio: u128,
    /// Reserved: stored, and read by no operation.
    pub interest_rate: u128,
}

/// One participant's record.
#[derive(Clone, Copy, Debug, PartialEq, Eq, Structural)]
pub struct UserInfo {
    /// Collateral currently deposited.
    pub staked_amount: u128,
    /// Borrow token currently owed.
    pub borrowed_amount: u128,
    /// Time of the last operation that changed the record.
    pub last_interaction: u64,
}

/// Totals over all participants' records.
#[derive(Clone, Copy, Debug, PartialEq, Eq, Structural)]
pub struct PoolInfo {
    pub total_staked: u128,
    pub total_borrowed: u128,
}

/// The record that stands for an account that has never been written.
pub open spec fn empty_user() -> UserInfo {
    UserInfo { staked_amount: 0, borrowed_amount: 0, last_interaction: 0 }
}

/// A stored record, or the empty record where there is none.
pub open spec fn user_or_empty(user: Option<UserInfo>) -> UserInfo {
    match user {
        Some(u) => u,
        None => empty_user(),
    }
}

/// The largest amount that `staked` units of collateral let an account owe.
pub open spec fn borrow_ceiling(staked: u128, ratio: u128) -> int {
    (staked as int * ratio as int) / (RATIO_DENOMINATOR as int)
}

impl Default for UserInfo {
    fn default() -> (r: UserInfo)
        ensures
            r == empty_user(),
    {
        UserInfo { staked_amount: 0, borrowed_amount: 0, last_interaction: 0 }
    }
}

impl UserInfo {
    /// The stored record, or the empty one.
    pub fn or_empty(user: Option<UserInfo>) -> (r: UserInfo)
        ensures
            r == user_or_empty(user),
    {
        match user {
            Some(u) => u,
            None => UserInfo::default(),
        }
    }
}

impl PoolInfo {
    pub open spec fn new_spec() -> PoolInfo {
        PoolInfo { total_staked: 0, total_borrowed: 0 }
    }

    /// The totals of a ledger without accounts.
    pub fn new() -> (r: PoolInfo)
        ensures
            r == PoolInfo::new_spec(),
    {
        PoolInfo { total_staked: 0, total_borrowed: 0 }
    }
}

} // verus!
