use vstd::prelude::*;

verus! {

/// An amount of one token attached to a call.
#[derive(Debug)]
pub struct Coin {
    pub denom: String,
    pub amount: u128,
}

/// Who made a call, and what it paid.
#[derive(Debug)]
pub struct MessageInfo {
    pub sender: String,
    pub funds: Vec<Coin>,
}

/// The settings of a new ledger.
#[derive(Debug)]
pub struct InstantiateMsg {
    pub usd_token: String,
    pub om_token: String,
    pub collateral_ratio: u128,
    pub interest_rate: u128,
}

/// A token contract's notice that `sender` deposited `amount` of that token
/// with the ledger.
#[derive(Debug)]
pub struct Cw20ReceiveMsg {
    pub sender: String,
    pub amount: u128,
}

/// The operations that change the ledger.
#[derive(Debug)]
pub enum ExecuteMsg {
    /// Stake the collateral attached to the call.
    Stake,
    /// Withdraw `amount` of collateral.
    Unstake { amount: u128 },
    /// Borrow `amount` of the borrow token.
    Borrow { amount: u128 },
    /// Repay with the borrow token attached to the call.
    Repay,
    /// A deposit made through a token contract.
    Receive(Cw20ReceiveMsg),
}

/// The read-only projections of the ledger.
#[derive(Debug)]
pub enum QueryMsg {
    GetConfig,
    GetUserInfo { address: String },
    GetPoolInfo,
}

/// An instruction to `token` to send `amount` from the ledger to `recipient`.
#[derive(Debug)]
pub struct Transfer {
    pub token: String,
    pub recipient: String,
    pub amount: u128,
}

impl View for Transfer {
    type V = (Seq<char>, Seq<char>, u128);

    open spec fn view(&self) -> (Seq<char>, Seq<char>, u128) {
        (self.token@, self.recipient@, self.amount)
    }
}

} // verus!
