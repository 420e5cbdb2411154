use vstd::prelude::*;
use crate::error::ContractError;
use crate::msg::{Coin, Cw20ReceiveMsg, ExecuteMsg, InstantiateMsg, MessageInfo, QueryMsg, Transfer};
use crate::state::{user_or_empty, Config, PoolInfo, UserInfo};
use crate::transition::{
    borrow_amount, borrow_result, repay_amount, repay_result, stake_amount, stake_result,
    unstake_amount, unstake_result, Update,
};

verus! {

/// What one operation does: the records to write, and the transfer, if any,
/// to send out of the ledger once they are written.
#[derive(Debug)]
pub struct Transition {
    pub update: Update,
    pub transfer: Option<Transfer>,
}

/// The answer to a query.
#[derive(Debug)]
pub enum QueryAnswer<'a> {
    Config(&'a Config),
    User(UserInfo),
    Pool(PoolInfo),
}

/// Which of the ledger's two tokens a deposit notice came from.
#[derive(Clone, Copy, Debug, PartialEq, Eq, Structural)]
pub enum DepositKind {
    Collateral,
    BorrowAsset,
    Unrecognized,
}

/// The amount of the first coin of `denom` among `funds`.
pub open spec fn first_payment(funds: Seq<Coin>, denom: Seq<char>) -> Option<u128>
    decreases funds.len(),
{
    if funds.len() == 0 {
        None
    } else if funds[0].denom@ == denom {
        Some(funds[0].amount)
    } else {
        first_payment(funds.drop_first(), denom)
    }
}

pub open spec fn deposit_kind(config: Config, token: Seq<char>) -> DepositKind {
    if token == config.usd_token@ {
        DepositKind::Collateral
    } else if token == config.om_token@ {
        DepositKind::BorrowAsset
    } else {
        DepositKind::Unrecognized
    }
}

pub open spec fn transfer_view(t: Option<Transfer>) -> Option<(Seq<char>, Seq<char>, u128)> {
    match t {
        Some(x) => Some(x@),
        None => None,
    }
}

/// `r` is the transition that `expected` describes, sending `transfer` on success.
pub open spec fn answers(
    r: Result<Transition, ContractError>,
    expected: Result<Update, ContractError>,
    transfer: Option<(Seq<char>, Seq<char>, u128)>,
) -> bool {
    match r {
        Ok(t) => expected == Ok::<Update, ContractError>(t.update) && transfer_view(t.transfer) == transfer,
        Err(e) => expected == Err::<Update, ContractError>(e),
    }
}

pub open spec fn stake_msg_result(config: Config, pool: PoolInfo, user: UserInfo, funds: Seq<Coin>, now: u64) -> Result<Update, ContractError> {
    match first_payment(funds, config.usd_token@) {
        Some(a) => stake_result(pool, user, a, now),
        None => Err(ContractError::NoFunds),
    }
}

pub open spec fn repay_msg_result(config: Config, pool: PoolInfo, user: UserInfo, funds: Seq<Coin>, now: u64) -> Result<Update, ContractError> {
    match first_payment(funds, config.om_token@) {
        Some(a) => repay_result(pool, user, a, now),
        None => Err(ContractError::NoFunds),
    }
}

pub open spec fn receive_result(config: Config, pool: PoolInfo, user: UserInfo, token: Seq<char>, amount: u128, now: u64) -> Result<Update, ContractError> {
    match deposit_kind(config, token) {
        DepositKind::Collateral => stake_result(pool, user, amount, now),
        DepositKind::BorrowAsset => repay_result(pool, user, amount, now),
        DepositKind::Unrecognized => Err(ContractError::InvalidCw20Hook),
    }
}

/// What `msg` from `info` does to the record `user` of the acting account.
pub open spec fn execute_result(config: Config, pool: PoolInfo, user: UserInfo, info: MessageInfo, msg: ExecuteMsg, now: u64) -> Result<Update, ContractError> {
    match msg {
        ExecuteMsg::Stake => stake_msg_result(config, pool, user, info.funds@, now),
        ExecuteMsg::Unstake { amount } => unstake_result(pool, user, amount, now),
        ExecuteMsg::Borrow { amount } => borrow_result(pool, user, config.collateral_ratio, amount, now),
        ExecuteMsg::Repay => repay_msg_result(config, pool, user, info.funds@, now),
        ExecuteMsg::Receive(m) => receive_result(config, pool, user, info.sender@, m.amount, now),
    }
}

/// The transfer that a successful `msg` sends: withdrawn collateral and
/// borrowed tokens go to the caller; deposits send nothing.
pub open spec fn execute_transfer(config: Config, info: MessageInfo, msg: ExecuteMsg) -> Option<(Seq<char>, Seq<char>, u128)> {
    match msg {
        ExecuteMsg::Unstake { amount } => Some((config.usd_token@, info.sender@, amount)),
        ExecuteMsg::Borrow { amount } => Some((config.om_token@, info.sender@, amount)),
        _ => None,
    }
}

/// The account that `msg` acts on: the depositor named in a deposit notice,
/// and the caller otherwise.
pub open spec fn acting_account(info: MessageInfo, msg: ExecuteMsg) -> Seq<char> {
    match msg {
        ExecuteMsg::Receive(m) => m.sender@,
        _ => info.sender@,
    }
}

/// The configuration and empty pool of a new ledger created by `info.sender`.
pub fn instantiate(info: &MessageInfo, msg: InstantiateMsg) -> (r: (Config, PoolInfo))
    ensures
        r.0.owner@ == info.sender@,
        r.0.usd_token@ == msg.usd_token@,
        r.0.om_token@ == msg.om_token@,
        r.0.collateral_ratio == msg.collateral_ratio,
        r.0.interest_rate == msg.interest_rate,
        r.1 == PoolInfo::new_spec(),
{
    let config = Config {
        owner: info.sender.clone(),
        usd_token: msg.usd_token,
        om_token: msg.om_token,
        collateral_ratio: msg.collateral_ratio,
        interest_rate: msg.interest_rate,
    };
    (config, PoolInfo::new())
}

/// The amount of the first coin of `denom` attached to a call.
pub fn find_payment(funds: &Vec<Coin>, denom: &String) -> (r: Option<u128>)
    ensures
        r == first_payment(funds@, denom@),
{
    let n: usize = funds.len();
    let mut i: usize = 0;
    assert(funds@.subrange(0, n as int) =~= funds@);
    while i < n
        invariant
            n == funds@.len(),
            i <= n,
            first_payment(funds@, denom@) == first_payment(funds@.subrange(i as int, n as int), denom@),
        decreases n - i,
    {
        let c = &funds[i];
        assert(funds@.subrange(i as int, n as int)[0] == funds@[i as int]);
        if c.denom == *denom {
            return Some(c.amount);
        }
        assert(funds@.subrange(i as int, n as int).drop_first() =~= funds@.subrange(i + 1, n as int));
        i = i + 1;
    }
    None
}

/// Which of the ledger's tokens `token` is.
pub fn classify_deposit(config: &Config, token: &String) -> (r: DepositKind)
    ensures
        r == deposit_kind(*config, token@),
{
    if *token == config.usd_token {
        DepositKind::Collateral
    } else if *token == config.om_token {
        DepositKind::BorrowAsset
    } else {
        DepositKind::Unrecognized
    }
}

/// The account that `msg` from `info` acts on, whose record the caller loads.
pub fn account_of<'a>(info: &'a MessageInfo, msg: &'a ExecuteMsg) -> (r: &'a String)
    ensures
        r@ == acting_account(*info, *msg),
{
    match msg {
        ExecuteMsg::Receive(m) => &m.sender,
        _ => &info.sender,
    }
}

/// Stakes the collateral attached to the call.
pub fn stake(config: &Config, pool: PoolInfo, user: Option<UserInfo>, info: &MessageInfo, now: u64) -> (r: Result<Transition, ContractError>)
    ensures
        answers(r, stake_msg_result(*config, pool, user_or_empty(user), info.funds@, now), None),
{
    let amount = match find_payment(&info.funds, &config.usd_token) {
        Some(a) => a,
        None => return Err(ContractError::NoFunds),
    };
    let update = stake_amount(pool, UserInfo::or_empty(user), amount, now)?;
    Ok(Transition { update, transfer: None })
}

/// Withdraws `amount` of collateral and sends it back to the caller.
pub fn unstake(config: &Config, pool: PoolInfo, user: Option<UserInfo>, info: &MessageInfo, amount: u128, now: u64) -> (r: Result<Transition, ContractError>)
    ensures
        answers(r, unstake_result(pool, user_or_empty(user), amount, now), Some((config.usd_token@, info.sender@, amount))),
{
    let update = unstake_amount(pool, UserInfo::or_empty(user), amount, now)?;
    let transfer = Transfer { token: config.usd_token.clone(), recipient: info.sender.clone(), amount };
    Ok(Transition { update, transfer: Some(transfer) })
}

/// Lends `amount` of the borrow token to the caller, within the ceiling of its stake.
pub fn borrow(config: &Config, pool: PoolInfo, user: Option<UserInfo>, info: &MessageInfo, amount: u128, now: u64) -> (r: Result<Transition, ContractError>)
    ensures
        answers(
            r,
            borrow_result(pool, user_or_empty(user), config.collateral_ratio, amount, now),
            Some((config.om_token@, info.sender@, amount)),
        ),
{
    let update = borrow_amount(pool, UserInfo::or_empty(user), config.collateral_ratio, amount, now)?;
    let transfer = Transfer { token: config.om_token.clone(), recipient: info.sender.clone(), amount };
    Ok(Transition { update, transfer: Some(transfer) })
}

/// Takes the borrow token attached to the call as a repayment.
pub fn repay(config: &Config, pool: PoolInfo, user: Option<UserInfo>, info: &MessageInfo, now: u64) -> (r: Result<Transition, ContractError>)
    ensures
        answers(r, repay_msg_result(*config, pool, user_or_empty(user), info.funds@, now), None),
{
    let amount = match find_payment(&info.funds, &config.om_token) {
        Some(a) => a,
        None => return Err(ContractError::NoFunds),
    };
    let update = repay_amount(pool, UserInfo::or_empty(user), amount, now)?;
    Ok(Transition { update, transfer: None })
}

/// Handles a deposit notice from the token contract `info.sender`: collateral
/// is staked and the borrow token repays, both for the depositor `msg.sender`,
/// whose record `user` is.
pub fn receive_cw20(config: &Config, pool: PoolInfo, user: Option<UserInfo>, info: &MessageInfo, msg: &Cw20ReceiveMsg, now: u64) -> (r: Result<Transition, ContractError>)
    ensures
        answers(r, receive_result(*config, pool, user_or_empty(user), info.sender@, msg.amount, now), None),
{
    let user = UserInfo::or_empty(user);
    let update = match classify_deposit(config, &info.sender) {
        DepositKind::Collateral => stake_amount(pool, user, msg.amount, now)?,
        DepositKind::BorrowAsset => repay_amount(pool, user, msg.amount, now)?,
        DepositKind::Unrecognized => return Err(ContractError::InvalidCw20Hook),
    };
    Ok(Transition { update, transfer: None })
}

/// Performs `msg` for `info`; `user` is the stored record of the account that
/// `account_of(info, msg)` names.
pub fn execute(config: &Config, pool: PoolInfo, user: Option<UserInfo>, info: &MessageInfo, msg: &ExecuteMsg, now: u64) -> (r: Result<Transition, ContractError>)
    ensures
        answers(r, execute_result(*config, pool, user_or_empty(user), *info, *msg, now), execute_transfer(*config, *info, *msg)),
{
    match msg {
        ExecuteMsg::Stake => stake(config, pool, user, info, now),
        ExecuteMsg::Unstake { amount } => unstake(config, pool, user, info, *amount, now),
        ExecuteMsg::Borrow { amount } => borrow(config, pool, user, info, *amount, now),
        ExecuteMsg::Repay => repay(config, pool, user, info, now),
        ExecuteMsg::Receive(m) => receive_cw20(config, pool, user, info, m, now),
    }
}

/// The stored record of an account, or `NotFound` where none was ever
/// written: a query does not stand in an empty record for a missing one.
pub fn user_info(user: Option<UserInfo>) -> (r: Result<UserInfo, ContractError>)
    ensures
        r == user_info_result(user),
{
    match user {
        Some(u) => Ok(u),
        None => Err(ContractError::NotFound),
    }
}

/// The record asked for by `user_info`, or `NotFound`.
pub open spec fn user_info_result(user: Option<UserInfo>) -> Result<UserInfo, ContractError> {
    match user {
        Some(u) => Ok(u),
        None => Err(ContractError::NotFound),
    }
}

/// Answers `msg`; `user` is the stored record of the address that a
/// `GetUserInfo` names.
pub fn query<'a>(config: &'a Config, pool: PoolInfo, user: Option<UserInfo>, msg: &QueryMsg) -> (r: Result<QueryAnswer<'a>, ContractError>)
    ensures
        match msg {
            QueryMsg::GetConfig => r == Ok::<QueryAnswer<'a>, ContractError>(QueryAnswer::Config(config)),
            QueryMsg::GetUserInfo { .. } => match user_info_result(user) {
                Ok(u) => r == Ok::<QueryAnswer<'a>, ContractError>(QueryAnswer::User(u)),
                Err(e) => r == Err::<QueryAnswer<'a>, ContractError>(e),
            },
            QueryMsg::GetPoolInfo => r == Ok::<QueryAnswer<'a>, ContractError>(QueryAnswer::Pool(pool)),
        },
{
    match msg {
        QueryMsg::GetConfig => Ok(QueryAnswer::Config(config)),
        QueryMsg::GetUserInfo { .. } => match user_info(user) {
            Ok(u) => Ok(QueryAnswer::User(u)),
            Err(e) => Err(e),
        },
        QueryMsg::GetPoolInfo => Ok(QueryAnswer::Pool(pool)),
    }
}

} // verus!
