use lending::contract::{
    borrow, execute, find_payment, instantiate, query, receive_cw20, repay, stake, unstake, user_info,
    QueryAnswer,
};
use lending::error::ContractError;
use lending::ledger::Ledger;
use lending::msg::{Coin, Cw20ReceiveMsg, ExecuteMsg, InstantiateMsg, MessageInfo, QueryMsg};
use lending::ratio::max_borrow;
use lending::state::{Config, PoolInfo, UserInfo, RATIO_DENOMINATOR};
use lending::transition::{borrow_amount, repay_amount, stake_amount, unstake_amount};

const USD: &str = "usd_token";
const OM: &str = "om_token";

fn info(sender: &str, funds: &[(&str, u128)]) -> MessageInfo {
    MessageInfo {
        sender: sender.to_string(),
        funds: funds.iter().map(|(d, a)| Coin { denom: d.to_string(), amount: *a }).collect(),
    }
}

fn config(ratio: u128) -> Config {
    Config {
        owner: "owner".to_string(),
        usd_token: USD.to_string(),
        om_token: OM.to_string(),
        collateral_ratio: ratio,
        interest_rate: 10,
    }
}

fn ledger(ratio: u128) -> Ledger {
    Ledger::new(
        &info("owner", &[]),
        InstantiateMsg {
            usd_token: USD.to_string(),
            om_token: OM.to_string(),
            collateral_ratio: ratio,
            interest_rate: 10,
        },
    )
}

fn user(staked: u128, borrowed: u128) -> UserInfo {
    UserInfo { staked_amount: staked, borrowed_amount: borrowed, last_interaction: 0 }
}

fn pool(staked: u128, borrowed: u128) -> PoolInfo {
    PoolInfo { total_staked: staked, total_borrowed: borrowed }
}

#[test]
fn test_stake() {
    let cfg = config(1);
    let t = stake(&cfg, pool(0, 0), None, &info("staker", &[(USD, 100)]), 42).unwrap();
    assert!(t.transfer.is_none());
    assert_eq!(t.update.user, UserInfo { staked_amount: 100, borrowed_amount: 0, last_interaction: 42 });
    assert_eq!(t.update.pool, pool(100, 0));
}

#[test]
fn test_borrow() {
    let cfg = config(1);
    let t = borrow(&cfg, pool(1000, 0), Some(user(1000, 0)), &info("borrower", &[]), 10, 42).unwrap();
    let transfer = t.transfer.unwrap();
    assert_eq!(transfer.token, OM);
    assert_eq!(transfer.recipient, "borrower");
    assert_eq!(transfer.amount, 10);
    assert_eq!(t.update.user, UserInfo { staked_amount: 1000, borrowed_amount: 10, last_interaction: 42 });
    assert_eq!(t.update.pool, pool(1000, 10));
}

#[test]
fn test_repay() {
    let cfg = config(1);
    let t = repay(&cfg, pool(1000, 1000), Some(user(1000, 1000)), &info("repayer", &[(OM, 500)]), 42).unwrap();
    assert!(t.transfer.is_none());
    assert_eq!(t.update.user, UserInfo { staked_amount: 1000, borrowed_amount: 500, last_interaction: 42 });
    assert_eq!(t.update.pool, pool(1000, 500));
}

#[test]
fn stake_on_empty_ledger() {
    let mut l = ledger(1);
    let sent = l.execute(&info("alice", &[(USD, 100)]), &ExecuteMsg::Stake, 1).unwrap();
    assert!(sent.is_none());
    assert_eq!(l.user_info(&"alice".to_string()).unwrap().staked_amount, 100);
    assert_eq!(l.pool_info().total_staked, 100);
}

#[test]
fn stake_without_collateral_payment_fails() {
    let mut l = ledger(1);
    let r = l.execute(&info("alice", &[(OM, 100)]), &ExecuteMsg::Stake, 1);
    assert_eq!(r.unwrap_err(), ContractError::NoFunds);
    assert_eq!(l.user_info(&"alice".to_string()), Err(ContractError::NotFound));
    assert_eq!(l.pool_info(), pool(0, 0));
}

#[test]
fn borrow_at_ceiling_then_one_more_fails() {
    let mut l = ledger(1);
    l.execute(&info("alice", &[(USD, 1000)]), &ExecuteMsg::Stake, 1).unwrap();
    let sent = l.execute(&info("alice", &[]), &ExecuteMsg::Borrow { amount: 10 }, 2).unwrap().unwrap();
    assert_eq!(sent.token, OM);
    assert_eq!(sent.recipient, "alice");
    assert_eq!(sent.amount, 10);
    assert_eq!(l.user_info(&"alice".to_string()).unwrap().borrowed_amount, 10);
    let r = l.execute(&info("alice", &[]), &ExecuteMsg::Borrow { amount: 1 }, 3);
    assert_eq!(r.unwrap_err(), ContractError::ExceedsCollateralRatio);
    assert_eq!(l.user_info(&"alice".to_string()).unwrap().borrowed_amount, 10);
    assert_eq!(l.pool_info(), pool(1000, 10));
}

#[test]
fn repay_half_then_too_much() {
    let mut l = ledger(100);
    l.execute(&info("bob", &[(USD, 1000)]), &ExecuteMsg::Stake, 1).unwrap();
    l.execute(&info("bob", &[]), &ExecuteMsg::Borrow { amount: 1000 }, 2).unwrap();
    assert_eq!(l.pool_info().total_borrowed, 1000);
    l.execute(&info("bob", &[(OM, 500)]), &ExecuteMsg::Repay, 3).unwrap();
    assert_eq!(l.user_info(&"bob".to_string()).unwrap().borrowed_amount, 500);
    assert_eq!(l.pool_info().total_borrowed, 500);
    let r = l.execute(&info("bob", &[(OM, 600)]), &ExecuteMsg::Repay, 4);
    assert_eq!(r.unwrap_err(), ContractError::ExcessRepayment);
    assert_eq!(l.user_info(&"bob".to_string()).unwrap().borrowed_amount, 500);
    assert_eq!(l.pool_info().total_borrowed, 500);
}

#[test]
fn unstake_whole_stake_and_one_more() {
    let mut l = ledger(1);
    l.execute(&info("carol", &[(USD, 300)]), &ExecuteMsg::Stake, 1).unwrap();
    let r = l.execute(&info("carol", &[]), &ExecuteMsg::Unstake { amount: 301 }, 2);
    assert_eq!(r.unwrap_err(), ContractError::InsufficientFunds);
    assert_eq!(l.user_info(&"carol".to_string()).unwrap().staked_amount, 300);
    assert_eq!(l.pool_info().total_staked, 300);
    let sent = l.execute(&info("carol", &[]), &ExecuteMsg::Unstake { amount: 300 }, 3).unwrap().unwrap();
    assert_eq!(sent.token, USD);
    assert_eq!(sent.recipient, "carol");
    assert_eq!(sent.amount, 300);
    assert_eq!(l.user_info(&"carol".to_string()).unwrap().staked_amount, 0);
    assert_eq!(l.pool_info().total_staked, 0);
}

#[test]
fn repay_whole_debt_and_one_more() {
    let cfg = config(100);
    let p = pool(50, 50);
    let u = user(50, 50);
    let r = repay(&cfg, p, Some(u), &info("dave", &[(OM, 51)]), 1);
    assert_eq!(r.err(), Some(ContractError::ExcessRepayment));
    let t = repay(&cfg, p, Some(u), &info("dave", &[(OM, 50)]), 1).unwrap();
    assert_eq!(t.update.user.borrowed_amount, 0);
    assert_eq!(t.update.pool.total_borrowed, 0);
}

#[test]
fn pool_totals_track_all_accounts() {
    let mut l = ledger(50);
    l.execute(&info("a", &[(USD, 400)]), &ExecuteMsg::Stake, 1).unwrap();
    l.execute(&info("b", &[(USD, 600)]), &ExecuteMsg::Stake, 2).unwrap();
    l.execute(&info("a", &[]), &ExecuteMsg::Borrow { amount: 150 }, 3).unwrap();
    l.execute(&info("b", &[]), &ExecuteMsg::Borrow { amount: 300 }, 4).unwrap();
    l.execute(&info("a", &[]), &ExecuteMsg::Unstake { amount: 100 }, 5).unwrap();
    l.execute(&info("b", &[(OM, 120)]), &ExecuteMsg::Repay, 6).unwrap();
    let a = l.user_info(&"a".to_string()).unwrap();
    let b = l.user_info(&"b".to_string()).unwrap();
    let p = l.pool_info();
    assert_eq!(p.total_staked, a.staked_amount + b.staked_amount);
    assert_eq!(p.total_borrowed, a.borrowed_amount + b.borrowed_amount);
    assert_eq!(p, pool(900, 330));
}

#[test]
fn borrow_respects_ratio_after_success() {
    let cfg = config(150);
    let t = borrow(&cfg, pool(333, 0), Some(user(333, 0)), &info("e", &[]), 499, 1).unwrap();
    let u = t.update.user;
    assert!(u.borrowed_amount * RATIO_DENOMINATOR <= u.staked_amount * cfg.collateral_ratio);
    let r = borrow(&cfg, pool(333, 499), Some(u), &info("e", &[]), 1, 2);
    assert_eq!(r.err(), Some(ContractError::ExceedsCollateralRatio));
}

#[test]
fn borrow_without_account_exceeds_ratio() {
    let cfg = config(100);
    let r = borrow(&cfg, pool(0, 0), None, &info("nobody", &[]), 1, 1);
    assert_eq!(r.err(), Some(ContractError::ExceedsCollateralRatio));
}

#[test]
fn zero_amounts_are_refused_but_repayment() {
    let cfg = config(100);
    assert_eq!(stake(&cfg, pool(0, 0), None, &info("z", &[(USD, 0)]), 1).err(), Some(ContractError::NoFunds));
    assert_eq!(
        unstake(&cfg, pool(5, 0), Some(user(5, 0)), &info("z", &[]), 0, 1).err(),
        Some(ContractError::InsufficientFunds)
    );
    assert_eq!(borrow(&cfg, pool(5, 0), Some(user(5, 0)), &info("z", &[]), 0, 1).err(), Some(ContractError::NoFunds));
    assert_eq!(repay(&cfg, pool(5, 5), Some(user(5, 5)), &info("z", &[]), 1).err(), Some(ContractError::NoFunds));
}

#[test]
fn zero_repayment_changes_only_the_time() {
    let cfg = config(100);
    let t = repay(&cfg, pool(5, 5), Some(user(5, 5)), &info("z", &[(OM, 0)]), 9).unwrap();
    assert!(t.transfer.is_none());
    assert_eq!(t.update.user, UserInfo { staked_amount: 5, borrowed_amount: 5, last_interaction: 9 });
    assert_eq!(t.update.pool, pool(5, 5));
    let t = repay(&cfg, pool(0, 0), None, &info("z", &[(OM, 0)]), 9).unwrap();
    assert_eq!(t.update.user, UserInfo { staked_amount: 0, borrowed_amount: 0, last_interaction: 9 });
    let notice = Cw20ReceiveMsg { sender: "z".to_string(), amount: 0 };
    let t = receive_cw20(&cfg, pool(5, 5), Some(user(5, 5)), &info(OM, &[]), &notice, 9).unwrap();
    assert_eq!(t.update.user.borrowed_amount, 5);
    assert_eq!(t.update.pool, pool(5, 5));
}

#[test]
fn repay_on_empty_account_is_excess() {
    let cfg = config(100);
    let r = repay(&cfg, pool(0, 0), None, &info("z", &[(OM, 1)]), 1);
    assert_eq!(r.err(), Some(ContractError::ExcessRepayment));
}

#[test]
fn overflow_is_refused() {
    assert_eq!(stake_amount(pool(0, 0), user(u128::MAX, 0), 1, 1), Err(ContractError::Overflow));
    assert_eq!(stake_amount(pool(u128::MAX, 0), user(0, 0), 1, 1), Err(ContractError::Overflow));
    assert_eq!(borrow_amount(pool(0, 0), user(u128::MAX, u128::MAX), 100, 1, 1), Err(ContractError::Overflow));
    assert_eq!(borrow_amount(pool(0, u128::MAX), user(u128::MAX, 0), 100, 1, 1), Err(ContractError::Overflow));
}

#[test]
fn underflow_of_pool_is_refused() {
    assert_eq!(unstake_amount(pool(1, 0), user(5, 0), 2, 1), Err(ContractError::Underflow));
    assert_eq!(repay_amount(pool(0, 1), user(0, 5), 2, 1), Err(ContractError::Underflow));
}

#[test]
fn huge_stake_has_ceiling_beyond_range() {
    assert_eq!(max_borrow(u128::MAX, 200), None);
    assert_eq!(max_borrow(u128::MAX, 100), Some(u128::MAX));
    let u = borrow_amount(pool(u128::MAX, 0), user(u128::MAX, 0), 200, u128::MAX, 1).unwrap();
    assert_eq!(u.user.borrowed_amount, u128::MAX);
}

#[test]
fn max_borrow_floors_the_ratio() {
    assert_eq!(max_borrow(1000, 1), Some(10));
    assert_eq!(max_borrow(1099, 1), Some(10));
    assert_eq!(max_borrow(5, 99), Some(4));
    assert_eq!(max_borrow(0, 150), Some(0));
    assert_eq!(max_borrow(200, 150), Some(300));
}

#[test]
fn deposit_notice_dispatches_on_token() {
    let cfg = config(100);
    let notice = Cw20ReceiveMsg { sender: "alice".to_string(), amount: 70 };
    let t = receive_cw20(&cfg, pool(0, 0), None, &info(USD, &[]), &notice, 1).unwrap();
    assert_eq!(t.update.user.staked_amount, 70);
    assert!(t.transfer.is_none());
    let t = receive_cw20(&cfg, pool(100, 100), Some(user(100, 100)), &info(OM, &[]), &notice, 1).unwrap();
    assert_eq!(t.update.user.borrowed_amount, 30);
    assert_eq!(t.update.pool.total_borrowed, 30);
    let r = receive_cw20(&cfg, pool(0, 0), None, &info("other_token", &[]), &notice, 1);
    assert_eq!(r.err(), Some(ContractError::InvalidCw20Hook));
}

#[test]
fn deposit_notice_through_ledger_credits_depositor() {
    let mut l = ledger(100);
    let msg = ExecuteMsg::Receive(Cw20ReceiveMsg { sender: "alice".to_string(), amount: 80 });
    l.execute(&info(USD, &[]), &msg, 1).unwrap();
    assert_eq!(l.user_info(&"alice".to_string()).unwrap().staked_amount, 80);
    assert_eq!(l.user_info(&USD.to_string()), Err(ContractError::NotFound));
    assert_eq!(l.pool_info(), pool(80, 0));
}

#[test]
fn execute_dispatches_each_message() {
    let cfg = config(100);
    let t = execute(&cfg, pool(0, 0), None, &info("x", &[(USD, 9)]), &ExecuteMsg::Stake, 1).unwrap();
    assert_eq!(t.update.pool, pool(9, 0));
    let t = execute(&cfg, pool(9, 0), Some(user(9, 0)), &info("x", &[]), &ExecuteMsg::Borrow { amount: 9 }, 2).unwrap();
    assert_eq!(t.update.pool, pool(9, 9));
    let t = execute(&cfg, pool(9, 9), Some(user(9, 9)), &info("x", &[(OM, 4)]), &ExecuteMsg::Repay, 3).unwrap();
    assert_eq!(t.update.pool, pool(9, 5));
    let t = execute(&cfg, pool(9, 5), Some(user(9, 5)), &info("x", &[]), &ExecuteMsg::Unstake { amount: 2 }, 4).unwrap();
    assert_eq!(t.update.pool, pool(7, 5));
    assert_eq!(t.transfer.unwrap().token, USD);
}

#[test]
fn first_matching_coin_pays() {
    let funds = info("x", &[("other", 1), (USD, 5), (USD, 7)]).funds;
    assert_eq!(find_payment(&funds, &USD.to_string()), Some(5));
    assert_eq!(find_payment(&funds, &OM.to_string()), None);
}

#[test]
fn instantiate_records_settings() {
    let (cfg, p) = instantiate(
        &info("creator", &[]),
        InstantiateMsg {
            usd_token: USD.to_string(),
            om_token: OM.to_string(),
            collateral_ratio: 150,
            interest_rate: 5,
        },
    );
    assert_eq!(cfg.owner, "creator");
    assert_eq!(cfg.usd_token, USD);
    assert_eq!(cfg.om_token, OM);
    assert_eq!(cfg.collateral_ratio, 150);
    assert_eq!(cfg.interest_rate, 5);
    assert_eq!(p, pool(0, 0));
}

#[test]
fn queries_answer_from_records() {
    let cfg = config(100);
    assert_eq!(user_info(None), Err(ContractError::NotFound));
    assert_eq!(user_info(Some(user(3, 1))), Ok(user(3, 1)));
    match query(&cfg, pool(3, 1), None, &QueryMsg::GetPoolInfo) {
        Ok(QueryAnswer::Pool(p)) => assert_eq!(p, pool(3, 1)),
        _ => panic!("expected the pool totals"),
    }
    match query(&cfg, pool(3, 1), None, &QueryMsg::GetConfig) {
        Ok(QueryAnswer::Config(c)) => assert_eq!(c.collateral_ratio, 100),
        _ => panic!("expected the configuration"),
    }
    let r = query(&cfg, pool(3, 1), None, &QueryMsg::GetUserInfo { address: "nobody".to_string() });
    assert!(matches!(r, Err(ContractError::NotFound)));
    let mut l = ledger(100);
    l.execute(&info("amy", &[(USD, 12)]), &ExecuteMsg::Stake, 1).unwrap();
    match l.query(&QueryMsg::GetUserInfo { address: "amy".to_string() }) {
        Ok(QueryAnswer::User(u)) => assert_eq!(u, UserInfo { staked_amount: 12, borrowed_amount: 0, last_interaction: 1 }),
        _ => panic!("expected a record"),
    }
    assert_eq!(l.config().owner, "owner");
}
