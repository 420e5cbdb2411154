use vstd::prelude::*;
use crate::error::ContractError;
use crate::ratio::{lemma_within_ceiling, max_borrow};
use crate::state::{borrow_ceiling, PoolInfo, UserInfo, RATIO_DENOMINATOR};

verus! {

/// The account record and the pool totals that one transition writes together.
#[derive(Clone, Copy, Debug, PartialEq, Eq, Structural)]
pub struct Update {
    pub user: UserInfo,
    pub pool: PoolInfo,
}

/// Staking `amount` of collateral: both the account's stake and the pool's
/// total grow by it, or nothing changes.
pub open spec fn stake_result(pool: PoolInfo, user: UserInfo, amount: u128, now: u64) -> Result<Update, ContractError> {
    if amount == 0 {
        Err(ContractError::NoFunds)
    } else if user.staked_amount + amount > u128::MAX || pool.total_staked + amount > u128::MAX {
        Err(ContractError::Overflow)
    } else {
        Ok(Update {
            user: UserInfo {
                staked_amount: (user.staked_amount + amount) as u128,
                borrowed_amount: user.borrowed_amount,
                last_interaction: now,
            },
            pool: PoolInfo {
                total_staked: (pool.total_staked + amount) as u128,
                total_borrowed: pool.total_borrowed,
            },
        })
    }
}

/// Withdrawing `amount` of collateral: both the account's stake and the pool's
/// total shrink by it, or nothing changes. The borrow ceiling is not consulted:
/// a withdrawal may leave an existing loan above the ceiling of what remains.
pub open spec fn unstake_result(pool: PoolInfo, user: UserInfo, amount: u128, now: u64) -> Result<Update, ContractError> {
    if amount == 0 || user.staked_amount < amount {
        Err(ContractError::InsufficientFunds)
    } else if pool.total_staked < amount {
        Err(ContractError::Underflow)
    } else {
        Ok(Update {
            user: UserInfo {
                staked_amount: (user.staked_amount - amount) as u128,
                borrowed_amount: user.borrowed_amount,
                last_interaction: now,
            },
            pool: PoolInfo {
                total_staked: (pool.total_staked - amount) as u128,
                total_borrowed: pool.total_borrowed,
            },
        })
    }
}

/// Borrowing `amount`: allowed while the new debt stays within the ceiling
/// that the stake sets at `ratio`; then both the debt and the pool's total
/// grow by it.
pub open spec fn borrow_result(pool: PoolInfo, user: UserInfo, ratio: u128, amount: u128, now: u64) -> Result<Update, ContractError> {
    if amount == 0 {
        Err(ContractError::NoFunds)
    } else if user.borrowed_amount + amount > u128::MAX {
        Err(ContractError::Overflow)
    } else if user.borrowed_amount + amount > borrow_ceiling(user.staked_amount, ratio) {
        Err(ContractError::ExceedsCollateralRatio)
    } else if pool.total_borrowed + amount > u128::MAX {
        Err(ContractError::Overflow)
    } else {
        Ok(Update {
            user: UserInfo {
                staked_amount: user.staked_amount,
                borrowed_amount: (user.borrowed_amount + amount) as u128,
                last_interaction: now,
            },
            pool: PoolInfo {
                total_staked: pool.total_staked,
                total_borrowed: (pool.total_borrowed + amount) as u128,
            },
        })
    }
}

/// Repaying `amount`: at most what is owed; both the debt and the pool's
/// total shrink by it. A repayment of zero is accepted and changes only the
/// time of the last interaction.
pub open spec fn repay_result(pool: PoolInfo, user: UserInfo, amount: u128, now: u64) -> Result<Update, ContractError> {
    if amount > user.borrowed_amount {
        Err(ContractError::ExcessRepayment)
    } else if pool.total_borrowed < amount {
        Err(ContractError::Underflow)
    } else {
        Ok(Update {
            user: UserInfo {
                staked_amount: user.staked_amount,
                borrowed_amount: (user.borrowed_amount - amount) as u128,
                last_interaction: now,
            },
            pool: PoolInfo {
                total_staked: pool.total_staked,
                total_borrowed: (pool.total_borrowed - amount) as u128,
            },
        })
    }
}

/// Stakes `amount` of collateral for the account `user`.
pub fn stake_amount(pool: PoolInfo, user: UserInfo, amount: u128, now: u64) -> (r: Result<Update, ContractError>)
    ensures
        r == stake_result(pool, user, amount, now),
{
    if amount == 0 {
        return Err(ContractError::NoFunds);
    }
    let staked = match user.staked_amount.checked_add(amount) {
        Some(v) => v,
        None => return Err(ContractError::Overflow),
    };
    let total = match pool.total_staked.checked_add(amount) {
        Some(v) => v,
        None => return Err(ContractError::Overflow),
    };
    Ok(Update {
        user: UserInfo { staked_amount: staked, borrowed_amount: user.borrowed_amount, last_interaction: now },
        pool: PoolInfo { total_staked: total, total_borrowed: pool.total_borrowed },
    })
}

/// Withdraws `amount` of collateral from the account `user`.
pub fn unstake_amount(pool: PoolInfo, user: UserInfo, amount: u128, now: u64) -> (r: Result<Update, ContractError>)
    ensures
        r == unstake_result(pool, user, amount, now),
{
    if amount == 0 || user.staked_amount < amount {
        return Err(ContractError::InsufficientFunds);
    }
    if pool.total_staked < amount {
        return Err(ContractError::Underflow);
    }
    Ok(Update {
        user: UserInfo {
            staked_amount: user.staked_amount - amount,
            borrowed_amount: user.borrowed_amount,
            last_interaction: now,
        },
        pool: PoolInfo { total_staked: pool.total_staked - amount, total_borrowed: pool.total_borrowed },
    })
}

/// Lends `amount` to the account `user`, whose stake sets its ceiling at `ratio`.
pub fn borrow_amount(pool: PoolInfo, user: UserInfo, ratio: u128, amount: u128, now: u64) -> (r: Result<Update, ContractError>)
    ensures
        r == borrow_result(pool, user, ratio, amount, now),
{
    if amount == 0 {
        return Err(ContractError::NoFunds);
    }
    let borrowed = match user.borrowed_amount.checked_add(amount) {
        Some(v) => v,
        None => return Err(ContractError::Overflow),
    };
    match max_borrow(user.staked_amount, ratio) {
        Some(ceiling) => {
            if borrowed > ceiling {
                return Err(ContractError::ExceedsCollateralRatio);
            }
        },
        None => {},
    }
    let total = match pool.total_borrowed.checked_add(amount) {
        Some(v) => v,
        None => return Err(ContractError::Overflow),
    };
    Ok(Update {
        user: UserInfo { staked_amount: user.staked_amount, borrowed_amount: borrowed, last_interaction: now },
        pool: PoolInfo { total_staked: pool.total_staked, total_borrowed: total },
    })
}

/// Takes a repayment of `amount` from the account `user`.
pub fn repay_amount(pool: PoolInfo, user: UserInfo, amount: u128, now: u64) -> (r: Result<Update, ContractError>)
    ensures
        r == repay_result(pool, user, amount, now),
{
    if amount > user.borrowed_amount {
        return Err(ContractError::ExcessRepayment);
    }
    if pool.total_borrowed < amount {
        return Err(ContractError::Underflow);
    }
    Ok(Update {
        user: UserInfo {
            staked_amount: user.staked_amount,
            borrowed_amount: user.borrowed_amount - amount,
            last_interaction: now,
        },
        pool: PoolInfo { total_staked: pool.total_staked, total_borrowed: pool.total_borrowed - amount },
    })
}

/// After a successful borrow the account owes no more than its stake times
/// the collateral ratio, over the ratio denominator.
pub proof fn lemma_borrow_within_ratio(pool: PoolInfo, user: UserInfo, ratio: u128, amount: u128, now: u64)
    requires
        borrow_result(pool, user, ratio, amount, now) is Ok,
    ensures
        ({
            let u = borrow_result(pool, user, ratio, amount, now)->Ok_0.user;
            u.borrowed_amount as int * RATIO_DENOMINATOR as int <= u.staked_amount as int * ratio as int
        }),
{
    let u = borrow_result(pool, user, ratio, amount, now)->Ok_0.user;
    lemma_within_ceiling(u.borrowed_amount, u.staked_amount, ratio);
}

} // verus!
