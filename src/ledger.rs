use vstd::prelude::*;
use crate::contract::{
    first_payment, query, user_info, user_info_result, QueryAnswer,
    account_of, acting_account, execute, execute_result, execute_transfer, instantiate, transfer_view,
};
use crate::error::ContractError;
use crate::msg::{ExecuteMsg, InstantiateMsg, MessageInfo, QueryMsg, Transfer};
use crate::state::{user_or_empty, Config, PoolInfo, UserInfo, RATIO_DENOMINATOR};
use crate::transition::{lemma_borrow_within_ratio, Update};

verus! {

/// The sum of the stakes in `records`.
pub open spec fn staked_sum(records: Seq<UserInfo>) -> int
    decreases records.len(),
{
    if records.len() == 0 {
        0
    } else {
        staked_sum(records.drop_last()) + records.last().staked_amount
    }
}

/// The sum of the debts in `records`.
pub open spec fn borrowed_sum(records: Seq<UserInfo>) -> int
    decreases records.len(),
{
    if records.len() == 0 {
        0
    } else {
        borrowed_sum(records.drop_last()) + records.last().borrowed_amount
    }
}

proof fn lemma_sums_push(records: Seq<UserInfo>, u: UserInfo)
    ensures
        staked_sum(records.push(u)) == staked_sum(records) + u.staked_amount,
        borrowed_sum(records.push(u)) == borrowed_sum(records) + u.borrowed_amount,
{
    assert(records.push(u).drop_last() =~= records);
}

proof fn lemma_sums_update(records: Seq<UserInfo>, i: int, u: UserInfo)
    requires
        0 <= i < records.len(),
    ensures
        staked_sum(records.update(i, u)) == staked_sum(records) - records[i].staked_amount + u.staked_amount,
        borrowed_sum(records.update(i, u)) == borrowed_sum(records) - records[i].borrowed_amount + u.borrowed_amount,
    decreases records.len(),
{
    let s = records.update(i, u);
    if i == records.len() - 1 {
        assert(s.drop_last() =~= records.drop_last());
    } else {
        lemma_sums_update(records.drop_last(), i, u);
        assert(s.drop_last() =~= records.drop_last().update(i, u));
    }
}

proof fn lemma_sums_bound(records: Seq<UserInfo>, i: int)
    requires
        0 <= i < records.len(),
    ensures
        records[i].staked_amount <= staked_sum(records),
        records[i].borrowed_amount <= borrowed_sum(records),
    decreases records.len(),
{
    lemma_sums_nonneg(records.drop_last());
    if i < records.len() - 1 {
        lemma_sums_bound(records.drop_last(), i);
    }
}

proof fn lemma_sums_nonneg(records: Seq<UserInfo>)
    ensures
        staked_sum(records) >= 0,
        borrowed_sum(records) >= 0,
    decreases records.len(),
{
    if records.len() > 0 {
        lemma_sums_nonneg(records.drop_last());
    }
}

/// A whole ledger held in memory: its configuration, its pool totals, and
/// one record for each account that was ever written, `records[i]` being the
/// record of `owners[i]`.
pub struct Ledger {
    pub config: Config,
    pub pool: PoolInfo,
    pub owners: Vec<String>,
    pub records: Vec<UserInfo>,
}

impl Ledger {
    /// Each account has one record, and the pool totals are the sums over
    /// all records.
    pub open spec fn wf(&self) -> bool {
        &&& self.owners@.len() == self.records@.len()
        &&& forall|i: int, j: int|
            0 <= i < j < self.owners@.len() ==> self.owners@[i]@ != self.owners@[j]@
        &&& self.pool.total_staked == staked_sum(self.records@)
        &&& self.pool.total_borrowed == borrowed_sum(self.records@)
    }

    pub open spec fn holds(&self, who: Seq<char>) -> bool {
        exists|i: int| 0 <= i < self.owners@.len() && self.owners@[i]@ == who
    }

    /// The record of `who`, where one was written.
    pub open spec fn account(&self, who: Seq<char>) -> Option<UserInfo> {
        if self.holds(who) {
            Some(self.records@[choose|i: int| 0 <= i < self.owners@.len() && self.owners@[i]@ == who])
        } else {
            None
        }
    }

    proof fn lemma_account_at(&self, i: int)
        requires
            self.wf(),
            0 <= i < self.owners@.len(),
        ensures
            self.account(self.owners@[i]@) == Some(self.records@[i]),
    {
        let who = self.owners@[i]@;
        assert(self.holds(who));
        let j = choose|j: int| 0 <= j < self.owners@.len() && self.owners@[j]@ == who;
        assert(j == i);
    }

    /// A new ledger created by `info.sender`, without accounts.
    pub fn new(info: &MessageInfo, msg: InstantiateMsg) -> (r: Ledger)
        ensures
            r.wf(),
            r.config.owner@ == info.sender@,
            r.config.usd_token@ == msg.usd_token@,
            r.config.om_token@ == msg.om_token@,
            r.config.collateral_ratio == msg.collateral_ratio,
            r.config.interest_rate == msg.interest_rate,
            r.pool == PoolInfo::new_spec(),
            forall|who: Seq<char>| r.account(who) is None,
    {
        let (config, pool) = instantiate(info, msg);
        Ledger { config, pool, owners: Vec::new(), records: Vec::new() }
    }

    /// What `msg` from `info` at time `now` computes on this ledger.
    pub open spec fn expected(&self, info: MessageInfo, msg: ExecuteMsg, now: u64) -> Result<Update, ContractError> {
        execute_result(self.config, self.pool, user_or_empty(self.account(acting_account(info, msg))), info, msg, now)
    }

    /// `after` is `before` once `msg` from `info` at time `now` has succeeded:
    /// the acting account's record and the pool totals are those computed,
    /// and nothing else changed.
    pub open spec fn succeeded(before: Ledger, after: Ledger, info: MessageInfo, msg: ExecuteMsg, now: u64) -> bool {
        let who = acting_account(info, msg);
        let expected = before.expected(info, msg, now);
        &&& expected is Ok
        &&& after.config == before.config
        &&& after.pool == expected->Ok_0.pool
        &&& after.account(who) == Some(expected->Ok_0.user)
        &&& forall|k: Seq<char>| k != who ==> after.account(k) == before.account(k)
    }

    /// Where the record of `who` stands.
    pub fn position(&self, who: &String) -> (r: Option<usize>)
        requires
            self.wf(),
        ensures
            match r {
                Some(i) => i < self.owners@.len() && self.owners@[i as int]@ == who@,
                None => !self.holds(who@),
            },
    {
        let mut i: usize = 0;
        while i < self.owners.len()
            invariant
                self.wf(),
                i <= self.owners@.len(),
                forall|j: int| 0 <= j < i ==> self.owners@[j]@ != who@,
            decreases self.owners@.len() - i,
        {
            if self.owners[i] == *who {
                return Some(i);
            }
            i = i + 1;
        }
        None
    }

    /// The configuration.
    pub fn config(&self) -> (r: &Config)
        ensures
            r == &self.config,
    {
        &self.config
    }

    /// The pool totals.
    pub fn pool_info(&self) -> (r: PoolInfo)
        ensures
            r == self.pool,
    {
        self.pool
    }

    /// The record of `address`, or `NotFound` where none was written.
    pub fn user_info(&self, address: &String) -> (r: Result<UserInfo, ContractError>)
        requires
            self.wf(),
        ensures
            r == user_info_result(self.account(address@)),
    {
        user_info(self.stored(address))
    }

    /// The stored record of `who`, if any.
    pub fn stored(&self, who: &String) -> (r: Option<UserInfo>)
        requires
            self.wf(),
        ensures
            r == self.account(who@),
    {
        match self.position(who) {
            Some(i) => {
                proof {
                    self.lemma_account_at(i as int);
                }
                Some(self.records[i])
            },
            None => None,
        }
    }

    /// Answers `msg` from this ledger.
    pub fn query(&self, msg: &QueryMsg) -> (r: Result<QueryAnswer<'_>, ContractError>)
        requires
            self.wf(),
        ensures
            match msg {
                QueryMsg::GetConfig => r == Ok::<QueryAnswer<'_>, ContractError>(QueryAnswer::Config(&self.config)),
                QueryMsg::GetUserInfo { address } => match user_info_result(self.account(address@)) {
                    Ok(u) => r == Ok::<QueryAnswer<'_>, ContractError>(QueryAnswer::User(u)),
                    Err(e) => r == Err::<QueryAnswer<'_>, ContractError>(e),
                },
                QueryMsg::GetPoolInfo => r == Ok::<QueryAnswer<'_>, ContractError>(QueryAnswer::Pool(self.pool)),
            },
    {
        let user = match msg {
            QueryMsg::GetUserInfo { address } => self.stored(address),
            _ => None,
        };
        query(&self.config, self.pool, user, msg)
    }

    /// Performs `msg` for `info` at time `now`. On success the acting
    /// account's record and the pool totals take the values that the
    /// operation computes, every other record stays as it was, and the
    /// transfer to send is returned; on failure nothing changes.
    pub fn execute(&mut self, info: &MessageInfo, msg: &ExecuteMsg, now: u64) -> (r: Result<Option<Transfer>, ContractError>)
        requires
            old(self).wf(),
        ensures
            final(self).wf(),
            match r {
                Ok(t) => {
                    &&& Ledger::succeeded(*old(self), *final(self), *info, *msg, now)
                    &&& transfer_view(t) == execute_transfer(old(self).config, *info, *msg)
                },
                Err(e) => {
                    &&& old(self).expected(*info, *msg, now) == Err::<Update, ContractError>(e)
                    &&& *final(self) == *old(self)
                },
            },
    {
        let who = account_of(info, msg);
        let pos = self.position(who);
        let user = match pos {
            Some(i) => {
                proof {
                    self.lemma_account_at(i as int);
                }
                Some(self.records[i])
            },
            None => None,
        };
        let t = match execute(&self.config, self.pool, user, info, msg, now) {
            Ok(t) => t,
            Err(e) => return Err(e),
        };
        let ghost prev = *self;
        let ghost mut at: int = 0;
        match pos {
            Some(i) => {
                proof {
                    lemma_sums_update(self.records@, i as int, t.update.user);
                }
                self.records.set(i, t.update.user);
                proof {
                    at = i as int;
                    assert(forall|j: int| 0 <= j < prev.owners@.len() && prev.owners@[j]@ != who@
                        ==> self.records@[j] == prev.records@[j]);
                }
            },
            None => {
                proof {
                    lemma_sums_push(self.records@, t.update.user);
                }
                self.owners.push(who.clone());
                self.records.push(t.update.user);
                proof {
                    at = self.owners@.len() - 1;
                    assert(self.owners@ =~= prev.owners@.push(self.owners@.last()));
                    assert(self.records@.drop_last() =~= prev.records@);
                }
            },
        }
        self.pool = t.update.pool;
        proof {
            assert(self.owners@[at]@ == who@);
            self.lemma_account_at(at);
            self.lemma_frame(prev, who@);
        }
        Ok(t.transfer)
    }

    /// A record written for `who` alone leaves every other account's record as it was.
    proof fn lemma_frame(&self, prev: Ledger, who: Seq<char>)
        requires
            self.wf(),
            prev.wf(),
            self.holds(who),
            (self.owners@.len() == prev.owners@.len() && self.owners@ == prev.owners@
                && forall|i: int| 0 <= i < prev.owners@.len() && prev.owners@[i]@ != who ==> self.records@[i] == prev.records@[i])
            || (self.owners@ == prev.owners@.push(self.owners@.last()) && self.records@.drop_last() == prev.records@
                && self.owners@.last()@ == who),
        ensures
            forall|k: Seq<char>| k != who ==> self.account(k) == prev.account(k),
    {
        assert forall|k: Seq<char>| k != who implies self.account(k) == prev.account(k) by {
            if prev.holds(k) {
                let i = choose|i: int| 0 <= i < prev.owners@.len() && prev.owners@[i]@ == k;
                prev.lemma_account_at(i);
                assert(self.owners@[i] == prev.owners@[i]);
                self.lemma_account_at(i);
            } else if self.holds(k) {
                let i = choose|i: int| 0 <= i < self.owners@.len() && self.owners@[i]@ == k;
                if i < prev.owners@.len() {
                    assert(prev.owners@[i] == self.owners@[i]);
                }
            }
        }
    }
}

/// No record of a well-formed ledger holds more than the pool totals.
pub proof fn lemma_account_within_pool(l: Ledger, who: Seq<char>)
    requires
        l.wf(),
        l.account(who) is Some,
    ensures
        l.account(who)->Some_0.staked_amount <= l.pool.total_staked,
        l.account(who)->Some_0.borrowed_amount <= l.pool.total_borrowed,
{
    let i = choose|i: int| 0 <= i < l.owners@.len() && l.owners@[i]@ == who;
    l.lemma_account_at(i);
    lemma_sums_bound(l.records@, i);
}

/// Withdrawing exactly the caller's whole stake succeeds and leaves it no
/// stake; asking for one unit more is refused with `InsufficientFunds`
/// (and a refused call changes nothing).
pub proof fn lemma_unstake_whole_stake(l: Ledger, info: MessageInfo, now: u64)
    requires
        l.wf(),
        user_or_empty(l.account(info.sender@)).staked_amount > 0,
    ensures
        ({
            let staked = user_or_empty(l.account(info.sender@)).staked_amount;
            &&& l.expected(info, ExecuteMsg::Unstake { amount: staked }, now) is Ok
            &&& l.expected(info, ExecuteMsg::Unstake { amount: staked }, now)->Ok_0.user.staked_amount == 0
            &&& staked < u128::MAX ==> l.expected(info, ExecuteMsg::Unstake { amount: (staked + 1) as u128 }, now)
                == Err::<Update, ContractError>(ContractError::InsufficientFunds)
        }),
{
    lemma_account_within_pool(l, info.sender@);
}

/// Repaying exactly the caller's whole debt succeeds and clears it; paying
/// one unit more is refused with `ExcessRepayment` (and a refused call
/// changes nothing).
pub proof fn lemma_repay_whole_debt(l: Ledger, info: MessageInfo, over: MessageInfo, now: u64)
    requires
        l.wf(),
        first_payment(info.funds@, l.config.om_token@)
            == Some(user_or_empty(l.account(info.sender@)).borrowed_amount),
        over.sender@ == info.sender@,
        first_payment(over.funds@, l.config.om_token@)
            == Some((user_or_empty(l.account(info.sender@)).borrowed_amount + 1) as u128),
        user_or_empty(l.account(info.sender@)).borrowed_amount < u128::MAX,
    ensures
        l.expected(info, ExecuteMsg::Repay, now) is Ok,
        l.expected(info, ExecuteMsg::Repay, now)->Ok_0.user.borrowed_amount == 0,
        l.expected(over, ExecuteMsg::Repay, now) == Err::<Update, ContractError>(ContractError::ExcessRepayment),
{
    if l.account(info.sender@) is Some {
        lemma_account_within_pool(l, info.sender@);
    }
}

/// Right after a successful borrow, the borrower owes no more than its stake
/// times the collateral ratio, over the ratio denominator.
pub proof fn lemma_borrow_keeps_ratio(before: Ledger, after: Ledger, info: MessageInfo, amount: u128, now: u64)
    requires
        before.wf(),
        Ledger::succeeded(before, after, info, ExecuteMsg::Borrow { amount }, now),
    ensures
        after.account(info.sender@) is Some,
        ({
            let u = after.account(info.sender@)->Some_0;
            u.borrowed_amount as int * RATIO_DENOMINATOR as int
                <= u.staked_amount as int * after.config.collateral_ratio as int
        }),
{
    lemma_borrow_within_ratio(
        before.pool,
        user_or_empty(before.account(info.sender@)),
        before.config.collateral_ratio,
        amount,
        now,
    );
}

/// A successful stake is read back exactly: the caller's record then holds
/// its earlier stake plus the collateral paid, which `user_info` returns.
pub proof fn lemma_stake_then_query(before: Ledger, after: Ledger, info: MessageInfo, now: u64)
    requires
        before.wf(),
        Ledger::succeeded(before, after, info, ExecuteMsg::Stake, now),
    ensures
        first_payment(info.funds@, before.config.usd_token@) is Some,
        after.account(info.sender@) is Some,
        after.account(info.sender@)->Some_0.staked_amount
            == user_or_empty(before.account(info.sender@)).staked_amount
                + first_payment(info.funds@, before.config.usd_token@)->Some_0,
{
}

/// A successful borrow of `amount` is read back exactly in the pool totals.
pub proof fn lemma_borrow_then_pool(before: Ledger, after: Ledger, info: MessageInfo, amount: u128, now: u64)
    requires
        before.wf(),
        Ledger::succeeded(before, after, info, ExecuteMsg::Borrow { amount }, now),
    ensures
        after.pool.total_borrowed == before.pool.total_borrowed + amount,
        after.pool.total_staked == before.pool.total_staked,
{
}

} // verus!
