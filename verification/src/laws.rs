use vstd::prelude::*;

use crate::error::ContractError;
use crate::execute::{
    borrow_from_pool_post, execute_escrow_post, execute_redeem_post, lend_to_pool_post,
};
use crate::msg::Env;
use crate::response::Response;
use crate::state::{pool_liquidity, Store};

verus! {

/// The operations that move pool liquidity, each with the amount it moves.
/// Lend and earn deposits credit the pool; borrow, earn withdrawal and
/// release debit it.
pub enum PoolOp {
    Lend { amount: u128 },
    Borrow { amount: u128 },
    EarnDeposit { amount: u128 },
    EarnWithdraw { amount: u128 },
    Release { amount: u128 },
}

/// The signed change a successful pool operation makes to the liquidity.
/// Each engine's contract states that its success moves the liquidity by
/// exactly this amount.
pub open spec fn op_delta(op: PoolOp) -> int {
    match op {
        PoolOp::Lend { amount } => amount as int,
        PoolOp::Borrow { amount } => -(amount as int),
        PoolOp::EarnDeposit { amount } => amount as int,
        PoolOp::EarnWithdraw { amount } => -(amount as int),
        PoolOp::Release { amount } => -(amount as int),
    }
}

/// The liquidity left after a sequence of successful pool operations runs
/// against an initial liquidity.
pub open spec fn apply_deltas(init: int, ops: Seq<PoolOp>) -> int
    decreases ops.len(),
{
    if ops.len() == 0 {
        init
    } else {
        apply_deltas(init, ops.drop_last()) + op_delta(ops.last())
    }
}

/// Everything lent over a sequence of operations.
pub open spec fn sum_lend(ops: Seq<PoolOp>) -> int
    decreases ops.len(),
{
    if ops.len() == 0 {
        0
    } else {
        sum_lend(ops.drop_last()) + match ops.last() {
            PoolOp::Lend { amount } => amount as int,
            _ => 0,
        }
    }
}

/// Everything borrowed over a sequence of operations.
pub open spec fn sum_borrow(ops: Seq<PoolOp>) -> int
    decreases ops.len(),
{
    if ops.len() == 0 {
        0
    } else {
        sum_borrow(ops.drop_last()) + match ops.last() {
            PoolOp::Borrow { amount } => amount as int,
            _ => 0,
        }
    }
}

/// Everything deposited into the earn position over a sequence of
/// operations.
pub open spec fn sum_earn_deposit(ops: Seq<PoolOp>) -> int
    decreases ops.len(),
{
    if ops.len() == 0 {
        0
    } else {
        sum_earn_deposit(ops.drop_last()) + match ops.last() {
            PoolOp::EarnDeposit { amount } => amount as int,
            _ => 0,
        }
    }
}

/// Everything withdrawn from the earn position over a sequence of
/// operations.
pub open spec fn sum_earn_withdraw(ops: Seq<PoolOp>) -> int
    decreases ops.len(),
{
    if ops.len() == 0 {
        0
    } else {
        sum_earn_withdraw(ops.drop_last()) + match ops.last() {
            PoolOp::EarnWithdraw { amount } => amount as int,
            _ => 0,
        }
    }
}

/// Everything released back to lenders over a sequence of operations.
pub open spec fn sum_release(ops: Seq<PoolOp>) -> int
    decreases ops.len(),
{
    if ops.len() == 0 {
        0
    } else {
        sum_release(ops.drop_last()) + match ops.last() {
            PoolOp::Release { amount } => amount as int,
            _ => 0,
        }
    }
}

/// Solvency of the pool: for any sequence of successful pool operations,
/// the liquidity they leave equals the initial liquidity, plus everything
/// lent and deposited, minus everything borrowed, withdrawn and released.
pub proof fn lemma_pool_accounting(init: int, ops: Seq<PoolOp>)
    ensures
        apply_deltas(init, ops) == init + sum_lend(ops) - sum_borrow(ops) + sum_earn_deposit(ops)
            - sum_earn_withdraw(ops) - sum_release(ops),
    decreases ops.len(),
{
    if ops.len() > 0 {
        lemma_pool_accounting(init, ops.drop_last());
    }
}

/// Maturity stamping of escrows: a created escrow unlocks exactly at the
/// block time of its creation plus the requested lock, and never earlier
/// or later.
pub proof fn lemma_escrow_unlock_stamped(
    old_s: Store,
    new_s: Store,
    env: Env,
    user: String,
    token: String,
    amount: u128,
    time: u64,
    r: Result<Response, ContractError>,
)
    requires
        execute_escrow_post(old_s, new_s, env, user, token, amount, time, r),
        r is Ok,
        env.block_time + time <= u64::MAX,
    ensures
        new_s.escrow matches Some(e) && e.time == env.block_time + time && e.amount == amount,
{
}

/// Maturity stamping of lending positions: a stored position matures
/// exactly at the block time of its creation plus the requested duration.
pub proof fn lemma_lend_maturity_stamped(
    old_s: Store,
    new_s: Store,
    env: Env,
    lender: String,
    amount: u128,
    duration: u64,
    r: Result<Response, ContractError>,
)
    requires
        lend_to_pool_post(old_s, new_s, env, lender, amount, duration, r),
        r is Ok,
        env.block_time + duration <= u64::MAX,
    ensures
        new_s.lender matches Some(li) && li.maturity_date == env.block_time + duration
            && li.amount_lent == amount,
{
}

/// Maturity stamping of debts: a stored debt matures exactly at the block
/// time of its creation plus the requested duration.
pub proof fn lemma_borrow_maturity_stamped(
    old_s: Store,
    new_s: Store,
    env: Env,
    borrower: String,
    amount: u128,
    duration: u64,
    r: Result<Response, ContractError>,
)
    requires
        borrow_from_pool_post(old_s, new_s, env, borrower, amount, duration, r),
        r is Ok,
        env.block_time + duration <= u64::MAX,
    ensures
        new_s.borrower matches Some(b) && b.maturity_date == env.block_time + duration
            && b.amount_borrowed == amount,
{
}

/// Exclusivity of the escrow slot: creating over a live escrow fails with
/// the existing-escrow error, and no field of the store changes.
pub proof fn lemma_escrow_exclusive(
    old_s: Store,
    new_s: Store,
    env: Env,
    user: String,
    token: String,
    amount: u128,
    time: u64,
    r: Result<Response, ContractError>,
)
    requires
        execute_escrow_post(old_s, new_s, env, user, token, amount, time, r),
        old_s.escrow is Some,
        old_s.config matches Some(c) && c.token@ == token@,
        amount > 0,
    ensures
        r == Err::<Response, ContractError>(ContractError::ExistingEscrow {  }),
        new_s == old_s,
{
}

/// Maturity gating of redemption: before the unlock time redemption fails
/// with the not-expired error and changes nothing; from the unlock time on,
/// success empties the slot and touches nothing else.
pub proof fn lemma_redeem_boundary(
    old_s: Store,
    new_s: Store,
    env: Env,
    user: String,
    r: Result<Response, ContractError>,
)
    requires
        execute_redeem_post(old_s, new_s, env, user, r),
        old_s.config is Some,
        old_s.escrow is Some,
    ensures
        env.block_time < old_s.escrow->0.time ==> r == Err::<Response, ContractError>(
            ContractError::NotExpired {  },
        ) && new_s == old_s,
        env.block_time >= old_s.escrow->0.time ==> r is Ok && new_s == (Store {
            escrow: None,
            ..old_s
        }),
{
}

/// Liquidity gating of borrowing: a request above the free liquidity fails
/// with insufficient funds and the pool is untouched; a positive covered
/// request against a free slot on a configured instance is owed success,
/// which debits the pool by exactly the amount, down to empty when the
/// whole pool was asked for.
pub proof fn lemma_borrow_liquidity(
    old_s: Store,
    new_s: Store,
    env: Env,
    borrower: String,
    amount: u128,
    duration: u64,
    r: Result<Response, ContractError>,
)
    requires
        borrow_from_pool_post(old_s, new_s, env, borrower, amount, duration, r),
    ensures
        amount > pool_liquidity(old_s) ==> r == Err::<Response, ContractError>(
            ContractError::InsufficientFunds {  },
        ) && new_s == old_s,
        (amount > 0 && amount <= pool_liquidity(old_s) && old_s.borrower is None
            && old_s.config is Some) ==> r is Ok,
        r is Ok ==> pool_liquidity(new_s) == pool_liquidity(old_s) - amount,
        (r is Ok && amount == pool_liquidity(old_s)) ==> pool_liquidity(new_s) == 0,
{
}

} // verus!
