use vstd::prelude::*;

use crate::error::StdErr;
use crate::msg::{
    BorrowerPoolResponse, EscrowResponse, LenderPoolResponse, Pool, QueryAnswer, QueryMsg,
};
use crate::state::{pool_liquidity, Coin, Store};

verus! {

/// A query result with the error reduced to its text: the whole observable
/// content of an answer.
pub open spec fn err_view<T>(r: Result<T, StdErr>) -> Result<T, Seq<char>> {
    match r {
        Ok(t) => Ok(t),
        Err(e) => Err(e.msg@),
    }
}

/// What the escrow query answers on a given store: the record's amount and
/// unlock time iff one exists and belongs to the asking user.
pub open spec fn spec_query_escrow(s: Store, user: Seq<char>) -> Result<
    EscrowResponse,
    Seq<char>,
> {
    match s.escrow {
        None => Err("No escrow found"@),
        Some(e) => if e.user@ != user {
            Err("Escrow not found for user"@)
        } else {
            Ok(EscrowResponse { amount: e.amount, time: e.time })
        },
    }
}

/// Projects the escrow slot for one user. The answer is a function of the
/// store alone, so reading twice without a write in between answers the
/// same.
pub fn query_escrow(store: &Store, user: String) -> (r: Result<EscrowResponse, StdErr>)
    ensures
        err_view(r) == spec_query_escrow(*store, user@),
{
    match &store.escrow {
        None => Err(StdErr::generic_err("No escrow found")),
        Some(e) => {
            if !(e.user == user) {
                Err(StdErr::generic_err("Escrow not found for user"))
            } else {
                Ok(EscrowResponse { amount: e.amount, time: e.time })
            }
        },
    }
}

/// What the lender query answers on a given store: the position's amount
/// and maturity iff the instance is configured, a lender record exists and
/// it belongs to the asking user.
pub open spec fn spec_query_lend_to_pool(s: Store, user: Seq<char>) -> Result<
    LenderPoolResponse,
    Seq<char>,
> {
    if s.config is None {
        Err("Config not found"@)
    } else {
        match s.lender {
            None => Err("No Lenders found"@),
            Some(li) => if li.lender@ != user {
                Err("Lend Tokens not found for user"@)
            } else {
                Ok(
                    LenderPoolResponse {
                        amount_lent: li.amount_lent,
                        maturity_date: li.maturity_date,
                    },
                )
            },
        }
    }
}

/// Projects the lender slot for one user; deterministic over the store.
pub fn query_lend_to_pool(store: &Store, user: String) -> (r: Result<LenderPoolResponse, StdErr>)
    ensures
        err_view(r) == spec_query_lend_to_pool(*store, user@),
{
    if store.config.is_none() {
        return Err(StdErr::generic_err("Config not found"));
    }
    match &store.lender {
        None => Err(StdErr::generic_err("No Lenders found")),
        Some(li) => {
            if !(li.lender == user) {
                Err(StdErr::generic_err("Lend Tokens not found for user"))
            } else {
                Ok(
                    LenderPoolResponse {
                        amount_lent: li.amount_lent,
                        maturity_date: li.maturity_date,
                    },
                )
            }
        },
    }
}

/// What the borrower query answers on a given store: the debt's amount and
/// maturity iff the instance is configured, a borrower record exists and it
/// belongs to the asking user.
pub open spec fn spec_query_borrow_to_pool(s: Store, user: Seq<char>) -> Result<
    BorrowerPoolResponse,
    Seq<char>,
> {
    if s.config is None {
        Err("Config not found"@)
    } else {
        match s.borrower {
            None => Err("No Lenders found"@),
            Some(b) => if b.borrower@ != user {
                Err("Lend Tokens not found for user"@)
            } else {
                Ok(
                    BorrowerPoolResponse {
                        amount_borrowed: b.amount_borrowed,
                        maturity_date: b.maturity_date,
                    },
                )
            },
        }
    }
}

/// Projects the borrower slot for one user; deterministic over the store.
pub fn query_borrow_to_pool(store: &Store, user: String) -> (r: Result<
    BorrowerPoolResponse,
    StdErr,
>)
    ensures
        err_view(r) == spec_query_borrow_to_pool(*store, user@),
{
    if store.config.is_none() {
        return Err(StdErr::generic_err("Config not found"));
    }
    match &store.borrower {
        None => Err(StdErr::generic_err("No Lenders found")),
        Some(b) => {
            if !(b.borrower == user) {
                Err(StdErr::generic_err("Lend Tokens not found for user"))
            } else {
                Ok(
                    BorrowerPoolResponse {
                        amount_borrowed: b.amount_borrowed,
                        maturity_date: b.maturity_date,
                    },
                )
            }
        },
    }
}

/// What the pool query answers on a given store: the authoritative free
/// liquidity, denominated in the configured token. The vault is the one
/// counter the engines move, so the query projects it.
pub open spec fn spec_query_pool(s: Store) -> Result<Pool, Seq<char>> {
    match s.config {
        None => Err("Config not found"@),
        Some(c) => Ok(Pool { liquidity: Coin { denom: c.token, amount: pool_liquidity(s) } }),
    }
}

/// Projects the pool's free liquidity; deterministic over the store.
pub fn query_pool(store: &Store) -> (r: Result<Pool, StdErr>)
    ensures
        err_view(r) == spec_query_pool(*store),
{
    match &store.config {
        None => Err(StdErr::generic_err("Config not found")),
        Some(c) => {
            let amount: u128 = match &store.vault {
                Some(v) => v.total_tokens,
                None => 0,
            };
            Ok(Pool { liquidity: Coin { denom: c.token.clone(), amount } })
        },
    }
}

/// What the whole query surface answers on a given store.
pub open spec fn spec_query(s: Store, msg: QueryMsg) -> Result<QueryAnswer, Seq<char>> {
    match msg {
        QueryMsg::Escrow { address } => match spec_query_escrow(s, address@) {
            Ok(a) => Ok(QueryAnswer::Escrow(a)),
            Err(m) => Err(m),
        },
        QueryMsg::LendToPool { address } => match spec_query_lend_to_pool(s, address@) {
            Ok(a) => Ok(QueryAnswer::Lender(a)),
            Err(m) => Err(m),
        },
        QueryMsg::BorrowFromPool { address } => match spec_query_borrow_to_pool(s, address@) {
            Ok(a) => Ok(QueryAnswer::Borrower(a)),
            Err(m) => Err(m),
        },
        QueryMsg::Pool {  } => match spec_query_pool(s) {
            Ok(a) => Ok(QueryAnswer::Pool(a)),
            Err(m) => Err(m),
        },
    }
}

/// Idempotence of queries: any two answers the query contract admits for
/// the same store and the same request have the same observable content,
/// so reading twice without an intervening write reads the same.
pub proof fn lemma_query_idempotent(
    s: Store,
    msg: QueryMsg,
    r1: Result<QueryAnswer, StdErr>,
    r2: Result<QueryAnswer, StdErr>,
)
    requires
        err_view(r1) == spec_query(s, msg),
        err_view(r2) == spec_query(s, msg),
    ensures
        err_view(r1) == err_view(r2),
{
}

} // verus!
