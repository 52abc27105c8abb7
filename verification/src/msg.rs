use vstd::prelude::*;

use crate::error::StdErr;
use crate::state::Coin;

verus! {

/// The transaction context the host supplies: the block clock, in seconds.
/// Timers and maturities are compared against it, never against a wall
/// clock.
#[derive(Clone, Copy, Debug, PartialEq, Eq)]
pub struct Env {
    pub block_time: u64,
}

/// Who signed the inbound transaction.
#[derive(Clone, Debug, PartialEq, Eq)]
pub struct MessageInfo {
    pub sender: String,
}

/// A token contract's deposit notification: who sent the tokens, how many
/// arrived, and the embedded instruction. The host's adapter hands the
/// instruction over already decoded; a malformed payload arrives as the
/// decoder's error text.
#[derive(Debug, PartialEq, Eq)]
pub struct Envelope {
    pub sender: String,
    pub amount: u128,
    pub msg: Result<Cw20HookMsg, StdErr>,
}

/// Instantiation carries no parameters.
#[derive(Clone, Debug, PartialEq, Eq)]
pub struct InstantiateMsg {}

/// The instruction embedded in a deposit notification.
#[derive(Clone, Debug, PartialEq, Eq)]
pub enum Cw20HookMsg {
    Escrow { time: u64 },
}

/// The tagged inbound requests the dispatcher routes.
#[derive(Debug, PartialEq, Eq)]
pub enum ExecuteMsg {
    Increment {},
    Reset { count: i32 },
    ReceiveForCollateral(Envelope),
    RedeemForCollateral {},
    BorrowFromPool(Envelope),
    LendToPool(Envelope),
    EarnToPool(Envelope),
    WithdrawForEarn(Envelope),
    LendToPoolV2 { lender: String, amount: u128, duration: u64 },
}

/// The read-only requests of the query surface.
#[derive(Clone, Debug, PartialEq, Eq)]
pub enum QueryMsg {
    Escrow { address: String },
    LendToPool { address: String },
    BorrowFromPool { address: String },
    Pool {},
}

#[derive(Clone, Debug, PartialEq, Eq)]
pub struct EscrowResponse {
    pub amount: u128,
    pub time: u64,
}

#[derive(Clone, Debug, PartialEq, Eq)]
pub struct LenderPoolResponse {
    pub amount_lent: u128,
    pub maturity_date: u64,
}

#[derive(Clone, Debug, PartialEq, Eq)]
pub struct BorrowerPoolResponse {
    pub amount_borrowed: u128,
    pub maturity_date: u64,
}

/// The pool projection a query returns.
#[derive(Clone, Debug, PartialEq, Eq)]
pub struct Pool {
    pub liquidity: Coin,
}

/// The typed answer of the query surface; the host serialises it on the way
/// out.
#[derive(Clone, Debug, PartialEq, Eq)]
pub enum QueryAnswer {
    Escrow(EscrowResponse),
    Lender(LenderPoolResponse),
    Borrower(BorrowerPoolResponse),
    Pool(Pool),
}

} // verus!
