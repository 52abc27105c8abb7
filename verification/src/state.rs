use vstd::prelude::*;

verus! {

/// The instance-wide configuration: the administrator and the sole
/// fungible-token contract whose notifications carry value in.
#[derive(Clone, Debug, PartialEq, Eq)]
pub struct Config {
    pub owner: String,
    pub token: String,
}

/// The collective vault: the authoritative count of free tokens backing the
/// pool. Lend and earn deposits credit it, borrow, release and withdraw
/// debit it.
#[derive(Clone, Copy, Debug, PartialEq, Eq)]
pub struct Vault {
    pub total_tokens: u128,
}

impl Default for Vault {
    /// An absent vault counts as holding no tokens.
    fn default() -> (v: Vault)
        ensures
            v.total_tokens == 0,
    {
        Vault { total_tokens: 0 }
    }
}

/// The single lender slot: who lent, how much, and the block time from which
/// the position may be released.
#[derive(Clone, Debug, PartialEq, Eq)]
pub struct LenderInfo {
    pub lender: String,
    pub amount_lent: u128,
    pub maturity_date: u64,
}

/// The single borrower slot: who borrowed, how much, and when the debt
/// matures.
#[derive(Clone, Debug, PartialEq, Eq)]
pub struct BorrowerInfo {
    pub borrower: String,
    pub amount_borrowed: u128,
    pub maturity_date: u64,
}

/// A denominated token amount, as the host ledger writes one.
#[derive(Clone, Debug, PartialEq, Eq)]
pub struct Coin {
    pub denom: String,
    pub amount: u128,
}

/// A pool balance record, the shape the query surface answers with.
#[derive(Clone, Debug, PartialEq, Eq)]
pub struct Pool {
    pub liquidity: Coin,
}

/// A pledged collateral position.
#[derive(Clone, Debug, PartialEq, Eq)]
pub struct Collateral {
    pub owner: String,
    pub amount: Coin,
}

/// Coin-denominated request forms kept for callers of the storage layer.
#[derive(Clone, Debug, PartialEq, Eq)]
pub enum ExecuteMsg {
    AddToEscrow { amount: Coin },
    BorrowFromPool { amount: Coin },
    AddCollateral { amount: Coin },
    ReceiveForCollateral { amount: Coin },
}

/// The single escrow slot: a time-locked deposit. `time` is the absolute
/// block time from which the deposit may be redeemed.
#[derive(Clone, Debug, PartialEq, Eq)]
pub struct Escrow {
    pub user: String,
    pub amount: u128,
    pub time: u64,
}

/// The single earn slot: an open-ended deposit that may be withdrawn at
/// will. `last_updated` is the block time of its creation.
#[derive(Clone, Debug, PartialEq, Eq)]
pub struct Earnings {
    pub user: String,
    pub amount_supplied: u128,
    pub last_updated: u64,
}

/// The counter record of the administrative surface.
#[derive(Clone, Debug, PartialEq, Eq)]
pub struct State {
    pub count: i32,
    pub owner: String,
}

/// The version stamp the host's migration bookkeeping reads.
#[derive(Clone, Debug, PartialEq, Eq)]
pub struct ContractVersion {
    pub contract: String,
    pub version: String,
}

/// The contract's persistent state: one typed slot per record kind, each
/// holding at most one record. The host commits or discards a transaction's
/// writes atomically; a `Store` value is the state as one transaction sees
/// it. The vault is the single authoritative liquidity counter: the engines
/// move it, and the pool query projects it.
#[derive(Clone, Debug, PartialEq, Eq)]
pub struct Store {
    pub config: Option<Config>,
    pub escrow: Option<Escrow>,
    pub collateral: Option<Collateral>,
    pub vault: Option<Vault>,
    pub lender: Option<LenderInfo>,
    pub borrower: Option<BorrowerInfo>,
    pub earnings: Option<Earnings>,
    pub state: Option<State>,
    pub contract_version: Option<ContractVersion>,
}

impl Store {
    /// Every slot of a fresh store is empty.
    pub open spec fn spec_empty() -> Store {
        Store {
            config: None,
            escrow: None,
            collateral: None,
            vault: None,
            lender: None,
            borrower: None,
            earnings: None,
            state: None,
            contract_version: None,
        }
    }

    pub fn new() -> (s: Store)
        ensures
            s == Store::spec_empty(),
    {
        Store {
            config: None,
            escrow: None,
            collateral: None,
            vault: None,
            lender: None,
            borrower: None,
            earnings: None,
            state: None,
            contract_version: None,
        }
    }
}

/// The free liquidity of the pool: what the vault holds, with an absent
/// vault counting as zero.
pub open spec fn pool_liquidity(s: Store) -> u128 {
    if s.vault is Some {
        s.vault->0.total_tokens
    } else {
        0
    }
}

} // verus!
