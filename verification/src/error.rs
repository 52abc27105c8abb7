use vstd::prelude::*;

verus! {

/// A host-level failure carried as text: a missing record, a malformed
/// payload, an encoding fault.
#[derive(Clone, Debug, PartialEq, Eq)]
pub struct StdErr {
    pub msg: String,
}

impl StdErr {
    pub fn generic_err(msg: &str) -> (e: StdErr)
        ensures
            e.msg@ == msg@,
    {
        StdErr { msg: msg.to_owned() }
    }
}

/// The error is a host-level failure carrying exactly this text.
pub open spec fn is_std_msg(e: ContractError, msg: Seq<char>) -> bool {
    e matches ContractError::Std(se) && se.msg@ == msg
}

/// Every way a request can abort. Each variant maps to one stable
/// user-visible string, which `message` returns.
#[derive(Clone, Debug, PartialEq, Eq)]
pub enum ContractError {
    Std(StdErr),
    Unauthorized {},
    ExistingEscrow {},
    NoExistingEscrow {},
    NotExpired {},
    InsufficientFunds {},
    DurationNotMet {},
    ExistingLender {},
    ExistingBorrower {},
    InvalidZeroAmount {},
}

impl ContractError {
    /// The stable on-wire string of each error kind.
    pub fn message(&self) -> (s: String)
        ensures
            s@ == self.spec_message(),
    {
        match self {
            ContractError::Std(e) => e.msg.clone(),
            ContractError::Unauthorized {} => "Unauthorized".to_owned(),
            ContractError::ExistingEscrow {} => "User has existing escrow".to_owned(),
            ContractError::NoExistingEscrow {} => "User has no existing escrow".to_owned(),
            ContractError::NotExpired {} => "Escrow has not expired".to_owned(),
            ContractError::InsufficientFunds {} => "Insufficent Funds".to_owned(),
            ContractError::DurationNotMet {} => "Duration Not Met".to_owned(),
            ContractError::ExistingLender {} => "User has existing lender".to_owned(),
            ContractError::ExistingBorrower {} => "User has existing borrower".to_owned(),
            ContractError::InvalidZeroAmount {} => "Invalid zero amount".to_owned(),
        }
    }

    pub open spec fn spec_message(&self) -> Seq<char> {
        match self {
            ContractError::Std(e) => e.msg@,
            ContractError::Unauthorized {} => "Unauthorized"@,
            ContractError::ExistingEscrow {} => "User has existing escrow"@,
            ContractError::NoExistingEscrow {} => "User has no existing escrow"@,
            ContractError::NotExpired {} => "Escrow has not expired"@,
            ContractError::InsufficientFunds {} => "Insufficent Funds"@,
            ContractError::DurationNotMet {} => "Duration Not Met"@,
            ContractError::ExistingLender {} => "User has existing lender"@,
            ContractError::ExistingBorrower {} => "User has existing borrower"@,
            ContractError::InvalidZeroAmount {} => "Invalid zero amount"@,
        }
    }
}

} // verus!
