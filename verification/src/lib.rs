pub mod contract;
mod error;
pub mod execute;
pub mod laws;
pub mod msg;
pub mod query;
pub mod response;
pub mod state;

pub use crate::error::ContractError;
pub use crate::error::StdErr;

use vstd::prelude::*;

use crate::state::{ContractVersion, Store};

verus! {

/// Stamps the given contract name and version into the store's version
/// slot, as the host's migration bookkeeping expects.
pub fn set_contract_version(store: &mut Store, name: String, version: String) -> (r: Result<
    (),
    StdErr,
>)
    ensures
        r is Ok,
        *final(store) == (Store {
            contract_version: Some(ContractVersion { contract: name, version }),
            ..*old(store)
        }),
{
    store.contract_version = Some(ContractVersion { contract: name, version });
    Ok(())
}

} // verus!
