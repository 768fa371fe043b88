use vstd::prelude::*;

use crate::error::ContractError;
use crate::state::Ledger;

verus! {

pub const MAX_LIMIT: u32 = 30;

pub const DEFAULT_LIMIT: u32 = 10;

pub const MAX_ORDER: u64 = 10;

pub fn multiple() -> (r: u128)
    ensures
        r == 100,
{
    100u128
}

pub fn decimal() -> (r: u128)
    ensures
        r == 1000000,
{
    1000000u128
}

/// The authorization guard of every owner-gated operation: succeeds exactly
/// when `address` is the current owner, and never changes any state.
pub fn check_owner(ledger: &Ledger, address: &String) -> (r: Result<(), ContractError>)
    ensures
        r is Ok <==> ledger.is_owner(address@),
        r is Err ==> r == Err::<(), ContractError>(ContractError::Unauthorized),
{
    if *address == ledger.config.owner {
        Ok(())
    } else {
        Err(ContractError::Unauthorized)
    }
}

} // verus!
