use vstd::prelude::*;

verus! {

/// Typed failures returned by the ledger's operations.
#[derive(Clone, Debug, PartialEq, Eq)]
pub enum ContractError {
    /// The caller of an owner-gated operation is not the current owner.
    Unauthorized,
    /// The attached matching-currency amount is strictly below the
    /// configured minimum deposit fee.
    Insufficient,
    /// A staking query named an account that has never staked.
    NotFound,
    /// No coin in the designated currency was attached to a stake call.
    NoMatchingDeposit,
    /// The persisted contract identity tag does not match the expected one.
    CannotMigrate { previous_contract: String },
}

} // verus!
