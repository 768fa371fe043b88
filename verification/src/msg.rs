use vstd::prelude::*;

verus! {

/// A single attached coin: a denomination and a non-negative amount.
#[derive(Clone, Debug, PartialEq, Eq)]
pub struct Coin {
    pub denom: String,
    pub amount: u128,
}

/// Request to create the singleton configuration.
#[derive(Clone, Debug, PartialEq, Eq)]
pub struct InstantiateMsg {
    pub fee: u128,
}

/// The mutating operations of the ledger.
#[derive(Clone, Debug, PartialEq, Eq)]
pub enum ExecuteMsg {
    UpdateOwner { owner: String },
    UpdateFee { fee: u128 },
    Stake {},
    WithdrawSei { amount: u128 },
}

/// The read-only queries of the ledger.
#[derive(Clone, Debug, PartialEq, Eq)]
pub enum QueryMsg {
    GetConfig {},
    GetStaking { address: String },
}

/// A directive to transfer `amount` of `denom` to `to_address`; carrying it
/// out is the surrounding environment's funds-transfer effect.
#[derive(Clone, Debug, PartialEq, Eq)]
pub struct TransferDirective {
    pub to_address: String,
    pub denom: String,
    pub amount: u128,
}

/// What a successful mutating operation acknowledges.
#[derive(Clone, Debug, PartialEq, Eq)]
pub enum ExecuteAck {
    /// The configuration's owner was replaced with `owner`.
    OwnerUpdated { owner: String },
    /// The configuration's fee was replaced with `fee`.
    FeeUpdated { fee: u128 },
    /// The stake record of `user` now holds the attached amount.
    Staked { user: String },
    /// An owner drawdown: the environment should perform `transfer`.
    Withdrawn { transfer: TransferDirective },
}

/// What a query returns.
#[derive(Clone, Debug, PartialEq, Eq)]
pub enum QueryAnswer {
    Config(crate::state::ConfigResponse),
    Staking(u128),
}

} // verus!
