//! A minimal on-chain staking ledger.
//!
//! The ledger accepts native-currency deposits ("stakes") from accounts,
//! enforces a configurable minimum deposit fee, tracks per-account staked
//! balances, and lets a privileged owner reconfigure parameters and withdraw
//! funds. The core is the state-transition and authorization logic: how
//! configuration, ownership, and per-account balances evolve under a fixed
//! set of operations. Storage persistence, message (de)serialization and
//! host-runtime wiring are left to the surrounding environment.

pub mod contract;
pub mod error;
pub mod msg;
pub mod state;
pub mod util;
