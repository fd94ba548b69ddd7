//! A fungible-value ledger: balances, delegated allowances, minting and
//! burning over 256-bit amounts, with total supply kept equal to the sum of
//! all balances.
pub mod amount;
pub mod counter;
pub mod events;
pub mod laws;
pub mod ledger;
pub mod store;

pub use amount::Amount;
pub use counter::ContractC;
pub use events::{Flipped, OwnershipTransferred};
pub use ledger::{PSP22Error, PspCoin};
pub use store::AccountId;
