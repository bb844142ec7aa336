//! A two-party escrow over a ledger of asset holdings.
//!
//! A maker locks a deposit of one asset in a vault and names the amount of a
//! second asset it wants in return. A taker pays that amount and receives the
//! deposit, or the maker cancels and takes the deposit back.

pub mod address;
pub mod instructions;
pub mod laws;
pub mod ledger;
pub mod rules;
pub mod state;
pub mod supply;

pub use address::find_record_address;
pub use address::find_vault_address;
pub use address::Address;
pub use instructions::make;
pub use instructions::open;
pub use instructions::refund;
pub use instructions::take;
pub use ledger::Ledger;
pub use state::Escrow;
pub use state::EscrowError;
pub use state::Holding;
pub use state::Make;
pub use state::Refund;
pub use state::Take;
