//! A verified model of a three-party conditional escrow over a fungible
//! asset: a sender reserves an amount for a receiver, and the reservation is
//! resolved exactly once, either by the sender pulling it back or by the
//! receiver collecting it.

pub mod accounts;
pub mod engine;
pub mod laws;
pub mod addressing;
pub mod key;

pub use engine::CompleteGrant;
pub use engine::EscrowError;
pub use engine::Initiate;
pub use engine::PullBackInstruction;
pub use engine::complete_grant;
pub use engine::initiate;
pub use engine::pull_back;
pub use engine::transfer_escrow_out;
pub use accounts::State;
pub use accounts::TokenAccount;
pub use key::Key;
