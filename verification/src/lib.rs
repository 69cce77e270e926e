//! A single-user profile record store: creation with validated initial
//! fields, partial updates with per-field re-validation, and deletion gated
//! by an explicit confirmation flag.
//!
//! The record lives in a per-identity slot ([`account::UserAccount`]); the
//! surrounding runtime owns key derivation, signature checks and persistence,
//! and hands this library plain values.

pub mod account;
pub mod errors;
pub mod instructions;
pub mod state;

pub use account::UserAccount;
pub use errors::ProfileError;
pub use instructions::delete_user;
pub use instructions::initialize_user;
pub use instructions::update_user;
pub use state::UserData;
