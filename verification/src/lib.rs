//! Passphrase-based file protection: authenticated encryption of byte
//! buffers, diceware passphrase generation, SHA-512 digests rendered as
//! lowercase hex, and constant-time digest comparison.
//!
//! File and terminal handling live with the caller; every function here
//! works on plain values (names, byte buffers, strings) and carries a
//! verified contract.

pub mod cipher;
pub mod codec;
pub mod digest;
pub mod errors;
pub mod menu;
pub mod passphrase;

pub use errors::AppError;
pub use errors::AppResult;
