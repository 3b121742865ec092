//! Privacy Pass humanity tokens: an Issuer blindly signs batches of
//! client-chosen tokens and a Wallet later redeems them, unlinkably,
//! against an arbitrary payload.

pub mod crypto;
pub mod errors;
pub mod issuer;
pub mod models;
pub mod wallet;
