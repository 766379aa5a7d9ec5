//! Authentication-and-content-submission core for a social posting service.
//!
//! The library issues and verifies signed session tokens, enforces account
//! uniqueness and password policy, gates post creation on a valid,
//! subject-matching token, and offers a case-insensitive tag lookup.
//! The document collections are modelled by an in-memory [`store::Store`];
//! password hashing and token signing are done by outside crates behind
//! trusted wrappers with stated contracts.

pub mod account;
pub mod password;
pub mod post;
pub mod store;
pub mod tags;
pub mod token;
