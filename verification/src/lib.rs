//! Bridge controller for a certified NFT collection: per-collection
//! configuration record (pause flag, delegate, whitelist bitmap), the
//! administrative instructions that mutate it, and the burn-and-send
//! protocol that validates an NFT against the record, derives its
//! collection-relative token identifier from the metadata URI, and
//! produces the cross-chain message payload.
//!
//! The on-chain runtime (account validation, cross-program invocations
//! into the metadata and core-bridge programs) is outside this crate;
//! callers hand in the plain values read from the accounts and carry
//! out the invocations that the returned outcome describes.

pub mod admin;
pub mod bitmap;
pub mod burn_and_send;
pub mod error;
pub mod initialize;
pub mod instance;
pub mod keys;
pub mod message;
pub mod metadata;
pub mod uri;
