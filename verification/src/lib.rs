//! Transaction-authorization and chain-anchoring core of a blockchain node.
//!
//! The crate models how a transaction proves the right to spend from an
//! account (single-signature and multi-signature spending conditions,
//! including sponsored fee payment), how asset-transfer post-conditions are
//! enforced, and how blocks and microblocks are structured and incrementally
//! assembled under hard size budgets.

pub mod address;
pub mod auth;
pub mod auth_verify;
pub mod block;
pub mod builder;
pub mod clarity;
pub mod codec;
pub mod crypto;
pub mod error;
pub mod hashes;
pub mod keys;
pub mod post;
pub mod tx;

use vstd::prelude::*;

verus! {

/// Number of bytes in a RIPEMD-160-sized hash.
pub const HASH160_ENCODED_SIZE: u32 = 20;

} // verus!
