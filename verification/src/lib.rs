//! A minimal proof-of-work ledger: an append-only chain of data blocks,
//! each bound to its predecessor by a SHA-256 hash, where appending a block
//! requires finding a nonce whose resulting hash has a required number of
//! leading zero hex digits.

pub mod block;
pub mod blockchain;
pub mod hashing;
