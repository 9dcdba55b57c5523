//! Search for an Ed25519 keypair whose Base58-encoded public key begins with
//! a chosen prefix.
//!
//! The library holds the decisions of the search: how a candidate key is
//! encoded and judged against the match predicate, how a worker counts its
//! tries and when it reports progress, and how a match is published once.
//! Threads, clocks and output stay with the caller.
pub mod text;
pub mod predicate;
pub mod duration;
pub mod keys;
pub mod worker;
pub mod coordination;
