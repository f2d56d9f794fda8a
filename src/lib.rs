//! A tamper-evident, append-only chain of records sealed by SHA-256 and a
//! proof-of-work search over a nonce.
mod block;
mod blockchain;
mod digest;
mod laws;
mod text;

pub use block::{Block, NONCE_LIMIT};
pub use blockchain::{Blockchain, ChainFault};
pub use laws::{
    broken_link_is_detected, built_chain_is_indexed, built_chain_is_linked,
    built_chain_is_valid, built_chain_meets_difficulty, hash_is_deterministic,
    mined_nonce_meets_target, tampering_is_detected,
};
pub use text::{append_decimal, has_zero_prefix, lower_hex};
