//! An append-only ledger of credentials: content fingerprints, signed
//! assertions, hash-linked blocks and the validity query over the chain.
pub mod blockchain;
pub mod credential;
pub mod dates;
pub mod hash;
pub mod keys;
