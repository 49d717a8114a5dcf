//! A slashing-protected remote signer core for proof-of-stake validators.
//!
//! The library decides whether signing a block proposal or attestation with a
//! given validator key would be an equivocation ("slashable"), keeps the
//! per-key protection history that those decisions are made against, and
//! drives one signing request through its evaluate / record / sign phases so
//! that no signature can be produced without its protection record.

pub mod coordinator;
pub mod evaluator;
pub mod keys;
pub mod laws;
pub mod messages;
pub mod records;
pub mod store;
