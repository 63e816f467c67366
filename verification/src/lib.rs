//! A commit-reveal truth oracle: economically bonded participants commit
//! hashed answers to a data query, later reveal them, and a weighted-consensus
//! procedure with a lottery drawn from participant-supplied randomness selects
//! and pays a winner. Dishonest or absent participants are slashed; failed
//! consensus escalates through a two-level dispute ladder. A parimutuel
//! prediction market can be attached to a finalized query result.
//!
//! All state lives in plain data types; every operation is a deadline-guarded,
//! atomic transition with a verified contract. The host environment supplies
//! identities, timestamps and fund transfers.

pub mod constants;
pub mod dispute;
pub mod errors;
pub mod hashing;
pub mod market;
pub mod participant;
pub mod query;
pub mod registry;
pub mod settlement;
