//! Builders for the instructions of a governance program, with the byte format of
//! their data and the addresses that they derive.
pub mod pubkey;
pub mod codec;
pub mod address;
pub mod state;
pub mod instruction;
pub mod builders;
pub mod laws;
