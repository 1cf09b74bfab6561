//! Verified core of the Joker swap pool: Merkle membership proofs over
//! Keccak-256, fee splitting, and the state transitions and transfer plans
//! of each pool instruction.

pub mod contexts;
pub mod errors;
pub mod fees;
pub mod keccak;
pub mod states;
pub mod transfers;
pub mod utils;

pub use errors::ErrorCode;
pub use utils::verify_hash::verify;
