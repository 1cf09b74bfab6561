//! The pool's instructions. Each takes the accounts it reads as plain values,
//! updates the accounts it writes, and returns the transfers to make, in order.
//! An `Err` means that the instruction fails and changes nothing.

pub mod change_root_nft;
pub mod decrease_liquidity;
pub mod increase_liquidity;
pub mod init_config;
pub mod init_pool;
pub mod swap_instruction;


pub use change_root_nft::change_root;
pub use decrease_liquidity::decrease_liquidity;
pub use increase_liquidity::increase_liquidity;
pub use init_config::initialize_config;
pub use init_pool::initialize_pool;
pub use swap_instruction::{nft_to_token, token_to_nft};
