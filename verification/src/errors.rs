//! The errors that the pool's instructions return.

use vstd::prelude::*;

verus! {

/// The errors of the pool program.
#[derive(Debug, Clone, Copy, PartialEq, Eq)]
pub enum ErrorCode {
    IncorrectTokenAddress,
    IncorrectMintAddress,
    IncorrectOwnerAddress,
    InvalidProof,
    EmptyShare,
    BadMetadata,
    BadRuleset,
}

impl ErrorCode {
    /// The message shown with the error.
    pub fn message(&self) -> (text: &'static str)
        ensures
            text@ == match *self {
                ErrorCode::IncorrectTokenAddress => "token address is incorrect."@,
                ErrorCode::IncorrectMintAddress => "mint address is incorrect."@,
                ErrorCode::IncorrectOwnerAddress => "owner address is incorrect."@,
                ErrorCode::InvalidProof => "proof is incorrect."@,
                ErrorCode::EmptyShare => "you have no share"@,
                ErrorCode::BadMetadata => "Bad Metadata"@,
                ErrorCode::BadRuleset => "Bad Ruleset"@,
            },
    {
        match self {
            ErrorCode::IncorrectTokenAddress => "token address is incorrect.",
            ErrorCode::IncorrectMintAddress => "mint address is incorrect.",
            ErrorCode::IncorrectOwnerAddress => "owner address is incorrect.",
            ErrorCode::InvalidProof => "proof is incorrect.",
            ErrorCode::EmptyShare => "you have no share",
            ErrorCode::BadMetadata => "Bad Metadata",
            ErrorCode::BadRuleset => "Bad Ruleset",
        }
    }
}

} // verus!
