//! What the programs read of SPL token accounts and mints.
use vstd::prelude::*;

use crate::address::Address;

verus! {

/// The fields of an SPL token account that the programs check.
#[derive(Clone, Copy, Debug, PartialEq, Eq)]
pub struct TokenAccountInfo {
    /// Address of the token account.
    pub key: Address,
    /// The mint whose tokens the account holds.
    pub mint: Address,
    /// The authority that owns the tokens.
    pub owner: Address,
}

/// The fields of an SPL mint that the programs read.
#[derive(Clone, Copy, Debug, PartialEq, Eq)]
pub struct MintInfo {
    /// Address of the mint.
    pub key: Address,
    /// Number of decimals of the token.
    pub decimals: u8,
}

} // verus!
