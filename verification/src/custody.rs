//! The interface to the token custody: what the engine asks it to do.

use vstd::prelude::*;
use crate::pubkey::Pubkey;

verus! {

/// The token that stakes are paid in, with its decimal precision.
#[derive(Clone, Copy, Debug, PartialEq, Eq)]
pub struct Mint {
    pub address: Pubkey,
    pub decimals: u8,
}

/// One atomic movement of tokens between two balance holders.
///
/// `amount` is in the smallest unit of the mint, whose precision the
/// custody checks against `decimals`. The custody applies the whole
/// transfer or fails it as a whole.
#[derive(Clone, Copy, Debug, PartialEq, Eq)]
pub struct Transfer {
    pub from: Pubkey,
    pub mint: Pubkey,
    pub to: Pubkey,
    pub authority: Pubkey,
    pub amount: u64,
    pub decimals: u8,
}

} // verus!
