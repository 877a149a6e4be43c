//! Vote records: one per voter and judged membership.

use vstd::prelude::*;
use crate::pubkey::Pubkey;

verus! {

/// The vote of one voter on one participant's membership in one challenge.
///
/// `is_voted` is a one-shot flag: once it is set, the same voter cannot
/// judge the same membership again.
#[derive(Clone, Copy, Debug, PartialEq, Eq)]
pub struct VoteAccount {
    pub challenge_address: Pubkey,
    pub user_address: Pubkey,
    pub is_voted: bool,
    pub is_completed: bool,
    pub bump: u8,
    pub voter_address: Pubkey,
}

} // verus!
