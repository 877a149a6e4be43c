//! The registry: who owns it.

use vstd::prelude::*;
use crate::errors::ErrorCode;
use crate::pubkey::Pubkey;

verus! {

/// The registry's state: the one identity that may record verifications.
/// It is set once, when the registry is initialized.
#[derive(Clone, Copy, Debug, PartialEq, Eq)]
pub struct ProgramState {
    pub owner: Pubkey,
    pub bump: u8,
}

impl ProgramState {
    /// `caller` is the owner of the registry.
    pub open spec fn is_owner(self, caller: Pubkey) -> bool {
        caller == self.owner
    }

    /// The guard of the owner's instructions: passes the owner and nobody
    /// else.
    pub fn require_owner(&self, caller: &Pubkey) -> (result: Result<(), ErrorCode>)
        ensures
            result == if self.is_owner(*caller) {
                Ok::<(), ErrorCode>(())
            } else {
                Err(ErrorCode::UnAuthorizedOwner)
            },
    {
        if *caller == self.owner {
            Ok(())
        } else {
            Err(ErrorCode::UnAuthorizedOwner)
        }
    }
}

} // verus!
