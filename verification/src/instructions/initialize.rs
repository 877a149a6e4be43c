//! Bootstrapping the registry.

use vstd::prelude::*;
use crate::errors::ErrorCode;
use crate::pubkey::Pubkey;
use crate::states::program::ProgramState;

verus! {

/// The bump seeds of the records that initializing the registry allocates.
#[derive(Clone, Copy, Debug, PartialEq, Eq)]
pub struct InitializeBumps {
    pub state: u8,
}

/// The records that initializing the registry runs against: the caller and
/// the registry's state.
#[derive(Clone, Copy, Debug, PartialEq, Eq)]
pub struct Initialize {
    pub signer: Pubkey,
    pub state: ProgramState,
}

impl Initialize {
    /// Makes the signer the owner of the registry. This always succeeds.
    pub fn initialize(&mut self, bumps: &InitializeBumps) -> (result: Result<(), ErrorCode>)
        ensures
            result is Ok,
            final(self).state == (ProgramState { owner: old(self).signer, bump: bumps.state }),
            final(self).signer == old(self).signer,
    {
        self.state.owner = self.signer;
        self.state.bump = bumps.state;
        Ok(())
    }
}

} // verus!
