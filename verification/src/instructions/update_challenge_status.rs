//! Automated verification: the registry owner records a participant's
//! score.

use vstd::prelude::*;
use crate::errors::ErrorCode;
use crate::pubkey::Pubkey;
use crate::states::challenge::{
    Challenge, ChallengeAccount, ChallengeType, ChallengeVerification, ChallengeVerificationType,
};
use crate::states::program::ProgramState;
use crate::states::user::{Membership, UserChallengeAccount};

verus! {

/// Why a verification is rejected, or `None` where it is recorded. The
/// conditions are tested in this order: the caller owns the registry; the
/// participant has joined; the challenge has ended; the verification
/// window is still open; the challenge's goal is monitored and the
/// verification is a monitored one.
pub open spec fn verification_rejection(
    registry: ProgramState,
    challenge: Challenge,
    membership: Membership,
    caller: Pubkey,
    verification: ChallengeVerification,
    now: int,
) -> Option<ErrorCode> {
    if !registry.is_owner(caller) {
        Some(ErrorCode::UnAuthorizedOwner)
    } else if !membership.is_joined {
        Some(ErrorCode::UserDidNotParticipate)
    } else if !challenge.ended(now) {
        Some(ErrorCode::ChallengeNotEnded)
    } else if challenge.verification_closed(now) {
        Some(ErrorCode::ChallengeVerificationTimeEnded)
    } else if !(challenge.challenge_type.is_monitored()
        && verification.challenge_type is Monitored) {
        Some(ErrorCode::InvalidVerificationType)
    } else {
        None
    }
}

/// The membership after `verification` is recorded. A verification that
/// reports completion marks the goal completed and stores the score. One
/// that does not leaves the membership as it is: it does not take back a
/// completion recorded before, and a later verification may still report
/// completion while the window is open.
pub open spec fn verified(membership: Membership, verification: ChallengeVerification) -> Membership {
    match verification.challenge_type {
        ChallengeVerificationType::Monitored { score, is_completed: true } => Membership {
            is_challenge_completed: true,
            score,
            ..membership
        },
        _ => membership,
    }
}

/// The records that a recorded verification runs against: the caller, the
/// registry, the challenge and the membership that is verified.
#[derive(Clone, Debug, PartialEq, Eq)]
pub struct UpdateChallengeStatus {
    pub signer: Pubkey,
    pub state: ProgramState,
    pub challenge_account: ChallengeAccount,
    pub user_challenge_account: UserChallengeAccount,
}

impl UpdateChallengeStatus {
    /// [`verification_rejection`] on these records.
    pub open spec fn rejection(self, verification: ChallengeVerification, now: int) -> Option<
        ErrorCode,
    > {
        verification_rejection(
            self.state,
            self.challenge_account@,
            self.user_challenge_account@,
            self.signer,
            verification,
            now,
        )
    }

    /// Records the owner's verification of a participant's goal at
    /// `current_time`.
    ///
    /// The verification is recorded exactly when [`verification_rejection`]
    /// finds no reason against it, and the membership is then
    /// [`verified`]. Only the membership can change. A rejected
    /// verification changes nothing.
    ///
    /// `_challenge_id` and `_user_address` are the challenge and the
    /// participant under which the records were resolved.
    pub fn update_challenge_status(
        &mut self,
        _challenge_id: u64,
        _user_address: Pubkey,
        challenge_verification: ChallengeVerification,
        current_time: i64,
    ) -> (result: Result<(), ErrorCode>)
        ensures
            match result {
                Ok(()) => {
                    &&& old(self).rejection(challenge_verification, current_time as int) is None
                    &&& final(self).user_challenge_account@ == verified(
                        old(self).user_challenge_account@,
                        challenge_verification,
                    )
                    &&& final(self).signer == old(self).signer
                    &&& final(self).state == old(self).state
                    &&& final(self).challenge_account == old(self).challenge_account
                },
                Err(code) => {
                    &&& old(self).rejection(challenge_verification, current_time as int) == Some(
                        code,
                    )
                    &&& *final(self) == *old(self)
                },
            },
    {
        if let Err(code) = self.state.require_owner(&self.signer) {
            return Err(code);
        }
        if !self.user_challenge_account.is_joined {
            return Err(ErrorCode::UserDidNotParticipate);
        }
        if !self.challenge_account.ended(current_time) {
            return Err(ErrorCode::ChallengeNotEnded);
        }
        if self.challenge_account.verification_closed(current_time) {
            return Err(ErrorCode::ChallengeVerificationTimeEnded);
        }
        match (
            self.challenge_account.challenge_information.challenge_type,
            challenge_verification.challenge_type,
        ) {
            (
                ChallengeType::GoogleFit { .. },
                ChallengeVerificationType::Monitored { score, is_completed },
            ) => {
                if is_completed {
                    self.user_challenge_account.is_challenge_completed = true;
                    self.user_challenge_account.score = score;
                }
                Ok(())
            },
            _ => Err(ErrorCode::InvalidVerificationType),
        }
    }
}

} // verus!
