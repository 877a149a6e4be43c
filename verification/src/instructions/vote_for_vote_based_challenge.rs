//! Community verification: a peer judges a participant's goal by vote.

use vstd::prelude::*;
use crate::errors::ErrorCode;
use crate::pubkey::Pubkey;
use crate::states::challenge::{Challenge, ChallengeAccount, ChallengeType, ChallengeVerificationType};
use crate::states::user::{Membership, UserChallengeAccount};
use crate::states::vote::VoteAccount;

verus! {

/// Why a vote is rejected, or `None` where it is taken. The conditions are
/// tested in this order: the judged participant has joined; the voter is
/// not the judged participant; the challenge has ended; the verification
/// window is still open; the voter has not judged this membership before;
/// the verification is a vote and the challenge's goal is judged by vote.
pub open spec fn vote_rejection(
    challenge: Challenge,
    membership: Membership,
    vote: VoteAccount,
    voter: Pubkey,
    verification: ChallengeVerificationType,
    now: int,
) -> Option<ErrorCode> {
    if !membership.is_joined {
        Some(ErrorCode::UserDidNotParticipate)
    } else if membership.user_address == voter {
        Some(ErrorCode::VoterIsVotingForHimself)
    } else if !challenge.ended(now) {
        Some(ErrorCode::ChallengeNotEnded)
    } else if challenge.verification_closed(now) {
        Some(ErrorCode::ChallengeVerificationTimeEnded)
    } else if vote.is_voted {
        Some(ErrorCode::UserHasAlreadyVoted)
    } else if !(verification is VoteBased && challenge.challenge_type.is_vote_based()) {
        Some(ErrorCode::InvalidVerificationType)
    } else {
        None
    }
}

/// The membership after one more vote: in favour where `is_completed`,
/// against otherwise. Nothing else changes; the tally is read when the
/// stake is claimed.
pub open spec fn tallied(membership: Membership, is_completed: bool) -> Membership {
    if is_completed {
        Membership { vote_in_positive: membership.vote_in_positive + 1, ..membership }
    } else {
        Membership { vote_in_negative: membership.vote_in_negative + 1, ..membership }
    }
}

/// The vote record of `voter` on the membership of `judged` once the vote
/// is cast.
pub open spec fn cast(
    challenge_address: Pubkey,
    judged: Pubkey,
    voter: Pubkey,
    is_completed: bool,
    bump: u8,
) -> VoteAccount {
    VoteAccount {
        challenge_address,
        user_address: judged,
        is_voted: true,
        is_completed,
        bump,
        voter_address: voter,
    }
}

/// The bump seeds of the records that a vote may create.
#[derive(Clone, Copy, Debug, PartialEq, Eq)]
pub struct VoteForVoteBasedChallengeBumps {
    pub vote_account: u8,
}

/// The records that a vote runs against: the voter, the challenge with its
/// address, the membership that is judged, and the voter's vote record for
/// that membership.
#[derive(Clone, Debug, PartialEq, Eq)]
pub struct VoteForVoteBasedChallenge {
    pub signer: Pubkey,
    pub challenge_account: ChallengeAccount,
    pub challenge_address: Pubkey,
    pub user_challenge_account: UserChallengeAccount,
    pub vote_account: VoteAccount,
}

impl VoteForVoteBasedChallenge {
    /// [`vote_rejection`] on these records.
    pub open spec fn rejection(
        &self,
        verification: ChallengeVerificationType,
        now: int,
    ) -> Option<ErrorCode> {
        vote_rejection(
            self.challenge_account@,
            self.user_challenge_account@,
            self.vote_account,
            self.signer,
            verification,
            now,
        )
    }

    /// The tally that the vote adds to can take one more vote.
    pub open spec fn spec_has_room(&self, verification: ChallengeVerificationType) -> bool {
        match verification {
            ChallengeVerificationType::VoteBased { is_completed: true } =>
                self.user_challenge_account.vote_in_positive < u64::MAX,
            ChallengeVerificationType::VoteBased { is_completed: false } =>
                self.user_challenge_account.vote_in_negative < u64::MAX,
            ChallengeVerificationType::Monitored { .. } => true,
        }
    }

    /// Decides [`Self::spec_has_room`].
    #[verifier::when_used_as_spec(spec_has_room)]
    pub fn has_room(&self, verification: ChallengeVerificationType) -> (r: bool)
        ensures
            r == self.spec_has_room(verification),
    {
        match verification {
            ChallengeVerificationType::VoteBased { is_completed } => {
                if is_completed {
                    self.user_challenge_account.vote_in_positive < u64::MAX
                } else {
                    self.user_challenge_account.vote_in_negative < u64::MAX
                }
            },
            ChallengeVerificationType::Monitored { .. } => true,
        }
    }

    /// Decides a vote at `current_time` without casting it: `Ok` with the
    /// voter's judgement where the vote would be taken, or the reason for
    /// which it is rejected.
    pub fn prepare(
        &self,
        challenge_verification: ChallengeVerificationType,
        current_time: i64,
    ) -> (decision: Result<bool, ErrorCode>)
        ensures
            match decision {
                Ok(is_completed) => {
                    &&& self.rejection(challenge_verification, current_time as int) is None
                    &&& challenge_verification == (ChallengeVerificationType::VoteBased {
                        is_completed,
                    })
                },
                Err(code) => self.rejection(challenge_verification, current_time as int)
                    == Some(code),
            },
    {
        if !self.user_challenge_account.is_joined {
            return Err(ErrorCode::UserDidNotParticipate);
        }
        if self.user_challenge_account.user_address == self.signer {
            return Err(ErrorCode::VoterIsVotingForHimself);
        }
        if !self.challenge_account.ended(current_time) {
            return Err(ErrorCode::ChallengeNotEnded);
        }
        if self.challenge_account.verification_closed(current_time) {
            return Err(ErrorCode::ChallengeVerificationTimeEnded);
        }
        if self.vote_account.is_voted {
            return Err(ErrorCode::UserHasAlreadyVoted);
        }
        match challenge_verification {
            ChallengeVerificationType::VoteBased { is_completed } => {
                match self.challenge_account.challenge_information.challenge_type {
                    ChallengeType::VoteBased | ChallengeType::Github { .. } => Ok(is_completed),
                    ChallengeType::GoogleFit { .. } => Err(ErrorCode::InvalidVerificationType),
                }
            },
            ChallengeVerificationType::Monitored { .. } => Err(ErrorCode::InvalidVerificationType),
        }
    }

    /// Casts the signer's vote on the judged membership at `current_time`.
    ///
    /// The vote is taken exactly when [`vote_rejection`] finds no reason
    /// against it. It then adds one to the tally that it speaks for and
    /// fills the vote record, whose flag keeps the voter from judging the
    /// same membership again. A rejected vote changes nothing.
    ///
    /// `_challenge_id` and `_user_address` are the challenge and the judged
    /// participant under which the records were resolved. The tally must
    /// have room for the vote where the vote is not rejected.
    pub fn vote_for_vote_based_challenge(
        &mut self,
        _challenge_id: u64,
        _user_address: Pubkey,
        challenge_verification: ChallengeVerificationType,
        bumps: &VoteForVoteBasedChallengeBumps,
        current_time: i64,
    ) -> (result: Result<(), ErrorCode>)
        requires
            old(self).rejection(challenge_verification, current_time as int) is None ==> old(
                self,
            ).has_room(challenge_verification),
        ensures
            match result {
                Ok(()) => {
                    &&& old(self).rejection(challenge_verification, current_time as int) is None
                    &&& challenge_verification matches ChallengeVerificationType::VoteBased {
                        is_completed,
                    }
                    &&& final(self).user_challenge_account@ == tallied(
                        old(self).user_challenge_account@,
                        is_completed,
                    )
                    &&& final(self).vote_account == cast(
                        old(self).challenge_address,
                        old(self).user_challenge_account.user_address,
                        old(self).signer,
                        is_completed,
                        bumps.vote_account,
                    )
                    &&& final(self).signer == old(self).signer
                    &&& final(self).challenge_account == old(self).challenge_account
                    &&& final(self).challenge_address == old(self).challenge_address
                },
                Err(code) => {
                    &&& old(self).rejection(challenge_verification, current_time as int) == Some(
                        code,
                    )
                    &&& *final(self) == *old(self)
                },
            },
    {
        let is_completed = match self.prepare(challenge_verification, current_time) {
            Ok(is_completed) => is_completed,
            Err(code) => {
                return Err(code);
            },
        };
        if is_completed {
            self.user_challenge_account.vote_in_positive += 1;
        } else {
            self.user_challenge_account.vote_in_negative += 1;
        }
        self.vote_account.is_voted = true;
        self.vote_account.is_completed = is_completed;
        self.vote_account.bump = bumps.vote_account;
        self.vote_account.challenge_address = self.challenge_address;
        self.vote_account.user_address = self.user_challenge_account.user_address;
        self.vote_account.voter_address = self.signer;
        Ok(())
    }
}

} // verus!
