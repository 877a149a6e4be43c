//! The challenge registry: creating a challenge.

use vstd::prelude::*;
use crate::errors::ErrorCode;
use crate::pubkey::Pubkey;
use crate::states::challenge::{
    Challenge, ChallengeAccount, ChallengeInformation, ChallengeType, MAX_PRIVATE_GROUP,
};

verus! {

/// Why a challenge is not created, or `None` where it is. The conditions
/// are tested in this order: a private challenge has somebody on its
/// allow-list; the start lies in the future; the end lies after the start.
pub open spec fn creation_rejection(
    start_time: int,
    end_time: int,
    is_private: bool,
    private_group: Seq<Pubkey>,
    now: int,
) -> Option<ErrorCode> {
    if is_private && private_group.len() == 0 {
        Some(ErrorCode::PrivateGroupEmpty)
    } else if start_time <= now {
        Some(ErrorCode::StartTimeInThePast)
    } else if end_time <= start_time {
        Some(ErrorCode::EndTimeBeforeStartTime)
    } else {
        None
    }
}

/// The bump seeds of the records that creating a challenge allocates.
#[derive(Clone, Copy, Debug, PartialEq, Eq)]
pub struct InitializeChallengeBumps {
    pub challenge_account: u8,
    pub treasury_account: u8,
}

/// The records that creating a challenge runs against: the challenge
/// record to fill, and the address of the treasury that was set up to hold
/// the challenge's stakes.
#[derive(Clone, Debug, PartialEq, Eq)]
pub struct InitializeChallenge {
    pub challenge_account: ChallengeAccount,
    pub treasury_account: Pubkey,
}

impl InitializeChallenge {
    /// The challenge that is created from the given terms: nobody has
    /// joined, nothing is pooled, and it is bound to this treasury.
    pub open spec fn created(
        self,
        challenge_id: u64,
        challenge_type: ChallengeType,
        challenge_name: Seq<char>,
        challenge_description: Seq<char>,
        start_time: int,
        end_time: int,
        money_per_participant: nat,
        is_private: bool,
        private_group: Seq<Pubkey>,
        bumps: InitializeChallengeBumps,
    ) -> Challenge {
        Challenge {
            challenge_id,
            challenge_type,
            challenge_name,
            challenge_description,
            start_time,
            end_time,
            total_participants: 0,
            total_votes: 0,
            money_pool: 0,
            money_per_participant,
            treasury_account: self.treasury_account,
            treasury_bump: bumps.treasury_account,
            is_private,
            private_group,
            bump: bumps.challenge_account,
        }
    }

    /// Creates a challenge at `current_time`.
    ///
    /// The challenge is created exactly when [`creation_rejection`] finds
    /// no reason against it. The record then holds the given terms with
    /// all totals at zero, and is a well-formed challenge. A rejected
    /// creation changes nothing.
    ///
    /// The allow-list must fit the record: it holds at most
    /// [`MAX_PRIVATE_GROUP`] identities.
    pub fn initialize_challenge(
        &mut self,
        challenge_id: u64,
        challenge_type: ChallengeType,
        challenge_name: String,
        challenge_description: String,
        start_time: i64,
        end_time: i64,
        money_per_participant: u64,
        is_private: bool,
        private_group: Vec<Pubkey>,
        bumps: &InitializeChallengeBumps,
        current_time: i64,
    ) -> (result: Result<(), ErrorCode>)
        requires
            private_group.len() <= MAX_PRIVATE_GROUP,
        ensures
            match result {
                Ok(()) => {
                    &&& creation_rejection(
                        start_time as int,
                        end_time as int,
                        is_private,
                        private_group@,
                        current_time as int,
                    ) is None
                    &&& final(self).challenge_account@ == old(self).created(
                        challenge_id,
                        challenge_type,
                        challenge_name@,
                        challenge_description@,
                        start_time as int,
                        end_time as int,
                        money_per_participant as nat,
                        is_private,
                        private_group@,
                        *bumps,
                    )
                    &&& final(self).challenge_account@.wf()
                    &&& final(self).treasury_account == old(self).treasury_account
                },
                Err(code) => {
                    &&& creation_rejection(
                        start_time as int,
                        end_time as int,
                        is_private,
                        private_group@,
                        current_time as int,
                    ) == Some(code)
                    &&& *final(self) == *old(self)
                },
            },
    {
        if is_private && private_group.len() == 0 {
            return Err(ErrorCode::PrivateGroupEmpty);
        }
        if start_time <= current_time {
            return Err(ErrorCode::StartTimeInThePast);
        }
        if end_time <= start_time {
            return Err(ErrorCode::EndTimeBeforeStartTime);
        }
        self.challenge_account.challenge_id = challenge_id;
        self.challenge_account.challenge_information = ChallengeInformation {
            challenge_type,
            challenge_name,
            challenge_description,
        };
        self.challenge_account.start_time = start_time;
        self.challenge_account.end_time = end_time;
        self.challenge_account.total_participants = 0;
        self.challenge_account.total_votes = 0;
        self.challenge_account.money_pool = 0;
        self.challenge_account.money_per_participant = money_per_participant;
        self.challenge_account.treasury_account = self.treasury_account;
        self.challenge_account.is_private = is_private;
        self.challenge_account.private_group = private_group;
        self.challenge_account.bump = bumps.challenge_account;
        self.challenge_account.treasury_bump = bumps.treasury_account;
        Ok(())
    }
}

} // verus!
