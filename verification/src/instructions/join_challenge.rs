//! Joining a challenge: the participant deposits the stake and becomes a
//! member.

use vstd::prelude::*;
use crate::custody::{Mint, Transfer};
use crate::errors::{ErrorCode, Failure};
use crate::lifecycle::join_keeps_the_terms;
use crate::pubkey::Pubkey;
use crate::states::challenge::{Challenge, ChallengeAccount};
use crate::states::user::{Membership, Profile, UserAccount, UserChallengeAccount};

verus! {

/// Why a join is rejected, or `None` where the participant may join. The
/// conditions are tested in this order: the challenge admits the
/// participant; the participant is not a member yet; the challenge has not
/// started.
pub open spec fn join_rejection(
    challenge: Challenge,
    membership: Membership,
    participant: Pubkey,
    now: int,
) -> Option<ErrorCode> {
    if !challenge.admits(participant) {
        Some(ErrorCode::UnAuthorized)
    } else if membership.is_joined {
        Some(ErrorCode::AlreadyJoined)
    } else if challenge.started(now) {
        Some(ErrorCode::ChallengeStarted)
    } else {
        None
    }
}

/// The membership of `participant` once they have joined `challenge`: it
/// holds the challenge's stake, and completion and both vote tallies start
/// afresh.
pub open spec fn enrolled(
    membership: Membership,
    challenge: Challenge,
    challenge_address: Pubkey,
    participant: Pubkey,
    description: Seq<char>,
    bump: u8,
) -> Membership {
    Membership {
        challenge_address,
        description,
        user_address: participant,
        is_joined: true,
        money_deposited: challenge.money_per_participant,
        is_challenge_completed: false,
        bump,
        vote_in_positive: 0,
        vote_in_negative: 0,
        ..membership
    }
}

/// The participant's profile after joining `challenge`: one more
/// participation, and the stake added to what they deposited in total.
pub open spec fn after_deposit(
    profile: Profile,
    challenge: Challenge,
    user_name: Seq<char>,
    bump: u8,
) -> Profile {
    Profile {
        user_name,
        total_participations: profile.total_participations + 1,
        total_money_deposited: profile.total_money_deposited + challenge.money_per_participant,
        bump,
        ..profile
    }
}

/// The challenge with one more participant and one more stake in its pool.
pub open spec fn with_participant(challenge: Challenge) -> Challenge {
    Challenge {
        total_participants: challenge.total_participants + 1,
        money_pool: challenge.money_pool + challenge.money_per_participant,
        ..challenge
    }
}

/// The bump seeds of the records that a join may create.
#[derive(Clone, Copy, Debug, PartialEq, Eq)]
pub struct JoinChallengeBumps {
    pub user_account: u8,
    pub user_challenge_account: u8,
}

/// The records that a join runs against: the participant with their token
/// account and profile, the challenge with its address, the mint that the
/// stake is paid in, and the participant's membership record for the
/// challenge.
#[derive(Clone, Debug, PartialEq, Eq)]
pub struct JoinChallenge {
    pub signer: Pubkey,
    pub challenge_account: ChallengeAccount,
    pub challenge_address: Pubkey,
    pub mint: Mint,
    pub user_token_account: Pubkey,
    pub user_account: UserAccount,
    pub user_challenge_account: UserChallengeAccount,
}

impl JoinChallenge {
    /// [`join_rejection`] on these records.
    pub open spec fn rejection(&self, now: int) -> Option<ErrorCode> {
        join_rejection(self.challenge_account@, self.user_challenge_account@, self.signer, now)
    }

    /// The transfer that a join asks of the custody: the challenge's stake,
    /// from the participant's token account into the challenge's treasury,
    /// on the participant's authority.
    pub open spec fn deposit(&self) -> Transfer {
        Transfer {
            from: self.user_token_account,
            mint: self.mint.address,
            to: self.challenge_account.treasury_account,
            authority: self.signer,
            amount: self.challenge_account.money_per_participant,
            decimals: self.mint.decimals,
        }
    }

    /// The totals that a join adds to can take one more stake.
    pub open spec fn spec_has_room(&self) -> bool {
        &&& self.user_account.total_participations < u64::MAX
        &&& self.user_account.total_money_deposited + self.challenge_account.money_per_participant
            <= u64::MAX
        &&& self.challenge_account.total_participants < u64::MAX
        &&& self.challenge_account.money_pool + self.challenge_account.money_per_participant
            <= u64::MAX
    }

    /// Decides [`Self::spec_has_room`].
    #[verifier::when_used_as_spec(spec_has_room)]
    pub fn has_room(&self) -> (r: bool)
        ensures
            r == self.spec_has_room(),
    {
        let stake: u64 = self.challenge_account.money_per_participant;
        self.user_account.total_participations < u64::MAX
            && self.user_account.total_money_deposited <= u64::MAX - stake
            && self.challenge_account.total_participants < u64::MAX
            && self.challenge_account.money_pool <= u64::MAX - stake
    }

    /// Decides a join at `current_time` without performing it: the deposit
    /// to ask of the custody, or the reason for which the join is
    /// rejected.
    pub fn prepare(&self, current_time: i64) -> (decision: Result<Transfer, ErrorCode>)
        ensures
            decision == match self.rejection(current_time as int) {
                None => Ok::<Transfer, ErrorCode>(self.deposit()),
                Some(code) => Err(code),
            },
    {
        if !self.challenge_account.admits(&self.signer) {
            return Err(ErrorCode::UnAuthorized);
        }
        if self.user_challenge_account.is_joined {
            return Err(ErrorCode::AlreadyJoined);
        }
        if self.challenge_account.started(current_time) {
            return Err(ErrorCode::ChallengeStarted);
        }
        Ok(
            Transfer {
                from: self.user_token_account,
                mint: self.mint.address,
                to: self.challenge_account.treasury_account,
                authority: self.signer,
                amount: self.challenge_account.money_per_participant,
                decimals: self.mint.decimals,
            },
        )
    }

    /// Lets the signer join the challenge at `current_time`.
    ///
    /// Where [`join_rejection`] finds a reason against the join, that
    /// reason is returned and the custody is not asked. Otherwise
    /// `transfer_checked` is called once, with [`Self::deposit`]. If it
    /// fails, its error is handed on. If it succeeds, the membership, the
    /// profile and the challenge's totals are updated together. Whenever
    /// the join does not succeed, nothing has changed.
    ///
    /// `_challenge_id` is the id under which the records were resolved. The
    /// totals must have room for the stake where the join is not rejected.
    pub fn join_challenge<E, F: FnOnce(Transfer) -> Result<(), E>>(
        &mut self,
        _challenge_id: u64,
        user_name: String,
        description: String,
        bumps: &JoinChallengeBumps,
        current_time: i64,
        transfer_checked: F,
    ) -> (result: Result<(), Failure<E>>)
        requires
            old(self).rejection(current_time as int) is None ==> {
                &&& old(self).has_room()
                &&& call_requires(transfer_checked, (old(self).deposit(),))
            },
        ensures
            match result {
                Ok(()) => {
                    &&& old(self).rejection(current_time as int) is None
                    &&& call_ensures(transfer_checked, (old(self).deposit(),), Ok(()))
                    &&& final(self).user_challenge_account@ == enrolled(
                        old(self).user_challenge_account@,
                        old(self).challenge_account@,
                        old(self).challenge_address,
                        old(self).signer,
                        description@,
                        bumps.user_challenge_account,
                    )
                    &&& final(self).user_account@ == after_deposit(
                        old(self).user_account@,
                        old(self).challenge_account@,
                        user_name@,
                        bumps.user_account,
                    )
                    &&& final(self).challenge_account@ == with_participant(
                        old(self).challenge_account@,
                    )
                    &&& old(self).challenge_account@.wf() ==> final(self).challenge_account@.wf()
                    &&& final(self).signer == old(self).signer
                    &&& final(self).challenge_address == old(self).challenge_address
                    &&& final(self).mint == old(self).mint
                    &&& final(self).user_token_account == old(self).user_token_account
                },
                Err(Failure::Rejected(code)) => {
                    &&& old(self).rejection(current_time as int) == Some(code)
                    &&& *final(self) == *old(self)
                },
                Err(Failure::Custody(error)) => {
                    &&& old(self).rejection(current_time as int) is None
                    &&& call_ensures(transfer_checked, (old(self).deposit(),), Err(error))
                    &&& *final(self) == *old(self)
                },
            },
    {
        let deposit = match self.prepare(current_time) {
            Ok(deposit) => deposit,
            Err(code) => {
                return Err(Failure::Rejected(code));
            },
        };
        let stake: u64 = deposit.amount;
        match transfer_checked(deposit) {
            Ok(done) => {
                // `Ok` carries the unit value, of which there is one.
                assert(done == ());
            },
            Err(error) => {
                return Err(Failure::Custody(error));
            },
        }

        self.user_challenge_account.is_joined = true;
        self.user_challenge_account.money_deposited = stake;
        self.user_challenge_account.challenge_address = self.challenge_address;
        self.user_challenge_account.user_address = self.signer;
        self.user_challenge_account.is_challenge_completed = false;
        self.user_challenge_account.vote_in_positive = 0;
        self.user_challenge_account.vote_in_negative = 0;
        self.user_challenge_account.bump = bumps.user_challenge_account;
        self.user_challenge_account.description = description;

        self.user_account.user_name = user_name;
        self.user_account.total_participations += 1;
        self.user_account.total_money_deposited += stake;
        self.user_account.bump = bumps.user_account;

        self.challenge_account.total_participants += 1;
        self.challenge_account.money_pool += stake;
        proof {
            join_keeps_the_terms(old(self).challenge_account@);
        }
        Ok(())
    }
}

} // verus!
