//! Settlement: a participant claims the stake back, once.

use vstd::prelude::*;
use crate::custody::{Mint, Transfer};
use crate::errors::{ErrorCode, Failure};
use crate::pubkey::Pubkey;
use crate::states::challenge::{Challenge, ChallengeAccount};
use crate::states::user::{Membership, Profile, UserAccount, UserChallengeAccount};

verus! {

/// Why a claim is rejected, or `None` where the stake is owed. The
/// conditions are tested in this order: the participant has joined; the
/// stake has not been paid back yet; the verification window has closed;
/// the goal counts as completed.
pub open spec fn claim_rejection(
    challenge: Challenge,
    membership: Membership,
    now: int,
) -> Option<ErrorCode> {
    if !membership.is_joined {
        Some(ErrorCode::UserDidNotParticipate)
    } else if membership.money_deposited == 0 {
        Some(ErrorCode::AlreadyClaimed)
    } else if !challenge.verification_closed(now) {
        Some(ErrorCode::ChallengeUnderVerification)
    } else if !membership.counts_as_completed() {
        Some(ErrorCode::UserHasNotCompletedTheChallenge)
    } else {
        None
    }
}

/// The membership once the stake is paid back: nothing is held for the
/// participant any more.
pub open spec fn settled(membership: Membership) -> Membership {
    Membership { money_deposited: 0, ..membership }
}

/// The participant's profile after `amount` was paid back to them.
pub open spec fn after_refund(profile: Profile, amount: nat) -> Profile {
    Profile { total_money_withdrawn: profile.total_money_withdrawn + amount, ..profile }
}

/// The records that a claim runs against: the challenge, the mint that the
/// stake was paid in, and the participant's token account, profile and
/// membership record.
#[derive(Clone, Debug, PartialEq, Eq)]
pub struct ClaimChallenge {
    pub challenge_account: ChallengeAccount,
    pub mint: Mint,
    pub user_token_account: Pubkey,
    pub user_account: UserAccount,
    pub user_challenge_account: UserChallengeAccount,
}

impl ClaimChallenge {
    /// [`claim_rejection`] on these records.
    pub open spec fn rejection(&self, now: int) -> Option<ErrorCode> {
        claim_rejection(self.challenge_account@, self.user_challenge_account@, now)
    }

    /// The transfer that a claim asks of the custody: all that is held for
    /// the participant, from the challenge's treasury into the
    /// participant's token account, on the treasury's own authority.
    pub open spec fn refund(&self) -> Transfer {
        Transfer {
            from: self.challenge_account.treasury_account,
            mint: self.mint.address,
            to: self.user_token_account,
            authority: self.challenge_account.treasury_account,
            amount: self.user_challenge_account.money_deposited,
            decimals: self.mint.decimals,
        }
    }

    /// The participant's total of withdrawals can take the refund.
    pub open spec fn spec_has_room(&self) -> bool {
        self.user_account.total_money_withdrawn + self.user_challenge_account.money_deposited
            <= u64::MAX
    }

    /// Decides [`Self::spec_has_room`].
    #[verifier::when_used_as_spec(spec_has_room)]
    pub fn has_room(&self) -> (r: bool)
        ensures
            r == self.spec_has_room(),
    {
        self.user_account.total_money_withdrawn <= u64::MAX
            - self.user_challenge_account.money_deposited
    }

    /// Decides a claim at `current_time` without performing it: the refund
    /// to ask of the custody, or the reason for which the claim is
    /// rejected.
    pub fn prepare(&self, current_time: i64) -> (decision: Result<Transfer, ErrorCode>)
        ensures
            decision == match self.rejection(current_time as int) {
                None => Ok::<Transfer, ErrorCode>(self.refund()),
                Some(code) => Err(code),
            },
    {
        if !self.user_challenge_account.is_joined {
            return Err(ErrorCode::UserDidNotParticipate);
        }
        if self.user_challenge_account.money_deposited == 0 {
            return Err(ErrorCode::AlreadyClaimed);
        }
        if !self.challenge_account.verification_closed(current_time) {
            return Err(ErrorCode::ChallengeUnderVerification);
        }
        if !self.user_challenge_account.counts_as_completed() {
            return Err(ErrorCode::UserHasNotCompletedTheChallenge);
        }
        Ok(
            Transfer {
                from: self.challenge_account.treasury_account,
                mint: self.mint.address,
                to: self.user_token_account,
                authority: self.challenge_account.treasury_account,
                amount: self.user_challenge_account.money_deposited,
                decimals: self.mint.decimals,
            },
        )
    }

    /// Pays the participant's stake back at `current_time`.
    ///
    /// Where [`claim_rejection`] finds a reason against the claim, that
    /// reason is returned and the custody is not asked. Otherwise
    /// `transfer_checked` is called once, with [`Self::refund`]. If it
    /// fails, its error is handed on. If it succeeds, the amount is added
    /// to the participant's withdrawals and the membership holds nothing
    /// any more, so that no later claim can pay out again. Whenever the
    /// claim does not succeed, nothing has changed. The challenge itself
    /// is never changed.
    ///
    /// `_challenge_id` is the id under which the records were resolved. The
    /// participant's withdrawals must have room for the refund where the
    /// claim is not rejected.
    pub fn claim_challenge<E, F: FnOnce(Transfer) -> Result<(), E>>(
        &mut self,
        _challenge_id: u64,
        current_time: i64,
        transfer_checked: F,
    ) -> (result: Result<(), Failure<E>>)
        requires
            old(self).rejection(current_time as int) is None ==> {
                &&& old(self).has_room()
                &&& call_requires(transfer_checked, (old(self).refund(),))
            },
        ensures
            match result {
                Ok(()) => {
                    &&& old(self).rejection(current_time as int) is None
                    &&& call_ensures(transfer_checked, (old(self).refund(),), Ok(()))
                    &&& final(self).user_challenge_account@ == settled(
                        old(self).user_challenge_account@,
                    )
                    &&& final(self).user_account@ == after_refund(
                        old(self).user_account@,
                        old(self).user_challenge_account@.money_deposited,
                    )
                    &&& final(self).challenge_account == old(self).challenge_account
                    &&& final(self).mint == old(self).mint
                    &&& final(self).user_token_account == old(self).user_token_account
                },
                Err(Failure::Rejected(code)) => {
                    &&& old(self).rejection(current_time as int) == Some(code)
                    &&& *final(self) == *old(self)
                },
                Err(Failure::Custody(error)) => {
                    &&& old(self).rejection(current_time as int) is None
                    &&& call_ensures(transfer_checked, (old(self).refund(),), Err(error))
                    &&& *final(self) == *old(self)
                },
            },
    {
        let refund = match self.prepare(current_time) {
            Ok(refund) => refund,
            Err(code) => {
                return Err(Failure::Rejected(code));
            },
        };
        let amount_to_refund: u64 = refund.amount;
        match transfer_checked(refund) {
            Ok(done) => {
                // `Ok` carries the unit value, of which there is one.
                assert(done == ());
            },
            Err(error) => {
                return Err(Failure::Custody(error));
            },
        }

        self.user_account.total_money_withdrawn += amount_to_refund;
        self.user_challenge_account.money_deposited = 0;
        Ok(())
    }
}

} // verus!
