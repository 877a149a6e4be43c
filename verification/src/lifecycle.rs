//! What holds of one instruction and the next, whatever the times at
//! which they arrive. Each statement is proved from the same rejection and
//! effect functions that the instructions' contracts are stated in.
//! [`crate::history`] carries them over whole histories.

use vstd::prelude::*;
use crate::errors::ErrorCode;
use crate::instructions::claim_challenge::{claim_rejection, settled, ClaimChallenge};
use crate::instructions::join_challenge::{enrolled, join_rejection, with_participant, JoinChallenge};
use crate::instructions::update_challenge_status::{verification_rejection, verified};
use crate::instructions::vote_for_vote_based_challenge::{cast, tallied, vote_rejection};
use crate::pubkey::Pubkey;
use crate::states::challenge::{
    Challenge, ChallengeVerification, ChallengeVerificationType, VERIFICATION_DURATION,
};
use crate::states::program::ProgramState;
use crate::states::user::Membership;
use crate::states::vote::VoteAccount;

verus! {

impl Membership {
    /// The stake has been paid back: the membership is at its end.
    pub open spec fn is_claimed(self) -> bool {
        self.is_joined && self.money_deposited == 0
    }

    /// What is held for a member of `challenge` is the challenge's stake,
    /// until it is paid back, and nothing from then on.
    pub open spec fn holds_stake_of(self, challenge: Challenge) -> bool {
        self.is_joined ==> self.money_deposited == challenge.money_per_participant
            || self.money_deposited == 0
    }
}

/// A stake is paid back at most once. After a claim has succeeded, every
/// later claim on that membership is rejected as already claimed, at
/// whatever time it is made and whatever the challenge's totals have
/// become.
pub proof fn claim_succeeds_at_most_once(
    challenge: Challenge,
    membership: Membership,
    now: int,
    later_challenge: Challenge,
    later: int,
)
    requires
        claim_rejection(challenge, membership, now) is None,
    ensures
        claim_rejection(later_challenge, settled(membership), later) == Some(
            ErrorCode::AlreadyClaimed,
        ),
{
}

/// A participant joins a challenge at most once. After a join has
/// succeeded, every later join of the same participant on that membership
/// is rejected as already joined, at whatever time it is made and whatever
/// the challenge's totals have become.
pub proof fn join_succeeds_at_most_once(
    challenge: Challenge,
    membership: Membership,
    challenge_address: Pubkey,
    participant: Pubkey,
    description: Seq<char>,
    bump: u8,
    now: int,
    later_challenge: Challenge,
    later: int,
)
    requires
        join_rejection(challenge, membership, participant, now) is None,
        challenge.same_terms(later_challenge),
    ensures
        join_rejection(
            later_challenge,
            enrolled(membership, challenge, challenge_address, participant, description, bump),
            participant,
            later,
        ) == Some(ErrorCode::AlreadyJoined),
{
}

/// For a participant whom the challenge admits and who is not a member
/// yet, the start time alone decides a join: before it the join is
/// accepted, at or after it the join is rejected because the challenge
/// has started.
pub proof fn join_is_open_until_start(
    challenge: Challenge,
    membership: Membership,
    participant: Pubkey,
    now: int,
)
    requires
        challenge.admits(participant),
        !membership.is_joined,
    ensures
        now < challenge.start_time ==> join_rejection(challenge, membership, participant, now)
            is None,
        now >= challenge.start_time ==> join_rejection(challenge, membership, participant, now)
            == Some(ErrorCode::ChallengeStarted),
{
}

/// For a member whose stake is still held, a claim made before the
/// verification window has closed is rejected because the challenge is
/// under verification. From the moment the window has closed, a claim is
/// accepted if completion was recorded or the votes in favour are at
/// least as many as the votes against, and rejected as not completed
/// otherwise.
pub proof fn claim_is_blocked_until_verification_closes(
    challenge: Challenge,
    membership: Membership,
    now: int,
)
    requires
        membership.is_joined,
        membership.money_deposited > 0,
    ensures
        now < challenge.end_time + VERIFICATION_DURATION ==> claim_rejection(
            challenge,
            membership,
            now,
        ) == Some(ErrorCode::ChallengeUnderVerification),
        now >= challenge.end_time + VERIFICATION_DURATION ==> claim_rejection(
            challenge,
            membership,
            now,
        ) == if membership.is_challenge_completed || membership.vote_in_positive
            >= membership.vote_in_negative {
            None
        } else {
            Some(ErrorCode::UserHasNotCompletedTheChallenge)
        },
{
}

/// A claim that is accepted on a membership that holds the challenge's
/// stake asks the custody for exactly that stake, out of the challenge's
/// treasury and into the participant's token account.
pub proof fn claim_refunds_the_stake(records: ClaimChallenge, now: int)
    requires
        records.rejection(now) is None,
        records.user_challenge_account@.holds_stake_of(records.challenge_account@),
    ensures
        records.refund().amount == records.challenge_account.money_per_participant,
        records.refund().from == records.challenge_account.treasury_account,
        records.refund().to == records.user_token_account,
{
}

/// A join deposits exactly the challenge's stake, out of the participant's
/// token account and into the challenge's treasury, and the membership it
/// makes holds that stake.
pub proof fn join_deposits_the_stake(records: JoinChallenge, description: Seq<char>, bump: u8)
    ensures
        records.deposit().amount == records.challenge_account.money_per_participant,
        records.deposit().from == records.user_token_account,
        records.deposit().to == records.challenge_account.treasury_account,
        enrolled(
            records.user_challenge_account@,
            records.challenge_account@,
            records.challenge_address,
            records.signer,
            description,
            bump,
        ).holds_stake_of(with_participant(records.challenge_account@)),
{
}

/// A tie favours the participant: with as many votes in favour as
/// against, a member whose stake is still held can claim once the
/// verification window has closed.
pub proof fn tie_permits_claim(challenge: Challenge, membership: Membership, now: int)
    requires
        membership.is_joined,
        membership.money_deposited > 0,
        membership.vote_in_positive == membership.vote_in_negative,
        challenge.verification_closed(now),
    ensures
        claim_rejection(challenge, membership, now) is None,
{
}

/// What is held for a member is the stake until it is paid back and
/// nothing afterwards: votes and recorded verifications never touch it,
/// and a claim takes all of it.
pub proof fn held_stake_changes_only_by_claim(
    challenge: Challenge,
    membership: Membership,
    is_completed: bool,
    verification: ChallengeVerification,
)
    requires
        membership.holds_stake_of(challenge),
    ensures
        tallied(membership, is_completed).holds_stake_of(challenge),
        tallied(membership, is_completed).money_deposited == membership.money_deposited,
        verified(membership, verification).holds_stake_of(challenge),
        verified(membership, verification).money_deposited == membership.money_deposited,
        settled(membership).holds_stake_of(challenge),
        membership.is_joined ==> settled(membership).is_claimed(),
{
}

/// A claimed membership is at its end. No vote and no recorded
/// verification brings the stake back, the participant cannot join the
/// challenge again, and no claim is accepted.
pub proof fn claimed_membership_is_terminal(
    challenge: Challenge,
    membership: Membership,
    participant: Pubkey,
    is_completed: bool,
    verification: ChallengeVerification,
    now: int,
)
    requires
        membership.is_claimed(),
    ensures
        tallied(membership, is_completed).is_claimed(),
        verified(membership, verification).is_claimed(),
        settled(membership).is_claimed(),
        join_rejection(challenge, membership, participant, now) is Some,
        challenge.admits(participant) ==> join_rejection(challenge, membership, participant, now)
            == Some(ErrorCode::AlreadyJoined),
        claim_rejection(challenge, membership, now) == Some(ErrorCode::AlreadyClaimed),
{
}

/// The verification window and the time for claims never overlap: at no
/// moment does a challenge take a vote or a recorded verification and pay
/// a stake back.
pub proof fn no_verification_once_claims_are_open(
    registry: ProgramState,
    challenge: Challenge,
    membership: Membership,
    vote: VoteAccount,
    caller: Pubkey,
    recorded: ChallengeVerification,
    ballot: ChallengeVerificationType,
    now: int,
)
    requires
        claim_rejection(challenge, membership, now) is None,
    ensures
        verification_rejection(registry, challenge, membership, caller, recorded, now) is Some,
        vote_rejection(challenge, membership, vote, caller, ballot, now) is Some,
{
}

/// A voter judges a membership at most once. The record that a vote
/// leaves behind stands against every later vote of that voter on that
/// membership; where nothing else stands against it, the later vote is
/// rejected as already voted.
pub proof fn vote_is_cast_at_most_once(
    challenge_address: Pubkey,
    judged: Pubkey,
    voter: Pubkey,
    is_completed: bool,
    bump: u8,
    later_challenge: Challenge,
    later_membership: Membership,
    later_ballot: ChallengeVerificationType,
    later: int,
)
    ensures
        vote_rejection(
            later_challenge,
            later_membership,
            cast(challenge_address, judged, voter, is_completed, bump),
            voter,
            later_ballot,
            later,
        ) is Some,
        later_membership.is_joined && later_membership.user_address != voter
            && later_challenge.under_verification(later) ==> vote_rejection(
            later_challenge,
            later_membership,
            cast(challenge_address, judged, voter, is_completed, bump),
            voter,
            later_ballot,
            later,
        ) == Some(ErrorCode::UserHasAlreadyVoted),
{
}

/// Joining changes a challenge's totals and nothing else, and keeps the
/// challenge well formed.
pub proof fn join_keeps_the_terms(challenge: Challenge)
    ensures
        challenge.same_terms(with_participant(challenge)),
        challenge.wf() ==> with_participant(challenge).wf(),
{
    assert((challenge.total_participants + 1) * challenge.money_per_participant
        == challenge.total_participants * challenge.money_per_participant
        + challenge.money_per_participant) by (nonlinear_arith);
}

} // verus!
