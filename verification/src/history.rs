//! A membership over a whole history of instructions.
//!
//! The statements of [`crate::lifecycle`] speak of one instruction and the
//! next. Here they are carried over arbitrary histories: whatever
//! instructions reach a membership, at whatever times and in whatever
//! order, it is joined at most once, paid back at most once, and what is
//! held for it is exactly what was deposited and not yet refunded.

use vstd::prelude::*;
use crate::instructions::claim_challenge::{claim_rejection, settled};
use crate::instructions::join_challenge::{enrolled, join_rejection};
use crate::instructions::update_challenge_status::{verification_rejection, verified};
use crate::instructions::vote_for_vote_based_challenge::{tallied, vote_rejection};
use crate::pubkey::Pubkey;
use crate::states::challenge::{Challenge, ChallengeVerification, ChallengeVerificationType};
use crate::states::program::ProgramState;
use crate::states::user::Membership;
use crate::states::vote::VoteAccount;

verus! {

/// One instruction that reaches a membership, with the records and
/// arguments that it runs against and, where it moves the stake, the
/// custody's answer.
pub enum Event {
    /// `participant` asks to join.
    Join {
        participant: Pubkey,
        challenge_address: Pubkey,
        description: Seq<char>,
        bump: u8,
        now: int,
        custody_accepts: bool,
    },
    /// `caller` asks to record a verification.
    Verification {
        registry: ProgramState,
        caller: Pubkey,
        verification: ChallengeVerification,
        now: int,
    },
    /// `voter` asks to cast a vote, with their vote record as it stands.
    Vote { vote: VoteAccount, voter: Pubkey, ballot: ChallengeVerificationType, now: int },
    /// The participant asks for the stake back.
    Claim { now: int, custody_accepts: bool },
}

impl Event {
    /// The instruction goes through on `membership` of `challenge`: it is
    /// not rejected and, where it moves the stake, the custody accepts the
    /// transfer.
    pub open spec fn succeeds(self, challenge: Challenge, membership: Membership) -> bool {
        match self {
            Event::Join { participant, now, custody_accepts, .. } => {
                join_rejection(challenge, membership, participant, now) is None
                    && custody_accepts
            },
            Event::Verification { registry, caller, verification, now } => {
                verification_rejection(registry, challenge, membership, caller, verification, now)
                    is None
            },
            Event::Vote { vote, voter, ballot, now } => {
                vote_rejection(challenge, membership, vote, voter, ballot, now) is None
            },
            Event::Claim { now, custody_accepts } => {
                claim_rejection(challenge, membership, now) is None && custody_accepts
            },
        }
    }

    /// The membership after the instruction: as the instruction's contract
    /// says where it goes through, unchanged where it does not.
    pub open spec fn apply(self, challenge: Challenge, membership: Membership) -> Membership {
        if !self.succeeds(challenge, membership) {
            membership
        } else {
            match self {
                Event::Join { participant, challenge_address, description, bump, .. } => enrolled(
                    membership,
                    challenge,
                    challenge_address,
                    participant,
                    description,
                    bump,
                ),
                Event::Verification { verification, .. } => verified(membership, verification),
                Event::Vote { ballot, .. } => tallied(membership, ballot->VoteBased_is_completed),
                Event::Claim { .. } => settled(membership),
            }
        }
    }

    /// What the instruction moves into the challenge's treasury.
    pub open spec fn deposited(self, challenge: Challenge, membership: Membership) -> nat {
        if self is Join && self.succeeds(challenge, membership) {
            challenge.money_per_participant
        } else {
            0
        }
    }

    /// What the instruction moves out of the challenge's treasury.
    pub open spec fn refunded(self, challenge: Challenge, membership: Membership) -> nat {
        if self is Claim && self.succeeds(challenge, membership) {
            membership.money_deposited
        } else {
            0
        }
    }
}

impl Membership {
    /// Nothing is held for somebody who has not joined.
    pub open spec fn wf(self) -> bool {
        !self.is_joined ==> self.money_deposited == 0
    }
}

/// The membership after all of `events`, in their order.
pub open spec fn after(challenge: Challenge, membership: Membership, events: Seq<Event>)
    -> Membership
    decreases events.len(),
{
    if events.len() == 0 {
        membership
    } else {
        events.last().apply(challenge, after(challenge, membership, events.drop_last()))
    }
}

/// How many joins of `events` go through.
pub open spec fn joins(challenge: Challenge, membership: Membership, events: Seq<Event>) -> nat
    decreases events.len(),
{
    if events.len() == 0 {
        0
    } else {
        let before = after(challenge, membership, events.drop_last());
        let last: nat = if events.last() is Join && events.last().succeeds(challenge, before) {
            1
        } else {
            0
        };
        joins(challenge, membership, events.drop_last()) + last
    }
}

/// How many claims of `events` go through.
pub open spec fn claims(challenge: Challenge, membership: Membership, events: Seq<Event>) -> nat
    decreases events.len(),
{
    if events.len() == 0 {
        0
    } else {
        let before = after(challenge, membership, events.drop_last());
        let last: nat = if events.last() is Claim && events.last().succeeds(challenge, before) {
            1
        } else {
            0
        };
        claims(challenge, membership, events.drop_last()) + last
    }
}

/// All that `events` move into the challenge's treasury.
pub open spec fn deposits(challenge: Challenge, membership: Membership, events: Seq<Event>)
    -> nat
    decreases events.len(),
{
    if events.len() == 0 {
        0
    } else {
        let before = after(challenge, membership, events.drop_last());
        deposits(challenge, membership, events.drop_last()) + events.last().deposited(
            challenge,
            before,
        )
    }
}

/// All that `events` move out of the challenge's treasury.
pub open spec fn refunds(challenge: Challenge, membership: Membership, events: Seq<Event>) -> nat
    decreases events.len(),
{
    if events.len() == 0 {
        0
    } else {
        let before = after(challenge, membership, events.drop_last());
        refunds(challenge, membership, events.drop_last()) + events.last().refunded(
            challenge,
            before,
        )
    }
}

/// Over every history, a membership is joined at most once and stays
/// joined: a participant who was a member at the outset never joins
/// again, and one who was not joins at most once.
pub proof fn joined_at_most_once(challenge: Challenge, membership: Membership, events: Seq<Event>)
    ensures
        membership.is_joined ==> joins(challenge, membership, events) == 0,
        joins(challenge, membership, events) <= 1,
        joins(challenge, membership, events) == 1 ==> after(
            challenge,
            membership,
            events,
        ).is_joined,
        membership.is_joined ==> after(challenge, membership, events).is_joined,
    decreases events.len(),
{
    if events.len() > 0 {
        joined_at_most_once(challenge, membership, events.drop_last());
    }
}

/// Over every history, what is held for a membership is what was held at
/// the outset, and all that was deposited since, less all that was
/// refunded since. The engine never asks more out of the treasury than
/// was paid into it for this membership.
pub proof fn held_is_deposited_less_refunded(
    challenge: Challenge,
    membership: Membership,
    events: Seq<Event>,
)
    requires
        membership.wf(),
    ensures
        after(challenge, membership, events).wf(),
        after(challenge, membership, events).money_deposited + refunds(
            challenge,
            membership,
            events,
        ) == membership.money_deposited + deposits(challenge, membership, events),
        refunds(challenge, membership, events) <= membership.money_deposited + deposits(
            challenge,
            membership,
            events,
        ),
    decreases events.len(),
{
    if events.len() > 0 {
        held_is_deposited_less_refunded(challenge, membership, events.drop_last());
    }
}

/// Over every history, a stake is paid back at most once, and the one
/// claim that goes through pays back exactly what was held: the
/// challenge's stake, where the membership was made by a join of the
/// history.
pub proof fn claimed_at_most_once(challenge: Challenge, membership: Membership, events: Seq<Event>)
    requires
        membership.wf(),
    ensures
        claims(challenge, membership, events) <= 1,
        claims(challenge, membership, events) == 1 ==> after(
            challenge,
            membership,
            events,
        ).is_claimed(),
        membership.is_claimed() ==> claims(challenge, membership, events) == 0,
        membership.is_claimed() ==> after(challenge, membership, events).is_claimed(),
        !membership.is_joined ==> refunds(challenge, membership, events) == claims(
            challenge,
            membership,
            events,
        ) * challenge.money_per_participant,
    decreases events.len(),
{
    if events.len() > 0 {
        let earlier = events.drop_last();
        claimed_at_most_once(challenge, membership, earlier);
        joined_at_most_once(challenge, membership, earlier);
        held_is_deposited_less_refunded(challenge, membership, earlier);
        stake_is_held_until_claimed(challenge, membership, earlier);
    }
}

/// Over every history that begins before the participant has joined, the
/// membership holds the challenge's stake from the join until the claim,
/// and nothing before and after.
pub proof fn stake_is_held_until_claimed(
    challenge: Challenge,
    membership: Membership,
    events: Seq<Event>,
)
    requires
        membership.wf(),
    ensures
        !membership.is_joined ==> after(challenge, membership, events).money_deposited == if joins(
            challenge,
            membership,
            events,
        ) == 1 && claims(challenge, membership, events) == 0 {
            challenge.money_per_participant
        } else {
            0
        },
    decreases events.len(),
{
    if events.len() > 0 {
        let earlier = events.drop_last();
        stake_is_held_until_claimed(challenge, membership, earlier);
        joined_at_most_once(challenge, membership, earlier);
        held_is_deposited_less_refunded(challenge, membership, earlier);
        claimed_at_most_once(challenge, membership, earlier);
    }
}

} // verus!
