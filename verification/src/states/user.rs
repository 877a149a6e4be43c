//! Participant profiles and membership records.

use vstd::prelude::*;
use crate::pubkey::Pubkey;

verus! {

/// A participant's profile: the totals over all challenges they joined.
#[derive(Clone, Debug, PartialEq, Eq)]
pub struct UserAccount {
    pub user_name: String,
    pub user_address: Pubkey,
    pub total_participations: u64,
    pub total_money_deposited: u64,
    pub total_money_withdrawn: u64,
    pub bump: u8,
}

/// The mathematical model of a [`UserAccount`]: totals are unbounded.
pub struct Profile {
    pub user_name: Seq<char>,
    pub user_address: Pubkey,
    pub total_participations: nat,
    pub total_money_deposited: nat,
    pub total_money_withdrawn: nat,
    pub bump: u8,
}

impl View for UserAccount {
    type V = Profile;

    open spec fn view(&self) -> Profile {
        Profile {
            user_name: self.user_name@,
            user_address: self.user_address,
            total_participations: self.total_participations as nat,
            total_money_deposited: self.total_money_deposited as nat,
            total_money_withdrawn: self.total_money_withdrawn as nat,
            bump: self.bump,
        }
    }
}

/// One participant's membership in one challenge.
///
/// `money_deposited` is the stake that is still held for the participant.
/// It is set when they join and drops to zero when they claim, which is
/// what keeps a second claim from paying out again.
#[derive(Clone, Debug, PartialEq, Eq)]
pub struct UserChallengeAccount {
    pub challenge_address: Pubkey,
    pub description: String,
    pub user_address: Pubkey,
    pub is_joined: bool,
    pub money_deposited: u64,
    pub is_challenge_completed: bool,
    pub bump: u8,
    pub score: u64,
    pub vote_in_positive: u64,
    pub vote_in_negative: u64,
}

/// The mathematical model of a [`UserChallengeAccount`].
pub struct Membership {
    pub challenge_address: Pubkey,
    pub description: Seq<char>,
    pub user_address: Pubkey,
    pub is_joined: bool,
    pub money_deposited: nat,
    pub is_challenge_completed: bool,
    pub bump: u8,
    pub score: u64,
    pub vote_in_positive: nat,
    pub vote_in_negative: nat,
}

impl View for UserChallengeAccount {
    type V = Membership;

    open spec fn view(&self) -> Membership {
        Membership {
            challenge_address: self.challenge_address,
            description: self.description@,
            user_address: self.user_address,
            is_joined: self.is_joined,
            money_deposited: self.money_deposited as nat,
            is_challenge_completed: self.is_challenge_completed,
            bump: self.bump,
            score: self.score,
            vote_in_positive: self.vote_in_positive as nat,
            vote_in_negative: self.vote_in_negative as nat,
        }
    }
}

impl Membership {
    /// Whether the goal counts as completed when the stake is claimed: the
    /// owner recorded completion, or the votes in favour are at least as
    /// many as the votes against. A tie favours the participant.
    pub open spec fn counts_as_completed(self) -> bool {
        self.is_challenge_completed || self.vote_in_positive >= self.vote_in_negative
    }
}

impl UserChallengeAccount {
    /// Decides [`Membership::counts_as_completed`].
    pub fn counts_as_completed(&self) -> (r: bool)
        ensures
            r == self@.counts_as_completed(),
    {
        self.is_challenge_completed || self.vote_in_positive >= self.vote_in_negative
    }
}

} // verus!
