//! Challenge records, goal types and verifications.

use vstd::prelude::*;
use crate::pubkey::Pubkey;

verus! {

/// Seconds after a challenge's end during which completion is adjudicated
/// and claims are blocked.
pub const VERIFICATION_DURATION: i64 = 1800;

/// The most identities that a private challenge's allow-list can hold.
pub const MAX_PRIVATE_GROUP: usize = 10;

/// The goal of a challenge. The variant fixes how completion is verified.
#[derive(Clone, Copy, Debug, PartialEq, Eq, Structural)]
pub enum ChallengeType {
    /// A measured goal, verified by the registry owner from a score.
    GoogleFit { steps: u64 },
    /// A goal that peers judge by vote.
    Github { commits: u64 },
    /// A free-form goal that peers judge by vote.
    VoteBased,
}

impl ChallengeType {
    /// The goal is verified by the registry owner (automated metric).
    pub open spec fn is_monitored(self) -> bool {
        self is GoogleFit
    }

    /// The goal is verified by peer vote (community reviewed).
    pub open spec fn is_vote_based(self) -> bool {
        !self.is_monitored()
    }
}

/// What a challenge is about.
#[derive(Clone, Debug, PartialEq, Eq)]
pub struct ChallengeInformation {
    pub challenge_type: ChallengeType,
    pub challenge_name: String,
    pub challenge_description: String,
}

/// A verification of one participant's goal.
#[derive(Clone, Copy, Debug, PartialEq, Eq, Structural)]
pub enum ChallengeVerificationType {
    /// Submitted by the registry owner for a monitored goal.
    Monitored { score: u64, is_completed: bool },
    /// Cast by a peer for a goal that is judged by vote.
    VoteBased { is_completed: bool },
}

/// The payload of a verification that the registry owner records.
#[derive(Clone, Copy, Debug, PartialEq, Eq, Structural)]
pub struct ChallengeVerification {
    pub challenge_type: ChallengeVerificationType,
}

/// A challenge: its goal, schedule, stake and running totals.
///
/// Everything but `total_participants` and `money_pool` is fixed when the
/// challenge is created.
#[derive(Clone, Debug, PartialEq, Eq)]
pub struct ChallengeAccount {
    pub challenge_id: u64,
    pub challenge_information: ChallengeInformation,
    pub start_time: i64,
    pub end_time: i64,
    pub total_participants: u64,
    pub total_votes: u64,
    pub money_pool: u64,
    pub money_per_participant: u64,
    pub treasury_account: Pubkey,
    pub treasury_bump: u8,
    pub is_private: bool,
    pub private_group: Vec<Pubkey>,
    pub bump: u8,
}

/// The mathematical model of a [`ChallengeAccount`]: times are integers,
/// totals are unbounded and the allow-list is a sequence.
pub struct Challenge {
    pub challenge_id: u64,
    pub challenge_type: ChallengeType,
    pub challenge_name: Seq<char>,
    pub challenge_description: Seq<char>,
    pub start_time: int,
    pub end_time: int,
    pub total_participants: nat,
    pub total_votes: nat,
    pub money_pool: nat,
    pub money_per_participant: nat,
    pub treasury_account: Pubkey,
    pub treasury_bump: u8,
    pub is_private: bool,
    pub private_group: Seq<Pubkey>,
    pub bump: u8,
}

impl View for ChallengeAccount {
    type V = Challenge;

    open spec fn view(&self) -> Challenge {
        Challenge {
            challenge_id: self.challenge_id,
            challenge_type: self.challenge_information.challenge_type,
            challenge_name: self.challenge_information.challenge_name@,
            challenge_description: self.challenge_information.challenge_description@,
            start_time: self.start_time as int,
            end_time: self.end_time as int,
            total_participants: self.total_participants as nat,
            total_votes: self.total_votes as nat,
            money_pool: self.money_pool as nat,
            money_per_participant: self.money_per_participant as nat,
            treasury_account: self.treasury_account,
            treasury_bump: self.treasury_bump,
            is_private: self.is_private,
            private_group: self.private_group@,
            bump: self.bump,
        }
    }
}

impl Challenge {
    /// The invariant of a challenge: it ends after it starts, a private
    /// challenge admits somebody, the allow-list fits the record, and the
    /// pool counts one stake for each participant who joined.
    pub open spec fn wf(self) -> bool {
        &&& self.start_time < self.end_time
        &&& self.is_private ==> self.private_group.len() > 0
        &&& self.private_group.len() <= MAX_PRIVATE_GROUP
        &&& self.money_pool == self.total_participants * self.money_per_participant
    }

    /// `other` is the same challenge at another moment: everything that is
    /// fixed at creation agrees, only the running totals may differ.
    pub open spec fn same_terms(self, other: Challenge) -> bool {
        other == (Challenge {
            total_participants: other.total_participants,
            total_votes: other.total_votes,
            money_pool: other.money_pool,
            ..self
        })
    }

    /// Whether `participant` may join: anybody may join a public
    /// challenge, a private one only those on its allow-list.
    pub open spec fn admits(self, participant: Pubkey) -> bool {
        self.is_private ==> self.private_group.contains(participant)
    }

    /// The challenge has started at time `now`.
    pub open spec fn started(self, now: int) -> bool {
        self.start_time <= now
    }

    /// The challenge has ended at time `now`.
    pub open spec fn ended(self, now: int) -> bool {
        self.end_time <= now
    }

    /// The verification window is over at time `now`: claims are open and
    /// no verification is taken any more.
    pub open spec fn verification_closed(self, now: int) -> bool {
        self.end_time + VERIFICATION_DURATION <= now
    }

    /// The verification window is open at time `now`.
    pub open spec fn under_verification(self, now: int) -> bool {
        self.ended(now) && !self.verification_closed(now)
    }
}

impl ChallengeAccount {
    /// Decides [`Challenge::admits`].
    pub fn admits(&self, participant: &Pubkey) -> (r: bool)
        ensures
            r == self@.admits(*participant),
    {
        if !self.is_private {
            return true;
        }
        let mut i: usize = 0;
        while i < self.private_group.len()
            invariant
                i <= self.private_group.len(),
                forall|j: int| 0 <= j < i ==> self.private_group@[j] != *participant,
            decreases self.private_group.len() - i,
        {
            if self.private_group[i] == *participant {
                return true;
            }
            i += 1;
        }
        false
    }

    /// Decides [`Challenge::started`].
    pub fn started(&self, now: i64) -> (r: bool)
        ensures
            r == self@.started(now as int),
    {
        self.start_time <= now
    }

    /// Decides [`Challenge::ended`].
    pub fn ended(&self, now: i64) -> (r: bool)
        ensures
            r == self@.ended(now as int),
    {
        self.end_time <= now
    }

    /// Decides [`Challenge::verification_closed`]. The sum is taken in a
    /// wider type, so it is exact for every end time.
    pub fn verification_closed(&self, now: i64) -> (r: bool)
        ensures
            r == self@.verification_closed(now as int),
    {
        self.end_time as i128 + VERIFICATION_DURATION as i128 <= now as i128
    }
}

} // verus!
