//! The reasons for which an instruction is rejected.

use vstd::prelude::*;

verus! {

/// Why an instruction was rejected. A rejected instruction changes nothing.
#[derive(Clone, Copy, Debug, PartialEq, Eq, Structural, Hash)]
pub enum ErrorCode {
    /// The challenge is private and the participant is not on its allow-list.
    UnAuthorized,
    /// The participant already holds a membership in the challenge.
    AlreadyJoined,
    /// The challenge has started, so nobody can join any more.
    ChallengeStarted,
    /// A private challenge was given an empty allow-list.
    PrivateGroupEmpty,
    /// Invalid schedule: the start time is not in the future.
    StartTimeInThePast,
    /// Invalid schedule: the end time is not after the start time.
    EndTimeBeforeStartTime,
    /// The participant never joined the challenge.
    UserDidNotParticipate,
    /// The challenge has not ended, so verification cannot begin.
    ChallengeNotEnded,
    /// The participant's goal does not count as completed.
    UserHasNotCompletedTheChallenge,
    /// The stake was already paid back.
    AlreadyClaimed,
    /// The challenge has not started yet.
    ChallengeNotStarted,
    /// The challenge has ended.
    ChallengeEnded,
    /// The verification does not fit the challenge's goal type.
    InvalidVerificationType,
    /// The verification window is still open, so claims are blocked.
    ChallengeUnderVerification,
    /// The verification window has closed.
    ChallengeVerificationTimeEnded,
    /// A voter tried to judge their own membership.
    VoterIsVotingForHimself,
    /// The caller is not the registry owner.
    UnAuthorizedOwner,
    /// The voter has already judged this membership.
    UserHasAlreadyVoted,
}

/// Why an instruction that moves the stake did not go through: it was
/// rejected before any transfer was attempted, or the custody refused the
/// transfer. Either way nothing has changed.
#[derive(Clone, Copy, Debug, PartialEq, Eq)]
pub enum Failure<E> {
    /// A precondition of the instruction does not hold.
    Rejected(ErrorCode),
    /// The custody failed the transfer; its error is handed on as it came.
    Custody(E),
}

} // verus!
