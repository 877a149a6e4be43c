//! Escrow and verification engine for staked personal challenges.
//!
//! Participants deposit a fixed stake into a challenge's treasury before the
//! challenge starts. After it ends, a thirty minute verification window opens
//! in which completion is adjudicated, by the registry owner for monitored
//! goals or by peer vote for community goals. Once the window has closed a
//! participant whose goal counts as completed may claim the stake back,
//! exactly once.
//!
//! The engine holds no storage, clock or token ledger of its own. Every
//! instruction runs against a set of records resolved up front by the host,
//! takes the current time as an argument, and reaches the token custody
//! through a callback handed in by the caller.

pub mod custody;
pub mod errors;
pub mod history;
pub mod instructions;
pub mod lifecycle;
pub mod pubkey;
pub mod states;

pub use custody::{Mint, Transfer};
pub use errors::{ErrorCode, Failure};
pub use instructions::{
    ClaimChallenge, Initialize, InitializeBumps, InitializeChallenge, InitializeChallengeBumps,
    JoinChallenge, JoinChallengeBumps, UpdateChallengeStatus, VoteForVoteBasedChallenge,
    VoteForVoteBasedChallengeBumps,
};
pub use pubkey::Pubkey;
pub use states::{
    Challenge, ChallengeAccount, ChallengeInformation, ChallengeType, ChallengeVerification,
    ChallengeVerificationType, Membership, Profile, ProgramState, UserAccount,
    UserChallengeAccount, VoteAccount, MAX_PRIVATE_GROUP, VERIFICATION_DURATION,
};
