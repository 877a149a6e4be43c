//! The records that the engine works on, each with its mathematical model.

pub mod challenge;
pub mod program;
pub mod user;
pub mod vote;

pub use challenge::{
    Challenge, ChallengeAccount, ChallengeInformation, ChallengeType, ChallengeVerification,
    ChallengeVerificationType, MAX_PRIVATE_GROUP, VERIFICATION_DURATION,
};
pub use program::ProgramState;
pub use user::{Membership, Profile, UserAccount, UserChallengeAccount};
pub use vote::VoteAccount;
