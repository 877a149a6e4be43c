//! The instructions of the engine, one module each.

pub mod claim_challenge;
pub mod initialize;
pub mod initialize_challenge;
pub mod join_challenge;
pub mod update_challenge_status;
pub mod vote_for_vote_based_challenge;

pub use claim_challenge::ClaimChallenge;
pub use initialize::{Initialize, InitializeBumps};
pub use initialize_challenge::{InitializeChallenge, InitializeChallengeBumps};
pub use join_challenge::{JoinChallenge, JoinChallengeBumps};
pub use update_challenge_status::UpdateChallengeStatus;
pub use vote_for_vote_based_challenge::{
    VoteForVoteBasedChallenge, VoteForVoteBasedChallengeBumps,
};
