//! Recorded verifications and votes, one condition at a time.

use aaas_contract::{
    ChallengeAccount, ChallengeInformation, ChallengeType, ChallengeVerification,
    ChallengeVerificationType, ErrorCode, ProgramState, Pubkey, UpdateChallengeStatus,
    UserChallengeAccount, VoteAccount, VoteForVoteBasedChallenge, VoteForVoteBasedChallengeBumps,
};

const END: i64 = 20_000;
const CLOSED: i64 = END + 1_800;

fn key(n: u8) -> Pubkey {
    Pubkey([n; 32])
}

fn owner() -> Pubkey {
    key(1)
}

fn challenge(goal: ChallengeType) -> ChallengeAccount {
    ChallengeAccount {
        challenge_id: 7,
        challenge_information: ChallengeInformation {
            challenge_type: goal,
            challenge_name: String::from("goal"),
            challenge_description: String::from("reach it"),
        },
        start_time: 10_000,
        end_time: END,
        total_participants: 1,
        total_votes: 0,
        money_pool: 250,
        money_per_participant: 250,
        treasury_account: key(50),
        treasury_bump: 249,
        is_private: false,
        private_group: Vec::new(),
        bump: 248,
    }
}

fn member() -> UserChallengeAccount {
    UserChallengeAccount {
        challenge_address: key(51),
        description: String::from("every evening"),
        user_address: key(2),
        is_joined: true,
        money_deposited: 250,
        is_challenge_completed: false,
        bump: 12,
        score: 0,
        vote_in_positive: 0,
        vote_in_negative: 0,
    }
}

fn blank_vote() -> VoteAccount {
    VoteAccount {
        challenge_address: key(0),
        user_address: key(0),
        is_voted: false,
        is_completed: false,
        bump: 0,
        voter_address: key(0),
    }
}

fn monitored(score: u64, is_completed: bool) -> ChallengeVerification {
    ChallengeVerification {
        challenge_type: ChallengeVerificationType::Monitored { score, is_completed },
    }
}

fn verifying() -> UpdateChallengeStatus {
    UpdateChallengeStatus {
        signer: owner(),
        state: ProgramState { owner: owner(), bump: 255 },
        challenge_account: challenge(ChallengeType::GoogleFit { steps: 10_000 }),
        user_challenge_account: member(),
    }
}

fn voting() -> VoteForVoteBasedChallenge {
    VoteForVoteBasedChallenge {
        signer: key(3),
        challenge_account: challenge(ChallengeType::VoteBased),
        challenge_address: key(51),
        user_challenge_account: member(),
        vote_account: blank_vote(),
    }
}

fn record(records: &mut UpdateChallengeStatus, v: ChallengeVerification, now: i64) -> Result<(), ErrorCode> {
    records.update_challenge_status(7, key(2), v, now)
}

fn vote(records: &mut VoteForVoteBasedChallenge, is_completed: bool, now: i64) -> Result<(), ErrorCode> {
    records.vote_for_vote_based_challenge(
        7,
        key(2),
        ChallengeVerificationType::VoteBased { is_completed },
        &VoteForVoteBasedChallengeBumps { vote_account: 99 },
        now,
    )
}

#[test]
fn a_completed_verification_marks_the_goal_and_stores_the_score() {
    let mut records = verifying();
    assert_eq!(record(&mut records, monitored(12_000, true), END), Ok(()));
    let mut expected = member();
    expected.is_challenge_completed = true;
    expected.score = 12_000;
    assert_eq!(records.user_challenge_account, expected);
    assert_eq!(records.signer, owner());
    assert_eq!(records.state, ProgramState { owner: owner(), bump: 255 });
    assert_eq!(records.challenge_account, challenge(ChallengeType::GoogleFit { steps: 10_000 }));
}

#[test]
fn a_verification_without_completion_is_accepted_and_changes_nothing() {
    let mut records = verifying();
    assert_eq!(record(&mut records, monitored(3_000, false), END), Ok(()));
    assert_eq!(records, verifying());
}

#[test]
fn a_later_verification_may_still_report_completion() {
    let mut records = verifying();
    assert_eq!(record(&mut records, monitored(3_000, false), END), Ok(()));
    assert!(!records.user_challenge_account.is_challenge_completed);
    assert_eq!(record(&mut records, monitored(11_000, true), END + 60), Ok(()));
    assert!(records.user_challenge_account.is_challenge_completed);
    assert_eq!(records.user_challenge_account.score, 11_000);
}

#[test]
fn a_verification_without_completion_does_not_take_completion_back() {
    let mut records = verifying();
    assert_eq!(record(&mut records, monitored(11_000, true), END), Ok(()));
    assert_eq!(record(&mut records, monitored(1, false), END + 1), Ok(()));
    assert!(records.user_challenge_account.is_challenge_completed);
    assert_eq!(records.user_challenge_account.score, 11_000);
    assert_eq!(record(&mut records, monitored(12_500, true), END + 2), Ok(()));
    assert_eq!(records.user_challenge_account.score, 12_500);
}

#[test]
fn only_the_owner_records_verifications() {
    let mut records = verifying();
    records.signer = key(2);
    assert_eq!(
        record(&mut records, monitored(12_000, true), END),
        Err(ErrorCode::UnAuthorizedOwner)
    );
    assert_eq!(records.user_challenge_account, member());
    records.signer = owner();
    records.state.owner = key(4);
    assert_eq!(
        record(&mut records, monitored(12_000, true), END),
        Err(ErrorCode::UnAuthorizedOwner)
    );
    assert_eq!(records.user_challenge_account, member());
}

#[test]
fn verifications_are_taken_within_the_window_only() {
    for now in [i64::MIN, 0, END - 1] {
        let mut records = verifying();
        assert_eq!(
            record(&mut records, monitored(1, true), now),
            Err(ErrorCode::ChallengeNotEnded)
        );
        assert_eq!(records, verifying());
    }
    for now in [END, END + 1, CLOSED - 1] {
        let mut records = verifying();
        assert_eq!(record(&mut records, monitored(1, true), now), Ok(()));
    }
    for now in [CLOSED, CLOSED + 1, i64::MAX] {
        let mut records = verifying();
        assert_eq!(
            record(&mut records, monitored(1, true), now),
            Err(ErrorCode::ChallengeVerificationTimeEnded)
        );
        assert_eq!(records, verifying());
    }
}

#[test]
fn a_window_at_the_end_of_time_stays_open() {
    let mut records = verifying();
    records.challenge_account.end_time = i64::MAX;
    assert_eq!(
        record(&mut records, monitored(1, true), i64::MAX - 1),
        Err(ErrorCode::ChallengeNotEnded)
    );
    assert_eq!(record(&mut records, monitored(1, true), i64::MAX), Ok(()));

    let mut records = voting();
    records.challenge_account.end_time = i64::MAX - 1_000;
    assert_eq!(vote(&mut records, true, i64::MAX), Ok(()));
}

#[test]
fn recorded_verifications_are_for_monitored_goals() {
    for goal in [ChallengeType::VoteBased, ChallengeType::Github { commits: 5 }] {
        let mut records = verifying();
        records.challenge_account = challenge(goal);
        let before = records.clone();
        assert_eq!(
            record(&mut records, monitored(1, true), END),
            Err(ErrorCode::InvalidVerificationType)
        );
        assert_eq!(records, before);
    }
    for is_completed in [true, false] {
        let mut records = verifying();
        let ballot = ChallengeVerification {
            challenge_type: ChallengeVerificationType::VoteBased { is_completed },
        };
        assert_eq!(record(&mut records, ballot, END), Err(ErrorCode::InvalidVerificationType));
        assert_eq!(records, verifying());
    }
}

#[test]
fn verification_tests_owner_then_membership_then_window_then_type() {
    let mut records = verifying();
    records.signer = key(9);
    records.user_challenge_account.is_joined = false;
    records.challenge_account = challenge(ChallengeType::VoteBased);
    assert_eq!(
        record(&mut records, monitored(1, true), END - 1),
        Err(ErrorCode::UnAuthorizedOwner)
    );
    records.signer = owner();
    assert_eq!(
        record(&mut records, monitored(1, true), END - 1),
        Err(ErrorCode::UserDidNotParticipate)
    );
    records.user_challenge_account.is_joined = true;
    assert_eq!(
        record(&mut records, monitored(1, true), END - 1),
        Err(ErrorCode::ChallengeNotEnded)
    );
    assert_eq!(
        record(&mut records, monitored(1, true), CLOSED),
        Err(ErrorCode::ChallengeVerificationTimeEnded)
    );
    assert_eq!(
        record(&mut records, monitored(1, true), END),
        Err(ErrorCode::InvalidVerificationType)
    );
}

#[test]
fn a_vote_is_tallied_and_recorded() {
    let mut records = voting();
    assert_eq!(vote(&mut records, true, END), Ok(()));
    let mut expected = member();
    expected.vote_in_positive = 1;
    assert_eq!(records.user_challenge_account, expected);
    assert_eq!(
        records.vote_account,
        VoteAccount {
            challenge_address: key(51),
            user_address: key(2),
            is_voted: true,
            is_completed: true,
            bump: 99,
            voter_address: key(3),
        }
    );
    assert_eq!(records.challenge_account, challenge(ChallengeType::VoteBased));
    assert_eq!(records.signer, key(3));
    assert_eq!(records.challenge_address, key(51));

    let mut records = voting();
    records.user_challenge_account.vote_in_positive = 6;
    records.user_challenge_account.vote_in_negative = 2;
    assert_eq!(vote(&mut records, false, CLOSED - 1), Ok(()));
    assert_eq!(records.user_challenge_account.vote_in_positive, 6);
    assert_eq!(records.user_challenge_account.vote_in_negative, 3);
    assert!(records.vote_account.is_voted);
    assert!(!records.vote_account.is_completed);
    assert!(!records.user_challenge_account.is_challenge_completed);
}

#[test]
fn votes_are_taken_for_goals_judged_by_vote() {
    let mut records = voting();
    records.challenge_account = challenge(ChallengeType::Github { commits: 12 });
    assert_eq!(vote(&mut records, true, END), Ok(()));
    assert_eq!(records.user_challenge_account.vote_in_positive, 1);

    let mut records = voting();
    records.challenge_account = challenge(ChallengeType::GoogleFit { steps: 1 });
    let before = records.clone();
    assert_eq!(vote(&mut records, true, END), Err(ErrorCode::InvalidVerificationType));
    assert_eq!(records, before);

    let mut records = voting();
    let result = records.vote_for_vote_based_challenge(
        7,
        key(2),
        ChallengeVerificationType::Monitored { score: 1, is_completed: true },
        &VoteForVoteBasedChallengeBumps { vote_account: 99 },
        END,
    );
    assert_eq!(result, Err(ErrorCode::InvalidVerificationType));
    assert_eq!(records, voting());
}

#[test]
fn votes_are_taken_within_the_window_only() {
    for now in [i64::MIN, END - 1] {
        let mut records = voting();
        assert_eq!(vote(&mut records, true, now), Err(ErrorCode::ChallengeNotEnded));
        assert_eq!(records, voting());
    }
    for now in [END, CLOSED - 1] {
        let mut records = voting();
        assert_eq!(vote(&mut records, true, now), Ok(()));
    }
    for now in [CLOSED, i64::MAX] {
        let mut records = voting();
        assert_eq!(vote(&mut records, true, now), Err(ErrorCode::ChallengeVerificationTimeEnded));
        assert_eq!(records, voting());
    }
}

#[test]
fn nobody_votes_on_themselves_or_on_a_stranger() {
    let mut records = voting();
    records.signer = key(2);
    assert_eq!(vote(&mut records, true, END), Err(ErrorCode::VoterIsVotingForHimself));
    assert_eq!(records.user_challenge_account, member());
    assert_eq!(records.vote_account, blank_vote());

    let mut records = voting();
    records.user_challenge_account.is_joined = false;
    assert_eq!(vote(&mut records, true, END), Err(ErrorCode::UserDidNotParticipate));
    assert_eq!(records.vote_account, blank_vote());
}

#[test]
fn a_voter_judges_a_membership_once() {
    let mut records = voting();
    assert_eq!(vote(&mut records, false, END), Ok(()));
    let after_first = records.clone();
    assert_eq!(vote(&mut records, false, END + 1), Err(ErrorCode::UserHasAlreadyVoted));
    assert_eq!(vote(&mut records, true, END + 2), Err(ErrorCode::UserHasAlreadyVoted));
    assert_eq!(records, after_first);
    assert_eq!(records.user_challenge_account.vote_in_negative, 1);
    assert_eq!(records.user_challenge_account.vote_in_positive, 0);
}

#[test]
fn vote_tests_membership_then_voter_then_window_then_record_then_type() {
    let mut records = voting();
    records.user_challenge_account.is_joined = false;
    records.signer = key(2);
    records.vote_account.is_voted = true;
    records.challenge_account = challenge(ChallengeType::GoogleFit { steps: 1 });
    assert_eq!(vote(&mut records, true, END - 1), Err(ErrorCode::UserDidNotParticipate));
    records.user_challenge_account.is_joined = true;
    assert_eq!(vote(&mut records, true, END - 1), Err(ErrorCode::VoterIsVotingForHimself));
    records.signer = key(3);
    assert_eq!(vote(&mut records, true, END - 1), Err(ErrorCode::ChallengeNotEnded));
    assert_eq!(vote(&mut records, true, CLOSED), Err(ErrorCode::ChallengeVerificationTimeEnded));
    assert_eq!(vote(&mut records, true, END), Err(ErrorCode::UserHasAlreadyVoted));
    records.vote_account.is_voted = false;
    assert_eq!(vote(&mut records, true, END), Err(ErrorCode::InvalidVerificationType));
}

#[test]
fn a_tally_may_reach_its_limit() {
    let mut records = voting();
    records.user_challenge_account.vote_in_positive = u64::MAX - 1;
    records.user_challenge_account.vote_in_negative = u64::MAX;
    assert_eq!(vote(&mut records, true, END), Ok(()));
    assert_eq!(records.user_challenge_account.vote_in_positive, u64::MAX);
    assert_eq!(records.user_challenge_account.vote_in_negative, u64::MAX);
}

#[test]
fn the_schedule_predicates_agree_with_the_window() {
    let c = challenge(ChallengeType::VoteBased);
    assert!(!c.started(9_999));
    assert!(c.started(10_000));
    assert!(!c.ended(END - 1));
    assert!(c.ended(END));
    assert!(!c.verification_closed(CLOSED - 1));
    assert!(c.verification_closed(CLOSED));
    assert!(c.admits(&key(2)));
    let mut private = c.clone();
    private.is_private = true;
    private.private_group = vec![key(5), key(6)];
    assert!(private.admits(&key(5)));
    assert!(private.admits(&key(6)));
    assert!(!private.admits(&key(2)));
}

#[test]
fn prepare_decides_a_vote_without_casting_it() {
    let records = voting();
    let in_favour = ChallengeVerificationType::VoteBased { is_completed: true };
    let against = ChallengeVerificationType::VoteBased { is_completed: false };
    assert_eq!(records.prepare(in_favour, END), Ok(true));
    assert_eq!(records.prepare(against, END), Ok(false));
    assert_eq!(records.prepare(in_favour, END - 1), Err(ErrorCode::ChallengeNotEnded));
    assert_eq!(
        records.prepare(in_favour, CLOSED),
        Err(ErrorCode::ChallengeVerificationTimeEnded)
    );
    assert_eq!(
        records.prepare(ChallengeVerificationType::Monitored { score: 0, is_completed: true }, END),
        Err(ErrorCode::InvalidVerificationType)
    );
    assert_eq!(records, voting());
}

#[test]
fn room_is_what_the_tally_can_still_take() {
    let in_favour = ChallengeVerificationType::VoteBased { is_completed: true };
    let against = ChallengeVerificationType::VoteBased { is_completed: false };
    let monitored = ChallengeVerificationType::Monitored { score: 0, is_completed: true };
    let mut records = voting();
    assert!(records.has_room(in_favour));
    assert!(records.has_room(against));
    records.user_challenge_account.vote_in_positive = u64::MAX;
    assert!(!records.has_room(in_favour));
    assert!(records.has_room(against));
    assert!(records.has_room(monitored));
    records.user_challenge_account.vote_in_negative = u64::MAX;
    assert!(!records.has_room(against));
    assert!(records.has_room(monitored));
}
