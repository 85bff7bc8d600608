//! Behavioral tests for the poll library: casting, changing and undoing
//! votes, rejected operations, concrete checks of the ledger invariants,
//! the decision core, and the lifetime-renewal policy.

use poll::next_count;
use poll::renew_lifetime;
use poll::vote_outcome;
use poll::init_outcome;
use poll::PollContract;
use poll::PollError;
use poll::VotePlan;
use poll::DAY_IN_LEDGERS;
use poll::INSTANCE_TTL_EXTEND;
use poll::INSTANCE_TTL_THRESHOLD;

fn two_color_poll() -> PollContract {
    let mut p = PollContract::new();
    let options = vec!["Red".to_string(), "Blue".to_string()];
    assert_eq!(p.init("Favorite Color?".to_string(), options), Ok(()));
    p
}

#[test]
fn test_init_and_vote() {
    let mut p = two_color_poll();

    let voter1: u64 = 1;
    let voter2: u64 = 2;

    // Vote for option 0 (Red)
    assert_eq!(p.vote(voter1, 0), Ok(()));

    // Vote for option 1 (Blue)
    assert_eq!(p.vote(voter2, 1), Ok(()));

    let state = p.get_poll_state();
    assert_eq!(state.question, "Favorite Color?");
    assert_eq!(state.options, vec!["Red".to_string(), "Blue".to_string()]);
    assert_eq!(state.votes[0], 1);
    assert_eq!(state.votes[1], 1);
}

#[test]
fn test_change_and_undo_vote() {
    let mut p = PollContract::new();
    let options = vec!["A".to_string(), "B".to_string()];
    assert_eq!(p.init("Q?".to_string(), options), Ok(()));

    let voter: u64 = 7;

    // Initial vote
    assert_eq!(p.vote(voter, 0), Ok(()));
    assert_eq!(p.get_poll_state().votes[0], 1);
    assert_eq!(p.get_voter_choice(voter), Some(0));

    // Change vote to option 1
    assert_eq!(p.vote(voter, 1), Ok(()));
    assert_eq!(p.get_poll_state().votes[0], 0);
    assert_eq!(p.get_poll_state().votes[1], 1);
    assert_eq!(p.get_voter_choice(voter), Some(1));

    // Undo vote (click option 1 again)
    assert_eq!(p.vote(voter, 1), Ok(()));
    assert_eq!(p.get_poll_state().votes[1], 0);
    assert_eq!(p.get_voter_choice(voter), None);
    assert!(!p.has_voted(voter));
}

#[test]
fn test_invalid_option() {
    let mut p = two_color_poll();

    // Option 2 doesn't exist (only 0 and 1)
    assert_eq!(p.vote(1, 2), Err(PollError::InvalidOption));

    let state = p.get_poll_state();
    assert_eq!(state.votes, vec![0, 0]);
    assert!(!p.has_voted(1));
}

#[test]
fn test_vote_before_initialization() {
    let mut p = PollContract::new();
    assert_eq!(p.vote(1, 0), Err(PollError::PollNotInitialized));
    assert!(!p.has_voted(1));
}

#[test]
fn test_init_requires_two_options() {
    let mut p = PollContract::new();

    // A single option is a caller contract violation: refused before any
    // state is written.
    let r = p.init_checked("Q?".to_string(), vec!["A".to_string()]);
    assert_eq!(r, None);

    let state = p.get_poll_state();
    assert_eq!(state.question, "");
    assert!(state.options.is_empty());
    assert!(state.votes.is_empty());
    assert_eq!(p.vote(1, 0), Err(PollError::PollNotInitialized));
}

#[test]
fn test_double_initialization() {
    let mut p = two_color_poll();
    assert_eq!(p.vote(3, 1), Ok(()));

    // A second initialization, with any arguments, changes nothing.
    let r = p.init("Other?".to_string(), vec!["X".to_string(), "Y".to_string()]);
    assert_eq!(r, Err(PollError::PollAlreadyInitialized));

    let state = p.get_poll_state();
    assert_eq!(state.question, "Favorite Color?");
    assert_eq!(state.options, vec!["Red".to_string(), "Blue".to_string()]);
    assert_eq!(state.votes, vec![0, 1]);
    assert_eq!(p.get_voter_choice(3), Some(1));
}

#[test]
fn test_tally_sum_matches_voters() {
    let mut p = two_color_poll();
    let voters: [u64; 5] = [10, 11, 12, 13, 14];

    assert_eq!(p.vote(voters[0], 0), Ok(()));
    assert_eq!(p.vote(voters[1], 0), Ok(()));
    assert_eq!(p.vote(voters[2], 1), Ok(()));
    assert_eq!(p.vote(voters[3], 1), Ok(()));
    assert_eq!(p.vote(voters[4], 1), Ok(()));
    // One change and one undo.
    assert_eq!(p.vote(voters[0], 1), Ok(()));
    assert_eq!(p.vote(voters[4], 1), Ok(()));

    let state = p.get_poll_state();
    let sum: u32 = state.votes.iter().sum();
    let present = voters.iter().filter(|v| p.has_voted(**v)).count();
    assert_eq!(sum as usize, present);
    assert_eq!(sum, 4);
}

#[test]
fn test_stored_choices_in_range() {
    let mut p = two_color_poll();
    let voters: [u64; 3] = [1, 2, 3];
    assert_eq!(p.vote(voters[0], 0), Ok(()));
    assert_eq!(p.vote(voters[1], 1), Ok(()));
    assert_eq!(p.vote(voters[2], 1), Ok(()));
    assert_eq!(p.vote(voters[2], 0), Ok(()));

    let state = p.get_poll_state();
    assert_eq!(state.votes.len(), state.options.len());
    for v in voters.iter() {
        if let Some(choice) = p.get_voter_choice(*v) {
            assert!((choice as usize) < state.options.len());
        }
    }
}

#[test]
fn test_next_count_steps() {
    assert_eq!(next_count(0, true), 1);
    assert_eq!(next_count(41, true), 42);
    assert_eq!(next_count(5, false), 4);
    assert_eq!(next_count(1, false), 0);
    // The defensive floor: decrementing an already-zero cell stays at zero.
    assert_eq!(next_count(0, false), 0);
}

#[test]
fn test_renew_lifetime_policy() {
    assert_eq!(DAY_IN_LEDGERS, 17280);
    assert_eq!(INSTANCE_TTL_THRESHOLD, 7 * 17280);
    assert_eq!(INSTANCE_TTL_EXTEND, 30 * 17280);

    // Below the threshold: extended to the full window.
    assert_eq!(renew_lifetime(0, INSTANCE_TTL_THRESHOLD, INSTANCE_TTL_EXTEND), 30 * 17280);
    assert_eq!(
        renew_lifetime(INSTANCE_TTL_THRESHOLD - 1, INSTANCE_TTL_THRESHOLD, INSTANCE_TTL_EXTEND),
        30 * 17280
    );
    // At or above the threshold: left alone.
    assert_eq!(
        renew_lifetime(INSTANCE_TTL_THRESHOLD, INSTANCE_TTL_THRESHOLD, INSTANCE_TTL_EXTEND),
        INSTANCE_TTL_THRESHOLD
    );
    assert_eq!(renew_lifetime(600_000, INSTANCE_TTL_THRESHOLD, INSTANCE_TTL_EXTEND), 600_000);
}

#[test]
fn test_vote_outcome_plans() {
    // Rejections, checked in order: initialization first, then the index.
    assert_eq!(
        vote_outcome(false, 2, None, 0),
        Err(PollError::PollNotInitialized)
    );
    assert_eq!(
        vote_outcome(false, 2, None, 9),
        Err(PollError::PollNotInitialized)
    );
    assert_eq!(vote_outcome(true, 2, None, 2), Err(PollError::InvalidOption));

    // The three mutually exclusive plans.
    assert_eq!(vote_outcome(true, 2, None, 1), Ok(VotePlan::Cast { option: 1 }));
    assert_eq!(vote_outcome(true, 2, Some(1), 1), Ok(VotePlan::Undo { option: 1 }));
    assert_eq!(
        vote_outcome(true, 2, Some(0), 1),
        Ok(VotePlan::Change { from: 0, to: 1 })
    );
}

#[test]
fn test_init_outcome() {
    assert_eq!(init_outcome(false), Ok(()));
    assert_eq!(init_outcome(true), Err(PollError::PollAlreadyInitialized));
}

#[test]
fn test_get_poll_state_before_initialization() {
    let p = PollContract::new();
    let state = p.get_poll_state();
    assert_eq!(state.question, "");
    assert!(state.options.is_empty());
    assert!(state.votes.is_empty());
    assert!(!p.has_voted(1));
    assert_eq!(p.get_voter_choice(1), None);
}
