//! The decision core of the vote state machine: given what is currently
//! stored, what must a vote do?  These functions are pure, so a deployment
//! that keeps the ledger in an external key-value substrate can read the few
//! cells a vote touches, let this module decide, and apply the result.

use vstd::prelude::*;

use crate::errors::PollError;

verus! {

/// What a valid vote does to the ledger, keyed on the voter's existing
/// record.  The three outcomes are mutually exclusive and exhaustive; there
/// is no "reject duplicate identical vote" path, since re-voting for the
/// same option is defined as undo.
#[derive(Copy, Clone, Debug, PartialEq, Eq)]
pub enum VotePlan {
    /// No existing record: count the vote for `option` and create a record.
    Cast { option: u32 },
    /// The existing record already chooses `option`: uncount it and delete
    /// the record (self-undo), returning the voter to "has not voted".
    Undo { option: u32 },
    /// The existing record chooses `from != to`: move one count from `from`
    /// to `to` and overwrite the record.
    Change { from: u32, to: u32 },
}

/// The plan a valid vote follows, as a function of the voter's existing
/// record and the newly chosen option.
pub open spec fn spec_vote_plan(existing: Option<u32>, option_index: u32) -> VotePlan {
    match existing {
        None => VotePlan::Cast { option: option_index },
        Some(old_index) => if old_index == option_index {
            VotePlan::Undo { option: option_index }
        } else {
            VotePlan::Change { from: old_index, to: option_index }
        },
    }
}

/// Decide a vote: reject it when the poll is not initialized or the option
/// index is out of range (checked in that order), else return the plan.
pub fn vote_outcome(
    initialized: bool,
    n_options: usize,
    existing: Option<u32>,
    option_index: u32,
) -> (r: Result<VotePlan, PollError>)
    ensures
        !initialized ==> r == Err::<VotePlan, PollError>(PollError::PollNotInitialized),
        initialized && option_index as int >= n_options as int ==> r == Err::<
            VotePlan,
            PollError,
        >(PollError::InvalidOption),
        initialized && (option_index as int) < n_options as int ==> r == Ok::<
            VotePlan,
            PollError,
        >(spec_vote_plan(existing, option_index)),
{
    if !initialized {
        return Err(PollError::PollNotInitialized);
    }
    if option_index as usize >= n_options {
        return Err(PollError::InvalidOption);
    }
    match existing {
        None => Ok(VotePlan::Cast { option: option_index }),
        Some(old_index) => if old_index == option_index {
            Ok(VotePlan::Undo { option: option_index })
        } else {
            Ok(VotePlan::Change { from: old_index, to: option_index })
        },
    }
}

/// Decide an initialization attempt: strictly one-shot, so a second attempt
/// is refused and never silently ignored.
pub fn init_outcome(initialized: bool) -> (r: Result<(), PollError>)
    ensures
        r == if initialized {
            Err::<(), PollError>(PollError::PollAlreadyInitialized)
        } else {
            Ok::<(), PollError>(())
        },
{
    if initialized {
        Err(PollError::PollAlreadyInitialized)
    } else {
        Ok(())
    }
}

/// The value of a tally cell after one counting step: incremented, or
/// decremented saturating at zero (a defensive floor against corrupted
/// cells; under the ledger invariant a decrement never meets zero).
pub open spec fn spec_next_count(count: u32, increment: bool) -> u32 {
    if increment {
        (count + 1) as u32
    } else if count > 0 {
        (count - 1) as u32
    } else {
        0u32
    }
}

/// Apply one counting step to a tally cell.
pub fn next_count(count: u32, increment: bool) -> (r: u32)
    requires
        increment ==> count < u32::MAX,
    ensures
        r == spec_next_count(count, increment),
{
    if increment {
        count + 1
    } else if count > 0 {
        count - 1
    } else {
        0
    }
}

} // verus!
