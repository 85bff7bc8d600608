//! The recoverable failures of the poll operations, returned as typed
//! results.  Violating the "at least two options" precondition of
//! initialization is not among them: that is a caller contract violation,
//! kept out by `requires` rather than reported.

use vstd::prelude::*;

verus! {

/// Why a poll operation was refused.
#[derive(Copy, Clone, Debug, PartialEq, Eq, PartialOrd, Ord)]
pub enum PollError {
    /// The referenced option index lies outside the configured option list.
    InvalidOption,
    /// A vote arrived before the poll was initialized.
    PollNotInitialized,
    /// A second initialization attempt; initialization is strictly one-shot.
    PollAlreadyInitialized,
}

} // verus!
