//! A single-question poll: one vote per identity against a fixed list of
//! options, with running per-option tallies, idempotent vote changes and
//! self-undo, and a bounded-lifetime (renew-on-touch) storage discipline.

mod counting;
mod decision;
mod errors;
mod lifetime;
mod poll;

pub use counting::sum_tallies;
pub use decision::init_outcome;
pub use decision::next_count;
pub use decision::spec_next_count;
pub use decision::spec_vote_plan;
pub use decision::vote_outcome;
pub use decision::VotePlan;
pub use errors::PollError;
pub use lifetime::renew_lifetime;
pub use lifetime::spec_renew;
pub use lifetime::DAY_IN_LEDGERS;
pub use lifetime::INSTANCE_TTL_EXTEND;
pub use lifetime::INSTANCE_TTL_THRESHOLD;
pub use lifetime::PERSISTENT_TTL_EXTEND;
pub use lifetime::PERSISTENT_TTL_THRESHOLD;
pub use poll::lemma_double_vote_undoes;
pub use poll::lemma_stored_indices_in_range;
pub use poll::lemma_tally_sum_is_voter_count;
pub use poll::view_of_options;
pub use poll::PollContract;
pub use poll::PollState;
pub use poll::VoterRecord;
