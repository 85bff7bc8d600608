//! One poll instance: the immutable configuration (question and option
//! labels, set exactly once), the vote ledger (per-identity records and
//! per-option tallies), and the remaining storage lifetimes of both tiers.
//!
//! Every reachable state satisfies `inv`: `new` establishes it and every
//! operation preserves it.  The law lemmas at the end of this module state
//! the guarantees that follow.

use std::collections::HashMap;

use vstd::prelude::*;

use crate::counting::choosers;
use crate::counting::lemma_choosers_insert;
use crate::counting::lemma_choosers_remove;
use crate::counting::lemma_choosers_within_dom;
use crate::counting::lemma_sum_choosers_counts_all;
use crate::counting::lemma_sum_tallies_matches;
use crate::counting::sum_tallies;
use crate::decision::next_count;
use crate::decision::spec_next_count;
use crate::decision::spec_vote_plan;
use crate::decision::vote_outcome;
use crate::decision::VotePlan;
use crate::errors::PollError;
use crate::lifetime::renew_lifetime;
use crate::lifetime::spec_renew;
use crate::lifetime::INSTANCE_TTL_EXTEND;
use crate::lifetime::INSTANCE_TTL_THRESHOLD;
use crate::lifetime::PERSISTENT_TTL_EXTEND;
use crate::lifetime::PERSISTENT_TTL_THRESHOLD;

verus! {

broadcast use vstd::std_specs::hash::group_hash_axioms;

/// One identity's live record: the option it currently chooses, and the
/// remaining storage lifetime of the record itself.  Each record's lifetime
/// is renewed independently of the configuration region's.
#[derive(Copy, Clone, Debug, PartialEq, Eq, Structural)]
pub struct VoterRecord {
    /// The option index this identity currently chooses.
    pub choice: u32,
    /// Remaining storage lifetime of this record, in ledgers.
    pub lifetime: u32,
}

/// A read-only snapshot of a poll: the question, the option labels, and one
/// tally per option index.  Reassembled by `get_poll_state`; holding it
/// mutates nothing.
#[derive(Clone, Debug, PartialEq, Eq)]
pub struct PollState {
    /// The question text, empty if the poll was never initialized.
    pub question: String,
    /// The option labels, empty if the poll was never initialized.
    pub options: Vec<String>,
    /// The tally by option index, empty if the poll was never initialized.
    pub votes: Vec<u32>,
}

/// The character sequences of a list of option labels.
pub open spec fn view_of_options(options: Seq<String>) -> Seq<Seq<char>> {
    Seq::new(options.len(), |i: int| options[i]@)
}

/// One poll instance.  All operations are parameterized by the instance
/// they act on, so several independent polls can share a deployment.
pub struct PollContract {
    initialized: bool,
    question: String,
    options: Vec<String>,
    tallies: Vec<u32>,
    voters: HashMap<u64, VoterRecord>,
    instance_lifetime: u32,
}

impl PollContract {
    /// Whether the poll has been initialized.
    pub closed spec fn is_init(self) -> bool {
        self.initialized
    }

    /// The question text.
    pub closed spec fn question_view(self) -> Seq<char> {
        self.question@
    }

    /// The option labels.
    pub closed spec fn options_view(self) -> Seq<Seq<char>> {
        view_of_options(self.options@)
    }

    /// The tally cells, indexed by option.
    pub closed spec fn tallies_view(self) -> Seq<u32> {
        self.tallies@
    }

    /// The live voter records, keyed by identity.
    pub closed spec fn voters_view(self) -> Map<u64, VoterRecord> {
        self.voters@
    }

    /// Remaining storage lifetime of the configuration region, in ledgers.
    pub closed spec fn config_lifetime(self) -> u32 {
        self.instance_lifetime
    }

    /// The option an identity currently chooses; absent means "has not
    /// voted", whether it never voted or undid its vote.
    pub open spec fn voter_choice_view(self, voter: u64) -> Option<u32> {
        if self.voters_view().dom().contains(voter) {
            Some(self.voters_view()[voter].choice)
        } else {
            None
        }
    }

    /// Well-formedness of a poll instance.  `new` establishes it and every
    /// operation preserves it, so it holds of all reachable states: one
    /// tally cell per option, at least two options once initialized, an
    /// empty configuration and ledger before initialization, every recorded
    /// choice in range, and every tally cell equal to the number of
    /// identities currently choosing that option.
    pub closed spec fn inv(self) -> bool {
        &&& self.tallies@.len() == self.options@.len()
        &&& (self.initialized ==> self.options@.len() >= 2)
        &&& (!self.initialized ==> self.question@.len() == 0 && self.options@.len() == 0
            && self.voters@.dom() == Set::<u64>::empty())
        &&& forall|id: u64| #[trigger]
            self.voters@.dom().contains(id) ==> (self.voters@[id].choice as int)
                < self.options@.len()
        &&& forall|i: int|
            0 <= i < self.tallies@.len() ==> #[trigger] self.tallies@[i] as int == choosers(
                self.voters@,
                i,
            ).len()
    }

    /// No observable difference between two instance states.
    pub open spec fn state_unchanged(pre: PollContract, post: PollContract) -> bool {
        &&& post.is_init() == pre.is_init()
        &&& post.question_view() == pre.question_view()
        &&& post.options_view() == pre.options_view()
        &&& post.tallies_view() == pre.tallies_view()
        &&& post.voters_view() == pre.voters_view()
        &&& post.config_lifetime() == pre.config_lifetime()
    }

    /// The full effect of an initialization attempt.
    pub open spec fn init_post(
        pre: PollContract,
        post: PollContract,
        question: String,
        options: Vec<String>,
        r: Result<(), PollError>,
    ) -> bool {
        if pre.is_init() {
            &&& r == Err::<(), PollError>(PollError::PollAlreadyInitialized)
            &&& Self::state_unchanged(pre, post)
        } else {
            &&& r == Ok::<(), PollError>(())
            &&& post.is_init()
            &&& post.question_view() == question@
            &&& post.options_view() == view_of_options(options@)
            &&& post.tallies_view() == Seq::new(options@.len(), |i: int| 0u32)
            &&& post.voters_view() == pre.voters_view()
            &&& post.config_lifetime() == spec_renew(
                pre.config_lifetime(),
                INSTANCE_TTL_THRESHOLD,
                INSTANCE_TTL_EXTEND,
            )
        }
    }

    /// The vote ledger and the configuration region's lifetime are as they
    /// were; rejected operations leave them so.
    pub open spec fn ledger_unchanged(pre: PollContract, post: PollContract) -> bool {
        &&& post.tallies_view() == pre.tallies_view()
        &&& post.voters_view() == pre.voters_view()
        &&& post.config_lifetime() == pre.config_lifetime()
    }

    /// The full effect of a vote attempt: rejection before initialization,
    /// rejection of an out-of-range index, else the plan chosen by
    /// `spec_vote_plan` applied to the ledger, with the configuration
    /// region's lifetime renewed exactly on success.
    pub open spec fn vote_post(
        pre: PollContract,
        post: PollContract,
        voter: u64,
        option_index: u32,
        r: Result<(), PollError>,
    ) -> bool {
        &&& post.is_init() == pre.is_init()
        &&& post.question_view() == pre.question_view()
        &&& post.options_view() == pre.options_view()
        &&& if !pre.is_init() {
            &&& r == Err::<(), PollError>(PollError::PollNotInitialized)
            &&& Self::ledger_unchanged(pre, post)
        } else if option_index as int >= pre.options_view().len() {
            &&& r == Err::<(), PollError>(PollError::InvalidOption)
            &&& Self::ledger_unchanged(pre, post)
        } else {
            &&& r == Ok::<(), PollError>(())
            &&& post.config_lifetime() == spec_renew(
                pre.config_lifetime(),
                INSTANCE_TTL_THRESHOLD,
                INSTANCE_TTL_EXTEND,
            )
            &&& match spec_vote_plan(pre.voter_choice_view(voter), option_index) {
                VotePlan::Cast { option } => {
                    &&& post.voters_view() == pre.voters_view().insert(
                        voter,
                        VoterRecord { choice: option, lifetime: PERSISTENT_TTL_EXTEND },
                    )
                    &&& post.tallies_view() == pre.tallies_view().update(
                        option as int,
                        spec_next_count(pre.tallies_view()[option as int], true),
                    )
                },
                VotePlan::Undo { option } => {
                    &&& post.voters_view() == pre.voters_view().remove(voter)
                    &&& post.tallies_view() == pre.tallies_view().update(
                        option as int,
                        spec_next_count(pre.tallies_view()[option as int], false),
                    )
                },
                VotePlan::Change { from, to } => {
                    &&& post.voters_view() == pre.voters_view().insert(
                        voter,
                        VoterRecord {
                            choice: to,
                            lifetime: spec_renew(
                                pre.voters_view()[voter].lifetime,
                                PERSISTENT_TTL_THRESHOLD,
                                PERSISTENT_TTL_EXTEND,
                            ),
                        },
                    )
                    &&& post.tallies_view() == pre.tallies_view().update(
                        from as int,
                        spec_next_count(pre.tallies_view()[from as int], false),
                    ).update(to as int, spec_next_count(pre.tallies_view()[to as int], true))
                },
            }
        }
    }

    /// A fresh, uninitialized poll instance: empty configuration, no tally
    /// cells, no voter records, no remaining lifetime.
    pub fn new() -> (p: PollContract)
        ensures
            p.inv(),
            !p.is_init(),
            p.question_view() == Seq::<char>::empty(),
            p.options_view() == Seq::<Seq<char>>::empty(),
            p.tallies_view() == Seq::<u32>::empty(),
            p.voters_view() == Map::<u64, VoterRecord>::empty(),
            p.config_lifetime() == 0u32,
    {
        let p = PollContract {
            initialized: false,
            question: String::new(),
            options: Vec::new(),
            tallies: Vec::new(),
            voters: HashMap::new(),
            instance_lifetime: 0,
        };
        proof {
            assert(p.options_view() =~= Seq::<Seq<char>>::empty());
            assert(p.voters@.dom() =~= Set::<u64>::empty());
        }
        p
    }

    /// Initialize the poll: persist the question and options verbatim, zero
    /// one tally cell per option, mark the poll initialized, and renew the
    /// configuration region's lifetime.  Strictly one-shot: a second call is
    /// refused with `PollAlreadyInitialized` and changes nothing.  Callers
    /// owe at least two options; handing fewer is a caller contract
    /// violation, not a recoverable result (see `init_checked`).
    pub fn init(&mut self, question: String, options: Vec<String>) -> (r: Result<(), PollError>)
        requires
            old(self).inv(),
            options@.len() >= 2,
        ensures
            final(self).inv(),
            Self::init_post(*old(self), *final(self), question, options, r),
    {
        if self.initialized {
            return Err(PollError::PollAlreadyInitialized);
        }
        let n = options.len();
        let mut tallies: Vec<u32> = Vec::new();
        let mut i: usize = 0;
        while i < n
            invariant
                i <= n,
                tallies@.len() == i as int,
                forall|j: int| 0 <= j < i as int ==> tallies@[j] == 0u32,
            decreases n - i,
        {
            tallies.push(0);
            i = i + 1;
        }
        self.question = question;
        self.options = options;
        self.tallies = tallies;
        self.initialized = true;
        self.instance_lifetime = renew_lifetime(
            self.instance_lifetime,
            INSTANCE_TTL_THRESHOLD,
            INSTANCE_TTL_EXTEND,
        );
        proof {
            assert(self.tallies@ =~= Seq::new(options@.len(), |k: int| 0u32));
            assert forall|k: int| 0 <= k < self.tallies@.len() implies #[trigger] self.tallies@[k]
                as int == choosers(self.voters@, k).len() by {
                assert(choosers(self.voters@, k) =~= Set::<u64>::empty());
            }
        }
        Ok(())
    }

    /// The guarded entry around `init`: refuse fewer than two options up
    /// front, before any state is written, and report that with `None`.
    pub fn init_checked(&mut self, question: String, options: Vec<String>) -> (r: Option<
        Result<(), PollError>,
    >)
        requires
            old(self).inv(),
        ensures
            final(self).inv(),
            options@.len() < 2 ==> r is None && Self::state_unchanged(*old(self), *final(self)),
            options@.len() >= 2 ==> (r matches Some(res) && Self::init_post(
                *old(self),
                *final(self),
                question,
                options,
                res,
            )),
    {
        if options.len() < 2 {
            return None;
        }
        Some(self.init(question, options))
    }

    /// Apply one counting step to the tally cell of `index`: increment it,
    /// or decrement it saturating at zero.
    fn update_vote_count(&mut self, index: u32, increment: bool)
        requires
            (index as int) < old(self).tallies_view().len(),
            increment ==> old(self).tallies_view()[index as int] < u32::MAX,
        ensures
            final(self).tallies_view() == old(self).tallies_view().update(
                index as int,
                spec_next_count(old(self).tallies_view()[index as int], increment),
            ),
            final(self).initialized == old(self).initialized,
            final(self).question == old(self).question,
            final(self).options == old(self).options,
            final(self).voters == old(self).voters,
            final(self).instance_lifetime == old(self).instance_lifetime,
    {
        let count: u32 = self.tallies[index as usize];
        let next: u32 = next_count(count, increment);
        self.tallies.set(index as usize, next);
    }

    /// Cast, change, or undo a vote for `voter`.  Rejected with
    /// `PollNotInitialized` before initialization and with `InvalidOption`
    /// for an out-of-range index, in that order, leaving the ledger
    /// untouched.  Otherwise the existing record decides: absent casts,
    /// same choice undoes, different choice changes — see `spec_vote_plan`
    /// — and the configuration region's lifetime is renewed.  Every write
    /// to a record renews that record's own lifetime.
    pub fn vote(&mut self, voter: u64, option_index: u32) -> (r: Result<(), PollError>)
        requires
            old(self).inv(),
            old(self).voters_view().dom().len() < u32::MAX as nat,
        ensures
            final(self).inv(),
            Self::vote_post(*old(self), *final(self), voter, option_index, r),
    {
        let existing: Option<VoterRecord> = match self.voters.get(&voter) {
            Some(rec) => Some(*rec),
            None => None,
        };
        let existing_choice: Option<u32> = match existing {
            Some(rec) => Some(rec.choice),
            None => None,
        };
        let plan = match vote_outcome(
            self.initialized,
            self.options.len(),
            existing_choice,
            option_index,
        ) {
            Ok(plan) => plan,
            Err(e) => {
                return Err(e);
            },
        };
        self.instance_lifetime = renew_lifetime(
            self.instance_lifetime,
            INSTANCE_TTL_THRESHOLD,
            INSTANCE_TTL_EXTEND,
        );
        let ghost m0 = old(self).voters_view();
        match plan {
            VotePlan::Cast { option } => {
                proof {
                    lemma_choosers_within_dom(m0, option as int);
                }
                self.update_vote_count(option, true);
                let record = VoterRecord { choice: option, lifetime: PERSISTENT_TTL_EXTEND };
                self.voters.insert(voter, record);
                proof {
                    assert forall|i: int| 0 <= i < self.tallies@.len() implies #[trigger] self
                        .tallies@[i] as int == choosers(self.voters@, i).len() by {
                        lemma_choosers_within_dom(m0, i);
                        lemma_choosers_insert(m0, voter, record, i);
                    }
                }
            },
            VotePlan::Undo { option } => {
                self.update_vote_count(option, false);
                self.voters.remove(&voter);
                proof {
                    assert forall|i: int| 0 <= i < self.tallies@.len() implies #[trigger] self
                        .tallies@[i] as int == choosers(self.voters@, i).len() by {
                        lemma_choosers_within_dom(m0, i);
                        lemma_choosers_remove(m0, voter, i);
                        if i == option as int {
                            assert(choosers(m0, i).contains(voter));
                        }
                    }
                }
            },
            VotePlan::Change { from, to } => {
                proof {
                    lemma_choosers_within_dom(m0, to as int);
                }
                self.update_vote_count(from, false);
                self.update_vote_count(to, true);
                let renewed = renew_lifetime(
                    existing.unwrap().lifetime,
                    PERSISTENT_TTL_THRESHOLD,
                    PERSISTENT_TTL_EXTEND,
                );
                let record = VoterRecord { choice: to, lifetime: renewed };
                self.voters.insert(voter, record);
                proof {
                    assert forall|i: int| 0 <= i < self.tallies@.len() implies #[trigger] self
                        .tallies@[i] as int == choosers(self.voters@, i).len() by {
                        lemma_choosers_within_dom(m0, i);
                        lemma_choosers_insert(m0, voter, record, i);
                        if i == from as int {
                            assert(choosers(m0, i).contains(voter));
                        }
                    }
                }
            },
        }
        Ok(())
    }

    /// Reassemble the read-only snapshot: the question, the option labels,
    /// and the tally by option index, all copied verbatim — empty defaults
    /// if the poll was never initialized.  A pure read: never errors and
    /// renews no storage lifetime.
    pub fn get_poll_state(&self) -> (state: PollState)
        requires
            self.inv(),
        ensures
            state.question@ == self.question_view(),
            state.options@.len() == self.options_view().len(),
            view_of_options(state.options@) == self.options_view(),
            state.votes@ == self.tallies_view(),
            !self.is_init() ==> state.question@.len() == 0 && state.options@.len() == 0
                && state.votes@.len() == 0,
    {
        let state = PollState {
            question: self.question.clone(),
            options: self.options.clone(),
            votes: self.tallies.clone(),
        };
        proof {
            assert(state.options@ =~= self.options@);
            assert(state.votes@ =~= self.tallies@);
        }
        state
    }

    /// Whether a voter record exists for `voter`.  A pure read.
    pub fn has_voted(&self, voter: u64) -> (present: bool)
        ensures
            present == self.voters_view().dom().contains(voter),
    {
        self.voters.contains_key(&voter)
    }

    /// The live record for `voter`, or absent.  A pure read.
    pub fn get_voter_choice(&self, voter: u64) -> (choice: Option<u32>)
        ensures
            choice == self.voter_choice_view(voter),
    {
        match self.voters.get(&voter) {
            Some(rec) => Some(rec.choice),
            None => None,
        }
    }
}

/// LAW (ledger balance): in every reachable state, the tally cells sum to
/// the number of identities with a present voter record.
pub proof fn lemma_tally_sum_is_voter_count(p: PollContract)
    requires
        p.inv(),
    ensures
        sum_tallies(p.tallies_view()) == p.voters_view().dom().len(),
{
    let m = p.voters_view();
    let s = p.tallies_view();
    let n = s.len() as int;
    lemma_sum_tallies_matches(s, m, n);
    assert(s.take(n) =~= s);
    lemma_sum_choosers_counts_all(m, n);
}

/// LAW (index safety): in every reachable state, every stored option index
/// — a tally cell's position or a record's choice — lies below the number
/// of configured options.
pub proof fn lemma_stored_indices_in_range(p: PollContract)
    requires
        p.inv(),
    ensures
        p.tallies_view().len() == p.options_view().len(),
        forall|id: u64| #[trigger]
            p.voters_view().dom().contains(id) ==> (p.voters_view()[id].choice as int)
                < p.options_view().len(),
{
}

/// LAW (idempotent undo): voting twice in succession for the same option —
/// starting from a state where that option is not the voter's current
/// choice — succeeds both times, returns the identity to "has not voted",
/// and returns that option's tally to its value before the first vote.
pub proof fn lemma_double_vote_undoes(
    s0: PollContract,
    s1: PollContract,
    s2: PollContract,
    voter: u64,
    option_index: u32,
    r1: Result<(), PollError>,
    r2: Result<(), PollError>,
)
    requires
        s0.inv(),
        s0.is_init(),
        (option_index as int) < s0.options_view().len(),
        s0.voter_choice_view(voter) != Some(option_index),
        s0.voters_view().dom().len() < u32::MAX as nat,
        PollContract::vote_post(s0, s1, voter, option_index, r1),
        PollContract::vote_post(s1, s2, voter, option_index, r2),
    ensures
        r1 == Ok::<(), PollError>(()),
        r2 == Ok::<(), PollError>(()),
        s1.voter_choice_view(voter) == Some(option_index),
        s2.voter_choice_view(voter) == None::<u32>,
        s2.tallies_view()[option_index as int] == s0.tallies_view()[option_index as int],
        s2.question_view() == s0.question_view(),
        s2.options_view() == s0.options_view(),
{
    let i = option_index as int;
    lemma_choosers_within_dom(s0.voters_view(), i);
    assert(s0.tallies_view()[i] < u32::MAX);
    assert(s1.tallies_view()[i] as int == s0.tallies_view()[i] + 1);
}

} // verus!
