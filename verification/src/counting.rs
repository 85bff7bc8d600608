//! Counting arguments behind the ledger invariant: each tally cell equals
//! the number of identities currently choosing that option, and the cells
//! together sum to the number of identities with a present record.

use vstd::prelude::*;

use crate::poll::VoterRecord;

verus! {

/// The identities whose current record chooses option `i`.
pub open spec fn choosers(m: Map<u64, VoterRecord>, i: int) -> Set<u64> {
    m.dom().filter(|id: u64| m[id].choice as int == i)
}

/// The sum of a sequence of tally cells.
pub open spec fn sum_tallies(s: Seq<u32>) -> int
    decreases s.len(),
{
    if s.len() == 0 {
        0
    } else {
        sum_tallies(s.drop_last()) + s.last()
    }
}

/// The sum, over options `0..n`, of how many identities choose each.
pub open spec fn sum_choosers(m: Map<u64, VoterRecord>, n: int) -> int
    decreases n,
{
    if n <= 0 {
        0
    } else {
        sum_choosers(m, n - 1) + choosers(m, n - 1).len()
    }
}

/// The choosers of each option form a subset of the record keys, and are
/// therefore finite and no more numerous than the records.
pub proof fn lemma_choosers_within_dom(m: Map<u64, VoterRecord>, i: int)
    requires
        m.dom().finite(),
    ensures
        choosers(m, i).finite(),
        choosers(m, i).len() <= m.dom().len(),
        forall|id: u64| #[trigger] choosers(m, i).contains(id) ==> m.dom().contains(id),
{
    assert(choosers(m, i).subset_of(m.dom()));
    vstd::set_lib::lemma_len_subset(choosers(m, i), m.dom());
}

/// How writing a record moves an identity between chooser sets: it joins
/// the set of its new choice and leaves every other.
pub proof fn lemma_choosers_insert(m: Map<u64, VoterRecord>, id: u64, r: VoterRecord, i: int)
    ensures
        choosers(m.insert(id, r), i) == if r.choice as int == i {
            choosers(m, i).insert(id)
        } else {
            choosers(m, i).remove(id)
        },
{
    if r.choice as int == i {
        assert(choosers(m.insert(id, r), i) =~= choosers(m, i).insert(id));
    } else {
        assert(choosers(m.insert(id, r), i) =~= choosers(m, i).remove(id));
    }
}

/// How deleting a record moves an identity: it leaves the chooser set of
/// its recorded choice and no other set changes.
pub proof fn lemma_choosers_remove(m: Map<u64, VoterRecord>, id: u64, i: int)
    requires
        m.dom().contains(id),
    ensures
        choosers(m.remove(id), i) == if m[id].choice as int == i {
            choosers(m, i).remove(id)
        } else {
            choosers(m, i)
        },
{
    if m[id].choice as int == i {
        assert(choosers(m.remove(id), i) =~= choosers(m, i).remove(id));
    } else {
        assert(choosers(m.remove(id), i) =~= choosers(m, i));
    }
}

/// Two record maps with the same choosers for every option below `n` have
/// the same chooser sum up to `n`.
proof fn lemma_sum_choosers_agree(m1: Map<u64, VoterRecord>, m2: Map<u64, VoterRecord>, n: int)
    requires
        forall|i: int| 0 <= i < n ==> choosers(m1, i) == choosers(m2, i),
    ensures
        sum_choosers(m1, n) == sum_choosers(m2, n),
    decreases n,
{
    if n > 0 {
        lemma_sum_choosers_agree(m1, m2, n - 1);
    }
}

/// A map without records has chooser sum zero.
proof fn lemma_sum_choosers_empty(m: Map<u64, VoterRecord>, n: int)
    requires
        m.dom() == Set::<u64>::empty(),
    ensures
        sum_choosers(m, n) == 0,
    decreases n,
{
    if n > 0 {
        lemma_sum_choosers_empty(m, n - 1);
        assert(choosers(m, n - 1) =~= Set::<u64>::empty());
    }
}

/// Deleting one record whose choice lies below `n` lowers the chooser sum
/// up to `n` by exactly one.
proof fn lemma_sum_choosers_remove(m: Map<u64, VoterRecord>, id: u64, n: int)
    requires
        m.dom().finite(),
        m.dom().contains(id),
        (m[id].choice as int) < n,
    ensures
        sum_choosers(m.remove(id), n) == sum_choosers(m, n) - 1,
    decreases n,
{
    let c = m[id].choice as int;
    lemma_choosers_remove(m, id, n - 1);
    lemma_choosers_within_dom(m, n - 1);
    if c == n - 1 {
        assert(choosers(m, c).contains(id));
        assert forall|i: int| 0 <= i < n - 1 implies choosers(m.remove(id), i) == choosers(
            m,
            i,
        ) by {
            lemma_choosers_remove(m, id, i);
        }
        lemma_sum_choosers_agree(m.remove(id), m, n - 1);
    } else {
        lemma_sum_choosers_remove(m, id, n - 1);
    }
}

/// Partition argument: when every record's choice lies below `n`, the
/// chooser sum up to `n` counts each record exactly once.
pub proof fn lemma_sum_choosers_counts_all(m: Map<u64, VoterRecord>, n: int)
    requires
        m.dom().finite(),
        forall|id: u64| #[trigger] m.dom().contains(id) ==> (m[id].choice as int) < n,
    ensures
        sum_choosers(m, n) == m.dom().len(),
    decreases m.dom().len(),
{
    if m.dom().len() == 0 {
        m.dom().lemma_len0_is_empty();
        lemma_sum_choosers_empty(m, n);
    } else {
        let id = m.dom().choose();
        assert(m.dom().contains(id));
        lemma_sum_choosers_remove(m, id, n);
        lemma_sum_choosers_counts_all(m.remove(id), n);
    }
}

/// A tally sequence whose first `n` cells each equal the size of the
/// corresponding chooser set sums, over those cells, to the chooser sum.
pub proof fn lemma_sum_tallies_matches(s: Seq<u32>, m: Map<u64, VoterRecord>, n: int)
    requires
        0 <= n <= s.len(),
        forall|i: int| 0 <= i < n ==> #[trigger] s[i] as int == choosers(m, i).len(),
    ensures
        sum_tallies(s.take(n)) == sum_choosers(m, n),
    decreases n,
{
    if n > 0 {
        lemma_sum_tallies_matches(s, m, n - 1);
        assert(s.take(n).drop_last() =~= s.take(n - 1));
        assert(s.take(n).last() == s[n - 1]);
    }
}

} // verus!
