use vstd::prelude::*;

use crate::ternary::TernaryClass;
use vstd::multiset::Multiset;

verus! {

broadcast use vstd::seq_lib::group_to_multiset_ensures, vstd::multiset::group_multiset_axioms;

/// How many times `c` occurs in `s`.
pub open spec fn class_count(s: Seq<TernaryClass>, c: TernaryClass) -> nat {
    s.to_multiset().count(c)
}

/// The winner of a vote with the given tallies: the class with the most votes,
/// ties going to `Low` first and to `High` second.
pub open spec fn plurality(low: nat, normal: nat, high: nat) -> TernaryClass {
    if low >= normal && low >= high {
        TernaryClass::Low
    } else if high >= low && high >= normal {
        TernaryClass::High
    } else {
        TernaryClass::Normal
    }
}

/// The majority vote of a sequence of classifications.
pub open spec fn spec_majority_vote(s: Seq<TernaryClass>) -> TernaryClass {
    plurality(
        class_count(s, TernaryClass::Low),
        class_count(s, TernaryClass::Normal),
        class_count(s, TernaryClass::High),
    )
}

/// Plurality vote over the classifications of several sensors: the class that
/// occurs most often; a tie goes to `Low`, then to `High`. An empty input
/// votes `Low`.
pub fn majority_vote(classes: &[TernaryClass]) -> (r: TernaryClass)
    ensures
        r == spec_majority_vote(classes@),
{
    let mut low: usize = 0;
    let mut normal: usize = 0;
    let mut high: usize = 0;
    let n = classes.len();
    let mut i: usize = 0;
    while i < n
        invariant
            n == classes@.len(),
            i <= n,
            low + normal + high == i,
            low == class_count(classes@.take(i as int), TernaryClass::Low),
            normal == class_count(classes@.take(i as int), TernaryClass::Normal),
            high == class_count(classes@.take(i as int), TernaryClass::High),
        decreases n - i,
    {
        assert(classes@.take(i + 1) =~= classes@.take(i as int).push(classes@[i as int]));
        match classes[i] {
            TernaryClass::Low => low = low + 1,
            TernaryClass::Normal => normal = normal + 1,
            TernaryClass::High => high = high + 1,
        }
        i = i + 1;
    }
    assert(classes@.take(n as int) =~= classes@);
    if low >= normal && low >= high {
        TernaryClass::Low
    } else if high >= low && high >= normal {
        TernaryClass::High
    } else {
        TernaryClass::Normal
    }
}

/// Every classification is one of the three classes, so the three tallies add
/// up to the number of votes.
pub proof fn lemma_counts_sum(s: Seq<TernaryClass>)
    ensures
        class_count(s, TernaryClass::Low) + class_count(s, TernaryClass::Normal) + class_count(
            s,
            TernaryClass::High,
        ) == s.len(),
    decreases s.len(),
{
    if s.len() > 0 {
        let t = s.drop_last();
        lemma_counts_sum(t);
        assert(s =~= t.push(s.last()));
    } else {
        assert(s.to_multiset() =~= Multiset::empty());
    }
}

/// The vote's winner has at least as many votes as any other class.
pub proof fn lemma_majority_is_plurality(s: Seq<TernaryClass>, c: TernaryClass)
    ensures
        class_count(s, spec_majority_vote(s)) >= class_count(s, c),
{
}

/// How the vote breaks ties, at every tally: `Low` wins whenever no class has
/// more votes than it; `High` wins whenever it has at least as many votes as
/// each other class and `Low` has fewer than some class; `Normal` wins only
/// with strictly more votes than each other class.
pub proof fn lemma_majority_tie_order(s: Seq<TernaryClass>)
    ensures
        spec_majority_vote(s) == TernaryClass::Low <==> (class_count(s, TernaryClass::Low)
            >= class_count(s, TernaryClass::Normal) && class_count(s, TernaryClass::Low)
            >= class_count(s, TernaryClass::High)),
        spec_majority_vote(s) == TernaryClass::High <==> (class_count(s, TernaryClass::High)
            >= class_count(s, TernaryClass::Low) && class_count(s, TernaryClass::High)
            >= class_count(s, TernaryClass::Normal) && (class_count(s, TernaryClass::Low)
            < class_count(s, TernaryClass::Normal) || class_count(s, TernaryClass::Low)
            < class_count(s, TernaryClass::High))),
        spec_majority_vote(s) == TernaryClass::Normal <==> (class_count(s, TernaryClass::Normal)
            > class_count(s, TernaryClass::Low) && class_count(s, TernaryClass::Normal)
            > class_count(s, TernaryClass::High)),
{
}

/// The vote depends only on how often each class occurs, not on the order of
/// the votes.
pub proof fn lemma_majority_order_independent(s1: Seq<TernaryClass>, s2: Seq<TernaryClass>)
    requires
        s1.to_multiset() == s2.to_multiset(),
    ensures
        spec_majority_vote(s1) == spec_majority_vote(s2),
{
}

/// A class that holds more than half of the votes wins the vote.
pub proof fn lemma_strict_majority_wins(s: Seq<TernaryClass>, c: TernaryClass)
    requires
        2 * class_count(s, c) > s.len(),
    ensures
        spec_majority_vote(s) == c,
{
    lemma_counts_sum(s);
}

/// When all sensors agree, the vote returns their common class.
pub proof fn lemma_unanimous_vote(s: Seq<TernaryClass>, c: TernaryClass)
    requires
        s.len() > 0,
        forall|i: int| 0 <= i < s.len() ==> s[i] == c,
    ensures
        spec_majority_vote(s) == c,
{
    lemma_counts_sum(s);
    assert forall|d: TernaryClass| d != c implies class_count(s, d) == 0 by {
        if class_count(s, d) > 0 {
            assert(s.contains(d));
        }
    }
}

} // verus!
