use vstd::prelude::*;

use crate::fusion::{class_count, spec_majority_vote, lemma_strict_majority_wins};
use crate::ternary::TernaryClass;

verus! {

broadcast use vstd::seq_lib::group_to_multiset_ensures, vstd::multiset::group_multiset_axioms;

/// Which way a calibration offset moves.
#[derive(Clone, Copy, PartialEq, Eq, Debug, Hash, Structural)]
pub enum OffsetStep {
    /// Increase the offset: readings were too low.
    Raise,
    /// Decrease the offset: readings were too high.
    Lower,
    /// Leave the offset as it is.
    Hold,
}

impl OffsetStep {
    /// The sign of the step: +1, -1 or 0.
    pub open spec fn direction(self) -> int {
        match self {
            OffsetStep::Raise => 1,
            OffsetStep::Lower => -1,
            OffsetStep::Hold => 0,
        }
    }
}

/// The step one piece of feedback asks for: a reading reported `Low` raises
/// the offset, one reported `High` lowers it, `Normal` keeps it.
pub open spec fn spec_feedback_step(class: TernaryClass) -> OffsetStep {
    match class {
        TernaryClass::Low => OffsetStep::Raise,
        TernaryClass::High => OffsetStep::Lower,
        TernaryClass::Normal => OffsetStep::Hold,
    }
}

/// The step batch calibration takes over a feedback history: nothing with
/// fewer than three entries; otherwise a raise when more than half of the
/// entries are `Low`, a lowering when more than half are `High`, else nothing.
pub open spec fn spec_auto_step(history: Seq<TernaryClass>) -> OffsetStep {
    let n = history.len();
    if n < 3 {
        OffsetStep::Hold
    } else if class_count(history, TernaryClass::Low) > n / 2 {
        OffsetStep::Raise
    } else if class_count(history, TernaryClass::High) > n / 2 {
        OffsetStep::Lower
    } else {
        OffsetStep::Hold
    }
}

/// The step that one piece of ternary feedback asks of the offset.
pub fn feedback_step(class: TernaryClass) -> (r: OffsetStep)
    ensures
        r == spec_feedback_step(class),
{
    match class {
        TernaryClass::Low => OffsetStep::Raise,
        TernaryClass::High => OffsetStep::Lower,
        TernaryClass::Normal => OffsetStep::Hold,
    }
}

/// The history of ternary feedback given to a calibration, oldest first.
pub struct FeedbackHistory {
    entries: Vec<TernaryClass>,
}

impl View for FeedbackHistory {
    type V = Seq<TernaryClass>;

    closed spec fn view(&self) -> Seq<TernaryClass> {
        self.entries@
    }
}

impl FeedbackHistory {
    /// An empty history.
    pub fn new() -> (r: FeedbackHistory)
        ensures
            r@ == Seq::<TernaryClass>::empty(),
    {
        FeedbackHistory { entries: Vec::new() }
    }

    /// Appends one piece of feedback and returns the step it asks of the offset.
    pub fn record(&mut self, class: TernaryClass) -> (step: OffsetStep)
        ensures
            final(self)@ == old(self)@.push(class),
            step == spec_feedback_step(class),
    {
        self.entries.push(class);
        feedback_step(class)
    }

    /// The feedback given so far, oldest first.
    pub fn entries(&self) -> (r: &[TernaryClass])
        ensures
            r@ == self@,
    {
        self.entries.as_slice()
    }

    /// The number of entries.
    pub fn len(&self) -> (r: usize)
        ensures
            r == self@.len(),
    {
        self.entries.len()
    }

    /// Whether no feedback has been given.
    pub fn is_empty(&self) -> (r: bool)
        ensures
            r == (self@.len() == 0),
    {
        self.entries.len() == 0
    }

    /// Forgets all feedback.
    pub fn clear(&mut self)
        ensures
            final(self)@ == Seq::<TernaryClass>::empty(),
    {
        self.entries.clear();
    }

    /// The step batch calibration takes over the whole history.
    pub fn auto_step(&self) -> (r: OffsetStep)
        ensures
            r == spec_auto_step(self@),
    {
        let n = self.entries.len();
        if n < 3 {
            return OffsetStep::Hold;
        }
        let mut low: usize = 0;
        let mut high: usize = 0;
        let mut i: usize = 0;
        while i < n
            invariant
                n == self@.len(),
                i <= n,
                low + high <= i,
                low == class_count(self@.take(i as int), TernaryClass::Low),
                high == class_count(self@.take(i as int), TernaryClass::High),
            decreases n - i,
        {
            assert(self@.take(i + 1) =~= self@.take(i as int).push(self@[i as int]));
            match self.entries[i] {
                TernaryClass::Low => low = low + 1,
                TernaryClass::High => high = high + 1,
                TernaryClass::Normal => {},
            }
            i = i + 1;
        }
        assert(self@.take(n as int) =~= self@);
        if low > n / 2 {
            OffsetStep::Raise
        } else if high > n / 2 {
            OffsetStep::Lower
        } else {
            OffsetStep::Hold
        }
    }
}

/// Feedback moves the offset against the reported error: the step's sign is
/// the negated digit of the class, so a `Low` report and a `High` report undo
/// each other.
pub proof fn lemma_feedback_opposes_error(class: TernaryClass)
    ensures
        spec_feedback_step(class).direction() == -class.trit(),
{
}

/// Batch calibration raises the offset exactly when the history has at least
/// three entries and strictly more than half of them are `Low`, lowers it
/// exactly when it has at least three entries and strictly more than half are
/// `High`, and otherwise holds it; a plurality that is no majority moves nothing.
pub proof fn lemma_auto_step_needs_strict_majority(history: Seq<TernaryClass>)
    ensures
        spec_auto_step(history) == OffsetStep::Raise <==> (history.len() >= 3 && 2
            * class_count(history, TernaryClass::Low) > history.len()),
        spec_auto_step(history) == OffsetStep::Lower <==> (history.len() >= 3 && 2
            * class_count(history, TernaryClass::High) > history.len()),
        spec_auto_step(history) == OffsetStep::Hold <==> (history.len() < 3 || (2 * class_count(
            history,
            TernaryClass::Low,
        ) <= history.len() && 2 * class_count(history, TernaryClass::High) <= history.len())),
{
    crate::fusion::lemma_counts_sum(history);
}

/// Batch calibration either holds still or takes the step that feedback equal
/// to the majority vote of the history would take.
pub proof fn lemma_auto_step_follows_majority(history: Seq<TernaryClass>)
    ensures
        spec_auto_step(history) == OffsetStep::Hold || spec_auto_step(history)
            == spec_feedback_step(spec_majority_vote(history)),
{
    let n = history.len();
    if n >= 3 {
        if class_count(history, TernaryClass::Low) > n / 2 {
            lemma_strict_majority_wins(history, TernaryClass::Low);
        } else if class_count(history, TernaryClass::High) > n / 2 {
            lemma_strict_majority_wins(history, TernaryClass::High);
        }
    }
}

} // verus!
