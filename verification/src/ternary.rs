use vstd::prelude::*;

verus! {

/// Ternary classification for sensor readings: `Low`, `Normal` and `High`,
/// standing for the digits -1, 0 and +1. Get the digit with `to_i8`, not with
/// an `as` cast: the variants carry no explicit discriminants, so a cast gives
/// 0, 1 and 2.
#[derive(Clone, Copy, PartialEq, Eq, Debug, Hash, Structural)]
pub enum TernaryClass {
    Low,
    Normal,
    High,
}

impl TernaryClass {
    /// The balanced-ternary digit that the class stands for.
    pub open spec fn trit(self) -> int {
        match self {
            TernaryClass::Low => -1,
            TernaryClass::Normal => 0,
            TernaryClass::High => 1,
        }
    }

    /// The class whose digit is `v`, if `v` is one of -1, 0, 1.
    pub open spec fn spec_from_trit(v: int) -> Option<TernaryClass> {
        if v == -1 {
            Some(TernaryClass::Low)
        } else if v == 0 {
            Some(TernaryClass::Normal)
        } else if v == 1 {
            Some(TernaryClass::High)
        } else {
            None
        }
    }

    /// Decodes a digit: -1, 0 and 1 give `Low`, `Normal` and `High`; anything else `None`.
    pub fn from_i8(v: i8) -> (r: Option<TernaryClass>)
        ensures
            r == Self::spec_from_trit(v as int),
    {
        match v {
            -1 => Some(TernaryClass::Low),
            0 => Some(TernaryClass::Normal),
            1 => Some(TernaryClass::High),
            _ => None,
        }
    }

    /// Encodes the class as its digit.
    pub fn to_i8(self) -> (r: i8)
        ensures
            r as int == self.trit(),
    {
        match self {
            TernaryClass::Low => -1,
            TernaryClass::Normal => 0,
            TernaryClass::High => 1,
        }
    }

    /// The class picked by the ternary rule: `Normal` when the spread is
    /// degenerate, else `Low` below the low bound, else `High` above the high
    /// bound, else `Normal`.
    pub open spec fn spec_decide(degenerate: bool, below: bool, above: bool) -> TernaryClass {
        if degenerate {
            TernaryClass::Normal
        } else if below {
            TernaryClass::Low
        } else if above {
            TernaryClass::High
        } else {
            TernaryClass::Normal
        }
    }

    /// Applies the ternary rule to the outcome of the two bound comparisons.
    /// `degenerate` says that the spread the bounds come from is not positive
    /// (a standard deviation of zero or less); `below` that the value lies
    /// strictly below the low bound; `above` that it lies strictly above the
    /// high bound. A value below the low bound is `Low` even when it is also
    /// above the high bound.
    pub fn decide(degenerate: bool, below: bool, above: bool) -> (r: TernaryClass)
        ensures
            r == Self::spec_decide(degenerate, below, above),
    {
        if degenerate {
            TernaryClass::Normal
        } else if below {
            TernaryClass::Low
        } else if above {
            TernaryClass::High
        } else {
            TernaryClass::Normal
        }
    }
}

/// The ternary rule: a degenerate spread classifies as `Normal` whatever the
/// comparisons say; otherwise a value below the low bound is `Low`, one that is
/// only above the high bound is `High`, and one within both bounds is `Normal`.
pub proof fn lemma_decide_rule(degenerate: bool, below: bool, above: bool)
    ensures
        degenerate ==> TernaryClass::spec_decide(degenerate, below, above) == TernaryClass::Normal,
        !degenerate && below ==> TernaryClass::spec_decide(degenerate, below, above)
            == TernaryClass::Low,
        !degenerate && !below && above ==> TernaryClass::spec_decide(degenerate, below, above)
            == TernaryClass::High,
        !degenerate && !below && !above ==> TernaryClass::spec_decide(degenerate, below, above)
            == TernaryClass::Normal,
{
}

/// Decoding the digit of a class gives the class back.
pub proof fn lemma_trit_round_trip(c: TernaryClass)
    ensures
        TernaryClass::spec_from_trit(c.trit()) == Some(c),
{
}

/// A digit decodes to some class exactly when it lies in -1..=1, and that class
/// encodes back to the same digit.
pub proof fn lemma_decode_exactly_trits(v: int)
    ensures
        TernaryClass::spec_from_trit(v) is Some <==> -1 <= v <= 1,
        TernaryClass::spec_from_trit(v) matches Some(c) ==> c.trit() == v,
{
}

} // verus!
