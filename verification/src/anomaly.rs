use vstd::prelude::*;

verus! {

/// Anomaly severity levels, from least to most severe.
#[derive(Clone, Copy, PartialEq, Eq, Debug, Hash, Structural)]
pub enum AnomalyLevel {
    Normal,
    Suspicious,
    Alert,
}

impl AnomalyLevel {
    /// The rank of the level: 0, 1 or 2.
    pub open spec fn severity(self) -> int {
        match self {
            AnomalyLevel::Normal => 0,
            AnomalyLevel::Suspicious => 1,
            AnomalyLevel::Alert => 2,
        }
    }

    /// The level picked by the anomaly rule: `Normal` when the baseline spread
    /// is degenerate, else `Alert` beyond the alert threshold, else
    /// `Suspicious` beyond the suspicious threshold, else `Normal`.
    pub open spec fn spec_decide(degenerate: bool, beyond_alert: bool, beyond_suspicious: bool) -> AnomalyLevel {
        if degenerate {
            AnomalyLevel::Normal
        } else if beyond_alert {
            AnomalyLevel::Alert
        } else if beyond_suspicious {
            AnomalyLevel::Suspicious
        } else {
            AnomalyLevel::Normal
        }
    }

    /// Applies the anomaly rule to the outcome of the threshold comparisons.
    /// `degenerate` says that the baseline standard deviation is not positive;
    /// `beyond_alert` that the absolute z-score exceeds the alert threshold;
    /// `beyond_suspicious` that it exceeds the suspicious threshold.
    pub fn decide(degenerate: bool, beyond_alert: bool, beyond_suspicious: bool) -> (r: AnomalyLevel)
        ensures
            r == Self::spec_decide(degenerate, beyond_alert, beyond_suspicious),
    {
        if degenerate {
            AnomalyLevel::Normal
        } else if beyond_alert {
            AnomalyLevel::Alert
        } else if beyond_suspicious {
            AnomalyLevel::Suspicious
        } else {
            AnomalyLevel::Normal
        }
    }
}

/// The anomaly rule: a degenerate spread is `Normal`; otherwise a z-score
/// beyond the alert threshold is `Alert` whatever the suspicious threshold
/// says, one beyond only the suspicious threshold is `Suspicious`, and one
/// beyond neither is `Normal`.
pub proof fn lemma_decide_rule(degenerate: bool, beyond_alert: bool, beyond_suspicious: bool)
    ensures
        degenerate ==> AnomalyLevel::spec_decide(degenerate, beyond_alert, beyond_suspicious)
            == AnomalyLevel::Normal,
        !degenerate && beyond_alert ==> AnomalyLevel::spec_decide(
            degenerate,
            beyond_alert,
            beyond_suspicious,
        ) == AnomalyLevel::Alert,
        !degenerate && !beyond_alert && beyond_suspicious ==> AnomalyLevel::spec_decide(
            degenerate,
            beyond_alert,
            beyond_suspicious,
        ) == AnomalyLevel::Suspicious,
        !degenerate && !beyond_alert && !beyond_suspicious ==> AnomalyLevel::spec_decide(
            degenerate,
            beyond_alert,
            beyond_suspicious,
        ) == AnomalyLevel::Normal,
{
}

/// Crossing more thresholds never lowers the level: with the same spread,
/// a z-score that exceeds every threshold another one exceeds is rated at
/// least as severe.
pub proof fn lemma_decide_monotone(
    degenerate: bool,
    alert1: bool,
    suspicious1: bool,
    alert2: bool,
    suspicious2: bool,
)
    requires
        alert1 ==> alert2,
        suspicious1 ==> suspicious2,
    ensures
        AnomalyLevel::spec_decide(degenerate, alert1, suspicious1).severity()
            <= AnomalyLevel::spec_decide(degenerate, alert2, suspicious2).severity(),
{
}

} // verus!
