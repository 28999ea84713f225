use ternary_sensor::{feedback_step, majority_vote, FeedbackHistory, OffsetStep, TernaryClass};

use TernaryClass::{High, Low, Normal};

#[test]
fn feedback_steps() {
    assert_eq!(feedback_step(Low), OffsetStep::Raise);
    assert_eq!(feedback_step(High), OffsetStep::Lower);
    assert_eq!(feedback_step(Normal), OffsetStep::Hold);
}

#[test]
fn record_appends_and_reports_step() {
    let mut h = FeedbackHistory::new();
    assert!(h.is_empty());
    assert_eq!(h.record(Low), OffsetStep::Raise);
    assert_eq!(h.record(High), OffsetStep::Lower);
    assert_eq!(h.record(Normal), OffsetStep::Hold);
    assert_eq!(h.len(), 3);
    assert_eq!(h.entries(), &[Low, High, Normal]);
}

#[test]
fn clear_forgets_history() {
    let mut h = FeedbackHistory::new();
    h.record(Low);
    h.clear();
    assert!(h.is_empty());
    assert!(h.entries().is_empty());
}

fn history(classes: &[TernaryClass]) -> FeedbackHistory {
    let mut h = FeedbackHistory::new();
    for &c in classes {
        h.record(c);
    }
    h
}

#[test]
fn auto_step_needs_three_entries() {
    assert_eq!(history(&[]).auto_step(), OffsetStep::Hold);
    assert_eq!(history(&[Low, Low]).auto_step(), OffsetStep::Hold);
}

#[test]
fn auto_step_majority_low_raises() {
    assert_eq!(history(&[Low, Low, Low, Low, Low]).auto_step(), OffsetStep::Raise);
    assert_eq!(history(&[Low, Normal, Low]).auto_step(), OffsetStep::Raise);
}

#[test]
fn auto_step_majority_high_lowers() {
    assert_eq!(history(&[High, High, Low]).auto_step(), OffsetStep::Lower);
}

#[test]
fn auto_step_without_strict_majority_holds() {
    assert_eq!(history(&[Low, High, Normal]).auto_step(), OffsetStep::Hold);
    assert_eq!(history(&[Low, Low, High, High]).auto_step(), OffsetStep::Hold);
    assert_eq!(history(&[Normal, Normal, Normal]).auto_step(), OffsetStep::Hold);
}

#[test]
fn auto_step_agrees_with_majority_vote() {
    let classes = [Low, Low, High, Low, Normal];
    let h = history(&classes);
    assert_eq!(h.auto_step(), feedback_step(majority_vote(&classes)));
}
