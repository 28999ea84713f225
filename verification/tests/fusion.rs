use ternary_sensor::{majority_vote, TernaryClass};

use TernaryClass::{High, Low, Normal};

#[test]
fn test_fusion_majority_vote() {
    let classes = vec![High, High, Low];
    assert_eq!(majority_vote(&classes), High);
}

#[test]
fn majority_vote_readme_example() {
    assert_eq!(majority_vote(&[Normal, Normal, High]), Normal);
}

#[test]
fn majority_vote_empty_is_low() {
    assert_eq!(majority_vote(&[]), Low);
}

#[test]
fn majority_vote_ties() {
    assert_eq!(majority_vote(&[Low, High]), Low);
    assert_eq!(majority_vote(&[Normal, High]), High);
    assert_eq!(majority_vote(&[Normal, Low]), Low);
    assert_eq!(majority_vote(&[Low, Normal, High]), Low);
}

#[test]
fn majority_vote_unanimous() {
    assert_eq!(majority_vote(&[Normal, Normal, Normal, Normal]), Normal);
    assert_eq!(majority_vote(&[High]), High);
}

#[test]
fn majority_vote_order_independent() {
    let a = [Normal, High, Normal, Low, High, Normal];
    let b = [High, Normal, Low, Normal, Normal, High];
    assert_eq!(majority_vote(&a), majority_vote(&b));
    assert_eq!(majority_vote(&a), Normal);
}

#[test]
fn majority_vote_strict_majority_wins() {
    assert_eq!(majority_vote(&[High, Low, High, Normal, High]), High);
}
