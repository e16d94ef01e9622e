use cross_calls::budget::{admit_branches, fund_evenly, split_evenly, EvenSplit, MAX_BRANCHES};
use cross_calls::descriptor::CallDescriptor;
use cross_calls::error::OrchestrationError;
use cross_calls::identity::ExternalIdentity;

fn call_to(name: &str, transfer: u128) -> CallDescriptor {
    CallDescriptor::new(
        ExternalIdentity::parse(name).unwrap(),
        "donate".to_string(),
        vec![1, 2, 3],
        5,
        transfer,
    )
}

#[test]
fn the_ceiling_is_sixty() {
    assert_eq!(MAX_BRANCHES, 60);
}

#[test]
fn admit_branches_accepts_counts_below_the_ceiling() {
    assert_eq!(admit_branches(0), Ok(()));
    assert_eq!(admit_branches(1), Ok(()));
    assert_eq!(admit_branches(59), Ok(()));
}

#[test]
fn admit_branches_rejects_the_ceiling_and_above() {
    assert_eq!(admit_branches(60), Err(OrchestrationError::BudgetExceeded));
    assert_eq!(admit_branches(61), Err(OrchestrationError::BudgetExceeded));
    assert_eq!(admit_branches(usize::MAX), Err(OrchestrationError::BudgetExceeded));
}

#[test]
fn even_split_of_one_hundred_among_three_drops_the_remainder() {
    let split = split_evenly(100, 3).unwrap();
    assert_eq!(split.share, 33);
    assert_eq!(split.dropped, 1);
    assert_eq!(split, EvenSplit { share: 33, dropped: 1 });
}

#[test]
fn even_split_without_remainder_drops_nothing() {
    assert_eq!(split_evenly(99, 3), Ok(EvenSplit { share: 33, dropped: 0 }));
    assert_eq!(split_evenly(0, 5), Ok(EvenSplit { share: 0, dropped: 0 }));
    assert_eq!(split_evenly(7, 1), Ok(EvenSplit { share: 7, dropped: 0 }));
}

#[test]
fn even_split_of_less_than_one_each_drops_everything() {
    assert_eq!(split_evenly(2, 3), Ok(EvenSplit { share: 0, dropped: 2 }));
}

#[test]
fn even_split_of_the_largest_amount() {
    let split = split_evenly(u128::MAX, 59).unwrap();
    assert_eq!(split.share, u128::MAX / 59);
    assert_eq!(split.dropped, u128::MAX % 59);
}

#[test]
fn even_split_among_no_branches_is_an_empty_fan_out() {
    assert_eq!(split_evenly(100, 0), Err(OrchestrationError::EmptyFanOut));
}

#[test]
fn even_split_at_the_ceiling_exceeds_the_budget() {
    assert_eq!(split_evenly(100, 60), Err(OrchestrationError::BudgetExceeded));
}

#[test]
fn fund_evenly_gives_every_call_the_same_share_in_order() {
    let calls = vec![call_to("a.near", 0), call_to("b.near", 9), call_to("c.near", 0)];
    let funded = fund_evenly(calls, 100).unwrap();
    assert_eq!(funded.len(), 3);
    assert_eq!(funded[0], call_to("a.near", 33));
    assert_eq!(funded[1], call_to("b.near", 33));
    assert_eq!(funded[2], call_to("c.near", 33));
}

#[test]
fn fund_evenly_refuses_no_calls_and_too_many() {
    assert_eq!(fund_evenly(vec![], 100), Err(OrchestrationError::EmptyFanOut));
    let many: Vec<CallDescriptor> = (0..60).map(|_| call_to("a.near", 0)).collect();
    assert_eq!(fund_evenly(many, 100), Err(OrchestrationError::BudgetExceeded));
}
