use cross_calls::codec::decode_text;
use cross_calls::collector::{
    collect, collect_chain, collect_join, AggregateResult, CollectionPolicy, Notice, NoticeKind,
};
use cross_calls::error::OrchestrationError;
use cross_calls::outcome::{BranchOutcome, Slot};

fn success(json: &str) -> BranchOutcome<Vec<u8>> {
    BranchOutcome::Success(json.as_bytes().to_vec())
}

fn failed(reason: &str) -> BranchOutcome<Vec<u8>> {
    BranchOutcome::Failed(reason.to_string())
}

#[test]
fn decode_text_reads_a_json_string() {
    assert_eq!(decode_text(b"\"hello\""), Some("hello".to_string()));
    assert_eq!(decode_text(b"  \"a\\nb\"  "), Some("a\nb".to_string()));
    assert_eq!(decode_text(b"\"\""), Some(String::new()));
}

#[test]
fn decode_text_refuses_what_is_not_one_json_string() {
    assert_eq!(decode_text(b"hello"), None);
    assert_eq!(decode_text(b"42"), None);
    assert_eq!(decode_text(b""), None);
    assert_eq!(decode_text(b"\"open"), None);
    assert_eq!(decode_text(b"\"a\" \"b\""), None);
    assert_eq!(decode_text(&[0x22, 0xff, 0x22]), None);
}

#[test]
fn decoding_the_same_payload_twice_gives_the_same_value() {
    let payload = b"\"hi there\"".to_vec();
    let first = decode_text(&payload);
    let second = decode_text(&payload);
    assert_eq!(first, Some("hi there".to_string()));
    assert_eq!(first, second);
    let broken = b"{nope".to_vec();
    assert_eq!(decode_text(&broken), decode_text(&broken));
    assert_eq!(
        Slot::settle_text(BranchOutcome::Success(payload.clone())),
        Slot::settle_text(BranchOutcome::Success(payload))
    );
}

#[test]
fn settle_keeps_a_typed_value() {
    assert_eq!(Slot::settle(BranchOutcome::Success(7i8)), Ok(Slot::Value(7i8)));
    assert_eq!(
        Slot::<i8>::settle(BranchOutcome::Failed("out of gas".to_string())),
        Ok(Slot::BranchFailed("out of gas".to_string()))
    );
    assert_eq!(
        Slot::<i8>::settle(BranchOutcome::Pending),
        Err(OrchestrationError::ProtocolViolation)
    );
}

#[test]
fn settle_text_decodes_marks_or_refuses() {
    assert_eq!(Slot::settle_text(success("\"hi\"")), Ok(Slot::Value("hi".to_string())));
    assert_eq!(Slot::settle_text(success("17")), Ok(Slot::DecodeFailed));
    assert_eq!(
        Slot::settle_text(failed("reverted")),
        Ok(Slot::BranchFailed("reverted".to_string()))
    );
    assert_eq!(
        Slot::settle_text(BranchOutcome::Pending),
        Err(OrchestrationError::ProtocolViolation)
    );
}

#[test]
fn from_decoded_maps_a_missing_text_to_a_marker() {
    assert_eq!(Slot::from_decoded(Some("x".to_string())), Slot::Value("x".to_string()));
    assert_eq!(Slot::from_decoded(None), Slot::DecodeFailed);
}

#[test]
fn a_slot_gives_its_value_or_the_default() {
    assert_eq!(Slot::Value(5i8).value_or(0), 5);
    assert_eq!(Slot::<i8>::BranchFailed("x".to_string()).value_or(0), 0);
    assert_eq!(Slot::<i8>::DecodeFailed.value_or(-1), -1);
    assert!(Slot::Value(5i8).is_value());
    assert!(!Slot::<i8>::DecodeFailed.is_value());
    assert_eq!(Slot::Value("t".to_string()).into_text(), "t");
    assert_eq!(Slot::<String>::DecodeFailed.into_text(), "");
    assert_eq!(Slot::<String>::BranchFailed("r".to_string()).into_text(), "");
}

#[test]
fn join_policy_keeps_a_success_between_two_failures() {
    let outcomes = vec![failed("first"), success("\"middle\""), failed("last")];
    let aggregate = collect_join(outcomes).unwrap();
    assert_eq!(
        aggregate.slots,
        vec![
            Slot::BranchFailed("first".to_string()),
            Slot::Value("middle".to_string()),
            Slot::BranchFailed("last".to_string()),
        ]
    );
    assert_eq!(aggregate.len(), 3);
    assert_eq!(
        aggregate.notices(),
        vec![
            Notice { position: 0, kind: NoticeKind::BranchFailed("first".to_string()) },
            Notice { position: 2, kind: NoticeKind::BranchFailed("last".to_string()) },
        ]
    );
    assert_eq!(
        aggregate.into_values(),
        vec![String::new(), "middle".to_string(), String::new()]
    );
}

#[test]
fn join_policy_gives_a_slot_the_same_value_whatever_the_siblings_did() {
    let alone = collect_join(vec![success("\"kept\"")]).unwrap();
    let among_failures =
        collect_join(vec![failed("a"), success("\"kept\""), success("broken")]).unwrap();
    assert_eq!(alone.slots[0], among_failures.slots[1]);
}

#[test]
fn join_policy_marks_a_payload_that_does_not_decode() {
    let aggregate = collect_join(vec![success("\"a\""), success("{"), success("\"c\"")]).unwrap();
    assert_eq!(
        aggregate.slots,
        vec![Slot::Value("a".to_string()), Slot::DecodeFailed, Slot::Value("c".to_string())]
    );
    assert_eq!(
        aggregate.notices(),
        vec![Notice { position: 1, kind: NoticeKind::DecodeFailed }]
    );
    assert_eq!(
        aggregate.into_values(),
        vec!["a".to_string(), String::new(), "c".to_string()]
    );
}

#[test]
fn join_policy_refuses_a_pending_outcome() {
    let outcomes = vec![success("\"a\""), BranchOutcome::Pending, failed("x")];
    assert_eq!(collect_join(outcomes), Err(OrchestrationError::ProtocolViolation));
    assert_eq!(
        collect_join(vec![BranchOutcome::Pending]),
        Err(OrchestrationError::ProtocolViolation)
    );
}

#[test]
fn join_policy_over_no_outcomes_is_an_empty_aggregate() {
    let aggregate = collect_join(Vec::new()).unwrap();
    assert_eq!(aggregate, AggregateResult { slots: Vec::new() });
    assert_eq!(aggregate.notices(), Vec::new());
    assert_eq!(aggregate.into_values(), Vec::<String>::new());
}

#[test]
fn chain_policy_exposes_the_default_when_the_last_of_four_steps_fails() {
    let outcomes =
        vec![success("\"one\""), success("\"two\""), success("\"three\""), failed("reverted")];
    let aggregate = collect_chain(outcomes).unwrap();
    assert_eq!(aggregate.slots, vec![Slot::BranchFailed("reverted".to_string())]);
    assert_eq!(
        aggregate.notices(),
        vec![Notice { position: 0, kind: NoticeKind::BranchFailed("reverted".to_string()) }]
    );
    assert_eq!(aggregate.into_values(), vec![String::new()]);
}

#[test]
fn chain_policy_exposes_the_last_success_only() {
    let outcomes = vec![failed("early"), BranchOutcome::Pending, success("\"final\"")];
    let aggregate = collect_chain(outcomes).unwrap();
    assert_eq!(aggregate.slots, vec![Slot::Value("final".to_string())]);
    assert_eq!(aggregate.into_values(), vec!["final".to_string()]);
}

#[test]
fn chain_policy_gives_the_same_aggregate_for_the_same_last_outcome() {
    let long = collect_chain(vec![success("\"x\""), failed("y"), success("\"last\"")]);
    let short = collect_chain(vec![success("\"last\"")]);
    assert_eq!(long, short);
}

#[test]
fn chain_policy_refuses_a_pending_last_outcome() {
    let outcomes = vec![success("\"one\""), BranchOutcome::Pending];
    assert_eq!(collect_chain(outcomes), Err(OrchestrationError::ProtocolViolation));
}

#[test]
fn chain_policy_over_no_outcomes_is_an_empty_chain() {
    assert_eq!(collect_chain(Vec::new()), Err(OrchestrationError::EmptyChain));
}

#[test]
fn collect_follows_the_policy_named() {
    let outcomes = || vec![failed("a"), success("\"b\"")];
    let joined = collect(CollectionPolicy::JoinResult, outcomes()).unwrap();
    assert_eq!(
        joined.slots,
        vec![Slot::BranchFailed("a".to_string()), Slot::Value("b".to_string())]
    );
    let chained = collect(CollectionPolicy::ChainResult, outcomes()).unwrap();
    assert_eq!(chained.slots, vec![Slot::Value("b".to_string())]);
}
