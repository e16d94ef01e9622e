use cross_calls::collector::{Notice, NoticeKind};
use cross_calls::contract::{Contract, PostedMessage, NO_DEPOSIT, SIMILAR_CALLS, XCC_GAS};
use cross_calls::descriptor::CallDescriptor;
use cross_calls::error::OrchestrationError;
use cross_calls::graph::CallGraph;
use cross_calls::handoff::ContinuationRef;
use cross_calls::identity::ExternalIdentity;
use cross_calls::outcome::{BranchOutcome, Slot};

fn account(name: &str) -> ExternalIdentity {
    ExternalIdentity::parse(name).unwrap()
}

fn contract() -> Contract {
    Contract::init(account("hello.test"), account("counter.test"), account("guestbook.test"))
}

fn call(target: &str, method: &str, payload: &str) -> CallDescriptor {
    CallDescriptor::new(
        account(target),
        method.to_string(),
        payload.as_bytes().to_vec(),
        10_000_000_000_000,
        0,
    )
}

fn success(json: &str) -> BranchOutcome<Vec<u8>> {
    BranchOutcome::Success(json.as_bytes().to_vec())
}

#[test]
fn the_constants_of_the_contract() {
    assert_eq!(XCC_GAS, 10u64.pow(13));
    assert_eq!(NO_DEPOSIT, 0);
    assert_eq!(SIMILAR_CALLS, 3);
}

#[test]
fn default_names_the_contracts_of_the_test_network() {
    let contract = Contract::default();
    assert_eq!(contract.hello_account.as_str(), "hello.near-examples.testnet");
    assert_eq!(contract.counter_account.as_str(), "counter.near-examples.testnet");
    assert_eq!(contract.guestbook_account.as_str(), "guestbook.near-examples.testnet");
}

#[test]
fn init_keeps_the_accounts_given() {
    let contract = contract();
    assert_eq!(contract.hello_account, account("hello.test"));
    assert_eq!(contract.counter_account, account("counter.test"));
    assert_eq!(contract.guestbook_account, account("guestbook.test"));
}

#[test]
fn batch_actions_chains_four_calls_on_the_greeter() {
    let mut contract = contract();
    let submission = contract.batch_actions();
    assert_eq!(contract, self::contract());
    assert_eq!(
        submission.graph().calls(),
        vec![
            call("hello.test", "set_greeting", "{\"greeting\":\"hi\"}"),
            call("hello.test", "get_greeting", ""),
            call("hello.test", "set_greeting", "{\"greeting\":\"bye\"}"),
            call("hello.test", "get_greeting", ""),
        ]
    );
    assert!(submission.graph().is_sequence());
    assert_eq!(submission.expected_outcomes(), 1);
    assert_eq!(
        submission.graph().visible_at(0),
        Some(&call("hello.test", "get_greeting", ""))
    );
    assert_eq!(
        submission.continuation(),
        &ContinuationRef { method: "batch_actions_callback".to_string(), reserved_budget: None }
    );
}

#[test]
fn batch_actions_callback_returns_the_last_greeting_or_nothing() {
    let contract = contract();
    assert_eq!(
        contract.batch_actions_callback(BranchOutcome::Success("bye".to_string())),
        Ok("bye".to_string())
    );
    assert_eq!(
        contract.batch_actions_callback(BranchOutcome::Failed("reverted".to_string())),
        Ok(String::new())
    );
    assert_eq!(
        contract.batch_actions_callback(BranchOutcome::Pending),
        Err(OrchestrationError::ProtocolViolation)
    );
}

#[test]
fn create_promise_reads_the_greeting_on_the_test_network() {
    assert_eq!(
        Contract::create_promise(),
        call("hello.near-examples.testnet", "get_greeting", "")
    );
}

#[test]
fn call_multiple_times_plans_one_branch_per_promise() {
    let mut contract = contract();
    for count in 1..60u8 {
        let submission = contract.call_multiple_times(count).unwrap();
        assert_eq!(submission.expected_outcomes(), count as usize);
        assert_eq!(submission.graph().calls().len(), count as usize);
        for position in 0..count as usize {
            assert_eq!(
                submission.graph().visible_at(position),
                Some(&Contract::create_promise())
            );
        }
        assert_eq!(
            submission.continuation(),
            &ContinuationRef { method: "callback_dynamic".to_string(), reserved_budget: None }
        );
    }
    assert_eq!(contract, self::contract());
}

#[test]
fn call_multiple_times_refuses_sixty_and_more() {
    let mut contract = contract();
    assert_eq!(contract.call_multiple_times(60), Err(OrchestrationError::BudgetExceeded));
    assert_eq!(contract.call_multiple_times(61), Err(OrchestrationError::BudgetExceeded));
    assert_eq!(contract.call_multiple_times(255), Err(OrchestrationError::BudgetExceeded));
}

#[test]
fn call_multiple_times_refuses_no_promises() {
    let mut contract = contract();
    assert_eq!(contract.call_multiple_times(0), Err(OrchestrationError::EmptyFanOut));
}

#[test]
fn callback_dynamic_collects_every_outcome_by_position() {
    let contract = contract();
    let outcomes = vec![
        success("\"Hello\""),
        BranchOutcome::Failed("reverted".to_string()),
        success("not json"),
        success("\"World\""),
    ];
    let aggregate = contract.callback_dynamic(4, outcomes).unwrap();
    assert_eq!(
        aggregate.slots,
        vec![
            Slot::Value("Hello".to_string()),
            Slot::BranchFailed("reverted".to_string()),
            Slot::DecodeFailed,
            Slot::Value("World".to_string()),
        ]
    );
    assert_eq!(
        aggregate.notices(),
        vec![
            Notice { position: 1, kind: NoticeKind::BranchFailed("reverted".to_string()) },
            Notice { position: 2, kind: NoticeKind::DecodeFailed },
        ]
    );
}

#[test]
fn callback_dynamic_refuses_a_wrong_count_and_a_pending_outcome() {
    let contract = contract();
    assert_eq!(
        contract.callback_dynamic(2, vec![success("\"a\"")]),
        Err(OrchestrationError::ProtocolViolation)
    );
    assert_eq!(
        contract.callback_dynamic(1, vec![success("\"a\""), success("\"b\"")]),
        Err(OrchestrationError::ProtocolViolation)
    );
    assert_eq!(
        contract.callback_dynamic(2, vec![success("\"a\""), BranchOutcome::Pending]),
        Err(OrchestrationError::ProtocolViolation)
    );
}

#[test]
fn multiple_contracts_joins_one_call_to_each_contract() {
    let mut contract = contract();
    let submission = contract.multiple_contracts();
    assert_eq!(contract, self::contract());
    let hello = call("hello.test", "get_greeting", "");
    let counter = call("counter.test", "get_num", "");
    let guestbook = call("guestbook.test", "get_messages", "{\"from_index\":\"0\",\"limit\":2}");
    let expected = CallGraph::Join(
        Box::new(CallGraph::Join(
            Box::new(CallGraph::Call(hello.clone())),
            Box::new(CallGraph::Call(counter.clone())),
        )),
        Box::new(CallGraph::Call(guestbook.clone())),
    );
    assert_eq!(submission.graph(), &expected);
    assert_eq!(submission.expected_outcomes(), 3);
    assert_eq!(submission.graph().visible_at(0), Some(&hello));
    assert_eq!(submission.graph().visible_at(1), Some(&counter));
    assert_eq!(submission.graph().visible_at(2), Some(&guestbook));
    assert_eq!(
        submission.continuation(),
        &ContinuationRef {
            method: "multiple_contracts_callback".to_string(),
            reserved_budget: Some(XCC_GAS),
        }
    );
}

#[test]
fn multiple_contracts_callback_returns_what_each_contract_returned() {
    let contract = contract();
    let message = || PostedMessage {
        premium: true,
        sender: account("alice.test"),
        text: "hello".to_string(),
    };
    let collected = contract.multiple_contracts_callback(
        BranchOutcome::Success("Hi".to_string()),
        BranchOutcome::Success(-7),
        BranchOutcome::Success(vec![message()]),
    );
    assert_eq!(collected, Ok(("Hi".to_string(), -7, vec![message()])));
}

#[test]
fn multiple_contracts_callback_keeps_a_success_between_two_failures() {
    let contract = contract();
    let collected = contract.multiple_contracts_callback(
        BranchOutcome::Failed("a".to_string()),
        BranchOutcome::Success(12),
        BranchOutcome::Failed("b".to_string()),
    );
    assert_eq!(collected, Ok((String::new(), 12, Vec::new())));
    let collected = contract.multiple_contracts_callback(
        BranchOutcome::Success("Hi".to_string()),
        BranchOutcome::Failed("a".to_string()),
        BranchOutcome::Success(Vec::new()),
    );
    assert_eq!(collected, Ok(("Hi".to_string(), 0, Vec::new())));
}

#[test]
fn multiple_contracts_callback_refuses_a_pending_outcome() {
    let contract = contract();
    assert_eq!(
        contract.multiple_contracts_callback(
            BranchOutcome::Success("Hi".to_string()),
            BranchOutcome::Pending,
            BranchOutcome::Success(Vec::new()),
        ),
        Err(OrchestrationError::ProtocolViolation)
    );
    assert_eq!(
        contract.multiple_contracts_callback(
            BranchOutcome::Pending,
            BranchOutcome::Success(1),
            BranchOutcome::Success(Vec::new()),
        ),
        Err(OrchestrationError::ProtocolViolation)
    );
    assert_eq!(
        contract.multiple_contracts_callback(
            BranchOutcome::Failed("a".to_string()),
            BranchOutcome::Success(1),
            BranchOutcome::Pending,
        ),
        Err(OrchestrationError::ProtocolViolation)
    );
}

#[test]
fn promise_set_get_sets_the_greeting_and_reads_it_back() {
    let contract = contract();
    let graph = contract.promise_set_get("howdy");
    let expected = CallGraph::Chain(
        Box::new(CallGraph::Call(call(
            "hello.test",
            "set_greeting",
            "{\"greeting\":\"howdy\"}",
        ))),
        Box::new(CallGraph::Call(call("hello.test", "get_greeting", ""))),
    );
    assert_eq!(graph, expected);
}

#[test]
fn promise_set_get_escapes_the_greeting() {
    let contract = contract();
    let graph = contract.promise_set_get("say \"hi\"\n");
    assert_eq!(
        graph.first_call().payload(),
        "{\"greeting\":\"say \\\"hi\\\"\\n\"}".as_bytes()
    );
}

#[test]
fn similar_contracts_joins_three_chains_on_the_greeter() {
    let mut contract = contract();
    let submission = contract.similar_contracts();
    assert_eq!(contract, self::contract());
    let get = call("hello.test", "get_greeting", "");
    let set = |greeting: &str| {
        call("hello.test", "set_greeting", &format!("{{\"greeting\":\"{greeting}\"}}"))
    };
    assert_eq!(
        submission.graph().branches(),
        vec![
            vec![set("hi"), get.clone()],
            vec![set("howdy"), get.clone()],
            vec![set("bye"), get.clone()],
        ]
    );
    assert_eq!(submission.expected_outcomes(), 3);
    for position in 0..3 {
        assert_eq!(submission.graph().visible_at(position), Some(&get));
    }
    assert_eq!(
        submission.continuation(),
        &ContinuationRef {
            method: "similar_contracts_callback".to_string(),
            reserved_budget: Some(XCC_GAS),
        }
    );
}

#[test]
fn similar_contracts_callback_aligns_the_greetings_with_the_branches() {
    let contract = contract();
    let outcomes =
        vec![BranchOutcome::Failed("x".to_string()), success("\"howdy\""), success("\"bye\"")];
    let aggregate = contract.similar_contracts_callback(outcomes).unwrap();
    assert_eq!(
        aggregate.into_values(),
        vec![String::new(), "howdy".to_string(), "bye".to_string()]
    );
}

#[test]
fn similar_contracts_callback_refuses_a_wrong_count_and_a_pending_outcome() {
    let contract = contract();
    assert_eq!(
        contract.similar_contracts_callback(vec![success("\"a\""), success("\"b\"")]),
        Err(OrchestrationError::ProtocolViolation)
    );
    assert_eq!(
        contract.similar_contracts_callback(vec![
            success("\"a\""),
            BranchOutcome::Pending,
            success("\"c\""),
        ]),
        Err(OrchestrationError::ProtocolViolation)
    );
}
