//! A contract that calls three other contracts: a greeter, a counter and a
//! guest book. Its methods come in pairs. The first of a pair plans the calls
//! and names the callback; the second is that callback, and turns the
//! outcomes into what the caller of the contract sees.

use vstd::prelude::*;

use crate::budget::{admit_branches, MAX_BRANCHES};
use crate::codec::{
    encode_text_and_number_members,
    encode_text_member,
    json_text_and_number_members,
    json_text_member,
};
use crate::collector::{any_pending, collect_join, join_slots, outcome_views, AggregateResult};
use crate::descriptor::{descriptor_views, CallDescriptor, DescriptorView};
use crate::error::OrchestrationError;
use crate::graph::{chain, fold_chain, fold_join, join, lemma_fold_chain, CallGraph, GraphView};
use crate::handoff::{ContinuationRef, ContinuationView, Submission, SubmissionView};
use crate::identity::{valid_account_name, ExternalIdentity};
use crate::outcome::{BranchOutcome, Slot};

verus! {

/// The resource units given to every cross-contract call: ten to the
/// thirteenth.
pub const XCC_GAS: u64 = 10_000_000_000_000;

/// The amount transferred with a call that pays nothing.
pub const NO_DEPOSIT: u128 = 0;

/// How many greeters [`Contract::similar_contracts`] calls.
pub const SIMILAR_CALLS: usize = 3;

/// A message as the guest book returns it.
#[derive(Debug, PartialEq, Eq)]
pub struct PostedMessage {
    pub premium: bool,
    pub sender: ExternalIdentity,
    pub text: String,
}

/// The contract state: the accounts of the three contracts it calls.
#[derive(Debug, PartialEq, Eq)]
pub struct Contract {
    pub hello_account: ExternalIdentity,
    pub counter_account: ExternalIdentity,
    pub guestbook_account: ExternalIdentity,
}

/// The call that sets the greeting of the greeter at `target`.
pub open spec fn set_greeting_call(target: Seq<char>, greeting: Seq<char>) -> DescriptorView {
    DescriptorView {
        target,
        method: "set_greeting"@,
        payload: json_text_member("greeting"@, greeting),
        budget: XCC_GAS,
        transfer: NO_DEPOSIT,
    }
}

/// A call that takes no arguments and pays nothing.
pub open spec fn plain_call(target: Seq<char>, method: Seq<char>) -> DescriptorView {
    DescriptorView {
        target,
        method,
        payload: Seq::empty(),
        budget: XCC_GAS,
        transfer: NO_DEPOSIT,
    }
}

/// The call that reads the greeting of the greeter at `target`.
pub open spec fn get_greeting_call(target: Seq<char>) -> DescriptorView {
    plain_call(target, "get_greeting"@)
}

/// The call that reads the first two messages of the guest book at `target`.
pub open spec fn get_messages_call(target: Seq<char>) -> DescriptorView {
    DescriptorView {
        target,
        method: "get_messages"@,
        payload: json_text_and_number_members("from_index"@, "0"@, "limit"@, 2),
        budget: XCC_GAS,
        transfer: NO_DEPOSIT,
    }
}

/// The chain that sets the greeting at `target` and reads it back.
pub open spec fn set_then_get(target: Seq<char>, greeting: Seq<char>) -> GraphView {
    GraphView::Chain(
        Box::new(GraphView::Call(set_greeting_call(target, greeting))),
        Box::new(GraphView::Call(get_greeting_call(target))),
    )
}

/// A callback of this contract that runs with no budget reserved.
pub open spec fn callback(method: Seq<char>) -> ContinuationView {
    ContinuationView { method, reserved_budget: None }
}

/// A callback of this contract that runs with [`XCC_GAS`] reserved.
pub open spec fn funded_callback(method: Seq<char>) -> ContinuationView {
    ContinuationView { method, reserved_budget: Some(XCC_GAS) }
}

/// The name of the greeter on the test network is a valid account name.
proof fn lemma_hello_name_is_valid()
    ensures
        valid_account_name("hello.near-examples.testnet"@),
{
    reveal_strlit("hello.near-examples.testnet");
}

/// The name of the counter on the test network is a valid account name.
proof fn lemma_counter_name_is_valid()
    ensures
        valid_account_name("counter.near-examples.testnet"@),
{
    reveal_strlit("counter.near-examples.testnet");
}

/// The name of the guest book on the test network is a valid account name.
proof fn lemma_guestbook_name_is_valid()
    ensures
        valid_account_name("guestbook.near-examples.testnet"@),
{
    reveal_strlit("guestbook.near-examples.testnet");
}

/// The identity with the name `name`, for a name known to be valid.
fn known_identity(name: &str) -> (identity: ExternalIdentity)
    requires
        valid_account_name(name@),
    ensures
        identity@ == name@,
{
    ExternalIdentity::parse(name).unwrap()
}

impl Default for Contract {
    /// The contract that calls the three example contracts of the test
    /// network.
    fn default() -> (contract: Self)
        ensures
            contract.hello_account@ == "hello.near-examples.testnet"@,
            contract.counter_account@ == "counter.near-examples.testnet"@,
            contract.guestbook_account@ == "guestbook.near-examples.testnet"@,
    {
        proof {
            lemma_hello_name_is_valid();
            lemma_counter_name_is_valid();
            lemma_guestbook_name_is_valid();
        }
        Contract {
            hello_account: known_identity("hello.near-examples.testnet"),
            counter_account: known_identity("counter.near-examples.testnet"),
            guestbook_account: known_identity("guestbook.near-examples.testnet"),
        }
    }
}

/// The descriptor of a call that pays nothing and spends [`XCC_GAS`].
fn call_on(target: &ExternalIdentity, method: &str, payload: Vec<u8>) -> (descriptor:
    CallDescriptor)
    ensures
        descriptor@ == (DescriptorView {
            target: target@,
            method: method@,
            payload: payload@,
            budget: XCC_GAS,
            transfer: NO_DEPOSIT,
        }),
{
    CallDescriptor::new(target.clone(), method.to_owned(), payload, XCC_GAS, NO_DEPOSIT)
}

/// The continuation that names `method`.
fn continuation(method: &str, reserved_budget: Option<u64>) -> (continuation: ContinuationRef)
    ensures
        continuation@ == (ContinuationView { method: method@, reserved_budget }),
{
    ContinuationRef { method: method.to_owned(), reserved_budget }
}

impl Contract {
    /// The contract that calls the three accounts given.
    pub fn init(
        hello_account: ExternalIdentity,
        counter_account: ExternalIdentity,
        guestbook_account: ExternalIdentity,
    ) -> (contract: Self)
        ensures
            contract == (Contract { hello_account, counter_account, guestbook_account }),
    {
        Contract { hello_account, counter_account, guestbook_account }
    }

    /// Plans one batch on the greeter: set the greeting to "hi", read it, set
    /// it to "bye", read it again. The four calls form one chain, so the
    /// callback sees the outcome of the last call only.
    pub fn batch_actions(&mut self) -> (submission: Submission)
        ensures
            *final(self) == *old(self),
            submission@ == (SubmissionView {
                graph: fold_chain(
                    seq![
                        set_greeting_call(old(self).hello_account@, "hi"@),
                        get_greeting_call(old(self).hello_account@),
                        set_greeting_call(old(self).hello_account@, "bye"@),
                        get_greeting_call(old(self).hello_account@),
                    ],
                ),
                continuation: callback("batch_actions_callback"@),
            }),
    {
        let hi = encode_text_member("greeting", "hi");
        let bye = encode_text_member("greeting", "bye");
        let mut steps: Vec<CallDescriptor> = Vec::new();
        steps.push(call_on(&self.hello_account, "set_greeting", hi));
        steps.push(call_on(&self.hello_account, "get_greeting", Vec::new()));
        steps.push(call_on(&self.hello_account, "set_greeting", bye));
        steps.push(call_on(&self.hello_account, "get_greeting", Vec::new()));
        assert(descriptor_views(steps@) =~= seq![
            set_greeting_call(self.hello_account@, "hi"@),
            get_greeting_call(self.hello_account@),
            set_greeting_call(self.hello_account@, "bye"@),
            get_greeting_call(self.hello_account@),
        ]);
        Submission::chained(steps, continuation("batch_actions_callback", None)).unwrap()
    }

    /// The callback of [`Contract::batch_actions`]: the greeting that the
    /// last call of the batch returned, or the empty text where the batch
    /// failed.
    pub fn batch_actions_callback(&self, last_result: BranchOutcome<String>) -> (greeting: Result<
        String,
        OrchestrationError,
    >)
        ensures
            greeting is Ok <==> !(last_result is Pending),
            greeting matches Err(error) ==> error == OrchestrationError::ProtocolViolation,
            last_result matches BranchOutcome::Success(text) ==> greeting == Ok::<
                _,
                OrchestrationError,
            >(text),
            last_result is Failed ==> (greeting matches Ok(text) && text@ == Seq::<char>::empty()),
    {
        match Slot::settle(last_result) {
            Ok(slot) => Ok(slot.value_or(String::new())),
            Err(error) => Err(error),
        }
    }

    /// The call that every branch of [`Contract::call_multiple_times`] makes:
    /// reading the greeting of the greeter on the test network.
    pub fn create_promise() -> (descriptor: CallDescriptor)
        ensures
            descriptor@ == get_greeting_call("hello.near-examples.testnet"@),
    {
        proof {
            lemma_hello_name_is_valid();
        }
        let greeter = known_identity("hello.near-examples.testnet");
        CallDescriptor::new(greeter, "get_greeting".to_owned(), Vec::new(), XCC_GAS, 0)
    }

    /// Plans `number_of_promises` parallel calls of the greeter, each a
    /// branch of its own.
    ///
    /// The number is checked before anything is built: zero calls are an
    /// empty fan-out, and sixty or more exceed the budget.
    pub fn call_multiple_times(&mut self, number_of_promises: u8) -> (planned: Result<
        Submission,
        OrchestrationError,
    >)
        ensures
            *final(self) == *old(self),
            number_of_promises == 0 ==> planned == Err::<Submission, _>(
                OrchestrationError::EmptyFanOut,
            ),
            number_of_promises >= MAX_BRANCHES ==> planned == Err::<Submission, _>(
                OrchestrationError::BudgetExceeded,
            ),
            0 < number_of_promises < MAX_BRANCHES ==> planned is Ok,
            planned matches Ok(submission) ==> submission@ == (SubmissionView {
                graph: fold_join(
                    Seq::new(
                        number_of_promises as nat,
                        |i: int| get_greeting_call("hello.near-examples.testnet"@),
                    ),
                ),
                continuation: callback("callback_dynamic"@),
            }) && submission@.graph.branch_count() == number_of_promises,
    {
        if number_of_promises == 0 {
            return Err(OrchestrationError::EmptyFanOut);
        }
        if admit_branches(number_of_promises as usize).is_err() {
            return Err(OrchestrationError::BudgetExceeded);
        }
        let mut promises: Vec<CallDescriptor> = Vec::new();
        for made in 0..number_of_promises
            invariant
                promises@.len() == made,
                forall|i: int|
                    0 <= i < promises@.len() ==> (#[trigger] promises@[i])@ == get_greeting_call(
                        "hello.near-examples.testnet"@,
                    ),
        {
            promises.push(Self::create_promise());
        }
        assert(descriptor_views(promises@) =~= Seq::new(
            number_of_promises as nat,
            |i: int| get_greeting_call("hello.near-examples.testnet"@),
        ));
        Submission::fanned_out(promises, None, continuation("callback_dynamic", None))
    }

    /// The callback of [`Contract::call_multiple_times`]: the greeting that
    /// each of the `number_of_promises` calls returned, by position.
    ///
    /// The outcomes must be as many as the calls that were planned, and none
    /// may be pending: anything else is a protocol violation.
    pub fn callback_dynamic(&self, number_of_promises: u8, outcomes: Vec<BranchOutcome<Vec<u8>>>) -> (collected:
        Result<AggregateResult<String>, OrchestrationError>)
        ensures
            collected is Ok <==> outcomes@.len() == number_of_promises && !any_pending(
                outcome_views(outcomes@),
            ),
            collected matches Err(error) ==> error == OrchestrationError::ProtocolViolation,
            collected matches Ok(aggregate) ==> aggregate@ == join_slots(outcome_views(outcomes@)),
    {
        if outcomes.len() != number_of_promises as usize {
            return Err(OrchestrationError::ProtocolViolation);
        }
        collect_join(outcomes)
    }

    /// Plans three parallel calls, one to each contract: the greeting of the
    /// greeter, the number of the counter, and the first two messages of the
    /// guest book, in that positional order.
    pub fn multiple_contracts(&mut self) -> (submission: Submission)
        ensures
            *final(self) == *old(self),
            submission@ == (SubmissionView {
                graph: fold_join(
                    seq![
                        get_greeting_call(old(self).hello_account@),
                        plain_call(old(self).counter_account@, "get_num"@),
                        get_messages_call(old(self).guestbook_account@),
                    ],
                ),
                continuation: funded_callback("multiple_contracts_callback"@),
            }),
            submission@.graph.branch_count() == 3,
    {
        let hello_promise = call_on(&self.hello_account, "get_greeting", Vec::new());
        let counter_promise = call_on(&self.counter_account, "get_num", Vec::new());
        let args = encode_text_and_number_members("from_index", "0", "limit", 2);
        let guestbook_promise = call_on(&self.guestbook_account, "get_messages", args);
        let mut promises: Vec<CallDescriptor> = Vec::new();
        promises.push(hello_promise);
        promises.push(counter_promise);
        promises.push(guestbook_promise);
        assert(descriptor_views(promises@) =~= seq![
            get_greeting_call(self.hello_account@),
            plain_call(self.counter_account@, "get_num"@),
            get_messages_call(self.guestbook_account@),
        ]);
        Submission::fanned_out(
            promises,
            None,
            continuation("multiple_contracts_callback", Some(XCC_GAS)),
        ).unwrap()
    }

    /// The callback of [`Contract::multiple_contracts`]: what each of the
    /// three contracts returned, with the empty text, zero and no messages
    /// standing in for a call that failed. A failed call changes nothing
    /// about what the other two returned.
    pub fn multiple_contracts_callback(
        &self,
        hello_result: BranchOutcome<String>,
        counter_result: BranchOutcome<i8>,
        guestbook_result: BranchOutcome<Vec<PostedMessage>>,
    ) -> (collected: Result<(String, i8, Vec<PostedMessage>), OrchestrationError>)
        ensures
            collected is Ok <==> !(hello_result is Pending) && !(counter_result is Pending) && !(
            guestbook_result is Pending),
            collected matches Err(error) ==> error == OrchestrationError::ProtocolViolation,
            collected matches Ok(values) ==> {
                &&& hello_result matches BranchOutcome::Success(greeting) ==> values.0 == greeting
                &&& hello_result is Failed ==> values.0@ == Seq::<char>::empty()
                &&& counter_result matches BranchOutcome::Success(counter) ==> values.1 == counter
                &&& counter_result is Failed ==> values.1 == 0
                &&& guestbook_result matches BranchOutcome::Success(messages) ==> values.2
                    == messages
                &&& guestbook_result is Failed ==> values.2@ == Seq::<PostedMessage>::empty()
            },
    {
        let greeting = Slot::settle(hello_result)?.value_or(String::new());
        let counter = Slot::settle(counter_result)?.value_or(0);
        let messages = Slot::settle(guestbook_result)?.value_or(Vec::new());
        Ok((greeting, counter, messages))
    }

    /// The chain that sets the greeting of the greeter to `message` and
    /// reads it back.
    pub fn promise_set_get(&self, message: &str) -> (graph: CallGraph)
        ensures
            graph@ == set_then_get(self.hello_account@, message@),
            graph@.well_formed(),
            graph@.branch_count() == 1,
    {
        let args = encode_text_member("greeting", message);
        let mut steps: Vec<CallDescriptor> = Vec::new();
        steps.push(call_on(&self.hello_account, "set_greeting", args));
        steps.push(call_on(&self.hello_account, "get_greeting", Vec::new()));
        assert(descriptor_views(steps@) =~= seq![
            set_greeting_call(self.hello_account@, message@),
            get_greeting_call(self.hello_account@),
        ]);
        proof {
            let views = descriptor_views(steps@);
            assert(views.drop_last() =~= seq![set_greeting_call(self.hello_account@, message@)]);
            assert(fold_chain(views.drop_last()) == GraphView::Call(views[0]));
            lemma_fold_chain(views);
        }
        chain(steps).unwrap()
    }

    /// Plans three parallel branches on the greeter. Each sets a greeting of
    /// its own ("hi", "howdy", "bye") and reads it back, so the callback finds
    /// three greetings, in that positional order.
    pub fn similar_contracts(&mut self) -> (submission: Submission)
        ensures
            *final(self) == *old(self),
            submission@ == (SubmissionView {
                graph: GraphView::Join(
                    Box::new(
                        GraphView::Join(
                            Box::new(set_then_get(old(self).hello_account@, "hi"@)),
                            Box::new(set_then_get(old(self).hello_account@, "howdy"@)),
                        ),
                    ),
                    Box::new(set_then_get(old(self).hello_account@, "bye"@)),
                ),
                continuation: funded_callback("similar_contracts_callback"@),
            }),
            submission@.graph.branch_count() == SIMILAR_CALLS,
    {
        let hello_one = self.promise_set_get("hi");
        let hello_two = self.promise_set_get("howdy");
        let hello_three = self.promise_set_get("bye");
        let first_two = join(hello_one, hello_two).unwrap();
        let all_three = join(first_two, hello_three).unwrap();
        Submission::prepare(
            all_three,
            continuation("similar_contracts_callback", Some(XCC_GAS)),
        ).unwrap()
    }

    /// The callback of [`Contract::similar_contracts`]: the greeting that
    /// each of the three branches read back, by position.
    ///
    /// There must be three outcomes and none may be pending: anything else
    /// is a protocol violation.
    pub fn similar_contracts_callback(&self, outcomes: Vec<BranchOutcome<Vec<u8>>>) -> (collected:
        Result<AggregateResult<String>, OrchestrationError>)
        ensures
            collected is Ok <==> outcomes@.len() == SIMILAR_CALLS && !any_pending(
                outcome_views(outcomes@),
            ),
            collected matches Err(error) ==> error == OrchestrationError::ProtocolViolation,
            collected matches Ok(aggregate) ==> aggregate@ == join_slots(outcome_views(outcomes@)),
    {
        if outcomes.len() != SIMILAR_CALLS {
            return Err(OrchestrationError::ProtocolViolation);
        }
        collect_join(outcomes)
    }
}

} // verus!
