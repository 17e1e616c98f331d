use vstd::prelude::*;

use crate::chain::TxHashSchema;
use crate::classify::{
    classification, classify, is_transient, DirectiveModel, NONCE_MARKER, RetryDirective,
    UNDERPRICED_MARKER,
};
use crate::fee::{can_escalate, escalated};
use crate::text::contains;

verus! {

/// How many submissions one intent may make before the engine gives up.
pub const MAX_RETRIES: u64 = 5;

/// The parameters of one submission: its 0-based index, the nonce to use
/// (`None` lets the client choose) and the fee bid.
#[derive(Clone, Copy, Debug)]
pub struct Attempt {
    pub index: u64,
    pub nonce: Option<u64>,
    pub fee: u128,
}

/// Why a submission sequence ended without a transaction.
#[derive(Clone, Debug)]
pub enum Failure {
    /// The provider rejected the call for a reason that retrying cannot mend.
    Fatal(String),
    /// Every allowed attempt failed transiently; holds the last error.
    RetryBudgetExhausted(String),
}

/// What one submission came back with.
#[derive(Clone, Debug)]
pub enum SubmitOutcome {
    /// The node accepted the transaction and gave its hash.
    Sent(TxHashSchema),
    /// The node refused it with this message.
    Rejected(String),
}

/// What the surrounding service reports back to the engine.
#[derive(Clone, Debug)]
pub enum Event {
    /// The network's suggested fee, asked for because the caller gave none.
    FeeQuoted(u64),
    /// The result of the submission that the engine asked for.
    Submission(SubmitOutcome),
}

/// Where one submission sequence stands.
#[derive(Clone, Debug)]
pub enum SubmissionState {
    /// The fee must be queried before the first attempt; holds the caller's nonce.
    AwaitingFee(Option<u64>),
    /// This attempt is to be submitted next.
    Attempting(Attempt),
    /// Terminal: the transaction was sent.
    Succeeded(TxHashSchema),
    /// Terminal: the sequence failed.
    Failed(Failure),
}

/// The work the surrounding service performs next.
#[derive(Clone, Copy, Debug)]
pub enum Action {
    /// Ask the network for its suggested fee and report `Event::FeeQuoted`.
    QueryFee,
    /// Submit once with these parameters and report `Event::Submission`.
    Submit(Attempt),
    /// Nothing more: the state is terminal.
    Finish,
}

pub enum FailureModel {
    Fatal(Seq<char>),
    RetryBudgetExhausted(Seq<char>),
}

pub enum EventModel {
    FeeQuoted(u64),
    Sent(Seq<u8>),
    Rejected(Seq<char>),
}

pub enum StateModel {
    AwaitingFee(Option<u64>),
    Attempting(Attempt),
    Succeeded(Seq<u8>),
    Failed(FailureModel),
}

impl View for Failure {
    type V = FailureModel;

    open spec fn view(&self) -> FailureModel {
        match self {
            Failure::Fatal(m) => FailureModel::Fatal(m@),
            Failure::RetryBudgetExhausted(m) => FailureModel::RetryBudgetExhausted(m@),
        }
    }
}

impl View for Event {
    type V = EventModel;

    open spec fn view(&self) -> EventModel {
        match self {
            Event::FeeQuoted(f) => EventModel::FeeQuoted(*f),
            Event::Submission(SubmitOutcome::Sent(h)) => EventModel::Sent(h@),
            Event::Submission(SubmitOutcome::Rejected(m)) => EventModel::Rejected(m@),
        }
    }
}

impl View for SubmissionState {
    type V = StateModel;

    open spec fn view(&self) -> StateModel {
        match self {
            SubmissionState::AwaitingFee(n) => StateModel::AwaitingFee(*n),
            SubmissionState::Attempting(a) => StateModel::Attempting(*a),
            SubmissionState::Succeeded(h) => StateModel::Succeeded(h@),
            SubmissionState::Failed(f) => StateModel::Failed(f@),
        }
    }
}

/// The largest bid an attempt can carry: a 64-bit bid raised by at most ten
/// percent per retry stays below this bound.
pub open spec fn fee_cap(index: u64) -> int {
    (index as int + 1) * (u64::MAX as int)
}

/// An attempt within the retry budget, with a bid that can still be raised.
pub open spec fn attempt_wf(a: Attempt) -> bool {
    a.index < MAX_RETRIES && a.fee <= fee_cap(a.index)
}

pub open spec fn state_wf(s: StateModel) -> bool {
    match s {
        StateModel::Attempting(a) => attempt_wf(a),
        _ => true,
    }
}

/// The state in which a sequence starts, from the caller's nonce and fee.
pub open spec fn initial_state(nonce: Option<u64>, fee: Option<u64>) -> StateModel {
    match fee {
        Some(f) => StateModel::Attempting(Attempt { index: 0, nonce, fee: f as u128 }),
        None => StateModel::AwaitingFee(nonce),
    }
}

/// What follows when attempt `a` is rejected with `msg`: a new nonce or a new
/// bid replaces the old one and the other is carried over, unless the budget is
/// spent; any other error ends the sequence.
pub open spec fn after_rejection(a: Attempt, msg: Seq<char>) -> StateModel {
    match classification(msg, a.fee) {
        DirectiveModel::RetryWithNonce(n) => if a.index + 1 < MAX_RETRIES {
            StateModel::Attempting(Attempt { index: (a.index + 1) as u64, nonce: Some(n), fee: a.fee })
        } else {
            StateModel::Failed(FailureModel::RetryBudgetExhausted(msg))
        },
        DirectiveModel::RetryWithFee(b) => if a.index + 1 < MAX_RETRIES {
            StateModel::Attempting(Attempt { index: (a.index + 1) as u64, nonce: a.nonce, fee: b })
        } else {
            StateModel::Failed(FailureModel::RetryBudgetExhausted(msg))
        },
        _ => StateModel::Failed(FailureModel::Fatal(msg)),
    }
}

/// One transition of the engine. An event that does not fit the state (a
/// quote while attempting, anything after the end) leaves it unchanged.
pub open spec fn next_state(s: StateModel, e: EventModel) -> StateModel {
    match s {
        StateModel::AwaitingFee(nonce) => match e {
            EventModel::FeeQuoted(f) => StateModel::Attempting(
                Attempt { index: 0, nonce, fee: f as u128 },
            ),
            _ => s,
        },
        StateModel::Attempting(a) => match e {
            EventModel::Sent(h) => StateModel::Succeeded(h),
            EventModel::Rejected(msg) => after_rejection(a, msg),
            _ => s,
        },
        _ => s,
    }
}

/// The state after the events `es`, in order, starting from `s`.
pub open spec fn run(s: StateModel, es: Seq<EventModel>) -> StateModel
    decreases es.len(),
{
    if es.len() == 0 {
        s
    } else {
        next_state(run(s, es.drop_last()), es.last())
    }
}

/// The work that state `s` asks for.
pub open spec fn action_of(s: StateModel) -> Action {
    match s {
        StateModel::AwaitingFee(_) => Action::QueryFee,
        StateModel::Attempting(a) => Action::Submit(a),
        _ => Action::Finish,
    }
}

proof fn lemma_escalation_within_cap(a: Attempt)
    requires
        attempt_wf(a),
        a.index + 1 < MAX_RETRIES,
    ensures
        escalated(a.fee as int) <= fee_cap((a.index + 1) as u64),
        can_escalate(a.fee),
{
    let m = u64::MAX as int;
    let i = a.index as int;
    let f = a.fee as int;
    assert(f / 10 <= m) by (nonlinear_arith)
        requires f <= (i + 1) * m, 0 <= i < 4, m > 0, f >= 0;
    assert((i + 1) * m + m == (i + 2) * m) by (nonlinear_arith);
    assert((i + 2) * m <= 5 * m) by (nonlinear_arith)
        requires 0 <= i < 4, m > 0;
}

proof fn lemma_cap_escalates(a: Attempt)
    requires
        attempt_wf(a),
    ensures
        can_escalate(a.fee),
{
    let m = u64::MAX as int;
    let i = a.index as int;
    let f = a.fee as int;
    assert(f <= 5 * m) by (nonlinear_arith)
        requires f <= (i + 1) * m, 0 <= i < 5, m > 0;
}

impl SubmissionState {
    /// The state in which a sequence starts: with a fee from the caller the
    /// first attempt is ready; without one the fee is queried first.
    pub fn start(nonce: Option<u64>, fee: Option<u64>) -> (r: SubmissionState)
        ensures
            r@ == initial_state(nonce, fee),
            state_wf(r@),
    {
        match fee {
            Some(f) => SubmissionState::Attempting(Attempt { index: 0, nonce, fee: f as u128 }),
            None => SubmissionState::AwaitingFee(nonce),
        }
    }

    /// The work to perform next.
    pub fn next_action(&self) -> (r: Action)
        ensures
            r == action_of(self@),
    {
        match self {
            SubmissionState::AwaitingFee(_) => Action::QueryFee,
            SubmissionState::Attempting(a) => Action::Submit(*a),
            _ => Action::Finish,
        }
    }

    /// Feeds one event to the engine.
    pub fn step(self, event: Event) -> (r: SubmissionState)
        requires
            state_wf(self@),
        ensures
            r@ == next_state(self@, event@),
            state_wf(r@),
    {
        match self {
            SubmissionState::AwaitingFee(nonce) => match event {
                Event::FeeQuoted(f) => SubmissionState::Attempting(
                    Attempt { index: 0, nonce, fee: f as u128 },
                ),
                _ => SubmissionState::AwaitingFee(nonce),
            },
            SubmissionState::Attempting(a) => match event {
                Event::Submission(SubmitOutcome::Sent(h)) => SubmissionState::Succeeded(h),
                Event::Submission(SubmitOutcome::Rejected(msg)) => {
                    proof {
                        lemma_cap_escalates(a);
                    }
                    let last = a.index + 1 >= MAX_RETRIES;
                    if !last {
                        proof {
                            lemma_escalation_within_cap(a);
                        }
                    }
                    match classify(msg.as_str(), a.fee) {
                        RetryDirective::RetryWithNonce(n) => if last {
                            SubmissionState::Failed(Failure::RetryBudgetExhausted(msg))
                        } else {
                            SubmissionState::Attempting(
                                Attempt { index: a.index + 1, nonce: Some(n), fee: a.fee },
                            )
                        },
                        RetryDirective::RetryWithFee(b) => if last {
                            SubmissionState::Failed(Failure::RetryBudgetExhausted(msg))
                        } else {
                            SubmissionState::Attempting(
                                Attempt { index: a.index + 1, nonce: a.nonce, fee: b },
                            )
                        },
                        _ => SubmissionState::Failed(Failure::Fatal(msg)),
                    }
                },
                _ => SubmissionState::Attempting(a),
            },
            _ => self,
        }
    }

    /// The end result, once the state is terminal.
    pub fn outcome(self) -> (r: Option<Result<TxHashSchema, Failure>>)
        ensures
            match self@ {
                StateModel::Succeeded(h) => r matches Some(Ok(x)) && x@ == h,
                StateModel::Failed(f) => r matches Some(Err(x)) && x@ == f,
                _ => r is None,
            },
    {
        match self {
            SubmissionState::Succeeded(h) => Some(Ok(h)),
            SubmissionState::Failed(f) => Some(Err(f)),
            _ => None,
        }
    }
}

/// The events that report one rejection per message, in order.
pub open spec fn rejections(errors: Seq<Seq<char>>) -> Seq<EventModel> {
    errors.map_values(|m: Seq<char>| EventModel::Rejected(m))
}

proof fn lemma_run_step(s: StateModel, es: Seq<EventModel>, k: int)
    requires
        0 <= k < es.len(),
    ensures
        run(s, es.take(k + 1)) == next_state(run(s, es.take(k)), es[k]),
{
    assert(es.take(k + 1).drop_last() =~= es.take(k));
}

proof fn lemma_transient_prefix(nonce: Option<u64>, fee: u64, errors: Seq<Seq<char>>, k: int)
    requires
        0 <= k < MAX_RETRIES,
        k <= errors.len(),
        forall|i: int| 0 <= i < errors.len() ==> is_transient(#[trigger] errors[i]),
    ensures
        (run(initial_state(nonce, Some(fee)), rejections(errors).take(k)) matches StateModel::Attempting(a)
            && a.index == k),
    decreases k,
{
    let s0 = initial_state(nonce, Some(fee));
    let es = rejections(errors);
    if k == 0 {
        assert(es.take(0) =~= Seq::<EventModel>::empty());
    } else {
        lemma_transient_prefix(nonce, fee, errors, k - 1);
        lemma_run_step(s0, es, k - 1);
        assert(is_transient(errors[k - 1]));
    }
}

proof fn lemma_exhausted_stays(nonce: Option<u64>, fee: u64, errors: Seq<Seq<char>>, k: int)
    requires
        MAX_RETRIES <= k <= errors.len(),
        forall|i: int| 0 <= i < errors.len() ==> is_transient(#[trigger] errors[i]),
    ensures
        run(initial_state(nonce, Some(fee)), rejections(errors).take(k)) == StateModel::Failed(
            FailureModel::RetryBudgetExhausted(errors[MAX_RETRIES - 1]),
        ),
    decreases k,
{
    let s0 = initial_state(nonce, Some(fee));
    let es = rejections(errors);
    lemma_run_step(s0, es, k - 1);
    if k == MAX_RETRIES {
        lemma_transient_prefix(nonce, fee, errors, k - 1);
        assert(is_transient(errors[k - 1]));
    } else {
        lemma_exhausted_stays(nonce, fee, errors, k - 1);
    }
}

/// Consecutive transient failures cannot run past the budget. From a first
/// attempt with the caller's nonce and fee, after `k < MAX_RETRIES` transient
/// rejections the engine asks for attempt `k`; the rejection of attempt
/// `MAX_RETRIES - 1` ends the sequence with `RetryBudgetExhausted`, and from then
/// on no further submission is asked for, however many failures follow.
pub proof fn lemma_retry_budget(nonce: Option<u64>, fee: u64, errors: Seq<Seq<char>>)
    requires
        errors.len() >= MAX_RETRIES,
        forall|i: int| 0 <= i < errors.len() ==> is_transient(#[trigger] errors[i]),
    ensures
        forall|k: int|
            0 <= k < MAX_RETRIES ==> (#[trigger] action_of(
                run(initial_state(nonce, Some(fee)), rejections(errors).take(k)),
            ) matches Action::Submit(a) && a.index == k),
        forall|k: int|
            MAX_RETRIES <= k <= errors.len() ==> #[trigger] run(
                initial_state(nonce, Some(fee)),
                rejections(errors).take(k),
            ) == StateModel::Failed(FailureModel::RetryBudgetExhausted(errors[MAX_RETRIES - 1]))
                && action_of(run(initial_state(nonce, Some(fee)), rejections(errors).take(k)))
                == Action::Finish,
{
    assert forall|k: int| 0 <= k < MAX_RETRIES implies (#[trigger] action_of(
        run(initial_state(nonce, Some(fee)), rejections(errors).take(k)),
    ) matches Action::Submit(a) && a.index == k) by {
        lemma_transient_prefix(nonce, fee, errors, k);
    }
    assert forall|k: int| MAX_RETRIES <= k <= errors.len() implies #[trigger] run(
        initial_state(nonce, Some(fee)),
        rejections(errors).take(k),
    ) == StateModel::Failed(FailureModel::RetryBudgetExhausted(errors[MAX_RETRIES - 1])) by {
        lemma_exhausted_stays(nonce, fee, errors, k);
    }
}

/// A first attempt that succeeds ends the sequence at once with the hash the
/// submission returned: nothing is retried and nothing more is submitted.
/// Without a caller fee, the one fee query comes first.
pub proof fn lemma_first_attempt_success(
    nonce: Option<u64>,
    fee: Option<u64>,
    quoted: u64,
    hash: Seq<u8>,
)
    ensures
        fee is Some ==> run(initial_state(nonce, fee), seq![EventModel::Sent(hash)])
            == StateModel::Succeeded(hash),
        fee is None ==> run(
            initial_state(nonce, fee),
            seq![EventModel::FeeQuoted(quoted), EventModel::Sent(hash)],
        ) == StateModel::Succeeded(hash),
        action_of(StateModel::Succeeded(hash)) == Action::Finish,
{
    let s0 = initial_state(nonce, fee);
    let one = seq![EventModel::Sent(hash)];
    assert(one.drop_last() =~= Seq::<EventModel>::empty());
    assert(run(s0, one.drop_last()) == s0);
    assert(one.last() == EventModel::Sent(hash));
    let two = seq![EventModel::FeeQuoted(quoted), EventModel::Sent(hash)];
    let first = seq![EventModel::FeeQuoted(quoted)];
    assert(two.drop_last() =~= first);
    assert(first.drop_last() =~= Seq::<EventModel>::empty());
    assert(run(s0, first.drop_last()) == s0);
    assert(first.last() == EventModel::FeeQuoted(quoted));
    assert(two.last() == EventModel::Sent(hash));
    assert(run(s0, first) == next_state(s0, EventModel::FeeQuoted(quoted)));
    assert(run(s0, two) == next_state(run(s0, first), EventModel::Sent(hash)));
}

/// An underpriced rejection, with no nonce marker in the error, leads to the
/// next attempt with the same nonce and the bid raised to `floor(fee * 1.1)`,
/// as long as the budget allows another attempt.
pub proof fn lemma_underpriced_retry(a: Attempt, msg: Seq<char>)
    requires
        attempt_wf(a),
        a.index + 1 < MAX_RETRIES,
        contains(msg, UNDERPRICED_MARKER@),
        !contains(msg, NONCE_MARKER@),
    ensures
        next_state(StateModel::Attempting(a), EventModel::Rejected(msg)) == StateModel::Attempting(
            Attempt {
                index: (a.index + 1) as u64,
                nonce: a.nonce,
                fee: ((a.fee as int * 11) / 10) as u128,
            },
        ),
{
    lemma_cap_escalates(a);
    crate::classify::lemma_underpriced_raises_fee(msg, a.fee);
}

/// Every retry moves to the next index and changes one parameter only: a new
/// nonce keeps the bid, a new bid keeps the nonce, and the bid never falls.
pub proof fn lemma_retry_changes_one_parameter(a: Attempt, msg: Seq<char>)
    requires
        attempt_wf(a),
    ensures
        next_state(StateModel::Attempting(a), EventModel::Rejected(msg)) matches StateModel::Attempting(b)
            ==> {
            &&& b.index == a.index + 1
            &&& b.fee >= a.fee
            &&& (b.fee == a.fee || b.nonce == a.nonce)
            &&& (b.nonce != a.nonce ==> classification(msg, a.fee) == DirectiveModel::RetryWithNonce(
                b.nonce->0,
            ))
            &&& (b.fee != a.fee ==> classification(msg, a.fee) == DirectiveModel::RetryWithFee(b.fee))
        },
{
    lemma_cap_escalates(a);
}

} // verus!
