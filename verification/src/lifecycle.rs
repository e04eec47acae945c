//! What holds of every life of a message.
//!
//! [`run`] applies a sequence of events to a worker state. The laws below
//! speak of every request, every policy and every sequence of events, in
//! whatever order the caller reports them.

use crate::decoder::decode_value;
use crate::delivery::{classify_spec, AttemptResult};
use crate::json::{member, JsonModel};
use crate::logger::log_entry_spec;
use crate::models::WebhookQueueMessageModel;
use crate::retry::RetryPolicy;
use crate::worker::{
    held_request, start_spec, step_spec, with_retry_count, Terminal, WorkerActionModel,
    WorkerEvent, WorkerStateModel,
};
use vstd::prelude::*;

verus! {

/// The state that a sequence of events leads to, and the actions asked for
/// on the way, one per event.
pub open spec fn run(state: WorkerStateModel, events: Seq<WorkerEvent>, policy: RetryPolicy) -> (
    WorkerStateModel,
    Seq<WorkerActionModel>,
)
    decreases events.len(),
{
    if events.len() == 0 {
        (state, Seq::empty())
    } else {
        let before = run(state, events.drop_last(), policy);
        let last = step_spec(before.0, events.last(), policy);
        (last.0, before.1.push(last.1))
    }
}

/// How many of the actions ask for a delivery attempt.
pub open spec fn attempts_in(actions: Seq<WorkerActionModel>) -> nat
    decreases actions.len(),
{
    if actions.len() == 0 {
        0
    } else {
        attempts_in(actions.drop_last()) + if actions.last() is Attempt {
            1nat
        } else {
            0nat
        }
    }
}

/// How many of the actions write a log record.
pub open spec fn logs_in(actions: Seq<WorkerActionModel>) -> nat
    decreases actions.len(),
{
    if actions.len() == 0 {
        0
    } else {
        logs_in(actions.drop_last()) + if actions.last() is WriteLog {
            1nat
        } else {
            0nat
        }
    }
}

/// How many of the actions start a wait before a retry.
pub open spec fn waits_in(actions: Seq<WorkerActionModel>) -> nat
    decreases actions.len(),
{
    if actions.len() == 0 {
        0
    } else {
        waits_in(actions.drop_last()) + if actions.last() is Wait {
            1nat
        } else {
            0nat
        }
    }
}

/// How many times the delivery client is called for a request that has just
/// been decoded: once at the start, and once for each attempt that the
/// events lead to.
pub open spec fn delivery_calls(
    request: WebhookQueueMessageModel,
    events: Seq<WorkerEvent>,
    policy: RetryPolicy,
) -> nat {
    1 + attempts_in(run(WorkerStateModel::Attempting(request), events, policy).1)
}

/// No attempt is made from this state on: the request has ended, or the
/// message never became one.
pub open spec fn is_terminal(state: WorkerStateModel) -> bool {
    state is Logging || state is Acknowledged || state is Rejected
}

/// How many attempts a state can still lead to.
pub open spec fn attempts_left(state: WorkerStateModel, policy: RetryPolicy) -> nat {
    match state {
        WorkerStateModel::Attempting(request) => if request.retry_count + 1 < policy.max_retries {
            (policy.max_retries - 1 - request.retry_count) as nat
        } else {
            0
        },
        WorkerStateModel::Waiting(request) => if request.retry_count + 1 < policy.max_retries {
            (policy.max_retries - request.retry_count) as nat
        } else {
            1
        },
        _ => 0,
    }
}

/// How many log records a state can still lead to.
pub open spec fn logs_left(state: WorkerStateModel) -> nat {
    if state is Attempting || state is Waiting {
        1
    } else {
        0
    }
}

/// The attempts that a run asks for, and those still possible after it,
/// are covered by those possible before it.
pub proof fn lemma_attempts_covered(
    state: WorkerStateModel,
    events: Seq<WorkerEvent>,
    policy: RetryPolicy,
)
    ensures
        attempts_in(run(state, events, policy).1) + attempts_left(
            run(state, events, policy).0,
            policy,
        ) <= attempts_left(state, policy),
    decreases events.len(),
{
    if events.len() > 0 {
        lemma_attempts_covered(state, events.drop_last(), policy);
        let before = run(state, events.drop_last(), policy);
        let last = step_spec(before.0, events.last(), policy);
        assert(before.1.push(last.1).drop_last() =~= before.1);
    }
}

/// The log records that a run writes, and the one still possible after it,
/// make up the one possible before it.
pub proof fn lemma_logs_covered(
    state: WorkerStateModel,
    events: Seq<WorkerEvent>,
    policy: RetryPolicy,
)
    ensures
        logs_in(run(state, events, policy).1) + logs_left(run(state, events, policy).0)
            == logs_left(state),
    decreases events.len(),
{
    if events.len() > 0 {
        lemma_logs_covered(state, events.drop_last(), policy);
        let before = run(state, events.drop_last(), policy);
        let last = step_spec(before.0, events.last(), policy);
        assert(before.1.push(last.1).drop_last() =~= before.1);
    }
}

/// A run over two sequences of events, one after the other, is the run over
/// the first followed by the run over the second from where the first ended.
pub proof fn lemma_run_concat(
    state: WorkerStateModel,
    first: Seq<WorkerEvent>,
    second: Seq<WorkerEvent>,
    policy: RetryPolicy,
)
    ensures
        run(state, first + second, policy).0 == run(
            run(state, first, policy).0,
            second,
            policy,
        ).0,
        run(state, first + second, policy).1 == run(state, first, policy).1 + run(
            run(state, first, policy).0,
            second,
            policy,
        ).1,
    decreases second.len(),
{
    let middle = run(state, first, policy);
    if second.len() == 0 {
        assert(first + second =~= first);
        assert(middle.1 + Seq::<WorkerActionModel>::empty() =~= middle.1);
    } else {
        lemma_run_concat(state, first, second.drop_last(), policy);
        assert((first + second).drop_last() =~= first + second.drop_last());
        assert((first + second).last() == second.last());
        let before = run(middle.0, second.drop_last(), policy);
        let last = step_spec(before.0, second.last(), policy);
        assert((middle.1 + before.1).push(last.1) =~= middle.1 + before.1.push(last.1));
    }
}

/// The counts of two sequences of actions add up.
pub proof fn lemma_counts_add(first: Seq<WorkerActionModel>, second: Seq<WorkerActionModel>)
    ensures
        attempts_in(first + second) == attempts_in(first) + attempts_in(second),
        logs_in(first + second) == logs_in(first) + logs_in(second),
        waits_in(first + second) == waits_in(first) + waits_in(second),
    decreases second.len(),
{
    if second.len() == 0 {
        assert(first + second =~= first);
    } else {
        lemma_counts_add(first, second.drop_last());
        assert((first + second).drop_last() =~= first + second.drop_last());
        assert((first + second).last() == second.last());
    }
}

/// The counts of a single action.
pub proof fn lemma_single_counts(action: WorkerActionModel)
    ensures
        attempts_in(seq![action]) == if action is Attempt {
            1nat
        } else {
            0nat
        },
        logs_in(seq![action]) == if action is WriteLog {
            1nat
        } else {
            0nat
        },
        waits_in(seq![action]) == if action is Wait {
            1nat
        } else {
            0nat
        },
{
    let actions = seq![action];
    let none = Seq::<WorkerActionModel>::empty();
    assert(actions.drop_last() =~= none);
    assert(actions.last() == action);
    assert(attempts_in(none) == 0 && logs_in(none) == 0 && waits_in(none) == 0);
}

/// The run over a single event is one step.
pub proof fn lemma_run_one(state: WorkerStateModel, event: WorkerEvent, policy: RetryPolicy)
    ensures
        run(state, seq![event], policy).0 == step_spec(state, event, policy).0,
        run(state, seq![event], policy).1 == seq![step_spec(state, event, policy).1],
{
    let events = seq![event];
    assert(events.drop_last() =~= Seq::<WorkerEvent>::empty());
    assert(events.last() == event);
    assert(run(state, events.drop_last(), policy).1 =~= Seq::<WorkerActionModel>::empty());
    assert(Seq::<WorkerActionModel>::empty().push(step_spec(state, event, policy).1) =~= seq![
        step_spec(state, event, policy).1,
    ]);
}

/// Terminal states are absorbing: whatever events follow, the state stays
/// terminal, and no attempt, wait or log record is asked for.
pub proof fn law_terminal_is_absorbing(
    state: WorkerStateModel,
    events: Seq<WorkerEvent>,
    policy: RetryPolicy,
)
    requires
        is_terminal(state),
    ensures
        is_terminal(run(state, events, policy).0),
        attempts_in(run(state, events, policy).1) == 0,
        waits_in(run(state, events, policy).1) == 0,
        logs_in(run(state, events, policy).1) == 0,
    decreases events.len(),
{
    if events.len() > 0 {
        law_terminal_is_absorbing(state, events.drop_last(), policy);
        let before = run(state, events.drop_last(), policy);
        let last = step_spec(before.0, events.last(), policy);
        assert(before.1.push(last.1).drop_last() =~= before.1);
    }
}

/// For every request and every sequence of events, the delivery client is
/// called at most `max_retries` times, and once where `max_retries` is 0;
/// with the retries already counted in the request, at most
/// `max_retries - retry_count` times where that is above one.
pub proof fn law_calls_bounded(
    request: WebhookQueueMessageModel,
    events: Seq<WorkerEvent>,
    policy: RetryPolicy,
)
    ensures
        delivery_calls(request, events, policy) <= if policy.max_retries == 0 {
            1
        } else {
            policy.max_retries as int
        },
        delivery_calls(request, events, policy) <= if request.retry_count + 1
            < policy.max_retries {
            policy.max_retries - request.retry_count
        } else {
            1
        },
{
    lemma_attempts_covered(WorkerStateModel::Attempting(request), events, policy);
}

/// With a limit of three, no request sees more than three calls of the
/// delivery client, however its attempts end.
pub proof fn law_three_calls_at_most(
    request: WebhookQueueMessageModel,
    events: Seq<WorkerEvent>,
    policy: RetryPolicy,
)
    requires
        policy.max_retries == 3,
    ensures
        delivery_calls(request, events, policy) <= 3,
{
    law_calls_bounded(request, events, policy);
}

/// A request's life writes its log record exactly once, at the transition
/// that ends it: none while the request is still being delivered, and one
/// from then on.
pub proof fn law_one_log_per_request(
    request: WebhookQueueMessageModel,
    events: Seq<WorkerEvent>,
    policy: RetryPolicy,
)
    ensures
        logs_in(run(WorkerStateModel::Attempting(request), events, policy).1) == if held_request(
            run(WorkerStateModel::Attempting(request), events, policy).0,
        ) is Some {
            0nat
        } else {
            1nat
        },
        !(run(WorkerStateModel::Attempting(request), events, policy).0 is Rejected),
{
    lemma_logs_covered(WorkerStateModel::Attempting(request), events, policy);
    lemma_never_rejected(WorkerStateModel::Attempting(request), events, policy);
}

/// Only a message that was rejected at the start is ever in the rejected
/// state.
pub proof fn lemma_never_rejected(
    state: WorkerStateModel,
    events: Seq<WorkerEvent>,
    policy: RetryPolicy,
)
    requires
        !(state is Rejected),
    ensures
        !(run(state, events, policy).0 is Rejected),
    decreases events.len(),
{
    if events.len() > 0 {
        lemma_never_rejected(state, events.drop_last(), policy);
    }
}

/// A permanent failure ends the request at once, whatever its retry count:
/// the failure is logged, and whatever events follow, no wait, no further
/// attempt and no second log record is asked for. On a first attempt that
/// makes exactly one call of the delivery client and one log record.
pub proof fn law_permanent_failure_is_final(
    request: WebhookQueueMessageModel,
    result: AttemptResult,
    events: Seq<WorkerEvent>,
    policy: RetryPolicy,
)
    requires
        classify_spec(result) is PermanentFailure,
    ensures
        ({
            let ended = step_spec(
                WorkerStateModel::Attempting(request),
                WorkerEvent::AttemptFinished(result),
                policy,
            );
            let after = run(ended.0, events, policy);
            &&& ended.0 == WorkerStateModel::Logging(Terminal::Failure)
            &&& ended.1 == WorkerActionModel::WriteLog(
                log_entry_spec(request, classify_spec(result)),
            )
            &&& !log_entry_spec(request, classify_spec(result)).success
            &&& attempts_in(after.1) == 0
            &&& waits_in(after.1) == 0
            &&& logs_in(after.1) == 0
        }),
        ({
            let whole = seq![WorkerEvent::AttemptFinished(result)] + events;
            let actions = run(WorkerStateModel::Attempting(request), whole, policy).1;
            &&& delivery_calls(request, whole, policy) == 1
            &&& logs_in(actions) == 1
            &&& waits_in(actions) == 0
        }),
{
    let begun = WorkerStateModel::Attempting(request);
    let event = WorkerEvent::AttemptFinished(result);
    let ended = step_spec(begun, event, policy);
    law_terminal_is_absorbing(ended.0, events, policy);
    lemma_run_one(begun, event, policy);
    lemma_run_concat(begun, seq![event], events, policy);
    lemma_counts_add(seq![ended.1], run(ended.0, events, policy).1);
    lemma_single_counts(ended.1);
}

/// A delivery ends the request at once, at whatever attempt it comes: the
/// success is logged, and whatever events follow, no wait, no further
/// attempt and no second log record is asked for.
pub proof fn law_delivery_is_final(
    request: WebhookQueueMessageModel,
    result: AttemptResult,
    events: Seq<WorkerEvent>,
    policy: RetryPolicy,
)
    requires
        classify_spec(result) is Delivered,
    ensures
        ({
            let ended = step_spec(
                WorkerStateModel::Attempting(request),
                WorkerEvent::AttemptFinished(result),
                policy,
            );
            let after = run(ended.0, events, policy);
            &&& ended.0 == WorkerStateModel::Logging(Terminal::Success)
            &&& ended.1 == WorkerActionModel::WriteLog(
                log_entry_spec(request, classify_spec(result)),
            )
            &&& log_entry_spec(request, classify_spec(result)).success
            &&& attempts_in(after.1) == 0
            &&& waits_in(after.1) == 0
            &&& logs_in(after.1) == 0
        }),
        ({
            let whole = seq![WorkerEvent::AttemptFinished(result)] + events;
            let actions = run(WorkerStateModel::Attempting(request), whole, policy).1;
            &&& attempts_in(actions) == 0
            &&& logs_in(actions) == 1
        }),
{
    let begun = WorkerStateModel::Attempting(request);
    let event = WorkerEvent::AttemptFinished(result);
    let ended = step_spec(begun, event, policy);
    law_terminal_is_absorbing(ended.0, events, policy);
    lemma_run_one(begun, event, policy);
    lemma_run_concat(begun, seq![event], events, policy);
    lemma_counts_add(seq![ended.1], run(ended.0, events, policy).1);
    lemma_single_counts(ended.1);
}

/// A document without a `webhook_url` member is malformed, and a malformed
/// message is rejected: whatever events follow, the delivery client is
/// never called and nothing is logged.
pub proof fn law_missing_url_is_rejected(
    document: JsonModel,
    events: Seq<WorkerEvent>,
    policy: RetryPolicy,
)
    requires
        document matches JsonModel::Object(members) ==> member(members, "webhook_url"@) is None,
    ensures
        decode_value(document) is None,
        start_spec(decode_value(document)) == (
            WorkerStateModel::Rejected,
            WorkerActionModel::Reject,
        ),
        attempts_in(run(WorkerStateModel::Rejected, events, policy).1) == 0,
        logs_in(run(WorkerStateModel::Rejected, events, policy).1) == 0,
{
    law_terminal_is_absorbing(WorkerStateModel::Rejected, events, policy);
}

/// The log store's answer never holds up the acknowledgment: the message is
/// acknowledged whether the record was persisted or not.
pub proof fn law_log_failure_still_acknowledges(
    terminal: Terminal,
    persisted: bool,
    policy: RetryPolicy,
)
    ensures
        step_spec(
            WorkerStateModel::Logging(terminal),
            WorkerEvent::LogFinished { persisted },
            policy,
        ) == (WorkerStateModel::Acknowledged(terminal), WorkerActionModel::Acknowledge),
{
}

/// The request that a state holds differs from the one that the run began
/// with in its retry count at most, and that count never falls.
pub proof fn law_request_is_kept(
    state: WorkerStateModel,
    events: Seq<WorkerEvent>,
    policy: RetryPolicy,
)
    ensures
        held_request(run(state, events, policy).0) matches Some(later) ==> {
            &&& held_request(state) matches Some(first)
            &&& later == with_retry_count(first, later.retry_count)
            &&& first.retry_count <= later.retry_count
        },
    decreases events.len(),
{
    if events.len() > 0 {
        law_request_is_kept(state, events.drop_last(), policy);
    }
}

/// A request that starts within the limit stays within it: its retry count
/// never exceeds `max_retries`, in any state that holds it.
pub proof fn law_retry_count_within_limit(
    state: WorkerStateModel,
    events: Seq<WorkerEvent>,
    policy: RetryPolicy,
)
    requires
        held_request(state) matches Some(first) ==> first.retry_count <= policy.max_retries,
    ensures
        held_request(run(state, events, policy).0) matches Some(later) ==> later.retry_count
            <= policy.max_retries,
    decreases events.len(),
{
    if events.len() > 0 {
        law_retry_count_within_limit(state, events.drop_last(), policy);
    }
}

} // verus!
