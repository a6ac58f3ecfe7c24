//! How a run reacts to what happens around it: host requests and replies, cancellation, the
//! deadline, and the end of its worker.

use core::time::Duration;
use vstd::prelude::*;

use crate::execution::{interrupt_error, interrupt_text, ExecutionState, InterruptReason};
use crate::json::{
    json_bytes, lemma_value_accepted, validate_json_value, value_shape, value_verdict,
};
use crate::limits::{duration_nanos, MongoScriptLimits};
use crate::operation::{same_operation, MongoScriptOperation};
use crate::output::OutputState;
use crate::request::{
    allowed_nanos, request_verdict, run_timeout, validate_request, MongoScriptRequest,
};
use crate::shape::{height, node_count};
use crate::worker::{finish_worker, finishes, MongoScriptResult, WorkerResult};

verus! {

/// A run under way.
#[derive(Debug)]
pub struct Coordinator {
    /// How long the run may take.
    pub timeout: Duration,
    /// The database that the script selected last, at first the request's.
    pub current_database: String,
    /// Whether the worker may still ask for operations.
    pub requests_open: bool,
    /// The operation that the host is performing.
    pub in_call: Option<MongoScriptOperation>,
}

/// What happens while no host call is under way.
pub enum RunEvent {
    Cancelled,
    DeadlineReached,
    /// The worker is done. An outer error says that the worker itself failed.
    WorkerFinished(Result<Result<WorkerResult, String>, String>),
    /// The worker asks for an operation, or will ask for none anymore.
    HostRequested(Option<MongoScriptOperation>),
}

/// What is to be done next.
pub enum RunAction {
    /// Wait for the next event.
    Wait,
    /// Have the host perform the operation.
    CallHost(MongoScriptOperation),
    /// Take no more requests, wait for the worker, and fail with the error.
    Stop(String),
    /// The run is over.
    Finish(Result<MongoScriptResult, String>),
}

/// How the wait for a host call ended.
pub enum HostOutcome {
    Answered(Result<serde_json::Value, String>),
    Cancelled,
    DeadlineReached,
}

/// What follows the end of a host call.
pub struct HostSettlement {
    /// What the worker is answered.
    pub reply: Result<serde_json::Value, String>,
    /// If there is an error, take no more requests, wait for the worker, and fail with it.
    pub stop: Option<String>,
}

/// A host's answer as the worker gets it: a value only if it passes the checks.
pub open spec fn checked_answer(
    answer: Result<serde_json::Value, String>,
    limits: MongoScriptLimits,
) -> Result<serde_json::Value, Seq<char>> {
    match answer {
        Err(error) => Err(error@),
        Ok(value) => match value_verdict(value, limits) {
            Ok(()) => Ok(value),
            Err(error) => Err(error),
        },
    }
}

/// What the worker is answered at the end of a host call.
pub open spec fn reply_to(outcome: HostOutcome, limits: MongoScriptLimits) -> Result<
    serde_json::Value,
    Seq<char>,
> {
    match outcome {
        HostOutcome::Answered(answer) => checked_answer(answer, limits),
        HostOutcome::Cancelled => Err(interrupt_text(InterruptReason::Cancelled)),
        HostOutcome::DeadlineReached => Err(interrupt_text(InterruptReason::TimedOut)),
    }
}

/// A reply with its error as text.
pub open spec fn reply_text(reply: Result<serde_json::Value, String>) -> Result<
    serde_json::Value,
    Seq<char>,
> {
    match reply {
        Ok(value) => Ok(value),
        Err(error) => Err(error@),
    }
}

/// The interruption that the end of a host call means.
pub open spec fn interruption_of(outcome: HostOutcome) -> Option<InterruptReason> {
    match outcome {
        HostOutcome::Answered(_) => None,
        HostOutcome::Cancelled => Some(InterruptReason::Cancelled),
        HostOutcome::DeadlineReached => Some(InterruptReason::TimedOut),
    }
}

/// The state of a run after the end of a host call.
pub open spec fn state_after_call(
    state: ExecutionState,
    outcome: HostOutcome,
    limits: MongoScriptLimits,
) -> ExecutionState {
    match interruption_of(outcome) {
        Some(reason) => state.interrupted(reason),
        None => if reply_to(outcome, limits) is Ok {
            state.succeeded()
        } else {
            state
        },
    }
}

/// The database after a call of `operation`: another one only after a selection that succeeded.
pub open spec fn database_after_call(
    database: Seq<char>,
    operation: MongoScriptOperation,
    succeeded: bool,
) -> Seq<char> {
    match operation {
        MongoScriptOperation::SelectDatabase { database: selected } if succeeded => selected@,
        _ => database,
    }
}

impl Coordinator {
    /// Begins the run of a valid request.
    pub fn begin(request: &MongoScriptRequest, limits: &MongoScriptLimits) -> (outcome: Result<
        Self,
        String,
    >)
        ensures
            match outcome {
                Ok(run) => {
                    &&& request_verdict(*request, *limits) is Ok
                    &&& duration_nanos(run.timeout) == allowed_nanos(
                        request.timeout_secs,
                        duration_nanos(limits.safety_timeout),
                    )
                    &&& run.current_database@ == request.database@
                    &&& run.requests_open
                    &&& run.in_call is None
                },
                Err(error) => request_verdict(*request, *limits) == Err::<(), Seq<char>>(error@),
            },
    {
        match validate_request(request, limits) {
            Ok(()) => {},
            Err(error) => {
                return Err(error);
            },
        }
        Ok(
            Self {
                timeout: run_timeout(request, limits),
                current_database: request.database.clone(),
                requests_open: true,
                in_call: None,
            },
        )
    }

    /// Reacts to an event while no host call is under way. Without `output` the output that was
    /// kept cannot be read.
    pub fn on_event(
        &mut self,
        event: RunEvent,
        state: &mut ExecutionState,
        output: Option<&OutputState>,
    ) -> (action: RunAction)
        requires
            old(self).in_call is None,
        ensures
            final(self).in_call is Some <==> action is CallHost,
            final(self).timeout == old(self).timeout,
            final(self).current_database == old(self).current_database,
            final(self).requests_open == (old(self).requests_open && !(event matches
                RunEvent::HostRequested(None))),
            match event {
                RunEvent::Cancelled => {
                    &&& *final(state) == old(state).interrupted(InterruptReason::Cancelled)
                    &&& action matches RunAction::Stop(error) && error@ == interrupt_text(
                        InterruptReason::Cancelled,
                    )
                },
                RunEvent::DeadlineReached => {
                    &&& *final(state) == old(state).interrupted(InterruptReason::TimedOut)
                    &&& action matches RunAction::Stop(error) && error@ == interrupt_text(
                        InterruptReason::TimedOut,
                    )
                },
                RunEvent::WorkerFinished(worker) => {
                    &&& *final(state) == *old(state)
                    &&& action matches RunAction::Finish(result) && finishes(
                        worker,
                        *old(state),
                        output,
                        old(self).current_database@,
                        result,
                    )
                },
                RunEvent::HostRequested(None) => {
                    &&& *final(state) == *old(state)
                    &&& action is Wait
                },
                RunEvent::HostRequested(Some(operation)) => {
                    &&& *final(state) == *old(state)
                    &&& action == RunAction::CallHost(operation)
                    &&& same_operation(final(self).in_call->0, operation)
                },
            },
    {
        match event {
            RunEvent::Cancelled => {
                state.interrupt(InterruptReason::Cancelled);
                RunAction::Stop(interrupt_error(InterruptReason::Cancelled))
            },
            RunEvent::DeadlineReached => {
                state.interrupt(InterruptReason::TimedOut);
                RunAction::Stop(interrupt_error(InterruptReason::TimedOut))
            },
            RunEvent::WorkerFinished(worker) => RunAction::Finish(
                finish_worker(worker, &*state, output, self.current_database.as_str()),
            ),
            RunEvent::HostRequested(None) => {
                self.requests_open = false;
                RunAction::Wait
            },
            RunEvent::HostRequested(Some(operation)) => {
                self.in_call = Some(operation.clone());
                RunAction::CallHost(operation)
            },
        }
    }

    /// Takes note of what the worker is answered for `operation`: a success is counted, and
    /// selects a database if that was the operation.
    pub fn record_reply(
        &mut self,
        operation: &MongoScriptOperation,
        reply: &Result<serde_json::Value, String>,
        state: &mut ExecutionState,
    )
        ensures
            final(self).timeout == old(self).timeout,
            final(self).requests_open == old(self).requests_open,
            final(self).in_call == old(self).in_call,
            final(self).current_database@ == database_after_call(
                old(self).current_database@,
                *operation,
                reply is Ok,
            ),
            *final(state) == (if reply is Ok {
                old(state).succeeded()
            } else {
                *old(state)
            }),
    {
        if reply.is_ok() {
            state.record_success();
            if let MongoScriptOperation::SelectDatabase { database } = operation {
                self.current_database = database.clone();
            }
        }
    }

    /// Settles the host call that is under way.
    pub fn on_host_outcome(
        &mut self,
        outcome: HostOutcome,
        state: &mut ExecutionState,
        limits: &MongoScriptLimits,
    ) -> (settlement: HostSettlement)
        requires
            old(self).in_call is Some,
        ensures
            final(self).timeout == old(self).timeout,
            final(self).requests_open == old(self).requests_open,
            final(self).in_call is None,
            final(self).current_database@ == database_after_call(
                old(self).current_database@,
                old(self).in_call->0,
                reply_to(outcome, *limits) is Ok,
            ),
            *final(state) == state_after_call(*old(state), outcome, *limits),
            reply_text(settlement.reply) == reply_to(outcome, *limits),
            match interruption_of(outcome) {
                None => settlement.stop is None,
                Some(reason) => settlement.stop matches Some(error) && error@ == interrupt_text(
                    reason,
                ),
            },
            settlement.stop is None <==> outcome is Answered,
            settlement.reply is Ok <==> {
                &&& outcome is Answered
                &&& outcome->Answered_0 is Ok
                &&& node_count(value_shape(outcome->Answered_0->Ok_0)) <= limits.max_value_nodes
                    || limits.max_value_nodes == usize::MAX
                &&& height(value_shape(outcome->Answered_0->Ok_0)) <= limits.max_value_depth
                    || limits.max_value_depth == usize::MAX
                &&& json_bytes(outcome->Answered_0->Ok_0) is Ok
                &&& json_bytes(outcome->Answered_0->Ok_0)->Ok_0.len() <= limits.max_value_bytes
            },
            settlement.reply is Ok ==> settlement.reply->Ok_0 == outcome->Answered_0->Ok_0,
            final(state).operation_count == old(state).operation_count,
            settlement.reply is Err ==> final(state).succeeded_operation_count
                == old(state).succeeded_operation_count,
            settlement.reply is Ok && old(state).succeeded_operation_count < usize::MAX
                ==> final(state).succeeded_operation_count
                == old(state).succeeded_operation_count + 1,
            outcome is Answered ==> final(state).interrupt_reason == old(state).interrupt_reason,
            final(self).current_database@ == (if settlement.reply is Ok
                && old(self).in_call->0 is SelectDatabase {
                old(self).in_call->0->SelectDatabase_database@
            } else {
                old(self).current_database@
            }),
    {
        proof {
            if outcome is Answered && outcome->Answered_0 is Ok {
                lemma_value_accepted(outcome->Answered_0->Ok_0, *limits);
            }
        }
        let operation = self.in_call.take().unwrap();
        match outcome {
            HostOutcome::Cancelled => {
                state.interrupt(InterruptReason::Cancelled);
                HostSettlement {
                    reply: Err(interrupt_error(InterruptReason::Cancelled)),
                    stop: Some(interrupt_error(InterruptReason::Cancelled)),
                }
            },
            HostOutcome::DeadlineReached => {
                state.interrupt(InterruptReason::TimedOut);
                HostSettlement {
                    reply: Err(interrupt_error(InterruptReason::TimedOut)),
                    stop: Some(interrupt_error(InterruptReason::TimedOut)),
                }
            },
            HostOutcome::Answered(answer) => {
                let reply = match answer {
                    Err(error) => Err(error),
                    Ok(value) => match validate_json_value(&value, limits) {
                        Ok(()) => Ok(value),
                        Err(error) => Err(error),
                    },
                };
                self.record_reply(&operation, &reply, state);
                HostSettlement { reply, stop: None }
            },
        }
    }
}

/// A host call that is cut short ends the run: the worker gets an error, the run fails with the
/// kind of the interruption, and so does every later look at it, whatever the worker returns.
pub proof fn lemma_interrupted_call_ends_the_run(
    state: ExecutionState,
    outcome: HostOutcome,
    limits: MongoScriptLimits,
    worker: Result<Result<WorkerResult, String>, String>,
    output: Option<&OutputState>,
    database: Seq<char>,
    result: Result<MongoScriptResult, String>,
)
    requires
        interruption_of(outcome) is Some,
        finishes(worker, state_after_call(state, outcome, limits), output, database, result),
    ensures
        reply_to(outcome, limits) is Err,
        result is Err,
        crate::error::kind_of(interrupt_text(interruption_of(outcome)->0)) == Some(
            if outcome is Cancelled {
                crate::error::MongoScriptErrorKind::Cancelled
            } else {
                crate::error::MongoScriptErrorKind::Timeout
            },
        ),
        state.interrupt_reason == InterruptReason::Running ==> result->Err_0@ == interrupt_text(
            interruption_of(outcome)->0,
        ),
{
    crate::execution::lemma_interrupt_kind(interruption_of(outcome)->0);
}

/// A run that was cancelled or timed out while it waited is over, whatever its worker returns.
pub proof fn lemma_interrupted_wait_ends_the_run(
    state: ExecutionState,
    reason: InterruptReason,
    worker: Result<Result<WorkerResult, String>, String>,
    output: Option<&OutputState>,
    database: Seq<char>,
    result: Result<MongoScriptResult, String>,
)
    requires
        reason != InterruptReason::Running,
        finishes(worker, state.interrupted(reason), output, database, result),
    ensures
        result is Err,
        state.interrupt_reason == InterruptReason::Running ==> result->Err_0@ == interrupt_text(
            reason,
        ),
{
}

/// The database after `calls`, each an operation and whether it succeeded.
pub open spec fn database_after(
    initial: Seq<char>,
    calls: Seq<(MongoScriptOperation, bool)>,
) -> Seq<char>
    decreases calls.len(),
{
    if calls.len() == 0 {
        initial
    } else {
        database_after_call(
            database_after(initial, calls.drop_last()),
            calls.last().0,
            calls.last().1,
        )
    }
}

/// `call` selected a database.
pub open spec fn selects(call: (MongoScriptOperation, bool)) -> bool {
    call.0 is SelectDatabase && call.1
}

/// As long as no selection succeeds, the database stays the request's.
pub proof fn lemma_database_stays_without_selection(
    initial: Seq<char>,
    calls: Seq<(MongoScriptOperation, bool)>,
)
    requires
        forall|i: int| 0 <= i < calls.len() ==> !selects(#[trigger] calls[i]),
    ensures
        database_after(initial, calls) == initial,
    decreases calls.len(),
{
    if calls.len() > 0 {
        assert(!selects(calls[calls.len() - 1]));
        lemma_database_stays_without_selection(initial, calls.drop_last());
    }
}

/// The current database is the one of the last selection that succeeded.
pub proof fn lemma_database_is_the_last_selected(
    initial: Seq<char>,
    calls: Seq<(MongoScriptOperation, bool)>,
    last: int,
)
    requires
        0 <= last < calls.len(),
        selects(calls[last]),
        forall|later: int| last < later < calls.len() ==> !selects(#[trigger] calls[later]),
    ensures
        database_after(initial, calls) == calls[last].0->SelectDatabase_database@,
    decreases calls.len(),
{
    if last < calls.len() - 1 {
        assert(!selects(calls[calls.len() - 1]));
        lemma_database_is_the_last_selected(initial, calls.drop_last(), last);
    }
}

/// The state of a run after the host calls that ended with `outcomes`.
pub open spec fn state_after(
    state: ExecutionState,
    outcomes: Seq<HostOutcome>,
    limits: MongoScriptLimits,
) -> ExecutionState
    decreases outcomes.len(),
{
    if outcomes.len() == 0 {
        state
    } else {
        state_after_call(
            state_after(state, outcomes.drop_last(), limits),
            outcomes.last(),
            limits,
        )
    }
}

/// The number of host calls that gave the script a value.
pub open spec fn answered_calls(outcomes: Seq<HostOutcome>, limits: MongoScriptLimits) -> nat
    decreases outcomes.len(),
{
    if outcomes.len() == 0 {
        0
    } else if reply_to(outcomes.last(), limits) is Ok {
        answered_calls(outcomes.drop_last(), limits) + 1
    } else {
        answered_calls(outcomes.drop_last(), limits)
    }
}

/// A run counts as succeeded exactly the host calls that gave its script a value, as long as
/// their number fits the counter.
pub proof fn lemma_successes_are_counted(outcomes: Seq<HostOutcome>, limits: MongoScriptLimits)
    requires
        answered_calls(outcomes, limits) <= usize::MAX,
    ensures
        state_after(ExecutionState::fresh(), outcomes, limits).succeeded_operation_count
            == answered_calls(outcomes, limits),
    decreases outcomes.len(),
{
    if outcomes.len() > 0 {
        lemma_successes_are_counted(outcomes.drop_last(), limits);
    }
}

/// A step in the life of a run.
pub ghost enum RunStep {
    /// The script asked for an operation that passed the checks.
    Asked,
    /// A host call ended.
    Settled(HostOutcome),
    /// The run was interrupted.
    Interrupted(InterruptReason),
}

/// The state of a run after `steps`, and how many operations were counted and not settled.
pub open spec fn after_steps(steps: Seq<RunStep>, limits: MongoScriptLimits) -> (
    ExecutionState,
    nat,
)
    decreases steps.len(),
{
    if steps.len() == 0 {
        (ExecutionState::fresh(), 0)
    } else {
        let (state, unsettled) = after_steps(steps.drop_last(), limits);
        match steps.last() {
            RunStep::Asked => (
                state.attempted(limits.max_operations),
                if state.operation_count < limits.max_operations {
                    unsettled + 1
                } else {
                    unsettled
                },
            ),
            RunStep::Settled(outcome) => (
                state_after_call(state, outcome, limits),
                (unsettled - 1) as nat,
            ),
            RunStep::Interrupted(reason) => (state.interrupted(reason), unsettled),
        }
    }
}

/// No host call ends in `steps` that was not counted before.
pub open spec fn orderly(steps: Seq<RunStep>, limits: MongoScriptLimits) -> bool {
    forall|i: int|
        0 <= i < steps.len() && (#[trigger] steps[i]) is Settled ==> after_steps(
            steps.take(i),
            limits,
        ).1 > 0
}

/// At every moment of a run, at most as many operations were counted as the limit allows, and at
/// most as many succeeded as were counted.
pub proof fn lemma_runs_keep_to_their_budget(steps: Seq<RunStep>, limits: MongoScriptLimits)
    requires
        orderly(steps, limits),
    ensures
        after_steps(steps, limits).0.within_budget(
            limits.max_operations,
            after_steps(steps, limits).1,
        ),
    decreases steps.len(),
{
    if steps.len() > 0 {
        let before = steps.drop_last();
        assert forall|i: int| 0 <= i < before.len() && (#[trigger] before[i]) is Settled implies
            after_steps(before.take(i), limits).1 > 0 by {
            assert(before.take(i) =~= steps.take(i));
            assert(steps[i] is Settled);
        }
        lemma_runs_keep_to_their_budget(before, limits);
        assert(steps.take(steps.len() - 1) =~= before);
        assert(steps[steps.len() - 1] == steps.last());
    }
}

/// What a script gets of a host's value is never larger than a value may be.
pub proof fn lemma_replies_fit(
    answer: Result<serde_json::Value, String>,
    value: serde_json::Value,
    limits: MongoScriptLimits,
)
    requires
        checked_answer(answer, limits) == Ok::<serde_json::Value, Seq<char>>(value),
    ensures
        answer == Ok::<serde_json::Value, String>(value),
        crate::host_call::host_call_report(
            crate::host_call::HostAnswer::Replied(Ok(value)),
        ) matches Ok(bytes) && bytes.len() <= limits.max_value_bytes,
{
    crate::json::lemma_value_accepted(value, limits);
}

/// A script gets a value from its host exactly if the host answers with one that fits into every
/// limit on values, and it gets that value; a failure of the host it gets untouched.
pub proof fn lemma_answers_within_limits_are_passed_on(
    outcome: HostOutcome,
    limits: MongoScriptLimits,
    reply: Result<serde_json::Value, String>,
)
    requires
        reply_text(reply) == reply_to(outcome, limits),
    ensures
        reply is Ok <==> {
            &&& outcome is Answered
            &&& outcome->Answered_0 is Ok
            &&& node_count(value_shape(outcome->Answered_0->Ok_0)) <= limits.max_value_nodes
                || limits.max_value_nodes == usize::MAX
            &&& height(value_shape(outcome->Answered_0->Ok_0)) <= limits.max_value_depth
                || limits.max_value_depth == usize::MAX
            &&& json_bytes(outcome->Answered_0->Ok_0) is Ok
            &&& json_bytes(outcome->Answered_0->Ok_0)->Ok_0.len() <= limits.max_value_bytes
        },
        reply is Ok ==> reply->Ok_0 == outcome->Answered_0->Ok_0,
        outcome is Answered && outcome->Answered_0 is Err ==> reply->Err_0@
            == outcome->Answered_0->Err_0@,
        outcome is Cancelled ==> reply->Err_0@
            == "[mongo_script.cancelled] MongoDB shell execution cancelled"@,
        outcome is DeadlineReached ==> reply->Err_0@
            == "[mongo_script.timeout] MongoDB shell execution timed out"@,
{
    crate::execution::lemma_execution_texts(0);
    if outcome is Answered && outcome->Answered_0 is Ok {
        lemma_value_accepted(outcome->Answered_0->Ok_0, limits);
    }
}

/// The end of a host call never changes how many operations were started; it counts one success
/// exactly if the script gets a value; and it interrupts the run exactly if nobody answered.
pub proof fn lemma_settling_counts_values(
    state: ExecutionState,
    outcome: HostOutcome,
    limits: MongoScriptLimits,
)
    requires
        state.interrupt_reason == InterruptReason::Running,
        state.succeeded_operation_count < usize::MAX,
    ensures
        state_after_call(state, outcome, limits).operation_count == state.operation_count,
        state_after_call(state, outcome, limits).succeeded_operation_count
            == state.succeeded_operation_count + if reply_to(outcome, limits) is Ok {
            1int
        } else {
            0int
        },
        state_after_call(state, outcome, limits).interrupt_reason == InterruptReason::Running
            <==> outcome is Answered,
        state_after_call(state, outcome, limits).interrupt_reason == InterruptReason::Cancelled
            <==> outcome is Cancelled,
        state_after_call(state, outcome, limits).interrupt_reason == InterruptReason::TimedOut
            <==> outcome is DeadlineReached,
{
}

/// A call changes the database only if it succeeds and selects one; then that one is current.
pub proof fn lemma_only_selections_change_the_database(
    database: Seq<char>,
    operation: MongoScriptOperation,
)
    ensures
        database_after_call(database, operation, false) == database,
        !(operation is SelectDatabase) ==> database_after_call(database, operation, true)
            == database,
        operation is SelectDatabase ==> database_after_call(database, operation, true)
            == operation->SelectDatabase_database@,
{
}

/// A run counts every operation that its script asks for, up to the limit and no further.
pub proof fn lemma_operations_are_counted(steps: Seq<RunStep>, limits: MongoScriptLimits)
    ensures
        after_steps(steps, limits).0.operation_count == vstd::math::min(
            steps.filter(|step: RunStep| step is Asked).len() as int,
            limits.max_operations as int,
        ),
    decreases steps.len(),
{
    reveal(Seq::filter);
    if steps.len() > 0 {
        lemma_operations_are_counted(steps.drop_last(), limits);
    }
}

/// `step` interrupts a run that goes on.
pub open spec fn interrupts(step: RunStep) -> bool {
    match step {
        RunStep::Asked => false,
        RunStep::Settled(outcome) => !(outcome is Answered),
        RunStep::Interrupted(reason) => reason != InterruptReason::Running,
    }
}

/// A run goes on exactly as long as nothing interrupts it.
pub proof fn lemma_uninterrupted_runs_go_on(steps: Seq<RunStep>, limits: MongoScriptLimits)
    ensures
        after_steps(steps, limits).0.interrupt_reason == InterruptReason::Running <==> forall|
            i: int,
        |
            0 <= i < steps.len() ==> !interrupts(#[trigger] steps[i]),
    decreases steps.len(),
{
    if steps.len() > 0 {
        let before = steps.drop_last();
        lemma_uninterrupted_runs_go_on(before, limits);
        assert(steps[steps.len() - 1] == steps.last());
        if forall|i: int| 0 <= i < before.len() ==> !interrupts(#[trigger] before[i]) {
            assert forall|i: int| 0 <= i < steps.len() - 1 implies !interrupts(
                #[trigger] steps[i],
            ) by {
                assert(steps[i] == before[i]);
            }
        } else {
            let i = choose|i: int| 0 <= i < before.len() && interrupts(#[trigger] before[i]);
            assert(interrupts(steps[i]));
        }
    }
}

/// Of several interruptions the first one stays.
pub proof fn lemma_first_interruption_stays(
    steps: Seq<RunStep>,
    limits: MongoScriptLimits,
    first: int,
)
    requires
        0 <= first < steps.len(),
        interrupts(steps[first]),
        forall|i: int| 0 <= i < first ==> !interrupts(#[trigger] steps[i]),
    ensures
        steps[first] matches RunStep::Interrupted(reason) ==> after_steps(
            steps,
            limits,
        ).0.interrupt_reason == reason,
        steps[first] == RunStep::Settled(HostOutcome::Cancelled) ==> after_steps(
            steps,
            limits,
        ).0.interrupt_reason == InterruptReason::Cancelled,
        steps[first] == RunStep::Settled(HostOutcome::DeadlineReached) ==> after_steps(
            steps,
            limits,
        ).0.interrupt_reason == InterruptReason::TimedOut,
    decreases steps.len(),
{
    let before = steps.drop_last();
    if first < steps.len() - 1 {
        assert(before[first] == steps[first]);
        lemma_first_interruption_stays(before, limits, first);
        lemma_uninterrupted_runs_go_on(before, limits);
    } else {
        assert forall|i: int| 0 <= i < before.len() implies !interrupts(#[trigger] before[i]) by {
            assert(before[i] == steps[i]);
        }
        lemma_uninterrupted_runs_go_on(before, limits);
    }
}

/// Over a whole run: a run that ends well was never interrupted, and its result tells how many
/// operations its script asked for, up to the limit, of which no more succeeded than there were.
pub proof fn lemma_results_keep_to_the_budget(
    steps: Seq<RunStep>,
    limits: MongoScriptLimits,
    worker: Result<Result<WorkerResult, String>, String>,
    output: Option<&OutputState>,
    database: Seq<char>,
    result: MongoScriptResult,
)
    requires
        orderly(steps, limits),
        finishes(worker, after_steps(steps, limits).0, output, database, Ok(result)),
    ensures
        forall|i: int| 0 <= i < steps.len() ==> !interrupts(#[trigger] steps[i]),
        result.operation_count == vstd::math::min(
            steps.filter(|step: RunStep| step is Asked).len() as int,
            limits.max_operations as int,
        ),
        result.succeeded_operation_count <= result.operation_count,
        result.operation_count <= limits.max_operations,
{
    lemma_runs_keep_to_their_budget(steps, limits);
    lemma_uninterrupted_runs_go_on(steps, limits);
    lemma_operations_are_counted(steps, limits);
}

/// Over a whole run: the result of a run that ends well names the database that was selected
/// last, or the one that the run began with.
pub proof fn lemma_results_name_the_database(
    initial: Seq<char>,
    calls: Seq<(MongoScriptOperation, bool)>,
    worker: Result<Result<WorkerResult, String>, String>,
    state: ExecutionState,
    output: Option<&OutputState>,
    result: MongoScriptResult,
)
    requires
        finishes(worker, state, output, database_after(initial, calls), Ok(result)),
    ensures
        (forall|i: int| 0 <= i < calls.len() ==> !((#[trigger] calls[i]).0 is SelectDatabase
            && calls[i].1)) ==> result.current_database@ == initial,
        forall|last: int|
            0 <= last < calls.len() && (#[trigger] calls[last]).0 is SelectDatabase
                && calls[last].1 && (forall|later: int|
                last < later < calls.len() ==> !((#[trigger] calls[later]).0 is SelectDatabase
                    && calls[later].1)) ==> result.current_database@
                == calls[last].0->SelectDatabase_database@,
{
    if forall|i: int|
        0 <= i < calls.len() ==> !((#[trigger] calls[i]).0 is SelectDatabase && calls[i].1) {
        lemma_database_stays_without_selection(initial, calls);
    }
    assert forall|last: int|
        0 <= last < calls.len() && (#[trigger] calls[last]).0 is SelectDatabase && calls[last].1
            && (forall|later: int|
            last < later < calls.len() ==> !((#[trigger] calls[later]).0 is SelectDatabase
                && calls[later].1)) implies result.current_database@
        == calls[last].0->SelectDatabase_database@ by {
        lemma_database_is_the_last_selected(initial, calls, last);
    }
}

/// Whatever `begin` returns: a run begins exactly if the request is accepted; it may take the
/// shorter of what was asked for and the safety timeout, and starts on the request's database, with
/// requests open and no host call under way.
pub proof fn lemma_runs_begin_as_requested(
    request: MongoScriptRequest,
    limits: MongoScriptLimits,
    outcome: Result<Coordinator, String>,
    checked: Result<(), String>,
)
    requires
        call_ensures(Coordinator::begin, (&request, &limits), outcome),
        call_ensures(validate_request, (&request, &limits), checked),
    ensures
        outcome is Ok <==> checked is Ok,
        checked matches Err(error) ==> outcome->Err_0@ == error@,
        outcome matches Ok(run) ==> {
            &&& run.current_database@ == request.database@
            &&& run.requests_open
            &&& run.in_call is None
            &&& request.timeout_secs is None || request.timeout_secs == Some(0u64)
                ==> duration_nanos(run.timeout) == duration_nanos(limits.safety_timeout)
            &&& request.timeout_secs matches Some(secs) ==> secs > 0 ==> duration_nanos(
                run.timeout,
            ) == vstd::math::min(
                secs * 1_000_000_000,
                duration_nanos(limits.safety_timeout) as int,
            )
        },
{
    if let Some(secs) = request.timeout_secs {
        crate::request::lemma_timeout_is_the_shorter(secs, duration_nanos(limits.safety_timeout));
    }
}

/// Whatever `on_event` does while no call is under way: a cancellation and the deadline interrupt
/// and stop the run; an operation that the worker asks for goes to the host as it is; the end of the
/// requests closes them; and nothing of this selects a database, changes the time that the run may
/// take, or counts anything.
pub proof fn lemma_events_have_their_effect_only(
    run: &mut Coordinator,
    event: RunEvent,
    state: &mut ExecutionState,
    output: Option<&OutputState>,
    action: RunAction,
)
    requires
        call_ensures(Coordinator::on_event, (run, event, state, output), action),
    ensures
        final(run).timeout == old(run).timeout,
        final(run).current_database@ == old(run).current_database@,
        final(state).operation_count == old(state).operation_count,
        final(state).succeeded_operation_count == old(state).succeeded_operation_count,
        action is Stop <==> event is Cancelled || event is DeadlineReached,
        action is Finish <==> event is WorkerFinished,
        action is CallHost <==> event is HostRequested && event->HostRequested_0 is Some,
        action is Wait <==> event is HostRequested && event->HostRequested_0 is None,
        final(run).in_call is Some <==> action is CallHost,
        final(run).requests_open <==> old(run).requests_open && !(action is Wait),
        action is CallHost ==> action->CallHost_0 == event->HostRequested_0->0,
        event is Cancelled ==> {
            &&& action->Stop_0@ == "[mongo_script.cancelled] MongoDB shell execution cancelled"@
            &&& old(state).interrupt_reason == InterruptReason::Running
                ==> final(state).interrupt_reason == InterruptReason::Cancelled
        },
        event is DeadlineReached ==> {
            &&& action->Stop_0@ == "[mongo_script.timeout] MongoDB shell execution timed out"@
            &&& old(state).interrupt_reason == InterruptReason::Running
                ==> final(state).interrupt_reason == InterruptReason::TimedOut
        },
        old(state).interrupt_reason != InterruptReason::Running || !(action is Stop)
            ==> final(state).interrupt_reason == old(state).interrupt_reason,
{
    crate::execution::lemma_execution_texts(0);
}

/// Whatever `on_event` does when the worker is done: there is a result exactly if the run was not
/// interrupted, its worker handed one back and its output can be read; the result then holds what
/// the worker handed back, the output as it was kept, the run's counts and its database.
pub proof fn lemma_finished_workers_end_the_run(
    run: &mut Coordinator,
    worker: Result<Result<WorkerResult, String>, String>,
    state: &mut ExecutionState,
    output: Option<&OutputState>,
    result: Result<MongoScriptResult, String>,
)
    requires
        call_ensures(
            Coordinator::on_event,
            (run, RunEvent::WorkerFinished(worker), state, output),
            RunAction::Finish(result),
        ),
    ensures
        result is Ok <==> {
            &&& old(state).interrupt_reason == InterruptReason::Running
            &&& worker is Ok
            &&& worker->Ok_0 is Ok
            &&& output is Some
        },
        result is Ok ==> {
            &&& result->Ok_0.final_value == worker->Ok_0->Ok_0.final_value
            &&& result->Ok_0.output@ == output->0.items@
            &&& result->Ok_0.truncated == output->0.truncated
            &&& result->Ok_0.operation_count == old(state).operation_count
            &&& result->Ok_0.succeeded_operation_count == old(state).succeeded_operation_count
            &&& result->Ok_0.current_database@ == old(run).current_database@
        },
        *final(state) == *old(state),
{
}

/// Whatever `record_reply` does: a reply with a value counts as one more success and, for a
/// selection, makes its database the current one; a reply with an error changes nothing.
pub proof fn lemma_recorded_replies_have_their_effect_only(
    run: &mut Coordinator,
    operation: MongoScriptOperation,
    reply: Result<serde_json::Value, String>,
    state: &mut ExecutionState,
)
    requires
        call_ensures(Coordinator::record_reply, (run, &operation, &reply, state), ()),
    ensures
        reply is Err ==> {
            &&& *final(state) == *old(state)
            &&& final(run).current_database@ == old(run).current_database@
        },
        reply is Ok ==> {
            &&& old(state).succeeded_operation_count < usize::MAX
                ==> final(state).succeeded_operation_count == old(state).succeeded_operation_count
                + 1
            &&& final(state).operation_count == old(state).operation_count
            &&& final(state).interrupt_reason == old(state).interrupt_reason
            &&& final(run).current_database@ == (if operation is SelectDatabase {
                operation->SelectDatabase_database@
            } else {
                old(run).current_database@
            })
        },
        final(run).timeout == old(run).timeout,
        final(run).requests_open == old(run).requests_open,
{
}

/// Whatever `on_host_outcome` does: the worker is answered with the host's value exactly if the host
/// answered with one that fits into every limit on values; that is counted as a success and, for a
/// selection, makes its database the current one. Otherwise neither happens. The run stops exactly
/// if nobody answered.
pub proof fn lemma_settled_calls_have_their_effect_only(
    run: &mut Coordinator,
    outcome: HostOutcome,
    state: &mut ExecutionState,
    limits: MongoScriptLimits,
    settlement: HostSettlement,
)
    requires
        call_ensures(Coordinator::on_host_outcome, (run, outcome, state, &limits), settlement),
    ensures
        settlement.reply is Ok <==> {
            &&& outcome is Answered
            &&& outcome->Answered_0 is Ok
            &&& node_count(value_shape(outcome->Answered_0->Ok_0)) <= limits.max_value_nodes
                || limits.max_value_nodes == usize::MAX
            &&& height(value_shape(outcome->Answered_0->Ok_0)) <= limits.max_value_depth
                || limits.max_value_depth == usize::MAX
            &&& json_bytes(outcome->Answered_0->Ok_0) is Ok
            &&& json_bytes(outcome->Answered_0->Ok_0)->Ok_0.len() <= limits.max_value_bytes
        },
        settlement.reply is Ok ==> {
            &&& settlement.reply->Ok_0 == outcome->Answered_0->Ok_0
            &&& old(state).succeeded_operation_count < usize::MAX
                ==> final(state).succeeded_operation_count == old(state).succeeded_operation_count
                + 1
            &&& final(run).current_database@ == (if old(run).in_call->0 is SelectDatabase {
                old(run).in_call->0->SelectDatabase_database@
            } else {
                old(run).current_database@
            })
        },
        settlement.reply is Err ==> {
            &&& final(state).succeeded_operation_count == old(state).succeeded_operation_count
            &&& final(run).current_database@ == old(run).current_database@
        },
        outcome is Answered && outcome->Answered_0 is Err ==> settlement.reply->Err_0@
            == outcome->Answered_0->Err_0@,
        final(state).operation_count == old(state).operation_count,
        settlement.stop is None <==> outcome is Answered,
        outcome is Answered ==> final(state).interrupt_reason == old(state).interrupt_reason,
        outcome is Cancelled ==> {
            &&& settlement.reply->Err_0@
                == "[mongo_script.cancelled] MongoDB shell execution cancelled"@
            &&& settlement.stop->0@
                == "[mongo_script.cancelled] MongoDB shell execution cancelled"@
            &&& old(state).interrupt_reason == InterruptReason::Running
                ==> final(state).interrupt_reason == InterruptReason::Cancelled
        },
        outcome is DeadlineReached ==> {
            &&& settlement.reply->Err_0@
                == "[mongo_script.timeout] MongoDB shell execution timed out"@
            &&& settlement.stop->0@ == "[mongo_script.timeout] MongoDB shell execution timed out"@
            &&& old(state).interrupt_reason == InterruptReason::Running
                ==> final(state).interrupt_reason == InterruptReason::TimedOut
        },
        final(run).in_call is None,
        final(run).timeout == old(run).timeout,
        final(run).requests_open == old(run).requests_open,
{
    crate::execution::lemma_execution_texts(0);
    lemma_answers_within_limits_are_passed_on(outcome, limits, settlement.reply);
}

} // verus!
