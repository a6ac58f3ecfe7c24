//! What becomes of a run once its JavaScript worker is done.

use vstd::prelude::*;

use crate::error::{
    error_text, js_error_text, script_error, script_error_from_js, MongoScriptErrorKind,
};
use crate::execution::{interrupt_error, interrupt_text, ExecutionState, InterruptReason};
use crate::json::{
    json_bytes, lemma_value_accepted, validate_json_value, value_shape, value_verdict,
};
use crate::limits::MongoScriptLimits;
use crate::output::{output_verdict, prints, MongoScriptOutput, OutputState};
use crate::shape::{height, node_count};
use crate::text::join;

verus! {

/// How running a script in its JavaScript runtime ended.
pub enum RuntimeOutcome {
    /// The runtime could not be created.
    NoRuntime(String),
    /// The context could not be created in the runtime.
    NoContext(String),
    /// The functions that a script calls could not be installed.
    NotInstalled(String),
    /// An exception went uncaught.
    Threw(String),
    /// The script ended with `undefined`.
    Undefined,
    /// The script ended with something that has no JSON value.
    NotJson(String),
    /// The script ended with a value.
    Value(serde_json::Value),
}

/// What a worker hands back of a run that went well.
pub struct WorkerResult {
    pub final_value: Option<serde_json::Value>,
}

/// The result of a run.
#[derive(Clone, Debug, PartialEq)]
pub struct MongoScriptResult {
    pub final_value: Option<serde_json::Value>,
    pub output: Vec<MongoScriptOutput>,
    pub operation_count: usize,
    pub succeeded_operation_count: usize,
    pub current_database: String,
    pub truncated: bool,
}

/// What a worker reports of a run: its final value, if the script ended with one, or an error.
pub open spec fn worker_report(outcome: RuntimeOutcome, limits: MongoScriptLimits) -> Result<
    Option<serde_json::Value>,
    Seq<char>,
> {
    match outcome {
        RuntimeOutcome::NoRuntime(error) => Err(
            error_text(
                MongoScriptErrorKind::Runtime,
                "Could not create JavaScript runtime: "@ + error@,
            ),
        ),
        RuntimeOutcome::NoContext(error) => Err(
            error_text(
                MongoScriptErrorKind::Runtime,
                "Could not create JavaScript context: "@ + error@,
            ),
        ),
        RuntimeOutcome::NotInstalled(error) => Err(
            error_text(MongoScriptErrorKind::Runtime, error@),
        ),
        RuntimeOutcome::Threw(error) => Err(js_error_text(error@)),
        RuntimeOutcome::Undefined => Ok(None),
        RuntimeOutcome::NotJson(error) => Err(
            error_text(MongoScriptErrorKind::Serialization, error@),
        ),
        RuntimeOutcome::Value(value) => match value_verdict(value, limits) {
            Ok(()) => Ok(Some(value)),
            Err(error) => Err(error),
        },
    }
}

/// A worker's result as a report.
pub open spec fn report_of(result: Result<WorkerResult, String>) -> Result<
    Option<serde_json::Value>,
    Seq<char>,
> {
    match result {
        Ok(worker) => Ok(worker.final_value),
        Err(error) => Err(error@),
    }
}

/// What a worker makes of the end of its script.
pub fn conclude_runtime(outcome: RuntimeOutcome, limits: &MongoScriptLimits) -> (result: Result<
    WorkerResult,
    String,
>)
    ensures
        report_of(result) == worker_report(outcome, *limits),
        result is Ok && result->Ok_0.final_value is None <==> outcome is Undefined,
        result is Ok ==> outcome is Undefined || outcome is Value,
        outcome matches RuntimeOutcome::Value(value) ==> {
            &&& result is Ok <==> {
                &&& node_count(value_shape(value)) <= limits.max_value_nodes
                    || limits.max_value_nodes == usize::MAX
                &&& height(value_shape(value)) <= limits.max_value_depth || limits.max_value_depth
                    == usize::MAX
                &&& json_bytes(value) is Ok
                &&& json_bytes(value)->Ok_0.len() <= limits.max_value_bytes
            }
            &&& result is Ok ==> result->Ok_0.final_value == Some(value)
        },
{
    proof {
        if outcome is Value {
            lemma_value_accepted(outcome->Value_0, *limits);
        }
    }
    match outcome {
        RuntimeOutcome::NoRuntime(error) => Err(
            script_error(
                MongoScriptErrorKind::Runtime,
                join("Could not create JavaScript runtime: ", error.as_str()).as_str(),
            ),
        ),
        RuntimeOutcome::NoContext(error) => Err(
            script_error(
                MongoScriptErrorKind::Runtime,
                join("Could not create JavaScript context: ", error.as_str()).as_str(),
            ),
        ),
        RuntimeOutcome::NotInstalled(error) => Err(
            script_error(MongoScriptErrorKind::Runtime, error.as_str()),
        ),
        RuntimeOutcome::Threw(error) => Err(script_error_from_js(error.as_str())),
        RuntimeOutcome::Undefined => Ok(WorkerResult { final_value: None }),
        RuntimeOutcome::NotJson(error) => Err(
            script_error(MongoScriptErrorKind::Serialization, error.as_str()),
        ),
        RuntimeOutcome::Value(value) => match validate_json_value(&value, limits) {
            Ok(()) => Ok(WorkerResult { final_value: Some(value) }),
            Err(error) => Err(error),
        },
    }
}

/// Why a run whose worker is done has no result, if it has none. That it was interrupted comes
/// first, whatever the worker made of it.
pub open spec fn finish_refusal(
    worker: Result<Result<WorkerResult, String>, String>,
    state: ExecutionState,
    output: Option<&OutputState>,
) -> Option<Seq<char>> {
    if state.interrupt_reason != InterruptReason::Running {
        Some(interrupt_text(state.interrupt_reason))
    } else {
        match worker {
            Err(error) => Some(
                error_text(
                    MongoScriptErrorKind::Runtime,
                    "JavaScript runtime worker failed: "@ + error@,
                ),
            ),
            Ok(Err(error)) => Some(error@),
            Ok(Ok(_)) => if output is None {
                Some(
                    error_text(
                        MongoScriptErrorKind::Runtime,
                        "MongoDB script output state is unavailable"@,
                    ),
                )
            } else {
                None
            },
        }
    }
}

/// `result` is what a run comes to whose worker ended with `worker`.
pub open spec fn finishes(
    worker: Result<Result<WorkerResult, String>, String>,
    state: ExecutionState,
    output: Option<&OutputState>,
    database: Seq<char>,
    result: Result<MongoScriptResult, String>,
) -> bool {
    match result {
        Err(error) => finish_refusal(worker, state, output) == Some(error@),
        Ok(result) => {
            &&& finish_refusal(worker, state, output) is None
            &&& result.final_value == worker->Ok_0->Ok_0.final_value
            &&& result.output@ == output->0.items@
            &&& result.operation_count == state.operation_count
            &&& result.succeeded_operation_count == state.succeeded_operation_count
            &&& result.current_database@ == database
            &&& result.truncated == output->0.truncated
        },
    }
}

fn copy_items(items: &Vec<MongoScriptOutput>) -> (copy: Vec<MongoScriptOutput>)
    ensures
        copy@ == items@,
{
    let mut copy: Vec<MongoScriptOutput> = Vec::new();
    let mut i: usize = 0;
    while i < items.len()
        invariant
            i <= items.len(),
            copy@ == items@.take(i as int),
        decreases items.len() - i,
    {
        assert(items@.take(i as int + 1) =~= items@.take(i as int).push(items@[i as int]));
        copy.push(items[i].clone());
        i += 1;
    }
    assert(items@.take(i as int) =~= items@);
    copy
}

/// The result of a run whose worker ended with `worker`: an outer error says that the worker
/// itself failed. Without `output` the output that was kept cannot be read.
pub fn finish_worker(
    worker: Result<Result<WorkerResult, String>, String>,
    state: &ExecutionState,
    output: Option<&OutputState>,
    current_database: &str,
) -> (result: Result<MongoScriptResult, String>)
    ensures
        finishes(worker, *state, output, current_database@, result),
        result is Ok <==> {
            &&& state.interrupt_reason == InterruptReason::Running
            &&& worker is Ok
            &&& worker->Ok_0 is Ok
            &&& output is Some
        },
        result is Ok ==> {
            &&& result->Ok_0.final_value == worker->Ok_0->Ok_0.final_value
            &&& result->Ok_0.output@ == output->0.items@
            &&& result->Ok_0.truncated == output->0.truncated
            &&& result->Ok_0.operation_count == state.operation_count
            &&& result->Ok_0.succeeded_operation_count == state.succeeded_operation_count
            &&& result->Ok_0.current_database@ == current_database@
        },
{
    let reason = state.reason();
    if reason != InterruptReason::Running {
        return Err(interrupt_error(reason));
    }
    let worker_result = match worker {
        Err(error) => {
            return Err(
                script_error(
                    MongoScriptErrorKind::Runtime,
                    join("JavaScript runtime worker failed: ", error.as_str()).as_str(),
                ),
            );
        },
        Ok(Err(error)) => {
            return Err(error);
        },
        Ok(Ok(worker_result)) => worker_result,
    };
    match output {
        None => Err(
            script_error(
                MongoScriptErrorKind::Runtime,
                "MongoDB script output state is unavailable",
            ),
        ),
        Some(output) => Ok(
            MongoScriptResult {
                final_value: worker_result.final_value,
                output: copy_items(&output.items),
                operation_count: state.operation_count,
                succeeded_operation_count: state.succeeded_operation_count,
                current_database: current_database.to_owned(),
                truncated: output.truncated,
            },
        ),
    }
}

/// An interruption wins over whatever the worker made of it: even a script that caught the
/// failure of its host call and went on to a result has none.
pub proof fn lemma_interruption_wins(
    worker: Result<Result<WorkerResult, String>, String>,
    state: ExecutionState,
    output: Option<&OutputState>,
    database: Seq<char>,
    result: Result<MongoScriptResult, String>,
)
    requires
        state.interrupt_reason != InterruptReason::Running,
        finishes(worker, state, output, database, result),
    ensures
        result matches Err(error) && crate::error::kind_of(error@) == Some(
            if state.interrupt_reason == InterruptReason::Cancelled {
                MongoScriptErrorKind::Cancelled
            } else {
                MongoScriptErrorKind::Timeout
            },
        ),
{
    crate::execution::lemma_interrupt_kind(state.interrupt_reason);
}

/// Every failure of a script carries its kind.
pub proof fn lemma_worker_failures_have_a_kind(outcome: RuntimeOutcome, limits: MongoScriptLimits)
    ensures
        worker_report(outcome, limits) matches Err(error) ==> crate::error::kind_of(error) is Some,
{
    match outcome {
        RuntimeOutcome::NoRuntime(error) => {
            crate::error::lemma_error_round_trip(
                MongoScriptErrorKind::Runtime,
                "Could not create JavaScript runtime: "@ + error@,
            );
        },
        RuntimeOutcome::NoContext(error) => {
            crate::error::lemma_error_round_trip(
                MongoScriptErrorKind::Runtime,
                "Could not create JavaScript context: "@ + error@,
            );
        },
        RuntimeOutcome::NotInstalled(error) => {
            crate::error::lemma_error_round_trip(MongoScriptErrorKind::Runtime, error@);
        },
        RuntimeOutcome::Threw(error) => {
            crate::error::lemma_js_error_kind(error@);
        },
        RuntimeOutcome::Undefined => {},
        RuntimeOutcome::NotJson(error) => {
            crate::error::lemma_error_round_trip(MongoScriptErrorKind::Serialization, error@);
        },
        RuntimeOutcome::Value(value) => {
            crate::json::lemma_value_refusal_kinds(value, limits);
        },
    }
}

/// Every failure of a run carries its kind, if the failure that its worker reports does.
pub proof fn lemma_run_failures_have_a_kind(
    worker: Result<Result<WorkerResult, String>, String>,
    state: ExecutionState,
    output: Option<&OutputState>,
)
    requires
        worker matches Ok(Err(error)) ==> crate::error::kind_of(error@) is Some,
    ensures
        finish_refusal(worker, state, output) matches Some(error) ==> crate::error::kind_of(
            error,
        ) is Some,
{
    crate::execution::lemma_interrupt_kind(state.interrupt_reason);
    if let Err(error) = worker {
        crate::error::lemma_error_round_trip(
            MongoScriptErrorKind::Runtime,
            "JavaScript runtime worker failed: "@ + error@,
        );
    }
    crate::error::lemma_error_round_trip(
        MongoScriptErrorKind::Runtime,
        "MongoDB script output state is unavailable"@,
    );
}

/// A worker has no final value exactly if its script ended with `undefined`; a value within the
/// limits is handed back as it is, whatever its shape, and any other value is refused.
pub proof fn lemma_final_value_is_handed_back(
    outcome: RuntimeOutcome,
    limits: MongoScriptLimits,
    result: Result<WorkerResult, String>,
)
    requires
        report_of(result) == worker_report(outcome, limits),
    ensures
        result is Ok && result->Ok_0.final_value is None <==> outcome is Undefined,
        outcome matches RuntimeOutcome::Value(value) ==> {
            &&& result is Ok <==> {
                &&& node_count(value_shape(value)) <= limits.max_value_nodes
                    || limits.max_value_nodes == usize::MAX
                &&& height(value_shape(value)) <= limits.max_value_depth || limits.max_value_depth
                    == usize::MAX
                &&& json_bytes(value) is Ok
                &&& json_bytes(value)->Ok_0.len() <= limits.max_value_bytes
            }
            &&& result is Ok ==> result->Ok_0.final_value == Some(value)
            &&& result is Err ==> value_verdict(value, limits) == Err::<(), Seq<char>>(
                result->Err_0@,
            )
        },
{
    if let RuntimeOutcome::Value(value) = outcome {
        lemma_value_accepted(value, limits);
    }
}

/// A script that does not end with a value within the limits, or with `undefined`, has an error
/// that says why, with the reason it was given untouched.
pub proof fn lemma_failed_scripts_say_why(
    error: String,
    limits: MongoScriptLimits,
    result: Result<WorkerResult, String>,
)
    ensures
        report_of(result) == worker_report(RuntimeOutcome::NoRuntime(error), limits) ==> result
            is Err && result->Err_0@
            == "[mongo_script.runtime] Could not create JavaScript runtime: "@ + error@,
        report_of(result) == worker_report(RuntimeOutcome::NoContext(error), limits) ==> result
            is Err && result->Err_0@
            == "[mongo_script.runtime] Could not create JavaScript context: "@ + error@,
        report_of(result) == worker_report(RuntimeOutcome::NotInstalled(error), limits) ==> result
            is Err && result->Err_0@ == "[mongo_script.runtime] "@ + error@,
        report_of(result) == worker_report(RuntimeOutcome::Threw(error), limits) ==> result is Err
            && result->Err_0@ == js_error_text(error@),
        report_of(result) == worker_report(RuntimeOutcome::NotJson(error), limits) ==> result is Err
            && result->Err_0@ == "[mongo_script.serialization] "@ + error@,
{
    reveal_strlit("Could not create JavaScript runtime: ");
    reveal_strlit("Could not create JavaScript context: ");
    reveal_strlit("[mongo_script.runtime] ");
    reveal_strlit("[mongo_script.runtime] Could not create JavaScript runtime: ");
    reveal_strlit("[mongo_script.runtime] Could not create JavaScript context: ");
    lemma_runtime_text(error@);
    lemma_runtime_text("Could not create JavaScript runtime: "@ + error@);
    lemma_runtime_text("Could not create JavaScript context: "@ + error@);
    crate::json::lemma_serialization_text(error@);
    assert("[mongo_script.runtime] "@ + ("Could not create JavaScript runtime: "@ + error@)
        =~= "[mongo_script.runtime] Could not create JavaScript runtime: "@ + error@);
    assert("[mongo_script.runtime] "@ + ("Could not create JavaScript context: "@ + error@)
        =~= "[mongo_script.runtime] Could not create JavaScript context: "@ + error@);
}

/// What a runtime error reads as.
pub proof fn lemma_runtime_text(message: Seq<char>)
    ensures
        error_text(MongoScriptErrorKind::Runtime, message) == "[mongo_script.runtime] "@ + message,
{
    reveal_strlit("[mongo_script.");
    reveal_strlit("runtime");
    reveal_strlit("]");
    reveal_strlit(" ");
    reveal_strlit("[mongo_script.runtime] ");
    assert(error_text(MongoScriptErrorKind::Runtime, message) =~= "[mongo_script.runtime] "@
        + message);
}

/// A run has a result exactly if it was not interrupted, its worker handed one back, and its
/// output can be read; the result then is what the worker handed back, the output that was kept,
/// what is known to be left out of it, the counts and the database.
pub proof fn lemma_result_is_what_the_run_came_to(
    worker: Result<Result<WorkerResult, String>, String>,
    state: ExecutionState,
    output: Option<&OutputState>,
    database: Seq<char>,
    result: Result<MongoScriptResult, String>,
)
    requires
        finishes(worker, state, output, database, result),
    ensures
        result is Ok <==> {
            &&& state.interrupt_reason == InterruptReason::Running
            &&& worker is Ok
            &&& worker->Ok_0 is Ok
            &&& output is Some
        },
        result is Ok ==> {
            &&& result->Ok_0.final_value == worker->Ok_0->Ok_0.final_value
            &&& result->Ok_0.output@ == output->0.items@
            &&& result->Ok_0.truncated == output->0.truncated
            &&& result->Ok_0.operation_count == state.operation_count
            &&& result->Ok_0.succeeded_operation_count == state.succeeded_operation_count
            &&& result->Ok_0.current_database@ == database
        },
{
}

/// Why a run has no result: that it was interrupted comes before anything else; then that its
/// worker failed; then the error that its worker reports, untouched; then that its output cannot
/// be read.
pub proof fn lemma_failed_runs_say_why(
    worker: Result<Result<WorkerResult, String>, String>,
    state: ExecutionState,
    output: Option<&OutputState>,
    database: Seq<char>,
    result: Result<MongoScriptResult, String>,
)
    requires
        finishes(worker, state, output, database, result),
    ensures
        state.interrupt_reason == InterruptReason::Cancelled ==> result is Err && result->Err_0@
            == "[mongo_script.cancelled] MongoDB shell execution cancelled"@,
        state.interrupt_reason == InterruptReason::TimedOut ==> result is Err && result->Err_0@
            == "[mongo_script.timeout] MongoDB shell execution timed out"@,
        state.interrupt_reason == InterruptReason::Running && worker is Err ==> result is Err
            && result->Err_0@
            == "[mongo_script.runtime] JavaScript runtime worker failed: "@ + worker->Err_0@,
        state.interrupt_reason == InterruptReason::Running && worker is Ok && worker->Ok_0 is Err
            ==> result is Err && result->Err_0@ == worker->Ok_0->Err_0@,
        state.interrupt_reason == InterruptReason::Running && worker is Ok && worker->Ok_0 is Ok
            && output is None ==> result is Err && result->Err_0@
            == "[mongo_script.runtime] MongoDB script output state is unavailable"@,
{
    reveal_strlit("JavaScript runtime worker failed: ");
    reveal_strlit("MongoDB script output state is unavailable");
    reveal_strlit("[mongo_script.runtime] ");
    reveal_strlit("[mongo_script.runtime] JavaScript runtime worker failed: ");
    reveal_strlit("[mongo_script.runtime] MongoDB script output state is unavailable");
    crate::execution::lemma_execution_texts(0);
    if let Err(error) = worker {
        lemma_runtime_text("JavaScript runtime worker failed: "@ + error@);
        assert("[mongo_script.runtime] "@ + ("JavaScript runtime worker failed: "@ + error@)
            =~= "[mongo_script.runtime] JavaScript runtime worker failed: "@ + error@);
    }
    lemma_runtime_text("MongoDB script output state is unavailable"@);
    assert("[mongo_script.runtime] "@ + "MongoDB script output state is unavailable"@
        =~= "[mongo_script.runtime] MongoDB script output state is unavailable"@);
}

/// Over a whole run: the result of a run that ends well is marked as truncated exactly if some
/// item that its script printed, and that was not refused, is missing from the result's output.
pub proof fn lemma_result_tells_what_is_missing(
    states: Seq<OutputState>,
    printed: Seq<MongoScriptOutput>,
    limits: MongoScriptLimits,
    worker: Result<Result<WorkerResult, String>, String>,
    state: ExecutionState,
    database: Seq<char>,
    result: MongoScriptResult,
)
    requires
        prints(states, printed, limits),
        finishes(worker, state, Some(&states.last()), database, Ok(result)),
    ensures
        result.truncated <==> result.output@ != printed.filter(
            |item: MongoScriptOutput| output_verdict(item, limits) is Ok,
        ),
        result.truncated <==> result.output@.len() < printed.filter(
            |item: MongoScriptOutput| output_verdict(item, limits) is Ok,
        ).len(),
{
    crate::output::lemma_truncation_is_noted(states, printed, limits);
}

/// Whatever `conclude_runtime` returns: there is no final value exactly if the script ended with
/// `undefined`, and a value within the limits comes back as it is, whatever its shape.
pub proof fn lemma_conclusions_keep_the_value(
    outcome: RuntimeOutcome,
    limits: MongoScriptLimits,
    result: Result<WorkerResult, String>,
)
    requires
        call_ensures(conclude_runtime, (outcome, &limits), result),
    ensures
        result is Ok && result->Ok_0.final_value is None <==> outcome is Undefined,
        outcome matches RuntimeOutcome::Value(value) ==> {
            &&& result is Ok <==> {
                &&& node_count(value_shape(value)) <= limits.max_value_nodes
                    || limits.max_value_nodes == usize::MAX
                &&& height(value_shape(value)) <= limits.max_value_depth || limits.max_value_depth
                    == usize::MAX
                &&& json_bytes(value) is Ok
                &&& json_bytes(value)->Ok_0.len() <= limits.max_value_bytes
            }
            &&& result is Ok ==> result->Ok_0.final_value == Some(value)
        },
{
}

/// Whatever `finish_worker` returns: there is a result exactly if the run was not interrupted, its
/// worker handed one back, and its output can be read; why there is none is told in that order.
pub proof fn lemma_finished_runs_tell_what_they_came_to(
    worker: Result<Result<WorkerResult, String>, String>,
    state: ExecutionState,
    output: Option<&OutputState>,
    database: &str,
    result: Result<MongoScriptResult, String>,
)
    requires
        call_ensures(finish_worker, (worker, &state, output, database), result),
    ensures
        result is Ok <==> {
            &&& state.interrupt_reason == InterruptReason::Running
            &&& worker is Ok
            &&& worker->Ok_0 is Ok
            &&& output is Some
        },
        result is Ok ==> {
            &&& result->Ok_0.final_value == worker->Ok_0->Ok_0.final_value
            &&& result->Ok_0.output@ == output->0.items@
            &&& result->Ok_0.truncated == output->0.truncated
            &&& result->Ok_0.operation_count == state.operation_count
            &&& result->Ok_0.succeeded_operation_count == state.succeeded_operation_count
            &&& result->Ok_0.current_database@ == database@
        },
        state.interrupt_reason == InterruptReason::Cancelled ==> result->Err_0@
            == "[mongo_script.cancelled] MongoDB shell execution cancelled"@,
        state.interrupt_reason == InterruptReason::TimedOut ==> result->Err_0@
            == "[mongo_script.timeout] MongoDB shell execution timed out"@,
        state.interrupt_reason == InterruptReason::Running && worker is Err ==> result->Err_0@
            == "[mongo_script.runtime] JavaScript runtime worker failed: "@ + worker->Err_0@,
        state.interrupt_reason == InterruptReason::Running && worker is Ok && worker->Ok_0 is Err
            ==> result->Err_0@ == worker->Ok_0->Err_0@,
        state.interrupt_reason == InterruptReason::Running && worker is Ok && worker->Ok_0 is Ok
            && output is None ==> result->Err_0@
            == "[mongo_script.runtime] MongoDB script output state is unavailable"@,
{
    lemma_failed_runs_say_why(worker, state, output, database@, result);
}

/// Over a whole run, whatever `finish_worker` returns at its end: a result is marked as truncated
/// exactly if some item that the script printed, and that was not refused, is missing from the
/// result's output; and there are never more items in it than are allowed.
pub proof fn lemma_finished_runs_tell_what_is_missing(
    states: Seq<OutputState>,
    printed: Seq<MongoScriptOutput>,
    limits: MongoScriptLimits,
    worker: Result<Result<WorkerResult, String>, String>,
    state: ExecutionState,
    database: &str,
    result: MongoScriptResult,
)
    requires
        prints(states, printed, limits),
        call_ensures(
            finish_worker,
            (worker, &state, Some(&states.last()), database),
            Ok::<MongoScriptResult, String>(result),
        ),
    ensures
        result.truncated <==> result.output@ != printed.filter(
            |item: MongoScriptOutput| output_verdict(item, limits) is Ok,
        ),
        result.truncated <==> result.output@.len() < printed.filter(
            |item: MongoScriptOutput| output_verdict(item, limits) is Ok,
        ).len(),
        result.output@.len() <= limits.max_output_items,
{
    crate::output::lemma_truncation_is_noted(states, printed, limits);
    crate::output::lemma_kept_output_fits(states, printed, limits);
}

} // verus!
