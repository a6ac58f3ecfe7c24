use mongo_script::{
    begin_host_call, conclude_runtime, finish_host_call, finish_worker, mongo_script_error_kind,
    script_error_from_js, Coordinator, ExceptionClass, ExecutionState, HostAnswer, HostOutcome,
    InterruptReason, MongoScriptErrorKind, MongoScriptLimits, MongoScriptOperation,
    MongoScriptOutput, MongoScriptRequest, OutputState, RunAction, RunEvent, RuntimeOutcome,
    WorkerResult,
};
use serde_json::Value;

fn value(text: &str) -> Value {
    serde_json::from_str(text).unwrap()
}

fn begin() -> Coordinator {
    let request = MongoScriptRequest {
        connection_id: "test-connection".to_string(),
        database: "initial_database".to_string(),
        source: "1".to_string(),
        execution_id: None,
        max_rows: 100,
        timeout_secs: None,
    };
    Coordinator::begin(&request, &MongoScriptLimits::default()).unwrap()
}

fn echo(argument: &str) -> MongoScriptOperation {
    MongoScriptOperation::CollectionCall {
        database: "alpha".to_string(),
        collection: "items".to_string(),
        method: "echo".to_string(),
        args: vec![value(argument)],
    }
}

fn select(database: &str) -> MongoScriptOperation {
    MongoScriptOperation::SelectDatabase { database: database.to_string() }
}

fn call(run: &mut Coordinator, operation: MongoScriptOperation, state: &mut ExecutionState) {
    let event = RunEvent::HostRequested(Some(operation.clone()));
    let action = run.on_event(event, state, None);
    let RunAction::CallHost(asked) = action else { panic!("expected a host call") };
    assert_eq!(asked, operation);
    assert_eq!(run.in_call, Some(operation));
}

fn finished(final_value: Option<Value>) -> Result<Result<WorkerResult, String>, String> {
    Ok(Ok(WorkerResult { final_value }))
}

#[test]
fn the_first_interruption_stays() {
    let mut state = ExecutionState::new();
    assert_eq!(state.reason(), InterruptReason::Running);
    state.interrupt(InterruptReason::Running);
    assert_eq!(state.reason(), InterruptReason::Running);
    state.interrupt(InterruptReason::TimedOut);
    state.interrupt(InterruptReason::Cancelled);
    assert_eq!(state.reason(), InterruptReason::TimedOut);
    assert_eq!((state.operation_count, state.succeeded_operation_count), (0, 0));
}

#[test]
fn operations_stop_at_their_limit() {
    let mut state = ExecutionState::new();
    assert!(state.try_start_operation(2).is_ok());
    assert!(state.try_start_operation(2).is_ok());
    let error = state.try_start_operation(2).unwrap_err();
    assert_eq!(error, "[mongo_script.resource_limit] MongoDB shell operation limit of 2 exceeded");
    assert_eq!(mongo_script_error_kind(&error), Some(MongoScriptErrorKind::ResourceLimit));
    assert_eq!(state.operation_count, 2);
    assert!(state.try_start_operation(usize::MAX).is_ok());
    let longest = ExecutionState::new().try_start_operation(0).unwrap_err();
    assert!(longest.contains("operation limit of 0 exceeded"));
    state.operation_count = usize::MAX;
    assert!(state.try_start_operation(usize::MAX).unwrap_err().contains(&usize::MAX.to_string()));
}

#[test]
fn host_calls_are_checked_and_counted() {
    let limits = MongoScriptLimits { max_operations: 2, ..MongoScriptLimits::default() };
    let mut state = ExecutionState::new();
    let taken = begin_host_call(Ok(echo("1")), &limits, &mut state).unwrap();
    assert_eq!(taken, echo("1"));
    assert_eq!(state.operation_count, 1);

    let invalid = begin_host_call(Err("missing kind".to_string()), &limits, &mut state).unwrap_err();
    assert_eq!(invalid.class, ExceptionClass::Type);
    assert_eq!(invalid.message, "Invalid MongoDB host operation: missing kind");
    assert_eq!(state.operation_count, 1);

    let shallow = MongoScriptLimits { max_value_depth: 2, ..limits.clone() };
    let deep = begin_host_call(Ok(echo("1")), &shallow, &mut state).unwrap_err();
    assert_eq!(deep.class, ExceptionClass::Range);
    assert!(deep.message.contains("depth limit of 2 exceeded"));
    assert_eq!(state.operation_count, 1);

    // {"args":["xxxxxxxxxx"],"collection":"items","database":"alpha","kind":"collectionCall","method":"echo"}
    let long = format!("\"{}\"", "x".repeat(10));
    let exact = MongoScriptLimits { max_value_bytes: 103, ..limits.clone() };
    let small = MongoScriptLimits { max_value_bytes: 102, ..limits.clone() };
    let large = begin_host_call(Ok(echo(&long)), &small, &mut state).unwrap_err();
    assert_eq!(large.class, ExceptionClass::Range);
    assert!(large.message.contains("size limit of 102 bytes exceeded"));
    assert!(begin_host_call(Ok(echo(&long)), &exact, &mut state).is_ok());

    let over = begin_host_call(Ok(echo("3")), &limits, &mut state).unwrap_err();
    assert_eq!(over.class, ExceptionClass::Range);
    assert!(over.message.contains("operation limit of 2 exceeded"));
    let report = script_error_from_js(&format!("RangeError: {}\n  at eval", over.message));
    assert_eq!(mongo_script_error_kind(&report), Some(MongoScriptErrorKind::ResourceLimit));
}

#[test]
fn host_calls_come_back_as_text_or_exception() {
    let reply = value(r#"{ "ok": 1, "list": [true, null] }"#);
    assert_eq!(
        finish_host_call(HostAnswer::Replied(Ok(reply))).unwrap(),
        r#"{"list":[true,null],"ok":1}"#
    );
    let failed = finish_host_call(HostAnswer::Replied(Err("expected host failure".to_string())));
    let failed = failed.unwrap_err();
    assert_eq!(failed.class, ExceptionClass::Plain);
    assert_eq!(failed.message, "[mongo_script.host] expected host failure");
    let report = script_error_from_js(&format!("Error: {}\n  at eval", failed.message));
    assert_eq!(mongo_script_error_kind(&report), Some(MongoScriptErrorKind::Host));
    assert!(report.contains("expected host failure"));

    let unsent = finish_host_call(HostAnswer::NotTaken).unwrap_err();
    assert_eq!(unsent.class, ExceptionClass::Internal);
    assert_eq!(unsent.message, "MongoDB script host coordinator is unavailable");
    let lost = finish_host_call(HostAnswer::NotAnswered).unwrap_err();
    assert_eq!(lost.class, ExceptionClass::Internal);
    assert_eq!(lost.message, "MongoDB script host response channel closed");
    let error = "key must be a string".to_string();
    let unencoded = mongo_script::host_call::report_encoded_reply(Err(error));
    let unencoded = unencoded.unwrap_err();
    assert_eq!(unencoded.class, ExceptionClass::Internal);
    assert_eq!(
        unencoded.message,
        "Could not encode MongoDB host result: key must be a string"
    );
}

#[test]
fn successes_and_selections_are_recorded() {
    let limits = MongoScriptLimits::default();
    let mut run = begin();
    let mut state = ExecutionState::new();
    let output = OutputState::default();
    let calls = [
        (select("analytics"), Ok(value(r#"{"selected":"analytics"}"#))),
        (echo("1"), Ok(value("1"))),
        (select("missing"), Err("expected host failure".to_string())),
    ];
    for (operation, answer) in calls {
        let operation = begin_host_call(Ok(operation), &limits, &mut state).unwrap();
        call(&mut run, operation, &mut state);
        let outcome = HostOutcome::Answered(answer.clone());
        let settlement = run.on_host_outcome(outcome, &mut state, &limits);
        assert_eq!(settlement.reply, answer);
        assert!(run.in_call.is_none());
        assert!(settlement.stop.is_none());
    }
    assert_eq!(run.current_database, "analytics");

    let event = RunEvent::WorkerFinished(finished(Some(value("\"selected\""))));
    let action = run.on_event(event, &mut state, Some(&output));
    let RunAction::Finish(Ok(result)) = action else { panic!("expected a result") };
    assert_eq!(result.final_value, Some(value("\"selected\"")));
    assert_eq!(result.operation_count, 3);
    assert_eq!(result.succeeded_operation_count, 2);
    assert_eq!(result.current_database, "analytics");
    assert!(result.output.is_empty() && !result.truncated);
}

#[test]
fn host_values_are_checked_before_they_count() {
    let limits = MongoScriptLimits { max_value_bytes: 4, ..MongoScriptLimits::default() };
    let mut run = begin();
    let mut state = ExecutionState::new();
    let outcome = HostOutcome::Answered(Ok(value("12345")));
    call(&mut run, select("analytics"), &mut state);
    let settlement = run.on_host_outcome(outcome, &mut state, &limits);
    assert_eq!(
        settlement.reply.unwrap_err(),
        "[mongo_script.resource_limit] MongoDB script value size limit of 4 bytes exceeded"
    );
    assert!(settlement.stop.is_none());
    assert_eq!(state.succeeded_operation_count, 0);
    assert_eq!(run.current_database, "initial_database");
}

#[test]
fn cancellation_wins_over_a_caught_failure() {
    let limits = MongoScriptLimits::default();
    let mut run = begin();
    let mut state = ExecutionState::new();
    let output = OutputState::default();
    call(&mut run, echo("1"), &mut state);
    let settlement = run.on_host_outcome(HostOutcome::Cancelled, &mut state, &limits);
    let error = settlement.stop.unwrap();
    assert_eq!(mongo_script_error_kind(&error), Some(MongoScriptErrorKind::Cancelled));
    assert_eq!(settlement.reply.unwrap_err(), error);
    assert_eq!(state.reason(), InterruptReason::Cancelled);
    assert_eq!(state.succeeded_operation_count, 0);

    let caught = finished(Some(value("\"caught\"")));
    assert_eq!(finish_worker(caught, &state, Some(&output), "initial_database").unwrap_err(), error);
}

#[test]
fn a_deadline_ends_a_host_call() {
    let mut run = begin();
    let mut state = ExecutionState::new();
    let limits = MongoScriptLimits::default();
    let outcome = HostOutcome::DeadlineReached;
    call(&mut run, select("analytics"), &mut state);
    let settlement = run.on_host_outcome(outcome, &mut state, &limits);
    let error = settlement.stop.unwrap();
    assert_eq!(mongo_script_error_kind(&error), Some(MongoScriptErrorKind::Timeout));
    assert_eq!(state.reason(), InterruptReason::TimedOut);
    assert_eq!(run.current_database, "initial_database");
}

#[test]
fn events_stop_or_continue_a_run() {
    let mut run = begin();
    let mut state = ExecutionState::new();
    let action = run.on_event(RunEvent::HostRequested(None), &mut state, None);
    assert!(matches!(action, RunAction::Wait));
    assert!(!run.requests_open);

    let action = run.on_event(RunEvent::DeadlineReached, &mut state, None);
    let RunAction::Stop(error) = action else { panic!("expected a stop") };
    assert_eq!(mongo_script_error_kind(&error), Some(MongoScriptErrorKind::Timeout));
    assert_eq!(state.reason(), InterruptReason::TimedOut);

    let mut state = ExecutionState::new();
    let action = run.on_event(RunEvent::Cancelled, &mut state, None);
    let RunAction::Stop(error) = action else { panic!("expected a stop") };
    assert_eq!(mongo_script_error_kind(&error), Some(MongoScriptErrorKind::Cancelled));
    assert_eq!(state.reason(), InterruptReason::Cancelled);
}

#[test]
fn the_end_of_a_script_is_reported() {
    let limits = MongoScriptLimits { max_value_depth: 3, ..MongoScriptLimits::default() };
    let report = |outcome: RuntimeOutcome| conclude_runtime(outcome, &limits).map(|worker| worker.final_value);
    assert_eq!(report(RuntimeOutcome::Undefined), Ok(None));
    assert_eq!(report(RuntimeOutcome::Value(value("null"))), Ok(Some(Value::Null)));
    assert_eq!(report(RuntimeOutcome::Value(value("42"))), Ok(Some(value("42"))));
    assert_eq!(
        report(RuntimeOutcome::Value(value(r#"{ "one": { "two": { "three": true } } }"#))),
        Err("[mongo_script.resource_limit] MongoDB script value depth limit of 3 exceeded".to_string())
    );
    assert_eq!(
        report(RuntimeOutcome::NoRuntime("x".to_string())),
        Err("[mongo_script.runtime] Could not create JavaScript runtime: x".to_string())
    );
    assert_eq!(
        report(RuntimeOutcome::NoContext("x".to_string())),
        Err("[mongo_script.runtime] Could not create JavaScript context: x".to_string())
    );
    assert_eq!(
        report(RuntimeOutcome::NotInstalled("x".to_string())),
        Err("[mongo_script.runtime] x".to_string())
    );
    assert_eq!(
        report(RuntimeOutcome::NotJson("x".to_string())),
        Err("[mongo_script.serialization] x".to_string())
    );
    assert_eq!(
        report(RuntimeOutcome::Threw("Error: expected runtime failure".to_string())),
        Err("[mongo_script.runtime] Error: expected runtime failure".to_string())
    );
}

#[test]
fn a_finished_worker_gives_a_result() {
    let limits = MongoScriptLimits::default();
    let mut state = ExecutionState::new();
    let mut output = OutputState::default();
    output.capture(MongoScriptOutput::Text("total 12".to_string()), &limits).unwrap();
    let final_value = Some(value(r#"{ "total": 12, "branch": "expected" }"#));
    let result = finish_worker(finished(final_value.clone()), &state, Some(&output), "db").unwrap();
    assert_eq!(result.final_value, final_value);
    assert_eq!(result.output, vec![MongoScriptOutput::Text("total 12".to_string())]);
    assert_eq!(result.operation_count, 0);
    assert_eq!(result.succeeded_operation_count, 0);
    assert_eq!(result.current_database, "db");
    assert!(!result.truncated);
    assert_eq!(result.clone(), result);

    assert_eq!(
        finish_worker(finished(None), &state, None, "db").unwrap_err(),
        "[mongo_script.runtime] MongoDB script output state is unavailable"
    );
    assert_eq!(
        finish_worker(Ok(Err("[mongo_script.host] x".to_string())), &state, None, "db").unwrap_err(),
        "[mongo_script.host] x"
    );
    assert_eq!(
        finish_worker(Err("panicked".to_string()), &state, Some(&output), "db").unwrap_err(),
        "[mongo_script.runtime] JavaScript runtime worker failed: panicked"
    );
    state.interrupt(InterruptReason::TimedOut);
    assert_eq!(
        finish_worker(Err("panicked".to_string()), &state, Some(&output), "db").unwrap_err(),
        "[mongo_script.timeout] MongoDB shell execution timed out"
    );
}
