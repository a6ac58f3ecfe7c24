//! What the functions do that a script calls: a host call on its way out and back, and printing.

use vstd::prelude::*;
use vstd::utf8::*;

use crate::error::{error_text, script_error, MongoScriptErrorKind};
use crate::execution::{operation_limit_text, ExecutionState};
use crate::json::{json_bytes, text_encoding_of, validate_json_value, value_to_string};
use crate::limits::MongoScriptLimits;
use crate::operation::{
    lemma_operation_accepted, operation_json, operation_shape, operation_verdict,
    MongoScriptOperation,
};
use crate::output::{
    captures, lemma_output_accepted, output_json, output_shape, output_verdict, MongoScriptOutput,
    OutputState,
};
use crate::shape::{height, node_count};
use crate::text::join;

verus! {

/// The class of a JavaScript exception.
#[derive(Clone, Copy, Debug, PartialEq, Eq, Structural)]
pub enum ExceptionClass {
    /// `TypeError`
    Type,
    /// `RangeError`
    Range,
    /// `InternalError`
    Internal,
    /// `Error`
    Plain,
}

/// An exception to throw into a script.
#[derive(Debug)]
pub struct ScriptException {
    pub class: ExceptionClass,
    pub message: String,
}

/// An exception with its message as text.
pub ghost struct ExceptionText {
    pub class: ExceptionClass,
    pub message: Seq<char>,
}

impl View for ScriptException {
    type V = ExceptionText;

    open spec fn view(&self) -> ExceptionText {
        ExceptionText { class: self.class, message: self.message@ }
    }
}

/// How a host call came back.
pub enum HostAnswer {
    /// Nobody took the operation.
    NotTaken,
    /// The operation was taken and never answered.
    NotAnswered,
    /// The host's reply.
    Replied(Result<serde_json::Value, String>),
}

/// Why a host call does not go out, if it does not: what was passed is no operation, or its JSON
/// value is refused, or no more operations may be started.
pub open spec fn host_call_refusal(
    parsed: Result<MongoScriptOperation, String>,
    limits: MongoScriptLimits,
    state: ExecutionState,
) -> Option<ExceptionText> {
    match parsed {
        Err(error) => Some(
            ExceptionText {
                class: ExceptionClass::Type,
                message: "Invalid MongoDB host operation: "@ + error@,
            },
        ),
        Ok(operation) => match operation_verdict(operation, limits) {
            Err(error) => Some(ExceptionText { class: ExceptionClass::Range, message: error }),
            Ok(()) => if state.operation_count < limits.max_operations {
                None
            } else {
                Some(
                    ExceptionText {
                        class: ExceptionClass::Range,
                        message: operation_limit_text(limits.max_operations),
                    },
                )
            },
        },
    }
}

/// Checks and counts an operation that a script asks for. `parsed` is what was made of the
/// script's argument, or why nothing was.
pub fn begin_host_call(
    parsed: Result<MongoScriptOperation, String>,
    limits: &MongoScriptLimits,
    state: &mut ExecutionState,
) -> (outcome: Result<MongoScriptOperation, ScriptException>)
    ensures
        match outcome {
            Ok(operation) => {
                &&& host_call_refusal(parsed, *limits, *old(state)) is None
                &&& parsed == Ok::<MongoScriptOperation, String>(operation)
                &&& *final(state) == old(state).attempted(limits.max_operations)
                &&& final(state).operation_count == old(state).operation_count + 1
            },
            Err(exception) => {
                &&& host_call_refusal(parsed, *limits, *old(state)) == Some(exception@)
                &&& *final(state) == *old(state)
            },
        },
        outcome is Ok <==> {
            &&& parsed is Ok
            &&& node_count(operation_shape(parsed->Ok_0)) <= limits.max_value_nodes
                || limits.max_value_nodes == usize::MAX
            &&& height(operation_shape(parsed->Ok_0)) <= limits.max_value_depth
                || limits.max_value_depth == usize::MAX
            &&& json_bytes(operation_json(parsed->Ok_0)) is Ok
            &&& json_bytes(operation_json(parsed->Ok_0))->Ok_0.len() <= limits.max_value_bytes
            &&& old(state).operation_count < limits.max_operations
        },
{
    proof {
        if parsed is Ok {
            lemma_operation_accepted(parsed->Ok_0, *limits);
        }
    }
    let operation = match parsed {
        Err(error) => {
            return Err(
                ScriptException {
                    class: ExceptionClass::Type,
                    message: join("Invalid MongoDB host operation: ", error.as_str()),
                },
            );
        },
        Ok(operation) => operation,
    };
    match validate_json_value(&operation.to_json(), limits) {
        Err(error) => {
            return Err(ScriptException { class: ExceptionClass::Range, message: error });
        },
        Ok(()) => {},
    }
    match state.try_start_operation(limits.max_operations) {
        Err(error) => Err(ScriptException { class: ExceptionClass::Range, message: error }),
        Ok(()) => Ok(operation),
    }
}

/// What a host call gives the script: the encoded reply, or an exception.
pub open spec fn host_call_report(answer: HostAnswer) -> Result<Seq<u8>, ExceptionText> {
    match answer {
        HostAnswer::NotTaken => Err(
            ExceptionText {
                class: ExceptionClass::Internal,
                message: "MongoDB script host coordinator is unavailable"@,
            },
        ),
        HostAnswer::NotAnswered => Err(
            ExceptionText {
                class: ExceptionClass::Internal,
                message: "MongoDB script host response channel closed"@,
            },
        ),
        HostAnswer::Replied(Err(error)) => Err(
            ExceptionText {
                class: ExceptionClass::Plain,
                message: error_text(MongoScriptErrorKind::Host, error@),
            },
        ),
        HostAnswer::Replied(Ok(value)) => encoded_reply_report(json_bytes(value)),
    }
}

/// What the encoding of a host's reply gives the script.
pub open spec fn encoded_reply_report(encoding: Result<Seq<u8>, Seq<char>>) -> Result<
    Seq<u8>,
    ExceptionText,
> {
    match encoding {
        Ok(bytes) => Ok(bytes),
        Err(error) => Err(
            ExceptionText {
                class: ExceptionClass::Internal,
                message: "Could not encode MongoDB host result: "@ + error,
            },
        ),
    }
}

/// What a script gets, as bytes.
pub open spec fn report_bytes(report: Result<String, ScriptException>) -> Result<
    Seq<u8>,
    ExceptionText,
> {
    match report {
        Ok(text) => Ok(encode_utf8(text@)),
        Err(exception) => Err(exception@),
    }
}

/// What the script gets of a host reply that was encoded, or could not be.
pub fn report_encoded_reply(encoded: Result<String, String>) -> (report: Result<
    String,
    ScriptException,
>)
    ensures
        report_bytes(report) == encoded_reply_report(text_encoding_of(encoded)),
{
    match encoded {
        Ok(text) => Ok(text),
        Err(error) => Err(
            ScriptException {
                class: ExceptionClass::Internal,
                message: join("Could not encode MongoDB host result: ", error.as_str()),
            },
        ),
    }
}

/// What a host call gives the script: the JSON text of the reply, or an exception.
pub fn finish_host_call(answer: HostAnswer) -> (report: Result<String, ScriptException>)
    ensures
        report_bytes(report) == host_call_report(answer),
        answer matches HostAnswer::Replied(Ok(value)) ==> json_bytes(value) matches Ok(bytes) ==> {
            &&& report is Ok
            &&& encode_utf8(report->Ok_0@) == bytes
        },
        report is Ok ==> answer is Replied && answer->Replied_0 is Ok,
{
    match answer {
        HostAnswer::NotTaken => Err(
            ScriptException {
                class: ExceptionClass::Internal,
                message: "MongoDB script host coordinator is unavailable".to_owned(),
            },
        ),
        HostAnswer::NotAnswered => Err(
            ScriptException {
                class: ExceptionClass::Internal,
                message: "MongoDB script host response channel closed".to_owned(),
            },
        ),
        HostAnswer::Replied(Err(error)) => Err(
            ScriptException {
                class: ExceptionClass::Plain,
                message: script_error(MongoScriptErrorKind::Host, error.as_str()),
            },
        ),
        HostAnswer::Replied(Ok(value)) => report_encoded_reply(value_to_string(&value)),
    }
}

/// The exception for something that a script prints and that is no output.
pub open spec fn invalid_output_text(error: Seq<char>) -> ExceptionText {
    ExceptionText { class: ExceptionClass::Type, message: "Invalid script output: "@ + error }
}

/// Captures what a script prints. `parsed` is what was made of the script's argument, or why
/// nothing was.
pub fn print_output(
    parsed: Result<MongoScriptOutput, String>,
    output: &mut OutputState,
    limits: &MongoScriptLimits,
) -> (outcome: Result<(), ScriptException>)
    ensures
        match parsed {
            Err(error) => {
                &&& outcome matches Err(exception) && exception@ == invalid_output_text(error@)
                &&& *final(output) == *old(output)
            },
            Ok(item) => {
                &&& captures(*old(output), item, *limits, *final(output))
                &&& match output_verdict(item, *limits) {
                    Ok(()) => outcome is Ok,
                    Err(error) => outcome matches Err(exception) && exception@ == (ExceptionText {
                        class: ExceptionClass::Range,
                        message: error,
                    }),
                }
            },
        },
{
    match parsed {
        Err(error) => Err(invalid_output(error.as_str())),
        Ok(item) => match output.capture(item, limits) {
            Ok(()) => Ok(()),
            Err(error) => Err(ScriptException { class: ExceptionClass::Range, message: error }),
        },
    }
}

fn invalid_output(error: &str) -> (exception: ScriptException)
    ensures
        exception@ == invalid_output_text(error@),
{
    ScriptException {
        class: ExceptionClass::Type,
        message: join("Invalid script output: ", error),
    }
}

/// What printing throws when the output that was kept so far cannot be reached.
pub fn print_without_output(parsed: Result<MongoScriptOutput, String>) -> (exception:
    ScriptException)
    ensures
        exception@ == (match parsed {
            Err(error) => invalid_output_text(error@),
            Ok(_) => ExceptionText {
                class: ExceptionClass::Internal,
                message: "MongoDB script output state is unavailable"@,
            },
        }),
{
    match parsed {
        Err(error) => invalid_output(error.as_str()),
        Ok(_) => ScriptException {
            class: ExceptionClass::Internal,
            message: "MongoDB script output state is unavailable".to_owned(),
        },
    }
}

/// A host failure that the script does not catch is reported as a host failure, with its text,
/// whatever the runtime puts around the exception's message.
pub proof fn lemma_uncaught_host_failure(before: Seq<char>, failure: String, behind: Seq<char>)
    ensures
        host_call_report(HostAnswer::Replied(Err(failure))) matches Err(exception) && {
            let report = crate::error::js_error_text(before + exception.message + behind);
            &&& crate::error::kind_of(report) == Some(MongoScriptErrorKind::Host)
            &&& crate::text::contains_text(report, failure@)
        },
{
    let error = error_text(MongoScriptErrorKind::Host, failure@);
    let report = crate::error::js_error_text(before + error + behind);
    crate::error::lemma_host_errors_survive(before, failure@, behind);
    let at = choose|at: int| crate::text::occurs_at(report, error, at);
    let inside = at + error.len() - failure@.len();
    assert(report.subrange(inside, inside + failure@.len()) =~= failure@) by {
        assert(report.subrange(at, at + error.len()).skip(error.len() - failure@.len())
            =~= failure@);
    }
    assert(crate::text::occurs_at(report, failure@, inside));
}

/// A script that asks for more operations than it may, and does not catch the exception, is
/// reported as over a resource limit, unless a host mark stands beside it.
pub proof fn lemma_uncaught_operation_limit(before: Seq<char>, limit: usize, behind: Seq<char>)
    ensures
        ({
            let message = before + operation_limit_text(limit) + behind;
            crate::error::kind_of(crate::error::js_error_text(message)) == Some(
                if crate::text::contains_text(
                    message,
                    crate::error::marker_text(MongoScriptErrorKind::Host),
                ) {
                    MongoScriptErrorKind::Host
                } else {
                    MongoScriptErrorKind::ResourceLimit
                },
            )
        }),
{
    let message = before + operation_limit_text(limit) + behind;
    let pattern = crate::error::marker_text(MongoScriptErrorKind::ResourceLimit);
    let at = before.len() as int;
    assert(message.subrange(at, at + pattern.len()) =~= pattern);
    assert(crate::text::occurs_at(message, pattern, at));
    crate::error::lemma_js_error_kind(message);
}

/// A host call goes out exactly if its argument is an operation, of whichever variant, whose JSON
/// object fits into every limit on values, and fewer operations were started than are allowed.
pub proof fn lemma_operations_within_limits_go_out(
    operation: MongoScriptOperation,
    limits: MongoScriptLimits,
    state: ExecutionState,
)
    ensures
        host_call_refusal(Ok(operation), limits, state) is None <==> {
            &&& node_count(operation_shape(operation)) <= limits.max_value_nodes
                || limits.max_value_nodes == usize::MAX
            &&& height(operation_shape(operation)) <= limits.max_value_depth
                || limits.max_value_depth == usize::MAX
            &&& json_bytes(operation_json(operation)) is Ok
            &&& json_bytes(operation_json(operation))->Ok_0.len() <= limits.max_value_bytes
            &&& state.operation_count < limits.max_operations
        },
{
    lemma_operation_accepted(operation, limits);
}

/// What a host call that does not go out throws: a `TypeError` with what is wrong with its
/// argument; a `RangeError` with what is wrong with the operation's value; or a `RangeError` with
/// the number of operations that are allowed.
pub proof fn lemma_host_call_refusals(
    error: String,
    operation: MongoScriptOperation,
    limits: MongoScriptLimits,
    state: ExecutionState,
)
    ensures
        host_call_refusal(Err(error), limits, state) == Some(
            ExceptionText {
                class: ExceptionClass::Type,
                message: "Invalid MongoDB host operation: "@ + error@,
            },
        ),
        operation_verdict(operation, limits) matches Err(refusal) ==> host_call_refusal(
            Ok(operation),
            limits,
            state,
        ) == Some(ExceptionText { class: ExceptionClass::Range, message: refusal }),
        operation_verdict(operation, limits) is Ok && state.operation_count
            >= limits.max_operations ==> host_call_refusal(Ok(operation), limits, state) == Some(
            ExceptionText {
                class: ExceptionClass::Range,
                message: "[mongo_script.resource_limit] MongoDB shell operation limit of "@
                    + crate::text::decimal_text(limits.max_operations as nat) + " exceeded"@,
            },
        ),
{
    crate::execution::lemma_execution_texts(limits.max_operations);
}

/// The text that a script gets for a host's value has exactly the bytes of the value's encoding,
/// however many there are.
pub proof fn lemma_replies_reach_the_script(
    value: serde_json::Value,
    report: Result<String, ScriptException>,
)
    requires
        report_bytes(report) == host_call_report(HostAnswer::Replied(Ok(value))),
    ensures
        json_bytes(value) matches Ok(bytes) ==> {
            &&& host_call_report(HostAnswer::Replied(Ok(value))) == Ok::<Seq<u8>, ExceptionText>(
                bytes,
            )
            &&& report matches Ok(text) && encode_utf8(text@) == bytes
        },
        json_bytes(value) matches Err(error) ==> {
            &&& report matches Err(exception)
            &&& exception.class == ExceptionClass::Internal
            &&& exception.message@ == "Could not encode MongoDB host result: "@ + error
        },
{
}

/// Two values with different encodings never read the same to a script.
pub proof fn lemma_different_replies_read_differently(
    first: serde_json::Value,
    second: serde_json::Value,
)
    requires
        json_bytes(first) is Ok,
        json_bytes(second) is Ok,
        json_bytes(first) != json_bytes(second),
    ensures
        host_call_report(HostAnswer::Replied(Ok(first))) != host_call_report(
            HostAnswer::Replied(Ok(second)),
        ),
{
}

/// A host's failure is thrown as an `Error` that carries the host mark and the failure, untouched.
pub proof fn lemma_host_failures_are_thrown(
    failure: String,
    report: Result<String, ScriptException>,
)
    requires
        report_bytes(report) == host_call_report(HostAnswer::Replied(Err(failure))),
    ensures
        report matches Err(exception) && exception.class == ExceptionClass::Plain
            && exception.message@ == "[mongo_script.host] "@ + failure@,
{
    reveal_strlit("[mongo_script.");
    reveal_strlit("host");
    reveal_strlit("]");
    reveal_strlit(" ");
    reveal_strlit("[mongo_script.host] ");
    assert(error_text(MongoScriptErrorKind::Host, failure@) =~= "[mongo_script.host] "@
        + failure@);
}

/// A call that nobody took, or that was never answered, throws an `InternalError`.
pub proof fn lemma_lost_calls_are_thrown(answer: HostAnswer, report: Result<
    String,
    ScriptException,
>)
    requires
        !(answer is Replied),
        report_bytes(report) == host_call_report(answer),
    ensures
        report is Err,
        report->Err_0.class == ExceptionClass::Internal,
        answer is NotTaken ==> report->Err_0.message@
            == "MongoDB script host coordinator is unavailable"@,
        answer is NotAnswered ==> report->Err_0.message@
            == "MongoDB script host response channel closed"@,
{
}

/// Something that is printed and is no output throws a `TypeError` with what is wrong with it.
pub proof fn lemma_invalid_output_is_thrown(error: Seq<char>)
    ensures
        invalid_output_text(error).class == ExceptionClass::Type,
        invalid_output_text(error).message == "Invalid script output: "@ + error,
{
}

/// An exception is taken for what it is.
pub proof fn lemma_exceptions_are_taken_as_they_are(exception: ScriptException)
    ensures
        exception@.class == exception.class,
        exception@.message == exception.message@,
{
}

/// Whatever `begin_host_call` does: what was parsed goes out, as it is, exactly if it is an
/// operation, of whichever variant, whose JSON object fits into every limit on values, and fewer
/// operations were started than are allowed; one more is then counted, and otherwise nothing
/// changes.
pub proof fn lemma_begun_calls_fit_the_limits(
    parsed: Result<MongoScriptOperation, String>,
    limits: MongoScriptLimits,
    state: &mut ExecutionState,
    outcome: Result<MongoScriptOperation, ScriptException>,
)
    requires
        call_ensures(begin_host_call, (parsed, &limits, state), outcome),
    ensures
        outcome is Ok <==> {
            &&& parsed is Ok
            &&& node_count(operation_shape(parsed->Ok_0)) <= limits.max_value_nodes
                || limits.max_value_nodes == usize::MAX
            &&& height(operation_shape(parsed->Ok_0)) <= limits.max_value_depth
                || limits.max_value_depth == usize::MAX
            &&& json_bytes(operation_json(parsed->Ok_0)) is Ok
            &&& json_bytes(operation_json(parsed->Ok_0))->Ok_0.len() <= limits.max_value_bytes
            &&& old(state).operation_count < limits.max_operations
        },
        outcome is Ok ==> {
            &&& outcome->Ok_0 == parsed->Ok_0
            &&& final(state).operation_count == old(state).operation_count + 1
            &&& final(state).succeeded_operation_count == old(state).succeeded_operation_count
            &&& final(state).interrupt_reason == old(state).interrupt_reason
        },
        outcome is Err ==> *final(state) == *old(state),
        parsed is Err ==> {
            &&& outcome->Err_0.class == ExceptionClass::Type
            &&& outcome->Err_0.message@ == "Invalid MongoDB host operation: "@ + parsed->Err_0@
        },
        parsed is Ok && outcome is Err ==> outcome->Err_0.class == ExceptionClass::Range,
        parsed is Ok && operation_verdict(parsed->Ok_0, limits) is Ok && outcome is Err
            ==> outcome->Err_0.message@
            == "[mongo_script.resource_limit] MongoDB shell operation limit of "@
            + crate::text::decimal_text(limits.max_operations as nat) + " exceeded"@,
{
    crate::execution::lemma_execution_texts(limits.max_operations);
    if parsed is Ok {
        lemma_operation_accepted(parsed->Ok_0, limits);
    }
}

/// Whatever `finish_host_call` returns: for every value that has an encoding the script gets a text
/// of exactly those bytes, of any length; and it gets a text for nothing else.
pub proof fn lemma_finished_calls_hand_over_the_encoding(
    answer: HostAnswer,
    report: Result<String, ScriptException>,
)
    requires
        call_ensures(finish_host_call, (answer,), report),
    ensures
        report is Ok <==> {
            &&& answer is Replied
            &&& answer->Replied_0 is Ok
            &&& json_bytes(answer->Replied_0->Ok_0) is Ok
        },
        report is Ok ==> encode_utf8(report->Ok_0@) == json_bytes(answer->Replied_0->Ok_0)->Ok_0,
        answer is NotTaken ==> {
            &&& report->Err_0.class == ExceptionClass::Internal
            &&& report->Err_0.message@ == "MongoDB script host coordinator is unavailable"@
        },
        answer is NotAnswered ==> {
            &&& report->Err_0.class == ExceptionClass::Internal
            &&& report->Err_0.message@ == "MongoDB script host response channel closed"@
        },
        answer matches HostAnswer::Replied(Err(failure)) ==> {
            &&& report->Err_0.class == ExceptionClass::Plain
            &&& report->Err_0.message@ == "[mongo_script.host] "@ + failure@
        },
        answer matches HostAnswer::Replied(Ok(value)) ==> json_bytes(value) matches Err(error)
            ==> {
            &&& report->Err_0.class == ExceptionClass::Internal
            &&& report->Err_0.message@ == "Could not encode MongoDB host result: "@ + error
        },
{
    if let HostAnswer::Replied(Err(failure)) = answer {
        lemma_host_failures_are_thrown(failure, report);
    }
}

/// Whatever `report_encoded_reply` returns: the text as it is, or an `InternalError` with what the
/// encoding's error reads as.
pub proof fn lemma_encoded_replies_are_handed_over(
    encoded: Result<String, String>,
    report: Result<String, ScriptException>,
)
    requires
        call_ensures(report_encoded_reply, (encoded,), report),
    ensures
        report is Ok <==> encoded is Ok,
        encoded matches Ok(text) ==> encode_utf8(report->Ok_0@) == encode_utf8(text@),
        encoded matches Err(error) ==> {
            &&& report->Err_0.class == ExceptionClass::Internal
            &&& report->Err_0.message@ == "Could not encode MongoDB host result: "@ + error@
        },
{
}

/// Whatever `print_output` does: what is no output throws a `TypeError`, and an item that is not
/// allowed a `RangeError`, and neither changes anything; any other item throws nothing, and is kept
/// if it fits, and noted as left out if it does not.
pub proof fn lemma_printed_items_are_kept_if_they_fit(
    parsed: Result<MongoScriptOutput, String>,
    output: &mut OutputState,
    limits: MongoScriptLimits,
    outcome: Result<(), ScriptException>,
)
    requires
        call_ensures(print_output, (parsed, output, &limits), outcome),
    ensures
        outcome is Ok <==> {
            &&& parsed is Ok
            &&& node_count(output_shape(parsed->Ok_0)) <= limits.max_value_nodes
                || limits.max_value_nodes == usize::MAX
            &&& height(output_shape(parsed->Ok_0)) <= limits.max_value_depth
                || limits.max_value_depth == usize::MAX
            &&& json_bytes(output_json(parsed->Ok_0)) is Ok
        },
        outcome is Err ==> *final(output) == *old(output),
        parsed is Ok && outcome is Err ==> outcome->Err_0.class == ExceptionClass::Range,
        parsed is Err ==> {
            &&& outcome->Err_0.class == ExceptionClass::Type
            &&& outcome->Err_0.message@ == "Invalid script output: "@ + parsed->Err_0@
        },
        outcome is Ok ==> {
            if old(output).items@.len() < limits.max_output_items && old(output).bytes + json_bytes(
                output_json(parsed->Ok_0),
            )->Ok_0.len() <= limits.max_output_bytes {
                &&& final(output).items@ == old(output).items@.push(parsed->Ok_0)
                &&& final(output).truncated == old(output).truncated
            } else {
                &&& final(output).items@ == old(output).items@
                &&& final(output).truncated
            }
        },
{
    if parsed is Ok {
        lemma_output_accepted(parsed->Ok_0, limits);
    }
}

/// Whatever `print_without_output` returns: a `TypeError` for what is no output, and for anything
/// else an `InternalError`.
pub proof fn lemma_printing_without_output_is_thrown(
    parsed: Result<MongoScriptOutput, String>,
    exception: ScriptException,
)
    requires
        call_ensures(print_without_output, (parsed,), exception),
    ensures
        parsed matches Err(error) ==> {
            &&& exception.class == ExceptionClass::Type
            &&& exception.message@ == "Invalid script output: "@ + error@
        },
        parsed is Ok ==> {
            &&& exception.class == ExceptionClass::Internal
            &&& exception.message@ == "MongoDB script output state is unavailable"@
        },
{
}

} // verus!
