//! Script errors: text that carries a machine-readable kind in front of its message.

use vstd::prelude::*;
use vstd::string::*;

use crate::text::{
    characters, contains_text, find, from_first, join_three, lemma_first_exists,
    lemma_first_is_unique, occurs_at, starts_with,
};

verus! {

/// What went wrong with a script run.
#[derive(Clone, Copy, Debug, PartialEq, Eq, Structural)]
pub enum MongoScriptErrorKind {
    Cancelled,
    Host,
    InvalidRequest,
    ResourceLimit,
    Runtime,
    Serialization,
    Timeout,
}

/// The word that stands for `kind` in an error text.
pub open spec fn code_text(kind: MongoScriptErrorKind) -> Seq<char> {
    match kind {
        MongoScriptErrorKind::Cancelled => "cancelled"@,
        MongoScriptErrorKind::Host => "host"@,
        MongoScriptErrorKind::InvalidRequest => "invalid_request"@,
        MongoScriptErrorKind::ResourceLimit => "resource_limit"@,
        MongoScriptErrorKind::Runtime => "runtime"@,
        MongoScriptErrorKind::Serialization => "serialization"@,
        MongoScriptErrorKind::Timeout => "timeout"@,
    }
}

/// The mark of `kind`: its code in square brackets, behind `mongo_script.`.
pub open spec fn marker_text(kind: MongoScriptErrorKind) -> Seq<char> {
    "[mongo_script."@ + code_text(kind) + "]"@
}

/// The error text of `kind` with `message`.
pub open spec fn error_text(kind: MongoScriptErrorKind, message: Seq<char>) -> Seq<char> {
    marker_text(kind) + " "@ + message
}

/// The error text `error` is marked with `kind`.
pub open spec fn is_marked(error: Seq<char>, kind: MongoScriptErrorKind) -> bool {
    marker_text(kind).is_prefix_of(error)
}

/// The kind that `error` is marked with, if any.
pub open spec fn kind_of(error: Seq<char>) -> Option<MongoScriptErrorKind> {
    if exists|kind: MongoScriptErrorKind| is_marked(error, kind) {
        Some(choose|kind: MongoScriptErrorKind| is_marked(error, kind))
    } else {
        None
    }
}

/// What an uncaught JavaScript exception with `message` is reported as: a host error or a
/// resource limit that the script let pass, from its mark on; anything else as a runtime error.
pub open spec fn js_error_text(message: Seq<char>) -> Seq<char> {
    if contains_text(message, marker_text(MongoScriptErrorKind::Host)) {
        from_first(message, marker_text(MongoScriptErrorKind::Host))
    } else if contains_text(
        message,
        marker_text(MongoScriptErrorKind::ResourceLimit),
    ) {
        from_first(message, marker_text(MongoScriptErrorKind::ResourceLimit))
    } else {
        error_text(MongoScriptErrorKind::Runtime, message)
    }
}

/// The outcome of a check, with its error as text.
pub open spec fn verdict(outcome: Result<(), String>) -> Result<(), Seq<char>> {
    match outcome {
        Ok(()) => Ok(()),
        Err(error) => Err(error@),
    }
}

impl MongoScriptErrorKind {
    /// The kind's code, as it stands in error texts.
    pub fn code(self) -> (code: &'static str)
        ensures
            code@ == code_text(self),
    {
        match self {
            Self::Cancelled => "cancelled",
            Self::Host => "host",
            Self::InvalidRequest => "invalid_request",
            Self::ResourceLimit => "resource_limit",
            Self::Runtime => "runtime",
            Self::Serialization => "serialization",
            Self::Timeout => "timeout",
        }
    }
}

fn marker(kind: MongoScriptErrorKind) -> (marker: String)
    ensures
        marker@ == marker_text(kind),
{
    join_three("[mongo_script.", kind.code(), "]")
}

fn marked_with(error: &Vec<char>, kind: MongoScriptErrorKind) -> (answer: bool)
    ensures
        answer == is_marked(error@, kind),
{
    starts_with(error, &characters(marker(kind).as_str()))
}

/// The kind that an error text is marked with.
pub fn mongo_script_error_kind(error: &str) -> (kind: Option<MongoScriptErrorKind>)
    ensures
        kind == kind_of(error@),
{
    let list = characters(error);
    let mut found: Option<MongoScriptErrorKind> = None;
    if marked_with(&list, MongoScriptErrorKind::Cancelled) {
        found = Some(MongoScriptErrorKind::Cancelled);
    } else if marked_with(&list, MongoScriptErrorKind::Host) {
        found = Some(MongoScriptErrorKind::Host);
    } else if marked_with(&list, MongoScriptErrorKind::InvalidRequest) {
        found = Some(MongoScriptErrorKind::InvalidRequest);
    } else if marked_with(&list, MongoScriptErrorKind::ResourceLimit) {
        found = Some(MongoScriptErrorKind::ResourceLimit);
    } else if marked_with(&list, MongoScriptErrorKind::Runtime) {
        found = Some(MongoScriptErrorKind::Runtime);
    } else if marked_with(&list, MongoScriptErrorKind::Serialization) {
        found = Some(MongoScriptErrorKind::Serialization);
    } else if marked_with(&list, MongoScriptErrorKind::Timeout) {
        found = Some(MongoScriptErrorKind::Timeout);
    }
    proof {
        if let Some(kind) = found {
            lemma_kind_is_the_mark(error@, kind);
        } else {
            assert forall|kind: MongoScriptErrorKind| !is_marked(error@, kind) by {
                match kind {
                    MongoScriptErrorKind::Cancelled => {},
                    MongoScriptErrorKind::Host => {},
                    MongoScriptErrorKind::InvalidRequest => {},
                    MongoScriptErrorKind::ResourceLimit => {},
                    MongoScriptErrorKind::Runtime => {},
                    MongoScriptErrorKind::Serialization => {},
                    MongoScriptErrorKind::Timeout => {},
                }
            }
        }
    }
    found
}

/// The error text of `kind` with `message`.
pub fn script_error(kind: MongoScriptErrorKind, message: &str) -> (error: String)
    ensures
        error@ == error_text(kind, message@),
{
    join_three(marker(kind).as_str(), " ", message)
}

/// The error text for an uncaught JavaScript exception.
pub fn script_error_from_js(message: &str) -> (error: String)
    ensures
        error@ == js_error_text(message@),
{
    let list = characters(message);
    if let Some(at) = find(&list, &characters(marker(MongoScriptErrorKind::Host).as_str())) {
        proof {
            lemma_first_is_unique(
                message@,
                marker_text(MongoScriptErrorKind::Host),
                at as int,
            );
        }
        return message.substring_char(at, list.len()).to_owned();
    }
    if let Some(at) = find(
        &list,
        &characters(marker(MongoScriptErrorKind::ResourceLimit).as_str()),
    ) {
        proof {
            lemma_first_is_unique(
                message@,
                marker_text(MongoScriptErrorKind::ResourceLimit),
                at as int,
            );
        }
        return message.substring_char(at, list.len()).to_owned();
    }
    script_error(MongoScriptErrorKind::Runtime, message)
}

proof fn lemma_reveal_codes()
    ensures
        "cancelled"@ == seq!['c', 'a', 'n', 'c', 'e', 'l', 'l', 'e', 'd'],
        "host"@ == seq!['h', 'o', 's', 't'],
        "invalid_request"@ == seq![
            'i',
            'n',
            'v',
            'a',
            'l',
            'i',
            'd',
            '_',
            'r',
            'e',
            'q',
            'u',
            'e',
            's',
            't',
        ],
        "resource_limit"@ == seq![
            'r',
            'e',
            's',
            'o',
            'u',
            'r',
            'c',
            'e',
            '_',
            'l',
            'i',
            'm',
            'i',
            't',
        ],
        "runtime"@ == seq!['r', 'u', 'n', 't', 'i', 'm', 'e'],
        "serialization"@ == seq![
            's',
            'e',
            'r',
            'i',
            'a',
            'l',
            'i',
            'z',
            'a',
            't',
            'i',
            'o',
            'n',
        ],
        "timeout"@ == seq!['t', 'i', 'm', 'e', 'o', 'u', 't'],
        "[mongo_script."@.len() == 14,
        "]"@ == seq![']'],
        " "@ == seq![' '],
{
    reveal_strlit("cancelled");
    reveal_strlit("host");
    reveal_strlit("invalid_request");
    reveal_strlit("resource_limit");
    reveal_strlit("runtime");
    reveal_strlit("serialization");
    reveal_strlit("timeout");
    reveal_strlit("[mongo_script.");
    reveal_strlit("]");
    reveal_strlit(" ");
}

/// No error text is marked with two kinds.
pub proof fn lemma_marks_are_exclusive(
    error: Seq<char>,
    kind: MongoScriptErrorKind,
    other: MongoScriptErrorKind,
)
    requires
        is_marked(error, kind),
        is_marked(error, other),
    ensures
        kind == other,
{
    lemma_reveal_codes();
    let first = marker_text(kind);
    let second = marker_text(other);
    // The codes differ within their first three characters.
    assert(first[14] == error[14] && second[14] == error[14]);
    assert(first[15] == error[15] && second[15] == error[15]);
    assert(first[16] == error[16] && second[16] == error[16]);
    assert(code_text(kind)[0] == first[14] && code_text(other)[0] == second[14]);
    assert(code_text(kind)[1] == first[15] && code_text(other)[1] == second[15]);
    assert(code_text(kind)[2] == first[16] && code_text(other)[2] == second[16]);
}

/// No two kinds share a code.
pub proof fn lemma_codes_are_distinct(kind: MongoScriptErrorKind, other: MongoScriptErrorKind)
    ensures
        code_text(kind) == code_text(other) <==> kind == other,
{
    if code_text(kind) == code_text(other) {
        lemma_marks_are_exclusive(marker_text(kind), kind, other);
    }
}

/// The kind of an error text is exactly the kind that it is marked with.
pub proof fn lemma_kind_is_the_mark(error: Seq<char>, kind: MongoScriptErrorKind)
    ensures
        kind_of(error) == Some(kind) <==> is_marked(error, kind),
{
    if is_marked(error, kind) {
        let chosen = choose|chosen: MongoScriptErrorKind| is_marked(error, chosen);
        lemma_marks_are_exclusive(error, kind, chosen);
    }
}

/// The kind of an error text is the kind that it was made with, whatever its message.
pub proof fn lemma_error_round_trip(kind: MongoScriptErrorKind, message: Seq<char>)
    ensures
        kind_of(error_text(kind, message)) == Some(kind),
{
    let error = error_text(kind, message);
    assert(marker_text(kind).is_prefix_of(error)) by {
        assert(error.subrange(0, marker_text(kind).len() as int) =~= marker_text(kind));
    }
    lemma_kind_is_the_mark(error, kind);
}

/// An uncaught exception is reported as a host error, as a resource limit or as a runtime error.
/// A host mark wins, wherever it stands in the message; behind it comes a resource limit's mark.
pub proof fn lemma_js_error_kind(message: Seq<char>)
    ensures
        kind_of(js_error_text(message)) == Some(
            if contains_text(message, marker_text(MongoScriptErrorKind::Host)) {
                MongoScriptErrorKind::Host
            } else if contains_text(
                message,
                marker_text(MongoScriptErrorKind::ResourceLimit),
            ) {
                MongoScriptErrorKind::ResourceLimit
            } else {
                MongoScriptErrorKind::Runtime
            },
        ),
{
    let host = marker_text(MongoScriptErrorKind::Host);
    let resource = marker_text(MongoScriptErrorKind::ResourceLimit);
    if contains_text(message, host) {
        lemma_from_first_is_marked(message, MongoScriptErrorKind::Host);
    } else if contains_text(message, resource) {
        lemma_from_first_is_marked(message, MongoScriptErrorKind::ResourceLimit);
    } else {
        lemma_error_round_trip(MongoScriptErrorKind::Runtime, message);
    }
}

proof fn lemma_from_first_is_marked(message: Seq<char>, kind: MongoScriptErrorKind)
    requires
        contains_text(message, marker_text(kind)),
    ensures
        kind_of(from_first(message, marker_text(kind))) == Some(kind),
{
    let pattern = marker_text(kind);
    let at = choose|at: int| occurs_at(message, pattern, at);
    let first = lemma_first_exists(message, pattern, at);
    lemma_first_is_unique(message, pattern, first);
    assert(message.skip(first).subrange(0, pattern.len() as int) =~= message.subrange(
        first,
        first + pattern.len(),
    ));
    lemma_kind_is_the_mark(message.skip(first), kind);
}

/// A host error that a script lets pass keeps its text: whatever is put in front of it or behind
/// it on the way, the report starts at a host mark and still holds the error.
pub proof fn lemma_host_errors_survive(before: Seq<char>, failure: Seq<char>, behind: Seq<char>)
    ensures
        ({
            let error = error_text(MongoScriptErrorKind::Host, failure);
            let report = js_error_text(before + error + behind);
            &&& kind_of(report) == Some(MongoScriptErrorKind::Host)
            &&& contains_text(report, error)
        }),
{
    let error = error_text(MongoScriptErrorKind::Host, failure);
    let message = before + error + behind;
    let pattern = marker_text(MongoScriptErrorKind::Host);
    let at = before.len() as int;
    assert(message.subrange(at, at + pattern.len()) =~= pattern);
    assert(occurs_at(message, pattern, at));
    lemma_js_error_kind(message);
    let first = lemma_first_exists(message, pattern, at);
    lemma_first_is_unique(message, pattern, first);
    let report = message.skip(first);
    assert(report.subrange(at - first, at - first + error.len()) =~= error);
    assert(occurs_at(report, error, at - first));
}

/// An error text is of a kind exactly if it starts with the kind's code in brackets; anything may
/// follow.
pub proof fn lemma_kind_is_the_code_in_front(error: Seq<char>, kind: MongoScriptErrorKind)
    ensures
        kind_of(error) == Some(kind) <==> exists|rest: Seq<char>|
            error == #[trigger] ("[mongo_script."@ + code_text(kind) + "]"@ + rest),
{
    lemma_kind_is_the_mark(error, kind);
    let front = "[mongo_script."@ + code_text(kind) + "]"@;
    if is_marked(error, kind) {
        let rest = error.skip(front.len() as int);
        assert(error =~= "[mongo_script."@ + code_text(kind) + "]"@ + rest);
    }
    if exists|rest: Seq<char>|
        error == #[trigger] ("[mongo_script."@ + code_text(kind) + "]"@ + rest) {
        let rest = choose|rest: Seq<char>|
            error == #[trigger] ("[mongo_script."@ + code_text(kind) + "]"@ + rest);
        assert(error.subrange(0, front.len() as int) =~= front);
    }
}

/// An error text is its kind's code in brackets, a space, and the message, untouched.
pub proof fn lemma_error_text_holds_the_message(kind: MongoScriptErrorKind, message: Seq<char>)
    ensures
        error_text(kind, message) == "[mongo_script."@ + code_text(kind) + "] "@ + message,
        error_text(kind, message).len() == code_text(kind).len() + 16 + message.len(),
        error_text(kind, message).skip(code_text(kind).len() as int + 16) == message,
        error_text(kind, message) == error_text(kind, seq![]) + message,
{
    reveal_strlit("[mongo_script.");
    reveal_strlit("]");
    reveal_strlit(" ");
    reveal_strlit("] ");
    let error = error_text(kind, message);
    assert("] "@ =~= "]"@ + " "@);
    assert(error =~= "[mongo_script."@ + code_text(kind) + "] "@ + message);
    assert(error.skip(code_text(kind).len() as int + 16) =~= message);
    assert(error =~= error_text(kind, seq![]) + message);
}

/// An uncaught exception is reported from the first host mark on, whatever stands before it.
pub proof fn lemma_host_mark_starts_the_report(before: Seq<char>, behind: Seq<char>)
    requires
        forall|at: int|
            0 <= at < before.len() ==> !occurs_at(
                before + "[mongo_script.host]"@ + behind,
                "[mongo_script.host]"@,
                at,
            ),
    ensures
        js_error_text(before + "[mongo_script.host]"@ + behind) == "[mongo_script.host]"@ + behind,
{
    reveal_strlit("[mongo_script.");
    reveal_strlit("host");
    reveal_strlit("]");
    reveal_strlit("[mongo_script.host]");
    assert(marker_text(MongoScriptErrorKind::Host) =~= "[mongo_script.host]"@);
    crate::text::lemma_from_first_starts_at_the_pattern(before, "[mongo_script.host]"@, behind);
}

/// Without a host mark, an uncaught exception is reported from the first resource limit mark on.
pub proof fn lemma_limit_mark_starts_the_report(before: Seq<char>, behind: Seq<char>)
    requires
        !contains_text(
            before + "[mongo_script.resource_limit]"@ + behind,
            "[mongo_script.host]"@,
        ),
        forall|at: int|
            0 <= at < before.len() ==> !occurs_at(
                before + "[mongo_script.resource_limit]"@ + behind,
                "[mongo_script.resource_limit]"@,
                at,
            ),
    ensures
        js_error_text(before + "[mongo_script.resource_limit]"@ + behind)
            == "[mongo_script.resource_limit]"@ + behind,
{
    reveal_strlit("[mongo_script.");
    reveal_strlit("host");
    reveal_strlit("resource_limit");
    reveal_strlit("]");
    reveal_strlit("[mongo_script.host]");
    reveal_strlit("[mongo_script.resource_limit]");
    assert(marker_text(MongoScriptErrorKind::Host) =~= "[mongo_script.host]"@);
    assert(marker_text(MongoScriptErrorKind::ResourceLimit) =~= "[mongo_script.resource_limit]"@);
    crate::text::lemma_from_first_starts_at_the_pattern(
        before,
        "[mongo_script.resource_limit]"@,
        behind,
    );
}

/// An uncaught exception without either mark is a runtime error with the whole message.
pub proof fn lemma_unmarked_exceptions_are_runtime_errors(message: Seq<char>)
    requires
        !contains_text(message, "[mongo_script.host]"@),
        !contains_text(message, "[mongo_script.resource_limit]"@),
    ensures
        js_error_text(message) == "[mongo_script.runtime] "@ + message,
{
    reveal_strlit("[mongo_script.");
    reveal_strlit("host");
    reveal_strlit("resource_limit");
    reveal_strlit("runtime");
    reveal_strlit("]");
    reveal_strlit(" ");
    reveal_strlit("[mongo_script.host]");
    reveal_strlit("[mongo_script.resource_limit]");
    reveal_strlit("[mongo_script.runtime] ");
    assert(marker_text(MongoScriptErrorKind::Host) =~= "[mongo_script.host]"@);
    assert(marker_text(MongoScriptErrorKind::ResourceLimit) =~= "[mongo_script.resource_limit]"@);
    assert(js_error_text(message) =~= "[mongo_script.runtime] "@ + message);
}

/// A check's outcome and its verdict say the same: success is success, and the error is the text.
pub proof fn lemma_verdict_is_the_outcome(outcome: Result<(), String>)
    ensures
        outcome is Ok <==> verdict(outcome) is Ok,
        outcome matches Err(error) ==> verdict(outcome) == Err::<(), Seq<char>>(error@),
{
}

/// What every mark reads as.
pub proof fn lemma_marks_read_as_follows(kind: MongoScriptErrorKind)
    ensures
        marker_text(kind) == (match kind {
            MongoScriptErrorKind::Cancelled => "[mongo_script.cancelled]"@,
            MongoScriptErrorKind::Host => "[mongo_script.host]"@,
            MongoScriptErrorKind::InvalidRequest => "[mongo_script.invalid_request]"@,
            MongoScriptErrorKind::ResourceLimit => "[mongo_script.resource_limit]"@,
            MongoScriptErrorKind::Runtime => "[mongo_script.runtime]"@,
            MongoScriptErrorKind::Serialization => "[mongo_script.serialization]"@,
            MongoScriptErrorKind::Timeout => "[mongo_script.timeout]"@,
        }),
{
    reveal_strlit("[mongo_script.");
    reveal_strlit("]");
    match kind {
        MongoScriptErrorKind::Cancelled => {
            reveal_strlit("cancelled");
            reveal_strlit("[mongo_script.cancelled]");
            assert(marker_text(kind) =~= "[mongo_script.cancelled]"@);
        },
        MongoScriptErrorKind::Host => {
            reveal_strlit("host");
            reveal_strlit("[mongo_script.host]");
            assert(marker_text(kind) =~= "[mongo_script.host]"@);
        },
        MongoScriptErrorKind::InvalidRequest => {
            reveal_strlit("invalid_request");
            reveal_strlit("[mongo_script.invalid_request]");
            assert(marker_text(kind) =~= "[mongo_script.invalid_request]"@);
        },
        MongoScriptErrorKind::ResourceLimit => {
            reveal_strlit("resource_limit");
            reveal_strlit("[mongo_script.resource_limit]");
            assert(marker_text(kind) =~= "[mongo_script.resource_limit]"@);
        },
        MongoScriptErrorKind::Runtime => {
            reveal_strlit("runtime");
            reveal_strlit("[mongo_script.runtime]");
            assert(marker_text(kind) =~= "[mongo_script.runtime]"@);
        },
        MongoScriptErrorKind::Serialization => {
            reveal_strlit("serialization");
            reveal_strlit("[mongo_script.serialization]");
            assert(marker_text(kind) =~= "[mongo_script.serialization]"@);
        },
        MongoScriptErrorKind::Timeout => {
            reveal_strlit("timeout");
            reveal_strlit("[mongo_script.timeout]");
            assert(marker_text(kind) =~= "[mongo_script.timeout]"@);
        },
    }
}

/// Whatever `mongo_script_error_kind` and `script_error` return: a text is of a kind exactly if the
/// kind's code stands in brackets in front of it; and the text that is made of a kind and a message
/// is of that kind, and ends with the message.
pub proof fn lemma_kinds_are_written_and_read(
    kind: MongoScriptErrorKind,
    code: &'static str,
    message: &str,
    error: String,
    text: &str,
    found: Option<MongoScriptErrorKind>,
    rest: Seq<char>,
)
    requires
        call_ensures(MongoScriptErrorKind::code, (kind,), code),
        call_ensures(script_error, (kind, message), error),
        call_ensures(mongo_script_error_kind, (text,), found),
    ensures
        error@ == "[mongo_script."@ + code@ + "] "@ + message@,
        text@ == "[mongo_script."@ + code@ + "]"@ + rest ==> found == Some(kind),
        text@ == error@ ==> found == Some(kind),
        found == Some(kind) ==> ("[mongo_script."@ + code@ + "]"@).is_prefix_of(text@),
{
    lemma_error_text_holds_the_message(kind, message@);
    lemma_kind_is_the_code_in_front(text@, kind);
    lemma_kind_is_the_mark(text@, kind);
    lemma_error_round_trip(kind, message@);
    if text@ == "[mongo_script."@ + code@ + "]"@ + rest {
        assert(text@ == "[mongo_script."@ + code_text(kind) + "]"@ + rest);
    }
}

/// Whatever `script_error_from_js` returns: a message with the host mark is reported from its first
/// one on; a message with neither mark is reported whole, as a runtime error.
pub proof fn lemma_exceptions_are_reported_from_their_mark(
    message: &str,
    error: String,
    before: Seq<char>,
    behind: Seq<char>,
)
    requires
        call_ensures(script_error_from_js, (message,), error),
    ensures
        message@ == before + "[mongo_script.host]"@ + behind && (forall|at: int|
            0 <= at < before.len() ==> !occurs_at(message@, "[mongo_script.host]"@, at))
            ==> error@ == "[mongo_script.host]"@ + behind,
        !contains_text(message@, "[mongo_script.host]"@) && message@ == before
            + "[mongo_script.resource_limit]"@ + behind && (forall|at: int|
            0 <= at < before.len() ==> !occurs_at(message@, "[mongo_script.resource_limit]"@, at))
            ==> error@ == "[mongo_script.resource_limit]"@ + behind,
        !contains_text(message@, "[mongo_script.host]"@) && !contains_text(
            message@,
            "[mongo_script.resource_limit]"@,
        ) ==> error@ == "[mongo_script.runtime] "@ + message@,
{
    if message@ == before + "[mongo_script.host]"@ + behind && (forall|at: int|
        0 <= at < before.len() ==> !occurs_at(message@, "[mongo_script.host]"@, at)) {
        lemma_host_mark_starts_the_report(before, behind);
    }
    if !contains_text(message@, "[mongo_script.host]"@) {
        if !contains_text(message@, "[mongo_script.resource_limit]"@) {
            lemma_unmarked_exceptions_are_runtime_errors(message@);
        } else if message@ == before + "[mongo_script.resource_limit]"@ + behind && (forall|
            at: int,
        |
            0 <= at < before.len() ==> !occurs_at(
                message@,
                "[mongo_script.resource_limit]"@,
                at,
            )) {
            lemma_limit_mark_starts_the_report(before, behind);
        }
        if message@ == before + "[mongo_script.resource_limit]"@ + behind {
            crate::text::lemma_from_first_starts_at_the_pattern(
                before,
                "[mongo_script.resource_limit]"@,
                behind,
            );
        }
    }
}

} // verus!
