use mongo_script::{
    interrupt_error, mongo_script_error_kind, script_error, script_error_from_js, InterruptReason,
    MongoScriptErrorKind,
};

const KINDS: [(MongoScriptErrorKind, &str); 7] = [
    (MongoScriptErrorKind::Cancelled, "cancelled"),
    (MongoScriptErrorKind::Host, "host"),
    (MongoScriptErrorKind::InvalidRequest, "invalid_request"),
    (MongoScriptErrorKind::ResourceLimit, "resource_limit"),
    (MongoScriptErrorKind::Runtime, "runtime"),
    (MongoScriptErrorKind::Serialization, "serialization"),
    (MongoScriptErrorKind::Timeout, "timeout"),
];

#[test]
fn codes_are_spelled_out() {
    for (kind, code) in KINDS {
        assert_eq!(kind.code(), code);
    }
}

#[test]
fn an_error_carries_its_kind_and_message() {
    assert_eq!(
        script_error(MongoScriptErrorKind::Host, "expected host failure"),
        "[mongo_script.host] expected host failure"
    );
    for (kind, _) in KINDS {
        for message in ["", "plain", "] [mongo_script.host] nested", "日本語"] {
            assert_eq!(mongo_script_error_kind(&script_error(kind, message)), Some(kind));
        }
    }
}

#[test]
fn kinds_are_read_only_from_the_mark() {
    assert_eq!(mongo_script_error_kind("[mongo_script.timeout]"), Some(MongoScriptErrorKind::Timeout));
    assert_eq!(mongo_script_error_kind(""), None);
    assert_eq!(mongo_script_error_kind("expected host failure"), None);
    assert_eq!(mongo_script_error_kind("[mongo_script.host"), None);
    assert_eq!(mongo_script_error_kind("[mongo_script.hosts] x"), None);
    assert_eq!(mongo_script_error_kind("[mongo_script.] x"), None);
    assert_eq!(mongo_script_error_kind("[mongo_script.Host] x"), None);
    assert_eq!(mongo_script_error_kind(" [mongo_script.host] x"), None);
}

#[test]
fn uncaught_exceptions_are_classified() {
    let runtime = script_error_from_js("Error: expected runtime failure");
    assert_eq!(runtime, "[mongo_script.runtime] Error: expected runtime failure");

    let host = script_error_from_js("Error: [mongo_script.host] expected host failure\n    at eval");
    assert_eq!(host, "[mongo_script.host] expected host failure\n    at eval");

    let limit = script_error_from_js("RangeError: [mongo_script.resource_limit] too many");
    assert_eq!(limit, "[mongo_script.resource_limit] too many");

    let both = script_error_from_js("a [mongo_script.resource_limit] b [mongo_script.host] c");
    assert_eq!(both, "[mongo_script.host] c");

    let twice = script_error_from_js("é[mongo_script.host] one [mongo_script.host] two");
    assert_eq!(twice, "[mongo_script.host] one [mongo_script.host] two");

    let other = script_error_from_js("[mongo_script.timeout] not ours");
    assert_eq!(other, "[mongo_script.runtime] [mongo_script.timeout] not ours");
    assert_eq!(script_error_from_js(""), "[mongo_script.runtime] ");
}

#[test]
fn interruptions_are_reported_after_their_reason() {
    assert_eq!(
        interrupt_error(InterruptReason::Cancelled),
        "[mongo_script.cancelled] MongoDB shell execution cancelled"
    );
    assert_eq!(
        interrupt_error(InterruptReason::TimedOut),
        "[mongo_script.timeout] MongoDB shell execution timed out"
    );
    assert_eq!(
        interrupt_error(InterruptReason::Running),
        "[mongo_script.runtime] MongoDB shell execution interrupted"
    );
}
