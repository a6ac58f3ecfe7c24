use std::time::Duration;

use mongo_script::text::blank;
use mongo_script::{
    mongo_script_error_kind, run_timeout, validate_request, Coordinator, MongoScriptErrorKind,
    MongoScriptLimits, MongoScriptRequest,
};

fn request() -> MongoScriptRequest {
    MongoScriptRequest {
        connection_id: "test-connection".to_string(),
        database: "initial_database".to_string(),
        source: "1".to_string(),
        execution_id: Some("test-execution".to_string()),
        max_rows: 100,
        timeout_secs: None,
    }
}

fn refused(request: &MongoScriptRequest, limits: &MongoScriptLimits, message: &str) {
    let error = validate_request(request, limits).unwrap_err();
    assert_eq!(error, format!("[mongo_script.invalid_request] {message}"));
    assert_eq!(mongo_script_error_kind(&error), Some(MongoScriptErrorKind::InvalidRequest));
}

#[test]
fn default_limits_are_valid() {
    let limits = MongoScriptLimits::default();
    assert_eq!(limits.memory_limit_bytes, 64 * 1024 * 1024);
    assert_eq!(limits.stack_limit_bytes, 512 * 1024);
    assert_eq!(limits.max_operations, 10_000);
    assert_eq!(limits.max_output_items, 1_000);
    assert_eq!(limits.max_output_bytes, 1024 * 1024);
    assert_eq!(limits.max_value_depth, 64);
    assert_eq!(limits.max_value_nodes, 100_000);
    assert_eq!(limits.max_value_bytes, 4 * 1024 * 1024);
    assert_eq!(limits.safety_timeout, Duration::from_secs(30));
    assert!(limits.validate().is_ok());
    assert!(limits.clone().validate().is_ok());
    assert!(validate_request(&request(), &limits).is_ok());
}

#[test]
fn zero_limits_are_refused_in_order() {
    let zero = |name: &str, limits: MongoScriptLimits| {
        refused(&request(), &limits, &format!("{name} must be greater than zero"));
    };
    let base = MongoScriptLimits::default;
    zero("memory_limit_bytes", MongoScriptLimits { memory_limit_bytes: 0, max_operations: 0, ..base() });
    zero("stack_limit_bytes", MongoScriptLimits { stack_limit_bytes: 0, ..base() });
    zero("max_operations", MongoScriptLimits { max_operations: 0, ..base() });
    zero("max_output_items", MongoScriptLimits { max_output_items: 0, ..base() });
    zero("max_output_bytes", MongoScriptLimits { max_output_bytes: 0, ..base() });
    zero("max_value_depth", MongoScriptLimits { max_value_depth: 0, ..base() });
    zero("max_value_nodes", MongoScriptLimits { max_value_nodes: 0, ..base() });
    zero("max_value_bytes", MongoScriptLimits { max_value_bytes: 0, ..base() });
    zero("safety_timeout", MongoScriptLimits { safety_timeout: Duration::ZERO, ..base() });
    zero(
        "max_value_bytes",
        MongoScriptLimits { max_value_bytes: 0, safety_timeout: Duration::ZERO, ..base() },
    );
    let brief = MongoScriptLimits { safety_timeout: Duration::from_nanos(1), ..base() };
    assert!(brief.validate().is_ok());
}

#[test]
fn blank_fields_are_refused_in_order() {
    let limits = MongoScriptLimits::default();
    let mut invalid = request();
    invalid.connection_id.clear();
    refused(&invalid, &limits, "connection_id must not be empty");
    invalid.database = " \t".to_string();
    refused(&invalid, &limits, "connection_id must not be empty");
    invalid.connection_id = "x".to_string();
    refused(&invalid, &limits, "database must not be empty");
    invalid.database = "d".to_string();
    invalid.source = "\u{3000}\n".to_string();
    refused(&invalid, &limits, "source must not be empty");
    invalid.source = " x ".to_string();
    invalid.max_rows = 0;
    refused(&invalid, &limits, "max_rows must be greater than zero");
    invalid.max_rows = 1;
    assert!(validate_request(&invalid, &limits).is_ok());
    invalid.connection_id.clear();
    let zero = MongoScriptLimits { max_operations: 0, ..MongoScriptLimits::default() };
    refused(&invalid, &zero, "max_operations must be greater than zero");
}

#[test]
fn white_space_is_what_the_standard_library_trims() {
    for code in 0..=0x10ffff_u32 {
        if let Some(c) = char::from_u32(code) {
            let text = c.to_string();
            assert_eq!(blank(&text), text.trim().is_empty(), "{code:x}");
        }
    }
    assert!(blank(""));
    assert!(blank(" \u{a0}\r\n"));
    assert!(!blank("  a "));
}

#[test]
fn timeouts_never_pass_the_safety_timeout() {
    let limits = MongoScriptLimits::default();
    let mut asked = request();
    assert_eq!(run_timeout(&asked, &limits), Duration::from_secs(30));
    asked.timeout_secs = Some(0);
    assert_eq!(run_timeout(&asked, &limits), Duration::from_secs(30));
    asked.timeout_secs = Some(5);
    assert_eq!(run_timeout(&asked, &limits), Duration::from_secs(5));
    asked.timeout_secs = Some(30);
    assert_eq!(run_timeout(&asked, &limits), Duration::from_secs(30));
    asked.timeout_secs = Some(u64::MAX);
    assert_eq!(run_timeout(&asked, &limits), Duration::from_secs(30));
    let brief = MongoScriptLimits { safety_timeout: Duration::from_millis(40), ..limits };
    asked.timeout_secs = Some(1);
    assert_eq!(run_timeout(&asked, &brief), Duration::from_millis(40));
}

#[test]
fn a_run_begins_with_the_database_of_its_request() {
    let limits = MongoScriptLimits::default();
    let mut asked = request();
    asked.timeout_secs = Some(7);
    let run = Coordinator::begin(&asked, &limits).unwrap();
    assert_eq!(run.current_database, "initial_database");
    assert_eq!(run.timeout, Duration::from_secs(7));
    assert!(run.requests_open);
    asked.source.clear();
    assert_eq!(
        Coordinator::begin(&asked, &limits).unwrap_err(),
        "[mongo_script.invalid_request] source must not be empty"
    );
}
