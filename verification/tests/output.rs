use mongo_script::{
    print_output, print_without_output, ExceptionClass, MongoScriptLimits, MongoScriptOutput,
    OutputState,
};
use serde_json::Value;

fn text(text: &str) -> MongoScriptOutput {
    MongoScriptOutput::Text(text.to_string())
}

fn json(encoded: &str) -> MongoScriptOutput {
    MongoScriptOutput::Json(serde_json::from_str::<Value>(encoded).unwrap())
}

#[test]
fn output_is_left_out_without_an_error() {
    let limits = MongoScriptLimits {
        max_output_items: 2,
        max_output_bytes: 128,
        max_value_bytes: 32,
        ..MongoScriptLimits::default()
    };
    let mut output = OutputState::default();
    let first = json(r#"{ "index": 1, "tags": ["mongo", "quickjs"] }"#);
    output.capture(first.clone(), &limits).unwrap();
    assert!(!output.truncated);
    output.capture(text("second"), &limits).unwrap();
    output.capture(text(&"x".repeat(256)), &limits).unwrap();
    assert_eq!(output.items, vec![first, text("second")]);
    assert!(output.truncated);
}

#[test]
fn output_counts_the_bytes_of_its_encoding() {
    // {"kind":"text","value":"abc"}
    let limits = MongoScriptLimits { max_output_bytes: 60, ..MongoScriptLimits::default() };
    let mut output = OutputState::default();
    output.capture(text("abc"), &limits).unwrap();
    assert_eq!(output.bytes, 29);
    output.capture(text("abcdef"), &limits).unwrap();
    assert_eq!((output.bytes, output.items.len(), output.truncated), (29, 1, true));
    output.capture(text("abcde"), &limits).unwrap();
    assert_eq!((output.bytes, output.items.len(), output.truncated), (60, 2, true));
    output.capture(text(""), &limits).unwrap();
    assert_eq!((output.bytes, output.items.len(), output.truncated), (60, 2, true));
}

#[test]
fn output_of_a_forbidden_shape_is_refused() {
    let limits = MongoScriptLimits { max_value_depth: 2, ..MongoScriptLimits::default() };
    let mut output = OutputState::default();
    assert_eq!(
        output.capture(json("[1]"), &limits).unwrap_err(),
        "[mongo_script.resource_limit] MongoDB script value depth limit of 2 exceeded"
    );
    assert!(output.items.is_empty() && output.bytes == 0 && !output.truncated);
    output.capture(json("[]"), &limits).unwrap();
    assert_eq!(output.items, vec![json("[]")]);
}

#[test]
fn output_that_cannot_be_encoded_is_refused() {
    let limits = MongoScriptLimits::default();
    let mut output = OutputState::default();
    assert_eq!(
        output.keep_encoded(text("x"), Err("key must be a string".to_string()), &limits).unwrap_err(),
        "[mongo_script.serialization] key must be a string"
    );
    assert!(output.items.is_empty());
    output.keep_encoded(text("x"), Ok(vec![0; 5]), &limits).unwrap();
    assert_eq!(output.bytes, 5);
    let unlimited = MongoScriptLimits { max_output_bytes: usize::MAX, ..limits };
    output.keep(text("y"), usize::MAX - 5, &unlimited);
    assert_eq!((output.bytes, output.truncated), (usize::MAX, false));
    output.keep(text("z"), 1, &unlimited);
    assert_eq!((output.bytes, output.items.len(), output.truncated), (usize::MAX, 2, true));
}

#[test]
fn printing_throws_what_was_refused() {
    let limits = MongoScriptLimits { max_value_nodes: 2, ..MongoScriptLimits::default() };
    let mut output = OutputState::default();
    let range = print_output(Ok(text("x")), &mut output, &limits).unwrap_err();
    assert_eq!(range.class, ExceptionClass::Range);
    assert_eq!(
        range.message,
        "[mongo_script.resource_limit] MongoDB script value node limit of 2 exceeded"
    );
    let invalid = print_output(Err("no kind".to_string()), &mut output, &limits).unwrap_err();
    assert_eq!(invalid.class, ExceptionClass::Type);
    assert_eq!(invalid.message, "Invalid script output: no kind");
    assert!(output.items.is_empty());
    assert!(print_output(Ok(text("x")), &mut output, &MongoScriptLimits::default()).is_ok());
    assert_eq!(output.items, vec![text("x")]);

    let gone = print_without_output(Ok(text("x")));
    assert_eq!(gone.class, ExceptionClass::Internal);
    assert_eq!(gone.message, "MongoDB script output state is unavailable");
    let unread = print_without_output(Err("no kind".to_string()));
    assert_eq!(unread.class, ExceptionClass::Type);
    assert_eq!(unread.message, "Invalid script output: no kind");
}
