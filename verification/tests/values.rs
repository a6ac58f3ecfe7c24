use mongo_script::json::check_encoding;
use mongo_script::shape::{check_node, check_shape, JsonShape};
use mongo_script::{
    finish_host_call, mongo_script_error_kind, validate_json_shape, validate_json_value,
    HostAnswer, MongoScriptErrorKind, MongoScriptLimits, MongoScriptOperation, MongoScriptOutput,
};
use serde_json::Value;

fn value(text: &str) -> Value {
    serde_json::from_str(text).unwrap()
}

fn text_of(value: &Value) -> String {
    finish_host_call(HostAnswer::Replied(Ok(value.clone()))).unwrap()
}

fn limits(depth: usize, nodes: usize, bytes: usize) -> MongoScriptLimits {
    MongoScriptLimits {
        max_value_depth: depth,
        max_value_nodes: nodes,
        max_value_bytes: bytes,
        ..MongoScriptLimits::default()
    }
}

const DEPTH_OF_THREE: &str =
    "[mongo_script.resource_limit] MongoDB script value depth limit of 3 exceeded";

#[test]
fn a_value_may_be_as_deep_as_its_limit() {
    let nested = value(r#"{ "one": { "two": { "three": true } } }"#);
    let error = validate_json_value(&nested, &limits(3, 100, 100)).unwrap_err();
    assert_eq!(error, DEPTH_OF_THREE);
    assert_eq!(mongo_script_error_kind(&error), Some(MongoScriptErrorKind::ResourceLimit));
    assert!(validate_json_value(&nested, &limits(4, 100, 100)).is_ok());
    assert!(validate_json_value(&nested, &limits(usize::MAX, 100, 100)).is_ok());
    assert!(validate_json_shape(&value("[]"), &limits(1, 1, 1)).is_ok());
    assert!(validate_json_shape(&value("null"), &limits(1, 1, 1)).is_ok());
    assert!(validate_json_shape(&value("[null]"), &limits(1, 2, 1)).is_err());
}

#[test]
fn a_value_may_have_as_many_nodes_as_its_limit() {
    let list = value(r#"[1, "two", {"three": null}]"#);
    assert_eq!(
        validate_json_shape(&list, &limits(9, 4, 1)).unwrap_err(),
        "[mongo_script.resource_limit] MongoDB script value node limit of 4 exceeded"
    );
    assert!(validate_json_shape(&list, &limits(9, 5, 1)).is_ok());
    assert!(validate_json_shape(&list, &limits(9, usize::MAX, 1)).is_ok());
}

#[test]
fn the_limit_that_is_met_first_is_reported() {
    // The last item is looked at first.
    let deep_last = value("[1, 2, [[[3]]]]");
    assert_eq!(validate_json_shape(&deep_last, &limits(3, 4, 1)).unwrap_err(), DEPTH_OF_THREE);
    let deep_first = value("[[[[3]]], 1, 2]");
    assert_eq!(
        validate_json_shape(&deep_first, &limits(3, 4, 1)).unwrap_err(),
        "[mongo_script.resource_limit] MongoDB script value node limit of 4 exceeded"
    );
    let entries = value(r#"{"b": [[[3]]], "a": 1}"#);
    assert_eq!(validate_json_shape(&entries, &limits(3, 4, 1)).unwrap_err(), DEPTH_OF_THREE);
}

#[test]
fn shapes_are_checked_like_values() {
    let leaf = || JsonShape { children: Vec::new() };
    let pair = JsonShape { children: vec![leaf(), JsonShape { children: vec![leaf()] }] };
    assert!(check_shape(&pair, &limits(3, 4, 1)).is_ok());
    assert!(check_shape(&pair, &limits(2, 4, 1)).unwrap_err().contains("depth limit of 2"));
    assert!(check_shape(&pair, &limits(3, 3, 1)).unwrap_err().contains("node limit of 3"));
    assert!(check_node(2, 2, &limits(2, 2, 1)).is_ok());
    assert!(check_node(3, 3, &limits(2, 2, 1)).unwrap_err().contains("node limit of 2"));
    assert!(check_node(2, 3, &limits(2, 2, 1)).unwrap_err().contains("depth limit of 2"));
}

#[test]
fn long_lists_are_walked_without_recursion() {
    let mut deep = Value::Null;
    for _ in 0..2_000 {
        deep = Value::from(vec![deep]);
    }
    assert!(validate_json_shape(&deep, &limits(2_001, 2_001, 1)).is_ok());
    assert!(validate_json_shape(&deep, &limits(2_000, 2_001, 1)).is_err());
}

#[test]
fn a_value_may_be_as_large_as_its_limit() {
    let text = value(r#""aé\n""#);
    assert_eq!(text_of(&text), "\"aé\\n\"");
    assert!(validate_json_value(&text, &limits(1, 1, 7)).is_ok());
    assert_eq!(
        validate_json_value(&text, &limits(1, 1, 6)).unwrap_err(),
        "[mongo_script.resource_limit] MongoDB script value size limit of 6 bytes exceeded"
    );
    let number = value("12.50");
    assert_eq!(text_of(&number), "12.5");
    let spaced = value(r#"{ "b" : [ 1 , 2 ] , "a" : null }"#);
    assert_eq!(text_of(&spaced), r#"{"a":null,"b":[1,2]}"#);
}

#[test]
fn encodings_are_checked_on_their_own() {
    assert!(check_encoding(Ok(vec![1, 2, 3]), &limits(1, 1, 3)).is_ok());
    assert_eq!(
        check_encoding(Ok(vec![1, 2, 3, 4]), &limits(1, 1, 3)).unwrap_err(),
        "[mongo_script.resource_limit] MongoDB script value size limit of 3 bytes exceeded"
    );
    assert_eq!(
        check_encoding(Err("key must be a string".to_string()), &limits(1, 1, 3)).unwrap_err(),
        "[mongo_script.serialization] key must be a string"
    );
}

#[test]
fn operations_have_a_json_object() {
    let select = MongoScriptOperation::SelectDatabase { database: "analytics".to_string() };
    assert_eq!(select.to_json(), value(r#"{"kind":"selectDatabase","database":"analytics"}"#));
    assert_eq!(select.clone(), select);

    let call = MongoScriptOperation::DatabaseCall {
        database: "alpha".to_string(),
        method: "echo".to_string(),
        args: vec![value("[1, {\"x\": 2}]")],
    };
    assert_eq!(
        call.to_json(),
        value(r#"{"kind":"databaseCall","database":"alpha","method":"echo","args":[[1,{"x":2}]]}"#)
    );
    assert_eq!(call.clone(), call);

    let find = MongoScriptOperation::CollectionCall {
        database: "alpha".to_string(),
        collection: "items".to_string(),
        method: "find".to_string(),
        args: vec![],
    };
    assert_eq!(
        find.to_json(),
        value(
            r#"{"kind":"collectionCall","database":"alpha","collection":"items","method":"find","args":[]}"#
        )
    );
    assert_eq!(find.clone(), find);
    assert_eq!(
        text_of(&find.to_json()),
        r#"{"args":[],"collection":"items","database":"alpha","kind":"collectionCall","method":"find"}"#
    );
}

#[test]
fn output_items_have_a_json_object() {
    let text = MongoScriptOutput::Text("total 12".to_string());
    assert_eq!(text_of(&text.to_json()), r#"{"kind":"text","value":"total 12"}"#);
    assert_eq!(text.clone(), text);
    let json = MongoScriptOutput::Json(value(r#"{"index":1}"#));
    assert_eq!(text_of(&json.to_json()), r#"{"kind":"json","value":{"index":1}}"#);
    assert_eq!(json.clone(), json);
}
