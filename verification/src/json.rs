//! JSON values as `serde_json` holds and encodes them, and the checks that a value passes before
//! it crosses between script and host.

use vstd::prelude::*;
use vstd::utf8::*;

use crate::error::{error_text, script_error, verdict, MongoScriptErrorKind};
use crate::limits::MongoScriptLimits;
use crate::shape::{check_shape, leaf, shape_verdict, Nested, Shape};
use crate::text::{decimal, decimal_text, join_three};

verus! {

/// `serde_json::Value`, a JSON value.
#[verifier::external_type_specification]
#[verifier::external_body]
pub struct ExValue(serde_json::Value);

/// What a value holds, as far as its shape goes: an array's items in order, an object's values in
/// the order of its entries, each with what it holds in turn.
pub uninterp spec fn value_shape(value: serde_json::Value) -> Shape;

/// The JSON string of `text`.
pub uninterp spec fn json_string(text: Seq<char>) -> serde_json::Value;

/// The JSON array of `items`.
pub uninterp spec fn json_array(items: Seq<serde_json::Value>) -> serde_json::Value;

/// The JSON object of `entries`, as `serde_json` collects it.
pub uninterp spec fn json_object(
    entries: Seq<(Seq<char>, serde_json::Value)>,
) -> serde_json::Value;

/// The compact JSON encoding of `value` as `serde_json::to_vec` gives it, or what its error reads
/// as.
pub uninterp spec fn json_bytes(value: serde_json::Value) -> Result<Seq<u8>, Seq<char>>;

/// `Clone` for `serde_json::Value`: an equal value.
pub assume_specification[ <serde_json::Value as Clone>::clone ](
    value: &serde_json::Value,
) -> (copy: serde_json::Value)
    ensures
        copy == *value,
;

/// The variants of `serde_json::Value` and `serde_json::Map::values`: the items of an array, the
/// values of an object in the order of its entries, nothing for any other value.
#[verifier::external_body]
fn value_children(value: &serde_json::Value) -> (list: Vec<&serde_json::Value>)
    ensures
        list@.len() == value_shape(*value).children.len(),
        forall|i: int|
            0 <= i < list@.len() ==> value_shape(*#[trigger] list@[i]) == value_shape(
                *value,
            ).children[i],
{
    match value {
        serde_json::Value::Array(items) => items.iter().collect(),
        serde_json::Value::Object(entries) => entries.values().collect(),
        serde_json::Value::Null => Vec::new(),
        serde_json::Value::Bool(_) => Vec::new(),
        serde_json::Value::Number(_) => Vec::new(),
        serde_json::Value::String(_) => Vec::new(),
    }
}

/// `From<&str>` for `serde_json::Value`: the JSON string, which has no children.
#[verifier::external_body]
pub(crate) fn string_value(text: &str) -> (value: serde_json::Value)
    ensures
        value == json_string(text@),
        value_shape(value) == leaf(),
{
    serde_json::Value::from(text)
}

/// `From<Vec<Value>>` for `serde_json::Value`: the JSON array, whose children are its items.
#[verifier::external_body]
pub(crate) fn array_value(items: Vec<serde_json::Value>) -> (value: serde_json::Value)
    ensures
        value == json_array(items@),
        value_shape(value) == (Shape {
            children: items@.map_values(|item: serde_json::Value| value_shape(item)),
        }),
{
    serde_json::Value::from(items)
}

/// What encoding a value into bytes gave, with the error as text.
pub open spec fn encoding_of(encoded: Result<Vec<u8>, String>) -> Result<Seq<u8>, Seq<char>> {
    match encoded {
        Ok(bytes) => Ok(bytes@),
        Err(error) => Err(error@),
    }
}

/// What encoding a value into text gave, with the text as bytes and the error as text.
pub open spec fn text_encoding_of(encoded: Result<String, String>) -> Result<Seq<u8>, Seq<char>> {
    match encoded {
        Ok(text) => Ok(encode_utf8(text@)),
        Err(error) => Err(error@),
    }
}

/// The entries of an object with their keys as text.
pub open spec fn entry_texts(entries: Seq<(&str, serde_json::Value)>) -> Seq<
    (Seq<char>, serde_json::Value),
> {
    entries.map_values(|entry: (&str, serde_json::Value)| (entry.0@, entry.1))
}

/// The keys of `entries` are in ascending order, each with a first letter of its own.
pub open spec fn ascending_keys(entries: Seq<(&str, serde_json::Value)>) -> bool {
    &&& forall|i: int| 0 <= i < entries.len() ==> (#[trigger] entries[i]).0@.len() > 0
    &&& forall|i: int, j: int|
        0 <= i < j < entries.len() ==> (#[trigger] entries[i]).0@[0] < (#[trigger] entries[j]).0@[0]
}

/// `FromIterator<(K, V)>` for `serde_json::Value`: the JSON object, whose children are the values
/// in the order of the keys.
#[verifier::external_body]
pub(crate) fn object_value(entries: Vec<(&str, serde_json::Value)>) -> (value: serde_json::Value)
    requires
        ascending_keys(entries@),
    ensures
        value == json_object(entry_texts(entries@)),
        value_shape(value) == (Shape {
            children: entries@.map_values(|entry: (&str, serde_json::Value)| value_shape(entry.1)),
        }),
{
    serde_json::Value::from_iter(entries)
}

/// `serde_json::to_vec` on a value: its compact JSON encoding, or what the error reads as that the
/// encoding of this value gives.
#[verifier::external_body]
pub(crate) fn value_to_vec(value: &serde_json::Value) -> (encoded: Result<Vec<u8>, String>)
    ensures
        encoding_of(encoded) == json_bytes(*value),
{
    match serde_json::to_vec(value) {
        Ok(bytes) => Ok(bytes),
        Err(error) => Err(error.to_string()),
    }
}

/// `serde_json::to_string` on a value: the text whose UTF-8 bytes `serde_json::to_vec` gives, or the
/// error that it gives.
#[verifier::external_body]
pub(crate) fn value_to_string(value: &serde_json::Value) -> (encoded: Result<String, String>)
    ensures
        text_encoding_of(encoded) == json_bytes(*value),
{
    match serde_json::to_string(value) {
        Ok(text) => Ok(text),
        Err(error) => Err(error.to_string()),
    }
}

impl Nested for serde_json::Value {
    open spec fn shape(&self) -> Shape {
        value_shape(*self)
    }

    fn children(&self) -> (list: Vec<&Self>) {
        value_children(self)
    }
}

/// The report of an encoded value of too many bytes.
pub open spec fn size_limit_text(limit: usize) -> Seq<char> {
    error_text(
        MongoScriptErrorKind::ResourceLimit,
        "MongoDB script value size limit of "@ + decimal_text(limit as nat) + " bytes exceeded"@,
    )
}

/// The verdict on the encoding of a value: it must exist and fit into the limit.
pub open spec fn encoding_verdict(
    encoding: Result<Seq<u8>, Seq<char>>,
    limits: MongoScriptLimits,
) -> Result<(), Seq<char>> {
    match encoding {
        Err(error) => Err(error_text(MongoScriptErrorKind::Serialization, error)),
        Ok(bytes) => if bytes.len() > limits.max_value_bytes {
            Err(size_limit_text(limits.max_value_bytes))
        } else {
            Ok(())
        },
    }
}

/// The verdict on a value: first its shape, then its encoding.
pub open spec fn value_verdict(value: serde_json::Value, limits: MongoScriptLimits) -> Result<
    (),
    Seq<char>,
> {
    if shape_verdict(value_shape(value), limits) is Err {
        shape_verdict(value_shape(value), limits)
    } else {
        encoding_verdict(json_bytes(value), limits)
    }
}

/// Checks what encoding a value gave.
pub fn check_encoding(encoded: Result<Vec<u8>, String>, limits: &MongoScriptLimits) -> (outcome:
    Result<(), String>)
    ensures
        verdict(outcome) == encoding_verdict(encoding_of(encoded), *limits),
        outcome is Ok <==> encoded is Ok && encoded->Ok_0@.len() <= limits.max_value_bytes,
{
    match encoded {
        Err(error) => Err(script_error(MongoScriptErrorKind::Serialization, error.as_str())),
        Ok(bytes) => if bytes.len() > limits.max_value_bytes {
            Err(
                script_error(
                    MongoScriptErrorKind::ResourceLimit,
                    join_three(
                        "MongoDB script value size limit of ",
                        decimal(limits.max_value_bytes).as_str(),
                        " bytes exceeded",
                    ).as_str(),
                ),
            )
        } else {
            Ok(())
        },
    }
}

/// Checks that `value` has no more nodes and is nested no deeper than the limits allow.
pub fn validate_json_shape(value: &serde_json::Value, limits: &MongoScriptLimits) -> (outcome:
    Result<(), String>)
    ensures
        verdict(outcome) == shape_verdict(value_shape(*value), *limits),
        outcome is Ok <==> {
            &&& crate::shape::node_count(value_shape(*value)) <= limits.max_value_nodes
                || limits.max_value_nodes == usize::MAX
            &&& crate::shape::height(value_shape(*value)) <= limits.max_value_depth
                || limits.max_value_depth == usize::MAX
        },
{
    proof {
        crate::shape::lemma_shape_within_limits(value_shape(*value), *limits);
    }
    check_shape(value, limits)
}

/// Checks the shape of `value` and the size of its encoding.
pub fn validate_json_value(value: &serde_json::Value, limits: &MongoScriptLimits) -> (outcome:
    Result<(), String>)
    ensures
        verdict(outcome) == value_verdict(*value, *limits),
        outcome is Ok <==> {
            &&& crate::shape::node_count(value_shape(*value)) <= limits.max_value_nodes
                || limits.max_value_nodes == usize::MAX
            &&& crate::shape::height(value_shape(*value)) <= limits.max_value_depth
                || limits.max_value_depth == usize::MAX
            &&& json_bytes(*value) is Ok
            &&& json_bytes(*value)->Ok_0.len() <= limits.max_value_bytes
        },
{
    proof {
        lemma_value_accepted(*value, *limits);
    }
    match validate_json_shape(value, limits) {
        Ok(()) => check_encoding(value_to_vec(value), limits),
        Err(error) => Err(error),
    }
}

/// A value is let through exactly if it fits into every limit on values: it has at most as many
/// nodes and is at most as high as allowed, and it has an encoding of at most as many bytes as
/// allowed. (The largest number of nodes or levels there is limits nothing.)
pub proof fn lemma_value_accepted(value: serde_json::Value, limits: MongoScriptLimits)
    ensures
        value_verdict(value, limits) is Ok <==> {
            &&& crate::shape::node_count(value_shape(value)) <= limits.max_value_nodes
                || limits.max_value_nodes == usize::MAX
            &&& crate::shape::height(value_shape(value)) <= limits.max_value_depth
                || limits.max_value_depth == usize::MAX
            &&& json_bytes(value) is Ok
            &&& json_bytes(value)->Ok_0.len() <= limits.max_value_bytes
        },
{
    crate::shape::lemma_shape_within_limits(value_shape(value), limits);
}

/// A value that passes under some limits passes under limits that are no tighter.
pub proof fn lemma_looser_limits_accept_value(
    value: serde_json::Value,
    limits: MongoScriptLimits,
    looser: MongoScriptLimits,
)
    requires
        value_verdict(value, limits) is Ok,
        limits.max_value_nodes <= looser.max_value_nodes,
        limits.max_value_depth <= looser.max_value_depth,
        limits.max_value_bytes <= looser.max_value_bytes,
    ensures
        value_verdict(value, looser) is Ok,
{
    crate::shape::lemma_looser_limits_accept(value_shape(value), limits, looser);
}

/// A value is refused for a resource limit, or because it cannot be encoded.
pub proof fn lemma_value_refusal_kinds(value: serde_json::Value, limits: MongoScriptLimits)
    ensures
        value_verdict(value, limits) matches Err(error) ==> crate::error::kind_of(error) == Some(
            if shape_verdict(value_shape(value), limits) is Ok && json_bytes(value) is Err {
                MongoScriptErrorKind::Serialization
            } else {
                MongoScriptErrorKind::ResourceLimit
            },
        ),
{
    crate::shape::lemma_shape_refusals_are_resource_limits(value_shape(value), limits);
    crate::error::lemma_error_round_trip(
        MongoScriptErrorKind::ResourceLimit,
        "MongoDB script value size limit of "@ + decimal_text(limits.max_value_bytes as nat)
            + " bytes exceeded"@,
    );
    if let Err(error) = json_bytes(value) {
        crate::error::lemma_error_round_trip(MongoScriptErrorKind::Serialization, error);
    }
}

/// A value whose shape passes is refused with the error of its encoding, if it has no encoding,
/// and otherwise for its size; a value whose shape does not pass is refused as its shape is.
pub proof fn lemma_value_refusals(value: serde_json::Value, limits: MongoScriptLimits)
    ensures
        shape_verdict(value_shape(value), limits) is Err ==> value_verdict(value, limits)
            == shape_verdict(value_shape(value), limits),
        shape_verdict(value_shape(value), limits) is Ok && json_bytes(value) is Err
            ==> value_verdict(value, limits) == Err::<(), Seq<char>>(
            "[mongo_script.serialization] "@ + json_bytes(value)->Err_0,
        ),
        shape_verdict(value_shape(value), limits) is Ok && json_bytes(value) is Ok && json_bytes(
            value,
        )->Ok_0.len() > limits.max_value_bytes ==> value_verdict(value, limits) == Err::<
            (),
            Seq<char>,
        >(
            "[mongo_script.resource_limit] MongoDB script value size limit of "@ + decimal_text(
                limits.max_value_bytes as nat,
            ) + " bytes exceeded"@,
        ),
{
    if let Err(error) = json_bytes(value) {
        lemma_serialization_text(error);
    }
    lemma_size_limit_text(limits.max_value_bytes);
}

/// What the error of a value reads as that cannot be encoded.
pub proof fn lemma_serialization_text(message: Seq<char>)
    ensures
        error_text(MongoScriptErrorKind::Serialization, message)
            == "[mongo_script.serialization] "@ + message,
{
    reveal_strlit("[mongo_script.");
    reveal_strlit("serialization");
    reveal_strlit("]");
    reveal_strlit(" ");
    reveal_strlit("[mongo_script.serialization] ");
    assert(error_text(MongoScriptErrorKind::Serialization, message)
        =~= "[mongo_script.serialization] "@ + message);
}

proof fn lemma_size_limit_text(limit: usize)
    ensures
        size_limit_text(limit)
            == "[mongo_script.resource_limit] MongoDB script value size limit of "@ + decimal_text(
            limit as nat,
        ) + " bytes exceeded"@,
{
    reveal_strlit("[mongo_script.");
    reveal_strlit("resource_limit");
    reveal_strlit("]");
    reveal_strlit(" ");
    reveal_strlit("MongoDB script value size limit of ");
    reveal_strlit("[mongo_script.resource_limit] MongoDB script value size limit of ");
    assert(size_limit_text(limit)
        =~= "[mongo_script.resource_limit] MongoDB script value size limit of "@ + decimal_text(
        limit as nat,
    ) + " bytes exceeded"@);
}

/// What an encoding gave is what it is taken for: the bytes, the bytes of the text, or the error.
pub proof fn lemma_encodings_are_taken_as_they_are(
    encoded: Result<Vec<u8>, String>,
    text: Result<String, String>,
)
    ensures
        encoded matches Ok(bytes) ==> encoding_of(encoded) == Ok::<Seq<u8>, Seq<char>>(bytes@),
        encoded matches Err(error) ==> encoding_of(encoded) == Err::<Seq<u8>, Seq<char>>(error@),
        text matches Ok(chars) ==> text_encoding_of(text) == Ok::<Seq<u8>, Seq<char>>(
            encode_utf8(chars@),
        ),
        text matches Err(error) ==> text_encoding_of(text) == Err::<Seq<u8>, Seq<char>>(error@),
{
}

/// Whatever `check_encoding` returns: an encoding passes exactly if there is one and it has at most
/// as many bytes as allowed; otherwise the encoding's error is reported, or the number of bytes
/// that are allowed.
pub proof fn lemma_encodings_within_the_limit_pass(
    encoded: Result<Vec<u8>, String>,
    limits: MongoScriptLimits,
    outcome: Result<(), String>,
)
    requires
        call_ensures(check_encoding, (encoded, &limits), outcome),
    ensures
        outcome is Ok <==> encoded is Ok && encoded->Ok_0@.len() <= limits.max_value_bytes,
        encoded matches Err(error) ==> outcome->Err_0@ == "[mongo_script.serialization] "@
            + error@,
        encoded is Ok && outcome is Err ==> outcome->Err_0@
            == "[mongo_script.resource_limit] MongoDB script value size limit of "@ + decimal_text(
            limits.max_value_bytes as nat,
        ) + " bytes exceeded"@,
{
    if let Err(error) = encoded {
        lemma_serialization_text(error@);
    }
    lemma_size_limit_text(limits.max_value_bytes);
}

/// Whatever `validate_json_shape` and `validate_json_value` return: the first accepts a value
/// exactly if its nodes and its height are allowed, the second if it also has an encoding of at
/// most as many bytes as allowed.
pub proof fn lemma_values_within_limits_pass(
    value: serde_json::Value,
    limits: MongoScriptLimits,
    shape_outcome: Result<(), String>,
    outcome: Result<(), String>,
)
    requires
        call_ensures(validate_json_shape, (&value, &limits), shape_outcome),
        call_ensures(validate_json_value, (&value, &limits), outcome),
    ensures
        shape_outcome is Ok <==> {
            &&& crate::shape::node_count(value_shape(value)) <= limits.max_value_nodes
                || limits.max_value_nodes == usize::MAX
            &&& crate::shape::height(value_shape(value)) <= limits.max_value_depth
                || limits.max_value_depth == usize::MAX
        },
        outcome is Ok <==> {
            &&& shape_outcome is Ok
            &&& json_bytes(value) is Ok
            &&& json_bytes(value)->Ok_0.len() <= limits.max_value_bytes
        },
        shape_outcome is Err ==> outcome is Err && outcome->Err_0@ == shape_outcome->Err_0@,
        shape_outcome is Ok && json_bytes(value) is Err ==> outcome->Err_0@
            == "[mongo_script.serialization] "@ + json_bytes(value)->Err_0,
        shape_outcome is Ok && json_bytes(value) is Ok && outcome is Err ==> outcome->Err_0@
            == "[mongo_script.resource_limit] MongoDB script value size limit of "@ + decimal_text(
            limits.max_value_bytes as nat,
        ) + " bytes exceeded"@,
{
    lemma_value_accepted(value, limits);
    lemma_value_refusals(value, limits);
}

} // verus!
