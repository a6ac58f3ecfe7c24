//! The operations that a script asks its host for.

use vstd::prelude::*;

use crate::json::{
    array_value, encoding_verdict, entry_texts, json_array, json_bytes, json_object, json_string,
    object_value, string_value, value_shape,
};
use crate::limits::MongoScriptLimits;
use crate::shape::{
    height, leaf, lemma_height_is_the_longest_way, lemma_nodes_add_up, node_count, shape_verdict,
    Shape,
};

verus! {

/// One operation that a script asks its host for.
#[derive(Debug, PartialEq)]
pub enum MongoScriptOperation {
    SelectDatabase { database: String },
    DatabaseCall { database: String, method: String, args: Vec<serde_json::Value> },
    CollectionCall {
        database: String,
        collection: String,
        method: String,
        args: Vec<serde_json::Value>,
    },
}

/// The JSON object that stands for `operation`: its kind and its fields under their names.
pub open spec fn operation_json(operation: MongoScriptOperation) -> serde_json::Value {
    match operation {
        MongoScriptOperation::SelectDatabase { database } => json_object(
            seq![
                ("database"@, json_string(database@)),
                ("kind"@, json_string("selectDatabase"@)),
            ],
        ),
        MongoScriptOperation::DatabaseCall { database, method, args } => json_object(
            seq![
                ("args"@, json_array(args@)),
                ("database"@, json_string(database@)),
                ("kind"@, json_string("databaseCall"@)),
                ("method"@, json_string(method@)),
            ],
        ),
        MongoScriptOperation::CollectionCall { database, collection, method, args } => json_object(
            seq![
                ("args"@, json_array(args@)),
                ("collection"@, json_string(collection@)),
                ("database"@, json_string(database@)),
                ("kind"@, json_string("collectionCall"@)),
                ("method"@, json_string(method@)),
            ],
        ),
    }
}

/// Two operations of one variant with equal fields.
pub open spec fn same_operation(left: MongoScriptOperation, right: MongoScriptOperation) -> bool {
    match (left, right) {
        (
            MongoScriptOperation::SelectDatabase { database },
            MongoScriptOperation::SelectDatabase { database: other_database },
        ) => database@ == other_database@,
        (
            MongoScriptOperation::DatabaseCall { database, method, args },
            MongoScriptOperation::DatabaseCall {
                database: other_database,
                method: other_method,
                args: other_args,
            },
        ) => database@ == other_database@ && method@ == other_method@ && args@ == other_args@,
        (
            MongoScriptOperation::CollectionCall { database, collection, method, args },
            MongoScriptOperation::CollectionCall {
                database: other_database,
                collection: other_collection,
                method: other_method,
                args: other_args,
            },
        ) => {
            &&& database@ == other_database@
            &&& collection@ == other_collection@
            &&& method@ == other_method@
            &&& args@ == other_args@
        },
        _ => false,
    }
}

/// The shape of a JSON array of `items`.
pub open spec fn array_shape(items: Seq<serde_json::Value>) -> Shape {
    Shape { children: items.map_values(|item: serde_json::Value| value_shape(item)) }
}

/// The shape of the JSON object that stands for `operation`.
pub open spec fn operation_shape(operation: MongoScriptOperation) -> Shape {
    match operation {
        MongoScriptOperation::SelectDatabase { .. } => Shape { children: seq![leaf(), leaf()] },
        MongoScriptOperation::DatabaseCall { args, .. } => Shape {
            children: seq![array_shape(args@), leaf(), leaf(), leaf()],
        },
        MongoScriptOperation::CollectionCall { args, .. } => Shape {
            children: seq![array_shape(args@), leaf(), leaf(), leaf(), leaf()],
        },
    }
}

/// The verdict on an operation, which is checked like any other value: first the shape of its JSON
/// object, then the encoding.
pub open spec fn operation_verdict(
    operation: MongoScriptOperation,
    limits: MongoScriptLimits,
) -> Result<(), Seq<char>> {
    if shape_verdict(operation_shape(operation), limits) is Err {
        shape_verdict(operation_shape(operation), limits)
    } else {
        encoding_verdict(json_bytes(operation_json(operation)), limits)
    }
}

proof fn lemma_key_letters()
    ensures
        "args"@.len() > 0 && "args"@[0] == 'a',
        "collection"@.len() > 0 && "collection"@[0] == 'c',
        "database"@.len() > 0 && "database"@[0] == 'd',
        "kind"@.len() > 0 && "kind"@[0] == 'k',
        "method"@.len() > 0 && "method"@[0] == 'm',
{
    reveal_strlit("args");
    reveal_strlit("collection");
    reveal_strlit("database");
    reveal_strlit("kind");
    reveal_strlit("method");
}

/// A copy of a list of values.
fn copy_values(values: &Vec<serde_json::Value>) -> (copy: Vec<serde_json::Value>)
    ensures
        copy@ == values@,
{
    let mut copy: Vec<serde_json::Value> = Vec::new();
    let mut i: usize = 0;
    while i < values.len()
        invariant
            i <= values.len(),
            copy@ == values@.take(i as int),
        decreases values.len() - i,
    {
        assert(values@.take(i as int + 1) =~= values@.take(i as int).push(values@[i as int]));
        copy.push(values[i].clone());
        i += 1;
    }
    assert(values@.take(i as int) =~= values@);
    copy
}

impl MongoScriptOperation {
    /// The JSON object that stands for this operation.
    pub fn to_json(&self) -> (value: serde_json::Value)
        ensures
            value == operation_json(*self),
            value_shape(value) == operation_shape(*self),
    {
        proof {
            lemma_key_letters();
        }
        let mut entries: Vec<(&str, serde_json::Value)> = Vec::new();
        match self {
            Self::SelectDatabase { database } => {
                entries.push(("database", string_value(database.as_str())));
                entries.push(("kind", string_value("selectDatabase")));
            },
            Self::DatabaseCall { database, method, args } => {
                entries.push(("args", array_value(copy_values(args))));
                entries.push(("database", string_value(database.as_str())));
                entries.push(("kind", string_value("databaseCall")));
                entries.push(("method", string_value(method.as_str())));
            },
            Self::CollectionCall { database, collection, method, args } => {
                entries.push(("args", array_value(copy_values(args))));
                entries.push(("collection", string_value(collection.as_str())));
                entries.push(("database", string_value(database.as_str())));
                entries.push(("kind", string_value("collectionCall")));
                entries.push(("method", string_value(method.as_str())));
            },
        }
        let ghost texts = entry_texts(entries@);
        let ghost shapes = entries@.map_values(
            |entry: (&str, serde_json::Value)| value_shape(entry.1),
        );
        let value = object_value(entries);
        proof {
            match self {
                MongoScriptOperation::SelectDatabase { database } => {
                    assert(texts =~= seq![
                        ("database"@, json_string(database@)),
                        ("kind"@, json_string("selectDatabase"@)),
                    ]);
                },
                MongoScriptOperation::DatabaseCall { database, method, args } => {
                    assert(texts =~= seq![
                        ("args"@, json_array(args@)),
                        ("database"@, json_string(database@)),
                        ("kind"@, json_string("databaseCall"@)),
                        ("method"@, json_string(method@)),
                    ]);
                },
                MongoScriptOperation::CollectionCall { database, collection, method, args } => {
                    assert(texts =~= seq![
                        ("args"@, json_array(args@)),
                        ("collection"@, json_string(collection@)),
                        ("database"@, json_string(database@)),
                        ("kind"@, json_string("collectionCall"@)),
                        ("method"@, json_string(method@)),
                    ]);
                },
            }
            assert(shapes =~= operation_shape(*self).children);
        }
        value
    }
}

impl Clone for MongoScriptOperation {
    fn clone(&self) -> (copy: Self)
        ensures
            same_operation(copy, *self),
    {
        match self {
            Self::SelectDatabase { database } => Self::SelectDatabase { database: database.clone() },
            Self::DatabaseCall { database, method, args } => Self::DatabaseCall {
                database: database.clone(),
                method: method.clone(),
                args: copy_values(args),
            },
            Self::CollectionCall { database, collection, method, args } => Self::CollectionCall {
                database: database.clone(),
                collection: collection.clone(),
                method: method.clone(),
                args: copy_values(args),
            },
        }
    }
}

/// The JSON object of an operation holds its kind and every one of its fields under the field's
/// name, each as it is, and nothing else.
pub proof fn lemma_operation_json_holds_every_field(
    operation: MongoScriptOperation,
) -> (entries: Seq<(Seq<char>, serde_json::Value)>)
    ensures
        operation_json(operation) == json_object(entries),
        operation matches MongoScriptOperation::SelectDatabase { database } ==> {
            &&& entries.len() == 2
            &&& entries.contains(("kind"@, json_string("selectDatabase"@)))
            &&& entries.contains(("database"@, json_string(database@)))
        },
        operation matches MongoScriptOperation::DatabaseCall { database, method, args } ==> {
            &&& entries.len() == 4
            &&& entries.contains(("kind"@, json_string("databaseCall"@)))
            &&& entries.contains(("database"@, json_string(database@)))
            &&& entries.contains(("method"@, json_string(method@)))
            &&& entries.contains(("args"@, json_array(args@)))
        },
        operation matches MongoScriptOperation::CollectionCall {
            database,
            collection,
            method,
            args,
        } ==> {
            &&& entries.len() == 5
            &&& entries.contains(("kind"@, json_string("collectionCall"@)))
            &&& entries.contains(("database"@, json_string(database@)))
            &&& entries.contains(("collection"@, json_string(collection@)))
            &&& entries.contains(("method"@, json_string(method@)))
            &&& entries.contains(("args"@, json_array(args@)))
        },
{
    match operation {
        MongoScriptOperation::SelectDatabase { database } => {
            let entries = seq![
                ("database"@, json_string(database@)),
                ("kind"@, json_string("selectDatabase"@)),
            ];
            assert(entries[0] == ("database"@, json_string(database@)));
            assert(entries[1] == ("kind"@, json_string("selectDatabase"@)));
            entries
        },
        MongoScriptOperation::DatabaseCall { database, method, args } => {
            let entries = seq![
                ("args"@, json_array(args@)),
                ("database"@, json_string(database@)),
                ("kind"@, json_string("databaseCall"@)),
                ("method"@, json_string(method@)),
            ];
            assert(entries[0] == ("args"@, json_array(args@)));
            assert(entries[1] == ("database"@, json_string(database@)));
            assert(entries[2] == ("kind"@, json_string("databaseCall"@)));
            assert(entries[3] == ("method"@, json_string(method@)));
            entries
        },
        MongoScriptOperation::CollectionCall { database, collection, method, args } => {
            let entries = seq![
                ("args"@, json_array(args@)),
                ("collection"@, json_string(collection@)),
                ("database"@, json_string(database@)),
                ("kind"@, json_string("collectionCall"@)),
                ("method"@, json_string(method@)),
            ];
            assert(entries[0] == ("args"@, json_array(args@)));
            assert(entries[1] == ("collection"@, json_string(collection@)));
            assert(entries[2] == ("database"@, json_string(database@)));
            assert(entries[3] == ("kind"@, json_string("collectionCall"@)));
            assert(entries[4] == ("method"@, json_string(method@)));
            entries
        },
    }
}

/// The JSON object of an operation has a node for itself, one for each of its strings, and for a
/// call those of the array of its arguments; it is two levels high, or one higher than that array.
pub proof fn lemma_operation_nodes_and_height(operation: MongoScriptOperation)
    ensures
        operation is SelectDatabase ==> {
            &&& node_count(operation_shape(operation)) == 3
            &&& height(operation_shape(operation)) == 2
        },
        operation matches MongoScriptOperation::DatabaseCall { args, .. } ==> {
            &&& node_count(operation_shape(operation)) == 4 + node_count(array_shape(args@))
            &&& height(operation_shape(operation)) == 1 + height(array_shape(args@))
        },
        operation matches MongoScriptOperation::CollectionCall { args, .. } ==> {
            &&& node_count(operation_shape(operation)) == 5 + node_count(array_shape(args@))
            &&& height(operation_shape(operation)) == 1 + height(array_shape(args@))
        },
{
    let shape = operation_shape(operation);
    let leaves = leaf();
    lemma_nodes_add_up(seq![], leaves);
    lemma_height_is_the_longest_way(seq![], leaves);
    let first = shape.children[0];
    let c0: Seq<Shape> = seq![];
    let c1 = c0.push(first);
    let c2 = c1.push(leaves);
    let c3 = c2.push(leaves);
    let c4 = c3.push(leaves);
    let c5 = c4.push(leaves);
    lemma_nodes_add_up(c0, first);
    lemma_nodes_add_up(c1, leaves);
    lemma_nodes_add_up(c2, leaves);
    lemma_nodes_add_up(c3, leaves);
    lemma_nodes_add_up(c4, leaves);
    lemma_height_is_the_longest_way(c0, first);
    lemma_height_is_the_longest_way(c1, leaves);
    lemma_height_is_the_longest_way(c2, leaves);
    lemma_height_is_the_longest_way(c3, leaves);
    lemma_height_is_the_longest_way(c4, leaves);
    assert(Shape { children: c0 } == leaves);
    assert(height(first) >= 1);
    match operation {
        MongoScriptOperation::SelectDatabase { .. } => {
            assert(shape.children =~= c2);
        },
        MongoScriptOperation::DatabaseCall { .. } => {
            assert(shape.children =~= c4);
        },
        MongoScriptOperation::CollectionCall { .. } => {
            assert(shape.children =~= c5);
        },
    }
}

/// An operation is checked like any other value: its verdict is that of its JSON object.
pub proof fn lemma_operation_is_checked_like_a_value(
    operation: MongoScriptOperation,
    limits: MongoScriptLimits,
)
    requires
        value_shape(operation_json(operation)) == operation_shape(operation),
    ensures
        operation_verdict(operation, limits) == crate::json::value_verdict(
            operation_json(operation),
            limits,
        ),
{
}

/// An operation passes exactly if its JSON object fits into every limit on values.
pub proof fn lemma_operation_accepted(operation: MongoScriptOperation, limits: MongoScriptLimits)
    ensures
        operation_verdict(operation, limits) is Ok <==> {
            &&& node_count(operation_shape(operation)) <= limits.max_value_nodes
                || limits.max_value_nodes == usize::MAX
            &&& height(operation_shape(operation)) <= limits.max_value_depth
                || limits.max_value_depth == usize::MAX
            &&& json_bytes(operation_json(operation)) is Ok
            &&& json_bytes(operation_json(operation))->Ok_0.len() <= limits.max_value_bytes
        },
{
    crate::shape::lemma_shape_within_limits(operation_shape(operation), limits);
}

/// Operations that are the same have the same variant, fields and JSON object, and every
/// operation is the same as itself.
pub proof fn lemma_same_operations_agree(left: MongoScriptOperation, right: MongoScriptOperation)
    ensures
        same_operation(left, left),
        same_operation(left, right) ==> {
            &&& operation_json(left) == operation_json(right)
            &&& operation_shape(left) == operation_shape(right)
            &&& left is SelectDatabase == right is SelectDatabase
            &&& left is DatabaseCall == right is DatabaseCall
            &&& left matches MongoScriptOperation::SelectDatabase { database } ==> database@
                == right->SelectDatabase_database@
        },
{
}

/// Whatever `to_json` and `clone` return: the JSON object has the operation's nodes and height, and
/// a copy has every field, and the JSON object, of what it is a copy of.
pub proof fn lemma_copies_are_complete(
    operation: MongoScriptOperation,
    copy: MongoScriptOperation,
    value: serde_json::Value,
    copied_value: serde_json::Value,
)
    requires
        call_ensures(<MongoScriptOperation as Clone>::clone, (&operation,), copy),
        call_ensures(MongoScriptOperation::to_json, (&operation,), value),
        call_ensures(MongoScriptOperation::to_json, (&copy,), copied_value),
    ensures
        copied_value == value,
        operation matches MongoScriptOperation::SelectDatabase { database } ==> {
            &&& copy is SelectDatabase
            &&& copy->SelectDatabase_database@ == database@
        },
        operation matches MongoScriptOperation::DatabaseCall { database, method, args } ==> {
            &&& copy is DatabaseCall
            &&& copy->DatabaseCall_database@ == database@
            &&& copy->DatabaseCall_method@ == method@
            &&& copy->DatabaseCall_args@ == args@
        },
        operation matches MongoScriptOperation::CollectionCall {
            database,
            collection,
            method,
            args,
        } ==> {
            &&& copy is CollectionCall
            &&& copy->CollectionCall_database@ == database@
            &&& copy->CollectionCall_collection@ == collection@
            &&& copy->CollectionCall_method@ == method@
            &&& copy->CollectionCall_args@ == args@
        },
{
    lemma_same_operations_agree(copy, operation);
}

} // verus!
