//! What a script prints, and how much of it is kept.

use vstd::prelude::*;

use crate::error::{error_text, script_error, verdict, MongoScriptErrorKind};
use crate::json::{
    encoding_of, entry_texts, json_bytes, json_object, json_string, object_value,
    string_value, validate_json_shape, value_shape, value_to_vec,
};
use crate::limits::MongoScriptLimits;
use crate::shape::{height, leaf, node_count, shape_verdict, Shape};

verus! {

/// One item that a script printed.
#[derive(Debug, PartialEq)]
pub enum MongoScriptOutput {
    Text(String),
    Json(serde_json::Value),
}

impl Clone for MongoScriptOutput {
    fn clone(&self) -> (copy: Self)
        ensures
            copy == *self,
    {
        match self {
            Self::Text(text) => Self::Text(text.clone()),
            Self::Json(value) => Self::Json(value.clone()),
        }
    }
}

/// The JSON object that stands for `output`: its kind and its value.
pub open spec fn output_json(output: MongoScriptOutput) -> serde_json::Value {
    match output {
        MongoScriptOutput::Text(text) => json_object(
            seq![("kind"@, json_string("text"@)), ("value"@, json_string(text@))],
        ),
        MongoScriptOutput::Json(value) => json_object(
            seq![("kind"@, json_string("json"@)), ("value"@, value)],
        ),
    }
}

/// The shape of the JSON object that stands for `output`.
pub open spec fn output_shape(output: MongoScriptOutput) -> Shape {
    match output {
        MongoScriptOutput::Text(_) => Shape { children: seq![leaf(), leaf()] },
        MongoScriptOutput::Json(value) => Shape { children: seq![leaf(), value_shape(value)] },
    }
}

impl MongoScriptOutput {
    /// The JSON object that stands for this item.
    pub fn to_json(&self) -> (value: serde_json::Value)
        ensures
            value == output_json(*self),
            value_shape(value) == output_shape(*self),
    {
        proof {
            reveal_strlit("kind");
            reveal_strlit("value");
        }
        let mut entries: Vec<(&str, serde_json::Value)> = Vec::new();
        match self {
            Self::Text(text) => {
                entries.push(("kind", string_value("text")));
                entries.push(("value", string_value(text.as_str())));
            },
            Self::Json(value) => {
                entries.push(("kind", string_value("json")));
                entries.push(("value", value.clone()));
            },
        }
        let ghost texts = entry_texts(entries@);
        let ghost shapes = entries@.map_values(
            |entry: (&str, serde_json::Value)| value_shape(entry.1),
        );
        let value = object_value(entries);
        proof {
            match self {
                MongoScriptOutput::Text(text) => {
                    assert(texts =~= seq![
                        ("kind"@, json_string("text"@)),
                        ("value"@, json_string(text@)),
                    ]);
                },
                MongoScriptOutput::Json(inner) => {
                    assert(texts =~= seq![("kind"@, json_string("json"@)), ("value"@, *inner)]);
                },
            }
            assert(shapes =~= output_shape(*self).children);
        }
        value
    }
}

/// What was kept of a script's output so far.
pub struct OutputState {
    pub items: Vec<MongoScriptOutput>,
    pub bytes: usize,
    pub truncated: bool,
}

/// The number of bytes that an item counts for: the size of its JSON encoding.
pub open spec fn output_size(output: MongoScriptOutput) -> nat {
    match json_bytes(output_json(output)) {
        Ok(bytes) => bytes.len(),
        Err(_) => 0,
    }
}

/// The number of bytes that `items` count for together.
pub open spec fn total_size(items: Seq<MongoScriptOutput>) -> nat
    decreases items.len(),
{
    if items.len() == 0 {
        0
    } else {
        total_size(items.drop_last()) + output_size(items.last())
    }
}

/// The verdict on an item: its shape, then whether it can be encoded. Its size is no reason to
/// refuse it.
pub open spec fn output_verdict(output: MongoScriptOutput, limits: MongoScriptLimits) -> Result<
    (),
    Seq<char>,
> {
    if shape_verdict(output_shape(output), limits) is Err {
        shape_verdict(output_shape(output), limits)
    } else {
        match json_bytes(output_json(output)) {
            Err(error) => Err(error_text(MongoScriptErrorKind::Serialization, error)),
            Ok(_) => Ok(()),
        }
    }
}

impl OutputState {
    /// There is room for one more item of `size` bytes.
    pub open spec fn has_room(self, size: nat, limits: MongoScriptLimits) -> bool {
        &&& self.items@.len() < limits.max_output_items
        &&& self.bytes + size <= limits.max_output_bytes
    }

    /// The state within its limits: not too many items, not too many bytes, and the bytes are
    /// those of the items.
    pub open spec fn within(self, limits: MongoScriptLimits) -> bool {
        &&& self.items@.len() <= limits.max_output_items
        &&& self.bytes <= limits.max_output_bytes
        &&& self.bytes == total_size(self.items@)
    }
}

/// What keeping `output`, which counts for `size` bytes, makes of a state: one more item if it
/// fits, and otherwise only the note that output was left out.
pub open spec fn keeps(
    before: OutputState,
    output: MongoScriptOutput,
    size: nat,
    limits: MongoScriptLimits,
    after: OutputState,
) -> bool {
    if before.has_room(size, limits) {
        &&& after.items@ == before.items@.push(output)
        &&& after.bytes == before.bytes + size
        &&& after.truncated == before.truncated
    } else {
        &&& after.items@ == before.items@
        &&& after.bytes == before.bytes
        &&& after.truncated
    }
}

/// What capturing `output` makes of a state: nothing if it is refused, and otherwise what keeping
/// it makes of it.
pub open spec fn captures(
    before: OutputState,
    output: MongoScriptOutput,
    limits: MongoScriptLimits,
    after: OutputState,
) -> bool {
    if output_verdict(output, limits) is Err {
        after == before
    } else {
        keeps(before, output, output_size(output), limits, after)
    }
}

impl Default for OutputState {
    fn default() -> (state: Self)
        ensures
            state.items@ == Seq::<MongoScriptOutput>::empty(),
            state.bytes == 0,
            !state.truncated,
    {
        Self { items: Vec::new(), bytes: 0, truncated: false }
    }
}

impl OutputState {
    /// Keeps an item that counts for `size` bytes if there is room for it; otherwise notes that
    /// output was left out.
    pub fn keep(&mut self, output: MongoScriptOutput, size: usize, limits: &MongoScriptLimits)
        ensures
            keeps(*old(self), output, size as nat, *limits, *final(self)),
            final(self).items@.len() > old(self).items@.len() <==> {
                &&& old(self).items@.len() < limits.max_output_items
                &&& old(self).bytes + size <= limits.max_output_bytes
            },
    {
        if self.items.len() >= limits.max_output_items || limits.max_output_bytes < size
            || self.bytes > limits.max_output_bytes - size {
            self.truncated = true;
            return;
        }
        self.bytes = self.bytes + size;
        self.items.push(output);
    }

    /// Keeps an item whose JSON object was encoded, if there is room for it.
    pub fn keep_encoded(
        &mut self,
        output: MongoScriptOutput,
        encoded: Result<Vec<u8>, String>,
        limits: &MongoScriptLimits,
    ) -> (outcome: Result<(), String>)
        ensures
            match encoding_of(encoded) {
                Err(error) => {
                    &&& verdict(outcome) == Err::<(), Seq<char>>(
                        error_text(MongoScriptErrorKind::Serialization, error),
                    )
                    &&& *final(self) == *old(self)
                },
                Ok(bytes) => {
                    &&& outcome is Ok
                    &&& keeps(*old(self), output, bytes.len(), *limits, *final(self))
                },
            },
    {
        match encoded {
            Err(error) => Err(script_error(MongoScriptErrorKind::Serialization, error.as_str())),
            Ok(bytes) => {
                self.keep(output, bytes.len(), limits);
                Ok(())
            },
        }
    }

    /// Checks an item that a script printed, and keeps it if there is room. An item that does not
    /// fit is left out without an error: printing never stops a script for its size.
    pub fn capture(&mut self, output: MongoScriptOutput, limits: &MongoScriptLimits) -> (outcome:
        Result<(), String>)
        ensures
            verdict(outcome) == output_verdict(output, *limits),
            captures(*old(self), output, *limits, *final(self)),
            outcome is Ok <==> {
                &&& node_count(output_shape(output)) <= limits.max_value_nodes
                    || limits.max_value_nodes == usize::MAX
                &&& height(output_shape(output)) <= limits.max_value_depth
                    || limits.max_value_depth == usize::MAX
                &&& json_bytes(output_json(output)) is Ok
            },
            outcome is Err ==> *final(self) == *old(self),
            outcome is Ok && old(self).items@.len() < limits.max_output_items && old(self).bytes
                + json_bytes(output_json(output))->Ok_0.len() <= limits.max_output_bytes ==> {
                &&& final(self).items@ == old(self).items@.push(output)
                &&& final(self).bytes == old(self).bytes + json_bytes(
                    output_json(output),
                )->Ok_0.len()
                &&& final(self).truncated == old(self).truncated
            },
            outcome is Ok && !(old(self).items@.len() < limits.max_output_items && old(self).bytes
                + json_bytes(output_json(output))->Ok_0.len() <= limits.max_output_bytes) ==> {
                &&& final(self).items@ == old(self).items@
                &&& final(self).bytes == old(self).bytes
                &&& final(self).truncated
            },
    {
        proof {
            lemma_output_accepted(output, *limits);
        }
        let value = output.to_json();
        match validate_json_shape(&value, limits) {
            Ok(()) => {},
            Err(error) => {
                return Err(error);
            },
        }
        self.keep_encoded(output, value_to_vec(&value), limits)
    }
}

/// Output never grows over its limits: a state that has kept to them keeps to them, and a fresh
/// state does.
pub proof fn lemma_output_stays_within(
    before: OutputState,
    output: MongoScriptOutput,
    limits: MongoScriptLimits,
    after: OutputState,
)
    requires
        before.within(limits),
        captures(before, output, limits, after),
    ensures
        after.within(limits),
{
    if output_verdict(output, limits) is Ok && before.has_room(output_size(output), limits) {
        assert(after.items@.drop_last() =~= before.items@);
    }
}

/// A fresh state is within any limits.
pub proof fn lemma_no_output_is_within(state: OutputState, limits: MongoScriptLimits)
    requires
        state.items@.len() == 0,
        state.bytes == 0,
    ensures
        state.within(limits),
{
}

/// Output is only ever added to: what was kept stays, in order, and once output was left out this
/// stays known.
pub proof fn lemma_output_only_grows(
    before: OutputState,
    output: MongoScriptOutput,
    limits: MongoScriptLimits,
    after: OutputState,
)
    requires
        captures(before, output, limits, after),
    ensures
        before.items@.is_prefix_of(after.items@),
        before.truncated ==> after.truncated,
        output_verdict(output, limits) is Ok ==> {
            ||| after.truncated
            ||| after.items@ == before.items@.push(output)
        },
{
}

/// The JSON object of an item holds its kind and its value, the value as it was printed.
pub proof fn lemma_output_json_holds_the_value(text: String, value: serde_json::Value)
    ensures
        output_json(MongoScriptOutput::Text(text)) == json_object(
            seq![("kind"@, json_string("text"@)), ("value"@, json_string(text@))],
        ),
        output_json(MongoScriptOutput::Json(value)) == json_object(
            seq![("kind"@, json_string("json"@)), ("value"@, value)],
        ),
{
}

/// The JSON object of an item has two nodes more than its value, and is one higher.
pub proof fn lemma_output_nodes_and_height(text: String, value: serde_json::Value)
    ensures
        node_count(output_shape(MongoScriptOutput::Text(text))) == 3,
        height(output_shape(MongoScriptOutput::Text(text))) == 2,
        node_count(output_shape(MongoScriptOutput::Json(value))) == 2 + node_count(
            value_shape(value),
        ),
        height(output_shape(MongoScriptOutput::Json(value))) == 1 + height(value_shape(value)),
{
    let none: Seq<Shape> = seq![];
    let one = none.push(leaf());
    let inner = value_shape(value);
    crate::shape::lemma_nodes_add_up(none, leaf());
    crate::shape::lemma_nodes_add_up(one, leaf());
    crate::shape::lemma_nodes_add_up(one, inner);
    crate::shape::lemma_height_is_the_longest_way(none, leaf());
    crate::shape::lemma_height_is_the_longest_way(one, leaf());
    crate::shape::lemma_height_is_the_longest_way(one, inner);
    assert(Shape { children: none } == leaf());
    assert(output_shape(MongoScriptOutput::Text(text)).children =~= one.push(leaf()));
    assert(output_shape(MongoScriptOutput::Json(value)).children =~= one.push(inner));
    assert(height(inner) >= 1);
}

/// An item is let through exactly if the nodes and the height of its JSON object are allowed and
/// it can be encoded. Its size does not matter, nor does what was printed before.
pub proof fn lemma_output_accepted(output: MongoScriptOutput, limits: MongoScriptLimits)
    ensures
        output_verdict(output, limits) is Ok <==> {
            &&& node_count(output_shape(output)) <= limits.max_value_nodes
                || limits.max_value_nodes == usize::MAX
            &&& height(output_shape(output)) <= limits.max_value_depth || limits.max_value_depth
                == usize::MAX
            &&& json_bytes(output_json(output)) is Ok
        },
{
    crate::shape::lemma_shape_within_limits(output_shape(output), limits);
}

/// An item is refused as its shape is, and otherwise with the error of its encoding.
pub proof fn lemma_output_refusals(output: MongoScriptOutput, limits: MongoScriptLimits)
    ensures
        shape_verdict(output_shape(output), limits) is Err ==> output_verdict(output, limits)
            == shape_verdict(output_shape(output), limits),
        shape_verdict(output_shape(output), limits) is Ok && json_bytes(output_json(output)) is Err
            ==> output_verdict(output, limits) == Err::<(), Seq<char>>(
            "[mongo_script.serialization] "@ + json_bytes(output_json(output))->Err_0,
        ),
{
    if let Err(error) = json_bytes(output_json(output)) {
        crate::json::lemma_serialization_text(error);
    }
}

/// An item that is let through is kept exactly if one more item is allowed and its encoding fits
/// into the bytes that are left; it then counts for as many bytes as its encoding has. Otherwise
/// it is left out, which is noted. An item that is refused changes nothing.
pub proof fn lemma_items_are_kept_if_they_fit(
    before: OutputState,
    output: MongoScriptOutput,
    limits: MongoScriptLimits,
    after: OutputState,
)
    requires
        captures(before, output, limits, after),
    ensures
        output_verdict(output, limits) is Err ==> after == before,
        output_verdict(output, limits) is Ok && before.items@.len() < limits.max_output_items
            && before.bytes + json_bytes(output_json(output))->Ok_0.len()
            <= limits.max_output_bytes ==> {
            &&& after.items@ == before.items@.push(output)
            &&& after.bytes == before.bytes + json_bytes(output_json(output))->Ok_0.len()
            &&& after.truncated == before.truncated
        },
        output_verdict(output, limits) is Ok && !(before.items@.len() < limits.max_output_items
            && before.bytes + json_bytes(output_json(output))->Ok_0.len()
            <= limits.max_output_bytes) ==> {
            &&& after.items@ == before.items@
            &&& after.bytes == before.bytes
            &&& after.truncated
        },
{
}

/// `states` are what a script's output comes to while it prints `printed`, item by item, from no
/// output on.
pub open spec fn prints(
    states: Seq<OutputState>,
    printed: Seq<MongoScriptOutput>,
    limits: MongoScriptLimits,
) -> bool {
    &&& states.len() == printed.len() + 1
    &&& states[0].items@.len() == 0
    &&& states[0].bytes == 0
    &&& !states[0].truncated
    &&& forall|i: int|
        #![trigger printed[i]]
        0 <= i < printed.len() ==> captures(states[i], printed[i], limits, states[i + 1])
}

/// Output is marked as truncated exactly if an item that the script printed, and that was not
/// refused, is missing from it.
pub proof fn lemma_truncation_is_noted(
    states: Seq<OutputState>,
    printed: Seq<MongoScriptOutput>,
    limits: MongoScriptLimits,
)
    requires
        prints(states, printed, limits),
    ensures
        states.last().truncated <==> states.last().items@ != printed.filter(
            |item: MongoScriptOutput| output_verdict(item, limits) is Ok,
        ),
        states.last().truncated <==> states.last().items@.len() < printed.filter(
            |item: MongoScriptOutput| output_verdict(item, limits) is Ok,
        ).len(),
        states.last().items@.len() <= printed.filter(
            |item: MongoScriptOutput| output_verdict(item, limits) is Ok,
        ).len(),
    decreases printed.len(),
{
    let passes = |item: MongoScriptOutput| output_verdict(item, limits) is Ok;
    reveal(Seq::filter);
    if printed.len() == 0 {
        assert(printed.filter(passes) =~= seq![]);
        assert(states.last().items@ =~= seq![]);
    } else {
        let item = printed.last();
        let earlier = printed.drop_last();
        let before = states.drop_last();
        assert(printed[printed.len() - 1] == item);
        assert(captures(before.last(), item, limits, states.last()));
        assert forall|i: int| #![trigger earlier[i]] 0 <= i < earlier.len() implies captures(
            before[i],
            earlier[i],
            limits,
            before[i + 1],
        ) by {
            assert(printed[i] == earlier[i]);
        }
        lemma_truncation_is_noted(before, earlier, limits);
        lemma_items_are_kept_if_they_fit(before.last(), item, limits, states.last());
        let kept = earlier.filter(passes);
        if passes(item) {
            assert(printed.filter(passes) == kept.push(item));
            if states.last().items@ == kept.push(item) {
                assert(states.last().items@.len() == kept.len() + 1);
            }
        } else {
            assert(printed.filter(passes) == kept);
        }
    }
}

/// What is kept was printed, was let through, and stands in the order in which it was printed:
/// the result gives the place of each item among those that were printed.
pub proof fn lemma_kept_items_were_printed(
    states: Seq<OutputState>,
    printed: Seq<MongoScriptOutput>,
    limits: MongoScriptLimits,
) -> (places: Seq<int>)
    requires
        prints(states, printed, limits),
    ensures
        places.len() == states.last().items@.len(),
        forall|k: int|
            0 <= k < places.len() ==> {
                &&& 0 <= #[trigger] places[k] < printed.len()
                &&& states.last().items@[k] == printed[places[k]]
                &&& output_verdict(printed[places[k]], limits) is Ok
            },
        forall|j: int, k: int| 0 <= j < k < places.len() ==> places[j] < places[k],
    decreases printed.len(),
{
    if printed.len() == 0 {
        seq![]
    } else {
        let item = printed.last();
        let earlier = printed.drop_last();
        let before = states.drop_last();
        assert(printed[printed.len() - 1] == item);
        assert(captures(before.last(), item, limits, states.last()));
        assert forall|i: int| #![trigger earlier[i]] 0 <= i < earlier.len() implies captures(
            before[i],
            earlier[i],
            limits,
            before[i + 1],
        ) by {
            assert(printed[i] == earlier[i]);
        }
        let places = lemma_kept_items_were_printed(before, earlier, limits);
        lemma_items_are_kept_if_they_fit(before.last(), item, limits, states.last());
        assert(forall|i: int| 0 <= i < earlier.len() ==> earlier[i] == printed[i]);
        if states.last().items@.len() == before.last().items@.len() {
            places
        } else {
            places.push(printed.len() - 1)
        }
    }
}

/// Whatever `keep` does: the item is added at the end, and counts for its size, exactly if one more
/// item is allowed and its size fits into the bytes that are left; otherwise nothing changes but
/// that output is noted as left out.
pub proof fn lemma_items_are_kept_by_size(
    state: &mut OutputState,
    output: MongoScriptOutput,
    size: usize,
    limits: MongoScriptLimits,
)
    requires
        call_ensures(OutputState::keep, (state, output, size, &limits), ()),
    ensures
        old(state).items@.len() < limits.max_output_items && old(state).bytes + size
            <= limits.max_output_bytes ==> {
            &&& final(state).items@ == old(state).items@.push(output)
            &&& final(state).bytes == old(state).bytes + size
            &&& final(state).truncated == old(state).truncated
        },
        !(old(state).items@.len() < limits.max_output_items && old(state).bytes + size
            <= limits.max_output_bytes) ==> {
            &&& final(state).items@ == old(state).items@
            &&& final(state).bytes == old(state).bytes
            &&& final(state).truncated
        },
{
}

/// Whatever `keep_encoded` does: an item without an encoding is refused with the encoding's error
/// and changes nothing; any other is no error, and counts for as many bytes as its encoding has.
pub proof fn lemma_encoded_items_are_kept_by_length(
    state: &mut OutputState,
    output: MongoScriptOutput,
    encoded: Result<Vec<u8>, String>,
    limits: MongoScriptLimits,
    outcome: Result<(), String>,
)
    requires
        call_ensures(OutputState::keep_encoded, (state, output, encoded, &limits), outcome),
    ensures
        outcome is Ok <==> encoded is Ok,
        encoded matches Err(error) ==> {
            &&& outcome->Err_0@ == "[mongo_script.serialization] "@ + error@
            &&& *final(state) == *old(state)
        },
        encoded matches Ok(bytes) ==> {
            if old(state).items@.len() < limits.max_output_items && old(state).bytes + bytes@.len()
                <= limits.max_output_bytes {
                &&& final(state).items@ == old(state).items@.push(output)
                &&& final(state).bytes == old(state).bytes + bytes@.len()
                &&& final(state).truncated == old(state).truncated
            } else {
                &&& final(state).items@ == old(state).items@
                &&& final(state).bytes == old(state).bytes
                &&& final(state).truncated
            }
        },
{
    if let Err(error) = encoded {
        crate::json::lemma_serialization_text(error@);
    }
}

/// Whatever `capture` does: an item is refused exactly if the nodes or the height of its JSON object
/// are not allowed or it has no encoding, and then changes nothing; any other is kept if it fits,
/// and noted as left out if it does not.
pub proof fn lemma_captured_items_are_kept_if_they_fit(
    state: &mut OutputState,
    output: MongoScriptOutput,
    limits: MongoScriptLimits,
    outcome: Result<(), String>,
)
    requires
        call_ensures(OutputState::capture, (state, output, &limits), outcome),
    ensures
        outcome is Ok <==> {
            &&& node_count(output_shape(output)) <= limits.max_value_nodes
                || limits.max_value_nodes == usize::MAX
            &&& height(output_shape(output)) <= limits.max_value_depth || limits.max_value_depth
                == usize::MAX
            &&& json_bytes(output_json(output)) is Ok
        },
        outcome is Err ==> *final(state) == *old(state),
        outcome is Ok ==> {
            if old(state).items@.len() < limits.max_output_items && old(state).bytes + json_bytes(
                output_json(output),
            )->Ok_0.len() <= limits.max_output_bytes {
                &&& final(state).items@ == old(state).items@.push(output)
                &&& final(state).bytes == old(state).bytes + json_bytes(
                    output_json(output),
                )->Ok_0.len()
                &&& final(state).truncated == old(state).truncated
            } else {
                &&& final(state).items@ == old(state).items@
                &&& final(state).bytes == old(state).bytes
                &&& final(state).truncated
            }
        },
{
    lemma_output_accepted(output, limits);
}

/// Over a whole run: what is kept of the output has at most as many items, and together at most as
/// many bytes, as the limits allow.
pub proof fn lemma_kept_output_fits(
    states: Seq<OutputState>,
    printed: Seq<MongoScriptOutput>,
    limits: MongoScriptLimits,
)
    requires
        prints(states, printed, limits),
    ensures
        states.last().items@.len() <= limits.max_output_items,
        total_size(states.last().items@) <= limits.max_output_bytes,
{
    lemma_states_are_within(states, printed, limits);
}

proof fn lemma_states_are_within(
    states: Seq<OutputState>,
    printed: Seq<MongoScriptOutput>,
    limits: MongoScriptLimits,
)
    requires
        prints(states, printed, limits),
    ensures
        states.last().within(limits),
    decreases printed.len(),
{
    if printed.len() == 0 {
        lemma_no_output_is_within(states[0], limits);
    } else {
        let fewer = printed.drop_last();
        let earlier = states.drop_last();
        assert forall|i: int| #![trigger fewer[i]] 0 <= i < fewer.len() implies captures(
            earlier[i],
            fewer[i],
            limits,
            earlier[i + 1],
        ) by {
            assert(printed[i] == fewer[i]);
        }
        lemma_states_are_within(earlier, fewer, limits);
        let at = printed.len() - 1;
        assert(captures(states[at], printed[at], limits, states[at + 1]));
        lemma_output_stays_within(states[at], printed[at], limits, states[at + 1]);
    }
}

/// Items count together for as many bytes as their encodings have.
pub proof fn lemma_sizes_add_up(items: Seq<MongoScriptOutput>, item: MongoScriptOutput)
    ensures
        total_size(seq![]) == 0,
        json_bytes(output_json(item)) matches Ok(bytes) ==> total_size(items.push(item))
            == total_size(items) + bytes.len(),
{
    assert(items.push(item).drop_last() =~= items);
}

} // verus!
