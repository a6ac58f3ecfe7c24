//! The shape of a JSON value, and the limits on how deep and how large it may be.

use vstd::prelude::*;

use crate::error::{error_text, script_error, verdict, MongoScriptErrorKind};
use crate::limits::MongoScriptLimits;
use crate::text::{decimal, decimal_text, join_three};

verus! {

/// A value as far as the limits on its shape read it: a node with its children in order. An array
/// has its items as children, an object its values; any other value has none.
pub ghost struct Shape {
    pub children: Seq<Shape>,
}

/// The shape of a value without children.
pub open spec fn leaf() -> Shape {
    Shape { children: seq![] }
}

/// The depths of all nodes of `shape`, which itself lies at `depth`, in the order of a visit that
/// goes from each node to its last child first.
pub open spec fn visit(shape: Shape, depth: nat) -> Seq<nat>
    decreases shape,
{
    seq![depth] + visit_last_first(shape.children, depth + 1)
}

/// The visits to `shapes`, all at `depth`, from the last to the first.
pub open spec fn visit_last_first(shapes: Seq<Shape>, depth: nat) -> Seq<nat>
    decreases shapes,
{
    if shapes.len() == 0 {
        seq![]
    } else {
        visit(shapes.last(), depth) + visit_last_first(shapes.drop_last(), depth)
    }
}

/// The number of nodes of `shape`.
pub open spec fn node_count(shape: Shape) -> nat
    decreases shape,
{
    1 + node_count_all(shape.children)
}

/// The number of nodes of `shapes` together.
pub open spec fn node_count_all(shapes: Seq<Shape>) -> nat
    decreases shapes,
{
    if shapes.len() == 0 {
        0
    } else {
        node_count_all(shapes.drop_last()) + node_count(shapes.last())
    }
}

/// The number of nodes on the longest way down from `shape`, itself counted.
pub open spec fn height(shape: Shape) -> nat
    decreases shape,
{
    1 + height_all(shape.children)
}

/// The greatest height among `shapes`.
pub open spec fn height_all(shapes: Seq<Shape>) -> nat
    decreases shapes,
{
    if shapes.len() == 0 {
        0
    } else if height_all(shapes.drop_last()) < height(shapes.last()) {
        height(shapes.last())
    } else {
        height_all(shapes.drop_last())
    }
}

/// `number` is over `limit`. The largest limit there is limits nothing.
pub open spec fn exceeds(number: nat, limit: usize) -> bool {
    limit < number && limit < usize::MAX
}

/// The report of a value with too many nodes.
pub open spec fn node_limit_text(limit: usize) -> Seq<char> {
    error_text(
        MongoScriptErrorKind::ResourceLimit,
        "MongoDB script value node limit of "@ + decimal_text(limit as nat) + " exceeded"@,
    )
}

/// The report of a value that is nested too deeply.
pub open spec fn depth_limit_text(limit: usize) -> Seq<char> {
    error_text(
        MongoScriptErrorKind::ResourceLimit,
        "MongoDB script value depth limit of "@ + decimal_text(limit as nat) + " exceeded"@,
    )
}

/// The visit of `depths` meets a node that is too deep before it runs out of nodes.
pub open spec fn meets_depth_limit(depths: Seq<nat>, limits: MongoScriptLimits) -> bool {
    exists|i: int|
        0 <= i < depths.len() && exceeds(#[trigger] depths[i], limits.max_value_depth) && !exceeds(
            (i + 1) as nat,
            limits.max_value_nodes,
        )
}

/// The verdict on a value of `shape`. A visit counts nodes and looks at depths as it goes; what it
/// meets first is reported, the count before the depth.
pub open spec fn shape_verdict(shape: Shape, limits: MongoScriptLimits) -> Result<(), Seq<char>> {
    if meets_depth_limit(visit(shape, 1), limits) {
        Err(depth_limit_text(limits.max_value_depth))
    } else if exceeds(node_count(shape), limits.max_value_nodes) {
        Err(node_limit_text(limits.max_value_nodes))
    } else {
        Ok(())
    }
}

/// A node whose children can be listed.
pub trait Nested: Sized {
    /// The shape of the tree below and with this node.
    spec fn shape(&self) -> Shape;

    /// The children of this node, in order.
    fn children(&self) -> (list: Vec<&Self>)
        ensures
            list@.len() == self.shape().children.len(),
            forall|i: int|
                0 <= i < list@.len() ==> (#[trigger] list@[i]).shape() == self.shape().children[i],
    ;
}

/// A tree that has nothing but a shape.
#[derive(Debug)]
pub struct JsonShape {
    pub children: Vec<JsonShape>,
}

impl JsonShape {
    /// The shape of this tree.
    pub open spec fn tree(self) -> Shape
        decreases self,
    {
        Shape {
            children: Seq::new(
                self.children@.len(),
                |i: int|
                    if 0 <= i < self.children@.len() {
                        self.children@[i].tree()
                    } else {
                        arbitrary()
                    },
            ),
        }
    }
}

impl Nested for JsonShape {
    open spec fn shape(&self) -> Shape {
        self.tree()
    }

    fn children(&self) -> (list: Vec<&Self>) {
        let mut list: Vec<&Self> = Vec::new();
        let mut i: usize = 0;
        while i < self.children.len()
            invariant
                i <= self.children.len(),
                list@.len() == i,
                forall|j: int| 0 <= j < i ==> *(#[trigger] list@[j]) == self.children@[j],
            decreases self.children.len() - i,
        {
            list.push(&self.children[i]);
            i += 1;
        }
        list
    }
}

/// What a visitor still meets that takes trees from the end of its stack.
spec fn visit_stack(stack: Seq<(Shape, nat)>) -> Seq<nat>
    decreases stack.len(),
{
    if stack.len() == 0 {
        seq![]
    } else {
        visit(stack.last().0, stack.last().1) + visit_stack(stack.drop_last())
    }
}

/// Pushing the children of a node, all at one depth, puts their visit in front.
proof fn lemma_push_children(stack: Seq<(Shape, nat)>, shapes: Seq<Shape>, depth: nat)
    ensures
        visit_stack(stack + shapes.map_values(|shape: Shape| (shape, depth))) == visit_last_first(
            shapes,
            depth,
        ) + visit_stack(stack),
    decreases shapes.len(),
{
    let pushed = stack + shapes.map_values(|shape: Shape| (shape, depth));
    if shapes.len() == 0 {
        assert(pushed =~= stack);
        assert(visit_last_first(shapes, depth) + visit_stack(stack) =~= visit_stack(stack));
    } else {
        let fewer = stack + shapes.drop_last().map_values(|shape: Shape| (shape, depth));
        lemma_push_children(stack, shapes.drop_last(), depth);
        assert(pushed.last() == (shapes.last(), depth));
        assert(pushed.drop_last() =~= fewer);
        assert(visit_stack(pushed) =~= visit_last_first(shapes, depth) + visit_stack(stack));
    }
}

/// `count` as a counter holds it that stops at its largest value.
spec fn capped(count: nat) -> usize {
    if count < usize::MAX {
        count as usize
    } else {
        usize::MAX
    }
}

/// A visitor's stack of trees stands for `model`.
spec fn models<T: Nested>(stack: Seq<(&T, usize)>, model: Seq<(Shape, nat)>) -> bool {
    &&& stack.len() == model.len()
    &&& forall|i: int|
        0 <= i < stack.len() ==> {
            &&& (#[trigger] stack[i]).0.shape() == model[i].0
            &&& stack[i].1 == capped(model[i].1)
        }
}

/// Checks the limits at one node of a visit: `nodes` is its number in the visit, from one on.
pub fn check_node(nodes: usize, depth: usize, limits: &MongoScriptLimits) -> (outcome: Result<
    (),
    String,
>)
    ensures
        verdict(outcome) == (if nodes > limits.max_value_nodes {
            Err(node_limit_text(limits.max_value_nodes))
        } else if depth > limits.max_value_depth {
            Err(depth_limit_text(limits.max_value_depth))
        } else {
            Ok(())
        }),
{
    if nodes > limits.max_value_nodes {
        return Err(
            script_error(
                MongoScriptErrorKind::ResourceLimit,
                join_three(
                    "MongoDB script value node limit of ",
                    decimal(limits.max_value_nodes).as_str(),
                    " exceeded",
                ).as_str(),
            ),
        );
    }
    if depth > limits.max_value_depth {
        return Err(
            script_error(
                MongoScriptErrorKind::ResourceLimit,
                join_three(
                    "MongoDB script value depth limit of ",
                    decimal(limits.max_value_depth).as_str(),
                    " exceeded",
                ).as_str(),
            ),
        );
    }
    Ok(())
}

/// Checks the shape of the tree at `root` against the limits, with a stack of its own.
pub fn check_shape<T: Nested>(root: &T, limits: &MongoScriptLimits) -> (outcome: Result<(), String>)
    ensures
        verdict(outcome) == shape_verdict(root.shape(), *limits),
{
    let ghost whole = visit(root.shape(), 1);
    let ghost mut visited: Seq<nat> = seq![];
    let ghost mut model: Seq<(Shape, nat)> = seq![(root.shape(), 1)];
    let mut stack: Vec<(&T, usize)> = Vec::new();
    stack.push((root, 1));
    let mut nodes: usize = 0;
    proof {
        assert(model.drop_last() =~= seq![]);
        assert(visit_stack(model) =~= whole) by {
            reveal_with_fuel(visit_stack, 2);
        }
        lemma_visit_meets_every_node(root.shape(), 1);
    }
    while stack.len() > 0
        invariant
            whole == visit(root.shape(), 1),
            whole.len() == node_count(root.shape()),
            models(stack@, model),
            visited + visit_stack(model) == whole,
            nodes == capped(visited.len()),
            !exceeds(visited.len(), limits.max_value_nodes),
            forall|i: int|
                0 <= i < visited.len() ==> !exceeds(#[trigger] visited[i], limits.max_value_depth),
        decreases visit_stack(model).len(),
    {
        let ghost shape = model.last().0;
        let ghost at = model.last().1;
        let ghost rest = model.drop_last();
        let ghost before = visited;
        let (node, depth) = stack.pop().unwrap();
        nodes = nodes.saturating_add(1);
        proof {
            assert(whole =~= before + visit(shape, at) + visit_stack(rest));
            assert(whole[before.len() as int] == at);
            visited = before.push(at);
        }
        match check_node(nodes, depth, limits) {
            Ok(()) => {},
            Err(error) => {
                return Err(error);
            },
        }
        let children = node.children();
        let below = depth.saturating_add(1);
        let mut i: usize = 0;
        proof {
            model = rest;
        }
        while i < children.len()
            invariant
                i <= children.len(),
                children@.len() == shape.children.len(),
                forall|j: int|
                    0 <= j < children@.len() ==> (#[trigger] children@[j]).shape()
                        == shape.children[j],
                below == capped(at + 1),
                models(stack@, model),
                model == rest + shape.children.take(i as int).map_values(
                    |child: Shape| (child, at + 1),
                ),
            decreases children.len() - i,
        {
            stack.push((children[i], below));
            proof {
                model = model.push((shape.children[i as int], at + 1));
                assert(model =~= rest + shape.children.take(i as int + 1).map_values(
                    |child: Shape| (child, at + 1),
                ));
            }
            i += 1;
        }
        proof {
            assert(shape.children.take(i as int) =~= shape.children);
            lemma_push_children(rest, shape.children, at + 1);
            assert(visited + visit_stack(model) =~= whole);
        }
    }
    proof {
        assert(visited =~= whole);
    }
    Ok(())
}

/// A visit meets every node once.
pub proof fn lemma_visit_meets_every_node(shape: Shape, depth: nat)
    ensures
        visit(shape, depth).len() == node_count(shape),
    decreases shape,
{
    lemma_visit_all_meets_every_node(shape.children, depth + 1);
}

proof fn lemma_visit_all_meets_every_node(shapes: Seq<Shape>, depth: nat)
    ensures
        visit_last_first(shapes, depth).len() == node_count_all(shapes),
    decreases shapes,
{
    if shapes.len() != 0 {
        lemma_visit_meets_every_node(shapes.last(), depth);
        lemma_visit_all_meets_every_node(shapes.drop_last(), depth);
    }
}

/// The depths that a visit meets go up to the height, and reach it.
pub proof fn lemma_visit_reaches_the_height(shape: Shape, depth: nat)
    ensures
        forall|i: int|
            0 <= i < visit(shape, depth).len() ==> #[trigger] visit(shape, depth)[i] + 1 <= depth
                + height(shape),
        exists|i: int|
            0 <= i < visit(shape, depth).len() && #[trigger] visit(shape, depth)[i] + 1 == depth
                + height(shape),
    decreases shape,
{
    let below = visit_last_first(shape.children, depth + 1);
    let whole = visit(shape, depth);
    lemma_visit_all_reaches_the_height(shape.children, depth + 1);
    assert(whole[0] == depth);
    assert forall|i: int| 0 <= i < whole.len() implies #[trigger] whole[i] + 1 <= depth + height(
        shape,
    ) by {
        if i > 0 {
            assert(whole[i] == below[i - 1]);
        }
    }
    if shape.children.len() != 0 {
        let i = choose|i: int|
            0 <= i < below.len() && #[trigger] below[i] + 1 == depth + 1 + height_all(
                shape.children,
            );
        assert(whole[i + 1] == below[i]);
    }
}

proof fn lemma_visit_all_reaches_the_height(shapes: Seq<Shape>, depth: nat)
    ensures
        forall|i: int|
            0 <= i < visit_last_first(shapes, depth).len() ==> #[trigger] visit_last_first(
                shapes,
                depth,
            )[i] + 1 <= depth + height_all(shapes),
        shapes.len() != 0 ==> exists|i: int|
            0 <= i < visit_last_first(shapes, depth).len() && #[trigger] visit_last_first(
                shapes,
                depth,
            )[i] + 1 == depth + height_all(shapes),
    decreases shapes,
{
    if shapes.len() != 0 {
        let whole = visit_last_first(shapes, depth);
        let front = visit(shapes.last(), depth);
        let rest = visit_last_first(shapes.drop_last(), depth);
        lemma_visit_reaches_the_height(shapes.last(), depth);
        lemma_visit_all_reaches_the_height(shapes.drop_last(), depth);
        assert forall|i: int| 0 <= i < whole.len() implies #[trigger] whole[i] + 1 <= depth
            + height_all(shapes) by {
            if i < front.len() {
                assert(whole[i] == front[i]);
            } else {
                assert(whole[i] == rest[i - front.len()]);
            }
        }
        if height_all(shapes) == height(shapes.last()) {
            let i = choose|i: int|
                0 <= i < front.len() && #[trigger] front[i] + 1 == depth + height(shapes.last());
            assert(whole[i] == front[i]);
        } else {
            assert(shapes.drop_last().len() != 0);
            let i = choose|i: int|
                0 <= i < rest.len() && #[trigger] rest[i] + 1 == depth + height_all(
                    shapes.drop_last(),
                );
            assert(whole[i + front.len()] == rest[i]);
        }
    }
}

/// A value is let through if and only if neither its nodes nor its height are over the limit.
pub proof fn lemma_shape_accepted(shape: Shape, limits: MongoScriptLimits)
    ensures
        shape_verdict(shape, limits) is Ok <==> {
            &&& !exceeds(node_count(shape), limits.max_value_nodes)
            &&& !exceeds(height(shape), limits.max_value_depth)
        },
{
    let depths = visit(shape, 1);
    lemma_visit_meets_every_node(shape, 1);
    lemma_visit_reaches_the_height(shape, 1);
    if !exceeds(node_count(shape), limits.max_value_nodes) && exceeds(
        height(shape),
        limits.max_value_depth,
    ) {
        let i = choose|i: int|
            0 <= i < depths.len() && #[trigger] depths[i] + 1 == 1 + height(shape);
        assert(exceeds(depths[i], limits.max_value_depth));
        assert(meets_depth_limit(depths, limits));
    }
}

/// What passes under some limits passes under limits that are no tighter.
pub proof fn lemma_looser_limits_accept(
    shape: Shape,
    limits: MongoScriptLimits,
    looser: MongoScriptLimits,
)
    requires
        shape_verdict(shape, limits) is Ok,
        limits.max_value_nodes <= looser.max_value_nodes,
        limits.max_value_depth <= looser.max_value_depth,
    ensures
        shape_verdict(shape, looser) is Ok,
{
    lemma_shape_accepted(shape, limits);
    lemma_shape_accepted(shape, looser);
}

/// Whatever a value's shape is refused for is reported as a resource limit.
pub proof fn lemma_shape_refusals_are_resource_limits(shape: Shape, limits: MongoScriptLimits)
    ensures
        shape_verdict(shape, limits) matches Err(error) ==> crate::error::kind_of(error) == Some(
            MongoScriptErrorKind::ResourceLimit,
        ),
{
    crate::error::lemma_error_round_trip(
        MongoScriptErrorKind::ResourceLimit,
        "MongoDB script value node limit of "@ + decimal_text(limits.max_value_nodes as nat)
            + " exceeded"@,
    );
    crate::error::lemma_error_round_trip(
        MongoScriptErrorKind::ResourceLimit,
        "MongoDB script value depth limit of "@ + decimal_text(limits.max_value_depth as nat)
            + " exceeded"@,
    );
}

/// A tree's shape has its children's shapes, in order.
pub proof fn lemma_tree_has_its_childrens_shapes(tree: JsonShape, at: int)
    ensures
        tree.tree().children.len() == tree.children@.len(),
        0 <= at < tree.children@.len() ==> tree.tree().children[at] == tree.children@[at].tree(),
{
}

/// A value without children is one node; one more child brings all its nodes along.
pub proof fn lemma_nodes_add_up(children: Seq<Shape>, child: Shape)
    ensures
        node_count(leaf()) == 1,
        node_count(Shape { children: children.push(child) }) == node_count(Shape { children })
            + node_count(child),
{
    assert(children.push(child).drop_last() =~= children);
    assert(node_count_all(leaf().children) == 0);
}

/// A value without children has height one; with one more child, a value is as high as before or
/// one higher than the child, whichever is more.
pub proof fn lemma_height_is_the_longest_way(children: Seq<Shape>, child: Shape)
    ensures
        height(leaf()) == 1,
        height(Shape { children: children.push(child) }) >= height(Shape { children }),
        height(Shape { children: children.push(child) }) >= 1 + height(child),
        height(Shape { children: children.push(child) }) == height(Shape { children }) || height(
            Shape { children: children.push(child) },
        ) == 1 + height(child),
{
    assert(children.push(child).drop_last() =~= children);
    assert(height_all(leaf().children) == 0);
}

/// A visit starts at the node itself, and goes to its last child before the others.
pub proof fn lemma_visit_takes_the_last_child_first(
    children: Seq<Shape>,
    child: Shape,
    depth: nat,
)
    ensures
        visit(leaf(), depth) == seq![depth],
        visit(Shape { children: children.push(child) }, depth) == seq![depth] + visit(
            child,
            depth + 1,
        ) + visit(Shape { children }, depth).skip(1),
{
    assert(children.push(child).drop_last() =~= children);
    assert(visit_last_first(leaf().children, depth + 1) =~= seq![]);
    assert(visit(leaf(), depth) =~= seq![depth]);
    assert(visit(Shape { children }, depth).skip(1) =~= visit_last_first(children, depth + 1));
    assert(visit(Shape { children: children.push(child) }, depth) =~= seq![depth] + visit(
        child,
        depth + 1,
    ) + visit(Shape { children }, depth).skip(1));
}

/// A value passes exactly if it has at most as many nodes, and is at most as high, as the limits
/// say; a limit of the largest number there is limits nothing.
pub proof fn lemma_shape_within_limits(shape: Shape, limits: MongoScriptLimits)
    ensures
        shape_verdict(shape, limits) is Ok <==> {
            &&& node_count(shape) <= limits.max_value_nodes || limits.max_value_nodes == usize::MAX
            &&& height(shape) <= limits.max_value_depth || limits.max_value_depth == usize::MAX
        },
{
    lemma_shape_accepted(shape, limits);
}

/// A node that lies too deep, and that the visit reaches within the allowed number of nodes, is
/// reported as the depth limit.
pub proof fn lemma_deep_node_is_reported(shape: Shape, limits: MongoScriptLimits, at: int)
    requires
        0 <= at < visit(shape, 1).len(),
        visit(shape, 1)[at] > limits.max_value_depth,
        limits.max_value_depth < usize::MAX,
        at < limits.max_value_nodes || limits.max_value_nodes == usize::MAX,
    ensures
        shape_verdict(shape, limits) == Err::<(), Seq<char>>(
            "[mongo_script.resource_limit] MongoDB script value depth limit of "@ + decimal_text(
                limits.max_value_depth as nat,
            ) + " exceeded"@,
        ),
{
    assert(exceeds(visit(shape, 1)[at], limits.max_value_depth));
    assert(meets_depth_limit(visit(shape, 1), limits));
    lemma_limit_texts(limits.max_value_depth);
}

/// A value with too many nodes, of which none within the allowed number lies too deep, is reported
/// as the node limit.
pub proof fn lemma_node_flood_is_reported(shape: Shape, limits: MongoScriptLimits)
    requires
        node_count(shape) > limits.max_value_nodes,
        limits.max_value_nodes < usize::MAX,
        forall|at: int|
            0 <= at < limits.max_value_nodes ==> #[trigger] visit(shape, 1)[at]
                <= limits.max_value_depth,
    ensures
        shape_verdict(shape, limits) == Err::<(), Seq<char>>(
            "[mongo_script.resource_limit] MongoDB script value node limit of "@ + decimal_text(
                limits.max_value_nodes as nat,
            ) + " exceeded"@,
        ),
{
    lemma_visit_meets_every_node(shape, 1);
    assert(!meets_depth_limit(visit(shape, 1), limits));
    lemma_limit_texts(limits.max_value_nodes);
}

proof fn lemma_limit_texts(limit: usize)
    ensures
        node_limit_text(limit)
            == "[mongo_script.resource_limit] MongoDB script value node limit of "@ + decimal_text(
            limit as nat,
        ) + " exceeded"@,
        depth_limit_text(limit)
            == "[mongo_script.resource_limit] MongoDB script value depth limit of "@ + decimal_text(
            limit as nat,
        ) + " exceeded"@,
{
    reveal_strlit("[mongo_script.");
    reveal_strlit("resource_limit");
    reveal_strlit("]");
    reveal_strlit(" ");
    reveal_strlit("MongoDB script value node limit of ");
    reveal_strlit("MongoDB script value depth limit of ");
    reveal_strlit("[mongo_script.resource_limit] MongoDB script value node limit of ");
    reveal_strlit("[mongo_script.resource_limit] MongoDB script value depth limit of ");
    assert(node_limit_text(limit)
        =~= "[mongo_script.resource_limit] MongoDB script value node limit of "@ + decimal_text(
        limit as nat,
    ) + " exceeded"@);
    assert(depth_limit_text(limit)
        =~= "[mongo_script.resource_limit] MongoDB script value depth limit of "@ + decimal_text(
        limit as nat,
    ) + " exceeded"@);
}

/// Whatever `check_node` returns: a node passes exactly if neither its number nor its depth is over
/// its limit, and its number is reported before its depth.
pub proof fn lemma_nodes_are_checked_for_number_and_depth(
    nodes: usize,
    depth: usize,
    limits: MongoScriptLimits,
    outcome: Result<(), String>,
)
    requires
        call_ensures(check_node, (nodes, depth, &limits), outcome),
    ensures
        outcome is Ok <==> nodes <= limits.max_value_nodes && depth <= limits.max_value_depth,
        nodes > limits.max_value_nodes ==> outcome->Err_0@
            == "[mongo_script.resource_limit] MongoDB script value node limit of "@ + decimal_text(
            limits.max_value_nodes as nat,
        ) + " exceeded"@,
        nodes <= limits.max_value_nodes && depth > limits.max_value_depth ==> outcome->Err_0@
            == "[mongo_script.resource_limit] MongoDB script value depth limit of "@ + decimal_text(
            limits.max_value_depth as nat,
        ) + " exceeded"@,
{
    lemma_limit_texts(limits.max_value_nodes);
    lemma_limit_texts(limits.max_value_depth);
}

/// Whatever `check_shape` returns: a tree passes exactly if it has at most as many nodes, and is at
/// most as high, as the limits say; a limit of the largest number there is limits nothing.
pub proof fn lemma_trees_within_limits_pass<T: Nested>(
    root: &T,
    limits: MongoScriptLimits,
    outcome: Result<(), String>,
)
    requires
        call_ensures(check_shape::<T>, (root, &limits), outcome),
    ensures
        outcome is Ok <==> {
            &&& node_count(root.shape()) <= limits.max_value_nodes || limits.max_value_nodes
                == usize::MAX
            &&& height(root.shape()) <= limits.max_value_depth || limits.max_value_depth
                == usize::MAX
        },
{
    lemma_shape_within_limits(root.shape(), limits);
}

} // verus!
