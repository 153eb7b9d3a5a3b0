//! Graphviz (DOT) text for behavior trees and workflows.
use vstd::prelude::*;
use crate::document::{first_tree_from, get_tree_by_name, tree_names, BehaviorTreeFile, Library, Node, Sequence, WorkflowFile};
use crate::text::{decimal, decimal_text};
use crate::validate::{is_first_unknown, step_names, validate_workflow, workflow_ok, ValidationError};

verus! {

/// What can be drawn: one tree, or a workflow with the trees of its steps.
pub enum Input<'a> {
    Tree(&'a BehaviorTreeFile),
    Workflow(&'a WorkflowFile),
}

/// The opening of a graph titled `title`.
pub open spec fn start_text(title: Seq<char>) -> Seq<char> {
    "digraph \""@ + title
        + "\" {\nrankdir=LR;\nedge [arrowsize=0.6];\nnode [colorscheme=rdylbu11];\nedge [colorscheme=rdylbu11];\nranksep=0.6;\nnodesep=0.25;\n\n"@
}

/// Conditions are the nodes whose name starts with `is_`.
pub open spec fn is_condition_name(name: Seq<char>) -> bool {
    name.len() >= 3 && name[0] == 'i' && name[1] == 's' && name[2] == '_'
}

/// The shape of a node: conditions, other leaves, internal nodes.
pub open spec fn shape_of(node: Node) -> Seq<char> {
    if is_condition_name(node.name@) {
        "cds"@
    } else if node.sequence is None {
        "egg"@
    } else {
        "ellipse"@
    }
}

/// The fill colour of a node.
pub open spec fn color_of(node: Node) -> Seq<char> {
    if is_condition_name(node.name@) {
        "8"@
    } else if node.sequence is None {
        "5"@
    } else {
        "6"@
    }
}

/// The text colour of a node.
pub open spec fn fontcolor_of(node: Node) -> Seq<char> {
    if is_condition_name(node.name@) || node.sequence is None {
        "black"@
    } else {
        "11"@
    }
}

/// The mark after a condition's label.
pub open spec fn label_mark(node: Node) -> Seq<char> {
    if is_condition_name(node.name@) {
        "?"@
    } else {
        ""@
    }
}

/// The statement that draws one node.
pub open spec fn node_line(node: Node) -> Seq<char> {
    node.name@ + " [label=\""@ + node.name@ + label_mark(node) + "\", shape="@ + shape_of(node) + " color="@
        + color_of(node) + " fontcolor="@ + fontcolor_of(node)
        + " fontsize=12 style=\"rounded,filled\" fillcolor="@ + color_of(node) + "];\n"@
}

/// The statements that draw a node's error label and link it to the node.
pub open spec fn error_lines(node: Node) -> Seq<char> {
    match node.error {
        Some(e) => node.name@ + "_"@ + e@ + " [label=\""@ + e@
            + "\" shape=record color=1 fontcolor=white fontsize=12 style=filled fillcolor=1];\n"@ + node.name@
            + " -> "@ + node.name@ + "_"@ + e@ + " [color=1 style=bold];\n"@,
        None => Seq::empty(),
    }
}

/// The statement that links a parent to a child.
pub open spec fn edge_line(parent: Seq<char>, child: Seq<char>) -> Seq<char> {
    parent + " -> "@ + child + " [style=solid color=10];\n"@
}

/// The statements that draw a node and everything below it, depth first.
pub open spec fn node_dot(node: Node) -> Seq<char>
    decreases node, 0int,
{
    let below = match node.sequence {
        None => Seq::empty(),
        Some(Sequence::Children(v)) => children_dot(node.name@, v@, 0),
        Some(Sequence::Fallback(v)) => children_dot(node.name@, v@, 0),
    };
    node_line(node) + error_lines(node) + below
}

/// For each of `nodes[i..]`: the edge from `parent`, then the child's drawing.
pub open spec fn children_dot(parent: Seq<char>, nodes: Seq<Node>, i: int) -> Seq<char>
    decreases nodes, nodes.len() - i,
{
    if 0 <= i < nodes.len() {
        edge_line(parent, nodes[i].name@) + node_dot(nodes[i]) + children_dot(parent, nodes, i + 1)
    } else {
        Seq::empty()
    }
}

/// The record field of step `k` (counted from 1) named `name`.
pub open spec fn step_entry(k: nat, name: Seq<char>) -> Seq<char> {
    decimal(k) + " | <"@ + decimal(k) + "> "@ + name + " "@
}

/// The fields of the first `n` steps, separated by `| `.
pub open spec fn step_labels(names: Seq<Seq<char>>, n: int) -> Seq<char>
    decreases n,
{
    if n <= 0 {
        Seq::empty()
    } else if n == 1 {
        step_entry(1, names[0])
    } else {
        step_labels(names, n - 1) + "| "@ + step_entry(n as nat, names[n - 1])
    }
}

/// For each of the first `n` steps: the drawing of its tree, then the edge
/// from the step's field to the tree.
pub open spec fn workflow_trees(library: Library, names: Seq<Seq<char>>, n: int) -> Seq<char>
    decreases n,
{
    if n <= 0 {
        Seq::empty()
    } else {
        workflow_trees(library, names, n - 1) + node_dot(
            library.trees@[first_tree_from(library.trees@, names[n - 1], 0)].tree,
        ) + "workflow:"@ + decimal(n as nat) + " -> "@ + names[n - 1] + " [style=solid color=10];\n"@
    }
}

/// The statements that draw a workflow: a record of its steps, then each
/// step's tree.
pub open spec fn workflow_dot(workflow: WorkflowFile, library: Library) -> Seq<char> {
    let names = step_names(workflow);
    "workflow [shape=record, label=\"workflow | { "@ + step_labels(names, names.len() as int) + " }\"];\n"@
        + workflow_trees(library, names, names.len() as int)
}

/// Whether a name marks a condition.
fn is_condition(name: &String) -> (r: bool)
    ensures
        r == is_condition_name(name@),
{
    let text = name.as_str();
    text.unicode_len() >= 3 && text.get_char(0) == 'i' && text.get_char(1) == 's' && text.get_char(2) == '_'
}

/// The opening of a graph titled `title`.
fn starting_block(title: &String) -> (r: String)
    ensures
        r@ == start_text(title@),
{
    let mut block = String::from_str("digraph \"");
    block.append(title.as_str());
    block.append(
        "\" {\nrankdir=LR;\nedge [arrowsize=0.6];\nnode [colorscheme=rdylbu11];\nedge [colorscheme=rdylbu11];\nranksep=0.6;\nnodesep=0.25;\n\n",
    );
    block
}

/// Appends the drawing of `node` and everything below it to `dot`.
fn traverse_nodes(node: &Node, dot: &mut String)
    ensures
        final(dot)@ == old(dot)@ + node_dot(*node),
    decreases *node, 0int,
{
    let condition = is_condition(&node.name);
    let leaf = node.sequence.is_none();
    let (shape, color, fontcolor) = if condition {
        ("cds", "8", "black")
    } else if leaf {
        ("egg", "5", "black")
    } else {
        ("ellipse", "6", "11")
    };
    let mut line = node.name.clone();
    line.append(" [label=\"");
    line.append(node.name.as_str());
    line.append(if condition { "?" } else { "" });
    line.append("\", shape=");
    line.append(shape);
    line.append(" color=");
    line.append(color);
    line.append(" fontcolor=");
    line.append(fontcolor);
    line.append(" fontsize=12 style=\"rounded,filled\" fillcolor=");
    line.append(color);
    line.append("];\n");
    assert(line@ == node_line(*node));
    let ghost start = dot@;
    dot.append(line.as_str());
    match &node.error {
        Some(error) => {
            let mut text = node.name.clone();
            text.append("_");
            text.append(error.as_str());
            text.append(" [label=\"");
            text.append(error.as_str());
            text.append("\" shape=record color=1 fontcolor=white fontsize=12 style=filled fillcolor=1];\n");
            text.append(node.name.as_str());
            text.append(" -> ");
            text.append(node.name.as_str());
            text.append("_");
            text.append(error.as_str());
            text.append(" [color=1 style=bold];\n");
            dot.append(text.as_str());
        },
        None => {},
    }
    let ghost drawn = dot@;
    assert(drawn =~= start + node_line(*node) + error_lines(*node));
    match &node.sequence {
        Some(Sequence::Children(nodes)) => traverse_children(&node.name, nodes, 0, dot),
        Some(Sequence::Fallback(nodes)) => traverse_children(&node.name, nodes, 0, dot),
        None => {},
    }
    assert(dot@ =~= start + node_dot(*node));
}

/// Appends, for each of `nodes[i..]`, the edge from `parent` and the
/// child's drawing.
fn traverse_children(parent: &String, nodes: &Vec<Node>, i: usize, dot: &mut String)
    requires
        i <= nodes.len(),
    ensures
        final(dot)@ == old(dot)@ + children_dot(parent@, nodes@, i as int),
    decreases nodes@, nodes@.len() - i,
{
    let ghost start = dot@;
    if i == nodes.len() {
        assert(dot@ =~= start + children_dot(parent@, nodes@, i as int));
        return;
    }
    let child = &nodes[i];
    let mut edge = parent.clone();
    edge.append(" -> ");
    edge.append(child.name.as_str());
    edge.append(" [style=solid color=10];\n");
    dot.append(edge.as_str());
    traverse_nodes(child, dot);
    traverse_children(parent, nodes, i + 1, dot);
    assert(dot@ =~= start + children_dot(parent@, nodes@, i as int));
}

/// Appends the drawing of a tree to `dot`.
pub fn tree_to_dot(tree: &BehaviorTreeFile, dot: &mut String)
    ensures
        final(dot)@ == old(dot)@ + node_dot(tree.tree),
{
    traverse_nodes(&tree.tree, dot);
}

/// Appends the drawing of the tree named `name`, then the edge from the
/// workflow's field `number` to it.
fn draw_step(name: &String, number: u64, library: &Library, dot: &mut String)
    requires
        tree_names(library.trees@).contains(name@),
    ensures
        final(dot)@ == old(dot)@ + node_dot(library.trees@[first_tree_from(library.trees@, name@, 0)].tree)
            + "workflow:"@ + decimal(number as nat) + " -> "@ + name@ + " [style=solid color=10];\n"@,
{
    match get_tree_by_name(name.as_str(), library) {
        Some(tree) => {
            tree_to_dot(tree, dot);
        },
        None => {},
    }
    dot.append("workflow:");
    dot.append(decimal_text(number).as_str());
    dot.append(" -> ");
    dot.append(name.as_str());
    dot.append(" [style=solid color=10];\n");
}

/// Appends the drawing of a workflow and of the trees of its steps to
/// `dot`. Fails, leaving `dot` as it was, with the first step that names no
/// tree of the library.
pub fn workflow_to_dot(workflow: &WorkflowFile, dot: &mut String, library: &Library) -> (r: Result<(), String>)
    ensures
        r is Ok <==> workflow_ok(*workflow, *library),
        r is Ok ==> final(dot)@ == old(dot)@ + workflow_dot(*workflow, *library),
        r matches Err(step) ==> final(dot)@ == old(dot)@ && is_first_unknown(
            step_names(*workflow),
            tree_names(library.trees@),
            step@,
        ),
{
    match validate_workflow(workflow, library) {
        Err(ValidationError::UnknownWorkflowStep { step, .. }) => {
            return Err(step);
        },
        Err(_) => {
            return Err(String::new());
        },
        Ok(()) => {},
    }
    let ghost names = step_names(*workflow);
    let n = workflow.workflow.len();
    let mut labels = String::new();
    let mut i: usize = 0;
    while i < n
        invariant
            0 <= i <= n,
            n == workflow.workflow@.len(),
            names == step_names(*workflow),
            labels@ =~= step_labels(names, i as int),
        decreases n - i,
    {
        if i > 0 {
            labels.append("| ");
        }
        let number = decimal_text((i + 1) as u64);
        labels.append(number.as_str());
        labels.append(" | <");
        labels.append(number.as_str());
        labels.append("> ");
        labels.append(workflow.workflow[i].name.as_str());
        labels.append(" ");
        assert(names[i as int] == workflow.workflow@[i as int].name@);
        assert(labels@ =~= step_labels(names, i + 1));
        i = i + 1;
    }
    let ghost start = dot@;
    dot.append("workflow [shape=record, label=\"workflow | { ");
    dot.append(labels.as_str());
    dot.append(" }\"];\n");
    let ghost head = dot@;
    let mut j: usize = 0;
    while j < n
        invariant
            0 <= j <= n,
            n == workflow.workflow@.len(),
            names == step_names(*workflow),
            workflow_ok(*workflow, *library),
            dot@ =~= head + workflow_trees(*library, names, j as int),
        decreases n - j,
    {
        let name = &workflow.workflow[j].name;
        assert(names[j as int] == name@);
        assert(tree_names(library.trees@).contains(names[j as int]));
        draw_step(name, (j + 1) as u64, library, dot);
        assert(dot@ =~= head + workflow_trees(*library, names, j + 1));
        j = j + 1;
    }
    assert(dot@ =~= start + workflow_dot(*workflow, *library));
    Ok(())
}

/// The whole graph of a tree, or of a workflow with its trees.
pub fn input_to_dot(input: &Input, library: &Library) -> (r: Result<String, String>)
    ensures
        match *input {
            Input::Tree(tree) => r matches Ok(dot) && dot@ == start_text(tree.title@) + node_dot(tree.tree) + "}\n"@,
            Input::Workflow(workflow) => {
                &&& (r is Ok <==> workflow_ok(*workflow, *library))
                &&& (r matches Ok(dot) ==> dot@ == start_text(workflow.title@) + workflow_dot(*workflow, *library)
                    + "}\n"@)
                &&& (r matches Err(step) ==> is_first_unknown(
                    step_names(*workflow),
                    tree_names(library.trees@),
                    step@,
                ))
            },
        },
{
    match input {
        Input::Tree(tree) => {
            let mut dot = starting_block(&tree.title);
            tree_to_dot(tree, &mut dot);
            dot.append("}\n");
            Ok(dot)
        },
        Input::Workflow(workflow) => {
            let mut dot = starting_block(&workflow.title);
            match workflow_to_dot(workflow, &mut dot, library) {
                Ok(()) => {
                    dot.append("}\n");
                    Ok(dot)
                },
                Err(step) => Err(step),
            }
        },
    }
}

} // verus!
