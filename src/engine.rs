//! Execution of behavior trees, as a step function. Given a tree and the
//! answers its leaves have given so far, `next_step` says what to do next:
//! run a named leaf, or stop with the tree's outcome. The caller runs the
//! leaf, appends its answer and asks again; the engine itself never runs
//! anything. A `Children` node stops at the first child that does not
//! succeed, a `Fallback` node at the first child that does not fail.
use vstd::prelude::*;
use crate::document::{Node, Sequence};

verus! {

/// The result of running a leaf or a whole tree.
#[derive(Debug, Clone, PartialEq)]
pub enum Outcome {
    Success,
    Failure(String),
    Cancelled(String),
}

/// The mathematical value of an `Outcome`.
pub enum OutcomeView {
    Success,
    Failure(Seq<char>),
    Cancelled(Seq<char>),
}

impl View for Outcome {
    type V = OutcomeView;

    open spec fn view(&self) -> OutcomeView {
        match self {
            Outcome::Success => OutcomeView::Success,
            Outcome::Failure(reason) => OutcomeView::Failure(reason@),
            Outcome::Cancelled(reason) => OutcomeView::Cancelled(reason@),
        }
    }
}

impl Outcome {
    /// A copy of the outcome.
    pub fn duplicate(&self) -> (r: Outcome)
        ensures
            r@ == self@,
    {
        match self {
            Outcome::Success => Outcome::Success,
            Outcome::Failure(reason) => Outcome::Failure(reason.clone()),
            Outcome::Cancelled(reason) => Outcome::Cancelled(reason.clone()),
        }
    }
}

/// What to do next with a tree.
#[derive(Debug, Clone, PartialEq)]
pub enum Step {
    /// Run the leaf of this name and append its answer.
    RunLeaf(String),
    /// The tree is done with `outcome`, having read the first `used` answers.
    Done { outcome: Outcome, used: usize },
}

/// How far a run has got with a given list of answers.
pub enum Progress {
    /// The leaf of this name must run before the run can go on.
    Waiting(Seq<char>),
    /// The run is over with this outcome; this many answers were read.
    Finished(OutcomeView, int),
}

impl View for Step {
    type V = Progress;

    open spec fn view(&self) -> Progress {
        match self {
            Step::RunLeaf(name) => Progress::Waiting(name@),
            Step::Done { outcome, used } => Progress::Finished(outcome@, *used as int),
        }
    }
}

/// The views of a list of answers.
pub open spec fn answers_view(answers: Seq<Outcome>) -> Seq<OutcomeView> {
    answers.map_values(|o: Outcome| o@)
}

/// A failure below a node that carries an error label is reported with the
/// label in front of its reason; other outcomes are left as they are.
pub open spec fn annotate(label: Option<String>, outcome: OutcomeView) -> OutcomeView {
    match outcome {
        OutcomeView::Failure(reason) => match label {
            Some(l) => OutcomeView::Failure(l@ + ": "@ + reason),
            None => outcome,
        },
        _ => outcome,
    }
}

/// Running `node` with the answers `outs[p..]`: a leaf reads the next
/// answer, or waits for it when there is none left.
pub open spec fn progress_node(node: Node, outs: Seq<OutcomeView>, p: int) -> Progress
    decreases node, 0int,
{
    let raw = match node.sequence {
        None => if p < outs.len() {
            Progress::Finished(outs[p], p + 1)
        } else {
            Progress::Waiting(node.name@)
        },
        Some(Sequence::Children(v)) => progress_all(v@, 0, outs, p),
        Some(Sequence::Fallback(v)) => progress_any(v@, 0, outs, p),
    };
    match raw {
        Progress::Finished(o, q) => Progress::Finished(annotate(node.error, o), q),
        Progress::Waiting(name) => Progress::Waiting(name),
    }
}

/// Runs `nodes[i..]` as an ordered AND: success when every child succeeds,
/// else the outcome of the first child that did not succeed.
pub open spec fn progress_all(nodes: Seq<Node>, i: int, outs: Seq<OutcomeView>, p: int) -> Progress
    decreases nodes, nodes.len() - i,
{
    if 0 <= i < nodes.len() {
        match progress_node(nodes[i], outs, p) {
            Progress::Finished(o, q) => if o is Success {
                progress_all(nodes, i + 1, outs, q)
            } else {
                Progress::Finished(o, q)
            },
            Progress::Waiting(name) => Progress::Waiting(name),
        }
    } else {
        Progress::Finished(OutcomeView::Success, p)
    }
}

/// Runs `nodes[i..]` as an ordered OR: the outcome of the first child that
/// did not fail, else the failure of the last child. With no child at all
/// it fails with an empty reason.
pub open spec fn progress_any(nodes: Seq<Node>, i: int, outs: Seq<OutcomeView>, p: int) -> Progress
    decreases nodes, nodes.len() - i,
{
    if 0 <= i < nodes.len() {
        match progress_node(nodes[i], outs, p) {
            Progress::Finished(o, q) => if o is Failure && i + 1 < nodes.len() {
                progress_any(nodes, i + 1, outs, q)
            } else {
                Progress::Finished(o, q)
            },
            Progress::Waiting(name) => Progress::Waiting(name),
        }
    } else {
        Progress::Finished(OutcomeView::Failure(Seq::empty()), p)
    }
}

/// Applies a node's error label to an outcome.
fn annotate_outcome(label: &Option<String>, outcome: Outcome) -> (r: Outcome)
    ensures
        r@ == annotate(*label, outcome@),
{
    match (label, outcome) {
        (Some(l), Outcome::Failure(reason)) => {
            let mut text = l.clone();
            text.append(": ");
            text.append(reason.as_str());
            Outcome::Failure(text)
        },
        (_, outcome) => outcome,
    }
}

fn step_node(node: &Node, answers: &Vec<Outcome>, p: usize) -> (r: Step)
    requires
        p <= answers.len(),
    ensures
        r@ == progress_node(*node, answers_view(answers@), p as int),
        r matches Step::Done { used, .. } ==> p <= used <= answers.len(),
    decreases *node, 0int,
{
    let raw = match &node.sequence {
        None => {
            if p < answers.len() {
                Step::Done { outcome: answers[p].duplicate(), used: p + 1 }
            } else {
                return Step::RunLeaf(node.name.clone());
            }
        },
        Some(Sequence::Children(children)) => step_all(children, 0, answers, p),
        Some(Sequence::Fallback(children)) => step_any(children, 0, answers, p),
    };
    match raw {
        Step::Done { outcome, used } => Step::Done { outcome: annotate_outcome(&node.error, outcome), used },
        Step::RunLeaf(name) => Step::RunLeaf(name),
    }
}

fn step_all(nodes: &Vec<Node>, i: usize, answers: &Vec<Outcome>, p: usize) -> (r: Step)
    requires
        i <= nodes.len(),
        p <= answers.len(),
    ensures
        r@ == progress_all(nodes@, i as int, answers_view(answers@), p as int),
        r matches Step::Done { used, .. } ==> p <= used <= answers.len(),
    decreases nodes@, nodes@.len() - i,
{
    if i == nodes.len() {
        return Step::Done { outcome: Outcome::Success, used: p };
    }
    match step_node(&nodes[i], answers, p) {
        Step::Done { outcome, used } => {
            if matches!(outcome, Outcome::Success) {
                step_all(nodes, i + 1, answers, used)
            } else {
                Step::Done { outcome, used }
            }
        },
        Step::RunLeaf(name) => Step::RunLeaf(name),
    }
}

fn step_any(nodes: &Vec<Node>, i: usize, answers: &Vec<Outcome>, p: usize) -> (r: Step)
    requires
        i <= nodes.len(),
        p <= answers.len(),
    ensures
        r@ == progress_any(nodes@, i as int, answers_view(answers@), p as int),
        r matches Step::Done { used, .. } ==> p <= used <= answers.len(),
    decreases nodes@, nodes@.len() - i,
{
    if i == nodes.len() {
        return Step::Done { outcome: Outcome::Failure(String::new()), used: p };
    }
    match step_node(&nodes[i], answers, p) {
        Step::Done { outcome, used } => {
            if matches!(outcome, Outcome::Failure(_)) && i + 1 < nodes.len() {
                step_any(nodes, i + 1, answers, used)
            } else {
                Step::Done { outcome, used }
            }
        },
        Step::RunLeaf(name) => Step::RunLeaf(name),
    }
}

/// What to do next with the tree below `node`, its leaves having answered
/// `answers` so far, in the order they were asked. Children run strictly in
/// order; a `Children` node stops at the first child that does not succeed,
/// a `Fallback` node at the first child that succeeds or is cancelled. A
/// driver starts with no answers, runs each leaf asked for, appends the
/// answer, and stops at `Done`.
pub fn next_step(node: &Node, answers: &Vec<Outcome>) -> (r: Step)
    ensures
        r@ == progress_node(*node, answers_view(answers@), 0),
        r matches Step::Done { used, .. } ==> used <= answers.len(),
{
    step_node(node, answers, 0)
}

/// A `Cancelled` answer ends the run: whatever the tree, once a leaf's
/// answer is `Cancelled`, no further answer is read at any level and that
/// answer, unchanged, is the outcome of the whole run.
pub proof fn cancellation_ends_the_run(node: Node, outs: Seq<OutcomeView>, p: int, o: OutcomeView, q: int, k: int)
    requires
        progress_node(node, outs, p) == Progress::Finished(o, q),
        p <= k < q,
        outs[k] is Cancelled,
    ensures
        k == q - 1,
        o == outs[k],
    decreases node, 0int,
{
    match node.sequence {
        None => {},
        Some(Sequence::Children(v)) => {
            if let Progress::Finished(o1, q1) = progress_all(v@, 0, outs, p) {
                cancellation_ends_all(v@, 0, outs, p, o1, q1, k);
            }
        },
        Some(Sequence::Fallback(v)) => {
            if let Progress::Finished(o1, q1) = progress_any(v@, 0, outs, p) {
                cancellation_ends_any(v@, 0, outs, p, o1, q1, k);
            }
        },
    }
}

proof fn cancellation_ends_all(nodes: Seq<Node>, i: int, outs: Seq<OutcomeView>, p: int, o: OutcomeView, q: int, k: int)
    requires
        progress_all(nodes, i, outs, p) == Progress::Finished(o, q),
        p <= k < q,
        outs[k] is Cancelled,
    ensures
        k == q - 1,
        o == outs[k],
    decreases nodes, nodes.len() - i,
{
    if 0 <= i < nodes.len() {
        match progress_node(nodes[i], outs, p) {
            Progress::Finished(o1, q1) => {
                lemma_reads_forward(nodes[i], outs, p);
                if k < q1 {
                    cancellation_ends_the_run(nodes[i], outs, p, o1, q1, k);
                } else {
                    cancellation_ends_all(nodes, i + 1, outs, q1, o, q, k);
                }
            },
            Progress::Waiting(_) => {},
        }
    }
}

proof fn cancellation_ends_any(nodes: Seq<Node>, i: int, outs: Seq<OutcomeView>, p: int, o: OutcomeView, q: int, k: int)
    requires
        progress_any(nodes, i, outs, p) == Progress::Finished(o, q),
        p <= k < q,
        outs[k] is Cancelled,
    ensures
        k == q - 1,
        o == outs[k],
    decreases nodes, nodes.len() - i,
{
    if 0 <= i < nodes.len() {
        match progress_node(nodes[i], outs, p) {
            Progress::Finished(o1, q1) => {
                lemma_reads_forward(nodes[i], outs, p);
                if k < q1 {
                    cancellation_ends_the_run(nodes[i], outs, p, o1, q1, k);
                } else {
                    cancellation_ends_any(nodes, i + 1, outs, q1, o, q, k);
                }
            },
            Progress::Waiting(_) => {},
        }
    }
}

/// A finished run reads answers forward from where it starts.
proof fn lemma_reads_forward(node: Node, outs: Seq<OutcomeView>, p: int)
    ensures
        progress_node(node, outs, p) matches Progress::Finished(_, q) ==> p <= q,
    decreases node, 0int,
{
    match node.sequence {
        None => {},
        Some(Sequence::Children(v)) => lemma_reads_forward_all(v@, 0, outs, p),
        Some(Sequence::Fallback(v)) => lemma_reads_forward_any(v@, 0, outs, p),
    }
}

proof fn lemma_reads_forward_all(nodes: Seq<Node>, i: int, outs: Seq<OutcomeView>, p: int)
    ensures
        progress_all(nodes, i, outs, p) matches Progress::Finished(_, q) ==> p <= q,
    decreases nodes, nodes.len() - i,
{
    if 0 <= i < nodes.len() {
        lemma_reads_forward(nodes[i], outs, p);
        match progress_node(nodes[i], outs, p) {
            Progress::Finished(_, q1) => lemma_reads_forward_all(nodes, i + 1, outs, q1),
            Progress::Waiting(_) => {},
        }
    }
}

proof fn lemma_reads_forward_any(nodes: Seq<Node>, i: int, outs: Seq<OutcomeView>, p: int)
    ensures
        progress_any(nodes, i, outs, p) matches Progress::Finished(_, q) ==> p <= q,
    decreases nodes, nodes.len() - i,
{
    if 0 <= i < nodes.len() {
        lemma_reads_forward(nodes[i], outs, p);
        match progress_node(nodes[i], outs, p) {
            Progress::Finished(_, q1) => lemma_reads_forward_any(nodes, i + 1, outs, q1),
            Progress::Waiting(_) => {},
        }
    }
}

/// `a` and `b` are the same tree but for the error labels of their nodes.
pub open spec fn same_but_labels(a: Node, b: Node) -> bool
    decreases a, 0int,
{
    a.name@ == b.name@ && match a.sequence {
        None => b.sequence is None,
        Some(Sequence::Children(va)) => match b.sequence {
            Some(Sequence::Children(vb)) => same_lists_but_labels(va@, vb@, 0),
            _ => false,
        },
        Some(Sequence::Fallback(va)) => match b.sequence {
            Some(Sequence::Fallback(vb)) => same_lists_but_labels(va@, vb@, 0),
            _ => false,
        },
    }
}

/// `xs[i..]` and `ys[i..]` are the same trees but for error labels.
pub open spec fn same_lists_but_labels(xs: Seq<Node>, ys: Seq<Node>, i: int) -> bool
    decreases xs, xs.len() - i,
{
    xs.len() == ys.len() && (0 <= i < xs.len() ==> same_but_labels(xs[i], ys[i]) && same_lists_but_labels(
        xs,
        ys,
        i + 1,
    ))
}

/// Two outcomes of the same kind: equal, except that two failures may give
/// different reasons.
pub open spec fn same_kind(o1: OutcomeView, o2: OutcomeView) -> bool {
    if o1 is Failure {
        o2 is Failure
    } else {
        o1 == o2
    }
}

/// Two runs at the same point: waiting for the same leaf, or finished with
/// outcomes of the same kind after reading the same answers.
pub open spec fn same_control(r1: Progress, r2: Progress) -> bool {
    match r1 {
        Progress::Waiting(n1) => r2 == Progress::Waiting(n1),
        Progress::Finished(o1, q1) => match r2 {
            Progress::Finished(o2, q2) => q1 == q2 && same_kind(o1, o2),
            Progress::Waiting(_) => false,
        },
    }
}

/// Error labels never change control flow: two trees that differ only in
/// their labels, given the same answers, ask for the same leaves and end
/// after the same answers with outcomes of the same kind.
pub proof fn labels_do_not_change_control(a: Node, b: Node, outs: Seq<OutcomeView>, p: int)
    requires
        same_but_labels(a, b),
    ensures
        same_control(progress_node(a, outs, p), progress_node(b, outs, p)),
    decreases a, 0int,
{
    match a.sequence {
        None => {},
        Some(Sequence::Children(va)) => {
            if let Some(Sequence::Children(vb)) = b.sequence {
                labels_do_not_change_control_all(va@, vb@, 0, outs, p);
            }
        },
        Some(Sequence::Fallback(va)) => {
            if let Some(Sequence::Fallback(vb)) = b.sequence {
                labels_do_not_change_control_any(va@, vb@, 0, outs, p);
            }
        },
    }
}

proof fn labels_do_not_change_control_all(xs: Seq<Node>, ys: Seq<Node>, i: int, outs: Seq<OutcomeView>, p: int)
    requires
        same_lists_but_labels(xs, ys, i),
    ensures
        same_control(progress_all(xs, i, outs, p), progress_all(ys, i, outs, p)),
    decreases xs, xs.len() - i,
{
    if 0 <= i < xs.len() {
        labels_do_not_change_control(xs[i], ys[i], outs, p);
        if let Progress::Finished(_, q) = progress_node(xs[i], outs, p) {
            labels_do_not_change_control_all(xs, ys, i + 1, outs, q);
        }
    }
}

proof fn labels_do_not_change_control_any(xs: Seq<Node>, ys: Seq<Node>, i: int, outs: Seq<OutcomeView>, p: int)
    requires
        same_lists_but_labels(xs, ys, i),
    ensures
        same_control(progress_any(xs, i, outs, p), progress_any(ys, i, outs, p)),
    decreases xs, xs.len() - i,
{
    if 0 <= i < xs.len() {
        labels_do_not_change_control(xs[i], ys[i], outs, p);
        if let Progress::Finished(_, q) = progress_node(xs[i], outs, p) {
            labels_do_not_change_control_any(xs, ys, i + 1, outs, q);
        }
    }
}

} // verus!
