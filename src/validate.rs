//! Cross-reference validation of a library. The checks run in a fixed order
//! and stop at the first violation: versions, known-node references, each
//! tree, then each workflow.
use vstd::prelude::*;
use crate::document::{
    contains_key, contains_name, get_tree_by_name, keys, names, tree_names, BehaviorTreeFile,
    KnownNode, KnownNodesFile, Library, ModuleFile, Node, Sequence, ToolFile, WorkflowFile,
    WorkflowStep,
};

verus! {

/// The documents whose version string is checked.
#[derive(Debug, Clone, Copy, PartialEq, Eq, Structural)]
pub enum DocumentKind {
    Modules,
    Tools,
    Nodes,
}

/// The first inconsistency found in a library.
#[derive(Debug, Clone, PartialEq)]
pub enum ValidationError {
    /// The version string of a document is not a semantic version.
    InvalidVersion { document: DocumentKind },
    /// A known node talks to a module that is neither a module nor a tool.
    UnknownModuleReference { node: String, module: String },
    /// A leaf of a tree names no known node.
    UnknownLeafNode { tree: String, node: String },
    /// A tree is named like a known node.
    ReservedTreeName { tree: String },
    /// A tree lists a participant that is not a module.
    UnknownParticipant { tree: String, participant: String },
    /// A workflow step names no loaded tree.
    UnknownWorkflowStep { workflow: String, step: String },
}

/// The leaf names of a tree, depth first, left to right.
pub open spec fn leaves(node: Node) -> Seq<Seq<char>>
    decreases node, 0int,
{
    match node.sequence {
        None => seq![node.name@],
        Some(Sequence::Children(v)) => leaves_from(v@, 0),
        Some(Sequence::Fallback(v)) => leaves_from(v@, 0),
    }
}

/// The leaf names of `nodes[i..]`, in order.
pub open spec fn leaves_from(nodes: Seq<Node>, i: int) -> Seq<Seq<char>>
    decreases nodes, nodes.len() - i,
{
    if 0 <= i < nodes.len() {
        leaves(nodes[i]) + leaves_from(nodes, i + 1)
    } else {
        Seq::empty()
    }
}

/// Every name of `list` is in `known`.
pub open spec fn all_known(list: Seq<Seq<char>>, known: Seq<Seq<char>>) -> bool {
    forall|k: int| 0 <= k < list.len() ==> known.contains(#[trigger] list[k])
}

/// `x` is the first name of `list` that is not in `known`.
pub open spec fn is_first_unknown(list: Seq<Seq<char>>, known: Seq<Seq<char>>, x: Seq<char>) -> bool {
    exists|k: int|
        0 <= k < list.len() && #[trigger] list[k] == x && !known.contains(x) && all_known(
            list.subrange(0, k),
            known,
        )
}

proof fn lemma_first_unknown_append(a: Seq<Seq<char>>, b: Seq<Seq<char>>, known: Seq<Seq<char>>, x: Seq<char>)
    ensures
        is_first_unknown(a, known, x) ==> is_first_unknown(a + b, known, x),
        all_known(a, known) && is_first_unknown(b, known, x) ==> is_first_unknown(a + b, known, x),
        all_known(a, known) && all_known(b, known) ==> all_known(a + b, known),
        all_known(a + b, known) ==> all_known(a, known) && all_known(b, known),
{
    if is_first_unknown(a, known, x) {
        let k = choose|k: int|
            0 <= k < a.len() && #[trigger] a[k] == x && !known.contains(x) && all_known(a.subrange(0, k), known);
        assert((a + b)[k] == x);
        assert((a + b).subrange(0, k) =~= a.subrange(0, k));
    }
    if all_known(a, known) && is_first_unknown(b, known, x) {
        let k = choose|k: int|
            0 <= k < b.len() && #[trigger] b[k] == x && !known.contains(x) && all_known(b.subrange(0, k), known);
        let j = a.len() + k;
        assert((a + b)[j] == x);
        let pre = (a + b).subrange(0, j);
        assert forall|m: int| 0 <= m < pre.len() implies known.contains(#[trigger] pre[m]) by {
            if m < a.len() {
                assert(pre[m] == a[m]);
            } else {
                assert(pre[m] == b.subrange(0, k)[m - a.len()]);
            }
        }
    }
    if all_known(a, known) && all_known(b, known) {
        assert forall|m: int| 0 <= m < (a + b).len() implies known.contains(#[trigger] (a + b)[m]) by {
            if m < a.len() {
                assert((a + b)[m] == a[m]);
            } else {
                assert((a + b)[m] == b[m - a.len()]);
            }
        }
    }
    if all_known(a + b, known) {
        assert forall|m: int| 0 <= m < a.len() implies known.contains(#[trigger] a[m]) by {
            assert((a + b)[m] == a[m]);
        }
        assert forall|m: int| 0 <= m < b.len() implies known.contains(#[trigger] b[m]) by {
            assert((a + b)[a.len() + m] == b[m]);
        }
    }
}

/// Checks that every leaf below `node` is a known node; on failure returns
/// the first unknown leaf name, depth first.
pub fn validate_node(node: &Node, library: &Library) -> (r: Result<(), String>)
    ensures
        r is Ok <==> all_known(leaves(*node), keys(library.nodes.content@)),
        r matches Err(x) ==> is_first_unknown(leaves(*node), keys(library.nodes.content@), x@),
    decreases *node, 0int,
{
    match &node.sequence {
        None => {
            let known = contains_key(&library.nodes.content, &node.name);
            let ghost l = leaves(*node);
            assert(l =~= seq![node.name@]);
            if known {
                Ok(())
            } else {
                assert(l[0] == node.name@);
                assert(l.subrange(0, 0) =~= Seq::<Seq<char>>::empty());
                Err(node.name.clone())
            }
        },
        Some(Sequence::Children(children)) => validate_children(children, 0, library),
        Some(Sequence::Fallback(children)) => validate_children(children, 0, library),
    }
}

fn validate_children(nodes: &Vec<Node>, i: usize, library: &Library) -> (r: Result<(), String>)
    requires
        i <= nodes.len(),
    ensures
        r is Ok <==> all_known(leaves_from(nodes@, i as int), keys(library.nodes.content@)),
        r matches Err(x) ==> is_first_unknown(
            leaves_from(nodes@, i as int),
            keys(library.nodes.content@),
            x@,
        ),
    decreases nodes@, nodes@.len() - i,
{
    let ghost known = keys(library.nodes.content@);
    if i == nodes.len() {
        assert(leaves_from(nodes@, i as int) =~= Seq::<Seq<char>>::empty());
        return Ok(());
    }
    let ghost head = leaves(nodes@[i as int]);
    let ghost tail = leaves_from(nodes@, i + 1);
    assert(leaves_from(nodes@, i as int) == head + tail);
    match validate_node(&nodes[i], library) {
        Err(x) => {
            proof {
                lemma_first_unknown_append(head, tail, known, x@);
            }
            Err(x)
        },
        Ok(()) => {
            let r = validate_children(nodes, i + 1, library);
            proof {
                if r is Err {
                    lemma_first_unknown_append(head, tail, known, r->Err_0@);
                }
                lemma_first_unknown_append(head, tail, known, Seq::empty());
            }
            r
        },
    }
}

/// Whether the text is a semantic version, as semver's parser decides.
pub uninterp spec fn is_semver(text: Seq<char>) -> bool;

/// Relies on `semver::Version::parse`: whether it accepts a text depends on
/// the text alone, and it rejects the empty text.
#[verifier::external_body]
fn parses_as_semver(text: &str) -> (r: bool)
    ensures
        r == is_semver(text@),
        text@.len() == 0 ==> !r,
{
    semver::Version::parse(text).is_ok()
}

/// `x` is the first name of `list` that `known` lacks; `None` when every
/// name is known.
fn first_unknown_name(list: &Vec<String>, known: &Vec<String>) -> (r: Option<String>)
    ensures
        r is None <==> all_known(names(list@), names(known@)),
        r matches Some(x) ==> is_first_unknown(names(list@), names(known@), x@),
{
    let mut i: usize = 0;
    while i < list.len()
        invariant
            0 <= i <= list.len(),
            all_known(names(list@).subrange(0, i as int), names(known@)),
        decreases list.len() - i,
    {
        if !contains_name(known, &list[i]) {
            assert(names(list@)[i as int] == list@[i as int]@);
            return Some(list[i].clone());
        }
        assert(names(list@).subrange(0, i + 1)[i as int] == list@[i as int]@);
        assert forall|k: int| 0 <= k < i + 1 implies names(known@).contains(
            #[trigger] names(list@).subrange(0, i + 1)[k],
        ) by {
            if k < i {
                assert(names(list@).subrange(0, i + 1)[k] == names(list@).subrange(0, i as int)[k]);
            }
        }
        i = i + 1;
    }
    assert(names(list@).subrange(0, i as int) =~= names(list@));
    None
}

/// Like `first_unknown_name`, with the names of a keyed document as the
/// known names.
fn first_unknown_key<T>(list: &Vec<String>, known: &Vec<(String, T)>) -> (r: Option<String>)
    ensures
        r is None <==> all_known(names(list@), keys(known@)),
        r matches Some(x) ==> is_first_unknown(names(list@), keys(known@), x@),
{
    let mut i: usize = 0;
    while i < list.len()
        invariant
            0 <= i <= list.len(),
            all_known(names(list@).subrange(0, i as int), keys(known@)),
        decreases list.len() - i,
    {
        if !contains_key(known, &list[i]) {
            assert(names(list@)[i as int] == list@[i as int]@);
            return Some(list[i].clone());
        }
        assert(names(list@).subrange(0, i + 1)[i as int] == list@[i as int]@);
        assert forall|k: int| 0 <= k < i + 1 implies keys(known@).contains(
            #[trigger] names(list@).subrange(0, i + 1)[k],
        ) by {
            if k < i {
                assert(names(list@).subrange(0, i + 1)[k] == names(list@).subrange(0, i as int)[k]);
            }
        }
        i = i + 1;
    }
    assert(names(list@).subrange(0, i as int) =~= names(list@));
    None
}

/// The names a module reference may use: every module, then every tool.
pub open spec fn dependency_names(modules: ModuleFile, tools: ToolFile) -> Seq<Seq<char>> {
    keys(modules.content@) + keys(tools.content@)
}

/// Collects the names of all modules, then of all tools.
pub fn dependencies_abbr(modules_file_data: &ModuleFile, tools_file_data: &ToolFile) -> (r: Vec<String>)
    ensures
        names(r@) == dependency_names(*modules_file_data, *tools_file_data),
{
    let mut abbrs: Vec<String> = Vec::new();
    let mut i: usize = 0;
    while i < modules_file_data.content.len()
        invariant
            0 <= i <= modules_file_data.content.len(),
            abbrs@.len() == i,
            names(abbrs@) =~= keys(modules_file_data.content@).subrange(0, i as int),
        decreases modules_file_data.content.len() - i,
    {
        let ghost before = abbrs@;
        abbrs.push(modules_file_data.content[i].0.clone());
        assert(abbrs@[i as int]@ == keys(modules_file_data.content@)[i as int]);
        assert forall|k: int| 0 <= k < i implies abbrs@[k] == before[k] by {}
        assert(names(abbrs@) =~= keys(modules_file_data.content@).subrange(0, i + 1));
        i = i + 1;
    }
    assert(keys(modules_file_data.content@).subrange(0, i as int) =~= keys(modules_file_data.content@));
    let mut j: usize = 0;
    while j < tools_file_data.content.len()
        invariant
            0 <= j <= tools_file_data.content.len(),
            abbrs@.len() == modules_file_data.content@.len() + j,
            names(abbrs@) =~= keys(modules_file_data.content@) + keys(tools_file_data.content@).subrange(
                0,
                j as int,
            ),
        decreases tools_file_data.content.len() - j,
    {
        let ghost before = abbrs@;
        let ghost m = keys(modules_file_data.content@).len();
        abbrs.push(tools_file_data.content[j].0.clone());
        assert(abbrs@[m + j]@ == keys(tools_file_data.content@)[j as int]);
        let ghost want = keys(modules_file_data.content@) + keys(tools_file_data.content@).subrange(0, j + 1);
        let ghost had = keys(modules_file_data.content@) + keys(tools_file_data.content@).subrange(0, j as int);
        assert forall|k: int| 0 <= k < m + j implies #[trigger] names(abbrs@)[k] == want[k] by {
            assert(abbrs@[k] == before[k]);
            assert(names(before)[k] == had[k]);
            if k < m {
                assert(want[k] == had[k]);
            } else {
                assert(want[k] == keys(tools_file_data.content@)[k - m]);
                assert(had[k] == keys(tools_file_data.content@)[k - m]);
            }
        }
        assert(names(abbrs@) =~= keys(modules_file_data.content@) + keys(tools_file_data.content@).subrange(
            0,
            j + 1,
        ));
        j = j + 1;
    }
    assert(keys(tools_file_data.content@).subrange(0, j as int) =~= keys(tools_file_data.content@));
    abbrs
}

/// The module names a known node talks to.
pub open spec fn references(node: KnownNode) -> Seq<Seq<char>> {
    match node.zenoh {
        Some(z) => names(z.modules@),
        None => Seq::empty(),
    }
}

/// The references of the first `a` known nodes are all in `known`.
pub open spec fn references_known_upto(entries: Seq<(String, KnownNode)>, known: Seq<Seq<char>>, a: int) -> bool {
    forall|i: int| 0 <= i < a ==> all_known(#[trigger] references(entries[i].1), known)
}

/// The references of every known node are in `known`.
pub open spec fn references_known(entries: Seq<(String, KnownNode)>, known: Seq<Seq<char>>) -> bool {
    references_known_upto(entries, known, entries.len() as int)
}

/// `e` reports the first unknown reference, known nodes in order and each
/// node's modules in order.
pub open spec fn is_first_unknown_reference(
    entries: Seq<(String, KnownNode)>,
    known: Seq<Seq<char>>,
    e: ValidationError,
) -> bool {
    exists|a: int|
        0 <= a < entries.len() && references_known_upto(entries, known, a) && (
        e matches ValidationError::UnknownModuleReference { node, module } && node@
            == #[trigger] entries[a].0@ && is_first_unknown(references(entries[a].1), known, module@))
}

/// Checks that every module a known node talks to is among
/// `known_dependencies`.
pub fn validate_nodes_library(nodes_file_data: &KnownNodesFile, known_dependencies: &Vec<String>) -> (r: Result<(), ValidationError>)
    ensures
        r is Ok <==> references_known(nodes_file_data.content@, names(known_dependencies@)),
        r matches Err(e) ==> is_first_unknown_reference(nodes_file_data.content@, names(known_dependencies@), e),
{
    let ghost entries = nodes_file_data.content@;
    let ghost known = names(known_dependencies@);
    let mut i: usize = 0;
    while i < nodes_file_data.content.len()
        invariant
            0 <= i <= nodes_file_data.content.len(),
            entries == nodes_file_data.content@,
            known == names(known_dependencies@),
            references_known_upto(entries, known, i as int),
        decreases nodes_file_data.content.len() - i,
    {
        let entry = &nodes_file_data.content[i];
        match &entry.1.zenoh {
            Some(zenoh) => {
                match first_unknown_name(&zenoh.modules, known_dependencies) {
                    Some(module) => {
                        let e = ValidationError::UnknownModuleReference { node: entry.0.clone(), module };
                        assert(entries[i as int].0@ == entry.0@);
                        assert(references(entries[i as int].1) == names(zenoh.modules@));
                        assert(!all_known(references(entries[i as int].1), known));
                        return Err(e);
                    },
                    None => {},
                }
            },
            None => {
                assert(references(entries[i as int].1) =~= Seq::<Seq<char>>::empty());
            },
        }
        assert(all_known(references(entries[i as int].1), known));
        i = i + 1;
    }
    Ok(())
}

/// What a valid tree satisfies: its name is not a known node's, its
/// participants are modules, and its leaves are known nodes.
pub open spec fn tree_ok(tree_file: BehaviorTreeFile, library: Library) -> bool {
    &&& !keys(library.nodes.content@).contains(tree_file.tree.name@)
    &&& all_known(names(tree_file.participants@), keys(library.modules.content@))
    &&& all_known(leaves(tree_file.tree), keys(library.nodes.content@))
}

/// `e` is the first violation in `tree_file`, checked in the order name,
/// participants, leaves.
pub open spec fn tree_first_error(tree_file: BehaviorTreeFile, library: Library, e: ValidationError) -> bool {
    let name = tree_file.tree.name@;
    if keys(library.nodes.content@).contains(name) {
        e matches ValidationError::ReservedTreeName { tree } && tree@ == name
    } else if !all_known(names(tree_file.participants@), keys(library.modules.content@)) {
        e matches ValidationError::UnknownParticipant { tree, participant } && tree@ == name
            && is_first_unknown(names(tree_file.participants@), keys(library.modules.content@), participant@)
    } else {
        e matches ValidationError::UnknownLeafNode { tree, node } && tree@ == name && is_first_unknown(
            leaves(tree_file.tree),
            keys(library.nodes.content@),
            node@,
        )
    }
}

/// Checks one behavior tree against the library.
pub fn validate_btree(tree_file: &BehaviorTreeFile, library: &Library) -> (r: Result<(), ValidationError>)
    ensures
        r is Ok <==> tree_ok(*tree_file, *library),
        r matches Err(e) ==> tree_first_error(*tree_file, *library, e),
{
    if contains_key(&library.nodes.content, &tree_file.tree.name) {
        return Err(ValidationError::ReservedTreeName { tree: tree_file.tree.name.clone() });
    }
    match first_unknown_key(&tree_file.participants, &library.modules.content) {
        Some(participant) => {
            return Err(ValidationError::UnknownParticipant { tree: tree_file.tree.name.clone(), participant });
        },
        None => {},
    }
    match validate_node(&tree_file.tree, library) {
        Err(node) => Err(ValidationError::UnknownLeafNode { tree: tree_file.tree.name.clone(), node }),
        Ok(()) => Ok(()),
    }
}

/// The step names of a workflow, in order.
pub open spec fn step_names(workflow_file: WorkflowFile) -> Seq<Seq<char>> {
    workflow_file.workflow@.map_values(|s: WorkflowStep| s.name@)
}

/// Every step of the workflow names a tree of the library.
pub open spec fn workflow_ok(workflow_file: WorkflowFile, library: Library) -> bool {
    all_known(step_names(workflow_file), tree_names(library.trees@))
}

/// `e` reports the first step of the workflow that names no tree.
pub open spec fn workflow_first_error(workflow_file: WorkflowFile, library: Library, e: ValidationError) -> bool {
    e matches ValidationError::UnknownWorkflowStep { workflow, step } && workflow@ == workflow_file.title@
        && is_first_unknown(step_names(workflow_file), tree_names(library.trees@), step@)
}

/// Checks that every step of a workflow names a tree of the library.
pub fn validate_workflow(workflow_file: &WorkflowFile, library: &Library) -> (r: Result<(), ValidationError>)
    ensures
        r is Ok <==> workflow_ok(*workflow_file, *library),
        r matches Err(e) ==> workflow_first_error(*workflow_file, *library, e),
{
    let ghost steps = step_names(*workflow_file);
    let ghost known = tree_names(library.trees@);
    let mut i: usize = 0;
    while i < workflow_file.workflow.len()
        invariant
            0 <= i <= workflow_file.workflow.len(),
            steps == step_names(*workflow_file),
            known == tree_names(library.trees@),
            all_known(steps.subrange(0, i as int), known),
        decreases workflow_file.workflow.len() - i,
    {
        let step = &workflow_file.workflow[i];
        assert(steps[i as int] == step.name@);
        if get_tree_by_name(step.name.as_str(), library).is_none() {
            return Err(ValidationError::UnknownWorkflowStep {
                workflow: workflow_file.title.clone(),
                step: step.name.clone(),
            });
        }
        assert forall|k: int| 0 <= k < i + 1 implies known.contains(#[trigger] steps.subrange(0, i + 1)[k]) by {
            if k < i {
                assert(steps.subrange(0, i + 1)[k] == steps.subrange(0, i as int)[k]);
            }
        }
        i = i + 1;
    }
    assert(steps.subrange(0, i as int) =~= steps);
    Ok(())
}

/// The first `a` trees of the library are valid.
pub open spec fn trees_ok_upto(library: Library, a: int) -> bool {
    forall|t: int| 0 <= t < a ==> tree_ok(#[trigger] library.trees@[t], library)
}

/// The first `a` workflows of the library are valid.
pub open spec fn workflows_ok_upto(library: Library, a: int) -> bool {
    forall|w: int| 0 <= w < a ==> workflow_ok(#[trigger] library.workflows@[w], library)
}

/// A library is valid when its three versions parse (as the flags say) and
/// every cross-reference resolves.
pub open spec fn library_ok(library: Library, modules_version_ok: bool, tools_version_ok: bool, nodes_version_ok: bool) -> bool {
    &&& modules_version_ok && tools_version_ok && nodes_version_ok
    &&& references_known(library.nodes.content@, dependency_names(library.modules, library.tools))
    &&& trees_ok_upto(library, library.trees@.len() as int)
    &&& workflows_ok_upto(library, library.workflows@.len() as int)
}

/// `e` is the first violation of the library, in the order versions,
/// known-node references, trees, workflows.
pub open spec fn first_error(
    library: Library,
    modules_version_ok: bool,
    tools_version_ok: bool,
    nodes_version_ok: bool,
    e: ValidationError,
) -> bool {
    if !modules_version_ok {
        e matches ValidationError::InvalidVersion { document } && document == DocumentKind::Modules
    } else if !tools_version_ok {
        e matches ValidationError::InvalidVersion { document } && document == DocumentKind::Tools
    } else if !nodes_version_ok {
        e matches ValidationError::InvalidVersion { document } && document == DocumentKind::Nodes
    } else if !references_known(library.nodes.content@, dependency_names(library.modules, library.tools)) {
        is_first_unknown_reference(library.nodes.content@, dependency_names(library.modules, library.tools), e)
    } else if !trees_ok_upto(library, library.trees@.len() as int) {
        exists|t: int|
            0 <= t < library.trees@.len() && trees_ok_upto(library, t) && !tree_ok(
                #[trigger] library.trees@[t],
                library,
            ) && tree_first_error(library.trees@[t], library, e)
    } else {
        exists|w: int|
            0 <= w < library.workflows@.len() && workflows_ok_upto(library, w) && !workflow_ok(
                #[trigger] library.workflows@[w],
                library,
            ) && workflow_first_error(library.workflows@[w], library, e)
    }
}

/// Checks every cross-reference of the library, given whether each version
/// string parsed, and reports the first violation.
pub fn check_library(library: &Library, modules_version_ok: bool, tools_version_ok: bool, nodes_version_ok: bool) -> (r: Result<(), ValidationError>)
    ensures
        r is Ok <==> library_ok(*library, modules_version_ok, tools_version_ok, nodes_version_ok),
        r matches Err(e) ==> first_error(*library, modules_version_ok, tools_version_ok, nodes_version_ok, e),
{
    if !modules_version_ok {
        return Err(ValidationError::InvalidVersion { document: DocumentKind::Modules });
    }
    if !tools_version_ok {
        return Err(ValidationError::InvalidVersion { document: DocumentKind::Tools });
    }
    if !nodes_version_ok {
        return Err(ValidationError::InvalidVersion { document: DocumentKind::Nodes });
    }
    let known_dependencies = dependencies_abbr(&library.modules, &library.tools);
    match validate_nodes_library(&library.nodes, &known_dependencies) {
        Err(e) => {
            return Err(e);
        },
        Ok(()) => {},
    }
    let mut t: usize = 0;
    while t < library.trees.len()
        invariant
            0 <= t <= library.trees.len(),
            modules_version_ok && tools_version_ok && nodes_version_ok,
            references_known(library.nodes.content@, dependency_names(library.modules, library.tools)),
            trees_ok_upto(*library, t as int),
        decreases library.trees.len() - t,
    {
        match validate_btree(&library.trees[t], library) {
            Err(e) => {
                assert(!tree_ok(library.trees@[t as int], *library));
                assert(!trees_ok_upto(*library, library.trees@.len() as int));
                assert(tree_first_error(library.trees@[t as int], *library, e));
                return Err(e);
            },
            Ok(()) => {},
        }
        t = t + 1;
    }
    let mut w: usize = 0;
    while w < library.workflows.len()
        invariant
            0 <= w <= library.workflows.len(),
            modules_version_ok && tools_version_ok && nodes_version_ok,
            references_known(library.nodes.content@, dependency_names(library.modules, library.tools)),
            trees_ok_upto(*library, library.trees@.len() as int),
            workflows_ok_upto(*library, w as int),
        decreases library.workflows.len() - w,
    {
        match validate_workflow(&library.workflows[w], library) {
            Err(e) => {
                assert(!workflow_ok(library.workflows@[w as int], *library));
                assert(!workflows_ok_upto(*library, library.workflows@.len() as int));
                assert(workflow_first_error(library.workflows@[w as int], *library, e));
                return Err(e);
            },
            Ok(()) => {},
        }
        w = w + 1;
    }
    Ok(())
}

/// Validates a loaded library: its versions, then every cross-reference.
/// Returns the library itself when it is valid, else the first violation.
pub fn validate_library(library: Library) -> (r: Result<Library, ValidationError>)
    requires
        library.wf(),
    ensures
        r matches Ok(l) ==> l == library,
        r is Ok <==> library_ok(
            library,
            is_semver(library.modules.version@),
            is_semver(library.tools.version@),
            is_semver(library.nodes.version@),
        ),
        r matches Err(e) ==> first_error(
            library,
            is_semver(library.modules.version@),
            is_semver(library.tools.version@),
            is_semver(library.nodes.version@),
            e,
        ),
{
    let modules_version_ok = parses_as_semver(library.modules.version.as_str());
    let tools_version_ok = parses_as_semver(library.tools.version.as_str());
    let nodes_version_ok = parses_as_semver(library.nodes.version.as_str());
    match check_library(&library, modules_version_ok, tools_version_ok, nodes_version_ok) {
        Ok(()) => Ok(library),
        Err(e) => Err(e),
    }
}

/// Once the three versions parse, a known node that talks to a module which
/// is neither a module nor a tool makes the library invalid, and the error
/// reported is an unknown module reference.
pub proof fn unknown_module_reference_is_rejected(library: Library, a: int, b: int)
    requires
        is_semver(library.modules.version@),
        is_semver(library.tools.version@),
        is_semver(library.nodes.version@),
        0 <= a < library.nodes.content@.len(),
        0 <= b < references(library.nodes.content@[a].1).len(),
        !dependency_names(library.modules, library.tools).contains(
            references(library.nodes.content@[a].1)[b],
        ),
    ensures
        !library_ok(
            library,
            is_semver(library.modules.version@),
            is_semver(library.tools.version@),
            is_semver(library.nodes.version@),
        ),
        forall|e: ValidationError|
            first_error(
                library,
                is_semver(library.modules.version@),
                is_semver(library.tools.version@),
                is_semver(library.nodes.version@),
                e,
            ) ==> e is UnknownModuleReference,
{
    let known = dependency_names(library.modules, library.tools);
    assert(!all_known(references(library.nodes.content@[a].1), known));
    assert(!references_known(library.nodes.content@, known));
}

/// A tree whose root is named like a known node is invalid, and the error
/// reported for it is a reserved tree name.
pub proof fn reserved_tree_name_is_rejected(tree_file: BehaviorTreeFile, library: Library, k: int)
    requires
        0 <= k < library.nodes.content@.len(),
        library.nodes.content@[k].0@ == tree_file.tree.name@,
    ensures
        !tree_ok(tree_file, library),
        forall|e: ValidationError| tree_first_error(tree_file, library, e) ==> e is ReservedTreeName,
{
    assert(keys(library.nodes.content@)[k] == tree_file.tree.name@);
}

/// In a tree whose name is free and whose participants are modules, a leaf
/// that names no known node makes the tree invalid, and the error reported
/// is an unknown leaf node.
pub proof fn unknown_leaf_is_rejected(tree_file: BehaviorTreeFile, library: Library, k: int)
    requires
        !keys(library.nodes.content@).contains(tree_file.tree.name@),
        all_known(names(tree_file.participants@), keys(library.modules.content@)),
        0 <= k < leaves(tree_file.tree).len(),
        !keys(library.nodes.content@).contains(leaves(tree_file.tree)[k]),
    ensures
        !tree_ok(tree_file, library),
        forall|e: ValidationError| tree_first_error(tree_file, library, e) ==> e is UnknownLeafNode,
{
    assert(!all_known(leaves(tree_file.tree), keys(library.nodes.content@)));
}

/// A workflow with a step that names no tree of the library is invalid, and
/// the error reported is an unknown workflow step.
pub proof fn unknown_workflow_step_is_rejected(workflow_file: WorkflowFile, library: Library, k: int)
    requires
        0 <= k < workflow_file.workflow@.len(),
        !tree_names(library.trees@).contains(workflow_file.workflow@[k].name@),
    ensures
        !workflow_ok(workflow_file, library),
        forall|e: ValidationError| workflow_first_error(workflow_file, library, e) ==> e is UnknownWorkflowStep,
{
    assert(step_names(workflow_file)[k] == workflow_file.workflow@[k].name@);
    assert(!all_known(step_names(workflow_file), tree_names(library.trees@)));
}

/// Validation is a function of the library alone: two equal libraries are
/// both valid or both invalid, with the same first error.
pub proof fn validation_is_deterministic(first: Library, second: Library)
    requires
        first == second,
    ensures
        library_ok(
            first,
            is_semver(first.modules.version@),
            is_semver(first.tools.version@),
            is_semver(first.nodes.version@),
        ) == library_ok(
            second,
            is_semver(second.modules.version@),
            is_semver(second.tools.version@),
            is_semver(second.nodes.version@),
        ),
        forall|e: ValidationError|
            first_error(
                first,
                is_semver(first.modules.version@),
                is_semver(first.tools.version@),
                is_semver(first.nodes.version@),
                e,
            ) == first_error(
                second,
                is_semver(second.modules.version@),
                is_semver(second.tools.version@),
                is_semver(second.nodes.version@),
                e,
            ),
{
}

} // verus!
