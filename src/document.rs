//! The document kinds of a library: modules, tools, known nodes, behavior
//! trees and workflows. Plain data; the cross-references between them are
//! checked in `validate`.
use vstd::prelude::*;

verus! {

/// An address at which a module can be reached.
#[derive(Debug, Clone, PartialEq)]
pub struct Endpoint(pub String);

/// The modules document: every addressable subsystem, keyed by its name.
#[derive(Debug, Clone, PartialEq)]
pub struct ModuleFile {
    pub file_name: Option<String>,
    pub title: String,
    pub description: String,
    pub version: String,
    pub endpoint: String,
    pub content: Vec<(String, Module)>,
}

#[derive(Debug, Clone, PartialEq)]
pub struct Module {
    pub info: ModuleInfo,
    pub api: API,
}

#[derive(Debug, Clone, PartialEq)]
pub struct ModuleInfo {
    pub name: String,
    pub module_type: String,
    pub description: String,
}

/// The request surface of a module.
#[derive(Debug, Clone, PartialEq)]
pub struct API {
    pub endpoint: String,
    pub variables: Option<Vec<(String, String)>>,
    pub services: Vec<(String, Service)>,
}

/// The requests a service answers, keyed by verb.
#[derive(Debug, Clone, PartialEq)]
pub struct Service(pub Vec<(RequestType, RequestSchema)>);

#[derive(Debug, Clone, Copy, PartialEq, Eq, Hash)]
pub enum RequestType {
    GET,
    POST,
    PUT,
    DELETE,
}

#[derive(Debug, Clone, PartialEq)]
pub struct RequestSchema {
    pub summary: String,
    pub timeout: String,
    pub parameters: Option<Vec<ValueSchema>>,
    pub response: Option<Vec<ValueSchema>>,
}

#[derive(Debug, Clone, Copy, PartialEq, Eq)]
pub enum Unit {
    CELSIUS,
    MILISECONDS,
    SECONDS,
    MINUTES,
}

#[derive(Debug, Clone, PartialEq)]
pub struct ValueSchema {
    pub name: String,
    pub data_type: String,
    pub description: String,
    pub unit: Option<Unit>,
}

/// A typed workflow parameter. The number is kept as the bit pattern of an
/// IEEE-754 double, so that the value travels through the library unchanged.
#[derive(Debug, Clone, PartialEq)]
pub struct Value {
    pub schema: ValueSchema,
    pub value_bits: u64,
}

/// The tools document, keyed by tool name.
#[derive(Debug, Clone, PartialEq)]
pub struct ToolFile {
    pub file_name: Option<String>,
    pub name: String,
    pub version: String,
    pub content: Vec<(String, Tool)>,
}

#[derive(Debug, Clone, PartialEq)]
pub struct Tool {
    pub name: String,
    pub description: String,
    pub pick_up: Option<String>,
    pub variants: Option<Vec<Variant>>,
}

#[derive(Debug, Clone, PartialEq)]
pub struct Variant {
    pub name: String,
    pub description: Option<String>,
    pub abbr: String,
    pub preffered_when: String,
}

#[derive(Debug, Clone, Copy, PartialEq, Eq)]
pub enum NodeType {
    Condition,
    Action,
    Sequence,
    Error,
}

/// The known-nodes document: the reusable leaves, keyed by the name that
/// trees use to refer to them.
#[derive(Debug, Clone, PartialEq)]
pub struct KnownNodesFile {
    pub file_name: Option<String>,
    pub title: String,
    pub description: String,
    pub version: String,
    pub content: Vec<(String, KnownNode)>,
}

#[derive(Debug, Clone, PartialEq)]
pub struct KnownNode {
    pub node_type: NodeType,
    pub zenoh: Option<Zenoh>,
    pub description: String,
}

/// How many replies a messaging leaf waits for.
#[derive(Debug, Clone, Copy, PartialEq, Eq)]
pub enum ReplyMode {
    Any,
    All,
    One,
}

/// The messaging descriptor of a known node: the modules it talks to.
#[derive(Debug, Clone, PartialEq)]
pub struct Zenoh {
    pub modules: Vec<String>,
    pub min_reply: ReplyMode,
}

/// The children of an internal node, run as an ordered AND (`Children`) or
/// an ordered OR (`Fallback`).
#[derive(Debug, PartialEq)]
pub enum Sequence {
    Children(Vec<Node>),
    Fallback(Vec<Node>),
}

/// A behavior-tree node: a leaf when `sequence` is `None`.
#[derive(Debug, PartialEq)]
pub struct Node {
    pub name: String,
    pub step_number: u8,
    pub sequence: Option<Sequence>,
    pub error: Option<String>,
}

#[derive(Debug, PartialEq)]
pub struct BehaviorTreeFile {
    pub file_name: Option<String>,
    pub title: String,
    pub version: String,
    pub description: String,
    pub participants: Vec<String>,
    pub tree: Node,
}

#[derive(Debug, Clone, PartialEq)]
pub struct WorkflowFile {
    pub file_name: Option<String>,
    pub title: String,
    pub description: String,
    pub version: String,
    pub workflow: Vec<WorkflowStep>,
    pub parameters: Vec<Value>,
    pub process_tldr: String,
}

#[derive(Debug, Clone, PartialEq)]
pub struct WorkflowStep {
    pub name: String,
    pub why: String,
}

/// The whole library: one document of each kind, then the trees and the
/// workflows.
#[derive(Debug, PartialEq)]
pub struct Library {
    pub modules: ModuleFile,
    pub tools: ToolFile,
    pub nodes: KnownNodesFile,
    pub trees: Vec<BehaviorTreeFile>,
    pub workflows: Vec<WorkflowFile>,
}

/// The names under which the entries of a keyed document are stored.
pub open spec fn keys<T>(entries: Seq<(String, T)>) -> Seq<Seq<char>> {
    entries.map_values(|e: (String, T)| e.0@)
}

/// The views of a list of strings.
pub open spec fn names(list: Seq<String>) -> Seq<Seq<char>> {
    list.map_values(|s: String| s@)
}

/// Whether a keyed document holds an entry under `name`.
pub fn contains_key<T>(entries: &Vec<(String, T)>, name: &String) -> (r: bool)
    ensures
        r == keys(entries@).contains(name@),
{
    let mut i: usize = 0;
    while i < entries.len()
        invariant
            0 <= i <= entries.len(),
            forall|j: int| 0 <= j < i ==> entries@[j].0@ != name@,
        decreases entries.len() - i,
    {
        if entries[i].0 == *name {
            assert(keys(entries@)[i as int] == name@);
            return true;
        }
        i = i + 1;
    }
    proof {
        if keys(entries@).contains(name@) {
            let k = choose|k: int| 0 <= k < keys(entries@).len() && keys(entries@)[k] == name@;
            assert(entries@[k].0@ == name@);
        }
    }
    false
}

/// Whether a list of strings holds `name`.
pub fn contains_name(list: &Vec<String>, name: &String) -> (r: bool)
    ensures
        r == names(list@).contains(name@),
{
    let mut i: usize = 0;
    while i < list.len()
        invariant
            0 <= i <= list.len(),
            forall|j: int| 0 <= j < i ==> list@[j]@ != name@,
        decreases list.len() - i,
    {
        if list[i] == *name {
            assert(names(list@)[i as int] == name@);
            return true;
        }
        i = i + 1;
    }
    proof {
        if names(list@).contains(name@) {
            let k = choose|k: int| 0 <= k < names(list@).len() && names(list@)[k] == name@;
            assert(list@[k]@ == name@);
        }
    }
    false
}

/// The root names of a list of trees, in order.
pub open spec fn tree_names(trees: Seq<BehaviorTreeFile>) -> Seq<Seq<char>> {
    trees.map_values(|t: BehaviorTreeFile| t.tree.name@)
}

/// The titles of a list of workflows, in order.
pub open spec fn workflow_titles(workflows: Seq<WorkflowFile>) -> Seq<Seq<char>> {
    workflows.map_values(|w: WorkflowFile| w.title@)
}

/// The index of the first tree from `j` on whose root is named `name`, or
/// -1 when there is none.
pub open spec fn first_tree_from(trees: Seq<BehaviorTreeFile>, name: Seq<char>, j: int) -> int
    decreases trees.len() - j,
{
    if j < 0 || j >= trees.len() {
        -1
    } else if trees[j].tree.name@ == name {
        j
    } else {
        first_tree_from(trees, name, j + 1)
    }
}

/// The first tree of the library whose root node is named `tree_file_name`.
pub fn get_tree_by_name<'a>(tree_file_name: &str, library: &'a Library) -> (r: Option<&'a BehaviorTreeFile>)
    ensures
        r is None <==> !tree_names(library.trees@).contains(tree_file_name@),
        r matches Some(t) ==> exists|i: int|
            0 <= i < library.trees@.len() && library.trees@[i] == *t && t.tree.name@ == tree_file_name@
                && forall|j: int| 0 <= j < i ==> library.trees@[j].tree.name@ != tree_file_name@,
        r is None ==> first_tree_from(library.trees@, tree_file_name@, 0) == -1,
        r matches Some(t) ==> 0 <= first_tree_from(library.trees@, tree_file_name@, 0) < library.trees@.len()
            && *t == library.trees@[first_tree_from(library.trees@, tree_file_name@, 0)],
{
    let key = String::from_str(tree_file_name);
    let mut i: usize = 0;
    while i < library.trees.len()
        invariant
            0 <= i <= library.trees.len(),
            key@ == tree_file_name@,
            forall|j: int| 0 <= j < i ==> library.trees@[j].tree.name@ != tree_file_name@,
            first_tree_from(library.trees@, tree_file_name@, 0) == first_tree_from(
                library.trees@,
                tree_file_name@,
                i as int,
            ),
        decreases library.trees.len() - i,
    {
        if library.trees[i].tree.name == key {
            assert(tree_names(library.trees@)[i as int] == tree_file_name@);
            return Some(&library.trees[i]);
        }
        i = i + 1;
    }
    proof {
        if tree_names(library.trees@).contains(tree_file_name@) {
            let k = choose|k: int|
                0 <= k < tree_names(library.trees@).len() && tree_names(library.trees@)[k] == tree_file_name@;
            assert(library.trees@[k].tree.name@ == tree_file_name@);
        }
    }
    None
}

/// The first workflow of the library titled `workflow_name`.
pub fn get_workflow_by_title<'a>(workflow_name: &str, library: &'a Library) -> (r: Option<&'a WorkflowFile>)
    ensures
        r is None <==> !workflow_titles(library.workflows@).contains(workflow_name@),
        r matches Some(w) ==> exists|i: int|
            0 <= i < library.workflows@.len() && library.workflows@[i] == *w && w.title@ == workflow_name@
                && forall|j: int| 0 <= j < i ==> library.workflows@[j].title@ != workflow_name@,
{
    let key = String::from_str(workflow_name);
    let mut i: usize = 0;
    while i < library.workflows.len()
        invariant
            0 <= i <= library.workflows.len(),
            key@ == workflow_name@,
            forall|j: int| 0 <= j < i ==> library.workflows@[j].title@ != workflow_name@,
        decreases library.workflows.len() - i,
    {
        if library.workflows[i].title == key {
            assert(workflow_titles(library.workflows@)[i as int] == workflow_name@);
            return Some(&library.workflows[i]);
        }
        i = i + 1;
    }
    proof {
        if workflow_titles(library.workflows@).contains(workflow_name@) {
            let k = choose|k: int|
                0 <= k < workflow_titles(library.workflows@).len()
                    && workflow_titles(library.workflows@)[k] == workflow_name@;
            assert(library.workflows@[k].title@ == workflow_name@);
        }
    }
    None
}

/// A keyed document holds each key at most once, as a map does.
pub open spec fn unique_keys<T>(entries: Seq<(String, T)>) -> bool {
    forall|i: int, j: int| 0 <= i < j < entries.len() ==> entries[i].0@ != entries[j].0@
}

impl Library {
    /// The keyed documents of the library are maps: no key twice.
    pub open spec fn wf(&self) -> bool {
        &&& unique_keys(self.modules.content@)
        &&& unique_keys(self.tools.content@)
        &&& unique_keys(self.nodes.content@)
    }

    /// Whether the keyed documents of the library hold no key twice.
    pub fn has_unique_keys(&self) -> (r: bool)
        ensures
            r == self.wf(),
    {
        keys_unique(&self.modules.content) && keys_unique(&self.tools.content) && keys_unique(
            &self.nodes.content,
        )
    }
}

/// Whether a keyed document holds each key at most once.
pub fn keys_unique<T>(entries: &Vec<(String, T)>) -> (r: bool)
    ensures
        r == unique_keys(entries@),
{
    let mut j: usize = 0;
    while j < entries.len()
        invariant
            0 <= j <= entries.len(),
            forall|a: int, b: int| 0 <= a < b < j ==> entries@[a].0@ != entries@[b].0@,
        decreases entries.len() - j,
    {
        let mut i: usize = 0;
        while i < j
            invariant
                0 <= i <= j < entries.len(),
                forall|a: int| 0 <= a < i ==> entries@[a].0@ != entries@[j as int].0@,
            decreases j - i,
        {
            if entries[i].0 == entries[j].0 {
                return false;
            }
            i = i + 1;
        }
        j = j + 1;
    }
    true
}

} // verus!
