use workflow::document::{
    get_tree_by_name, get_workflow_by_title, BehaviorTreeFile, KnownNode, KnownNodesFile, Library,
    Module, ModuleFile, ModuleInfo, Node, NodeType, ReplyMode, Sequence, Tool, ToolFile, WorkflowFile,
    WorkflowStep, Zenoh, API,
};
use workflow::validate::{
    dependencies_abbr, validate_btree, validate_library, validate_node, validate_nodes_library,
    validate_workflow, DocumentKind, ValidationError,
};

fn s(text: &str) -> String {
    text.to_string()
}

fn module(name: &str) -> (String, Module) {
    (
        s(name),
        Module {
            info: ModuleInfo { name: s(name), module_type: s("pipettor"), description: s("") },
            api: API { endpoint: s("/"), variables: None, services: vec![] },
        },
    )
}

fn tool(name: &str) -> (String, Tool) {
    (s(name), Tool { name: s(name), description: s(""), pick_up: None, variants: None })
}

fn known(name: &str, modules: &[&str]) -> (String, KnownNode) {
    let zenoh = if modules.is_empty() {
        None
    } else {
        Some(Zenoh { modules: modules.iter().map(|m| s(m)).collect(), min_reply: ReplyMode::All })
    };
    (s(name), KnownNode { node_type: NodeType::Action, zenoh, description: s("") })
}

fn leaf(name: &str) -> Node {
    Node { name: s(name), step_number: 0, sequence: None, error: None }
}

fn children(name: &str, nodes: Vec<Node>) -> Node {
    Node { name: s(name), step_number: 0, sequence: Some(Sequence::Children(nodes)), error: None }
}

fn fallback(name: &str, nodes: Vec<Node>) -> Node {
    Node { name: s(name), step_number: 0, sequence: Some(Sequence::Fallback(nodes)), error: None }
}

fn tree(participants: &[&str], root: Node) -> BehaviorTreeFile {
    BehaviorTreeFile {
        file_name: None,
        title: s("tree"),
        version: s("0.1.0"),
        description: s(""),
        participants: participants.iter().map(|p| s(p)).collect(),
        tree: root,
    }
}

fn workflow(title: &str, steps: &[&str]) -> WorkflowFile {
    WorkflowFile {
        file_name: None,
        title: s(title),
        description: s(""),
        version: s("0.1.0"),
        workflow: steps.iter().map(|n| WorkflowStep { name: s(n), why: s("") }).collect(),
        parameters: vec![],
        process_tldr: s(""),
    }
}

/// A consistent library: two modules, one tool, three known nodes, two
/// trees and one workflow.
fn library() -> Library {
    Library {
        modules: ModuleFile {
            file_name: None,
            title: s("modules"),
            description: s(""),
            version: s("1.0.0"),
            endpoint: s("tcp/localhost:7447"),
            content: vec![module("pipettor"), module("gantry")],
        },
        tools: ToolFile {
            file_name: None,
            name: s("tools"),
            version: s("0.2.1"),
            content: vec![tool("tip")],
        },
        nodes: KnownNodesFile {
            file_name: None,
            title: s("nodes"),
            description: s(""),
            version: s("0.0.1"),
            content: vec![
                known("move_to_tip", &["gantry"]),
                known("pick_tip", &["pipettor", "tip"]),
                known("is_tip_attached", &[]),
            ],
        },
        trees: vec![
            tree(
                &["gantry", "pipettor"],
                fallback("get_tip", vec![leaf("is_tip_attached"), children("fetch", vec![leaf("move_to_tip"), leaf("pick_tip")])]),
            ),
            tree(&["gantry"], children("park", vec![leaf("move_to_tip")])),
        ],
        workflows: vec![workflow("TB PCR", &["get_tip", "park"])],
    }
}

#[test]
fn consistent_library_is_valid() {
    let lib = library();
    let validated = validate_library(library()).unwrap();
    assert_eq!(validated, lib);
}

#[test]
fn validating_the_same_library_twice_gives_equal_results() {
    let first = validate_library(library());
    let second = validate_library(library());
    assert_eq!(first, second);

    let mut broken = library();
    broken.trees[1].participants.push(s("centrifuge"));
    let mut broken_again = library();
    broken_again.trees[1].participants.push(s("centrifuge"));
    assert_eq!(validate_library(broken), validate_library(broken_again));
}

#[test]
fn unknown_module_reference_is_reported() {
    let mut lib = library();
    lib.nodes.content.push(known("spin", &["gantry", "centrifuge", "shaker"]));
    assert_eq!(
        validate_library(lib),
        Err(ValidationError::UnknownModuleReference { node: s("spin"), module: s("centrifuge") })
    );
}

#[test]
fn tool_names_are_valid_module_references() {
    let lib = library();
    let known_dependencies = dependencies_abbr(&lib.modules, &lib.tools);
    assert_eq!(known_dependencies, vec![s("pipettor"), s("gantry"), s("tip")]);
    assert_eq!(validate_nodes_library(&lib.nodes, &known_dependencies), Ok(()));
    assert_eq!(
        validate_nodes_library(&lib.nodes, &vec![s("gantry")]),
        Err(ValidationError::UnknownModuleReference { node: s("pick_tip"), module: s("pipettor") })
    );
}

#[test]
fn tree_named_like_a_known_node_is_reserved() {
    let mut lib = library();
    lib.trees.push(tree(&[], children("pick_tip", vec![leaf("move_to_tip")])));
    assert_eq!(
        validate_library(lib),
        Err(ValidationError::ReservedTreeName { tree: s("pick_tip") })
    );
}

#[test]
fn unknown_leaf_is_reported_with_its_tree() {
    let lib = library();
    let bad = tree(&["gantry"], children("dance", vec![leaf("move_to_tip"), fallback("spin", vec![leaf("twirl"), leaf("jump")])]));
    assert_eq!(
        validate_btree(&bad, &lib),
        Err(ValidationError::UnknownLeafNode { tree: s("dance"), node: s("twirl") })
    );
    assert_eq!(validate_node(&bad.tree, &lib), Err(s("twirl")));
}

#[test]
fn internal_node_names_are_not_looked_up() {
    let lib = library();
    assert_eq!(validate_node(&children("anything", vec![leaf("pick_tip")]), &lib), Ok(()));
    assert_eq!(validate_node(&leaf("anything"), &lib), Err(s("anything")));
}

#[test]
fn unknown_participant_is_reported() {
    let lib = library();
    let bad = tree(&["gantry", "tip", "shaker"], children("shake", vec![leaf("move_to_tip")]));
    assert_eq!(
        validate_btree(&bad, &lib),
        Err(ValidationError::UnknownParticipant { tree: s("shake"), participant: s("tip") })
    );
}

#[test]
fn unknown_workflow_step_is_reported() {
    let mut lib = library();
    lib.workflows.push(workflow("Extraction", &["park", "lyse", "get_tip"]));
    assert_eq!(
        validate_library(lib),
        Err(ValidationError::UnknownWorkflowStep { workflow: s("Extraction"), step: s("lyse") })
    );
    let lib = library();
    assert_eq!(validate_workflow(&workflow("Park", &["park"]), &lib), Ok(()));
}

#[test]
fn invalid_versions_are_reported_in_document_order() {
    let mut lib = library();
    lib.nodes.version = s("one");
    lib.tools.version = s("");
    assert_eq!(
        validate_library(lib),
        Err(ValidationError::InvalidVersion { document: DocumentKind::Tools })
    );
    let mut lib = library();
    lib.modules.version = s("1.0");
    assert_eq!(
        validate_library(lib),
        Err(ValidationError::InvalidVersion { document: DocumentKind::Modules })
    );
    let mut lib = library();
    lib.nodes.version = s("0.0.1-alpha.1");
    assert!(validate_library(lib).is_ok());
}

#[test]
fn version_errors_come_before_reference_errors() {
    let mut lib = library();
    lib.nodes.content.push(known("spin", &["centrifuge"]));
    lib.nodes.version = s("latest");
    assert_eq!(
        validate_library(lib),
        Err(ValidationError::InvalidVersion { document: DocumentKind::Nodes })
    );
}

#[test]
fn trees_and_workflows_are_found_by_name() {
    let lib = library();
    assert_eq!(get_tree_by_name("park", &lib).map(|t| t.tree.name.clone()), Some(s("park")));
    assert!(get_tree_by_name("fetch", &lib).is_none());
    assert_eq!(get_workflow_by_title("TB PCR", &lib).map(|w| w.workflow.len()), Some(2));
    assert!(get_workflow_by_title("tb_pcr", &lib).is_none());
}

#[test]
fn keyed_documents_must_not_repeat_a_key() {
    assert!(library().has_unique_keys());
    let mut lib = library();
    lib.tools.content.push(tool("tip"));
    assert!(!lib.has_unique_keys());
}
