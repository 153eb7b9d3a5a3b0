use workflow::document::{
    BehaviorTreeFile, KnownNodesFile, Library, ModuleFile, Node, Sequence, ToolFile, WorkflowFile, WorkflowStep,
};
use workflow::plot::{input_to_dot, tree_to_dot, workflow_to_dot, Input};

fn leaf(name: &str, error: Option<&str>) -> Node {
    Node { name: name.to_string(), step_number: 0, sequence: None, error: error.map(|e| e.to_string()) }
}

fn tree(title: &str, root: Node) -> BehaviorTreeFile {
    BehaviorTreeFile {
        file_name: None,
        title: title.to_string(),
        version: "0.1.0".to_string(),
        description: String::new(),
        participants: vec![],
        tree: root,
    }
}

fn get_tip() -> BehaviorTreeFile {
    tree(
        "Get a tip",
        Node {
            name: "get_tip".to_string(),
            step_number: 0,
            sequence: Some(Sequence::Fallback(vec![leaf("is_tip_attached", None), leaf("pick", Some("no_tip"))])),
            error: None,
        },
    )
}

fn library() -> Library {
    Library {
        modules: ModuleFile {
            file_name: None,
            title: String::new(),
            description: String::new(),
            version: "1.0.0".to_string(),
            endpoint: String::new(),
            content: vec![],
        },
        tools: ToolFile { file_name: None, name: String::new(), version: "1.0.0".to_string(), content: vec![] },
        nodes: KnownNodesFile {
            file_name: None,
            title: String::new(),
            description: String::new(),
            version: "1.0.0".to_string(),
            content: vec![],
        },
        trees: vec![get_tip(), tree("Park", leaf("park", None))],
        workflows: vec![],
    }
}

fn workflow(steps: &[&str]) -> WorkflowFile {
    WorkflowFile {
        file_name: None,
        title: "PCR".to_string(),
        description: String::new(),
        version: "0.1.0".to_string(),
        workflow: steps.iter().map(|s| WorkflowStep { name: s.to_string(), why: String::new() }).collect(),
        parameters: vec![],
        process_tldr: String::new(),
    }
}

const HEADER_TAIL: &str = "\" {\nrankdir=LR;\nedge [arrowsize=0.6];\nnode [colorscheme=rdylbu11];\nedge [colorscheme=rdylbu11];\nranksep=0.6;\nnodesep=0.25;\n\n";

const GET_TIP_DOT: &str = "get_tip [label=\"get_tip\", shape=ellipse color=6 fontcolor=11 fontsize=12 style=\"rounded,filled\" fillcolor=6];\n\
get_tip -> is_tip_attached [style=solid color=10];\n\
is_tip_attached [label=\"is_tip_attached?\", shape=cds color=8 fontcolor=black fontsize=12 style=\"rounded,filled\" fillcolor=8];\n\
get_tip -> pick [style=solid color=10];\n\
pick [label=\"pick\", shape=egg color=5 fontcolor=black fontsize=12 style=\"rounded,filled\" fillcolor=5];\n\
pick_no_tip [label=\"no_tip\" shape=record color=1 fontcolor=white fontsize=12 style=filled fillcolor=1];\n\
pick -> pick_no_tip [color=1 style=bold];\n";

const PARK_DOT: &str = "park [label=\"park\", shape=egg color=5 fontcolor=black fontsize=12 style=\"rounded,filled\" fillcolor=5];\n";

#[test]
fn tree_drawing_lists_nodes_depth_first() {
    let mut dot = String::from("// ");
    tree_to_dot(&get_tip(), &mut dot);
    assert_eq!(dot, format!("// {}", GET_TIP_DOT));
}

#[test]
fn tree_graph_has_header_and_closing_brace() {
    let lib = library();
    let t = get_tip();
    let dot = input_to_dot(&Input::Tree(&t), &lib).unwrap();
    assert_eq!(dot, format!("digraph \"Get a tip{}{}}}\n", HEADER_TAIL, GET_TIP_DOT));
}

#[test]
fn workflow_graph_numbers_its_steps() {
    let lib = library();
    let w = workflow(&["get_tip", "park"]);
    let dot = input_to_dot(&Input::Workflow(&w), &lib).unwrap();
    let expected = format!(
        "digraph \"PCR{}workflow [shape=record, label=\"workflow | {{ 1 | <1> get_tip | 2 | <2> park  }}\"];\n{}workflow:1 -> get_tip [style=solid color=10];\n{}workflow:2 -> park [style=solid color=10];\n}}\n",
        HEADER_TAIL, GET_TIP_DOT, PARK_DOT
    );
    assert_eq!(dot, expected);
}

#[test]
fn workflow_with_unknown_step_is_not_drawn() {
    let lib = library();
    let w = workflow(&["park", "lyse"]);
    let mut dot = String::from("x");
    assert_eq!(workflow_to_dot(&w, &mut dot, &lib), Err("lyse".to_string()));
    assert_eq!(dot, "x");
    assert_eq!(input_to_dot(&Input::Workflow(&w), &lib), Err("lyse".to_string()));
}
