//! A named list of shell steps.
use vstd::prelude::*;

verus! {

/// A named list of steps, run in order.
pub struct Workflow {
    pub name: String,
    pub steps: Vec<Step>,
}

impl Workflow {
    /// A workflow with the given name and steps.
    pub fn new(name: String, steps: Vec<Step>) -> (r: Self)
        ensures
            r.name == name,
            r.steps@ == steps@,
    {
        Workflow { name, steps }
    }

}

/// A named shell command.
pub struct Step {
    pub name: String,
    pub command: String,
}

impl Step {
    /// A step with the given name and command.
    pub fn new(name: String, command: String) -> (r: Self)
        ensures
            r.name == name,
            r.command == command,
    {
        Step { name, command }
    }

}

} // verus!
