//! A library of automation documents (modules, tools, known nodes, behavior
//! trees, workflows), checked for referential consistency and executed as
//! behavior trees; with the slider state machine and the gantry's G-code.
use vstd::prelude::*;

pub mod document;
pub mod validate;
pub mod engine;
pub mod plot;
pub mod paths;
pub mod workflow;
pub mod text;
pub mod slider;
pub mod gcode;
pub mod gantry;
pub mod serial;
pub mod stats;

verus! {

} // verus!
