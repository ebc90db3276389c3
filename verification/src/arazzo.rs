//! The in-memory model of an Arazzo workflow document.
//!
//! The whole tree is built once by the caller (typically from a parsed
//! document), read by the renderer, and never mutated.

use vstd::prelude::*;

verus! {

/// A whole document: a title plus an ordered list of workflows.
#[derive(Debug)]
pub struct ArazzoDocument {
    pub info: Info,
    pub workflows: Vec<Workflow>,
}

/// Document-level metadata; only the title is rendered.
#[derive(Debug)]
pub struct Info {
    pub title: String,
}

/// A named, ordered sequence of steps. Step order is significant: it
/// defines the default linear flow and which step is last.
#[derive(Debug)]
pub struct Workflow {
    pub workflow_id: String,
    pub description: Option<String>,
    pub steps: Vec<Step>,
}

/// One unit of work. A step is branching iff it declares success
/// criteria, success actions, or failure actions (any one suffices).
#[derive(Debug)]
pub struct Step {
    pub step_id: String,
    pub description: Option<String>,
    pub success_criteria: Option<Vec<Criteria>>,
    pub on_success: Option<Vec<Action>>,
    pub on_failure: Option<Vec<Action>>,
}

/// One boolean condition, passed through verbatim; an entry may carry
/// no condition at all.
#[derive(Debug)]
pub struct Criteria {
    pub condition: Option<String>,
}

/// A declared outcome handler in a step's success or failure bucket.
/// At most one of `workflow_id` and `step_id` is meaningful; an action
/// may carry its own criteria, which introduces a nested decision.
#[derive(Debug)]
pub struct Action {
    pub name: String,
    pub action_type: ActionType,
    pub workflow_id: Option<String>,
    pub step_id: Option<String>,
    pub criteria: Option<Vec<Criteria>>,
}

/// What an action does once taken: jump somewhere, or end the workflow.
#[derive(Debug, Clone, Copy, PartialEq, Eq, Structural)]
pub enum ActionType {
    Goto,
    End,
}

} // verus!
