//! Rendering of an Arazzo document as a Mermaid flowchart.
//!
//! The renderer walks the document in order and emits one line per graph
//! edge. The spec functions below define the exact text that is produced;
//! every executable function is proved to return exactly that text.

use vstd::prelude::*;
use vstd::string::StringExecFns;

use crate::arazzo::{Action, ActionType, ArazzoDocument, Criteria, Step, Workflow};

verus! {

/// The boolean outcome that labels an edge leaving a decision node.
#[derive(Debug, Clone, Copy)]
pub enum Verdict {
    Success,
    Failure,
}

/// Which outcome bucket of a step an action was declared in.
#[derive(Debug, Clone, Copy)]
pub enum ActionSide {
    OnSuccess,
    OnFailure,
}

// ---------------------------------------------------------------------------
// Spec: views of optional fields
// ---------------------------------------------------------------------------

pub open spec fn opt_str_view(s: Option<&str>) -> Option<Seq<char>> {
    match s {
        Some(v) => Some(v@),
        None => None,
    }
}

pub open spec fn opt_string_view(s: Option<String>) -> Option<Seq<char>> {
    match s {
        Some(v) => Some(v@),
        None => None,
    }
}

pub open spec fn criteria_view(c: Option<Vec<Criteria>>) -> Option<Seq<Criteria>> {
    match c {
        Some(v) => Some(v@),
        None => None,
    }
}

pub open spec fn criteria_ref_view(c: Option<&Vec<Criteria>>) -> Option<Seq<Criteria>> {
    match c {
        Some(v) => Some(v@),
        None => None,
    }
}

// ---------------------------------------------------------------------------
// Spec: node and edge text
// ---------------------------------------------------------------------------

/// The document header: a Mermaid front-matter block holding the title.
pub open spec fn title_text(t: Seq<char>) -> Seq<char> {
    "---\ntitle: "@ + t + "\n---\n"@
}

/// An optional bracketed display label, as used after a node or subgraph name.
pub open spec fn bracket_label_text(label: Option<Seq<char>>) -> Seq<char> {
    match label {
        Some(l) => "[\""@ + l + "\"]"@,
        None => Seq::empty(),
    }
}

/// The subgraph opening line for one workflow.
pub open spec fn subgraph_text(wid: Seq<char>, description: Option<Seq<char>>) -> Seq<char> {
    "    subgraph "@ + wid + bracket_label_text(description) + "\n"@
}

/// A step-derived node name, qualified by its owning workflow.
pub open spec fn qualified_text(wid: Seq<char>, id: Seq<char>) -> Seq<char> {
    wid + "_"@ + id
}

/// A rectangle node: the name, then the optional display label.
pub open spec fn rectangle_text(name: Seq<char>, label: Option<Seq<char>>) -> Seq<char> {
    name + bracket_label_text(label)
}

/// The condition strings present in a criteria list, in order.
pub open spec fn conditions_of(cs: Seq<Criteria>) -> Seq<Seq<char>>
    decreases cs.len(),
{
    if cs.len() == 0 {
        Seq::empty()
    } else {
        conditions_of(cs.drop_last()) + match cs.last().condition {
            Some(c) => seq![c@],
            None => Seq::<Seq<char>>::empty(),
        }
    }
}

/// The given strings joined with the logical-AND separator.
pub open spec fn and_joined(items: Seq<Seq<char>>) -> Seq<char>
    decreases items.len(),
{
    if items.len() == 0 {
        Seq::empty()
    } else if items.len() == 1 {
        items[0]
    } else {
        and_joined(items.drop_last()) + " && "@ + items.last()
    }
}

/// The brace-delimited condition of a decision node: the non-empty joined
/// conditions in braces, or nothing when no condition text results.
pub open spec fn condition_text(criteria: Option<Seq<Criteria>>) -> Seq<char> {
    match criteria {
        Some(cs) => {
            if cs.len() > 0 {
                let joined = and_joined(conditions_of(cs));
                if joined.len() == 0 {
                    Seq::empty()
                } else {
                    "{"@ + joined + "}"@
                }
            } else {
                Seq::empty()
            }
        },
        None => Seq::empty(),
    }
}

/// A rhombus (decision) node: the name, a fixed suffix, then the condition.
pub open spec fn rhombus_text(name: Seq<char>, criteria: Option<Seq<Criteria>>) -> Seq<char> {
    name + "Node"@ + condition_text(criteria)
}

/// The terminal node of a workflow.
pub open spec fn end_text(wid: Seq<char>) -> Seq<char> {
    wid + "EndNode((End))"@
}

/// An unconditional edge line.
pub open spec fn plain_edge_text(from: Seq<char>, to: Seq<char>) -> Seq<char> {
    "    "@ + from + " --> "@ + to + "\n"@
}

/// The fixed token that labels a decision edge.
pub open spec fn verdict_token_text(verdict: Verdict) -> Seq<char> {
    match verdict {
        Verdict::Success => "true"@,
        Verdict::Failure => "false"@,
    }
}

/// A verdict-labeled edge line.
pub open spec fn verdict_edge_text(from: Seq<char>, verdict: Verdict, to: Seq<char>) -> Seq<char> {
    "    "@ + from + " -->|"@ + verdict_token_text(verdict) + "| "@ + to + "\n"@
}

// ---------------------------------------------------------------------------
// Exec: text formatting helpers
// ---------------------------------------------------------------------------

/// The front-matter header carrying the document title.
pub fn title(graph_title: &str) -> (r: String)
    ensures
        r@ == title_text(graph_title@),
{
    let mut r = "---\ntitle: ".to_owned();
    r.append(graph_title);
    r.append("\n---\n");
    r
}

/// The subgraph opening line for a workflow, with its optional description.
pub fn subgraph(title: &str, description: Option<&str>) -> (r: String)
    ensures
        r@ == subgraph_text(title@, opt_str_view(description)),
{
    let mut r = "    subgraph ".to_owned();
    r.append(title);
    let label = subgraph_description(description);
    r.append(label.as_str());
    r.append("\n");
    r
}

/// The bracketed label after a subgraph name, or nothing.
pub fn subgraph_description(description: Option<&str>) -> (r: String)
    ensures
        r@ == bracket_label_text(opt_str_view(description)),
{
    match description {
        None => String::new(),
        Some(v) => {
            let mut r = "[\"".to_owned();
            r.append(v);
            r.append("\"]");
            r
        },
    }
}

/// The bracketed label after a rectangle node name, or nothing.
pub fn rectangle_node_label(node_label: Option<&str>) -> (r: String)
    ensures
        r@ == bracket_label_text(opt_str_view(node_label)),
{
    match node_label {
        None => String::new(),
        Some(v) => {
            let mut r = "[\"".to_owned();
            r.append(v);
            r.append("\"]");
            r
        },
    }
}

/// The present conditions joined with the logical-AND separator.
fn join_conditions(cs: &Vec<Criteria>) -> (r: String)
    ensures
        r@ == and_joined(conditions_of(cs@)),
{
    let mut r = String::new();
    let mut first: bool = true;
    let mut i: usize = 0;
    while i < cs.len()
        invariant
            i <= cs@.len(),
            first <==> conditions_of(cs@.take(i as int)).len() == 0,
            r@ == and_joined(conditions_of(cs@.take(i as int))),
        decreases cs@.len() - i,
    {
        proof {
            assert(cs@.take(i + 1).drop_last() =~= cs@.take(i as int));
            assert(cs@.take(i + 1).last() == cs@[i as int]);
        }
        match &cs[i].condition {
            Some(cond) => {
                proof {
                    assert(conditions_of(cs@.take(i + 1)) =~= conditions_of(
                        cs@.take(i as int),
                    ).push(cond@));
                }
                if first {
                    r.append(cond.as_str());
                    first = false;
                    proof {
                        assert(Seq::<char>::empty() + cond@ =~= cond@);
                        assert(conditions_of(cs@.take(i + 1))[0] == cond@);
                    }
                } else {
                    r.append(" && ");
                    r.append(cond.as_str());
                    proof {
                        assert(conditions_of(cs@.take(i + 1)).drop_last() =~= conditions_of(
                            cs@.take(i as int),
                        ));
                        assert(conditions_of(cs@.take(i + 1)).last() == cond@);
                    }
                }
            },
            None => {
                proof {
                    assert(conditions_of(cs@.take(i + 1)) =~= conditions_of(cs@.take(i as int)));
                }
            },
        }
        i += 1;
    }
    proof {
        assert(cs@.take(cs@.len() as int) =~= cs@);
    }
    r
}

/// The brace-delimited condition of a decision node, or nothing.
pub fn rhombus_node_condition(criteria: Option<&Vec<Criteria>>) -> (r: String)
    ensures
        r@ == condition_text(criteria_ref_view(criteria)),
{
    match criteria {
        None => String::new(),
        Some(cs) => {
            if cs.len() == 0 {
                String::new()
            } else {
                let joined = join_conditions(cs);
                if joined.as_str().is_empty() {
                    String::new()
                } else {
                    let mut r = "{".to_owned();
                    r.append(joined.as_str());
                    r.append("}");
                    r
                }
            }
        },
    }
}

/// A rectangle node's full text.
fn rectangle_node(node_name: &str, node_label: Option<&str>) -> (r: String)
    ensures
        r@ == rectangle_text(node_name@, opt_str_view(node_label)),
{
    let mut r = node_name.to_owned();
    let label = rectangle_node_label(node_label);
    r.append(label.as_str());
    r
}

/// A rhombus node's full text.
fn rhombus_node(node_name: &str, criteria: Option<&Vec<Criteria>>) -> (r: String)
    ensures
        r@ == rhombus_text(node_name@, criteria_ref_view(criteria)),
{
    let mut r = node_name.to_owned();
    r.append("Node");
    let cond = rhombus_node_condition(criteria);
    r.append(cond.as_str());
    r
}

/// A workflow's terminal node text.
fn end_node(workflow_id: &str) -> (r: String)
    ensures
        r@ == end_text(workflow_id@),
{
    let mut r = workflow_id.to_owned();
    r.append("EndNode((End))");
    r
}

/// The fixed token that labels a decision edge.
fn verdict_token(verdict: Verdict) -> (r: &'static str)
    ensures
        r@ == verdict_token_text(verdict),
{
    match verdict {
        Verdict::Success => "true",
        Verdict::Failure => "false",
    }
}

/// A step-derived node name qualified by its workflow.
fn qualify(workflow_id: &str, id: &str) -> (r: String)
    ensures
        r@ == qualified_text(workflow_id@, id@),
{
    let mut r = workflow_id.to_owned();
    r.append("_");
    r.append(id);
    r
}

// ---------------------------------------------------------------------------
// Exec: edge lines
// ---------------------------------------------------------------------------

/// A plain edge between two rectangle nodes.
pub fn to_rectangle_from_rectangle(
    from_name: &str,
    from_label: Option<&str>,
    to_name: &str,
    to_label: Option<&str>,
) -> (r: String)
    ensures
        r@ == plain_edge_text(
            rectangle_text(from_name@, opt_str_view(from_label)),
            rectangle_text(to_name@, opt_str_view(to_label)),
        ),
{
    let mut r = "    ".to_owned();
    let f = rectangle_node(from_name, from_label);
    r.append(f.as_str());
    r.append(" --> ");
    let t = rectangle_node(to_name, to_label);
    r.append(t.as_str());
    r.append("\n");
    r
}

/// A plain edge from a rectangle node to a rhombus node.
pub fn to_rhombus_from_rectangle(
    from_name: &str,
    from_label: Option<&str>,
    to_name: &str,
    to_criteria: Option<&Vec<Criteria>>,
) -> (r: String)
    ensures
        r@ == plain_edge_text(
            rectangle_text(from_name@, opt_str_view(from_label)),
            rhombus_text(to_name@, criteria_ref_view(to_criteria)),
        ),
{
    let mut r = "    ".to_owned();
    let f = rectangle_node(from_name, from_label);
    r.append(f.as_str());
    r.append(" --> ");
    let t = rhombus_node(to_name, to_criteria);
    r.append(t.as_str());
    r.append("\n");
    r
}

/// A verdict-labeled edge from a rhombus node to a rectangle node.
pub fn to_rectangle_from_rhombus(
    from_name: &str,
    from_criteria: Option<&Vec<Criteria>>,
    to_name: &str,
    to_label: Option<&str>,
    verdict: Verdict,
) -> (r: String)
    ensures
        r@ == verdict_edge_text(
            rhombus_text(from_name@, criteria_ref_view(from_criteria)),
            verdict,
            rectangle_text(to_name@, opt_str_view(to_label)),
        ),
{
    let mut r = "    ".to_owned();
    let f = rhombus_node(from_name, from_criteria);
    r.append(f.as_str());
    r.append(" -->|");
    r.append(verdict_token(verdict));
    r.append("| ");
    let t = rectangle_node(to_name, to_label);
    r.append(t.as_str());
    r.append("\n");
    r
}

/// A verdict-labeled edge between two rhombus nodes.
pub fn to_rhombus_from_rhombus(
    from_name: &str,
    from_criteria: Option<&Vec<Criteria>>,
    to_name: &str,
    to_criteria: Option<&Vec<Criteria>>,
    verdict: Verdict,
) -> (r: String)
    ensures
        r@ == verdict_edge_text(
            rhombus_text(from_name@, criteria_ref_view(from_criteria)),
            verdict,
            rhombus_text(to_name@, criteria_ref_view(to_criteria)),
        ),
{
    let mut r = "    ".to_owned();
    let f = rhombus_node(from_name, from_criteria);
    r.append(f.as_str());
    r.append(" -->|");
    r.append(verdict_token(verdict));
    r.append("| ");
    let t = rhombus_node(to_name, to_criteria);
    r.append(t.as_str());
    r.append("\n");
    r
}

/// A plain edge from a rectangle node to the workflow's terminal node.
pub fn to_end_from_rectangle(
    from_name: &str,
    from_label: Option<&str>,
    workflow_id: &str,
) -> (r: String)
    ensures
        r@ == plain_edge_text(
            rectangle_text(from_name@, opt_str_view(from_label)),
            end_text(workflow_id@),
        ),
{
    let mut r = "    ".to_owned();
    let f = rectangle_node(from_name, from_label);
    r.append(f.as_str());
    r.append(" --> ");
    let t = end_node(workflow_id);
    r.append(t.as_str());
    r.append("\n");
    r
}

/// A verdict-labeled edge from a rhombus node to the workflow's terminal node.
pub fn to_end_from_rhombus(
    from_name: &str,
    from_criteria: Option<&Vec<Criteria>>,
    workflow_id: &str,
    verdict: Verdict,
) -> (r: String)
    ensures
        r@ == verdict_edge_text(
            rhombus_text(from_name@, criteria_ref_view(from_criteria)),
            verdict,
            end_text(workflow_id@),
        ),
{
    let mut r = "    ".to_owned();
    let f = rhombus_node(from_name, from_criteria);
    r.append(f.as_str());
    r.append(" -->|");
    r.append(verdict_token(verdict));
    r.append("| ");
    let t = end_node(workflow_id);
    r.append(t.as_str());
    r.append("\n");
    r
}

// ---------------------------------------------------------------------------
// Branch classification
// ---------------------------------------------------------------------------

/// A step branches iff it declares success criteria, success actions, or
/// failure actions.
pub open spec fn is_branching(step: Step) -> bool {
    step.success_criteria is Some || step.on_success is Some || step.on_failure is Some
}

/// Whether a step renders as a decision node rather than a linear node.
pub fn should_branch(step: &Step) -> (r: bool)
    ensures
        r == is_branching(*step),
{
    step.success_criteria.is_some() || step.on_success.is_some() || step.on_failure.is_some()
}

// ---------------------------------------------------------------------------
// Spec: the lines emitted for one step
// ---------------------------------------------------------------------------

/// The verdict that labels edges resolved from a given outcome bucket.
pub open spec fn verdict_of_side(side: ActionSide) -> Verdict {
    match side {
        ActionSide::OnSuccess => Verdict::Success,
        ActionSide::OnFailure => Verdict::Failure,
    }
}

/// The rectangle node of a step: qualified identifier plus description label.
pub open spec fn step_rectangle(wid: Seq<char>, s: Step) -> Seq<char> {
    rectangle_text(qualified_text(wid, s.step_id@), opt_string_view(s.description))
}

/// The decision node of a step: qualified identifier plus its own condition.
pub open spec fn step_rhombus(wid: Seq<char>, s: Step) -> Seq<char> {
    rhombus_text(qualified_text(wid, s.step_id@), criteria_view(s.success_criteria))
}

/// The only action an outcome bucket contributes: its head, if any.
pub open spec fn first_action(bucket: Option<Vec<Action>>) -> Option<Action> {
    match bucket {
        Some(actions) => if actions@.len() > 0 {
            Some(actions@[0])
        } else {
            None
        },
        None => None,
    }
}

/// The edge an action's effect contributes once any nested decision is
/// resolved: a jump to a workflow, a jump to a qualified step, the
/// workflow's terminal node, or nothing for a jump without a target.
pub open spec fn goto_or_end_lines(
    wid: Seq<char>,
    source: Seq<char>,
    verdict: Verdict,
    action: Action,
) -> Seq<Seq<char>> {
    match action.action_type {
        ActionType::Goto => match action.workflow_id {
            Some(awid) => seq![verdict_edge_text(source, verdict, awid@)],
            None => match action.step_id {
                Some(asid) => seq![verdict_edge_text(source, verdict, qualified_text(wid, asid@))],
                None => Seq::empty(),
            },
        },
        ActionType::End => seq![verdict_edge_text(source, verdict, end_text(wid))],
    }
}

/// The lines resolving one action. An action with its own criteria opens a
/// nested decision node: an edge into it under the bucket's verdict, its
/// effect under the true verdict, and a false edge to the terminal node.
pub open spec fn action_lines(
    wid: Seq<char>,
    step_id: Seq<char>,
    step_criteria: Option<Seq<Criteria>>,
    action: Action,
    side: ActionSide,
) -> Seq<Seq<char>> {
    let own = rhombus_text(qualified_text(wid, step_id), step_criteria);
    let verdict = verdict_of_side(side);
    if action.criteria is Some {
        let nested = rhombus_text(qualified_text(wid, action.name@), criteria_view(action.criteria));
        seq![verdict_edge_text(own, verdict, nested)] + goto_or_end_lines(
            wid,
            nested,
            Verdict::Success,
            action,
        ) + seq![verdict_edge_text(nested, Verdict::Failure, end_text(wid))]
    } else {
        goto_or_end_lines(wid, own, verdict, action)
    }
}

/// The lines resolving a branching step's success outcome: its first
/// success action if declared, else a fall-through to the next step in
/// document order, else to the terminal node.
pub open spec fn success_lines(wid: Seq<char>, steps: Seq<Step>, i: int) -> Seq<Seq<char>> {
    let s = steps[i];
    match first_action(s.on_success) {
        Some(action) => action_lines(
            wid,
            s.step_id@,
            criteria_view(s.success_criteria),
            action,
            ActionSide::OnSuccess,
        ),
        None => if i + 1 < steps.len() {
            seq![
                verdict_edge_text(
                    step_rhombus(wid, s),
                    Verdict::Success,
                    step_rectangle(wid, steps[i + 1]),
                ),
            ]
        } else {
            seq![verdict_edge_text(step_rhombus(wid, s), Verdict::Success, end_text(wid))]
        },
    }
}

/// The lines resolving a branching step's failure outcome: its first
/// failure action if declared, else an edge to the terminal node. Failure
/// never falls through to the next step.
pub open spec fn failure_lines(wid: Seq<char>, s: Step) -> Seq<Seq<char>> {
    match first_action(s.on_failure) {
        Some(action) => action_lines(
            wid,
            s.step_id@,
            criteria_view(s.success_criteria),
            action,
            ActionSide::OnFailure,
        ),
        None => seq![verdict_edge_text(step_rhombus(wid, s), Verdict::Failure, end_text(wid))],
    }
}

/// Every line emitted for the step at index `i`: a branching step opens
/// its own decision node and resolves both outcomes; a linear step emits
/// a single edge to the next step or to the terminal node.
pub open spec fn step_lines(wid: Seq<char>, steps: Seq<Step>, i: int) -> Seq<Seq<char>> {
    let s = steps[i];
    if is_branching(s) {
        seq![plain_edge_text(step_rectangle(wid, s), step_rhombus(wid, s))] + success_lines(
            wid,
            steps,
            i,
        ) + failure_lines(wid, s)
    } else if i + 1 < steps.len() {
        seq![plain_edge_text(step_rectangle(wid, s), step_rectangle(wid, steps[i + 1]))]
    } else {
        seq![plain_edge_text(step_rectangle(wid, s), end_text(wid))]
    }
}

/// A sequence of lines flattened into one text.
pub open spec fn joined_lines(lines: Seq<Seq<char>>) -> Seq<char>
    decreases lines.len(),
{
    if lines.len() == 0 {
        Seq::empty()
    } else {
        joined_lines(lines.drop_last()) + lines.last()
    }
}

/// The lines of the first `n` steps of a workflow, in order.
pub open spec fn steps_lines(wid: Seq<char>, steps: Seq<Step>, n: int) -> Seq<Seq<char>>
    decreases n,
{
    if n <= 0 {
        Seq::empty()
    } else {
        steps_lines(wid, steps, n - 1) + step_lines(wid, steps, n - 1)
    }
}

/// One workflow's text: the subgraph opening, every step's lines, and the
/// closing marker.
pub open spec fn workflow_text(w: Workflow) -> Seq<char> {
    subgraph_text(w.workflow_id@, opt_string_view(w.description)) + joined_lines(
        steps_lines(w.workflow_id@, w.steps@, w.steps@.len() as int),
    ) + "    end\n"@
}

/// The text of the first `n` workflows, in document order.
pub open spec fn workflows_text(ws: Seq<Workflow>, n: int) -> Seq<char>
    decreases n,
{
    if n <= 0 {
        Seq::empty()
    } else {
        workflows_text(ws, n - 1) + workflow_text(ws[n - 1])
    }
}

/// The whole rendered document: header, diagram directive, workflows.
pub open spec fn document_text(document: ArazzoDocument) -> Seq<char> {
    title_text(document.info.title@) + "flowchart TD\n"@ + workflows_text(
        document.workflows@,
        document.workflows@.len() as int,
    )
}

// ---------------------------------------------------------------------------
// Proof: joining lines
// ---------------------------------------------------------------------------

/// Flattening distributes over concatenation of line sequences.
proof fn lemma_joined_lines_concat(a: Seq<Seq<char>>, b: Seq<Seq<char>>)
    ensures
        joined_lines(a + b) == joined_lines(a) + joined_lines(b),
    decreases b.len(),
{
    if b.len() == 0 {
        assert(a + b =~= a);
        assert(joined_lines(a) + Seq::<char>::empty() =~= joined_lines(a));
    } else {
        lemma_joined_lines_concat(a, b.drop_last());
        assert((a + b).drop_last() =~= a + b.drop_last());
        assert((a + b).last() == b.last());
        assert((joined_lines(a) + joined_lines(b.drop_last())) + b.last() =~= joined_lines(a) + (
        joined_lines(b.drop_last()) + b.last()));
    }
}

/// Flattening a single line yields that line.
proof fn lemma_joined_lines_singleton(l: Seq<char>)
    ensures
        joined_lines(seq![l]) == l,
{
    assert(seq![l].drop_last() =~= Seq::<Seq<char>>::empty());
    assert(seq![l].last() == l);
    assert(joined_lines(seq![l]) == joined_lines(Seq::<Seq<char>>::empty()) + l);
    assert(Seq::<char>::empty() + l =~= l);
}

/// Flattening a one-line sequence yields its only line.
proof fn lemma_joined_lines_one(lines: Seq<Seq<char>>)
    requires
        lines.len() == 1,
    ensures
        joined_lines(lines) == lines[0],
{
    assert(lines =~= seq![lines[0]]);
    lemma_joined_lines_singleton(lines[0]);
}

// ---------------------------------------------------------------------------
// Exec: action resolution
// ---------------------------------------------------------------------------

/// The edges resolving one outcome bucket's first action for a branching
/// step, starting from the step's own decision node.
pub fn render_action(
    step_id: &str,
    success_criteria: &Option<Vec<Criteria>>,
    action: &Action,
    action_side: ActionSide,
    workflow_id: &str,
) -> (r: String)
    ensures
        r@ == joined_lines(
            action_lines(
                workflow_id@,
                step_id@,
                criteria_view(*success_criteria),
                *action,
                action_side,
            ),
        ),
{
    let ghost lines = action_lines(
        workflow_id@,
        step_id@,
        criteria_view(*success_criteria),
        *action,
        action_side,
    );
    let mut output = String::new();

    let own_name = qualify(workflow_id, step_id);
    let own_criteria = success_criteria.as_ref();
    proof {
        assert(criteria_ref_view(own_criteria) == criteria_view(*success_criteria));
    }
    let verdict = match action_side {
        ActionSide::OnSuccess => Verdict::Success,
        ActionSide::OnFailure => Verdict::Failure,
    };
    let has_criteria = action.criteria.is_some();
    let action_name = qualify(workflow_id, action.name.as_str());
    let action_criteria = action.criteria.as_ref();
    proof {
        assert(criteria_ref_view(action_criteria) == criteria_view(action.criteria));
    }

    if has_criteria {
        let edge = to_rhombus_from_rhombus(
            own_name.as_str(),
            own_criteria,
            action_name.as_str(),
            action_criteria,
            verdict,
        );
        output.append(edge.as_str());
    }

    let from_name = if has_criteria {
        action_name.as_str()
    } else {
        own_name.as_str()
    };
    let from_criteria = if has_criteria {
        action_criteria
    } else {
        own_criteria
    };
    let out_verdict = if has_criteria {
        Verdict::Success
    } else {
        verdict
    };
    let ghost source = rhombus_text(from_name@, criteria_ref_view(from_criteria));
    let ghost effect = goto_or_end_lines(workflow_id@, source, out_verdict, *action);

    match action.action_type {
        ActionType::Goto => {
            if let Some(action_workflow_id) = &action.workflow_id {
                let edge = to_rectangle_from_rhombus(
                    from_name,
                    from_criteria,
                    action_workflow_id.as_str(),
                    None,
                    out_verdict,
                );
                output.append(edge.as_str());
                proof {
                    assert(rectangle_text(action_workflow_id@, None) =~= action_workflow_id@);
                }
            } else if let Some(action_step_id) = &action.step_id {
                let target = qualify(workflow_id, action_step_id.as_str());
                let edge = to_rectangle_from_rhombus(
                    from_name,
                    from_criteria,
                    target.as_str(),
                    None,
                    out_verdict,
                );
                output.append(edge.as_str());
                proof {
                    assert(rectangle_text(target@, None) =~= target@);
                }
            }
        },
        ActionType::End => {
            let edge = to_end_from_rhombus(from_name, from_criteria, workflow_id, out_verdict);
            output.append(edge.as_str());
        },
    }

    if has_criteria {
        let edge = to_end_from_rhombus(from_name, from_criteria, workflow_id, Verdict::Failure);
        output.append(edge.as_str());
    }

    proof {
        let own = rhombus_text(qualified_text(workflow_id@, step_id@), criteria_view(
            *success_criteria,
        ));
        if has_criteria {
            let opening = verdict_edge_text(own, verdict_of_side(action_side), source);
            let closing = verdict_edge_text(source, Verdict::Failure, end_text(workflow_id@));
            assert(lines == seq![opening] + effect + seq![closing]);
            lemma_joined_lines_concat(seq![opening] + effect, seq![closing]);
            lemma_joined_lines_concat(seq![opening], effect);
            lemma_joined_lines_singleton(opening);
            lemma_joined_lines_singleton(closing);
            if effect.len() == 0 {
                assert(joined_lines(effect) == Seq::<char>::empty());
                assert(opening + Seq::<char>::empty() =~= opening);
            } else {
                lemma_joined_lines_singleton(effect[0]);
                assert(effect =~= seq![effect[0]]);
            }
        } else {
            assert(lines == effect);
            if effect.len() == 0 {
                assert(joined_lines(effect) == Seq::<char>::empty());
            } else {
                assert(effect =~= seq![effect[0]]);
                lemma_joined_lines_singleton(effect[0]);
            }
        }
    }
    output
}

/// Borrows an optional owned string as an optional slice.
fn opt_as_str(s: &Option<String>) -> (r: Option<&str>)
    ensures
        opt_str_view(r) == opt_string_view(*s),
{
    match s {
        Some(v) => Some(v.as_str()),
        None => None,
    }
}

/// The head of an outcome bucket, the only action ever consulted.
fn head_action(bucket: &Option<Vec<Action>>) -> (r: Option<&Action>)
    ensures
        match r {
            Some(a) => first_action(*bucket) == Some(*a),
            None => first_action(*bucket) is None,
        },
{
    match bucket {
        Some(actions) => if actions.len() > 0 {
            Some(&actions[0])
        } else {
            None
        },
        None => None,
    }
}

/// Every line emitted for the step at index `i` of a workflow.
fn render_step(workflow_id: &str, steps: &Vec<Step>, i: usize) -> (r: String)
    requires
        i < steps@.len(),
    ensures
        r@ == joined_lines(step_lines(workflow_id@, steps@, i as int)),
{
    let ghost wid = workflow_id@;
    let n = steps.len();
    let step = &steps[i];
    let qname = qualify(workflow_id, step.step_id.as_str());
    let step_desc = opt_as_str(&step.description);
    if should_branch(step) {
        let step_crit = step.success_criteria.as_ref();
        proof {
            assert(criteria_ref_view(step_crit) == criteria_view(step.success_criteria));
        }
        let mut r = to_rhombus_from_rectangle(qname.as_str(), step_desc, qname.as_str(), step_crit);
        match head_action(&step.on_success) {
            Some(act) => {
                let part = render_action(
                    step.step_id.as_str(),
                    &step.success_criteria,
                    act,
                    ActionSide::OnSuccess,
                    workflow_id,
                );
                r.append(part.as_str());
            },
            None => {
                if i + 1 < n {
                    let next = &steps[i + 1];
                    let nname = qualify(workflow_id, next.step_id.as_str());
                    let next_desc = opt_as_str(&next.description);
                    let edge = to_rectangle_from_rhombus(
                        qname.as_str(),
                        step_crit,
                        nname.as_str(),
                        next_desc,
                        Verdict::Success,
                    );
                    r.append(edge.as_str());
                } else {
                    let edge = to_end_from_rhombus(
                        qname.as_str(),
                        step_crit,
                        workflow_id,
                        Verdict::Success,
                    );
                    r.append(edge.as_str());
                }
            },
        }
        match head_action(&step.on_failure) {
            Some(act) => {
                let part = render_action(
                    step.step_id.as_str(),
                    &step.success_criteria,
                    act,
                    ActionSide::OnFailure,
                    workflow_id,
                );
                r.append(part.as_str());
            },
            None => {
                let edge = to_end_from_rhombus(
                    qname.as_str(),
                    step_crit,
                    workflow_id,
                    Verdict::Failure,
                );
                r.append(edge.as_str());
            },
        }
        proof {
            let s = steps@[i as int];
            let own = plain_edge_text(step_rectangle(wid, s), step_rhombus(wid, s));
            let su = success_lines(wid, steps@, i as int);
            let fa = failure_lines(wid, s);
            assert(step_lines(wid, steps@, i as int) == seq![own] + su + fa);
            lemma_joined_lines_concat(seq![own] + su, fa);
            lemma_joined_lines_concat(seq![own], su);
            lemma_joined_lines_singleton(own);
            if first_action(s.on_success) is None {
                lemma_joined_lines_one(su);
            }
            if first_action(s.on_failure) is None {
                lemma_joined_lines_one(fa);
            }
        }
        r
    } else if i + 1 < n {
        let next = &steps[i + 1];
        let nname = qualify(workflow_id, next.step_id.as_str());
        let next_desc = opt_as_str(&next.description);
        let r = to_rectangle_from_rectangle(qname.as_str(), step_desc, nname.as_str(), next_desc);
        proof {
            lemma_joined_lines_one(step_lines(wid, steps@, i as int));
        }
        r
    } else {
        let r = to_end_from_rectangle(qname.as_str(), step_desc, workflow_id);
        proof {
            lemma_joined_lines_one(step_lines(wid, steps@, i as int));
        }
        r
    }
}

// ---------------------------------------------------------------------------
// Renderer
// ---------------------------------------------------------------------------

/// A backend that turns a document into diagram text.
pub trait Renderer {
    fn render(&self, document: &ArazzoDocument) -> String;
}

/// The Mermaid flowchart backend.
pub struct MermaidFlowchart;

impl Renderer for MermaidFlowchart {
    /// Renders the whole document, workflow by workflow and step by step,
    /// producing exactly the text that `document_text` describes.
    fn render(&self, document: &ArazzoDocument) -> (r: String)
        ensures
            r@ == document_text(*document),
    {
        let ghost ws = document.workflows@;
        let mut output = title(document.info.title.as_str());
        output.append("flowchart TD\n");
        let ghost header = title_text(document.info.title@) + "flowchart TD\n"@;
        proof {
            assert(header + workflows_text(ws, 0) =~= header);
        }
        let mut wi: usize = 0;
        while wi < document.workflows.len()
            invariant
                wi <= ws.len(),
                ws == document.workflows@,
                header == title_text(document.info.title@) + "flowchart TD\n"@,
                output@ == header + workflows_text(ws, wi as int),
            decreases ws.len() - wi,
        {
            let ghost done = header + workflows_text(ws, wi as int);
            let workflow = &document.workflows[wi];
            let wid = workflow.workflow_id.as_str();
            let desc = opt_as_str(&workflow.description);
            let sg = subgraph(wid, desc);
            output.append(sg.as_str());
            let ghost opened = subgraph_text(workflow.workflow_id@, opt_string_view(workflow.description));
            proof {
                assert(joined_lines(steps_lines(workflow.workflow_id@, workflow.steps@, 0))
                    == Seq::<char>::empty());
                assert((done + opened) + Seq::<char>::empty() =~= done + opened);
            }
            let mut si: usize = 0;
            while si < workflow.steps.len()
                invariant
                    si <= workflow.steps@.len(),
                    wid@ == workflow.workflow_id@,
                    output@ == (done + opened) + joined_lines(
                        steps_lines(workflow.workflow_id@, workflow.steps@, si as int),
                    ),
                decreases workflow.steps@.len() - si,
            {
                let step_text = render_step(wid, &workflow.steps, si);
                output.append(step_text.as_str());
                proof {
                    let swid = workflow.workflow_id@;
                    lemma_joined_lines_concat(
                        steps_lines(swid, workflow.steps@, si as int),
                        step_lines(swid, workflow.steps@, si as int),
                    );
                    assert(((done + opened) + joined_lines(
                        steps_lines(swid, workflow.steps@, si as int),
                    )) + joined_lines(step_lines(swid, workflow.steps@, si as int)) =~= (done
                        + opened) + (joined_lines(steps_lines(swid, workflow.steps@, si as int))
                        + joined_lines(step_lines(swid, workflow.steps@, si as int))));
                }
                si += 1;
            }
            output.append("    end\n");
            proof {
                let swid = workflow.workflow_id@;
                let body = joined_lines(
                    steps_lines(swid, workflow.steps@, workflow.steps@.len() as int),
                );
                assert(workflow_text(*workflow) == (opened + body) + "    end\n"@);
                assert(((done + opened) + body) + "    end\n"@ =~= done + ((opened + body)
                    + "    end\n"@));
                assert(*workflow == ws[wi as int]);
                assert(workflows_text(ws, wi as int + 1) == workflows_text(ws, wi as int)
                    + workflow_text(ws[wi as int]));
                assert(done + workflow_text(ws[wi as int]) =~= header + (workflows_text(
                    ws,
                    wi as int,
                ) + workflow_text(ws[wi as int])));
            }
            wi += 1;
        }
        output
    }
}

} // verus!
