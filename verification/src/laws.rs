//! Properties of the rendered text, proved once and for all documents.

use vstd::prelude::*;

use crate::arazzo::{Action, ActionType, ArazzoDocument, Criteria, Step};
use crate::renderer::{
    and_joined, condition_text, conditions_of, document_text, end_text, failure_lines,
    first_action, is_branching, plain_edge_text, step_lines, step_rectangle, step_rhombus,
    steps_lines, success_lines, verdict_edge_text, Verdict,
};

verus! {

/// Rendering is a pure function of the document value: any two renderings
/// of the same document are byte-identical.
pub proof fn lemma_render_deterministic(
    document: ArazzoDocument,
    first_output: Seq<char>,
    second_output: Seq<char>,
)
    requires
        first_output == document_text(document),
        second_output == document_text(document),
    ensures
        first_output == second_output,
{
}

proof fn lemma_linear_chain_upto(wid: Seq<char>, steps: Seq<Step>, n: int)
    requires
        0 <= n <= steps.len(),
        forall|i: int| 0 <= i < steps.len() ==> !is_branching(#[trigger] steps[i]),
    ensures
        steps_lines(wid, steps, n).len() == n,
        forall|i: int|
            0 <= i < n ==> #[trigger] steps_lines(wid, steps, n)[i] == step_lines(wid, steps, i)[0],
    decreases n,
{
    if n > 0 {
        lemma_linear_chain_upto(wid, steps, n - 1);
        assert(step_lines(wid, steps, n - 1).len() == 1);
        assert forall|i: int| 0 <= i < n implies #[trigger] steps_lines(wid, steps, n)[i]
            == step_lines(wid, steps, i)[0] by {
            if i < n - 1 {
                assert(steps_lines(wid, steps, n)[i] == steps_lines(wid, steps, n - 1)[i]);
            } else {
                assert(steps_lines(wid, steps, n)[i] == step_lines(wid, steps, n - 1)[0]);
            }
        }
    }
}

/// A workflow whose steps all are linear renders as a chain: exactly one
/// line per step, each an edge to the next step in document order, and the
/// last an edge to the workflow's terminal node.
pub proof fn lemma_linear_chain(wid: Seq<char>, steps: Seq<Step>)
    requires
        steps.len() > 0,
        forall|i: int| 0 <= i < steps.len() ==> !is_branching(#[trigger] steps[i]),
    ensures
        steps_lines(wid, steps, steps.len() as int).len() == steps.len(),
        forall|i: int|
            0 <= i < steps.len() - 1 ==> #[trigger] steps_lines(wid, steps, steps.len() as int)[i]
                == plain_edge_text(step_rectangle(wid, steps[i]), step_rectangle(wid, steps[i + 1])),
        steps_lines(wid, steps, steps.len() as int)[steps.len() - 1] == plain_edge_text(
            step_rectangle(wid, steps.last()),
            end_text(wid),
        ),
{
    lemma_linear_chain_upto(wid, steps, steps.len() as int);
    assert forall|i: int| 0 <= i < steps.len() - 1 implies #[trigger] steps_lines(
        wid,
        steps,
        steps.len() as int,
    )[i] == plain_edge_text(step_rectangle(wid, steps[i]), step_rectangle(wid, steps[i + 1])) by {
        assert(steps_lines(wid, steps, steps.len() as int)[i] == step_lines(wid, steps, i)[0]);
    }
    assert(steps_lines(wid, steps, steps.len() as int)[steps.len() - 1] == step_lines(
        wid,
        steps,
        steps.len() - 1,
    )[0]);
}

/// Whether an action names somewhere to go: jumps carry a target workflow
/// or step; ending the workflow needs none.
pub open spec fn has_target(action: Action) -> bool {
    action.action_type is Goto ==> action.workflow_id is Some || action.step_id is Some
}

/// How many lines resolving one bucket's action contributes: three when
/// the action opens a nested decision, one otherwise.
pub open spec fn outcome_line_count(bucket: Option<Vec<Action>>) -> int {
    match first_action(bucket) {
        Some(action) => if action.criteria is Some {
            3
        } else {
            1
        },
        None => 1,
    }
}

/// Branch completeness: a branching step emits its own decision edge
/// first, then the success resolution, then the failure resolution, and
/// each resolution opens with exactly one edge leaving the step's own
/// decision node under that bucket's verdict. Jump actions are assumed to
/// name a target; a jump without one resolves to no edge at all.
pub proof fn lemma_branch_completeness(wid: Seq<char>, steps: Seq<Step>, i: int)
    requires
        0 <= i < steps.len(),
        is_branching(steps[i]),
        match first_action(steps[i].on_success) {
            Some(action) => has_target(action),
            None => true,
        },
        match first_action(steps[i].on_failure) {
            Some(action) => has_target(action),
            None => true,
        },
    ensures
        step_lines(wid, steps, i) == seq![
            plain_edge_text(step_rectangle(wid, steps[i]), step_rhombus(wid, steps[i])),
        ] + success_lines(wid, steps, i) + failure_lines(wid, steps[i]),
        success_lines(wid, steps, i).len() == outcome_line_count(steps[i].on_success),
        failure_lines(wid, steps[i]).len() == outcome_line_count(steps[i].on_failure),
        exists|target: Seq<char>|
            success_lines(wid, steps, i)[0] == verdict_edge_text(
                step_rhombus(wid, steps[i]),
                Verdict::Success,
                target,
            ),
        exists|target: Seq<char>|
            failure_lines(wid, steps[i])[0] == verdict_edge_text(
                step_rhombus(wid, steps[i]),
                Verdict::Failure,
                target,
            ),
{
}

/// Condition composition for a pair: two criteria that both carry a
/// condition yield that pair joined by a single AND inside braces.
pub proof fn lemma_condition_pair(cs: Seq<Criteria>)
    requires
        cs.len() == 2,
        cs[0].condition is Some,
        cs[1].condition is Some,
    ensures
        condition_text(Some(cs)) == "{"@ + (cs[0].condition->0@ + " && "@ + cs[1].condition->0@)
            + "}"@,
{
    let a = cs[0].condition->0@;
    let b = cs[1].condition->0@;
    let tail = cs.drop_last();
    assert(tail.len() == 1);
    assert(tail.last() == cs[0] && tail.drop_last().len() == 0);
    assert(conditions_of(tail.drop_last()) =~= Seq::<Seq<char>>::empty());
    assert(conditions_of(tail) =~= seq![a]);
    assert(cs.last() == cs[1]);
    assert(conditions_of(cs) =~= conditions_of(tail) + seq![b]);
    let joined = and_joined(conditions_of(cs));
    assert(conditions_of(cs).drop_last() =~= seq![a]);
    assert(conditions_of(cs).last() == b);
    assert(and_joined(seq![a]) == a);
    assert(joined == a + " && "@ + b);
    reveal_strlit(" && ");
    assert(joined.len() > 0);
}

/// An empty criteria list yields no condition text at all.
pub proof fn lemma_condition_empty(cs: Seq<Criteria>)
    requires
        cs.len() == 0,
    ensures
        condition_text(Some(cs)) == Seq::<char>::empty(),
{
}

/// Default fallback asymmetry: a branching step with no declared actions
/// sends success to the next step in document order when one exists, and
/// failure always to the workflow's terminal node — never the reverse.
pub proof fn lemma_default_fallback(wid: Seq<char>, steps: Seq<Step>, i: int)
    requires
        0 <= i < steps.len(),
        steps[i].success_criteria is Some,
        first_action(steps[i].on_success) is None,
        first_action(steps[i].on_failure) is None,
        i + 1 < steps.len(),
    ensures
        success_lines(wid, steps, i) == seq![
            verdict_edge_text(
                step_rhombus(wid, steps[i]),
                Verdict::Success,
                step_rectangle(wid, steps[i + 1]),
            ),
        ],
        failure_lines(wid, steps[i]) == seq![
            verdict_edge_text(step_rhombus(wid, steps[i]), Verdict::Failure, end_text(wid)),
        ],
{
}

} // verus!
