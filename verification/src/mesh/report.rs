//! What a run tells of its plan and its results.

use vstd::prelude::*;
use vstd::string::StringExecFns;
use crate::cooldctl::output;
use crate::mesh::action;
use crate::mesh::action::{ActionType, ActionView, Plan, PlannedAction, SkippedAction, SkippedView};
use crate::mesh::apply;
use crate::mesh::apply::{ActionResult, ResultView, VerifyResult};
use crate::number;
use crate::text;

verus! {

/// The line of an action.
pub open spec fn action_line_text(host: Seq<char>, what: ActionType, detail: Seq<char>) -> Seq<char> {
    "  ["@
        + host
        + "] "@
        + what.label()
        + "  "@
        + detail
        + "\n"@
}

/// The line of an action.
fn action_line(host: &str, what: ActionType, detail: &str) -> (r: String)
    ensures
        r@ == action_line_text(host@, what, detail@),
{
    let mut out: String = "  [".to_owned();
    out.append(host);
    out.append("] ");
    out.append(what.name());
    out.append("  ");
    out.append(detail);
    out.append("\n");
    out
}

/// The line of an action that was left out.
pub open spec fn skipped_line_text(host: Seq<char>, what: ActionType, reason: Seq<char>) -> Seq<char> {
    "  ["@
        + host
        + "] "@
        + what.label()
        + " — "@
        + reason
        + "\n"@
}

/// The line of an action that was left out.
fn skipped_line(host: &str, what: ActionType, reason: &str) -> (r: String)
    ensures
        r@ == skipped_line_text(host@, what, reason@),
{
    let mut out: String = "  [".to_owned();
    out.append(host);
    out.append("] ");
    out.append(what.name());
    out.append(" — ");
    out.append(reason);
    out.append("\n");
    out
}

/// The lines of the actions.
pub open spec fn action_lines_text(v: Seq<ActionView>) -> Seq<char>
    decreases v.len(),
{
    if v.len() == 0 {
        Seq::empty()
    } else {
        action_lines_text(v.drop_last()) + action_line_text(v.last().host, v.last().action_type, v.last().detail)
    }
}

/// The lines of the actions.
fn action_lines(v: &Vec<PlannedAction>) -> (r: String)
    ensures
        r@ == action_lines_text(action::action_views(v@)),
{
    let ghost vs = action::action_views(v@);
    let mut out: String = String::new();
    let mut i: usize = 0;
    proof {
        assert(vs.take(0) =~= Seq::empty());
        assert(out@ =~= Seq::empty());
    }
    while i < v.len()
        invariant
            i <= v@.len(),
            vs == action::action_views(v@),
            out@ == action_lines_text(vs.take(i as int)),
        decreases v@.len() - i,
    {
        proof {
            assert(vs.take(i + 1).drop_last() =~= vs.take(i as int));
            assert(vs.take(i + 1).last() == v@[i as int]@);
        }
        out.append(action_line(v[i].host.as_str(), v[i].action_type, v[i].detail.as_str()).as_str());
        i = i + 1;
    }
    proof {
        assert(vs.take(i as int) =~= vs);
    }
    out
}

/// The lines of the actions that were left out.
pub open spec fn skipped_lines_text(v: Seq<SkippedView>) -> Seq<char>
    decreases v.len(),
{
    if v.len() == 0 {
        Seq::empty()
    } else {
        skipped_lines_text(v.drop_last()) + skipped_line_text(v.last().action.host, v.last().action.action_type, v.last().reason)
    }
}

/// The lines of the actions that were left out.
fn skipped_lines(v: &Vec<SkippedAction>) -> (r: String)
    ensures
        r@ == skipped_lines_text(action::skipped_views(v@)),
{
    let ghost vs = action::skipped_views(v@);
    let mut out: String = String::new();
    let mut i: usize = 0;
    proof {
        assert(vs.take(0) =~= Seq::empty());
        assert(out@ =~= Seq::empty());
    }
    while i < v.len()
        invariant
            i <= v@.len(),
            vs == action::skipped_views(v@),
            out@ == skipped_lines_text(vs.take(i as int)),
        decreases v@.len() - i,
    {
        proof {
            assert(vs.take(i + 1).drop_last() =~= vs.take(i as int));
            assert(vs.take(i + 1).last() == v@[i as int]@);
        }
        out.append(skipped_line(v[i].action.host.as_str(), v[i].action.action_type, v[i].reason.as_str()).as_str());
        i = i + 1;
    }
    proof {
        assert(vs.take(i as int) =~= vs);
    }
    out
}

/// The rows of the actions.
pub open spec fn plan_rows_cells(v: Seq<ActionView>) -> Seq<Seq<Seq<char>>> {
    Seq::new(v.len(), |i: int| seq![v[i].host, v[i].action_type.label(), v[i].detail])
}

/// The rows of the actions.
fn plan_rows(v: &Vec<PlannedAction>) -> (r: Vec<Vec<String>>)
    ensures
        output::row_views(r@) == plan_rows_cells(action::action_views(v@)),
{
    broadcast use text::views_push;

    let ghost vs = action::action_views(v@);
    let mut out: Vec<Vec<String>> = Vec::new();
    let mut i: usize = 0;
    while i < v.len()
        invariant
            i <= v@.len(),
            vs == action::action_views(v@),
            out@.len() == i,
            forall|j: int| 0 <= j < i ==> text::views((#[trigger] out@[j])@) == plan_rows_cells(vs)[j],
        decreases v@.len() - i,
    {
        let mut row: Vec<String> = Vec::new();
        proof {
            assert(text::views(row@) =~= Seq::empty());
            assert(vs[i as int] == v@[i as int]@);
        }
        row.push(v[i].host.clone());
        row.push(v[i].action_type.name().to_owned());
        row.push(v[i].detail.clone());
        proof {
            assert(text::views(row@) =~= plan_rows_cells(vs)[i as int]);
        }
        out.push(row);
        i = i + 1;
    }
    proof {
        assert(output::row_views(out@) =~= plan_rows_cells(vs));
    }
    out
}

/// The rows of the results.
pub open spec fn result_rows_cells(v: Seq<ResultView>) -> Seq<Seq<Seq<char>>> {
    Seq::new(v.len(), |i: int| seq![v[i].action.host, v[i].action.action_type.label(), v[i].status, v[i].detail])
}

/// The rows of the results.
fn result_rows(v: &Vec<ActionResult>) -> (r: Vec<Vec<String>>)
    ensures
        output::row_views(r@) == result_rows_cells(apply::result_views(v@)),
{
    broadcast use text::views_push;

    let ghost vs = apply::result_views(v@);
    let mut out: Vec<Vec<String>> = Vec::new();
    let mut i: usize = 0;
    while i < v.len()
        invariant
            i <= v@.len(),
            vs == apply::result_views(v@),
            out@.len() == i,
            forall|j: int| 0 <= j < i ==> text::views((#[trigger] out@[j])@) == result_rows_cells(vs)[j],
        decreases v@.len() - i,
    {
        let mut row: Vec<String> = Vec::new();
        proof {
            assert(text::views(row@) =~= Seq::empty());
            assert(vs[i as int] == v@[i as int]@);
        }
        row.push(v[i].action.host.clone());
        row.push(v[i].action.action_type.name().to_owned());
        row.push(v[i].status.clone());
        row.push(v[i].detail.clone());
        proof {
            assert(text::views(row@) =~= result_rows_cells(vs)[i as int]);
        }
        out.push(row);
        i = i + 1;
    }
    proof {
        assert(output::row_views(out@) =~= result_rows_cells(vs));
    }
    out
}

/// The rows of the verified hosts.
pub open spec fn verify_rows_cells(v: Seq<VerifyResult>) -> Seq<Seq<Seq<char>>> {
    Seq::new(v.len(), |i: int| seq![v[i].host@, v[i].wireguard_ip@, number::decimal(v[i].peer_count as nat), v[i].status@])
}

/// The rows of the verified hosts.
fn verify_rows(v: &Vec<VerifyResult>) -> (r: Vec<Vec<String>>)
    ensures
        output::row_views(r@) == verify_rows_cells(v@),
{
    broadcast use text::views_push;

    let ghost vs = v@;
    let mut out: Vec<Vec<String>> = Vec::new();
    let mut i: usize = 0;
    while i < v.len()
        invariant
            i <= v@.len(),
            vs == v@,
            out@.len() == i,
            forall|j: int| 0 <= j < i ==> text::views((#[trigger] out@[j])@) == verify_rows_cells(vs)[j],
        decreases v@.len() - i,
    {
        let mut row: Vec<String> = Vec::new();
        proof {
            assert(text::views(row@) =~= Seq::empty());
            assert(vs[i as int] == v@[i as int]);
        }
        row.push(v[i].host.clone());
        row.push(v[i].wireguard_ip.clone());
        row.push(number::decimal_of(v[i].peer_count as u64));
        row.push(v[i].status.clone());
        proof {
            assert(text::views(row@) =~= verify_rows_cells(vs)[i as int]);
        }
        out.push(row);
        i = i + 1;
    }
    proof {
        assert(output::row_views(out@) =~= verify_rows_cells(vs));
    }
    out
}

/// What is said where there is nothing to do.
pub const CONVERGED: &'static str = "No changes needed. Mesh is already converged.";

/// What is told of a plan before it is carried out.
pub open spec fn announced(actions: Seq<ActionView>) -> Seq<char> {
    if actions.len() == 0 {
        CONVERGED@ + "\n"@
    } else {
        "Plan:\n"@ + action_lines_text(actions)
    }
}

/// What is told of a plan before it is carried out.
pub fn announce(plan: &Plan) -> (r: String)
    ensures
        r@ == announced(action::action_views(plan.actions@)),
{
    proof {
        assert(action::action_views(plan.actions@).len() == plan.actions@.len());
    }
    if plan.is_empty() {
        let mut out: String = CONVERGED.to_owned();
        out.append("\n");
        out
    } else {
        let mut out: String = "Plan:\n".to_owned();
        out.append(action_lines(&plan.actions).as_str());
        out
    }
}

/// The table of a plan, or that there is nothing to do.
pub open spec fn plan_shown(actions: Seq<ActionView>, skipped: Seq<SkippedView>) -> Seq<char> {
    if actions.len() == 0 && skipped.len() == 0 {
        CONVERGED@ + "\n"@
    } else if actions.len() == 0 {
        Seq::empty()
    } else {
        output::table_text(seq!["HOST"@, "ACTION"@, "DETAIL"@], plan_rows_cells(actions))
    }
}

/// What is told of the actions that were left out.
pub open spec fn skipped_shown(skipped: Seq<SkippedView>) -> Seq<char> {
    if skipped.len() == 0 {
        Seq::empty()
    } else {
        "Skipped by intent filter:\n"@ + skipped_lines_text(skipped)
    }
}

/// What is told of a plan that is not carried out: what goes to the output, and what goes
/// beside it.
pub fn render_plan(plan: &Plan) -> (r: (String, String))
    ensures
        r.0@ == plan_shown(
            action::action_views(plan.actions@),
            action::skipped_views(plan.skipped@),
        ),
        r.1@ == skipped_shown(action::skipped_views(plan.skipped@)),
{
    broadcast use text::views_push;

    proof {
        assert(action::action_views(plan.actions@).len() == plan.actions@.len());
        assert(action::skipped_views(plan.skipped@).len() == plan.skipped@.len());
    }
    let mut beside: String = String::new();
    proof {
        assert(beside@ =~= Seq::empty());
    }
    if plan.skipped.len() > 0 {
        beside = "Skipped by intent filter:\n".to_owned();
        beside.append(skipped_lines(&plan.skipped).as_str());
    }
    if plan.actions.len() == 0 && plan.skipped.len() == 0 {
        let mut out: String = CONVERGED.to_owned();
        out.append("\n");
        return (out, beside);
    }
    if plan.actions.len() == 0 {
        let out: String = String::new();
        proof {
            assert(out@ =~= Seq::empty());
        }
        return (out, beside);
    }
    let mut headers: Vec<String> = Vec::new();
    proof {
        assert(text::views(headers@) =~= Seq::empty());
    }
    headers.push("HOST".to_owned());
    headers.push("ACTION".to_owned());
    headers.push("DETAIL".to_owned());
    proof {
        assert(text::views(headers@) =~= seq!["HOST"@, "ACTION"@, "DETAIL"@]);
    }
    (output::table(&headers, &plan_rows(&plan.actions)), beside)
}

/// The tables of a run: what was done, where anything was, and how the hosts are now.
pub open spec fn apply_shown(results: Seq<ResultView>, verified: Seq<VerifyResult>) -> Seq<char> {
    let hosts = output::table_text(
        seq!["HOST"@, "WIREGUARD IP"@, "PEERS"@, "STATUS"@],
        verify_rows_cells(verified),
    );
    if results.len() == 0 {
        hosts
    } else {
        output::table_text(
            seq!["HOST"@, "ACTION"@, "STATUS"@, "DETAIL"@],
            result_rows_cells(results),
        ) + hosts
    }
}

/// What is told of the results of a run.
pub fn render_apply(results: &Vec<ActionResult>, verified: &Vec<VerifyResult>) -> (r: String)
    ensures
        r@ == apply_shown(apply::result_views(results@), verified@),
{
    broadcast use text::views_push;

    let mut headers: Vec<String> = Vec::new();
    proof {
        assert(text::views(headers@) =~= Seq::empty());
        assert(apply::result_views(results@).len() == results@.len());
    }
    headers.push("HOST".to_owned());
    headers.push("WIREGUARD IP".to_owned());
    headers.push("PEERS".to_owned());
    headers.push("STATUS".to_owned());
    proof {
        assert(text::views(headers@) =~= seq!["HOST"@, "WIREGUARD IP"@, "PEERS"@, "STATUS"@]);
    }
    let hosts: String = output::table(&headers, &verify_rows(verified));
    if results.len() == 0 {
        return hosts;
    }
    let mut columns: Vec<String> = Vec::new();
    proof {
        assert(text::views(columns@) =~= Seq::empty());
    }
    columns.push("HOST".to_owned());
    columns.push("ACTION".to_owned());
    columns.push("STATUS".to_owned());
    columns.push("DETAIL".to_owned());
    proof {
        assert(text::views(columns@) =~= seq!["HOST"@, "ACTION"@, "STATUS"@, "DETAIL"@]);
    }
    let mut out: String = output::table(&columns, &result_rows(results));
    out.append(hosts.as_str());
    out
}

/// What is said before the hosts are probed.
pub open spec fn probing_text(hosts: nat) -> Seq<char> {
    "Probing "@
        + number::decimal(hosts)
        + " mesh host(s)..."@
}

/// What is said before the hosts are probed.
pub fn probing(hosts: usize) -> (r: String)
    ensures
        r@ == probing_text(hosts as nat),
{
    let mut out: String = "Probing ".to_owned();
    out.append(number::decimal_of(hosts as u64).as_str());
    out.append(" mesh host(s)...");
    out
}

} // verus!
