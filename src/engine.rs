//! The execution engine: one pass over a plan, as a state machine. The
//! engine decides; whoever drives it asks the user, invokes capabilities and
//! hands back what came of it.

use crate::plan::{ExecutionResult, Plan, PlanStep, StepModel};
use crate::text::{
    chars_of, eq_str, in_list, starts_with, starts_with_str, trim, trim_str, views,
};
use crate::tools::{OutcomeModel, ToolResult};
use vstd::prelude::*;

verus! {

/// The capability that analyses failures; the engine asks it after each
/// critical failure.
pub open spec fn analyzer_name() -> Seq<char> {
    "analyze_error"@
}

/// Failures of every capability count as critical, but for the reflection and
/// error-analysis capabilities.
pub open spec fn is_critical(name: Seq<char>) -> bool {
    name != "reflect"@ && name != analyzer_name()
}

/// The key of an output reference `$output[key]`.
pub open spec fn reference_key(input: Seq<char>) -> Option<Seq<char>> {
    if input.len() > 8 && starts_with(input, "$output["@) && input.last() == ']' {
        Some(input.subrange(8, input.len() - 1))
    } else {
        None
    }
}

/// The reference to the output of capability `key`.
pub open spec fn output_reference(key: Seq<char>) -> Seq<char> {
    "$output["@ + key + "]"@
}

pub open spec fn missing_output(key: Seq<char>) -> Seq<char> {
    "(missing output for '"@ + key + "')"@
}

/// The input handed to a capability: an output reference stands for the
/// captured output of its capability, or for a note that there is none.
pub open spec fn resolve(input: Seq<char>, captured: Map<Seq<char>, Seq<char>>) -> Seq<char> {
    match reference_key(input) {
        Some(k) => if captured.contains_key(k) {
            captured[k]
        } else {
            missing_output(k)
        },
        None => input,
    }
}

/// What the engine waits for.
pub enum PhaseModel {
    Confirm,
    Invoke,
    Analyze(Seq<char>),
    Done,
}

/// The state of a pass.
pub struct ExecModel {
    pub steps: Seq<StepModel>,
    pub registered: Seq<Seq<char>>,
    pub pos: nat,
    pub phase: PhaseModel,
    pub resolved: Seq<char>,
    pub output: Seq<char>,
    pub errors: Seq<Seq<char>>,
    pub critical: nat,
    pub captured: Map<Seq<char>, Seq<char>>,
    pub entries: Seq<(Seq<char>, Seq<char>)>,
}

/// The name of the capability of the current step.
pub open spec fn current_name(m: ExecModel) -> Seq<char> {
    match m.steps[m.pos as int] {
        StepModel::ToolCall { name, .. } => name,
        StepModel::Info { .. } => seq![],
    }
}

pub open spec fn info_line(msg: Seq<char>) -> Seq<char> {
    "[INFO] "@ + msg + "\n"@
}

pub open spec fn info_step(m: ExecModel, msg: Seq<char>) -> ExecModel {
    ExecModel {
        pos: m.pos + 1,
        output: m.output + info_line(msg),
        entries: m.entries.push(("info"@, msg)),
        ..m
    }
}

/// Runs the notes from the current step on, and stops at the next tool step
/// (to ask for confirmation) or at the end.
pub open spec fn settle(m: ExecModel) -> ExecModel
    decreases m.steps.len() - m.pos,
{
    if m.pos < m.steps.len() {
        match m.steps[m.pos as int] {
            StepModel::Info { message } => settle(info_step(m, message)),
            StepModel::ToolCall { name, input } => ExecModel {
                phase: PhaseModel::Confirm,
                resolved: resolve(input, m.captured),
                ..m
            },
        }
    } else {
        ExecModel { phase: PhaseModel::Done, ..m }
    }
}

/// The state that starts a pass over `steps`.
pub open spec fn initial(steps: Seq<StepModel>, registered: Seq<Seq<char>>) -> ExecModel {
    settle(
        ExecModel {
            steps,
            registered,
            pos: 0,
            phase: PhaseModel::Done,
            resolved: seq![],
            output: seq![],
            errors: seq![],
            critical: 0,
            captured: Map::empty(),
            entries: seq![],
        },
    )
}

/// Moves past the current step.
pub open spec fn next_step(m: ExecModel) -> ExecModel {
    settle(ExecModel { pos: m.pos + 1, ..m })
}

pub open spec fn not_found(name: Seq<char>) -> Seq<char> {
    "capability not found: "@ + name
}

/// After the user's answer: skip the step, record an unknown capability as a
/// critical failure, or go on to invoke it.
pub open spec fn after_reply(m: ExecModel, proceed: bool) -> ExecModel {
    if !proceed {
        next_step(m)
    } else if m.registered.contains(current_name(m)) {
        ExecModel { phase: PhaseModel::Invoke, ..m }
    } else {
        next_step(
            ExecModel {
                critical: m.critical + 1,
                errors: m.errors.push(not_found(current_name(m))),
                ..m
            },
        )
    }
}

pub open spec fn failure_text(r: OutcomeModel) -> Seq<char> {
    match r.error {
        Some(e) => e,
        None => "Unknown error"@,
    }
}

pub open spec fn tool_entry(name: Seq<char>, input: Seq<char>, r: OutcomeModel) -> (
    Seq<char>,
    Seq<char>,
) {
    (
        "tool: "@ + name,
        "[input] "@ + input + "\n[output] "@ + match r.output {
            Some(o) => o,
            None => seq![],
        },
    )
}

pub open spec fn failure_entry(name: Seq<char>, msg: Seq<char>) -> (Seq<char>, Seq<char>) {
    ("execution_error"@, "Tool '"@ + name + "' failed: "@ + msg)
}

/// After the capability's result: capture a successful output, or record the
/// failure, count it where it is critical, and ask for an analysis of a
/// critical failure where the analyser is registered.
pub open spec fn after_result(m: ExecModel, r: OutcomeModel) -> ExecModel {
    let n = current_name(m);
    let logged = ExecModel { entries: m.entries.push(tool_entry(n, m.resolved, r)), ..m };
    if r.success {
        match r.output {
            Some(o) => next_step(
                ExecModel {
                    captured: logged.captured.insert(n, o),
                    output: logged.output + o + "\n"@,
                    ..logged
                },
            ),
            None => next_step(logged),
        }
    } else {
        let msg = failure_text(r);
        let crit = is_critical(n);
        let failed = ExecModel {
            errors: logged.errors.push(msg),
            critical: if crit {
                logged.critical + 1
            } else {
                logged.critical
            },
            entries: logged.entries.push(failure_entry(n, msg)),
            ..logged
        };
        if crit && m.registered.contains(analyzer_name()) {
            ExecModel { phase: PhaseModel::Analyze(msg), ..failed }
        } else {
            next_step(failed)
        }
    }
}

/// After the analysis of a failure: log it where it succeeded.
pub open spec fn after_analysis(m: ExecModel, r: OutcomeModel) -> ExecModel {
    if r.success && r.output is Some {
        next_step(ExecModel { entries: m.entries.push(("error_analysis"@, r.output->0)), ..m })
    } else {
        next_step(m)
    }
}

/// Something that whoever drives a pass hands back to the engine.
pub enum Event {
    Reply(bool),
    Result(OutcomeModel),
}

/// The state after one event; an event that the state does not wait for
/// leaves it unchanged.
pub open spec fn apply(m: ExecModel, e: Event) -> ExecModel {
    match (m.phase, e) {
        (PhaseModel::Confirm, Event::Reply(b)) => after_reply(m, b),
        (PhaseModel::Invoke, Event::Result(r)) => after_result(m, r),
        (PhaseModel::Analyze(_), Event::Result(r)) => after_analysis(m, r),
        _ => m,
    }
}

/// The state after a sequence of events.
pub open spec fn run(m: ExecModel, es: Seq<Event>) -> ExecModel
    decreases es.len(),
{
    if es.len() == 0 {
        m
    } else {
        run(apply(m, es[0]), es.drop_first())
    }
}

/// The captured outputs as a map: a later entry for a name replaces an
/// earlier one.
pub open spec fn captured_map(s: Seq<(String, String)>) -> Map<Seq<char>, Seq<char>>
    decreases s.len(),
{
    if s.len() == 0 {
        Map::empty()
    } else {
        captured_map(s.drop_last()).insert(s.last().0@, s.last().1@)
    }
}

pub open spec fn error_views(e: Seq<String>) -> Seq<Seq<char>> {
    e.map_values(|s: String| s@)
}

/// What the engine asks of whoever drives it.
#[derive(Debug, Clone, PartialEq, Eq)]
pub enum Request {
    /// Ask the user whether to run `name` on `input`.
    Confirm { name: String, input: String },
    /// Run `name` on `input`.
    Invoke { name: String, input: String },
    /// Run the error-analysis capability on `input`.
    Analyze { input: String },
    /// The pass is over.
    Done,
}

pub enum RequestModel {
    Confirm { name: Seq<char>, input: Seq<char> },
    Invoke { name: Seq<char>, input: Seq<char> },
    Analyze { input: Seq<char> },
    Done,
}

impl View for Request {
    type V = RequestModel;

    open spec fn view(&self) -> RequestModel {
        match self {
            Request::Confirm { name, input } => RequestModel::Confirm { name: name@, input: input@ },
            Request::Invoke { name, input } => RequestModel::Invoke { name: name@, input: input@ },
            Request::Analyze { input } => RequestModel::Analyze { input: input@ },
            Request::Done => RequestModel::Done,
        }
    }
}

/// What the engine waits for in a state.
pub open spec fn request_of(m: ExecModel) -> RequestModel {
    match m.phase {
        PhaseModel::Confirm => RequestModel::Confirm { name: current_name(m), input: m.resolved },
        PhaseModel::Invoke => RequestModel::Invoke { name: current_name(m), input: m.resolved },
        PhaseModel::Analyze(msg) => RequestModel::Analyze { input: msg },
        PhaseModel::Done => RequestModel::Done,
    }
}

/// The result of a pass: it succeeds exactly when no critical failure
/// happened.
pub open spec fn outcome_success(m: ExecModel) -> bool {
    m.critical == 0
}

/// A reply that declines a step: `n` or `N`, around white space.
pub open spec fn declines(line: Seq<char>) -> bool {
    trim(line) == "n"@ || trim(line) == "N"@
}

/// Whether a reply to a confirmation declines the step.
pub fn is_declined(line: &str) -> (r: bool)
    ensures
        r == declines(line@),
{
    let t = trim_str(line);
    eq_str(t.as_str(), "n") || eq_str(t.as_str(), "N")
}

enum Phase {
    Confirm,
    Invoke,
    Analyze(String),
    Done,
}

/// One pass of the engine over a plan.
pub struct Execution {
    steps: Vec<PlanStep>,
    registered: Vec<String>,
    pos: usize,
    phase: Phase,
    resolved: String,
    output: String,
    errors: Vec<String>,
    critical: usize,
    captured: Vec<(String, String)>,
    entries: Vec<(String, String)>,
}

pub open spec fn entry_views(e: Seq<(String, String)>) -> Seq<(Seq<char>, Seq<char>)> {
    e.map_values(|p: (String, String)| (p.0@, p.1@))
}

impl View for Execution {
    type V = ExecModel;

    closed spec fn view(&self) -> ExecModel {
        ExecModel {
            steps: self.steps@.map_values(|p: PlanStep| p@),
            registered: views(self.registered@),
            pos: self.pos as nat,
            phase: match self.phase {
                Phase::Confirm => PhaseModel::Confirm,
                Phase::Invoke => PhaseModel::Invoke,
                Phase::Analyze(s) => PhaseModel::Analyze(s@),
                Phase::Done => PhaseModel::Done,
            },
            resolved: self.resolved@,
            output: self.output@,
            errors: error_views(self.errors@),
            critical: self.critical as nat,
            captured: captured_map(self.captured@),
            entries: entry_views(self.entries@),
        }
    }
}

/// The states a pass can be in: the current step exists and is a tool step
/// while the engine waits, and at most one critical failure per step so far.
pub open spec fn well_formed(m: ExecModel) -> bool {
    &&& m.pos <= m.steps.len()
    &&& (m.phase is Done <==> m.pos == m.steps.len())
    &&& !(m.phase is Done) ==> m.steps[m.pos as int] is ToolCall
    &&& if m.phase is Analyze {
        m.critical <= m.pos + 1
    } else {
        m.critical <= m.pos
    }
    &&& (m.phase is Confirm || m.phase is Invoke) ==> m.resolved == resolve(
        step_input(m),
        m.captured,
    )
}

/// The input written in the current step.
pub open spec fn step_input(m: ExecModel) -> Seq<char> {
    match m.steps[m.pos as int] {
        StepModel::ToolCall { input, .. } => input,
        StepModel::Info { .. } => seq![],
    }
}

proof fn lemma_captured_lookup(s: Seq<(String, String)>, k: Seq<char>, j: int)
    requires
        0 <= j < s.len(),
        s[j].0@ == k,
        forall|i: int| j < i < s.len() ==> s[i].0@ != k,
    ensures
        captured_map(s).contains_key(k),
        captured_map(s)[k] == s[j].1@,
    decreases s.len(),
{
    if j < s.len() - 1 {
        lemma_captured_lookup(s.drop_last(), k, j);
    }
}

proof fn lemma_captured_absent(s: Seq<(String, String)>, k: Seq<char>)
    requires
        forall|i: int| 0 <= i < s.len() ==> s[i].0@ != k,
    ensures
        !captured_map(s).contains_key(k),
    decreases s.len(),
{
    if s.len() > 0 {
        lemma_captured_absent(s.drop_last(), k);
    }
}

/// Running notes changes neither the failures nor the captured outputs.
pub proof fn lemma_settle_keeps(m: ExecModel)
    ensures
        settle(m).critical == m.critical,
        settle(m).errors == m.errors,
        settle(m).captured == m.captured,
        settle(m).registered == m.registered,
        settle(m).steps == m.steps,
        settle(m).pos >= m.pos,
    decreases m.steps.len() - m.pos,
{
    if m.pos < m.steps.len() {
        match m.steps[m.pos as int] {
            StepModel::Info { message } => lemma_settle_keeps(info_step(m, message)),
            StepModel::ToolCall { .. } => {},
        }
    }
}

/// No event takes back a critical failure.
pub proof fn lemma_apply_monotone(m: ExecModel, e: Event)
    ensures
        apply(m, e).critical >= m.critical,
        apply(m, e).steps == m.steps,
        apply(m, e).registered == m.registered,
{
    let n = current_name(m);
    lemma_settle_keeps(ExecModel { pos: m.pos + 1, ..m });
    lemma_settle_keeps(
        ExecModel {
            pos: m.pos + 1,
            critical: m.critical + 1,
            errors: m.errors.push(not_found(n)),
            ..m
        },
    );
    match (m.phase, e) {
        (PhaseModel::Invoke, Event::Result(r)) => {
            let logged = ExecModel { entries: m.entries.push(tool_entry(n, m.resolved, r)), ..m };
            lemma_settle_keeps(ExecModel { pos: logged.pos + 1, ..logged });
            match r.output {
                Some(o) => lemma_settle_keeps(
                    ExecModel {
                        pos: logged.pos + 1,
                        captured: logged.captured.insert(n, o),
                        output: logged.output + o + "\n"@,
                        ..logged
                    },
                ),
                None => {},
            }
            let msg = failure_text(r);
            let failed = ExecModel {
                errors: logged.errors.push(msg),
                critical: if is_critical(n) {
                    logged.critical + 1
                } else {
                    logged.critical
                },
                entries: logged.entries.push(failure_entry(n, msg)),
                ..logged
            };
            lemma_settle_keeps(ExecModel { pos: failed.pos + 1, ..failed });
        },
        (PhaseModel::Analyze(_), Event::Result(r)) => {
            lemma_settle_keeps(
                ExecModel {
                    pos: m.pos + 1,
                    entries: m.entries.push(("error_analysis"@, r.output->0)),
                    ..m
                },
            );
        },
        _ => {},
    }
}

/// No sequence of events takes back a critical failure.
pub proof fn lemma_run_monotone(m: ExecModel, es: Seq<Event>)
    ensures
        run(m, es).critical >= m.critical,
    decreases es.len(),
{
    if es.len() > 0 {
        lemma_apply_monotone(m, es[0]);
        lemma_run_monotone(apply(m, es[0]), es.drop_first());
    }
}

/// Criticality is a fixed partition: a failure of the reflection or the
/// error-analysis capability leaves the count of critical failures as it
/// was, so by itself it never makes a pass fail; a failure of any other
/// capability adds one, and so does a confirmed step whose capability is not
/// registered. No later event takes a critical failure back.
pub proof fn lemma_criticality_partition(m: ExecModel, r: OutcomeModel, es: Seq<Event>)
    requires
        well_formed(m),
        !r.success,
    ensures
        m.phase is Invoke && !is_critical(current_name(m)) ==> after_result(m, r).critical
            == m.critical,
        m.phase is Invoke && is_critical(current_name(m)) ==> after_result(m, r).critical
            == m.critical + 1 && !outcome_success(run(after_result(m, r), es)),
        m.phase is Confirm && !m.registered.contains(current_name(m)) ==> after_reply(
            m,
            true,
        ).critical == m.critical + 1 && !outcome_success(run(after_reply(m, true), es)),
{
    lemma_apply_monotone(m, Event::Result(r));
    lemma_apply_monotone(m, Event::Reply(true));
    let n = current_name(m);
    let logged = ExecModel { entries: m.entries.push(tool_entry(n, m.resolved, r)), ..m };
    let msg = failure_text(r);
    let failed = ExecModel {
        errors: logged.errors.push(msg),
        critical: if is_critical(n) {
            logged.critical + 1
        } else {
            logged.critical
        },
        entries: logged.entries.push(failure_entry(n, msg)),
        ..logged
    };
    lemma_settle_keeps(ExecModel { pos: failed.pos + 1, ..failed });
    lemma_settle_keeps(
        ExecModel {
            pos: m.pos + 1,
            critical: m.critical + 1,
            errors: m.errors.push(not_found(n)),
            ..m
        },
    );
    lemma_run_monotone(after_result(m, r), es);
    lemma_run_monotone(after_reply(m, true), es);
}

/// A confirmed step whose capability is not registered is reported as
/// `capability not found: <name>`, and the pass fails whatever follows.
pub proof fn lemma_unregistered_fails(m: ExecModel, es: Seq<Event>)
    requires
        well_formed(m),
        m.phase is Confirm,
        !m.registered.contains(current_name(m)),
    ensures
        after_reply(m, true).errors == m.errors.push(not_found(current_name(m))),
        !outcome_success(run(after_reply(m, true), es)),
{
    let n = current_name(m);
    lemma_settle_keeps(
        ExecModel {
            pos: m.pos + 1,
            critical: m.critical + 1,
            errors: m.errors.push(not_found(n)),
            ..m
        },
    );
    lemma_run_monotone(after_reply(m, true), es);
}

/// `$output[x]` stands for the most recent successful output of `x` in the
/// pass: right after `x` succeeds with an output, that output; for a name
/// with no captured output, a note that it is missing.
pub proof fn lemma_output_reference(m: ExecModel, r: OutcomeModel, x: Seq<char>)
    requires
        well_formed(m),
    ensures
        m.phase is Invoke && r.success && r.output is Some ==> resolve(
            output_reference(current_name(m)),
            after_result(m, r).captured,
        ) == r.output->0,
        !m.captured.contains_key(x) ==> resolve(output_reference(x), m.captured) == missing_output(
            x,
        ),
{
    lemma_reference_key(x);
    let n = current_name(m);
    lemma_reference_key(n);
    if m.phase is Invoke && r.success && r.output is Some {
        let o = r.output->0;
        let logged = ExecModel { entries: m.entries.push(tool_entry(n, m.resolved, r)), ..m };
        lemma_settle_keeps(
            ExecModel {
                pos: logged.pos + 1,
                captured: logged.captured.insert(n, o),
                output: logged.output + o + "\n"@,
                ..logged
            },
        );
    }
}

/// The key of `$output[x]` is `x`.
pub proof fn lemma_reference_key(x: Seq<char>)
    ensures
        reference_key(output_reference(x)) == Some(x),
{
    reveal_strlit("$output[");
    reveal_strlit("]");
    let s = output_reference(x);
    assert(s.take(8) =~= "$output["@);
    assert(s.subrange(8, s.len() - 1) =~= x);
}

/// Whether an event records a critical failure: a confirmed step whose
/// capability is not registered, or a failure of a capability other than the
/// reflection and error-analysis ones.
pub open spec fn critical_event(m: ExecModel, e: Event) -> bool {
    match (m.phase, e) {
        (PhaseModel::Confirm, Event::Reply(b)) => b && !m.registered.contains(current_name(m)),
        (PhaseModel::Invoke, Event::Result(r)) => !r.success && is_critical(current_name(m)),
        _ => false,
    }
}

/// The errors an event records.
pub open spec fn event_errors(m: ExecModel, e: Event) -> Seq<Seq<char>> {
    match (m.phase, e) {
        (PhaseModel::Confirm, Event::Reply(b)) => if b && !m.registered.contains(current_name(m)) {
            seq![not_found(current_name(m))]
        } else {
            seq![]
        },
        (PhaseModel::Invoke, Event::Result(r)) => if !r.success {
            seq![failure_text(r)]
        } else {
            seq![]
        },
        _ => seq![],
    }
}

/// The output an event captures, with the name of its capability.
pub open spec fn event_capture(m: ExecModel, e: Event) -> Seq<(Seq<char>, Seq<char>)> {
    match (m.phase, e) {
        (PhaseModel::Invoke, Event::Result(r)) => if r.success && r.output is Some {
            seq![(current_name(m), r.output->0)]
        } else {
            seq![]
        },
        _ => seq![],
    }
}

/// The number of critical failures that a sequence of events records.
pub open spec fn critical_events(m: ExecModel, es: Seq<Event>) -> nat
    decreases es.len(),
{
    if es.len() == 0 {
        0
    } else {
        (if critical_event(m, es[0]) {
            1nat
        } else {
            0nat
        }) + critical_events(apply(m, es[0]), es.drop_first())
    }
}

/// The errors that a sequence of events records, in order.
pub open spec fn pass_errors(m: ExecModel, es: Seq<Event>) -> Seq<Seq<char>>
    decreases es.len(),
{
    if es.len() == 0 {
        seq![]
    } else {
        event_errors(m, es[0]) + pass_errors(apply(m, es[0]), es.drop_first())
    }
}

/// The outputs that a sequence of events captures, in order.
pub open spec fn pass_captures(m: ExecModel, es: Seq<Event>) -> Seq<(Seq<char>, Seq<char>)>
    decreases es.len(),
{
    if es.len() == 0 {
        seq![]
    } else {
        event_capture(m, es[0]) + pass_captures(apply(m, es[0]), es.drop_first())
    }
}

/// Captured outputs after recording `ps` in order: a later output of a name
/// replaces an earlier one.
pub open spec fn fold_captures(c: Map<Seq<char>, Seq<char>>, ps: Seq<(Seq<char>, Seq<char>)>) -> Map<
    Seq<char>,
    Seq<char>,
>
    decreases ps.len(),
{
    if ps.len() == 0 {
        c
    } else {
        fold_captures(c.insert(ps[0].0, ps[0].1), ps.drop_first())
    }
}

proof fn lemma_settle_wf(m: ExecModel)
    requires
        m.pos <= m.steps.len(),
        m.critical <= m.pos,
    ensures
        well_formed(settle(m)),
    decreases m.steps.len() - m.pos,
{
    if m.pos < m.steps.len() {
        match m.steps[m.pos as int] {
            StepModel::Info { message } => lemma_settle_wf(info_step(m, message)),
            StepModel::ToolCall { .. } => {},
        }
    }
}

/// What one event does to the failures, errors and captured outputs, and
/// that it keeps the state well formed.
proof fn lemma_apply_effects(m: ExecModel, e: Event)
    requires
        well_formed(m),
    ensures
        well_formed(apply(m, e)),
        apply(m, e).critical == m.critical + if critical_event(m, e) {
            1nat
        } else {
            0nat
        },
        apply(m, e).errors == m.errors + event_errors(m, e),
        apply(m, e).captured == fold_captures(m.captured, event_capture(m, e)),
{
    lemma_apply_monotone(m, e);
    let n = current_name(m);
    let next = ExecModel { pos: m.pos + 1, ..m };
    lemma_settle_keeps(next);
    let missing = ExecModel {
        pos: m.pos + 1,
        critical: m.critical + 1,
        errors: m.errors.push(not_found(n)),
        ..m
    };
    lemma_settle_keeps(missing);
    assert(fold_captures(m.captured, seq![]) == m.captured);
    match (m.phase, e) {
        (PhaseModel::Confirm, Event::Reply(b)) => {
            lemma_settle_wf(next);
            lemma_settle_wf(missing);
            assert(m.errors + seq![] =~= m.errors);
            assert(m.errors + seq![not_found(n)] =~= m.errors.push(not_found(n)));
        },
        (PhaseModel::Invoke, Event::Result(r)) => {
            let logged = ExecModel { entries: m.entries.push(tool_entry(n, m.resolved, r)), ..m };
            lemma_settle_keeps(ExecModel { pos: logged.pos + 1, ..logged });
            lemma_settle_wf(ExecModel { pos: logged.pos + 1, ..logged });
            match r.output {
                Some(o) => {
                    let c = ExecModel {
                        pos: logged.pos + 1,
                        captured: logged.captured.insert(n, o),
                        output: logged.output + o + "\n"@,
                        ..logged
                    };
                    lemma_settle_keeps(c);
                    lemma_settle_wf(c);
                    let one = seq![(n, o)];
                    assert(one.drop_first() =~= Seq::<(Seq<char>, Seq<char>)>::empty());
                    assert(fold_captures(m.captured.insert(n, o), one.drop_first()) == m.captured.insert(n, o));
                },
                None => {},
            }
            let msg = failure_text(r);
            let failed = ExecModel {
                errors: logged.errors.push(msg),
                critical: if is_critical(n) {
                    logged.critical + 1
                } else {
                    logged.critical
                },
                entries: logged.entries.push(failure_entry(n, msg)),
                ..logged
            };
            lemma_settle_keeps(ExecModel { pos: failed.pos + 1, ..failed });
            lemma_settle_wf(ExecModel { pos: failed.pos + 1, ..failed });
            assert(m.errors + seq![] =~= m.errors);
            assert(m.errors + seq![msg] =~= m.errors.push(msg));
        },
        (PhaseModel::Analyze(_), Event::Result(r)) => {
            let a = ExecModel {
                pos: m.pos + 1,
                entries: m.entries.push(("error_analysis"@, r.output->0)),
                ..m
            };
            lemma_settle_keeps(a);
            lemma_settle_wf(a);
            lemma_settle_wf(next);
            assert(m.errors + seq![] =~= m.errors);
        },
        _ => {
            assert(m.errors + seq![] =~= m.errors);
        },
    }
}

/// Over any sequence of events, the state stays well formed, the count of
/// critical failures grows by exactly the critical events, errors are only
/// appended, and outputs are captured in the order the events bring them.
pub proof fn lemma_pass(m: ExecModel, es: Seq<Event>)
    requires
        well_formed(m),
    ensures
        well_formed(run(m, es)),
        run(m, es).critical == m.critical + critical_events(m, es),
        run(m, es).errors == m.errors + pass_errors(m, es),
        run(m, es).captured == fold_captures(m.captured, pass_captures(m, es)),
    decreases es.len(),
{
    if es.len() == 0 {
        assert(m.errors + seq![] =~= m.errors);
    } else {
        let m1 = apply(m, es[0]);
        lemma_apply_effects(m, es[0]);
        lemma_pass(m1, es.drop_first());
        assert(m.errors + pass_errors(m, es) =~= m.errors + event_errors(m, es[0]) + pass_errors(
            m1,
            es.drop_first(),
        ));
        lemma_fold_captures_concat(m.captured, event_capture(m, es[0]), pass_captures(m1, es.drop_first()));
    }
}

proof fn lemma_fold_captures_concat(
    c: Map<Seq<char>, Seq<char>>,
    a: Seq<(Seq<char>, Seq<char>)>,
    b: Seq<(Seq<char>, Seq<char>)>,
)
    ensures
        fold_captures(c, a + b) == fold_captures(fold_captures(c, a), b),
    decreases a.len(),
{
    if a.len() == 0 {
        assert(a + b =~= b);
    } else {
        assert((a + b).drop_first() =~= a.drop_first() + b);
        lemma_fold_captures_concat(c.insert(a[0].0, a[0].1), a.drop_first(), b);
    }
}

/// A pass from the start succeeds exactly when none of its events records a
/// critical failure: failures of the reflection and error-analysis
/// capabilities never make it fail; a failure of any other capability, or a
/// confirmed step whose capability is not registered, always does.
pub proof fn lemma_pass_success(steps: Seq<StepModel>, registered: Seq<Seq<char>>, es: Seq<Event>)
    ensures
        outcome_success(run(initial(steps, registered), es)) <==> critical_events(
            initial(steps, registered),
            es,
        ) == 0,
        run(initial(steps, registered), es).errors == pass_errors(initial(steps, registered), es),
{
    let m0 = ExecModel {
        steps,
        registered,
        pos: 0,
        phase: PhaseModel::Done,
        resolved: seq![],
        output: seq![],
        errors: seq![],
        critical: 0,
        captured: Map::empty(),
        entries: seq![],
    };
    lemma_settle_keeps(m0);
    lemma_settle_wf(m0);
    lemma_pass(initial(steps, registered), es);
    assert(seq![] + pass_errors(initial(steps, registered), es) =~= pass_errors(
        initial(steps, registered),
        es,
    ));
}

/// Whenever a pass from the start asks to confirm a step, the input it
/// proposes is the step's input with an output reference resolved against the
/// outputs captured so far in this pass, a later output of a name replacing
/// an earlier one.
pub proof fn lemma_pass_references(steps: Seq<StepModel>, registered: Seq<Seq<char>>, es: Seq<Event>)
    ensures
        ({
            let m = run(initial(steps, registered), es);
            m.phase is Confirm ==> m.resolved == resolve(
                step_input(m),
                fold_captures(Map::empty(), pass_captures(initial(steps, registered), es)),
            )
        }),
{
    let m0 = ExecModel {
        steps,
        registered,
        pos: 0,
        phase: PhaseModel::Done,
        resolved: seq![],
        output: seq![],
        errors: seq![],
        critical: 0,
        captured: Map::empty(),
        entries: seq![],
    };
    lemma_settle_keeps(m0);
    lemma_settle_wf(m0);
    lemma_pass(initial(steps, registered), es);
}

/// In the captured outputs, a name stands for the output of its last capture;
/// a name never captured keeps what it had before.
pub proof fn lemma_fold_captures_latest(
    c: Map<Seq<char>, Seq<char>>,
    ps: Seq<(Seq<char>, Seq<char>)>,
    x: Seq<char>,
)
    ensures
        (forall|i: int| 0 <= i < ps.len() ==> ps[i].0 != x) ==> (fold_captures(c, ps).contains_key(
            x,
        ) == c.contains_key(x) && (c.contains_key(x) ==> fold_captures(c, ps)[x] == c[x])),
        forall|k: int|
            0 <= k < ps.len() && ps[k].0 == x && (forall|i: int| k < i < ps.len() ==> ps[i].0 != x)
                ==> fold_captures(c, ps).contains_key(x) && fold_captures(c, ps)[x] == ps[k].1,
    decreases ps.len(),
{
    if ps.len() > 0 {
        let c1 = c.insert(ps[0].0, ps[0].1);
        let rest = ps.drop_first();
        lemma_fold_captures_latest(c1, rest, x);
        assert forall|k: int|
            0 <= k < ps.len() && ps[k].0 == x && (forall|i: int| k < i < ps.len() ==> ps[i].0 != x)
                implies fold_captures(c, ps).contains_key(x) && fold_captures(c, ps)[x] == ps[k].1 by {
            if k == 0 {
                assert(forall|i: int| 0 <= i < rest.len() ==> rest[i].0 != x) by {
                    assert forall|i: int| 0 <= i < rest.len() implies rest[i].0 != x by {
                        assert(rest[i] == ps[i + 1]);
                    }
                }
            } else {
                assert(rest[k - 1] == ps[k]);
                assert forall|i: int| k - 1 < i < rest.len() implies rest[i].0 != x by {
                    assert(rest[i] == ps[i + 1]);
                }
            }
        }
        if forall|i: int| 0 <= i < ps.len() ==> ps[i].0 != x {
            assert(ps[0].0 != x);
            assert forall|i: int| 0 <= i < rest.len() implies rest[i].0 != x by {
                assert(rest[i] == ps[i + 1]);
            }
        }
    }
}

impl Execution {
    pub closed spec fn wf(&self) -> bool {
        well_formed(self@)
    }

    /// The input of a tool step, with an output reference resolved.
    fn resolve_input(&self, input: &str) -> (r: String)
        ensures
            r@ == resolve(input@, self@.captured),
    {
        let cs = chars_of(input);
        let n = cs.len();
        if n > 8 && starts_with_str(input, "$output[") && cs[n - 1] == ']' {
            let key = input.substring_char(8, n - 1);
            assert(reference_key(input@) == Some(key@));
            let mut i = self.captured.len();
            while i > 0
                invariant
                    i <= self.captured.len(),
                    reference_key(input@) == Some(key@),
                    forall|k: int| i <= k < self.captured@.len() ==> self.captured@[k].0@ != key@,
                decreases i,
            {
                if eq_str(self.captured[i - 1].0.as_str(), key) {
                    proof {
                        lemma_captured_lookup(self.captured@, key@, i - 1);
                    }
                    return self.captured[i - 1].1.clone();
                }
                i = i - 1;
            }
            proof {
                lemma_captured_absent(self.captured@, key@);
            }
            let mut s = String::from_str("(missing output for '");
            s.append(key);
            s.append("')");
            s
        } else {
            String::from_str(input)
        }
    }

    /// Runs the notes from the current step on, up to the next tool step.
    fn settle(&mut self)
        requires
            old(self)@.pos <= old(self)@.steps.len(),
            old(self)@.critical <= old(self)@.pos,
        ensures
            final(self)@ == settle(old(self)@),
            final(self).wf(),
    {
        loop
            invariant
                self@.pos <= self@.steps.len(),
                self@.critical <= self@.pos,
                settle(self@) == settle(old(self)@),
            decreases self@.steps.len() - self@.pos,
        {
            if self.pos >= self.steps.len() {
                self.phase = Phase::Done;
                return;
            }
            match &self.steps[self.pos] {
                PlanStep::Info(message) => {
                    let msg = message.clone();
                    let ghost before = self@;
                    self.output.append("[INFO] ");
                    self.output.append(msg.as_str());
                    self.output.append("\n");
                    self.entries.push((String::from_str("info"), msg));
                    self.pos = self.pos + 1;
                    proof {
                        assert(self@.entries =~= before.entries.push(("info"@, msg@)));
                        assert(self@.output =~= before.output + info_line(msg@));
                        assert(self@ == info_step(before, msg@));
                    }
                },
                PlanStep::ToolCall { name, input } => {
                    let r = self.resolve_input(input.as_str());
                    self.resolved = r;
                    self.phase = Phase::Confirm;
                    return;
                },
            }
        }
    }

    /// Starts a pass over `plan`, with the names of the registered
    /// capabilities.
    pub fn start(plan: Plan, registered: Vec<String>) -> (r: Self)
        ensures
            r@ == initial(plan@, views(registered@)),
            r.wf(),
    {
        let mut e = Execution {
            steps: plan.steps,
            registered,
            pos: 0,
            phase: Phase::Done,
            resolved: String::new(),
            output: String::new(),
            errors: Vec::new(),
            critical: 0,
            captured: Vec::new(),
            entries: Vec::new(),
        };
        proof {
            assert(e@.errors =~= Seq::<Seq<char>>::empty());
            assert(e@.entries =~= Seq::<(Seq<char>, Seq<char>)>::empty());
            assert(e@.captured =~= Map::<Seq<char>, Seq<char>>::empty());
        }
        e.settle();
        e
    }

    /// What the engine waits for.
    pub fn request(&self) -> (r: Request)
        requires
            self.wf(),
        ensures
            r@ == request_of(self@),
    {
        match &self.phase {
            Phase::Done => Request::Done,
            Phase::Analyze(msg) => Request::Analyze { input: msg.clone() },
            Phase::Confirm => {
                match &self.steps[self.pos] {
                    PlanStep::ToolCall { name, .. } => Request::Confirm {
                        name: name.clone(),
                        input: self.resolved.clone(),
                    },
                    PlanStep::Info(_) => Request::Done,
                }
            },
            Phase::Invoke => {
                match &self.steps[self.pos] {
                    PlanStep::ToolCall { name, .. } => Request::Invoke {
                        name: name.clone(),
                        input: self.resolved.clone(),
                    },
                    PlanStep::Info(_) => Request::Done,
                }
            },
        }
    }

    /// Whether the pass is over.
    pub fn is_done(&self) -> (r: bool)
        ensures
            r == (self@.phase is Done),
    {
        match self.phase {
            Phase::Done => true,
            _ => false,
        }
    }

    fn current_name_exec(&self) -> (r: String)
        requires
            self.wf(),
            !(self@.phase is Done),
        ensures
            r@ == current_name(self@),
    {
        match &self.steps[self.pos] {
            PlanStep::ToolCall { name, .. } => name.clone(),
            PlanStep::Info(_) => String::new(),
        }
    }

    /// Takes the user's answer to a confirmation: `n` or `N` skips the step.
    pub fn reply(&mut self, line: &str)
        requires
            old(self).wf(),
            old(self)@.phase is Confirm,
        ensures
            final(self).wf(),
            final(self)@ == after_reply(old(self)@, !declines(line@)),
    {
        assert(self@.steps.len() == self.steps.len());
        assert(self.pos < self.steps.len());
        if is_declined(line) {
            self.pos = self.pos + 1;
            self.settle();
            return;
        }
        let name = self.current_name_exec();
        if in_list(name.as_str(), &self.registered) {
            self.phase = Phase::Invoke;
        } else {
            let mut msg = String::from_str("capability not found: ");
            msg.append(name.as_str());
            let ghost before = self@;
            self.critical = self.critical + 1;
            self.errors.push(msg);
            self.pos = self.pos + 1;
            proof {
                assert(self@.errors =~= before.errors.push(not_found(name@)));
            }
            self.settle();
        }
    }

    /// Takes the result of the capability invoked, or of the error analysis.
    pub fn deliver(&mut self, result: &ToolResult)
        requires
            old(self).wf(),
            old(self)@.phase is Invoke || old(self)@.phase is Analyze,
        ensures
            final(self).wf(),
            old(self)@.phase is Invoke ==> final(self)@ == after_result(old(self)@, result@),
            old(self)@.phase is Analyze ==> final(self)@ == after_analysis(old(self)@, result@),
    {
        assert(self@.steps.len() == self.steps.len());
        assert(self.pos < self.steps.len());
        match self.phase {
            Phase::Analyze(_) => {
                if result.success && result.output.is_some() {
                    let ghost before = self@;
                    let a = match &result.output {
                        Some(o) => o.clone(),
                        None => String::new(),
                    };
                    self.entries.push((String::from_str("error_analysis"), a));
                    proof {
                        assert(self@.entries =~= before.entries.push(("error_analysis"@, result@.output->0)));
                    }
                }
                self.pos = self.pos + 1;
                self.settle();
                return;
            },
            _ => {},
        }
        let name = self.current_name_exec();
        let ghost start = self@;
        let mut label = String::from_str("tool: ");
        label.append(name.as_str());
        let mut content = String::from_str("[input] ");
        content.append(self.resolved.as_str());
        content.append("\n[output] ");
        match &result.output {
            Some(o) => content.append(o.as_str()),
            None => {},
        }
        self.entries.push((label, content));
        proof {
            reveal_strlit("");
            assert(self@.entries =~= start.entries.push(tool_entry(name@, start.resolved, result@)));
        }
        if result.success {
            match &result.output {
                Some(o) => {
                    let ghost before = self@;
                    let ghost cap = self.captured@;
                    self.captured.push((name.clone(), o.clone()));
                    assert(self.captured@.drop_last() =~= cap);
                    self.output.append(o.as_str());
                    self.output.append("\n");
                    proof {
                        assert(self@.captured == before.captured.insert(name@, o@));
                        assert(self@.output =~= before.output + o@ + "\n"@);
                    }
                },
                None => {},
            }
            self.pos = self.pos + 1;
            self.settle();
        } else {
            let msg = match &result.error {
                Some(e) => e.clone(),
                None => String::from_str("Unknown error"),
            };
            let crit = !eq_str(name.as_str(), "reflect") && !eq_str(name.as_str(), "analyze_error");
            let ghost before = self@;
            self.errors.push(msg.clone());
            if crit {
                self.critical = self.critical + 1;
            }
            let mut line = String::from_str("Tool '");
            line.append(name.as_str());
            line.append("' failed: ");
            line.append(msg.as_str());
            self.entries.push((String::from_str("execution_error"), line));
            proof {
                assert(self@.errors =~= before.errors.push(msg@));
                assert(self@.entries =~= before.entries.push(failure_entry(name@, msg@)));
            }
            if crit && in_list("analyze_error", &self.registered) {
                self.phase = Phase::Analyze(msg);
            } else {
                self.pos = self.pos + 1;
                self.settle();
            }
        }
    }

    /// The result of the pass so far, with the log entries it made.
    pub fn finish(&self) -> (r: (ExecutionResult, Vec<(String, String)>))
        ensures
            r.0.success == outcome_success(self@),
            r.0.output is Some && r.0.output->0@ == trim(self@.output),
            error_views(r.0.errors@) == self@.errors,
            entry_views(r.1@) == self@.entries,
    {
        let mut errors: Vec<String> = Vec::new();
        let mut i: usize = 0;
        while i < self.errors.len()
            invariant
                i <= self.errors.len(),
                error_views(errors@) == error_views(self.errors@).take(i as int),
            decreases self.errors.len() - i,
        {
            let ghost prev = errors@;
            errors.push(self.errors[i].clone());
            assert(error_views(errors@) =~= error_views(prev).push(self.errors@[i as int]@));
            assert(error_views(errors@) =~= error_views(self.errors@).take(i + 1));
            i = i + 1;
        }
        assert(error_views(self.errors@).take(self.errors.len() as int) =~= error_views(self.errors@));
        let mut entries: Vec<(String, String)> = Vec::new();
        let mut j: usize = 0;
        while j < self.entries.len()
            invariant
                j <= self.entries.len(),
                entry_views(entries@) == entry_views(self.entries@).take(j as int),
            decreases self.entries.len() - j,
        {
            let ghost prev = entries@;
            entries.push((self.entries[j].0.clone(), self.entries[j].1.clone()));
            assert(entry_views(entries@) =~= entry_views(prev).push(
                (self.entries@[j as int].0@, self.entries@[j as int].1@),
            ));
            assert(entry_views(entries@) =~= entry_views(self.entries@).take(j + 1));
            j = j + 1;
        }
        assert(entry_views(self.entries@).take(self.entries.len() as int) =~= entry_views(self.entries@));
        (
            ExecutionResult {
                success: self.critical == 0,
                output: Some(trim_str(self.output.as_str())),
                errors,
            },
            entries,
        )
    }
}

} // verus!
