//! The agent: it plans, simulates, executes, rates, and decides when and from
//! what to replan.

use crate::acquisition::{LLMPlanner, LLMReplanner};
use crate::context::{Context, find_spec, spec_names};
use crate::engine::{Execution, entry_views, error_views, initial, outcome_success};
use crate::model::TaskModel;
use crate::plan::{ExecutionResult, Feedback, Plan, PlanStep, SimulationResult, StepModel};
use crate::text::{decimal, push_decimal, trim, views};
use crate::tools::ToolSpec;
use vstd::prelude::*;

verus! {

pub open spec fn tool_line(t: ToolSpec) -> Seq<char> {
    "[TOOL] "@ + t.name@ + " - "@ + t.description@ + " (hint: "@ + t.input_hint@ + ")"@
}

pub open spec fn unregistered_line(name: Seq<char>) -> Seq<char> {
    "capability '"@ + name + "' not registered"@
}

/// One line per tool step, in step order: a warning where its capability is
/// not registered, else a description of the capability it will invoke; and
/// the number of tool steps whose capability is registered.
pub open spec fn simulation_lines(steps: Seq<StepModel>, tools: Seq<ToolSpec>) -> (
    Seq<Seq<char>>,
    nat,
)
    decreases steps.len(),
{
    if steps.len() == 0 {
        (seq![], 0)
    } else {
        let (l, c) = simulation_lines(steps.drop_last(), tools);
        match steps.last() {
            StepModel::ToolCall { name, .. } => match find_spec(tools, name, 0) {
                Some(t) => (l.push(tool_line(t)), c + 1),
                None => (l.push(unregistered_line(name)), c),
            },
            StepModel::Info { .. } => (l, c),
        }
    }
}

pub open spec fn predicted_outcome(steps: nat, calls: nat) -> Seq<char> {
    "Plan contains "@ + decimal(steps) + " step(s) and will attempt "@ + decimal(calls)
        + " tool call(s)."@
}

/// A simulation warns `capability '<name>' not registered` about every tool
/// step whose capability the context does not register.
pub proof fn lemma_unregistered_warned(
    context: Context,
    steps: Seq<StepModel>,
    i: int,
    name: Seq<char>,
    input: Seq<char>,
)
    requires
        0 <= i < steps.len(),
        steps[i] == (StepModel::ToolCall { name, input }),
        !context.registry().contains(name),
    ensures
        simulation_lines(steps, context.tools@).0.contains(unregistered_line(name)),
{
    context.lemma_find_registered(name);
    lemma_missing_spec_warned(steps, context.tools@, i, name, input);
}

proof fn lemma_missing_spec_warned(
    steps: Seq<StepModel>,
    tools: Seq<ToolSpec>,
    i: int,
    name: Seq<char>,
    input: Seq<char>,
)
    requires
        0 <= i < steps.len(),
        steps[i] == (StepModel::ToolCall { name, input }),
        find_spec(tools, name, 0) is None,
    ensures
        simulation_lines(steps, tools).0.contains(unregistered_line(name)),
    decreases steps.len(),
{
    let (w, u) = simulation_lines(steps.drop_last(), tools);
    if i == steps.len() - 1 {
        assert(simulation_lines(steps, tools).0 == w.push(unregistered_line(name)));
        assert(w.push(unregistered_line(name))[w.len() as int] == unregistered_line(name));
    } else {
        assert(steps.drop_last()[i] == steps[i]);
        lemma_missing_spec_warned(steps.drop_last(), tools, i, name, input);
        let k = choose|k: int| 0 <= k < w.len() && w[k] == unregistered_line(name);
        match steps.last() {
            StepModel::ToolCall { name: n2, .. } => match find_spec(tools, n2, 0) {
                Some(t) => {
                    assert(w.push(tool_line(t))[k] == unregistered_line(name));
                },
                None => {
                    assert(w.push(unregistered_line(n2))[k] == unregistered_line(name));
                },
            },
            StepModel::Info { .. } => {},
        }
    }
}

/// The text a failed pass is replanned from: the most recent error analysis
/// in the log, else the most recent reflection; nothing after a successful
/// pass.
pub open spec fn last_labelled(es: Seq<(Seq<char>, Seq<char>)>, label: Seq<char>) -> Option<Seq<char>>
    decreases es.len(),
{
    if es.len() == 0 {
        None
    } else if es.last().0 == label {
        Some(es.last().1)
    } else {
        last_labelled(es.drop_last(), label)
    }
}

pub open spec fn replan_source(success: bool, es: Seq<(Seq<char>, Seq<char>)>) -> Option<Seq<char>> {
    if success {
        None
    } else {
        match last_labelled(es, "error_analysis"@) {
            Some(a) => Some(a),
            None => last_labelled(es, "reflect"@),
        }
    }
}

fn last_with_label(es: &Vec<(String, String)>, label: &str) -> (r: Option<String>)
    ensures
        match r {
            Some(s) => last_labelled(entry_views(es@), label@) == Some(s@),
            None => last_labelled(entry_views(es@), label@) is None,
        },
{
    let mut i = es.len();
    assert(entry_views(es@).take(i as int) =~= entry_views(es@));
    while i > 0
        invariant
            i <= es.len(),
            last_labelled(entry_views(es@), label@) == last_labelled(
                entry_views(es@).take(i as int),
                label@,
            ),
        decreases i,
    {
        let ghost t = entry_views(es@).take(i as int);
        assert(t.last() == (es@[i - 1].0@, es@[i - 1].1@));
        if crate::text::eq_str(es[i - 1].0.as_str(), label) {
            return Some(es[i - 1].1.clone());
        }
        assert(t.drop_last() =~= entry_views(es@).take(i - 1));
        i = i - 1;
    }
    None
}

/// The agent: a task, its context, and the planners it asks.
pub struct BasicAgent {
    pub model: TaskModel,
    pub context: Context,
    pub planner: Option<LLMPlanner>,
    pub replanner: Option<LLMReplanner>,
}

impl BasicAgent {
    pub fn new(
        model: TaskModel,
        context: Context,
        planner: Option<LLMPlanner>,
        replanner: Option<LLMReplanner>,
    ) -> (r: Self)
        ensures
            r.model == model,
            r.context == context,
            r.planner == planner,
            r.replanner == replanner,
    {
        Self { model, context, planner, replanner }
    }

    /// Starts planning. With a planner the model is asked (`None`: the
    /// caller runs the planner); without one, the built-in plan for the goal.
    pub fn begin_plan(&mut self) -> (r: Option<Plan>)
        ensures
            final(self).context.tools == old(self).context.tools,
            old(self).planner is Some ==> r is None && final(self).context.memory@
                == old(self).context.memory@.push(("planning"@, "Using dynamic LLM planner"@)),
            old(self).planner is None ==> r is Some && final(self).context.memory@
                == old(self).context.memory@.push(("planning"@, "Using static hardcoded plan"@))
                && r->0@ == seq![
                StepModel::Info { message: "Understand goal: "@ + old(self).model.goal@ },
                StepModel::ToolCall { name: "git_status"@, input: "Check repo state"@ },
                StepModel::ToolCall { name: "reflect"@, input: "Summarize changes"@ },
                StepModel::ToolCall { name: "echo"@, input: "Task complete."@ },
                StepModel::Info { message: "Generate output"@ },
            ],
    {
        if self.planner.is_some() {
            self.context.log("planning", "Using dynamic LLM planner");
            None
        } else {
            self.context.log("planning", "Using static hardcoded plan");
            let mut first = String::from_str("Understand goal: ");
            first.append(self.model.goal.as_str());
            let mut steps: Vec<PlanStep> = Vec::new();
            steps.push(PlanStep::Info(first));
            steps.push(
                PlanStep::ToolCall {
                    name: String::from_str("git_status"),
                    input: String::from_str("Check repo state"),
                },
            );
            steps.push(
                PlanStep::ToolCall {
                    name: String::from_str("reflect"),
                    input: String::from_str("Summarize changes"),
                },
            );
            steps.push(
                PlanStep::ToolCall {
                    name: String::from_str("echo"),
                    input: String::from_str("Task complete."),
                },
            );
            steps.push(PlanStep::Info(String::from_str("Generate output")));
            let p = Plan { steps };
            assert(p@ =~= seq![
                StepModel::Info { message: "Understand goal: "@ + self.model.goal@ },
                StepModel::ToolCall { name: "git_status"@, input: "Check repo state"@ },
                StepModel::ToolCall { name: "reflect"@, input: "Summarize changes"@ },
                StepModel::ToolCall { name: "echo"@, input: "Task complete."@ },
                StepModel::Info { message: "Generate output"@ },
            ]);
            Some(p)
        }
    }

    /// A dry run: for each tool step, in order, whether its capability is
    /// registered.
    pub fn simulate(&self, plan: &Plan) -> (r: SimulationResult)
        ensures
            ({
                let (lines, calls) = simulation_lines(plan@, self.context.tools@);
                &&& views(r.warnings@) == lines
                &&& r.predicted_outcome@ == predicted_outcome(plan@.len(), calls)
            }),
    {
        let mut warnings: Vec<String> = Vec::new();
        let mut calls: usize = 0;
        let mut i: usize = 0;
        while i < plan.steps.len()
            invariant
                i <= plan.steps.len(),
                calls <= i,
                (views(warnings@), calls as nat) == simulation_lines(
                    plan@.take(i as int),
                    self.context.tools@,
                ),
            decreases plan.steps.len() - i,
        {
            let ghost t = plan@.take(i + 1);
            assert(t.drop_last() =~= plan@.take(i as int));
            assert(t.last() == plan.steps@[i as int]@);
            let ghost prev = warnings@;
            match &plan.steps[i] {
                PlanStep::ToolCall { name, .. } => {
                    match self.context.get_tool(name.as_str()) {
                        Some(spec) => {
                            let mut line = String::from_str("[TOOL] ");
                            line.append(spec.name.as_str());
                            line.append(" - ");
                            line.append(spec.description.as_str());
                            line.append(" (hint: ");
                            line.append(spec.input_hint.as_str());
                            line.append(")");
                            warnings.push(line);
                            calls = calls + 1;
                            assert(views(warnings@) =~= views(prev).push(line@));
                        },
                        None => {
                            let mut line = String::from_str("capability '");
                            line.append(name.as_str());
                            line.append("' not registered");
                            warnings.push(line);
                            assert(views(warnings@) =~= views(prev).push(line@));
                        },
                    }
                },
                PlanStep::Info(_) => {},
            }
            i = i + 1;
        }
        assert(plan@.take(plan.steps.len() as int) =~= plan@);
        let mut predicted = String::from_str("Plan contains ");
        push_decimal(&mut predicted, plan.steps.len());
        predicted.append(" step(s) and will attempt ");
        push_decimal(&mut predicted, calls);
        predicted.append(" tool call(s).");
        SimulationResult { predicted_outcome: predicted, warnings }
    }

    /// Starts an execution pass over `plan` with the registered capabilities.
    pub fn begin_execution(&self, plan: Plan) -> (r: Execution)
        ensures
            r@ == initial(plan@, spec_names(self.context.tools@)),
            r.wf(),
    {
        let names = self.context.tool_names();
        Execution::start(plan, names)
    }

    /// Ends a pass: its log entries go to the audit log, its output to the
    /// task.
    pub fn end_execution(&mut self, exec: &Execution) -> (r: ExecutionResult)
        ensures
            r.success == outcome_success(exec@),
            r.output is Some && r.output->0@ == trim(exec@.output),
            error_views(r.errors@) == exec@.errors,
            final(self).context.memory@ == old(self).context.memory@ + exec@.entries,
            final(self).context.tools == old(self).context.tools,
            final(self).model.output is Some && final(self).model.output->0@ == trim(exec@.output),
    {
        let (result, entries) = exec.finish();
        let mut i: usize = 0;
        let ghost start = self.context.memory@;
        while i < entries.len()
            invariant
                i <= entries.len(),
                self.context.memory@ == start + entry_views(entries@).take(i as int),
                self.context.tools == old(self).context.tools,
                self.model == old(self).model,
            decreases entries.len() - i,
        {
            self.context.log(entries[i].0.as_str(), entries[i].1.as_str());
            assert(entry_views(entries@).take(i + 1) =~= entry_views(entries@).take(i as int).push(
                (entries@[i as int].0@, entries@[i as int].1@),
            ));
            i = i + 1;
        }
        assert(entry_views(entries@).take(entries.len() as int) =~= entry_views(entries@));
        let out = match &result.output {
            Some(o) => o.clone(),
            None => String::new(),
        };
        self.model.set_output(out);
        result
    }

    /// A coarse rating of a pass.
    pub fn evaluate(&self, result: &ExecutionResult) -> (r: Feedback)
        ensures
            r.score == if result.success {
                90u8
            } else {
                30u8
            },
            r.notes@ == "Dynamic tool execution complete."@,
    {
        Feedback {
            score: if result.success {
                90
            } else {
                30
            },
            notes: String::from_str("Dynamic tool execution complete."),
        }
    }

    /// What a failed pass is replanned from (see `replan_source`).
    pub fn replan_basis(&self, result: &ExecutionResult) -> (r: Option<String>)
        ensures
            match r {
                Some(s) => replan_source(result.success, self.context.memory@) == Some(s@),
                None => replan_source(result.success, self.context.memory@) is None,
            },
    {
        if result.success {
            return None;
        }
        match last_with_label(&self.context.memory.entries, "error_analysis") {
            Some(a) => Some(a),
            None => last_with_label(&self.context.memory.entries, "reflect"),
        }
    }

    /// Starts replanning: whether there is a replanner to ask.
    pub fn begin_replan(&mut self) -> (r: bool)
        ensures
            r == old(self).replanner is Some,
            final(self).context.tools == old(self).context.tools,
            r ==> final(self).context.memory@ == old(self).context.memory@.push(
                ("replanner"@, "Using reflection-based replanning"@),
            ),
            !r ==> final(self).context.memory@ == old(self).context.memory@,
    {
        if self.replanner.is_some() {
            self.context.log("replanner", "Using reflection-based replanning");
            true
        } else {
            false
        }
    }

    /// A follow-up plan with no steps means that nothing more is to be done.
    pub fn followup(plan: Plan) -> (r: Option<Plan>)
        ensures
            plan@.len() == 0 ==> r is None,
            plan@.len() > 0 ==> r == Some(plan),
    {
        if plan.steps.len() == 0 {
            None
        } else {
            Some(plan)
        }
    }
}

} // verus!
