//! Plans and the results of simulating, executing and rating them.

use vstd::prelude::*;

verus! {

/// One step of a plan: a note, or the invocation of a capability.
#[derive(Clone, Debug, PartialEq, Eq)]
pub enum PlanStep {
    Info(String),
    ToolCall { name: String, input: String },
}

/// The mathematical content of a step.
pub enum StepModel {
    Info { message: Seq<char> },
    ToolCall { name: Seq<char>, input: Seq<char> },
}

impl View for PlanStep {
    type V = StepModel;

    open spec fn view(&self) -> StepModel {
        match self {
            PlanStep::Info(m) => StepModel::Info { message: m@ },
            PlanStep::ToolCall { name, input } => StepModel::ToolCall { name: name@, input: input@ },
        }
    }
}

/// The views of a sequence of steps.
pub open spec fn step_views(s: Seq<PlanStep>) -> Seq<StepModel> {
    s.map_values(|p: PlanStep| p@)
}

/// An ordered sequence of steps.
#[derive(Clone, Debug, PartialEq, Eq)]
pub struct Plan {
    pub steps: Vec<PlanStep>,
}

impl View for Plan {
    type V = Seq<StepModel>;

    open spec fn view(&self) -> Seq<StepModel> {
        step_views(self.steps@)
    }
}

impl Plan {
    /// A plan made of one note.
    pub fn single_info(message: &str) -> (r: Plan)
        ensures
            r@ == seq![StepModel::Info { message: message@ }],
    {
        let mut steps: Vec<PlanStep> = Vec::new();
        steps.push(PlanStep::Info(String::from_str(message)));
        let r = Plan { steps };
        assert(r@ =~= seq![StepModel::Info { message: message@ }]);
        r
    }
}

/// What a dry run predicts of a plan.
#[derive(Clone, Debug)]
pub struct SimulationResult {
    pub predicted_outcome: String,
    pub warnings: Vec<String>,
}

/// The result of one execution pass over a plan.
#[derive(Clone, Debug)]
pub struct ExecutionResult {
    pub success: bool,
    pub output: Option<String>,
    pub errors: Vec<String>,
}

/// A coarse rating of an execution pass.
#[derive(Clone, Debug)]
pub struct Feedback {
    pub score: u8,
    pub notes: String,
}

} // verus!
