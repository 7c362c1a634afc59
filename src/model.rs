//! The task: its goal, its state and its output.

use vstd::prelude::*;

verus! {

/// A task as the runtime tracks it.
#[derive(Clone, Debug)]
pub struct TaskModel {
    pub goal: String,
    pub current_state: String,
    pub output: Option<String>,
}

impl TaskModel {
    pub fn new(goal: &str) -> (r: Self)
        ensures
            r.goal@ == goal@,
            r.current_state@ == "Not started"@,
            r.output is None,
    {
        Self {
            goal: String::from_str(goal),
            current_state: String::from_str("Not started"),
            output: None,
        }
    }

    /// Records the output; the task is then complete.
    pub fn set_output(&mut self, result: String)
        ensures
            final(self).output == Some(result),
            final(self).current_state@ == "Completed"@,
            final(self).goal == old(self).goal,
    {
        self.output = Some(result);
        self.current_state = String::from_str("Completed");
    }
}

/// What the runtime asks of a task.
pub trait Model {
    spec fn completed(&self) -> bool;

    spec fn summary_text(&self) -> Seq<char>;

    fn is_complete(&self) -> (r: bool)
        ensures
            r == self.completed(),
    ;

    fn summary(&self) -> (r: String)
        ensures
            r@ == self.summary_text(),
    ;
}

impl Model for TaskModel {
    open spec fn completed(&self) -> bool {
        self.output is Some
    }

    open spec fn summary_text(&self) -> Seq<char> {
        "Goal: "@ + self.goal@ + "\nStatus: "@ + self.current_state@
    }

    fn is_complete(&self) -> (r: bool) {
        self.output.is_some()
    }

    fn summary(&self) -> (r: String) {
        let mut s = String::from_str("Goal: ");
        s.append(self.goal.as_str());
        s.append("\nStatus: ");
        s.append(self.current_state.as_str());
        s
    }
}

} // verus!
