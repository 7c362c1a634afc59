//! Capabilities: their metadata, their results, and the parts of the built-in
//! capabilities that decide what a result is.

use crate::text::{trim, trim_str};
use vstd::prelude::*;

verus! {

/// Metadata of a capability, for discovery and planning.
#[derive(Debug, Clone)]
pub struct ToolSpec {
    pub name: String,
    pub description: String,
    pub input_hint: String,
    pub tags: Vec<String>,
}

impl ToolSpec {
    /// The metadata of a capability that describes nothing beyond its name and
    /// description.
    pub fn generic(name: &str, description: &str) -> (r: ToolSpec)
        ensures
            r.name@ == name@,
            r.description@ == description@,
            r.input_hint@ == "Freeform string input"@,
            r.tags@.len() == 1,
            r.tags@[0]@ == "generic"@,
            r@ == (ToolSpecModel {
                name: name@,
                description: description@,
                input_hint: "Freeform string input"@,
                tags: seq!["generic"@],
            }),
    {
        let mut tags: Vec<String> = Vec::new();
        tags.push(String::from_str("generic"));
        let r = ToolSpec {
            name: String::from_str(name),
            description: String::from_str(description),
            input_hint: String::from_str("Freeform string input"),
            tags,
        };
        assert(r@.tags =~= seq!["generic"@]);
        r
    }

    /// Metadata with an input hint and tags of its own.
    pub fn described(name: &str, description: &str, input_hint: &str, tags: &Vec<&str>) -> (r:
        ToolSpec)
        ensures
            r.name@ == name@,
            r.description@ == description@,
            r.input_hint@ == input_hint@,
            r.tags@.len() == tags@.len(),
            forall|i: int| 0 <= i < tags@.len() ==> #[trigger] r.tags@[i]@ == tags@[i]@,
            r@ == (ToolSpecModel {
                name: name@,
                description: description@,
                input_hint: input_hint@,
                tags: tags@.map_values(|t: &str| t@),
            }),
    {
        let mut out: Vec<String> = Vec::new();
        let mut i: usize = 0;
        while i < tags.len()
            invariant
                i <= tags.len(),
                out@.len() == i,
                forall|k: int| 0 <= k < i ==> #[trigger] out@[k]@ == tags@[k]@,
            decreases tags.len() - i,
        {
            out.push(String::from_str(tags[i]));
            i = i + 1;
        }
        let r = ToolSpec {
            name: String::from_str(name),
            description: String::from_str(description),
            input_hint: String::from_str(input_hint),
            tags: out,
        };
        assert(r@.tags =~= tags@.map_values(|t: &str| t@));
        r
    }
}

/// The mathematical content of a capability's metadata.
pub struct ToolSpecModel {
    pub name: Seq<char>,
    pub description: Seq<char>,
    pub input_hint: Seq<char>,
    pub tags: Seq<Seq<char>>,
}

impl View for ToolSpec {
    type V = ToolSpecModel;

    open spec fn view(&self) -> ToolSpecModel {
        ToolSpecModel {
            name: self.name@,
            description: self.description@,
            input_hint: self.input_hint@,
            tags: self.tags@.map_values(|t: String| t@),
        }
    }
}

/// The result of invoking a capability.
#[derive(Debug, Clone)]
pub struct ToolResult {
    pub success: bool,
    pub output: Option<String>,
    pub error: Option<String>,
}

pub struct OutcomeModel {
    pub success: bool,
    pub output: Option<Seq<char>>,
    pub error: Option<Seq<char>>,
}

pub open spec fn opt_view(o: Option<String>) -> Option<Seq<char>> {
    match o {
        Some(s) => Some(s@),
        None => None,
    }
}

impl View for ToolResult {
    type V = OutcomeModel;

    open spec fn view(&self) -> OutcomeModel {
        OutcomeModel {
            success: self.success,
            output: opt_view(self.output),
            error: opt_view(self.error),
        }
    }
}

impl ToolResult {
    pub fn success(output: &str) -> (r: Self)
        ensures
            r.success,
            r.output == Some(r.output->0),
            r.output->0@ == output@,
            r.error is None,
    {
        Self { success: true, output: Some(String::from_str(output)), error: None }
    }

    pub fn failure(error: &str) -> (r: Self)
        ensures
            !r.success,
            r.output is None,
            r.error == Some(r.error->0),
            r.error->0@ == error@,
    {
        Self { success: false, output: None, error: Some(String::from_str(error)) }
    }

}

/// A capability as the registry knows it: a name and its metadata. What it
/// does when invoked stays with whoever runs it.
pub trait Tool {
    spec fn tool_name(&self) -> Seq<char>;

    fn name(&self) -> (r: String)
        ensures
            r@ == self.tool_name(),
    ;

    fn description(&self) -> (r: String);

    spec fn spec_model(&self) -> ToolSpecModel;

    fn spec(&self) -> (r: ToolSpec)
        ensures
            r.name@ == self.tool_name(),
            r@ == self.spec_model(),
    ;
}

/// A capability that answers with its input behind a prefix.
#[derive(Debug, Clone, Copy)]
pub struct FakeEchoTool;

impl FakeEchoTool {
    pub fn execute(&self, input: &str) -> (r: ToolResult)
        ensures
            r.success,
            r.error is None,
            r.output is Some,
            r.output->0@ == "Echoed: "@ + input@,
    {
        let mut s = String::from_str("Echoed: ");
        s.append(input);
        ToolResult::success(s.as_str())
    }
}

impl Tool for FakeEchoTool {
    open spec fn tool_name(&self) -> Seq<char> {
        "echo"@
    }

    open spec fn spec_model(&self) -> ToolSpecModel {
        ToolSpecModel {
            name: "echo"@,
            description: "Echoes the input back with a prefix"@,
            input_hint: "Freeform string input"@,
            tags: seq!["generic"@],
        }
    }

    fn name(&self) -> (r: String) {
        String::from_str("echo")
    }

    fn description(&self) -> (r: String) {
        String::from_str("Echoes the input back with a prefix")
    }

    fn spec(&self) -> (r: ToolSpec) {
        ToolSpec::generic("echo", "Echoes the input back with a prefix")
    }
}

/// The capability that reports the state of the working copy; it takes no
/// argument.
#[derive(Debug, Clone, Copy)]
pub struct GitStatusTool;

impl GitStatusTool {
    /// The result once the status command has run: its standard output where
    /// it exited successfully, else its trimmed error output.
    pub fn completed(&self, exited_ok: bool, stdout: &str, stderr: &str) -> (r: ToolResult)
        ensures
            r.success == exited_ok,
            exited_ok ==> r.output is Some && r.output->0@ == stdout@ && r.error is None,
            !exited_ok ==> r.output is None && r.error is Some && r.error->0@ == "Git error: "@
                + trim(stderr@),
    {
        if exited_ok {
            ToolResult::success(stdout)
        } else {
            let mut s = String::from_str("Git error: ");
            let t = trim_str(stderr);
            s.append(t.as_str());
            ToolResult::failure(s.as_str())
        }
    }

    /// The result where the status command could not be started.
    pub fn spawn_failed(&self, reason: &str) -> (r: ToolResult)
        ensures
            !r.success,
            r.output is None,
            r.error is Some && r.error->0@ == "Failed to run git: "@ + reason@,
    {
        let mut s = String::from_str("Failed to run git: ");
        s.append(reason);
        ToolResult::failure(s.as_str())
    }
}

impl Tool for GitStatusTool {
    open spec fn tool_name(&self) -> Seq<char> {
        "git_status"@
    }

    open spec fn spec_model(&self) -> ToolSpecModel {
        ToolSpecModel {
            name: "git_status"@,
            description: "Runs 'git status' in the current directory"@,
            input_hint: "Freeform string input"@,
            tags: seq!["generic"@],
        }
    }

    fn name(&self) -> (r: String) {
        String::from_str("git_status")
    }

    fn description(&self) -> (r: String) {
        String::from_str("Runs 'git status' in the current directory")
    }

    fn spec(&self) -> (r: ToolSpec) {
        ToolSpec::generic("git_status", "Runs 'git status' in the current directory")
    }
}

/// The capability that runs a shell command. It succeeds whenever the command
/// could be started, whatever its exit status: the status shows only in the
/// captured text.
#[derive(Debug, Clone, Copy)]
pub struct RunCommandTool;

impl RunCommandTool {
    /// The result once the command has run: its standard output followed by
    /// its error output, trimmed.
    pub fn completed(&self, stdout: &str, stderr: &str) -> (r: ToolResult)
        ensures
            r.success,
            r.error is None,
            r.output is Some && r.output->0@ == trim(stdout@ + stderr@),
    {
        let mut s = String::from_str(stdout);
        s.append(stderr);
        let t = trim_str(s.as_str());
        ToolResult::success(t.as_str())
    }

    /// The result where the command could not be started.
    pub fn spawn_failed(&self, reason: &str) -> (r: ToolResult)
        ensures
            !r.success,
            r.output is None,
            r.error is Some && r.error->0@ == "Command execution failed: "@ + reason@,
    {
        let mut s = String::from_str("Command execution failed: ");
        s.append(reason);
        ToolResult::failure(s.as_str())
    }
}

impl Tool for RunCommandTool {
    open spec fn tool_name(&self) -> Seq<char> {
        "run_command"@
    }

    open spec fn spec_model(&self) -> ToolSpecModel {
        ToolSpecModel {
            name: "run_command"@,
            description: "Runs a shell command and returns its stdout/stderr output."@,
            input_hint: "Shell command to run (e.g. 'cargo check')"@,
            tags: seq!["shell"@, "command"@, "execution"@],
        }
    }

    fn name(&self) -> (r: String) {
        String::from_str("run_command")
    }

    fn description(&self) -> (r: String) {
        String::from_str("Runs a shell command and returns its stdout/stderr output.")
    }

    fn spec(&self) -> (r: ToolSpec) {
        let tags = vec!["shell", "command", "execution"];
        assert(tags@.map_values(|t: &str| t@) =~= self.spec_model().tags);
        ToolSpec::described(
            "run_command",
            "Runs a shell command and returns its stdout/stderr output.",
            "Shell command to run (e.g. 'cargo check')",
            &tags,
        )
    }
}

/// The text-generation backend, addressed by model name.
#[derive(Debug, Clone)]
pub struct LLMTool {
    pub model: String,
}

impl LLMTool {
    pub fn new(model: &str) -> (r: Self)
        ensures
            r.model@ == model@,
    {
        Self { model: String::from_str(model) }
    }

    /// The result for a backend reply: its `response` text, trimmed, or a
    /// failure where the reply has none.
    pub fn reply(&self, response: Option<&str>) -> (r: ToolResult)
        ensures
            match response {
                Some(t) => r.success && r.error is None && r.output is Some && r.output->0@ == trim(t@),
                None => !r.success && r.output is None && r.error is Some && r.error->0@
                    == "LLM response missing 'response' field"@,
            },
    {
        match response {
            Some(t) => {
                let s = trim_str(t);
                ToolResult::success(s.as_str())
            },
            None => ToolResult::failure("LLM response missing 'response' field"),
        }
    }

    /// The result where the backend could not be reached.
    pub fn request_failed(&self, reason: &str) -> (r: ToolResult)
        ensures
            !r.success,
            r.output is None,
            r.error is Some && r.error->0@ == "Request failed: "@ + reason@,
    {
        let mut s = String::from_str("Request failed: ");
        s.append(reason);
        ToolResult::failure(s.as_str())
    }

    /// The result where the backend's reply was not JSON.
    pub fn reply_unreadable(&self, reason: &str) -> (r: ToolResult)
        ensures
            !r.success,
            r.output is None,
            r.error is Some && r.error->0@ == "Failed to parse JSON: "@ + reason@,
    {
        let mut s = String::from_str("Failed to parse JSON: ");
        s.append(reason);
        ToolResult::failure(s.as_str())
    }
}

impl Default for LLMTool {
    fn default() -> (r: Self)
        ensures
            r.model@ == "llama3"@,
    {
        Self::new("llama3")
    }
}

impl Tool for LLMTool {
    open spec fn tool_name(&self) -> Seq<char> {
        "llm"@
    }

    open spec fn spec_model(&self) -> ToolSpecModel {
        ToolSpecModel {
            name: "llm"@,
            description: "Sends input to a local LLM via Ollama and returns the response."@,
            input_hint: "Freeform prompt text to send to LLM."@,
            tags: seq!["llm"@, "generation"@, "reasoning"@],
        }
    }

    fn name(&self) -> (r: String) {
        String::from_str("llm")
    }

    fn description(&self) -> (r: String) {
        String::from_str("Sends input to a local LLM via Ollama and returns the response.")
    }

    fn spec(&self) -> (r: ToolSpec) {
        let tags = vec!["llm", "generation", "reasoning"];
        assert(tags@.map_values(|t: &str| t@) =~= self.spec_model().tags);
        ToolSpec::described(
            "llm",
            "Sends input to a local LLM via Ollama and returns the response.",
            "Freeform prompt text to send to LLM.",
            &tags,
        )
    }
}

} // verus!
