//! The capabilities that ask the text model to reflect on a run, to analyse a
//! failure, or to analyse a goal before planning: their prompts, and how the
//! model's reply becomes a result.

use crate::text::{
    chars_of, contains, contains_str, eq_str, last_occurrence, occurs_at, is_blank, is_blank_str,
};
use crate::tools::{LLMTool, Tool, ToolResult, ToolSpec, ToolSpecModel, opt_view};
use vstd::prelude::*;

verus! {

pub const REFLECTION_PROMPT_0: &'static str = r#"You are a reflection module embedded in an autonomous agent runtime.

Given the following memory log, produce a structured reflection that summarizes what the agent tried to do, what happened, what failed (if anything), and what could be improved next time.

---

# 🧠 Reflection Summary

## Memory Log
"#;

pub const REFLECTION_PROMPT_1: &'static str = r#"

## Summary (fill in below):

## What was the agent trying to do?
- 

## What steps did the agent take?
- 

## What worked well?
- 

## What failed or could be improved?
- 

## Suggested improvements:
- 
"#;

pub const ERROR_ANALYSIS_PROMPT_0: &'static str = r#"You are an expert system administrator and developer. Analyze this command failure and suggest the exact commands needed to fix it AND complete the original goal.

ERROR OUTPUT:
"#;

pub const ERROR_ANALYSIS_PROMPT_1: &'static str = r#"

🚨 CRITICAL: Your fix_commands should include BOTH:
1. Commands to fix the immediate problem
2. Commands to retry/complete the original operation

For example:
- If git commit fails due to formatting → ["cargo fmt", "git commit -m 'Fix formatting and commit changes'"]
- If npm install fails → ["npm cache clean --force", "npm install"]
- If permission denied → ["chmod +x script.sh", "./script.sh"]

Respond with ONLY a JSON object in this format:
{
  "analysis": "Brief explanation of what went wrong",
  "fix_commands": ["fix_command", "retry_original_command"],
  "explanation": "Why these commands will fix the issue AND complete the goal"
}

Be specific and actionable. Always include the retry/completion step after the fix."#;

pub const GOAL_ANALYSIS_PROMPT_0: &'static str = r#"You are a meta-planning agent that analyzes goals and generates appropriate planning patterns.

GOAL: "#;

pub const GOAL_ANALYSIS_PROMPT_1: &'static str = r#"
CONTEXT_TYPE: "#;

pub const GOAL_ANALYSIS_PROMPT_2: &'static str = r#"
MEMORY_LOG:
"#;

pub const GOAL_ANALYSIS_PROMPT_3: &'static str = r#"

TASK: Analyze this goal and context to generate:
1. Goal type (git_operations, file_management, error_recovery, api_calls, etc.)
2. Appropriate tool sequence for this goal type (SIMPLE STRING ARRAY)
3. 2-3 concrete examples in JSON format
4. Custom output format instructions
5. Context-specific critical rules

AVAILABLE_TOOLS: ["run_command", "reflect", "analyze_error"]

OUTPUT ONLY this JSON structure:
{
  "goal_type": "descriptive_goal_type",
  "context_type": ""#;

pub const GOAL_ANALYSIS_PROMPT_4: &'static str = r#"",
  "tool_sequence": ["run_command", "reflect", "run_command"],
  "examples": [
    {
      "description": "Example description",
      "json_plan": "{\\\"plan\\\": [{\\\"type\\\": \\\"tool\\\", \\\"name\\\": \\\"run_command\\\", \\\"input\\\": \\\"git status\\\"}, {\\\"type\\\": \\\"tool\\\", \\\"name\\\": \\\"reflect\\\", \\\"input\\\": \\\"$output[run_command]\\\"}, {\\\"type\\\": \\\"info\\\", \\\"message\\\": \\\"Goal completed\\\"}]}"
    }
  ],
  "output_format": "Specific instructions for JSON output format",
  "critical_rules": ["Rule 1", "Rule 2", "Rule 3"]
}

🚨 CRITICAL FORMAT REQUIREMENTS FOR EXAMPLES 🚨
The json_plan field in examples MUST use this EXACT format:

INVALID (NEVER USE):
❌ {\"type\": \"run_command\"}
❌ {\"type\": \"reflect\"}  
❌ {\"type\": \"analyze_error\"}

VALID (ALWAYS USE):
✅ {\"type\": \"tool\", \"name\": \"run_command\"}
✅ {\"type\": \"tool\", \"name\": \"reflect\"}
✅ {\"type\": \"tool\", \"name\": \"analyze_error\"}
✅ {\"type\": \"info\", \"message\": \"text\"}

EXAMPLE TEMPLATE (copy this format exactly):
"json_plan": "{\\\"plan\\\": [{\\\"type\\\": \\\"tool\\\", \\\"name\\\": \\\"run_command\\\", \\\"input\\\": \\\"git status\\\"}, {\\\"type\\\": \\\"tool\\\", \\\"name\\\": \\\"reflect\\\", \\\"input\\\": \\\"$output[run_command]\\\"}, {\\\"type\\\": \\\"info\\\", \\\"message\\\": \\\"Goal completed\\\"}]}"

CONCRETE GIT EXAMPLE:
"json_plan": "{\\\"plan\\\": [{\\\"type\\\": \\\"tool\\\", \\\"name\\\": \\\"run_command\\\", \\\"input\\\": \\\"git status --porcelain\\\"}, {\\\"type\\\": \\\"tool\\\", \\\"name\\\": \\\"reflect\\\", \\\"input\\\": \\\"$output[run_command]\\\"}, {\\\"type\\\": \\\"tool\\\", \\\"name\\\": \\\"run_command\\\", \\\"input\\\": \\\"git add .\\\"}, {\\\"type\\\": \\\"tool\\\", \\\"name\\\": \\\"run_command\\\", \\\"input\\\": \\\"git commit -m 'Update files'\\\"}, {\\\"type\\\": \\\"info\\\", \\\"message\\\": \\\"Goal completed\\\"}]}"

🚨 ABSOLUTELY FORBIDDEN IN EXAMPLES 🚨
❌ NEVER use: "type": "conditional"
❌ NEVER use: "if", "then", "else" 
❌ NEVER use: "test", "when", "check"
❌ NEVER use: pseudo-code or variables like $output[reflect]

✅ ONLY ALLOWED TYPES:
- "type": "tool" (with "name" and "input")
- "type": "info" (with "message")

ADDITIONAL REQUIREMENTS:
- tool_sequence MUST be simple string array: ["run_command", "reflect", "analyze_error"]
- For error_recovery context, focus on fix_commands from error_analysis AND retry original operation
- For git operations, include complete workflow (status, add, commit)
- For file operations, include validation steps
- Always include linear sequences, no conditionals
- Examples must be valid JSON strings (escaped quotes)
- Only \"tool\" and \"info\" are valid types in examples
- Each example must be a complete, executable linear plan

🚨 ERROR RECOVERY PATTERN 🚨
For error_recovery context, examples should follow this pattern:
1. Extract fix commands from error_analysis JSON in memory_log
2. Run each fix command
3. ALWAYS retry the original failed operation
4. Complete the goal

Example error recovery pattern:
"json_plan": "{\\\"plan\\\": [{\\\"type\\\": \\\"tool\\\", \\\"name\\\": \\\"run_command\\\", \\\"input\\\": \\\"cargo fmt\\\"}, {\\\"type\\\": \\\"tool\\\", \\\"name\\\": \\\"run_command\\\", \\\"input\\\": \\\"git commit -m 'Fix formatting and commit changes'\\\"}, {\\\"type\\\": \\\"info\\\", \\\"message\\\": \\\"Goal completed\\\"}]}"
"#;


/// The marker after which a reasoning model's answer starts.
pub open spec fn reasoning_marker() -> Seq<char> {
    "</think>"@
}

/// `s` after the last reasoning marker, or all of `s` where it has none.
pub open spec fn after_reasoning(s: Seq<char>) -> Seq<char> {
    let m = reasoning_marker();
    if contains(s, m) {
        let k = choose|k: int| occurs_at(s, m, k) && forall|j: int| k < j ==> !occurs_at(s, m, j);
        s.skip(k + m.len())
    } else {
        s
    }
}

/// Drops a reasoning model's thinking: keeps what follows the last marker.
pub fn strip_reasoning(raw: &str) -> (r: String)
    ensures
        r@ == after_reasoning(raw@),
{
    let cs = chars_of(raw);
    let ms = chars_of("</think>");
    match last_occurrence(&cs, &ms) {
        Some(k) => {
            let mlen = ms.len();
            assert(occurs_at(cs@, ms@, k as int));
            assert(k + mlen <= cs.len());
            let start = k + mlen;
            proof {
                let m = reasoning_marker();
                assert(occurs_at(raw@, m, k as int));
                let c = choose|c: int|
                    occurs_at(raw@, m, c) && forall|j: int| c < j ==> !occurs_at(raw@, m, j);
                assert(c == k) by {
                    if c < k {
                    } else if k < c {
                    }
                }
                assert(raw@.subrange(k + ms.len(), raw@.len() as int) =~= raw@.skip(k + m.len()));
            }
            String::from_str(raw.substring_char(start, cs.len()))
        },
        None => String::from_str(raw),
    }
}

/// The capability that summarises a run for later replanning.
#[derive(Debug, Clone)]
pub struct ReflectorTool {
    pub llm: LLMTool,
}

impl ReflectorTool {
    pub fn new(llm: LLMTool) -> (r: Self)
        ensures
            r.llm == llm,
    {
        Self { llm }
    }

    /// The prompt that asks for a reflection on `input`.
    pub fn prompt(&self, input: &str) -> (r: String)
        ensures
            r@ == REFLECTION_PROMPT_0@ + input@ + REFLECTION_PROMPT_1@,
    {
        let mut s = String::from_str(REFLECTION_PROMPT_0);
        s.append(input);
        s.append(REFLECTION_PROMPT_1);
        s
    }

    /// The result for the model's reply.
    pub fn interpret(&self, reply: &ToolResult) -> (r: ToolResult)
        ensures
            r.success == reply.success,
            reply.success ==> r.output is Some && r.error is None && r.output->0@ == match reply.output {
                Some(o) => o@,
                None => "(no output)"@,
            },
            !reply.success ==> r.output is None && r.error is Some && r.error->0@
                == "LLM failed to generate reflection."@,
    {
        if reply.success {
            match &reply.output {
                Some(o) => ToolResult::success(o.as_str()),
                None => ToolResult::success("(no output)"),
            }
        } else {
            ToolResult::failure("LLM failed to generate reflection.")
        }
    }
}

impl Tool for ReflectorTool {
    open spec fn tool_name(&self) -> Seq<char> {
        "reflect"@
    }

    open spec fn spec_model(&self) -> ToolSpecModel {
        ToolSpecModel {
            name: "reflect"@,
            description: "Analyzes a memory log and generates a reflection summary using LLM."@,
            input_hint: "Pass memory log and goal as plain text."@,
            tags: seq!["introspection"@, "reflection"@, "llm"@],
        }
    }

    fn name(&self) -> (r: String) {
        String::from_str("reflect")
    }

    fn description(&self) -> (r: String) {
        String::from_str("Analyzes a memory log and generates a reflection summary using LLM.")
    }

    fn spec(&self) -> (r: ToolSpec) {
        let tags = vec!["introspection", "reflection", "llm"];
        assert(tags@.map_values(|t: &str| t@) =~= self.spec_model().tags);
        ToolSpec::described(
            "reflect",
            "Analyzes a memory log and generates a reflection summary using LLM.",
            "Pass memory log and goal as plain text.",
            &tags,
        )
    }
}

/// The capability that analyses a failure and proposes fix commands.
#[derive(Debug, Clone)]
pub struct ErrorAnalyzerTool {
    llm: LLMTool,
}

impl ErrorAnalyzerTool {
    pub fn new(llm: LLMTool) -> (r: Self)
        ensures
            r.backend() == llm,
    {
        Self { llm }
    }

    pub closed spec fn backend(&self) -> LLMTool {
        self.llm
    }

    /// The backend this capability asks.
    pub fn llm(&self) -> (r: &LLMTool)
        ensures
            *r == self.backend(),
    {
        &self.llm
    }

    /// The prompt that asks for an analysis of the failure text `input`.
    pub fn prompt(&self, input: &str) -> (r: String)
        ensures
            r@ == ERROR_ANALYSIS_PROMPT_0@ + input@ + ERROR_ANALYSIS_PROMPT_1@,
    {
        let mut s = String::from_str(ERROR_ANALYSIS_PROMPT_0);
        s.append(input);
        s.append(ERROR_ANALYSIS_PROMPT_1);
        s
    }

    /// The result for the model's reply: it succeeds only with a reply that
    /// names `fix_commands`.
    pub fn interpret(&self, reply: &ToolResult) -> (r: ToolResult)
        ensures
            ({
                let ok = reply.success && reply.output is Some && contains(
                    reply.output->0@,
                    "fix_commands"@,
                );
                &&& r.success == ok
                &&& ok ==> r.output is Some && r.output->0@ == reply.output->0@ && r.error is None
                &&& !ok ==> r.output is None && r.error is Some && r.error->0@ == if !reply.success {
                    "Failed to analyze error with LLM"@
                } else if reply.output is None {
                    "No output from error analysis"@
                } else {
                    "LLM did not provide structured fix suggestions"@
                }
            }),
    {
        if reply.success {
            match &reply.output {
                Some(o) => {
                    if contains_str(o.as_str(), "fix_commands") {
                        ToolResult::success(o.as_str())
                    } else {
                        ToolResult::failure("LLM did not provide structured fix suggestions")
                    }
                },
                None => ToolResult::failure("No output from error analysis"),
            }
        } else {
            ToolResult::failure("Failed to analyze error with LLM")
        }
    }
}

impl Tool for ErrorAnalyzerTool {
    open spec fn tool_name(&self) -> Seq<char> {
        "analyze_error"@
    }

    open spec fn spec_model(&self) -> ToolSpecModel {
        ToolSpecModel {
            name: "analyze_error"@,
            description: "Analyzes command failures and suggests specific fixes"@,
            input_hint: "Error message or command output to analyze"@,
            tags: seq!["error"@, "analysis"@, "fix"@],
        }
    }

    fn name(&self) -> (r: String) {
        String::from_str("analyze_error")
    }

    fn description(&self) -> (r: String) {
        String::from_str("Analyzes command failures and suggests specific fixes")
    }

    fn spec(&self) -> (r: ToolSpec) {
        let tags = vec!["error", "analysis", "fix"];
        assert(tags@.map_values(|t: &str| t@) =~= self.spec_model().tags);
        ToolSpec::described(
            "analyze_error",
            "Analyzes command failures and suggests specific fixes",
            "Error message or command output to analyze",
            &tags,
        )
    }
}


/// An example plan that goal analysis proposes.
#[derive(Debug, Clone)]
pub struct PlanExample {
    pub description: String,
    pub json_plan: String,
}

/// What goal analysis proposes to guide planning.
#[derive(Debug, Clone)]
pub struct GoalAnalysis {
    pub goal_type: String,
    pub context_type: String,
    pub tool_sequence: Vec<String>,
    pub examples: Vec<PlanExample>,
    pub output_format: String,
    pub critical_rules: Vec<String>,
}

/// The situation in which planning takes place: a first plan, a recovery
/// from errors the log shows, or a continuation.
pub open spec fn context_kind(memory_log: Seq<char>, is_replanning: bool) -> Seq<char> {
    if is_replanning {
        if contains(memory_log, "error_analysis"@) || contains(memory_log, "execution_error"@)
            || contains(memory_log, "Command failed"@) {
            "error_recovery"@
        } else {
            "continuation"@
        }
    } else {
        "initial_planning"@
    }
}

/// The capability that analyses a goal and proposes planning patterns.
#[derive(Debug, Clone)]
pub struct GoalAnalyzerTool {
    llm: LLMTool,
}

/// The index of the first `c` in `s` at or after `i`; `s.len()` if none.
pub open spec fn first_from(s: Seq<char>, c: char, i: int) -> int
    decreases s.len() - i,
{
    if i < 0 || i >= s.len() {
        s.len() as int
    } else if s[i] == c {
        i
    } else {
        first_from(s, c, i + 1)
    }
}

/// The index of the last `c` in `s` before `j`; -1 if none.
pub open spec fn last_before(s: Seq<char>, c: char, j: int) -> int
    decreases j,
{
    if j <= 0 || j > s.len() {
        -1
    } else if s[j - 1] == c {
        j - 1
    } else {
        last_before(s, c, j - 1)
    }
}

/// From the first `{` to the last `}` of `s`: the start defaults to the
/// beginning and the end to the end; empty where they cross.
pub open spec fn json_span(s: Seq<char>) -> Seq<char> {
    let f = first_from(s, '{', 0);
    let start = if f < s.len() {
        f
    } else {
        0
    };
    let l = last_before(s, '}', s.len() as int);
    let end = if l >= 0 {
        l + 1
    } else {
        s.len() as int
    };
    if start <= end {
        s.subrange(start, end)
    } else {
        seq![]
    }
}

/// A request to the goal analyser, `goal|memory_log|is_replanning`: exactly
/// three fields; the flag holds where the last field is `true`.
pub open spec fn analysis_request(s: Seq<char>) -> Option<(Seq<char>, Seq<char>, bool)> {
    let a = first_from(s, '|', 0);
    let b = first_from(s, '|', a + 1);
    let c = first_from(s, '|', b + 1);
    if a >= s.len() || b >= s.len() || c < s.len() {
        None
    } else {
        Some((s.subrange(0, a), s.subrange(a + 1, b), s.subrange(b + 1, s.len() as int) == "true"@))
    }
}

/// What `{:?}` writes for an optional text.
pub uninterp spec fn debug_option(e: Option<Seq<char>>) -> Seq<char>;

/// Relies on the `Debug` formatting of `Option<String>`.
#[verifier::external_body]
fn debug_text(e: &Option<String>) -> (r: String)
    ensures
        r@ == debug_option(opt_view(*e)),
{
    format!("{:?}", e)
}

fn first_from_exec(cs: &Vec<char>, c: char, i: usize) -> (r: usize)
    requires
        i <= cs.len(),
    ensures
        r as int == first_from(cs@, c, i as int),
        i <= r <= cs.len(),
{
    let mut k = i;
    while k < cs.len() && cs[k] != c
        invariant
            i <= k <= cs.len(),
            first_from(cs@, c, i as int) == first_from(cs@, c, k as int),
        decreases cs.len() - k,
    {
        k = k + 1;
    }
    k
}

impl GoalAnalyzerTool {
    /// The failure of the analysis where the backend failed.
    pub fn analysis_failed(&self, error: &Option<String>) -> (r: String)
        ensures
            r@ == "LLM execution failed: "@ + debug_option(opt_view(*error)),
    {
        let mut s = String::from_str("LLM execution failed: ");
        let d = debug_text(error);
        s.append(d.as_str());
        s
    }

    /// The analysis document in the backend's reply: what follows the last
    /// reasoning marker, from its first `{` to its last `}`; an error where
    /// that is blank.
    pub fn extract_json(&self, response: &str) -> (r: Result<String, String>)
        ensures
            ({
                let span = json_span(after_reasoning(response@));
                match r {
                    Ok(j) => !is_blank(span) && j@ == span,
                    Err(e) => is_blank(span) && e@ == "No JSON found in response: "@ + response@,
                }
            }),
    {
        let post = strip_reasoning(response);
        let cs = chars_of(post.as_str());
        let n = cs.len();
        let f = first_from_exec(&cs, '{', 0);
        let start = if f < n {
            f
        } else {
            0
        };
        let mut j = n;
        while j > 0 && cs[j - 1] != '}'
            invariant
                j <= n,
                n == cs@.len(),
                last_before(cs@, '}', n as int) == last_before(cs@, '}', j as int),
            decreases j,
        {
            j = j - 1;
        }
        let end = if j > 0 {
            j
        } else {
            n
        };
        let span = if start <= end {
            String::from_str(post.substring_char(start, end))
        } else {
            String::new()
        };
        proof {
            assert(cs@ == post@);
            if j > 0 {
                assert(last_before(cs@, '}', j as int) == j - 1);
            } else {
                assert(last_before(cs@, '}', 0) == -1);
            }
            if start > end {
                assert(span@ =~= json_span(post@));
            }
        }
        if is_blank_str(span.as_str()) {
            let mut e = String::from_str("No JSON found in response: ");
            e.append(response);
            Err(e)
        } else {
            Ok(span)
        }
    }

    /// Reads a request `goal|memory_log|is_replanning`.
    pub fn parse_request(input: &str) -> (r: Option<(String, String, bool)>)
        ensures
            match r {
                Some((g, m, f)) => analysis_request(input@) == Some((g@, m@, f)),
                None => analysis_request(input@) is None,
            },
    {
        let cs = chars_of(input);
        let n = cs.len();
        let a = first_from_exec(&cs, '|', 0);
        if a >= n {
            return None;
        }
        let b = first_from_exec(&cs, '|', a + 1);
        if b >= n {
            return None;
        }
        let c = first_from_exec(&cs, '|', b + 1);
        if c < n {
            return None;
        }
        let g = String::from_str(input.substring_char(0, a));
        let m = String::from_str(input.substring_char(a + 1, b));
        let flag = eq_str(input.substring_char(b + 1, n), "true");
        Some((g, m, flag))
    }

    /// The failure for a request that is not `goal|memory_log|is_replanning`.
    pub fn malformed_request(&self) -> (r: ToolResult)
        ensures
            !r.success,
            r.error is Some && r.error->0@ == "Input must be: goal|memory_log|is_replanning"@,
    {
        ToolResult::failure("Input must be: goal|memory_log|is_replanning")
    }

    pub fn new(llm: LLMTool) -> (r: Self)
        ensures
            r.backend() == llm,
    {
        Self { llm }
    }

    pub closed spec fn backend(&self) -> LLMTool {
        self.llm
    }

    /// The backend this capability asks.
    pub fn llm(&self) -> (r: &LLMTool)
        ensures
            *r == self.backend(),
    {
        &self.llm
    }

    /// The situation in which planning takes place.
    pub fn context_type(memory_log: &str, is_replanning: bool) -> (r: String)
        ensures
            r@ == context_kind(memory_log@, is_replanning),
    {
        if is_replanning {
            if contains_str(memory_log, "error_analysis") || contains_str(
                memory_log,
                "execution_error",
            ) || contains_str(memory_log, "Command failed") {
                String::from_str("error_recovery")
            } else {
                String::from_str("continuation")
            }
        } else {
            String::from_str("initial_planning")
        }
    }

    /// The prompt that asks for an analysis of `goal` in the light of the log.
    pub fn prompt(&self, goal: &str, memory_log: &str, is_replanning: bool) -> (r: String)
        ensures
            ({
                let c = context_kind(memory_log@, is_replanning);
                r@ == GOAL_ANALYSIS_PROMPT_0@ + goal@ + GOAL_ANALYSIS_PROMPT_1@ + c
                    + GOAL_ANALYSIS_PROMPT_2@ + memory_log@ + GOAL_ANALYSIS_PROMPT_3@ + c
                    + GOAL_ANALYSIS_PROMPT_4@
            }),
    {
        let c = Self::context_type(memory_log, is_replanning);
        let mut s = String::from_str(GOAL_ANALYSIS_PROMPT_0);
        s.append(goal);
        s.append(GOAL_ANALYSIS_PROMPT_1);
        s.append(c.as_str());
        s.append(GOAL_ANALYSIS_PROMPT_2);
        s.append(memory_log);
        s.append(GOAL_ANALYSIS_PROMPT_3);
        s.append(c.as_str());
        s.append(GOAL_ANALYSIS_PROMPT_4);
        s
    }
}

impl Tool for GoalAnalyzerTool {
    open spec fn tool_name(&self) -> Seq<char> {
        "analyze_goal"@
    }

    open spec fn spec_model(&self) -> ToolSpecModel {
        ToolSpecModel {
            name: "analyze_goal"@,
            description: "Analyzes goals and generates appropriate planning patterns, examples, and output formats dynamically."@,
            input_hint: "goal|memory_log|is_replanning (e.g., 'commit changes|[memory]|false')"@,
            tags: seq!["meta"@, "planning"@, "analysis"@],
        }
    }

    fn name(&self) -> (r: String) {
        String::from_str("analyze_goal")
    }

    fn description(&self) -> (r: String) {
        String::from_str(
            "Analyzes goals and generates appropriate planning patterns, examples, and output formats dynamically.",
        )
    }

    fn spec(&self) -> (r: ToolSpec) {
        let tags = vec!["meta", "planning", "analysis"];
        assert(tags@.map_values(|t: &str| t@) =~= self.spec_model().tags);
        ToolSpec::described(
            "analyze_goal",
            "Analyzes goals and generates appropriate planning patterns, examples, and output formats dynamically.",
            "goal|memory_log|is_replanning (e.g., 'commit changes|[memory]|false')",
            &tags,
        )
    }
}

} // verus!
