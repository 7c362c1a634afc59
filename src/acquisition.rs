//! Plan acquisition: the prompts that ask the text model for a plan or a
//! follow-up plan, and the pipeline that turns the model's free-form reply
//! into a plan that can always be executed.

use crate::analysis::{GoalAnalysis, GoalAnalyzerTool, PlanExample, after_reasoning, strip_reasoning};
use crate::context::{Context, spec_names};
use crate::document::{StepDoc, decode_doc, decode_document, doc_views};
use crate::json::{json_parses, json_plan_steps, read_plan_document};
use crate::memory::dump_lines;
use crate::pattern::{first_match, regex_first_match, regex_replaced, replace_matches};
use crate::plan::{Plan, StepModel};
use crate::text::{
    is_blank, is_blank_str, join, join_strs, lines, replace_str, replaced, split_lines, starts_with,
    starts_with_str, trim_start, trim_start_str, views,
};
use crate::tools::{LLMTool, ToolResult};
use crate::validation::{
    PlanValidationError, WarningModel, hint_example, hint_message, plan_warnings, validate_plan,
    warning_views,
};
use vstd::prelude::*;

verus! {

pub const PLANNING_PROMPT_0: &'static str = r#"You are an autonomous planning agent. Think through the problem step by step, then generate ONLY valid JSON.

GOAL: "#;

pub const PLANNING_PROMPT_1: &'static str = r#"

MEMORY LOG:
"#;

pub const PLANNING_PROMPT_2: &'static str = r#"

AVAILABLE TOOLS:
- run_command: Execute shell commands (e.g. "git status", "git add .", "git commit -m 'message'")  
- reflect: Analyze text or tool outputs (input: text or "$output[tool_name]")
- analyze_error: Analyze errors and suggest fixes (input: error message)

DYNAMIC EXAMPLES FOR THIS GOAL TYPE:
"#;

pub const PLANNING_PROMPT_3: &'static str = r#"

OUTPUT FORMAT: "#;

pub const PLANNING_PROMPT_4: &'static str = r#"

CRITICAL RULES:
"#;

pub const PLANNING_PROMPT_5: &'static str = r#"

🚨🚨🚨 CRITICAL FORMAT REQUIREMENTS 🚨🚨🚨
EVERY SINGLE STEP MUST USE THE CORRECT FORMAT!

❌❌❌ THESE ARE WRONG AND WILL CAUSE ERRORS ❌❌❌
{"type": "reflect"} 
{"type": "run_command"}
{"type": "analyze_error"}

✅✅✅ THESE ARE THE ONLY CORRECT FORMATS ✅✅✅
{"type": "tool", "name": "reflect"}
{"type": "tool", "name": "run_command"}  
{"type": "tool", "name": "analyze_error"}
{"type": "info", "message": "text"}

🔥 MANDATORY RULES FOR EVERY STEP 🔥
- EVERY tool step MUST have: "type": "tool", "name": "tool_name"
- NEVER use "type": "tool_name" - this is WRONG
- NEVER mix formats - be consistent throughout
- Only "tool" and "info" are valid types
- Tool names: ONLY "run_command", "reflect", or "analyze_error"

TEMPLATE TO COPY EXACTLY:
{
  "plan": [
    {"type": "tool", "name": "run_command", "input": "git status --porcelain"},
    {"type": "tool", "name": "reflect", "input": "$output[run_command]"},
    {"type": "tool", "name": "run_command", "input": "git add ."},
    {"type": "tool", "name": "run_command", "input": "git commit -m 'Update'"},
    {"type": "info", "message": "Goal completed"}
  ]
}

🚨 EVERY STEP MUST FOLLOW THIS EXACT PATTERN 🚨
STOP after outputting the JSON. NO other format is acceptable.
"#;

pub const REPLANNING_PROMPT_0: &'static str = r#"You are an autonomous replanning agent. Analyze what went wrong and create a plan to complete the goal.

GOAL: "#;

pub const REPLANNING_PROMPT_1: &'static str = r#"

REFLECTION FROM PREVIOUS ATTEMPT:
"#;

pub const REPLANNING_PROMPT_2: &'static str = r#"

MEMORY LOG:
"#;

pub const REPLANNING_PROMPT_3: &'static str = r#"

DYNAMIC RECOVERY EXAMPLES FOR THIS CONTEXT:
"#;

pub const REPLANNING_PROMPT_4: &'static str = r#"

OUTPUT FORMAT: "#;

pub const REPLANNING_PROMPT_5: &'static str = r#"

CRITICAL RULES:
"#;

pub const REPLANNING_PROMPT_6: &'static str = r#"

🚨 CRITICAL FORMAT REQUIREMENTS 🚨
NEVER EVER use these INVALID formats:
❌ {"type": "reflect"} 
❌ {"type": "run_command"}
❌ {"type": "analyze_error"}

ALWAYS use these VALID formats:
✅ {"type": "tool", "name": "reflect"}
✅ {"type": "tool", "name": "run_command"}  
✅ {"type": "tool", "name": "analyze_error"}
✅ {"type": "info", "message": "text"}

UNIVERSAL RULES:
- If the reflection contains JSON with "fix_commands" array, use those EXACT commands first
- Then ALWAYS retry the original failed operation to complete the goal
- If reflection is plain text, analyze what failed and create appropriate recovery steps
- Complete the ENTIRE goal, not just fix the immediate problem
- For git commit failures: run fix commands, then ALWAYS retry git commit with proper message
- NEVER stop after just running the fix - ALWAYS complete the original goal
- Only "tool" and "info" are valid types
- Tool names: ONLY "run_command", "reflect", or "analyze_error"
- Plan ALL steps needed to complete the goal
- NO conditional logic (if/else) in JSON - create complete linear plan
- NO pseudo-code - ONLY valid JSON
- If goal is achieved, use: {"type": "info", "message": "Goal achieved"}
- NO markdown, NO explanations after JSON

⚠️ CRITICAL: Do NOT include any reflection analysis JSON in your response. Only output the plan JSON.

🚨 CRITICAL EXAMPLE: If reflection contains error analysis JSON like:
{"analysis": "Command failed due to formatting", "fix_commands": ["cargo fmt"], "explanation": "..."}

Then output (MUST include BOTH fix AND retry):
{
  "plan": [
    {"type": "tool", "name": "run_command", "input": "cargo fmt"},
    {"type": "tool", "name": "run_command", "input": "git commit -m 'Fix formatting and commit changes'"},
    {"type": "info", "message": "Goal completed"}
  ]
}

🚨 NEVER stop after just the fix command - ALWAYS retry the original operation!

OUTPUT ONLY this exact JSON structure (ignore any other formats in examples):
{
  "plan": [
    {"type": "tool", "name": "run_command", "input": "your_command_here"},
    {"type": "tool", "name": "reflect", "input": "$output[run_command]"},
    {"type": "info", "message": "Goal completed"}
  ]
}

STOP after outputting the JSON. NO other format is acceptable.
"#;


/// The shape of a plan document inside the model's reply: an object whose
/// first member is the `plan` array, matched as shortly as possible.
pub const PLAN_PATTERN: &'static str = r#"(?s)\{\s*"plan"\s*:\s*\[.*?\]\s*\}"#;

/// A line comment, with the comma that may precede it.
pub const COMMENT_PATTERN: &'static str = r#",?\s*//[^\n\r]*"#;

/// A line of the reply that cleaning keeps: no code fence, divider or
/// heading, and not blank.
pub open spec fn keep_line(l: Seq<char>) -> bool {
    let t = trim_start(l);
    !starts_with(t, "```"@) && !starts_with(t, "---"@) && !starts_with(t, "### "@) && !is_blank(l)
}

pub open spec fn kept(ls: Seq<Seq<char>>) -> Seq<Seq<char>>
    decreases ls.len(),
{
    if ls.len() == 0 {
        seq![]
    } else if keep_line(ls.last()) {
        kept(ls.drop_last()).push(ls.last())
    } else {
        kept(ls.drop_last())
    }
}

/// The reply without fences, dividers, headings and blank lines.
pub open spec fn cleaned(s: Seq<char>) -> Seq<char> {
    join(kept(lines(s)), "\n"@)
}

/// The plan document found in the cleaned reply, or nothing.
pub open spec fn extracted(s: Seq<char>) -> Seq<char> {
    match regex_first_match(PLAN_PATTERN@, s) {
        Some(m) => m,
        None => seq![],
    }
}

pub open spec fn type_tag(t: Seq<char>) -> Seq<char> {
    "\"type\": \""@ + t + "\""@
}

pub open spec fn tool_tag(n: Seq<char>) -> Seq<char> {
    "\"type\": \"tool\", \"name\": \""@ + n + "\""@
}

/// Each step written as `"type": "<capability>"` rewritten as a tool step
/// that names the capability.
pub open spec fn wrap_tools(s: Seq<char>, names: Seq<Seq<char>>) -> Seq<char>
    decreases names.len(),
{
    if names.len() == 0 {
        s
    } else {
        replaced(wrap_tools(s, names.drop_last()), type_tag(names.last()), tool_tag(names.last()))
    }
}

/// The step types that plans may not use; they are read as notes.
pub open spec fn banned_types() -> Seq<Seq<char>> {
    seq!["condition"@, "check"@, "validate"@, "if"@, "when"@]
}

pub open spec fn demote(s: Seq<char>, types: Seq<Seq<char>>) -> Seq<char>
    decreases types.len(),
{
    if types.len() == 0 {
        s
    } else {
        replaced(demote(s, types.drop_last()), type_tag(types.last()), type_tag("info"@))
    }
}

/// The document after the format repairs: capability types wrapped, comments
/// removed, banned types turned into notes.
pub open spec fn repaired(s: Seq<char>, known: Seq<Seq<char>>) -> Seq<char> {
    demote(regex_replaced(COMMENT_PATTERN@, wrap_tools(s, known), seq![]), banned_types())
}

/// The document text that acquisition reads from a raw reply.
pub open spec fn document_text(raw: Seq<char>, known: Seq<Seq<char>>) -> Seq<char> {
    repaired(extracted(cleaned(after_reasoning(raw))), known)
}

fn keep_line_exec(l: &str) -> (r: bool)
    ensures
        r == keep_line(l@),
{
    let t = trim_start_str(l);
    !starts_with_str(t.as_str(), "```") && !starts_with_str(t.as_str(), "---") && !starts_with_str(
        t.as_str(),
        "### ",
    ) && !is_blank_str(l)
}

/// Drops code fences, dividers, headings and blank lines.
pub fn clean_lines(text: &str) -> (r: String)
    ensures
        r@ == cleaned(text@),
{
    let ls = split_lines(text);
    let mut out: Vec<String> = Vec::new();
    let mut i: usize = 0;
    while i < ls.len()
        invariant
            i <= ls.len(),
            views(ls@) == lines(text@),
            views(out@) == kept(views(ls@).take(i as int)),
        decreases ls.len() - i,
    {
        let ghost prev = out@;
        proof {
            let t = views(ls@).take(i + 1);
            assert(t.drop_last() =~= views(ls@).take(i as int));
            assert(t.last() == ls@[i as int]@);
        }
        if keep_line_exec(ls[i].as_str()) {
            out.push(ls[i].clone());
            assert(views(out@) =~= views(prev).push(ls@[i as int]@));
        }
        i = i + 1;
    }
    assert(views(ls@).take(ls.len() as int) =~= views(ls@));
    join_strs(&out, "\n")
}

/// The first plan document in the cleaned reply; empty where there is none.
pub fn extract_plan_block(cleaned_text: &str) -> (r: String)
    ensures
        r@ == extracted(cleaned_text@),
{
    match first_match(PLAN_PATTERN, cleaned_text) {
        Some(m) => m,
        None => String::new(),
    }
}

fn type_tag_exec(t: &str) -> (r: String)
    ensures
        r@ == type_tag(t@),
{
    let mut s = String::from_str("\"type\": \"");
    s.append(t);
    s.append("\"");
    s
}

/// Applies the format repairs for the known capability names.
pub fn repair_plan_text(block: &str, known: &Vec<String>) -> (r: String)
    ensures
        r@ == repaired(block@, views(known@)),
{
    let mut s = String::from_str(block);
    let mut i: usize = 0;
    while i < known.len()
        invariant
            i <= known.len(),
            s@ == wrap_tools(block@, views(known@).take(i as int)),
        decreases known.len() - i,
    {
        let from = type_tag_exec(known[i].as_str());
        let mut to = String::from_str("\"type\": \"tool\", \"name\": \"");
        to.append(known[i].as_str());
        to.append("\"");
        proof {
            reveal_strlit("\"type\": \"");
            assert(from@.len() > 0);
            let t = views(known@).take(i + 1);
            assert(t.drop_last() =~= views(known@).take(i as int));
            assert(t.last() == known@[i as int]@);
        }
        s = replace_str(s.as_str(), from.as_str(), to.as_str());
        i = i + 1;
    }
    assert(views(known@).take(known.len() as int) =~= views(known@));
    let mut s = replace_matches(COMMENT_PATTERN, s.as_str(), "");
    let banned = vec!["condition", "check", "validate", "if", "when"];
    let info = type_tag_exec("info");
    let ghost start = s@;
    proof {
        reveal_strlit("");
        assert(""@ =~= Seq::<char>::empty());
    }
    let mut j: usize = 0;
    while j < banned.len()
        invariant
            j <= banned.len(),
            banned@.len() == 5,
            forall|k: int| 0 <= k < 5 ==> #[trigger] banned@[k]@ == banned_types()[k],
            info@ == type_tag("info"@),
            s@ == demote(start, banned_types().take(j as int)),
        decreases banned.len() - j,
    {
        let from = type_tag_exec(banned[j]);
        proof {
            reveal_strlit("\"type\": \"");
            assert(from@.len() > 0);
            let t = banned_types().take(j + 1);
            assert(t.drop_last() =~= banned_types().take(j as int));
            assert(t.last() == banned@[j as int]@);
        }
        s = replace_str(s.as_str(), from.as_str(), info.as_str());
        j = j + 1;
    }
    assert(banned_types().take(5) =~= banned_types());
    s
}

/// The document text of a raw reply: reasoning dropped, lines cleaned, the
/// plan document extracted and repaired.
pub fn plan_document_text(raw: &str, known: &Vec<String>) -> (r: String)
    ensures
        r@ == document_text(raw@, views(known@)),
{
    let answer = strip_reasoning(raw);
    let c = clean_lines(answer.as_str());
    let block = extract_plan_block(c.as_str());
    repair_plan_text(block.as_str(), known)
}


/// The texts by which the planning and the replanning stage mark their log
/// entries and their fallback plans.
pub struct StageTexts {
    pub label: &'static str,
    pub raw_heading: &'static str,
    pub llm_failed_log: &'static str,
    pub llm_failed: &'static str,
    pub parse_failed: &'static str,
    pub decode_failed: &'static str,
    pub decode_failed_log: &'static str,
}

impl StageTexts {
    pub fn planning() -> (r: Self)
        ensures
            r.label@ == "planner"@,
            r.raw_heading@ == "--- DEBUG: Raw planner output ---"@,
            r.llm_failed@ == "Planner LLM failed."@,
            r.parse_failed@ == "Failed to parse structured plan."@,
            r.decode_failed@ == "Planner JSON parse error."@,
    {
        StageTexts {
            label: "planner",
            raw_heading: "--- DEBUG: Raw planner output ---",
            llm_failed_log: "❌ Planner LLM failed: ",
            llm_failed: "Planner LLM failed.",
            parse_failed: "Failed to parse structured plan.",
            decode_failed: "Planner JSON parse error.",
            decode_failed_log: "❌ Failed to parse into PlannerResponse: some step has no typed reading",
        }
    }

    pub fn replanning() -> (r: Self)
        ensures
            r.label@ == "replanner"@,
            r.raw_heading@ == "--- DEBUG: Raw replanner output ---"@,
            r.llm_failed@ == "Replanner LLM failed."@,
            r.parse_failed@ == "Failed to parse replanned output."@,
            r.decode_failed@ == "Replanner JSON parse error."@,
    {
        StageTexts {
            label: "replanner",
            raw_heading: "--- DEBUG: Raw replanner output ---",
            llm_failed_log: "❌ Replanner LLM failed: ",
            llm_failed: "Replanner LLM failed.",
            parse_failed: "Failed to parse replanned output.",
            decode_failed: "Replanner JSON parse error.",
            decode_failed_log: "❌ Failed to parse into ReplannerResponse: some step has no typed reading",
        }
    }
}

/// The log entries that report validation warnings, each with its hint.
pub open spec fn warning_entries(label: Seq<char>, ws: Seq<WarningModel>) -> Seq<(Seq<char>, Seq<char>)>
    decreases ws.len(),
{
    if ws.len() == 0 {
        seq![]
    } else {
        let w = ws.last();
        warning_entries(label, ws.drop_last()) + seq![(label, "⚠️ Validation warning: "@ + hint_message(w))]
            + match hint_example(w) {
            Some(h) => seq![(label, "→ Hint: "@ + h)],
            None => seq![],
        }
    }
}

/// The text of a reply: its output, or nothing.
pub open spec fn reply_text(r: ToolResult) -> Seq<char> {
    match r.output {
        Some(o) => o@,
        None => seq![],
    }
}

pub open spec fn single_info(m: Seq<char>) -> Seq<StepModel> {
    seq![StepModel::Info { message: m }]
}

/// Logs the validation warnings of a document with their hints.
fn log_warnings(context: &mut Context, label: &str, ws: &Vec<PlanValidationError>)
    ensures
        final(context).memory@ == old(context).memory@ + warning_entries(label@, warning_views(ws@)),
        final(context).tools == old(context).tools,
{
    let mut i: usize = 0;
    let ghost start = context.memory@;
    while i < ws.len()
        invariant
            i <= ws.len(),
            context.memory@ == start + warning_entries(label@, warning_views(ws@).take(i as int)),
            context.tools == old(context).tools,
        decreases ws.len() - i,
    {
        let (msg, hint) = ws[i].hint();
        let mut line = String::from_str("⚠️ Validation warning: ");
        line.append(msg.as_str());
        context.log(label, line.as_str());
        match hint {
            Some(h) => {
                let mut l2 = String::from_str("→ Hint: ");
                l2.append(h.as_str());
                context.log(label, l2.as_str());
            },
            None => {},
        }
        proof {
            let t = warning_views(ws@).take(i + 1);
            assert(t.drop_last() =~= warning_views(ws@).take(i as int));
            assert(t.last() == ws@[i as int]@);
            assert(context.memory@ =~= start + warning_entries(label@, t));
        }
        i = i + 1;
    }
    assert(warning_views(ws@).take(ws.len() as int) =~= warning_views(ws@));
}

/// Finishes acquisition once the document text has been read: logs the
/// validation warnings and decodes the document, falling back to a one-note
/// plan where the text was not JSON or a step has no typed reading.
pub fn conclude_plan(
    context: &mut Context,
    texts: &StageTexts,
    raw: &str,
    json: &str,
    document: Result<Vec<StepDoc>, String>,
) -> (r: Plan)
    ensures
        final(context).tools == old(context).tools,
        match document {
            Err(e) => r@ == single_info(texts.parse_failed@) && final(context).memory@
                == old(context).memory@.push(
                (
                    texts.label@,
                    "❌ Failed to parse raw JSON:\n"@ + e@ + "\n\n[raw]: "@ + raw@ + "\n\n[cleaned]: "@
                        + json@,
                ),
            ),
            Ok(docs) => {
                let ws = warning_entries(
                    texts.label@,
                    plan_warnings(doc_views(docs@), spec_names(old(context).tools@)),
                );
                match decode_doc(doc_views(docs@)) {
                    Some(p) => r@ == p && final(context).memory@ == old(context).memory@ + ws,
                    None => r@ == single_info(texts.decode_failed@) && final(context).memory@
                        == (old(context).memory@ + ws).push(
                        (
                            texts.label@,
                            texts.decode_failed_log@ + "\n\n[raw]: "@ + raw@ + "\n\n[json]: "@ + json@,
                        ),
                    ),
                }
            },
        },
{
    match document {
        Err(e) => {
            let mut line = String::from_str("❌ Failed to parse raw JSON:\n");
            line.append(e.as_str());
            line.append("\n\n[raw]: ");
            line.append(raw);
            line.append("\n\n[cleaned]: ");
            line.append(json);
            context.log(texts.label, line.as_str());
            Plan::single_info(texts.parse_failed)
        },
        Ok(docs) => {
            let known = context.tool_names();
            let ws = validate_plan(&docs, &known);
            log_warnings(context, texts.label, &ws);
            match decode_document(&docs) {
                Some(p) => p,
                None => {
                    let mut line = String::from_str(texts.decode_failed_log);
                    line.append("\n\n[raw]: ");
                    line.append(raw);
                    line.append("\n\n[json]: ");
                    line.append(json);
                    context.log(texts.label, line.as_str());
                    Plan::single_info(texts.decode_failed)
                },
            }
        },
    }
}

/// Turns the model's reply into a plan. The trace (raw reply, extracted
/// document) is logged first; a failed reply, a document that is not JSON or
/// one that does not decode each give a one-note plan.
pub fn acquire_plan(context: &mut Context, texts: &StageTexts, reply: &ToolResult) -> (r: Plan)
    ensures
        final(context).tools == old(context).tools,
        ({
            let raw = reply_text(*reply);
            let json = document_text(raw, spec_names(old(context).tools@));
            let trace = seq![
                (texts.label@, texts.raw_heading@),
                (texts.label@, raw),
                (texts.label@, "--- DEBUG: Extracted JSON block ---"@),
                (texts.label@, json),
            ];
            &&& final(context).memory@.len() >= old(context).memory@.len() + 4
            &&& final(context).memory@.take(old(context).memory@.len() + 4 as int) == old(context).memory@ + trace
            &&& !reply.success ==> r@ == single_info(texts.llm_failed@)
            &&& reply.success && !json_parses(json) ==> r@ == single_info(texts.parse_failed@)
            &&& reply.success && json_parses(json) ==> r@ == match decode_doc(json_plan_steps(json)) {
                Some(p) => p,
                None => single_info(texts.decode_failed@),
            }
        }),
{
    let raw = match &reply.output {
        Some(o) => o.clone(),
        None => String::new(),
    };
    let ghost m0 = context.memory@;
    context.log(texts.label, texts.raw_heading);
    context.log(texts.label, raw.as_str());
    let known = context.tool_names();
    let json = plan_document_text(raw.as_str(), &known);
    context.log(texts.label, "--- DEBUG: Extracted JSON block ---");
    context.log(texts.label, json.as_str());
    let ghost m4 = context.memory@;
    assert(m4.take(m0.len() + 4 as int) =~= m4);
    if !reply.success {
        let mut line = String::from_str(texts.llm_failed_log);
        line.append(raw.as_str());
        context.log(texts.label, line.as_str());
        assert(context.memory@.take(m0.len() + 4 as int) =~= m4);
        return Plan::single_info(texts.llm_failed);
    }
    let document = read_plan_document(json.as_str());
    let ghost parsed = document;
    let r = conclude_plan(context, texts, raw.as_str(), json.as_str(), document);
    proof {
        assert(context.memory@.take(m0.len() + 4 as int) =~= m4);

    }
    r
}


/// What guides the planning prompt: example plans, an output format and
/// rules.
pub struct PlanningGuidance {
    pub examples: String,
    pub output_format: String,
    pub critical_rules: String,
}

pub open spec fn example_lines(ex: Seq<PlanExample>) -> Seq<Seq<char>> {
    ex.map_values(|e: PlanExample| "// "@ + e.description@ + "\n"@ + e.json_plan@)
}

/// The guidance that a goal analysis proposes.
pub fn guidance_from(analysis: &GoalAnalysis) -> (r: PlanningGuidance)
    ensures
        r.examples@ == join(example_lines(analysis.examples@), "\n\n"@),
        r.output_format@ == analysis.output_format@,
        r.critical_rules@ == join(views(analysis.critical_rules@), "\n"@),
{
    let mut parts: Vec<String> = Vec::new();
    let mut i: usize = 0;
    while i < analysis.examples.len()
        invariant
            i <= analysis.examples.len(),
            views(parts@) == example_lines(analysis.examples@).take(i as int),
        decreases analysis.examples.len() - i,
    {
        let mut line = String::from_str("// ");
        line.append(analysis.examples[i].description.as_str());
        line.append("\n");
        line.append(analysis.examples[i].json_plan.as_str());
        let ghost prev = parts@;
        parts.push(line);
        assert(views(parts@) =~= views(prev).push(line@));
        assert(example_lines(analysis.examples@).take(i + 1) =~= example_lines(analysis.examples@).take(
            i as int,
        ).push(line@));
        i = i + 1;
    }
    assert(example_lines(analysis.examples@).take(analysis.examples.len() as int)
        =~= example_lines(analysis.examples@));
    PlanningGuidance {
        examples: join_strs(&parts, "\n\n"),
        output_format: analysis.output_format.clone(),
        critical_rules: join_strs(&analysis.critical_rules, "\n"),
    }
}

/// Chooses the guidance: the analysis where there is one; else, after
/// logging why, the stage's built-in examples.
fn choose_guidance(
    context: &mut Context,
    label: &str,
    analysis: Result<GoalAnalysis, String>,
    examples: &str,
    output_format: &str,
    critical_rules: &str,
) -> (r: PlanningGuidance)
    ensures
        final(context).tools == old(context).tools,
        match analysis {
            Ok(a) => r.examples@ == join(example_lines(a.examples@), "\n\n"@) && r.output_format@
                == a.output_format@ && r.critical_rules@ == join(views(a.critical_rules@), "\n"@)
                && final(context).memory@ == old(context).memory@,
            Err(e) => r.examples@ == examples@ && r.output_format@ == output_format@
                && r.critical_rules@ == critical_rules@ && final(context).memory@
                == old(context).memory@.push(
                (
                    label@,
                    "⚠️ GoalAnalyzer failed: "@ + e@ + ", falling back to hardcoded examples"@,
                ),
            ),
        },
{
    match analysis {
        Ok(a) => guidance_from(&a),
        Err(e) => {
            let mut line = String::from_str("⚠️ GoalAnalyzer failed: ");
            line.append(e.as_str());
            line.append(", falling back to hardcoded examples");
            context.log(label, line.as_str());
            PlanningGuidance {
                examples: String::from_str(examples),
                output_format: String::from_str(output_format),
                critical_rules: String::from_str(critical_rules),
            }
        },
    }
}

pub const PLANNING_EXAMPLES: &'static str = r#"// Complete git workflow example
{"plan": [{"type": "tool", "name": "run_command", "input": "git status --porcelain"}, {"type": "tool", "name": "reflect", "input": "$output[run_command]"}, {"type": "tool", "name": "run_command", "input": "git add ."}, {"type": "tool", "name": "run_command", "input": "git commit -m 'Update files'"}, {"type": "info", "message": "Goal completed"}]}"#;

pub const PLANNING_FORMAT: &'static str = "Standard JSON plan format with linear steps";

pub const PLANNING_RULES: &'static str = "- Use only linear sequences, no conditionals\n- Complete the entire git workflow\n- Use proper JSON format";

pub const REPLANNING_EXAMPLES: &'static str = r#"// Error recovery with fix commands
{"plan": [{"type": "tool", "name": "run_command", "input": "cargo fmt"}, {"type": "tool", "name": "run_command", "input": "git commit -m 'Fix formatting and commit changes'"}, {"type": "info", "message": "Goal completed"}]}"#;

pub const REPLANNING_FORMAT: &'static str = "Standard JSON recovery plan format";

pub const REPLANNING_RULES: &'static str = "- Extract fix_commands from error analysis JSON\n- Apply fixes then retry original operation\n- Use linear sequences only";

/// The planner that asks the text model for a first plan.
pub struct LLMPlanner {
    llm: LLMTool,
    goal_analyzer: GoalAnalyzerTool,
}

impl LLMPlanner {
    pub fn new(llm: LLMTool) -> (r: Self)
        ensures
            r.backend() == llm,
            r.analyzer().backend().model@ == llm.model@,
    {
        let goal_analyzer = GoalAnalyzerTool::new(LLMTool::new(llm.model.as_str()));
        Self { llm, goal_analyzer }
    }

    pub closed spec fn backend(&self) -> LLMTool {
        self.llm
    }

    pub closed spec fn analyzer(&self) -> GoalAnalyzerTool {
        self.goal_analyzer
    }

    /// The backend that writes the plan.
    pub fn llm(&self) -> (r: &LLMTool)
        ensures
            *r == self.backend(),
    {
        &self.llm
    }

    /// The goal analysis that guides the prompt.
    pub fn goal_analyzer(&self) -> (r: &GoalAnalyzerTool)
        ensures
            *r == self.analyzer(),
    {
        &self.goal_analyzer
    }

    /// Starts acquisition: the log as it stands, as text, and an entry that
    /// says which planner runs.
    pub fn begin(&self, context: &mut Context) -> (r: String)
        ensures
            r@ == join(dump_lines(old(context).memory@), "\n"@),
            final(context).memory@ == old(context).memory@.push(
                ("planner"@, "Using dynamic LLM planner"@),
            ),
            final(context).tools == old(context).tools,
    {
        let dump = context.memory.dump();
        context.log("planner", "Using dynamic LLM planner");
        dump
    }

    /// The guidance for the prompt: the goal analysis, or built-in examples
    /// where it failed.
    pub fn guidance(&self, context: &mut Context, analysis: Result<GoalAnalysis, String>) -> (r:
        PlanningGuidance)
        ensures
            final(context).tools == old(context).tools,
            analysis is Ok ==> final(context).memory@ == old(context).memory@,
            analysis is Err ==> r.examples@ == PLANNING_EXAMPLES@ && r.output_format@
                == PLANNING_FORMAT@ && r.critical_rules@ == PLANNING_RULES@,
            match analysis {
                Ok(a) => r.examples@ == join(example_lines(a.examples@), "\n\n"@)
                    && r.output_format@ == a.output_format@ && r.critical_rules@ == join(
                    views(a.critical_rules@),
                    "\n"@,
                ),
                Err(e) => final(context).memory@ == old(context).memory@.push(
                    (
                        "planner"@,
                        "⚠️ GoalAnalyzer failed: "@ + e@ + ", falling back to hardcoded examples"@,
                    ),
                ),
            },
    {
        choose_guidance(
            context,
            "planner",
            analysis,
            PLANNING_EXAMPLES,
            PLANNING_FORMAT,
            PLANNING_RULES,
        )
    }

    /// The prompt that asks for a plan for `goal`.
    pub fn prompt(&self, goal: &str, memory_dump: &str, guidance: &PlanningGuidance) -> (r: String)
        ensures
            r@ == PLANNING_PROMPT_0@ + goal@ + PLANNING_PROMPT_1@ + memory_dump@ + PLANNING_PROMPT_2@
                + guidance.examples@ + PLANNING_PROMPT_3@ + guidance.output_format@
                + PLANNING_PROMPT_4@ + guidance.critical_rules@ + PLANNING_PROMPT_5@,
    {
        let mut s = String::from_str(PLANNING_PROMPT_0);
        s.append(goal);
        s.append(PLANNING_PROMPT_1);
        s.append(memory_dump);
        s.append(PLANNING_PROMPT_2);
        s.append(guidance.examples.as_str());
        s.append(PLANNING_PROMPT_3);
        s.append(guidance.output_format.as_str());
        s.append(PLANNING_PROMPT_4);
        s.append(guidance.critical_rules.as_str());
        s.append(PLANNING_PROMPT_5);
        s
    }

    /// Turns the model's reply into a plan (see `acquire_plan`).
    pub fn finish(&self, context: &mut Context, reply: &ToolResult) -> (r: Plan)
        ensures
            final(context).tools == old(context).tools,
            !reply.success ==> r@ == single_info("Planner LLM failed."@),
            ({
                let raw = reply_text(*reply);
                let json = document_text(raw, spec_names(old(context).tools@));
                &&& final(context).memory@.len() >= old(context).memory@.len() + 4
                &&& final(context).memory@.take(old(context).memory@.len() + 4 as int)
                    == old(context).memory@ + seq![
                    ("planner"@, "--- DEBUG: Raw planner output ---"@),
                    ("planner"@, raw),
                    ("planner"@, "--- DEBUG: Extracted JSON block ---"@),
                    ("planner"@, json),
                ]
                &&& reply.success && !json_parses(json) ==> r@ == single_info("Failed to parse structured plan."@)
                &&& reply.success && json_parses(json) ==> r@ == match decode_doc(json_plan_steps(json)) {
                    Some(p) => p,
                    None => single_info("Planner JSON parse error."@),
                }
            }),
    {
        let texts = StageTexts::planning();
        acquire_plan(context, &texts, reply)
    }
}

/// The replanner that asks the text model for a follow-up plan after a
/// failed run.
pub struct LLMReplanner {
    llm: LLMTool,
    goal_analyzer: GoalAnalyzerTool,
}

impl LLMReplanner {
    pub fn new(llm: LLMTool) -> (r: Self)
        ensures
            r.backend() == llm,
            r.analyzer().backend().model@ == llm.model@,
    {
        let goal_analyzer = GoalAnalyzerTool::new(LLMTool::new(llm.model.as_str()));
        Self { llm, goal_analyzer }
    }

    pub closed spec fn backend(&self) -> LLMTool {
        self.llm
    }

    pub closed spec fn analyzer(&self) -> GoalAnalyzerTool {
        self.goal_analyzer
    }

    /// The backend that writes the plan.
    pub fn llm(&self) -> (r: &LLMTool)
        ensures
            *r == self.backend(),
    {
        &self.llm
    }

    /// The goal analysis that guides the prompt.
    pub fn goal_analyzer(&self) -> (r: &GoalAnalyzerTool)
        ensures
            *r == self.analyzer(),
    {
        &self.goal_analyzer
    }

    /// Starts acquisition: the log as it stands, as text, and an entry that
    /// says which replanner runs.
    pub fn begin(&self, context: &mut Context) -> (r: String)
        ensures
            r@ == join(dump_lines(old(context).memory@), "\n"@),
            final(context).memory@ == old(context).memory@.push(
                ("replanner"@, "Using dynamic LLM replanner"@),
            ),
            final(context).tools == old(context).tools,
    {
        let dump = context.memory.dump();
        context.log("replanner", "Using dynamic LLM replanner");
        dump
    }

    /// The guidance for the prompt: the goal analysis, or built-in recovery
    /// examples where it failed.
    pub fn guidance(&self, context: &mut Context, analysis: Result<GoalAnalysis, String>) -> (r:
        PlanningGuidance)
        ensures
            final(context).tools == old(context).tools,
            analysis is Ok ==> final(context).memory@ == old(context).memory@,
            analysis is Err ==> r.examples@ == REPLANNING_EXAMPLES@ && r.output_format@
                == REPLANNING_FORMAT@ && r.critical_rules@ == REPLANNING_RULES@,
            match analysis {
                Ok(a) => r.examples@ == join(example_lines(a.examples@), "\n\n"@)
                    && r.output_format@ == a.output_format@ && r.critical_rules@ == join(
                    views(a.critical_rules@),
                    "\n"@,
                ),
                Err(e) => final(context).memory@ == old(context).memory@.push(
                    (
                        "replanner"@,
                        "⚠️ GoalAnalyzer failed: "@ + e@ + ", falling back to hardcoded examples"@,
                    ),
                ),
            },
    {
        choose_guidance(
            context,
            "replanner",
            analysis,
            REPLANNING_EXAMPLES,
            REPLANNING_FORMAT,
            REPLANNING_RULES,
        )
    }

    /// The prompt that asks for a follow-up plan for `goal`, given the
    /// reflection or error analysis of the failed run.
    pub fn prompt(
        &self,
        goal: &str,
        reflection: &str,
        memory_dump: &str,
        guidance: &PlanningGuidance,
    ) -> (r: String)
        ensures
            r@ == REPLANNING_PROMPT_0@ + goal@ + REPLANNING_PROMPT_1@ + reflection@
                + REPLANNING_PROMPT_2@ + memory_dump@ + REPLANNING_PROMPT_3@ + guidance.examples@
                + REPLANNING_PROMPT_4@ + guidance.output_format@ + REPLANNING_PROMPT_5@
                + guidance.critical_rules@ + REPLANNING_PROMPT_6@,
    {
        let mut s = String::from_str(REPLANNING_PROMPT_0);
        s.append(goal);
        s.append(REPLANNING_PROMPT_1);
        s.append(reflection);
        s.append(REPLANNING_PROMPT_2);
        s.append(memory_dump);
        s.append(REPLANNING_PROMPT_3);
        s.append(guidance.examples.as_str());
        s.append(REPLANNING_PROMPT_4);
        s.append(guidance.output_format.as_str());
        s.append(REPLANNING_PROMPT_5);
        s.append(guidance.critical_rules.as_str());
        s.append(REPLANNING_PROMPT_6);
        s
    }

    /// Turns the model's reply into a follow-up plan (see `acquire_plan`).
    pub fn finish(&self, context: &mut Context, reply: &ToolResult) -> (r: Plan)
        ensures
            final(context).tools == old(context).tools,
            !reply.success ==> r@ == single_info("Replanner LLM failed."@),
            ({
                let raw = reply_text(*reply);
                let json = document_text(raw, spec_names(old(context).tools@));
                &&& final(context).memory@.len() >= old(context).memory@.len() + 4
                &&& final(context).memory@.take(old(context).memory@.len() + 4 as int)
                    == old(context).memory@ + seq![
                    ("replanner"@, "--- DEBUG: Raw replanner output ---"@),
                    ("replanner"@, raw),
                    ("replanner"@, "--- DEBUG: Extracted JSON block ---"@),
                    ("replanner"@, json),
                ]
                &&& reply.success && !json_parses(json) ==> r@ == single_info("Failed to parse replanned output."@)
                &&& reply.success && json_parses(json) ==> r@ == match decode_doc(json_plan_steps(json)) {
                    Some(p) => p,
                    None => single_info("Replanner JSON parse error."@),
                }
            }),
    {
        let texts = StageTexts::replanning();
        acquire_plan(context, &texts, reply)
    }
}

} // verus!
