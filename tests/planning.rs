use agentic_runtime::acquisition::{
    LLMPlanner, LLMReplanner, clean_lines, extract_plan_block, plan_document_text, repair_plan_text,
};
use agentic_runtime::analysis::{
    ErrorAnalyzerTool, GoalAnalysis, GoalAnalyzerTool, PlanExample, ReflectorTool, strip_reasoning,
};
use agentic_runtime::acquisition::guidance_from;
use agentic_runtime::agent::BasicAgent;
use agentic_runtime::context::Context;
use agentic_runtime::document::{FieldValue, StepDoc, decode_document};
use agentic_runtime::json::read_plan_document;
use agentic_runtime::memory::{InMemoryLog, Memory};
use agentic_runtime::model::{Model, TaskModel};
use agentic_runtime::plan::{ExecutionResult, Plan, PlanStep};
use agentic_runtime::tools::{
    FakeEchoTool, GitStatusTool, LLMTool, RunCommandTool, Tool, ToolResult,
};
use agentic_runtime::validation::{PlanValidationError, validate_plan};

fn names(list: &[&str]) -> Vec<String> {
    list.iter().map(|s| s.to_string()).collect()
}

fn s(v: &str) -> Option<FieldValue> {
    Some(FieldValue::Str(v.to_string()))
}

fn tool_doc(name: Option<FieldValue>, input: Option<FieldValue>) -> StepDoc {
    StepDoc { kind: s("tool"), name, input, message: None }
}

fn registry() -> Context {
    Context::new()
        .register_tool(RunCommandTool)
        .register_tool(ReflectorTool::new(LLMTool::new("m")))
        .register_tool(ErrorAnalyzerTool::new(LLMTool::new("m")))
}

#[test]
fn document_decodes_in_order() {
    let docs = read_plan_document(
        r#"{"plan": [{"type": "tool", "name": "run_command", "input": "ls"}, {"type": "info", "message": "done"}, {"type": "tool", "name": "reflect"}]}"#,
    )
    .unwrap();
    let plan = decode_document(&docs).unwrap();
    assert_eq!(
        plan.steps,
        vec![
            PlanStep::ToolCall { name: "run_command".to_string(), input: "ls".to_string() },
            PlanStep::Info("done".to_string()),
            PlanStep::ToolCall { name: "reflect".to_string(), input: String::new() },
        ]
    );
}

#[test]
fn document_with_untyped_step_does_not_decode() {
    let docs = read_plan_document(r#"{"plan": [{"type": "info"}, {"type": 3}]}"#).unwrap();
    assert_eq!(docs[1].kind, Some(FieldValue::Other));
    assert!(decode_document(&docs).is_none());
    assert!(read_plan_document("{\"plan\": [").is_err());
    assert_eq!(read_plan_document("{\"other\": 1}").unwrap().len(), 0);
}

#[test]
fn missing_input_is_reported() {
    let docs = vec![
        tool_doc(s("run_command"), None),
        tool_doc(s("git_status"), None),
        tool_doc(s("run_command"), Some(FieldValue::Null)),
    ];
    let w = validate_plan(&docs, &names(&["run_command", "git_status"]));
    assert_eq!(w, vec![PlanValidationError::MissingField("input".to_string())]);
}

#[test]
fn placeholder_is_reported_for_any_capability() {
    let docs = vec![tool_doc(s("made_up"), s("cat <file>"))];
    let w = validate_plan(&docs, &names(&["run_command"]));
    assert_eq!(
        w,
        vec![
            PlanValidationError::InvalidTool("made_up".to_string()),
            PlanValidationError::ToolInputMismatch {
                tool: "made_up".to_string(),
                reason: "Input contains placeholder like <file>".to_string()
            },
        ]
    );
}

#[test]
fn validation_covers_every_kind_of_step() {
    let docs = vec![
        StepDoc { kind: None, name: None, input: None, message: None },
        StepDoc { kind: Some(FieldValue::Other), name: None, input: None, message: None },
        StepDoc { kind: s("info"), name: None, input: None, message: None },
        StepDoc { kind: s("if"), name: None, input: None, message: None },
        tool_doc(Some(FieldValue::Other), s("x")),
    ];
    let w = validate_plan(&docs, &names(&[]));
    assert_eq!(
        w,
        vec![
            PlanValidationError::MissingField("type".to_string()),
            PlanValidationError::ToolInputMismatch {
                tool: "<unknown>".to_string(),
                reason: "Field 'type' must be a string".to_string()
            },
            PlanValidationError::MissingField("message".to_string()),
            PlanValidationError::UnknownType("if".to_string()),
            PlanValidationError::MissingField("name".to_string()),
        ]
    );
}

#[test]
fn hints_carry_json_examples() {
    let (msg, ex) = PlanValidationError::MissingField("input".to_string()).hint();
    assert_eq!(msg, "Missing required field.");
    assert_eq!(ex.as_deref(), Some("{\"input\":\"<required>\"}"));
    let (_, ex) = PlanValidationError::InvalidTool("a\"b".to_string()).hint();
    assert_eq!(ex.as_deref(), Some("{\"input\":\"...\",\"name\":\"a\\\"b\"}"));
    let (msg, ex) = PlanValidationError::StyleWarning("style".to_string()).hint();
    assert_eq!((msg.as_str(), ex), ("style", None));
}

#[test]
fn reply_is_cleaned_and_extracted() {
    let raw = "<think>{\"plan\": []}</think>\n```json\n### Plan\n{\"plan\": [{\"type\": \"info\", \"message\": \"a\"}]}\n```\n\n---\n";
    let answer = strip_reasoning(raw);
    assert_eq!(answer, "\n```json\n### Plan\n{\"plan\": [{\"type\": \"info\", \"message\": \"a\"}]}\n```\n\n---\n");
    let cleaned = clean_lines(&answer);
    assert_eq!(cleaned, "{\"plan\": [{\"type\": \"info\", \"message\": \"a\"}]}");
    assert_eq!(extract_plan_block("text {\"plan\" : [1] } more }"), "{\"plan\" : [1] }");
    assert_eq!(extract_plan_block("no plan here"), "");
}

#[test]
fn repairs_apply_to_known_capabilities() {
    let block = "{\"plan\": [{\"type\": \"reflect\", \"input\": \"x\"}, // note\n{\"type\": \"if\", \"message\": \"m\"}]}";
    let fixed = repair_plan_text(block, &names(&["reflect"]));
    assert_eq!(
        fixed,
        "{\"plan\": [{\"type\": \"tool\", \"name\": \"reflect\", \"input\": \"x\"}\n{\"type\": \"info\", \"message\": \"m\"}]}"
    );
    let text = plan_document_text("```\n{\"plan\": [{\"type\": \"run_command\", \"input\": \"ls\"}]}\n```", &names(&["run_command"]));
    assert_eq!(text, "{\"plan\": [{\"type\": \"tool\", \"name\": \"run_command\", \"input\": \"ls\"}]}");
}

#[test]
fn planner_turns_reply_into_plan() {
    let mut context = registry();
    let planner = LLMPlanner::new(LLMTool::new("m"));
    let reply = ToolResult::success(
        "<think>hmm</think>{\"plan\": [{\"type\": \"run_command\", \"input\": \"git status\"}, {\"type\": \"info\", \"message\": \"done\"}]}",
    );
    let plan = planner.finish(&mut context, &reply);
    assert_eq!(
        plan.steps,
        vec![
            PlanStep::ToolCall { name: "run_command".to_string(), input: "git status".to_string() },
            PlanStep::Info("done".to_string()),
        ]
    );
    let log = context.memory().read_all();
    assert_eq!(log[0], ("planner".to_string(), "--- DEBUG: Raw planner output ---".to_string()));
    assert_eq!(log[2].1, "--- DEBUG: Extracted JSON block ---");
}

#[test]
fn planner_falls_back_to_a_note() {
    let mut context = registry();
    let planner = LLMPlanner::new(LLMTool::new("m"));
    let plan = planner.finish(&mut context, &ToolResult::failure("down"));
    assert_eq!(plan.steps, vec![PlanStep::Info("Planner LLM failed.".to_string())]);
    let plan = planner.finish(&mut context, &ToolResult::success("no json at all"));
    assert_eq!(plan.steps, vec![PlanStep::Info("Failed to parse structured plan.".to_string())]);
    let plan = planner.finish(&mut context, &ToolResult::success("{\"plan\": [{\"type\": \"tool\"}]}"));
    assert_eq!(plan.steps, vec![PlanStep::Info("Planner JSON parse error.".to_string())]);
    let replanner = LLMReplanner::new(LLMTool::new("m"));
    let plan = replanner.finish(&mut context, &ToolResult::success("nothing"));
    assert_eq!(plan.steps, vec![PlanStep::Info("Failed to parse replanned output.".to_string())]);
}

#[test]
fn planner_prompt_and_guidance() {
    let mut context = registry();
    context.log("tool: x", "y");
    let planner = LLMPlanner::new(LLMTool::new("m"));
    let dump = planner.begin(&mut context);
    assert_eq!(dump, "[tool: x] y");
    let g = planner.guidance(&mut context, Err("offline".to_string()));
    assert!(g.examples.starts_with("// Complete git workflow example"));
    let last = context.memory().read_all().pop().unwrap();
    assert_eq!(last.1, "⚠️ GoalAnalyzer failed: offline, falling back to hardcoded examples");
    let prompt = planner.prompt("commit", &dump, &g);
    assert!(prompt.contains("GOAL: commit\n"));
    assert!(prompt.contains("MEMORY LOG:\n[tool: x] y\n"));
    let analysis = GoalAnalysis {
        goal_type: "git".to_string(),
        context_type: "initial_planning".to_string(),
        tool_sequence: vec![],
        examples: vec![
            PlanExample { description: "one".to_string(), json_plan: "{}".to_string() },
            PlanExample { description: "two".to_string(), json_plan: "[]".to_string() },
        ],
        output_format: "fmt".to_string(),
        critical_rules: vec!["r1".to_string(), "r2".to_string()],
    };
    let g = guidance_from(&analysis);
    assert_eq!(g.examples, "// one\n{}\n\n// two\n[]");
    assert_eq!(g.critical_rules, "r1\nr2");
}

#[test]
fn replanning_uses_latest_analysis_then_reflection() {
    let mut agent = BasicAgent::new(TaskModel::new("g"), Context::new(), None, None);
    let failed = ExecutionResult { success: false, output: None, errors: vec![] };
    let passed = ExecutionResult { success: true, output: None, errors: vec![] };
    assert_eq!(agent.replan_basis(&failed), None);
    agent.context.log("reflect", "r1");
    agent.context.log("reflect", "r2");
    assert_eq!(agent.replan_basis(&failed).as_deref(), Some("r2"));
    agent.context.log("error_analysis", "a1");
    agent.context.log("error_analysis", "a2");
    agent.context.log("reflect", "r3");
    assert_eq!(agent.replan_basis(&failed).as_deref(), Some("a2"));
    assert_eq!(agent.replan_basis(&passed), None);
    assert!(!agent.begin_replan());
    assert!(BasicAgent::followup(Plan { steps: vec![] }).is_none());
}

#[test]
fn simulation_reports_unregistered_capabilities() {
    let agent = BasicAgent::new(TaskModel::new("g"), Context::new().register_tool(FakeEchoTool), None, None);
    let plan = Plan {
        steps: vec![
            PlanStep::ToolCall { name: "build_docs".to_string(), input: "x".to_string() },
            PlanStep::ToolCall { name: "echo".to_string(), input: "y".to_string() },
            PlanStep::Info("z".to_string()),
        ],
    };
    let sim = agent.simulate(&plan);
    assert_eq!(sim.predicted_outcome, "Plan contains 3 step(s) and will attempt 1 tool call(s).");
    assert_eq!(
        sim.warnings,
        vec![
            "capability 'build_docs' not registered".to_string(),
            "[TOOL] echo - Echoes the input back with a prefix (hint: Freeform string input)".to_string(),
        ]
    );
}

#[test]
fn simulation_keeps_step_order() {
    let agent = BasicAgent::new(TaskModel::new("g"), Context::new().register_tool(FakeEchoTool), None, None);
    let plan = Plan {
        steps: vec![
            PlanStep::ToolCall { name: "echo".to_string(), input: "y".to_string() },
            PlanStep::ToolCall { name: "build_docs".to_string(), input: "x".to_string() },
        ],
    };
    let sim = agent.simulate(&plan);
    assert_eq!(sim.predicted_outcome, "Plan contains 2 step(s) and will attempt 1 tool call(s).");
    assert_eq!(
        sim.warnings,
        vec![
            "[TOOL] echo - Echoes the input back with a prefix (hint: Freeform string input)".to_string(),
            "capability 'build_docs' not registered".to_string(),
        ]
    );
}

#[test]
fn registry_stores_tool_metadata() {
    let context = Context::new().register_tool(RunCommandTool);
    let spec = context.get_tool("run_command").unwrap();
    assert_eq!(spec.input_hint, "Shell command to run (e.g. 'cargo check')");
    assert_eq!(spec.tags, vec!["shell", "command", "execution"]);
}

#[test]
fn last_line_keeps_its_carriage_return() {
    assert_eq!(clean_lines("a\r\n\nb\r"), "a\nb\r");
}

#[test]
fn static_plan_without_planner() {
    let mut agent = BasicAgent::new(TaskModel::new("tidy"), Context::new(), None, None);
    let plan = agent.begin_plan().unwrap();
    assert_eq!(plan.steps.len(), 5);
    assert_eq!(plan.steps[0], PlanStep::Info("Understand goal: tidy".to_string()));
    let mut agent = BasicAgent::new(TaskModel::new("tidy"), Context::new(), Some(LLMPlanner::new(LLMTool::default())), None);
    assert!(agent.begin_plan().is_none());
}

#[test]
fn capabilities_interpret_their_results() {
    let r = RunCommandTool.completed(" out\n", "err \n");
    assert_eq!(r.output.as_deref(), Some("out\nerr"));
    let r = GitStatusTool.completed(false, "", " fatal \n");
    assert_eq!(r.error.as_deref(), Some("Git error: fatal"));
    let r = LLMTool::new("m").reply(Some("  hello \n"));
    assert_eq!(r.output.as_deref(), Some("hello"));
    assert!(!LLMTool::new("m").reply(None).success);
    let e = ErrorAnalyzerTool::new(LLMTool::new("m"));
    assert!(e.interpret(&ToolResult::success("{\"fix_commands\": [\"x\"]}")).success);
    assert_eq!(
        e.interpret(&ToolResult::success("no fixes")).error.as_deref(),
        Some("LLM did not provide structured fix suggestions")
    );
    let refl = ReflectorTool::new(LLMTool::new("m"));
    assert!(refl.prompt("LOG").contains("## Memory Log\nLOG\n"));
    assert_eq!(
        refl.interpret(&ToolResult { success: true, output: None, error: None }).output.as_deref(),
        Some("(no output)")
    );
    assert_eq!(RunCommandTool.spec().tags, vec!["shell", "command", "execution"]);
    assert_eq!(FakeEchoTool.name(), "echo");
}

#[test]
fn goal_analysis_requests_and_replies() {
    let g = GoalAnalyzerTool::new(LLMTool::new("m"));
    assert_eq!(
        GoalAnalyzerTool::parse_request("commit|[log]|true"),
        Some(("commit".to_string(), "[log]".to_string(), true))
    );
    assert_eq!(GoalAnalyzerTool::parse_request("a|b"), None);
    assert_eq!(GoalAnalyzerTool::parse_request("a|b|c|d"), None);
    assert_eq!(GoalAnalyzerTool::context_type("x execution_error", true), "error_recovery");
    assert_eq!(GoalAnalyzerTool::context_type("fine", true), "continuation");
    assert_eq!(GoalAnalyzerTool::context_type("fine", false), "initial_planning");
    assert_eq!(
        g.extract_json("<think>{x}</think> sure: {\"goal_type\": \"g\"} done").unwrap(),
        "{\"goal_type\": \"g\"}"
    );
    assert_eq!(g.extract_json("}  {").unwrap_err(), "No JSON found in response: }  {");
    assert_eq!(g.analysis_failed(&Some("x\"y".to_string())), "LLM execution failed: Some(\"x\\\"y\")");
    assert!(g.prompt("goal", "log", false).contains("CONTEXT_TYPE: initial_planning\n"));
}

#[test]
fn context_registry_and_memory() {
    let context = Context::new()
        .register_tool(FakeEchoTool)
        .register_tool(FakeEchoTool)
        .with_llm("ollama")
        .enable_dry_run();
    assert_eq!(context.tool_names(), vec!["echo".to_string()]);
    assert!(context.has_tool("echo"));
    assert!(context.get_tool("llm").is_none());
    assert!(context.dry_run);
    let mut log = InMemoryLog::new();
    log.log("a", "1");
    log.log("b", "2");
    assert_eq!(log.dump(), "[a] 1\n[b] 2");
    let mut model = TaskModel::new("g");
    assert!(!model.is_complete());
    model.set_output("done".to_string());
    assert!(model.is_complete());
    assert_eq!(model.summary(), "Goal: g\nStatus: Completed");
}
