use agentic_runtime::agent::BasicAgent;
use agentic_runtime::context::Context;
use agentic_runtime::engine::{Execution, Request, is_declined};
use agentic_runtime::memory::Memory;
use agentic_runtime::model::TaskModel;
use agentic_runtime::plan::{Plan, PlanStep};
use agentic_runtime::tools::{FakeEchoTool, ToolResult};

fn tool(name: &str, input: &str) -> PlanStep {
    PlanStep::ToolCall { name: name.to_string(), input: input.to_string() }
}

fn names(list: &[&str]) -> Vec<String> {
    list.iter().map(|s| s.to_string()).collect()
}

#[test]
fn info_and_echo_succeed() {
    let plan = Plan { steps: vec![PlanStep::Info("start".to_string()), tool("echo", "hi")] };
    let mut exec = Execution::start(plan, names(&["echo"]));
    assert_eq!(
        exec.request(),
        Request::Confirm { name: "echo".to_string(), input: "hi".to_string() }
    );
    exec.reply("y");
    assert_eq!(
        exec.request(),
        Request::Invoke { name: "echo".to_string(), input: "hi".to_string() }
    );
    exec.deliver(&FakeEchoTool.execute("hi"));
    assert_eq!(exec.request(), Request::Done);
    let (result, entries) = exec.finish();
    assert!(result.success);
    assert_eq!(result.output.as_deref(), Some("[INFO] start\nEchoed: hi"));
    assert!(result.errors.is_empty());
    assert_eq!(entries[0], ("info".to_string(), "start".to_string()));
    assert_eq!(entries[1].0, "tool: echo");
    assert_eq!(entries[1].1, "[input] hi\n[output] Echoed: hi");
}

#[test]
fn unregistered_capability_fails() {
    let plan = Plan { steps: vec![tool("build_docs", "x")] };
    let mut exec = Execution::start(plan, names(&["echo"]));
    exec.reply("");
    assert!(exec.is_done());
    let (result, _) = exec.finish();
    assert!(!result.success);
    assert_eq!(result.errors, vec!["capability not found: build_docs".to_string()]);
}

#[test]
fn reflection_failure_is_not_critical() {
    let plan = Plan { steps: vec![tool("reflect", "summary")] };
    let mut exec = Execution::start(plan, names(&["reflect", "analyze_error"]));
    exec.reply("Y");
    exec.deliver(&ToolResult::failure("LLM failed to generate reflection."));
    assert!(exec.is_done());
    let (result, entries) = exec.finish();
    assert!(result.success);
    assert_eq!(result.errors, vec!["LLM failed to generate reflection.".to_string()]);
    assert!(entries.contains(&(
        "execution_error".to_string(),
        "Tool 'reflect' failed: LLM failed to generate reflection.".to_string()
    )));
}

#[test]
fn critical_failure_asks_for_analysis() {
    let plan = Plan { steps: vec![tool("run_command", "cargo test"), PlanStep::Info("after".to_string())] };
    let mut exec = Execution::start(plan, names(&["run_command", "analyze_error"]));
    exec.reply("y");
    exec.deliver(&ToolResult::failure("exit 101"));
    assert_eq!(exec.request(), Request::Analyze { input: "exit 101".to_string() });
    exec.deliver(&ToolResult::success("{\"fix_commands\": []}"));
    assert!(exec.is_done());
    let (result, entries) = exec.finish();
    assert!(!result.success);
    assert_eq!(result.errors, vec!["exit 101".to_string()]);
    assert_eq!(result.output.as_deref(), Some("[INFO] after"));
    assert!(entries.contains(&("error_analysis".to_string(), "{\"fix_commands\": []}".to_string())));
}

#[test]
fn failure_without_error_text_is_unknown() {
    let plan = Plan { steps: vec![tool("deploy", "now")] };
    let mut exec = Execution::start(plan, names(&["deploy"]));
    exec.reply("y");
    exec.deliver(&ToolResult { success: false, output: None, error: None });
    let (result, _) = exec.finish();
    assert!(!result.success);
    assert_eq!(result.errors, vec!["Unknown error".to_string()]);
}

#[test]
fn output_reference_resolves_to_latest_output() {
    let plan = Plan {
        steps: vec![
            tool("echo", "a"),
            tool("echo", "b"),
            tool("echo", "$output[echo]"),
            tool("echo", "$output[run_command]"),
        ],
    };
    let mut exec = Execution::start(plan, names(&["echo"]));
    for input in ["a", "b"] {
        exec.reply("y");
        exec.deliver(&FakeEchoTool.execute(input));
    }
    assert_eq!(
        exec.request(),
        Request::Confirm { name: "echo".to_string(), input: "Echoed: b".to_string() }
    );
    exec.reply("y");
    exec.deliver(&FakeEchoTool.execute("Echoed: b"));
    assert_eq!(
        exec.request(),
        Request::Confirm {
            name: "echo".to_string(),
            input: "(missing output for 'run_command')".to_string()
        }
    );
}

#[test]
fn declined_step_is_skipped() {
    let plan = Plan { steps: vec![tool("build_docs", "x"), PlanStep::Info("end".to_string())] };
    let mut exec = Execution::start(plan, names(&[]));
    exec.reply(" n \n");
    assert!(exec.is_done());
    let (result, _) = exec.finish();
    assert!(result.success);
    assert!(result.errors.is_empty());
    assert_eq!(result.output.as_deref(), Some("[INFO] end"));
    assert!(is_declined("N"));
    assert!(!is_declined("no"));
}

#[test]
fn agent_records_pass_in_log_and_model() {
    let context = Context::new().register_tool(FakeEchoTool);
    let mut agent = BasicAgent::new(TaskModel::new("say hi"), context, None, None);
    let plan = Plan { steps: vec![PlanStep::Info("start".to_string()), tool("echo", "hi")] };
    let mut exec = agent.begin_execution(plan);
    exec.reply("y");
    exec.deliver(&FakeEchoTool.execute("hi"));
    let result = agent.end_execution(&exec);
    assert!(result.success);
    assert_eq!(agent.model.output.as_deref(), Some("[INFO] start\nEchoed: hi"));
    assert_eq!(agent.model.current_state, "Completed");
    let log = agent.context.memory().read_all();
    assert_eq!(log.len(), 2);
    assert_eq!(log[1].0, "tool: echo");
    assert_eq!(agent.evaluate(&result).score, 90);
}
