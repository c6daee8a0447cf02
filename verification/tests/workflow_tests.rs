use semantic_browser::llm::provider::{FunctionCall, ToolCall};
use semantic_browser::llm::tools::ToolRegistry;
use semantic_browser::llm::workflow::{
    attempt_step, evaluate_condition, get_step_name, workflow_runnable, Condition, RetryConfig, StepProgress,
    WebWorkflow, WorkflowAction, WorkflowError, WorkflowExecutor, WorkflowRun, WorkflowStatus, WorkflowStep,
};
use semantic_browser::strmap::StrMap;

fn tool(name: &str) -> ToolCall {
    ToolCall {
        id: format!("call_{}", name),
        tool_type: "function".to_string(),
        function: FunctionCall { name: name.to_string(), arguments: "{}".to_string() },
    }
}

fn tool_step(name: &str) -> WorkflowStep {
    WorkflowStep::ToolCall { name: name.to_string(), tool_call: tool(name), timeout_ms: None }
}

fn set_step(name: &str, var: &str, value: &str) -> WorkflowStep {
    WorkflowStep::SetVariable { name: name.to_string(), variable: var.to_string(), value: value.to_string() }
}

/// Drives a run, answering tool calls from `answers` in order (a missing answer is
/// "Browser not available") and recording sleeps.
fn drive(mut run: WorkflowRun, answers: &mut Vec<Result<String, WorkflowError>>, sleeps: &mut Vec<u64>) -> WorkflowRun {
    for _ in 0..1000 {
        match run.next_action() {
            WorkflowAction::CallTool(_) => {
                let outcome = if answers.is_empty() { Err(WorkflowError::BrowserNotAvailable) } else { answers.remove(0) };
                run.on_tool_result(outcome);
            }
            WorkflowAction::Sleep(ms) => {
                sleeps.push(ms);
                run.on_slept();
            }
            WorkflowAction::Continue => {}
            WorkflowAction::Finished => return run,
        }
    }
    panic!("run did not finish");
}

#[test]
fn workflow_runs_steps_in_order_and_completes() {
    let wf = WebWorkflow::builder("demo")
        .id("wf-1")
        .set_variable("set name", "name", "\"Ann\"".to_string())
        .step(WorkflowStep::ConditionalBranch {
            name: "check".to_string(),
            condition: Condition::Equals { variable: "name".to_string(), value: "\"Ann\"".to_string() },
            then_steps: vec![],
            else_steps: vec![],
        })
        .tool_call("fetch", tool("navigate_to"))
        .build();
    assert_eq!(wf.id, "wf-1");
    let executor = WorkflowExecutor::new(ToolRegistry::new());
    let run = executor.execute_workflow(wf);
    let mut answers = vec![Ok("page".to_string())];
    let mut sleeps = vec![];
    let run = drive(run, &mut answers, &mut sleeps);
    let st = &run.state;
    assert_eq!(st.status, WorkflowStatus::Completed);
    assert_eq!(st.step_results.len(), 3);
    assert_eq!(st.step_results[0].step_name, "set name");
    assert_eq!(st.step_results[0].output, "\"Set name = String(\\\"Ann\\\")\"");
    assert_eq!(st.step_results[1].output, "true");
    assert_eq!(st.step_results[2].output, "\"page\"");
    assert!(st.step_results.iter().all(|r| r.success));
    assert_eq!(st.variables.get("name"), Some(&"\"Ann\"".to_string()));
    assert_eq!(st.current_step, 2);
    assert!(sleeps.is_empty());
    let counts = st.progress_counts();
    assert_eq!((counts.total_steps, counts.successful_steps, counts.failed_steps), (3, 3, 0));
}

#[test]
fn failing_tool_is_retried_with_backoff_then_fails_the_run() {
    let wf = WebWorkflow::builder("w").tool_call("click", tool("click_element")).tool_call("never", tool("x")).build();
    assert!(wf.id.starts_with("workflow_"));
    let executor = WorkflowExecutor::new(ToolRegistry::new());
    let run = executor.execute_workflow(wf);
    let mut answers = vec![];
    let mut sleeps = vec![];
    let run = drive(run, &mut answers, &mut sleeps);
    assert_eq!(sleeps, vec![1000, 2000]);
    let st = &run.state;
    assert_eq!(st.status, WorkflowStatus::Failed);
    assert_eq!(st.step_results.len(), 1);
    assert!(!st.step_results[0].success);
    assert_eq!(st.step_results[0].output, "null");
    assert_eq!(st.step_results[0].error.as_deref(), Some("Max retries exceeded for step: click"));
    assert_eq!(st.progress_counts().failed_steps, 1);
}

#[test]
fn retry_succeeds_on_a_later_attempt() {
    let wf = WebWorkflow::builder("w").tool_call("t", tool("t")).build();
    let executor = WorkflowExecutor::new(ToolRegistry::new());
    let retry = RetryConfig { max_attempts: 4, backoff_ms: 10, exponential_backoff: false };
    let run = executor.execute_workflow_with_retry(wf, &retry);
    let mut answers = vec![Err(WorkflowError::BrowserNotAvailable), Ok("ok".to_string())];
    let mut sleeps = vec![];
    let run = drive(run, &mut answers, &mut sleeps);
    assert_eq!(sleeps, vec![10]);
    assert_eq!(run.state.status, WorkflowStatus::Completed);
    assert_eq!(run.state.step_results[0].output, "\"ok\"");
}

#[test]
fn zero_attempts_fail_without_running() {
    let wf = WebWorkflow::builder("w").tool_call("t", tool("t")).build();
    let executor = WorkflowExecutor::new(ToolRegistry::new());
    let retry = RetryConfig { max_attempts: 0, backoff_ms: 10, exponential_backoff: true };
    let mut answers = vec![Ok("unused".to_string())];
    let mut sleeps = vec![];
    let run = drive(executor.execute_workflow_with_retry(wf, &retry), &mut answers, &mut sleeps);
    assert_eq!(run.state.status, WorkflowStatus::Failed);
    assert_eq!(answers.len(), 1);
    assert_eq!(run.state.step_results[0].error.as_deref(), Some("Max retries exceeded for step: t"));
}

#[test]
fn loop_sets_its_variable_and_collects_outputs() {
    let step = WorkflowStep::Loop {
        name: "each".to_string(),
        variable: "item".to_string(),
        items: vec!["1".to_string(), "2".to_string(), "3".to_string()],
        loop_steps: vec![tool_step("a"), set_step("s", "seen", "true"), WorkflowStep::Wait {
            name: "w".to_string(),
            condition: None,
            timeout_ms: 5,
        }],
        max_iterations: Some(2),
    };
    let mut vars = StrMap::new();
    let outs = vec![Ok("x".to_string()), Ok("y".to_string())];
    match attempt_step(&step, &mut vars, &outs) {
        StepProgress::Done { result: Ok(out), pause_ms: 0 } => assert_eq!(
            out,
            "[[\"x\",\"Set seen\",\"Step skipped in loop\"],[\"y\",\"Set seen\",\"Step skipped in loop\"]]"
        ),
        _ => panic!("loop should finish"),
    }
    assert_eq!(vars.get("item"), Some(&"2".to_string()));
    assert_eq!(vars.get("seen"), Some(&"true".to_string()));
    // With only one outcome the second iteration needs a tool call.
    let mut vars2 = StrMap::new();
    match attempt_step(&step, &mut vars2, &vec![Ok("x".to_string())]) {
        StepProgress::NeedTool(t) => assert_eq!(t.function.name, "a"),
        _ => panic!("a tool call is needed"),
    }
}

#[test]
fn loop_stops_at_a_failed_tool_call() {
    let step = WorkflowStep::Loop {
        name: "each".to_string(),
        variable: "item".to_string(),
        items: vec!["1".to_string(), "2".to_string()],
        loop_steps: vec![tool_step("a")],
        max_iterations: None,
    };
    let mut vars = StrMap::new();
    let outs = vec![Ok("x".to_string()), Err(WorkflowError::BrowserNotAvailable)];
    match attempt_step(&step, &mut vars, &outs) {
        StepProgress::Done { result: Err(e), .. } => assert_eq!(e.message(), "Browser not available"),
        _ => panic!("loop should fail"),
    }
    assert_eq!(vars.get("item"), Some(&"2".to_string()));
}

#[test]
fn error_handler_runs_only_for_a_pending_error() {
    let step = WorkflowStep::ErrorHandler {
        name: "h".to_string(),
        error_variable: "err".to_string(),
        handler_steps: vec![set_step("s", "fixed", "1"), tool_step("t")],
        retry_count: Some(2),
    };
    let mut vars = StrMap::new();
    match attempt_step(&step, &mut vars, &vec![]) {
        StepProgress::Done { result: Ok(out), .. } => assert_eq!(out, "\"No error to handle\""),
        _ => panic!(),
    }
    vars.insert("err".to_string(), "null".to_string());
    match attempt_step(&step, &mut vars, &vec![]) {
        StepProgress::Done { result: Ok(out), .. } => assert_eq!(out, "\"No error to handle\""),
        _ => panic!(),
    }
    vars.insert("err".to_string(), "\"boom\"".to_string());
    match attempt_step(&step, &mut vars, &vec![Ok("done".to_string())]) {
        StepProgress::Done { result: Ok(out), .. } => assert_eq!(out, "[\"Set fixed\",\"done\"]"),
        _ => panic!(),
    }
    // A failure in the first attempt makes the handler fail, even if a later
    // attempt goes through.
    let mut vars3 = StrMap::new();
    vars3.insert("err".to_string(), "1".to_string());
    let outs = vec![Err(WorkflowError::LLMError("x".to_string())), Ok("ok".to_string())];
    match attempt_step(&step, &mut vars3, &outs) {
        StepProgress::Done { result: Err(e), .. } => assert_eq!(e.message(), "LLM provider error: x"),
        _ => panic!(),
    }
    let none = WorkflowStep::ErrorHandler {
        name: "h".to_string(),
        error_variable: "err".to_string(),
        handler_steps: vec![],
        retry_count: Some(0),
    };
    match attempt_step(&none, &mut vars3, &vec![]) {
        StepProgress::Done { result: Err(e), .. } => {
            assert_eq!(e.message(), "Step execution failed: error_handler - All retry attempts failed")
        }
        _ => panic!(),
    }
}

#[test]
fn parallel_groups_run_in_order_without_setting_variables() {
    let step = WorkflowStep::Parallel {
        name: "p".to_string(),
        parallel_steps: vec![vec![tool_step("a"), set_step("s", "v", "\"z\"")], vec![WorkflowStep::Wait {
            name: "w".to_string(),
            condition: None,
            timeout_ms: 1,
        }]],
        max_concurrent: None,
    };
    let mut vars = StrMap::new();
    match attempt_step(&step, &mut vars, &vec![Ok("r".to_string())]) {
        StepProgress::Done { result: Ok(out), .. } => {
            assert_eq!(out, "[\"r\",\"Set v = String(\\\"z\\\")\",\"Parallel step executed\"]")
        }
        _ => panic!(),
    }
    assert!(vars.get("v").is_none());
    let bad = WorkflowStep::Parallel { name: "p".to_string(), parallel_steps: vec![], max_concurrent: Some(0) };
    assert!(!workflow_runnable(&vec![bad]));
    assert!(workflow_runnable(&vec![step]));
}

#[test]
fn wait_pauses_or_fails_on_unsupported_conditions() {
    let mut vars = StrMap::new();
    let wait = WorkflowStep::Wait { name: "w".to_string(), condition: None, timeout_ms: 250 };
    match attempt_step(&wait, &mut vars, &vec![]) {
        StepProgress::Done { result: Ok(out), pause_ms } => {
            assert_eq!(out, "\"Timeout reached\"");
            assert_eq!(pause_ms, 250);
        }
        _ => panic!(),
    }
    let js = WorkflowStep::Wait {
        name: "w".to_string(),
        condition: Some(Condition::JavaScript { expression: "a \"b\"".to_string() }),
        timeout_ms: 250,
    };
    match attempt_step(&js, &mut vars, &vec![]) {
        StepProgress::Done { result: Err(e), pause_ms: 0 } => assert_eq!(
            e.message(),
            "Conditional evaluation failed: Unsupported condition: JavaScript { expression: \"a \\\"b\\\"\" }"
        ),
        _ => panic!(),
    }
    let zero = WorkflowStep::Wait {
        name: "w".to_string(),
        condition: Some(Condition::HttpStatus { expected: 200 }),
        timeout_ms: 0,
    };
    match attempt_step(&zero, &mut vars, &vec![]) {
        StepProgress::Done { result: Ok(out), pause_ms: 0 } => assert_eq!(out, "\"Timeout reached\""),
        _ => panic!(),
    }
}

#[test]
fn conditions_read_variables() {
    let mut vars = StrMap::new();
    vars.insert("title".to_string(), "\"Hello world\"".to_string());
    vars.insert("n".to_string(), "3".to_string());
    let c = |c: Condition| evaluate_condition(&c, &vars).map_err(|e| e.message());
    assert_eq!(c(Condition::Exists { variable: "n".to_string() }), Ok(true));
    assert_eq!(c(Condition::Exists { variable: "m".to_string() }), Ok(false));
    assert_eq!(c(Condition::Equals { variable: "n".to_string(), value: "3".to_string() }), Ok(true));
    assert_eq!(c(Condition::Equals { variable: "n".to_string(), value: "4".to_string() }), Ok(false));
    assert_eq!(c(Condition::Contains { variable: "title".to_string(), substring: "lo w".to_string() }), Ok(true));
    assert_eq!(c(Condition::Contains { variable: "n".to_string(), substring: "3".to_string() }), Ok(false));
    assert_eq!(
        c(Condition::HttpStatus { expected: 404 }),
        Err("Conditional evaluation failed: Unsupported condition: HttpStatus { expected: 404 }".to_string())
    );
    assert_eq!(
        c(Condition::ElementExists { selector: "#a".to_string() }),
        Err("Conditional evaluation failed: Unsupported condition: ElementExists { selector: \"#a\" }".to_string())
    );
}

#[test]
fn resumed_run_starts_at_the_current_step_without_retries() {
    let wf = WebWorkflow::builder("w").tool_call("a", tool("a")).tool_call("b", tool("b")).build();
    let executor = WorkflowExecutor::new(ToolRegistry::new());
    let mut answers = vec![Ok("first".to_string())];
    let mut sleeps = vec![];
    let run = drive(executor.execute_workflow(wf), &mut answers, &mut sleeps);
    assert_eq!(run.state.status, WorkflowStatus::Failed);
    assert_eq!(run.state.current_step, 1);
    let state = run.state;
    let wf2 = WebWorkflow::builder("w").tool_call("a", tool("a")).tool_call("b", tool("b")).build();
    let resumed = WorkflowRun::resume(state, wf2);
    let mut answers = vec![Err(WorkflowError::StepFailed { step_name: "b".to_string(), error: "down".to_string() })];
    let mut sleeps = vec![];
    let run = drive(resumed, &mut answers, &mut sleeps);
    assert!(sleeps.is_empty());
    assert_eq!(run.state.status, WorkflowStatus::Failed);
    assert_eq!(run.state.step_results.len(), 3);
    assert_eq!(run.state.step_results[2].error.as_deref(), Some("Step execution failed: b - down"));
    assert_eq!(get_step_name(&run.steps[1]), "b");
}

#[test]
fn resumed_run_reruns_the_current_step_then_goes_on() {
    let build = || WebWorkflow::builder("w").tool_call("a", tool("a")).tool_call("b", tool("b")).tool_call("c", tool("c")).build();
    let executor = WorkflowExecutor::new(ToolRegistry::new());
    let mut answers = vec![Ok("first".to_string())];
    let mut sleeps = vec![];
    let run = drive(executor.execute_workflow(build()), &mut answers, &mut sleeps);
    assert_eq!(run.state.current_step, 1);
    let mut answers = vec![Ok("second".to_string()), Ok("third".to_string())];
    let mut sleeps = vec![];
    let run = drive(WorkflowRun::resume(run.state, build()), &mut answers, &mut sleeps);
    assert!(answers.is_empty());
    assert_eq!(run.state.status, WorkflowStatus::Completed);
    assert_eq!(run.state.step_results.len(), 4);
    assert_eq!(run.state.step_results[2].step_name, "b");
    assert_eq!(run.state.step_results[3].output, "\"third\"");
}

#[test]
fn conditional_branch_runs_the_chosen_steps() {
    let branch = WorkflowStep::ConditionalBranch {
        name: "check".to_string(),
        condition: Condition::Exists { variable: "flag".to_string() },
        then_steps: vec![set_step("yes", "side", "\"then\"")],
        else_steps: vec![set_step("no", "side", "\"else\"")],
    };
    let mut vars: StrMap<String> = StrMap::new();
    match attempt_step(&branch, &mut vars, &vec![]) {
        StepProgress::Done { result, pause_ms } => {
            assert_eq!(result.unwrap(), "false");
            assert_eq!(pause_ms, 0);
        }
        _ => panic!("branch needs no tool"),
    }
    assert_eq!(vars.get("side"), Some(&"\"else\"".to_string()));
    vars.insert("flag".to_string(), "true".to_string());
    match attempt_step(&branch, &mut vars, &vec![]) {
        StepProgress::Done { result, .. } => assert_eq!(result.unwrap(), "true"),
        _ => panic!("branch needs no tool"),
    }
    assert_eq!(vars.get("side"), Some(&"\"then\"".to_string()));
}

#[test]
fn conditional_branch_asks_for_the_tools_of_the_chosen_steps() {
    let branch = WorkflowStep::ConditionalBranch {
        name: "check".to_string(),
        condition: Condition::Exists { variable: "missing".to_string() },
        then_steps: vec![],
        else_steps: vec![tool_step("fetch")],
    };
    let mut vars: StrMap<String> = StrMap::new();
    match attempt_step(&branch, &mut vars, &vec![]) {
        StepProgress::NeedTool(t) => assert_eq!(t.function.name, "fetch"),
        _ => panic!("the else side calls a tool"),
    }
}

#[test]
fn backoff_fit_check() {
    assert!(RetryConfig::default().backoffs_fit_check());
    assert!(RetryConfig { max_attempts: 65, backoff_ms: 1, exponential_backoff: true }.backoffs_fit_check());
    assert!(!RetryConfig { max_attempts: 66, backoff_ms: 1, exponential_backoff: true }.backoffs_fit_check());
    assert!(!RetryConfig { max_attempts: 3, backoff_ms: u64::MAX, exponential_backoff: true }.backoffs_fit_check());
    assert!(RetryConfig { max_attempts: 1000, backoff_ms: u64::MAX, exponential_backoff: false }.backoffs_fit_check());
}

#[test]
fn equals_compares_json_values_not_texts() {
    let mut vars: StrMap<String> = StrMap::new();
    vars.insert("obj".to_string(), "{\"a\":1,\"b\":[true,null]}".to_string());
    vars.insert("n".to_string(), "3".to_string());
    let eq = |variable: &str, value: &str| {
        evaluate_condition(&Condition::Equals { variable: variable.to_string(), value: value.to_string() }, &vars).unwrap()
    };
    assert!(eq("obj", "{ \"b\": [true, null], \"a\": 1 }"));
    assert!(!eq("obj", "{\"a\":2,\"b\":[true,null]}"));
    assert!(eq("n", " 3 "));
    assert!(!eq("n", "\"3\""));
    assert!(!eq("missing", "3"));
}

#[test]
fn step_results_carry_the_time_reported_for_each_step() {
    let wf = WebWorkflow::builder("w").tool_call("a", tool("a")).tool_call("b", tool("b")).build();
    let executor = WorkflowExecutor::new(ToolRegistry::new());
    let mut run = executor.execute_workflow(wf);
    let mut answers = vec![Ok("x".to_string()), Ok("y".to_string())];
    let mut tick: u64 = 0;
    loop {
        tick += 1;
        match run.next_action() {
            WorkflowAction::CallTool(_) => {
                run.note_elapsed(10 * tick);
                run.on_tool_result(answers.remove(0));
            }
            WorkflowAction::Sleep(_) => run.on_slept(),
            WorkflowAction::Continue => {}
            WorkflowAction::Finished => break,
        }
    }
    let times: Vec<u64> = run.state.step_results.iter().map(|r| r.execution_time_ms).collect();
    assert_eq!(run.state.status, WorkflowStatus::Completed);
    assert_eq!(times.len(), 2);
    assert!(times[0] > 0 && times[1] > 0);
    assert_eq!(run.step_ms, 0);
    run.note_elapsed(u64::MAX);
    run.note_elapsed(5);
    assert_eq!(run.step_ms, u64::MAX);
}
