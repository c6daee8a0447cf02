use semantic_browser::llm::agent::{
    default_system_prompt, detached_tool_observation, final_answer, parse_agent_reply, AgentDecision, AgentRun,
    AgentTask,
};
use semantic_browser::llm::http::{classify_sse_line, SseBuffer, SseLine};
use semantic_browser::llm::ollama::OllamaConfig;
use semantic_browser::llm::provider::{
    ContentBlock, ImageContent, ImageSource, Message, MessageContent, Role, TokenUsage,
};
use semantic_browser::llm::tools::ToolRegistry;
use semantic_browser::llm::wire::{anthropic_conversation, image_url_text, openai_role};
use semantic_browser::llm::workflow::{RetryAction, RetryConfig};

#[test]
fn test_tool_registry_creation() {
    let registry = ToolRegistry::with_browser_tools();
    let tools = registry.tool_names();

    assert!(!tools.is_empty());
    assert!(registry.get_tool("navigate_to").is_some());
    assert!(registry.get_tool("fill_form_field").is_some());
    assert!(registry.get_tool("click_element").is_some());
}

#[test]
fn test_tools_include_memory_and_ml() {
    let registry = ToolRegistry::with_browser_tools();
    let tool_names = registry.tool_names();

    assert!(tool_names.contains(&"query_kg".to_string()));
    assert!(tool_names.contains(&"predict_link".to_string()));
    assert!(tool_names.contains(&"store_memory".to_string()));
}

#[test]
fn browser_tools_are_sixteen_well_formed_functions() {
    let registry = ToolRegistry::with_browser_tools();
    assert_eq!(registry.tool_names().len(), 16);
    let nav = registry.get_tool("navigate_to").unwrap();
    assert_eq!(nav.tool_type, "function");
    assert_eq!(nav.function.parameters.required, vec!["url".to_string()]);
    let predict = registry.get_tool("predict_link").unwrap();
    let kind = predict.function.parameters.properties.get("prediction_type").unwrap();
    assert_eq!(
        kind.enum_values,
        Some(vec!["tail".to_string(), "head".to_string(), "relation".to_string()])
    );
    assert_eq!(predict.function.parameters.properties.len(), 5);
    assert!(registry.get_tool("fly_away").is_none());
}

#[test]
fn registering_a_tool_replaces_one_of_the_same_name() {
    let mut registry = ToolRegistry::new();
    let mut t = ToolRegistry::with_browser_tools().get_tool("query_kg").unwrap().clone();
    registry.register(t.clone());
    t.function.description = "changed".to_string();
    registry.register(t);
    assert_eq!(registry.tool_names().len(), 1);
    assert_eq!(registry.get_tool("query_kg").unwrap().function.description, "changed");
}

#[test]
fn message_constructors() {
    let m = Message::system("be brief");
    assert_eq!(m.role, Role::System);
    assert_eq!(m.text_content(), Some("be brief"));
    assert!(!m.has_vision_content());
    let m = Message::user(String::from("hi"));
    assert_eq!(m.role, Role::User);
    let prompt = String::from("p");
    assert_eq!(Message::assistant(&prompt).text_content(), Some("p"));
    let m = Message::tool_response("done", "call-1".to_string());
    assert_eq!(m.role, Role::Tool);
    assert_eq!(m.tool_call_id, Some("call-1".to_string()));

    let m = Message::user_with_image("look", "https://x/img.png");
    assert!(m.has_vision_content());
    assert_eq!(m.text_content(), None);
    assert_eq!(m.content.to_string(), "look\n[Image]");
    let m = Message::user_image_base64("image/png", "AAAA");
    assert_eq!(m.content.to_string(), "[Image]");
    let m = Message::user_image("https://x/y.jpg");
    match &m.content {
        MessageContent::Blocks(b) => assert_eq!(b.len(), 1),
        MessageContent::Text(_) => panic!("expected blocks"),
    }
    let u = TokenUsage::default();
    assert_eq!((u.prompt_tokens, u.completion_tokens, u.total_tokens), (0, 0, 0));
}

#[test]
fn agent_task_builder() {
    let task = AgentTask::new("find the price").with_context("shop.example").with_max_iterations(3);
    assert_eq!(task.goal, "find the price");
    assert_eq!(task.context, Some("shop.example".to_string()));
    assert_eq!(task.max_iterations, 3);
    assert_eq!(AgentTask::new("x").max_iterations, 10);
}

#[test]
fn agent_reply_parsing() {
    let step = parse_agent_reply("THOUGHT: look it up\nACTION: navigate_to\nACTION INPUT: {\"url\": \"https://e.com\"}");
    assert_eq!(step.thought, "look it up");
    assert_eq!(step.action, Some("navigate_to".to_string()));
    assert_eq!(step.action_input, Some("{\"url\": \"https://e.com\"}".to_string()));

    let step = parse_agent_reply("just text");
    assert_eq!(step.thought, "just text");
    assert_eq!(step.action, None);

    let step = parse_agent_reply("  THOUGHT:   spaced  \r\nACTION: FINISH\nACTION INPUT: \"42\"\n");
    assert_eq!(step.thought, "spaced");
    assert_eq!(final_answer(&step), "42");

    let step = parse_agent_reply("THOUGHT: t\nACTION: finish\nACTION INPUT: plain words");
    assert_eq!(final_answer(&step), "plain words");
    let step = parse_agent_reply("THOUGHT: t\nACTION: finish\nACTION INPUT: {\"a\": 1}");
    assert_eq!(final_answer(&step), "t");
}

#[test]
fn agent_loop_decisions() {
    let task = AgentTask::new("goal").with_max_iterations(1);
    let mut run = AgentRun::start("sys", &task);
    assert_eq!(run.messages.len(), 2);
    assert_eq!(run.messages[1].text_content(), Some("TASK: goal"));
    assert!(run.begin_turn().is_none());
    match run.on_reply("THOUGHT: go\nACTION: navigate_to\nACTION INPUT: {\"url\": \"u\"}") {
        AgentDecision::UseTool { name, input } => {
            assert_eq!(name, "navigate_to");
            let obs = detached_tool_observation(&name, input.as_deref());
            assert_eq!(obs, "Successfully navigated to: u");
            run.on_observation("reply", &obs);
        }
        other => panic!("unexpected {:?}", other),
    }
    assert_eq!(run.messages.len(), 4);
    assert_eq!(run.messages[3].text_content(), Some("OBSERVATION: Successfully navigated to: u"));
    let gave_up = run.begin_turn().expect("budget used up");
    assert!(!gave_up.success);
    assert_eq!(gave_up.result, "Maximum iterations reached");
    assert_eq!(gave_up.iterations, 1);
    assert_eq!(gave_up.error, Some("Max iterations exceeded".to_string()));

    let mut run = AgentRun::start("sys", &AgentTask::new("g").with_context("c"));
    assert_eq!(run.messages[1].text_content(), Some("TASK: g\n\nCONTEXT: c"));
    assert!(run.begin_turn().is_none());
    match run.on_reply("THOUGHT: done\nACTION: Finish\nACTION INPUT: \"the answer\"") {
        AgentDecision::Finish(resp) => {
            assert!(resp.success);
            assert_eq!(resp.result, "the answer");
            assert_eq!(resp.iterations, 1);
        }
        other => panic!("unexpected {:?}", other),
    }
    assert!(matches!(run.on_reply("no action here"), AgentDecision::Continue));
    assert_eq!(run.messages.len(), 3);
}

#[test]
fn detached_tools_report_simulated_results() {
    assert_eq!(detached_tool_observation("click_element", None), "Clicked element: unknown");
    assert_eq!(detached_tool_observation("click_element", Some("{\"selector\": \"#go\"}")), "Clicked element: #go");
    assert_eq!(detached_tool_observation("query_kg", None), "KG not available - enable onnx-integration feature");
    assert_eq!(detached_tool_observation("teleport", None), "Tool 'teleport' not implemented");
    assert!(default_system_prompt().starts_with("You are an autonomous web browsing agent"));
}

#[test]
fn retry_policy() {
    let c = RetryConfig::default();
    assert_eq!((c.max_attempts, c.backoff_ms, c.exponential_backoff), (3, 1000, true));
    assert_eq!(c.after_failure(1), RetryAction::Wait(1000));
    assert_eq!(c.after_failure(2), RetryAction::Wait(2000));
    assert_eq!(c.after_failure(3), RetryAction::GiveUp);
    let flat = RetryConfig { max_attempts: 5, backoff_ms: 250, exponential_backoff: false };
    assert_eq!(flat.backoff(4), 250);
    assert_eq!(RetryConfig { max_attempts: 70, backoff_ms: 1, exponential_backoff: true }.backoff(64), 1u64 << 63);
    assert!(!c.allows_attempt(0));
    assert!(c.allows_attempt(3));
    assert!(!c.allows_attempt(4));
}

#[test]
fn provider_wire_layout() {
    assert_eq!(openai_role(Role::Tool), "assistant");
    assert_eq!(openai_role(Role::System), "system");
    let src = ImageSource::Base64 { media_type: "image/png".to_string(), data: "QUJD".to_string() };
    assert_eq!(image_url_text(&src), "data:image/png;base64,QUJD");
    assert_eq!(image_url_text(&ImageSource::Url("https://i".to_string())), "https://i");

    let messages = vec![
        Message::system("a"),
        Message::user("q"),
        Message::system("b"),
        Message::assistant("r"),
        Message::tool_response("t", "id".to_string()),
        Message::user_vision(vec![ContentBlock::Image(ImageContent { image_url: src })]),
    ];
    let conv = anthropic_conversation(&messages);
    assert_eq!(conv.system, Some("a\nb".to_string()));
    let turns: Vec<(&str, usize)> = conv.turns.iter().map(|(r, i)| (r.as_str(), *i)).collect();
    assert_eq!(turns, vec![("user", 1), ("assistant", 3), ("user", 4), ("user", 5)]);
}

#[test]
fn sse_framing() {
    let mut buf = SseBuffer::new();
    buf.feed("data: {\"a\":1}\n\nda");
    assert_eq!(buf.next_line(), Some("data: {\"a\":1}".to_string()));
    assert_eq!(buf.next_line(), Some(String::new()));
    assert_eq!(buf.next_line(), None);
    buf.feed("ta: x\r\n[DONE]\n");
    let line = buf.next_line().unwrap();
    assert_eq!(classify_sse_line(&line), SseLine::Data("x".to_string()));
    assert_eq!(classify_sse_line(&buf.next_line().unwrap()), SseLine::Done);
    assert_eq!(classify_sse_line("   "), SseLine::Skip);
    assert_eq!(classify_sse_line("event: ping"), SseLine::Skip);
}

#[test]
fn ollama_defaults() {
    let c = OllamaConfig::default();
    assert_eq!(c.base_url, "http://localhost:11434");
    assert_eq!(c.timeout_secs, 120);
}
