use semantic_browser::llm::provider::{ContentBlock, FunctionCall, ImageContent, ImageSource, MessageContent, TokenUsage, ToolCall};
use semantic_browser::llm::reply::{
    anthropic_reply, chat_reply, ollama_reply, sse_payload_tokens, AnthropicBlock, ChoiceFields, LLMError, StreamEvent,
    ToolUseFields,
};
use semantic_browser::llm::tools::ToolRegistry;
use semantic_browser::mcp::mcp_tools;

fn call(id: &str, name: &str) -> ToolCall {
    ToolCall {
        id: id.to_string(),
        tool_type: "function".to_string(),
        function: FunctionCall { name: name.to_string(), arguments: "{}".to_string() },
    }
}

#[test]
fn chat_reply_without_choices_is_an_api_error() {
    match chat_reply(vec![], None) {
        Err(LLMError::Api(m)) => assert_eq!(m, "No response choices"),
        _ => panic!("expected the API error"),
    }
}

#[test]
fn chat_reply_keeps_the_first_choice_and_its_tool_calls() {
    let first = ChoiceFields {
        content: MessageContent::Text("hello".to_string()),
        tool_calls: Some(vec![call("c1", "navigate_to"), call("c2", "click_element")]),
        finish_reason: None,
    };
    let second = ChoiceFields { content: MessageContent::Text("other".to_string()), tool_calls: None, finish_reason: Some("length".to_string()) };
    let r = chat_reply(vec![first, second], None).unwrap();
    assert_eq!(r.content, "hello");
    assert_eq!(r.finish_reason, "stop");
    let calls = r.tool_calls.unwrap();
    assert_eq!(calls.len(), 2);
    assert_eq!(calls[0].id, "c1");
    assert_eq!(calls[1].function.name, "click_element");
    assert_eq!((r.usage.prompt_tokens, r.usage.completion_tokens, r.usage.total_tokens), (0, 0, 0));
}

#[test]
fn chat_reply_joins_text_blocks_and_reports_usage() {
    let choice = ChoiceFields {
        content: MessageContent::Blocks(vec![
            ContentBlock::Text("a".to_string()),
            ContentBlock::Image(ImageContent { image_url: ImageSource::Url("http://x/i.png".to_string()) }),
            ContentBlock::Text("b".to_string()),
        ]),
        tool_calls: None,
        finish_reason: Some("length".to_string()),
    };
    let usage = TokenUsage { prompt_tokens: 3, completion_tokens: 4, total_tokens: 7 };
    let r = chat_reply(vec![choice], Some(usage)).unwrap();
    assert_eq!(r.content, "a b");
    assert_eq!(r.finish_reason, "length");
    assert!(r.tool_calls.is_none());
    assert_eq!(r.usage.total_tokens, 7);
}

#[test]
fn anthropic_reply_runs_texts_together_and_maps_tool_uses() {
    let blocks = vec![
        AnthropicBlock { block_type: "text".to_string(), text: Some("Hel".to_string()), tool_use: None },
        AnthropicBlock { block_type: "text".to_string(), text: Some("lo".to_string()), tool_use: None },
        AnthropicBlock {
            block_type: "tool_use".to_string(),
            text: None,
            tool_use: Some(ToolUseFields { id: "t1".to_string(), name: "query_kg".to_string(), input_json: "{\"q\":1}".to_string() }),
        },
    ];
    let r = anthropic_reply(blocks, None, 10, 5);
    assert_eq!(r.content, "Hello");
    assert_eq!(r.finish_reason, "stop");
    let calls = r.tool_calls.unwrap();
    assert_eq!(calls.len(), 1);
    assert_eq!(calls[0].tool_type, "function");
    assert_eq!(calls[0].function.arguments, "{\"q\":1}");
    assert_eq!(r.usage.total_tokens, 15);
    let plain = anthropic_reply(vec![], Some("end_turn".to_string()), 0, 0);
    assert!(plain.tool_calls.is_none());
    assert_eq!(plain.finish_reason, "end_turn");
}

#[test]
fn ollama_reply_defaults_missing_counts_to_zero() {
    let r = ollama_reply("hi".to_string(), None, None, Some(2), None);
    assert_eq!(r.content, "hi");
    assert_eq!(r.finish_reason, "");
    assert_eq!((r.usage.prompt_tokens, r.usage.completion_tokens, r.usage.total_tokens), (2, 0, 2));
}

#[test]
fn stream_events_give_their_tokens_or_end_the_stream() {
    let chunk = StreamEvent::OpenAIChunk(Some(vec![Some("a".to_string()), None, Some("b".to_string())]));
    assert_eq!(sse_payload_tokens(chunk), Some(vec!["a".to_string(), "b".to_string()]));
    assert_eq!(sse_payload_tokens(StreamEvent::OpenAIChunk(None)), Some(vec![]));
    let delta = StreamEvent::AnthropicEvent { event_type: "content_block_delta".to_string(), delta_text: Some("x".to_string()) };
    assert_eq!(sse_payload_tokens(delta), Some(vec!["x".to_string()]));
    let stop = StreamEvent::AnthropicEvent { event_type: "message_stop".to_string(), delta_text: None };
    assert_eq!(sse_payload_tokens(stop), None);
    let ping = StreamEvent::AnthropicEvent { event_type: "ping".to_string(), delta_text: None };
    assert_eq!(sse_payload_tokens(ping), Some(vec![]));
    assert_eq!(sse_payload_tokens(StreamEvent::Unreadable), Some(vec![]));
}

#[test]
fn mcp_tool_list_names_and_required_inputs() {
    let tools = mcp_tools();
    let names: Vec<&str> = tools.iter().map(|t| t.name.as_str()).collect();
    assert_eq!(names, vec!["semanticbrowser.parse_html", "semanticbrowser.query_kg", "semanticbrowser.browse_url"]);
    assert_eq!(tools[0].required, vec!["html".to_string()]);
    assert_eq!(tools[1].required, vec!["query".to_string()]);
    assert_eq!(tools[2].required, vec!["url".to_string()]);
    assert_eq!(tools[2].properties[0].format.as_deref(), Some("uri"));
    assert!(tools[0].read_only && !tools[1].read_only && tools[2].open_world);
}

#[test]
fn browser_tools_carry_their_parameter_schemas() {
    let r = ToolRegistry::with_browser_tools();
    let req = |n: &str| r.get_tool(n).unwrap().function.parameters.required.clone();
    assert_eq!(req("navigate_to"), vec!["url".to_string()]);
    assert_eq!(req("wait_for_element"), vec!["selector".to_string()]);
    assert_eq!(req("predict_link"), vec!["prediction_type".to_string()]);
    assert_eq!(req("store_memory"), vec!["subject".to_string(), "predicate".to_string(), "object".to_string()]);
    assert!(req("get_page_title").is_empty());
    let p = &r.get_tool("predict_link").unwrap().function.parameters;
    assert_eq!(p.properties.get("k").unwrap().param_type, "integer");
    assert_eq!(
        p.properties.get("prediction_type").unwrap().enum_values,
        Some(vec!["tail".to_string(), "head".to_string(), "relation".to_string()])
    );
}
