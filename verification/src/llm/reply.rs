//! What a provider's reply becomes: the answer of a chat completion, and the
//! tokens of one event of a streamed completion. The replies arrive as JSON; the
//! fields read from them are handed here as plain values.
use vstd::prelude::*;
use crate::llm::provider::{ContentBlock, LLMResponse, MessageContent, TokenUsage, ToolCall, FunctionCall};
use crate::text::push_str;

verus! {

/// What can go wrong with a provider's reply.
#[derive(Debug, Clone)]
pub enum LLMError {
    /// The provider answered with an error, or with nothing to use.
    Api(String),
    /// The reply could not be read.
    InvalidResponse(String),
    /// The provider is not set up for the request.
    Config(String),
}

/// One choice of an OpenAI chat reply: its message's content and tool calls, and
/// why generation stopped.
#[derive(Debug, Clone)]
pub struct ChoiceFields {
    pub content: MessageContent,
    pub tool_calls: Option<Vec<ToolCall>>,
    pub finish_reason: Option<String>,
}

/// The texts of the text blocks, in order (images give none).
pub open spec fn block_texts(bs: Seq<ContentBlock>) -> Seq<Seq<char>>
    decreases bs.len(),
{
    if bs.len() == 0 {
        Seq::empty()
    } else {
        let rest = block_texts(bs.drop_last());
        match bs.last() {
            ContentBlock::Text(t) => rest.push(t@),
            ContentBlock::Image(_) => rest,
        }
    }
}

/// The texts joined by single spaces.
pub open spec fn space_joined(ts: Seq<Seq<char>>) -> Seq<char>
    decreases ts.len(),
{
    if ts.len() == 0 {
        Seq::empty()
    } else if ts.len() == 1 {
        ts[0]
    } else {
        space_joined(ts.drop_last()) + " "@ + ts.last()
    }
}

/// The text of a reply message: the text itself, or the texts of its text blocks
/// joined by spaces.
pub open spec fn content_text(c: MessageContent) -> Seq<char> {
    match c {
        MessageContent::Text(t) => t@,
        MessageContent::Blocks(bs) => space_joined(block_texts(bs@)),
    }
}

/// The text of a reply message.
fn reply_text(c: MessageContent) -> (r: String)
    ensures
        r@ == content_text(c),
{
    match c {
        MessageContent::Text(t) => t,
        MessageContent::Blocks(bs) => {
            let mut out = String::new();
            let mut any = false;
            let mut i: usize = 0;
            while i < bs.len()
                invariant
                    i <= bs@.len(),
                    any <==> block_texts(bs@.take(i as int)).len() > 0,
                    out@ == space_joined(block_texts(bs@.take(i as int))),
                decreases bs.len() - i,
            {
                proof {
                    assert(bs@.take(i + 1).drop_last() =~= bs@.take(i as int));
                }
                match &bs[i] {
                    ContentBlock::Text(t) => {
                        let ghost before = block_texts(bs@.take(i as int));
                        proof {
                            assert(before.push(t@).drop_last() =~= before);
                        }
                        if any {
                            push_str(&mut out, " ");
                        }
                        push_str(&mut out, t.as_str());
                        any = true;
                        assert(out@ =~= space_joined(before.push(t@)));
                    },
                    ContentBlock::Image(_) => {},
                }
                i = i + 1;
            }
            assert(bs@.take(bs@.len() as int) =~= bs@);
            out
        },
    }
}

/// The usage of a reply: as reported, or zeros when it reports none.
pub open spec fn usage_or_zero(u: Option<TokenUsage>) -> TokenUsage {
    match u {
        Some(u) => u,
        None => TokenUsage { prompt_tokens: 0, completion_tokens: 0, total_tokens: 0 },
    }
}

/// A finish reason, or `default` when the reply gives none.
pub open spec fn reason_or(r: Option<String>, default: Seq<char>) -> Seq<char> {
    match r {
        Some(s) => s@,
        None => default,
    }
}

/// The answer of an OpenAI chat completion from its choices and usage: the first
/// choice's text, tool calls and finish reason (`stop` when it gives none), and
/// the usage (zeros when absent); an error when there is no choice.
pub fn chat_reply(choices: Vec<ChoiceFields>, usage: Option<TokenUsage>) -> (r: Result<LLMResponse, LLMError>)
    ensures
        choices@.len() == 0 ==> (r matches Err(LLMError::Api(m)) && m@ == "No response choices"@),
        choices@.len() > 0 ==> (r matches Ok(a) && {
            &&& a.content@ == content_text(choices@[0].content)
            &&& a.tool_calls == choices@[0].tool_calls
            &&& a.finish_reason@ == reason_or(choices@[0].finish_reason, "stop"@)
            &&& a.usage == usage_or_zero(usage)
        }),
{
    if choices.len() == 0 {
        return Err(LLMError::Api("No response choices".to_owned()));
    }
    let mut choices = choices;
    let first = choices.remove(0);
    let finish_reason = match first.finish_reason {
        Some(f) => f,
        None => "stop".to_owned(),
    };
    let usage = match usage {
        Some(u) => u,
        None => TokenUsage { prompt_tokens: 0, completion_tokens: 0, total_tokens: 0 },
    };
    Ok(LLMResponse { content: reply_text(first.content), tool_calls: first.tool_calls, finish_reason, usage })
}

/// A `tool_use` block of an Anthropic reply: the call's id, the tool's name, and
/// its input as a JSON text.
#[derive(Debug, Clone)]
pub struct ToolUseFields {
    pub id: String,
    pub name: String,
    pub input_json: String,
}

/// A content block of an Anthropic reply.
#[derive(Debug, Clone)]
pub struct AnthropicBlock {
    pub block_type: String,
    pub text: Option<String>,
    pub tool_use: Option<ToolUseFields>,
}

/// The text of an Anthropic reply: the texts of its `text` blocks, run together.
pub open spec fn anthropic_text(bs: Seq<AnthropicBlock>) -> Seq<char>
    decreases bs.len(),
{
    if bs.len() == 0 {
        Seq::empty()
    } else {
        let b = bs.last();
        anthropic_text(bs.drop_last()) + if b.block_type@ == "text"@ && b.text is Some {
            b.text.unwrap()@
        } else {
            Seq::empty()
        }
    }
}

/// The tool call that a `tool_use` block makes.
pub open spec fn tool_use_call(u: ToolUseFields) -> (Seq<char>, Seq<char>, Seq<char>, Seq<char>) {
    (u.id@, "function"@, u.name@, u.input_json@)
}

/// The calls of the blocks that carry a `tool_use`, in order.
pub open spec fn anthropic_calls(bs: Seq<AnthropicBlock>) -> Seq<(Seq<char>, Seq<char>, Seq<char>, Seq<char>)>
    decreases bs.len(),
{
    if bs.len() == 0 {
        Seq::empty()
    } else {
        let rest = anthropic_calls(bs.drop_last());
        match bs.last().tool_use {
            Some(u) => rest.push(tool_use_call(u)),
            None => rest,
        }
    }
}

/// A tool call as its id, type, function name and arguments.
pub open spec fn call_view(t: ToolCall) -> (Seq<char>, Seq<char>, Seq<char>, Seq<char>) {
    (t.id@, t.tool_type@, t.function.name@, t.function.arguments@)
}

/// The answer of an Anthropic message: the text of its `text` blocks, the calls of
/// its `tool_use` blocks (none when there are none), the stop reason (`stop` when
/// it gives none), and the usage, whose total is input plus output.
pub fn anthropic_reply(
    blocks: Vec<AnthropicBlock>,
    stop_reason: Option<String>,
    input_tokens: usize,
    output_tokens: usize,
) -> (r: LLMResponse)
    requires
        input_tokens + output_tokens <= usize::MAX,
    ensures
        r.content@ == anthropic_text(blocks@),
        anthropic_calls(blocks@).len() == 0 ==> r.tool_calls is None,
        anthropic_calls(blocks@).len() > 0 ==> (r.tool_calls matches Some(v) && v@.map_values(
            |t: ToolCall| call_view(t),
        ) == anthropic_calls(blocks@)),
        r.finish_reason@ == reason_or(stop_reason, "stop"@),
        r.usage == (TokenUsage {
            prompt_tokens: input_tokens,
            completion_tokens: output_tokens,
            total_tokens: (input_tokens + output_tokens) as usize,
        }),
{
    let mut content = String::new();
    let mut calls: Vec<ToolCall> = Vec::new();
    let mut i: usize = 0;
    while i < blocks.len()
        invariant
            i <= blocks@.len(),
            content@ == anthropic_text(blocks@.take(i as int)),
            calls@.map_values(|t: ToolCall| call_view(t)) == anthropic_calls(blocks@.take(i as int)),
        decreases blocks.len() - i,
    {
        proof {
            assert(blocks@.take(i + 1).drop_last() =~= blocks@.take(i as int));
        }
        let b = &blocks[i];
        let is_text = crate::text::str_eq(b.block_type.as_str(), "text");
        if is_text {
            match &b.text {
                Some(t) => push_str(&mut content, t.as_str()),
                None => {},
            }
        }
        match &b.tool_use {
            Some(u) => {
                calls.push(ToolCall {
                    id: u.id.clone(),
                    tool_type: "function".to_owned(),
                    function: FunctionCall { name: u.name.clone(), arguments: u.input_json.clone() },
                });
                assert(calls@.map_values(|t: ToolCall| call_view(t)) =~= anthropic_calls(blocks@.take(i as int)).push(
                    tool_use_call(*u),
                ));
            },
            None => {},
        }
        i = i + 1;
    }
    assert(blocks@.take(blocks@.len() as int) =~= blocks@);
    let finish_reason = match stop_reason {
        Some(s) => s,
        None => "stop".to_owned(),
    };
    let tool_calls = if calls.len() == 0 { None } else { Some(calls) };
    LLMResponse {
        content,
        tool_calls,
        finish_reason,
        usage: TokenUsage {
            prompt_tokens: input_tokens,
            completion_tokens: output_tokens,
            total_tokens: input_tokens + output_tokens,
        },
    }
}

/// The answer of an Ollama chat: its message's text and tool calls, the done
/// reason (empty when it gives none), and the usage from the evaluation counts
/// (zero when absent), whose total is their sum.
pub fn ollama_reply(
    content: String,
    tool_calls: Option<Vec<ToolCall>>,
    done_reason: Option<String>,
    prompt_eval_count: Option<usize>,
    eval_count: Option<usize>,
) -> (r: LLMResponse)
    requires
        prompt_eval_count.unwrap_or(0) + eval_count.unwrap_or(0) <= usize::MAX,
    ensures
        r.content == content,
        r.tool_calls == tool_calls,
        r.finish_reason@ == reason_or(done_reason, Seq::empty()),
        r.usage.prompt_tokens == prompt_eval_count.unwrap_or(0),
        r.usage.completion_tokens == eval_count.unwrap_or(0),
        r.usage.total_tokens == prompt_eval_count.unwrap_or(0) + eval_count.unwrap_or(0),
{
    let p = match prompt_eval_count {
        Some(n) => n,
        None => 0,
    };
    let c = match eval_count {
        Some(n) => n,
        None => 0,
    };
    let finish_reason = match done_reason {
        Some(s) => s,
        None => String::new(),
    };
    LLMResponse {
        content,
        tool_calls,
        finish_reason,
        usage: TokenUsage { prompt_tokens: p, completion_tokens: c, total_tokens: p + c },
    }
}

/// One event of a streamed completion, as read from its JSON.
#[derive(Debug, Clone)]
pub enum StreamEvent {
    /// An OpenAI chunk: the delta content of each of its choices, when it has a
    /// list of choices.
    OpenAIChunk(Option<Vec<Option<String>>>),
    /// An Anthropic event: its type, and the text of its delta if any.
    AnthropicEvent { event_type: String, delta_text: Option<String> },
    /// A payload that is not an event of the provider.
    Unreadable,
}

/// The delta contents that are present, in order.
pub open spec fn present_texts(ds: Seq<Option<String>>) -> Seq<Seq<char>>
    decreases ds.len(),
{
    if ds.len() == 0 {
        Seq::empty()
    } else {
        let rest = present_texts(ds.drop_last());
        match ds.last() {
            Some(t) => rest.push(t@),
            None => rest,
        }
    }
}

/// What a stream event gives: `None` to end the stream (an Anthropic
/// `message_stop`), else the tokens to pass on, in order.
pub open spec fn event_tokens(e: StreamEvent) -> Option<Seq<Seq<char>>> {
    match e {
        StreamEvent::OpenAIChunk(Some(ds)) => Some(present_texts(ds@)),
        StreamEvent::OpenAIChunk(None) => Some(Seq::empty()),
        StreamEvent::AnthropicEvent { event_type, delta_text } => if event_type@ == "message_stop"@ {
            None
        } else if event_type@ == "content_block_delta"@ {
            match delta_text {
                Some(t) => Some(seq![t@]),
                None => Some(Seq::empty()),
            }
        } else {
            Some(Seq::empty())
        },
        StreamEvent::Unreadable => Some(Seq::empty()),
    }
}

/// The tokens one event of a stream carries, or `None` when it ends the stream.
pub fn sse_payload_tokens(event: StreamEvent) -> (r: Option<Vec<String>>)
    ensures
        match r {
            Some(v) => event_tokens(event) == Some(v@.map_values(|s: String| s@)),
            None => event_tokens(event) is None,
        },
{
    match event {
        StreamEvent::OpenAIChunk(Some(ds)) => {
            let mut out: Vec<String> = Vec::new();
            let mut i: usize = 0;
            while i < ds.len()
                invariant
                    i <= ds@.len(),
                    out@.map_values(|s: String| s@) == present_texts(ds@.take(i as int)),
                decreases ds.len() - i,
            {
                proof {
                    assert(ds@.take(i + 1).drop_last() =~= ds@.take(i as int));
                }
                match &ds[i] {
                    Some(t) => {
                        out.push(t.clone());
                        assert(out@.map_values(|s: String| s@) =~= present_texts(ds@.take(i as int)).push(t@));
                    },
                    None => {},
                }
                i = i + 1;
            }
            assert(ds@.take(ds@.len() as int) =~= ds@);
            Some(out)
        },
        StreamEvent::OpenAIChunk(None) => {
            let out: Vec<String> = Vec::new();
            assert(out@.map_values(|s: String| s@) =~= Seq::<Seq<char>>::empty());
            Some(out)
        },
        StreamEvent::AnthropicEvent { event_type, delta_text } => {
            if crate::text::str_eq(event_type.as_str(), "message_stop") {
                None
            } else if crate::text::str_eq(event_type.as_str(), "content_block_delta") {
                let out: Vec<String> = match delta_text {
                    Some(t) => vec![t],
                    None => Vec::new(),
                };
                assert(out@.map_values(|s: String| s@) =~= match delta_text {
                    Some(t) => seq![t@],
                    None => Seq::<Seq<char>>::empty(),
                });
                Some(out)
            } else {
                let out: Vec<String> = Vec::new();
                assert(out@.map_values(|s: String| s@) =~= Seq::<Seq<char>>::empty());
                Some(out)
            }
        },
        StreamEvent::Unreadable => {
            let out: Vec<String> = Vec::new();
            assert(out@.map_values(|s: String| s@) =~= Seq::<Seq<char>>::empty());
            Some(out)
        },
    }
}

} // verus!
