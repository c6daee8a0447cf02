//! The agent's tasks, how it reads a model's reply, and the decisions of its
//! reason-and-act loop.
//!
//! The loop itself (asking the model, running tools) is driven by the caller:
//! [`AgentRun`] holds the conversation and says after each event what to do next.
use vstd::prelude::*;
use crate::json::{is_json, json_member, json_member_string, json_string, json_string_decoded, json_valid};
use crate::llm::provider::{is_text_message, IntoText, Message, Role};
use crate::text::{
    chars_of, has_prefix, matches_at_exec, push_str, str_eq, string_of, to_upper, trim, trim_exec,
    uppercased,
};

verus! {

/// Task to be executed by the agent.
#[derive(Debug, Clone)]
pub struct AgentTask {
    pub goal: String,
    pub context: Option<String>,
    pub max_iterations: usize,
}

/// Iterations an agent task gets unless told otherwise.
pub const DEFAULT_MAX_ITERATIONS: usize = 10;

impl AgentTask {
    /// A task with the given goal, no context and the default iteration budget.
    pub fn new<T: IntoText>(goal: T) -> (r: Self)
        ensures
            r.goal@ == goal.text_of(),
            r.context is None,
            r.max_iterations == DEFAULT_MAX_ITERATIONS,
    {
        AgentTask { goal: goal.into_text(), context: None, max_iterations: DEFAULT_MAX_ITERATIONS }
    }

    /// The same task with the given context.
    pub fn with_context<T: IntoText>(self, context: T) -> (r: Self)
        ensures
            r.goal == self.goal,
            r.context matches Some(c) && c@ == context.text_of(),
            r.max_iterations == self.max_iterations,
    {
        let mut t = self;
        t.context = Some(context.into_text());
        t
    }

    /// The same task with an iteration budget of `max`.
    pub fn with_max_iterations(self, max: usize) -> (r: Self)
        ensures
            r.goal == self.goal,
            r.context == self.context,
            r.max_iterations == max,
    {
        let mut t = self;
        t.max_iterations = max;
        t
    }
}

/// Response from the agent after task execution.
#[derive(Debug, Clone)]
pub struct AgentResponse {
    pub success: bool,
    pub result: String,
    pub iterations: usize,
    pub error: Option<String>,
}

/// One step of the model's reasoning, as read from its reply.
#[derive(Debug, Clone)]
pub struct AgentStep {
    /// The `THOUGHT:` line, or the whole reply when there is none.
    pub thought: String,
    /// The `ACTION:` line: a tool name or `FINISH`.
    pub action: Option<String>,
    /// The raw text of the `ACTION INPUT:` line.
    pub action_input: Option<String>,
}

/// What is read from a reply so far: thought, action and action input.
pub type StepParts = (Seq<char>, Option<Seq<char>>, Option<Seq<char>>);

/// The characters of an optional string.
pub open spec fn opt_chars(o: Option<String>) -> Option<Seq<char>> {
    match o {
        Some(s) => Some(s@),
        None => None,
    }
}

/// The characters of an optional character vector.
pub open spec fn opt_vec_chars(o: Option<Vec<char>>) -> Option<Seq<char>> {
    match o {
        Some(v) => Some(v@),
        None => None,
    }
}

/// Reading one line of a reply: a trimmed line that starts with `THOUGHT:`,
/// `ACTION:` or `ACTION INPUT:` sets that part to the trimmed rest of the line.
pub open spec fn line_step(st: StepParts, line: Seq<char>) -> StepParts {
    let l = trim(line);
    if has_prefix(l, "THOUGHT:"@) {
        (trim(l.skip("THOUGHT:"@.len() as int)), st.1, st.2)
    } else if has_prefix(l, "ACTION:"@) {
        (st.0, Some(trim(l.skip("ACTION:"@.len() as int))), st.2)
    } else if has_prefix(l, "ACTION INPUT:"@) {
        (st.0, st.1, Some(trim(l.skip("ACTION INPUT:"@.len() as int))))
    } else {
        st
    }
}

/// Reading the lines `lines` in order.
pub open spec fn fold_lines(lines: Seq<Seq<char>>) -> StepParts
    decreases lines.len(),
{
    if lines.len() == 0 {
        (Seq::empty(), None, None)
    } else {
        line_step(fold_lines(lines.drop_last()), lines.last())
    }
}

/// The finished lines and the current line after the first `n` characters of `s`.
pub open spec fn lines_upto(s: Seq<char>, n: nat) -> (Seq<Seq<char>>, Seq<char>)
    decreases n,
{
    if n == 0 {
        (Seq::empty(), Seq::empty())
    } else {
        let (done, cur) = lines_upto(s, (n - 1) as nat);
        if s[n - 1] == '\n' {
            (done.push(cur), Seq::empty())
        } else {
            (done, cur.push(s[n - 1]))
        }
    }
}

/// The pieces of `s` between line feeds. (`str::lines` differs only by a final
/// empty piece and a `'\r'` before each line feed, which trimming removes anyway.)
pub open spec fn split_lines(s: Seq<char>) -> Seq<Seq<char>> {
    let (done, cur) = lines_upto(s, s.len());
    done.push(cur)
}

/// What a reply says: its thought (the whole reply when no `THOUGHT:` line gives
/// a non-empty one), action and action input.
pub open spec fn parsed_reply(content: Seq<char>) -> StepParts {
    let st = fold_lines(split_lines(content));
    if st.0.len() == 0 {
        (content, st.1, st.2)
    } else {
        st
    }
}

/// `v` without its first `k` characters.
fn skip_chars(v: &Vec<char>, k: usize) -> (r: Vec<char>)
    requires
        k <= v@.len(),
    ensures
        r@ == v@.skip(k as int),
{
    let mut r: Vec<char> = Vec::new();
    let mut i = k;
    while i < v.len()
        invariant
            k <= i <= v@.len(),
            r@ == v@.subrange(k as int, i as int),
        decreases v.len() - i,
    {
        r.push(v[i]);
        assert(v@.subrange(k as int, i + 1) =~= v@.subrange(k as int, i as int).push(v@[i as int]));
        i = i + 1;
    }
    assert(v@.subrange(k as int, v@.len() as int) =~= v@.skip(k as int));
    r
}

/// Applies `line_step` to the parts read so far.
fn apply_line(
    thought: &mut Vec<char>,
    action: &mut Option<Vec<char>>,
    input: &mut Option<Vec<char>>,
    line: &Vec<char>,
)
    ensures
        (final(thought)@, opt_vec_chars(*final(action)), opt_vec_chars(*final(input))) == line_step(
            (old(thought)@, opt_vec_chars(*old(action)), opt_vec_chars(*old(input))),
            line@,
        ),
{
    let l = trim_exec(line);
    let p_thought = chars_of("THOUGHT:");
    let p_action = chars_of("ACTION:");
    let p_input = chars_of("ACTION INPUT:");
    if matches_at_exec(&l, &p_thought, 0) {
        let rest = skip_chars(&l, p_thought.len());
        *thought = trim_exec(&rest);
    } else if matches_at_exec(&l, &p_action, 0) {
        let rest = skip_chars(&l, p_action.len());
        *action = Some(trim_exec(&rest));
    } else if matches_at_exec(&l, &p_input, 0) {
        let rest = skip_chars(&l, p_input.len());
        *input = Some(trim_exec(&rest));
    }
}

/// Reads a model's reply in the `THOUGHT:` / `ACTION:` / `ACTION INPUT:` format.
pub fn parse_agent_reply(content: &str) -> (r: AgentStep)
    ensures
        (r.thought@, opt_chars(r.action), opt_chars(r.action_input)) == parsed_reply(content@),
{
    let s = chars_of(content);
    let mut thought: Vec<char> = Vec::new();
    let mut action: Option<Vec<char>> = None;
    let mut input: Option<Vec<char>> = None;
    let mut cur: Vec<char> = Vec::new();
    let mut k: usize = 0;
    while k < s.len()
        invariant
            k <= s@.len(),
            s@ == content@,
            cur@ == lines_upto(s@, k as nat).1,
            (thought@, opt_vec_chars(action), opt_vec_chars(input)) == fold_lines(lines_upto(s@, k as nat).0),
        decreases s.len() - k,
    {
        let c = s[k];
        if c == '\n' {
            apply_line(&mut thought, &mut action, &mut input, &cur);
            proof {
                let d = lines_upto(s@, k as nat).0;
                assert(d.push(cur@).drop_last() =~= d);
            }
            cur = Vec::new();
        } else {
            cur.push(c);
        }
        k = k + 1;
    }
    apply_line(&mut thought, &mut action, &mut input, &cur);
    proof {
        let d = lines_upto(s@, s@.len()).0;
        assert(d.push(cur@).drop_last() =~= d);
    }
    let thought_text = if thought.len() == 0 {
        content.to_owned()
    } else {
        string_of(thought.as_slice())
    };
    let action_text = match action {
        Some(a) => Some(string_of(a.as_slice())),
        None => None,
    };
    let input_text = match input {
        Some(i) => Some(string_of(i.as_slice())),
        None => None,
    };
    AgentStep { thought: thought_text, action: action_text, action_input: input_text }
}

/// The final answer that an `ACTION INPUT:` text gives: the string it holds when
/// it is a JSON string, the thought when it is other JSON, the text itself when it
/// is not JSON.
pub open spec fn input_answer(input: Seq<char>, thought: Seq<char>) -> Seq<char> {
    match json_string_decoded(input) {
        Some(t) => t,
        None => if json_valid(input) {
            thought
        } else {
            input
        },
    }
}

/// The final answer of a step that finishes the task.
pub open spec fn finish_answer(step: StepParts) -> Seq<char> {
    match step.2 {
        Some(input) => input_answer(input, step.0),
        None => step.0,
    }
}

/// The final answer of a finishing step.
pub fn final_answer(step: &AgentStep) -> (r: String)
    ensures
        r@ == finish_answer((step.thought@, opt_chars(step.action), opt_chars(step.action_input))),
{
    match &step.action_input {
        Some(input) => match json_string(input.as_str()) {
            Some(t) => t,
            None => if is_json(input.as_str()) {
                step.thought.clone()
            } else {
                input.clone()
            },
        },
        None => step.thought.clone(),
    }
}

/// The opening user message of a task: its goal, and its context when it has one.
pub open spec fn task_description(task: AgentTask) -> Seq<char> {
    "TASK: "@ + task.goal@ + match task.context {
        Some(c) => "\n\nCONTEXT: "@ + c@,
        None => Seq::empty(),
    }
}

/// Whether an action asks to finish the task (case-insensitively `FINISH`).
pub open spec fn is_finish(action: Seq<char>) -> bool {
    uppercased(action) == "FINISH"@
}

/// What the agent does after a reply of the model.
#[derive(Debug)]
pub enum AgentDecision {
    /// The task is done, with this response.
    Finish(AgentResponse),
    /// Run the tool `name` with the raw input `input`, then report its
    /// observation through [`AgentRun::on_observation`].
    UseTool { name: String, input: Option<String> },
    /// Ask the model again.
    Continue,
}

/// The state of one run of the agent on a task: the conversation so far and the
/// iterations used.
#[derive(Debug)]
pub struct AgentRun {
    pub messages: Vec<Message>,
    pub iterations: usize,
    pub max_iterations: usize,
}

/// The response of a run that used up its iterations.
pub open spec fn is_exhausted_response(r: AgentResponse, iterations: usize) -> bool {
    &&& !r.success
    &&& r.result@ == "Maximum iterations reached"@
    &&& r.iterations == iterations
    &&& r.error matches Some(e) && e@ == "Max iterations exceeded"@
}

/// One turn of the loop on the iteration count: `(count after, gave up)`.
pub open spec fn turn_step(iterations: int, max_iterations: int) -> (int, bool) {
    if iterations >= max_iterations {
        (iterations, true)
    } else {
        (iterations + 1, false)
    }
}

/// The iteration count after `k` turns of a run that started at zero.
pub open spec fn count_after_turns(max_iterations: nat, k: nat) -> int
    decreases k,
{
    if k == 0 {
        0
    } else {
        turn_step(count_after_turns(max_iterations, (k - 1) as nat), max_iterations as int).0
    }
}

/// Law: a run asks the model at most `max_iterations` times. After `k` turns
/// its count is `min(k, max_iterations)`, and the next turn gives up exactly when
/// `k >= max_iterations`.
pub proof fn law_turns_within_budget(max_iterations: nat, k: nat)
    ensures
        count_after_turns(max_iterations, k) == if k <= max_iterations {
            k as int
        } else {
            max_iterations as int
        },
        turn_step(count_after_turns(max_iterations, k), max_iterations as int).1 <==> k
            >= max_iterations,
    decreases k,
{
    if k > 0 {
        law_turns_within_budget(max_iterations, (k - 1) as nat);
    }
}

/// The system prompt that tells the model the reply format and its tools.
pub fn default_system_prompt() -> (r: String)
    ensures
        r@ == r#"You are an autonomous web browsing agent with memory capabilities. Your goal is to accomplish tasks by using the available tools.

Follow this thought process for each step:
1. THOUGHT: Analyze the current situation, recall relevant information from memory, and decide what to do next
2. ACTION: Choose a tool to use (or FINISH if task is complete)
3. ACTION INPUT: Provide the parameters for the tool
4. OBSERVATION: Observe the result of the action

Available format:
THOUGHT: <your reasoning>
ACTION: <tool_name or FINISH>
ACTION INPUT: <JSON parameters or final answer>

Memory capabilities:
- Use store_memory to save important information for future reference
- Use query_kg to retrieve stored information
- Use predict_link to find related entities in the knowledge graph

When you have completed the task, use ACTION: FINISH with your final answer in ACTION INPUT.

Be concise but thorough. Think step by step."#@,
{
    r#"You are an autonomous web browsing agent with memory capabilities. Your goal is to accomplish tasks by using the available tools.

Follow this thought process for each step:
1. THOUGHT: Analyze the current situation, recall relevant information from memory, and decide what to do next
2. ACTION: Choose a tool to use (or FINISH if task is complete)
3. ACTION INPUT: Provide the parameters for the tool
4. OBSERVATION: Observe the result of the action

Available format:
THOUGHT: <your reasoning>
ACTION: <tool_name or FINISH>
ACTION INPUT: <JSON parameters or final answer>

Memory capabilities:
- Use store_memory to save important information for future reference
- Use query_kg to retrieve stored information
- Use predict_link to find related entities in the knowledge graph

When you have completed the task, use ACTION: FINISH with your final answer in ACTION INPUT.

Be concise but thorough. Think step by step."#.to_owned()
}

/// The string member `key` of an optional JSON input, or `unknown`.
pub open spec fn member_or_unknown(input: Option<Seq<char>>, key: Seq<char>) -> Seq<char> {
    match input {
        Some(i) => match json_member_string(i, key) {
            Some(v) => v,
            None => "unknown"@,
        },
        None => "unknown"@,
    }
}

/// What a tool reports when neither a knowledge graph, a link predictor nor a
/// browser is attached: fixed notices for the knowledge-graph tools, simulated
/// results for the browser tools, and a notice for any other tool.
pub open spec fn detached_observation(tool: Seq<char>, input: Option<Seq<char>>) -> Seq<char> {
    if tool == "query_kg"@ {
        "KG not available - enable onnx-integration feature"@
    } else if tool == "store_memory"@ {
        "KG not available for memory storage"@
    } else if tool == "predict_link"@ {
        "Link predictor not available - enable onnx-integration feature"@
    } else if tool == "navigate_to"@ {
        "Successfully navigated to: "@ + member_or_unknown(input, "url"@)
    } else if tool == "fill_form"@ {
        "Form filled successfully"@
    } else if tool == "click_element"@ {
        "Clicked element: "@ + member_or_unknown(input, "selector"@)
    } else if tool == "get_page_content"@ {
        "<html><body><h1>Example Page</h1></body></html>"@
    } else if tool == "extract_data"@ {
        "{\"title\": \"Example\", \"price\": \"$99.99\"}"@
    } else {
        "Tool '"@ + tool + "' not implemented"@
    }
}

/// The string member `key` of an optional JSON input, or `unknown`.
fn input_member(input: Option<&str>, key: &str) -> (r: String)
    ensures
        r@ == member_or_unknown(
            match input {
                Some(i) => Some(i@),
                None => None,
            },
            key@,
        ),
{
    match input {
        Some(i) => match json_member(i, key) {
            Some(v) => v,
            None => "unknown".to_owned(),
        },
        None => "unknown".to_owned(),
    }
}

/// Runs a tool with nothing attached: see [`detached_observation`].
pub fn detached_tool_observation(tool_name: &str, input: Option<&str>) -> (r: String)
    ensures
        r@ == detached_observation(
            tool_name@,
            match input {
                Some(i) => Some(i@),
                None => None,
            },
        ),
{
    if str_eq(tool_name, "query_kg") {
        "KG not available - enable onnx-integration feature".to_owned()
    } else if str_eq(tool_name, "store_memory") {
        "KG not available for memory storage".to_owned()
    } else if str_eq(tool_name, "predict_link") {
        "Link predictor not available - enable onnx-integration feature".to_owned()
    } else if str_eq(tool_name, "navigate_to") {
        let mut s = "Successfully navigated to: ".to_owned();
        let url = input_member(input, "url");
        push_str(&mut s, url.as_str());
        s
    } else if str_eq(tool_name, "fill_form") {
        "Form filled successfully".to_owned()
    } else if str_eq(tool_name, "click_element") {
        let mut s = "Clicked element: ".to_owned();
        let selector = input_member(input, "selector");
        push_str(&mut s, selector.as_str());
        s
    } else if str_eq(tool_name, "get_page_content") {
        "<html><body><h1>Example Page</h1></body></html>".to_owned()
    } else if str_eq(tool_name, "extract_data") {
        "{\"title\": \"Example\", \"price\": \"$99.99\"}".to_owned()
    } else {
        let mut s = "Tool '".to_owned();
        push_str(&mut s, tool_name);
        push_str(&mut s, "' not implemented");
        s
    }
}

impl AgentRun {
    /// A run that opens with the system prompt and the task description.
    pub fn start(system_prompt: &str, task: &AgentTask) -> (r: Self)
        ensures
            r.iterations == 0,
            r.max_iterations == task.max_iterations,
            r.messages@.len() == 2,
            is_text_message(r.messages@[0], Role::System, system_prompt@),
            is_text_message(r.messages@[1], Role::User, task_description(*task)),
    {
        let mut description = "TASK: ".to_owned();
        push_str(&mut description, task.goal.as_str());
        if let Some(context) = &task.context {
            push_str(&mut description, "\n\nCONTEXT: ");
            push_str(&mut description, context.as_str());
        }
        assert(description@ =~= task_description(*task));
        let messages = vec![Message::system(system_prompt), Message::user(description)];
        AgentRun { messages, iterations: 0, max_iterations: task.max_iterations }
    }

    /// Begins a turn: gives up with the exhausted response once every iteration is
    /// used, and otherwise counts the turn (the model is then asked).
    pub fn begin_turn(&mut self) -> (r: Option<AgentResponse>)
        ensures
            final(self).max_iterations == old(self).max_iterations,
            final(self).messages@ == old(self).messages@,
            turn_step(old(self).iterations as int, old(self).max_iterations as int) == (
                final(self).iterations as int,
                r is Some,
            ),
            r matches Some(resp) ==> is_exhausted_response(resp, old(self).iterations),
    {
        if self.iterations >= self.max_iterations {
            return Some(
                AgentResponse {
                    success: false,
                    result: "Maximum iterations reached".to_owned(),
                    iterations: self.iterations,
                    error: Some("Max iterations exceeded".to_owned()),
                },
            );
        }
        self.iterations = self.iterations + 1;
        None
    }

    /// Decides what to do with the model's reply `content`.
    pub fn on_reply(&mut self, content: &str) -> (r: AgentDecision)
        ensures
            final(self).iterations == old(self).iterations,
            final(self).max_iterations == old(self).max_iterations,
            ({
                let step = parsed_reply(content@);
                match step.1 {
                    None => r is Continue && final(self).messages@.len() == old(self).messages@.len() + 1
                        && final(self).messages@.drop_last() == old(self).messages@ && is_text_message(
                        final(self).messages@.last(),
                        Role::Assistant,
                        content@,
                    ),
                    Some(a) => final(self).messages@ == old(self).messages@ && if is_finish(a) {
                        r matches AgentDecision::Finish(resp) && resp.success && resp.result@
                            == finish_answer(step) && resp.iterations == old(self).iterations
                            && resp.error is None
                    } else {
                        r matches AgentDecision::UseTool { name, input } && name@ == a
                            && opt_chars(input) == step.2
                    },
                }
            }),
    {
        let step = parse_agent_reply(content);
        match &step.action {
            Some(action) => {
                let upper = to_upper(action.as_str());
                if str_eq(upper.as_str(), "FINISH") {
                    let result = final_answer(&step);
                    AgentDecision::Finish(
                        AgentResponse { success: true, result, iterations: self.iterations, error: None },
                    )
                } else {
                    AgentDecision::UseTool { name: action.clone(), input: step.action_input.clone() }
                }
            },
            None => {
                self.messages.push(Message::assistant(content));
                proof {
                    assert(self.messages@.drop_last() =~= old(self).messages@);
                }
                AgentDecision::Continue
            },
        }
    }

    /// Records the reply that asked for a tool, and the tool's observation.
    pub fn on_observation(&mut self, content: &str, observation: &str)
        ensures
            final(self).iterations == old(self).iterations,
            final(self).max_iterations == old(self).max_iterations,
            final(self).messages@.len() == old(self).messages@.len() + 2,
            final(self).messages@.take(old(self).messages@.len() as int) == old(self).messages@,
            is_text_message(final(self).messages@[old(self).messages@.len() as int], Role::Assistant, content@),
            is_text_message(
                final(self).messages@[old(self).messages@.len() + 1int],
                Role::User,
                "OBSERVATION: "@ + observation@,
            ),
    {
        let mut report = "OBSERVATION: ".to_owned();
        push_str(&mut report, observation);
        self.messages.push(Message::assistant(content));
        self.messages.push(Message::user(report));
        proof {
            assert(self.messages@.take(old(self).messages@.len() as int) =~= old(self).messages@);
        }
    }
}

} // verus!
