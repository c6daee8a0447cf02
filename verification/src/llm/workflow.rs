//! The web workflow engine: steps, conditions, the retry policy, and the run of a
//! workflow as a state machine.
//!
//! A step is tried up to `max_attempts` times; between two failed attempts the
//! engine waits a fixed or doubling delay. [`RetryConfig::after_failure`] decides,
//! and the caller performs the wait and the next attempt.
//!
//! Workflow values (variables, loop items, step outputs) are held as the compact
//! JSON text that `serde_json` writes for them.
use vstd::prelude::*;
use vstd::arithmetic::power2::{pow2, lemma2_to64, lemma_pow2_strictly_increases, lemma_pow2_unfold};
use crate::json::{json_equal, json_quote, json_quoted, json_string, json_string_decoded, json_debug, debug_or_text, json_value_eq};
use crate::kg::{decimal, decimal_string, decimal_u64_string};
use crate::auth::utc_now_timestamp;
use crate::llm::provider::IntoText;
use crate::llm::tools::ToolRegistry;
use crate::llm::provider::ToolCall;
use crate::strmap::StrMap;
use crate::text::{chars_of, contains, contains_exec, push_str, str_eq};

verus! {

/// Retry configuration for error recovery.
#[derive(Debug, Clone, Copy)]
pub struct RetryConfig {
    pub max_attempts: u32,
    pub backoff_ms: u64,
    pub exponential_backoff: bool,
}

/// Workflow execution status.
#[derive(Debug, Clone, Copy, PartialEq, Eq, Structural)]
pub enum WorkflowStatus {
    Pending,
    Running,
    Paused,
    Completed,
    Failed,
    Cancelled,
}

/// What to do after a failed attempt.
#[derive(Debug, Clone, Copy, PartialEq, Eq, Structural)]
pub enum RetryAction {
    /// Wait this many milliseconds, then try again.
    Wait(u64),
    /// Stop: every attempt has been used.
    GiveUp,
}

/// The delay before the attempt that follows failed attempt `attempt` (counted
/// from 1): `backoff_ms`, doubled for each earlier attempt when the backoff is
/// exponential.
pub open spec fn backoff_delay(c: RetryConfig, attempt: nat) -> int {
    if c.exponential_backoff {
        c.backoff_ms * pow2((attempt - 1) as nat)
    } else {
        c.backoff_ms as int
    }
}

/// The delay after failed attempt `attempt` fits in a `u64` (where it does not,
/// computing it overflows).
pub open spec fn backoff_fits(c: RetryConfig, attempt: nat) -> bool {
    c.exponential_backoff ==> attempt - 1 < 64 && backoff_delay(c, attempt) <= u64::MAX
}

/// What follows failed attempt `attempt`.
pub open spec fn retry_action(c: RetryConfig, attempt: nat) -> RetryAction {
    if attempt < c.max_attempts {
        RetryAction::Wait(backoff_delay(c, attempt) as u64)
    } else {
        RetryAction::GiveUp
    }
}

/// `2^n`.
fn power_of_two(n: u32) -> (r: u64)
    requires
        n < 64,
    ensures
        r as nat == pow2(n as nat),
{
    proof {
        lemma2_to64();
    }
    let mut value: u64 = 1;
    let mut i: u32 = 0;
    while i < n
        invariant
            i <= n < 64,
            value as nat == pow2(i as nat),
            pow2(64) == 0x1_0000_0000_0000_0000,
        decreases n - i,
    {
        proof {
            lemma_pow2_unfold((i + 1) as nat);
            lemma_pow2_strictly_increases((i + 1) as nat, 64);
        }
        value = value * 2;
        i = i + 1;
    }
    value
}

impl Default for RetryConfig {
    fn default() -> (r: Self)
        ensures
            r.max_attempts == 3,
            r.backoff_ms == 1000,
            r.exponential_backoff,
    {
        RetryConfig { max_attempts: 3, backoff_ms: 1000, exponential_backoff: true }
    }
}

impl RetryConfig {
    /// Whether attempt `attempt` (counted from 1) may run.
    pub fn allows_attempt(&self, attempt: u32) -> (r: bool)
        ensures
            r == (1 <= attempt && attempt <= self.max_attempts),
    {
        1 <= attempt && attempt <= self.max_attempts
    }

    /// The delay after failed attempt `attempt`.
    pub fn backoff(&self, attempt: u32) -> (r: u64)
        requires
            attempt >= 1,
            backoff_fits(*self, attempt as nat),
        ensures
            r as int == backoff_delay(*self, attempt as nat),
    {
        if self.exponential_backoff {
            let p = power_of_two(attempt - 1);
            self.backoff_ms * p
        } else {
            self.backoff_ms
        }
    }

    /// What to do after attempt `attempt` failed: wait and retry while attempts
    /// remain, else give up.
    pub fn after_failure(&self, attempt: u32) -> (r: RetryAction)
        requires
            attempt >= 1,
            attempt < self.max_attempts ==> backoff_fits(*self, attempt as nat),
        ensures
            r == retry_action(*self, attempt as nat),
    {
        if attempt < self.max_attempts {
            RetryAction::Wait(self.backoff(attempt))
        } else {
            RetryAction::GiveUp
        }
    }
}

/// Law: a failing step is tried at most `max_attempts` times: the policy waits
/// after every failed attempt before attempt `max_attempts`, and gives up after
/// it (attempt `max_attempts + 1` is never allowed).
pub proof fn law_retries_bounded(c: RetryConfig, attempt: nat)
    requires
        attempt >= 1,
    ensures
        retry_action(c, attempt) is GiveUp <==> attempt >= c.max_attempts,
        retry_action(c, attempt) is Wait ==> attempt + 1 <= c.max_attempts,
{
}

/// Law: with exponential backoff each delay is twice the one before.
pub proof fn law_backoff_doubles(c: RetryConfig, attempt: nat)
    requires
        c.exponential_backoff,
        attempt >= 1,
    ensures
        backoff_delay(c, attempt + 1) == 2 * backoff_delay(c, attempt),
{
    lemma_pow2_unfold(attempt);
    assert(c.backoff_ms * (2 * pow2((attempt - 1) as nat)) == 2 * (c.backoff_ms * pow2((attempt - 1) as nat))) by (nonlinear_arith);
}

/// Workflow execution errors.
#[derive(Debug, Clone)]
pub enum WorkflowError {
    StepFailed { step_name: String, error: String },
    ConditionFailed { condition: String },
    ValidationError { message: String },
    BrowserNotAvailable,
    LLMError(String),
    MaxRetriesExceeded { step_name: String },
}

/// An error as values: its variant and its text fields.
pub open spec fn err_view(e: WorkflowError) -> (nat, Seq<char>, Seq<char>) {
    match e {
        WorkflowError::StepFailed { step_name, error } => (0, step_name@, error@),
        WorkflowError::ConditionFailed { condition } => (1, condition@, Seq::empty()),
        WorkflowError::ValidationError { message } => (2, message@, Seq::empty()),
        WorkflowError::BrowserNotAvailable => (3, Seq::empty(), Seq::empty()),
        WorkflowError::LLMError(m) => (4, m@, Seq::empty()),
        WorkflowError::MaxRetriesExceeded { step_name } => (5, step_name@, Seq::empty()),
    }
}

/// The message of an error.
pub open spec fn error_text(e: (nat, Seq<char>, Seq<char>)) -> Seq<char> {
    if e.0 == 0 {
        "Step execution failed: "@ + e.1 + " - "@ + e.2
    } else if e.0 == 1 {
        "Conditional evaluation failed: "@ + e.1
    } else if e.0 == 2 {
        "Workflow validation error: "@ + e.1
    } else if e.0 == 3 {
        "Browser not available"@
    } else if e.0 == 4 {
        "LLM provider error: "@ + e.1
    } else {
        "Max retries exceeded for step: "@ + e.1
    }
}

impl WorkflowError {
    /// The message of the error.
    pub fn message(&self) -> (r: String)
        ensures
            r@ == error_text(err_view(*self)),
    {
        match self {
            WorkflowError::StepFailed { step_name, error } => {
                let mut s = "Step execution failed: ".to_owned();
                push_str(&mut s, step_name.as_str());
                push_str(&mut s, " - ");
                push_str(&mut s, error.as_str());
                s
            },
            WorkflowError::ConditionFailed { condition } => {
                let mut s = "Conditional evaluation failed: ".to_owned();
                push_str(&mut s, condition.as_str());
                s
            },
            WorkflowError::ValidationError { message } => {
                let mut s = "Workflow validation error: ".to_owned();
                push_str(&mut s, message.as_str());
                s
            },
            WorkflowError::BrowserNotAvailable => "Browser not available".to_owned(),
            WorkflowError::LLMError(m) => {
                let mut s = "LLM provider error: ".to_owned();
                push_str(&mut s, m.as_str());
                s
            },
            WorkflowError::MaxRetriesExceeded { step_name } => {
                let mut s = "Max retries exceeded for step: ".to_owned();
                push_str(&mut s, step_name.as_str());
                s
            },
        }
    }
}

/// Condition for branching or waiting.
#[derive(Debug, Clone)]
pub enum Condition {
    /// Variable equals value (a JSON text).
    Equals { variable: String, value: String },
    /// Variable is a string that contains the substring.
    Contains { variable: String, substring: String },
    /// Variable exists.
    Exists { variable: String },
    /// Custom JavaScript expression (for browser context).
    JavaScript { expression: String },
    /// HTTP status check.
    HttpStatus { expected: u16 },
    /// Element exists on page.
    ElementExists { selector: String },
}

/// Types of workflow steps.
#[derive(Debug)]
pub enum WorkflowStep {
    /// Execute a tool call.
    ToolCall { name: String, tool_call: ToolCall, timeout_ms: Option<u64> },
    /// Conditional branch based on variable value.
    ConditionalBranch { name: String, condition: Condition, then_steps: Vec<WorkflowStep>, else_steps: Vec<WorkflowStep> },
    /// Loop over a collection (of JSON texts).
    Loop { name: String, variable: String, items: Vec<String>, loop_steps: Vec<WorkflowStep>, max_iterations: Option<usize> },
    /// Set a variable value (a JSON text).
    SetVariable { name: String, variable: String, value: String },
    /// Wait for a condition or timeout.
    Wait { name: String, condition: Option<Condition>, timeout_ms: u64 },
    /// Execute steps in parallel.
    Parallel { name: String, parallel_steps: Vec<Vec<WorkflowStep>>, max_concurrent: Option<usize> },
    /// Error handling step.
    ErrorHandler { name: String, error_variable: String, handler_steps: Vec<WorkflowStep>, retry_count: Option<u32> },
}

/// The name of a step.
pub open spec fn step_name_of(step: WorkflowStep) -> Seq<char> {
    match step {
        WorkflowStep::ToolCall { name, .. } => name@,
        WorkflowStep::ConditionalBranch { name, .. } => name@,
        WorkflowStep::Loop { name, .. } => name@,
        WorkflowStep::SetVariable { name, .. } => name@,
        WorkflowStep::Wait { name, .. } => name@,
        WorkflowStep::Parallel { name, .. } => name@,
        WorkflowStep::ErrorHandler { name, .. } => name@,
    }
}

/// The variables of a workflow, as texts.
pub open spec fn vars_view(m: StrMap<String>) -> Map<Seq<char>, Seq<char>> {
    m@.map_values(|v: String| v@)
}

/// Name for the `Debug` text of a string: quoted, with Rust's escapes.
pub uninterp spec fn debug_str(s: Seq<char>) -> Seq<char>;

/// Writes a string with `Debug` (`format!("{:?}", s)`). Claimed: the result is
/// `debug_str` of the string.
#[verifier::external_body]
fn str_debug(s: &str) -> (r: String)
    ensures
        r@ == debug_str(s@),
{
    format!("{:?}", s)
}

/// The `Debug` text of a condition that the engine cannot evaluate.
pub open spec fn unsupported_text(c: Condition) -> Seq<char> {
    "Unsupported condition: "@ + match c {
        Condition::JavaScript { expression } => "JavaScript { expression: "@ + debug_str(expression@) + " }"@,
        Condition::HttpStatus { expected } => "HttpStatus { expected: "@ + decimal(expected as nat) + " }"@,
        Condition::ElementExists { selector } => "ElementExists { selector: "@ + debug_str(selector@) + " }"@,
        _ => Seq::empty(),
    }
}

/// Whether two JSON texts hold equal values (the texts themselves are compared
/// when one is not JSON).
pub open spec fn same_json(a: Seq<char>, b: Seq<char>) -> bool {
    match json_value_eq(a, b) {
        Some(e) => e,
        None => a == b,
    }
}

/// Whether a condition holds of the variables: `Equals` when the variable holds
/// an equal JSON value, `Exists` when it is set, `Contains` when it is a string
/// containing the substring. Other conditions cannot be evaluated: the text is
/// the error's.
pub open spec fn condition_value(c: Condition, vars: Map<Seq<char>, Seq<char>>) -> Result<bool, Seq<char>> {
    match c {
        Condition::Equals { variable, value } => Ok(vars.contains_key(variable@) && same_json(vars[variable@], value@)),
        Condition::Exists { variable } => Ok(vars.contains_key(variable@)),
        Condition::Contains { variable, substring } => Ok(
            vars.contains_key(variable@) && match json_string_decoded(vars[variable@]) {
                Some(t) => contains(t, substring@),
                None => false,
            },
        ),
        _ => Err(unsupported_text(c)),
    }
}

/// The error for a condition that cannot be evaluated.
fn unsupported(c: &Condition) -> (r: WorkflowError)
    requires
        condition_value(*c, Map::empty()) is Err,
    ensures
        err_view(r) == (1nat, unsupported_text(*c), Seq::<char>::empty()),
{
    let mut s = "Unsupported condition: ".to_owned();
    match c {
        Condition::JavaScript { expression } => {
            push_str(&mut s, "JavaScript { expression: ");
            push_str(&mut s, str_debug(expression.as_str()).as_str());
            push_str(&mut s, " }");
        },
        Condition::HttpStatus { expected } => {
            push_str(&mut s, "HttpStatus { expected: ");
            push_str(&mut s, decimal_string(*expected as usize).as_str());
            push_str(&mut s, " }");
        },
        Condition::ElementExists { selector } => {
            push_str(&mut s, "ElementExists { selector: ");
            push_str(&mut s, str_debug(selector.as_str()).as_str());
            push_str(&mut s, " }");
        },
        _ => {},
    }
    WorkflowError::ConditionFailed { condition: s }
}

/// Evaluates a condition against the variables.
pub fn evaluate_condition(condition: &Condition, variables: &StrMap<String>) -> (r: Result<bool, WorkflowError>)
    ensures
        match condition_value(*condition, vars_view(*variables)) {
            Ok(b) => r == Ok::<bool, WorkflowError>(b),
            Err(t) => r matches Err(e) && err_view(e) == (1nat, t, Seq::<char>::empty()),
        },
{
    match condition {
        Condition::Equals { variable, value } => match variables.get(variable.as_str()) {
            Some(v) => match json_equal(v.as_str(), value.as_str()) {
                Some(e) => Ok(e),
                None => Ok(str_eq(v.as_str(), value.as_str())),
            },
            None => Ok(false),
        },
        Condition::Exists { variable } => Ok(variables.contains_key(variable.as_str())),
        Condition::Contains { variable, substring } => match variables.get(variable.as_str()) {
            Some(v) => match json_string(v.as_str()) {
                Some(t) => {
                    let tv = chars_of(t.as_str());
                    let sv = chars_of(substring.as_str());
                    Ok(contains_exec(&tv, &sv))
                },
                None => Ok(false),
            },
            None => Ok(false),
        },
        _ => Err(unsupported(condition)),
    }
}

/// An error as values.
pub type ErrView = (nat, Seq<char>, Seq<char>);

/// What a tool call came back with: its text, or an error.
pub type ToolOutcome = Result<String, WorkflowError>;

/// A tool outcome as values.
pub open spec fn outcome_view(o: ToolOutcome) -> Result<Seq<char>, ErrView> {
    match o {
        Ok(t) => Ok(t@),
        Err(e) => Err(err_view(e)),
    }
}

/// The outcomes as values.
pub open spec fn outcomes_view(os: Seq<ToolOutcome>) -> Seq<Result<Seq<char>, ErrView>> {
    os.map_values(|o: ToolOutcome| outcome_view(o))
}

/// Where the steps nested in a loop, an error handler, a parallel group or the
/// chosen side of a conditional branch run.
#[derive(Debug, Clone, Copy, PartialEq, Eq, Structural)]
pub enum InnerMode {
    Loop,
    Handler,
    Parallel,
    Branch,
}

/// Why a run of steps stopped early, if it did.
pub enum Halt {
    /// It did not.
    No,
    /// It needs the outcome of this tool call.
    Need(ToolCall),
    /// A tool call failed with this error.
    Failed(ErrView),
}

/// Where a run of nested steps stands: the outputs so far (JSON texts), the
/// variables, how many tool outcomes it has read, and whether it stopped.
pub struct InnerState {
    pub results: Seq<Seq<char>>,
    pub vars: Map<Seq<char>, Seq<char>>,
    pub used: nat,
    pub halt: Halt,
}

/// The output of a nested step that is neither a tool call nor an assignment.
pub open spec fn other_text(mode: InnerMode) -> Seq<char> {
    match mode {
        InnerMode::Loop => "Step skipped in loop"@,
        InnerMode::Handler => "Handler step executed"@,
        InnerMode::Parallel => "Parallel step executed"@,
        InnerMode::Branch => "Branch step executed"@,
    }
}

/// The output text of an assignment: with the value's `Debug` text in a parallel
/// group (where the variable is not set) and at the top level, without elsewhere.
pub open spec fn set_text(with_value: bool, variable: Seq<char>, value: Seq<char>) -> Seq<char> {
    if with_value {
        "Set "@ + variable + " = "@ + debug_or_text(value)
    } else {
        "Set "@ + variable
    }
}

/// The first `n` nested `steps` run from the variables `vars`, reading tool
/// outcomes from position `base` of `outs`: each tool call reads the next outcome
/// (a failure stops the run; a missing outcome is needed), an assignment sets the
/// variable (not in a parallel group), and any other step only yields its text.
pub open spec fn inner_upto(
    mode: InnerMode,
    steps: Seq<WorkflowStep>,
    vars: Map<Seq<char>, Seq<char>>,
    outs: Seq<Result<Seq<char>, ErrView>>,
    base: nat,
    n: nat,
) -> InnerState
    decreases n,
{
    if n == 0 {
        InnerState { results: Seq::empty(), vars, used: base, halt: Halt::No }
    } else {
        let s = inner_upto(mode, steps, vars, outs, base, (n - 1) as nat);
        if !(s.halt is No) {
            s
        } else {
            match steps[n - 1] {
                WorkflowStep::ToolCall { tool_call, .. } => if s.used < outs.len() {
                    match outs[s.used as int] {
                        Ok(t) => InnerState {
                            results: s.results.push(json_quoted(t)),
                            vars: s.vars,
                            used: s.used + 1,
                            halt: Halt::No,
                        },
                        Err(e) => InnerState { results: s.results, vars: s.vars, used: s.used + 1, halt: Halt::Failed(e) },
                    }
                } else {
                    InnerState { results: s.results, vars: s.vars, used: s.used, halt: Halt::Need(tool_call) }
                },
                WorkflowStep::SetVariable { variable, value, .. } => if mode == InnerMode::Parallel {
                    InnerState {
                        results: s.results.push(json_quoted(set_text(true, variable@, value@))),
                        vars: s.vars,
                        used: s.used,
                        halt: Halt::No,
                    }
                } else {
                    InnerState {
                        results: s.results.push(json_quoted(set_text(false, variable@, value@))),
                        vars: s.vars.insert(variable@, value@),
                        used: s.used,
                        halt: Halt::No,
                    }
                },
                _ => InnerState {
                    results: s.results.push(json_quoted(other_text(mode))),
                    vars: s.vars,
                    used: s.used,
                    halt: Halt::No,
                },
            }
        }
    }
}

/// A copy of a tool call.
fn copy_tool_call(t: &ToolCall) -> (r: ToolCall)
    ensures
        r == *t,
{
    ToolCall {
        id: t.id.clone(),
        tool_type: t.tool_type.clone(),
        function: crate::llm::provider::FunctionCall {
            name: t.function.name.clone(),
            arguments: t.function.arguments.clone(),
        },
    }
}

/// A copy of an error.
fn copy_error(e: &WorkflowError) -> (r: WorkflowError)
    ensures
        err_view(r) == err_view(*e),
{
    match e {
        WorkflowError::StepFailed { step_name, error } => WorkflowError::StepFailed {
            step_name: step_name.clone(),
            error: error.clone(),
        },
        WorkflowError::ConditionFailed { condition } => WorkflowError::ConditionFailed { condition: condition.clone() },
        WorkflowError::ValidationError { message } => WorkflowError::ValidationError { message: message.clone() },
        WorkflowError::BrowserNotAvailable => WorkflowError::BrowserNotAvailable,
        WorkflowError::LLMError(m) => WorkflowError::LLMError(m.clone()),
        WorkflowError::MaxRetriesExceeded { step_name } => WorkflowError::MaxRetriesExceeded { step_name: step_name.clone() },
    }
}

/// How a run of steps stopped, in executable form.
pub enum RunHalt {
    No,
    Need(ToolCall),
    Failed(WorkflowError),
}

/// The stop of a run as values.
pub open spec fn halt_view(h: RunHalt) -> Halt {
    match h {
        RunHalt::No => Halt::No,
        RunHalt::Need(t) => Halt::Need(t),
        RunHalt::Failed(e) => Halt::Failed(err_view(e)),
    }
}

/// The output text of an assignment.
fn set_output(with_value: bool, variable: &str, value: &str) -> (r: String)
    ensures
        r@ == json_quoted(set_text(with_value, variable@, value@)),
{
    let mut s = "Set ".to_owned();
    push_str(&mut s, variable);
    if with_value {
        push_str(&mut s, " = ");
        push_str(&mut s, json_debug(value).as_str());
    }
    json_quote(s.as_str())
}

/// Runs nested steps from position `base` of the outcomes; see [`inner_upto`].
fn run_inner(
    mode: InnerMode,
    steps: &Vec<WorkflowStep>,
    vars: &mut StrMap<String>,
    outs: &Vec<ToolOutcome>,
    base: usize,
) -> (r: (Vec<String>, usize, RunHalt))
    requires
        base <= outs@.len(),
    ensures
        ({
            let s = inner_upto(mode, steps@, vars_view(*old(vars)), outcomes_view(outs@), base as nat, steps@.len());
            &&& r.0@.map_values(|t: String| t@) == s.results
            &&& vars_view(*final(vars)) == s.vars
            &&& r.1 == s.used
            &&& halt_view(r.2) == s.halt
            &&& r.1 <= outs@.len()
        }),
{
    let ghost v0 = vars_view(*vars);
    let ghost ov = outcomes_view(outs@);
    let mut results: Vec<String> = Vec::new();
    let mut used = base;
    let mut halt = RunHalt::No;
    let mut i: usize = 0;
    while i < steps.len()
        invariant
            i <= steps@.len(),
            base <= used <= outs@.len(),
            v0 == vars_view(*old(vars)),
            ov == outcomes_view(outs@),
            ({
                let s = inner_upto(mode, steps@, v0, ov, base as nat, i as nat);
                &&& results@.map_values(|t: String| t@) == s.results
                &&& vars_view(*vars) == s.vars
                &&& used == s.used
                &&& halt_view(halt) == s.halt
            }),
        decreases steps.len() - i,
    {
        if let RunHalt::No = halt {
            match &steps[i] {
                WorkflowStep::ToolCall { tool_call, .. } => {
                    if used < outs.len() {
                        match &outs[used] {
                            Ok(t) => {
                                results.push(json_quote(t.as_str()));
                            },
                            Err(e) => {
                                halt = RunHalt::Failed(copy_error(e));
                            },
                        }
                        used = used + 1;
                    } else {
                        halt = RunHalt::Need(copy_tool_call(tool_call));
                    }
                },
                WorkflowStep::SetVariable { variable, value, .. } => {
                    if mode == InnerMode::Parallel {
                        results.push(set_output(true, variable.as_str(), value.as_str()));
                    } else {
                        vars.insert(variable.clone(), value.clone());
                        results.push(set_output(false, variable.as_str(), value.as_str()));
                    }
                },
                _ => {
                    let text = match mode {
                        InnerMode::Loop => "Step skipped in loop",
                        InnerMode::Handler => "Handler step executed",
                        InnerMode::Parallel => "Parallel step executed",
                        InnerMode::Branch => "Branch step executed",
                    };
                    results.push(json_quote(text));
                },
            }
        }
        proof {
            let prev = inner_upto(mode, steps@, v0, ov, base as nat, i as nat);
            assert(results@.map_values(|t: String| t@) =~= inner_upto(mode, steps@, v0, ov, base as nat, (i + 1) as nat).results);
            assert(vars_view(*vars) =~= inner_upto(mode, steps@, v0, ov, base as nat, (i + 1) as nat).vars);
        }
        i = i + 1;
    }
    (results, used, halt)
}

/// The texts `rs` joined by commas.
pub open spec fn joined(rs: Seq<Seq<char>>) -> Seq<char>
    decreases rs.len(),
{
    if rs.len() == 0 {
        Seq::empty()
    } else if rs.len() == 1 {
        rs[0]
    } else {
        joined(rs.drop_last()) + ","@ + rs.last()
    }
}

/// The JSON array of the JSON texts `rs`.
pub open spec fn array_text(rs: Seq<Seq<char>>) -> Seq<char> {
    "["@ + joined(rs) + "]"@
}

/// The JSON array of JSON texts.
fn array_of(rs: &Vec<String>) -> (r: String)
    ensures
        r@ == array_text(rs@.map_values(|t: String| t@)),
{
    let ghost v = rs@.map_values(|t: String| t@);
    let mut s = String::new();
    let mut i: usize = 0;
    while i < rs.len()
        invariant
            i <= rs@.len(),
            v == rs@.map_values(|t: String| t@),
            s@ == joined(v.take(i as int)),
        decreases rs.len() - i,
    {
        if i > 0 {
            push_str(&mut s, ",");
        }
        push_str(&mut s, rs[i].as_str());
        proof {
            let t = v.take(i + 1);
            assert(t.drop_last() =~= v.take(i as int));
            if i == 0 {
                assert(v.take(0) =~= Seq::<Seq<char>>::empty());
            }
        }
        i = i + 1;
    }
    assert(v.take(rs@.len() as int) =~= v);
    let mut r = "[".to_owned();
    push_str(&mut r, s.as_str());
    push_str(&mut r, "]");
    r
}

/// Where a loop stands: the output array of each finished iteration, the
/// variables, the outcomes read, and whether it stopped.
pub struct LoopState {
    pub arrays: Seq<Seq<char>>,
    pub vars: Map<Seq<char>, Seq<char>>,
    pub used: nat,
    pub halt: Halt,
}

/// The first `j` iterations of a loop: each sets `variable` to its item, then runs
/// the nested steps; a stop ends the loop.
pub open spec fn loop_upto(
    variable: Seq<char>,
    items: Seq<String>,
    steps: Seq<WorkflowStep>,
    vars: Map<Seq<char>, Seq<char>>,
    outs: Seq<Result<Seq<char>, ErrView>>,
    j: nat,
) -> LoopState
    decreases j,
{
    if j == 0 {
        LoopState { arrays: Seq::empty(), vars, used: 0, halt: Halt::No }
    } else {
        let s = loop_upto(variable, items, steps, vars, outs, (j - 1) as nat);
        if !(s.halt is No) {
            s
        } else {
            let inner = inner_upto(
                InnerMode::Loop,
                steps,
                s.vars.insert(variable, items[j - 1]@),
                outs,
                s.used,
                steps.len(),
            );
            LoopState {
                arrays: if inner.halt is No {
                    s.arrays.push(array_text(inner.results))
                } else {
                    s.arrays
                },
                vars: inner.vars,
                used: inner.used,
                halt: inner.halt,
            }
        }
    }
}

/// Runs the first `n` iterations of a loop; see [`loop_upto`].
fn run_loop(
    variable: &String,
    items: &Vec<String>,
    steps: &Vec<WorkflowStep>,
    vars: &mut StrMap<String>,
    outs: &Vec<ToolOutcome>,
    n: usize,
) -> (r: (Vec<String>, RunHalt))
    requires
        n <= items@.len(),
    ensures
        ({
            let s = loop_upto(variable@, items@, steps@, vars_view(*old(vars)), outcomes_view(outs@), n as nat);
            &&& r.0@.map_values(|t: String| t@) == s.arrays
            &&& vars_view(*final(vars)) == s.vars
            &&& halt_view(r.1) == s.halt
        }),
{
    let ghost v0 = vars_view(*vars);
    let ghost ov = outcomes_view(outs@);
    let mut arrays: Vec<String> = Vec::new();
    let mut used: usize = 0;
    let mut halt = RunHalt::No;
    let mut j: usize = 0;
    while j < n
        invariant
            j <= n <= items@.len(),
            used <= outs@.len(),
            v0 == vars_view(*old(vars)),
            ov == outcomes_view(outs@),
            ({
                let s = loop_upto(variable@, items@, steps@, v0, ov, j as nat);
                &&& arrays@.map_values(|t: String| t@) == s.arrays
                &&& vars_view(*vars) == s.vars
                &&& used == s.used
                &&& halt_view(halt) == s.halt
            }),
        decreases n - j,
    {
        if let RunHalt::No = halt {
            let ghost prev = loop_upto(variable@, items@, steps@, v0, ov, j as nat);
            vars.insert(variable.clone(), items[j].clone());
            assert(vars_view(*vars) =~= prev.vars.insert(variable@, items@[j as int]@));
            let (results, u, h) = run_inner(InnerMode::Loop, steps, vars, outs, used);
            if let RunHalt::No = h {
                arrays.push(array_of(&results));
            }
            used = u;
            halt = h;
        }
        proof {
            assert(arrays@.map_values(|t: String| t@) =~= loop_upto(variable@, items@, steps@, v0, ov, (j + 1) as nat).arrays);
        }
        j = j + 1;
    }
    (arrays, halt)
}

/// Where an error handler stands: the variables, the outcomes read, the last
/// error of a failed attempt, the outputs of the attempt that succeeded, or the
/// tool call it needs.
pub struct HandlerState {
    pub vars: Map<Seq<char>, Seq<char>>,
    pub used: nat,
    pub last_err: Option<ErrView>,
    pub done: Option<Seq<Seq<char>>>,
    pub need: Option<ToolCall>,
}

/// The first `a` attempts of an error handler: each runs the nested steps, a
/// failed tool call ending the attempt. It is done after an attempt without
/// failure, unless an earlier attempt failed.
pub open spec fn handler_upto(
    steps: Seq<WorkflowStep>,
    vars: Map<Seq<char>, Seq<char>>,
    outs: Seq<Result<Seq<char>, ErrView>>,
    a: nat,
) -> HandlerState
    decreases a,
{
    if a == 0 {
        HandlerState { vars, used: 0, last_err: None, done: None, need: None }
    } else {
        let s = handler_upto(steps, vars, outs, (a - 1) as nat);
        if s.done is Some || s.need is Some {
            s
        } else {
            let inner = inner_upto(InnerMode::Handler, steps, s.vars, outs, s.used, steps.len());
            match inner.halt {
                Halt::Need(t) => HandlerState { vars: inner.vars, used: inner.used, last_err: s.last_err, done: None, need: Some(t) },
                Halt::Failed(e) => HandlerState { vars: inner.vars, used: inner.used, last_err: Some(e), done: None, need: None },
                Halt::No => HandlerState {
                    vars: inner.vars,
                    used: inner.used,
                    last_err: s.last_err,
                    done: if s.last_err is None {
                        Some(inner.results)
                    } else {
                        None
                    },
                    need: None,
                },
            }
        }
    }
}

/// The handler's outcome in executable form.
pub enum HandlerEnd {
    Running,
    Done(Vec<String>),
    Need(ToolCall),
}

/// Runs `a` attempts of an error handler; see [`handler_upto`].
fn run_handler(
    steps: &Vec<WorkflowStep>,
    vars: &mut StrMap<String>,
    outs: &Vec<ToolOutcome>,
    a: u32,
) -> (r: (HandlerEnd, Option<WorkflowError>))
    ensures
        ({
            let s = handler_upto(steps@, vars_view(*old(vars)), outcomes_view(outs@), a as nat);
            &&& vars_view(*final(vars)) == s.vars
            &&& match r.0 {
                HandlerEnd::Running => s.done is None && s.need is None,
                HandlerEnd::Done(rs) => s.need is None && s.done == Some(rs@.map_values(|t: String| t@)),
                HandlerEnd::Need(t) => s.need == Some(t),
            }
            &&& match r.1 {
                Some(e) => s.last_err == Some(err_view(e)),
                None => s.last_err is None,
            }
        }),
{
    let ghost v0 = vars_view(*vars);
    let ghost ov = outcomes_view(outs@);
    let mut used: usize = 0;
    let mut last: Option<WorkflowError> = None;
    let mut end = HandlerEnd::Running;
    let mut k: u32 = 0;
    while k < a
        invariant
            k <= a,
            used <= outs@.len(),
            v0 == vars_view(*old(vars)),
            ov == outcomes_view(outs@),
            ({
                let s = handler_upto(steps@, v0, ov, k as nat);
                &&& vars_view(*vars) == s.vars
                &&& used == s.used
                &&& match end {
                    HandlerEnd::Running => s.done is None && s.need is None,
                    HandlerEnd::Done(rs) => s.need is None && s.done == Some(rs@.map_values(|t: String| t@)),
                    HandlerEnd::Need(t) => s.need == Some(t),
                }
                &&& match last {
                    Some(e) => s.last_err == Some(err_view(e)),
                    None => s.last_err is None,
                }
            }),
        decreases a - k,
    {
        if let HandlerEnd::Running = end {
            let (results, u, h) = run_inner(InnerMode::Handler, steps, vars, outs, used);
            used = u;
            match h {
                RunHalt::Need(t) => {
                    end = HandlerEnd::Need(t);
                },
                RunHalt::Failed(e) => {
                    last = Some(e);
                },
                RunHalt::No => {
                    if last.is_none() {
                        end = HandlerEnd::Done(results);
                    }
                },
            }
        }
        k = k + 1;
    }
    (end, last)
}

/// The first `g` groups of a parallel step, run one after the other: their
/// outputs in order; a stop ends the step.
pub open spec fn par_upto(
    groups: Seq<Vec<WorkflowStep>>,
    vars: Map<Seq<char>, Seq<char>>,
    outs: Seq<Result<Seq<char>, ErrView>>,
    g: nat,
) -> InnerState
    decreases g,
{
    if g == 0 {
        InnerState { results: Seq::empty(), vars, used: 0, halt: Halt::No }
    } else {
        let s = par_upto(groups, vars, outs, (g - 1) as nat);
        if !(s.halt is No) {
            s
        } else {
            let inner = inner_upto(InnerMode::Parallel, groups[g - 1]@, s.vars, outs, s.used, groups[g - 1]@.len());
            InnerState { results: s.results + inner.results, vars: inner.vars, used: inner.used, halt: inner.halt }
        }
    }
}

/// Runs the groups of a parallel step; see [`par_upto`].
fn run_parallel(
    groups: &Vec<Vec<WorkflowStep>>,
    vars: &mut StrMap<String>,
    outs: &Vec<ToolOutcome>,
) -> (r: (Vec<String>, RunHalt))
    ensures
        ({
            let s = par_upto(groups@, vars_view(*old(vars)), outcomes_view(outs@), groups@.len());
            &&& r.0@.map_values(|t: String| t@) == s.results
            &&& vars_view(*final(vars)) == s.vars
            &&& halt_view(r.1) == s.halt
        }),
{
    let ghost v0 = vars_view(*vars);
    let ghost ov = outcomes_view(outs@);
    let mut all: Vec<String> = Vec::new();
    let mut used: usize = 0;
    let mut halt = RunHalt::No;
    let mut g: usize = 0;
    while g < groups.len()
        invariant
            g <= groups@.len(),
            used <= outs@.len(),
            v0 == vars_view(*old(vars)),
            ov == outcomes_view(outs@),
            ({
                let s = par_upto(groups@, v0, ov, g as nat);
                &&& all@.map_values(|t: String| t@) == s.results
                &&& vars_view(*vars) == s.vars
                &&& used == s.used
                &&& halt_view(halt) == s.halt
            }),
        decreases groups.len() - g,
    {
        if let RunHalt::No = halt {
            let (results, u, h) = run_inner(InnerMode::Parallel, &groups[g], vars, outs, used);
            let ghost before = all@;
            let mut k: usize = 0;
            while k < results.len()
                invariant
                    k <= results@.len(),
                    all@ == before + results@.take(k as int),
                decreases results.len() - k,
            {
                all.push(results[k].clone());
                assert(results@.take(k + 1) =~= results@.take(k as int).push(results@[k as int]));
                k = k + 1;
            }
            assert(results@.take(results@.len() as int) =~= results@);
            used = u;
            halt = h;
        }
        proof {
            assert(all@.map_values(|t: String| t@) =~= par_upto(groups@, v0, ov, (g + 1) as nat).results);
        }
        g = g + 1;
    }
    (all, halt)
}

/// Iterations a loop runs when it sets no limit.
pub const DEFAULT_MAX_LOOP_ITERATIONS: usize = 100;

/// Attempts an error handler makes when it sets no count.
pub const DEFAULT_HANDLER_RETRIES: u32 = 3;

/// How far one attempt at a step got.
pub enum AttemptResult {
    /// It needs the outcome of this tool call.
    Need(ToolCall),
    /// It ended with this output (a JSON text) or error, after a pause of this
    /// many milliseconds.
    Done(Result<Seq<char>, ErrView>, nat),
}

/// One attempt at a step: the variables after it, and how far it got.
pub struct Attempt {
    pub vars: Map<Seq<char>, Seq<char>>,
    pub result: AttemptResult,
}

/// The result of a run of nested steps that ends a step with `output`.
pub open spec fn halted_result(h: Halt, output: Seq<char>) -> AttemptResult {
    match h {
        Halt::No => AttemptResult::Done(Ok(output), 0),
        Halt::Need(t) => AttemptResult::Need(t),
        Halt::Failed(e) => AttemptResult::Done(Err(e), 0),
    }
}

/// A wait: none when the timeout is zero; an unsupported condition fails at once;
/// otherwise the condition (which sees no variables) is checked until the timeout
/// has passed.
pub open spec fn wait_result(condition: Option<Condition>, timeout_ms: u64) -> AttemptResult {
    if timeout_ms == 0 {
        AttemptResult::Done(Ok(json_quoted("Timeout reached"@)), 0)
    } else {
        match condition {
            None => AttemptResult::Done(Ok(json_quoted("Timeout reached"@)), timeout_ms as nat),
            Some(c) => match condition_value(c, Map::empty()) {
                Err(t) => AttemptResult::Done(Err((1nat, t, Seq::empty())), 0),
                Ok(b) => if b {
                    AttemptResult::Done(Ok(json_quoted("Condition met"@)), 0)
                } else {
                    AttemptResult::Done(Ok(json_quoted("Timeout reached"@)), timeout_ms as nat)
                },
            },
        }
    }
}

/// The error of an error handler whose attempts all failed.
pub open spec fn handler_error(last: Option<ErrView>) -> ErrView {
    match last {
        Some(e) => e,
        None => (0nat, "error_handler"@, "All retry attempts failed"@),
    }
}

/// One attempt at `step` from the variables `vars`, given the outcomes `outs` of
/// the tool calls it has made so far.
pub open spec fn attempt_of(step: WorkflowStep, vars: Map<Seq<char>, Seq<char>>, outs: Seq<Result<Seq<char>, ErrView>>) -> Attempt {
    match step {
        WorkflowStep::ToolCall { tool_call, .. } => Attempt {
            vars,
            result: if outs.len() > 0 {
                AttemptResult::Done(
                    match outs[0] {
                        Ok(t) => Ok(json_quoted(t)),
                        Err(e) => Err(e),
                    },
                    0,
                )
            } else {
                AttemptResult::Need(tool_call)
            },
        },
        WorkflowStep::ConditionalBranch { condition, then_steps, else_steps, .. } => match condition_value(
            condition,
            vars,
        ) {
            Err(t) => Attempt { vars, result: AttemptResult::Done(Err((1nat, t, Seq::empty())), 0) },
            Ok(b) => {
                let chosen = if b { then_steps@ } else { else_steps@ };
                let s = inner_upto(InnerMode::Branch, chosen, vars, outs, 0, chosen.len());
                Attempt { vars: s.vars, result: halted_result(s.halt, if b { "true"@ } else { "false"@ }) }
            },
        },
        WorkflowStep::Loop { variable, items, loop_steps, max_iterations, .. } => {
            let limit = match max_iterations {
                Some(m) => m as nat,
                None => DEFAULT_MAX_LOOP_ITERATIONS as nat,
            };
            let n = if items@.len() < limit { items@.len() } else { limit };
            let s = loop_upto(variable@, items@, loop_steps@, vars, outs, n);
            Attempt { vars: s.vars, result: halted_result(s.halt, array_text(s.arrays)) }
        },
        WorkflowStep::SetVariable { variable, value, .. } => Attempt {
            vars: vars.insert(variable@, value@),
            result: AttemptResult::Done(Ok(json_quoted(set_text(true, variable@, value@))), 0),
        },
        WorkflowStep::Wait { condition, timeout_ms, .. } => Attempt { vars, result: wait_result(condition, timeout_ms) },
        WorkflowStep::Parallel { parallel_steps, .. } => {
            let s = par_upto(parallel_steps@, vars, outs, parallel_steps@.len());
            Attempt { vars: s.vars, result: halted_result(s.halt, array_text(s.results)) }
        },
        WorkflowStep::ErrorHandler { error_variable, handler_steps, retry_count, .. } => {
            if vars.contains_key(error_variable@) && vars[error_variable@] != "null"@ {
                let a = match retry_count {
                    Some(c) => c as nat,
                    None => DEFAULT_HANDLER_RETRIES as nat,
                };
                let h = handler_upto(handler_steps@, vars, outs, a);
                Attempt {
                    vars: h.vars,
                    result: match h.need {
                        Some(t) => AttemptResult::Need(t),
                        None => match h.done {
                            Some(rs) => AttemptResult::Done(Ok(array_text(rs)), 0),
                            None => AttemptResult::Done(Err(handler_error(h.last_err)), 0),
                        },
                    },
                }
            } else {
                Attempt { vars, result: AttemptResult::Done(Ok(json_quoted("No error to handle"@)), 0) }
            }
        },
    }
}

/// A step may be attempted: a parallel step does not limit its batches to zero
/// (the batching panics on it).
pub open spec fn step_runnable(step: WorkflowStep) -> bool {
    match step {
        WorkflowStep::Parallel { max_concurrent, .. } => max_concurrent != Some(0usize),
        _ => true,
    }
}

/// How far an attempt got, in executable form.
pub enum StepProgress {
    /// The attempt needs the outcome of this tool call.
    NeedTool(ToolCall),
    /// The attempt ended, after a pause of `pause_ms` milliseconds.
    Done { result: Result<String, WorkflowError>, pause_ms: u64 },
}

/// An attempt's progress as values.
pub open spec fn progress_view(p: StepProgress) -> AttemptResult {
    match p {
        StepProgress::NeedTool(t) => AttemptResult::Need(t),
        StepProgress::Done { result, pause_ms } => AttemptResult::Done(
            match result {
                Ok(t) => Ok(t@),
                Err(e) => Err(err_view(e)),
            },
            pause_ms as nat,
        ),
    }
}

/// The progress of a run of nested steps that ends a step with `output`.
fn halted_progress(h: RunHalt, output: String) -> (r: StepProgress)
    ensures
        progress_view(r) == halted_result(halt_view(h), output@),
{
    match h {
        RunHalt::No => StepProgress::Done { result: Ok(output), pause_ms: 0 },
        RunHalt::Need(t) => StepProgress::NeedTool(t),
        RunHalt::Failed(e) => StepProgress::Done { result: Err(e), pause_ms: 0 },
    }
}

/// One attempt at a wait step.
fn attempt_wait(condition: &Option<Condition>, timeout_ms: u64) -> (r: StepProgress)
    ensures
        progress_view(r) == wait_result(*condition, timeout_ms),
{
    if timeout_ms == 0 {
        return StepProgress::Done { result: Ok(json_quote("Timeout reached")), pause_ms: 0 };
    }
    match condition {
        None => StepProgress::Done { result: Ok(json_quote("Timeout reached")), pause_ms: timeout_ms },
        Some(c) => {
            let empty: StrMap<String> = StrMap::new();
            assert(vars_view(empty) =~= Map::<Seq<char>, Seq<char>>::empty());
            match evaluate_condition(c, &empty) {
                Err(e) => StepProgress::Done { result: Err(e), pause_ms: 0 },
                Ok(b) => if b {
                    StepProgress::Done { result: Ok(json_quote("Condition met")), pause_ms: 0 }
                } else {
                    StepProgress::Done { result: Ok(json_quote("Timeout reached")), pause_ms: timeout_ms }
                },
            }
        },
    }
}

/// One attempt at `step`, given the outcomes of the tool calls it has made so far
/// in this attempt; the variables are updated as the attempt sets them.
pub fn attempt_step(step: &WorkflowStep, vars: &mut StrMap<String>, outs: &Vec<ToolOutcome>) -> (r: StepProgress)
    requires
        step_runnable(*step),
    ensures
        ({
            let a = attempt_of(*step, vars_view(*old(vars)), outcomes_view(outs@));
            &&& vars_view(*final(vars)) == a.vars
            &&& progress_view(r) == a.result
        }),
{
    match step {
        WorkflowStep::ToolCall { tool_call, .. } => {
            if outs.len() > 0 {
                let result = match &outs[0] {
                    Ok(t) => Ok(json_quote(t.as_str())),
                    Err(e) => Err(copy_error(e)),
                };
                StepProgress::Done { result, pause_ms: 0 }
            } else {
                StepProgress::NeedTool(copy_tool_call(tool_call))
            }
        },
        WorkflowStep::ConditionalBranch { condition, then_steps, else_steps, .. } => {
            match evaluate_condition(condition, vars) {
                Err(e) => StepProgress::Done { result: Err(e), pause_ms: 0 },
                Ok(b) => {
                    let chosen = if b { then_steps } else { else_steps };
                    let (_results, _used, halt) = run_inner(InnerMode::Branch, chosen, vars, outs, 0);
                    halted_progress(halt, if b { "true".to_owned() } else { "false".to_owned() })
                },
            }
        },
        WorkflowStep::Loop { variable, items, loop_steps, max_iterations, .. } => {
            let limit = match max_iterations {
                Some(m) => *m,
                None => DEFAULT_MAX_LOOP_ITERATIONS,
            };
            let n = if items.len() < limit { items.len() } else { limit };
            let (arrays, halt) = run_loop(variable, items, loop_steps, vars, outs, n);
            halted_progress(halt, array_of(&arrays))
        },
        WorkflowStep::SetVariable { variable, value, .. } => {
            vars.insert(variable.clone(), value.clone());
            StepProgress::Done { result: Ok(set_output(true, variable.as_str(), value.as_str())), pause_ms: 0 }
        },
        WorkflowStep::Wait { condition, timeout_ms, .. } => attempt_wait(condition, *timeout_ms),
        WorkflowStep::Parallel { parallel_steps, .. } => {
            let (results, halt) = run_parallel(parallel_steps, vars, outs);
            halted_progress(halt, array_of(&results))
        },
        WorkflowStep::ErrorHandler { error_variable, handler_steps, retry_count, .. } => {
            let pending = match vars.get(error_variable.as_str()) {
                Some(v) => !str_eq(v.as_str(), "null"),
                None => false,
            };
            if pending {
                let a = match retry_count {
                    Some(c) => *c,
                    None => DEFAULT_HANDLER_RETRIES,
                };
                let (end, last) = run_handler(handler_steps, vars, outs, a);
                match end {
                    HandlerEnd::Need(t) => StepProgress::NeedTool(t),
                    HandlerEnd::Done(rs) => StepProgress::Done { result: Ok(array_of(&rs)), pause_ms: 0 },
                    HandlerEnd::Running => {
                        let e = match last {
                            Some(e) => e,
                            None => WorkflowError::StepFailed {
                                step_name: "error_handler".to_owned(),
                                error: "All retry attempts failed".to_owned(),
                            },
                        };
                        StepProgress::Done { result: Err(e), pause_ms: 0 }
                    },
                }
            } else {
                StepProgress::Done { result: Ok(json_quote("No error to handle")), pause_ms: 0 }
            }
        },
    }
}

/// A copy of the variables.
fn copy_vars(m: &StrMap<String>) -> (r: StrMap<String>)
    ensures
        vars_view(r) == vars_view(*m),
{
    let r = m.clone();
    assert(vars_view(r) =~= vars_view(*m)) by {
        assert forall|k: Seq<char>| #[trigger] r@.contains_key(k) implies r@[k]@ == m@[k]@ by {
            assert(cloned::<String>(m@[k], r@[k]));
        }
    }
    r
}

/// The name of a step.
pub fn get_step_name(step: &WorkflowStep) -> (r: String)
    ensures
        r@ == step_name_of(*step),
{
    match step {
        WorkflowStep::ToolCall { name, .. } => name.clone(),
        WorkflowStep::ConditionalBranch { name, .. } => name.clone(),
        WorkflowStep::Loop { name, .. } => name.clone(),
        WorkflowStep::SetVariable { name, .. } => name.clone(),
        WorkflowStep::Wait { name, .. } => name.clone(),
        WorkflowStep::Parallel { name, .. } => name.clone(),
        WorkflowStep::ErrorHandler { name, .. } => name.clone(),
    }
}

/// Step execution result.
#[derive(Debug, Clone)]
pub struct StepResult {
    pub step_name: String,
    pub success: bool,
    /// The step's output as a JSON text (`null` for a failed step).
    pub output: String,
    pub error: Option<String>,
    /// Milliseconds spent on the step, over all its attempts.
    pub execution_time_ms: u64,
}

/// Workflow execution state.
pub struct WorkflowState {
    pub workflow_id: String,
    pub current_step: usize,
    pub variables: StrMap<String>,
    pub step_results: Vec<StepResult>,
    pub status: WorkflowStatus,
}

/// Web workflow definition.
pub struct WebWorkflow {
    pub id: String,
    pub name: String,
    pub description: String,
    pub steps: Vec<WorkflowStep>,
    /// Initial variables (JSON texts).
    pub variables: StrMap<String>,
    pub timeout_ms: Option<u64>,
    pub max_retries: u32,
    /// Creation time, in seconds since the Unix epoch.
    pub created_at: i64,
}

/// What the caller of a run does next.
pub enum WorkflowAction {
    /// Run this tool call and report its outcome with `on_tool_result`.
    CallTool(ToolCall),
    /// Sleep this many milliseconds, then report with `on_slept`.
    Sleep(u64),
    /// Nothing outside: ask again.
    Continue,
    /// The run is over: the state holds its status and results.
    Finished,
}

/// What follows a sleep.
pub enum AfterSleep {
    /// Record this outcome of the step (a wait step's pause).
    Record(Result<String, WorkflowError>),
    /// Attempt the step again (a retry's backoff).
    Retry,
}

/// Where a run stands.
pub enum Phase {
    /// Attempting the current step.
    Attempt,
    /// Sleeping before going on.
    Sleeping { ms: u64, then: AfterSleep },
    /// Over.
    Done,
}

/// The run of a workflow's steps, one at a time: a step is attempted (its tool
/// calls run by the caller), retried with backoff when retries are on, and the
/// run stops at the first step that fails.
pub struct WorkflowRun {
    pub steps: Vec<WorkflowStep>,
    pub state: WorkflowState,
    pub retry: RetryConfig,
    /// Whether failed steps are retried (a fresh run) or not (a resumed one).
    pub retrying: bool,
    /// Index of the first step of this run.
    pub start: usize,
    /// Number of results recorded before this run.
    pub base: usize,
    /// Index of the step being run.
    pub next: usize,
    /// The attempt at that step, counted from 1.
    pub attempt: u32,
    /// Outcomes of the tool calls of the current attempt.
    pub outcomes: Vec<ToolOutcome>,
    pub phase: Phase,
    /// Milliseconds spent on the current step so far, as the caller reports them.
    pub step_ms: u64,
}

/// Every backoff that a run may need fits in a `u64`.
pub open spec fn backoffs_fit(c: RetryConfig) -> bool {
    forall|a: nat| 1 <= a < c.max_attempts ==> #[trigger] backoff_fits(c, a)
}

/// A result records a success of the step named `name` with output `output`.
pub open spec fn is_success(r: StepResult, name: Seq<char>, output: Seq<char>) -> bool {
    r.success && r.step_name@ == name && r.output@ == output && r.error is None
}

/// A result records a failure of the step named `name` with message `msg`.
pub open spec fn is_failure(r: StepResult, name: Seq<char>, msg: Seq<char>) -> bool {
    &&& !r.success
    &&& r.step_name@ == name
    &&& r.output@ == "null"@
    &&& r.error matches Some(m) && m@ == msg
}

impl WorkflowRun {
    /// The run is consistent: the steps before `next` succeeded and were recorded
    /// in order, a failed run ends with the failure of step `next`, a completed run
    /// has run every step, and the attempt count stays within the retry limit.
    pub open spec fn wf(self) -> bool {
        let rs = self.state.step_results@;
        let done = self.next - self.start;
        &&& self.start <= self.next <= self.steps@.len()
        &&& self.base + done <= rs.len()
        &&& forall|i: int| 0 <= i < self.steps@.len() ==> step_runnable(#[trigger] self.steps@[i])
        &&& rs.len() == self.base + done + if self.state.status == WorkflowStatus::Failed { 1int } else { 0int }
        &&& forall|k: int|
            self.base <= k < self.base + done ==> #[trigger] rs[k].success && rs[k].step_name@ == step_name_of(
                self.steps@[self.start + k - self.base],
            )
        &&& self.state.status == WorkflowStatus::Failed ==> {
            &&& self.next < self.steps@.len()
            &&& !rs.last().success
            &&& rs.last().step_name@ == step_name_of(self.steps@[self.next as int])
        }
        &&& self.state.status == WorkflowStatus::Completed ==> self.next == self.steps@.len()
        &&& (self.phase is Done) <==> (self.state.status == WorkflowStatus::Completed || self.state.status
            == WorkflowStatus::Failed)
        &&& !(self.phase is Done) ==> self.state.status == WorkflowStatus::Running
        &&& self.phase is Sleeping ==> self.next < self.steps@.len()
        &&& self.next < self.steps@.len() ==> self.state.current_step == self.next
        &&& 1 <= self.attempt
        &&& self.retrying ==> backoffs_fit(self.retry) && (self.attempt <= self.retry.max_attempts
            || self.attempt == 1)
        &&& (self.phase matches Phase::Sleeping { then: AfterSleep::Retry, .. }) ==> self.retrying
            && self.attempt < self.retry.max_attempts
    }

    /// A fresh run of a workflow, with retries.
    pub fn start(workflow: WebWorkflow, retry: RetryConfig) -> (r: Self)
        requires
            forall|i: int| 0 <= i < workflow.steps@.len() ==> step_runnable(#[trigger] workflow.steps@[i]),
            backoffs_fit(retry),
        ensures
            r.wf(),
            r.retrying,
            r.retry == retry,
            r.steps@ == workflow.steps@,
            r.state.workflow_id == workflow.id,
            vars_view(r.state.variables) == vars_view(workflow.variables),
            r.state.step_results@.len() == 0,
            r.state.status == WorkflowStatus::Running,
            r.next == 0,
            r.attempt == 1,
            r.phase is Attempt,
            r.step_ms == 0,
    {
        let state = WorkflowState {
            workflow_id: workflow.id,
            current_step: 0,
            variables: workflow.variables,
            step_results: Vec::new(),
            status: WorkflowStatus::Running,
        };
        WorkflowRun {
            steps: workflow.steps,
            state,
            retry,
            retrying: true,
            start: 0,
            base: 0,
            next: 0,
            attempt: 1,
            outcomes: Vec::new(),
            phase: Phase::Attempt,
            step_ms: 0,
        }
    }

    /// A run that resumes a saved state at its current step, without retries: the
    /// current step runs again (a run leaves the state at the step it ran last).
    pub fn resume(state: WorkflowState, workflow: WebWorkflow) -> (r: Self)
        requires
            forall|i: int| 0 <= i < workflow.steps@.len() ==> step_runnable(#[trigger] workflow.steps@[i]),
        ensures
            r.wf(),
            !r.retrying,
            r.steps@ == workflow.steps@,
            r.state.workflow_id == state.workflow_id,
            vars_view(r.state.variables) == vars_view(state.variables),
            r.state.step_results@ == state.step_results@,
            r.state.status == WorkflowStatus::Running,
            r.start == (if state.current_step <= workflow.steps@.len() { state.current_step as int } else { workflow.steps@.len() as int }),
            r.next == r.start,
            r.phase is Attempt,
            r.step_ms == 0,
    {
        let start = if state.current_step <= workflow.steps.len() { state.current_step } else { workflow.steps.len() };
        let base = state.step_results.len();
        let st = WorkflowState {
            workflow_id: state.workflow_id,
            current_step: state.current_step,
            variables: state.variables,
            step_results: state.step_results,
            status: WorkflowStatus::Running,
        };
        WorkflowRun {
            steps: workflow.steps,
            state: st,
            retry: RetryConfig { max_attempts: 1, backoff_ms: 0, exponential_backoff: false },
            retrying: false,
            start,
            base,
            next: start,
            attempt: 1,
            outcomes: Vec::new(),
            phase: Phase::Attempt,
            step_ms: 0,
        }
    }
}

/// The message of a step that failed every attempt.
pub open spec fn max_retries_text(name: Seq<char>) -> Seq<char> {
    error_text((5nat, name, Seq::empty()))
}

/// An outcome as values.
pub open spec fn result_view(x: Result<String, WorkflowError>) -> Result<Seq<char>, ErrView> {
    match x {
        Ok(t) => Ok(t@),
        Err(e) => Err(err_view(e)),
    }
}

/// What a run keeps across every move: its steps, retry policy, mode, start,
/// earlier results and workflow id.
pub open spec fn frame(o: WorkflowRun, f: WorkflowRun) -> bool {
    &&& f.steps@ == o.steps@
    &&& f.retry == o.retry
    &&& f.retrying == o.retrying
    &&& f.start == o.start
    &&& f.base == o.base
    &&& f.state.workflow_id == o.state.workflow_id
}

/// How a run takes the end `res` of an attempt at its current step: a success is
/// recorded and the run moves to the next step; a failure is retried after the
/// backoff while attempts remain, and otherwise recorded and ends the run (with
/// retries, as "max retries exceeded").
pub open spec fn applied(o: WorkflowRun, res: Result<Seq<char>, ErrView>, f: WorkflowRun) -> bool {
    let name = step_name_of(o.steps@[o.next as int]);
    let rs = f.state.step_results@;
    &&& frame(o, f)
    &&& f.outcomes@.len() == 0
    &&& match res {
        Ok(out) => {
            &&& rs == o.state.step_results@.push(rs.last())
            &&& is_success(rs.last(), name, out)
            &&& rs.last().execution_time_ms == o.step_ms
            &&& f.step_ms == 0
            &&& f.next == o.next + 1
            &&& f.attempt == 1
            &&& f.phase is Attempt
            &&& f.state.status == WorkflowStatus::Running
        },
        Err(e) => if o.retrying && o.attempt < o.retry.max_attempts {
            &&& rs == o.state.step_results@
            &&& f.step_ms == o.step_ms
            &&& f.next == o.next
            &&& f.attempt == o.attempt
            &&& f.phase matches Phase::Sleeping { ms, then: AfterSleep::Retry } && ms == backoff_delay(o.retry, o.attempt as nat)
            &&& f.state.status == WorkflowStatus::Running
        } else {
            &&& rs == o.state.step_results@.push(rs.last())
            &&& is_failure(rs.last(), name, if o.retrying { max_retries_text(name) } else { error_text(e) })
            &&& rs.last().execution_time_ms == o.step_ms
            &&& f.step_ms == 0
            &&& f.next == o.next
            &&& f.phase is Done
            &&& f.state.status == WorkflowStatus::Failed
        },
    }
}

impl WorkflowRun {
    /// Records the end of an attempt at the current step; see [`applied`].
    #[verifier::spinoff_prover]
    fn apply(&mut self, res: Result<String, WorkflowError>)
        requires
            old(self).wf(),
            old(self).phase is Attempt || old(self).phase is Sleeping,
            old(self).next < old(self).steps@.len(),
            old(self).outcomes@.len() == 0,
        ensures
            final(self).wf(),
            applied(*old(self), result_view(res), *final(self)),
            vars_view(final(self).state.variables) == vars_view(old(self).state.variables),
    {
        let name = get_step_name(&self.steps[self.next]);
        let count = self.steps.len();
        let ghost rs0 = self.state.step_results@;
        match res {
            Ok(out) => {
                self.state.step_results.push(
                    StepResult { step_name: name, success: true, output: out, error: None, execution_time_ms: self.step_ms },
                );
                self.step_ms = 0;
                proof {
                    let rs = self.state.step_results@;
                    let o = *old(self);
                    assert forall|k: int|
                        o.base <= k < o.base + (o.next - o.start) + 1 implies #[trigger] rs[k].success
                            && rs[k].step_name@ == step_name_of(o.steps@[o.start + k - o.base]) by {
                        if k < o.base + (o.next - o.start) {
                            assert(rs[k] == rs0[k]);
                        }
                    }
                }
                self.next = self.next + 1;
                if self.next < count {
                    self.state.current_step = self.next;
                }
                self.attempt = 1;
                self.phase = Phase::Attempt;
            },
            Err(e) => {
                if self.retrying && self.attempt < self.retry.max_attempts {
                    proof {
                        assert(backoff_fits(self.retry, self.attempt as nat));
                    }
                    let ms = self.retry.backoff(self.attempt);
                    self.phase = Phase::Sleeping { ms, then: AfterSleep::Retry };
                } else {
                    let msg = if self.retrying {
                        WorkflowError::MaxRetriesExceeded { step_name: name.clone() }.message()
                    } else {
                        e.message()
                    };
                    self.state.step_results.push(
                        StepResult {
                            step_name: name,
                            success: false,
                            output: "null".to_owned(),
                            error: Some(msg),
                            execution_time_ms: self.step_ms,
                        },
                    );
                    self.step_ms = 0;
                    self.state.status = WorkflowStatus::Failed;
                    self.phase = Phase::Done;
                }
            },
        }
    }
}

impl WorkflowRun {
    /// Counts `ms` more milliseconds against the current step (saturating): the
    /// caller reports how long each action it performed for the run took.
    pub fn note_elapsed(&mut self, ms: u64)
        ensures
            *final(self) == (WorkflowRun {
                step_ms: if old(self).step_ms + ms > u64::MAX { u64::MAX } else { (old(self).step_ms + ms) as u64 },
                ..*old(self)
            }),
    {
        self.step_ms = if ms > u64::MAX - self.step_ms { u64::MAX } else { self.step_ms + ms };
    }

    /// Decides what comes next. A finished run stays finished; a sleeping one asks
    /// for its sleep. Otherwise the current step is attempted: once every step has
    /// run the workflow is completed; with retries and no attempt allowed the step
    /// fails at once; an attempt that needs a tool call asks for it; an attempt that
    /// ended keeps its variables and is recorded (after its pause, if it has one).
    pub fn next_action(&mut self) -> (r: WorkflowAction)
        requires
            old(self).wf(),
        ensures
            final(self).wf(),
            match old(self).phase {
                Phase::Done => r is Finished && *final(self) == *old(self),
                Phase::Sleeping { ms, .. } => r == WorkflowAction::Sleep(ms) && *final(self) == *old(self),
                Phase::Attempt => if old(self).next == old(self).steps@.len() {
                    &&& r is Continue
                    &&& frame(*old(self), *final(self))
                    &&& final(self).state.step_results@ == old(self).state.step_results@
                    &&& final(self).state.status == WorkflowStatus::Completed
                    &&& final(self).phase is Done
                } else if old(self).retrying && old(self).retry.max_attempts == 0 {
                    &&& r is Continue
                    &&& applied(*old(self), Err((5nat, step_name_of(old(self).steps@[old(self).next as int]), Seq::empty())), *final(self))
                } else {
                    let a = attempt_of(
                        old(self).steps@[old(self).next as int],
                        vars_view(old(self).state.variables),
                        outcomes_view(old(self).outcomes@),
                    );
                    match a.result {
                        AttemptResult::Need(t) => r == WorkflowAction::CallTool(t) && *final(self) == *old(self),
                        AttemptResult::Done(res, pause) => {
                            &&& r is Continue
                            &&& vars_view(final(self).state.variables) == a.vars
                            &&& if pause > 0 {
                                &&& frame(*old(self), *final(self))
                                &&& final(self).state.step_results@ == old(self).state.step_results@
                                &&& final(self).next == old(self).next
                                &&& final(self).attempt == old(self).attempt
                                &&& final(self).outcomes@.len() == 0
                                &&& final(self).state.status == WorkflowStatus::Running
                                &&& final(self).phase matches Phase::Sleeping { ms, then: AfterSleep::Record(x) } && ms
                                    == pause && result_view(x) == res
                            } else {
                                exists|m: WorkflowRun| m.outcomes@.len() == 0 && frame(*old(self), m) && m.next == old(self).next
                                    && m.attempt == old(self).attempt && m.state.step_results@ == old(self).state.step_results@
                                    && #[trigger] applied(m, res, *final(self))
                            }
                        },
                    }
                },
            },
    {
        match self.phase {
            Phase::Done => return WorkflowAction::Finished,
            Phase::Sleeping { ms, .. } => return WorkflowAction::Sleep(ms),
            Phase::Attempt => {},
        }
        let count = self.steps.len();
        if self.next == count {
            self.state.status = WorkflowStatus::Completed;
            self.phase = Phase::Done;
            return WorkflowAction::Continue;
        }
        if self.retrying && self.retry.max_attempts == 0 {
            self.outcomes = Vec::new();
            let name = get_step_name(&self.steps[self.next]);
            self.apply(Err(WorkflowError::MaxRetriesExceeded { step_name: name }));
            return WorkflowAction::Continue;
        }
        let mut vars = copy_vars(&self.state.variables);
        let progress = attempt_step(&self.steps[self.next], &mut vars, &self.outcomes);
        match progress {
            StepProgress::NeedTool(t) => WorkflowAction::CallTool(t),
            StepProgress::Done { result, pause_ms } => {
                self.state.variables = vars;
                self.outcomes = Vec::new();
                let ghost m = *self;
                if pause_ms > 0 {
                    self.phase = Phase::Sleeping { ms: pause_ms, then: AfterSleep::Record(result) };
                } else {
                    self.apply(result);
                }
                WorkflowAction::Continue
            },
        }
    }

    /// Takes the outcome of the tool call that the run asked for; outside an
    /// attempt it changes nothing.
    pub fn on_tool_result(&mut self, outcome: ToolOutcome)
        requires
            old(self).wf(),
        ensures
            final(self).wf(),
            if old(self).phase is Attempt && old(self).next < old(self).steps@.len() {
                &&& frame(*old(self), *final(self))
                &&& final(self).outcomes@ == old(self).outcomes@.push(outcome)
                &&& final(self).state == old(self).state
                &&& final(self).next == old(self).next
                &&& final(self).attempt == old(self).attempt
                &&& final(self).phase is Attempt
            } else {
                *final(self) == *old(self)
            },
    {
        if let Phase::Attempt = self.phase {
            if self.next < self.steps.len() {
                self.outcomes.push(outcome);
            }
        }
    }

    /// Takes the end of a sleep: a paused step's outcome is recorded, a retry
    /// starts the next attempt; outside a sleep it changes nothing.
    pub fn on_slept(&mut self)
        requires
            old(self).wf(),
        ensures
            final(self).wf(),
            match old(self).phase {
                Phase::Sleeping { then: AfterSleep::Record(x), .. } => applied(*old(self), result_view(x), *final(self))
                    && vars_view(final(self).state.variables) == vars_view(old(self).state.variables),
                Phase::Sleeping { then: AfterSleep::Retry, .. } => {
                    &&& frame(*old(self), *final(self))
                    &&& final(self).state == old(self).state
                    &&& final(self).next == old(self).next
                    &&& final(self).attempt == old(self).attempt + 1
                    &&& final(self).outcomes@.len() == 0
                    &&& final(self).phase is Attempt
                },
                _ => *final(self) == *old(self),
            },
    {
        let mut phase = Phase::Attempt;
        std::mem::swap(&mut phase, &mut self.phase);
        match phase {
            Phase::Sleeping { then: AfterSleep::Record(x), .. } => {
                self.outcomes = Vec::new();
                self.apply(x);
            },
            Phase::Sleeping { then: AfterSleep::Retry, .. } => {
                self.outcomes = Vec::new();
                self.attempt = self.attempt + 1;
            },
            other => {
                self.phase = other;
            },
        }
    }
}

/// Law: a finished run either completed, having run and recorded every step from
/// its start in order, each a success; or failed, having recorded the successes of
/// the steps before the failing one and then that step's failure.
pub proof fn law_finished_run(run: WorkflowRun)
    requires
        run.wf(),
        run.phase is Done,
    ensures
        run.state.status == WorkflowStatus::Completed || run.state.status == WorkflowStatus::Failed,
        run.state.status == WorkflowStatus::Completed ==> {
            &&& run.state.step_results@.len() == run.base + run.steps@.len() - run.start
            &&& forall|k: int|
                run.base <= k < run.state.step_results@.len() ==> (#[trigger] run.state.step_results@[k]).success
        },
        run.state.status == WorkflowStatus::Failed ==> {
            &&& run.state.step_results@.len() == run.base + (run.next - run.start) + 1
            &&& forall|k: int|
                run.base <= k < run.state.step_results@.len() - 1 ==> (#[trigger] run.state.step_results@[k]).success
            &&& !run.state.step_results@.last().success
            &&& run.state.step_results@.last().step_name@ == step_name_of(run.steps@[run.next as int])
        },
{
}

/// Law: with retries on, a step is never attempted more than `max_attempts` times
/// (once when `max_attempts` is zero: it then fails without running).
pub proof fn law_attempts_bounded(run: WorkflowRun)
    requires
        run.wf(),
        run.retrying,
    ensures
        run.retry.max_attempts >= 1 ==> run.attempt <= run.retry.max_attempts,
{
}

/// Law: a variable that a step sets is then visible: it exists and equals the
/// value set.
pub proof fn law_set_variable_is_visible(
    vars: Map<Seq<char>, Seq<char>>,
    name: String,
    variable: String,
    value: String,
    outs: Seq<Result<Seq<char>, ErrView>>,
)
    ensures
        ({
            let after = attempt_of(WorkflowStep::SetVariable { name, variable, value }, vars, outs).vars;
            &&& condition_value(Condition::Exists { variable }, after) == Ok::<bool, Seq<char>>(true)
            &&& after[variable@] == value@
        }),
{
}

/// The first `j` iterations of a loop yield at most `j` arrays.
proof fn lemma_loop_arrays(
    variable: Seq<char>,
    items: Seq<String>,
    steps: Seq<WorkflowStep>,
    vars: Map<Seq<char>, Seq<char>>,
    outs: Seq<Result<Seq<char>, ErrView>>,
    j: nat,
)
    ensures
        loop_upto(variable, items, steps, vars, outs, j).arrays.len() <= j,
    decreases j,
{
    if j > 0 {
        lemma_loop_arrays(variable, items, steps, vars, outs, (j - 1) as nat);
    }
}

/// Law: a loop runs at most `max_iterations` iterations (100 when unset), and no
/// more than it has items.
pub proof fn law_loop_bounded(
    variable: Seq<char>,
    items: Seq<String>,
    steps: Seq<WorkflowStep>,
    vars: Map<Seq<char>, Seq<char>>,
    outs: Seq<Result<Seq<char>, ErrView>>,
    limit: nat,
)
    ensures
        ({
            let n = if items.len() < limit { items.len() } else { limit };
            &&& loop_upto(variable, items, steps, vars, outs, n).arrays.len() <= items.len()
            &&& loop_upto(variable, items, steps, vars, outs, n).arrays.len() <= limit
        }),
{
    let n = if items.len() < limit { items.len() } else { limit };
    lemma_loop_arrays(variable, items, steps, vars, outs, n);
}

/// Whether every step of a list can be attempted (see [`step_runnable`]).
pub fn workflow_runnable(steps: &Vec<WorkflowStep>) -> (r: bool)
    ensures
        r == forall|i: int| 0 <= i < steps@.len() ==> step_runnable(#[trigger] steps@[i]),
{
    let mut i: usize = 0;
    while i < steps.len()
        invariant
            i <= steps@.len(),
            forall|k: int| 0 <= k < i ==> step_runnable(#[trigger] steps@[k]),
        decreases steps.len() - i,
    {
        if let WorkflowStep::Parallel { max_concurrent: Some(m), .. } = &steps[i] {
            if *m == 0 {
                assert(!step_runnable(steps@[i as int]));
                return false;
            }
        }
        i = i + 1;
    }
    true
}

impl RetryConfig {
    /// Whether every backoff of this policy fits in a `u64` (see [`backoffs_fit`]).
    pub fn backoffs_fit_check(&self) -> (r: bool)
        ensures
            r == backoffs_fit(*self),
    {
        if !self.exponential_backoff || self.max_attempts <= 1 {
            return true;
        }
        if self.max_attempts > 65 {
            assert(!backoff_fits(*self, 65));
            return false;
        }
        let top = self.max_attempts - 2;
        let p = power_of_two(top);
        let fits = self.backoff_ms.checked_mul(p).is_some();
        proof {
            if fits {
                assert forall|a: nat| 1 <= a < self.max_attempts implies #[trigger] backoff_fits(*self, a) by {
                    if a - 1 < top {
                        lemma_pow2_strictly_increases((a - 1) as nat, top as nat);
                    }
                    let x = pow2((a - 1) as nat);
                    let y = pow2(top as nat);
                    let b = self.backoff_ms as int;
                    assert(b * x <= b * y) by (nonlinear_arith)
                        requires
                            x <= y,
                            b >= 0,
                    ;
                }
            } else {
                assert(!backoff_fits(*self, (top + 1) as nat));
            }
        }
        fits
    }
}

/// The default retry policy fits its backoffs.
proof fn lemma_default_backoffs_fit(c: RetryConfig)
    requires
        c.max_attempts == 3,
        c.backoff_ms == 1000,
        c.exponential_backoff,
    ensures
        backoffs_fit(c),
{
    lemma2_to64();
}

/// Workflow executor: runs workflows for the tools of its registry.
pub struct WorkflowExecutor {
    pub tool_registry: ToolRegistry,
}

impl WorkflowExecutor {
    /// Create a new workflow executor.
    pub fn new(tool_registry: ToolRegistry) -> (r: Self)
        ensures
            r.tool_registry@ == tool_registry@,
    {
        WorkflowExecutor { tool_registry }
    }

    /// A run of the workflow with the default retry policy (3 attempts, 1000 ms
    /// doubling backoff).
    pub fn execute_workflow(&self, workflow: WebWorkflow) -> (r: WorkflowRun)
        requires
            forall|i: int| 0 <= i < workflow.steps@.len() ==> step_runnable(#[trigger] workflow.steps@[i]),
        ensures
            r.wf(),
            r.retrying,
            r.retry.max_attempts == 3 && r.retry.backoff_ms == 1000 && r.retry.exponential_backoff,
            r.steps@ == workflow.steps@,
            r.state.workflow_id == workflow.id,
            vars_view(r.state.variables) == vars_view(workflow.variables),
            r.state.step_results@.len() == 0,
            r.next == 0,
            r.phase is Attempt,
    {
        let retry = RetryConfig::default();
        proof {
            lemma_default_backoffs_fit(retry);
        }
        WorkflowRun::start(workflow, retry)
    }

    /// A run of the workflow with a custom retry policy.
    pub fn execute_workflow_with_retry(&self, workflow: WebWorkflow, retry_config: &RetryConfig) -> (r: WorkflowRun)
        requires
            forall|i: int| 0 <= i < workflow.steps@.len() ==> step_runnable(#[trigger] workflow.steps@[i]),
            backoffs_fit(*retry_config),
        ensures
            r.wf(),
            r.retrying,
            r.retry == *retry_config,
            r.steps@ == workflow.steps@,
            r.state.workflow_id == workflow.id,
            vars_view(r.state.variables) == vars_view(workflow.variables),
            r.state.step_results@.len() == 0,
            r.next == 0,
            r.phase is Attempt,
    {
        WorkflowRun::start(workflow, *retry_config)
    }

    /// The name of a step.
    pub fn get_step_name(&self, step: &WorkflowStep) -> (r: String)
        ensures
            r@ == step_name_of(*step),
    {
        get_step_name(step)
    }

    /// Evaluates a condition against the variables of a state.
    pub fn evaluate_condition(&self, condition: &Condition, state: &WorkflowState) -> (r: Result<bool, WorkflowError>)
        ensures
            match condition_value(*condition, vars_view(state.variables)) {
                Ok(b) => r == Ok::<bool, WorkflowError>(b),
                Err(t) => r matches Err(e) && err_view(e) == (1nat, t, Seq::<char>::empty()),
            },
    {
        evaluate_condition(condition, &state.variables)
    }
}

/// Counts of a state's results.
#[derive(Debug, Clone, Copy)]
pub struct ProgressCounts {
    pub total_steps: usize,
    pub successful_steps: usize,
    pub failed_steps: usize,
}

/// How many of the results are successes.
pub open spec fn successes(rs: Seq<StepResult>) -> nat
    decreases rs.len(),
{
    if rs.len() == 0 {
        0
    } else {
        successes(rs.drop_last()) + if rs.last().success { 1nat } else { 0nat }
    }
}

impl WorkflowState {
    /// The number of results, of successful ones and of failed ones.
    pub fn progress_counts(&self) -> (r: ProgressCounts)
        ensures
            r.total_steps == self.step_results@.len(),
            r.successful_steps == successes(self.step_results@),
            r.failed_steps == r.total_steps - r.successful_steps,
    {
        let rs = &self.step_results;
        let mut ok: usize = 0;
        let mut i: usize = 0;
        while i < rs.len()
            invariant
                i <= rs@.len(),
                ok == successes(rs@.take(i as int)),
                ok <= i,
            decreases rs.len() - i,
        {
            proof {
                assert(rs@.take(i + 1).drop_last() =~= rs@.take(i as int));
            }
            if rs[i].success {
                ok = ok + 1;
            }
            i = i + 1;
        }
        assert(rs@.take(rs@.len() as int) =~= rs@);
        ProgressCounts { total_steps: rs.len(), successful_steps: ok, failed_steps: rs.len() - ok }
    }
}

/// Builder for creating workflows.
pub struct WebWorkflowBuilder {
    pub id: Option<String>,
    pub name: String,
    pub description: String,
    pub steps: Vec<WorkflowStep>,
    pub variables: StrMap<String>,
    pub timeout_ms: Option<u64>,
    pub max_retries: u32,
}

impl WebWorkflowBuilder {
    /// A builder for a workflow with this name, no steps and three retries.
    pub fn new<T: IntoText>(name: T) -> (r: Self)
        ensures
            r.id is None,
            r.name@ == name.text_of(),
            r.description@.len() == 0,
            r.steps@.len() == 0,
            r.variables@.len() == 0,
            r.timeout_ms is None,
            r.max_retries == 3,
    {
        WebWorkflowBuilder {
            id: None,
            name: name.into_text(),
            description: String::new(),
            steps: Vec::new(),
            variables: StrMap::new(),
            timeout_ms: None,
            max_retries: 3,
        }
    }

    /// Sets the workflow id.
    pub fn id<T: IntoText>(self, id: T) -> (r: Self)
        ensures
            r.id matches Some(i) && i@ == id.text_of(),
            r.name == self.name,
            r.steps@ == self.steps@,
    {
        WebWorkflowBuilder { id: Some(id.into_text()), ..self }
    }

    /// Sets the description.
    pub fn description<T: IntoText>(self, desc: T) -> (r: Self)
        ensures
            r.description@ == desc.text_of(),
            r.name == self.name,
            r.steps@ == self.steps@,
    {
        WebWorkflowBuilder { description: desc.into_text(), ..self }
    }

    /// Adds a tool call step.
    pub fn tool_call<T: IntoText>(self, name: T, tool_call: ToolCall) -> (r: Self)
        ensures
            r.steps@.len() == self.steps@.len() + 1,
            r.steps@.drop_last() == self.steps@,
            r.steps@.last() matches WorkflowStep::ToolCall { name: n, tool_call: t, timeout_ms: None } && n@
                == name.text_of() && t == tool_call,
            r.name == self.name,
    {
        let mut b = self;
        b.steps.push(WorkflowStep::ToolCall { name: name.into_text(), tool_call, timeout_ms: None });
        assert(b.steps@.drop_last() =~= self.steps@);
        b
    }

    /// Adds a conditional branch.
    pub fn conditional_branch<T: IntoText>(
        self,
        name: T,
        condition: Condition,
        then_steps: Vec<WorkflowStep>,
        else_steps: Vec<WorkflowStep>,
    ) -> (r: Self)
        ensures
            r.steps@.len() == self.steps@.len() + 1,
            r.steps@.drop_last() == self.steps@,
            r.steps@.last() matches WorkflowStep::ConditionalBranch { name: n, condition: c, .. } && n@
                == name.text_of() && c == condition,
            r.name == self.name,
    {
        let mut b = self;
        b.steps.push(WorkflowStep::ConditionalBranch { name: name.into_text(), condition, then_steps, else_steps });
        assert(b.steps@.drop_last() =~= self.steps@);
        b
    }

    /// Adds a variable assignment (the value a JSON text).
    pub fn set_variable<T: IntoText, U: IntoText>(self, name: T, variable: U, value: String) -> (r: Self)
        ensures
            r.steps@.len() == self.steps@.len() + 1,
            r.steps@.drop_last() == self.steps@,
            r.steps@.last() matches WorkflowStep::SetVariable { name: n, variable: v, value: x } && n@
                == name.text_of() && v@ == variable.text_of() && x == value,
            r.name == self.name,
    {
        let mut b = self;
        b.steps.push(WorkflowStep::SetVariable { name: name.into_text(), variable: variable.into_text(), value });
        assert(b.steps@.drop_last() =~= self.steps@);
        b
    }

    /// Adds a wait step without condition.
    pub fn wait<T: IntoText>(self, name: T, timeout_ms: u64) -> (r: Self)
        ensures
            r.steps@.len() == self.steps@.len() + 1,
            r.steps@.drop_last() == self.steps@,
            r.steps@.last() matches WorkflowStep::Wait { name: n, condition: None, timeout_ms: t } && n@
                == name.text_of() && t == timeout_ms,
            r.name == self.name,
    {
        let mut b = self;
        b.steps.push(WorkflowStep::Wait { name: name.into_text(), condition: None, timeout_ms });
        assert(b.steps@.drop_last() =~= self.steps@);
        b
    }

    /// Sets an initial variable (the value a JSON text).
    pub fn variable<T: IntoText>(self, key: T, value: String) -> (r: Self)
        ensures
            r.variables@ == self.variables@.insert(key.text_of(), value),
            r.name == self.name,
            r.steps@ == self.steps@,
    {
        let mut b = self;
        b.variables.insert(key.into_text(), value);
        b
    }

    /// Sets the timeout.
    pub fn timeout_ms(self, timeout: u64) -> (r: Self)
        ensures
            r.timeout_ms == Some(timeout),
            r.name == self.name,
            r.steps@ == self.steps@,
    {
        WebWorkflowBuilder { timeout_ms: Some(timeout), ..self }
    }

    /// Adds a step.
    pub fn step(self, step: WorkflowStep) -> (r: Self)
        ensures
            r.steps@ == self.steps@.push(step),
            r.name == self.name,
    {
        let mut b = self;
        b.steps.push(step);
        b
    }

    /// The workflow; without an id it is named after the creation time.
    pub fn build(self) -> (r: WebWorkflow)
        ensures
            r.name == self.name,
            r.description == self.description,
            r.steps@ == self.steps@,
            r.variables@ == self.variables@,
            r.timeout_ms == self.timeout_ms,
            r.max_retries == self.max_retries,
            r.created_at >= 0,
            match self.id {
                Some(i) => r.id == i,
                None => r.id@ == "workflow_"@ + decimal(r.created_at as nat),
            },
    {
        let now = utc_now_timestamp();
        let id = match self.id {
            Some(i) => i,
            None => {
                let mut s = "workflow_".to_owned();
                push_str(&mut s, decimal_u64_string(now as u64).as_str());
                s
            },
        };
        WebWorkflow {
            id,
            name: self.name,
            description: self.description,
            steps: self.steps,
            variables: self.variables,
            timeout_ms: self.timeout_ms,
            max_retries: self.max_retries,
            created_at: now,
        }
    }
}

impl WebWorkflow {
    /// A builder for a workflow with this name.
    pub fn builder<T: IntoText>(name: T) -> (r: WebWorkflowBuilder)
        ensures
            r.id is None,
            r.name@ == name.text_of(),
            r.steps@.len() == 0,
            r.variables@.len() == 0,
            r.max_retries == 3,
    {
        WebWorkflowBuilder::new(name)
    }
}

} // verus!
