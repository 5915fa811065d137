//! The task orchestrator: one input is driven through
//! Data -> Prompt -> Chat -> Output as a state machine. Each transition
//! consumes the result of the outside work the previous step asked for
//! (a script evaluation, a template rendering, the chat call), returns
//! the records to emit (telemetry, cost, usage, notices), and the next
//! piece of outside work - or the task's outcome. The embedder performs
//! the work and feeds the result back; it never decides.
use vstd::prelude::*;

use crate::agent::{Agent, PartKind, PromptPart, opt_str_view, parse_prompt_part_options,
    spec_parse_part_options};
use crate::config::{AgentOptions, ChatOptions, options_value_ok};
use crate::pricing::{Usage, price_it, spec_price, spec_providers};
use crate::report::{format_first_info, format_model, spec_first_info_text, spec_model_text};
use crate::signal::{Classified, ClassifiedV, classify, spec_classify};
use crate::text::{all_spaces, chars_vec, is_blank, join_blank, lower_ascii, spec_join_blank,
    spec_split_first, split_first_char, strs_v, string_from_chars, to_ascii_lower, trim_chars,
    trim_spec};
use crate::value::{DataValue, NumVal, ValView, kv_dv, lemma_kv_dv, lemma_obj_get_skip, obj_get};
use vstd::string::StringExecFns;

verus! {

// region: types

/// A stage of the task pipeline.
#[derive(Debug, Clone, Copy, PartialEq, Eq, Structural)]
pub enum Stage {
    Data,
    Ai,
    Output,
}

/// The two dry-run checkpoints: stop before issuing the chat request,
/// or stop after receiving the response.
#[derive(Debug, Clone, Copy, PartialEq, Eq, Structural)]
pub enum DryMode {
    Off,
    Req,
    Res,
}

#[derive(Debug, Clone, Copy, PartialEq, Eq, Structural)]
pub struct RunBaseOptions {
    pub verbose: bool,
    pub dry_mode: DryMode,
}

#[derive(Debug, Clone, Copy, PartialEq, Eq, Structural)]
pub enum LogKind {
    SysInfo,
    SysWarn,
    SysError,
}

/// A model identity: the adapter (provider) kind and the model name.
#[derive(Debug)]
pub struct ModelIden {
    pub adapter_kind: String,
    pub model_name: String,
}

/// One chat message of the assembled request. `cache` carries the
/// ephemeral-cache marker of the part's cache hint.
#[derive(Debug)]
pub struct ChatMessage {
    pub role: PartKind,
    pub content: String,
    pub cache: bool,
}

/// What the chat client returned, normalized to plain values.
#[derive(Debug)]
pub struct ChatResponseData {
    pub content_texts: Vec<String>,
    pub reasoning_content: Option<String>,
    pub usage: Usage,
    pub model_iden: ModelIden,
    pub provider_model_iden: ModelIden,
}

/// The normalized chat result: content, reasoning, model identity,
/// duration (millisecond precision), price (ten-thousandths of a
/// dollar), raw usage, and the composed info line.
#[derive(Debug)]
pub struct AiResponse {
    pub content: Option<String>,
    pub reasoning_content: Option<String>,
    pub model_name: String,
    pub adapter_kind: String,
    pub duration_ms: u64,
    pub price_usd_e4: Option<i64>,
    pub usage: Usage,
    pub info: String,
}

/// The task's final output: the chat response itself when no Output
/// script ran, or the Output script's value.
#[derive(Debug)]
pub enum RunAgentInputResponse {
    AiReponse(AiResponse),
    OutputResponse(DataValue),
}

impl RunAgentInputResponse {
    /// The textual content: the chat content, or the output value when
    /// it is a string.
    pub fn as_str(&self) -> (r: Option<&str>)
        ensures
            match *self {
                RunAgentInputResponse::AiReponse(ref a) => match a.content {
                    Some(ref c) => r is Some && r->0@ == c@,
                    None => r is None,
                },
                RunAgentInputResponse::OutputResponse(ref v) => match r {
                    Some(s) => v@ == ValView::Str(s@),
                    None => !(v@ is Str),
                },
            },
    {
        match self {
            RunAgentInputResponse::AiReponse(a) => match &a.content {
                Some(c) => Some(c.as_str()),
                None => None,
            },
            RunAgentInputResponse::OutputResponse(v) => match v.as_str() {
                Some(s) => Some(s.as_str()),
                None => None,
            },
        }
    }

    /// The output as a value: the chat content as a string (null when
    /// absent), or the output value itself.
    pub fn into_value(self) -> (r: DataValue)
        ensures
            match self {
                RunAgentInputResponse::AiReponse(a) => match a.content {
                    Some(c) => r@ == ValView::Str(c@),
                    None => r@ == ValView::Null,
                },
                RunAgentInputResponse::OutputResponse(v) => r == v,
            },
    {
        match self {
            RunAgentInputResponse::AiReponse(a) => match a.content {
                Some(c) => DataValue::Str(c),
                None => DataValue::Null,
            },
            RunAgentInputResponse::OutputResponse(v) => v,
        }
    }
}

/// A human-facing notice for the notification sink; the embedder
/// renders it.
#[derive(Debug)]
pub enum PublishEvent {
    /// A blank separator line before verbose prompt dumps.
    BlankLine,
    /// One rendered prompt message, dumped in verbose mode.
    PromptMessage { role: PartKind, content: String },
    /// The request is about to be sent to this model.
    SendingTo { model: String },
    /// A response arrived: the provider's model name and the info line.
    Received { model_name: String, info: String },
    /// The raw chat output, dumped in verbose mode.
    AiOutput { model_info: String, text: Option<String> },
    /// The message list was empty, so no request was made.
    NoInstruction,
}

/// A record the embedder writes out, fire-and-forget: telemetry stage
/// boundaries, the model override note, cost and usage updates, log
/// lines, and notices. Failures of these writes never alter the task.
#[derive(Debug)]
pub enum RecEvent {
    StageStart(Stage),
    StageEnd(Stage),
    ModelOverride(String),
    Cost(i64),
    TokenUsage(Usage),
    Log(String, LogKind),
    Publish(PublishEvent),
}

/// The outside work the embedder must perform next, or the outcome.
#[derive(Debug)]
pub enum TaskAction {
    /// Evaluate a stage script in a fresh engine against this scope,
    /// with the agent directory on the script search path.
    EvalScript { stage: Stage, script: String, scope: Vec<(String, DataValue)>, dir: String },
    /// Render one part's template against this scope.
    RenderPart { part_idx: usize, template: String, scope: Vec<(String, DataValue)> },
    /// Issue the chat request.
    ExecChat { model: String, messages: Vec<ChatMessage>, options: ChatOptions },
    /// The task is finished: its output, or none (skip or dry-run).
    Done(Option<RunAgentInputResponse>),
}

/// What the embedder hands back for the work it performed.
#[derive(Debug)]
pub enum TaskEvent {
    /// The script evaluation's value, or the engine's error text.
    Evaluated(Result<DataValue, String>),
    /// The rendered text, or the renderer's error text.
    Rendered(Result<String, String>),
    /// The chat response, or the provider's error text; and the
    /// measured wall-clock duration in milliseconds.
    ChatDone(Result<ChatResponseData, String>, u64),
}

/// Where the task stands: what outside work it is waiting for.
#[derive(Debug, Clone, Copy, PartialEq, Eq, Structural)]
pub enum TaskPhase {
    DataEval,
    PartRender(usize),
    ChatWait,
    OutputEval,
    Finished,
}

/// The per-input task state. Each input gets its own flow; an options
/// override changes only this flow's agent copy.
#[derive(Debug)]
pub struct TaskFlow {
    pub phase: TaskPhase,
    pub agent: Agent,
    /// The model resolved at task start, for override detection.
    pub run_model: Option<String>,
    pub before_all: DataValue,
    pub label: String,
    pub options: RunBaseOptions,
    pub input: DataValue,
    pub data: DataValue,
    pub messages: Vec<ChatMessage>,
    pub ai_response: Option<AiResponse>,
}

/// Everything a task starts from.
#[derive(Debug)]
pub struct TaskSetup {
    pub agent: Agent,
    pub before_all_result: DataValue,
    pub label: String,
    pub input: DataValue,
    pub run_base_options: RunBaseOptions,
}

/// A fatal error of one input's task.
#[derive(Debug)]
pub enum RunError {
    /// The stage's script failed to evaluate.
    Script { stage: Stage, script: String, error: String },
    /// The stage's script returned a malformed control marker.
    MalformedSignal { stage: Stage },
    /// A control signal this stage does not support, by name.
    UnsupportedSignal { name: String },
    /// A Data-stage options override that does not parse.
    BadOptionsOverride,
    /// Rendering one part's template failed.
    Render { part_idx: usize, error: String },
    /// One part's inline options string is not a recognized directive.
    PartOptions { part_idx: usize },
    /// The chat provider failed; its error is passed on untouched.
    Chat { error: String },
}

/// One advance of the task: the new state, the records to emit in
/// order, and the next action.
#[derive(Debug)]
pub struct Step {
    pub flow: TaskFlow,
    pub recs: Vec<RecEvent>,
    pub action: TaskAction,
}

impl TaskFlow {
    pub open spec fn wf(self) -> bool {
        &&& self.agent.wf()
        &&& match self.phase {
            TaskPhase::PartRender(i) => i < self.agent.prompt_parts@.len(),
            TaskPhase::OutputEval => self.agent.output_script is Some,
            _ => true,
        }
    }
}

// endregion: types

// region: scopes

/// The Data-stage scope: the input, the before-all aggregate, and the
/// agent options.
pub open spec fn data_scope_ok(
    scope: Seq<(String, DataValue)>,
    input: ValView,
    before_all: ValView,
    opts: AgentOptions,
) -> bool {
    let sv = kv_dv(scope);
    &&& sv.len() == 3
    &&& sv[0].0 == "input"@ && sv[0].1 == input
    &&& sv[1].0 == "before_all"@ && sv[1].1 == before_all
    &&& sv[2].0 == "options"@ && options_value_ok(opts, sv[2].1)
}

/// The rendering scope of the prompt parts: the Data-stage result and
/// the input.
pub open spec fn render_scope_ok(
    scope: Seq<(String, DataValue)>,
    data: ValView,
    input: ValView,
) -> bool {
    let sv = kv_dv(scope);
    &&& sv.len() == 2
    &&& sv[0].0 == "data"@ && sv[0].1 == data
    &&& sv[1].0 == "input"@ && sv[1].1 == input
}

/// The chat response as a value for the Output scope; null when the
/// chat was skipped.
pub open spec fn ai_value_ok(a: AiResponse, v: ValView) -> bool {
    &&& v is Obj
    &&& v.get_key("content"@) == Some(
        match a.content {
            Some(c) => ValView::Str(c@),
            None => ValView::Null,
        },
    )
    &&& v.get_key("reasoning_content"@) == Some(
        match a.reasoning_content {
            Some(c) => ValView::Str(c@),
            None => ValView::Null,
        },
    )
    &&& v.get_key("model_name"@) == Some(ValView::Str(a.model_name@))
    &&& v.get_key("adapter_kind"@) == Some(ValView::Str(a.adapter_kind@))
    &&& v.get_key("duration_sec"@) == Some(
        ValView::Num(NumVal { mantissa: a.duration_ms as i64, scale: 3u32 }),
    )
    &&& v.get_key("price_usd"@) == Some(
        match a.price_usd_e4 {
            Some(p) => ValView::Num(NumVal { mantissa: p, scale: 4u32 }),
            None => ValView::Null,
        },
    )
    &&& v.get_key("info"@) == Some(ValView::Str(a.info@))
}

/// The Output-stage scope: input, data, before-all, the chat response
/// (or null), and the agent options.
pub open spec fn output_scope_ok(
    scope: Seq<(String, DataValue)>,
    input: ValView,
    data: ValView,
    before_all: ValView,
    ai: Option<AiResponse>,
    opts: AgentOptions,
) -> bool {
    let sv = kv_dv(scope);
    &&& sv.len() == 5
    &&& sv[0].0 == "input"@ && sv[0].1 == input
    &&& sv[1].0 == "data"@ && sv[1].1 == data
    &&& sv[2].0 == "before_all"@ && sv[2].1 == before_all
    &&& sv[3].0 == "ai_response"@ && (match ai {
        Some(a) => ai_value_ok(a, sv[3].1),
        None => sv[3].1 == ValView::Null,
    })
    &&& sv[4].0 == "options"@ && options_value_ok(opts, sv[4].1)
}

fn build_data_scope(input: &DataValue, before_all: &DataValue, opts: &AgentOptions) -> (r: Vec<
    (String, DataValue),
>)
    requires
        opts.wf(),
    ensures
        data_scope_ok(r@, input@, before_all@, *opts),
{
    let mut scope: Vec<(String, DataValue)> = Vec::new();
    scope.push(("input".to_owned(), input.deep_clone()));
    scope.push(("before_all".to_owned(), before_all.deep_clone()));
    scope.push(("options".to_owned(), opts.to_value()));
    proof {
        lemma_kv_dv(scope@);
    }
    scope
}

fn build_render_scope(data: &DataValue, input: &DataValue) -> (r: Vec<(String, DataValue)>)
    ensures
        render_scope_ok(r@, data@, input@),
{
    let mut scope: Vec<(String, DataValue)> = Vec::new();
    scope.push(("data".to_owned(), data.deep_clone()));
    scope.push(("input".to_owned(), input.deep_clone()));
    proof {
        lemma_kv_dv(scope@);
    }
    scope
}

fn ai_to_value(a: &AiResponse) -> (r: DataValue)
    requires
        a.duration_ms < 0x8000_0000_0000_0000,
    ensures
        ai_value_ok(*a, r@),
{
    let mut fields: Vec<(String, DataValue)> = Vec::new();
    fields.push(("content".to_owned(), match &a.content {
        Some(c) => DataValue::Str(c.clone()),
        None => DataValue::Null,
    }));
    fields.push(("reasoning_content".to_owned(), match &a.reasoning_content {
        Some(c) => DataValue::Str(c.clone()),
        None => DataValue::Null,
    }));
    fields.push(("model_name".to_owned(), DataValue::Str(a.model_name.clone())));
    fields.push(("adapter_kind".to_owned(), DataValue::Str(a.adapter_kind.clone())));
    fields.push(
        (
            "duration_sec".to_owned(),
            DataValue::Num(NumVal { mantissa: a.duration_ms as i64, scale: 3 }),
        ),
    );
    fields.push(("price_usd".to_owned(), match a.price_usd_e4 {
        Some(p) => DataValue::Num(NumVal { mantissa: p, scale: 4 }),
        None => DataValue::Null,
    }));
    fields.push(("info".to_owned(), DataValue::Str(a.info.clone())));
    let r = DataValue::Obj(fields);
    proof {
        lemma_kv_dv(fields@);
        let fv = kv_dv(fields@);
        reveal_strlit("content");
        reveal_strlit("reasoning_content");
        reveal_strlit("model_name");
        reveal_strlit("adapter_kind");
        reveal_strlit("duration_sec");
        reveal_strlit("price_usd");
        reveal_strlit("info");
        assert(fv[0].0 == "content"@);
        assert(fv[1].0 == "reasoning_content"@);
        assert(fv[2].0 == "model_name"@);
        assert(fv[3].0 == "adapter_kind"@);
        assert(fv[4].0 == "duration_sec"@);
        assert(fv[5].0 == "price_usd"@);
        assert(fv[6].0 == "info"@);
        assert(obj_get(fv, "content"@) == Some(fv[0].1));
        lemma_obj_get_skip(fv, "reasoning_content"@, 1);
        assert(fv.skip(1)[0] == fv[1]);
        lemma_obj_get_skip(fv, "model_name"@, 2);
        assert(fv.skip(2)[0] == fv[2]);
        lemma_obj_get_skip(fv, "adapter_kind"@, 3);
        assert(fv.skip(3)[0] == fv[3]);
        assert("duration_sec"@ != "adapter_kind"@) by {
            assert(("duration_sec"@)[0] == 'd');
            assert(("adapter_kind"@)[0] == 'a');
        }
        lemma_obj_get_skip(fv, "duration_sec"@, 4);
        assert(fv.skip(4)[0] == fv[4]);
        lemma_obj_get_skip(fv, "price_usd"@, 5);
        assert(fv.skip(5)[0] == fv[5]);
        lemma_obj_get_skip(fv, "info"@, 6);
        assert(fv.skip(6)[0] == fv[6]);
    }
    r
}

fn build_output_scope(
    input: &DataValue,
    data: &DataValue,
    before_all: &DataValue,
    ai: &Option<AiResponse>,
    opts: &AgentOptions,
) -> (r: Vec<(String, DataValue)>)
    requires
        opts.wf(),
        ai is Some ==> ai->0.duration_ms < 0x8000_0000_0000_0000,
    ensures
        output_scope_ok(r@, input@, data@, before_all@, *ai, *opts),
{
    let mut scope: Vec<(String, DataValue)> = Vec::new();
    scope.push(("input".to_owned(), input.deep_clone()));
    scope.push(("data".to_owned(), data.deep_clone()));
    scope.push(("before_all".to_owned(), before_all.deep_clone()));
    scope.push(("ai_response".to_owned(), match ai {
        Some(a) => ai_to_value(a),
        None => DataValue::Null,
    }));
    scope.push(("options".to_owned(), opts.to_value()));
    proof {
        lemma_kv_dv(scope@);
    }
    scope
}

// endregion: scopes

// region: prompt-part helpers

/// The text handed to the renderer for one part: the inline options
/// directive, when present, is prepended as a first line so template
/// variables inside it are resolved too.
pub open spec fn part_template_ok(p: PromptPart, t: Seq<char>) -> bool {
    match p.options_str {
        Some(o) => t == o@ + seq!['\n'] + p.content@,
        None => t == p.content@,
    }
}

fn prep_part_template(p: &PromptPart) -> (t: String)
    ensures
        part_template_ok(*p, t@),
{
    match &p.options_str {
        Some(o) => {
            let mut s = String::new();
            s.append(o.as_str());
            s.push('\n');
            s.append(p.content.as_str());
            proof {
                assert(s@ =~= o@ + seq!['\n'] + p.content@);
            }
            s
        },
        None => p.content.clone(),
    }
}

/// The rendered first line (the options directive) and the message
/// body, after rendering a part whose template had an options line.
pub open spec fn spec_rendered_options(had_options: bool, rendered: Seq<char>) -> Seq<char> {
    if had_options {
        trim_spec(spec_split_first(rendered, '\n').0)
    } else {
        Seq::empty()
    }
}

pub open spec fn spec_rendered_body(had_options: bool, rendered: Seq<char>) -> Seq<char> {
    if had_options {
        match spec_split_first(rendered, '\n').1 {
            Some(rest) => rest,
            None => Seq::empty(),
        }
    } else {
        rendered
    }
}

/// Finishing one rendered part: a whitespace-only body yields no
/// message; otherwise a non-empty options line must parse, and a `true`
/// cache hint marks the message.
pub open spec fn finished_part_ok(
    part_idx: int,
    kind: PartKind,
    had_options: bool,
    rendered: Seq<char>,
    r: Result<Option<ChatMessage>, RunError>,
) -> bool {
    let opts = spec_rendered_options(had_options, rendered);
    let body = spec_rendered_body(had_options, rendered);
    if all_spaces(body) {
        r matches Ok(o) && o is None
    } else if opts.len() > 0 && spec_parse_part_options(opts) is None {
        r matches Err(e) && e matches RunError::PartOptions { part_idx: pi } && pi == part_idx
    } else {
        let cache = if opts.len() == 0 {
            false
        } else {
            match spec_parse_part_options(opts)->0 {
                Some(po) => po.cache,
                None => false,
            }
        };
        &&& r is Ok
        &&& r->Ok_0 matches Some(m)
        &&& r->Ok_0->0.role == kind
        &&& r->Ok_0->0.content@ == body
        &&& r->Ok_0->0.cache == cache
    }
}

fn finish_part(part_idx: usize, kind: PartKind, had_options: bool, rendered: String) -> (r: Result<
    Option<ChatMessage>,
    RunError,
>)
    ensures
        finished_part_ok(part_idx as int, kind, had_options, rendered@, r),
{
    let chars = chars_vec(rendered.as_str());
    let (opts_chars, body): (Vec<char>, String) = if had_options {
        let (first, rest) = split_first_char(chars.as_slice(), '\n');
        let opts = trim_chars(first.as_slice());
        let body = match rest {
            Some(rest_chars) => string_from_chars(rest_chars.as_slice()),
            None => String::new(),
        };
        (opts, body)
    } else {
        (Vec::new(), rendered)
    };
    let body_chars = chars_vec(body.as_str());
    if is_blank(body_chars.as_slice()) {
        return Ok(None);
    }
    let cache: bool = if opts_chars.len() == 0 {
        false
    } else {
        let opts_str = string_from_chars(opts_chars.as_slice());
        match parse_prompt_part_options(opts_str.as_str()) {
            Ok(Some(po)) => po.cache,
            Ok(None) => false,
            Err(_) => {
                return Err(RunError::PartOptions { part_idx });
            },
        }
    };
    proof {
        let opts = spec_rendered_options(had_options, rendered@);
        assert(opts_chars@ =~= opts);
        if opts.len() > 0 {
            assert(trim_spec(opts) == opts) by {
                lemma_trim_of_trimmed(spec_split_first(rendered@, '\n').0);
            }
        }
    }
    Ok(Some(ChatMessage { role: kind, content: body, cache }))
}

/// Trimming is idempotent.
proof fn lemma_trim_of_trimmed(s: Seq<char>)
    ensures
        trim_spec(trim_spec(s)) == trim_spec(s),
{
    let dl = crate::text::drop_leading_spaces(s);
    lemma_drop_leading_keeps_leading(s);
    lemma_drop_trailing_keeps_first(dl);
    lemma_drop_trailing_no_trailing(dl);
    let t = trim_spec(s);
    lemma_drop_leading_no_leading(t);
    lemma_drop_trailing_no_trailing_direct(t);
}

proof fn lemma_drop_trailing_no_trailing(s: Seq<char>)
    ensures
        crate::text::drop_trailing_spaces(s).len() > 0 ==> !crate::text::is_space_char(
            crate::text::drop_trailing_spaces(s)[crate::text::drop_trailing_spaces(s).len() - 1],
        ),
    decreases s.len(),
{
    if s.len() > 0 && crate::text::is_space_char(s[s.len() - 1]) {
        lemma_drop_trailing_no_trailing(s.drop_last());
    }
}

proof fn lemma_drop_leading_keeps_leading(s: Seq<char>)
    ensures
        crate::text::drop_leading_spaces(s).len() > 0 ==> !crate::text::is_space_char(
            crate::text::drop_leading_spaces(s)[0],
        ),
    decreases s.len(),
{
    // recursion peels leading spaces until the head is not a space

    if s.len() > 0 && crate::text::is_space_char(s[0]) {
        lemma_drop_leading_keeps_leading(s.drop_first());
    }
}

proof fn lemma_drop_trailing_keeps_first(s: Seq<char>)
    ensures
        crate::text::drop_trailing_spaces(s).len() > 0 ==> crate::text::drop_trailing_spaces(
            s,
        )[0] == s[0],
        crate::text::drop_trailing_spaces(s).len() <= s.len(),
    decreases s.len(),
{
    if s.len() > 0 && crate::text::is_space_char(s[s.len() - 1]) {
        lemma_drop_trailing_keeps_first(s.drop_last());
    }
}

proof fn lemma_drop_leading_no_leading(t: Seq<char>)
    requires
        t.len() > 0 ==> !crate::text::is_space_char(t[0]),
    ensures
        crate::text::drop_leading_spaces(t) == t,
{
}

proof fn lemma_drop_trailing_no_trailing_direct(t: Seq<char>)
    requires
        t.len() > 0 ==> !crate::text::is_space_char(t[t.len() - 1]),
    ensures
        crate::text::drop_trailing_spaces(t) == t,
{
}

// endregion: prompt-part helpers

// region: the transitions

/// The model name the chat request is addressed to: the alias-resolved
/// model, or empty when the agent has none.
pub open spec fn chat_model_text(a: AgentOptions) -> Seq<char> {
    match a.resolved_model_view() {
        Some(m) => m,
        None => Seq::empty(),
    }
}

fn resolved_model_string(a: &AgentOptions) -> (r: String)
    requires
        a.wf(),
    ensures
        r@ == chat_model_text(*a),
{
    match a.resolve_model() {
        Some(m) => m.clone(),
        None => String::new(),
    }
}

/// The fields of the flow a step never touches.
pub open spec fn same_core(f: TaskFlow, g: TaskFlow) -> bool {
    &&& g.agent == f.agent
    &&& g.input == f.input
    &&& g.data == f.data
    &&& g.before_all == f.before_all
    &&& g.options == f.options
    &&& g.label == f.label
    &&& g.run_model == f.run_model
}

/// After the last part is rendered (or with no parts at all): verbose
/// dumps; the pre-request dry-run stop; the model-override note; then
/// either the chat request (message list non-empty), or - with no
/// messages - no chat at all, and straight on to the Output stage (its
/// scope's chat response null) or to a `None` outcome. `off` is where
/// these records start inside `s.recs`.
pub open spec fn post_prompt_ok(f: TaskFlow, s: Step, off: int) -> bool {
    let msgs = f.messages;
    let vn: int = if f.options.verbose {
        1 + msgs@.len() as int
    } else {
        0
    };
    let changed = opt_str_view(f.run_model) != f.agent.options.resolved_model_view();
    let ov: int = if changed {
        1
    } else {
        0
    };
    &&& (f.options.verbose ==> {
        &&& s.recs@.len() >= off + vn
        &&& s.recs@[off] matches RecEvent::Publish(PublishEvent::BlankLine)
        &&& forall|j: int|
            0 <= j < msgs@.len() ==> (#[trigger] s.recs@[off + 1 + j] matches RecEvent::Publish(
                PublishEvent::PromptMessage { role, content },
            ) && role == msgs@[j].role && content@ == msgs@[j].content@)
    })
    &&& if f.options.dry_mode is Req {
        &&& s.recs@.len() == off + vn
        &&& s.action matches TaskAction::Done(o) && o is None
        &&& s.flow.phase == TaskPhase::Finished
        &&& same_core(f, s.flow)
    } else {
        &&& (changed ==> (s.recs@[off + vn] matches RecEvent::ModelOverride(m) && m@
            == chat_model_text(f.agent.options)))
        &&& if msgs@.len() > 0 {
            &&& s.recs@.len() == off + vn + ov + 2
            &&& s.recs@[off + vn + ov] matches RecEvent::Publish(PublishEvent::SendingTo { model })
                && model@ == chat_model_text(f.agent.options)
            &&& s.recs@[off + vn + ov + 1] == RecEvent::StageStart(Stage::Ai)
            &&& s.action matches TaskAction::ExecChat { model, messages, options } && model@
                == chat_model_text(f.agent.options) && messages == f.messages && options == (
            ChatOptions {
                temperature: f.agent.options.temperature,
                top_p: f.agent.options.top_p,
            })
            &&& s.flow.phase == TaskPhase::ChatWait
            &&& s.flow.ai_response is None
            &&& same_core(f, s.flow)
        } else {
            &&& s.recs@[off + vn + ov] matches RecEvent::Publish(PublishEvent::NoInstruction)
            &&& if f.options.dry_mode is Res {
                &&& s.recs@.len() == off + vn + ov + 1
                &&& s.action matches TaskAction::Done(o) && o is None
                &&& s.flow.phase == TaskPhase::Finished
                &&& same_core(f, s.flow)
            } else if f.agent.output_script is Some {
                &&& s.recs@.len() == off + vn + ov + 2
                &&& s.recs@[off + vn + ov + 1] == RecEvent::StageStart(Stage::Output)
                &&& s.action matches TaskAction::EvalScript { stage, script, scope, dir } && stage
                    == Stage::Output && script@ == f.agent.output_script->0@ && dir@
                    == f.agent.file_dir@ && output_scope_ok(
                    scope@,
                    f.input@,
                    f.data@,
                    f.before_all@,
                    Option::<AiResponse>::None,
                    f.agent.options,
                )
                &&& s.flow.phase == TaskPhase::OutputEval
                &&& s.flow.ai_response is None
                &&& same_core(f, s.flow)
            } else {
                &&& s.recs@.len() == off + vn + ov + 1
                &&& s.action matches TaskAction::Done(o) && o is None
                &&& s.flow.phase == TaskPhase::Finished
                &&& same_core(f, s.flow)
            }
        }
    }
}

proof fn lemma_post_prompt_shift(f: TaskFlow, st: Step, s2: Step, off: int)
    requires
        post_prompt_ok(f, st, 0),
        s2.flow == st.flow,
        s2.action == st.action,
        off >= 0,
        s2.recs@.len() == off + st.recs@.len(),
        forall|i: int| 0 <= i < st.recs@.len() ==> s2.recs@[off + i] == st.recs@[i],
    ensures
        post_prompt_ok(f, s2, off),
{
    let msgs = f.messages;
    if f.options.verbose {
        assert forall|j: int| 0 <= j < msgs@.len() implies #[trigger] s2.recs@[off + 1 + j]
            matches RecEvent::Publish(PublishEvent::PromptMessage { role, content }) && role
            == msgs@[j].role && content@ == msgs@[j].content@ by {
            assert(s2.recs@[off + (1 + j)] == st.recs@[1 + j]);
        }
        assert(s2.recs@[off + 0] == st.recs@[0]);
    }
    let vn: int = if f.options.verbose {
        1 + msgs@.len() as int
    } else {
        0
    };
    let changed = opt_str_view(f.run_model) != f.agent.options.resolved_model_view();
    let ov: int = if changed {
        1
    } else {
        0
    };
    if !(f.options.dry_mode is Req) {
        if changed {
            assert(s2.recs@[off + vn] == st.recs@[vn]);
        }
        assert(s2.recs@[off + (vn + ov)] == st.recs@[vn + ov]);
        if st.recs@.len() > vn + ov + 1 {
            assert(s2.recs@[off + (vn + ov + 1)] == st.recs@[vn + ov + 1]);
        }
    }
}

fn post_prompt(f: TaskFlow) -> (s: Step)
    requires
        f.wf(),
    ensures
        post_prompt_ok(f, s, 0),
        s.flow.wf(),
{
    let mut recs: Vec<RecEvent> = Vec::new();
    if f.options.verbose {
        recs.push(RecEvent::Publish(PublishEvent::BlankLine));
        let mut j: usize = 0;
        while j < f.messages.len()
            invariant
                0 <= j <= f.messages@.len(),
                recs@.len() == 1 + j,
                recs@[0] matches RecEvent::Publish(PublishEvent::BlankLine),
                forall|k: int|
                    0 <= k < j ==> (#[trigger] recs@[1 + k] matches RecEvent::Publish(
                        PublishEvent::PromptMessage { role, content },
                    ) && role == f.messages@[k].role && content@ == f.messages@[k].content@),
            decreases f.messages@.len() - j,
        {
            recs.push(
                RecEvent::Publish(
                    PublishEvent::PromptMessage {
                        role: f.messages[j].role,
                        content: f.messages[j].content.clone(),
                    },
                ),
            );
            j = j + 1;
        }
    }
    if matches!(f.options.dry_mode, DryMode::Req) {
        let flow = TaskFlow { phase: TaskPhase::Finished, ..f };
        return Step { flow, recs, action: TaskAction::Done(None) };
    }
    let resolved = resolved_model_string(&f.agent.options);
    let changed: bool = match (&f.run_model, f.agent.options.resolve_model()) {
        (Some(a), Some(b)) => !crate::text::str_eq(a.as_str(), b.as_str()),
        (None, None) => false,
        _ => true,
    };
    if changed {
        recs.push(RecEvent::ModelOverride(resolved.clone()));
    }
    if f.messages.len() > 0 {
        recs.push(RecEvent::Publish(PublishEvent::SendingTo { model: resolved.clone() }));
        recs.push(RecEvent::StageStart(Stage::Ai));
        let options = ChatOptions {
            temperature: f.agent.options.temperature,
            top_p: f.agent.options.top_p,
        };
        let TaskFlow {
            phase: _,
            agent,
            run_model,
            before_all,
            label,
            options: base_options,
            input,
            data,
            messages,
            ai_response: _,
        } = f;
        let flow = TaskFlow {
            phase: TaskPhase::ChatWait,
            agent,
            run_model,
            before_all,
            label,
            options: base_options,
            input,
            data,
            messages: Vec::new(),
            ai_response: None,
        };
        let action = TaskAction::ExecChat { model: resolved, messages, options };
        Step { flow, recs, action }
    } else {
        recs.push(RecEvent::Publish(PublishEvent::NoInstruction));
        if matches!(f.options.dry_mode, DryMode::Res) {
            let flow = TaskFlow { phase: TaskPhase::Finished, ai_response: None, ..f };
            return Step { flow, recs, action: TaskAction::Done(None) };
        }
        let has_output = match &f.agent.output_script {
            Some(_) => true,
            None => false,
        };
        if has_output {
            recs.push(RecEvent::StageStart(Stage::Output));
            let scope = build_output_scope(
                &f.input,
                &f.data,
                &f.before_all,
                &None,
                &f.agent.options,
            );
            let script = match &f.agent.output_script {
                Some(sc) => sc.clone(),
                None => String::new(),
            };
            let dir = f.agent.file_dir.clone();
            let flow = TaskFlow { phase: TaskPhase::OutputEval, ai_response: None, ..f };
            let action = TaskAction::EvalScript { stage: Stage::Output, script, scope, dir };
            Step { flow, recs, action }
        } else {
            let flow = TaskFlow { phase: TaskPhase::Finished, ai_response: None, ..f };
            Step { flow, recs, action: TaskAction::Done(None) }
        }
    }
}

/// Entering the prompt phase: the first part's template goes to the
/// renderer; with no parts at all the task goes straight through the
/// post-prompt checks with an empty message list.
pub open spec fn prompt_entry_ok(f: TaskFlow, s: Step, off: int) -> bool {
    if f.agent.prompt_parts@.len() > 0 {
        &&& s.recs@.len() == off
        &&& s.action matches TaskAction::RenderPart { part_idx, template, scope } && part_idx == 0
            && part_template_ok(f.agent.prompt_parts@[0], template@) && render_scope_ok(
            scope@,
            f.data@,
            f.input@,
        )
        &&& s.flow.phase == TaskPhase::PartRender(0usize)
        &&& s.flow.messages@.len() == 0
        &&& same_core(f, s.flow)
    } else {
        post_prompt_ok(f, s, off)
    }
}

fn enter_prompt(f: TaskFlow) -> (s: Step)
    requires
        f.wf(),
        f.messages@.len() == 0,
    ensures
        prompt_entry_ok(f, s, 0),
        s.flow.wf(),
{
    if f.prompt_parts_len() > 0 {
        let template = prep_part_template(&f.agent.prompt_parts[0]);
        let scope = build_render_scope(&f.data, &f.input);
        let flow = TaskFlow { phase: TaskPhase::PartRender(0), ..f };
        Step { flow, recs: Vec::new(), action: TaskAction::RenderPart { part_idx: 0, template, scope } }
    } else {
        post_prompt(f)
    }
}

impl TaskFlow {
    fn prompt_parts_len(&self) -> (n: usize)
        ensures
            n == self.agent.prompt_parts@.len(),
    {
        self.agent.prompt_parts.len()
    }
}

fn prepend_recs(prefix: Vec<RecEvent>, step: Step) -> (s: Step)
    ensures
        s.recs@.len() == prefix@.len() + step.recs@.len(),
        forall|i: int| 0 <= i < prefix@.len() ==> s.recs@[i] == prefix@[i],
        forall|i: int|
            0 <= i < step.recs@.len() ==> s.recs@[prefix@.len() + i] == step.recs@[i],
        s.flow == step.flow,
        s.action == step.action,
{
    let Step { flow, recs, action } = step;
    let mut all = prefix;
    let mut tail = recs;
    all.append(&mut tail);
    Step { flow, recs: all, action }
}

/// The flow a task starts from, before its first outside work.
pub open spec fn started_flow(setup: TaskSetup, rm: Option<String>, g: TaskFlow) -> bool {
    &&& g.agent == setup.agent
    &&& opt_str_view(rm) == setup.agent.options.resolved_model_view()
    &&& g.run_model == rm
    &&& g.before_all == setup.before_all_result
    &&& g.label == setup.label
    &&& g.options == setup.run_base_options
    &&& g.input == setup.input
    &&& g.data@ == ValView::Null
    &&& g.messages@.len() == 0
    &&& g.ai_response is None
}

/// Starts one input's task. With a Data script, the first action is its
/// evaluation (the Data stage bracketed by its start record); without
/// one, the task goes straight to the prompt phase with the input as
/// given and a null data payload.
pub fn task_start(setup: TaskSetup) -> (s: Step)
    requires
        setup.agent.wf(),
    ensures
        s.flow.wf(),
        s.flow.agent == setup.agent,
        opt_str_view(s.flow.run_model) == setup.agent.options.resolved_model_view(),
        s.flow.before_all == setup.before_all_result,
        s.flow.label == setup.label,
        s.flow.options == setup.run_base_options,
        s.flow.input == setup.input,
        match setup.agent.data_script {
            Some(script) => {
                &&& s.recs@.len() == 1
                &&& s.recs@[0] == RecEvent::StageStart(Stage::Data)
                &&& s.action matches TaskAction::EvalScript { stage, script: sc, scope, dir }
                    && stage == Stage::Data && sc@ == script@ && dir@ == setup.agent.file_dir@
                    && data_scope_ok(
                    scope@,
                    setup.input@,
                    setup.before_all_result@,
                    setup.agent.options,
                )
                &&& s.flow.phase == TaskPhase::DataEval
                &&& s.flow.data@ == ValView::Null
                &&& s.flow.messages@.len() == 0
                &&& s.flow.ai_response is None
            },
            None => exists|g: TaskFlow|
                #[trigger] started_flow(setup, s.flow.run_model, g) && prompt_entry_ok(g, s, 0),
        },
{
    let run_model: Option<String> = match setup.agent.options.resolve_model() {
        Some(m) => Some(m.clone()),
        None => None,
    };
    let has_data_script = match &setup.agent.data_script {
        Some(_) => true,
        None => false,
    };
    if has_data_script {
        let scope = build_data_scope(&setup.input, &setup.before_all_result, &setup.agent.options);
        let script = match &setup.agent.data_script {
            Some(sc) => sc.clone(),
            None => String::new(),
        };
        let dir = setup.agent.file_dir.clone();
        let flow = TaskFlow {
            phase: TaskPhase::DataEval,
            agent: setup.agent,
            run_model,
            before_all: setup.before_all_result,
            label: setup.label,
            options: setup.run_base_options,
            input: setup.input,
            data: DataValue::Null,
            messages: Vec::new(),
            ai_response: None,
        };
        let mut recs: Vec<RecEvent> = Vec::new();
        recs.push(RecEvent::StageStart(Stage::Data));
        Step { flow, recs, action: TaskAction::EvalScript { stage: Stage::Data, script, scope, dir } }
    } else {
        let flow = TaskFlow {
            phase: TaskPhase::DataEval,
            agent: setup.agent,
            run_model,
            before_all: setup.before_all_result,
            label: setup.label,
            options: setup.run_base_options,
            input: setup.input,
            data: DataValue::Null,
            messages: Vec::new(),
            ai_response: None,
        };
        let ghost gv = flow;
        let s = enter_prompt(flow);
        proof {
            assert(started_flow(setup, s.flow.run_model, gv));
        }
        s
    }
}

/// The log line recorded when a Skip signal drops an input.
pub open spec fn spec_skip_log_text(label: Seq<char>, reason: Option<Seq<char>>) -> Seq<char> {
    "Aipack Skip input at Data stage: "@ + label + (match reason {
        Some(r) => " (Reason: "@ + r + ")"@,
        None => Seq::<char>::empty(),
    })
}

fn skip_log_text(label: &String, reason: &Option<String>) -> (r: String)
    ensures
        r@ == spec_skip_log_text(label@, match *reason {
            Some(ref t) => Some(t@),
            None => None,
        }),
{
    let mut buff = String::new();
    buff.append("Aipack Skip input at Data stage: ");
    buff.append(label.as_str());
    if let Some(t) = reason {
        buff.append(" (Reason: ");
        buff.append(t.as_str());
        buff.append(")");
    }
    buff
}

/// The agent options after a Data-stage options override: the parsed
/// override laid over the base.
pub open spec fn override_applied(base: AgentOptions, ovv: ValView, merged: AgentOptions) -> bool {
    let p = crate::config::spec_parse_options(ovv)->0;
    &&& merged.model_view() == (if p.0 is Some {
        p.0
    } else {
        base.model_view()
    })
    &&& merged.temperature == (if p.1 is Some {
        p.1
    } else {
        base.temperature
    })
    &&& merged.top_p == (if p.2 is Some {
        p.2
    } else {
        base.top_p
    })
    &&& merged.input_concurrency == (if p.3 is Some {
        p.3
    } else {
        base.input_concurrency
    })
    &&& merged.aliases_view() == crate::config::spec_merge_aliases(base.aliases_view(), p.4)
}

/// The flow after the Data stage, for the non-skip outcomes: the input
/// (possibly overridden), the data payload, and the agent (possibly a
/// fresh merged copy - the copy-on-write step; an override never
/// touches any other task's agent value, this flow simply carries a new
/// one).
pub open spec fn data_applied(f: TaskFlow, c: ClassifiedV, g: TaskFlow) -> bool {
    &&& g.before_all == f.before_all
    &&& g.options == f.options
    &&& g.label == f.label
    &&& g.run_model == f.run_model
    &&& match c {
        ClassifiedV::Original(d) => {
            &&& g.input == f.input
            &&& g.data@ == d
            &&& g.agent == f.agent
        },
        ClassifiedV::DataResponse(iov, dov, oov) => {
            &&& g.input@ == (match iov {
                Some(x) => x,
                None => f.input@,
            })
            &&& g.data@ == (match dov {
                Some(x) => x,
                None => ValView::Null,
            })
            &&& match oov {
                None => g.agent == f.agent,
                Some(ovv) => {
                    &&& g.agent.name@ == f.agent.name@
                    &&& g.agent.file_dir@ == f.agent.file_dir@
                    &&& crate::agent::parts_equal(g.agent.prompt_parts@, f.agent.prompt_parts@)
                    &&& opt_str_view(g.agent.data_script) == opt_str_view(f.agent.data_script)
                    &&& opt_str_view(g.agent.output_script) == opt_str_view(f.agent.output_script)
                    &&& override_applied(f.agent.options, ovv, g.agent.options)
                },
            }
        },
        _ => false,
    }
}

/// One non-skip Data outcome: a witness flow `g` carries the applied
/// override, and the step continues into the prompt phase after the
/// Data end record.
pub open spec fn data_step_ok(f: TaskFlow, c: ClassifiedV, s: Step, g: TaskFlow) -> bool {
    &&& data_applied(f, c, g)
    &&& g.messages == f.messages
    &&& g.ai_response is None
    &&& g.wf()
    &&& s.recs@.len() >= 1
    &&& s.recs@[0] == RecEvent::StageEnd(Stage::Data)
    &&& prompt_entry_ok(g, s, 1)
}

/// Consumes the Data script's result. A failed evaluation is fatal. A
/// `Skip` signal ends the task with no output - and no chat call can
/// follow, the flow is finished (skip is spend-free). A `DataResponse`
/// override replaces the input, data and/or options for this flow
/// alone. Any other signal kind is unsupported here. The Data stage's
/// end record is emitted before any of this.
pub fn on_data_evaluated(f: TaskFlow, res: Result<DataValue, String>) -> (r: Result<
    Step,
    RunError,
>)
    requires
        f.wf(),
        f.phase == TaskPhase::DataEval,
        f.agent.data_script is Some,
        f.messages@.len() == 0,
        f.ai_response is None,
    ensures
        match res {
            Err(e) => r matches Err(RunError::Script { stage, script, error }) && stage
                == Stage::Data && script@ == f.agent.data_script->0@ && error@ == e@,
            Ok(v) => match spec_classify(v@) {
                Err(_) => r matches Err(RunError::MalformedSignal { stage }) && stage
                    == Stage::Data,
                Ok(c) => match c {
                    ClassifiedV::Skip(reason) => {
                        &&& r is Ok
                        &&& r->Ok_0.recs@.len() == 2
                        &&& r->Ok_0.recs@[0] == RecEvent::StageEnd(Stage::Data)
                        &&& (r->Ok_0.recs@[1] matches RecEvent::Log(text, kind) && text@
                            == spec_skip_log_text(f.label@, reason) && kind == LogKind::SysInfo)
                        &&& (r->Ok_0.action matches TaskAction::Done(o) && o is None)
                        &&& r->Ok_0.flow.phase == TaskPhase::Finished
                        &&& same_core(f, r->Ok_0.flow)
                    },
                    ClassifiedV::Other(name) => r matches Err(RunError::UnsupportedSignal {
                        name: n,
                    }) && n@ == name,
                    ClassifiedV::Original(_) => r is Ok && exists|g: TaskFlow|
                        #[trigger] data_step_ok(f, c, r->Ok_0, g),
                    ClassifiedV::DataResponse(iov, dov, oov) => {
                        if oov is Some && crate::config::spec_parse_options(oov->0) is None {
                            r matches Err(RunError::BadOptionsOverride)
                        } else {
                            r is Ok && exists|g: TaskFlow|
                                #[trigger] data_step_ok(f, c, r->Ok_0, g)
                        }
                    },
                },
            },
        },
{
    let script = match &f.agent.data_script {
        Some(sc) => sc.clone(),
        None => String::new(),
    };
    let v = match res {
        Ok(v) => v,
        Err(error) => {
            return Err(RunError::Script { stage: Stage::Data, script, error });
        },
    };
    let mut prefix: Vec<RecEvent> = Vec::new();
    prefix.push(RecEvent::StageEnd(Stage::Data));
    let c = match classify(v) {
        Ok(c) => c,
        Err(_) => {
            return Err(RunError::MalformedSignal { stage: Stage::Data });
        },
    };
    match c {
        Classified::Skip { reason } => {
            let text = skip_log_text(&f.label, &reason);
            prefix.push(RecEvent::Log(text, LogKind::SysInfo));
            let flow = TaskFlow { phase: TaskPhase::Finished, ..f };
            Ok(Step { flow, recs: prefix, action: TaskAction::Done(None) })
        },
        Classified::Other(name) => Err(RunError::UnsupportedSignal { name }),
        Classified::Original(d) => {
            let ghost cv = c.cv();
            let g = TaskFlow { data: d, ..f };
            let ghost gv = g;
            let ghost prefixv = prefix@;
            let step = enter_prompt(g);
            let out = prepend_recs(prefix, step);
            proof {
                let outv = Step { flow: out.flow, recs: out.recs, action: out.action };
                if gv.agent.prompt_parts@.len() == 0 {
                    lemma_post_prompt_shift(gv, step, outv, 1);
                }
                assert(out.recs@[0] == prefixv[0]);
                assert(prompt_entry_ok(gv, outv, 1));
                assert(data_step_ok(f, cv, outv, gv));
            }
            Ok(out)
        },
        Classified::DataResponse { input, data, options } => {
            let ghost cv = c.cv();
            let new_input = match input {
                Some(x) => x,
                None => f.input,
            };
            let new_data = match data {
                Some(x) => x,
                None => DataValue::Null,
            };
            let agent2: Agent = match options {
                None => f.agent,
                Some(ovv) => {
                    let parsed = match AgentOptions::from_options_value(&ovv) {
                        Ok(p) => p,
                        Err(_) => {
                            return Err(RunError::BadOptionsOverride);
                        },
                    };
                    let merged = match f.agent.options.merge_new(parsed) {
                        Ok(m) => m,
                        Err(_) => {
                            return Err(RunError::BadOptionsOverride);
                        },
                    };
                    f.agent.new_merge(merged)
                },
            };
            let g = TaskFlow {
                agent: agent2,
                input: new_input,
                data: new_data,
                phase: TaskPhase::DataEval,
                before_all: f.before_all,
                label: f.label,
                options: f.options,
                run_model: f.run_model,
                messages: f.messages,
                ai_response: None,
            };
            let ghost gv = g;
            let ghost prefixv = prefix@;
            let step = enter_prompt(g);
            let out = prepend_recs(prefix, step);
            proof {
                let outv = Step { flow: out.flow, recs: out.recs, action: out.action };
                if gv.agent.prompt_parts@.len() == 0 {
                    lemma_post_prompt_shift(gv, step, outv, 1);
                }
                assert(out.recs@[0] == prefixv[0]);
                assert(prompt_entry_ok(gv, outv, 1));
                assert(data_step_ok(f, cv, outv, gv));
            }
            Ok(out)
        },
    }
}

/// The whole outcome of consuming one part's successful rendering.
pub open spec fn part_step_ok(f: TaskFlow, text: Seq<char>, r: Result<Step, RunError>, g: TaskFlow) -> bool {
    let i = f.phase->PartRender_0 as int;
    let part = f.agent.prompt_parts@[i];
    let had = part.options_str is Some;
    let opts = spec_rendered_options(had, text);
    let body = spec_rendered_body(had, text);
    if !all_spaces(body) && opts.len() > 0 && spec_parse_part_options(opts) is None {
        r matches Err(RunError::PartOptions { part_idx }) && part_idx == i
    } else {
        let appended = !all_spaces(body);
        let cache = if opts.len() == 0 {
            false
        } else {
            match spec_parse_part_options(opts)->0 {
                Some(po) => po.cache,
                None => false,
            }
        };
        &&& r is Ok
        &&& ({
            let s = r->Ok_0;
            if i + 1 < f.agent.prompt_parts@.len() {
                let msgs2 = s.flow.messages@;
                &&& (appended ==> msgs2.len() == f.messages@.len() + 1 && msgs2.last().role
                    == part.kind && msgs2.last().content@ == body && msgs2.last().cache == cache)
                &&& (!appended ==> msgs2 == f.messages@)
                &&& forall|k: int|
                    0 <= k < f.messages@.len() ==> #[trigger] msgs2[k] == f.messages@[k]
                &&& s.recs@.len() == 0
                &&& s.action matches TaskAction::RenderPart { part_idx, template, scope }
                    && part_idx == i + 1 && part_template_ok(
                    f.agent.prompt_parts@[i + 1],
                    template@,
                ) && render_scope_ok(scope@, f.data@, f.input@)
                &&& s.flow.phase == TaskPhase::PartRender((i + 1) as usize)
                &&& same_core(f, s.flow)
            } else {
                rendered_last_ok(f, s, g, appended, part.kind, body, cache)
            }
        })
    }
}

/// Consumes one part's rendered text. A failed rendering is fatal,
/// with the part's index. A whitespace-only body adds no message;
/// otherwise the rendered options line is re-extracted, parsed, and the
/// message appended. Then the next part is sent to the renderer, or -
/// after the last part - the post-prompt checks run.
#[verifier::rlimit(100)]
#[verifier::spinoff_prover]
pub fn on_part_rendered(f: TaskFlow, res: Result<String, String>) -> (r: Result<Step, RunError>)
    requires
        f.wf(),
        f.phase matches TaskPhase::PartRender(_),
    ensures
        ({
            let i = f.phase->PartRender_0 as int;
            match res {
                Err(e) => r matches Err(RunError::Render { part_idx, error }) && part_idx == i
                    && error@ == e@,
                Ok(text) => exists|g: TaskFlow| #[trigger] part_step_ok(f, text@, r, g),
            }
        }),
{
    let i: usize = match f.phase {
        TaskPhase::PartRender(i) => i,
        _ => 0,
    };
    proof {
        assert(i < f.agent.prompt_parts@.len());
    }
    let text = match res {
        Ok(t) => t,
        Err(error) => {
            return Err(RunError::Render { part_idx: i, error });
        },
    };
    let had = match &f.agent.prompt_parts[i].options_str {
        Some(_) => true,
        None => false,
    };
    let kind = f.agent.prompt_parts[i].kind;
    let ghost tv = text@;
    let maybe_msg = match finish_part(i, kind, had, text) {
        Ok(m) => m,
        Err(e) => {
            proof {
                assert(part_step_ok(f, tv, Err::<Step, RunError>(e), f));
            }
            return Err(e);
        },
    };
    let mut f2 = f;
    let ghost msgs0 = f2.messages@;
    match maybe_msg {
        Some(m) => {
            f2.messages.push(m);
        },
        None => (),
    }
    let n = f2.agent.prompt_parts.len();
    if i + 1 < n {
        let template = prep_part_template(&f2.agent.prompt_parts[i + 1]);
        let scope = build_render_scope(&f2.data, &f2.input);
        let flow = TaskFlow { phase: TaskPhase::PartRender(i + 1), ..f2 };
        let stp = Step {
            flow,
            recs: Vec::new(),
            action: TaskAction::RenderPart { part_idx: i + 1, template, scope },
        };
        proof {
            assert(part_step_ok(f, tv, Ok::<Step, RunError>(stp), f));
        }
        Ok(stp)
    } else {
        let ghost gv = f2;
        let s = post_prompt(f2);
        proof {
            let iv = f.phase->PartRender_0 as int;
            let part = f.agent.prompt_parts@[iv];
            let hadv = part.options_str is Some;
            let opts = spec_rendered_options(hadv, tv);
            let body = spec_rendered_body(hadv, tv);
            let appended = !all_spaces(body);
            let cache = if opts.len() == 0 {
                false
            } else {
                match spec_parse_part_options(opts)->0 {
                    Some(po) => po.cache,
                    None => false,
                }
            };
            assert(rendered_last_ok(f, s, gv, appended, part.kind, body, cache));
            assert(part_step_ok(f, tv, Ok::<Step, RunError>(s), gv));
        }
        Ok(s)
    }
}

/// After the last part: a witness flow `g` holds the final message
/// list (the old messages plus this part's message, when one was
/// added), and the step satisfies the post-prompt checks on it.
pub open spec fn rendered_last_ok(
    f: TaskFlow,
    s: Step,
    g: TaskFlow,
    appended: bool,
    kind: PartKind,
    body: Seq<char>,
    cache: bool,
) -> bool {
    &&& g.agent == f.agent
    &&& g.input == f.input
    &&& g.data == f.data
    &&& g.before_all == f.before_all
    &&& g.options == f.options
    &&& g.label == f.label
    &&& g.run_model == f.run_model
    &&& (appended ==> g.messages@.len() == f.messages@.len() + 1 && g.messages@.last().role == kind
        && g.messages@.last().content@ == body && g.messages@.last().cache == cache)
    &&& (!appended ==> g.messages == f.messages)
    &&& forall|k: int|
        0 <= k < f.messages@.len() ==> #[trigger] g.messages@[k] == f.messages@[k]
    &&& post_prompt_ok(g, s, 0)
}

/// The normalized chat result the accounting step must produce.
pub open spec fn ai_response_ok(a: AiResponse, resp: ChatResponseData, ms: u64, opts: AgentOptions) -> bool {
    let joined = spec_join_blank(strs_v(resp.content_texts@));
    let price = spec_price(
        spec_providers(),
        lower_ascii(resp.model_iden.adapter_kind@),
        resp.model_iden.model_name@,
        resp.usage,
    );
    &&& match a.content {
        Some(c) => joined.len() > 0 && c@ == joined,
        None => joined.len() == 0,
    }
    &&& opt_str_view(a.reasoning_content) == opt_str_view(resp.reasoning_content)
    &&& a.model_name@ == resp.model_iden.model_name@
    &&& a.adapter_kind@ == resp.model_iden.adapter_kind@
    &&& a.duration_ms == ms
    &&& match a.price_usd_e4 {
        Some(p) => price == Some(p as int),
        None => price is None,
    }
    &&& a.usage == resp.usage
    &&& a.info@ == spec_first_info_text(ms as nat, price, resp.usage) + " | "@ + spec_model_text(
        resp.model_iden.model_name@,
        resp.provider_model_iden.model_name@,
        resp.model_iden.adapter_kind@,
        opts.temperature,
        opts.top_p,
    )
}

/// Consumes the chat call's result. A provider failure is passed on
/// untouched. On success the response is priced and accounted: the Ai
/// end record, the cost (when the price is known), the received notice
/// with the exact info line, the raw usage, and the verbose output
/// dump; then the post-response dry-run stop, the Output stage (its
/// scope carrying the response), or the response itself as the task's
/// output.
pub fn on_chat_done(f: TaskFlow, res: Result<ChatResponseData, String>, duration_ms: u64) -> (r:
    Result<Step, RunError>)
    requires
        f.wf(),
        f.phase == TaskPhase::ChatWait,
        duration_ms < 0x8000_0000_0000_0000,
    ensures
        match res {
            Err(e) => r matches Err(RunError::Chat { error }) && error@ == e@,
            Ok(resp) => {
                &&& r is Ok
                &&& ({
                    let s = r->Ok_0;
                    let price = spec_price(
                        spec_providers(),
                        lower_ascii(resp.model_iden.adapter_kind@),
                        resp.model_iden.model_name@,
                        resp.usage,
                    );
                    let cn: int = if price is Some {
                        1
                    } else {
                        0
                    };
                    let vb: int = if f.options.verbose {
                        1
                    } else {
                        0
                    };
                    &&& s.recs@.len() >= 3 + cn + vb
                    &&& s.recs@[0] == RecEvent::StageEnd(Stage::Ai)
                    &&& (price is Some ==> (s.recs@[1] matches RecEvent::Cost(p) && price == Some(
                        p as int,
                    )))
                    &&& (s.recs@[1 + cn] matches RecEvent::Publish(PublishEvent::Received {
                        model_name,
                        info,
                    }) && model_name@ == resp.provider_model_iden.model_name@ && info@
                        == spec_first_info_text(duration_ms as nat, price, resp.usage))
                    &&& (s.recs@[2 + cn] matches RecEvent::TokenUsage(u) && u == resp.usage)
                    &&& (f.options.verbose ==> (s.recs@[3 + cn] matches RecEvent::Publish(
                        PublishEvent::AiOutput { model_info, text },
                    ) && model_info@ == spec_model_text(
                        resp.model_iden.model_name@,
                        resp.provider_model_iden.model_name@,
                        resp.model_iden.adapter_kind@,
                        f.agent.options.temperature,
                        f.agent.options.top_p,
                    )))
                    &&& same_core(f, s.flow)
                    &&& if f.options.dry_mode is Res {
                        &&& s.recs@.len() == 3 + cn + vb
                        &&& s.action matches TaskAction::Done(o) && o is None
                        &&& s.flow.phase == TaskPhase::Finished
                    } else if f.agent.output_script is Some {
                        &&& s.recs@.len() == 4 + cn + vb
                        &&& s.recs@[3 + cn + vb] == RecEvent::StageStart(Stage::Output)
                        &&& (s.action matches TaskAction::EvalScript { stage, script, scope, dir }
                            && stage == Stage::Output && script@ == f.agent.output_script->0@
                            && dir@ == f.agent.file_dir@ && (exists|a: AiResponse|
                            {
                                &&& #[trigger] ai_response_ok(a, resp, duration_ms, f.agent.options)
                                &&& output_scope_ok(
                                    scope@,
                                    f.input@,
                                    f.data@,
                                    f.before_all@,
                                    Some(a),
                                    f.agent.options,
                                )
                            }))
                        &&& s.flow.phase == TaskPhase::OutputEval
                        &&& (s.flow.ai_response matches Some(a2) && ai_response_ok(
                            a2,
                            resp,
                            duration_ms,
                            f.agent.options,
                        ))
                    } else {
                        &&& s.recs@.len() == 3 + cn + vb
                        &&& (s.action matches TaskAction::Done(o) && o matches Some(
                            RunAgentInputResponse::AiReponse(a),
                        ) && ai_response_ok(a, resp, duration_ms, f.agent.options))
                        &&& s.flow.phase == TaskPhase::Finished
                    }
                })
            },
        },
{
    let resp = match res {
        Ok(resp) => resp,
        Err(error) => {
            return Err(RunError::Chat { error });
        },
    };
    let mut recs: Vec<RecEvent> = Vec::new();
    recs.push(RecEvent::StageEnd(Stage::Ai));
    let provider = to_ascii_lower(resp.model_iden.adapter_kind.as_str());
    let price = price_it(provider.as_str(), resp.model_iden.model_name.as_str(), &resp.usage);
    if let Some(p) = price {
        recs.push(RecEvent::Cost(p));
    }
    let info = format_first_info(duration_ms, price, &resp.usage);
    recs.push(
        RecEvent::Publish(
            PublishEvent::Received {
                model_name: resp.provider_model_iden.model_name.clone(),
                info: info.clone(),
            },
        ),
    );
    recs.push(RecEvent::TokenUsage(resp.usage));
    let joined = join_blank(&resp.content_texts);
    let content: Option<String> = if joined.as_str().unicode_len() == 0 {
        None
    } else {
        Some(joined)
    };
    let model_info = format_model(
        resp.model_iden.model_name.as_str(),
        resp.provider_model_iden.model_name.as_str(),
        resp.model_iden.adapter_kind.as_str(),
        f.agent.options.temperature,
        f.agent.options.top_p,
    );
    if f.options.verbose {
        let text: Option<String> = match &content {
            Some(c) => Some(c.clone()),
            None => None,
        };
        recs.push(
            RecEvent::Publish(
                PublishEvent::AiOutput { model_info: model_info.clone(), text },
            ),
        );
    }
    let mut full_info = info;
    full_info.append(" | ");
    full_info.append(model_info.as_str());
    let a = AiResponse {
        content,
        reasoning_content: resp.reasoning_content,
        model_name: resp.model_iden.model_name,
        adapter_kind: resp.model_iden.adapter_kind,
        duration_ms,
        price_usd_e4: price,
        usage: resp.usage,
        info: full_info,
    };
    if matches!(f.options.dry_mode, DryMode::Res) {
        let flow = TaskFlow { phase: TaskPhase::Finished, ai_response: None, ..f };
        return Ok(Step { flow, recs, action: TaskAction::Done(None) });
    }
    let has_output = match &f.agent.output_script {
        Some(_) => true,
        None => false,
    };
    if has_output {
        recs.push(RecEvent::StageStart(Stage::Output));
        let ai = Some(a);
        let scope = build_output_scope(&f.input, &f.data, &f.before_all, &ai, &f.agent.options);
        let script = match &f.agent.output_script {
            Some(sc) => sc.clone(),
            None => String::new(),
        };
        let dir = f.agent.file_dir.clone();
        let flow = TaskFlow { phase: TaskPhase::OutputEval, ai_response: ai, ..f };
        proof {
            assert(ai_response_ok(
                flow.ai_response->0,
                resp,
                duration_ms,
                f.agent.options,
            ));
        }
        Ok(Step { flow, recs, action: TaskAction::EvalScript { stage: Stage::Output, script, scope, dir } })
    } else {
        let flow = TaskFlow { phase: TaskPhase::Finished, ai_response: None, ..f };
        Ok(
            Step {
                flow,
                recs,
                action: TaskAction::Done(Some(RunAgentInputResponse::AiReponse(a))),
            },
        )
    }
}

/// Consumes the Output script's result. A failed evaluation is fatal.
/// The Output end record fires, then the value is classified: plain
/// data becomes the task's output; a `Skip` or `DataResponse` here - or
/// any other control signal - is unsupported at this stage and fatal,
/// by name.
pub fn on_output_evaluated(f: TaskFlow, res: Result<DataValue, String>) -> (r: Result<
    Step,
    RunError,
>)
    requires
        f.wf(),
        f.phase == TaskPhase::OutputEval,
    ensures
        match res {
            Err(e) => r matches Err(RunError::Script { stage, script, error }) && stage
                == Stage::Output && script@ == f.agent.output_script->0@ && error@ == e@,
            Ok(v) => match spec_classify(v@) {
                Err(_) => r matches Err(RunError::MalformedSignal { stage }) && stage
                    == Stage::Output,
                Ok(c) => match c {
                    ClassifiedV::Original(_) => {
                        &&& r is Ok
                        &&& r->Ok_0.recs@.len() == 1
                        &&& r->Ok_0.recs@[0] == RecEvent::StageEnd(Stage::Output)
                        &&& (r->Ok_0.action matches TaskAction::Done(o) && o matches Some(
                            RunAgentInputResponse::OutputResponse(out),
                        ) && out@ == v@)
                        &&& r->Ok_0.flow.phase == TaskPhase::Finished
                        &&& same_core(f, r->Ok_0.flow)
                    },
                    ClassifiedV::Skip(_) => r matches Err(RunError::UnsupportedSignal { name })
                        && name@ == "Skip"@,
                    ClassifiedV::DataResponse(_, _, _) => r matches Err(
                        RunError::UnsupportedSignal { name },
                    ) && name@ == "DataResponse"@,
                    ClassifiedV::Other(other) => r matches Err(RunError::UnsupportedSignal {
                        name,
                    }) && name@ == other,
                },
            },
        },
{
    let script = match &f.agent.output_script {
        Some(sc) => sc.clone(),
        None => String::new(),
    };
    let v = match res {
        Ok(v) => v,
        Err(error) => {
            return Err(RunError::Script { stage: Stage::Output, script, error });
        },
    };
    let c = match classify(v) {
        Ok(c) => c,
        Err(_) => {
            return Err(RunError::MalformedSignal { stage: Stage::Output });
        },
    };
    match c {
        Classified::Original(out) => {
            let mut recs: Vec<RecEvent> = Vec::new();
            recs.push(RecEvent::StageEnd(Stage::Output));
            let flow = TaskFlow { phase: TaskPhase::Finished, ..f };
            Ok(
                Step {
                    flow,
                    recs,
                    action: TaskAction::Done(Some(RunAgentInputResponse::OutputResponse(out))),
                },
            )
        },
        Classified::Skip { reason: _ } => Err(
            RunError::UnsupportedSignal { name: "Skip".to_owned() },
        ),
        Classified::DataResponse { input: _, data: _, options: _ } => Err(
            RunError::UnsupportedSignal { name: "DataResponse".to_owned() },
        ),
        Classified::Other(name) => Err(RunError::UnsupportedSignal { name }),
    }
}

// endregion: the transitions

} // verus!
