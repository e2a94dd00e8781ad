//! An OpenAI-compatible provider as the registry knows it: where it lives,
//! its key and the models it serves. The HTTP calls are made by the
//! program around the library.
use vstd::prelude::*;
use crate::router::{find_model, lookup, lookup_exec, model_match, trim_end_all, trim_end_all_exec, ModelProfile};
use crate::router::ModelError;
use crate::text::{decimal_text, has_infix, push_decimal, str_contains, str_equal, str_starts_with, trim_str, trim_text};

verus! {

/// Why a completion stopped.
#[derive(Clone, Copy, Debug, PartialEq, Eq, Structural)]
pub enum FinishReason {
    Stop,
    Length,
    ToolCalls,
    ContentFilter,
    Error,
}

/// Who wrote a chat message.
#[derive(Clone, Copy, Debug, PartialEq, Eq, Structural)]
pub enum MessageRole {
    System,
    User,
    Assistant,
    Tool,
}

/// The finish reason an API reports, by its name; unknown names are
/// errors.
pub open spec fn finish_reason_of(fr: Seq<char>) -> FinishReason {
    if fr == "stop"@ {
        FinishReason::Stop
    } else if fr == "length"@ {
        FinishReason::Length
    } else if fr == "tool_calls"@ {
        FinishReason::ToolCalls
    } else if fr == "content_filter"@ {
        FinishReason::ContentFilter
    } else {
        FinishReason::Error
    }
}

/// The role an API reports, by its name; unknown names are users.
pub open spec fn role_of(role: Seq<char>) -> MessageRole {
    if role == "system"@ {
        MessageRole::System
    } else if role == "user"@ {
        MessageRole::User
    } else if role == "assistant"@ {
        MessageRole::Assistant
    } else if role == "tool"@ {
        MessageRole::Tool
    } else {
        MessageRole::User
    }
}

/// A provider that speaks the OpenAI chat-completions API.
pub struct OpenAiCompatibleProvider {
    name: String,
    base_url: String,
    api_key: String,
    models: Vec<ModelProfile>,
}

impl OpenAiCompatibleProvider {
    pub closed spec fn name_view(&self) -> Seq<char> {
        self.name@
    }

    /// The base URL, without trailing slashes.
    pub closed spec fn base_url_view(&self) -> Seq<char> {
        self.base_url@
    }

    pub closed spec fn api_key_view(&self) -> Seq<char> {
        self.api_key@
    }

    /// The models the provider serves.
    pub closed spec fn models_view(&self) -> Seq<ModelProfile> {
        self.models@
    }

    /// A provider whose key is read from the environment variable
    /// `api_key_env` (empty when unset), with no models yet. `env` holds
    /// the environment's variables.
    pub fn new(name: &str, base_url: &str, api_key_env: &str, env: &Vec<(String, String)>) -> (p:
        OpenAiCompatibleProvider)
        ensures
            p.name_view() == name@,
            p.base_url_view() == trim_end_all(base_url@, "/"@),
            p.api_key_view() == match lookup(env@, api_key_env@) {
                Some(k) => k,
                None => Seq::empty(),
            },
            p.models_view().len() == 0,
    {
        let api_key = match lookup_exec(env, api_key_env) {
            Some(k) => k,
            None => String::new(),
        };
        Self::with_config(name, base_url, api_key, Vec::new())
    }

    /// A provider at `base_url` (trailing slashes dropped) with its key and
    /// models.
    pub fn with_config(name: &str, base_url: &str, api_key: String, models: Vec<ModelProfile>) -> (p:
        OpenAiCompatibleProvider)
        ensures
            p.name_view() == name@,
            p.base_url_view() == trim_end_all(base_url@, "/"@),
            p.api_key_view() == api_key@,
            p.models_view() == models@,
    {
        OpenAiCompatibleProvider {
            name: String::from_str(name),
            base_url: trim_end_all_exec(base_url, "/"),
            api_key,
            models,
        }
    }

    /// The provider with another list of models.
    pub fn with_models(self, models: Vec<ModelProfile>) -> (p: OpenAiCompatibleProvider)
        ensures
            p.name_view() == self.name_view(),
            p.base_url_view() == self.base_url_view(),
            p.api_key_view() == self.api_key_view(),
            p.models_view() == models@,
    {
        OpenAiCompatibleProvider { models, ..self }
    }

    /// The provider's name.
    pub fn name(&self) -> (r: &str)
        ensures
            r@ == self.name_view(),
    {
        self.name.as_str()
    }

    /// The key the provider's calls carry.
    pub fn api_key(&self) -> (r: &str)
        ensures
            r@ == self.api_key_view(),
    {
        self.api_key.as_str()
    }

    /// The endpoint of chat completions.
    pub fn chat_url(&self) -> (r: String)
        ensures
            r@ == self.base_url_view() + "/chat/completions"@,
    {
        let mut u = self.base_url.clone();
        u.append("/chat/completions");
        u
    }

    /// The endpoint of the model list.
    pub fn models_url(&self) -> (r: String)
        ensures
            r@ == self.base_url_view() + "/models"@,
    {
        let mut u = self.base_url.clone();
        u.append("/models");
        u
    }

    /// The ids of the models served, in order.
    pub fn supported_models(&self) -> (r: Vec<String>)
        ensures
            r@.len() == self.models_view().len(),
            forall|i: int| 0 <= i < r@.len() ==> (#[trigger] r@[i])@ == self.models_view()[i].id@,
    {
        let mut out: Vec<String> = Vec::new();
        let mut i: usize = 0;
        while i < self.models.len()
            invariant
                i <= self.models@.len(),
                out@.len() == i,
                forall|k: int| 0 <= k < i ==> (#[trigger] out@[k])@ == self.models@[k].id@,
            decreases self.models.len() - i,
        {
            out.push(self.models[i].id.clone());
            i = i + 1;
        }
        out
    }

    /// The profile of the first model whose id or model name is
    /// `model_name`.
    pub fn get_profile(&self, model_name: &str) -> (r: Option<ModelProfile>)
        ensures
            match model_match(self.models_view(), model_name@) {
                Some(i) => r matches Some(p) && p@ == self.models_view()[i]@,
                None => r is None,
            },
    {
        match find_model(&self.models, model_name) {
            Some(i) => Some(self.models[i].duplicate()),
            None => None,
        }
    }

    /// The finish reason an API reports.
    pub fn map_finish_reason(fr: &str) -> (r: FinishReason)
        ensures
            r == finish_reason_of(fr@),
    {
        if str_equal(fr, "stop") {
            FinishReason::Stop
        } else if str_equal(fr, "length") {
            FinishReason::Length
        } else if str_equal(fr, "tool_calls") {
            FinishReason::ToolCalls
        } else if str_equal(fr, "content_filter") {
            FinishReason::ContentFilter
        } else {
            FinishReason::Error
        }
    }

    /// The role an API reports.
    pub fn map_role(role: &str) -> (r: MessageRole)
        ensures
            r == role_of(role@),
    {
        if str_equal(role, "system") {
            MessageRole::System
        } else if str_equal(role, "user") {
            MessageRole::User
        } else if str_equal(role, "assistant") {
            MessageRole::Assistant
        } else if str_equal(role, "tool") {
            MessageRole::Tool
        } else {
            MessageRole::User
        }
    }
}


// ----- streamed replies -----
/// A line of a server-sent event stream, as the streaming reader sorts it.
pub enum SseLine {
    /// Blank once trimmed: skipped.
    Blank,
    /// Not a data line: ignored.
    Other,
    /// A data line carrying the end marker `[DONE]`.
    Done,
    /// The payload of any other data line, to be read as a chunk.
    Data(String),
}

/// The marker a data line starts with.
pub open spec fn data_prefix() -> Seq<char> {
    "data: "@
}

/// Sorts one line of the event stream: the trimmed line is blank, a data
/// line (`data: ` and a payload) whose payload is `[DONE]` once trimmed,
/// another data line, or anything else.
pub fn classify_sse_line(line: &str) -> (r: SseLine)
    ensures
        ({
            let t = trim_text(line@);
            let d = t.subrange(6, t.len() as int);
            match r {
                SseLine::Blank => t.len() == 0,
                SseLine::Other => t.len() > 0 && !data_prefix().is_prefix_of(t),
                SseLine::Done => data_prefix().is_prefix_of(t) && trim_text(d) == "[DONE]"@,
                SseLine::Data(payload) => data_prefix().is_prefix_of(t) && trim_text(d) != "[DONE]"@
                    && payload@ == d,
            }
        }),
{
    let t = trim_str(line);
    let n = t.unicode_len();
    if n == 0 {
        return SseLine::Blank;
    }
    if !str_starts_with(t, "data: ") {
        return SseLine::Other;
    }
    proof {
        reveal_strlit("data: ");
    }
    assert(data_prefix().len() == 6);
    let d = t.substring_char(6, n);
    if str_equal(trim_str(d), "[DONE]") {
        SseLine::Done
    } else {
        SseLine::Data(String::from_str(d))
    }
}

/// The token counts a reply reports, each perhaps missing.
pub struct UsageCounts {
    pub prompt_tokens: Option<u32>,
    pub completion_tokens: Option<u32>,
    pub total_tokens: Option<u32>,
}

/// A piece of a tool call that a chunk carries.
pub struct ToolCallDelta {
    pub index: Option<usize>,
    pub id: Option<String>,
    pub name: Option<String>,
    pub arguments: Option<String>,
}

/// One choice of a streamed chunk: new text, pieces of tool calls, and
/// why the reply stopped, if it did.
pub struct StreamChoiceData {
    pub content: Option<String>,
    pub tool_calls: Option<Vec<ToolCallDelta>>,
    pub finish_reason: Option<String>,
}

/// What one chunk of a streamed reply says, as read from the JSON of a
/// data line.
pub struct StreamChunkData {
    pub choices: Vec<StreamChoiceData>,
    pub usage: Option<UsageCounts>,
}

/// An event of a streamed reply.
#[derive(Debug, Clone, PartialEq, Eq)]
pub enum StreamEvent {
    TextDelta(String),
    ToolCallDelta { index: usize, id: Option<String>, name: Option<String>, arguments: String },
    Usage { prompt_tokens: u32, completion_tokens: u32, total_tokens: u32 },
    Done,
    Error(String),
}

/// The content of a stream event.
pub enum StreamEventView {
    TextDelta(Seq<char>),
    ToolCallDelta { index: usize, id: Option<Seq<char>>, name: Option<Seq<char>>, arguments: Seq<char> },
    Usage { prompt_tokens: u32, completion_tokens: u32, total_tokens: u32 },
    Done,
    Error(Seq<char>),
}

/// The text of an optional string.
pub open spec fn opt_view(o: Option<String>) -> Option<Seq<char>> {
    match o {
        Some(s) => Some(s@),
        None => None,
    }
}

impl View for StreamEvent {
    type V = StreamEventView;

    open spec fn view(&self) -> StreamEventView {
        match self {
            StreamEvent::TextDelta(t) => StreamEventView::TextDelta(t@),
            StreamEvent::ToolCallDelta { index, id, name, arguments } => StreamEventView::ToolCallDelta {
                index: *index,
                id: opt_view(*id),
                name: opt_view(*name),
                arguments: arguments@,
            },
            StreamEvent::Usage { prompt_tokens, completion_tokens, total_tokens } => StreamEventView::Usage {
                prompt_tokens: *prompt_tokens,
                completion_tokens: *completion_tokens,
                total_tokens: *total_tokens,
            },
            StreamEvent::Done => StreamEventView::Done,
            StreamEvent::Error(m) => StreamEventView::Error(m@),
        }
    }
}

/// The contents of stream events.
pub open spec fn event_views(v: Seq<StreamEvent>) -> Seq<StreamEventView> {
    Seq::new(v.len(), |i: int| v[i]@)
}

/// The event for a piece of a tool call: its index (0 if missing), id,
/// name and arguments (empty if missing).
pub open spec fn tool_delta_event(tc: ToolCallDelta) -> StreamEventView {
    StreamEventView::ToolCallDelta {
        index: match tc.index {
            Some(i) => i,
            None => 0,
        },
        id: opt_view(tc.id),
        name: opt_view(tc.name),
        arguments: match tc.arguments {
            Some(a) => a@,
            None => Seq::empty(),
        },
    }
}

/// The text event of a choice: none without text or with empty text.
pub open spec fn text_events(content: Option<String>) -> Seq<StreamEventView> {
    match content {
        Some(t) => if t@.len() > 0 {
            seq![StreamEventView::TextDelta(t@)]
        } else {
            Seq::empty()
        },
        None => Seq::empty(),
    }
}

/// The events of one choice: its text, if any, then a piece of a tool call
/// for each it carries.
pub open spec fn choice_events(c: StreamChoiceData) -> Seq<StreamEventView> {
    text_events(c.content) + match c.tool_calls {
        Some(tcs) => Seq::new(tcs@.len(), |k: int| tool_delta_event(tcs@[k])),
        None => Seq::empty(),
    }
}

/// The events of a chunk's choices, in order.
pub open spec fn choices_events(cs: Seq<StreamChoiceData>) -> Seq<StreamEventView>
    decreases cs.len(),
{
    if cs.len() == 0 {
        Seq::empty()
    } else {
        choices_events(cs.drop_last()) + choice_events(cs.last())
    }
}

/// A choice that says the reply stopped: a finish reason that is neither
/// empty nor `null`.
pub open spec fn choice_finishes(c: StreamChoiceData) -> bool {
    match c.finish_reason {
        Some(fr) => fr@.len() > 0 && fr@ != "null"@,
        None => false,
    }
}

/// Some choice of the chunk says the reply stopped.
pub open spec fn chunk_finishes(chunk: StreamChunkData) -> bool {
    exists|i: int| 0 <= i < chunk.choices@.len() && choice_finishes(#[trigger] chunk.choices@[i])
}

/// The counts a usage report gives: prompt and completion tokens, missing
/// ones 0, and the total, their sum when missing.
pub open spec fn usage_counts(u: UsageCounts) -> (u32, u32, u32) {
    let p: u32 = match u.prompt_tokens {
        Some(x) => x,
        None => 0,
    };
    let c: u32 = match u.completion_tokens {
        Some(x) => x,
        None => 0,
    };
    (p, c, match u.total_tokens {
        Some(t) => t,
        None => (p + c) as u32,
    })
}

/// The usage event of a final chunk.
pub open spec fn usage_event(u: UsageCounts) -> StreamEventView {
    StreamEventView::Usage {
        prompt_tokens: usage_counts(u).0,
        completion_tokens: usage_counts(u).1,
        total_tokens: usage_counts(u).2,
    }
}

/// The counts of a usage report add up without overflow.
pub open spec fn usage_fits(u: UsageCounts) -> bool {
    (match u.prompt_tokens {
        Some(x) => x as int,
        None => 0,
    }) + (match u.completion_tokens {
        Some(x) => x as int,
        None => 0,
    }) <= u32::MAX
}

/// The events of a chunk, and whether the reply ends with it: the
/// choices' events; after a chunk that says the reply stopped, its usage
/// (if reported) and the end.
pub open spec fn chunk_events_spec(chunk: StreamChunkData) -> (Seq<StreamEventView>, bool) {
    let evs = choices_events(chunk.choices@);
    if chunk_finishes(chunk) {
        (evs + (match chunk.usage {
            Some(u) => seq![usage_event(u)],
            None => Seq::empty(),
        }) + seq![StreamEventView::Done], true)
    } else {
        (evs, false)
    }
}

fn read_usage(u: &UsageCounts) -> (r: (u32, u32, u32))
    requires
        usage_fits(*u),
    ensures
        r == usage_counts(*u),
{
    let p: u32 = match u.prompt_tokens {
        Some(x) => x,
        None => 0,
    };
    let c: u32 = match u.completion_tokens {
        Some(x) => x,
        None => 0,
    };
    let sum = p + c;
    let t: u32 = match u.total_tokens {
        Some(x) => x,
        None => sum,
    };
    (p, c, t)
}

fn clone_opt(o: &Option<String>) -> (r: Option<String>)
    ensures
        opt_view(r) == opt_view(*o),
{
    match o {
        Some(s) => Some(s.clone()),
        None => None,
    }
}

fn push_choice_events(out: &mut Vec<StreamEvent>, c: &StreamChoiceData)
    ensures
        event_views(final(out)@) == event_views(old(out)@) + choice_events(*c),
{
    let ghost start = event_views(out@);
    let ghost text_part = text_events(c.content);
    match &c.content {
        Some(t) => {
            if t.unicode_len() > 0 {
                out.push(StreamEvent::TextDelta(t.clone()));
            }
        },
        None => {},
    }
    assert(event_views(out@) =~= start + text_part);
    match &c.tool_calls {
        Some(tcs) => {
            let mut k: usize = 0;
            while k < tcs.len()
                invariant
                    k <= tcs@.len(),
                    c.tool_calls == Some(*tcs),
                    event_views(out@) =~= start + text_part + Seq::new(k as nat, |j: int| tool_delta_event(tcs@[j])),
                decreases tcs.len() - k,
            {
                let tc = &tcs[k];
                let index: usize = match tc.index {
                    Some(i) => i,
                    None => 0,
                };
                let arguments = match &tc.arguments {
                    Some(a) => a.clone(),
                    None => String::new(),
                };
                let ghost before = event_views(out@);
                out.push(StreamEvent::ToolCallDelta { index, id: clone_opt(&tc.id), name: clone_opt(&tc.name), arguments });
                assert(event_views(out@) =~= before.push(tool_delta_event(tcs@[k as int])));
                k = k + 1;
            }
        },
        None => {},
    }
}

/// The events of one chunk of a streamed reply, and whether the reply
/// ends with it.
pub fn chunk_events(chunk: &StreamChunkData) -> (r: (Vec<StreamEvent>, bool))
    requires
        chunk_finishes(*chunk) ==> (chunk.usage matches Some(u) ==> usage_fits(u)),
    ensures
        (event_views(r.0@), r.1) == chunk_events_spec(*chunk),
{
    let mut out: Vec<StreamEvent> = Vec::new();
    let mut finished = false;
    let mut i: usize = 0;
    while i < chunk.choices.len()
        invariant
            i <= chunk.choices@.len(),
            event_views(out@) == choices_events(chunk.choices@.take(i as int)),
            finished == exists|j: int| 0 <= j < i && choice_finishes(#[trigger] chunk.choices@[j]),
        decreases chunk.choices.len() - i,
    {
        let c = &chunk.choices[i];
        assert(chunk.choices@.take(i + 1).drop_last() =~= chunk.choices@.take(i as int));
        push_choice_events(&mut out, c);
        let fin = match &c.finish_reason {
            Some(fr) => fr.unicode_len() > 0 && !str_equal(fr.as_str(), "null"),
            None => false,
        };
        assert(fin == choice_finishes(chunk.choices@[i as int]));
        finished = finished || fin;
        i = i + 1;
    }
    assert(chunk.choices@.take(i as int) =~= chunk.choices@);
    if finished {
        let ghost before = event_views(out@);
        match &chunk.usage {
            Some(u) => {
                let (p, c, t) = read_usage(u);
                out.push(StreamEvent::Usage { prompt_tokens: p, completion_tokens: c, total_tokens: t });
                assert(event_views(out@) =~= before + seq![usage_event(*u)]);
            },
            None => {
                assert(event_views(out@) =~= before + Seq::<StreamEventView>::empty());
            },
        }
        let ghost mid = event_views(out@);
        out.push(StreamEvent::Done);
        assert(event_views(out@) =~= mid + seq![StreamEventView::Done]);
    }
    (out, finished)
}

/// Read failures that mean the server simply closed the stream.
pub open spec fn closes_stream(msg: Seq<char>) -> bool {
    ||| has_infix(msg, "decoding response body"@)
    ||| has_infix(msg, "connection closed"@)
    ||| has_infix(msg, "aborted"@)
    ||| has_infix(msg, "premature"@)
}

/// The event for a failed read of the stream: the end, when the message
/// says the server closed it, else an error that quotes the message.
pub fn read_error_event(msg: &str) -> (e: StreamEvent)
    ensures
        e@ == if closes_stream(msg@) {
            StreamEventView::Done
        } else {
            StreamEventView::Error("stream read error: "@ + msg@)
        },
{
    if str_contains(msg, "decoding response body") || str_contains(msg, "connection closed") || str_contains(
        msg,
        "aborted",
    ) || str_contains(msg, "premature") {
        StreamEvent::Done
    } else {
        let mut m = String::from_str("stream read error: ");
        m.append(msg);
        StreamEvent::Error(m)
    }
}

/// The event for a data line whose chunk could not be read: an error that
/// quotes the reader's message.
pub fn chunk_error_event(msg: &str) -> (e: StreamEvent)
    ensures
        e@ == StreamEventView::Error("failed to parse stream chunk: "@ + msg@),
{
    let mut m = String::from_str("failed to parse stream chunk: ");
    m.append(msg);
    StreamEvent::Error(m)
}


// ----- plain replies, failed calls and model lists -----
/// A tool call a reply asks for, with its arguments as the JSON text the
/// API sent.
pub struct RawToolCall {
    pub id: String,
    pub name: String,
    pub arguments: String,
}

/// The message of a reply's choice.
pub struct CompatMessageData {
    pub role: Option<String>,
    pub content: Option<String>,
    pub tool_calls: Option<Vec<RawToolCall>>,
}

/// A choice of a reply.
pub struct CompatChoiceData {
    pub message: Option<CompatMessageData>,
    pub finish_reason: Option<String>,
}

/// What a chat-completions reply says, as read from its JSON.
pub struct CompatResponseData {
    pub model: Option<String>,
    pub choices: Vec<CompatChoiceData>,
    pub usage: Option<UsageCounts>,
}

/// A reply as the router hands it on: the message, why it stopped, the
/// token counts and the model that answered.
pub struct ReplyData {
    pub role: MessageRole,
    pub content: String,
    pub tool_calls: Option<Vec<RawToolCall>>,
    pub finish_reason: FinishReason,
    pub prompt_tokens: u32,
    pub completion_tokens: u32,
    pub total_tokens: u32,
    pub model_used: String,
}

/// The id, name and arguments of tool calls.
pub open spec fn calls_view(v: Option<Vec<RawToolCall>>) -> Option<Seq<(Seq<char>, Seq<char>, Seq<char>)>> {
    match v {
        Some(cs) => Some(Seq::new(cs@.len(), |i: int| (cs@[i].id@, cs@[i].name@, cs@[i].arguments@))),
        None => None,
    }
}

/// The text a choice's message carries: empty without a message or text.
pub open spec fn reply_content(c: CompatChoiceData) -> Seq<char> {
    match c.message {
        Some(m) => match m.content {
            Some(t) => t@,
            None => Seq::empty(),
        },
        None => Seq::empty(),
    }
}

/// Who wrote a choice's message: its role, or the assistant when none is
/// given.
pub open spec fn reply_role(c: CompatChoiceData) -> MessageRole {
    match c.message {
        Some(m) => match m.role {
            Some(r) => role_of(r@),
            None => MessageRole::Assistant,
        },
        None => MessageRole::Assistant,
    }
}

/// The tool calls of a choice's message.
pub open spec fn reply_calls(c: CompatChoiceData) -> Option<Seq<(Seq<char>, Seq<char>, Seq<char>)>> {
    match c.message {
        Some(m) => calls_view(m.tool_calls),
        None => None,
    }
}

/// Why a choice stopped: its reason, or `Stop` when none is given.
pub open spec fn reply_finish(c: CompatChoiceData) -> FinishReason {
    match c.finish_reason {
        Some(f) => finish_reason_of(f@),
        None => FinishReason::Stop,
    }
}

/// The counts of a reply: its usage report's, or nothing used.
pub open spec fn reply_usage(u: Option<UsageCounts>) -> (u32, u32, u32) {
    match u {
        Some(x) => usage_counts(x),
        None => (0, 0, 0),
    }
}

fn clone_calls(v: &Option<Vec<RawToolCall>>) -> (r: Option<Vec<RawToolCall>>)
    ensures
        calls_view(r) == calls_view(*v),
{
    match v {
        Some(cs) => {
            let mut out: Vec<RawToolCall> = Vec::new();
            let mut i: usize = 0;
            while i < cs.len()
                invariant
                    i <= cs@.len(),
                    out@.len() == i,
                    forall|k: int|
                        0 <= k < i ==> (#[trigger] out@[k]).id@ == cs@[k].id@ && out@[k].name@ == cs@[k].name@
                            && out@[k].arguments@ == cs@[k].arguments@,
                decreases cs.len() - i,
            {
                out.push(RawToolCall { id: cs[i].id.clone(), name: cs[i].name.clone(), arguments: cs[i].arguments.clone() });
                i = i + 1;
            }
            assert(calls_view(Some(out)) =~~= calls_view(Some(*cs)));
            Some(out)
        },
        None => None,
    }
}

/// The reply a chat-completions response gives: its first choice's
/// message, role and finish reason, its token counts and the model that
/// answered (the model asked for, when the response names none); an error
/// when the response has no choice.
pub fn reply_from_response(resp: &CompatResponseData, requested_model: &str) -> (r: Result<ReplyData, ModelError>)
    requires
        resp.usage matches Some(u) ==> usage_fits(u),
    ensures
        resp.choices@.len() == 0 <==> r is Err,
        r matches Err(e) ==> e matches ModelError::ApiError(m) && m@ == "no choices in response"@,
        r matches Ok(d) ==> {
            let ch = resp.choices@[0];
            &&& d.role == reply_role(ch)
            &&& d.content@ == reply_content(ch)
            &&& calls_view(d.tool_calls) == reply_calls(ch)
            &&& d.finish_reason == reply_finish(ch)
            &&& (d.prompt_tokens, d.completion_tokens, d.total_tokens) == reply_usage(resp.usage)
            &&& d.model_used@ == match resp.model {
                Some(m) => m@,
                None => requested_model@,
            }
        },
{
    if resp.choices.len() == 0 {
        return Err(ModelError::ApiError(String::from_str("no choices in response")));
    }
    let ch = &resp.choices[0];
    let (role, content, tool_calls) = match &ch.message {
        Some(m) => {
            let role = match &m.role {
                Some(x) => OpenAiCompatibleProvider::map_role(x.as_str()),
                None => MessageRole::Assistant,
            };
            let content = match &m.content {
                Some(t) => t.clone(),
                None => String::new(),
            };
            (role, content, clone_calls(&m.tool_calls))
        },
        None => (MessageRole::Assistant, String::new(), None),
    };
    let finish_reason = match &ch.finish_reason {
        Some(f) => OpenAiCompatibleProvider::map_finish_reason(f.as_str()),
        None => FinishReason::Stop,
    };
    let (p, c, t) = match &resp.usage {
        Some(u) => read_usage(u),
        None => (0u32, 0u32, 0u32),
    };
    let model_used = match &resp.model {
        Some(m) => m.clone(),
        None => String::from_str(requested_model),
    };
    Ok(ReplyData {
        role,
        content,
        tool_calls,
        finish_reason,
        prompt_tokens: p,
        completion_tokens: c,
        total_tokens: t,
        model_used,
    })
}

/// A status code of success (2xx), as `StatusCode::is_success` says.
pub open spec fn is_success_status(status: u16) -> bool {
    200 <= status <= 299
}

/// The index of the last model with the id, if any.
pub open spec fn last_known(models: Seq<ModelProfile>, id: Seq<char>) -> Option<int>
    decreases models.len(),
{
    if models.len() == 0 {
        None
    } else if models.last().id@ == id {
        Some(models.len() - 1)
    } else {
        last_known(models.drop_last(), id)
    }
}

/// The profile a listed model gets when none is known: the provider's
/// name, a context of 128 000 tokens, 8 192 output tokens, no cost, and
/// general use.
pub open spec fn unknown_profile(provider: Seq<char>, id: Seq<char>) -> crate::router::ModelProfileView {
    crate::router::ModelProfileView {
        id,
        provider,
        model_name: id,
        context_window: 128_000,
        max_output_tokens: 8_192,
        cost_per_1m_input: 0,
        cost_per_1m_output: 0,
        suitable_for: seq!["general"@],
    }
}

impl OpenAiCompatibleProvider {
    /// The error a call gets when the provider has no key: a streamed call
    /// names the provider, a plain one also says how to set the key; none
    /// when the key is there.
    pub fn missing_key_error(&self, streaming: bool) -> (e: Option<ModelError>)
        ensures
            e is Some <==> self.api_key_view().len() == 0,
            e matches Some(err) ==> err matches ModelError::ApiError(m) && m@ == "API key not set for provider '"@
                + self.name_view() + if streaming {
                "'"@
            } else {
                "'. Set the corresponding env var or configure via TUI"@
            },
    {
        if self.api_key.as_str().unicode_len() > 0 {
            return None;
        }
        let mut m = String::from_str("API key not set for provider '");
        m.append(self.name.as_str());
        if streaming {
            m.append("'");
        } else {
            m.append("'. Set the corresponding env var or configure via TUI");
        }
        Some(ModelError::ApiError(m))
    }

    /// The error for a chat call's HTTP status: none on success; rate
    /// limited for 30 seconds on 429; a failed authentication on 401; any
    /// other status with the body the server sent.
    pub fn http_error(&self, status: u16, body: &str) -> (e: Option<ModelError>)
        ensures
            is_success_status(status) <==> e is None,
            !is_success_status(status) && status == 429 ==> e == Some(ModelError::RateLimited(30)),
            !is_success_status(status) && status == 401 ==> (e matches Some(ModelError::ApiError(m)) && m@
                == self.name_view() + " authentication failed (401): "@ + body@),
            !is_success_status(status) && status != 429 && status != 401 ==> (e matches Some(ModelError::ApiError(m))
                && m@ == self.name_view() + " API error ("@ + decimal_text(status as nat) + "): "@ + body@),
    {
        if 200 <= status && status <= 299 {
            return None;
        }
        if status == 429 {
            return Some(ModelError::RateLimited(30));
        }
        let mut m = self.name.clone();
        if status == 401 {
            m.append(" authentication failed (401): ");
        } else {
            m.append(" API error (");
            push_decimal(&mut m, status as u64);
            m.append("): ");
        }
        m.append(body);
        Some(ModelError::ApiError(m))
    }

    /// The error for the model list's HTTP status: none on success, else
    /// the status named.
    pub fn models_http_error(&self, status: u16) -> (e: Option<ModelError>)
        ensures
            is_success_status(status) <==> e is None,
            e matches Some(err) ==> err matches ModelError::ApiError(m) && m@ == self.name_view()
                + " models API returned HTTP "@ + decimal_text(status as nat),
    {
        if 200 <= status && status <= 299 {
            return None;
        }
        let mut m = self.name.clone();
        m.append(" models API returned HTTP ");
        push_decimal(&mut m, status as u64);
        Some(ModelError::ApiError(m))
    }

    /// The profiles of the models a provider lists, in its order: the
    /// profile known for each id (the last one, when several share it), or
    /// a fresh profile for an id not known.
    pub fn merge_fetched_models(&self, ids: &Vec<String>) -> (r: Vec<ModelProfile>)
        ensures
            r@.len() == ids@.len(),
            forall|i: int|
                0 <= i < ids@.len() ==> (#[trigger] r@[i])@ == match last_known(self.models_view(), ids@[i]@) {
                    Some(k) => self.models_view()[k]@,
                    None => unknown_profile(self.name_view(), ids@[i]@),
                },
    {
        let mut out: Vec<ModelProfile> = Vec::new();
        let mut i: usize = 0;
        while i < ids.len()
            invariant
                i <= ids@.len(),
                out@.len() == i,
                forall|j: int|
                    0 <= j < i ==> (#[trigger] out@[j])@ == match last_known(self.models@, ids@[j]@) {
                        Some(k) => self.models@[k]@,
                        None => unknown_profile(self.name@, ids@[j]@),
                    },
            decreases ids.len() - i,
        {
            let id = ids[i].as_str();
            let mut found: Option<usize> = None;
            let mut k: usize = 0;
            while k < self.models.len()
                invariant
                    k <= self.models@.len(),
                    found matches Some(x) ==> x < k,
                    match found {
                        Some(x) => last_known(self.models@.take(k as int), id@) == Some(x as int),
                        None => last_known(self.models@.take(k as int), id@) is None,
                    },
                decreases self.models.len() - k,
            {
                assert(self.models@.take(k + 1).drop_last() =~= self.models@.take(k as int));
                if str_equal(self.models[k].id.as_str(), id) {
                    found = Some(k);
                }
                k = k + 1;
            }
            assert(self.models@.take(k as int) =~= self.models@);
            let p = match found {
                Some(x) => self.models[x].duplicate(),
                None => {
                    let mut tags: Vec<String> = Vec::new();
                    tags.push(String::from_str("general"));
                    let p = ModelProfile {
                        id: String::from_str(id),
                        provider: self.name.clone(),
                        model_name: String::from_str(id),
                        context_window: 128_000,
                        max_output_tokens: 8_192,
                        cost_per_1m_input: 0,
                        cost_per_1m_output: 0,
                        suitable_for: tags,
                    };
                    assert(p@ =~~= unknown_profile(self.name@, id@));
                    p
                },
            };
            out.push(p);
            i = i + 1;
        }
        out
    }
}


// ----- request bodies -----
/// The name a role goes by in a request.
pub open spec fn role_name(role: MessageRole) -> Seq<char> {
    match role {
        MessageRole::System => "system"@,
        MessageRole::User => "user"@,
        MessageRole::Assistant => "assistant"@,
        MessageRole::Tool => "tool"@,
    }
}

/// A role's name read back gives the role.
pub proof fn law_role_name_round_trip(role: MessageRole)
    ensures
        role_of(role_name(role)) == role,
{
    reveal_strlit("system");
    reveal_strlit("user");
    reveal_strlit("assistant");
    reveal_strlit("tool");
    assert("system"@.len() == 6 && "user"@.len() == 4 && "assistant"@.len() == 9 && "tool"@.len() == 4);
    assert("user"@[0] == 'u' && "tool"@[0] == 't');
    assert("user"@ != "system"@);
    assert("assistant"@ != "system"@ && "assistant"@ != "user"@);
    assert("tool"@ != "system"@ && "tool"@ != "assistant"@);
    assert("tool"@ != "user"@);
}

/// A message of a chat, as the router hands it to a provider.
pub struct ChatMessageData {
    pub role: MessageRole,
    pub content: String,
    pub tool_calls: Option<Vec<RawToolCall>>,
    pub tool_call_id: Option<String>,
    pub name: Option<String>,
}

/// A message as a chat-completions request carries it.
pub struct WireMessage {
    pub role: String,
    pub content: Option<String>,
    pub tool_calls: Option<Vec<RawToolCall>>,
    pub tool_call_id: Option<String>,
    pub name: Option<String>,
}

/// The content a message carries in a request: none when it is empty and
/// the message calls tools, else its text.
pub open spec fn wire_content_spec(content: Seq<char>, calls_tools: bool) -> Option<Seq<char>> {
    if content.len() == 0 && calls_tools {
        None
    } else {
        Some(content)
    }
}

/// A message as a request carries it: its role by name, its content (left
/// out when empty beside tool calls), its tool calls, the id of the call
/// it answers and its author's name.
pub fn wire_message(m: &ChatMessageData) -> (w: WireMessage)
    ensures
        w.role@ == role_name(m.role),
        opt_view(w.content) == wire_content_spec(m.content@, m.tool_calls is Some),
        calls_view(w.tool_calls) == calls_view(m.tool_calls),
        opt_view(w.tool_call_id) == opt_view(m.tool_call_id),
        opt_view(w.name) == opt_view(m.name),
{
    let role = match m.role {
        MessageRole::System => "system",
        MessageRole::User => "user",
        MessageRole::Assistant => "assistant",
        MessageRole::Tool => "tool",
    };
    let tool_calls = clone_calls(&m.tool_calls);
    let content = if m.content.as_str().unicode_len() == 0 && tool_calls.is_some() {
        None
    } else {
        Some(m.content.clone())
    };
    WireMessage {
        role: String::from_str(role),
        content,
        tool_calls,
        tool_call_id: clone_opt(&m.tool_call_id),
        name: clone_opt(&m.name),
    }
}

} // verus!
