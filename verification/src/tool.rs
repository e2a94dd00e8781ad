//! Tools agents call: their errors and outputs, the execution context, and
//! the built-in shell and artifact tools' arguments and results.
use vstd::prelude::*;
use crate::domain::{AgentId, MicroUsd, MissionId, TaskId, WorkerId};
use crate::json::{JsonValue, JsonView};
use crate::store::Store;
use crate::text::{decimal_text, push_decimal, str_equal};

verus! {

/// Why a tool call failed.
pub enum ToolError {
    ToolNotFound(String),
    ExecutionFailed(String),
    InvalidArguments(String),
    PermissionDenied(String),
    SideEffectNotAllowed(String),
    Timeout(u64),
    BudgetExceeded,
    MissingContext(String),
    Other(String),
}

/// The message of a tool error, as its `Display` prints it.
pub open spec fn tool_error_text(e: ToolError) -> Seq<char> {
    match e {
        ToolError::ToolNotFound(m) => "tool not found: "@ + m@,
        ToolError::ExecutionFailed(m) => "tool execution failed: "@ + m@,
        ToolError::InvalidArguments(m) => "invalid arguments: "@ + m@,
        ToolError::PermissionDenied(m) => "permission denied: "@ + m@,
        ToolError::SideEffectNotAllowed(m) => "side effect not allowed: "@ + m@,
        ToolError::Timeout(n) => "timeout after "@ + decimal_text(n as nat) + "s"@,
        ToolError::BudgetExceeded => "budget exceeded for tool call"@,
        ToolError::MissingContext(m) => "execution context missing required field: "@ + m@,
        ToolError::Other(m) => "tool error: "@ + m@,
    }
}

fn prefixed(prefix: &str, m: &String) -> (s: String)
    ensures
        s@ == prefix@ + m@,
{
    let mut s = String::from_str(prefix);
    s.append(m.as_str());
    s
}

impl ToolError {
    /// The message of the error, as its `Display` prints it.
    pub fn to_string(&self) -> (s: String)
        ensures
            s@ == tool_error_text(*self),
    {
        match self {
            ToolError::ToolNotFound(m) => prefixed("tool not found: ", m),
            ToolError::ExecutionFailed(m) => prefixed("tool execution failed: ", m),
            ToolError::InvalidArguments(m) => prefixed("invalid arguments: ", m),
            ToolError::PermissionDenied(m) => prefixed("permission denied: ", m),
            ToolError::SideEffectNotAllowed(m) => prefixed("side effect not allowed: ", m),
            ToolError::Timeout(n) => {
                let mut s = String::from_str("timeout after ");
                push_decimal(&mut s, *n);
                s.append("s");
                s
            },
            ToolError::BudgetExceeded => String::from_str("budget exceeded for tool call"),
            ToolError::MissingContext(m) => prefixed("execution context missing required field: ", m),
            ToolError::Other(m) => prefixed("tool error: ", m),
        }
    }
}

/// What a tool call produced.
pub struct ToolOutput {
    pub success: bool,
    pub data: JsonValue,
    pub error: Option<String>,
    pub execution_time_ms: u64,
    /// Millionths of a dollar.
    pub cost_usd: MicroUsd,
}

impl ToolOutput {
    /// A successful output carrying `data`, free of cost.
    pub fn ok(data: JsonValue) -> (o: ToolOutput)
        ensures
            o.success && o.data == data && o.error is None && o.execution_time_ms == 0 && o.cost_usd == 0,
    {
        ToolOutput { success: true, data, error: None, execution_time_ms: 0, cost_usd: 0 }
    }

    /// A successful output carrying `data` at a cost.
    pub fn ok_with_cost(data: JsonValue, cost_usd: MicroUsd) -> (o: ToolOutput)
        ensures
            o.success && o.data == data && o.error is None && o.execution_time_ms == 0 && o.cost_usd == cost_usd,
    {
        ToolOutput { success: true, data, error: None, execution_time_ms: 0, cost_usd }
    }

    /// A failed output with an error message and no data.
    pub fn fail(error: String) -> (o: ToolOutput)
        ensures
            !o.success && o.data@ == JsonView::Null && o.error == Some(error) && o.execution_time_ms == 0
                && o.cost_usd == 0,
    {
        ToolOutput { success: false, data: JsonValue::Null, error: Some(error), execution_time_ms: 0, cost_usd: 0 }
    }
}

/// Where a tool call runs.
pub struct ToolContext {
    pub tenant_id: String,
    pub mission_id: MissionId,
    pub task_id: TaskId,
    pub agent_id: AgentId,
    pub worker_id: WorkerId,
    pub idempotency_key: String,
    pub risk_level: String,
    pub approval_id: Option<String>,
    /// Millionths of a dollar.
    pub budget_remaining: MicroUsd,
    pub workspace_dir: String,
}

/// How far a tool's effects reach.
#[derive(Clone, Copy, Debug, PartialEq, Eq, Structural)]
pub enum SideEffectClass {
    ReadOnly,
    ControlledWrite,
    ExternalWrite,
}

// ----- JSON building -----
fn jstr(s: &str) -> (v: JsonValue)
    ensures
        v@ == JsonView::Str(s@),
{
    JsonValue::Str(String::from_str(s))
}

fn jnull() -> (v: JsonValue)
    ensures
        v@ == JsonView::Null,
{
    JsonValue::Null
}

fn jstring(s: String) -> (v: JsonValue)
    ensures
        v@ == JsonView::Str(s@),
{
    JsonValue::Str(s)
}

fn jnum(s: String) -> (v: JsonValue)
    ensures
        v@ == JsonView::Number(s@),
{
    JsonValue::Number(s)
}

fn jbool(b: bool) -> (v: JsonValue)
    ensures
        v@ == JsonView::Bool(b),
{
    JsonValue::Bool(b)
}

fn jdescribed(description: &str, t: &str) -> (v: JsonValue)
    ensures
        v@ == JsonView::Object(seq![("description"@, JsonView::Str(description@)), ("type"@, JsonView::Str(t@))]),
{
    let mut es: Vec<(String, JsonValue)> = Vec::new();
    es.push((String::from_str("description"), jstr(description)));
    es.push((String::from_str("type"), jstr(t)));
    let v = JsonValue::Object(es);
    assert(v@->Object_0 =~= seq![("description"@, JsonView::Str(description@)), ("type"@, JsonView::Str(t@))]);
    v
}

/// The JSON text of a natural number.
pub open spec fn number_view(n: nat) -> JsonView {
    JsonView::Number(decimal_text(n))
}

/// The decimal text of an integer, with a minus sign when negative.
pub open spec fn int_text(n: int) -> Seq<char> {
    if n < 0 {
        seq!['-'] + decimal_text((-n) as nat)
    } else {
        decimal_text(n as nat)
    }
}

fn jnumber_i32(n: i32) -> (v: JsonValue)
    ensures
        v@ == JsonView::Number(int_text(n as int)),
{
    let mut s = String::new();
    if n < 0 {
        crate::text::push_char(&mut s, '-');
        let m: i64 = -(n as i64);
        push_decimal(&mut s, m as u64);
    } else {
        push_decimal(&mut s, n as u64);
    }
    JsonValue::Number(s)
}

// ----- JSON argument reading -----
/// The text of the field `key` of an object, when it is a string.
pub open spec fn str_field(args: JsonView, key: Seq<char>) -> Option<Seq<char>> {
    match crate::json::json_lookup(args, key) {
        Some(JsonView::Str(s)) => Some(s),
        _ => None,
    }
}

/// The value of a decimal text of digits only, most significant first.
pub open spec fn digits_value(t: Seq<char>) -> nat
    decreases t.len(),
{
    if t.len() == 0 {
        0
    } else {
        digits_value(t.drop_last()) * 10 + (t.last() as nat - 48) as nat
    }
}

/// The text is a non-empty run of ASCII digits.
pub open spec fn all_digits(t: Seq<char>) -> bool {
    t.len() > 0 && forall|i: int| 0 <= i < t.len() ==> '0' <= #[trigger] t[i] <= '9'
}

/// What `serde_json::Value::as_u64` gives for a value: a number written
/// as plain digits that fits in 64 bits.
pub open spec fn json_u64(v: JsonView) -> Option<u64> {
    match v {
        JsonView::Number(t) => if all_digits(t) && digits_value(t) <= u64::MAX {
            Some(digits_value(t) as u64)
        } else {
            None
        },
        _ => None,
    }
}

fn text_u64(t: &str) -> (r: Option<u64>)
    ensures
        r == (if all_digits(t@) && digits_value(t@) <= u64::MAX {
            Some(digits_value(t@) as u64)
        } else {
            None
        }),
{
    let n = t.unicode_len();
    if n == 0 {
        return None;
    }
    let mut acc: u64 = 0;
    let mut i: usize = 0;
    while i < n
        invariant
            n == t@.len(),
            i <= n,
            acc == digits_value(t@.subrange(0, i as int)),
            forall|j: int| 0 <= j < i ==> '0' <= #[trigger] t@[j] <= '9',
        decreases n - i,
    {
        let c = t.get_char(i);
        assert(t@.subrange(0, i + 1).drop_last() =~= t@.subrange(0, i as int));
        if c < '0' || c > '9' {
            return None;
        }
        let d = (c as u32 - 48) as u64;
        if acc > (u64::MAX - d) / 10 {
            proof {
                lemma_digits_grow(t@, i + 1, n as int);
                assert(digits_value(t@.subrange(0, i + 1)) == acc * 10 + d);
                assert(acc * 10 + d > u64::MAX) by (nonlinear_arith)
                    requires
                        acc > (u64::MAX - d) / 10,
                        d <= 9,
                ;
                assert(t@.subrange(0, n as int) =~= t@);
            }
            return None;
        }
        acc = acc * 10 + d;
        i = i + 1;
    }
    assert(t@.subrange(0, n as int) =~= t@);
    Some(acc)
}

proof fn lemma_digits_grow(t: Seq<char>, i: int, n: int)
    requires
        0 <= i <= n <= t.len(),
    ensures
        digits_value(t.subrange(0, i)) <= digits_value(t.subrange(0, n)),
    decreases n - i,
{
    if i < n {
        lemma_digits_grow(t, i + 1, n);
        assert(t.subrange(0, i + 1).drop_last() =~= t.subrange(0, i));
    }
}

fn field<'a>(args: &'a JsonValue, key: &str) -> (r: Option<&'a JsonValue>)
    ensures
        match r {
            Some(x) => crate::json::json_lookup(args@, key@) == Some(x@),
            None => crate::json::json_lookup(args@, key@) is None,
        },
{
    let k = String::from_str(key);
    crate::json::json_get(args, &k)
}

// ----- the shell tool -----
/// Runs a shell command.
pub struct ShellTool;

/// The schema of the shell tool's timeout argument.
pub open spec fn shell_timeout_schema() -> JsonView {
    JsonView::Object(
        seq![
            ("default"@, JsonView::Number("30"@)),
            ("description"@, JsonView::Str("Timeout in seconds"@)),
            ("type"@, JsonView::Str("integer"@)),
        ],
    )
}

/// The schemas of the shell tool's arguments.
pub open spec fn shell_properties() -> JsonView {
    JsonView::Object(
        seq![
            ("command"@, JsonView::Object(
                seq![
                    ("description"@, JsonView::Str("Shell command to execute"@)),
                    ("type"@, JsonView::Str("string"@)),
                ],
            )),
            ("timeout_seconds"@, shell_timeout_schema()),
        ],
    )
}

/// The shell tool's argument schema.
pub open spec fn shell_input_schema() -> JsonView {
    JsonView::Object(
        seq![
            ("properties"@, shell_properties()),
            ("required"@, JsonView::Array(seq![JsonView::Str("command"@)])),
            ("type"@, JsonView::Str("object"@)),
        ],
    )
}

/// The shell tool's result: the captured output, the exit code (null when
/// the process was killed by a signal) and whether it succeeded.
pub open spec fn shell_result(stdout: Seq<char>, stderr: Seq<char>, exit_code: Option<i32>, success: bool) -> JsonView {
    JsonView::Object(
        seq![
            ("exit_code"@, match exit_code {
                Some(c) => JsonView::Number(int_text(c as int)),
                None => JsonView::Null,
            }),
            ("stderr"@, JsonView::Str(stderr)),
            ("stdout"@, JsonView::Str(stdout)),
            ("success"@, JsonView::Bool(success)),
        ],
    )
}

impl ShellTool {
    /// The tool's name.
    pub fn name(&self) -> (s: &'static str)
        ensures
            s@ == "shell"@,
    {
        "shell"
    }

    /// What the tool does.
    pub fn description(&self) -> (s: &'static str)
        ensures
            s@ == "Execute a shell command with arguments"@,
    {
        "Execute a shell command with arguments"
    }

    /// The categories the tool belongs to.
    pub fn categories(&self) -> (v: Vec<&'static str>)
        ensures
            v@.len() == 1 && v@[0]@ == "shell"@,
    {
        let mut v: Vec<&'static str> = Vec::new();
        v.push("shell");
        v
    }

    /// The tool writes, under control.
    pub fn side_effect_class(&self) -> (c: SideEffectClass)
        ensures
            c == SideEffectClass::ControlledWrite,
    {
        SideEffectClass::ControlledWrite
    }

    /// The JSON schema of the tool's arguments.
    pub fn input_schema(&self) -> (v: JsonValue)
        ensures
            v@ == shell_input_schema(),
    {
        let mut timeout: Vec<(String, JsonValue)> = Vec::new();
        timeout.push((String::from_str("default"), jnum(String::from_str("30"))));
        timeout.push((String::from_str("description"), jstr("Timeout in seconds")));
        timeout.push((String::from_str("type"), jstr("integer")));
        let timeout = JsonValue::Object(timeout);
        let mut props: Vec<(String, JsonValue)> = Vec::new();
        props.push((String::from_str("command"), jdescribed("Shell command to execute", "string")));
        props.push((String::from_str("timeout_seconds"), timeout));
        let props = JsonValue::Object(props);
        let mut required: Vec<JsonValue> = Vec::new();
        required.push(jstr("command"));
        let required = JsonValue::Array(required);
        let mut top: Vec<(String, JsonValue)> = Vec::new();
        top.push((String::from_str("properties"), props));
        top.push((String::from_str("required"), required));
        top.push((String::from_str("type"), jstr("object")));
        let v = JsonValue::Object(top);
        proof {
            assert(timeout@->Object_0 =~= shell_timeout_schema()->Object_0);
            assert(timeout@ == shell_timeout_schema());
            assert(props@->Object_0 =~= shell_properties()->Object_0);
            assert(props@ == shell_properties());
            assert(required@->Array_0 =~= seq![JsonView::Str("command"@)]);
            assert(v@->Object_0 =~= shell_input_schema()->Object_0);
        }
        v
    }

    /// Reads the arguments: the command, which is required, and the timeout
    /// in seconds, 30 unless given as a whole number.
    pub fn parse_args(args: &JsonValue) -> (r: Result<(String, u64), ToolError>)
        ensures
            str_field(args@, "command"@) is None ==> (r matches Err(ToolError::InvalidArguments(m)) && m@
                == "command is required"@),
            str_field(args@, "command"@) matches Some(c) ==> (r matches Ok((cmd, t)) && cmd@ == c && t == match
                crate::json::json_lookup(args@, "timeout_seconds"@) {
                Some(x) => match json_u64(x) {
                    Some(n) => n,
                    None => 30u64,
                },
                None => 30u64,
            }),
    {
        let command = match field(args, "command") {
            Some(JsonValue::Str(c)) => c.clone(),
            _ => return Err(ToolError::InvalidArguments(String::from_str("command is required"))),
        };
        let timeout = match field(args, "timeout_seconds") {
            Some(JsonValue::Number(t)) => match text_u64(t.as_str()) {
                Some(n) => n,
                None => 30,
            },
            _ => 30,
        };
        Ok((command, timeout))
    }

    /// The tool's result for a finished process.
    pub fn result_value(stdout: String, stderr: String, exit_code: Option<i32>, success: bool) -> (v: JsonValue)
        ensures
            v@ == shell_result(stdout@, stderr@, exit_code, success),
    {
        let code = match exit_code {
            Some(c) => jnumber_i32(c),
            None => jnull(),
        };
        let ghost cv = code@;
        assert(cv == match exit_code {
            Some(c) => JsonView::Number(int_text(c as int)),
            None => JsonView::Null,
        });
        let ghost so = stdout@;
        let ghost se = stderr@;
        let mut es: Vec<(String, JsonValue)> = Vec::new();
        es.push((String::from_str("exit_code"), code));
        es.push((String::from_str("stderr"), jstring(stderr)));
        es.push((String::from_str("stdout"), jstring(stdout)));
        es.push((String::from_str("success"), jbool(success)));
        let v = JsonValue::Object(es);
        assert(v@->Object_0 =~= shell_result(so, se, exit_code, success)->Object_0);
        v
    }
}

// ----- the artifact tool -----
/// Registers a file an agent produced as an official artifact.
pub struct DeclareArtifactTool<S: Store> {
    pub kv_store: S,
}

/// The artifact tool's argument schema.
pub open spec fn artifact_input_schema() -> JsonView {
    JsonView::Object(
        seq![
            ("properties"@, JsonView::Object(
                seq![
                    ("mime_type"@, JsonView::Object(
                        seq![
                            ("description"@, JsonView::Str("MIME type of the file (default: 'text/plain')"@)),
                            ("type"@, JsonView::Str("string"@)),
                        ],
                    )),
                    ("name"@, JsonView::Object(
                        seq![
                            ("description"@, JsonView::Str(
                                "Descriptive name for the artifact (e.g., 'final_report.md')"@,
                            )),
                            ("type"@, JsonView::Str("string"@)),
                        ],
                    )),
                    ("path"@, JsonView::Object(
                        seq![
                            ("description"@, JsonView::Str("Absolute path to the file to register"@)),
                            ("type"@, JsonView::Str("string"@)),
                        ],
                    )),
                ],
            )),
            ("required"@, JsonView::Array(seq![JsonView::Str("path"@), JsonView::Str("name"@)])),
            ("type"@, JsonView::Str("object"@)),
        ],
    )
}

/// The artifact tool's result for a stored artifact.
pub open spec fn artifact_result(
    id: Seq<char>,
    name: Seq<char>,
    size_bytes: u64,
    content_hash: Seq<char>,
    storage_path: Seq<char>,
) -> JsonView {
    JsonView::Object(
        seq![
            ("artifact_id"@, JsonView::Str(id)),
            ("content_hash"@, JsonView::Str(content_hash)),
            ("name"@, JsonView::Str(name)),
            ("size_bytes"@, number_view(size_bytes as nat)),
            ("status"@, JsonView::Str("RegisteredSuccessfully"@)),
            ("storage_path"@, JsonView::Str(storage_path)),
        ],
    )
}

impl<S: Store> DeclareArtifactTool<S> {
    /// A tool that stores artifacts in `kv_store`.
    pub fn new(kv_store: S) -> (t: DeclareArtifactTool<S>)
        ensures
            t.kv_store == kv_store,
    {
        DeclareArtifactTool { kv_store }
    }

    /// The tool's name.
    pub fn name(&self) -> (s: &'static str)
        ensures
            s@ == "declare_artifact"@,
    {
        "declare_artifact"
    }

    /// What the tool does.
    pub fn description(&self) -> (s: &'static str)
        ensures
            s@ == "Declare a generated file as an official, integrity-hashed artifact in the workspace"@,
    {
        "Declare a generated file as an official, integrity-hashed artifact in the workspace"
    }

    /// The categories the tool belongs to.
    pub fn categories(&self) -> (v: Vec<&'static str>)
        ensures
            v@.len() == 2 && v@[0]@ == "artifacts"@ && v@[1]@ == "storage"@,
    {
        let mut v: Vec<&'static str> = Vec::new();
        v.push("artifacts");
        v.push("storage");
        v
    }

    /// The tool writes, under control.
    pub fn side_effect_class(&self) -> (c: SideEffectClass)
        ensures
            c == SideEffectClass::ControlledWrite,
    {
        SideEffectClass::ControlledWrite
    }

    /// The JSON schema of the tool's arguments.
    pub fn input_schema(&self) -> (v: JsonValue)
        ensures
            v@ == artifact_input_schema(),
    {
        let mut props: Vec<(String, JsonValue)> = Vec::new();
        props.push(
            (String::from_str("mime_type"), jdescribed("MIME type of the file (default: 'text/plain')", "string")),
        );
        props.push(
            (
                String::from_str("name"),
                jdescribed("Descriptive name for the artifact (e.g., 'final_report.md')", "string"),
            ),
        );
        props.push((String::from_str("path"), jdescribed("Absolute path to the file to register", "string")));
        let props = JsonValue::Object(props);
        let mut required: Vec<JsonValue> = Vec::new();
        required.push(jstr("path"));
        required.push(jstr("name"));
        let required = JsonValue::Array(required);
        let mut top: Vec<(String, JsonValue)> = Vec::new();
        top.push((String::from_str("properties"), props));
        top.push((String::from_str("required"), required));
        top.push((String::from_str("type"), jstr("object")));
        let v = JsonValue::Object(top);
        proof {
            assert(props@->Object_0 =~= artifact_input_schema()->Object_0[0].1->Object_0);
            assert(required@->Array_0 =~= seq![JsonView::Str("path"@), JsonView::Str("name"@)]);
            assert(v@->Object_0 =~= artifact_input_schema()->Object_0);
        }
        v
    }

    /// Reads the arguments: the path and the name, both required, and the
    /// MIME type, `text/plain` unless given.
    pub fn parse_args(args: &JsonValue) -> (r: Result<(String, String, String), ToolError>)
        ensures
            str_field(args@, "path"@) is None ==> (r matches Err(ToolError::InvalidArguments(m)) && m@
                == "path is required"@),
            str_field(args@, "path"@) is Some && str_field(args@, "name"@) is None ==> (r matches Err(
                ToolError::InvalidArguments(m),
            ) && m@ == "name is required"@),
            str_field(args@, "path"@) matches Some(p) ==> (str_field(args@, "name"@) matches Some(n) ==> (r matches Ok(
                (path, name, mime),
            ) && path@ == p && name@ == n && mime@ == match str_field(args@, "mime_type"@) {
                Some(m) => m,
                None => "text/plain"@,
            })),
    {
        let path = match field(args, "path") {
            Some(JsonValue::Str(p)) => p.clone(),
            _ => return Err(ToolError::InvalidArguments(String::from_str("path is required"))),
        };
        let name = match field(args, "name") {
            Some(JsonValue::Str(n)) => n.clone(),
            _ => return Err(ToolError::InvalidArguments(String::from_str("name is required"))),
        };
        let mime = match field(args, "mime_type") {
            Some(JsonValue::Str(m)) => m.clone(),
            _ => String::from_str("text/plain"),
        };
        Ok((path, name, mime))
    }

    /// The tool's result for a stored artifact.
    pub fn result_value(
        artifact_id: String,
        name: String,
        size_bytes: u64,
        content_hash: String,
        storage_path: String,
    ) -> (v: JsonValue)
        ensures
            v@ == artifact_result(artifact_id@, name@, size_bytes, content_hash@, storage_path@),
    {
        let ghost views = (artifact_id@, name@, content_hash@, storage_path@);
        let mut size = String::new();
        push_decimal(&mut size, size_bytes);
        assert(size@ =~= decimal_text(size_bytes as nat));
        let mut es: Vec<(String, JsonValue)> = Vec::new();
        es.push((String::from_str("artifact_id"), jstring(artifact_id)));
        es.push((String::from_str("content_hash"), jstring(content_hash)));
        es.push((String::from_str("name"), jstring(name)));
        es.push((String::from_str("size_bytes"), jnum(size)));
        es.push((String::from_str("status"), jstr("RegisteredSuccessfully")));
        es.push((String::from_str("storage_path"), jstring(storage_path)));
        let v = JsonValue::Object(es);
        assert(v@->Object_0 =~= artifact_result(views.0, views.1, size_bytes, views.2, views.3)->Object_0);
        v
    }
}

} // verus!
