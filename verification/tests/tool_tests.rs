use claw10::json::JsonValue;
use claw10::store::InMemoryStore;
use claw10::tool::{DeclareArtifactTool, ShellTool, SideEffectClass, ToolError, ToolOutput};

fn obj(entries: Vec<(&str, JsonValue)>) -> JsonValue {
    JsonValue::Object(entries.into_iter().map(|(k, v)| (k.to_string(), v)).collect())
}

#[test]
fn shell_arguments() {
    let args = obj(vec![("command", JsonValue::Str("ls".into()))]);
    let (cmd, timeout) = ShellTool::parse_args(&args).ok().unwrap();
    assert_eq!(cmd, "ls");
    assert_eq!(timeout, 30);

    let args = obj(vec![("command", JsonValue::Str("ls".into())), ("timeout_seconds", JsonValue::Number("5".into()))]);
    assert_eq!(ShellTool::parse_args(&args).ok().unwrap().1, 5);

    let args = obj(vec![("command", JsonValue::Str("ls".into())), ("timeout_seconds", JsonValue::Number("2.5".into()))]);
    assert_eq!(ShellTool::parse_args(&args).ok().unwrap().1, 30);

    let args = obj(vec![("command", JsonValue::Str("ls".into())), ("timeout_seconds", JsonValue::Number("-1".into()))]);
    assert_eq!(ShellTool::parse_args(&args).ok().unwrap().1, 30);

    let args = obj(vec![("command", JsonValue::Number("1".into()))]);
    match ShellTool::parse_args(&args) {
        Err(e) => assert_eq!(e.to_string(), "invalid arguments: command is required"),
        Ok(_) => panic!("expected an error"),
    }
}

#[test]
fn shell_result_and_schema() {
    let v = ShellTool::result_value("out".into(), "err".into(), Some(-2), false);
    match v {
        JsonValue::Object(es) => {
            assert_eq!(es.len(), 4);
            assert_eq!(es[0].0, "exit_code");
            assert!(matches!(&es[0].1, JsonValue::Number(n) if n == "-2"));
            assert!(matches!(&es[3].1, JsonValue::Bool(false)));
        },
        _ => panic!("expected an object"),
    }
    let tool = ShellTool;
    assert_eq!(tool.name(), "shell");
    assert_eq!(tool.categories(), vec!["shell"]);
    assert_eq!(tool.side_effect_class(), SideEffectClass::ControlledWrite);
    assert!(matches!(tool.input_schema(), JsonValue::Object(es) if es.len() == 3));
}

#[test]
fn artifact_arguments() {
    let args = obj(vec![("name", JsonValue::Str("r.md".into())), ("path", JsonValue::Str("/tmp/r.md".into()))]);
    let (path, name, mime) = DeclareArtifactTool::<InMemoryStore>::parse_args(&args).ok().unwrap();
    assert_eq!((path.as_str(), name.as_str(), mime.as_str()), ("/tmp/r.md", "r.md", "text/plain"));

    let args = obj(vec![("path", JsonValue::Str("/tmp/r.md".into()))]);
    assert!(matches!(
        DeclareArtifactTool::<InMemoryStore>::parse_args(&args),
        Err(ToolError::InvalidArguments(m)) if m == "name is required"
    ));
    let tool = DeclareArtifactTool::new(InMemoryStore::new());
    assert_eq!(tool.name(), "declare_artifact");
    assert_eq!(tool.categories(), vec!["artifacts", "storage"]);
}

#[test]
fn tool_outputs_and_errors() {
    let o = ToolOutput::ok(JsonValue::Null);
    assert!(o.success && o.error.is_none() && o.cost_usd == 0);
    let o = ToolOutput::ok_with_cost(JsonValue::Null, 25_000);
    assert_eq!(o.cost_usd, 25_000);
    let o = ToolOutput::fail("boom".into());
    assert!(!o.success);
    assert_eq!(o.error.as_deref(), Some("boom"));
    assert_eq!(ToolError::Timeout(30).to_string(), "timeout after 30s");
    assert_eq!(ToolError::BudgetExceeded.to_string(), "budget exceeded for tool call");
}
