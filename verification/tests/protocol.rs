use codex_sandbox_server::protocol::{
    internal_error, invalid_params, invalid_request, method_not_found, Field, FieldValue,
};
use codex_sandbox_server::CommandExecOutcome;
use serde_json::Value;

fn object(members: Vec<(&str, Value)>) -> Value {
    let mut map = serde_json::Map::new();
    for (name, value) in members {
        map.insert(name.to_string(), value);
    }
    Value::Object(map)
}

fn field_json(value: &FieldValue) -> Value {
    match value {
        FieldValue::Null => Value::Null,
        FieldValue::Flag(flag) => Value::from(*flag),
        FieldValue::Number(number) => Value::from(*number),
        FieldValue::Text(text) => Value::from(text.clone()),
        FieldValue::TextList(list) => Value::from(list.clone()),
        FieldValue::Json(json) => serde_json::from_str(json).expect("embedded JSON"),
    }
}

fn fields_json(fields: &[Field]) -> Value {
    object(fields.iter().map(|field| (field.name, field_json(&field.value))).collect())
}

#[test]
fn command_exec_outcomes_share_the_same_payload_shape() {
    let completed = CommandExecOutcome::Completed {
        exit_code: 0,
        stdout: "ok".to_string(),
        stderr: String::new(),
    }
    .into_fields();
    let denied = CommandExecOutcome::SandboxDenied {
        exit_code: 1,
        stdout: String::new(),
        stderr: "permission denied".to_string(),
    }
    .into_fields();

    assert_eq!(
        fields_json(&completed),
        object(vec![
            ("type", Value::from("completed")),
            ("exitCode", Value::from(0)),
            ("stdout", Value::from("ok")),
            ("stderr", Value::from("")),
        ])
    );
    assert_eq!(
        fields_json(&denied),
        object(vec![
            ("type", Value::from("sandboxDenied")),
            ("exitCode", Value::from(1)),
            ("stdout", Value::from("")),
            ("stderr", Value::from("permission denied")),
        ])
    );
    let names = |fields: &[Field]| fields.iter().map(|field| field.name).collect::<Vec<_>>();
    assert_eq!(names(&completed), names(&denied));
    assert_eq!(names(&completed), vec!["type", "exitCode", "stdout", "stderr"]);
}

#[test]
fn outcome_kind_follows_the_denial_flag() {
    assert_eq!(
        CommandExecOutcome::new(false, 7, "out".to_string(), "err".to_string()),
        CommandExecOutcome::Completed {
            exit_code: 7,
            stdout: "out".to_string(),
            stderr: "err".to_string(),
        }
    );
    assert_eq!(
        CommandExecOutcome::new(true, -1, "out".to_string(), "err".to_string()),
        CommandExecOutcome::SandboxDenied {
            exit_code: -1,
            stdout: "out".to_string(),
            stderr: "err".to_string(),
        }
    );
}

#[test]
fn errors_carry_their_codes() {
    let text = || "why".to_string();
    assert_eq!(invalid_request(text()).code, -32600);
    assert_eq!(method_not_found(text()).code, -32601);
    assert_eq!(invalid_params(text()).code, -32602);
    assert_eq!(internal_error(text()).code, -32603);
    assert_eq!(internal_error(text()).message, "why");
}
