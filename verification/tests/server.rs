use base64::engine::general_purpose::STANDARD;
use base64::Engine;
use codex_sandbox_server::approval::{ApprovalDecision, Delivery};
use codex_sandbox_server::capture::CommandExecOutputStream;
use codex_sandbox_server::command::RunningCommand;
use codex_sandbox_server::network::{
    DecideStep, NetworkApprovalContext, NetworkPolicyRequest, NetworkProtocol,
};
use codex_sandbox_server::prepare::{
    prepare_command_exec, CommandExecParams, NormalizedPermissions, PrepareStep,
    SandboxCommandExecParams, SandboxedCommand,
};
use codex_sandbox_server::process::{
    CommandExecResizeParams, CommandExecTerminalSize, CommandExecTerminateParams,
    CommandExecWriteParams, Control, StartedProcess,
};
use codex_sandbox_server::protocol::{
    ConnectionId, Field, FieldValue, JSONRPCErrorError, OutgoingMessage, RequestId,
};
use codex_sandbox_server::run::RunEvent;
use codex_sandbox_server::server::{
    control_reply, finish_initialize, refused_reply, ClientRequest, IncomingMessage,
    InitializeOutcome, MessageStep, Method, RequestStep, Server,
};
use codex_sandbox_server::transport::{AcceptEvent, AcceptStep, SOCKET_MODE};
use serde_json::Value;

type TestServer = Server<&'static str, &'static str, u32>;

fn object(members: Vec<(&str, Value)>) -> Value {
    let mut map = serde_json::Map::new();
    for (name, value) in members {
        map.insert(name.to_string(), value);
    }
    Value::Object(map)
}

fn fields_json(fields: &[Field]) -> Value {
    object(
        fields
            .iter()
            .map(|field| {
                let value = match &field.value {
                    FieldValue::Null => Value::Null,
                    FieldValue::Flag(flag) => Value::from(*flag),
                    FieldValue::Number(number) => Value::from(*number),
                    FieldValue::Text(text) => Value::from(text.clone()),
                    FieldValue::TextList(list) => Value::from(list.clone()),
                    FieldValue::Json(json) => serde_json::from_str(json).expect("embedded JSON"),
                };
                (field.name, value)
            })
            .collect(),
    )
}

fn id_json(id: &RequestId) -> Value {
    match id {
        RequestId::Text(text) => Value::from(text.clone()),
        RequestId::Integer(number) => Value::from(*number),
    }
}

fn message_json(message: &OutgoingMessage) -> Value {
    match message {
        OutgoingMessage::Request { id, method, params } => object(vec![
            ("id", id_json(id)),
            ("method", Value::from(*method)),
            ("params", fields_json(params)),
        ]),
        OutgoingMessage::Response { id, result } => {
            object(vec![("id", id_json(id)), ("result", fields_json(result))])
        }
        OutgoingMessage::Error { id, error } => object(vec![
            ("id", id_json(id)),
            (
                "error",
                object(vec![
                    ("code", Value::from(error.code)),
                    ("message", Value::from(error.message.clone())),
                ]),
            ),
        ]),
        OutgoingMessage::Notification { method, params } => object(vec![
            ("method", Value::from(*method)),
            ("params", fields_json(params)),
        ]),
    }
}

fn request(id: i64, method: &str) -> IncomingMessage {
    IncomingMessage::Request { id: RequestId::Integer(id), method: method.to_string() }
}

fn exec_params(command: &[&str], process_id: Option<&str>) -> CommandExecParams<()> {
    CommandExecParams {
        command: command.iter().map(|part| part.to_string()).collect(),
        process_id: process_id.map(str::to_string),
        tty: false,
        stream_stdin: false,
        stream_stdout_stderr: false,
        output_bytes_cap: None,
        disable_output_cap: false,
        disable_timeout: false,
        timeout_ms: None,
        cwd: None,
        env: None,
        size: None,
        sandbox_policy: None,
        permission_profile: None,
    }
}

fn reply(step: MessageStep<&'static str, &'static str>) -> Value {
    match step {
        MessageStep::Reply(message) => message_json(&message),
        other => panic!("expected a reply, got {other:?}"),
    }
}

fn initialize(server: &mut TestServer, connection: ConnectionId, id: i64) -> (bool, Value) {
    let mut initialized = false;
    match server.handle_message(connection, initialized, request(id, "initialize")) {
        MessageStep::Initialize { id } => {
            let home = InitializeOutcome::Home("/home/alice/codex-home".to_string());
            let message = finish_initialize(&mut initialized, id, home, "0.0.0");
            (initialized, message_json(&message))
        }
        other => panic!("expected an initialization, got {other:?}"),
    }
}

fn start(
    server: &mut TestServer,
    connection: ConnectionId,
    id: i64,
    params: CommandExecParams<()>,
    session: u32,
) -> StartedProcess<&'static str> {
    let message = server.handle_message(connection, true, request(id, "command/exec"));
    let id = match message {
        MessageStep::Dispatch { id, method: Method::CommandExec } => id,
        other => panic!("expected a dispatch, got {other:?}"),
    };
    let exec: ClientRequest<(), u8> = ClientRequest::CommandExec(Ok(SandboxCommandExecParams {
        command_exec: params,
        additional_permissions: None,
    }));
    let params = match server.handle_initialized_request(connection, id, exec) {
        RequestStep::Exec { params, in_background: false } => params,
        _ => panic!("expected a command"),
    };
    let prepared = prepare_command_exec(connection, params, "/workspace", |_| "/elsewhere");
    let ready = match prepared {
        Ok(PrepareStep::Ready(ready)) => ready,
        _ => panic!("expected a ready command"),
    };
    let settled = ready.settle(Vec::new(), 65536).expect("settled");
    let cwd = Ok(*settled.working_directory());
    let sandboxed = SandboxedCommand { command: settled.command().clone(), cwd };
    let params = settled.finish(Ok(sandboxed)).expect("start");
    server.process_manager.start(params, false, session).expect("started")
}

fn running(id: i64, started: &StartedProcess<&'static str>) -> RunningCommand {
    RunningCommand::new(
        RequestId::Integer(id),
        started.notification_process_id.clone(),
        started.stream_stdin,
        started.stream_stdout_stderr,
        started.output_bytes_cap,
    )
}

fn run(id: i64, started: &StartedProcess<&'static str>, written: [&[u8]; 2], exit: i32) -> Value {
    let mut command = running(id, started);
    let streams = [CommandExecOutputStream::Stdout, CommandExecOutputStream::Stderr];
    for (stream, bytes) in streams.into_iter().zip(written) {
        assert!(command.accepts(stream, bytes.len()));
        command.push(stream, bytes.to_vec());
        command.end_stream(stream, false);
    }
    assert_eq!(command.handle_event(RunEvent::Exited(Some(exit))).exit_code, Some(exit));
    let finished = command
        .finish(|bytes| String::from_utf8(bytes.clone()).expect("text"))
        .ok()
        .expect("the command has ended");
    message_json(&finished.into_reply(false))
}

#[test]
fn stdio_requires_initialize_and_returns_tagged_nonzero_result() {
    let mut server = TestServer::new();
    let stdio = ConnectionId(0);
    assert_eq!(
        reply(server.handle_message(stdio, false, request(1, "command/exec"))),
        object(vec![
            ("id", Value::from(1)),
            (
                "error",
                object(vec![
                    ("code", Value::from(-32600)),
                    ("message", Value::from("initialize must be called first")),
                ])
            ),
        ])
    );

    let (initialized, response) = initialize(&mut server, stdio, 2);
    assert!(initialized);
    assert_eq!(
        response,
        object(vec![
            ("id", Value::from(2)),
            (
                "result",
                object(vec![
                    ("userAgent", Value::from("codex-sandbox-server/0.0.0")),
                    ("codexHome", Value::from("/home/alice/codex-home")),
                    ("platformFamily", Value::from("unix")),
                    ("platformOs", Value::from("linux")),
                ])
            ),
        ])
    );

    let command = ["sh", "-c", "printf stdout; printf stderr >&2; exit 7"];
    let started = start(&mut server, stdio, 3, exec_params(&command, None), 1);
    assert_eq!(started.program, "sh");
    assert_eq!(
        run(3, &started, [b"stdout", b"stderr"], 7),
        object(vec![
            ("id", Value::from(3)),
            (
                "result",
                object(vec![
                    ("type", Value::from("completed")),
                    ("exitCode", Value::from(7)),
                    ("stdout", Value::from("stdout")),
                    ("stderr", Value::from("stderr")),
                ])
            ),
        ])
    );
}

#[test]
fn uds_runs_commands_and_terminates_processes_on_disconnect() {
    assert_eq!(SOCKET_MODE & 0o777, 0o600);
    let mut server = TestServer::new();
    let accepted = server.accept(AcceptEvent::Accepted { peer_uid: Some(1000) }, 1000);
    let connection = match accepted {
        AcceptStep::Serve(connection) => connection,
        other => panic!("expected a connection, got {other:?}"),
    };
    let (initialized, response) = initialize(&mut server, connection, 1);
    assert!(initialized);
    assert_eq!(response["id"], Value::from(1));

    let command = ["sh", "-c", "printf uds"];
    let started = start(&mut server, connection, 2, exec_params(&command, None), 1);
    assert_eq!(
        run(2, &started, [b"uds", b""], 0),
        object(vec![
            ("id", Value::from(2)),
            (
                "result",
                object(vec![
                    ("type", Value::from("completed")),
                    ("exitCode", Value::from(0)),
                    ("stdout", Value::from("uds")),
                    ("stderr", Value::from("")),
                ])
            ),
        ])
    );
    server.process_manager.process_completed(&started.key);

    let command = ["sh", "-c", "printf '%s' $$; exec sleep 30"];
    let params = CommandExecParams {
        stream_stdout_stderr: true,
        disable_timeout: true,
        ..exec_params(&command, Some("disconnect-test"))
    };
    let started = start(&mut server, connection, 3, params, 4711);
    let mut command = running(3, &started);
    assert!(command.accepts(CommandExecOutputStream::Stdout, 4));
    let notification = command
        .push(CommandExecOutputStream::Stdout, b"4711".to_vec())
        .notification
        .expect("notification");
    let notification = message_json(&notification);
    assert_eq!(notification["method"], Value::from("command/exec/outputDelta"));
    let delta = notification["params"]["deltaBase64"].as_str().expect("output delta base64");
    let pid = String::from_utf8(STANDARD.decode(delta).expect("base64")).expect("text");
    assert_eq!(pid.parse::<u32>(), Ok(4711));

    let closed = server.connection_closed(connection);
    assert_eq!(closed.sessions, vec![4711]);
    assert!(server.process_manager.session(&started.key).is_none());
}

#[test]
fn requests_pass_the_gate_in_order() {
    let mut server = TestServer::new();
    let stdio = ConnectionId(0);
    let error = |code: i64, message: &str| {
        object(vec![
            ("id", Value::from(5)),
            (
                "error",
                object(vec![("code", Value::from(code)), ("message", Value::from(message))]),
            ),
        ])
    };
    assert_eq!(
        reply(server.handle_message(stdio, true, request(5, "initialize"))),
        error(-32600, "already initialized")
    );
    assert_eq!(
        reply(server.handle_message(stdio, true, request(5, "command/kill"))),
        error(-32601, "unknown method: command/kill")
    );
    assert_eq!(
        reply(server.handle_message(stdio, false, request(5, "command/kill"))),
        error(-32600, "initialize must be called first")
    );
    for (name, method) in vec![
        ("command/exec", Method::CommandExec),
        ("command/exec/write", Method::CommandExecWrite),
        ("command/exec/resize", Method::CommandExecResize),
        ("command/exec/terminate", Method::CommandExecTerminate),
    ] {
        assert_eq!(
            server.handle_message(stdio, true, request(5, name)),
            MessageStep::Dispatch { id: RequestId::Integer(5), method }
        );
    }
    assert_eq!(
        server.handle_message(stdio, false, IncomingMessage::Notification),
        MessageStep::Ignored
    );
    assert_eq!(
        server.handle_message(stdio, true, IncomingMessage::Malformed),
        MessageStep::Ignored
    );
}

#[test]
fn a_home_that_cannot_be_sent_still_initializes() {
    let mut initialized = false;
    let reply = finish_initialize(
        &mut initialized,
        RequestId::Integer(2),
        InitializeOutcome::UnsendableHome("path contains invalid UTF-8 characters".to_string()),
        "0.0.0",
    );
    assert!(initialized);
    assert_eq!(
        reply,
        OutgoingMessage::Error {
            id: RequestId::Integer(2),
            error: JSONRPCErrorError {
                code: -32603,
                message: "path contains invalid UTF-8 characters".to_string(),
            },
        }
    );
}

#[test]
fn a_failed_initialization_can_be_repeated() {
    let mut initialized = false;
    let bad = finish_initialize(
        &mut initialized,
        RequestId::Text("a".to_string()),
        InitializeOutcome::InvalidParams("missing field `clientInfo`".to_string()),
        "0.0.0",
    );
    assert!(!initialized);
    assert_eq!(
        bad,
        OutgoingMessage::Error {
            id: RequestId::Text("a".to_string()),
            error: JSONRPCErrorError {
                code: -32602,
                message: "invalid params for initialize: missing field `clientInfo`".to_string(),
            },
        }
    );
    let lost = finish_initialize(
        &mut initialized,
        RequestId::Integer(2),
        InitializeOutcome::NoHome("CODEX_HOME points nowhere".to_string()),
        "0.0.0",
    );
    assert!(!initialized);
    assert_eq!(
        lost,
        OutgoingMessage::Error {
            id: RequestId::Integer(2),
            error: JSONRPCErrorError {
                code: -32603,
                message: "CODEX_HOME points nowhere".to_string(),
            },
        }
    );
}

fn pend(server: &mut TestServer, connection: ConnectionId, process_id: &str) -> String {
    let params: SandboxCommandExecParams<(), u8> = SandboxCommandExecParams {
        command_exec: exec_params(&["true"], Some(process_id)),
        additional_permissions: Some(Ok(NormalizedPermissions { profile: 1, is_empty: false })),
    };
    let step = server.handle_initialized_request(
        connection,
        RequestId::Integer(8),
        ClientRequest::CommandExec(Ok(params)),
    );
    let params = match step {
        RequestStep::Exec { params, in_background: true } => params,
        _ => panic!("expected a command in the background"),
    };
    let prepared = prepare_command_exec(connection, params, "/workspace", |_| "/elsewhere");
    let pending = match prepared {
        Ok(PrepareStep::NeedsApproval(pending)) => pending,
        _ => panic!("expected a command that needs an approval"),
    };
    pending
        .request_approval(
            &mut server.permissions_approvals,
            |cwd| Ok(cwd.to_string()),
            |_| Ok("{}".to_string()),
            "permission",
        )
        .expect("request")
        .request_id
}

fn ask_network(server: &mut TestServer, connection: ConnectionId) -> String {
    let context = NetworkApprovalContext {
        connection_id: connection,
        process_id: None,
        command: vec!["curl".to_string()],
        cwd: Ok("/workspace".to_string()),
    };
    let request = NetworkPolicyRequest {
        protocol: NetworkProtocol::Http,
        host: "example.com".to_string(),
        port: 80,
    };
    match server.network_approvals.decide(context, request, "network") {
        DecideStep::Ask(ask) => ask.request_id,
        DecideStep::Decided(decision) => panic!("expected a request, got {decision:?}"),
    }
}

#[test]
fn replies_find_the_broker_that_asked() {
    let mut server = TestServer::new();
    let connection = ConnectionId(3);
    let permission = pend(&mut server, connection, "build-1");
    let network = ask_network(&mut server, connection);
    assert_ne!(permission, network);
    let answer = |id: &str| IncomingMessage::Response {
        id: RequestId::Text(id.to_string()),
        decision: Ok(ApprovalDecision::Accept),
    };
    assert_eq!(
        server.handle_message(ConnectionId(4), true, answer(&permission)),
        MessageStep::Delivered { permissions: None, network: None }
    );
    assert_eq!(
        server.handle_message(connection, true, answer(&permission)),
        MessageStep::Delivered {
            permissions: Some(Delivery {
                response_tx: "permission",
                response: Ok(ApprovalDecision::Accept),
            }),
            network: None,
        }
    );
    let failure = IncomingMessage::Error {
        id: RequestId::Text(network),
        message: "nobody there".to_string(),
    };
    assert_eq!(
        server.handle_message(connection, true, failure),
        MessageStep::Delivered {
            permissions: None,
            network: Some(Delivery {
                response_tx: "network",
                response: Err("network approval request failed: nobody there".to_string()),
            }),
        }
    );
}

#[test]
fn terminating_a_waiting_command_cancels_its_approval() {
    let mut server = TestServer::new();
    let connection = ConnectionId(3);
    pend(&mut server, connection, "build-1");
    let terminate = || -> ClientRequest<(), u8> {
        ClientRequest::Terminate(Ok(CommandExecTerminateParams {
            process_id: "build-1".to_string(),
        }))
    };
    match server.handle_initialized_request(connection, RequestId::Integer(9), terminate()) {
        RequestStep::Cancelled { delivery, reply } => {
            assert_eq!(delivery.response_tx, "permission");
            assert_eq!(
                delivery.response,
                Err("permissions approval cancelled".to_string())
            );
            assert_eq!(
                reply,
                OutgoingMessage::Response { id: RequestId::Integer(9), result: Vec::new() }
            );
        }
        _ => panic!("expected a cancelled approval"),
    }
    match server.handle_initialized_request(connection, RequestId::Integer(10), terminate()) {
        RequestStep::Reply(message) => assert_eq!(
            message_json(&message)["error"]["message"],
            Value::from("no active command/exec for process id \"build-1\"")
        ),
        _ => panic!("expected a reply"),
    }
}

#[test]
fn controls_are_addressed_to_running_commands() {
    let mut server = TestServer::new();
    let connection = ConnectionId(3);
    let params = exec_params(&["cat"], Some("repl-1"));
    let started = start(&mut server, connection, 1, params, 1);
    let write: ClientRequest<(), u8> = ClientRequest::Write(Ok(CommandExecWriteParams {
        process_id: "repl-1".to_string(),
        delta_base64: Some("aGVsbG8K".to_string()),
        close_stdin: true,
    }));
    match server.handle_initialized_request(connection, RequestId::Integer(4), write) {
        RequestStep::Control(order) => {
            assert_eq!(order.key, started.key);
            assert_eq!(
                order.control,
                Control::Write { delta: b"hello\n".to_vec(), close_stdin: true }
            );
        }
        _ => panic!("expected a control"),
    }
    let resize: ClientRequest<(), u8> = ClientRequest::Resize(Ok(CommandExecResizeParams {
        process_id: "repl-1".to_string(),
        size: CommandExecTerminalSize { rows: 0, cols: 1 },
    }));
    match server.handle_initialized_request(connection, RequestId::Integer(5), resize) {
        RequestStep::Reply(message) => {
            assert_eq!(message_json(&message)["error"]["code"], Value::from(-32602));
        }
        _ => panic!("expected a reply"),
    }
    let terminate: ClientRequest<(), u8> =
        ClientRequest::Terminate(Ok(CommandExecTerminateParams {
            process_id: "repl-1".to_string(),
        }));
    match server.handle_initialized_request(connection, RequestId::Integer(6), terminate) {
        RequestStep::Control(order) => assert!(order.cancel_execution),
        _ => panic!("expected a control"),
    }
}

#[test]
fn unfit_parameters_name_their_method() {
    let mut server = TestServer::new();
    let why = || "expected struct".to_string();
    let requests: Vec<(&str, ClientRequest<(), u8>)> = vec![
        ("command/exec", ClientRequest::CommandExec(Err(why()))),
        ("command/exec/write", ClientRequest::Write(Err(why()))),
        ("command/exec/resize", ClientRequest::Resize(Err(why()))),
        ("command/exec/terminate", ClientRequest::Terminate(Err(why()))),
    ];
    for (name, request) in requests {
        match server.handle_initialized_request(ConnectionId(1), RequestId::Integer(1), request) {
            RequestStep::Reply(message) => assert_eq!(
                message_json(&message)["error"],
                object(vec![
                    ("code", Value::from(-32602)),
                    (
                        "message",
                        Value::from(format!("invalid params for {name}: expected struct"))
                    ),
                ])
            ),
            _ => panic!("expected a reply"),
        }
    }
}

#[test]
fn answers_to_controls_are_empty_or_errors() {
    let id = || RequestId::Integer(4);
    assert_eq!(
        control_reply(id(), Ok(())),
        OutgoingMessage::Response { id: id(), result: Vec::new() }
    );
    let error = || JSONRPCErrorError { code: -32600, message: "late".to_string() };
    assert_eq!(
        control_reply(id(), Err(error())),
        OutgoingMessage::Error { id: id(), error: error() }
    );
    assert_eq!(
        refused_reply(id(), error()),
        OutgoingMessage::Error { id: id(), error: error() }
    );
}

#[test]
fn closing_a_connection_leaves_the_others_alone() {
    let mut server = TestServer::new();
    let (here, there) = (server.next_connection_id(), server.next_connection_id());
    assert_eq!((here, there), (ConnectionId(1), ConnectionId(2)));
    for connection in [here, there] {
        pend(&mut server, connection, "waiting");
        ask_network(&mut server, connection);
        let session = if connection == here { 10 } else { 20 };
        start(&mut server, connection, 1, exec_params(&["true"], Some("running")), session);
    }
    let closed = server.connection_closed(here);
    assert_eq!(closed.sessions, vec![10]);
    assert_eq!(closed.permissions.len(), 1);
    assert_eq!(
        closed.permissions[0].response,
        Err("permissions approval connection closed".to_string())
    );
    assert_eq!(closed.network.len(), 1);
    assert_eq!(
        closed.network[0].response,
        Err("network approval connection closed".to_string())
    );
    let closed = server.connection_closed(there);
    assert_eq!(closed.sessions, vec![20]);
    assert_eq!(closed.permissions.len(), 1);
    assert_eq!(closed.network.len(), 1);
}
