use codex_sandbox_server::process::{
    process_ended_error, terminal_size, write_control, CommandExecResizeParams,
    CommandExecTerminalSize, CommandExecTerminateParams, CommandExecWriteParams,
    ConnectionProcessId, Control, InternalProcessId, ProcessManager, SpawnMode,
    StartProcessParams, StartedProcess, TerminalSize,
};
use codex_sandbox_server::protocol::{ConnectionId, JSONRPCErrorError};

fn params(connection: u64, process_id: Option<&str>) -> StartProcessParams<String> {
    StartProcessParams {
        connection_id: ConnectionId(connection),
        process_id: process_id.map(str::to_string),
        command: vec!["sh".to_string(), "-c".to_string(), "exit 0".to_string()],
        cwd: Ok("/workspace".to_string()),
        tty: false,
        stream_stdin: false,
        stream_stdout_stderr: false,
        output_bytes_cap: Some(1024),
        size: None,
    }
}

fn refusal(
    manager: &mut ProcessManager<u8>,
    params: StartProcessParams<String>,
    cancelled: bool,
) -> (String, bool) {
    match manager.start(params, cancelled, 0) {
        Ok(started) => panic!("expected a refusal, got {started:?}"),
        Err(refusal) => {
            assert_eq!(refusal.error.code, -32600);
            assert!(!refusal.shut_down_proxy);
            (refusal.error.message, refusal.cancel_execution)
        }
    }
}

fn client_key(connection: u64, id: &str) -> ConnectionProcessId {
    ConnectionProcessId {
        connection_id: ConnectionId(connection),
        process_id: InternalProcessId::Client(id.to_string()),
    }
}

fn write_params(id: &str, delta: Option<&str>, close_stdin: bool) -> CommandExecWriteParams {
    CommandExecWriteParams {
        process_id: id.to_string(),
        delta_base64: delta.map(str::to_string),
        close_stdin,
    }
}

fn invalid(code: i64, message: &str) -> JSONRPCErrorError {
    JSONRPCErrorError { code, message: message.to_string() }
}

#[test]
fn a_command_starts_on_pipes_without_input() {
    let mut manager = ProcessManager::new();
    assert_eq!(
        manager.start(params(3, Some("build-1")), false, 5),
        Ok(StartedProcess {
            key: client_key(3, "build-1"),
            notification_process_id: Some("build-1".to_string()),
            program: "sh".to_string(),
            args: vec!["-c".to_string(), "exit 0".to_string()],
            cwd: "/workspace".to_string(),
            spawn: SpawnMode::PipeNoStdin,
            stream_stdin: false,
            stream_stdout_stderr: false,
            output_bytes_cap: Some(1024),
        })
    );
    assert_eq!(manager.session(&client_key(3, "build-1")), Some(&5));
}

#[test]
fn unnamed_commands_get_numbers() {
    let mut manager = ProcessManager::new();
    let first = manager.start(params(3, None), false, 1).expect("started");
    let second = manager.start(params(3, None), false, 2).expect("started");
    assert_eq!(first.key.process_id, InternalProcessId::Generated(1));
    assert_eq!(second.key.process_id, InternalProcessId::Generated(2));
    assert_eq!(first.notification_process_id, None);
    assert_eq!(manager.session(&second.key), Some(&2));
    let result = manager.terminate(
        ConnectionId(3),
        CommandExecTerminateParams { process_id: "1".to_string() },
    );
    assert_eq!(
        result,
        Err(invalid(-32600, "no active command/exec for process id \"1\""))
    );
}

#[test]
fn terminals_and_streams_choose_how_to_spawn() {
    let mut manager = ProcessManager::new();
    let size = TerminalSize { rows: 24, cols: 80 };
    let pty = StartProcessParams { tty: true, size: Some(size), ..params(1, Some("a")) };
    let started = manager.start(pty, false, 0).expect("started");
    assert_eq!(started.spawn, SpawnMode::Pty { size: Some(size) });
    assert!(started.stream_stdin);
    assert!(started.stream_stdout_stderr);
    let fed = StartProcessParams { stream_stdin: true, ..params(1, Some("b")) };
    let started = manager.start(fed, false, 0).expect("started");
    assert_eq!(started.spawn, SpawnMode::Pipe);
    assert!(started.stream_stdin);
    assert!(!started.stream_stdout_stderr);
    let read = StartProcessParams { stream_stdout_stderr: true, ..params(1, Some("c")) };
    let started = manager.start(read, false, 0).expect("started");
    assert_eq!(started.spawn, SpawnMode::PipeNoStdin);
    assert!(!started.stream_stdin);
    assert!(started.stream_stdout_stderr);
}

#[test]
fn commands_that_cannot_start_are_refused() {
    let mut manager = ProcessManager::new();
    let needs_id = "command/exec tty or streaming requires a client-supplied processId";
    for streaming in vec![
        StartProcessParams { tty: true, ..params(1, None) },
        StartProcessParams { stream_stdin: true, ..params(1, None) },
        StartProcessParams { stream_stdout_stderr: true, ..params(1, None) },
    ] {
        assert_eq!(refusal(&mut manager, streaming, false), (needs_id.to_string(), false));
    }
    let lost = StartProcessParams { cwd: Err("not absolute".to_string()), ..params(1, None) };
    assert_eq!(
        refusal(&mut manager, lost, false),
        ("invalid command cwd: not absolute".to_string(), false)
    );
    let empty = StartProcessParams { command: Vec::new(), ..params(1, Some("a")) };
    assert_eq!(
        refusal(&mut manager, empty, false),
        ("command must not be empty".to_string(), false)
    );
    assert_eq!(
        refusal(&mut manager, params(1, Some("a")), true),
        (
            "command/exec connection closed before the process could start".to_string(),
            true
        )
    );
    assert_eq!(manager.session(&client_key(1, "a")), None);
    // The number of a command that was refused for its directory is used up.
    let next = manager.start(params(1, None), false, 0).expect("started");
    assert_eq!(next.key.process_id, InternalProcessId::Generated(2));
}

#[test]
fn process_ids_are_unique_per_connection_while_running() {
    let mut manager = ProcessManager::new();
    let started = manager.start(params(1, Some("a\"b")), false, 1).expect("started");
    assert_eq!(
        refusal(&mut manager, params(1, Some("a\"b")), false),
        ("duplicate active command/exec process id: \"a\\\"b\"".to_string(), false)
    );
    manager.start(params(2, Some("a\"b")), false, 2).expect("other connection");
    manager.process_completed(&started.key);
    manager.start(params(1, Some("a\"b")), false, 3).expect("the id is free again");
    assert_eq!(manager.session(&client_key(2, "a\"b")), Some(&2));
    assert_eq!(manager.session(&client_key(1, "a\"b")), Some(&3));
}

#[test]
fn failed_spawns_leave_no_session() {
    let mut manager = ProcessManager::new();
    let started = manager.start(params(1, Some("a")), false, 1).expect("started");
    let refusal = manager.spawn_failed(&started.key, &"No such file or directory".to_string());
    assert_eq!(
        refusal.error,
        invalid(-32603, "failed to spawn command: No such file or directory")
    );
    assert!(refusal.cancel_execution);
    assert!(refusal.shut_down_proxy);
    assert_eq!(manager.session(&started.key), None);
    manager.start(params(1, Some("a")), false, 2).expect("the id is free again");
}

#[test]
fn writes_are_decoded_and_addressed() {
    let mut manager = ProcessManager::new();
    manager.start(params(1, Some("repl-1")), false, 1).expect("started");
    let order = manager
        .write(ConnectionId(1), write_params("repl-1", Some("aGVsbG8K"), false))
        .expect("order");
    assert_eq!(order.key, client_key(1, "repl-1"));
    assert_eq!(
        order.control,
        Control::Write { delta: b"hello\n".to_vec(), close_stdin: false }
    );
    assert!(!order.cancel_execution);
    let order = manager
        .write(ConnectionId(1), write_params("repl-1", None, true))
        .expect("order");
    assert_eq!(order.control, Control::Write { delta: Vec::new(), close_stdin: true });
    let order = manager
        .write(ConnectionId(1), write_params("repl-1", Some(""), false))
        .expect("order");
    assert_eq!(order.control, Control::Write { delta: Vec::new(), close_stdin: false });
}

#[test]
fn bad_writes_are_refused() {
    let mut manager = ProcessManager::new();
    manager.start(params(1, Some("repl-1")), false, 1).expect("started");
    assert_eq!(
        manager.write(ConnectionId(1), write_params("repl-1", None, false)),
        Err(invalid(-32602, "command/exec/write requires deltaBase64 or closeStdin"))
    );
    assert_eq!(
        manager.write(ConnectionId(1), write_params("repl-1", Some("?"), false)),
        Err(invalid(-32602, "invalid deltaBase64: Invalid symbol 63, offset 0."))
    );
    assert_eq!(
        manager.write(ConnectionId(2), write_params("repl-1", Some("aGVsbG8K"), false)),
        Err(invalid(-32600, "no active command/exec for process id \"repl-1\""))
    );
    assert_eq!(
        write_control(Some(Err("bad".to_string())), true),
        Err(invalid(-32602, "invalid deltaBase64: bad"))
    );
}

#[test]
fn resizes_are_checked() {
    let mut manager = ProcessManager::new();
    manager.start(params(1, Some("repl-1")), false, 1).expect("started");
    let resize = |rows: u16, cols: u16| {
        manager.resize(
            ConnectionId(1),
            CommandExecResizeParams {
                process_id: "repl-1".to_string(),
                size: CommandExecTerminalSize { rows, cols },
            },
        )
    };
    let order = resize(40, 120).expect("order");
    assert_eq!(order.control, Control::Resize { size: TerminalSize { rows: 40, cols: 120 } });
    let message = "command/exec size rows and cols must be greater than 0";
    assert_eq!(resize(0, 120), Err(invalid(-32602, message)));
    assert_eq!(resize(40, 0), Err(invalid(-32602, message)));
    assert_eq!(
        terminal_size(CommandExecTerminalSize { rows: 1, cols: 1 }),
        Ok(TerminalSize { rows: 1, cols: 1 })
    );
}

#[test]
fn terminating_cancels_the_execution() {
    let mut manager = ProcessManager::new();
    manager.start(params(1, Some("a")), false, 1).expect("started");
    let order = manager
        .terminate(ConnectionId(1), CommandExecTerminateParams { process_id: "a".to_string() })
        .expect("order");
    assert_eq!(order.control, Control::Terminate);
    assert!(order.cancel_execution);
}

#[test]
fn closing_and_shutting_down_hand_over_the_sessions() {
    let mut manager = ProcessManager::new();
    manager.start(params(1, Some("a")), false, 1).expect("started");
    manager.start(params(1, None), false, 2).expect("started");
    manager.start(params(2, Some("a")), false, 3).expect("started");
    manager.start(params(3, Some("a")), false, 4).expect("started");
    let mut closed = manager.connection_closed(ConnectionId(1));
    closed.sort();
    assert_eq!(closed, vec![1, 2]);
    assert_eq!(manager.session(&client_key(1, "a")), None);
    assert_eq!(manager.session(&client_key(2, "a")), Some(&3));
    let mut rest = manager.shutdown();
    rest.sort();
    assert_eq!(rest, vec![3, 4]);
    assert!(manager.shutdown().is_empty());
}

#[test]
fn errors_name_processes() {
    assert_eq!(InternalProcessId::Generated(0).error_repr(), "0");
    assert_eq!(InternalProcessId::Generated(1207).error_repr(), "1207");
    assert_eq!(
        InternalProcessId::Generated(i64::MIN).error_repr(),
        "-9223372036854775808"
    );
    assert_eq!(
        InternalProcessId::Client("a\\b\"c\u{8}\t\n\u{c}\r\u{1f}\u{7f}é/".to_string()).error_repr(),
        "\"a\\\\b\\\"c\\b\\t\\n\\f\\r\\u001f\u{7f}é/\""
    );
    assert_eq!(
        process_ended_error(&InternalProcessId::Client("build".to_string())),
        invalid(-32600, "command/exec \"build\" is no longer running")
    );
}
