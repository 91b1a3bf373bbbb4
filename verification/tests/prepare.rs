use codex_sandbox_server::approval::ApprovalDecision;
use codex_sandbox_server::permissions::PermissionsApprovalBroker;
use codex_sandbox_server::prepare::{
    prepare_command_exec, CommandExecParams, ExecCapturePolicy, ExecExpiration,
    NormalizedPermissions, PendingCommand, PrepareStep, ReadyCommand, SandboxCommandExecParams,
    SandboxedCommand,
};
use codex_sandbox_server::process::{CommandExecTerminalSize, TerminalSize};
use codex_sandbox_server::protocol::{
    ConnectionId, FieldValue, JSONRPCErrorError, OutgoingMessage,
};
use std::path::PathBuf;

type Params = CommandExecParams<&'static str>;

fn params() -> Params {
    CommandExecParams {
        command: vec!["sh".to_string(), "-c".to_string(), "exit 0".to_string()],
        process_id: Some("build-1".to_string()),
        tty: false,
        stream_stdin: false,
        stream_stdout_stderr: false,
        output_bytes_cap: None,
        disable_output_cap: false,
        disable_timeout: false,
        timeout_ms: None,
        cwd: None,
        env: None,
        size: None,
        sandbox_policy: None,
        permission_profile: None,
    }
}

fn prepare(
    command_exec: Params,
    additional_permissions: Option<Result<NormalizedPermissions<u8>, String>>,
) -> Result<PrepareStep<&'static str, u8, PathBuf>, JSONRPCErrorError> {
    let service = PathBuf::from("/workspace");
    prepare_command_exec(
        ConnectionId(4),
        SandboxCommandExecParams { command_exec, additional_permissions },
        service.clone(),
        |path| service.join(path),
    )
}

fn refusal(command_exec: Params) -> (i64, String) {
    match prepare(command_exec, None) {
        Err(error) => (error.code, error.message),
        Ok(_) => panic!("expected a refusal"),
    }
}

fn ready(command_exec: Params) -> ReadyCommand<&'static str, u8, PathBuf> {
    match prepare(command_exec, None) {
        Ok(PrepareStep::Ready(command)) => command,
        _ => panic!("expected a ready command"),
    }
}

fn pending(command_exec: Params) -> PendingCommand<&'static str, u8, PathBuf> {
    let additional = NormalizedPermissions { profile: 5, is_empty: false };
    match prepare(command_exec, Some(Ok(additional))) {
        Ok(PrepareStep::NeedsApproval(command)) => command,
        _ => panic!("expected a command that needs an approval"),
    }
}

fn path_text(path: &PathBuf) -> Result<String, String> {
    path.to_str().map(str::to_string).ok_or_else(|| "not text".to_string())
}

fn profile_text(profile: &u8) -> Result<String, String> {
    Ok(format!("{{\"profile\":{profile}}}"))
}

#[test]
fn invalid_combinations_are_refused() {
    assert_eq!(
        refusal(CommandExecParams { command: Vec::new(), ..params() }),
        (-32600, "command must not be empty".to_string())
    );
    assert_eq!(
        refusal(CommandExecParams {
            sandbox_policy: Some("readOnly"),
            permission_profile: Some("dev".to_string()),
            ..params()
        }),
        (
            -32600,
            "`permissionProfile` cannot be combined with `sandboxPolicy`".to_string()
        )
    );
    assert_eq!(
        refusal(CommandExecParams { permission_profile: Some("dev".to_string()), ..params() }),
        (
            -32602,
            "named permission profiles are unavailable; use sandboxPolicy or the startup profile"
                .to_string()
        )
    );
    let size = Some(CommandExecTerminalSize { rows: 24, cols: 80 });
    assert_eq!(
        refusal(CommandExecParams { size, ..params() }),
        (-32602, "command/exec size requires tty: true".to_string())
    );
    assert_eq!(
        refusal(CommandExecParams {
            disable_output_cap: true,
            output_bytes_cap: Some(1),
            ..params()
        }),
        (
            -32602,
            "command/exec cannot set both outputBytesCap and disableOutputCap".to_string()
        )
    );
    assert_eq!(
        refusal(CommandExecParams { disable_timeout: true, timeout_ms: Some(1), ..params() }),
        (
            -32602,
            "command/exec cannot set both timeoutMs and disableTimeout".to_string()
        )
    );
}

#[test]
fn additional_permissions_are_checked_after_the_parameters() {
    let broken = || Some(Err("glob entries must deny".to_string()));
    let error = prepare(params(), broken()).err().expect("refused");
    assert_eq!(
        error,
        JSONRPCErrorError {
            code: -32602,
            message: "invalid additionalPermissions: glob entries must deny".to_string(),
        }
    );
    let empty = CommandExecParams { command: Vec::new(), ..params() };
    let error = prepare(empty, broken()).err().expect("refused");
    assert_eq!(error.message, "command must not be empty");
}

#[test]
fn empty_permissions_need_no_approval() {
    let nothing = NormalizedPermissions { profile: 5, is_empty: true };
    match prepare(params(), Some(Ok(nothing))) {
        Ok(PrepareStep::Ready(command)) => {
            let settled = command.settle(Vec::new(), 10).expect("settled");
            assert_eq!(settled.additional_permissions(), None);
        }
        _ => panic!("expected a ready command"),
    }
}

#[test]
fn accepted_permissions_are_granted() {
    let mut broker: PermissionsApprovalBroker<u8> = PermissionsApprovalBroker::new();
    let command = pending(CommandExecParams { cwd: Some(PathBuf::from("sub")), ..params() });
    let request = command.request_approval(&mut broker, path_text, profile_text, 1).expect("request");
    assert_eq!(request.request_id, "permissions-approval:1");
    match &request.message {
        OutgoingMessage::Request { params, .. } => {
            assert_eq!(params[0].value, FieldValue::Text("build-1".to_string()));
            assert_eq!(params[2].value, FieldValue::Text("/workspace/sub".to_string()));
            assert_eq!(params[3].value, FieldValue::Json("{\"profile\":5}".to_string()));
        }
        other => panic!("expected a request, got {other:?}"),
    }
    let ready = command
        .finish_approval(&mut broker, &request.request_id, Some(Ok(ApprovalDecision::Accept)))
        .ok()
        .expect("approved");
    let settled = ready.settle(Vec::new(), 10).expect("settled");
    assert_eq!(settled.additional_permissions(), Some(&5));
}

#[test]
fn requests_that_cannot_be_shown_are_refused() {
    let mut broker: PermissionsApprovalBroker<u8> = PermissionsApprovalBroker::new();
    let command = pending(params());
    let shown = command.approval_payload(path_text, profile_text).ok().expect("payload");
    assert_eq!(shown.cwd, "/workspace");
    assert_eq!(shown.additional_permissions, "{\"profile\":5}");
    let no_path = |_: &PathBuf| Err("no path".to_string());
    let no_profile = |_: &u8| Err("no profile".to_string());
    let reason = command.approval_payload(no_path, no_profile).err();
    assert_eq!(reason, Some("no path".to_string()));
    let refused = command.request_approval(&mut broker, path_text, no_profile, 1);
    assert_eq!(
        refused.err().expect("refused").message,
        "invalid permissions approval request: no profile"
    );
}

#[test]
fn declined_permissions_end_the_request() {
    let mut broker: PermissionsApprovalBroker<u8> = PermissionsApprovalBroker::new();
    let command = pending(params());
    let request = command.request_approval(&mut broker, path_text, profile_text, 1).expect("request");
    let result = command.finish_approval(
        &mut broker,
        &request.request_id,
        Some(Ok(ApprovalDecision::AcceptForSession)),
    );
    let error = result.err().expect("refused");
    assert_eq!(error.code, -32600);
    assert_eq!(error.message, "additional permissions were not approved");
}

#[test]
fn settings_follow_the_request() {
    let plain = ready(params()).settle(Vec::new(), 4096).expect("settled");
    let settings = plain.exec_settings();
    assert_eq!(settings.expiration, ExecExpiration::Timeout(None));
    assert_eq!(settings.output_bytes_cap, Some(4096));
    assert_eq!(settings.capture_policy, ExecCapturePolicy::ShellTool);
    let from_policy = |policy: &&'static str| format!("from {policy}");
    assert_eq!(plain.base_profile("startup".to_string(), from_policy), "startup");

    let custom = ready(CommandExecParams {
        timeout_ms: Some(10000),
        output_bytes_cap: Some(7),
        sandbox_policy: Some("readOnly"),
        env: Some(vec![("A".to_string(), Some("2".to_string()))]),
        ..params()
    })
    .settle(vec![("A".to_string(), "1".to_string())], 4096)
    .expect("settled");
    let settings = custom.exec_settings();
    assert_eq!(settings.expiration, ExecExpiration::Timeout(Some(10000)));
    assert_eq!(settings.output_bytes_cap, Some(7));
    assert_eq!(settings.env, vec![("A".to_string(), "2".to_string())]);
    assert_eq!(custom.base_profile("startup".to_string(), from_policy), "from readOnly");
    assert_eq!(custom.command().len(), 3);

    let unlimited = ready(CommandExecParams {
        disable_timeout: true,
        disable_output_cap: true,
        ..params()
    })
    .settle(Vec::new(), 4096)
    .expect("settled");
    let settings = unlimited.exec_settings();
    assert_eq!(settings.expiration, ExecExpiration::Never);
    assert_eq!(settings.output_bytes_cap, None);
    assert_eq!(settings.capture_policy, ExecCapturePolicy::FullBuffer);
}

#[test]
fn the_working_directory_is_requested_or_that_of_the_service() {
    let service = PathBuf::from("/workspace");
    let directory = |cwd: Option<&str>| {
        CommandExecParams { cwd: cwd.map(PathBuf::from), ..params() }
            .working_directory(service.clone(), |path| service.join(path))
    };
    assert_eq!(directory(None), PathBuf::from("/workspace"));
    assert_eq!(directory(Some("sub")), PathBuf::from("/workspace/sub"));
    assert_eq!(directory(Some("/other")), PathBuf::from("/other"));
}

#[test]
fn negative_timeouts_are_refused() {
    let settle = |timeout_ms: i64| {
        ready(CommandExecParams { timeout_ms: Some(timeout_ms), ..params() })
            .settle(Vec::new(), 10)
            .err()
    };
    assert_eq!(
        settle(-5),
        Some(JSONRPCErrorError {
            code: -32602,
            message: "command/exec timeoutMs must be non-negative, got -5".to_string(),
        })
    );
    assert_eq!(settle(0), None);
}

#[test]
fn network_requests_describe_the_command() {
    let settled = ready(params()).settle(Vec::new(), 10).expect("settled");
    let context = settled.network_context(path_text);
    assert_eq!(context.connection_id, ConnectionId(4));
    assert_eq!(context.process_id, Some("build-1".to_string()));
    assert_eq!(context.command, params().command);
    assert_eq!(context.cwd, Ok("/workspace".to_string()));
}

#[test]
fn the_sandboxed_command_is_started() {
    let size = Some(CommandExecTerminalSize { rows: 24, cols: 80 });
    let settled = ready(CommandExecParams { tty: true, size, ..params() })
        .settle(Vec::new(), 10)
        .expect("settled");
    let start = settled
        .finish(Ok(SandboxedCommand {
            command: vec!["codex-linux-sandbox".to_string()],
            cwd: Ok("/workspace"),
        }))
        .expect("start");
    assert_eq!(start.connection_id, ConnectionId(4));
    assert_eq!(start.process_id, Some("build-1".to_string()));
    assert_eq!(start.command, vec!["codex-linux-sandbox".to_string()]);
    assert_eq!(start.cwd, Ok("/workspace"));
    assert!(start.tty);
    assert!(!start.stream_stdin);
    assert!(!start.stream_stdout_stderr);
    assert_eq!(start.output_bytes_cap, Some(10));
    assert_eq!(start.size, Some(TerminalSize { rows: 24, cols: 80 }));
}

#[test]
fn missing_sandboxes_and_bad_sizes_end_the_request() {
    let size = Some(CommandExecTerminalSize { rows: 0, cols: 80 });
    let settled = || {
        ready(CommandExecParams { tty: true, size, ..params() })
            .settle(Vec::new(), 10)
            .expect("settled")
    };
    let failed = settled().finish::<()>(Err("no helper".to_string()));
    assert_eq!(
        failed.err(),
        Some(JSONRPCErrorError {
            code: -32603,
            message: "failed to prepare sandbox: no helper".to_string(),
        })
    );
    let sandboxed = SandboxedCommand { command: vec!["sh".to_string()], cwd: Ok(()) };
    assert_eq!(
        settled().finish(Ok(sandboxed)).err(),
        Some(JSONRPCErrorError {
            code: -32602,
            message: "command/exec size rows and cols must be greater than 0".to_string(),
        })
    );
}
