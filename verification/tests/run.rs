use codex_sandbox_server::process::{Control, TerminalSize};
use codex_sandbox_server::protocol::JSONRPCErrorError;
use codex_sandbox_server::run::{
    handle_control, input_sent, terminal_resized, ControlStep, ExecExpirationOutcome, ProcessRun,
    RunEvent, RunStep,
};

fn refused(message: &str) -> ControlStep {
    ControlStep::Refuse(JSONRPCErrorError { code: -32600, message: message.to_string() })
}

fn ending() -> RunStep {
    RunStep { cancel_execution: true, request_terminate: true, control: None, exit_code: None }
}

fn exited(code: i32) -> RunStep {
    RunStep {
        cancel_execution: true,
        request_terminate: false,
        control: None,
        exit_code: Some(code),
    }
}

#[test]
fn a_command_exits_with_its_code() {
    let mut run = ProcessRun::new(false);
    assert!(run.control_open());
    assert!(run.awaits_expiration());
    assert_eq!(run.exit_code(), None);
    assert_eq!(run.handle_event(RunEvent::Exited(Some(7))), exited(7));
    assert_eq!(run.exit_code(), Some(7));
    let mut lost = ProcessRun::new(false);
    assert_eq!(lost.handle_event(RunEvent::Exited(None)), exited(-1));
}

#[test]
fn a_timeout_decides_the_exit_code() {
    let mut run = ProcessRun::new(false);
    assert_eq!(run.handle_event(RunEvent::Expired(ExecExpirationOutcome::TimedOut)), ending());
    assert!(!run.awaits_expiration());
    assert_eq!(run.handle_event(RunEvent::Exited(Some(0))), exited(124));
    assert_eq!(run.exit_code(), Some(124));
    assert!(run.timed_out());
}

#[test]
fn a_cancellation_leaves_the_exit_code() {
    let mut run = ProcessRun::new(false);
    assert_eq!(run.handle_event(RunEvent::Expired(ExecExpirationOutcome::Cancelled)), ending());
    assert!(!run.awaits_expiration());
    assert_eq!(run.handle_event(RunEvent::Exited(Some(9))), exited(9));
    assert_eq!(run.exit_code(), Some(9));
    assert!(!run.timed_out());
}

#[test]
fn a_closed_control_channel_ends_the_command() {
    let mut run = ProcessRun::new(true);
    assert_eq!(run.handle_event(RunEvent::ControlClosed), ending());
    assert!(!run.control_open());
    assert!(run.awaits_expiration());
}

#[test]
fn controls_reach_the_session() {
    let mut run = ProcessRun::new(true);
    let step = run.handle_event(RunEvent::Control(Control::Terminate));
    assert_eq!(
        step,
        RunStep {
            cancel_execution: true,
            request_terminate: false,
            control: Some(ControlStep::RequestTerminate),
            exit_code: None,
        }
    );
    let write = Control::Write { delta: b"x".to_vec(), close_stdin: true };
    assert_eq!(
        run.handle_event(RunEvent::Control(write)),
        RunStep {
            cancel_execution: false,
            request_terminate: false,
            control: Some(ControlStep::SendInput { delta: b"x".to_vec(), close_stdin: true }),
            exit_code: None,
        }
    );
}

#[test]
fn input_needs_streaming() {
    let write = |delta: &[u8], close_stdin: bool| Control::Write {
        delta: delta.to_vec(),
        close_stdin,
    };
    let message = "stdin streaming is not enabled for this command/exec";
    assert_eq!(handle_control(false, write(b"x", false)), refused(message));
    assert_eq!(handle_control(false, write(b"", true)), refused(message));
    assert_eq!(
        handle_control(true, write(b"x", false)),
        ControlStep::SendInput { delta: b"x".to_vec(), close_stdin: false }
    );
    assert_eq!(handle_control(true, write(b"", true)), ControlStep::CloseInput);
    assert_eq!(handle_control(true, write(b"", false)), ControlStep::Done);
    let size = TerminalSize { rows: 2, cols: 3 };
    assert_eq!(handle_control(false, Control::Resize { size }), ControlStep::Resize(size));
}

#[test]
fn input_may_be_closed_already() {
    assert_eq!(input_sent(false, true), refused("stdin is already closed"));
    assert_eq!(input_sent(true, true), ControlStep::CloseInput);
    assert_eq!(input_sent(true, false), ControlStep::Done);
}

#[test]
fn failed_resizes_are_reported() {
    assert_eq!(terminal_resized(Ok(())), Ok(()));
    assert_eq!(
        terminal_resized(Err("not a PTY".to_string())),
        Err(JSONRPCErrorError {
            code: -32600,
            message: "failed to resize PTY: not a PTY".to_string(),
        })
    );
}
