use codex_sandbox_server::capture::CommandExecOutputStream;
use codex_sandbox_server::command::{FinishedRun, RunningCommand};
use codex_sandbox_server::protocol::{Field, FieldValue, OutgoingMessage, RequestId};
use codex_sandbox_server::process::Control;
use codex_sandbox_server::run::{ControlStep, ExecExpirationOutcome, RunEvent};

const STDOUT: CommandExecOutputStream = CommandExecOutputStream::Stdout;
const STDERR: CommandExecOutputStream = CommandExecOutputStream::Stderr;

fn command(stream_output: bool, cap: Option<usize>) -> RunningCommand {
    RunningCommand::new(
        RequestId::Integer(3),
        Some("build-1".to_string()),
        false,
        stream_output,
        cap,
    )
}

fn push(command: &mut RunningCommand, stream: CommandExecOutputStream, chunk: &[u8]) -> bool {
    assert!(command.accepts(stream, chunk.len()));
    command.push(stream, chunk.to_vec()).notification.is_some()
}

fn finish(command: RunningCommand) -> Result<FinishedRun, RunningCommand> {
    command.finish(|bytes| String::from_utf8_lossy(bytes).into_owned())
}

fn answer(kind: &str, exit_code: i64, stdout: &str, stderr: &str) -> OutgoingMessage {
    OutgoingMessage::Response {
        id: RequestId::Integer(3),
        result: vec![
            Field { name: "type", value: FieldValue::Text(kind.to_string()) },
            Field { name: "exitCode", value: FieldValue::Number(exit_code) },
            Field { name: "stdout", value: FieldValue::Text(stdout.to_string()) },
            Field { name: "stderr", value: FieldValue::Text(stderr.to_string()) },
        ],
    }
}

fn finished(stream_output: bool, cap: Option<usize>) -> FinishedRun {
    let mut command = command(stream_output, cap);
    assert_eq!(push(&mut command, STDOUT, b"out"), stream_output);
    assert_eq!(push(&mut command, STDERR, b"error"), stream_output);
    command.end_stream(STDOUT, false);
    command.end_stream(STDERR, false);
    command.handle_event(RunEvent::Exited(Some(7)));
    finish(command).ok().expect("the command has ended")
}

#[test]
fn a_command_is_answered_after_its_exit_and_its_output() {
    let mut running = command(false, None);
    push(&mut running, STDOUT, b"out");
    let mut running = finish(running).err().expect("it still runs");
    running.handle_event(RunEvent::Exited(Some(7)));
    let mut running = finish(running).err().expect("its output is still read");
    running.end_stream(STDOUT, false);
    let mut running = finish(running).err().expect("one stream is still read");
    running.end_stream(STDERR, false);
    assert!(!push(&mut running, STDOUT, b"late"));
    let finished = finish(running).ok().expect("the command has ended");
    assert_eq!(finished.into_reply(false), answer("completed", 7, "out", ""));
}

#[test]
fn the_answer_carries_the_kept_output() {
    let finished = finished(false, None);
    let detection = finished.detection_output();
    assert_eq!(detection.exit_code, 7);
    assert_eq!(detection.stdout, "out");
    assert_eq!(detection.stderr, "error");
    assert_eq!(detection.aggregated_output, "outerror");
    assert!(!detection.timed_out);
    assert_eq!(finished.into_reply(true), answer("sandboxDenied", 7, "out", "error"));
}

#[test]
fn streaming_changes_the_texts_of_the_answer_alone() {
    for cap in [None, Some(4)] {
        let streamed = finished(true, cap);
        let buffered = finished(false, cap);
        assert_eq!(streamed.detection_output(), buffered.detection_output());
        assert_eq!(streamed.into_reply(true), answer("sandboxDenied", 7, "", ""));
        let kept = if cap.is_some() { "erro" } else { "error" };
        assert_eq!(buffered.into_reply(true), answer("sandboxDenied", 7, "out", kept));
    }
}

#[test]
fn a_timeout_shows_in_the_answer() {
    let mut running = command(false, None);
    let step = running.handle_event(RunEvent::Expired(ExecExpirationOutcome::TimedOut));
    assert!(step.request_terminate);
    assert!(!running.awaits_expiration());
    running.end_stream(STDOUT, false);
    running.end_stream(STDERR, true);
    assert_eq!(running.handle_event(RunEvent::Exited(Some(0))).exit_code, Some(124));
    let finished = finish(running).ok().expect("the command has ended");
    assert!(finished.detection_output().timed_out);
    assert_eq!(finished.into_reply(false), answer("completed", 124, "", ""));
}

#[test]
fn controls_reach_a_running_command() {
    let mut running = command(false, None);
    assert!(running.control_open());
    let step = running.handle_event(RunEvent::Control(Control::Terminate));
    assert_eq!(step.control, Some(ControlStep::RequestTerminate));
    running.handle_event(RunEvent::ControlClosed);
    assert!(!running.control_open());
}
