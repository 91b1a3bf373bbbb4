use codex_sandbox_server::capture::{CaptureStep, CapturedOutput, CommandExecOutputStream};
use codex_sandbox_server::output::CommandOutput;

const STDOUT: CommandExecOutputStream = CommandExecOutputStream::Stdout;
const STDERR: CommandExecOutputStream = CommandExecOutputStream::Stderr;

fn output(stream_output: bool, cap: Option<usize>) -> CommandOutput {
    CommandOutput::new(Some("build-1".to_string()), stream_output, cap)
}

fn push(output: &mut CommandOutput, stream: CommandExecOutputStream, chunk: &[u8]) -> CaptureStep {
    assert!(output.accepts(stream, chunk.len()));
    output.push(stream, chunk.to_vec())
}

fn texts(output: CommandOutput) -> (CapturedOutput, CapturedOutput) {
    output
        .finish()
        .ok()
        .expect("both streams have ended")
        .into_texts(|bytes| String::from_utf8_lossy(bytes).into_owned())
        .into_parts()
}

fn text(response: &str, detection: &str) -> CapturedOutput {
    CapturedOutput {
        response_text: response.to_string(),
        detection_text: detection.to_string(),
    }
}

#[test]
fn both_streams_have_to_end_before_the_answer() {
    let mut output = output(false, None);
    push(&mut output, STDOUT, b"out");
    push(&mut output, STDERR, b"err");
    output.end(STDOUT, false);
    let mut output = output.finish().err().expect("one stream is still open");
    output.end(STDERR, false);
    assert_eq!(texts(output), (text("out", "out"), text("err", "err")));
}

#[test]
fn a_stream_that_has_ended_sends_nothing() {
    let mut output = output(true, None);
    assert!(push(&mut output, STDOUT, b"a").notification.is_some());
    output.end(STDOUT, false);
    assert_eq!(
        push(&mut output, STDOUT, b"b"),
        CaptureStep { notification: None, finished: true }
    );
    assert!(push(&mut output, STDERR, b"c").notification.is_some());
    output.end(STDERR, false);
    assert_eq!(texts(output), (text("", "a"), text("", "c")));
}

#[test]
fn a_full_stream_has_ended() {
    let mut output = output(true, Some(2));
    let step = push(&mut output, STDOUT, b"abc");
    assert!(step.finished);
    assert!(step.notification.is_some());
    assert_eq!(
        push(&mut output, STDOUT, b"d"),
        CaptureStep { notification: None, finished: true }
    );
    assert!(!push(&mut output, STDERR, b"x").finished);
    assert!(push(&mut output, STDERR, b"y").finished);
    assert_eq!(texts(output), (text("", "ab"), text("", "xy")));
}

#[test]
fn lost_output_counts_as_empty() {
    let mut output = output(false, None);
    push(&mut output, STDOUT, b"out");
    output.end(STDOUT, true);
    push(&mut output, STDERR, b"err");
    output.end(STDERR, false);
    assert_eq!(texts(output), (CapturedOutput::empty(), text("err", "err")));
}

#[test]
fn a_lost_reader_loses_its_output_also_after_the_end() {
    let mut output = output(false, Some(3));
    assert!(push(&mut output, STDOUT, b"full").finished);
    output.end(STDOUT, true);
    push(&mut output, STDERR, b"e");
    output.end(STDERR, false);
    output.end(STDERR, true);
    output.end(STDERR, false);
    assert_eq!(texts(output), (CapturedOutput::empty(), CapturedOutput::empty()));
}
