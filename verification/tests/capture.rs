use codex_sandbox_server::capture::{
    chunk_wants_more, output_delta, CaptureStep, CapturedOutput, CommandExecOutputStream,
    OutputCapture,
};
use codex_sandbox_server::protocol::{Field, FieldValue, OutgoingMessage};

fn capture(stream_output: bool, cap: Option<usize>) -> OutputCapture {
    OutputCapture::new(
        Some("build-1".to_string()),
        CommandExecOutputStream::Stdout,
        stream_output,
        cap,
    )
}

fn push(capture: &mut OutputCapture, chunk: &[u8]) -> CaptureStep {
    assert!(capture.accepts(chunk.len()));
    capture.push(chunk.to_vec())
}

fn delta(stream: &str, base64: &str, reached: bool) -> OutgoingMessage {
    OutgoingMessage::Notification {
        method: "command/exec/outputDelta",
        params: vec![
            Field { name: "processId", value: FieldValue::Text("build-1".to_string()) },
            Field { name: "stream", value: FieldValue::Text(stream.to_string()) },
            Field { name: "deltaBase64", value: FieldValue::Text(base64.to_string()) },
            Field { name: "capReached", value: FieldValue::Flag(reached) },
        ],
    }
}

#[test]
fn buffered_output_is_kept_for_the_result() {
    let mut capture = capture(false, Some(100));
    assert_eq!(push(&mut capture, b"hel"), CaptureStep { notification: None, finished: false });
    assert_eq!(push(&mut capture, b"lo"), CaptureStep { notification: None, finished: false });
    let bytes = capture.finish();
    assert_eq!(bytes.response, b"hello");
    assert_eq!(bytes.detection, b"hello");
}

#[test]
fn streamed_output_is_sent_and_not_repeated() {
    let mut capture = capture(true, None);
    assert_eq!(
        push(&mut capture, b"hello"),
        CaptureStep { notification: Some(delta("stdout", "aGVsbG8=", false)), finished: false }
    );
    let bytes = capture.finish();
    assert!(bytes.response.is_empty());
    assert_eq!(bytes.detection, b"hello");
}

#[test]
fn the_cap_cuts_the_last_chunk() {
    let mut capture = capture(true, Some(7));
    assert_eq!(
        push(&mut capture, b"hello"),
        CaptureStep { notification: Some(delta("stdout", "aGVsbG8=", false)), finished: false }
    );
    assert_eq!(
        push(&mut capture, b"world"),
        CaptureStep { notification: Some(delta("stdout", "d28=", true)), finished: true }
    );
    assert_eq!(
        push(&mut capture, b"more"),
        CaptureStep { notification: Some(delta("stdout", "", true)), finished: true }
    );
    assert_eq!(capture.finish().detection, b"hellowo");
}

#[test]
fn a_cap_that_is_met_exactly_ends_the_capture() {
    let mut capture = capture(false, Some(5));
    assert!(push(&mut capture, b"hello").finished);
    assert_eq!(capture.finish().response, b"hello");
}

#[test]
fn an_empty_cap_captures_nothing() {
    let mut capture = capture(false, Some(0));
    assert!(push(&mut capture, b"hello").finished);
    let bytes = capture.finish();
    assert!(bytes.response.is_empty());
    assert!(bytes.detection.is_empty());
}

#[test]
fn streams_without_an_id_send_nothing() {
    let mut capture = OutputCapture::new(None, CommandExecOutputStream::Stderr, true, None);
    assert_eq!(push(&mut capture, b"x"), CaptureStep { notification: None, finished: false });
    let bytes = capture.finish();
    assert!(bytes.response.is_empty());
    assert_eq!(bytes.detection, b"x");
}

#[test]
fn however_output_is_cut_the_capture_is_the_same() {
    let output = b"0123456789";
    for size in 1..11 {
        let mut capture = capture(false, Some(8));
        for chunk in output.chunks(size) {
            if push(&mut capture, chunk).finished {
                break;
            }
        }
        assert_eq!(capture.finish().response, b"01234567");
    }
}

#[test]
fn deltas_name_their_stream() {
    assert_eq!(
        output_delta(
            "build-1".to_string(),
            CommandExecOutputStream::Stderr,
            "ZXJyb3I=".to_string(),
            false,
        ),
        delta("stderr", "ZXJyb3I=", false)
    );
}

#[test]
fn short_chunks_are_merged() {
    assert!(chunk_wants_more(&vec![0; 65535]));
    assert!(!chunk_wants_more(&vec![0; 65536]));
}

#[test]
fn lost_captures_are_empty() {
    assert_eq!(
        CapturedOutput::empty(),
        CapturedOutput { response_text: String::new(), detection_text: String::new() }
    );
}

#[test]
fn deltas_are_padded_base64() {
    let encoded = |bytes: &[u8]| {
        let mut capture = capture(true, None);
        match push(&mut capture, bytes).notification {
            Some(OutgoingMessage::Notification { params, .. }) => params[2].value.clone(),
            other => panic!("expected a notification, got {other:?}"),
        }
    };
    let text = |base64: &str| FieldValue::Text(base64.to_string());
    assert_eq!(encoded(b""), text(""));
    assert_eq!(encoded(b"M"), text("TQ=="));
    assert_eq!(encoded(b"Ma"), text("TWE="));
    assert_eq!(encoded(b"Man"), text("TWFu"));
    assert_eq!(encoded(&[0xff, 0xef, 0xbe, 0x00]), text("/+++AA=="));
}
