//! The output of a running command: both of its streams, up to the point where
//! the command can be answered.

use crate::capture::{
    cap_reached, CaptureStep, CaptureView, CapturedBytes, CapturedOutput, CommandExecOutputStream,
    OutputCapture,
};
use crate::external::{base64_encoded, decodes_to};
use crate::protocol::{clone_opt_text, opt_text, MessageView};
use vstd::prelude::*;

verus! {

/// How far the reading of a stream has come.
#[derive(Debug, Clone, Copy, PartialEq, Eq, Structural)]
pub enum StreamEnd {
    /// It is still read.
    Open,
    /// It has been read.
    Ended,
    /// Its reader was lost, and what it had read.
    Lost,
}

/// The state of the output of a command.
#[verifier::ext_equal]
pub struct OutputView {
    pub stdout: CaptureView,
    pub stderr: CaptureView,
    pub stdout_end: StreamEnd,
    pub stderr_end: StreamEnd,
}

impl OutputView {
    /// The output of a command that has not written anything.
    pub open spec fn started(
        process_id: Option<Seq<char>>,
        stream_output: bool,
        output_bytes_cap: Option<usize>,
    ) -> OutputView {
        let capture = |stream: CommandExecOutputStream| CaptureView {
            process_id,
            stream,
            stream_output,
            output_bytes_cap,
            response: Seq::empty(),
            detection: Seq::empty(),
        };
        OutputView {
            stdout: capture(CommandExecOutputStream::Stdout),
            stderr: capture(CommandExecOutputStream::Stderr),
            stdout_end: StreamEnd::Open,
            stderr_end: StreamEnd::Open,
        }
    }

    /// Neither stream holds more than its cap.
    pub open spec fn wf(self) -> bool {
        self.stdout.wf() && self.stderr.wf()
    }

    /// The capture of a stream.
    pub open spec fn capture(self, stream: CommandExecOutputStream) -> CaptureView {
        match stream {
            CommandExecOutputStream::Stdout => self.stdout,
            CommandExecOutputStream::Stderr => self.stderr,
        }
    }

    /// How far the reading of a stream has come.
    pub open spec fn end(self, stream: CommandExecOutputStream) -> StreamEnd {
        match stream {
            CommandExecOutputStream::Stdout => self.stdout_end,
            CommandExecOutputStream::Stderr => self.stderr_end,
        }
    }

    /// The state with another capture and end of a stream.
    pub open spec fn with(
        self,
        stream: CommandExecOutputStream,
        capture: CaptureView,
        end: StreamEnd,
    ) -> OutputView {
        match stream {
            CommandExecOutputStream::Stdout => OutputView {
                stdout: capture,
                stdout_end: end,
                ..self
            },
            CommandExecOutputStream::Stderr => OutputView {
                stderr: capture,
                stderr_end: end,
                ..self
            },
        }
    }

    /// The state after a chunk of a stream. A stream ends where its cap is
    /// reached; one that has ended takes nothing in.
    pub open spec fn after_chunk(
        self,
        stream: CommandExecOutputStream,
        chunk: Seq<u8>,
    ) -> OutputView {
        if self.end(stream) == StreamEnd::Open {
            let capture = self.capture(stream).after(chunk);
            let end = if cap_reached(capture.detection, capture.output_bytes_cap) {
                StreamEnd::Ended
            } else {
                StreamEnd::Open
            };
            self.with(stream, capture, end)
        } else {
            self
        }
    }

    /// The notification that is sent for a chunk of a stream.
    pub open spec fn notification(
        self,
        stream: CommandExecOutputStream,
        chunk: Seq<u8>,
    ) -> Option<MessageView> {
        if self.end(stream) == StreamEnd::Open {
            self.capture(stream).notification(chunk)
        } else {
            None
        }
    }

    /// The state after the reading of a stream has come to this end. A stream whose
    /// reader is lost is lost, also after it had ended, and stays so.
    pub open spec fn after_end(
        self,
        stream: CommandExecOutputStream,
        end: StreamEnd,
    ) -> OutputView {
        if self.end(stream) == StreamEnd::Open || end == StreamEnd::Lost {
            self.with(stream, self.capture(stream), end)
        } else {
            self
        }
    }

    /// Whether both streams have come to their end.
    pub open spec fn finished(self) -> bool {
        self.stdout_end != StreamEnd::Open && self.stderr_end != StreamEnd::Open
    }
}

/// The output of a running command.
pub struct CommandOutput {
    stdout: OutputCapture,
    stderr: OutputCapture,
    stdout_end: StreamEnd,
    stderr_end: StreamEnd,
}

impl View for CommandOutput {
    type V = OutputView;

    closed spec fn view(&self) -> OutputView {
        OutputView {
            stdout: self.stdout@,
            stderr: self.stderr@,
            stdout_end: self.stdout_end,
            stderr_end: self.stderr_end,
        }
    }
}

impl CommandOutput {
    /// The output of a command that has not written anything.
    pub fn new(process_id: Option<String>, stream_output: bool, output_bytes_cap: Option<usize>) -> (output:
        Self)
        ensures
            output@ == OutputView::started(opt_text(process_id), stream_output, output_bytes_cap),
            output@.wf(),
    {
        let copy = clone_opt_text(&process_id);
        CommandOutput {
            stdout: OutputCapture::new(
                copy,
                CommandExecOutputStream::Stdout,
                stream_output,
                output_bytes_cap,
            ),
            stderr: OutputCapture::new(
                process_id,
                CommandExecOutputStream::Stderr,
                stream_output,
                output_bytes_cap,
            ),
            stdout_end: StreamEnd::Open,
            stderr_end: StreamEnd::Open,
        }
    }

    /// Whether a chunk of this length fits in memory beside what is captured.
    pub fn accepts(&self, stream: CommandExecOutputStream, len: usize) -> (fits: bool)
        ensures
            fits == self@.capture(stream).accepts(len as nat),
    {
        match stream {
            CommandExecOutputStream::Stdout => self.stdout.accepts(len),
            CommandExecOutputStream::Stderr => self.stderr.accepts(len),
        }
    }

    /// Takes in a chunk of a stream.
    pub fn push(&mut self, stream: CommandExecOutputStream, chunk: Vec<u8>) -> (step: CaptureStep)
        requires
            old(self)@.capture(stream).accepts(chunk@.len()),
        ensures
            final(self)@.wf(),
            final(self)@ == old(self)@.after_chunk(stream, chunk@),
            step.finished == (final(self)@.end(stream) != StreamEnd::Open),
            match step.notification {
                Some(message) => Some(message@),
                None => None,
            } == old(self)@.notification(stream, chunk@),
            step.notification is Some ==> decodes_to(
                base64_encoded(old(self)@.capture(stream).delta(chunk@)),
                old(self)@.capture(stream).delta(chunk@),
            ),
    {
        proof {
            use_type_invariant(&self.stdout);
            use_type_invariant(&self.stderr);
        }
        match stream {
            CommandExecOutputStream::Stdout => {
                if self.stdout_end != StreamEnd::Open {
                    return CaptureStep { notification: None, finished: true };
                }
                let step = self.stdout.push(chunk);
                if step.finished {
                    self.stdout_end = StreamEnd::Ended;
                }
                step
            },
            CommandExecOutputStream::Stderr => {
                if self.stderr_end != StreamEnd::Open {
                    return CaptureStep { notification: None, finished: true };
                }
                let step = self.stderr.push(chunk);
                if step.finished {
                    self.stderr_end = StreamEnd::Ended;
                }
                step
            },
        }
    }

    /// Notes that a stream has been read, or that its reader was lost.
    pub fn end(&mut self, stream: CommandExecOutputStream, lost: bool)
        ensures
            final(self)@ == old(self)@.after_end(
                stream,
                if lost {
                    StreamEnd::Lost
                } else {
                    StreamEnd::Ended
                },
            ),
    {
        let end = if lost {
            StreamEnd::Lost
        } else {
            StreamEnd::Ended
        };
        match stream {
            CommandExecOutputStream::Stdout => {
                if self.stdout_end == StreamEnd::Open || lost {
                    self.stdout_end = end;
                }
            },
            CommandExecOutputStream::Stderr => {
                if self.stderr_end == StreamEnd::Open || lost {
                    self.stderr_end = end;
                }
            },
        }
    }

    /// What was captured, once both streams have come to their end.
    pub fn finish(self) -> (result: Result<FinishedOutput, CommandOutput>)
        ensures
            match result {
                Ok(finished) => {
                    &&& self@.finished()
                    &&& holds_capture(finished.out(), self@.stdout, self@.stdout_end)
                    &&& holds_capture(finished.err(), self@.stderr, self@.stderr_end)
                },
                Err(same) => !self@.finished() && same@ == self@,
            },
    {
        if self.stdout_end == StreamEnd::Open || self.stderr_end == StreamEnd::Open {
            return Err(self);
        }
        let stdout = if self.stdout_end == StreamEnd::Lost {
            None
        } else {
            Some(self.stdout.finish())
        };
        let stderr = if self.stderr_end == StreamEnd::Lost {
            None
        } else {
            Some(self.stderr.finish())
        };
        Ok(FinishedOutput { stdout, stderr })
    }
}

/// Whether these are the bytes of a capture; one that was lost has none.
pub open spec fn holds_capture(
    bytes: Option<CapturedBytes>,
    capture: CaptureView,
    end: StreamEnd,
) -> bool {
    match bytes {
        Some(captured) => end == StreamEnd::Ended && captured.response@ == capture.response
            && captured.detection@ == capture.detection,
        None => end == StreamEnd::Lost,
    }
}

/// What was captured of a command whose streams have both come to their end.
pub struct FinishedOutput {
    stdout: Option<CapturedBytes>,
    stderr: Option<CapturedBytes>,
}

impl FinishedOutput {
    pub closed spec fn out(self) -> Option<CapturedBytes> {
        self.stdout
    }

    pub closed spec fn err(self) -> Option<CapturedBytes> {
        self.stderr
    }

    /// Turns the captured bytes into texts. A stream whose reader was lost counts as
    /// empty.
    pub fn into_texts<F: Fn(&Vec<u8>) -> String>(self, text: F) -> (texts: OutputTexts)
        requires
            forall|bytes: &Vec<u8>| #[trigger] call_requires(text, (bytes,)),
        ensures
            are_texts_of(texts.out(), self.out(), text),
            are_texts_of(texts.err(), self.err(), text),
    {
        OutputTexts {
            stdout: captured_texts(&self.stdout, &text),
            stderr: captured_texts(&self.stderr, &text),
        }
    }
}

fn captured_texts<F: Fn(&Vec<u8>) -> String>(bytes: &Option<CapturedBytes>, text: &F) -> (output:
    CapturedOutput)
    requires
        forall|bytes: &Vec<u8>| #[trigger] call_requires(*text, (bytes,)),
    ensures
        are_texts_of(output, *bytes, *text),
{
    match bytes {
        Some(captured) => CapturedOutput {
            response_text: text(&captured.response),
            detection_text: text(&captured.detection),
        },
        None => CapturedOutput::empty(),
    }
}

/// Whether an output holds the texts that a conversion gives for the captured
/// bytes, each from its own bytes; where those were lost it is empty.
pub open spec fn are_texts_of<F: Fn(&Vec<u8>) -> String>(
    output: CapturedOutput,
    bytes: Option<CapturedBytes>,
    text: F,
) -> bool {
    match bytes {
        Some(captured) => {
            &&& call_ensures(text, (&captured.response,), output.response_text)
            &&& call_ensures(text, (&captured.detection,), output.detection_text)
        },
        None => output.response_text@.len() == 0 && output.detection_text@.len() == 0,
    }
}

/// Whether an output holds the texts of a capture that came to this end.
pub open spec fn are_texts_of_capture<F: Fn(&Vec<u8>) -> String>(
    output: CapturedOutput,
    capture: CaptureView,
    end: StreamEnd,
    text: F,
) -> bool {
    exists|bytes: Option<CapturedBytes>| #[trigger]
        holds_capture(bytes, capture, end) && are_texts_of(output, bytes, text)
}

/// The texts of a command whose streams have both come to their end.
pub struct OutputTexts {
    stdout: CapturedOutput,
    stderr: CapturedOutput,
}

impl OutputTexts {
    pub closed spec fn out(self) -> CapturedOutput {
        self.stdout
    }

    pub closed spec fn err(self) -> CapturedOutput {
        self.stderr
    }

    /// The texts of the standard output and the standard error stream.
    pub fn into_parts(self) -> (parts: (CapturedOutput, CapturedOutput))
        ensures
            parts == (self.out(), self.err()),
    {
        (self.stdout, self.stderr)
    }
}

/// Once both streams have come to their end, which is when the command can be
/// answered, no output is sent any more: every notification of a command comes
/// before its answer.
pub proof fn law_output_comes_before_the_answer(
    output: OutputView,
    stream: CommandExecOutputStream,
    chunk: Seq<u8>,
    end: StreamEnd,
)
    requires
        output.finished(),
    ensures
        output.notification(stream, chunk) is None,
        output.after_chunk(stream, chunk) == output,
        end != StreamEnd::Open ==> output.after_end(stream, end).finished(),
{
}

/// The output of one stream has no part in what is captured or sent of the other.
pub proof fn law_streams_are_captured_apart(
    output: OutputView,
    stream: CommandExecOutputStream,
    other: CommandExecOutputStream,
    chunk: Seq<u8>,
    later: Seq<u8>,
)
    requires
        stream != other,
    ensures
        output.after_chunk(stream, chunk).capture(other) == output.capture(other),
        output.after_chunk(stream, chunk).end(other) == output.end(other),
        output.after_chunk(stream, chunk).notification(other, later) == output.notification(
            other,
            later,
        ),
{
}

} // verus!
