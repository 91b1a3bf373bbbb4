//! One running command as its client sees it: the output it sends and the answer
//! it comes to.

use crate::capture::{
    capped, law_a_chunk_is_captured_as_far_as_there_is_room,
    law_notifications_tell_what_was_written, CaptureStep, CapturedBytes, CapturedOutput,
    CommandExecOutputStream,
};
use crate::external::{base64_encoded, decodes_to};
use crate::output::{
    are_texts_of, are_texts_of_capture, holds_capture, CommandOutput, OutputView, StreamEnd,
};
use crate::protocol::{
    has_member, member_names, opt_text, outcome_object, CommandExecOutcome, FieldValueView,
    MessageView, OutgoingMessage, RequestId, RequestIdView, COMMAND_EXEC_OUTPUT_DELTA_METHOD,
};
use crate::run::{
    cancels, control_step, ends_process, follows, run_after, ExecExpirationOutcome, ProcessRun,
    RunEvent, RunStep, RunView,
};
use crate::text::joined;
use vstd::prelude::*;

verus! {

/// The answer to the request that started a command.
pub open spec fn answer(
    id: RequestIdView,
    sandbox_denied: bool,
    exit_code: i32,
    stdout: Seq<char>,
    stderr: Seq<char>,
) -> MessageView {
    MessageView::Response {
        id,
        result: outcome_object(sandbox_denied, exit_code as int, stdout, stderr),
    }
}

/// What happens in the course of a command.
pub enum CommandEvent {
    /// Something happens to its process.
    Run(RunEvent),
    /// It writes to a stream.
    Output { stream: CommandExecOutputStream, chunk: Seq<u8> },
    /// A stream has been read, or its reader was lost.
    StreamEnd { stream: CommandExecOutputStream, lost: bool },
    /// It is answered.
    Answer { sandbox_denied: bool, stdout: Seq<char>, stderr: Seq<char> },
}

/// The state of a command.
#[verifier::ext_equal]
pub struct CommandView {
    pub request_id: RequestIdView,
    pub run: RunView,
    pub output: OutputView,
    pub answered: bool,
}

/// How the reading of a stream ended.
pub open spec fn stream_end(lost: bool) -> StreamEnd {
    if lost {
        StreamEnd::Lost
    } else {
        StreamEnd::Ended
    }
}

impl CommandView {
    /// A command that has just started.
    pub open spec fn started(
        request_id: RequestIdView,
        process_id: Option<Seq<char>>,
        stream_stdin: bool,
        stream_output: bool,
        output_bytes_cap: Option<usize>,
    ) -> CommandView {
        CommandView {
            request_id,
            run: RunView::started(stream_stdin),
            output: OutputView::started(process_id, stream_output, output_bytes_cap),
            answered: false,
        }
    }

    /// Whether it has exited and both of its streams have come to their end.
    pub open spec fn ready(self) -> bool {
        self.run.ended is Some && self.output.finished()
    }

    /// The state after an event.
    pub open spec fn after(self, event: CommandEvent) -> CommandView {
        match event {
            CommandEvent::Run(happened) => CommandView { run: self.run.after(happened), ..self },
            CommandEvent::Output { stream, chunk } => CommandView {
                output: self.output.after_chunk(stream, chunk),
                ..self
            },
            CommandEvent::StreamEnd { stream, lost } => CommandView {
                output: self.output.after_end(stream, stream_end(lost)),
                ..self
            },
            CommandEvent::Answer { .. } => CommandView {
                answered: self.answered || self.ready(),
                ..self
            },
        }
    }

    /// The message that an event sends to the client.
    pub open spec fn message(self, event: CommandEvent) -> Option<MessageView> {
        match event {
            CommandEvent::Run(_) => None,
            CommandEvent::Output { stream, chunk } => self.output.notification(stream, chunk),
            CommandEvent::StreamEnd { .. } => None,
            CommandEvent::Answer { sandbox_denied, stdout, stderr } => if self.ready()
                && !self.answered {
                Some(answer(self.request_id, sandbox_denied, self.run.ended->0, stdout, stderr))
            } else {
                None
            },
        }
    }
}

/// A running command. It is used up by its answer.
pub struct RunningCommand {
    request_id: RequestId,
    run: ProcessRun,
    output: CommandOutput,
}

impl View for RunningCommand {
    type V = CommandView;

    closed spec fn view(&self) -> CommandView {
        CommandView {
            request_id: self.request_id@,
            run: self.run@,
            output: self.output@,
            answered: false,
        }
    }
}

impl RunningCommand {
    /// A command that has just started. `process_id` is the id under which its
    /// output is streamed.
    pub fn new(
        request_id: RequestId,
        process_id: Option<String>,
        stream_stdin: bool,
        stream_output: bool,
        output_bytes_cap: Option<usize>,
    ) -> (command: Self)
        ensures
            command@ == CommandView::started(
                request_id@,
                opt_text(process_id),
                stream_stdin,
                stream_output,
                output_bytes_cap,
            ),
    {
        RunningCommand {
            request_id,
            run: ProcessRun::new(stream_stdin),
            output: CommandOutput::new(process_id, stream_output, output_bytes_cap),
        }
    }

    /// Whether controls are still awaited.
    pub fn control_open(&self) -> (open: bool)
        ensures
            open == self@.run.control_open,
    {
        self.run.control_open()
    }

    /// Whether the end of its time is still awaited.
    pub fn awaits_expiration(&self) -> (awaits: bool)
        ensures
            awaits == (self@.run.expiration_outcome is None),
    {
        self.run.awaits_expiration()
    }

    /// Takes in what happens to its process.
    pub fn handle_event(&mut self, event: RunEvent) -> (step: RunStep)
        ensures
            final(self)@ == old(self)@.after(CommandEvent::Run(event)),
            step.cancel_execution == cancels(event),
            step.request_terminate == (event is ControlClosed || event is Expired),
            step.request_terminate == ends_process(event),
            match event {
                RunEvent::Control(control) => step.control matches Some(action) && action@
                    == control_step(old(self)@.run.stream_stdin, control@),
                _ => step.control is None,
            },
            step.exit_code == match event {
                RunEvent::Exited(exit) => Some(old(self)@.run.exit_code(exit)),
                _ => None,
            },
            follows(old(self)@.run, event, step, final(self)@.run),
    {
        self.run.handle_event(event)
    }

    /// Whether a chunk of this length fits in memory beside what is captured.
    pub fn accepts(&self, stream: CommandExecOutputStream, len: usize) -> (fits: bool)
        ensures
            fits == self@.output.capture(stream).accepts(len as nat),
    {
        self.output.accepts(stream, len)
    }

    /// Takes in a chunk that it wrote to a stream.
    pub fn push(&mut self, stream: CommandExecOutputStream, chunk: Vec<u8>) -> (step: CaptureStep)
        requires
            old(self)@.output.capture(stream).accepts(chunk@.len()),
        ensures
            final(self)@ == old(self)@.after(CommandEvent::Output { stream, chunk: chunk@ }),
            step.finished == (final(self)@.output.end(stream) != StreamEnd::Open),
            match step.notification {
                Some(message) => Some(message@),
                None => None,
            } == old(self)@.message(CommandEvent::Output { stream, chunk: chunk@ }),
            step.notification is Some ==> decodes_to(
                base64_encoded(old(self)@.output.capture(stream).delta(chunk@)),
                old(self)@.output.capture(stream).delta(chunk@),
            ),
            output_step(old(self)@, stream, chunk@, step, final(self)@),
    {
        self.output.push(stream, chunk)
    }

    /// Notes that a stream has been read, or that its reader was lost.
    pub fn end_stream(&mut self, stream: CommandExecOutputStream, lost: bool)
        ensures
            final(self)@ == old(self)@.after(CommandEvent::StreamEnd { stream, lost }),
    {
        self.output.end(stream, lost)
    }

    /// Puts together what is answered, with the captured bytes turned into texts. A
    /// command that has not exited, or whose output is still read, is handed back.
    pub fn finish<F: Fn(&Vec<u8>) -> String>(self, text: F) -> (result: Result<
        FinishedRun,
        RunningCommand,
    >)
        requires
            forall|bytes: &Vec<u8>| #[trigger] call_requires(text, (bytes,)),
        ensures
            match result {
                Ok(finished) => self@.ready() && concludes(finished, self@, text),
                Err(same) => !self@.ready() && same@ == self@,
            },
    {
        let exit_code: i32 = match self.run.exit_code() {
            Some(exit_code) => exit_code,
            None => {
                return Err(self);
            },
        };
        let timed_out = self.run.timed_out();
        match self.output.finish() {
            Err(output) => Err(
                RunningCommand { request_id: self.request_id, run: self.run, output },
            ),
            Ok(output) => {
                let ghost bytes = output;
                let (stdout, stderr) = output.into_texts(text).into_parts();
                proof {
                    let view = self@.output;
                    assert(holds_capture(bytes.out(), view.stdout, view.stdout_end)
                        && are_texts_of(stdout, bytes.out(), text));
                    assert(holds_capture(bytes.err(), view.stderr, view.stderr_end)
                        && are_texts_of(stderr, bytes.err(), text));
                }
                Ok(FinishedRun { request_id: self.request_id, exit_code, timed_out, stdout, stderr })
            },
        }
    }
}

/// Whether a finished run is what a command came to.
pub open spec fn concludes<F: Fn(&Vec<u8>) -> String>(
    finished: FinishedRun,
    command: CommandView,
    text: F,
) -> bool {
    &&& finished.id() == command.request_id
    &&& command.run.ended == Some(finished.code())
    &&& finished.ran_out_of_time() == command.run.timed_out()
    &&& are_texts_of_capture(
        finished.out(),
        command.output.stdout,
        command.output.stdout_end,
        text,
    )
    &&& are_texts_of_capture(
        finished.err(),
        command.output.stderr,
        command.output.stderr_end,
        text,
    )
}

/// A command that has exited and whose output has been captured.
pub struct FinishedRun {
    request_id: RequestId,
    exit_code: i32,
    timed_out: bool,
    stdout: CapturedOutput,
    stderr: CapturedOutput,
}

/// What a sandbox denial is recognised by.
#[derive(Debug, Clone, PartialEq, Eq)]
pub struct DetectionOutput {
    pub exit_code: i32,
    pub stdout: String,
    pub stderr: String,
    /// Both streams, the standard output first.
    pub aggregated_output: String,
    pub timed_out: bool,
}

impl FinishedRun {
    pub closed spec fn id(self) -> RequestIdView {
        self.request_id@
    }

    pub closed spec fn code(self) -> i32 {
        self.exit_code
    }

    pub closed spec fn ran_out_of_time(self) -> bool {
        self.timed_out
    }

    pub closed spec fn out(self) -> CapturedOutput {
        self.stdout
    }

    pub closed spec fn err(self) -> CapturedOutput {
        self.stderr
    }

    /// What a sandbox denial is recognised by: all that was captured, streamed or
    /// not.
    pub fn detection_output(&self) -> (output: DetectionOutput)
        ensures
            output.exit_code == self.code(),
            output.stdout@ == self.out().detection_text@,
            output.stderr@ == self.err().detection_text@,
            output.aggregated_output@ == self.out().detection_text@ + self.err().detection_text@,
            output.timed_out == self.ran_out_of_time(),
            detects(output, *self),
    {
        DetectionOutput {
            exit_code: self.exit_code,
            stdout: self.stdout.detection_text.clone(),
            stderr: self.stderr.detection_text.clone(),
            aggregated_output: joined(
                self.stdout.detection_text.as_str(),
                self.stderr.detection_text.as_str(),
            ),
            timed_out: self.timed_out,
        }
    }

    /// The answer to the request that started the command.
    pub fn into_reply(self, sandbox_denied: bool) -> (message: OutgoingMessage)
        ensures
            message@ == answer(
                self.id(),
                sandbox_denied,
                self.code(),
                self.out().response_text@,
                self.err().response_text@,
            ),
            message@ == reply_of(self, sandbox_denied),
    {
        let outcome = CommandExecOutcome::new(
            sandbox_denied,
            self.exit_code,
            self.stdout.response_text,
            self.stderr.response_text,
        );
        OutgoingMessage::Response { id: self.request_id, result: outcome.into_fields() }
    }
}

/// The state after a series of events.
pub open spec fn command_after(start: CommandView, events: Seq<CommandEvent>) -> CommandView
    decreases events.len(),
{
    if events.len() == 0 {
        start
    } else {
        command_after(start, events.drop_last()).after(events.last())
    }
}

/// The message that an event of a series sends to the client.
pub open spec fn message_at(
    start: CommandView,
    events: Seq<CommandEvent>,
    i: int,
) -> Option<MessageView> {
    command_after(start, events.take(i)).message(events[i])
}

/// Whether an event of a series answers the command.
pub open spec fn answers_at(start: CommandView, events: Seq<CommandEvent>, i: int) -> bool {
    message_at(start, events, i) matches Some(message) && message is Response
}

proof fn lemma_step(start: CommandView, events: Seq<CommandEvent>, i: int)
    requires
        0 <= i < events.len(),
    ensures
        command_after(start, events.take(i + 1)) == command_after(start, events.take(i)).after(
            events[i],
        ),
{
    assert(events.take(i + 1).drop_last() =~= events.take(i));
}

proof fn lemma_id_stays(start: CommandView, events: Seq<CommandEvent>, i: int)
    requires
        0 <= i <= events.len(),
    ensures
        command_after(start, events.take(i)).request_id == start.request_id,
    decreases i,
{
    if i > 0 {
        lemma_id_stays(start, events, i - 1);
        lemma_step(start, events, i - 1);
    } else {
        assert(events.take(0) =~= Seq::empty());
    }
}

proof fn lemma_answered_stays(start: CommandView, events: Seq<CommandEvent>, i: int, j: int)
    requires
        0 <= i < j <= events.len(),
        answers_at(start, events, i),
    ensures
        command_after(start, events.take(j)).answered,
        command_after(start, events.take(j)).output.finished(),
    decreases j,
{
    lemma_step(start, events, j - 1);
    if i < j - 1 {
        lemma_answered_stays(start, events, i, j - 1);
    }
}

/// A command gets exactly one answer, with the id of its request, as the last of
/// its messages: whatever happens before and after, every message before the answer
/// is a piece of output, and none follows it.
pub proof fn law_a_command_gets_one_answer(
    start: CommandView,
    events: Seq<CommandEvent>,
    i: int,
    j: int,
)
    requires
        0 <= i < events.len(),
        0 <= j < events.len(),
        answers_at(start, events, i),
    ensures
        message_at(start, events, i) matches Some(MessageView::Response { id, result }) && id
            == start.request_id,
        i < j ==> message_at(start, events, j) is None,
        j < i ==> (message_at(start, events, j) matches Some(message) ==> (message
            matches MessageView::Notification { method, params } && method
            == COMMAND_EXEC_OUTPUT_DELTA_METHOD@)),
{
    lemma_id_stays(start, events, i);
    if i < j {
        lemma_answered_stays(start, events, i, j);
    }
    if j < i && answers_at(start, events, j) {
        lemma_answered_stays(start, events, j, i);
    }
}

/// A command that has exited and whose streams have come to their end is answered
/// as soon as its outcome is known, with the exit code of its run.
pub proof fn law_a_finished_command_is_answered(
    command: CommandView,
    sandbox_denied: bool,
    stdout: Seq<char>,
    stderr: Seq<char>,
)
    requires
        command.ready(),
        !command.answered,
    ensures
        command.message(CommandEvent::Answer { sandbox_denied, stdout, stderr }) == Some(
            answer(command.request_id, sandbox_denied, command.run.ended->0, stdout, stderr),
        ),
{
}

/// What a running command is answered with is the answer of its course: its
/// request's id and the exit code of its run.
pub proof fn law_the_answer_is_that_of_the_command<F: Fn(&Vec<u8>) -> String>(
    command: CommandView,
    finished: FinishedRun,
    text: F,
    sandbox_denied: bool,
)
    requires
        command.ready(),
        !command.answered,
        concludes(finished, command, text),
    ensures
        command.message(
            CommandEvent::Answer {
                sandbox_denied,
                stdout: finished.out().response_text@,
                stderr: finished.err().response_text@,
            },
        ) == Some(
            answer(
                finished.id(),
                sandbox_denied,
                finished.code(),
                finished.out().response_text@,
                finished.err().response_text@,
            ),
        ),
{
}

/// Whether two commands have come equally far but for what they repeat of their
/// output: the first, which streams, nothing, and the second all of it.
pub open spec fn alike_but_for_streaming(streamed: CommandView, buffered: CommandView) -> bool {
    &&& streamed.run == buffered.run
    &&& streamed.answered == buffered.answered
    &&& streamed.output.stdout_end == buffered.output.stdout_end
    &&& streamed.output.stderr_end == buffered.output.stderr_end
    &&& forall|stream: CommandExecOutputStream|
        {
            let one = #[trigger] streamed.output.capture(stream);
            let other = buffered.output.capture(stream);
            &&& one.stream_output
            &&& !other.stream_output
            &&& one.output_bytes_cap == other.output_bytes_cap
            &&& one.detection == other.detection
            &&& one.response == Seq::<u8>::empty()
            &&& other.response == other.detection
        }
}

/// Of two commands to which the same happens, one streaming its output and one not,
/// both capture the same bytes and come to the same exit code; only the buffered
/// one repeats its output.
pub proof fn law_streaming_leaves_the_course_of_a_command(
    streamed_id: Option<Seq<char>>,
    buffered_id: Option<Seq<char>>,
    request_id: RequestIdView,
    stream_stdin: bool,
    output_bytes_cap: Option<usize>,
    events: Seq<CommandEvent>,
)
    ensures
        alike_but_for_streaming(
            command_after(
                CommandView::started(
                    request_id,
                    streamed_id,
                    stream_stdin,
                    true,
                    output_bytes_cap,
                ),
                events,
            ),
            command_after(
                CommandView::started(
                    request_id,
                    buffered_id,
                    stream_stdin,
                    false,
                    output_bytes_cap,
                ),
                events,
            ),
        ),
    decreases events.len(),
{
    if events.len() > 0 {
        law_streaming_leaves_the_course_of_a_command(
            streamed_id,
            buffered_id,
            request_id,
            stream_stdin,
            output_bytes_cap,
            events.drop_last(),
        );
        let streamed = command_after(
            CommandView::started(request_id, streamed_id, stream_stdin, true, output_bytes_cap),
            events.drop_last(),
        );
        let buffered = command_after(
            CommandView::started(request_id, buffered_id, stream_stdin, false, output_bytes_cap),
            events.drop_last(),
        );
        let event = events.last();
        assert(streamed.output.capture(CommandExecOutputStream::Stdout).stream_output);
        assert(streamed.output.capture(CommandExecOutputStream::Stderr).stream_output);
        assert(alike_but_for_streaming(streamed.after(event), buffered.after(event)));
    }
}

/// Whether a conversion gives the same text for the same bytes, and no text for no
/// bytes.
pub open spec fn converts<F: Fn(&Vec<u8>) -> String>(text: F) -> bool {
    &&& forall|a: &Vec<u8>, b: &Vec<u8>, s: String, t: String|
        #[trigger] call_ensures(text, (a,), s) && #[trigger] call_ensures(text, (b,), t) && a@
            == b@ ==> s@ == t@
    &&& forall|a: &Vec<u8>, s: String|
        #[trigger] call_ensures(text, (a,), s) && a@.len() == 0 ==> s@.len() == 0
}

/// Streaming changes the texts of the answer alone. Of two commands that have come
/// equally far, the streaming one is answered with empty texts; the exit code and
/// all that a sandbox denial is recognised by are the same for both.
pub proof fn law_streaming_changes_the_texts_alone<F: Fn(&Vec<u8>) -> String>(
    streamed: CommandView,
    buffered: CommandView,
    streamed_run: FinishedRun,
    buffered_run: FinishedRun,
    text: F,
)
    requires
        alike_but_for_streaming(streamed, buffered),
        converts(text),
        concludes(streamed_run, streamed, text),
        concludes(buffered_run, buffered, text),
    ensures
        streamed_run.out().response_text@.len() == 0,
        streamed_run.err().response_text@.len() == 0,
        streamed_run.code() == buffered_run.code(),
        streamed_run.ran_out_of_time() == buffered_run.ran_out_of_time(),
        streamed_run.out().detection_text@ == buffered_run.out().detection_text@,
        streamed_run.err().detection_text@ == buffered_run.err().detection_text@,
{
    lemma_alike_texts(
        streamed,
        buffered,
        CommandExecOutputStream::Stdout,
        streamed_run.out(),
        buffered_run.out(),
        text,
    );
    lemma_alike_texts(
        streamed,
        buffered,
        CommandExecOutputStream::Stderr,
        streamed_run.err(),
        buffered_run.err(),
        text,
    );
}

proof fn lemma_alike_texts<F: Fn(&Vec<u8>) -> String>(
    streamed: CommandView,
    buffered: CommandView,
    stream: CommandExecOutputStream,
    one: CapturedOutput,
    other: CapturedOutput,
    text: F,
)
    requires
        alike_but_for_streaming(streamed, buffered),
        converts(text),
        are_texts_of_capture(
            one,
            streamed.output.capture(stream),
            streamed.output.end(stream),
            text,
        ),
        are_texts_of_capture(
            other,
            buffered.output.capture(stream),
            buffered.output.end(stream),
            text,
        ),
    ensures
        one.response_text@.len() == 0,
        one.detection_text@ == other.detection_text@,
{
    let a = choose|bytes: Option<CapturedBytes>| #[trigger]
        holds_capture(bytes, streamed.output.capture(stream), streamed.output.end(stream))
            && are_texts_of(one, bytes, text);
    let b = choose|bytes: Option<CapturedBytes>| #[trigger]
        holds_capture(bytes, buffered.output.capture(stream), buffered.output.end(stream))
            && are_texts_of(other, bytes, text);
    assert(holds_capture(a, streamed.output.capture(stream), streamed.output.end(stream)));
    assert(holds_capture(b, buffered.output.capture(stream), buffered.output.end(stream)));
    if a is None {
        assert(one.detection_text@ =~= other.detection_text@);
    }
}

/// The answer to a command has the id of its request, and the tag, the exit code and
/// the whole texts of its outcome.
pub proof fn law_answers_carry_the_outcome(
    id: RequestIdView,
    sandbox_denied: bool,
    exit_code: i32,
    stdout: Seq<char>,
    stderr: Seq<char>,
)
    ensures
        answer(id, sandbox_denied, exit_code, stdout, stderr) matches MessageView::Response {
            id: own,
            result,
        } && {
            &&& own == id
            &&& member_names(result) == seq!["type"@, "exitCode"@, "stdout"@, "stderr"@]
            &&& sandbox_denied ==> has_member(
                result,
                "type"@,
                FieldValueView::Text("sandboxDenied"@),
            )
            &&& !sandbox_denied ==> has_member(
                result,
                "type"@,
                FieldValueView::Text("completed"@),
            )
            &&& has_member(result, "exitCode"@, FieldValueView::Number(exit_code as int))
            &&& has_member(result, "stdout"@, FieldValueView::Text(stdout))
            &&& has_member(result, "stderr"@, FieldValueView::Text(stderr))
        },
{
    let result = answer(id, sandbox_denied, exit_code, stdout, stderr)->Response_result;
    assert(member_names(result) =~= seq!["type"@, "exitCode"@, "stdout"@, "stderr"@]);
    assert(result[0].0 == "type"@ && result[1].0 == "exitCode"@);
    assert(result[2].0 == "stdout"@ && result[3].0 == "stderr"@);
}

/// What a command wrote to a stream in a series of events until the reading of the
/// stream came to its end, put together.
pub open spec fn written(events: Seq<CommandEvent>, stream: CommandExecOutputStream) -> Seq<u8>
    decreases events.len(),
{
    if events.len() == 0 {
        Seq::empty()
    } else {
        let head = events.drop_last();
        match events.last() {
            CommandEvent::Output { stream: own, chunk } if own == stream && !was_ended(
                head,
                stream,
            ) => written(head, stream) + chunk,
            _ => written(head, stream),
        }
    }
}

/// Whether a command wrote to a stream at all.
pub open spec fn wrote(events: Seq<CommandEvent>, stream: CommandExecOutputStream) -> bool {
    exists|i: int|
        0 <= i < events.len() && (#[trigger] events[i] matches CommandEvent::Output {
            stream: own,
            ..
        } && own == stream)
}

/// Whether the reading of a stream came to an end in a series of events.
pub open spec fn was_ended(events: Seq<CommandEvent>, stream: CommandExecOutputStream) -> bool {
    exists|i: int|
        0 <= i < events.len() && (#[trigger] events[i] matches CommandEvent::StreamEnd {
            stream: own,
            ..
        } && own == stream)
}

/// What happened to the process of a command in a series of events.
pub open spec fn run_events(events: Seq<CommandEvent>) -> Seq<RunEvent>
    decreases events.len(),
{
    if events.len() == 0 {
        Seq::empty()
    } else {
        match events.last() {
            CommandEvent::Run(event) => run_events(events.drop_last()).push(event),
            _ => run_events(events.drop_last()),
        }
    }
}

proof fn lemma_streams_keep_their_place(
    request_id: RequestIdView,
    process_id: Option<Seq<char>>,
    stream_stdin: bool,
    stream_output: bool,
    output_bytes_cap: Option<usize>,
    events: Seq<CommandEvent>,
    stream: CommandExecOutputStream,
)
    ensures
        ({
            let start = CommandView::started(
                request_id,
                process_id,
                stream_stdin,
                stream_output,
                output_bytes_cap,
            );
            let capture = command_after(start, events).output.capture(stream);
            &&& capture.stream == stream
            &&& capture.process_id == process_id
            &&& capture.stream_output == stream_output
            &&& capture.output_bytes_cap == output_bytes_cap
            &&& capture.wf()
        }),
    decreases events.len(),
{
    if events.len() > 0 {
        let head = events.drop_last();
        lemma_streams_keep_their_place(
            request_id,
            process_id,
            stream_stdin,
            stream_output,
            output_bytes_cap,
            head,
            stream,
        );
        let start = CommandView::started(
            request_id,
            process_id,
            stream_stdin,
            stream_output,
            output_bytes_cap,
        );
        let before = command_after(start, head).output.capture(stream);
        if let CommandEvent::Output { stream: own, chunk } = events.last() {
            if own == stream {
                law_a_chunk_is_captured_as_far_as_there_is_room(before, chunk);
            }
        }
    }
}

/// Whatever happened to a streamed command before, a chunk of a stream that is still
/// read is sent in a notification that names the client's id and the very stream
/// that the chunk was written to, and that carries the base64 text of exactly the
/// captured part of that chunk.
pub proof fn law_output_is_sent_under_its_own_stream(
    request_id: RequestIdView,
    process_id: Seq<char>,
    stream_stdin: bool,
    output_bytes_cap: Option<usize>,
    events: Seq<CommandEvent>,
    stream: CommandExecOutputStream,
    chunk: Seq<u8>,
)
    ensures
        ({
            let start = CommandView::started(
                request_id,
                Some(process_id),
                stream_stdin,
                true,
                output_bytes_cap,
            );
            let command = command_after(start, events);
            let before = command.output.capture(stream).detection;
            let sent = command.message(CommandEvent::Output { stream, chunk });
            let after = command.after(CommandEvent::Output { stream, chunk });
            let captured = after.output.capture(stream).detection;
            if command.output.end(stream) == StreamEnd::Open {
                &&& before == captured.take(before.len() as int)
                &&& captured.skip(before.len() as int) == chunk.take(
                    captured.len() - before.len(),
                )
                &&& match output_bytes_cap {
                    None => captured.len() == before.len() + chunk.len(),
                    Some(cap) => captured.len() <= cap && (captured.len() == cap || captured.len()
                        == before.len() + chunk.len()),
                }
                &&& sent matches Some(MessageView::Notification { method, params }) && {
                    &&& method == "command/exec/outputDelta"@
                    &&& member_names(params) == seq![
                        "processId"@,
                        "stream"@,
                        "deltaBase64"@,
                        "capReached"@,
                    ]
                    &&& has_member(params, "processId"@, FieldValueView::Text(process_id))
                    &&& has_member(
                        params,
                        "stream"@,
                        FieldValueView::Text(
                            match stream {
                                CommandExecOutputStream::Stdout => "stdout"@,
                                CommandExecOutputStream::Stderr => "stderr"@,
                            },
                        ),
                    )
                    &&& has_member(
                        params,
                        "deltaBase64"@,
                        FieldValueView::Text(
                            base64_encoded(captured.skip(before.len() as int)),
                        ),
                    )
                    &&& has_member(
                        params,
                        "capReached"@,
                        FieldValueView::Flag(
                            output_bytes_cap matches Some(cap) && captured.len() == cap,
                        ),
                    )
                }
            } else {
                sent is None && captured == before
            }
        }),
{
    lemma_streams_keep_their_place(
        request_id,
        Some(process_id),
        stream_stdin,
        true,
        output_bytes_cap,
        events,
        stream,
    );
    let start = CommandView::started(
        request_id,
        Some(process_id),
        stream_stdin,
        true,
        output_bytes_cap,
    );
    let command = command_after(start, events);
    let capture = command.output.capture(stream);
    if command.output.end(stream) == StreamEnd::Open {
        law_a_chunk_is_captured_as_far_as_there_is_room(capture, chunk);
        law_notifications_tell_what_was_written(capture, chunk, process_id);
        let captured = capture.after(chunk).detection;
        assert(captured.take(capture.detection.len() as int) =~= capture.detection);
        assert(captured.skip(capture.detection.len() as int) =~= capture.delta(chunk));
    }
}

/// A command whose output is not streamed sends none.
pub proof fn law_buffered_output_is_not_sent(
    request_id: RequestIdView,
    process_id: Option<Seq<char>>,
    stream_stdin: bool,
    output_bytes_cap: Option<usize>,
    events: Seq<CommandEvent>,
    stream: CommandExecOutputStream,
    chunk: Seq<u8>,
)
    ensures
        command_after(
            CommandView::started(request_id, process_id, stream_stdin, false, output_bytes_cap),
            events,
        ).message(CommandEvent::Output { stream, chunk }) is None,
{
    lemma_streams_keep_their_place(
        request_id,
        process_id,
        stream_stdin,
        false,
        output_bytes_cap,
        events,
        stream,
    );
}

/// What is captured of a stream is what was written to it until its reading came to
/// an end, as far as there is room under the cap. A buffered command keeps all of that
/// for its answer, and a streamed one nothing.
pub proof fn law_captures_hold_what_was_written(
    request_id: RequestIdView,
    process_id: Option<Seq<char>>,
    stream_stdin: bool,
    stream_output: bool,
    output_bytes_cap: Option<usize>,
    events: Seq<CommandEvent>,
    stream: CommandExecOutputStream,
)
    ensures
        ({
            let start = CommandView::started(
                request_id,
                process_id,
                stream_stdin,
                stream_output,
                output_bytes_cap,
            );
            let capture = command_after(start, events).output.capture(stream);
            let whole = written(events, stream);
            &&& capture.detection.len() <= whole.len()
            &&& capture.detection == whole.take(capture.detection.len() as int)
            &&& match output_bytes_cap {
                None => capture.detection.len() == whole.len(),
                Some(cap) => capture.detection.len() == if whole.len() <= cap {
                    whole.len() as int
                } else {
                    cap as int
                },
            }
            &&& stream_output ==> capture.response.len() == 0
            &&& !stream_output ==> capture.response == capture.detection
        }),
    decreases events.len(),
{
    let start = CommandView::started(
        request_id,
        process_id,
        stream_stdin,
        stream_output,
        output_bytes_cap,
    );
    lemma_streams_keep_their_place(
        request_id,
        process_id,
        stream_stdin,
        stream_output,
        output_bytes_cap,
        events,
        stream,
    );
    let capture = command_after(start, events).output.capture(stream);
    let whole = written(events, stream);
    if events.len() == 0 {
        assert(capture.detection =~= whole.take(0));
    } else {
        let head = events.drop_last();
        law_captures_hold_what_was_written(
            request_id,
            process_id,
            stream_stdin,
            stream_output,
            output_bytes_cap,
            head,
            stream,
        );
        lemma_streams_keep_their_place(
            request_id,
            process_id,
            stream_stdin,
            stream_output,
            output_bytes_cap,
            head,
            stream,
        );
        law_a_stream_ends_when_told_or_full(
            request_id,
            process_id,
            stream_stdin,
            stream_output,
            output_bytes_cap,
            head,
            stream,
        );
        let before = command_after(start, head).output.capture(stream);
        match events.last() {
            CommandEvent::Output { stream: own, chunk } if own == stream && !was_ended(
                head,
                stream,
            ) => {
                law_a_chunk_is_captured_as_far_as_there_is_room(before, chunk);
                assert(whole == written(head, stream) + chunk);
                assert(capture.detection =~= whole.take(capture.detection.len() as int));
            },
            _ => {},
        }
    }
}

/// A stream comes to its end when its reader says so or when its cap is met, and not
/// before; it is lost exactly if its reader was.
pub proof fn law_a_stream_ends_when_told_or_full(
    request_id: RequestIdView,
    process_id: Option<Seq<char>>,
    stream_stdin: bool,
    stream_output: bool,
    output_bytes_cap: Option<usize>,
    events: Seq<CommandEvent>,
    stream: CommandExecOutputStream,
)
    ensures
        ({
            let start = CommandView::started(
                request_id,
                process_id,
                stream_stdin,
                stream_output,
                output_bytes_cap,
            );
            let output = command_after(start, events).output;
            &&& output.end(stream) == StreamEnd::Lost <==> events.contains(
                CommandEvent::StreamEnd { stream, lost: true },
            )
            &&& was_ended(events, stream) ==> output.end(stream) != StreamEnd::Open
            &&& !was_ended(events, stream) ==> (output.end(stream) != StreamEnd::Open <==> wrote(
                events,
                stream,
            ) && (output_bytes_cap matches Some(cap) && output.capture(stream).detection.len()
                == cap))
        }),
    decreases events.len(),
{
    let start = CommandView::started(
        request_id,
        process_id,
        stream_stdin,
        stream_output,
        output_bytes_cap,
    );
    if events.len() > 0 {
        let head = events.drop_last();
        law_a_stream_ends_when_told_or_full(
            request_id,
            process_id,
            stream_stdin,
            stream_output,
            output_bytes_cap,
            head,
            stream,
        );
        lemma_streams_keep_their_place(
            request_id,
            process_id,
            stream_stdin,
            stream_output,
            output_bytes_cap,
            head,
            stream,
        );
        let before = command_after(start, head).output;
        let last = events.last();
        assert(events[events.len() - 1] == last);
        let loss = CommandEvent::StreamEnd { stream, lost: true };
        assert(events.contains(loss) <==> head.contains(loss) || last == loss) by {
            if head.contains(loss) {
                let i = head.index_of(loss);
                assert(events[i] == loss);
            }
            if events.contains(loss) {
                let i = events.index_of(loss);
                if i < head.len() {
                    assert(head[i] == loss);
                }
            }
        }
        if was_ended(head, stream) {
            let i = choose|i: int|
                0 <= i < head.len() && (#[trigger] head[i] matches CommandEvent::StreamEnd {
                    stream: own,
                    ..
                } && own == stream);
            assert(events[i] == head[i]);
        }
        if wrote(head, stream) {
            let i = choose|i: int|
                0 <= i < head.len() && (#[trigger] head[i] matches CommandEvent::Output {
                    stream: own,
                    ..
                } && own == stream);
            assert(events[i] == head[i]);
        }
        if was_ended(events, stream) {
            let i = choose|i: int|
                0 <= i < events.len() && (#[trigger] events[i] matches CommandEvent::StreamEnd {
                    stream: own,
                    ..
                } && own == stream);
            if i < head.len() {
                assert(head[i] == events[i]);
            }
        }
        if wrote(events, stream) {
            let i = choose|i: int|
                0 <= i < events.len() && (#[trigger] events[i] matches CommandEvent::Output {
                    stream: own,
                    ..
                } && own == stream);
            if i < head.len() {
                assert(head[i] == events[i]);
            }
        }
        if let CommandEvent::Output { stream: own, chunk } = last {
            if own == stream {
                law_a_chunk_is_captured_as_far_as_there_is_room(before.capture(stream), chunk);
            }
        }
    }
}

/// A command comes to the exit code that what happened to its process gives, whatever
/// it wrote meanwhile.
pub proof fn law_output_does_not_change_the_run(start: CommandView, events: Seq<CommandEvent>)
    ensures
        command_after(start, events).run == run_after(start.run, run_events(events)),
    decreases events.len(),
{
    if events.len() > 0 {
        law_output_does_not_change_the_run(start, events.drop_last());
        if let CommandEvent::Run(event) = events.last() {
            let ran = run_events(events.drop_last());
            assert(ran.push(event).drop_last() =~= ran);
        }
    }
}

/// A command can be answered exactly when it has exited and both of its streams have
/// come to their end, unless it was answered.
pub proof fn law_answers_wait_for_the_exit_and_both_streams(
    command: CommandView,
    sandbox_denied: bool,
    stdout: Seq<char>,
    stderr: Seq<char>,
)
    ensures
        command.message(CommandEvent::Answer { sandbox_denied, stdout, stderr }) is Some <==> {
            &&& !command.answered
            &&& command.run.ended is Some
            &&& command.output.end(CommandExecOutputStream::Stdout) != StreamEnd::Open
            &&& command.output.end(CommandExecOutputStream::Stderr) != StreamEnd::Open
        },
{
}

/// The texts of the answer come from what was kept of their own stream, and those by
/// which a denial is recognised from all that was captured of it; where the reader
/// of a stream was lost, its texts are empty.
pub proof fn law_texts_come_from_their_own_stream<F: Fn(&Vec<u8>) -> String>(
    command: CommandView,
    finished: FinishedRun,
    text: F,
)
    requires
        concludes(finished, command, text),
    ensures
        are_stream_texts(finished.out(), command, CommandExecOutputStream::Stdout, text),
        are_stream_texts(finished.err(), command, CommandExecOutputStream::Stderr, text),
{
    lemma_stream_texts(finished.out(), command, CommandExecOutputStream::Stdout, text);
    lemma_stream_texts(finished.err(), command, CommandExecOutputStream::Stderr, text);
}

/// Whether texts were converted from the bytes of a stream of a command.
pub open spec fn are_stream_texts<F: Fn(&Vec<u8>) -> String>(
    output: CapturedOutput,
    command: CommandView,
    stream: CommandExecOutputStream,
    text: F,
) -> bool {
    if command.output.end(stream) == StreamEnd::Lost {
        output.response_text@.len() == 0 && output.detection_text@.len() == 0
    } else {
        exists|kept: Vec<u8>, captured: Vec<u8>|
            kept@ == command.output.capture(stream).response && captured@
                == command.output.capture(stream).detection && #[trigger] call_ensures(
                text,
                (&kept,),
                output.response_text,
            ) && #[trigger] call_ensures(text, (&captured,), output.detection_text)
    }
}

proof fn lemma_stream_texts<F: Fn(&Vec<u8>) -> String>(
    output: CapturedOutput,
    command: CommandView,
    stream: CommandExecOutputStream,
    text: F,
)
    requires
        are_texts_of_capture(
            output,
            command.output.capture(stream),
            command.output.end(stream),
            text,
        ),
    ensures
        are_stream_texts(output, command, stream, text),
{
    let bytes = choose|bytes: Option<CapturedBytes>| #[trigger]
        holds_capture(bytes, command.output.capture(stream), command.output.end(stream))
            && are_texts_of(output, bytes, text);
    assert(holds_capture(bytes, command.output.capture(stream), command.output.end(stream)));
    if let Some(captured) = bytes {
        assert(call_ensures(text, (&captured.response,), output.response_text));
        assert(call_ensures(text, (&captured.detection,), output.detection_text));
    }
}

/// Whether this is what a denial of a finished run is recognised by.
pub open spec fn detects(output: DetectionOutput, finished: FinishedRun) -> bool {
    &&& output.exit_code == finished.code()
    &&& output.stdout@ == finished.out().detection_text@
    &&& output.stderr@ == finished.err().detection_text@
    &&& output.aggregated_output@ == finished.out().detection_text@
        + finished.err().detection_text@
    &&& output.timed_out == finished.ran_out_of_time()
}

/// The answer to the request of a finished run.
pub open spec fn reply_of(finished: FinishedRun, sandbox_denied: bool) -> MessageView {
    answer(
        finished.id(),
        sandbox_denied,
        finished.code(),
        finished.out().response_text@,
        finished.err().response_text@,
    )
}

/// A denial is recognised by the exit code of the command, by whether it ran out of
/// time, and by all that was captured of its streams: each on its own, and both
/// together with the standard output first.
pub proof fn law_denials_are_recognised_by_the_whole_course<F: Fn(&Vec<u8>) -> String>(
    command: CommandView,
    finished: FinishedRun,
    output: DetectionOutput,
    text: F,
)
    requires
        concludes(finished, command, text),
        detects(output, finished),
    ensures
        command.run.ended == Some(output.exit_code),
        output.timed_out <==> command.run.expiration_outcome == Some(
            ExecExpirationOutcome::TimedOut,
        ),
        is_stream_text(output.stdout, command, CommandExecOutputStream::Stdout, text),
        is_stream_text(output.stderr, command, CommandExecOutputStream::Stderr, text),
        output.aggregated_output@ == output.stdout@ + output.stderr@,
{
    law_texts_come_from_their_own_stream(command, finished, text);
    lemma_stream_text(
        finished.out(),
        output.stdout,
        command,
        CommandExecOutputStream::Stdout,
        text,
    );
    lemma_stream_text(
        finished.err(),
        output.stderr,
        command,
        CommandExecOutputStream::Stderr,
        text,
    );
}

/// Whether a text was converted from all that was captured of a stream.
pub open spec fn is_stream_text<F: Fn(&Vec<u8>) -> String>(
    converted: String,
    command: CommandView,
    stream: CommandExecOutputStream,
    text: F,
) -> bool {
    if command.output.end(stream) == StreamEnd::Lost {
        converted@.len() == 0
    } else {
        exists|captured: Vec<u8>, same: String|
            captured@ == command.output.capture(stream).detection && #[trigger] call_ensures(
                text,
                (&captured,),
                same,
            ) && same@ == converted@
    }
}

proof fn lemma_stream_text<F: Fn(&Vec<u8>) -> String>(
    output: CapturedOutput,
    converted: String,
    command: CommandView,
    stream: CommandExecOutputStream,
    text: F,
)
    requires
        are_stream_texts(output, command, stream, text),
        converted@ == output.detection_text@,
    ensures
        is_stream_text(converted, command, stream, text),
{
    if command.output.end(stream) != StreamEnd::Lost {
        let (kept, captured) = choose|kept: Vec<u8>, captured: Vec<u8>|
            kept@ == command.output.capture(stream).response && captured@
                == command.output.capture(stream).detection && #[trigger] call_ensures(
                text,
                (&kept,),
                output.response_text,
            ) && #[trigger] call_ensures(text, (&captured,), output.detection_text);
        assert(call_ensures(text, (&captured,), output.detection_text));
    }
}

/// Whatever happened to a command since its start, its answer has the id of the
/// request that started it, the exit code that it came to, and in their own places
/// the texts of its two streams.
pub proof fn law_a_finished_run_is_answered_in_full<F: Fn(&Vec<u8>) -> String>(
    request_id: RequestIdView,
    process_id: Option<Seq<char>>,
    stream_stdin: bool,
    stream_output: bool,
    output_bytes_cap: Option<usize>,
    events: Seq<CommandEvent>,
    finished: FinishedRun,
    text: F,
    sandbox_denied: bool,
)
    requires
        concludes(
            finished,
            command_after(
                CommandView::started(
                    request_id,
                    process_id,
                    stream_stdin,
                    stream_output,
                    output_bytes_cap,
                ),
                events,
            ),
            text,
        ),
    ensures
        reply_of(finished, sandbox_denied) matches MessageView::Response { id, result } && {
            &&& id == request_id
            &&& member_names(result) == seq!["type"@, "exitCode"@, "stdout"@, "stderr"@]
            &&& sandbox_denied ==> has_member(
                result,
                "type"@,
                FieldValueView::Text("sandboxDenied"@),
            )
            &&& !sandbox_denied ==> has_member(
                result,
                "type"@,
                FieldValueView::Text("completed"@),
            )
            &&& run_after(RunView::started(stream_stdin), run_events(events)).ended matches Some(
                code,
            ) && has_member(result, "exitCode"@, FieldValueView::Number(code as int))
            &&& has_member(
                result,
                "stdout"@,
                FieldValueView::Text(finished.out().response_text@),
            )
            &&& has_member(
                result,
                "stderr"@,
                FieldValueView::Text(finished.err().response_text@),
            )
        },
{
    let start = CommandView::started(
        request_id,
        process_id,
        stream_stdin,
        stream_output,
        output_bytes_cap,
    );
    lemma_id_stays(start, events, events.len() as int);
    assert(events.take(events.len() as int) =~= events);
    law_output_does_not_change_the_run(start, events);
    law_answers_carry_the_outcome(
        finished.id(),
        sandbox_denied,
        finished.code(),
        finished.out().response_text@,
        finished.err().response_text@,
    );
}

/// Whether a text was converted from these bytes.
pub open spec fn is_text_of<F: Fn(&Vec<u8>) -> String>(
    converted: String,
    bytes: Seq<u8>,
    text: F,
) -> bool {
    exists|given: Vec<u8>| #[trigger] call_ensures(text, (&given,), converted) && given@ == bytes
}

/// The answer of a command whose output is not streamed repeats of each stream what
/// was written to it, as far as the cap allows.
pub proof fn law_buffered_answers_repeat_what_was_written<F: Fn(&Vec<u8>) -> String>(
    request_id: RequestIdView,
    process_id: Option<Seq<char>>,
    stream_stdin: bool,
    output_bytes_cap: Option<usize>,
    events: Seq<CommandEvent>,
    finished: FinishedRun,
    text: F,
    stream: CommandExecOutputStream,
)
    requires
        concludes(
            finished,
            command_after(
                CommandView::started(request_id, process_id, stream_stdin, false, output_bytes_cap),
                events,
            ),
            text,
        ),
        !events.contains(CommandEvent::StreamEnd { stream, lost: true }),
    ensures
        stream == CommandExecOutputStream::Stdout ==> is_text_of(
            finished.out().response_text,
            capped(written(events, stream), output_bytes_cap),
            text,
        ),
        stream == CommandExecOutputStream::Stderr ==> is_text_of(
            finished.err().response_text,
            capped(written(events, stream), output_bytes_cap),
            text,
        ),
{
    let start = CommandView::started(
        request_id,
        process_id,
        stream_stdin,
        false,
        output_bytes_cap,
    );
    let command = command_after(start, events);
    let whole = written(events, stream);
    law_captures_hold_what_was_written(
        request_id,
        process_id,
        stream_stdin,
        false,
        output_bytes_cap,
        events,
        stream,
    );
    law_a_stream_ends_when_told_or_full(
        request_id,
        process_id,
        stream_stdin,
        false,
        output_bytes_cap,
        events,
        stream,
    );
    law_texts_come_from_their_own_stream(command, finished, text);
    let output = match stream {
        CommandExecOutputStream::Stdout => finished.out(),
        CommandExecOutputStream::Stderr => finished.err(),
    };
    assert(are_stream_texts(output, command, stream, text));
    assert(whole.take(whole.len() as int) =~= whole);
    assert(command.output.capture(stream).response =~= capped(whole, output_bytes_cap));
    let (bytes, captured) = choose|bytes: Vec<u8>, captured: Vec<u8>|
        bytes@ == command.output.capture(stream).response && captured@ == command.output.capture(
            stream,
        ).detection && #[trigger] call_ensures(text, (&bytes,), output.response_text)
            && #[trigger] call_ensures(text, (&captured,), output.detection_text);
    assert(call_ensures(text, (&bytes,), output.response_text));
    assert(is_text_of(output.response_text, capped(whole, output_bytes_cap), text));
}

/// A command writes to a stream: what follows from it, and the command before and
/// after it.
pub open spec fn output_step(
    before: CommandView,
    stream: CommandExecOutputStream,
    chunk: Seq<u8>,
    step: CaptureStep,
    after: CommandView,
) -> bool {
    let event = CommandEvent::Output { stream, chunk };
    &&& after == before.after(event)
    &&& step.finished == (after.output.end(stream) != StreamEnd::Open)
    &&& match step.notification {
        Some(message) => Some(message@),
        None => None,
    } == before.message(event)
}

/// Whatever happened to a streamed command since its start, what it writes to a stream
/// that is still read goes out at once, under the client's id and the name of that
/// very stream, with the base64 text of exactly the bytes that were captured of it.
pub proof fn law_what_a_command_writes_goes_out(
    request_id: RequestIdView,
    process_id: Seq<char>,
    stream_stdin: bool,
    output_bytes_cap: Option<usize>,
    events: Seq<CommandEvent>,
    stream: CommandExecOutputStream,
    chunk: Seq<u8>,
    step: CaptureStep,
    after: CommandView,
)
    requires
        output_step(
            command_after(
                CommandView::started(
                    request_id,
                    Some(process_id),
                    stream_stdin,
                    true,
                    output_bytes_cap,
                ),
                events,
            ),
            stream,
            chunk,
            step,
            after,
        ),
    ensures
        ({
            let before = command_after(
                CommandView::started(
                    request_id,
                    Some(process_id),
                    stream_stdin,
                    true,
                    output_bytes_cap,
                ),
                events,
            );
            let captured = after.output.capture(stream).detection.skip(
                before.output.capture(stream).detection.len() as int,
            );
            &&& step.notification is Some <==> before.output.end(stream) == StreamEnd::Open
            &&& step.notification matches Some(message) ==> (
            message@ matches MessageView::Notification { method, params } && {
                &&& has_member(params, "processId"@, FieldValueView::Text(process_id))
                &&& stream == CommandExecOutputStream::Stdout ==> has_member(
                    params,
                    "stream"@,
                    FieldValueView::Text("stdout"@),
                )
                &&& stream == CommandExecOutputStream::Stderr ==> has_member(
                    params,
                    "stream"@,
                    FieldValueView::Text("stderr"@),
                )
                &&& has_member(
                    params,
                    "deltaBase64"@,
                    FieldValueView::Text(base64_encoded(captured)),
                )
            })
            &&& after.run == before.run
            &&& after.request_id == before.request_id
        }),
{
    law_output_is_sent_under_its_own_stream(
        request_id,
        process_id,
        stream_stdin,
        output_bytes_cap,
        events,
        stream,
        chunk,
    );
}

} // verus!
