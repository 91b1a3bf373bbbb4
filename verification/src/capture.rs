//! Capture of one output stream of a running command: the byte cap, what is
//! streamed to the client and what is kept for the final result.

use crate::external::{base64_encode, base64_encoded, decodes_to, encodable};
use crate::protocol::{
    clone_opt_text, has_member, member_names, object, opt_text, Field, FieldValue, FieldValueView,
    MessageView, ObjectView, OutgoingMessage, COMMAND_EXEC_OUTPUT_DELTA_METHOD,
};
use vstd::prelude::*;
use vstd::string::*;

verus! {

/// A chunk shorter than this is merged with output that is already waiting.
pub const OUTPUT_CHUNK_SIZE_HINT: usize = 65536;

/// Which stream some output belongs to.
#[derive(Clone, Copy, Debug, PartialEq, Eq, Structural)]
pub enum CommandExecOutputStream {
    Stdout,
    Stderr,
}

/// The wire name of a stream.
pub open spec fn stream_name(stream: CommandExecOutputStream) -> Seq<char> {
    match stream {
        CommandExecOutputStream::Stdout => "stdout"@,
        CommandExecOutputStream::Stderr => "stderr"@,
    }
}

/// The first bytes, as far as the cap allows.
pub open spec fn capped(bytes: Seq<u8>, cap: Option<usize>) -> Seq<u8> {
    match cap {
        Some(limit) => if bytes.len() <= limit {
            bytes
        } else {
            bytes.take(limit as int)
        },
        None => bytes,
    }
}

/// Whether the captured bytes have reached the cap.
pub open spec fn cap_reached(bytes: Seq<u8>, cap: Option<usize>) -> bool {
    cap matches Some(limit) && bytes.len() == limit
}

/// The parameters of a `command/exec/outputDelta` notification.
pub open spec fn delta_object(
    process_id: Seq<char>,
    stream: CommandExecOutputStream,
    delta_base64: Seq<char>,
    reached: bool,
) -> ObjectView {
    seq![
        ("processId"@, FieldValueView::Text(process_id)),
        ("stream"@, FieldValueView::Text(stream_name(stream))),
        ("deltaBase64"@, FieldValueView::Text(delta_base64)),
        ("capReached"@, FieldValueView::Flag(reached)),
    ]
}

/// The notification that carries a piece of output in its base64 form.
pub open spec fn delta_notification(
    process_id: Seq<char>,
    stream: CommandExecOutputStream,
    delta_base64: Seq<char>,
    reached: bool,
) -> MessageView {
    MessageView::Notification {
        method: COMMAND_EXEC_OUTPUT_DELTA_METHOD@,
        params: delta_object(process_id, stream, delta_base64, reached),
    }
}

/// The state of a capture.
#[verifier::ext_equal]
pub struct CaptureView {
    pub process_id: Option<Seq<char>>,
    pub stream: CommandExecOutputStream,
    pub stream_output: bool,
    pub output_bytes_cap: Option<usize>,
    /// What the final result will repeat.
    pub response: Seq<u8>,
    /// Everything that was captured, streamed or not.
    pub detection: Seq<u8>,
}

impl CaptureView {
    /// Nothing beyond the cap is captured; the final result repeats the captured
    /// bytes exactly when they are not streamed.
    pub open spec fn wf(self) -> bool {
        &&& self.detection == capped(self.detection, self.output_bytes_cap)
        &&& self.response == if self.stream_output {
            Seq::<u8>::empty()
        } else {
            self.detection
        }
    }

    /// The state after one more chunk of output.
    pub open spec fn after(self, chunk: Seq<u8>) -> CaptureView {
        let detection = capped(self.detection + chunk, self.output_bytes_cap);
        CaptureView {
            detection,
            response: if self.stream_output {
                self.response
            } else {
                detection
            },
            ..self
        }
    }

    /// The bytes of one more chunk that are captured.
    pub open spec fn delta(self, chunk: Seq<u8>) -> Seq<u8> {
        self.after(chunk).detection.skip(self.detection.len() as int)
    }

    /// The notification that is sent for one more chunk.
    pub open spec fn notification(self, chunk: Seq<u8>) -> Option<MessageView> {
        match self.process_id {
            Some(process_id) if self.stream_output => Some(
                delta_notification(
                    process_id,
                    self.stream,
                    base64_encoded(self.delta(chunk)),
                    cap_reached(self.after(chunk).detection, self.output_bytes_cap),
                ),
            ),
            _ => None,
        }
    }

    /// Whether the captured bytes still fit in memory after `len` more.
    pub open spec fn accepts(self, len: nat) -> bool {
        &&& self.output_bytes_cap is None ==> self.detection.len() + len <= usize::MAX
        &&& self.stream_output && self.process_id is Some ==> encodable(len)
    }
}

/// What follows from one chunk of output.
#[derive(Debug, Clone, PartialEq, Eq)]
pub struct CaptureStep {
    /// The notification to send.
    pub notification: Option<OutgoingMessage>,
    /// Whether the capture ends because the cap is reached.
    pub finished: bool,
}

/// The bytes of a finished capture.
#[derive(Debug, Clone, PartialEq, Eq)]
pub struct CapturedBytes {
    pub response: Vec<u8>,
    pub detection: Vec<u8>,
}

/// The texts of a finished capture.
#[derive(Debug, Clone, PartialEq, Eq)]
pub struct CapturedOutput {
    /// The text that the final result repeats.
    pub response_text: String,
    /// The text by which a sandbox denial is recognised.
    pub detection_text: String,
}

impl CapturedOutput {
    /// The capture of a stream whose reader was lost.
    pub fn empty() -> (output: Self)
        ensures
            output.response_text@ == Seq::<char>::empty(),
            output.detection_text@ == Seq::<char>::empty(),
    {
        Self { response_text: String::new(), detection_text: String::new() }
    }
}

/// Captures one output stream.
pub struct OutputCapture {
    process_id: Option<String>,
    stream: CommandExecOutputStream,
    stream_output: bool,
    output_bytes_cap: Option<usize>,
    captured: CapturedBytes,
}

impl View for OutputCapture {
    type V = CaptureView;

    closed spec fn view(&self) -> CaptureView {
        CaptureView {
            process_id: opt_text(self.process_id),
            stream: self.stream,
            stream_output: self.stream_output,
            output_bytes_cap: self.output_bytes_cap,
            response: self.captured.response@,
            detection: self.captured.detection@,
        }
    }
}

impl OutputCapture {
    /// Nothing beyond the cap is captured, and nothing that is streamed is kept for
    /// the final result.
    #[verifier::type_invariant]
    pub open spec fn stays_within_the_cap(self) -> bool {
        self@.wf()
    }

    /// A capture that has not seen any output.
    pub fn new(
        process_id: Option<String>,
        stream: CommandExecOutputStream,
        stream_output: bool,
        output_bytes_cap: Option<usize>,
    ) -> (capture: Self)
        ensures
            capture@ == (CaptureView {
                process_id: opt_text(process_id),
                stream,
                stream_output,
                output_bytes_cap,
                response: Seq::empty(),
                detection: Seq::empty(),
            }),
            capture@.wf(),
    {
        OutputCapture {
            process_id,
            stream,
            stream_output,
            output_bytes_cap,
            captured: CapturedBytes { response: Vec::new(), detection: Vec::new() },
        }
    }

    /// Whether a chunk of this length fits in memory beside what is captured.
    pub fn accepts(&self, len: usize) -> (fits: bool)
        ensures
            fits == self@.accepts(len as nat),
    {
        let fits_buffer = match self.output_bytes_cap {
            Some(_) => true,
            None => len <= usize::MAX - self.captured.detection.len(),
        };
        let fits_message = !(self.stream_output && self.process_id.is_some()) || len <= usize::MAX
            / 4;
        fits_buffer && fits_message
    }

    /// Takes in one chunk of output: captures as much of it as the cap allows,
    /// and either streams that part or keeps it for the final result.
    pub fn push(&mut self, chunk: Vec<u8>) -> (step: CaptureStep)
        requires
            old(self)@.accepts(chunk@.len()),
        ensures
            final(self)@ == old(self)@.after(chunk@),
            final(self)@.wf(),
            step.finished == cap_reached(final(self)@.detection, old(self)@.output_bytes_cap),
            match step.notification {
                Some(message) => Some(message@),
                None => None,
            } == old(self)@.notification(chunk@),
            step.notification is Some ==> decodes_to(
                base64_encoded(old(self)@.delta(chunk@)),
                old(self)@.delta(chunk@),
            ),
            chunk_step(old(self)@, chunk@, step, final(self)@),
    {
        proof {
            use_type_invariant(&*self);
        }
        let ghost before = self@;
        let mut captured = CapturedBytes { response: Vec::new(), detection: Vec::new() };
        std::mem::swap(&mut captured, &mut self.captured);
        let observed_bytes: usize = captured.detection.len();
        let capped_len: usize = match self.output_bytes_cap {
            Some(cap) => {
                let room: usize = cap.saturating_sub(observed_bytes);
                if room < chunk.len() {
                    room
                } else {
                    chunk.len()
                }
            },
            None => chunk.len(),
        };
        let mut capped_chunk = chunk;
        capped_chunk.truncate(capped_len);
        let ghost delta = capped_chunk@;
        assert(delta =~= chunk@.take(capped_len as int));
        let observed_bytes: usize = observed_bytes + capped_len;
        captured.detection.extend_from_slice(capped_chunk.as_slice());
        proof {
            assert(captured.detection@ =~= before.detection + delta);
            assert(before.detection + delta =~= before.after(chunk@).detection);
            assert(before.delta(chunk@) =~= delta);
        }
        let reached = match self.output_bytes_cap {
            Some(cap) => observed_bytes == cap,
            None => false,
        };
        let notification = if self.stream_output {
            match clone_opt_text(&self.process_id) {
                Some(process_id) => {
                    let delta_base64 = base64_encode(capped_chunk.as_slice());
                    Some(output_delta(process_id, self.stream, delta_base64, reached))
                },
                None => None,
            }
        } else {
            captured.response.extend_from_slice(capped_chunk.as_slice());
            assert(captured.response@ =~= before.after(chunk@).response);
            None
        };
        self.captured = captured;
        assert(self@ =~= before.after(chunk@));
        CaptureStep { notification, finished: reached }
    }

    /// The bytes captured so far, for the final result and for the recognition of
    /// a sandbox denial.
    pub fn finish(self) -> (bytes: CapturedBytes)
        ensures
            bytes.response@ == self@.response,
            bytes.detection@ == self@.detection,
    {
        self.captured
    }
}

/// Whether a chunk is merged with output that is already waiting.
pub open spec fn wants_more(chunk: Seq<u8>) -> bool {
    chunk.len() < OUTPUT_CHUNK_SIZE_HINT
}

/// Whether output that is already waiting is merged into the chunk before it is
/// taken in.
pub fn chunk_wants_more(chunk: &Vec<u8>) -> (more: bool)
    ensures
        more == (chunk@.len() < OUTPUT_CHUNK_SIZE_HINT),
        more == wants_more(chunk@),
{
    chunk.len() < OUTPUT_CHUNK_SIZE_HINT
}

/// The notification that carries a piece of output, given in its base64 form.
pub fn output_delta(
    process_id: String,
    stream: CommandExecOutputStream,
    delta_base64: String,
    reached: bool,
) -> (message: OutgoingMessage)
    ensures
        message@ == delta_notification(process_id@, stream, delta_base64@, reached),
{
    let name = match stream {
        CommandExecOutputStream::Stdout => "stdout",
        CommandExecOutputStream::Stderr => "stderr",
    };
    let mut params: Vec<Field> = Vec::new();
    params.push(Field { name: "processId", value: FieldValue::Text(process_id) });
    params.push(Field { name: "stream", value: FieldValue::Text(name.to_owned()) });
    params.push(Field { name: "deltaBase64", value: FieldValue::Text(delta_base64) });
    params.push(Field { name: "capReached", value: FieldValue::Flag(reached) });
    assert(object(params@) =~= delta_object(process_id@, stream, delta_base64@, reached));
    OutgoingMessage::Notification { method: COMMAND_EXEC_OUTPUT_DELTA_METHOD, params }
}

/// The state after a series of chunks.
pub open spec fn after_all(start: CaptureView, chunks: Seq<Seq<u8>>) -> CaptureView
    decreases chunks.len(),
{
    if chunks.len() == 0 {
        start
    } else {
        after_all(start, chunks.drop_last()).after(chunks.last())
    }
}

/// The captured part of each chunk of a series.
pub open spec fn deltas(start: CaptureView, chunks: Seq<Seq<u8>>) -> Seq<Seq<u8>> {
    Seq::new(
        chunks.len(),
        |i: int| after_all(start, chunks.take(i)).delta(chunks[i]),
    )
}

/// However the output of a command is cut into chunks, a capture holds exactly
/// the first bytes of the whole output, up to the cap.
pub proof fn law_capture_is_a_prefix_of_the_output(start: CaptureView, chunks: Seq<Seq<u8>>)
    requires
        start.wf(),
    ensures
        after_all(start, chunks).detection == capped(
            start.detection + chunks.flatten(),
            start.output_bytes_cap,
        ),
        after_all(start, chunks).wf(),
        after_all(start, chunks).output_bytes_cap == start.output_bytes_cap,
        after_all(start, chunks).stream_output == start.stream_output,
    decreases chunks.len(),
{
    if chunks.len() == 0 {
        assert(start.detection + chunks.flatten() =~= start.detection);
    } else {
        let head = chunks.drop_last();
        let last = chunks.last();
        law_capture_is_a_prefix_of_the_output(start, head);
        head.lemma_flatten_push(last);
        assert(head.push(last) =~= chunks);
        let whole = start.detection + chunks.flatten();
        let part = start.detection + head.flatten();
        assert(whole =~= part + last);
        assert(capped(capped(part, start.output_bytes_cap) + last, start.output_bytes_cap)
            =~= capped(whole, start.output_bytes_cap));
    }
}

/// The streamed pieces, put together in order, are exactly the captured bytes:
/// nothing is lost, repeated or sent beyond the cap.
pub proof fn law_deltas_add_up_to_the_capture(start: CaptureView, chunks: Seq<Seq<u8>>)
    requires
        start.wf(),
    ensures
        start.detection + deltas(start, chunks).flatten() == after_all(start, chunks).detection,
    decreases chunks.len(),
{
    if chunks.len() == 0 {
        assert(start.detection + deltas(start, chunks).flatten() =~= start.detection);
    } else {
        let head = chunks.drop_last();
        let last = chunks.last();
        law_deltas_add_up_to_the_capture(start, head);
        law_capture_is_a_prefix_of_the_output(start, head);
        let before = after_all(start, head);
        assert(chunks.take(chunks.len() - 1) =~= head);
        assert forall|i: int| 0 <= i < head.len() implies #[trigger] deltas(start, head)[i]
            == deltas(start, chunks)[i] by {
            assert(head.take(i) =~= chunks.take(i));
        }
        assert(deltas(start, chunks) =~= deltas(start, head).push(before.delta(last)));
        deltas(start, head).lemma_flatten_push(before.delta(last));
        assert(before.detection + before.delta(last) =~= before.after(last).detection) by {
            assert(before.after(last).detection.take(before.detection.len() as int)
                =~= before.detection);
        }
        assert(start.detection + deltas(start, chunks).flatten() =~= before.detection
            + before.delta(last));
    }
}

/// Streamed output is not repeated in the final result, and output that is not
/// streamed is there in full.
pub proof fn law_streamed_output_is_not_repeated(start: CaptureView, chunks: Seq<Seq<u8>>)
    requires
        start.wf(),
    ensures
        start.stream_output ==> after_all(start, chunks).response.len() == 0,
        !start.stream_output ==> after_all(start, chunks).response == after_all(
            start,
            chunks,
        ).detection,
{
    law_capture_is_a_prefix_of_the_output(start, chunks);
}

/// Streaming changes only what the final result repeats: of the same output under
/// the same cap, a streamed and a buffered capture hold the same bytes, which the
/// buffered one repeats and the streamed one does not.
pub proof fn law_streaming_changes_only_the_repeated_output(
    streamed: CaptureView,
    buffered: CaptureView,
    chunks: Seq<Seq<u8>>,
)
    requires
        streamed.wf(),
        buffered.wf(),
        streamed.stream_output,
        !buffered.stream_output,
        streamed.output_bytes_cap == buffered.output_bytes_cap,
        streamed.detection == buffered.detection,
    ensures
        after_all(streamed, chunks).detection == after_all(buffered, chunks).detection,
        after_all(streamed, chunks).response == Seq::<u8>::empty(),
        after_all(buffered, chunks).response == after_all(buffered, chunks).detection,
{
    law_capture_is_a_prefix_of_the_output(streamed, chunks);
    law_capture_is_a_prefix_of_the_output(buffered, chunks);
}

/// A capture never holds more than its cap.
pub proof fn law_captures_stay_within_the_cap(start: CaptureView, chunks: Seq<Seq<u8>>)
    requires
        start.wf(),
    ensures
        start.output_bytes_cap matches Some(cap) ==> after_all(start, chunks).detection.len()
            <= cap && after_all(start, chunks).response.len() <= cap,
{
    law_capture_is_a_prefix_of_the_output(start, chunks);
}

/// Once the cap is reached, further output changes nothing.
pub proof fn law_nothing_is_captured_beyond_the_cap(state: CaptureView, chunk: Seq<u8>)
    requires
        state.wf(),
        cap_reached(state.detection, state.output_bytes_cap),
    ensures
        state.after(chunk) == state,
        state.delta(chunk).len() == 0,
{
    assert(state.after(chunk).detection =~= state.detection);
    assert(state.after(chunk) =~= state);
}

/// Of a chunk its first bytes are captured, as many as there is room for under the
/// cap and all of it where there is none; nothing else about the capture changes.
pub proof fn law_a_chunk_is_captured_as_far_as_there_is_room(state: CaptureView, chunk: Seq<u8>)
    requires
        state.wf(),
    ensures
        ({
            let delta = state.delta(chunk);
            let after = state.after(chunk);
            &&& after.detection == state.detection + delta
            &&& delta.len() <= chunk.len()
            &&& delta == chunk.take(delta.len() as int)
            &&& match state.output_bytes_cap {
                None => delta.len() == chunk.len(),
                Some(cap) => {
                    &&& after.detection.len() <= cap
                    &&& delta.len() == chunk.len() || after.detection.len() == cap
                },
            }
            &&& state.stream_output ==> after.response == state.response
            &&& !state.stream_output ==> after.response == state.response + delta
            &&& after.process_id == state.process_id
            &&& after.stream == state.stream
            &&& after.stream_output == state.stream_output
            &&& after.output_bytes_cap == state.output_bytes_cap
        }),
{
    let delta = state.delta(chunk);
    let after = state.after(chunk);
    assert(after.detection.take(state.detection.len() as int) =~= state.detection);
    assert(after.detection =~= state.detection + delta);
    assert(delta =~= chunk.take(delta.len() as int));
    assert(!state.stream_output ==> after.response =~= state.response + delta);
}

/// The notification for a chunk of a streamed command names the command and the
/// stream that the chunk was written to, carries exactly the captured part of the
/// chunk, and tells whether the cap is reached with it.
pub proof fn law_notifications_tell_what_was_written(
    state: CaptureView,
    chunk: Seq<u8>,
    process_id: Seq<char>,
)
    requires
        state.process_id == Some(process_id),
        state.stream_output,
    ensures
        state.notification(chunk) matches Some(MessageView::Notification { method, params }) && {
            &&& method == "command/exec/outputDelta"@
            &&& member_names(params) == seq![
                "processId"@,
                "stream"@,
                "deltaBase64"@,
                "capReached"@,
            ]
            &&& has_member(params, "processId"@, FieldValueView::Text(process_id))
            &&& state.stream == CommandExecOutputStream::Stdout ==> has_member(
                params,
                "stream"@,
                FieldValueView::Text("stdout"@),
            )
            &&& state.stream == CommandExecOutputStream::Stderr ==> has_member(
                params,
                "stream"@,
                FieldValueView::Text("stderr"@),
            )
            &&& has_member(
                params,
                "deltaBase64"@,
                FieldValueView::Text(base64_encoded(state.delta(chunk))),
            )
            &&& has_member(
                params,
                "capReached"@,
                FieldValueView::Flag(
                    state.output_bytes_cap matches Some(cap) && state.after(chunk).detection.len()
                        == cap,
                ),
            )
        },
{
    let params = state.notification(chunk)->0->Notification_params;
    assert(member_names(params) =~= seq!["processId"@, "stream"@, "deltaBase64"@, "capReached"@]);
    assert(params[0].0 == "processId"@ && params[1].0 == "stream"@);
    assert(params[2].0 == "deltaBase64"@ && params[3].0 == "capReached"@);
}

/// Output that is not streamed, or that has no id to be streamed under, is not sent.
pub proof fn law_only_streamed_output_is_sent(state: CaptureView, chunk: Seq<u8>)
    ensures
        state.notification(chunk) is Some <==> state.stream_output && state.process_id is Some,
{
}

/// A capped capture that is not streamed takes in chunks of any length.
pub proof fn law_caps_make_room_for_any_chunk(state: CaptureView, len: nat)
    requires
        state.output_bytes_cap is Some,
        !state.stream_output || state.process_id is None,
    ensures
        state.accepts(len),
{
}

/// Only a chunk of less than 64 KiB is merged with what is already waiting.
pub proof fn law_full_chunks_are_not_merged(chunk: Seq<u8>)
    ensures
        wants_more(chunk) <==> chunk.len() < 65536,
{
}

/// A chunk is taken in wherever the captured bytes and the message that carries it fit
/// in memory.
pub proof fn law_chunks_that_fit_are_taken_in(state: CaptureView, len: nat)
    requires
        state.detection.len() + len <= usize::MAX / 4,
    ensures
        state.accepts(len),
{
}

/// A chunk is taken in: what follows from it, and the capture before and after it.
pub open spec fn chunk_step(
    before: CaptureView,
    chunk: Seq<u8>,
    step: CaptureStep,
    after: CaptureView,
) -> bool {
    &&& after == before.after(chunk)
    &&& step.finished == cap_reached(after.detection, before.output_bytes_cap)
    &&& match step.notification {
        Some(message) => Some(message@),
        None => None,
    } == before.notification(chunk)
}

/// A chunk that is taken in ends the capture exactly if the cap is reached with it,
/// and is sent exactly if the output is streamed under an id: then with the name of
/// its stream and exactly the bytes that were captured of it.
pub proof fn law_chunks_are_captured_and_sent(
    before: CaptureView,
    chunk: Seq<u8>,
    step: CaptureStep,
    after: CaptureView,
)
    requires
        before.wf(),
        chunk_step(before, chunk, step, after),
    ensures
        step.finished <==> (before.output_bytes_cap matches Some(cap) && after.detection.len()
            == cap),
        step.notification is Some <==> before.stream_output && before.process_id is Some,
        step.notification matches Some(message) ==> (message@ matches MessageView::Notification {
            method,
            params,
        } && {
            let name = match before.stream {
                CommandExecOutputStream::Stdout => "stdout"@,
                CommandExecOutputStream::Stderr => "stderr"@,
            };
            let captured = after.detection.skip(before.detection.len() as int);
            &&& has_member(params, "processId"@, FieldValueView::Text(before.process_id->0))
            &&& has_member(params, "stream"@, FieldValueView::Text(name))
            &&& has_member(params, "deltaBase64"@, FieldValueView::Text(base64_encoded(captured)))
            &&& has_member(params, "capReached"@, FieldValueView::Flag(step.finished))
        }),
{
    if before.stream_output && before.process_id is Some {
        law_notifications_tell_what_was_written(before, chunk, before.process_id->0);
    }
}

} // verus!
