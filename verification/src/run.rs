//! The life of one process: what it is told, when it is ended and with which exit
//! code.

use crate::process::{Control, ControlView, TerminalSize};
use crate::protocol::{
    error_of, invalid_request, invalid_request_error, outcome_object, ErrorView, JSONRPCErrorError,
};
use crate::text::joined;
use vstd::prelude::*;
use vstd::string::*;

verus! {

/// The exit code of a command that ran out of time.
pub const EXEC_TIMEOUT_EXIT_CODE: i32 = 124;

/// The exit code of a command whose own is lost.
pub const LOST_EXIT_CODE: i32 = -1;

/// Why the time of a command came to an end.
#[derive(Debug, Clone, Copy, PartialEq, Eq, Structural)]
pub enum ExecExpirationOutcome {
    TimedOut,
    Cancelled,
}

/// What the session of a running command does for a control.
#[derive(Debug, Clone, PartialEq, Eq)]
pub enum ControlStep {
    /// Nothing, and the client gets the error.
    Refuse(JSONRPCErrorError),
    /// Hands the bytes to the input.
    SendInput { delta: Vec<u8>, close_stdin: bool },
    /// Closes the input.
    CloseInput,
    /// Resizes the terminal.
    Resize(TerminalSize),
    /// Asks the process to end.
    RequestTerminate,
    /// Nothing more, and the client gets a success.
    Done,
}

/// What the session does, as a mathematical value.
#[verifier::ext_equal]
pub enum ControlStepView {
    Refuse(ErrorView),
    SendInput { delta: Seq<u8>, close_stdin: bool },
    CloseInput,
    Resize(TerminalSize),
    RequestTerminate,
    Done,
}

impl View for ControlStep {
    type V = ControlStepView;

    open spec fn view(&self) -> ControlStepView {
        match *self {
            ControlStep::Refuse(error) => ControlStepView::Refuse(error@),
            ControlStep::SendInput { delta, close_stdin } => ControlStepView::SendInput {
                delta: delta@,
                close_stdin,
            },
            ControlStep::CloseInput => ControlStepView::CloseInput,
            ControlStep::Resize(size) => ControlStepView::Resize(size),
            ControlStep::RequestTerminate => ControlStepView::RequestTerminate,
            ControlStep::Done => ControlStepView::Done,
        }
    }
}

/// What a control asks of the session. Input is refused where it is not streamed.
pub open spec fn control_step(stream_stdin: bool, control: ControlView) -> ControlStepView {
    match control {
        ControlView::Write { delta, close_stdin } => if !stream_stdin {
            ControlStepView::Refuse(
                invalid_request_error("stdin streaming is not enabled for this command/exec"@),
            )
        } else if delta.len() > 0 {
            ControlStepView::SendInput { delta, close_stdin }
        } else if close_stdin {
            ControlStepView::CloseInput
        } else {
            ControlStepView::Done
        },
        ControlView::Resize { size } => ControlStepView::Resize(size),
        ControlView::Terminate => ControlStepView::RequestTerminate,
    }
}

/// What follows once the input has taken the bytes, or has not.
pub open spec fn step_after_input(accepted: bool, close_stdin: bool) -> ControlStepView {
    if !accepted {
        ControlStepView::Refuse(invalid_request_error("stdin is already closed"@))
    } else if close_stdin {
        ControlStepView::CloseInput
    } else {
        ControlStepView::Done
    }
}

/// What the session of a running command does for a control.
pub fn handle_control(stream_stdin: bool, control: Control) -> (step: ControlStep)
    ensures
        step@ == control_step(stream_stdin, control@),
{
    match control {
        Control::Write { delta, close_stdin } => {
            if !stream_stdin {
                return ControlStep::Refuse(
                    invalid_request(
                        "stdin streaming is not enabled for this command/exec".to_owned(),
                    ),
                );
            }
            if delta.len() > 0 {
                return ControlStep::SendInput { delta, close_stdin };
            }
            if close_stdin {
                ControlStep::CloseInput
            } else {
                ControlStep::Done
            }
        },
        Control::Resize { size } => ControlStep::Resize(size),
        Control::Terminate => ControlStep::RequestTerminate,
    }
}

/// What the session does after it has tried to hand bytes to the input.
pub fn input_sent(accepted: bool, close_stdin: bool) -> (step: ControlStep)
    ensures
        step@ == step_after_input(accepted, close_stdin),
{
    if !accepted {
        return ControlStep::Refuse(invalid_request("stdin is already closed".to_owned()));
    }
    if close_stdin {
        ControlStep::CloseInput
    } else {
        ControlStep::Done
    }
}

/// The answer to a resize, by what the terminal reported.
pub fn terminal_resized(report: Result<(), String>) -> (result: Result<(), JSONRPCErrorError>)
    ensures
        error_of(result) == match report {
            Ok(_) => None,
            Err(reason) => Some(invalid_request_error("failed to resize PTY: "@ + reason@)),
        },
        error_of(result) == resize_failure(report),
{
    match report {
        Ok(_) => Ok(()),
        Err(reason) => Err(invalid_request(joined("failed to resize PTY: ", reason.as_str()))),
    }
}

/// What happens to a running command.
pub enum RunEvent {
    /// It is told something.
    Control(Control),
    /// Nothing will be told any more.
    ControlClosed,
    /// Its time came to an end.
    Expired(ExecExpirationOutcome),
    /// It exited; without a code if that is lost.
    Exited(Option<i32>),
}

/// What follows from an event.
#[derive(Debug, Clone, PartialEq, Eq)]
pub struct RunStep {
    /// Whether the command's work outside the process is cancelled.
    pub cancel_execution: bool,
    /// Whether the process is asked to end.
    pub request_terminate: bool,
    /// What the session does.
    pub control: Option<ControlStep>,
    /// The exit code of a command that has ended.
    pub exit_code: Option<i32>,
}

/// Whether an event can happen: a closed control channel delivers nothing, time
/// ends once, and nothing happens to a command that has exited.
pub open spec fn possible(run: RunView, event: RunEvent) -> bool {
    &&& run.ended is None
    &&& match event {
        RunEvent::Control(_) => run.control_open,
        RunEvent::ControlClosed => run.control_open,
        RunEvent::Expired(_) => run.expiration_outcome is None,
        RunEvent::Exited(_) => true,
    }
}

/// The state of a running command.
pub struct RunView {
    pub stream_stdin: bool,
    pub control_open: bool,
    pub expiration_outcome: Option<ExecExpirationOutcome>,
    /// The exit code that is answered, once the command has exited.
    pub ended: Option<i32>,
}

impl RunView {
    /// The state of a command that has just started.
    pub open spec fn started(stream_stdin: bool) -> RunView {
        RunView { stream_stdin, control_open: true, expiration_outcome: None, ended: None }
    }

    /// The state after an event.
    pub open spec fn after(self, event: RunEvent) -> RunView {
        match event {
            RunEvent::ControlClosed => RunView { control_open: false, ..self },
            RunEvent::Expired(outcome) => RunView { expiration_outcome: Some(outcome), ..self },
            RunEvent::Exited(exit) => RunView { ended: Some(self.exit_code(exit)), ..self },
            RunEvent::Control(_) => self,
        }
    }

    /// Whether the command ran out of time.
    pub open spec fn timed_out(self) -> bool {
        self.expiration_outcome == Some(ExecExpirationOutcome::TimedOut)
    }

    /// The exit code that is answered.
    pub open spec fn exit_code(self, exit: Option<i32>) -> i32 {
        if self.timed_out() {
            EXEC_TIMEOUT_EXIT_CODE
        } else {
            match exit {
                Some(code) => code,
                None => LOST_EXIT_CODE,
            }
        }
    }
}

/// Whether an event ends the work that a command has going outside its process.
pub open spec fn cancels(event: RunEvent) -> bool {
    match event {
        RunEvent::Control(control) => control is Terminate,
        _ => true,
    }
}

/// A running command.
pub struct ProcessRun {
    stream_stdin: bool,
    control_open: bool,
    expiration_outcome: Option<ExecExpirationOutcome>,
    ended: Option<i32>,
}

impl View for ProcessRun {
    type V = RunView;

    closed spec fn view(&self) -> RunView {
        RunView {
            stream_stdin: self.stream_stdin,
            control_open: self.control_open,
            expiration_outcome: self.expiration_outcome,
            ended: self.ended,
        }
    }
}

impl ProcessRun {
    /// A command that has just started.
    pub fn new(stream_stdin: bool) -> (run: Self)
        ensures
            run@ == RunView::started(stream_stdin),
    {
        ProcessRun { stream_stdin, control_open: true, expiration_outcome: None, ended: None }
    }

    /// Whether controls are still awaited.
    pub fn control_open(&self) -> (open: bool)
        ensures
            open == self@.control_open,
    {
        self.control_open
    }

    /// Whether the end of its time is still awaited.
    pub fn awaits_expiration(&self) -> (awaits: bool)
        ensures
            awaits == (self@.expiration_outcome is None),
    {
        self.expiration_outcome.is_none()
    }

    /// Takes in an event.
    pub fn handle_event(&mut self, event: RunEvent) -> (step: RunStep)
        ensures
            final(self)@ == old(self)@.after(event),
            step.cancel_execution == cancels(event),
            step.request_terminate == (event is ControlClosed || event is Expired),
            step.request_terminate == ends_process(event),
            match event {
                RunEvent::Control(control) => step.control matches Some(action) && action@
                    == control_step(old(self)@.stream_stdin, control@),
                _ => step.control is None,
            },
            step.exit_code == match event {
                RunEvent::Exited(exit) => Some(old(self)@.exit_code(exit)),
                _ => None,
            },
            follows(old(self)@, event, step, final(self)@),
    {
        match event {
            RunEvent::Control(control) => {
                let cancel_execution = match &control {
                    Control::Terminate => true,
                    _ => false,
                };
                RunStep {
                    cancel_execution,
                    request_terminate: false,
                    control: Some(handle_control(self.stream_stdin, control)),
                    exit_code: None,
                }
            },
            RunEvent::ControlClosed => {
                self.control_open = false;
                RunStep {
                    cancel_execution: true,
                    request_terminate: true,
                    control: None,
                    exit_code: None,
                }
            },
            RunEvent::Expired(outcome) => {
                self.expiration_outcome = Some(outcome);
                RunStep {
                    cancel_execution: true,
                    request_terminate: true,
                    control: None,
                    exit_code: None,
                }
            },
            RunEvent::Exited(exit) => {
                let exit_code: i32 = match self.expiration_outcome {
                    Some(ExecExpirationOutcome::TimedOut) => EXEC_TIMEOUT_EXIT_CODE,
                    _ => match exit {
                        Some(code) => code,
                        None => LOST_EXIT_CODE,
                    },
                };
                self.ended = Some(exit_code);
                RunStep {
                    cancel_execution: true,
                    request_terminate: false,
                    control: None,
                    exit_code: Some(exit_code),
                }
            },
        }
    }

    /// The exit code that is answered, once the command has exited.
    pub fn exit_code(&self) -> (code: Option<i32>)
        ensures
            code == self@.ended,
    {
        self.ended
    }

    /// Whether the command ran out of time.
    pub fn timed_out(&self) -> (timed_out: bool)
        ensures
            timed_out == self@.timed_out(),
    {
        match self.expiration_outcome {
            Some(ExecExpirationOutcome::TimedOut) => true,
            _ => false,
        }
    }
}

/// The state after a series of events.
pub open spec fn run_after(start: RunView, events: Seq<RunEvent>) -> RunView
    decreases events.len(),
{
    if events.len() == 0 {
        start
    } else {
        run_after(start, events.drop_last()).after(events.last())
    }
}

/// Whether each event of a series can happen where it stands.
pub open spec fn possible_series(start: RunView, events: Seq<RunEvent>) -> bool
    decreases events.len(),
{
    events.len() == 0 || possible_series(start, events.drop_last()) && possible(
        run_after(start, events.drop_last()),
        events.last(),
    )
}

/// A command ran out of time exactly if a timeout is among the events before its
/// exit; whatever the process reports then, its exit code is that of a timeout.
pub proof fn law_timeouts_decide_the_exit_code(
    stream_stdin: bool,
    events: Seq<RunEvent>,
    exit: Option<i32>,
)
    requires
        possible_series(RunView::started(stream_stdin), events),
    ensures
        run_after(RunView::started(stream_stdin), events).timed_out() <==> events.contains(
            RunEvent::Expired(ExecExpirationOutcome::TimedOut),
        ),
        events.contains(RunEvent::Expired(ExecExpirationOutcome::TimedOut)) ==> run_after(
            RunView::started(stream_stdin),
            events,
        ).exit_code(exit) == EXEC_TIMEOUT_EXIT_CODE,
        !events.contains(RunEvent::Expired(ExecExpirationOutcome::TimedOut)) ==> run_after(
            RunView::started(stream_stdin),
            events,
        ).exit_code(exit) == match exit {
            Some(code) => code,
            None => LOST_EXIT_CODE,
        },
        run_after(
            RunView::started(stream_stdin),
            events.push(RunEvent::Exited(exit)),
        ).ended == Some(run_after(RunView::started(stream_stdin), events).exit_code(exit)),
{
    lemma_expiration_is_recorded(RunView::started(stream_stdin), events);
    assert(events.push(RunEvent::Exited(exit)).drop_last() =~= events);
}

proof fn lemma_expiration_is_recorded(start: RunView, events: Seq<RunEvent>)
    requires
        start.expiration_outcome is None,
        possible_series(start, events),
    ensures
        match run_after(start, events).expiration_outcome {
            Some(outcome) => events.contains(RunEvent::Expired(outcome)) && forall|
                other: ExecExpirationOutcome,
            |
                #[trigger] events.contains(RunEvent::Expired(other)) ==> other == outcome,
            None => forall|other: ExecExpirationOutcome|
                !#[trigger] events.contains(RunEvent::Expired(other)),
        },
    decreases events.len(),
{
    if events.len() > 0 {
        let head = events.drop_last();
        lemma_expiration_is_recorded(start, head);
        assert(events =~= head.push(events.last()));
        assert forall|event: RunEvent| #[trigger]
            events.contains(event) implies head.contains(event) || event == events.last() by {
            let i = events.index_of(event);
            if i < head.len() {
                assert(head[i] == event);
            }
        }
        assert forall|event: RunEvent| #[trigger] head.contains(event) implies events.contains(
            event,
        ) by {
            let i = head.index_of(event);
            assert(events[i] == event);
        }
        assert(events[events.len() - 1] == events.last());
    }
}

/// Whatever ends a command also cancels what it has going outside its process,
/// such as network requests that wait for an approval: running out of time, being
/// told to end, losing its controls and exiting.
pub proof fn law_ending_a_command_cancels_its_work(event: RunEvent)
    ensures
        cancels(event) <==> match event {
            RunEvent::Control(control) => control@ == ControlView::Terminate,
            RunEvent::ControlClosed => true,
            RunEvent::Expired(_) => true,
            RunEvent::Exited(_) => true,
        },
{
}

/// A command with a nonzero exit code is answered like any other: only a
/// recognised sandbox denial changes the kind of the answer.
pub proof fn law_exit_codes_do_not_change_the_outcome_kind(
    first: int,
    second: int,
    sandbox_denied: bool,
    stdout: Seq<char>,
    stderr: Seq<char>,
)
    ensures
        outcome_object(sandbox_denied, first, stdout, stderr)[0] == outcome_object(
            sandbox_denied,
            second,
            stdout,
            stderr,
        )[0],
{
}

/// Both kinds of outcome have the same members in the same order, and the same
/// values in all of them but the tag.
pub proof fn law_outcomes_share_the_same_payload_shape(
    exit_code: int,
    stdout: Seq<char>,
    stderr: Seq<char>,
)
    ensures
        ({
            let completed = outcome_object(false, exit_code, stdout, stderr);
            let denied = outcome_object(true, exit_code, stdout, stderr);
            &&& completed.len() == denied.len()
            &&& completed[0].0 == denied[0].0
            &&& completed.skip(1) == denied.skip(1)
        }),
{
    let completed = outcome_object(false, exit_code, stdout, stderr);
    let denied = outcome_object(true, exit_code, stdout, stderr);
    assert(completed.skip(1) =~= denied.skip(1));
}

/// A command whose input is not streamed takes no input, whatever a client sends.
pub proof fn law_input_needs_streaming(delta: Seq<u8>, close_stdin: bool)
    ensures
        control_step(false, ControlView::Write { delta, close_stdin }) is Refuse,
        control_step(true, ControlView::Write { delta, close_stdin }) !is Refuse,
{
}

/// Whether or not its input is streamed, a resize makes the session of a command
/// resize the terminal to exactly the requested size, and a termination makes it
/// ask the process to end.
pub proof fn law_resizes_and_terminations_are_carried_out(stream_stdin: bool, size: TerminalSize)
    ensures
        control_step(stream_stdin, ControlView::Resize { size }) matches ControlStepView::Resize(
            carried_out,
        ) && carried_out.rows == size.rows && carried_out.cols == size.cols,
        control_step(stream_stdin, ControlView::Terminate) is RequestTerminate,
{
}

/// With a streamed input, a write hands exactly its bytes to the input, and closes
/// the input afterwards exactly where that is asked for; without bytes it only does
/// the latter.
pub proof fn law_writes_are_carried_out(delta: Seq<u8>, close_stdin: bool)
    ensures
        delta.len() > 0 ==> (control_step(true, ControlView::Write { delta, close_stdin })
            matches ControlStepView::SendInput { delta: handed, close_stdin: close } && handed
            == delta && close == close_stdin),
        delta.len() == 0 && close_stdin ==> control_step(
            true,
            ControlView::Write { delta, close_stdin },
        ) is CloseInput,
        delta.len() == 0 && !close_stdin ==> control_step(
            true,
            ControlView::Write { delta, close_stdin },
        ) is Done,
        step_after_input(true, true) is CloseInput,
        step_after_input(true, false) is Done,
{
}

/// Refused input is answered with the reason: that it is not streamed, or that it
/// is closed.
pub proof fn law_refused_input_is_answered(delta: Seq<u8>, close_stdin: bool)
    ensures
        control_step(false, ControlView::Write { delta, close_stdin }) matches ControlStepView::Refuse(
            error,
        ) && error.code == -32600 && error.message
            == "stdin streaming is not enabled for this command/exec"@,
        step_after_input(false, close_stdin) matches ControlStepView::Refuse(error) && error.code
            == -32600 && error.message == "stdin is already closed"@,
{
}

/// What a session does is seen with its bytes, its size and its error.
pub proof fn law_session_steps_are_seen_whole(step: ControlStep)
    ensures
        match step {
            ControlStep::Refuse(error) => step@ == ControlStepView::Refuse(error@),
            ControlStep::SendInput { delta, close_stdin } => step@ matches ControlStepView::SendInput {
                delta: seen,
                close_stdin: close,
            } && seen == delta@ && close == close_stdin,
            ControlStep::CloseInput => step@ is CloseInput,
            ControlStep::Resize(size) => step@ == ControlStepView::Resize(size),
            ControlStep::RequestTerminate => step@ is RequestTerminate,
            ControlStep::Done => step@ is Done,
        },
{
}

/// Each event changes its own part of a run and nothing else.
pub proof fn law_events_change_their_own_part(
    run: RunView,
    control: Control,
    outcome: ExecExpirationOutcome,
    exit: Option<i32>,
)
    ensures
        run.after(RunEvent::Control(control)) == run,
        ({
            let after = run.after(RunEvent::ControlClosed);
            &&& !after.control_open
            &&& after.expiration_outcome == run.expiration_outcome
            &&& after.ended == run.ended
            &&& after.stream_stdin == run.stream_stdin
        }),
        ({
            let after = run.after(RunEvent::Expired(outcome));
            &&& after.expiration_outcome == Some(outcome)
            &&& after.control_open == run.control_open
            &&& after.ended == run.ended
            &&& after.stream_stdin == run.stream_stdin
        }),
        ({
            let after = run.after(RunEvent::Exited(exit));
            &&& run.expiration_outcome == Some(ExecExpirationOutcome::TimedOut) ==> after.ended
                == Some(124i32)
            &&& run.expiration_outcome != Some(ExecExpirationOutcome::TimedOut) && exit is Some
                ==> after.ended == exit
            &&& run.expiration_outcome != Some(ExecExpirationOutcome::TimedOut) && exit is None
                ==> after.ended == Some(-1i32)
            &&& after.expiration_outcome == run.expiration_outcome
            &&& after.control_open == run.control_open
            &&& after.stream_stdin == run.stream_stdin
        }),
{
}

/// A run starts with open controls, its time running and no exit code.
pub proof fn law_runs_start_open(stream_stdin: bool)
    ensures
        ({
            let run = RunView::started(stream_stdin);
            &&& run.stream_stdin == stream_stdin
            &&& run.control_open
            &&& run.expiration_outcome is None
            &&& run.ended is None
            &&& !run.timed_out()
        }),
{
}

/// Whether a process is asked to end by an event itself.
pub open spec fn ends_process(event: RunEvent) -> bool {
    event is ControlClosed || event is Expired
}

/// A process is asked to end when its time is over or its controls are lost, and by
/// the session when it is told to; never because it was written to, resized or has
/// exited.
pub proof fn law_processes_are_ended_for_a_reason(event: RunEvent)
    ensures
        match event {
            RunEvent::ControlClosed => ends_process(event),
            RunEvent::Expired(_) => ends_process(event),
            RunEvent::Control(_) => !ends_process(event),
            RunEvent::Exited(_) => !ends_process(event),
        },
{
}

/// What a failed resize is answered with.
pub open spec fn resize_failure(report: Result<(), String>) -> Option<ErrorView> {
    match report {
        Ok(_) => None,
        Err(reason) => Some(invalid_request_error("failed to resize PTY: "@ + reason@)),
    }
}

/// A resize is answered with an error exactly where the terminal reported one, which
/// the answer repeats.
pub proof fn law_failed_resizes_are_reported(report: Result<(), String>)
    ensures
        resize_failure(report) is None <==> report is Ok,
        report matches Err(reason) ==> (resize_failure(report) matches Some(error) && error.code
            == -32600 && error.message == "failed to resize PTY: "@ + reason@),
{
}

/// An event happens to a running command: what follows from it, and what becomes of
/// the command.
pub open spec fn follows(
    before: RunView,
    event: RunEvent,
    step: RunStep,
    after: RunView,
) -> bool {
    &&& after == before.after(event)
    &&& step.cancel_execution == cancels(event)
    &&& step.request_terminate == ends_process(event)
    &&& match event {
        RunEvent::Control(control) => step.control matches Some(action) && action@ == control_step(
            before.stream_stdin,
            control@,
        ),
        _ => step.control is None,
    }
    &&& step.exit_code == match event {
        RunEvent::Exited(exit) => Some(before.exit_code(exit)),
        _ => None,
    }
}

/// Whatever a running command was started with, its session carries out each control:
/// a resize with exactly its rows and columns, a termination, which also cancels the
/// work outside the process, and a write of bytes with exactly those where the input
/// is streamed. No control changes the state of the command.
pub proof fn law_sessions_carry_out_controls(
    before: RunView,
    control: Control,
    step: RunStep,
    after: RunView,
)
    requires
        follows(before, RunEvent::Control(control), step, after),
    ensures
        after == before,
        step.exit_code is None,
        !step.request_terminate,
        step.cancel_execution <==> control is Terminate,
        match control {
            Control::Resize { size } => step.control matches Some(ControlStep::Resize(carried_out))
                && carried_out.rows == size.rows && carried_out.cols == size.cols,
            Control::Terminate => step.control matches Some(action) && action is RequestTerminate,
            Control::Write { delta, close_stdin } => {
                &&& before.stream_stdin && delta@.len() > 0 ==> (
                step.control matches Some(ControlStep::SendInput { delta: handed, close_stdin: close })
                    && handed@ == delta@ && close == close_stdin)
                &&& before.stream_stdin && delta@.len() == 0 && close_stdin ==> (
                step.control matches Some(action) && action is CloseInput)
                &&& before.stream_stdin && delta@.len() == 0 && !close_stdin ==> (
                step.control matches Some(action) && action is Done)
                &&& !before.stream_stdin ==> (step.control matches Some(ControlStep::Refuse(error))
                    && error.code == -32600 && error.message@
                    == "stdin streaming is not enabled for this command/exec"@)
            },
        },
{
    match control {
        Control::Resize { size } => {
            assert(step.control->0@ is Resize);
        },
        Control::Terminate => {
            assert(step.control->0@ is RequestTerminate);
        },
        Control::Write { delta, close_stdin } => {
            assert(step.control->0@ == control_step(before.stream_stdin, control@));
        },
    }
}

/// The end of its time and the loss of its controls end a command and its work, and
/// its exit gives the code that is answered: that of a timeout where it ran out of
/// time, and else its own.
pub proof fn law_ends_are_noted(before: RunView, event: RunEvent, step: RunStep, after: RunView)
    requires
        follows(before, event, step, after),
        !(event is Control),
    ensures
        step.control is None,
        step.cancel_execution,
        step.request_terminate <==> event is ControlClosed || event is Expired,
        after.stream_stdin == before.stream_stdin,
        event matches RunEvent::Exited(exit) ==> {
            let ran_out = before.expiration_outcome == Some(ExecExpirationOutcome::TimedOut);
            &&& ran_out ==> step.exit_code == Some(124i32)
            &&& !ran_out && exit is Some ==> step.exit_code == exit
            &&& !ran_out && exit is None ==> step.exit_code == Some(-1i32)
            &&& after.ended == step.exit_code
        },
        !(event is Exited) ==> step.exit_code is None && after.ended == before.ended,
        event is ControlClosed ==> !after.control_open,
        event matches RunEvent::Expired(outcome) ==> after.expiration_outcome == Some(outcome),
{
}

/// Whatever happens to a command, whether its input is streamed stays as it was at its
/// start.
pub proof fn law_events_leave_the_streaming_of_input(start: RunView, events: Seq<RunEvent>)
    ensures
        run_after(start, events).stream_stdin == start.stream_stdin,
    decreases events.len(),
{
    if events.len() > 0 {
        law_events_leave_the_streaming_of_input(start, events.drop_last());
    }
}

} // verus!
