//! Running commands: their ids, how they are started, controlled and ended.

use crate::external::{
    base64_decode, base64_decoded, base64_encoded, debug_text, decoded_view, decodes_faithfully,
    json_string, json_text,
};
use crate::protocol::{
    error_of, internal_error, internal_error_view, invalid_params, invalid_params_error,
    invalid_request, invalid_request_error, opt_text, texts, ConnectionId, ErrorView,
    JSONRPCErrorError,
};
use crate::table::{
    are_values_of, law_taken_values_are_those_of_the_condition, without, Table, TableKey,
};
use crate::text::{joined, signed_decimal, signed_decimal_text};
use vstd::prelude::*;
use vstd::string::*;

verus! {

/// The id of a running command: one the client chose, or one made up for a
/// command that the client does not name.
#[derive(Debug, Clone, PartialEq, Eq)]
pub enum InternalProcessId {
    Generated(i64),
    Client(String),
}

/// A command id as a mathematical value.
#[verifier::ext_equal]
pub enum ProcessIdView {
    Generated(int),
    Client(Seq<char>),
}

impl View for InternalProcessId {
    type V = ProcessIdView;

    open spec fn view(&self) -> ProcessIdView {
        match *self {
            InternalProcessId::Generated(number) => ProcessIdView::Generated(number as int),
            InternalProcessId::Client(id) => ProcessIdView::Client(id@),
        }
    }
}

/// How an error message names a command: the number, or the client's id as a JSON
/// string.
pub open spec fn id_text(id: ProcessIdView) -> Seq<char> {
    match id {
        ProcessIdView::Generated(number) => signed_decimal(number),
        ProcessIdView::Client(id) => json_string(id),
    }
}

impl InternalProcessId {
    /// How an error message names the command.
    pub fn error_repr(&self) -> (text: String)
        ensures
            text@ == id_text(self@),
    {
        match self {
            Self::Generated(id) => signed_decimal_text(*id),
            Self::Client(id) => match json_text(id.as_str()) {
                Ok(text) => text,
                Err(_) => debug_text(id.as_str()),
            },
        }
    }

    fn duplicate(&self) -> (copy: Self)
        ensures
            copy@ == self@,
    {
        match self {
            Self::Generated(id) => Self::Generated(*id),
            Self::Client(id) => Self::Client(id.clone()),
        }
    }
}

/// A running command: the connection it belongs to and its id there.
#[derive(Debug, Clone, PartialEq, Eq)]
pub struct ConnectionProcessId {
    pub connection_id: ConnectionId,
    pub process_id: InternalProcessId,
}

/// A running command as a mathematical value.
pub type ProcessKey = (ConnectionId, ProcessIdView);

impl View for ConnectionProcessId {
    type V = ProcessKey;

    open spec fn view(&self) -> ProcessKey {
        (self.connection_id, self.process_id@)
    }
}

impl TableKey for ConnectionProcessId {
    fn same(&self, other: &Self) -> (same: bool) {
        self.connection_id == other.connection_id && match (&self.process_id, &other.process_id) {
            (InternalProcessId::Generated(a), InternalProcessId::Generated(b)) => *a == *b,
            (InternalProcessId::Client(a), InternalProcessId::Client(b)) => *a == *b,
            _ => false,
        }
    }
}

impl ConnectionProcessId {
    fn duplicate(&self) -> (copy: Self)
        ensures
            copy@ == self@,
    {
        ConnectionProcessId {
            connection_id: self.connection_id,
            process_id: self.process_id.duplicate(),
        }
    }
}

/// A terminal size as a client asks for it.
#[derive(Debug, Clone, Copy, PartialEq, Eq, Structural)]
pub struct CommandExecTerminalSize {
    pub rows: u16,
    pub cols: u16,
}

/// The size of a terminal; neither side is zero.
#[derive(Debug, Clone, Copy, PartialEq, Eq, Structural)]
pub struct TerminalSize {
    pub rows: u16,
    pub cols: u16,
}

/// What is wrong with a terminal size.
pub open spec fn size_error(size: CommandExecTerminalSize) -> Option<ErrorView> {
    if size.rows == 0 || size.cols == 0 {
        Some(invalid_params_error("command/exec size rows and cols must be greater than 0"@))
    } else {
        None
    }
}

/// Checks a terminal size.
pub fn terminal_size(size: CommandExecTerminalSize) -> (result: Result<
    TerminalSize,
    JSONRPCErrorError,
>)
    ensures
        error_of(result) == size_error(size),
        result matches Ok(checked) ==> checked.rows == size.rows && checked.cols == size.cols,
{
    if size.rows == 0 || size.cols == 0 {
        return Err(
            invalid_params("command/exec size rows and cols must be greater than 0".to_owned()),
        );
    }
    Ok(TerminalSize { rows: size.rows, cols: size.cols })
}

/// Parameters of `command/exec/write`.
pub struct CommandExecWriteParams {
    pub process_id: String,
    pub delta_base64: Option<String>,
    pub close_stdin: bool,
}

/// Parameters of `command/exec/resize`.
pub struct CommandExecResizeParams {
    pub process_id: String,
    pub size: CommandExecTerminalSize,
}

/// Parameters of `command/exec/terminate`.
pub struct CommandExecTerminateParams {
    pub process_id: String,
}

/// What a running command is told.
#[derive(Debug, Clone, PartialEq, Eq)]
pub enum Control {
    Write { delta: Vec<u8>, close_stdin: bool },
    Resize { size: TerminalSize },
    Terminate,
}

/// What a running command is told, as a mathematical value.
#[verifier::ext_equal]
pub enum ControlView {
    Write { delta: Seq<u8>, close_stdin: bool },
    Resize { size: TerminalSize },
    Terminate,
}

impl View for Control {
    type V = ControlView;

    open spec fn view(&self) -> ControlView {
        match *self {
            Control::Write { delta, close_stdin } => ControlView::Write {
                delta: delta@,
                close_stdin,
            },
            Control::Resize { size } => ControlView::Resize { size },
            Control::Terminate => ControlView::Terminate,
        }
    }
}

/// What a write request asks of the command, by the decoded bytes it carries.
pub open spec fn write_request(
    delta: Option<Result<Seq<u8>, Seq<char>>>,
    close_stdin: bool,
) -> Result<ControlView, ErrorView> {
    match delta {
        None => if close_stdin {
            Ok(ControlView::Write { delta: Seq::empty(), close_stdin })
        } else {
            Err(invalid_params_error("command/exec/write requires deltaBase64 or closeStdin"@))
        },
        Some(Err(reason)) => Err(invalid_params_error("invalid deltaBase64: "@ + reason)),
        Some(Ok(bytes)) => Ok(ControlView::Write { delta: bytes, close_stdin }),
    }
}

/// The decoding of an optional base64 text.
pub open spec fn delta_decoded(delta_base64: Option<Seq<char>>) -> Option<
    Result<Seq<u8>, Seq<char>>,
> {
    match delta_base64 {
        Some(text) => Some(base64_decoded(text)),
        None => None,
    }
}

/// Makes the control of a write request from the decoding of its bytes; a failed
/// decoding comes with its reason.
pub fn write_control(delta: Option<Result<Vec<u8>, String>>, close_stdin: bool) -> (result: Result<
    Control,
    JSONRPCErrorError,
>)
    ensures
        ({
            let decoded = match delta {
                Some(decoding) => Some(decoded_view(decoding)),
                None => None,
            };
            match write_request(decoded, close_stdin) {
                Ok(control) => result matches Ok(made) && made@ == control,
                Err(error) => error_of(result) == Some(error),
            }
        }),
{
    match delta {
        None => {
            if !close_stdin {
                return Err(
                    invalid_params(
                        "command/exec/write requires deltaBase64 or closeStdin".to_owned(),
                    ),
                );
            }
            Ok(Control::Write { delta: Vec::new(), close_stdin })
        },
        Some(Err(reason)) => Err(invalid_params(joined("invalid deltaBase64: ", reason.as_str()))),
        Some(Ok(bytes)) => Ok(Control::Write { delta: bytes, close_stdin }),
    }
}

/// A control on its way to a running command.
#[derive(Debug, Clone, PartialEq, Eq)]
pub struct ControlOrder {
    /// The command it is for.
    pub key: ConnectionProcessId,
    pub control: Control,
    /// Whether the command's work outside the process is cancelled right away.
    pub cancel_execution: bool,
}

/// Whether an order carries a control to the named command of a connection.
pub open spec fn orders(
    order: ControlOrder,
    connection_id: ConnectionId,
    process_id: Seq<char>,
    control: ControlView,
) -> bool {
    &&& order.key@ == (connection_id, ProcessIdView::Client(process_id))
    &&& order.control@ == control
    &&& order.cancel_execution == (control == ControlView::Terminate)
}

/// The error for a control that no running command takes.
pub open spec fn no_active_process(process_id: Seq<char>) -> ErrorView {
    invalid_request_error(
        "no active command/exec for process id "@ + id_text(ProcessIdView::Client(process_id)),
    )
}

/// A command to start.
pub struct StartProcessParams<C> {
    pub connection_id: ConnectionId,
    /// The client's id for the command.
    pub process_id: Option<String>,
    /// The program and its arguments.
    pub command: Vec<String>,
    /// The working directory, or why it is not a usable path.
    pub cwd: Result<C, String>,
    pub tty: bool,
    pub stream_stdin: bool,
    pub stream_stdout_stderr: bool,
    pub output_bytes_cap: Option<usize>,
    pub size: Option<TerminalSize>,
}

/// How the process of a command is created.
#[derive(Debug, Clone, Copy, PartialEq, Eq, Structural)]
pub enum SpawnMode {
    /// On a terminal, of the default size where none is given.
    Pty { size: Option<TerminalSize> },
    /// On pipes.
    Pipe,
    /// On pipes, with nothing to read.
    PipeNoStdin,
}

/// A command that has its place in the table of running commands and whose
/// process is to be created.
#[derive(Debug, Clone, PartialEq, Eq)]
pub struct StartedProcess<C> {
    pub key: ConnectionProcessId,
    /// The id under which output is streamed.
    pub notification_process_id: Option<String>,
    pub program: String,
    pub args: Vec<String>,
    pub cwd: C,
    pub spawn: SpawnMode,
    pub stream_stdin: bool,
    pub stream_stdout_stderr: bool,
    /// The cap on each output stream.
    pub output_bytes_cap: Option<usize>,
}

/// Why a command is not started.
#[derive(Debug, Clone, PartialEq, Eq)]
pub struct StartRefusal {
    pub error: JSONRPCErrorError,
    /// Whether the command's work outside the process is cancelled.
    pub cancel_execution: bool,
    /// Whether the network proxy of the command, if it has one, is shut down.
    pub shut_down_proxy: bool,
}

/// Whether a command can only run under an id that the client chose.
pub open spec fn needs_client_id<C>(params: StartProcessParams<C>) -> bool {
    params.process_id is None && (params.tty || params.stream_stdin || params.stream_stdout_stderr)
}

/// The id a command runs under.
pub open spec fn chosen_id(process_id: Option<Seq<char>>, next_generated: i64) -> ProcessIdView {
    match process_id {
        Some(id) => ProcessIdView::Client(id),
        None => ProcessIdView::Generated(next_generated as int),
    }
}

/// The number after `n`; the one after the largest is the smallest.
pub open spec fn next_i64(n: i64) -> i64 {
    if n == i64::MAX {
        i64::MIN
    } else {
        (n + 1) as i64
    }
}

/// Why a command is not started: the first of these that holds.
pub open spec fn start_error<S, C>(
    sessions: Map<ProcessKey, S>,
    next_generated: i64,
    params: StartProcessParams<C>,
    connection_cancelled: bool,
) -> Option<ErrorView> {
    let id = chosen_id(opt_text(params.process_id), next_generated);
    if needs_client_id(params) {
        Some(
            invalid_request_error(
                "command/exec tty or streaming requires a client-supplied processId"@,
            ),
        )
    } else if params.cwd is Err {
        Some(invalid_request_error("invalid command cwd: "@ + params.cwd->Err_0@))
    } else if params.command@.len() == 0 {
        Some(invalid_request_error("command must not be empty"@))
    } else if connection_cancelled {
        Some(
            invalid_request_error(
                "command/exec connection closed before the process could start"@,
            ),
        )
    } else if sessions.contains_key((params.connection_id, id)) {
        Some(
            invalid_request_error(
                "duplicate active command/exec process id: "@ + id_text(id),
            ),
        )
    } else {
        None
    }
}

/// Whether a refused command was refused because its connection had closed.
pub open spec fn refused_by_closing<C>(
    params: StartProcessParams<C>,
    connection_cancelled: bool,
) -> bool {
    !needs_client_id(params) && params.cwd is Ok && params.command@.len() > 0
        && connection_cancelled
}

/// How the process of a command is created: a terminal where one is asked for,
/// otherwise pipes, with an input only where it is streamed.
pub open spec fn spawn_mode<C>(params: StartProcessParams<C>) -> SpawnMode {
    if params.tty {
        SpawnMode::Pty { size: params.size }
    } else if params.stream_stdin {
        SpawnMode::Pipe
    } else {
        SpawnMode::PipeNoStdin
    }
}

/// Whether a started command is the one that was asked for, under this id. A
/// terminal streams in both directions.
pub open spec fn starts<C>(
    started: StartedProcess<C>,
    params: StartProcessParams<C>,
    id: ProcessIdView,
) -> bool {
    &&& started.key@ == (params.connection_id, id)
    &&& opt_text(started.notification_process_id) == opt_text(params.process_id)
    &&& seq![started.program@] + texts(started.args@) == texts(params.command@)
    &&& params.cwd == Ok::<C, String>(started.cwd)
    &&& started.spawn == spawn_mode(params)
    &&& started.stream_stdin == (params.tty || params.stream_stdin)
    &&& started.stream_stdout_stderr == (params.tty || params.stream_stdout_stderr)
    &&& started.output_bytes_cap == params.output_bytes_cap
}

/// The sessions of the running commands and the next number to make up.
pub type ProcessTable<S> = (Map<ProcessKey, S>, i64);

/// A command is asked to be started: what becomes of it and of the running ones.
pub open spec fn start_step<S, C>(
    before: ProcessTable<S>,
    params: StartProcessParams<C>,
    connection_cancelled: bool,
    session: S,
    result: Result<StartedProcess<C>, StartRefusal>,
    after: ProcessTable<S>,
) -> bool {
    let id = chosen_id(opt_text(params.process_id), before.1);
    &&& after.1 == if needs_client_id(params) || params.process_id is Some {
        before.1
    } else {
        next_i64(before.1)
    }
    &&& match start_error(before.0, before.1, params, connection_cancelled) {
        Some(error) => {
            &&& result matches Err(refusal) && refusal.error@ == error && refusal.cancel_execution
                == refused_by_closing(params, connection_cancelled) && !refusal.shut_down_proxy
            &&& after.0 == before.0
        },
        None => {
            &&& result matches Ok(started) && starts(started, params, id)
            &&& after.0 == before.0.insert((params.connection_id, id), session)
        },
    }
}

/// A command is given up whose process could not be created.
pub open spec fn give_up_step<S>(
    before: ProcessTable<S>,
    key: ProcessKey,
    reason: Seq<char>,
    refusal: StartRefusal,
    after: ProcessTable<S>,
) -> bool {
    &&& refusal.error@ == internal_error_view("failed to spawn command: "@ + reason)
    &&& refusal.cancel_execution
    &&& refusal.shut_down_proxy
    &&& after.0 == before.0.remove(key)
    &&& after.1 == before.1
}

/// A command has ended.
pub open spec fn end_step<S>(
    before: ProcessTable<S>,
    key: ProcessKey,
    after: ProcessTable<S>,
) -> bool {
    after.0 == before.0.remove(key) && after.1 == before.1
}

/// The running commands of a connection.
pub open spec fn runs_on<S>(connection_id: ConnectionId) -> spec_fn(ProcessKey, S) -> bool {
    |key: ProcessKey, session: S| key.0 == connection_id
}

/// Any running command.
pub open spec fn any_process<S>() -> spec_fn(ProcessKey, S) -> bool {
    |key: ProcessKey, session: S| true
}

/// All running commands are taken out, to be ended.
pub open spec fn shutdown_step<S>(
    before: ProcessTable<S>,
    ended: Seq<S>,
    after: ProcessTable<S>,
) -> bool {
    &&& after.0 == Map::<ProcessKey, S>::empty()
    &&& after.1 == before.1
    &&& are_values_of(ended, before.0, any_process())
}

/// The running commands, each with the session by which it is reached.
pub struct ProcessManager<S> {
    sessions: Table<ConnectionProcessId, S>,
    next_generated_process_id: i64,
}

impl<S> ProcessManager<S> {
    /// The sessions of the running commands.
    pub closed spec fn sessions(self) -> Map<ProcessKey, S> {
        self.sessions@
    }

    /// The number that the next command without a client's id gets.
    pub closed spec fn next_generated(self) -> i64 {
        self.next_generated_process_id
    }

    /// A manager without running commands.
    pub fn new() -> (manager: Self)
        ensures
            manager.sessions() == Map::<ProcessKey, S>::empty(),
            manager.next_generated() == 1,
    {
        ProcessManager { sessions: Table::new(), next_generated_process_id: 1 }
    }

    /// Registers a command and says how its process is created.
    /// `connection_cancelled` tells whether the connection has closed by now.
    pub fn start<C>(
        &mut self,
        params: StartProcessParams<C>,
        connection_cancelled: bool,
        session: S,
    ) -> (result: Result<StartedProcess<C>, StartRefusal>)
        ensures
            final(self).next_generated() == (if needs_client_id(params)
                || params.process_id is Some {
                old(self).next_generated()
            } else {
                next_i64(old(self).next_generated())
            }),
            match start_error(
                old(self).sessions(),
                old(self).next_generated(),
                params,
                connection_cancelled,
            ) {
                Some(error) => {
                    &&& result matches Err(refusal) && refusal.error@ == error
                        && refusal.cancel_execution == refused_by_closing(
                        params,
                        connection_cancelled,
                    ) && !refusal.shut_down_proxy
                    &&& final(self).sessions() == old(self).sessions()
                },
                None => {
                    let id = chosen_id(opt_text(params.process_id), old(self).next_generated());
                    &&& result matches Ok(started) && starts(started, params, id)
                    &&& final(self).sessions() == old(self).sessions().insert(
                        (params.connection_id, id),
                        session,
                    )
                },
            },
            start_step(
                (old(self).sessions(), old(self).next_generated()),
                params,
                connection_cancelled,
                session,
                result,
                (final(self).sessions(), final(self).next_generated()),
            ),
    {
        let StartProcessParams {
            connection_id,
            process_id,
            command,
            cwd,
            tty,
            stream_stdin,
            stream_stdout_stderr,
            output_bytes_cap,
            size,
        } = params;
        if process_id.is_none() && (tty || stream_stdin || stream_stdout_stderr) {
            return refused(
                "command/exec tty or streaming requires a client-supplied processId".to_owned(),
                false,
            );
        }
        let process_id = match process_id {
            Some(id) => InternalProcessId::Client(id),
            None => {
                let number: i64 = self.next_generated_process_id;
                self.next_generated_process_id = number.wrapping_add(1);
                InternalProcessId::Generated(number)
            },
        };
        assert(self.sessions() == old(self).sessions());
        let notification_process_id = match &process_id {
            InternalProcessId::Generated(_) => None,
            InternalProcessId::Client(id) => Some(id.clone()),
        };
        let key = ConnectionProcessId { connection_id, process_id };
        let cwd = match cwd {
            Ok(cwd) => cwd,
            Err(reason) => {
                return refused(joined("invalid command cwd: ", reason.as_str()), false);
            },
        };
        if command.len() == 0 {
            return refused("command must not be empty".to_owned(), false);
        }
        let mut args = command;
        let program = args.remove(0);
        assert(seq![program@] + texts(args@) =~= texts(command@));
        if connection_cancelled {
            return refused(
                "command/exec connection closed before the process could start".to_owned(),
                true,
            );
        }
        if self.sessions.contains_key(&key) {
            let repr = key.process_id.error_repr();
            return refused(
                joined("duplicate active command/exec process id: ", repr.as_str()),
                false,
            );
        }
        let _ = self.sessions.insert(key.duplicate(), session);
        let spawn = if tty {
            SpawnMode::Pty { size }
        } else if stream_stdin {
            SpawnMode::Pipe
        } else {
            SpawnMode::PipeNoStdin
        };
        Ok(
            StartedProcess {
                key,
                notification_process_id,
                program,
                args,
                cwd,
                spawn,
                stream_stdin: tty || stream_stdin,
                stream_stdout_stderr: tty || stream_stdout_stderr,
                output_bytes_cap,
            },
        )
    }

    /// Gives up a command whose process could not be created: its place is free
    /// again, and what it has going outside the process comes to an end.
    pub fn spawn_failed(&mut self, key: &ConnectionProcessId, reason: &String) -> (refusal:
        StartRefusal)
        ensures
            refusal.error@ == internal_error_view("failed to spawn command: "@ + reason@),
            refusal.cancel_execution,
            refusal.shut_down_proxy,
            final(self).sessions() == old(self).sessions().remove(key@),
            final(self).next_generated() == old(self).next_generated(),
            give_up_step(
                (old(self).sessions(), old(self).next_generated()),
                key@,
                reason@,
                refusal,
                (final(self).sessions(), final(self).next_generated()),
            ),
    {
        let _ = self.sessions.remove(key);
        StartRefusal {
            error: internal_error(joined("failed to spawn command: ", reason.as_str())),
            cancel_execution: true,
            shut_down_proxy: true,
        }
    }

    /// Forgets a command that has ended.
    pub fn process_completed(&mut self, key: &ConnectionProcessId)
        ensures
            final(self).sessions() == old(self).sessions().remove(key@),
            final(self).next_generated() == old(self).next_generated(),
            end_step(
                (old(self).sessions(), old(self).next_generated()),
                key@,
                (final(self).sessions(), final(self).next_generated()),
            ),
    {
        let _ = self.sessions.remove(key);
    }

    /// Orders input to be written to a running command, or its input to be closed.
    pub fn write(&self, connection_id: ConnectionId, params: CommandExecWriteParams) -> (result:
        Result<ControlOrder, JSONRPCErrorError>)
        ensures
            match write_request(
                delta_decoded(opt_text(params.delta_base64)),
                params.close_stdin,
            ) {
                Err(error) => error_of(result) == Some(error),
                Ok(control) => ordered(
                    result,
                    self.sessions(),
                    connection_id,
                    params.process_id@,
                    control,
                ),
            },
            params.delta_base64 matches Some(text) ==> decodes_faithfully(text@),
    {
        let delta = match params.delta_base64 {
            Some(text) => Some(base64_decode(text.as_str())),
            None => None,
        };
        let control = write_control(delta, params.close_stdin)?;
        self.send_control(connection_id, params.process_id, control)
    }

    /// Orders the terminal of a running command to be resized.
    pub fn resize(&self, connection_id: ConnectionId, params: CommandExecResizeParams) -> (result:
        Result<ControlOrder, JSONRPCErrorError>)
        ensures
            match size_error(params.size) {
                Some(error) => error_of(result) == Some(error),
                None => ordered(
                    result,
                    self.sessions(),
                    connection_id,
                    params.process_id@,
                    ControlView::Resize {
                        size: TerminalSize { rows: params.size.rows, cols: params.size.cols },
                    },
                ),
            },
    {
        let size = terminal_size(params.size)?;
        self.send_control(connection_id, params.process_id, Control::Resize { size })
    }

    /// Orders a running command to end.
    pub fn terminate(&self, connection_id: ConnectionId, params: CommandExecTerminateParams) -> (result:
        Result<ControlOrder, JSONRPCErrorError>)
        ensures
            ordered(
                result,
                self.sessions(),
                connection_id,
                params.process_id@,
                ControlView::Terminate,
            ),
    {
        self.send_control(connection_id, params.process_id, Control::Terminate)
    }

    fn send_control(&self, connection_id: ConnectionId, process_id: String, control: Control) -> (result:
        Result<ControlOrder, JSONRPCErrorError>)
        ensures
            ordered(result, self.sessions(), connection_id, process_id@, control@),
    {
        let key = ConnectionProcessId {
            connection_id,
            process_id: InternalProcessId::Client(process_id),
        };
        if !self.sessions.contains_key(&key) {
            let repr = key.process_id.error_repr();
            return Err(
                invalid_request(joined("no active command/exec for process id ", repr.as_str())),
            );
        }
        let cancel_execution = match &control {
            Control::Terminate => true,
            _ => false,
        };
        Ok(ControlOrder { key, control, cancel_execution })
    }

    /// The session of a running command.
    pub fn session(&self, key: &ConnectionProcessId) -> (session: Option<&S>)
        ensures
            session is Some <==> self.sessions().contains_key(key@),
            session matches Some(found) ==> *found == self.sessions()[key@],
    {
        self.sessions.get(key)
    }

    /// Takes out the running commands of a connection that closed, to be ended.
    pub fn connection_closed(&mut self, connection_id: ConnectionId) -> (ended: Vec<S>)
        ensures
            final(self).sessions() == without(old(self).sessions(), runs_on(connection_id)),
            final(self).next_generated() == old(self).next_generated(),
            are_values_of(ended@, old(self).sessions(), runs_on(connection_id)),
    {
        let ghost chosen = runs_on::<S>(connection_id);
        let test = |key: &ConnectionProcessId, session: &S| -> (matched: bool)
            ensures
                matched == (key@.0 == connection_id),
            { key.connection_id == connection_id };
        self.sessions.take_values(test, Ghost(chosen))
    }

    /// Takes out all running commands, to be ended.
    pub fn shutdown(&mut self) -> (ended: Vec<S>)
        ensures
            final(self).sessions() == Map::<ProcessKey, S>::empty(),
            final(self).next_generated() == old(self).next_generated(),
            are_values_of(ended@, old(self).sessions(), any_process()),
            shutdown_step(
                (old(self).sessions(), old(self).next_generated()),
                ended@,
                (final(self).sessions(), final(self).next_generated()),
            ),
    {
        let ghost chosen = any_process::<S>();
        let test = |key: &ConnectionProcessId, session: &S| -> (matched: bool)
            ensures
                matched,
            { true };
        let ended = self.sessions.take_values(test, Ghost(chosen));
        assert(self.sessions() =~= Map::<ProcessKey, S>::empty());
        ended
    }
}

fn refused<C>(message: String, cancel_execution: bool) -> (result: Result<
    StartedProcess<C>,
    StartRefusal,
>)
    ensures
        result matches Err(refusal) && refusal.error@ == invalid_request_error(message@)
            && refusal.cancel_execution == cancel_execution && !refusal.shut_down_proxy,
{
    Err(
        StartRefusal {
            error: invalid_request(message),
            cancel_execution,
            shut_down_proxy: false,
        },
    )
}

/// The outcome of sending a control: an order if the connection runs a command
/// under this id, an error otherwise.
pub open spec fn ordered<S>(
    result: Result<ControlOrder, JSONRPCErrorError>,
    sessions: Map<ProcessKey, S>,
    connection_id: ConnectionId,
    process_id: Seq<char>,
    control: ControlView,
) -> bool {
    if sessions.contains_key((connection_id, ProcessIdView::Client(process_id))) {
        result matches Ok(order) && orders(order, connection_id, process_id, control)
    } else {
        error_of(result) == Some(no_active_process(process_id))
    }
}

/// What a control is answered that comes after the end of its command.
pub open spec fn ended_process(id: ProcessIdView) -> ErrorView {
    invalid_request_error("command/exec "@ + id_text(id) + " is no longer running"@)
}

/// The error for a command that ended before it could take a control.
pub fn process_ended_error(process_id: &InternalProcessId) -> (error: JSONRPCErrorError)
    ensures
        error@ == invalid_request_error(
            "command/exec "@ + id_text(process_id@) + " is no longer running"@,
        ),
        error@ == ended_process(process_id@),
{
    let repr = process_id.error_repr();
    let head = joined("command/exec ", repr.as_str());
    invalid_request(joined(head.as_str(), " is no longer running"))
}

/// A command id stays taken on its connection while the command runs: another
/// command under it is refused.
pub proof fn law_process_ids_are_unique_while_running<S, C>(
    sessions: Map<ProcessKey, S>,
    next_generated: i64,
    params: StartProcessParams<C>,
    connection_cancelled: bool,
)
    requires
        sessions.contains_key(
            (params.connection_id, chosen_id(opt_text(params.process_id), next_generated)),
        ),
    ensures
        start_error(sessions, next_generated, params, connection_cancelled) is Some,
{
}

/// The same id may be in use on different connections: what runs on one has no
/// part in whether a command is started or controlled on another.
pub proof fn law_connections_do_not_share_processes<S, C>(
    sessions: Map<ProcessKey, S>,
    foreign: ProcessKey,
    session: S,
    next_generated: i64,
    params: StartProcessParams<C>,
    connection_cancelled: bool,
    process_id: Seq<char>,
)
    requires
        foreign.0 != params.connection_id,
    ensures
        start_error(
            sessions.insert(foreign, session),
            next_generated,
            params,
            connection_cancelled,
        ) == start_error(sessions, next_generated, params, connection_cancelled),
        ({
            let target = (params.connection_id, ProcessIdView::Client(process_id));
            &&& sessions.insert(foreign, session).contains_key(target) == sessions.contains_key(
                target,
            )
            &&& sessions.contains_key(target) ==> sessions.insert(foreign, session)[target]
                == sessions[target]
        }),
{
}

/// No client request reaches a command that runs under a made-up id, whatever
/// text the client sends.
pub proof fn law_unnamed_processes_take_no_controls(
    order: ControlOrder,
    connection_id: ConnectionId,
    process_id: Seq<char>,
    control: ControlView,
    number: int,
)
    requires
        orders(order, connection_id, process_id, control),
    ensures
        order.key@.1 != ProcessIdView::Generated(number),
{
}

/// Commands without a client's id get ids that differ from each other, until all
/// numbers have been used.
pub proof fn law_made_up_ids_are_fresh(a: i64, b: i64)
    ensures
        chosen_id(None, a) == chosen_id(None, b) ==> a == b,
        a < i64::MAX ==> next_i64(a) > a,
{
}

/// A command whose process could not be created leaves the running commands as
/// they were before it.
pub proof fn law_failed_spawns_leave_no_trace<S>(
    sessions: Map<ProcessKey, S>,
    key: ProcessKey,
    session: S,
)
    requires
        !sessions.contains_key(key),
    ensures
        sessions.insert(key, session).remove(key) == sessions,
{
    assert(sessions.insert(key, session).remove(key) =~= sessions);
}

/// Nothing is started for a connection that has closed.
pub proof fn law_closed_connections_start_nothing<S, C>(
    sessions: Map<ProcessKey, S>,
    next_generated: i64,
    params: StartProcessParams<C>,
)
    ensures
        start_error(sessions, next_generated, params, true) is Some,
{
}

/// A closed connection runs nothing any more, and the commands of the other
/// connections go on.
pub proof fn law_closing_ends_the_processes_of_the_connection<S>(
    sessions: Map<ProcessKey, S>,
    closed: ConnectionId,
    key: ProcessKey,
)
    ensures
        ({
            let rest = without(sessions, runs_on(closed));
            &&& key.0 == closed ==> !rest.contains_key(key)
            &&& key.0 != closed ==> rest.contains_key(key) == sessions.contains_key(key) && (
            rest.contains_key(key) ==> rest[key] == sessions[key])
        }),
{
}

/// Bytes that a client encodes reach the command unchanged: a text that decodes
/// faithfully, as every written one does, and encodes these bytes, carries them.
pub proof fn law_written_bytes_arrive(text: Seq<char>, bytes: Seq<u8>, close_stdin: bool)
    requires
        decodes_faithfully(text),
        text == base64_encoded(bytes),
    ensures
        write_request(delta_decoded(Some(text)), close_stdin) == Ok::<ControlView, ErrorView>(
            ControlView::Write { delta: bytes, close_stdin },
        ),
{
}

/// A command on a terminal streams its input and its output.
pub proof fn law_terminals_stream_both_ways<C>(
    started: StartedProcess<C>,
    params: StartProcessParams<C>,
    id: ProcessIdView,
)
    requires
        params.tty,
        starts(started, params, id),
    ensures
        started.stream_stdin,
        started.stream_stdout_stderr,
        started.spawn == (SpawnMode::Pty { size: params.size }),
{
}

/// Without a terminal, a process is created with an input pipe exactly if its input
/// is streamed, whether or not its output is; with one, on a terminal of the size
/// that was asked for.
pub proof fn law_input_is_piped_where_it_is_streamed<C>(params: StartProcessParams<C>)
    ensures
        !params.tty ==> (spawn_mode(params) == SpawnMode::Pipe <==> params.stream_stdin),
        !params.tty ==> (spawn_mode(params) == SpawnMode::PipeNoStdin <==> !params.stream_stdin),
        params.tty ==> (spawn_mode(params) matches SpawnMode::Pty { size } && size == params.size),
{
}

/// A command that is started is the one that was asked for: its program is the first
/// word of the command and its arguments are the others in their order, in the
/// working directory and under the cap that were given; its output is streamed under
/// the client's id; its input and its output are streamed where that was asked for
/// or where it has a terminal, and what is streamed to it has an input to go to.
pub proof fn law_started_commands_are_those_asked_for<S, C>(
    before: ProcessTable<S>,
    params: StartProcessParams<C>,
    connection_cancelled: bool,
    session: S,
    started: StartedProcess<C>,
    after: ProcessTable<S>,
)
    requires
        start_step(
            before,
            params,
            connection_cancelled,
            session,
            Ok::<StartedProcess<C>, StartRefusal>(started),
            after,
        ),
    ensures
        !connection_cancelled,
        started.key.connection_id == params.connection_id,
        params.process_id matches Some(id) ==> (started.key.process_id matches InternalProcessId::Client(
            own,
        ) && own@ == id@) && (started.notification_process_id matches Some(sent) && sent@ == id@),
        params.process_id is None ==> started.key.process_id == InternalProcessId::Generated(
            before.1,
        ) && started.notification_process_id is None,
        params.command@.len() == started.args@.len() + 1,
        started.program@ == params.command@[0]@,
        forall|i: int|
            0 <= i < started.args@.len() ==> #[trigger] started.args@[i]@ == params.command@[i
                + 1]@,
        params.cwd matches Ok(cwd) && cwd == started.cwd,
        started.output_bytes_cap == params.output_bytes_cap,
        params.tty ==> started.stream_stdin && started.stream_stdout_stderr,
        !params.tty ==> started.stream_stdin == params.stream_stdin
            && started.stream_stdout_stderr == params.stream_stdout_stderr,
        params.tty ==> (started.spawn matches SpawnMode::Pty { size } && size == params.size),
        !params.tty && params.stream_stdin ==> started.spawn is Pipe,
        !params.tty && !params.stream_stdin ==> started.spawn is PipeNoStdin,
        started.stream_stdin ==> !(started.spawn is PipeNoStdin),
{
    let whole = seq![started.program@] + texts(started.args@);
    assert(whole == texts(params.command@));
    assert(whole.len() == texts(params.command@).len());
    assert(whole[0] == texts(params.command@)[0]);
    assert forall|i: int| 0 <= i < started.args@.len() implies #[trigger] started.args@[i]@
        == params.command@[i + 1]@ by {
        assert(whole[i + 1] == texts(params.command@)[i + 1]);
        assert(whole[i + 1] == texts(started.args@)[i]);
    }
}

/// A started command has its session in the table, under a key that was free; a
/// refused one leaves no session there. All other commands keep theirs.
pub proof fn law_starting_takes_one_place<S, C>(
    before: ProcessTable<S>,
    params: StartProcessParams<C>,
    connection_cancelled: bool,
    session: S,
    result: Result<StartedProcess<C>, StartRefusal>,
    after: ProcessTable<S>,
    other: ProcessKey,
)
    requires
        start_step(before, params, connection_cancelled, session, result, after),
    ensures
        result is Err ==> after.0 == before.0,
        result matches Ok(started) ==> {
            &&& !before.0.contains_key(started.key@)
            &&& after.0.contains_key(started.key@)
            &&& after.0[started.key@] == session
            &&& other != started.key@ ==> after.0.contains_key(other) == before.0.contains_key(
                other,
            ) && (before.0.contains_key(other) ==> after.0[other] == before.0[other])
        },
{
}

/// Only a command without a client's id uses up a number, and it uses up one.
pub proof fn law_numbers_are_made_up_one_by_one<S, C>(
    before: ProcessTable<S>,
    params: StartProcessParams<C>,
    connection_cancelled: bool,
    session: S,
    result: Result<StartedProcess<C>, StartRefusal>,
    after: ProcessTable<S>,
)
    requires
        start_step(before, params, connection_cancelled, session, result, after),
    ensures
        params.process_id is Some ==> after.1 == before.1,
        params.process_id is None && result is Ok && before.1 < i64::MAX ==> after.1 == before.1
            + 1,
        params.process_id is None && result is Ok && before.1 == i64::MAX ==> after.1 == i64::MIN,
{
}

/// A command is refused for exactly one of these reasons, which the client is told:
/// it streams without a client's id, its directory cannot be used, it is empty, its
/// connection has closed, or its id is taken. Otherwise it is started.
pub proof fn law_refused_commands_are_told_why<S, C>(
    before: ProcessTable<S>,
    params: StartProcessParams<C>,
    connection_cancelled: bool,
    session: S,
    result: Result<StartedProcess<C>, StartRefusal>,
    after: ProcessTable<S>,
)
    requires
        start_step(before, params, connection_cancelled, session, result, after),
    ensures
        ({
            let streams = params.tty || params.stream_stdin || params.stream_stdout_stderr;
            let named = params.process_id is Some || !streams;
            let located = params.cwd is Ok;
            let has_program = params.command@.len() > 0;
            let key = (
                params.connection_id,
                match params.process_id {
                    Some(id) => ProcessIdView::Client(id@),
                    None => ProcessIdView::Generated(before.1 as int),
                },
            );
            &&& result is Ok <==> named && located && has_program && !connection_cancelled
                && !before.0.contains_key(key)
            &&& !named ==> (result matches Err(refusal) && refusal.error.code == -32600
                && refusal.error.message@
                == "command/exec tty or streaming requires a client-supplied processId"@
                && !refusal.cancel_execution)
            &&& named && !located ==> (result matches Err(refusal) && refusal.error.code == -32600
                && refusal.error.message@ == "invalid command cwd: "@ + params.cwd->Err_0@
                && !refusal.cancel_execution)
            &&& named && located && !has_program ==> (result matches Err(refusal)
                && refusal.error.code == -32600 && refusal.error.message@
                == "command must not be empty"@ && !refusal.cancel_execution)
            &&& named && located && has_program && connection_cancelled ==> (result matches Err(
                refusal,
            ) && refusal.error.code == -32600 && refusal.error.message@
                == "command/exec connection closed before the process could start"@
                && refusal.cancel_execution)
            &&& named && located && has_program && !connection_cancelled && before.0.contains_key(
                key,
            ) ==> (result matches Err(refusal) && refusal.error.code == -32600
                && refusal.error.message@ == "duplicate active command/exec process id: "@
                + id_text(key.1) && !refusal.cancel_execution)
            &&& result matches Err(refusal) ==> !refusal.shut_down_proxy
        }),
{
}

/// A command that was started and then given up because its process could not be
/// created leaves the running commands as they were, ends what it has going outside
/// the process, and its client is told the reason.
pub proof fn law_given_up_commands_leave_no_trace<S, C>(
    before: ProcessTable<S>,
    params: StartProcessParams<C>,
    session: S,
    started: StartedProcess<C>,
    between: ProcessTable<S>,
    reason: Seq<char>,
    refusal: StartRefusal,
    after: ProcessTable<S>,
)
    requires
        start_step(
            before,
            params,
            false,
            session,
            Ok::<StartedProcess<C>, StartRefusal>(started),
            between,
        ),
        give_up_step(between, started.key@, reason, refusal, after),
    ensures
        after.0 == before.0,
        after.1 == between.1,
        refusal.error.code == -32603,
        refusal.error.message@ == "failed to spawn command: "@ + reason,
        refusal.cancel_execution && refusal.shut_down_proxy,
{
    assert(after.0 =~= before.0);
}

/// A control goes to the command of this connection with this very id, as it was
/// sent; only a termination also cancels what the command has going outside its
/// process. Where no such command runs, the client is told so.
pub proof fn law_controls_reach_the_named_command<S>(
    result: Result<ControlOrder, JSONRPCErrorError>,
    sessions: Map<ProcessKey, S>,
    connection_id: ConnectionId,
    process_id: Seq<char>,
    control: ControlView,
)
    requires
        ordered(result, sessions, connection_id, process_id, control),
    ensures
        ({
            let running = sessions.contains_key((connection_id, ProcessIdView::Client(process_id)));
            &&& running ==> (result matches Ok(order) && {
                &&& order.key.connection_id == connection_id
                &&& order.key.process_id matches InternalProcessId::Client(id) && id@
                    == process_id
                &&& order.control@ == control
                &&& order.cancel_execution <==> control is Terminate
            })
            &&& !running ==> (result matches Err(error) && error.code == -32600
                && error.message@ == "no active command/exec for process id "@ + json_string(
                process_id,
            ))
        }),
{
}

/// What a write request without usable bytes is answered, and what one with them
/// asks for: those bytes, and that the input is closed where the request says so.
pub proof fn law_write_requests_ask_for_what_they_carry(
    bytes: Seq<u8>,
    reason: Seq<char>,
    close_stdin: bool,
    text: Seq<char>,
)
    ensures
        write_request(Some(Ok(bytes)), close_stdin) matches Ok(
            ControlView::Write { delta, close_stdin: close },
        ) && delta == bytes && close == close_stdin,
        write_request(Some(Err(reason)), close_stdin) matches Err(error) && error.code == -32602
            && error.message == "invalid deltaBase64: "@ + reason,
        write_request(None, true) matches Ok(ControlView::Write { delta, close_stdin: close })
            && delta.len() == 0 && close,
        write_request(None, false) matches Err(error) && error.code == -32602 && error.message
            == "command/exec/write requires deltaBase64 or closeStdin"@,
        delta_decoded(Some(text)) == Some(base64_decoded(text)),
        delta_decoded(None) is None,
{
}

/// A terminal size is refused exactly where a side is zero.
pub proof fn law_terminals_have_room(size: CommandExecTerminalSize)
    ensures
        size_error(size) is None <==> size.rows > 0 && size.cols > 0,
        size_error(size) matches Some(error) ==> error.code == -32602 && error.message
            == "command/exec size rows and cols must be greater than 0"@,
{
}

/// Error messages name a command by its number or by the JSON text of its id.
pub proof fn law_commands_are_named_by_their_id(number: int, id: Seq<char>)
    ensures
        id_text(ProcessIdView::Generated(number)) == signed_decimal(number),
        id_text(ProcessIdView::Client(id)) == json_string(id),
        ended_process(ProcessIdView::Client(id)).code == -32600,
        ended_process(ProcessIdView::Client(id)).message == "command/exec "@ + json_string(id)
            + " is no longer running"@,
        ended_process(ProcessIdView::Generated(number)).code == -32600,
        ended_process(ProcessIdView::Generated(number)).message == "command/exec "@
            + signed_decimal(number) + " is no longer running"@,
{
}

/// What a command is told is seen with its bytes and its size.
pub proof fn law_controls_are_seen_whole(control: Control)
    ensures
        match control {
            Control::Write { delta, close_stdin } => control@ matches ControlView::Write {
                delta: seen,
                close_stdin: close,
            } && seen == delta@ && close == close_stdin,
            Control::Resize { size } => control@ matches ControlView::Resize { size: seen }
                && seen.rows == size.rows && seen.cols == size.cols,
            Control::Terminate => control@ is Terminate,
        },
{
}

/// Command ids differ wherever their numbers or texts do, and a number is never a
/// text.
pub proof fn law_command_ids_are_told_apart(a: InternalProcessId, b: InternalProcessId)
    ensures
        a@ == b@ <==> match (a, b) {
            (InternalProcessId::Generated(x), InternalProcessId::Generated(y)) => x == y,
            (InternalProcessId::Client(x), InternalProcessId::Client(y)) => x@ == y@,
            _ => false,
        },
{
}

/// A closing connection ends its own commands and a shutdown ends every one.
pub proof fn law_endings_choose_their_commands<S>(
    connection_id: ConnectionId,
    key: ProcessKey,
    session: S,
)
    ensures
        runs_on::<S>(connection_id)(key, session) <==> key.0 == connection_id,
        any_process::<S>()(key, session),
{
}

/// A command that has ended frees its id and no other: the table is as it was before
/// the command was started.
pub proof fn law_ended_commands_free_their_id<S, C>(
    before: ProcessTable<S>,
    params: StartProcessParams<C>,
    session: S,
    started: StartedProcess<C>,
    between: ProcessTable<S>,
    after: ProcessTable<S>,
)
    requires
        start_step(
            before,
            params,
            false,
            session,
            Ok::<StartedProcess<C>, StartRefusal>(started),
            between,
        ),
        end_step(between, started.key@, after),
    ensures
        after.0 == before.0,
        after.1 == between.1,
        params.process_id is Some ==> start_error(after.0, after.1, params, false) is None,
{
    assert(after.0 =~= before.0);
}

/// A shutdown leaves no command running and hands over each one that ran, to be
/// ended.
pub proof fn law_a_shutdown_ends_every_command<S>(
    before: ProcessTable<S>,
    ended: Seq<S>,
    after: ProcessTable<S>,
    key: ProcessKey,
)
    requires
        shutdown_step(before, ended, after),
    ensures
        !after.0.contains_key(key),
        before.0.contains_key(key) ==> ended.contains(before.0[key]),
{
    law_taken_values_are_those_of_the_condition(ended, before.0, any_process::<S>());
}

} // verus!
