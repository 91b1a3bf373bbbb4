//! The service: what each message of a client leads to, and what ends with a
//! connection.

use crate::approval::{
    after_answer, all_refused, answer_delivered, awaits, is_told,
    law_closing_tells_every_waiting_request, next_u64, owned_by, response_view, ApprovalDecision,
    Delivery, PendingApproval,
};
use crate::external::{base64_decoded, base64_encoded, decodes_faithfully, json_string};
use crate::network::{
    network_answer, network_failure, remembered_by, CacheKeyView, NetworkApprovalBroker,
    SessionCache,
};
use crate::permissions::{
    is_waiting, permissions_answer, permissions_failure, waits_for, PermissionsApprovalBroker,
};
use crate::prepare::SandboxCommandExecParams;
use crate::process::{
    delta_decoded, no_active_process, orders, runs_on, size_error, write_request,
    CommandExecResizeParams, CommandExecTerminateParams, CommandExecWriteParams, ControlOrder,
    ControlView, ProcessIdView, ProcessKey, ProcessManager, TerminalSize,
};
use crate::protocol::{
    empty_reply, empty_response, error_of, error_reply, has_member, internal_error,
    internal_error_view, invalid_params, invalid_params_error, invalid_request,
    invalid_request_error, member_names, method_not_found, method_not_found_error, object, opt_text,
    ConnectionId, ErrorView, Field, FieldValue, FieldValueView, JSONRPCErrorError, MessageView,
    ObjectView, OutgoingMessage, RequestId, RequestIdView, COMMAND_EXEC_METHOD,
    COMMAND_EXEC_RESIZE_METHOD, COMMAND_EXEC_TERMINATE_METHOD, COMMAND_EXEC_WRITE_METHOD,
    INITIALIZE_METHOD,
};
use crate::table::{are_values_of, law_taken_values_are_those_of_the_condition, without};
use crate::text::{joined, same_text};
use vstd::prelude::*;
use vstd::string::*;

verus! {

/// A message from a client.
pub enum IncomingMessage {
    Request { id: RequestId, method: String },
    /// A response with the decision it carries, or why it carries none.
    Response { id: RequestId, decision: Result<ApprovalDecision, String> },
    Error { id: RequestId, message: String },
    Notification,
    /// Something that is not a message.
    Malformed,
}

/// The methods of a client that has initialized its connection.
#[derive(Debug, Clone, Copy, PartialEq, Eq, Structural)]
pub enum Method {
    CommandExec,
    CommandExecWrite,
    CommandExecResize,
    CommandExecTerminate,
}

/// The method of this name.
pub open spec fn method_named(name: Seq<char>) -> Option<Method> {
    if name == COMMAND_EXEC_METHOD@ {
        Some(Method::CommandExec)
    } else if name == COMMAND_EXEC_WRITE_METHOD@ {
        Some(Method::CommandExecWrite)
    } else if name == COMMAND_EXEC_RESIZE_METHOD@ {
        Some(Method::CommandExecResize)
    } else if name == COMMAND_EXEC_TERMINATE_METHOD@ {
        Some(Method::CommandExecTerminate)
    } else {
        None
    }
}

/// The name of a method.
pub open spec fn method_name(method: Method) -> Seq<char> {
    match method {
        Method::CommandExec => COMMAND_EXEC_METHOD@,
        Method::CommandExecWrite => COMMAND_EXEC_WRITE_METHOD@,
        Method::CommandExecResize => COMMAND_EXEC_RESIZE_METHOD@,
        Method::CommandExecTerminate => COMMAND_EXEC_TERMINATE_METHOD@,
    }
}

fn find_method(name: &String) -> (method: Option<Method>)
    ensures
        method == method_named(name@),
{
    if same_text(name, COMMAND_EXEC_METHOD) {
        Some(Method::CommandExec)
    } else if same_text(name, COMMAND_EXEC_WRITE_METHOD) {
        Some(Method::CommandExecWrite)
    } else if same_text(name, COMMAND_EXEC_RESIZE_METHOD) {
        Some(Method::CommandExecResize)
    } else if same_text(name, COMMAND_EXEC_TERMINATE_METHOD) {
        Some(Method::CommandExecTerminate)
    } else {
        None
    }
}

/// What a message leads to.
#[derive(Debug, PartialEq, Eq)]
pub enum MessageStep<P, N> {
    /// Nothing.
    Ignored,
    /// Answers for requests that wait for them.
    Delivered { permissions: Option<Delivery<P>>, network: Option<Delivery<N>> },
    /// A reply to the client.
    Reply(OutgoingMessage),
    /// An `initialize` request, to be answered with its parameters.
    Initialize { id: RequestId },
    /// Another request, to be handled with its parameters.
    Dispatch { id: RequestId, method: Method },
}

/// What a request leads to before its parameters are looked at.
#[verifier::ext_equal]
pub enum Gate {
    Refuse(ErrorView),
    Initialize,
    Dispatch(Method),
}

/// What a request leads to: nothing comes before `initialize`, and nothing else is
/// initialized twice.
pub open spec fn gate(initialized: bool, method: Seq<char>) -> Gate {
    if method == INITIALIZE_METHOD@ {
        if initialized {
            Gate::Refuse(invalid_request_error("already initialized"@))
        } else {
            Gate::Initialize
        }
    } else if !initialized {
        Gate::Refuse(invalid_request_error("initialize must be called first"@))
    } else {
        match method_named(method) {
            Some(known) => Gate::Dispatch(known),
            None => Gate::Refuse(method_not_found_error("unknown method: "@ + method)),
        }
    }
}

/// The result of an `initialize` request.
pub open spec fn initialize_object(version: Seq<char>, codex_home: Seq<char>) -> ObjectView {
    seq![
        ("userAgent"@, FieldValueView::Text("codex-sandbox-server/"@ + version)),
        ("codexHome"@, FieldValueView::Text(codex_home)),
        ("platformFamily"@, FieldValueView::Text("unix"@)),
        ("platformOs"@, FieldValueView::Text("linux"@)),
    ]
}

/// What an `initialize` request was found to be.
pub enum InitializeOutcome {
    /// Its parameters are invalid.
    InvalidParams(String),
    /// The home directory was not found.
    NoHome(String),
    /// The home directory was found, but it cannot be put in a message.
    UnsendableHome(String),
    /// The home directory.
    Home(String),
}

/// The error for parameters that do not fit their method.
pub open spec fn bad_params(method: Seq<char>, reason: Seq<char>) -> ErrorView {
    invalid_params_error("invalid params for "@ + method + ": "@ + reason)
}

fn params_refused(method: &str, reason: &String) -> (error: JSONRPCErrorError)
    ensures
        error@ == bad_params(method@, reason@),
{
    let head = joined("invalid params for ", method);
    let head = joined(head.as_str(), ": ");
    invalid_params(joined(head.as_str(), reason.as_str()))
}

/// The answer to an `initialize` request.
pub open spec fn initialize_reply(
    id: RequestIdView,
    outcome: InitializeOutcome,
    version: Seq<char>,
) -> MessageView {
    match outcome {
        InitializeOutcome::InvalidParams(reason) => MessageView::Error {
            id,
            error: bad_params(INITIALIZE_METHOD@, reason@),
        },
        InitializeOutcome::NoHome(reason) => MessageView::Error {
            id,
            error: internal_error_view(reason@),
        },
        InitializeOutcome::UnsendableHome(reason) => MessageView::Error {
            id,
            error: internal_error_view(reason@),
        },
        InitializeOutcome::Home(home) => MessageView::Response {
            id,
            result: initialize_object(version, home@),
        },
    }
}

/// Whether a connection counts as initialized after its request: it does once the
/// home directory is found, also where that cannot be put in the answer.
pub open spec fn initializes(outcome: InitializeOutcome) -> bool {
    outcome is Home || outcome is UnsendableHome
}

/// An `initialize` request is answered: the answer, and whether the connection counts
/// as initialized before and after it.
pub open spec fn initialize_step(
    before: bool,
    id: RequestIdView,
    outcome: InitializeOutcome,
    version: Seq<char>,
    reply: OutgoingMessage,
    after: bool,
) -> bool {
    &&& reply@ == initialize_reply(id, outcome, version)
    &&& after == (before || initializes(outcome))
}

/// Answers an `initialize` request.
pub fn finish_initialize(
    initialized: &mut bool,
    id: RequestId,
    outcome: InitializeOutcome,
    version: &str,
) -> (reply: OutgoingMessage)
    ensures
        reply@ == initialize_reply(id@, outcome, version@),
        *final(initialized) == (*old(initialized) || initializes(outcome)),
        initialize_step(*old(initialized), id@, outcome, version@, reply, *final(initialized)),
{
    match outcome {
        InitializeOutcome::InvalidParams(reason) => error_reply(
            id,
            params_refused(INITIALIZE_METHOD, &reason),
        ),
        InitializeOutcome::NoHome(reason) => error_reply(id, internal_error(reason)),
        InitializeOutcome::UnsendableHome(reason) => {
            *initialized = true;
            error_reply(id, internal_error(reason))
        },
        InitializeOutcome::Home(home) => {
            *initialized = true;
            let mut result: Vec<Field> = Vec::new();
            result.push(
                Field {
                    name: "userAgent",
                    value: FieldValue::Text(joined("codex-sandbox-server/", version)),
                },
            );
            result.push(Field { name: "codexHome", value: FieldValue::Text(home) });
            result.push(
                Field { name: "platformFamily", value: FieldValue::Text("unix".to_owned()) },
            );
            result.push(Field { name: "platformOs", value: FieldValue::Text("linux".to_owned()) });
            assert(object(result@) =~= initialize_object(version@, home@));
            OutgoingMessage::Response { id, result }
        },
    }
}

/// A request of an initialized connection with its parameters, or why they do not
/// fit the method.
pub enum ClientRequest<Policy, N> {
    CommandExec(Result<SandboxCommandExecParams<Policy, N>, String>),
    Write(Result<CommandExecWriteParams, String>),
    Resize(Result<CommandExecResizeParams, String>),
    Terminate(Result<CommandExecTerminateParams, String>),
}

/// What a request of an initialized connection leads to.
pub enum RequestStep<Policy, N, P> {
    /// A command to prepare and start. Where it may have to wait for an approval,
    /// that happens beside the other requests of the connection.
    Exec { params: SandboxCommandExecParams<Policy, N>, in_background: bool },
    /// A control for a running command, whose outcome is the answer.
    Control(ControlOrder),
    /// A waiting approval was cancelled, which is answered.
    Cancelled { delivery: Delivery<P>, reply: OutgoingMessage },
    /// A reply to the client.
    Reply(OutgoingMessage),
}

/// Whether a step tells the running command of the connection under this id, or
/// refuses because there is none.
pub open spec fn controls<Policy, N, P, S>(
    step: RequestStep<Policy, N, P>,
    sessions: Map<ProcessKey, S>,
    connection_id: ConnectionId,
    id: RequestIdView,
    process_id: Seq<char>,
    control: ControlView,
) -> bool {
    if sessions.contains_key((connection_id, ProcessIdView::Client(process_id))) {
        step matches RequestStep::Control(order) && orders(
            order,
            connection_id,
            process_id,
            control,
        )
    } else {
        replies(step, MessageView::Error { id, error: no_active_process(process_id) })
    }
}

/// Whether a step is this reply.
pub open spec fn replies<Policy, N, P>(
    step: RequestStep<Policy, N, P>,
    message: MessageView,
) -> bool {
    step matches RequestStep::Reply(reply) && reply@ == message
}

/// Whether a step is what a message leads to, by the approval requests that wait.
pub open spec fn message_leads_to<P, N>(
    permissions_pending: Map<Seq<char>, PendingApproval<P>>,
    network_pending: Map<Seq<char>, PendingApproval<N>>,
    connection_id: ConnectionId,
    initialized: bool,
    message: IncomingMessage,
    step: MessageStep<P, N>,
) -> bool {
    match message {
        IncomingMessage::Malformed => step is Ignored,
        IncomingMessage::Notification => step is Ignored,
        IncomingMessage::Response { id, decision } => step matches MessageStep::Delivered {
            permissions,
            network,
        } && answer_delivered(
            permissions,
            permissions_pending,
            connection_id,
            id@,
            permissions_answer(decision),
        ) && answer_delivered(
            network,
            network_pending,
            connection_id,
            id@,
            network_answer(decision),
        ),
        IncomingMessage::Error { id, message: text } => step matches MessageStep::Delivered {
            permissions,
            network,
        } && answer_delivered(
            permissions,
            permissions_pending,
            connection_id,
            id@,
            permissions_failure(text@),
        ) && answer_delivered(
            network,
            network_pending,
            connection_id,
            id@,
            network_failure(text@),
        ),
        IncomingMessage::Request { id, method } => match gate(initialized, method@) {
            Gate::Refuse(error) => step matches MessageStep::Reply(reply) && reply@ == (
            MessageView::Error { id: id@, error }),
            Gate::Initialize => step matches MessageStep::Initialize { id: own } && own@ == id@,
            Gate::Dispatch(known) => step matches MessageStep::Dispatch { id: own, method: named }
                && own@ == id@ && named == known,
        },
    }
}

/// Whether a step is what a request of an initialized connection leads to, by the
/// permission requests that wait and the commands that run.
pub open spec fn request_leads_to<Policy, A, P, S>(
    before: PermissionsApprovalBroker<P>,
    sessions: Map<ProcessKey, S>,
    connection_id: ConnectionId,
    id: RequestIdView,
    request: ClientRequest<Policy, A>,
    step: RequestStep<Policy, A, P>,
    after: PermissionsApprovalBroker<P>,
) -> bool {
    &&& !(step is Cancelled) ==> after.pending() == before.pending()
    &&& match request {
        ClientRequest::CommandExec(Err(reason)) => replies(
            step,
            MessageView::Error { id, error: bad_params(COMMAND_EXEC_METHOD@, reason@) },
        ),
        ClientRequest::CommandExec(Ok(exec)) => step matches RequestStep::Exec {
            params,
            in_background,
        } && params == exec && in_background == (exec.additional_permissions is Some),
        ClientRequest::Write(Err(reason)) => replies(
            step,
            MessageView::Error { id, error: bad_params(COMMAND_EXEC_WRITE_METHOD@, reason@) },
        ),
        ClientRequest::Write(Ok(write)) => {
            &&& write.delta_base64 matches Some(text) ==> decodes_faithfully(text@)
            &&& match write_request(
                delta_decoded(opt_text(write.delta_base64)),
                write.close_stdin,
            ) {
                Err(error) => replies(step, MessageView::Error { id, error }),
                Ok(control) => controls(
                    step,
                    sessions,
                    connection_id,
                    id,
                    write.process_id@,
                    control,
                ),
            }
        },
        ClientRequest::Resize(Err(reason)) => replies(
            step,
            MessageView::Error { id, error: bad_params(COMMAND_EXEC_RESIZE_METHOD@, reason@) },
        ),
        ClientRequest::Resize(Ok(resize)) => match size_error(resize.size) {
            Some(error) => replies(step, MessageView::Error { id, error }),
            None => controls(
                step,
                sessions,
                connection_id,
                id,
                resize.process_id@,
                ControlView::Resize {
                    size: TerminalSize { rows: resize.size.rows, cols: resize.size.cols },
                },
            ),
        },
        ClientRequest::Terminate(Err(reason)) => replies(
            step,
            MessageView::Error { id, error: bad_params(COMMAND_EXEC_TERMINATE_METHOD@, reason@) },
        ),
        ClientRequest::Terminate(Ok(terminate)) => if waits_for(
            before.pending(),
            connection_id,
            terminate.process_id@,
        ) {
            step matches RequestStep::Cancelled { delivery, reply } && reply@ == empty_response(id)
                && approval_cancelled(
                before,
                after,
                connection_id,
                terminate.process_id@,
                delivery,
            )
        } else {
            controls(
                step,
                sessions,
                connection_id,
                id,
                terminate.process_id@,
                ControlView::Terminate,
            )
        },
    }
}

/// The answer to a control request, by the error with which it ended.
pub open spec fn control_answer(id: RequestIdView, error: Option<ErrorView>) -> MessageView {
    match error {
        None => empty_response(id),
        Some(error) => MessageView::Error { id, error },
    }
}

/// What ends with a connection.
pub struct ClosedConnection<P, N, S> {
    /// Answers for the approval requests that waited.
    pub network: Vec<Delivery<N>>,
    pub permissions: Vec<Delivery<P>>,
    /// The commands to end.
    pub sessions: Vec<S>,
}

/// The state of the service. `P` and `N` stand for where the answers to permission
/// and network approval requests go, `S` for the session of a running command.
pub struct Server<P, N, S> {
    pub permissions_approvals: PermissionsApprovalBroker<P>,
    pub network_approvals: NetworkApprovalBroker<N>,
    pub process_manager: ProcessManager<S>,
    /// The number of the next connection.
    pub next_connection: u64,
}

impl<P, N, S> Server<P, N, S> {
    /// A service without connections.
    pub fn new() -> (server: Self)
        ensures
            server.next_connection == 1,
            server.permissions_approvals.pending() == Map::<
                Seq<char>,
                PendingApproval<P>,
            >::empty(),
            server.permissions_approvals.next_number() == 1,
            server.network_approvals.pending() == Map::<Seq<char>, PendingApproval<N>>::empty(),
            server.network_approvals.next_number() == 1,
            server.network_approvals.cache() == SessionCache::empty(),
            server.process_manager.sessions() == Map::<ProcessKey, S>::empty(),
            server.process_manager.next_generated() == 1,
            is_fresh(server),
    {
        Server {
            permissions_approvals: PermissionsApprovalBroker::new(),
            network_approvals: NetworkApprovalBroker::new(),
            process_manager: ProcessManager::new(),
            next_connection: 1,
        }
    }

    /// The id of a new connection. The number after the largest is zero.
    pub fn next_connection_id(&mut self) -> (id: ConnectionId)
        ensures
            id == ConnectionId(old(self).next_connection),
            final(self).next_connection == next_u64(old(self).next_connection),
            final(self).permissions_approvals == old(self).permissions_approvals,
            final(self).network_approvals == old(self).network_approvals,
            final(self).process_manager == old(self).process_manager,
    {
        let number: u64 = self.next_connection;
        self.next_connection = number.wrapping_add(1);
        ConnectionId(number)
    }

    /// Takes in a message of a connection. `initialized` tells whether the
    /// connection has been initialized.
    pub fn handle_message(
        &mut self,
        connection_id: ConnectionId,
        initialized: bool,
        message: IncomingMessage,
    ) -> (step: MessageStep<P, N>)
        ensures
            final(self).permissions_approvals.wf(),
            final(self).process_manager == old(self).process_manager,
            final(self).next_connection == old(self).next_connection,
            final(self).network_approvals.cache() == old(self).network_approvals.cache(),
            final(self).network_approvals.next_number() == old(
                self,
            ).network_approvals.next_number(),
            final(self).permissions_approvals.next_number() == old(
                self,
            ).permissions_approvals.next_number(),
            final(self).permissions_approvals.pending() == match reply_id(message) {
                Some(id) => after_answer(
                    old(self).permissions_approvals.pending(),
                    connection_id,
                    id,
                ),
                None => old(self).permissions_approvals.pending(),
            },
            final(self).network_approvals.pending() == match reply_id(message) {
                Some(id) => after_answer(old(self).network_approvals.pending(), connection_id, id),
                None => old(self).network_approvals.pending(),
            },
            match message {
                IncomingMessage::Malformed => step is Ignored,
                IncomingMessage::Notification => step is Ignored,
                IncomingMessage::Response { id, decision } => step matches MessageStep::Delivered {
                    permissions,
                    network,
                } && answer_delivered(
                    permissions,
                    old(self).permissions_approvals.pending(),
                    connection_id,
                    id@,
                    match decision {
                        Ok(made) => Ok(made),
                        Err(reason) => Err("invalid permissions approval response: "@ + reason@),
                    },
                ) && answer_delivered(
                    network,
                    old(self).network_approvals.pending(),
                    connection_id,
                    id@,
                    match decision {
                        Ok(made) => Ok(made),
                        Err(reason) => Err("invalid network approval response: "@ + reason@),
                    },
                ),
                IncomingMessage::Error { id, message: text } => step
                    matches MessageStep::Delivered { permissions, network } && answer_delivered(
                    permissions,
                    old(self).permissions_approvals.pending(),
                    connection_id,
                    id@,
                    Err("permissions approval request failed: "@ + text@),
                ) && answer_delivered(
                    network,
                    old(self).network_approvals.pending(),
                    connection_id,
                    id@,
                    Err("network approval request failed: "@ + text@),
                ),
                IncomingMessage::Request { id, method } => match gate(initialized, method@) {
                    Gate::Refuse(error) => step matches MessageStep::Reply(reply) && reply@ == (
                    MessageView::Error { id: id@, error }),
                    Gate::Initialize => step matches MessageStep::Initialize { id: own } && own@
                        == id@,
                    Gate::Dispatch(known) => step matches MessageStep::Dispatch {
                        id: own,
                        method: named,
                    } && own@ == id@ && named == known,
                },
            },
            message_leads_to(
                old(self).permissions_approvals.pending(),
                old(self).network_approvals.pending(),
                connection_id,
                initialized,
                message,
                step,
            ),
            takes_answer(
                old(self).permissions_approvals.pending(),
                connection_id,
                message,
                final(self).permissions_approvals.pending(),
            ),
            takes_answer(
                old(self).network_approvals.pending(),
                connection_id,
                message,
                final(self).network_approvals.pending(),
            ),
    {
        proof {
            use_type_invariant(&self.permissions_approvals);
        }
        match message {
            IncomingMessage::Malformed => MessageStep::Ignored,
            IncomingMessage::Notification => MessageStep::Ignored,
            IncomingMessage::Response { id, decision } => {
                let copy = duplicate_decision(&decision);
                let permissions = self.permissions_approvals.handle_response(
                    connection_id,
                    &id,
                    copy,
                );
                let network = self.network_approvals.handle_response(connection_id, &id, decision);
                MessageStep::Delivered { permissions, network }
            },
            IncomingMessage::Error { id, message: text } => {
                let permissions = self.permissions_approvals.handle_error(
                    connection_id,
                    &id,
                    &text,
                );
                let network = self.network_approvals.handle_error(connection_id, &id, &text);
                MessageStep::Delivered { permissions, network }
            },
            IncomingMessage::Request { id, method } => {
                if same_text(&method, INITIALIZE_METHOD) {
                    if initialized {
                        return MessageStep::Reply(
                            error_reply(id, invalid_request("already initialized".to_owned())),
                        );
                    }
                    return MessageStep::Initialize { id };
                }
                if !initialized {
                    return MessageStep::Reply(
                        error_reply(
                            id,
                            invalid_request("initialize must be called first".to_owned()),
                        ),
                    );
                }
                match find_method(&method) {
                    Some(known) => MessageStep::Dispatch { id, method: known },
                    None => MessageStep::Reply(
                        error_reply(
                            id,
                            method_not_found(joined("unknown method: ", method.as_str())),
                        ),
                    ),
                }
            },
        }
    }

    /// Takes in a request of an initialized connection.
    pub fn handle_initialized_request<Policy, A>(
        &mut self,
        connection_id: ConnectionId,
        id: RequestId,
        request: ClientRequest<Policy, A>,
    ) -> (step: RequestStep<Policy, A, P>)
        ensures
            final(self).permissions_approvals.wf(),
            final(self).process_manager == old(self).process_manager,
            final(self).network_approvals == old(self).network_approvals,
            final(self).next_connection == old(self).next_connection,
            final(self).permissions_approvals.next_number() == old(
                self,
            ).permissions_approvals.next_number(),
            !(step is Cancelled) ==> final(self).permissions_approvals.pending() == old(
                self,
            ).permissions_approvals.pending(),
            match request {
                ClientRequest::Write(Ok(write)) => write.delta_base64 matches Some(text)
                    ==> decodes_faithfully(text@),
                _ => true,
            },
            match request {
                ClientRequest::CommandExec(Err(reason)) => replies(
                    step,
                    MessageView::Error {
                        id: id@,
                        error: bad_params(COMMAND_EXEC_METHOD@, reason@),
                    },
                ),
                ClientRequest::CommandExec(Ok(exec)) => step matches RequestStep::Exec {
                    params,
                    in_background,
                } && params == exec && in_background == (exec.additional_permissions is Some),
                ClientRequest::Write(Err(reason)) => replies(
                    step,
                    MessageView::Error {
                        id: id@,
                        error: bad_params(COMMAND_EXEC_WRITE_METHOD@, reason@),
                    },
                ),
                ClientRequest::Write(Ok(write)) => match write_request(
                    delta_decoded(opt_text(write.delta_base64)),
                    write.close_stdin,
                ) {
                    Err(error) => replies(step, MessageView::Error { id: id@, error }),
                    Ok(control) => controls(
                        step,
                        old(self).process_manager.sessions(),
                        connection_id,
                        id@,
                        write.process_id@,
                        control,
                    ),
                },
                ClientRequest::Resize(Err(reason)) => replies(
                    step,
                    MessageView::Error {
                        id: id@,
                        error: bad_params(COMMAND_EXEC_RESIZE_METHOD@, reason@),
                    },
                ),
                ClientRequest::Resize(Ok(resize)) => match size_error(resize.size) {
                    Some(error) => replies(step, MessageView::Error { id: id@, error }),
                    None => controls(
                        step,
                        old(self).process_manager.sessions(),
                        connection_id,
                        id@,
                        resize.process_id@,
                        ControlView::Resize {
                            size: TerminalSize { rows: resize.size.rows, cols: resize.size.cols },
                        },
                    ),
                },
                ClientRequest::Terminate(Err(reason)) => replies(
                    step,
                    MessageView::Error {
                        id: id@,
                        error: bad_params(COMMAND_EXEC_TERMINATE_METHOD@, reason@),
                    },
                ),
                ClientRequest::Terminate(Ok(terminate)) => if waits_for(
                    old(self).permissions_approvals.pending(),
                    connection_id,
                    terminate.process_id@,
                ) {
                    step matches RequestStep::Cancelled { delivery, reply } && reply@
                        == empty_response(id@) && approval_cancelled(
                        old(self).permissions_approvals,
                        final(self).permissions_approvals,
                        connection_id,
                        terminate.process_id@,
                        delivery,
                    )
                } else {
                    controls(
                        step,
                        old(self).process_manager.sessions(),
                        connection_id,
                        id@,
                        terminate.process_id@,
                        ControlView::Terminate,
                    )
                },
            },
            request_leads_to(
                old(self).permissions_approvals,
                old(self).process_manager.sessions(),
                connection_id,
                id@,
                request,
                step,
                final(self).permissions_approvals,
            ),
    {
        proof {
            use_type_invariant(&self.permissions_approvals);
        }
        match request {
            ClientRequest::CommandExec(params) => match params {
                Err(reason) => refuse_request(id, params_refused(COMMAND_EXEC_METHOD, &reason)),
                Ok(params) => {
                    let in_background = params.additional_permissions.is_some();
                    RequestStep::Exec { params, in_background }
                },
            },
            ClientRequest::Write(params) => match params {
                Err(reason) => refuse_request(
                    id,
                    params_refused(COMMAND_EXEC_WRITE_METHOD, &reason),
                ),
                Ok(params) => control_or_refuse(
                    id,
                    self.process_manager.write(connection_id, params),
                ),
            },
            ClientRequest::Resize(params) => match params {
                Err(reason) => refuse_request(
                    id,
                    params_refused(COMMAND_EXEC_RESIZE_METHOD, &reason),
                ),
                Ok(params) => control_or_refuse(
                    id,
                    self.process_manager.resize(connection_id, params),
                ),
            },
            ClientRequest::Terminate(params) => match params {
                Err(reason) => refuse_request(
                    id,
                    params_refused(COMMAND_EXEC_TERMINATE_METHOD, &reason),
                ),
                Ok(params) => {
                    match self.permissions_approvals.cancel_process(
                        connection_id,
                        &params.process_id,
                    ) {
                        Some(delivery) => RequestStep::Cancelled {
                            delivery,
                            reply: empty_reply(id),
                        },
                        None => control_or_refuse(
                            id,
                            self.process_manager.terminate(connection_id, params),
                        ),
                    }
                },
            },
        }
    }

    /// Ends what belongs to a connection that closed: its waiting approval
    /// requests fail, what it remembered is forgotten and its commands are handed
    /// over to be ended.
    pub fn connection_closed(&mut self, connection_id: ConnectionId) -> (closed: ClosedConnection<
        P,
        N,
        S,
    >)
        ensures
            final(self).permissions_approvals.wf(),
            final(self).next_connection == old(self).next_connection,
            final(self).network_approvals.cache() == without(
                old(self).network_approvals.cache(),
                remembered_by(connection_id),
            ),
            final(self).network_approvals.pending() == without(
                old(self).network_approvals.pending(),
                owned_by(connection_id),
            ),
            final(self).network_approvals.next_number() == old(
                self,
            ).network_approvals.next_number(),
            all_refused(
                closed.network@,
                old(self).network_approvals.pending(),
                connection_id,
                "network approval connection closed"@,
            ),
            final(self).permissions_approvals.pending() == without(
                old(self).permissions_approvals.pending(),
                owned_by(connection_id),
            ),
            final(self).permissions_approvals.next_number() == old(
                self,
            ).permissions_approvals.next_number(),
            all_refused(
                closed.permissions@,
                old(self).permissions_approvals.pending(),
                connection_id,
                "permissions approval connection closed"@,
            ),
            final(self).process_manager.sessions() == without(
                old(self).process_manager.sessions(),
                runs_on(connection_id),
            ),
            final(self).process_manager.next_generated() == old(
                self,
            ).process_manager.next_generated(),
            are_values_of(
                closed.sessions@,
                old(self).process_manager.sessions(),
                runs_on(connection_id),
            ),
            closes(*old(self), connection_id, closed, *final(self)),
    {
        let network = self.network_approvals.connection_closed(connection_id);
        let permissions = self.permissions_approvals.connection_closed(connection_id);
        let sessions = self.process_manager.connection_closed(connection_id);
        ClosedConnection { network, permissions, sessions }
    }
}

/// The id of the request that a reply answers.
pub open spec fn reply_id(message: IncomingMessage) -> Option<RequestIdView> {
    match message {
        IncomingMessage::Response { id, .. } => Some(id@),
        IncomingMessage::Error { id, .. } => Some(id@),
        _ => None,
    }
}

/// Whether the approval request that waited for a command has been cancelled and
/// no other has been touched.
pub open spec fn approval_cancelled<P>(
    before: PermissionsApprovalBroker<P>,
    after: PermissionsApprovalBroker<P>,
    connection_id: ConnectionId,
    process_id: Seq<char>,
    delivery: Delivery<P>,
) -> bool {
    exists|id: Seq<char>| #[trigger]
        awaits(before.pending(), id, connection_id, process_id) && after.pending()
            == before.pending().remove(id) && delivery.response_tx
            == before.pending()[id].response_tx && response_view(delivery.response) == Err::<
            ApprovalDecision,
            Seq<char>,
        >("permissions approval cancelled"@)
}

fn duplicate_decision(decision: &Result<ApprovalDecision, String>) -> (copy: Result<
    ApprovalDecision,
    String,
>)
    ensures
        copy == *decision,
{
    match decision {
        Err(reason) => Err(reason.clone()),
        Ok(made) => Ok(
            match made {
                ApprovalDecision::Accept => ApprovalDecision::Accept,
                ApprovalDecision::AcceptForSession => ApprovalDecision::AcceptForSession,
                ApprovalDecision::AcceptWithExecpolicyAmendment =>
                    ApprovalDecision::AcceptWithExecpolicyAmendment,
                ApprovalDecision::ApplyNetworkPolicyAmendment { host, action } =>
                    ApprovalDecision::ApplyNetworkPolicyAmendment {
                    host: host.clone(),
                    action: *action,
                },
                ApprovalDecision::Decline => ApprovalDecision::Decline,
                ApprovalDecision::Cancel => ApprovalDecision::Cancel,
            },
        ),
    }
}

fn refuse_request<Policy, A, P>(id: RequestId, error: JSONRPCErrorError) -> (step: RequestStep<
    Policy,
    A,
    P,
>)
    ensures
        replies(step, MessageView::Error { id: id@, error: error@ }),
{
    RequestStep::Reply(error_reply(id, error))
}

fn control_or_refuse<Policy, A, P>(
    id: RequestId,
    result: Result<ControlOrder, JSONRPCErrorError>,
) -> (step: RequestStep<Policy, A, P>)
    ensures
        match result {
            Ok(order) => step == RequestStep::<Policy, A, P>::Control(order),
            Err(error) => replies(step, MessageView::Error { id: id@, error: error@ }),
        },
{
    match result {
        Ok(order) => RequestStep::Control(order),
        Err(error) => refuse_request(id, error),
    }
}

/// The answer to a control request, by how the running command took it.
pub fn control_reply(id: RequestId, result: Result<(), JSONRPCErrorError>) -> (reply:
    OutgoingMessage)
    ensures
        reply@ == match error_of(result) {
            None => empty_response(id@),
            Some(error) => MessageView::Error { id: id@, error },
        },
        reply@ == control_answer(id@, error_of(result)),
{
    match result {
        Ok(_) => empty_reply(id),
        Err(error) => error_reply(id, error),
    }
}

/// The answer to a `command/exec` request whose command is not started.
pub fn refused_reply(id: RequestId, error: JSONRPCErrorError) -> (reply: OutgoingMessage)
    ensures
        reply@ == (MessageView::Error { id: id@, error: error@ }),
{
    error_reply(id, error)
}

/// Before a connection is initialized every request but `initialize` is refused,
/// and after that `initialize` is.
pub proof fn law_initialize_comes_first_and_once(method: Seq<char>)
    ensures
        gate(false, method) == Gate::Initialize <==> method == INITIALIZE_METHOD@,
        method != INITIALIZE_METHOD@ ==> gate(false, method) == Gate::Refuse(
            invalid_request_error("initialize must be called first"@),
        ),
        gate(true, INITIALIZE_METHOD@) == Gate::Refuse(
            invalid_request_error("already initialized"@),
        ),
{
}

/// An initialized connection has each method under its name, and no other.
pub proof fn law_methods_have_distinct_names(method: Method, name: Seq<char>)
    ensures
        method_named(method_name(method)) == Some(method),
        gate(true, method_name(method)) == Gate::Dispatch(method),
        gate(true, name) is Dispatch ==> name == method_name(gate(true, name)->Dispatch_0),
{
    reveal_strlit("initialize");
    reveal_strlit("command/exec");
    reveal_strlit("command/exec/write");
    reveal_strlit("command/exec/resize");
    reveal_strlit("command/exec/terminate");
    assert(COMMAND_EXEC_METHOD@.len() == 12);
    assert(COMMAND_EXEC_WRITE_METHOD@.len() == 18);
    assert(COMMAND_EXEC_RESIZE_METHOD@.len() == 19);
    assert(COMMAND_EXEC_TERMINATE_METHOD@.len() == 22);
    assert(INITIALIZE_METHOD@.len() == 10);
}

/// New connections have ids that differ from each other and from that of the
/// standard streams, until all numbers have been used.
pub proof fn law_connection_ids_are_fresh(number: u64)
    requires
        0 < number < u64::MAX,
    ensures
        ConnectionId(number) != ConnectionId(0),
        next_u64(number) > number,
{
}

/// A request of a connection that is not initialized is refused, unless it is the one
/// that initializes it; on one that is, each known method is handled and every other
/// is refused with its name. The id of the request stays with what becomes of it.
pub proof fn law_requests_are_let_through_by_name<P, N>(
    permissions_pending: Map<Seq<char>, PendingApproval<P>>,
    network_pending: Map<Seq<char>, PendingApproval<N>>,
    connection_id: ConnectionId,
    initialized: bool,
    id: RequestId,
    method: String,
    step: MessageStep<P, N>,
)
    requires
        message_leads_to(
            permissions_pending,
            network_pending,
            connection_id,
            initialized,
            IncomingMessage::Request { id, method },
            step,
        ),
    ensures
        ({
            let name = method@;
            let known = name == "command/exec"@ || name == "command/exec/write"@ || name
                == "command/exec/resize"@ || name == "command/exec/terminate"@;
            &&& step is Initialize <==> !initialized && name == "initialize"@
            &&& step is Dispatch <==> initialized && known
            &&& step matches MessageStep::Initialize { id: own } ==> own@ == id@
            &&& step matches MessageStep::Dispatch { id: own, method: found } ==> {
                &&& own@ == id@
                &&& found is CommandExec <==> name == "command/exec"@
                &&& found is CommandExecWrite <==> name == "command/exec/write"@
                &&& found is CommandExecResize <==> name == "command/exec/resize"@
                &&& found is CommandExecTerminate <==> name == "command/exec/terminate"@
            }
            &&& initialized && name == "initialize"@ ==> (step matches MessageStep::Reply(reply)
                && (reply@ matches MessageView::Error { id: own, error } && own == id@
                && error.code == -32600 && error.message == "already initialized"@))
            &&& !initialized && name != "initialize"@ ==> (step matches MessageStep::Reply(reply)
                && (reply@ matches MessageView::Error { id: own, error } && own == id@
                && error.code == -32600 && error.message == "initialize must be called first"@))
            &&& initialized && name != "initialize"@ && !known ==> (
            step matches MessageStep::Reply(reply) && (reply@ matches MessageView::Error {
                id: own,
                error,
            } && own == id@ && error.code == -32601 && error.message == "unknown method: "@
                + name))
        }),
{
    reveal_strlit("initialize");
    reveal_strlit("command/exec");
    reveal_strlit("command/exec/write");
    reveal_strlit("command/exec/resize");
    reveal_strlit("command/exec/terminate");
    assert("command/exec"@.len() == 12);
    assert("command/exec/write"@.len() == 18);
    assert("command/exec/resize"@.len() == 19);
    assert("command/exec/terminate"@.len() == 22);
    assert("initialize"@.len() == 10);
}

/// A reply of a client is handed to the approval request of its connection that waits
/// under its id, with the decision that it carries; where no request waits, to none.
pub proof fn law_decisions_reach_the_waiting_request<P, N>(
    permissions_pending: Map<Seq<char>, PendingApproval<P>>,
    network_pending: Map<Seq<char>, PendingApproval<N>>,
    connection_id: ConnectionId,
    initialized: bool,
    id: RequestId,
    text: Seq<char>,
    decision: ApprovalDecision,
    step: MessageStep<P, N>,
)
    requires
        id@ == RequestIdView::Text(text),
        message_leads_to(
            permissions_pending,
            network_pending,
            connection_id,
            initialized,
            IncomingMessage::Response { id, decision: Ok(decision) },
            step,
        ),
    ensures
        step matches MessageStep::Delivered { permissions, network } && {
            &&& permissions is Some <==> permissions_pending.contains_key(text)
                && permissions_pending[text].connection_id == connection_id
            &&& permissions matches Some(sent) ==> sent.response_tx
                == permissions_pending[text].response_tx && (sent.response matches Ok(told)
                && told == decision)
            &&& network is Some <==> network_pending.contains_key(text)
                && network_pending[text].connection_id == connection_id
            &&& network matches Some(sent) ==> sent.response_tx
                == network_pending[text].response_tx && (sent.response matches Ok(told) && told
                == decision)
        },
{
}

/// What is not a message, and a notification, lead to nothing.
pub proof fn law_other_messages_are_ignored<P, N>(
    permissions_pending: Map<Seq<char>, PendingApproval<P>>,
    network_pending: Map<Seq<char>, PendingApproval<N>>,
    connection_id: ConnectionId,
    initialized: bool,
    message: IncomingMessage,
    step: MessageStep<P, N>,
)
    requires
        message_leads_to(
            permissions_pending,
            network_pending,
            connection_id,
            initialized,
            message,
            step,
        ),
    ensures
        step is Ignored <==> message is Malformed || message is Notification,
        reply_id(message) is Some <==> message is Response || message is Error,
        message matches IncomingMessage::Response { id, .. } ==> reply_id(message) == Some(id@),
        message matches IncomingMessage::Error { id, .. } ==> reply_id(message) == Some(id@),
{
}

/// An `initialize` request is answered with the name and version of the service, its
/// home directory and its platform. The connection is initialized exactly once the
/// home directory is found; otherwise the client is told the reason.
pub proof fn law_initialize_is_answered_with_the_service(
    id: RequestIdView,
    outcome: InitializeOutcome,
    version: Seq<char>,
    reply: OutgoingMessage,
    after: bool,
)
    requires
        initialize_step(false, id, outcome, version, reply, after),
    ensures
        after <==> outcome is Home || outcome is UnsendableHome,
        outcome matches InitializeOutcome::Home(home) ==> (reply@ matches MessageView::Response {
            id: own,
            result,
        } && {
            &&& own == id
            &&& member_names(result) == seq![
                "userAgent"@,
                "codexHome"@,
                "platformFamily"@,
                "platformOs"@,
            ]
            &&& has_member(
                result,
                "userAgent"@,
                FieldValueView::Text("codex-sandbox-server/"@ + version),
            )
            &&& has_member(result, "codexHome"@, FieldValueView::Text(home@))
            &&& has_member(result, "platformFamily"@, FieldValueView::Text("unix"@))
            &&& has_member(result, "platformOs"@, FieldValueView::Text("linux"@))
        }),
        outcome matches InitializeOutcome::InvalidParams(reason) ==> (
        reply@ matches MessageView::Error { id: own, error } && own == id && error.code == -32602
            && error.message == "invalid params for "@ + "initialize"@ + ": "@ + reason@),
        outcome matches InitializeOutcome::NoHome(reason) ==> (reply@ matches MessageView::Error {
            id: own,
            error,
        } && own == id && error.code == -32603 && error.message == reason@),
        outcome matches InitializeOutcome::UnsendableHome(reason) ==> (
        reply@ matches MessageView::Error { id: own, error } && own == id && error.code == -32603
            && error.message == reason@),
{
    if outcome is Home {
        let result = reply@->Response_result;
        assert(member_names(result) =~= seq![
            "userAgent"@,
            "codexHome"@,
            "platformFamily"@,
            "platformOs"@,
        ]);
        assert(result[0].0 == "userAgent"@ && result[1].0 == "codexHome"@);
        assert(result[2].0 == "platformFamily"@ && result[3].0 == "platformOs"@);
    }
}

/// A connection that is initialized stays so.
pub proof fn law_initialized_connections_stay_initialized(
    id: RequestIdView,
    outcome: InitializeOutcome,
    version: Seq<char>,
    reply: OutgoingMessage,
    after: bool,
)
    requires
        initialize_step(true, id, outcome, version, reply, after),
    ensures
        after,
{
}

/// The bytes that a client writes reach the command that it names, and with them
/// whether the input is closed; where no such command runs, the client is told so.
pub proof fn law_written_bytes_reach_the_named_command<Policy, A, P, S>(
    before: PermissionsApprovalBroker<P>,
    sessions: Map<ProcessKey, S>,
    connection_id: ConnectionId,
    id: RequestIdView,
    write: CommandExecWriteParams,
    bytes: Seq<u8>,
    step: RequestStep<Policy, A, P>,
    after: PermissionsApprovalBroker<P>,
)
    requires
        write.delta_base64 matches Some(text) && text@ == base64_encoded(bytes),
        request_leads_to(
            before,
            sessions,
            connection_id,
            id,
            ClientRequest::<Policy, A>::Write(Ok(write)),
            step,
            after,
        ),
    ensures
        ({
            let target = (connection_id, ProcessIdView::Client(write.process_id@));
            &&& sessions.contains_key(target) ==> (step matches RequestStep::Control(order) && {
                &&& order.key@ == target
                &&& order.control@ matches ControlView::Write { delta, close_stdin } && delta
                    == bytes && close_stdin == write.close_stdin
                &&& !order.cancel_execution
            })
            &&& !sessions.contains_key(target) ==> (step matches RequestStep::Reply(reply) && (
            reply@ matches MessageView::Error { id: own, error } && own == id && error.code
                == -32600 && error.message == "no active command/exec for process id "@
                + json_string(write.process_id@)))
        }),
        after.pending() == before.pending(),
{
}

/// A resize reaches the command that the client names with exactly the rows and
/// columns asked for. Where no such command runs, or the size has no room, the client
/// is told so.
pub proof fn law_resizes_reach_the_named_command<Policy, A, P, S>(
    before: PermissionsApprovalBroker<P>,
    sessions: Map<ProcessKey, S>,
    connection_id: ConnectionId,
    id: RequestIdView,
    resize: CommandExecResizeParams,
    step: RequestStep<Policy, A, P>,
    after: PermissionsApprovalBroker<P>,
)
    requires
        request_leads_to(
            before,
            sessions,
            connection_id,
            id,
            ClientRequest::<Policy, A>::Resize(Ok(resize)),
            step,
            after,
        ),
    ensures
        ({
            let target = (connection_id, ProcessIdView::Client(resize.process_id@));
            let room = resize.size.rows > 0 && resize.size.cols > 0;
            &&& room && sessions.contains_key(target) ==> (step matches RequestStep::Control(order)
                && {
                &&& order.key@ == target
                &&& order.control@ matches ControlView::Resize { size } && size.rows
                    == resize.size.rows && size.cols == resize.size.cols
                &&& !order.cancel_execution
            })
            &&& room && !sessions.contains_key(target) ==> (step matches RequestStep::Reply(reply)
                && (reply@ matches MessageView::Error { id: own, error } && own == id
                && error.code == -32600 && error.message
                == "no active command/exec for process id "@ + json_string(resize.process_id@)))
            &&& !room ==> (step matches RequestStep::Reply(reply) && (
            reply@ matches MessageView::Error { id: own, error } && own == id && error.code
                == -32602 && error.message
                == "command/exec size rows and cols must be greater than 0"@))
        }),
        after.pending() == before.pending(),
{
}

/// A termination cancels the approval that the named command waits for, which is
/// answered with an empty result. Where it waits for none, the running command is
/// told to end and what it has going outside its process is cancelled.
pub proof fn law_terminations_end_the_named_command<Policy, A, P, S>(
    before: PermissionsApprovalBroker<P>,
    sessions: Map<ProcessKey, S>,
    connection_id: ConnectionId,
    id: RequestIdView,
    terminate: CommandExecTerminateParams,
    step: RequestStep<Policy, A, P>,
    after: PermissionsApprovalBroker<P>,
)
    requires
        before.wf(),
        request_leads_to(
            before,
            sessions,
            connection_id,
            id,
            ClientRequest::<Policy, A>::Terminate(Ok(terminate)),
            step,
            after,
        ),
    ensures
        ({
            let target = (connection_id, ProcessIdView::Client(terminate.process_id@));
            let waiting = is_waiting(before.pending(), connection_id, terminate.process_id@);
            &&& waiting ==> (step matches RequestStep::Cancelled { delivery, reply } && {
                &&& reply@ matches MessageView::Response { id: own, result } && own == id
                    && result.len() == 0
                &&& delivery.response matches Err(reason) && reason@
                    == "permissions approval cancelled"@
                &&& !is_waiting(after.pending(), connection_id, terminate.process_id@)
            })
            &&& !waiting && sessions.contains_key(target) ==> (step matches RequestStep::Control(
                order,
            ) && order.key@ == target && order.control@ is Terminate && order.cancel_execution)
            &&& !waiting && !sessions.contains_key(target) ==> (step matches RequestStep::Reply(
                reply,
            ) && (reply@ matches MessageView::Error { id: own, error } && own == id && error.code
                == -32600 && error.message == "no active command/exec for process id "@
                + json_string(terminate.process_id@)))
        }),
{
    let name = terminate.process_id@;
    let waiting = is_waiting(before.pending(), connection_id, name);
    if waiting {
        let id = choose|id: Seq<char>| #[trigger]
            before.pending().contains_key(id) && before.pending()[id].connection_id
                == connection_id && (before.pending()[id].process_id matches Some(own) && own@
                == name);
        assert(awaits(before.pending(), id, connection_id, name));
        assert(waits_for(before.pending(), connection_id, name));
        let delivery = step->Cancelled_delivery;
        let gone = choose|gone: Seq<char>| #[trigger]
            awaits(before.pending(), gone, connection_id, name) && after.pending()
                == before.pending().remove(gone) && delivery.response_tx
                == before.pending()[gone].response_tx && response_view(delivery.response) == Err::<
                ApprovalDecision,
                Seq<char>,
            >("permissions approval cancelled"@);
        assert(after.pending() == before.pending().remove(gone));
        if is_waiting(after.pending(), connection_id, name) {
            let other = choose|other: Seq<char>| #[trigger]
                after.pending().contains_key(other) && after.pending()[other].connection_id
                    == connection_id && (after.pending()[other].process_id matches Some(own)
                    && own@ == name);
            assert(awaits(before.pending(), other, connection_id, name));
            assert(other == gone);
        }
    } else {
        if waits_for(before.pending(), connection_id, name) {
            let id = choose|id: Seq<char>| #[trigger]
                awaits(before.pending(), id, connection_id, name);
            assert(before.pending().contains_key(id));
        }
    }
}

/// A command that is requested is handed on as it was sent, beside the other requests
/// exactly if it asks for permissions.
pub proof fn law_commands_are_handed_on_as_sent<Policy, A, P, S>(
    before: PermissionsApprovalBroker<P>,
    sessions: Map<ProcessKey, S>,
    connection_id: ConnectionId,
    id: RequestIdView,
    exec: SandboxCommandExecParams<Policy, A>,
    step: RequestStep<Policy, A, P>,
    after: PermissionsApprovalBroker<P>,
)
    requires
        request_leads_to(
            before,
            sessions,
            connection_id,
            id,
            ClientRequest::<Policy, A>::CommandExec(Ok(exec)),
            step,
            after,
        ),
    ensures
        step matches RequestStep::Exec { params, in_background } && params == exec && (in_background
            <==> exec.additional_permissions is Some),
        after.pending() == before.pending(),
{
}

/// Parameters that do not fit are refused with the name of their method and the
/// reason.
pub proof fn law_misfit_parameters_are_refused<Policy, A, P, S>(
    before: PermissionsApprovalBroker<P>,
    sessions: Map<ProcessKey, S>,
    connection_id: ConnectionId,
    id: RequestIdView,
    request: ClientRequest<Policy, A>,
    method: Seq<char>,
    reason: Seq<char>,
    step: RequestStep<Policy, A, P>,
    after: PermissionsApprovalBroker<P>,
)
    requires
        request_leads_to(before, sessions, connection_id, id, request, step, after),
        match request {
            ClientRequest::CommandExec(Err(told)) => told@ == reason && method == "command/exec"@,
            ClientRequest::Write(Err(told)) => told@ == reason && method == "command/exec/write"@,
            ClientRequest::Resize(Err(told)) => told@ == reason && method
                == "command/exec/resize"@,
            ClientRequest::Terminate(Err(told)) => told@ == reason && method
                == "command/exec/terminate"@,
            _ => false,
        },
    ensures
        step matches RequestStep::Reply(reply) && (reply@ matches MessageView::Error {
            id: own,
            error,
        } && own == id && error.code == -32602 && error.message == "invalid params for "@ + method
            + ": "@ + reason),
        after.pending() == before.pending(),
{
}

/// A control that was carried out is answered with an empty result, and one that was
/// not with the error, each under the id of its request.
pub proof fn law_controls_are_answered(id: RequestIdView, error: ErrorView)
    ensures
        control_answer(id, None) matches MessageView::Response { id: own, result } && own == id
            && result.len() == 0,
        control_answer(id, Some(error)) matches MessageView::Error { id: own, error: told } && own
            == id && told == error,
{
}

/// A message is taken in: the approval requests that wait before and after it.
pub open spec fn takes_answer<T>(
    before: Map<Seq<char>, PendingApproval<T>>,
    connection_id: ConnectionId,
    message: IncomingMessage,
    after: Map<Seq<char>, PendingApproval<T>>,
) -> bool {
    after == match reply_id(message) {
        Some(id) => after_answer(before, connection_id, id),
        None => before,
    }
}

/// Only a reply ends a wait: that of the request of its connection with its id. All
/// other requests go on waiting, whatever comes in.
pub proof fn law_only_a_reply_ends_a_wait<T>(
    before: Map<Seq<char>, PendingApproval<T>>,
    connection_id: ConnectionId,
    message: IncomingMessage,
    after: Map<Seq<char>, PendingApproval<T>>,
    id: Seq<char>,
)
    requires
        takes_answer(before, connection_id, message, after),
        before.contains_key(id),
    ensures
        ({
            let answered = before[id].connection_id == connection_id && match message {
                IncomingMessage::Response { id: own, .. } => own@ == RequestIdView::Text(id),
                IncomingMessage::Error { id: own, .. } => own@ == RequestIdView::Text(id),
                _ => false,
            };
            &&& answered ==> !after.contains_key(id)
            &&& !answered ==> after.contains_key(id) && after[id] == before[id]
        }),
{
}

/// A connection closes: what ends with it, and the service before and after it.
pub open spec fn closes<P, N, S>(
    before: Server<P, N, S>,
    connection_id: ConnectionId,
    closed: ClosedConnection<P, N, S>,
    after: Server<P, N, S>,
) -> bool {
    &&& after.next_connection == before.next_connection
    &&& after.network_approvals.cache() == without(
        before.network_approvals.cache(),
        remembered_by(connection_id),
    )
    &&& after.network_approvals.pending() == without(
        before.network_approvals.pending(),
        owned_by(connection_id),
    )
    &&& all_refused(
        closed.network@,
        before.network_approvals.pending(),
        connection_id,
        "network approval connection closed"@,
    )
    &&& after.permissions_approvals.pending() == without(
        before.permissions_approvals.pending(),
        owned_by(connection_id),
    )
    &&& all_refused(
        closed.permissions@,
        before.permissions_approvals.pending(),
        connection_id,
        "permissions approval connection closed"@,
    )
    &&& after.process_manager.sessions() == without(
        before.process_manager.sessions(),
        runs_on(connection_id),
    )
    &&& are_values_of(
        closed.sessions@,
        before.process_manager.sessions(),
        runs_on(connection_id),
    )
}

/// What belongs to a closed connection ends with it: each of its waiting requests is
/// told that it has closed, each of its running commands is handed over to be ended,
/// and nothing of it is left.
pub proof fn law_closing_ends_what_belongs_to_the_connection<P, N, S>(
    before: Server<P, N, S>,
    connection_id: ConnectionId,
    closed: ClosedConnection<P, N, S>,
    after: Server<P, N, S>,
    id: Seq<char>,
    key: ProcessKey,
    entry: (ConnectionId, CacheKeyView),
)
    requires
        closes(before, connection_id, closed, after),
    ensures
        ({
            let permissions = before.permissions_approvals.pending();
            let left = after.permissions_approvals.pending();
            &&& permissions.contains_key(id) && permissions[id].connection_id == connection_id
                ==> is_told(closed.permissions@, permissions[id])
            &&& left.contains_key(id) <==> permissions.contains_key(id)
                && permissions[id].connection_id != connection_id
            &&& left.contains_key(id) ==> left[id] == permissions[id]
        }),
        ({
            let network = before.network_approvals.pending();
            let left = after.network_approvals.pending();
            &&& network.contains_key(id) && network[id].connection_id == connection_id ==> is_told(
                closed.network@,
                network[id],
            )
            &&& left.contains_key(id) <==> network.contains_key(id) && network[id].connection_id
                != connection_id
            &&& left.contains_key(id) ==> left[id] == network[id]
        }),
        forall|i: int|
            0 <= i < closed.permissions@.len() ==> ((
            #[trigger] closed.permissions@[i]).response matches Err(reason) && reason@
                == "permissions approval connection closed"@),
        forall|i: int|
            0 <= i < closed.network@.len() ==> ((
            #[trigger] closed.network@[i]).response matches Err(reason) && reason@
                == "network approval connection closed"@),
        ({
            let sessions = before.process_manager.sessions();
            let left = after.process_manager.sessions();
            &&& sessions.contains_key(key) && key.0 == connection_id
                ==> closed.sessions@.contains(sessions[key])
            &&& left.contains_key(key) <==> sessions.contains_key(key) && key.0 != connection_id
            &&& left.contains_key(key) ==> left[key] == sessions[key]
        }),
        ({
            let cache = before.network_approvals.cache();
            let left = after.network_approvals.cache();
            &&& left.contains_key(entry) <==> cache.contains_key(entry) && entry.0 != connection_id
            &&& left.contains_key(entry) ==> left[entry] == cache[entry]
        }),
{
    law_closing_tells_every_waiting_request(
        closed.permissions@,
        before.permissions_approvals.pending(),
        connection_id,
        "permissions approval connection closed"@,
    );
    law_closing_tells_every_waiting_request(
        closed.network@,
        before.network_approvals.pending(),
        connection_id,
        "network approval connection closed"@,
    );
    law_taken_values_are_those_of_the_condition(
        closed.sessions@,
        before.process_manager.sessions(),
        runs_on(connection_id),
    );
}

/// Whether a service has just been made.
pub open spec fn is_fresh<P, N, S>(server: Server<P, N, S>) -> bool {
    &&& server.next_connection == 1
    &&& server.permissions_approvals.pending() == Map::<Seq<char>, PendingApproval<P>>::empty()
    &&& server.network_approvals.pending() == Map::<Seq<char>, PendingApproval<N>>::empty()
    &&& server.network_approvals.cache() == SessionCache::empty()
    &&& server.process_manager.sessions() == Map::<ProcessKey, S>::empty()
}

/// A new service runs nothing, awaits nothing and remembers nothing, and its first
/// connection has another id than the standard streams.
pub proof fn law_a_new_service_starts_from_nothing<P, N, S>(
    server: Server<P, N, S>,
    id: Seq<char>,
    key: ProcessKey,
    entry: (ConnectionId, CacheKeyView),
)
    requires
        is_fresh(server),
    ensures
        server.next_connection > 0,
        !server.permissions_approvals.pending().contains_key(id),
        !server.network_approvals.pending().contains_key(id),
        !server.network_approvals.cache().contains_key(entry),
        !server.process_manager.sessions().contains_key(key),
{
}

/// Every write leads to a control for the named command or to an answer. One whose
/// text does not decode, and one with neither bytes nor a wish to close the input, is
/// refused; one without bytes that closes the input does just that.
pub proof fn law_writes_are_controls_or_refused<Policy, A, P, S>(
    before: PermissionsApprovalBroker<P>,
    sessions: Map<ProcessKey, S>,
    connection_id: ConnectionId,
    id: RequestIdView,
    write: CommandExecWriteParams,
    step: RequestStep<Policy, A, P>,
    after: PermissionsApprovalBroker<P>,
)
    requires
        request_leads_to(
            before,
            sessions,
            connection_id,
            id,
            ClientRequest::<Policy, A>::Write(Ok(write)),
            step,
            after,
        ),
    ensures
        ({
            let target = (connection_id, ProcessIdView::Client(write.process_id@));
            let running = sessions.contains_key(target);
            &&& write.delta_base64 is None && !write.close_stdin ==> (
            step matches RequestStep::Reply(reply) && (reply@ matches MessageView::Error {
                id: own,
                error,
            } && own == id && error.code == -32602 && error.message
                == "command/exec/write requires deltaBase64 or closeStdin"@))
            &&& write.delta_base64 is None && write.close_stdin && running ==> (
            step matches RequestStep::Control(order) && order.key@ == target && (
            order.control@ matches ControlView::Write { delta, close_stdin } && delta.len() == 0
                && close_stdin))
            &&& write.delta_base64 matches Some(text) ==> match base64_decoded(text@) {
                Err(reason) => step matches RequestStep::Reply(reply) && (
                reply@ matches MessageView::Error { id: own, error } && own == id && error.code
                    == -32602 && error.message == "invalid deltaBase64: "@ + reason),
                Ok(bytes) => running ==> (step matches RequestStep::Control(order) && order.key@
                    == target && (order.control@ matches ControlView::Write { delta, close_stdin }
                    && delta == bytes && close_stdin == write.close_stdin)),
            }
            &&& step matches RequestStep::Control(order) ==> running && !order.cancel_execution
            &&& step is Control || step is Reply
        }),
        after.pending() == before.pending(),
{
}

/// A reply without a usable decision is handed to the approval request of its
/// connection that waits under its id, as a refusal with the reason; and no reply is
/// handed to any other request.
pub proof fn law_failed_replies_reach_the_waiting_request<P, N>(
    permissions_pending: Map<Seq<char>, PendingApproval<P>>,
    network_pending: Map<Seq<char>, PendingApproval<N>>,
    connection_id: ConnectionId,
    initialized: bool,
    message: IncomingMessage,
    text: Seq<char>,
    fault: Seq<char>,
    step: MessageStep<P, N>,
)
    requires
        match message {
            IncomingMessage::Response { id, decision: Err(reason) } => id@ == RequestIdView::Text(
                text,
            ) && reason@ == fault,
            IncomingMessage::Error { id, message: reason } => id@ == RequestIdView::Text(text)
                && reason@ == fault,
            _ => false,
        },
        message_leads_to(
            permissions_pending,
            network_pending,
            connection_id,
            initialized,
            message,
            step,
        ),
    ensures
        step matches MessageStep::Delivered { permissions, network } && {
            &&& permissions is Some <==> permissions_pending.contains_key(text)
                && permissions_pending[text].connection_id == connection_id
            &&& permissions matches Some(sent) ==> sent.response_tx
                == permissions_pending[text].response_tx && (sent.response matches Err(reason)
                && reason@ == if message is Error {
                "permissions approval request failed: "@ + fault
            } else {
                "invalid permissions approval response: "@ + fault
            })
            &&& network is Some <==> network_pending.contains_key(text)
                && network_pending[text].connection_id == connection_id
            &&& network matches Some(sent) ==> sent.response_tx
                == network_pending[text].response_tx && (sent.response matches Err(reason)
                && reason@ == if message is Error {
                "network approval request failed: "@ + fault
            } else {
                "invalid network approval response: "@ + fault
            })
        },
{
}

/// A reply whose id is a number is handed to no request.
pub proof fn law_numbered_replies_reach_no_request<P, N>(
    permissions_pending: Map<Seq<char>, PendingApproval<P>>,
    network_pending: Map<Seq<char>, PendingApproval<N>>,
    connection_id: ConnectionId,
    initialized: bool,
    message: IncomingMessage,
    step: MessageStep<P, N>,
)
    requires
        reply_id(message) matches Some(id) && id is Integer,
        message_leads_to(
            permissions_pending,
            network_pending,
            connection_id,
            initialized,
            message,
            step,
        ),
    ensures
        step matches MessageStep::Delivered { permissions, network } && permissions is None
            && network is None,
{
}

} // verus!
