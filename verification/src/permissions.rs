//! Approval of additional permissions before a command is started.

use crate::approval::{
    after_answer, all_refused, answer_delivered, approval_id, awaits, next_u64, owned_by,
    response_view, ApprovalDecision, ApprovalResponse, Delivery, PendingApproval, PendingApprovals,
};
use crate::external::{debug_string, debug_text};
use crate::protocol::{
    clone_opt_text, error_of, has_member, invalid_request, invalid_request_error, member_names,
    object, opt_text, text_or_null, text_or_null_value, texts, ConnectionId, ErrorView, Field,
    FieldValue, FieldValueView, JSONRPCErrorError, MessageView, ObjectView, OutgoingMessage,
    RequestId, RequestIdView, COMMAND_EXEC_REQUEST_PERMISSIONS_APPROVAL_METHOD,
};
use crate::table::without;
use crate::text::joined;
use vstd::prelude::*;
use vstd::string::*;

verus! {

pub const PERMISSIONS_APPROVAL_ID_PREFIX: &'static str = "permissions-approval:";

/// The parts of an approval request that come in serialized form.
pub struct PermissionsPayload {
    /// The working directory of the command.
    pub cwd: String,
    /// The normalized permissions, as JSON text.
    pub additional_permissions: String,
}

/// An approval request to send; its answer comes back under `request_id`.
#[derive(Debug, Clone, PartialEq, Eq)]
pub struct ApprovalRequest {
    pub request_id: String,
    pub message: OutgoingMessage,
}

/// The parameters of a permissions approval request.
pub open spec fn permissions_object(
    process_id: Option<Seq<char>>,
    command: Seq<Seq<char>>,
    cwd: Seq<char>,
    additional_permissions: Seq<char>,
) -> ObjectView {
    seq![
        ("processId"@, text_or_null(process_id)),
        ("command"@, FieldValueView::TextList(command)),
        ("cwd"@, FieldValueView::Text(cwd)),
        ("additionalPermissions"@, FieldValueView::Json(additional_permissions)),
    ]
}

/// Whether a request of this connection waits for this command.
pub open spec fn waits_for<T>(
    pending: Map<Seq<char>, PendingApproval<T>>,
    connection_id: ConnectionId,
    process_id: Seq<char>,
) -> bool {
    exists|id: Seq<char>| #[trigger] awaits(pending, id, connection_id, process_id)
}

/// Whether a request of this connection already waits for this command. One
/// without an id is never the same as another.
pub open spec fn duplicate_pending<T>(
    pending: Map<Seq<char>, PendingApproval<T>>,
    connection_id: ConnectionId,
    process_id: Option<Seq<char>>,
) -> bool {
    process_id is Some && waits_for(pending, connection_id, process_id->0)
}

/// The error for a command whose id, given in quoted form, is already waiting.
pub open spec fn already_pending(quoted: Seq<char>) -> ErrorView {
    invalid_request_error("duplicate pending command/exec process id: "@ + quoted)
}

/// The error for a command whose id is already waiting for an approval.
pub fn duplicate_pending_error(quoted: &String) -> (error: JSONRPCErrorError)
    ensures
        error@ == already_pending(quoted@),
{
    invalid_request(joined("duplicate pending command/exec process id: ", quoted.as_str()))
}

/// An answer seen as a mathematical value; `None` stands for one that was lost.
pub open spec fn reply_view(reply: Option<ApprovalResponse>) -> Option<
    Result<ApprovalDecision, Seq<char>>,
> {
    match reply {
        Some(response) => Some(response_view(response)),
        None => None,
    }
}

/// The error with which a command is refused, by the answer to its approval
/// request; `None` stands for a lost answer. Only a plain acceptance is none.
pub open spec fn refusal(reply: Option<Result<ApprovalDecision, Seq<char>>>) -> Option<ErrorView> {
    match reply {
        None => Some(invalid_request_error("permissions approval response channel closed"@)),
        Some(Err(reason)) => Some(invalid_request_error(reason)),
        Some(Ok(ApprovalDecision::Accept)) => None,
        Some(Ok(_)) => Some(invalid_request_error("additional permissions were not approved"@)),
    }
}

/// Whether at most one request waits for each command of a connection.
pub open spec fn one_request_per_command<T>(
    pending: Map<Seq<char>, PendingApproval<T>>,
) -> bool {
    forall|a: Seq<char>, b: Seq<char>, connection_id: ConnectionId, process_id: Seq<char>|
        #[trigger]
        awaits(pending, a, connection_id, process_id) && #[trigger] awaits(
            pending,
            b,
            connection_id,
            process_id,
        ) ==> a == b
}

proof fn lemma_fewer_requests<T>(
    before: Map<Seq<char>, PendingApproval<T>>,
    after: Map<Seq<char>, PendingApproval<T>>,
)
    requires
        one_request_per_command(before),
        forall|id: Seq<char>| #[trigger]
            after.contains_key(id) ==> before.contains_key(id) && before[id] == after[id],
    ensures
        one_request_per_command(after),
{
    assert forall|a: Seq<char>, b: Seq<char>, c: ConnectionId, p: Seq<char>| #[trigger]
        awaits(after, a, c, p) && #[trigger] awaits(after, b, c, p) implies a == b by {
        assert(awaits(before, a, c, p) && awaits(before, b, c, p));
    }
}

/// The outcome of asking for an approval. A command whose id already waits is
/// refused. Otherwise the request waits for its answer under a new id and the
/// message asks for it, unless the request could not be serialized.
pub open spec fn asked<T>(
    before: PermissionsApprovalBroker<T>,
    after: PermissionsApprovalBroker<T>,
    connection_id: ConnectionId,
    process_id: Option<String>,
    command: Seq<String>,
    payload: Result<PermissionsPayload, String>,
    response_tx: T,
    result: Result<ApprovalRequest, JSONRPCErrorError>,
) -> bool {
    let id = approval_id(PERMISSIONS_APPROVAL_ID_PREFIX@, before.next_number());
    &&& after.next_number() == next_u64(before.next_number())
    &&& if duplicate_pending(before.pending(), connection_id, opt_text(process_id)) {
        &&& error_of(result) == Some(already_pending(debug_string(process_id->0@)))
        &&& after.pending() == before.pending()
    } else {
        match payload {
            Err(reason) => {
                &&& error_of(result) == Some(
                    invalid_request_error("invalid permissions approval request: "@ + reason@),
                )
                &&& after.pending() == before.pending().remove(id)
            },
            Ok(parts) => {
                &&& result matches Ok(request) && request.request_id@ == id && request.message@ == (
                MessageView::Request {
                    id: RequestIdView::Text(id),
                    method: COMMAND_EXEC_REQUEST_PERMISSIONS_APPROVAL_METHOD@,
                    params: permissions_object(
                        opt_text(process_id),
                        texts(command),
                        parts.cwd@,
                        parts.additional_permissions@,
                    ),
                })
                &&& after.pending() == before.pending().insert(
                    id,
                    PendingApproval { connection_id, process_id, response_tx },
                )
            },
        }
    }
}

/// The answer that a response carries, or why it carries none.
pub open spec fn permissions_answer(result: Result<ApprovalDecision, String>) -> Result<
    ApprovalDecision,
    Seq<char>,
> {
    match result {
        Ok(decision) => Ok(decision),
        Err(reason) => Err("invalid permissions approval response: "@ + reason@),
    }
}

/// The answer that an error reply stands for.
pub open spec fn permissions_failure(message: Seq<char>) -> Result<ApprovalDecision, Seq<char>> {
    Err("permissions approval request failed: "@ + message)
}

/// The wait for an approval ends: whether the command may start, and the requests that
/// wait before and after it.
pub open spec fn is_concluded<T>(
    before: Map<Seq<char>, PendingApproval<T>>,
    request_id: Seq<char>,
    reply: Option<ApprovalResponse>,
    result: Result<(), JSONRPCErrorError>,
    after: Map<Seq<char>, PendingApproval<T>>,
) -> bool {
    &&& error_of(result) == refusal(reply_view(reply))
    &&& after == before.remove(request_id)
}

/// Asks clients to approve additional permissions.
pub struct PermissionsApprovalBroker<T> {
    approvals: PendingApprovals<T>,
}

impl<T> PermissionsApprovalBroker<T> {
    /// The number of the next approval request.
    pub closed spec fn next_number(self) -> u64 {
        self.approvals.next_number()
    }

    /// The requests that wait for an answer, by id.
    pub closed spec fn pending(self) -> Map<Seq<char>, PendingApproval<T>> {
        self.approvals.pending()
    }

    /// At most one request waits for each command of a connection.
    #[verifier::type_invariant]
    pub open spec fn wf(self) -> bool {
        one_request_per_command(self.pending())
    }

    /// Takes the requests out, to be put back once they have been changed.
    fn take_approvals(&mut self) -> (approvals: PendingApprovals<T>)
        ensures
            approvals.next_number() == old(self).next_number(),
            approvals.pending() == old(self).pending(),
            one_request_per_command(approvals.pending()),
    {
        proof {
            use_type_invariant(&*self);
        }
        let mut approvals = PendingApprovals::new();
        std::mem::swap(&mut approvals, &mut self.approvals);
        approvals
    }

    /// A broker that has not asked for anything.
    pub fn new() -> (broker: Self)
        ensures
            broker.wf(),
            broker.next_number() == 1,
            broker.pending() == Map::<Seq<char>, PendingApproval<T>>::empty(),
    {
        PermissionsApprovalBroker { approvals: PendingApprovals::new() }
    }

    /// Registers an approval request for a command and makes the message that asks
    /// the client. `payload` is an error where the request could not be serialized.
    pub fn request_approval(
        &mut self,
        connection_id: ConnectionId,
        process_id: Option<String>,
        command: Vec<String>,
        payload: Result<PermissionsPayload, String>,
        response_tx: T,
    ) -> (result: Result<ApprovalRequest, JSONRPCErrorError>)
        ensures
            final(self).wf(),
            asked(
                *old(self),
                *final(self),
                connection_id,
                process_id,
                command@,
                payload,
                response_tx,
                result,
            ),
    {
        let mut approvals = self.take_approvals();
        let request_id = approvals.take_id(PERMISSIONS_APPROVAL_ID_PREFIX);
        if let Some(own) = &process_id {
            let found = approvals.find(connection_id, own);
            if found.is_some() {
                let quoted = debug_text(own.as_str());
                assert(awaits(approvals.pending(), found->0@, connection_id, own@));
                self.approvals = approvals;
                return Err(duplicate_pending_error(&quoted));
            }
        }
        assert(!duplicate_pending(approvals.pending(), connection_id, opt_text(process_id)));
        let approval = PendingApproval {
            connection_id,
            process_id: clone_opt_text(&process_id),
            response_tx,
        };
        let ghost before = approvals.pending();
        match payload {
            Err(reason) => {
                approvals.forget(&request_id);
                proof {
                    lemma_fewer_requests(before, approvals.pending());
                }
                self.approvals = approvals;
                Err(
                    invalid_request(
                        joined("invalid permissions approval request: ", reason.as_str()),
                    ),
                )
            },
            Ok(parts) => {
                approvals.insert(request_id.clone(), approval);
                assert forall|a: Seq<char>, b: Seq<char>, c: ConnectionId, p: Seq<char>| #[trigger]
                    awaits(approvals.pending(), a, c, p) && #[trigger] awaits(
                        approvals.pending(),
                        b,
                        c,
                        p,
                    ) implies a == b by {
                    if a != request_id@ {
                        assert(awaits(before, a, c, p));
                    }
                    if b != request_id@ {
                        assert(awaits(before, b, c, p));
                    }
                }
                self.approvals = approvals;
                let mut params: Vec<Field> = Vec::new();
                params.push(Field { name: "processId", value: text_or_null_value(process_id) });
                params.push(Field { name: "command", value: FieldValue::TextList(command) });
                params.push(Field { name: "cwd", value: FieldValue::Text(parts.cwd) });
                params.push(
                    Field {
                        name: "additionalPermissions",
                        value: FieldValue::Json(parts.additional_permissions),
                    },
                );
                assert(object(params@) =~= permissions_object(
                    opt_text(process_id),
                    texts(command@),
                    parts.cwd@,
                    parts.additional_permissions@,
                ));
                let message = OutgoingMessage::Request {
                    id: RequestId::Text(request_id.clone()),
                    method: COMMAND_EXEC_REQUEST_PERMISSIONS_APPROVAL_METHOD,
                    params,
                };
                Ok(ApprovalRequest { request_id, message })
            },
        }
    }

    /// Ends an approval request with its answer; `None` stands for an answer that
    /// was lost. The command may start only on `Ok`.
    pub fn finish_approval(&mut self, request_id: &String, reply: Option<ApprovalResponse>) -> (result:
        Result<(), JSONRPCErrorError>)
        ensures
            final(self).wf(),
            final(self).next_number() == old(self).next_number(),
            final(self).pending() == old(self).pending().remove(request_id@),
            error_of(result) == refusal(reply_view(reply)),
            is_concluded(old(self).pending(), request_id@, reply, result, final(self).pending()),
    {
        let mut approvals = self.take_approvals();
        let ghost before = approvals.pending();
        approvals.forget(request_id);
        proof {
            lemma_fewer_requests(before, approvals.pending());
        }
        self.approvals = approvals;
        match reply {
            None => Err(
                invalid_request("permissions approval response channel closed".to_owned()),
            ),
            Some(Err(reason)) => Err(invalid_request(reason)),
            Some(Ok(ApprovalDecision::Accept)) => Ok(()),
            Some(Ok(_)) => Err(
                invalid_request("additional permissions were not approved".to_owned()),
            ),
        }
    }

    /// Takes in a response. `result` is the decision it carries, or why it carries
    /// none.
    pub fn handle_response(
        &mut self,
        connection_id: ConnectionId,
        request_id: &RequestId,
        result: Result<ApprovalDecision, String>,
    ) -> (delivery: Option<Delivery<T>>)
        ensures
            final(self).wf(),
            final(self).next_number() == old(self).next_number(),
            final(self).pending() == after_answer(
                old(self).pending(),
                connection_id,
                request_id@,
            ),
            answer_delivered(
                delivery,
                old(self).pending(),
                connection_id,
                request_id@,
                match result {
                    Ok(decision) => Ok(decision),
                    Err(reason) => Err("invalid permissions approval response: "@ + reason@),
                },
            ),
            answer_delivered(
                delivery,
                old(self).pending(),
                connection_id,
                request_id@,
                permissions_answer(result),
            ),
    {
        let parsed = match result {
            Ok(decision) => Ok(decision),
            Err(reason) => Err(
                joined("invalid permissions approval response: ", reason.as_str()),
            ),
        };
        self.resolve(connection_id, request_id, parsed)
    }

    /// Takes in an error reply.
    pub fn handle_error(
        &mut self,
        connection_id: ConnectionId,
        request_id: &RequestId,
        message: &String,
    ) -> (delivery: Option<Delivery<T>>)
        ensures
            final(self).wf(),
            final(self).next_number() == old(self).next_number(),
            final(self).pending() == after_answer(
                old(self).pending(),
                connection_id,
                request_id@,
            ),
            answer_delivered(
                delivery,
                old(self).pending(),
                connection_id,
                request_id@,
                Err("permissions approval request failed: "@ + message@),
            ),
            answer_delivered(
                delivery,
                old(self).pending(),
                connection_id,
                request_id@,
                permissions_failure(message@),
            ),
    {
        let reason = joined("permissions approval request failed: ", message.as_str());
        self.resolve(connection_id, request_id, Err(reason))
    }

    /// Cancels the request that waits for a command; `None` if there is none.
    pub fn cancel_process(&mut self, connection_id: ConnectionId, process_id: &String) -> (delivery:
        Option<Delivery<T>>)
        ensures
            final(self).wf(),
            final(self).next_number() == old(self).next_number(),
            match delivery {
                Some(sent) => exists|id: Seq<char>| #[trigger]
                    awaits(old(self).pending(), id, connection_id, process_id@)
                        && final(self).pending() == old(self).pending().remove(id)
                        && sent.response_tx == old(self).pending()[id].response_tx
                        && response_view(sent.response) == Err::<ApprovalDecision, Seq<char>>(
                        "permissions approval cancelled"@,
                    ),
                None => final(self).pending() == old(self).pending() && forall|id: Seq<char>|
                    !#[trigger] awaits(old(self).pending(), id, connection_id, process_id@),
            },
    {
        match self.approvals.find(connection_id, process_id) {
            Some(found) => {
                let ghost id = found@;
                assert(awaits(self.pending(), id, connection_id, process_id@));
                let request_id = RequestId::Text(found);
                let reason = "permissions approval cancelled".to_owned();
                self.resolve(connection_id, &request_id, Err(reason))
            },
            None => {
                proof {
                    use_type_invariant(&*self);
                }
                None
            },
        }
    }

    /// Fails every waiting request of a connection that closed.
    pub fn connection_closed(&mut self, connection_id: ConnectionId) -> (deliveries: Vec<
        Delivery<T>,
    >)
        ensures
            final(self).wf(),
            final(self).next_number() == old(self).next_number(),
            final(self).pending() == without(old(self).pending(), owned_by(connection_id)),
            all_refused(
                deliveries@,
                old(self).pending(),
                connection_id,
                "permissions approval connection closed"@,
            ),
    {
        let mut approvals = self.take_approvals();
        let ghost before = approvals.pending();
        let deliveries = approvals.refuse_all(
            connection_id,
            "permissions approval connection closed",
        );
        proof {
            lemma_fewer_requests(before, approvals.pending());
        }
        self.approvals = approvals;
        deliveries
    }

    fn resolve(
        &mut self,
        connection_id: ConnectionId,
        request_id: &RequestId,
        response: ApprovalResponse,
    ) -> (delivery: Option<Delivery<T>>)
        ensures
            final(self).wf(),
            final(self).next_number() == old(self).next_number(),
            final(self).pending() == after_answer(
                old(self).pending(),
                connection_id,
                request_id@,
            ),
            answer_delivered(
                delivery,
                old(self).pending(),
                connection_id,
                request_id@,
                response_view(response),
            ),
    {
        let mut approvals = self.take_approvals();
        let ghost before = approvals.pending();
        let delivery = approvals.resolve(connection_id, request_id, response);
        proof {
            lemma_fewer_requests(before, approvals.pending());
        }
        self.approvals = approvals;
        delivery
    }
}

/// Additional permissions are granted by nothing but a plain acceptance of the
/// request: every other decision, a failed or lost answer, a cancellation and a
/// closed connection refuse the command.
pub proof fn law_only_acceptance_grants_permissions(
    reply: Option<Result<ApprovalDecision, Seq<char>>>,
)
    ensures
        refusal(reply) is None <==> reply == Some(
            Ok::<ApprovalDecision, Seq<char>>(ApprovalDecision::Accept),
        ),
{
}

/// Whether a request of this connection and of this command is among those that
/// wait.
pub open spec fn is_waiting<T>(
    pending: Map<Seq<char>, PendingApproval<T>>,
    connection_id: ConnectionId,
    process_id: Seq<char>,
) -> bool {
    exists|id: Seq<char>| #[trigger]
        pending.contains_key(id) && pending[id].connection_id == connection_id && (
        pending[id].process_id matches Some(own) && own@ == process_id)
}

/// A command is refused exactly if another with its id waits on its connection, and
/// the client is told the id. Commands without an id are never refused for this.
pub proof fn law_a_command_waits_once<T>(
    before: PermissionsApprovalBroker<T>,
    after: PermissionsApprovalBroker<T>,
    connection_id: ConnectionId,
    process_id: Option<String>,
    command: Seq<String>,
    parts: PermissionsPayload,
    response_tx: T,
    result: Result<ApprovalRequest, JSONRPCErrorError>,
)
    requires
        asked(
            before,
            after,
            connection_id,
            process_id,
            command,
            Ok(parts),
            response_tx,
            result,
        ),
    ensures
        process_id is None ==> result is Ok,
        process_id matches Some(own) ==> {
            let waiting = is_waiting(before.pending(), connection_id, own@);
            &&& result is Err <==> waiting
            &&& result matches Err(error) ==> {
                &&& error.code == -32600
                &&& error.message@ == "duplicate pending command/exec process id: "@
                    + debug_string(own@)
                &&& after.pending() == before.pending()
            }
        },
{
    if let Some(own) = process_id {
        if waits_for(before.pending(), connection_id, own@) {
            let id = choose|id: Seq<char>| #[trigger]
                awaits(before.pending(), id, connection_id, own@);
            assert(before.pending().contains_key(id));
        }
        if is_waiting(before.pending(), connection_id, own@) {
            let id = choose|id: Seq<char>| #[trigger]
                before.pending().contains_key(id) && before.pending()[id].connection_id
                    == connection_id && (before.pending()[id].process_id matches Some(name)
                    && name@ == own@);
            assert(awaits(before.pending(), id, connection_id, own@));
        }
    }
}

/// A request for permissions goes out under the next id and waits under it for its
/// answer. It shows the client's id of the command, the command itself, its directory
/// and the permissions, and every other request goes on waiting.
pub proof fn law_permissions_are_asked_for_in_full<T>(
    before: PermissionsApprovalBroker<T>,
    after: PermissionsApprovalBroker<T>,
    connection_id: ConnectionId,
    process_id: Option<String>,
    command: Seq<String>,
    payload: Result<PermissionsPayload, String>,
    response_tx: T,
    result: Result<ApprovalRequest, JSONRPCErrorError>,
    other: Seq<char>,
)
    requires
        asked(
            before,
            after,
            connection_id,
            process_id,
            command,
            payload,
            response_tx,
            result,
        ),
    ensures
        before.next_number() < u64::MAX ==> after.next_number() == before.next_number() + 1,
        result matches Ok(request) ==> (payload matches Ok(parts) && {
            let id = approval_id("permissions-approval:"@, before.next_number());
            &&& request.request_id@ == id
            &&& after.pending().contains_key(id)
            &&& after.pending()[id].connection_id == connection_id
            &&& after.pending()[id].process_id == process_id
            &&& after.pending()[id].response_tx == response_tx
            &&& other != id ==> after.pending().contains_key(other)
                == before.pending().contains_key(other) && (before.pending().contains_key(other)
                ==> after.pending()[other] == before.pending()[other])
            &&& request.message@ matches MessageView::Request { id: own, method, params } && {
                &&& own == RequestIdView::Text(id)
                &&& method == "command/exec/requestPermissionsApproval"@
                &&& member_names(params) == seq![
                    "processId"@,
                    "command"@,
                    "cwd"@,
                    "additionalPermissions"@,
                ]
                &&& process_id matches Some(name) ==> has_member(
                    params,
                    "processId"@,
                    FieldValueView::Text(name@),
                )
                &&& process_id is None ==> has_member(params, "processId"@, FieldValueView::Null)
                &&& has_member(params, "command"@, FieldValueView::TextList(texts(command)))
                &&& has_member(params, "cwd"@, FieldValueView::Text(parts.cwd@))
                &&& has_member(
                    params,
                    "additionalPermissions"@,
                    FieldValueView::Json(parts.additional_permissions@),
                )
            }
        }),
        result is Err ==> !after.pending().contains_key(other) || (before.pending().contains_key(
            other,
        ) && after.pending()[other] == before.pending()[other]),
{
    if let Ok(request) = result {
        let params = request.message@->Request_params;
        assert(member_names(params) =~= seq![
            "processId"@,
            "command"@,
            "cwd"@,
            "additionalPermissions"@,
        ]);
        assert(params[0].0 == "processId"@ && params[1].0 == "command"@);
        assert(params[2].0 == "cwd"@ && params[3].0 == "additionalPermissions"@);
    }
}

/// A request that cannot be put in a message is refused with the reason, unless its
/// command already waits, and does not wait itself.
pub proof fn law_unsendable_requests_are_refused<T>(
    before: PermissionsApprovalBroker<T>,
    after: PermissionsApprovalBroker<T>,
    connection_id: ConnectionId,
    process_id: Option<String>,
    command: Seq<String>,
    reason: String,
    response_tx: T,
    result: Result<ApprovalRequest, JSONRPCErrorError>,
)
    requires
        asked(before, after, connection_id, process_id, command, Err(reason), response_tx, result),
    ensures
        ({
            let waiting = process_id matches Some(own) && is_waiting(
                before.pending(),
                connection_id,
                own@,
            );
            &&& result is Err
            &&& waiting ==> after.pending() == before.pending()
            &&& !waiting ==> (result matches Err(error) && error.code == -32600 && error.message@
                == "invalid permissions approval request: "@ + reason@)
            &&& !waiting ==> !after.pending().contains_key(
                approval_id("permissions-approval:"@, before.next_number()),
            )
        }),
{
    if let Some(own) = process_id {
        if waits_for(before.pending(), connection_id, own@) {
            let id = choose|id: Seq<char>| #[trigger]
                awaits(before.pending(), id, connection_id, own@);
            assert(before.pending().contains_key(id));
        }
        if is_waiting(before.pending(), connection_id, own@) {
            let id = choose|id: Seq<char>| #[trigger]
                before.pending().contains_key(id) && before.pending()[id].connection_id
                    == connection_id && (before.pending()[id].process_id matches Some(name)
                    && name@ == own@);
            assert(awaits(before.pending(), id, connection_id, own@));
        }
    }
}

/// A command that is not allowed its permissions is told why: that its answer was
/// lost, the reason that came instead of one, or that they were not approved.
pub proof fn law_refused_permissions_are_explained(reply: Option<ApprovalResponse>)
    ensures
        reply matches Some(Ok(ApprovalDecision::Accept)) ==> refusal(reply_view(reply)) is None,
        reply is None ==> (refusal(reply_view(reply)) matches Some(error) && error.code == -32600
            && error.message == "permissions approval response channel closed"@),
        reply matches Some(Err(reason)) ==> (refusal(reply_view(reply)) matches Some(error)
            && error.code == -32600 && error.message == reason@),
        reply matches Some(Ok(decision)) ==> (decision is Accept || (refusal(
            reply_view(reply),
        ) matches Some(error) && error.code == -32600 && error.message
            == "additional permissions were not approved"@)),
{
}

/// A response is taken for the decision that it carries; one that carries none, and
/// an error reply, are taken for a refusal with the reason.
pub proof fn law_permissions_answers_are_taken_as_sent(
    result: Result<ApprovalDecision, String>,
    message: Seq<char>,
)
    ensures
        result matches Ok(decision) ==> (permissions_answer(result) matches Ok(taken) && taken
            == decision),
        result matches Err(fault) ==> (permissions_answer(result) matches Err(reason) && reason
            == "invalid permissions approval response: "@ + fault@),
        permissions_failure(message) matches Err(reason) && reason
            == "permissions approval request failed: "@ + message,
{
}

/// When the wait for an approval ends, the command may start exactly on a plain
/// acceptance; its request no longer waits either way, and all others do.
pub proof fn law_a_wait_ends_for_its_own_request<T>(
    before: Map<Seq<char>, PendingApproval<T>>,
    request_id: Seq<char>,
    reply: Option<ApprovalResponse>,
    result: Result<(), JSONRPCErrorError>,
    after: Map<Seq<char>, PendingApproval<T>>,
    other: Seq<char>,
)
    requires
        is_concluded(before, request_id, reply, result, after),
    ensures
        result is Ok <==> (reply matches Some(Ok(decision)) && decision is Accept),
        !after.contains_key(request_id),
        other != request_id ==> after.contains_key(other) == before.contains_key(other) && (
        before.contains_key(other) ==> after[other] == before[other]),
{
}

} // verus!
