//! Approval of network requests while a command runs, and the decisions that a
//! connection remembers.

use crate::approval::{
    after_answer, all_refused, answer_delivered, approval_id, next_u64, owned_by, ApprovalDecision,
    ApprovalResponse, Delivery, NetworkPolicyRuleAction, PendingApproval, PendingApprovals,
};
use crate::permissions::PERMISSIONS_APPROVAL_ID_PREFIX;
use crate::protocol::{
    has_member, internal_error, internal_error_view, member_names, object, opt_text, text_or_null,
    text_or_null_value, texts, ConnectionId, Field, FieldValue, FieldValueView, JSONRPCErrorError,
    MessageView, ObjectView, OutgoingMessage, RequestId, RequestIdView,
    COMMAND_EXEC_REQUEST_NETWORK_APPROVAL_METHOD,
};
use crate::table::{without, Table, TableKey};
use crate::text::joined;
use vstd::prelude::*;
use vstd::string::*;

verus! {

pub const NETWORK_APPROVAL_ID_PREFIX: &'static str = "network-approval:";

pub const DENIED_REASON: &'static str = "network access was not approved";

/// How a network request reaches the proxy.
#[derive(Clone, Copy, Debug, PartialEq, Eq, Structural)]
pub enum NetworkProtocol {
    Http,
    HttpsConnect,
    Socks5Tcp,
    Socks5Udp,
}

/// The protocol that an approval is asked for.
#[derive(Clone, Copy, Debug, PartialEq, Eq, Structural)]
pub enum ApprovalProtocol {
    Http,
    Https,
    Socks5Tcp,
    Socks5Udp,
}

impl From<NetworkProtocol> for ApprovalProtocol {
    fn from(protocol: NetworkProtocol) -> (approval: Self) {
        match protocol {
            NetworkProtocol::Http => Self::Http,
            NetworkProtocol::HttpsConnect => Self::Https,
            NetworkProtocol::Socks5Tcp => Self::Socks5Tcp,
            NetworkProtocol::Socks5Udp => Self::Socks5Udp,
        }
    }
}

/// The approval protocol of a network request.
pub open spec fn approval_protocol(protocol: NetworkProtocol) -> ApprovalProtocol {
    match protocol {
        NetworkProtocol::Http => ApprovalProtocol::Http,
        NetworkProtocol::HttpsConnect => ApprovalProtocol::Https,
        NetworkProtocol::Socks5Tcp => ApprovalProtocol::Socks5Tcp,
        NetworkProtocol::Socks5Udp => ApprovalProtocol::Socks5Udp,
    }
}

impl vstd::std_specs::convert::FromSpecImpl<NetworkProtocol> for ApprovalProtocol {
    open spec fn obeys_from_spec() -> bool {
        true
    }

    open spec fn from_spec(protocol: NetworkProtocol) -> Self {
        approval_protocol(protocol)
    }
}

/// The wire name of an approval protocol.
pub open spec fn protocol_name(protocol: ApprovalProtocol) -> Seq<char> {
    match protocol {
        ApprovalProtocol::Http => "http"@,
        ApprovalProtocol::Https => "https"@,
        ApprovalProtocol::Socks5Tcp => "socks5Tcp"@,
        ApprovalProtocol::Socks5Udp => "socks5Udp"@,
    }
}

impl ApprovalProtocol {
    /// The wire name of the protocol.
    pub fn wire_name(self) -> (name: &'static str)
        ensures
            name@ == protocol_name(self),
    {
        match self {
            ApprovalProtocol::Http => "http",
            ApprovalProtocol::Https => "https",
            ApprovalProtocol::Socks5Tcp => "socks5Tcp",
            ApprovalProtocol::Socks5Udp => "socks5Udp",
        }
    }
}

/// A network request of a running command.
#[derive(Debug, Clone, PartialEq, Eq)]
pub struct NetworkPolicyRequest {
    pub protocol: NetworkProtocol,
    /// The host in its normalized form.
    pub host: String,
    pub port: u16,
}

/// What a remembered decision applies to.
#[derive(Debug, Clone, PartialEq, Eq)]
pub struct NetworkCacheKey {
    pub host: String,
    pub port: u16,
    pub protocol: ApprovalProtocol,
}

/// A cache key as a mathematical value.
pub struct CacheKeyView {
    pub host: Seq<char>,
    pub port: u16,
    pub protocol: ApprovalProtocol,
}

impl View for NetworkCacheKey {
    type V = CacheKeyView;

    open spec fn view(&self) -> CacheKeyView {
        CacheKeyView { host: self.host@, port: self.port, protocol: self.protocol }
    }
}

impl NetworkCacheKey {
    fn duplicate(&self) -> (copy: Self)
        ensures
            copy@ == self@,
    {
        NetworkCacheKey { host: self.host.clone(), port: self.port, protocol: self.protocol }
    }
}

/// The key of a network request.
pub open spec fn request_key(request: NetworkPolicyRequest) -> CacheKeyView {
    CacheKeyView {
        host: request.host@,
        port: request.port,
        protocol: approval_protocol(request.protocol),
    }
}

/// A cache key of one connection.
pub struct SessionKey {
    connection_id: ConnectionId,
    key: NetworkCacheKey,
}

impl View for SessionKey {
    type V = (ConnectionId, CacheKeyView);

    closed spec fn view(&self) -> (ConnectionId, CacheKeyView) {
        (self.connection_id, self.key@)
    }
}

impl TableKey for SessionKey {
    fn same(&self, other: &Self) -> (same: bool) {
        self.connection_id == other.connection_id && self.key.host == other.key.host
            && self.key.port == other.key.port && self.key.protocol == other.key.protocol
    }
}

/// A decision that a connection remembers.
#[derive(Clone, Copy, Debug, PartialEq, Eq, Structural)]
pub enum CachedDecision {
    Allow,
    Deny,
}

/// Whether a network request goes through.
#[derive(Debug, Clone, PartialEq, Eq)]
pub enum NetworkDecision {
    Allow,
    Deny { reason: String },
}

/// A network decision as a mathematical value.
pub enum NetworkVerdict {
    Allow,
    Deny { reason: Seq<char> },
}

impl View for NetworkDecision {
    type V = NetworkVerdict;

    open spec fn view(&self) -> NetworkVerdict {
        match *self {
            NetworkDecision::Allow => NetworkVerdict::Allow,
            NetworkDecision::Deny { reason } => NetworkVerdict::Deny { reason: reason@ },
        }
    }
}

fn deny(reason: String) -> (decision: NetworkDecision)
    ensures
        decision@ == (NetworkVerdict::Deny { reason: reason@ }),
{
    NetworkDecision::Deny { reason }
}

/// What a remembered decision means for a request.
pub open spec fn cached_verdict(decision: CachedDecision) -> NetworkVerdict {
    match decision {
        CachedDecision::Allow => NetworkVerdict::Allow,
        CachedDecision::Deny => NetworkVerdict::Deny { reason: DENIED_REASON@ },
    }
}

impl CachedDecision {
    pub fn into_network_decision(self) -> (decision: NetworkDecision)
        ensures
            decision@ == cached_verdict(self),
    {
        match self {
            Self::Allow => NetworkDecision::Allow,
            Self::Deny => deny(DENIED_REASON.to_owned()),
        }
    }
}

/// The remembered form of a rule.
pub open spec fn rule_decision(action: NetworkPolicyRuleAction) -> CachedDecision {
    match action {
        NetworkPolicyRuleAction::Allow => CachedDecision::Allow,
        NetworkPolicyRuleAction::Deny => CachedDecision::Deny,
    }
}

/// What a client's decision means for the request to a host.
pub open spec fn verdict(decision: ApprovalDecision, host: Seq<char>) -> NetworkVerdict {
    match decision {
        ApprovalDecision::Accept => NetworkVerdict::Allow,
        ApprovalDecision::AcceptForSession => NetworkVerdict::Allow,
        ApprovalDecision::ApplyNetworkPolicyAmendment { host: named, action } => if named@
            != host {
            NetworkVerdict::Deny { reason: "network approval amendment host mismatch"@ }
        } else {
            cached_verdict(rule_decision(action))
        },
        ApprovalDecision::AcceptWithExecpolicyAmendment => NetworkVerdict::Deny {
            reason: "execpolicy amendments are invalid for network approval"@,
        },
        ApprovalDecision::Decline => NetworkVerdict::Deny { reason: DENIED_REASON@ },
        ApprovalDecision::Cancel => NetworkVerdict::Deny { reason: DENIED_REASON@ },
    }
}

/// What the connection remembers of a client's decision.
pub open spec fn remembered(decision: ApprovalDecision, host: Seq<char>) -> Option<CachedDecision> {
    match decision {
        ApprovalDecision::AcceptForSession => Some(CachedDecision::Allow),
        ApprovalDecision::ApplyNetworkPolicyAmendment { host: named, action } if named@ == host =>
            Some(rule_decision(action)),
        _ => None,
    }
}

/// The remembered decisions, by connection and request key.
pub type SessionCache = Map<(ConnectionId, CacheKeyView), CachedDecision>;

/// The remembered decisions after a client's decision.
pub open spec fn cache_after(
    cache: SessionCache,
    connection_id: ConnectionId,
    key: CacheKeyView,
    decision: ApprovalDecision,
) -> SessionCache {
    match remembered(decision, key.host) {
        Some(entry) => cache.insert((connection_id, key), entry),
        None => cache,
    }
}

/// How the wait for an approval ended.
pub enum NetworkReply {
    Answered(ApprovalResponse),
    /// The answer was lost.
    ChannelClosed,
    /// The command ended first.
    Cancelled,
}

/// The decision for a network request, by how the wait for its approval ended.
pub open spec fn reply_verdict(reply: NetworkReply, host: Seq<char>) -> NetworkVerdict {
    match reply {
        NetworkReply::Answered(Ok(decision)) => verdict(decision, host),
        NetworkReply::Answered(Err(reason)) => NetworkVerdict::Deny { reason: reason@ },
        NetworkReply::ChannelClosed => NetworkVerdict::Deny {
            reason: "network approval response channel closed"@,
        },
        NetworkReply::Cancelled => NetworkVerdict::Deny { reason: "network approval cancelled"@ },
    }
}

/// The remembered decisions after the wait for an approval ended.
pub open spec fn cache_after_reply(
    cache: SessionCache,
    connection_id: ConnectionId,
    key: CacheKeyView,
    reply: NetworkReply,
) -> SessionCache {
    match reply {
        NetworkReply::Answered(Ok(decision)) => cache_after(cache, connection_id, key, decision),
        _ => cache,
    }
}

/// The entries of a connection.
pub open spec fn remembered_by(connection_id: ConnectionId) -> spec_fn(
    (ConnectionId, CacheKeyView),
    CachedDecision,
) -> bool {
    |key: (ConnectionId, CacheKeyView), decision: CachedDecision| key.0 == connection_id
}

/// The command on whose behalf network requests are made.
#[derive(Debug, PartialEq, Eq)]
pub struct NetworkApprovalContext {
    pub connection_id: ConnectionId,
    pub process_id: Option<String>,
    pub command: Vec<String>,
    /// The working directory, or why it cannot be put in a message.
    pub cwd: Result<String, String>,
}

/// A network request that waits for a client's approval.
#[derive(Debug, Clone, PartialEq, Eq)]
pub struct NetworkAsk {
    pub request_id: String,
    pub key: NetworkCacheKey,
    pub message: OutgoingMessage,
}

/// What happens to a network request first.
#[derive(Debug, Clone, PartialEq, Eq)]
pub enum DecideStep {
    Decided(NetworkDecision),
    Ask(NetworkAsk),
}

/// The parameters of a network approval request.
pub open spec fn network_object(
    process_id: Option<Seq<char>>,
    key: CacheKeyView,
    command: Seq<Seq<char>>,
    cwd: Seq<char>,
) -> ObjectView {
    seq![
        ("processId"@, text_or_null(process_id)),
        ("host"@, FieldValueView::Text(key.host)),
        ("port"@, FieldValueView::Number(key.port as int)),
        ("protocol"@, FieldValueView::Text(protocol_name(key.protocol))),
        ("command"@, FieldValueView::TextList(command)),
        ("cwd"@, FieldValueView::Text(cwd)),
    ]
}

/// The remembered decisions, the waiting requests and the number of the next one.
pub type BrokerState<T> = (SessionCache, Map<Seq<char>, PendingApproval<T>>, u64);

/// A network request is made: what becomes of it first, and of the broker.
pub open spec fn decide_step<T>(
    before: BrokerState<T>,
    context: NetworkApprovalContext,
    request: NetworkPolicyRequest,
    response_tx: T,
    step: DecideStep,
    after: BrokerState<T>,
) -> bool {
    let key = request_key(request);
    let entry = (context.connection_id, key);
    let id = approval_id(NETWORK_APPROVAL_ID_PREFIX@, before.2);
    &&& after.0 == before.0
    &&& if before.0.contains_key(entry) {
        &&& step matches DecideStep::Decided(decision) && decision@ == cached_verdict(
            before.0[entry],
        )
        &&& after.1 == before.1
        &&& after.2 == before.2
    } else {
        &&& after.2 == next_u64(before.2)
        &&& match context.cwd {
            Err(reason) => {
                &&& step matches DecideStep::Decided(decision) && decision@ == (
                NetworkVerdict::Deny { reason: "invalid approval request: "@ + reason@ })
                &&& after.1 == before.1.remove(id)
            },
            Ok(cwd) => {
                &&& step matches DecideStep::Ask(ask) && ask.request_id@ == id && ask.key@ == key
                    && ask.message@ == (MessageView::Request {
                    id: RequestIdView::Text(id),
                    method: COMMAND_EXEC_REQUEST_NETWORK_APPROVAL_METHOD@,
                    params: network_object(
                        opt_text(context.process_id),
                        key,
                        texts(context.command@),
                        cwd@,
                    ),
                })
                &&& after.1 == before.1.insert(
                    id,
                    (PendingApproval {
                        connection_id: context.connection_id,
                        process_id: None,
                        response_tx,
                    }),
                )
            },
        }
    }
}

/// The wait for an approval ends: the decision, and what becomes of the broker.
pub open spec fn finish_step<T>(
    before: BrokerState<T>,
    connection_id: ConnectionId,
    request_id: Seq<char>,
    key: CacheKeyView,
    reply: NetworkReply,
    decision: NetworkDecision,
    after: BrokerState<T>,
) -> bool {
    &&& decision@ == reply_verdict(reply, key.host)
    &&& after.0 == cache_after_reply(before.0, connection_id, key, reply)
    &&& after.1 == before.1.remove(request_id)
    &&& after.2 == before.2
}

/// The answer that a response carries, or why it carries none.
pub open spec fn network_answer(result: Result<ApprovalDecision, String>) -> Result<
    ApprovalDecision,
    Seq<char>,
> {
    match result {
        Ok(decision) => Ok(decision),
        Err(reason) => Err("invalid network approval response: "@ + reason@),
    }
}

/// The answer that an error reply stands for.
pub open spec fn network_failure(message: Seq<char>) -> Result<ApprovalDecision, Seq<char>> {
    Err("network approval request failed: "@ + message)
}

/// Decides on network requests, asking clients where nothing is remembered.
pub struct NetworkApprovalBroker<T> {
    approvals: PendingApprovals<T>,
    session_cache: Table<SessionKey, CachedDecision>,
}

impl<T> NetworkApprovalBroker<T> {
    /// The number of the next approval request.
    pub closed spec fn next_number(self) -> u64 {
        self.approvals.next_number()
    }

    /// The requests that wait for an answer, by id.
    pub closed spec fn pending(self) -> Map<Seq<char>, PendingApproval<T>> {
        self.approvals.pending()
    }

    /// The remembered decisions.
    pub closed spec fn cache(self) -> SessionCache {
        self.session_cache@
    }

    /// A broker that has not asked for anything and remembers nothing.
    pub fn new() -> (broker: Self)
        ensures
            broker.next_number() == 1,
            broker.pending() == Map::<Seq<char>, PendingApproval<T>>::empty(),
            broker.cache() == SessionCache::empty(),
    {
        NetworkApprovalBroker { approvals: PendingApprovals::new(), session_cache: Table::new() }
    }

    /// Decides on a network request from what the connection remembers, or
    /// registers an approval request and makes the message that asks the client.
    pub fn decide(
        &mut self,
        context: NetworkApprovalContext,
        request: NetworkPolicyRequest,
        response_tx: T,
    ) -> (step: DecideStep)
        ensures
            final(self).cache() == old(self).cache(),
            ({
                let key = request_key(request);
                let entry = (context.connection_id, key);
                let id = approval_id(NETWORK_APPROVAL_ID_PREFIX@, old(self).next_number());
                if old(self).cache().contains_key(entry) {
                    &&& step matches DecideStep::Decided(decision) && decision@ == cached_verdict(
                        old(self).cache()[entry],
                    )
                    &&& final(self).pending() == old(self).pending()
                    &&& final(self).next_number() == old(self).next_number()
                } else {
                    &&& final(self).next_number() == next_u64(old(self).next_number())
                    &&& match context.cwd {
                        Err(reason) => {
                            &&& step matches DecideStep::Decided(decision) && decision@ == (
                            NetworkVerdict::Deny {
                                reason: "invalid approval request: "@ + reason@,
                            })
                            &&& final(self).pending() == old(self).pending().remove(id)
                        },
                        Ok(cwd) => {
                            &&& step matches DecideStep::Ask(ask) && ask.request_id@ == id
                                && ask.key@ == key && ask.message@ == (MessageView::Request {
                                id: RequestIdView::Text(id),
                                method: COMMAND_EXEC_REQUEST_NETWORK_APPROVAL_METHOD@,
                                params: network_object(
                                    opt_text(context.process_id),
                                    key,
                                    texts(context.command@),
                                    cwd@,
                                ),
                            })
                            &&& final(self).pending() == old(self).pending().insert(
                                id,
                                (PendingApproval {
                                    connection_id: context.connection_id,
                                    process_id: None,
                                    response_tx,
                                }),
                            )
                        },
                    }
                }
            }),
            decide_step(
                (old(self).cache(), old(self).pending(), old(self).next_number()),
                context,
                request,
                response_tx,
                step,
                (final(self).cache(), final(self).pending(), final(self).next_number()),
            ),
    {
        let protocol = ApprovalProtocol::from(request.protocol);
        let key = NetworkCacheKey { host: request.host, port: request.port, protocol };
        if let Some(decision) = self.cached_decision(context.connection_id, &key) {
            return DecideStep::Decided(decision.into_network_decision());
        }
        let request_id = self.approvals.take_id(NETWORK_APPROVAL_ID_PREFIX);
        match context.cwd {
            Err(reason) => {
                self.approvals.forget(&request_id);
                DecideStep::Decided(deny(joined("invalid approval request: ", reason.as_str())))
            },
            Ok(cwd) => {
                self.approvals.insert(
                    request_id.clone(),
                    PendingApproval {
                        connection_id: context.connection_id,
                        process_id: None,
                        response_tx,
                    },
                );
                let mut params: Vec<Field> = Vec::new();
                params.push(
                    Field { name: "processId", value: text_or_null_value(context.process_id) },
                );
                params.push(Field { name: "host", value: FieldValue::Text(key.host.clone()) });
                params.push(Field { name: "port", value: FieldValue::Number(key.port as i64) });
                params.push(
                    Field {
                        name: "protocol",
                        value: FieldValue::Text(protocol.wire_name().to_owned()),
                    },
                );
                params.push(
                    Field { name: "command", value: FieldValue::TextList(context.command) },
                );
                params.push(Field { name: "cwd", value: FieldValue::Text(cwd) });
                assert(object(params@) =~= network_object(
                    opt_text(context.process_id),
                    key@,
                    texts(context.command@),
                    cwd@,
                ));
                let message = OutgoingMessage::Request {
                    id: RequestId::Text(request_id.clone()),
                    method: COMMAND_EXEC_REQUEST_NETWORK_APPROVAL_METHOD,
                    params,
                };
                DecideStep::Ask(NetworkAsk { request_id, key, message })
            },
        }
    }

    /// Ends the wait for an approval and decides on the network request.
    pub fn finish_decide(
        &mut self,
        connection_id: ConnectionId,
        request_id: &String,
        key: NetworkCacheKey,
        reply: NetworkReply,
    ) -> (decision: NetworkDecision)
        ensures
            decision@ == reply_verdict(reply, key.host@),
            final(self).cache() == cache_after_reply(
                old(self).cache(),
                connection_id,
                key@,
                reply,
            ),
            final(self).pending() == old(self).pending().remove(request_id@),
            final(self).next_number() == old(self).next_number(),
            finish_step(
                (old(self).cache(), old(self).pending(), old(self).next_number()),
                connection_id,
                request_id@,
                key@,
                reply,
                decision,
                (final(self).cache(), final(self).pending(), final(self).next_number()),
            ),
    {
        self.approvals.forget(request_id);
        match reply {
            NetworkReply::Answered(Ok(decision)) => self.apply_decision(
                connection_id,
                key,
                decision,
            ),
            NetworkReply::Answered(Err(reason)) => deny(reason),
            NetworkReply::ChannelClosed => deny(
                "network approval response channel closed".to_owned(),
            ),
            NetworkReply::Cancelled => deny("network approval cancelled".to_owned()),
        }
    }

    /// Applies a client's decision to a request and remembers what it says about
    /// later ones.
    pub fn apply_decision(
        &mut self,
        connection_id: ConnectionId,
        key: NetworkCacheKey,
        decision: ApprovalDecision,
    ) -> (result: NetworkDecision)
        ensures
            result@ == verdict(decision, key.host@),
            final(self).cache() == cache_after(old(self).cache(), connection_id, key@, decision),
            final(self).pending() == old(self).pending(),
            final(self).next_number() == old(self).next_number(),
    {
        match decision {
            ApprovalDecision::Accept => NetworkDecision::Allow,
            ApprovalDecision::AcceptForSession => {
                self.cache_decision(connection_id, key, CachedDecision::Allow);
                NetworkDecision::Allow
            },
            ApprovalDecision::ApplyNetworkPolicyAmendment { host, action } => {
                if host != key.host {
                    return deny("network approval amendment host mismatch".to_owned());
                }
                let cached = match action {
                    NetworkPolicyRuleAction::Allow => CachedDecision::Allow,
                    NetworkPolicyRuleAction::Deny => CachedDecision::Deny,
                };
                self.cache_decision(connection_id, key, cached);
                cached.into_network_decision()
            },
            ApprovalDecision::AcceptWithExecpolicyAmendment => deny(
                "execpolicy amendments are invalid for network approval".to_owned(),
            ),
            ApprovalDecision::Decline => deny(DENIED_REASON.to_owned()),
            ApprovalDecision::Cancel => deny(DENIED_REASON.to_owned()),
        }
    }

    /// Takes in a response. `result` is the decision it carries, or why it carries
    /// none.
    pub fn handle_response(
        &mut self,
        connection_id: ConnectionId,
        request_id: &RequestId,
        result: Result<ApprovalDecision, String>,
    ) -> (delivery: Option<Delivery<T>>)
        ensures
            final(self).cache() == old(self).cache(),
            final(self).next_number() == old(self).next_number(),
            final(self).pending() == after_answer(
                old(self).pending(),
                connection_id,
                request_id@,
            ),
            answer_delivered(
                delivery,
                old(self).pending(),
                connection_id,
                request_id@,
                match result {
                    Ok(decision) => Ok(decision),
                    Err(reason) => Err("invalid network approval response: "@ + reason@),
                },
            ),
            answer_delivered(
                delivery,
                old(self).pending(),
                connection_id,
                request_id@,
                network_answer(result),
            ),
    {
        let parsed = match result {
            Ok(decision) => Ok(decision),
            Err(reason) => Err(joined("invalid network approval response: ", reason.as_str())),
        };
        self.approvals.resolve(connection_id, request_id, parsed)
    }

    /// Takes in an error reply.
    pub fn handle_error(
        &mut self,
        connection_id: ConnectionId,
        request_id: &RequestId,
        message: &String,
    ) -> (delivery: Option<Delivery<T>>)
        ensures
            final(self).cache() == old(self).cache(),
            final(self).next_number() == old(self).next_number(),
            final(self).pending() == after_answer(
                old(self).pending(),
                connection_id,
                request_id@,
            ),
            answer_delivered(
                delivery,
                old(self).pending(),
                connection_id,
                request_id@,
                Err("network approval request failed: "@ + message@),
            ),
            answer_delivered(
                delivery,
                old(self).pending(),
                connection_id,
                request_id@,
                network_failure(message@),
            ),
    {
        let reason = joined("network approval request failed: ", message.as_str());
        self.approvals.resolve(connection_id, request_id, Err(reason))
    }

    /// Forgets what a closed connection remembered and fails its waiting requests.
    pub fn connection_closed(&mut self, connection_id: ConnectionId) -> (deliveries: Vec<
        Delivery<T>,
    >)
        ensures
            final(self).cache() == without(old(self).cache(), remembered_by(connection_id)),
            final(self).pending() == without(old(self).pending(), owned_by(connection_id)),
            final(self).next_number() == old(self).next_number(),
            all_refused(
                deliveries@,
                old(self).pending(),
                connection_id,
                "network approval connection closed"@,
            ),
    {
        let ghost chosen = remembered_by(connection_id);
        let test = |key: &SessionKey, decision: &CachedDecision| -> (matched: bool)
            ensures
                matched == (key@.0 == connection_id),
            { key.connection_id == connection_id };
        let _ = self.session_cache.take_values(test, Ghost(chosen));
        self.approvals.refuse_all(connection_id, "network approval connection closed")
    }

    /// What the connection remembers for a request key.
    pub fn cached_decision(&self, connection_id: ConnectionId, key: &NetworkCacheKey) -> (decision:
        Option<CachedDecision>)
        ensures
            decision == (if self.cache().contains_key((connection_id, key@)) {
                Some(self.cache()[(connection_id, key@)])
            } else {
                None
            }),
    {
        let session_key = SessionKey { connection_id, key: key.duplicate() };
        match self.session_cache.get(&session_key) {
            Some(decision) => Some(*decision),
            None => None,
        }
    }

    fn cache_decision(
        &mut self,
        connection_id: ConnectionId,
        key: NetworkCacheKey,
        decision: CachedDecision,
    )
        ensures
            final(self).cache() == old(self).cache().insert((connection_id, key@), decision),
            final(self).pending() == old(self).pending(),
            final(self).next_number() == old(self).next_number(),
    {
        let _ = self.session_cache.insert(SessionKey { connection_id, key }, decision);
    }
}

/// The stages of starting the proxy of a command.
#[derive(Clone, Copy, Debug, PartialEq, Eq, Structural)]
pub enum ProxyStage {
    Configure,
    Build,
    Start,
}

/// The beginning of the message for a failed stage.
pub open spec fn proxy_failure(stage: ProxyStage) -> Seq<char> {
    match stage {
        ProxyStage::Configure => "failed to configure network proxy: "@,
        ProxyStage::Build => "failed to build network proxy: "@,
        ProxyStage::Start => "failed to start network proxy: "@,
    }
}

/// The error for a proxy that could not be started.
pub fn proxy_error(stage: ProxyStage, reason: &String) -> (error: JSONRPCErrorError)
    ensures
        error@ == internal_error_view(proxy_failure(stage) + reason@),
{
    let beginning = match stage {
        ProxyStage::Configure => "failed to configure network proxy: ",
        ProxyStage::Build => "failed to build network proxy: ",
        ProxyStage::Start => "failed to start network proxy: ",
    };
    internal_error(joined(beginning, reason.as_str()))
}

/// A request that was accepted for the session is allowed from memory from then
/// on, for as long as the connection is open.
pub proof fn law_session_acceptance_is_remembered(
    cache: SessionCache,
    connection_id: ConnectionId,
    key: CacheKeyView,
)
    ensures
        ({
            let after = cache_after(
                cache,
                connection_id,
                key,
                ApprovalDecision::AcceptForSession,
            );
            &&& verdict(ApprovalDecision::AcceptForSession, key.host) == NetworkVerdict::Allow
            &&& after.contains_key((connection_id, key))
            &&& cached_verdict(after[(connection_id, key)]) == NetworkVerdict::Allow
        }),
{
}

/// What is decided for a request is what its key is remembered with, whenever
/// anything is remembered.
pub proof fn law_memory_repeats_the_decision(
    cache: SessionCache,
    connection_id: ConnectionId,
    key: CacheKeyView,
    decision: ApprovalDecision,
)
    requires
        remembered(decision, key.host) is Some,
    ensures
        cache_after(cache, connection_id, key, decision).contains_key((connection_id, key)),
        cached_verdict(cache_after(cache, connection_id, key, decision)[(connection_id, key)])
            == verdict(decision, key.host),
{
}

/// A plain acceptance, a refusal, a misplaced amendment and a failed request are
/// not remembered.
pub proof fn law_single_decisions_are_not_remembered(
    cache: SessionCache,
    connection_id: ConnectionId,
    key: CacheKeyView,
    reply: NetworkReply,
)
    requires
        match reply {
            NetworkReply::Answered(Ok(ApprovalDecision::AcceptForSession)) => false,
            NetworkReply::Answered(
                Ok(ApprovalDecision::ApplyNetworkPolicyAmendment { host, action }),
            ) => host@ != key.host,
            _ => true,
        },
    ensures
        cache_after_reply(cache, connection_id, key, reply) == cache,
{
}

/// A decision changes nothing that is remembered for another connection or
/// another host, port or protocol.
pub proof fn law_memory_is_confined_to_its_key(
    cache: SessionCache,
    connection_id: ConnectionId,
    key: CacheKeyView,
    reply: NetworkReply,
    other: (ConnectionId, CacheKeyView),
)
    requires
        other != (connection_id, key),
    ensures
        ({
            let after = cache_after_reply(cache, connection_id, key, reply);
            &&& after.contains_key(other) == cache.contains_key(other)
            &&& after.contains_key(other) ==> after[other] == cache[other]
        }),
{
}

/// A closed connection remembers nothing, and the other connections remember what
/// they did.
pub proof fn law_closing_clears_the_memory(
    cache: SessionCache,
    closed: ConnectionId,
    other: (ConnectionId, CacheKeyView),
)
    ensures
        ({
            let rest = without(cache, remembered_by(closed));
            &&& other.0 == closed ==> !rest.contains_key(other)
            &&& other.0 != closed ==> rest.contains_key(other) == cache.contains_key(other) && (
            rest.contains_key(other) ==> rest[other] == cache[other])
        }),
{
}

/// A request without an acceptance is denied, whichever way the wait for it ended.
pub proof fn law_network_requests_need_an_acceptance(reply: NetworkReply, host: Seq<char>)
    ensures
        reply_verdict(reply, host) == NetworkVerdict::Allow <==> match reply {
            NetworkReply::Answered(Ok(ApprovalDecision::Accept)) => true,
            NetworkReply::Answered(Ok(ApprovalDecision::AcceptForSession)) => true,
            NetworkReply::Answered(
                Ok(ApprovalDecision::ApplyNetworkPolicyAmendment { host: named, action }),
            ) => named@ == host && action == NetworkPolicyRuleAction::Allow,
            _ => false,
        },
{
}

/// No reply answers both a network request and a permissions request: their ids
/// are never the same.
pub proof fn law_broker_ids_never_coincide(network: u64, permissions: u64)
    ensures
        approval_id(NETWORK_APPROVAL_ID_PREFIX@, network) != approval_id(
            PERMISSIONS_APPROVAL_ID_PREFIX@,
            permissions,
        ),
{
    reveal_strlit("network-approval:");
    reveal_strlit("permissions-approval:");
    assert(approval_id(NETWORK_APPROVAL_ID_PREFIX@, network)[0] == 'n');
    assert(approval_id(PERMISSIONS_APPROVAL_ID_PREFIX@, permissions)[0] == 'p');
}

/// After the wait for a request ended with an amendment that names its host, the
/// connection remembers the action of the amendment for the key of the request;
/// after it ended with an acceptance for the session, it remembers to allow it.
pub proof fn law_session_replies_are_remembered<T>(
    before: BrokerState<T>,
    connection_id: ConnectionId,
    request_id: Seq<char>,
    key: CacheKeyView,
    reply: NetworkReply,
    decision: NetworkDecision,
    after: BrokerState<T>,
)
    requires
        finish_step(before, connection_id, request_id, key, reply, decision, after),
    ensures
        cache_after_reply(before.0, connection_id, key, reply) == after.0,
        reply matches NetworkReply::Answered(Ok(ApprovalDecision::AcceptForSession)) ==> {
            &&& after.0.contains_key((connection_id, key))
            &&& after.0[(connection_id, key)] == CachedDecision::Allow
        },
        reply matches NetworkReply::Answered(
            Ok(ApprovalDecision::ApplyNetworkPolicyAmendment { host, action }),
        ) ==> (host@ == key.host ==> {
            &&& after.0.contains_key((connection_id, key))
            &&& action == NetworkPolicyRuleAction::Allow ==> after.0[(connection_id, key)]
                == CachedDecision::Allow
            &&& action == NetworkPolicyRuleAction::Deny ==> after.0[(connection_id, key)]
                == CachedDecision::Deny
        }),
{
}

/// Once the wait for a request ended with an acceptance for the session or with an
/// amendment that names its host, the same request of the same connection is decided
/// in the same way at once, and the client is not asked again.
pub proof fn law_remembered_requests_are_not_asked_again<T>(
    before: BrokerState<T>,
    context: NetworkApprovalContext,
    request: NetworkPolicyRequest,
    request_id: Seq<char>,
    reply: NetworkReply,
    decision: NetworkDecision,
    between: BrokerState<T>,
    response_tx: T,
    step: DecideStep,
    after: BrokerState<T>,
)
    requires
        finish_step(
            before,
            context.connection_id,
            request_id,
            request_key(request),
            reply,
            decision,
            between,
        ),
        decide_step(between, context, request, response_tx, step, after),
        match reply {
            NetworkReply::Answered(Ok(ApprovalDecision::AcceptForSession)) => true,
            NetworkReply::Answered(
                Ok(ApprovalDecision::ApplyNetworkPolicyAmendment { host, action }),
            ) => host@ == request.host@,
            _ => false,
        },
    ensures
        step matches DecideStep::Decided(repeated) && repeated@ == decision@,
        after == between,
{
}

/// The wait for a request ends with exactly this decision, for each way in which it
/// can end.
pub proof fn law_replies_decide_on_the_request<T>(
    before: BrokerState<T>,
    connection_id: ConnectionId,
    request_id: Seq<char>,
    key: CacheKeyView,
    reply: NetworkReply,
    decision: NetworkDecision,
    after: BrokerState<T>,
)
    requires
        finish_step(before, connection_id, request_id, key, reply, decision, after),
    ensures
        reply matches NetworkReply::Answered(Ok(ApprovalDecision::Accept)) ==> decision is Allow,
        reply matches NetworkReply::Answered(Ok(ApprovalDecision::AcceptForSession)) ==> decision
            is Allow,
        reply matches NetworkReply::Answered(Ok(ApprovalDecision::Decline)) ==> (
        decision matches NetworkDecision::Deny { reason } && reason@
            == "network access was not approved"@),
        reply matches NetworkReply::Answered(Ok(ApprovalDecision::Cancel)) ==> (
        decision matches NetworkDecision::Deny { reason } && reason@
            == "network access was not approved"@),
        reply matches NetworkReply::Answered(Ok(ApprovalDecision::AcceptWithExecpolicyAmendment))
            ==> (decision matches NetworkDecision::Deny { reason } && reason@
            == "execpolicy amendments are invalid for network approval"@),
        reply matches NetworkReply::Answered(
            Ok(ApprovalDecision::ApplyNetworkPolicyAmendment { host, action }),
        ) ==> {
            &&& host@ == key.host && action == NetworkPolicyRuleAction::Allow ==> decision is Allow
            &&& host@ == key.host && action == NetworkPolicyRuleAction::Deny ==> (
            decision matches NetworkDecision::Deny { reason } && reason@
                == "network access was not approved"@)
            &&& host@ != key.host ==> (decision matches NetworkDecision::Deny { reason }
                && reason@ == "network approval amendment host mismatch"@)
        },
        reply matches NetworkReply::Answered(Err(told)) ==> (
        decision matches NetworkDecision::Deny { reason } && reason@ == told@),
        reply matches NetworkReply::ChannelClosed ==> (
        decision matches NetworkDecision::Deny { reason } && reason@
            == "network approval response channel closed"@),
        reply matches NetworkReply::Cancelled ==> (
        decision matches NetworkDecision::Deny { reason } && reason@
            == "network approval cancelled"@),
        !after.1.contains_key(request_id),
        after.2 == before.2,
{
}

/// A client is asked exactly where nothing is remembered for the host, the port and
/// the protocol of the request, and the message names them, the command and its
/// directory.
pub proof fn law_clients_are_asked_what_is_not_remembered<T>(
    before: BrokerState<T>,
    context: NetworkApprovalContext,
    request: NetworkPolicyRequest,
    response_tx: T,
    step: DecideStep,
    after: BrokerState<T>,
    cwd: Seq<char>,
)
    requires
        decide_step(before, context, request, response_tx, step, after),
        context.cwd matches Ok(own) && own@ == cwd,
    ensures
        ({
            let protocol = match request.protocol {
                NetworkProtocol::Http => ApprovalProtocol::Http,
                NetworkProtocol::HttpsConnect => ApprovalProtocol::Https,
                NetworkProtocol::Socks5Tcp => ApprovalProtocol::Socks5Tcp,
                NetworkProtocol::Socks5Udp => ApprovalProtocol::Socks5Udp,
            };
            let key = CacheKeyView { host: request.host@, port: request.port, protocol };
            &&& step is Ask <==> !before.0.contains_key((context.connection_id, key))
            &&& step matches DecideStep::Ask(ask) ==> {
                &&& ask.request_id@ == approval_id("network-approval:"@, before.2)
                &&& ask.key.host@ == request.host@
                &&& ask.key.port == request.port
                &&& ask.key.protocol == protocol
                &&& after.1.contains_key(ask.request_id@)
                &&& after.1[ask.request_id@].connection_id == context.connection_id
                &&& after.1[ask.request_id@].response_tx == response_tx
                &&& ask.message@ matches MessageView::Request { id, method, params } && {
                    &&& id == RequestIdView::Text(ask.request_id@)
                    &&& method == "command/exec/requestNetworkApproval"@
                    &&& member_names(params) == seq![
                        "processId"@,
                        "host"@,
                        "port"@,
                        "protocol"@,
                        "command"@,
                        "cwd"@,
                    ]
                    &&& context.process_id matches Some(own) ==> has_member(
                        params,
                        "processId"@,
                        FieldValueView::Text(own@),
                    )
                    &&& context.process_id is None ==> has_member(
                        params,
                        "processId"@,
                        FieldValueView::Null,
                    )
                    &&& has_member(params, "host"@, FieldValueView::Text(request.host@))
                    &&& has_member(params, "port"@, FieldValueView::Number(request.port as int))
                    &&& has_member(
                        params,
                        "protocol"@,
                        FieldValueView::Text(
                            match request.protocol {
                                NetworkProtocol::Http => "http"@,
                                NetworkProtocol::HttpsConnect => "https"@,
                                NetworkProtocol::Socks5Tcp => "socks5Tcp"@,
                                NetworkProtocol::Socks5Udp => "socks5Udp"@,
                            },
                        ),
                    )
                    &&& has_member(
                        params,
                        "command"@,
                        FieldValueView::TextList(texts(context.command@)),
                    )
                    &&& has_member(params, "cwd"@, FieldValueView::Text(cwd))
                }
            }
        }),
{
    if let DecideStep::Ask(ask) = step {
        let params = ask.message@->Request_params;
        assert(member_names(params) =~= seq![
            "processId"@,
            "host"@,
            "port"@,
            "protocol"@,
            "command"@,
            "cwd"@,
        ]);
        assert(params[0].0 == "processId"@ && params[1].0 == "host"@ && params[2].0 == "port"@);
        assert(params[3].0 == "protocol"@ && params[4].0 == "command"@ && params[5].0 == "cwd"@);
    }
}

/// A request that is remembered is decided by what is remembered, and one whose
/// directory cannot be put in a message is denied; nobody waits for either.
pub proof fn law_requests_that_are_not_asked_are_decided<T>(
    before: BrokerState<T>,
    context: NetworkApprovalContext,
    request: NetworkPolicyRequest,
    response_tx: T,
    step: DecideStep,
    after: BrokerState<T>,
)
    requires
        decide_step(before, context, request, response_tx, step, after),
    ensures
        after.0 == before.0,
        ({
            let entry = (context.connection_id, request_key(request));
            let remembered = before.0.contains_key(entry);
            &&& remembered && before.0[entry] == CachedDecision::Allow ==> (
            step matches DecideStep::Decided(decision) && decision is Allow)
            &&& remembered && before.0[entry] == CachedDecision::Deny ==> (
            step matches DecideStep::Decided(NetworkDecision::Deny { reason }) && reason@
                == "network access was not approved"@)
            &&& remembered ==> after.1 == before.1 && after.2 == before.2
            &&& !remembered ==> (context.cwd matches Err(fault) ==> (
            step matches DecideStep::Decided(NetworkDecision::Deny { reason }) && reason@
                == "invalid approval request: "@ + fault@))
            &&& step is Decided ==> after.1.dom().subset_of(before.1.dom())
        }),
{
}

/// What a remembered decision applies to differs wherever the host, the port or the
/// protocol does.
pub proof fn law_requests_are_told_apart(a: NetworkPolicyRequest, b: NetworkPolicyRequest)
    ensures
        request_key(a) == request_key(b) <==> a.host@ == b.host@ && a.port == b.port && a.protocol
            == b.protocol,
{
    let (x, y) = (request_key(a), request_key(b));
    assert(x.host == a.host@ && x.port == a.port);
    assert(y.host == b.host@ && y.port == b.port);
}

/// A response is taken for the decision that it carries; one that carries none, and
/// an error reply, are taken for a refusal with the reason.
pub proof fn law_network_answers_are_taken_as_sent(
    result: Result<ApprovalDecision, String>,
    message: Seq<char>,
)
    ensures
        result matches Ok(decision) ==> (network_answer(result) matches Ok(taken) && taken
            == decision),
        result matches Err(fault) ==> (network_answer(result) matches Err(reason) && reason
            == "invalid network approval response: "@ + fault@),
        network_failure(message) matches Err(reason) && reason
            == "network approval request failed: "@ + message,
{
}

/// A proxy that cannot be started is reported with the stage that failed.
pub proof fn law_proxy_failures_name_their_stage()
    ensures
        proxy_failure(ProxyStage::Configure) == "failed to configure network proxy: "@,
        proxy_failure(ProxyStage::Build) == "failed to build network proxy: "@,
        proxy_failure(ProxyStage::Start) == "failed to start network proxy: "@,
{
}

/// A closing connection takes along what it remembers itself, and only that.
pub proof fn law_connections_remember_for_themselves(
    connection_id: ConnectionId,
    key: (ConnectionId, CacheKeyView),
    decision: CachedDecision,
)
    ensures
        remembered_by(connection_id)(key, decision) <==> key.0 == connection_id,
{
}

} // verus!
