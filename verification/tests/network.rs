use codex_sandbox_server::approval::{
    ApprovalDecision, Delivery, NetworkPolicyRuleAction,
};
use codex_sandbox_server::network::{
    proxy_error, ApprovalProtocol, CachedDecision, DecideStep, NetworkApprovalBroker,
    NetworkApprovalContext, NetworkAsk, NetworkCacheKey, NetworkDecision, NetworkPolicyRequest,
    NetworkProtocol, NetworkReply, ProxyStage,
};
use codex_sandbox_server::protocol::{ConnectionId, Field, FieldValue, OutgoingMessage, RequestId};
use serde_json::Value;

fn object(members: Vec<(&str, Value)>) -> Value {
    let mut map = serde_json::Map::new();
    for (name, value) in members {
        map.insert(name.to_string(), value);
    }
    Value::Object(map)
}

fn fields_json(fields: &[Field]) -> Value {
    object(
        fields
            .iter()
            .map(|field| {
                let value = match &field.value {
                    FieldValue::Null => Value::Null,
                    FieldValue::Flag(flag) => Value::from(*flag),
                    FieldValue::Number(number) => Value::from(*number),
                    FieldValue::Text(text) => Value::from(text.clone()),
                    FieldValue::TextList(list) => Value::from(list.clone()),
                    FieldValue::Json(json) => serde_json::from_str(json).expect("embedded JSON"),
                };
                (field.name, value)
            })
            .collect(),
    )
}

fn request_json(message: &OutgoingMessage) -> Value {
    match message {
        OutgoingMessage::Request { id: RequestId::Text(id), method, params } => object(vec![
            ("id", Value::from(id.clone())),
            ("method", Value::from(*method)),
            ("params", fields_json(params)),
        ]),
        other => panic!("expected a request, got {other:?}"),
    }
}

fn approval_context() -> NetworkApprovalContext {
    NetworkApprovalContext {
        connection_id: ConnectionId(7),
        process_id: Some("build-1".to_string()),
        command: vec!["cargo".to_string(), "build".to_string()],
        cwd: Ok("/workspace".to_string()),
    }
}

fn policy_request() -> NetworkPolicyRequest {
    NetworkPolicyRequest {
        protocol: NetworkProtocol::HttpsConnect,
        host: "example.com".to_string(),
        port: 443,
    }
}

fn expect_ask(step: DecideStep) -> NetworkAsk {
    match step {
        DecideStep::Ask(ask) => ask,
        DecideStep::Decided(decision) => panic!("expected a request, got {decision:?}"),
    }
}

fn text_id(id: &str) -> RequestId {
    RequestId::Text(id.to_string())
}

fn denied(reason: &str) -> NetworkDecision {
    NetworkDecision::Deny { reason: reason.to_string() }
}

#[test]
fn accept_for_session_continues_and_caches_the_request() {
    let mut broker: NetworkApprovalBroker<&'static str> = NetworkApprovalBroker::new();
    let ask = expect_ask(broker.decide(approval_context(), policy_request(), "waiting"));

    assert_eq!(
        request_json(&ask.message),
        object(vec![
            ("id", Value::from("network-approval:1")),
            ("method", Value::from("command/exec/requestNetworkApproval")),
            (
                "params",
                object(vec![
                    ("processId", Value::from("build-1")),
                    ("host", Value::from("example.com")),
                    ("port", Value::from(443)),
                    ("protocol", Value::from("https")),
                    ("command", Value::from(vec!["cargo", "build"])),
                    ("cwd", Value::from("/workspace")),
                ])
            ),
        ])
    );
    let delivery = broker
        .handle_response(
            ConnectionId(7),
            &text_id("network-approval:1"),
            Ok(ApprovalDecision::AcceptForSession),
        )
        .expect("answer for the waiting request");
    assert_eq!(delivery.response_tx, "waiting");
    assert_eq!(
        broker.finish_decide(
            ConnectionId(7),
            &ask.request_id,
            ask.key,
            NetworkReply::Answered(delivery.response),
        ),
        NetworkDecision::Allow
    );

    assert_eq!(
        broker.decide(approval_context(), policy_request(), "second"),
        DecideStep::Decided(NetworkDecision::Allow)
    );
}

#[test]
fn execution_cancellation_denies_pending_approval() {
    let mut broker: NetworkApprovalBroker<u8> = NetworkApprovalBroker::new();
    let ask = expect_ask(broker.decide(approval_context(), policy_request(), 1));

    let decision = broker.finish_decide(
        ConnectionId(7),
        &ask.request_id,
        ask.key,
        NetworkReply::Cancelled,
    );
    assert!(matches!(decision, NetworkDecision::Deny { .. }));
    assert_eq!(decision, denied("network approval cancelled"));
    let late = broker.handle_response(
        ConnectionId(7),
        &text_id("network-approval:1"),
        Ok(ApprovalDecision::Accept),
    );
    assert_eq!(late, None);
    assert!(broker.connection_closed(ConnectionId(7)).is_empty());
}

#[test]
fn plain_acceptance_is_not_remembered() {
    let mut broker: NetworkApprovalBroker<u8> = NetworkApprovalBroker::new();
    let ask = expect_ask(broker.decide(approval_context(), policy_request(), 1));
    let decision = broker.finish_decide(
        ConnectionId(7),
        &ask.request_id,
        ask.key,
        NetworkReply::Answered(Ok(ApprovalDecision::Accept)),
    );
    assert_eq!(decision, NetworkDecision::Allow);
    let again = expect_ask(broker.decide(approval_context(), policy_request(), 2));
    assert_eq!(again.request_id, "network-approval:2");
}

#[test]
fn remembered_decisions_belong_to_a_connection_host_port_and_protocol() {
    let mut broker: NetworkApprovalBroker<u8> = NetworkApprovalBroker::new();
    let key = || NetworkCacheKey {
        host: "example.com".to_string(),
        port: 443,
        protocol: ApprovalProtocol::Https,
    };
    broker.apply_decision(ConnectionId(7), key(), ApprovalDecision::AcceptForSession);
    assert_eq!(broker.cached_decision(ConnectionId(7), &key()), Some(CachedDecision::Allow));
    assert_eq!(broker.cached_decision(ConnectionId(8), &key()), None);
    let other_port = NetworkCacheKey { port: 80, ..key() };
    assert_eq!(broker.cached_decision(ConnectionId(7), &other_port), None);
    let other_protocol = NetworkCacheKey { protocol: ApprovalProtocol::Http, ..key() };
    assert_eq!(broker.cached_decision(ConnectionId(7), &other_protocol), None);
    let other_host = NetworkCacheKey { host: "example.org".to_string(), ..key() };
    assert_eq!(broker.cached_decision(ConnectionId(7), &other_host), None);

    broker.connection_closed(ConnectionId(8));
    assert_eq!(broker.cached_decision(ConnectionId(7), &key()), Some(CachedDecision::Allow));
    broker.connection_closed(ConnectionId(7));
    assert_eq!(broker.cached_decision(ConnectionId(7), &key()), None);
}

#[test]
fn amendments_apply_to_the_requested_host_only() {
    let mut broker: NetworkApprovalBroker<u8> = NetworkApprovalBroker::new();
    let key = || NetworkCacheKey {
        host: "example.com".to_string(),
        port: 443,
        protocol: ApprovalProtocol::Https,
    };
    let amendment = |host: &str, action| ApprovalDecision::ApplyNetworkPolicyAmendment {
        host: host.to_string(),
        action,
    };
    assert_eq!(
        broker.apply_decision(
            ConnectionId(7),
            key(),
            amendment("example.org", NetworkPolicyRuleAction::Allow),
        ),
        denied("network approval amendment host mismatch")
    );
    assert_eq!(broker.cached_decision(ConnectionId(7), &key()), None);
    assert_eq!(
        broker.apply_decision(
            ConnectionId(7),
            key(),
            amendment("example.com", NetworkPolicyRuleAction::Deny),
        ),
        denied("network access was not approved")
    );
    assert_eq!(
        broker.decide(approval_context(), policy_request(), 1),
        DecideStep::Decided(denied("network access was not approved"))
    );
    assert_eq!(
        broker.apply_decision(
            ConnectionId(7),
            key(),
            amendment("example.com", NetworkPolicyRuleAction::Allow),
        ),
        NetworkDecision::Allow
    );
    assert_eq!(broker.cached_decision(ConnectionId(7), &key()), Some(CachedDecision::Allow));
}

#[test]
fn refusals_name_their_reason() {
    let mut broker: NetworkApprovalBroker<u8> = NetworkApprovalBroker::new();
    let mut decide = |reply: NetworkReply| {
        let ask = expect_ask(broker.decide(approval_context(), policy_request(), 1));
        broker.finish_decide(ConnectionId(7), &ask.request_id, ask.key, reply)
    };
    assert_eq!(
        decide(NetworkReply::Answered(Ok(ApprovalDecision::Decline))),
        denied("network access was not approved")
    );
    assert_eq!(
        decide(NetworkReply::Answered(Ok(ApprovalDecision::Cancel))),
        denied("network access was not approved")
    );
    assert_eq!(
        decide(NetworkReply::Answered(Ok(ApprovalDecision::AcceptWithExecpolicyAmendment))),
        denied("execpolicy amendments are invalid for network approval")
    );
    assert_eq!(
        decide(NetworkReply::Answered(Err("gone".to_string()))),
        denied("gone")
    );
    assert_eq!(
        decide(NetworkReply::ChannelClosed),
        denied("network approval response channel closed")
    );
}

#[test]
fn unserializable_requests_are_denied_and_do_not_wait() {
    let mut broker: NetworkApprovalBroker<u8> = NetworkApprovalBroker::new();
    let context = NetworkApprovalContext {
        cwd: Err("path contains invalid UTF-8 characters".to_string()),
        ..approval_context()
    };
    assert_eq!(
        broker.decide(context, policy_request(), 1),
        DecideStep::Decided(denied(
            "invalid approval request: path contains invalid UTF-8 characters"
        ))
    );
    assert!(broker.connection_closed(ConnectionId(7)).is_empty());
    let ask = expect_ask(broker.decide(approval_context(), policy_request(), 2));
    assert_eq!(ask.request_id, "network-approval:2");
}

#[test]
fn replies_are_taken_from_the_asked_connection_only() {
    let mut broker: NetworkApprovalBroker<u8> = NetworkApprovalBroker::new();
    expect_ask(broker.decide(approval_context(), policy_request(), 42));
    let accept = || Ok(ApprovalDecision::Accept);
    assert_eq!(
        broker.handle_response(ConnectionId(8), &text_id("network-approval:1"), accept()),
        None
    );
    assert_eq!(
        broker.handle_response(ConnectionId(7), &text_id("network-approval:2"), accept()),
        None
    );
    assert_eq!(
        broker.handle_response(ConnectionId(7), &RequestId::Integer(1), accept()),
        None
    );
    assert_eq!(
        broker.handle_response(
            ConnectionId(7),
            &text_id("network-approval:1"),
            Err("missing field `decision`".to_string()),
        ),
        Some(Delivery {
            response_tx: 42,
            response: Err(
                "invalid network approval response: missing field `decision`".to_string()
            ),
        })
    );
    assert_eq!(
        broker.handle_response(ConnectionId(7), &text_id("network-approval:1"), accept()),
        None
    );
}

#[test]
fn error_replies_and_closed_connections_fail_the_request() {
    let mut broker: NetworkApprovalBroker<u8> = NetworkApprovalBroker::new();
    expect_ask(broker.decide(approval_context(), policy_request(), 1));
    expect_ask(broker.decide(approval_context(), policy_request(), 2));
    let elsewhere = NetworkApprovalContext { connection_id: ConnectionId(9), ..approval_context() };
    expect_ask(broker.decide(elsewhere, policy_request(), 3));
    assert_eq!(
        broker.handle_error(
            ConnectionId(7),
            &text_id("network-approval:1"),
            &"review service unavailable".to_string(),
        ),
        Some(Delivery {
            response_tx: 1,
            response: Err(
                "network approval request failed: review service unavailable".to_string()
            ),
        })
    );
    assert_eq!(
        broker.connection_closed(ConnectionId(7)),
        vec![Delivery {
            response_tx: 2,
            response: Err("network approval connection closed".to_string()),
        }]
    );
    assert!(broker
        .handle_response(
            ConnectionId(9),
            &text_id("network-approval:3"),
            Ok(ApprovalDecision::Accept),
        )
        .is_some());
}

#[test]
fn protocols_map_to_their_wire_names() {
    let name = |protocol: NetworkProtocol| ApprovalProtocol::from(protocol).wire_name();
    assert_eq!(name(NetworkProtocol::Http), "http");
    assert_eq!(name(NetworkProtocol::HttpsConnect), "https");
    assert_eq!(name(NetworkProtocol::Socks5Tcp), "socks5Tcp");
    assert_eq!(name(NetworkProtocol::Socks5Udp), "socks5Udp");
}

#[test]
fn proxy_failures_are_internal_errors() {
    let reason = "port in use".to_string();
    let message = |stage| {
        let error = proxy_error(stage, &reason);
        assert_eq!(error.code, -32603);
        error.message
    };
    assert_eq!(
        message(ProxyStage::Configure),
        "failed to configure network proxy: port in use"
    );
    assert_eq!(message(ProxyStage::Build), "failed to build network proxy: port in use");
    assert_eq!(message(ProxyStage::Start), "failed to start network proxy: port in use");
}
