use codex_sandbox_server::approval::{ApprovalDecision, Delivery, NetworkPolicyRuleAction};
use codex_sandbox_server::permissions::{
    duplicate_pending_error, ApprovalRequest, PermissionsApprovalBroker, PermissionsPayload,
};
use codex_sandbox_server::protocol::{
    ConnectionId, Field, FieldValue, JSONRPCErrorError, OutgoingMessage, RequestId,
};

fn payload() -> Result<PermissionsPayload, String> {
    Ok(PermissionsPayload {
        cwd: "/workspace".to_string(),
        additional_permissions: "{\"network\":null}".to_string(),
    })
}

fn ask(
    broker: &mut PermissionsApprovalBroker<u8>,
    connection: u64,
    process_id: Option<&str>,
    tx: u8,
) -> Result<ApprovalRequest, JSONRPCErrorError> {
    broker.request_approval(
        ConnectionId(connection),
        process_id.map(str::to_string),
        vec!["sh".to_string(), "-c".to_string()],
        payload(),
        tx,
    )
}

fn text_id(id: &str) -> RequestId {
    RequestId::Text(id.to_string())
}

fn refused(message: &str) -> Result<(), JSONRPCErrorError> {
    Err(JSONRPCErrorError { code: -32600, message: message.to_string() })
}

#[test]
fn the_request_shows_the_command_and_the_permissions() {
    let mut broker = PermissionsApprovalBroker::new();
    let request = ask(&mut broker, 1, Some("update-state"), 1).expect("request");
    assert_eq!(request.request_id, "permissions-approval:1");
    assert_eq!(
        request.message,
        OutgoingMessage::Request {
            id: text_id("permissions-approval:1"),
            method: "command/exec/requestPermissionsApproval",
            params: vec![
                Field { name: "processId", value: FieldValue::Text("update-state".to_string()) },
                Field {
                    name: "command",
                    value: FieldValue::TextList(vec!["sh".to_string(), "-c".to_string()]),
                },
                Field { name: "cwd", value: FieldValue::Text("/workspace".to_string()) },
                Field {
                    name: "additionalPermissions",
                    value: FieldValue::Json("{\"network\":null}".to_string()),
                },
            ],
        }
    );
    let unnamed = ask(&mut broker, 1, None, 2).expect("request");
    match unnamed.message {
        OutgoingMessage::Request { params, .. } => assert_eq!(params[0].value, FieldValue::Null),
        other => panic!("expected a request, got {other:?}"),
    }
}

#[test]
fn only_a_plain_acceptance_grants() {
    let mut broker: PermissionsApprovalBroker<u8> = PermissionsApprovalBroker::new();
    let id = "permissions-approval:1".to_string();
    let not_approved = "additional permissions were not approved";
    assert_eq!(broker.finish_approval(&id, Some(Ok(ApprovalDecision::Accept))), Ok(()));
    for decision in vec![
        ApprovalDecision::AcceptForSession,
        ApprovalDecision::AcceptWithExecpolicyAmendment,
        ApprovalDecision::ApplyNetworkPolicyAmendment {
            host: "example.com".to_string(),
            action: NetworkPolicyRuleAction::Allow,
        },
        ApprovalDecision::Decline,
        ApprovalDecision::Cancel,
    ] {
        assert_eq!(broker.finish_approval(&id, Some(Ok(decision))), refused(not_approved));
    }
    assert_eq!(
        broker.finish_approval(&id, Some(Err("permissions approval cancelled".to_string()))),
        refused("permissions approval cancelled")
    );
    assert_eq!(
        broker.finish_approval(&id, None),
        refused("permissions approval response channel closed")
    );
}

#[test]
fn a_command_waits_for_one_approval_at_a_time() {
    let mut broker = PermissionsApprovalBroker::new();
    ask(&mut broker, 1, Some("say \"hi\"\n"), 1).expect("first request");
    assert_eq!(
        ask(&mut broker, 1, Some("say \"hi\"\n"), 2),
        Err(JSONRPCErrorError {
            code: -32600,
            message: "duplicate pending command/exec process id: \"say \\\"hi\\\"\\n\"".to_string(),
        })
    );
    ask(&mut broker, 2, Some("say \"hi\"\n"), 3).expect("same id on another connection");
    ask(&mut broker, 1, None, 4).expect("unnamed command");
    ask(&mut broker, 1, None, 5).expect("another unnamed command");
    broker
        .finish_approval(
            &"permissions-approval:1".to_string(),
            Some(Ok(ApprovalDecision::Accept)),
        )
        .expect("accepted");
    let again = ask(&mut broker, 1, Some("say \"hi\"\n"), 6).expect("the id is free again");
    assert_eq!(again.request_id, "permissions-approval:6");
}

#[test]
fn duplicate_error_quotes_the_id() {
    let error = duplicate_pending_error(&"\"build\"".to_string());
    assert_eq!(error.code, -32600);
    assert_eq!(error.message, "duplicate pending command/exec process id: \"build\"");
}

#[test]
fn unserializable_requests_do_not_wait() {
    let mut broker = PermissionsApprovalBroker::new();
    let result = broker.request_approval(
        ConnectionId(1),
        Some("build".to_string()),
        vec!["sh".to_string()],
        Err("path contains invalid UTF-8 characters".to_string()),
        1,
    );
    assert_eq!(
        result,
        Err(JSONRPCErrorError {
            code: -32600,
            message: "invalid permissions approval request: path contains invalid UTF-8 characters"
                .to_string(),
        })
    );
    assert_eq!(broker.cancel_process(ConnectionId(1), &"build".to_string()), None);
    ask(&mut broker, 1, Some("build"), 2).expect("the id is free");
}

#[test]
fn replies_reach_the_waiting_request_once() {
    let mut broker = PermissionsApprovalBroker::new();
    ask(&mut broker, 1, Some("build"), 9).expect("request");
    let id = text_id("permissions-approval:1");
    let accept = || Ok(ApprovalDecision::Accept);
    assert_eq!(broker.handle_response(ConnectionId(2), &id, accept()), None);
    assert_eq!(
        broker.handle_response(ConnectionId(1), &text_id("network-approval:1"), accept()),
        None
    );
    assert_eq!(
        broker.handle_response(ConnectionId(1), &id, accept()),
        Some(Delivery { response_tx: 9, response: Ok(ApprovalDecision::Accept) })
    );
    assert_eq!(broker.handle_response(ConnectionId(1), &id, accept()), None);
    assert_eq!(
        broker.handle_error(ConnectionId(1), &id, &"late".to_string()),
        None
    );
}

#[test]
fn failed_replies_carry_their_reason() {
    let mut broker = PermissionsApprovalBroker::new();
    ask(&mut broker, 1, None, 1).expect("request");
    ask(&mut broker, 1, None, 2).expect("request");
    let first = broker.handle_response(
        ConnectionId(1),
        &text_id("permissions-approval:1"),
        Err("missing field `decision`".to_string()),
    );
    assert_eq!(
        first,
        Some(Delivery {
            response_tx: 1,
            response: Err(
                "invalid permissions approval response: missing field `decision`".to_string()
            ),
        })
    );
    let second = broker.handle_error(
        ConnectionId(1),
        &text_id("permissions-approval:2"),
        &"human review service unavailable".to_string(),
    );
    assert_eq!(
        second,
        Some(Delivery {
            response_tx: 2,
            response: Err(
                "permissions approval request failed: human review service unavailable".to_string()
            ),
        })
    );
}

#[test]
fn cancelling_and_closing_fail_the_waiting_requests() {
    let mut broker = PermissionsApprovalBroker::new();
    ask(&mut broker, 1, Some("a"), 1).expect("request");
    ask(&mut broker, 1, Some("b"), 2).expect("request");
    ask(&mut broker, 2, Some("a"), 3).expect("request");
    assert_eq!(broker.cancel_process(ConnectionId(1), &"c".to_string()), None);
    assert_eq!(
        broker.cancel_process(ConnectionId(1), &"a".to_string()),
        Some(Delivery {
            response_tx: 1,
            response: Err("permissions approval cancelled".to_string()),
        })
    );
    assert_eq!(broker.cancel_process(ConnectionId(1), &"a".to_string()), None);
    assert_eq!(
        broker.connection_closed(ConnectionId(1)),
        vec![Delivery {
            response_tx: 2,
            response: Err("permissions approval connection closed".to_string()),
        }]
    );
    assert!(broker.connection_closed(ConnectionId(1)).is_empty());
    assert_eq!(broker.connection_closed(ConnectionId(2)).len(), 1);
}
