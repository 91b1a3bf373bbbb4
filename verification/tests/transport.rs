use codex_sandbox_server::protocol::ConnectionId;
use codex_sandbox_server::server::Server;
use codex_sandbox_server::transport::{
    check_socket_path, frame_line, line_event, peer_has_same_uid, socket_event, AcceptEvent,
    AcceptStep, LineEvent, LineStep, SocketEvent, SocketFile, SocketStep, CHANNEL_CAPACITY,
    SOCKET_MODE,
};

#[test]
fn messages_take_a_line_each() {
    assert_eq!(frame_line(b"{\"id\":1}".to_vec()), b"{\"id\":1}\n");
    assert_eq!(frame_line(Vec::new()), b"\n");
    let mut output = frame_line(b"{\"id\":1}".to_vec());
    output.extend(frame_line(b"{\"id\":2}".to_vec()));
    let lines: Vec<&[u8]> = output.split(|byte| *byte == b'\n').collect();
    assert_eq!(lines, vec![&b"{\"id\":1}"[..], &b"{\"id\":2}"[..], &b""[..]]);
}

#[test]
fn the_end_of_the_input_closes_the_service() {
    let step = |event: LineEvent<u8>| line_event(event);
    assert_eq!(step(LineEvent::Line("{}".to_string())), LineStep::Handle("{}".to_string()));
    assert_eq!(step(LineEvent::End), LineStep::Close);
    assert_eq!(step(LineEvent::Shutdown), LineStep::Close);
    assert_eq!(step(LineEvent::Failed(5)), LineStep::Fail(5));
}

#[test]
fn socket_frames_are_messages_if_they_are_text() {
    let text = "{\"method\":\"é\"}";
    assert_eq!(
        socket_event(SocketEvent::Text(text.to_string())),
        SocketStep::Handle(text.to_string())
    );
    assert_eq!(
        socket_event(SocketEvent::Binary(text.as_bytes().to_vec())),
        SocketStep::Handle(text.to_string())
    );
    assert_eq!(socket_event(SocketEvent::Binary(vec![0xff, 0xfe])), SocketStep::Skip);
    assert_eq!(socket_event(SocketEvent::Heartbeat), SocketStep::Skip);
    for event in vec![
        SocketEvent::Shutdown,
        SocketEvent::Close,
        SocketEvent::End,
        SocketEvent::Failed,
    ] {
        assert_eq!(socket_event(event), SocketStep::Close);
    }
}

#[test]
fn uds_refuses_to_replace_an_existing_path() {
    let path = "/tmp/sandbox.sock".to_string();
    assert_eq!(
        check_socket_path(true, &path),
        Err("UDS path already exists: /tmp/sandbox.sock".to_string())
    );
    assert_eq!(check_socket_path(false, &path), Ok(()));
    let own = SocketFile { dev: 1, ino: 2 };
    assert!(own.should_remove(Some(SocketFile { dev: 1, ino: 2 })));
    assert!(!own.should_remove(Some(SocketFile { dev: 1, ino: 3 })));
    assert!(!own.should_remove(Some(SocketFile { dev: 2, ino: 2 })));
    assert!(!own.should_remove(None));
}

#[test]
fn only_peers_of_the_same_user_are_served() {
    let mut server: Server<(), (), ()> = Server::new();
    let accepted = |peer_uid| AcceptEvent::Accepted { peer_uid };
    assert_eq!(server.accept(accepted(Some(0)), 1000), AcceptStep::Wait);
    assert_eq!(server.accept(accepted(None), 1000), AcceptStep::Wait);
    assert_eq!(server.accept(accepted(Some(1000)), 1000), AcceptStep::Serve(ConnectionId(1)));
    assert_eq!(server.accept(AcceptEvent::Failed, 1000), AcceptStep::Wait);
    assert_eq!(server.accept(AcceptEvent::ConnectionEnded, 1000), AcceptStep::Wait);
    assert_eq!(server.accept(accepted(Some(1000)), 1000), AcceptStep::Serve(ConnectionId(2)));
    assert_eq!(server.accept(AcceptEvent::Shutdown, 1000), AcceptStep::Stop);
    assert!(peer_has_same_uid(Some(0), 0));
    assert!(!peer_has_same_uid(None, 0));
}

#[test]
fn limits_are_fixed() {
    assert_eq!(SOCKET_MODE, 0o600);
    assert_eq!(CHANNEL_CAPACITY, 128);
}
