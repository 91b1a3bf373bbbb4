//! What reaches the service over its connections: message framing, the events of
//! a connection and the admission of local peers.

use crate::approval::next_u64;
use crate::external::utf8_text;
use crate::protocol::ConnectionId;
use crate::server::Server;
use crate::text::joined;
use vstd::prelude::*;
use vstd::string::*;
use vstd::utf8::{decode_utf8, valid_utf8};

verus! {

/// How many messages may wait to be sent on a connection.
pub const CHANNEL_CAPACITY: usize = 128;

/// The file mode of the socket: only its owner may connect.
pub const SOCKET_MODE: u32 = 0o600;

/// The connection over the standard streams.
pub const STDIO_CONNECTION: u64 = 0;

const NEWLINE: u8 = 10;

/// A message on the standard output: its JSON text and a line end.
pub open spec fn framed(json: Seq<u8>) -> Seq<u8> {
    json.push(10u8)
}

/// A series of messages on the standard output.
pub open spec fn framed_all(messages: Seq<Seq<u8>>) -> Seq<u8>
    decreases messages.len(),
{
    if messages.len() == 0 {
        Seq::empty()
    } else {
        framed(messages.first()) + framed_all(messages.drop_first())
    }
}

/// Whether a text takes up one line.
pub open spec fn single_line(json: Seq<u8>) -> bool {
    forall|i: int| 0 <= i < json.len() ==> #[trigger] json[i] != 10u8
}

/// Puts a message into the form it has on the standard output.
pub fn frame_line(json: Vec<u8>) -> (line: Vec<u8>)
    ensures
        line@ == framed(json@),
{
    let mut line = json;
    line.push(NEWLINE);
    line
}

/// What happens on the standard input. `E` is the reason of a failed read.
pub enum LineEvent<E> {
    Shutdown,
    Line(String),
    /// The input has ended.
    End,
    Failed(E),
}

/// What the service does about it.
#[derive(Debug, Clone, PartialEq, Eq)]
pub enum LineStep<E> {
    /// Takes in the text as a message.
    Handle(String),
    /// Closes the connection, and with it the service.
    Close,
    /// Gives up.
    Fail(E),
}

/// Whether a step is what an event on the standard input leads to.
pub open spec fn line_leads_to<E>(event: LineEvent<E>, step: LineStep<E>) -> bool {
    match event {
        LineEvent::Line(line) => step matches LineStep::Handle(text) && text@ == line@,
        LineEvent::Failed(reason) => step == LineStep::Fail(reason),
        _ => step is Close,
    }
}

/// What the service does about an event on the standard input.
pub fn line_event<E>(event: LineEvent<E>) -> (step: LineStep<E>)
    ensures
        match event {
            LineEvent::Shutdown => step is Close,
            LineEvent::End => step is Close,
            LineEvent::Line(line) => step matches LineStep::Handle(text) && text@ == line@,
            LineEvent::Failed(reason) => step == LineStep::Fail(reason),
        },
        line_leads_to(event, step),
{
    match event {
        LineEvent::Shutdown => LineStep::Close,
        LineEvent::End => LineStep::Close,
        LineEvent::Line(line) => LineStep::Handle(line),
        LineEvent::Failed(reason) => LineStep::Fail(reason),
    }
}

/// What happens on a socket connection.
pub enum SocketEvent {
    Shutdown,
    Text(String),
    Binary(Vec<u8>),
    /// A frame that only keeps the connection alive.
    Heartbeat,
    /// The peer closes the connection.
    Close,
    /// The connection has ended.
    End,
    Failed,
}

/// What the service does about it.
#[derive(Debug, Clone, PartialEq, Eq)]
pub enum SocketStep {
    /// Takes in the text as a message.
    Handle(String),
    /// Goes on without it.
    Skip,
    /// Closes the connection.
    Close,
}

/// The text of a message in an event.
pub open spec fn message_text(event: SocketEvent) -> Option<Seq<char>> {
    match event {
        SocketEvent::Text(text) => Some(text@),
        SocketEvent::Binary(bytes) => if valid_utf8(bytes@) {
            Some(decode_utf8(bytes@))
        } else {
            None
        },
        _ => None,
    }
}

/// Whether an event ends its connection.
pub open spec fn ends_connection(event: SocketEvent) -> bool {
    event is Shutdown || event is Close || event is End || event is Failed
}

/// Whether a step is what an event on a socket connection leads to.
pub open spec fn frame_leads_to(event: SocketEvent, step: SocketStep) -> bool {
    match message_text(event) {
        Some(text) => step matches SocketStep::Handle(handled) && handled@ == text,
        None => if ends_connection(event) {
            step is Close
        } else {
            step is Skip
        },
    }
}

/// What the service does about an event on a socket connection. A binary frame is
/// a message if it holds valid UTF-8.
pub fn socket_event(event: SocketEvent) -> (step: SocketStep)
    ensures
        match message_text(event) {
            Some(text) => step matches SocketStep::Handle(handled) && handled@ == text,
            None => if ends_connection(event) {
                step is Close
            } else {
                step is Skip
            },
        },
        frame_leads_to(event, step),
{
    match event {
        SocketEvent::Text(text) => SocketStep::Handle(text),
        SocketEvent::Binary(bytes) => match utf8_text(bytes.as_slice()) {
            Some(text) => SocketStep::Handle(text.to_owned()),
            None => SocketStep::Skip,
        },
        SocketEvent::Heartbeat => SocketStep::Skip,
        SocketEvent::Shutdown => SocketStep::Close,
        SocketEvent::Close => SocketStep::Close,
        SocketEvent::End => SocketStep::Close,
        SocketEvent::Failed => SocketStep::Close,
    }
}

/// Whether this is the outcome of checking a socket path.
pub open spec fn path_checked(exists: bool, path: Seq<char>, result: Result<(), String>) -> bool {
    match result {
        Ok(_) => !exists,
        Err(message) => exists && message@ == "UDS path already exists: "@ + path,
    }
}

/// Checks that a socket path is free: what is there already is not replaced.
pub fn check_socket_path(exists: bool, path: &String) -> (result: Result<(), String>)
    ensures
        result is Ok <==> !exists,
        result matches Err(message) ==> message@ == "UDS path already exists: "@ + path@,
        path_checked(exists, path@, result),
{
    if exists {
        return Err(joined("UDS path already exists: ", path.as_str()));
    }
    Ok(())
}

/// Whether a peer is known to run as this user.
pub open spec fn runs_as(peer_uid: Option<u32>, uid: u32) -> bool {
    peer_uid matches Some(known) && known == uid
}

/// Whether a peer runs as the same user as the service. One whose user is unknown
/// does not.
pub fn peer_has_same_uid(peer_uid: Option<u32>, own_uid: u32) -> (same: bool)
    ensures
        same == (peer_uid == Some(own_uid)),
        same == runs_as(peer_uid, own_uid),
{
    match peer_uid {
        Some(uid) => uid == own_uid,
        None => false,
    }
}

/// What happens at the socket.
pub enum AcceptEvent {
    Shutdown,
    /// A connection has ended.
    ConnectionEnded,
    /// A peer could not be let in.
    Failed,
    /// A peer has connected; its user, where that is known.
    Accepted { peer_uid: Option<u32> },
}

/// What the service does about it.
#[derive(Debug, Clone, Copy, PartialEq, Eq, Structural)]
pub enum AcceptStep {
    /// Stops listening.
    Stop,
    /// Goes on listening.
    Wait,
    /// Serves the peer under this connection, and goes on listening.
    Serve(ConnectionId),
}

/// Whether a step is what an event at the socket leads to, with the numbers of the
/// next connection before and after it.
pub open spec fn accept_step(
    before: u64,
    event: AcceptEvent,
    own_uid: u32,
    step: AcceptStep,
    after: u64,
) -> bool {
    match event {
        AcceptEvent::Accepted { peer_uid } if runs_as(peer_uid, own_uid) => {
            step == AcceptStep::Serve(ConnectionId(before)) && after == next_u64(before)
        },
        AcceptEvent::Shutdown => step is Stop && after == before,
        _ => step is Wait && after == before,
    }
}

impl<P, N, S> Server<P, N, S> {
    /// Decides about an event at the socket. Only peers of the same user are
    /// served, each under a new connection id.
    pub fn accept(&mut self, event: AcceptEvent, own_uid: u32) -> (step: AcceptStep)
        ensures
            final(self).permissions_approvals == old(self).permissions_approvals,
            final(self).network_approvals == old(self).network_approvals,
            final(self).process_manager == old(self).process_manager,
            if event == (AcceptEvent::Accepted { peer_uid: Some(own_uid) }) {
                &&& step == AcceptStep::Serve(ConnectionId(old(self).next_connection))
                &&& final(self).next_connection == next_u64(old(self).next_connection)
            } else {
                &&& step == if event is Shutdown {
                    AcceptStep::Stop
                } else {
                    AcceptStep::Wait
                }
                &&& final(self).next_connection == old(self).next_connection
            },
            accept_step(
                old(self).next_connection,
                event,
                own_uid,
                step,
                final(self).next_connection,
            ),
    {
        match event {
            AcceptEvent::Shutdown => AcceptStep::Stop,
            AcceptEvent::ConnectionEnded => AcceptStep::Wait,
            AcceptEvent::Failed => AcceptStep::Wait,
            AcceptEvent::Accepted { peer_uid } => {
                if !peer_has_same_uid(peer_uid, own_uid) {
                    return AcceptStep::Wait;
                }
                AcceptStep::Serve(self.next_connection_id())
            },
        }
    }
}

/// The identity of the socket file that the service made.
#[derive(Debug, Clone, Copy, PartialEq, Eq, Structural)]
pub struct SocketFile {
    pub dev: u64,
    pub ino: u64,
}

/// Whether what is at the socket path is the service's own file.
pub open spec fn is_own_file(own: SocketFile, current: Option<SocketFile>) -> bool {
    current matches Some(file) && file == own
}

impl SocketFile {
    /// Whether what is at the socket path by now is still the service's own file,
    /// and so is removed at the end.
    pub fn should_remove(&self, current: Option<SocketFile>) -> (remove: bool)
        ensures
            remove == (current == Some(*self)),
            remove == is_own_file(*self, current),
    {
        match current {
            Some(file) => file.dev == self.dev && file.ino == self.ino,
            None => false,
        }
    }
}

/// The messages of a connection can be told apart on the standard output: two
/// series of messages, each on a line of its own, look the same only if they are
/// the same.
pub proof fn law_framed_messages_can_be_told_apart(a: Seq<Seq<u8>>, b: Seq<Seq<u8>>)
    requires
        forall|i: int| 0 <= i < a.len() ==> single_line(#[trigger] a[i]),
        forall|i: int| 0 <= i < b.len() ==> single_line(#[trigger] b[i]),
        framed_all(a) == framed_all(b),
    ensures
        a == b,
    decreases a.len(),
{
    let whole = framed_all(a);
    if a.len() == 0 || b.len() == 0 {
        if a.len() > 0 {
            assert(whole.len() >= framed(a.first()).len());
        }
        if b.len() > 0 {
            assert(whole.len() >= framed(b.first()).len());
        }
        assert(a =~= b);
    } else {
        let first_a = a.first();
        let first_b = b.first();
        let rest_a = framed_all(a.drop_first());
        let rest_b = framed_all(b.drop_first());
        assert(single_line(a[0]) && single_line(b[0]));
        assert(whole[first_a.len() as int] == 10u8);
        assert(whole[first_b.len() as int] == 10u8);
        if first_a.len() < first_b.len() {
            assert(whole[first_a.len() as int] == first_b[first_a.len() as int]);
        } else if first_b.len() < first_a.len() {
            assert(whole[first_b.len() as int] == first_a[first_b.len() as int]);
        }
        assert(first_a =~= first_b) by {
            assert(whole.take(first_a.len() as int) =~= first_a);
            assert(whole.take(first_b.len() as int) =~= first_b);
        }
        assert(rest_a =~= whole.skip((first_a.len() + 1) as int));
        assert(rest_b =~= whole.skip((first_b.len() + 1) as int));
        assert forall|i: int| 0 <= i < a.drop_first().len() implies single_line(
            #[trigger] a.drop_first()[i],
        ) by {
            assert(a.drop_first()[i] == a[i + 1]);
        }
        assert forall|i: int| 0 <= i < b.drop_first().len() implies single_line(
            #[trigger] b.drop_first()[i],
        ) by {
            assert(b.drop_first()[i] == b[i + 1]);
        }
        law_framed_messages_can_be_told_apart(a.drop_first(), b.drop_first());
        assert(a =~= seq![first_a] + a.drop_first());
        assert(b =~= seq![first_b] + b.drop_first());
    }
}

/// A message on the standard output is its JSON text, unchanged, and one line end.
pub proof fn law_a_frame_is_the_message_and_a_line_end(json: Seq<u8>)
    ensures
        framed(json).len() == json.len() + 1,
        framed(json).take(json.len() as int) == json,
        framed(json)[json.len() as int] == 10,
        framed_all(seq![json]) == framed(json),
{
    assert(framed(json).take(json.len() as int) =~= json);
    let one = seq![json];
    assert(one.drop_first() =~= Seq::<Seq<u8>>::empty());
    assert(one.first() == json);
    assert(framed_all(one.drop_first()) =~= Seq::<u8>::empty());
    assert(framed_all(one) =~= framed(json));
}

/// A series of messages is written one after the other.
pub proof fn law_frames_follow_each_other(first: Seq<u8>, rest: Seq<Seq<u8>>)
    ensures
        framed_all(seq![first] + rest) == first + seq![10u8] + framed_all(rest),
{
    let all = seq![first] + rest;
    assert(all.drop_first() =~= rest);
    assert(all.first() == first);
    assert(framed_all(all) =~= first + seq![10u8] + framed_all(rest));
}

/// Every line of the standard input is taken in as it was read; its end and a
/// shutdown close the connection, and a failed read is reported.
pub proof fn law_every_line_is_taken_in<E>(event: LineEvent<E>, step: LineStep<E>)
    requires
        line_leads_to(event, step),
    ensures
        event matches LineEvent::Line(line) ==> (step matches LineStep::Handle(text) && text@
            == line@),
        event is End || event is Shutdown ==> step is Close,
        event matches LineEvent::Failed(reason) ==> (step matches LineStep::Fail(told) && told
            == reason),
{
}

/// Every text frame, and every binary frame of valid UTF-8, is taken in with exactly
/// the text that it holds. Other frames are passed over, and the connection is
/// closed by a shutdown, by its peer, by its end and by a failure, but by nothing
/// else.
pub proof fn law_every_message_frame_is_taken_in(event: SocketEvent, step: SocketStep)
    requires
        frame_leads_to(event, step),
    ensures
        event matches SocketEvent::Text(text) ==> (step matches SocketStep::Handle(handled)
            && handled@ == text@),
        event matches SocketEvent::Binary(bytes) ==> {
            &&& valid_utf8(bytes@) ==> (step matches SocketStep::Handle(handled) && handled@
                == decode_utf8(bytes@))
            &&& !valid_utf8(bytes@) ==> step is Skip
        },
        event is Heartbeat ==> step is Skip,
        step is Close <==> event is Shutdown || event is Close || event is End || event is Failed,
{
}

/// A peer is served exactly if it is known to run as the same user, under a
/// connection id that no earlier one had; a shutdown ends the listening, and nothing
/// else does.
pub proof fn law_only_the_same_user_is_served(
    before: u64,
    event: AcceptEvent,
    own_uid: u32,
    step: AcceptStep,
    after: u64,
)
    requires
        accept_step(before, event, own_uid, step, after),
    ensures
        step is Serve <==> (event matches AcceptEvent::Accepted { peer_uid: Some(uid) } && uid
            == own_uid),
        step is Stop <==> event is Shutdown,
        step matches AcceptStep::Serve(connection_id) ==> {
            &&& connection_id.0 == before
            &&& before < u64::MAX ==> after == before + 1
        },
        !(step is Serve) ==> after == before,
{
}

/// A socket path is refused exactly if something is there, which the message names;
/// at the end the socket file is removed exactly if it is still the same file.
pub proof fn law_files_of_others_are_left_alone(
    exists: bool,
    path: Seq<char>,
    result: Result<(), String>,
    own: SocketFile,
    current: Option<SocketFile>,
)
    requires
        path_checked(exists, path, result),
    ensures
        exists ==> (result matches Err(message) && message@ == "UDS path already exists: "@
            + path),
        !exists ==> result is Ok,
        is_own_file(own, current) <==> (current matches Some(file) && file.dev == own.dev
            && file.ino == own.ino),
{
}

/// Only the owner of the socket may connect to it, and the standard streams are the
/// connection before all others.
pub proof fn law_the_socket_is_its_owners()
    ensures
        SOCKET_MODE == 0o600,
        STDIO_CONNECTION == 0,
        CHANNEL_CAPACITY == 128,
{
}

} // verus!
