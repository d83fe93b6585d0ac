use bytes::{Bytes, BytesMut};
use std::cell::RefCell;
use std::rc::Rc;
use std::sync::Arc;
use zmtp_core::command::{Properties, ZmtpCommand, ZmtpReady};
use zmtp_core::greeting::{NegotiatedVersion, ZmtpGreeting, ZmtpV2Greeting};
use zmtp_core::heartbeat::ZmtpHeartbeatStateX;
use zmtp_core::message::{Msg, MsgFlags};
use zmtp_core::options::{SocketOptions, ZmtpEngineConfig};
use zmtp_core::stream::handshake::ZmtpProtocolHandlerX;
use zmtp_core::stream::types::{
    HandshakeFlow, HandshakeReply, HandshakeRequest, ReadOutcome, WriteOutcome,
};
use zmtp_core::uring::factory::{ProtocolConfig, ZmtpHandlerFactory};
use zmtp_core::uring::handler::{handshake_time, ZmtpUringHandler};
use zmtp_core::uring::session::{UringEnvironment, UringSession};
use zmtp_core::uring::types::{
    AppData, Flow, HandlerIoOps, HandlerSqeBlueprint, HandlerUpstreamEvent, OpOrigin, Pass,
    ReaderNotice, Reply, Request, Stage, ZmtpHandlerPhase,
};
use zmtp_core::{Duration, Instant, ZmqError};

const SECOND: u128 = 1_000_000_000;

fn at(seconds: u128) -> Instant {
    Instant { nanos: seconds * SECOND }
}

/// A plain framer and a mechanism that the test steers.
struct State {
    now: Instant,
    complete: bool,
    fault: Option<Option<String>>,
    tokens: Vec<Vec<u8>>,
    taken: Vec<Vec<u8>>,
    identity: Option<Vec<u8>>,
    framer_fails: bool,
    negotiation_fails: bool,
    write_fails: bool,
    accepts: bool,
    delivered: Vec<HandlerUpstreamEvent>,
    negotiated: Vec<ZmtpGreeting>,
    reader_active: bool,
    reader_op: u64,
}

#[derive(Clone)]
struct World {
    state: Rc<RefCell<State>>,
}

impl World {
    fn new() -> World {
        World {
            state: Rc::new(RefCell::new(State {
                now: at(0),
                complete: true,
                fault: None,
                tokens: vec![],
                taken: vec![],
                identity: None,
                framer_fails: false,
                negotiation_fails: false,
                write_fails: false,
                accepts: true,
                delivered: vec![],
                negotiated: vec![],
                reader_active: false,
                reader_op: 7,
            })),
        }
    }
}

fn encode(frames: &[Msg]) -> Vec<u8> {
    let mut wire = vec![];
    for frame in frames {
        let body = frame.body();
        let mut flags = 0u8;
        if frame.is_more() {
            flags |= 1;
        }
        if frame.is_command() {
            flags |= 4;
        }
        wire.push(flags);
        wire.push(body.len() as u8);
        wire.extend_from_slice(&body);
    }
    wire
}

fn decode(bytes: &mut BytesMut) -> Option<Msg> {
    if bytes.len() < 2 || bytes.len() < 2 + bytes[1] as usize {
        return None;
    }
    let front = bytes.split_to(2 + bytes[1] as usize);
    let mut msg = Msg::from_vec(front[2..].to_vec());
    msg.set_flags(MsgFlags { more: front[0] & 1 != 0, command: front[0] & 4 != 0 });
    Some(msg)
}

fn command(name: &str, body: &[u8]) -> Msg {
    let mut data = vec![name.len() as u8];
    data.extend_from_slice(name.as_bytes());
    data.extend_from_slice(body);
    Msg::from_vec(data).with_flags(MsgFlags::with_command())
}

impl UringEnvironment for World {
    fn now(&mut self) -> Instant {
        self.state.borrow().now
    }

    fn negotiate_security_mechanism(&mut self, greeting: ZmtpGreeting) -> Result<(), ZmqError> {
        let mut state = self.state.borrow_mut();
        state.negotiated.push(greeting);
        if state.negotiation_fails {
            Err(ZmqError::SecurityError("no common mechanism".to_string()))
        } else {
            Ok(())
        }
    }

    fn try_read_msg(&mut self, bytes: BytesMut) -> (Result<Option<Msg>, ZmqError>, BytesMut) {
        if !bytes.is_empty() && bytes[0] == 0xee {
            return (Err(ZmqError::ProtocolViolation("bad frame".to_string())), bytes);
        }
        let mut rest = bytes;
        let msg = decode(&mut rest);
        (Ok(msg), rest)
    }

    fn mechanism_is_complete(&mut self) -> bool {
        self.state.borrow().complete
    }

    fn produce_token(&mut self) -> Result<Option<Vec<u8>>, ZmqError> {
        Ok(self.state.borrow_mut().tokens.pop())
    }

    fn process_token(&mut self, token: Vec<u8>) -> Result<(), ZmqError> {
        let mut state = self.state.borrow_mut();
        state.taken.push(token);
        state.complete = true;
        Ok(())
    }

    fn mechanism_fault(&mut self) -> Option<Option<String>> {
        self.state.borrow().fault.clone()
    }

    fn into_framer(&mut self, max_msg_size: i64) -> Result<Option<Vec<u8>>, ZmqError> {
        assert_eq!(max_msg_size, -1);
        let state = self.state.borrow();
        if state.framer_fails {
            Err(ZmqError::SecurityError("no framer".to_string()))
        } else {
            Ok(state.identity.clone())
        }
    }

    fn write_msg_multipart(&mut self, frames: Vec<Msg>) -> Result<Bytes, ZmqError> {
        if self.state.borrow().write_fails {
            return Err(ZmqError::Internal("cannot write".to_string()));
        }
        Ok(Bytes::from(encode(&frames)))
    }

    fn create_ready(&mut self, properties: Properties) -> Msg {
        let mut body = vec![];
        for i in 0..properties.len() {
            let (name, value) = properties.entry(i);
            body.push(name.len() as u8);
            body.extend_from_slice(name.as_bytes());
            body.push(value.len() as u8);
            body.extend_from_slice(value);
        }
        command("READY", &body)
    }

    fn create_pong(&mut self, context: Vec<u8>) -> Msg {
        command("PONG", &context)
    }

    fn create_ping(&mut self, ttl: u16, context: Vec<u8>) -> Msg {
        assert_eq!(ttl, 0);
        command("PING", &context)
    }

    fn parse_command(&mut self, msg: Msg) -> Option<ZmtpCommand> {
        let data = msg.body();
        let name = data[1..1 + data[0] as usize].to_vec();
        let body = &data[1 + data[0] as usize..];
        match &name[..] {
            b"READY" => {
                let mut properties = Properties::new();
                let mut at = 0;
                while at < body.len() {
                    let key_end = at + 1 + body[at] as usize;
                    let key = String::from_utf8(body[at + 1..key_end].to_vec()).unwrap();
                    let value_end = key_end + 1 + body[key_end] as usize;
                    properties.insert(&key, body[key_end + 1..value_end].to_vec());
                    at = value_end;
                }
                Some(ZmtpCommand::Ready(ZmtpReady { properties }))
            }
            b"PING" => Some(ZmtpCommand::Ping(body.to_vec())),
            b"PONG" => Some(ZmtpCommand::Pong(body.to_vec())),
            b"ERROR" => Some(ZmtpCommand::Error),
            b"SUBSCRIBE" => Some(ZmtpCommand::Other),
            _ => None,
        }
    }

    fn try_send(&mut self, event: HandlerUpstreamEvent) -> bool {
        let mut state = self.state.borrow_mut();
        if state.accepts {
            state.delivered.push(event);
        }
        state.accepts
    }

    fn reader_is_active(&mut self) -> bool {
        self.state.borrow().reader_active
    }

    fn prepare_recv_multi_intent(&mut self) -> Option<HandlerSqeBlueprint> {
        Some(HandlerSqeBlueprint::RequestRingReadMultishot { fd: 3, buffer_group: 9 })
    }

    fn matches_cqe_user_data(&mut self, cqe_user_data: u64) -> bool {
        self.state.borrow().reader_op == cqe_user_data
    }
}

fn options(socket_type: &str) -> SocketOptions {
    let mut options = SocketOptions::default();
    options.socket_type_name = socket_type.to_string();
    options
}

fn handler(options: &SocketOptions, is_server: bool) -> ZmtpUringHandler {
    ZmtpUringHandler::new(3, Arc::new(ZmtpEngineConfig::from(options)), is_server, at(0))
}

fn session(options: &SocketOptions, is_server: bool) -> (UringSession<World>, World) {
    let world = World::new();
    (UringSession::new(handler(options, is_server), world.clone()), world)
}

/// The bytes that the operations send, one after the other.
fn sent(ops: &HandlerIoOps) -> Vec<u8> {
    let mut bytes = vec![];
    for blueprint in &ops.sqe_blueprints {
        match blueprint {
            HandlerSqeBlueprint::RequestSend { data, .. } => bytes.extend_from_slice(data),
            HandlerSqeBlueprint::RequestSendZeroCopy { data_to_send, .. } => {
                bytes.extend_from_slice(data_to_send)
            }
            _ => {}
        }
    }
    bytes
}

fn closes(ops: &HandlerIoOps) -> usize {
    ops.sqe_blueprints.iter().filter(|b| matches!(b, HandlerSqeBlueprint::RequestClose)).count()
}

fn notices(ops: &HandlerIoOps) -> Vec<ZmqError> {
    ops.upstream_notices
        .iter()
        .map(|event| match event {
            HandlerUpstreamEvent::Error(error) => error.clone(),
            _ => panic!("only errors are told this way"),
        })
        .collect()
}

fn messages(world: &World) -> Vec<Vec<u8>> {
    world
        .state
        .borrow()
        .delivered
        .iter()
        .filter_map(|event| match event {
            HandlerUpstreamEvent::Data(msg) => Some(msg.body()),
            _ => None,
        })
        .collect()
}

fn peer_identity(world: &World) -> Option<Vec<u8>> {
    for event in &world.state.borrow().delivered {
        if let HandlerUpstreamEvent::HandshakeComplete { peer_identity } = event {
            return peer_identity.as_ref().map(|id| id.to_vec());
        }
    }
    panic!("the handshake is not done");
}

const V2_PUSH: [u8; 12] = [0xff, 0, 0, 0, 0, 0, 0, 0, 0, 0x7f, 0x01, 0x08];

/// A connection of a PULL socket that has settled on ZMTP/2.0.
fn v2_session() -> (UringSession<World>, World) {
    let (mut session, world) = session(&options("PULL"), false);
    session.connection_ready(None, at(0));
    session.handle_internal_sqe_completion(11, at(0));
    session.process_ring_read_data(&V2_PUSH, at(0));
    session.handle_internal_sqe_completion(1, at(0));
    session.handle_internal_sqe_completion(2, at(0));
    session.process_ring_read_data(&[0, 0], at(0));
    assert_eq!(session.handler().phase(), ZmtpHandlerPhase::DataPhase);
    (session, world)
}

#[test]
fn prelude_carries_the_own_major_version() {
    let (mut session, _) = session(&options("PULL"), false);
    let ops = session.connection_ready(None, at(0));
    assert_eq!(sent(&ops), vec![0xff, 0, 0, 0, 0, 0, 0, 0, 0, 0x7f, 0x03]);
    assert_eq!(session.handler().phase(), ZmtpHandlerPhase::SendSignature);
    assert!(matches!(
        ops.sqe_blueprints[0],
        HandlerSqeBlueprint::RequestSend { send_op_flags: 0, origin: OpOrigin::Handler, .. }
    ));
}

#[test]
fn two_peers_of_version_3_shake_hands_and_talk() {
    let mut server_options = options("ROUTER");
    server_options.routing_id = Some(zmtp_core::message::Blob::from_vec(b"srv".to_vec()));
    let (mut server, server_world) = session(&server_options, true);
    let (mut client, client_world) = session(&options("DEALER"), false);
    client_world.state.borrow_mut().identity = Some(b"proven".to_vec());

    let mut to_client = sent(&server.connection_ready(None, at(0)));
    let mut to_server = sent(&client.connection_ready(None, at(0)));
    // Each end acknowledges its send and then takes what came from the other.
    for _ in 0..6 {
        let (for_server, for_client) = (to_server, to_client);
        to_client = sent(&server.handle_internal_sqe_completion(0, at(1)));
        to_server = sent(&client.handle_internal_sqe_completion(0, at(1)));
        if !for_server.is_empty() {
            to_client.extend(sent(&server.process_ring_read_data(&for_server, at(1))));
        }
        if !for_client.is_empty() {
            to_server.extend(sent(&client.process_ring_read_data(&for_client, at(1))));
        }
    }
    assert_eq!(server.handler().phase(), ZmtpHandlerPhase::DataPhase);
    assert_eq!(client.handler().phase(), ZmtpHandlerPhase::DataPhase);
    assert_eq!(server.handler().negotiated_version(), Some(NegotiatedVersion::V3 { minor: 0 }));
    assert_eq!(client_world.state.borrow().negotiated[0].mechanism_name(), "NULL");
    assert!(client_world.state.borrow().negotiated[0].as_server);
    assert_eq!(peer_identity(&server_world), None);
    assert_eq!(peer_identity(&client_world), Some(b"srv".to_vec()));

    let ops = client.handle_outgoing_app_data(AppData::Single(Msg::from_vec(b"hi".to_vec())), 5);
    let wire = sent(&ops);
    // DEALER puts an empty frame before the message.
    assert_eq!(wire, vec![1, 0, 0, 2, b'h', b'i']);
    assert!(matches!(
        ops.sqe_blueprints[0],
        HandlerSqeBlueprint::RequestSend { origin: OpOrigin::App(5), .. }
    ));
    server.process_ring_read_data(&wire, at(2));
    assert_eq!(messages(&server_world), vec![vec![], b"hi".to_vec()]);

    let parts = vec![
        Msg::from_vec(b"a".to_vec()).with_flags(MsgFlags::with_more()),
        Msg::from_vec(b"b".to_vec()),
    ];
    let ops = server.handle_outgoing_app_data(AppData::Multipart(parts), 6);
    assert_eq!(sent(&ops), vec![1, 1, b'a', 0, 1, b'b']);
    let ops = server.handle_outgoing_app_data(AppData::Unknown, 7);
    assert!(ops.sqe_blueprints.is_empty());
}

#[test]
fn peer_of_version_2_is_followed_and_delivers() {
    let (mut session, world) = session(&options("PULL"), false);
    session.connection_ready(None, at(0));
    session.handle_internal_sqe_completion(11, at(0));
    // The greeting arrives in two pieces, cut inside the signature.
    assert!(sent(&session.process_ring_read_data(&V2_PUSH[..4], at(0))).is_empty());
    let ops = session.process_ring_read_data(&V2_PUSH[4..], at(0));
    assert_eq!(sent(&ops), vec![0x07]);
    assert_eq!(session.handler().negotiated_version(), Some(NegotiatedVersion::V2));
    let ops = session.handle_internal_sqe_completion(1, at(0));
    assert_eq!(sent(&ops), vec![0, 0]);
    assert_eq!(session.handler().phase(), ZmtpHandlerPhase::V2SendIdentity);
    // The identity and a first message come before the send is acknowledged.
    session.process_ring_read_data(&[0, 2, b'i', b'd', 0, 1, 9], at(0));
    assert!(world.state.borrow().delivered.is_empty());
    session.handle_internal_sqe_completion(2, at(0));
    assert_eq!(session.handler().phase(), ZmtpHandlerPhase::DataPhase);
    assert_eq!(peer_identity(&world), Some(b"id".to_vec()));
    assert_eq!(messages(&world), vec![vec![9]]);
    // Messages come in order, MORE and all.
    session.process_ring_read_data(&[1, 1, 10, 0, 1, 11], at(0));
    assert_eq!(messages(&world), vec![vec![9], vec![10], vec![11]]);
    assert_eq!(session.handler().buffered_len(), 0);
}

#[test]
fn v2_abort_after_signature_fails_the_connection() {
    let (mut session, _) = session(&options("PULL"), false);
    session.connection_ready(None, at(0));
    session.handle_internal_sqe_completion(11, at(0));
    session.process_ring_read_data(&V2_PUSH[..10], at(0));
    let ops = session.process_ring_read_data(&[], at(0));
    assert_eq!(notices(&ops), vec![ZmqError::ConnectionClosed]);
    assert!(ops.initiate_close_due_to_error);
    assert_eq!(closes(&ops), 1);
    assert!(session.handler().is_closing_or_closed());
    // The end is final.
    let ops = session.process_ring_read_data(&[], at(0));
    assert!(ops.sqe_blueprints.is_empty() && ops.upstream_notices.is_empty());
}

#[test]
fn v2_abort_after_messages_delivers_them_first() {
    let (mut session, world) = v2_session();
    session.process_ring_read_data(&[0, 1, 1, 0, 1, 2, 0], at(1));
    let ops = session.process_ring_read_data(&[], at(1));
    assert_eq!(messages(&world), vec![vec![1], vec![2]]);
    assert_eq!(notices(&ops), vec![ZmqError::ConnectionClosed]);
}

#[test]
fn v2_socket_types_that_do_not_match_are_refused() {
    let (mut session, _) = session(&options("PULL"), false);
    session.connection_ready(None, at(0));
    session.handle_internal_sqe_completion(11, at(0));
    let mut greeting = BytesMut::new();
    ZmtpV2Greeting::encode_full(1, &mut greeting);
    // The own socket type is still sent.
    assert_eq!(sent(&session.process_ring_read_data(&greeting, at(0))), vec![0x07]);
    let ops = session.handle_internal_sqe_completion(1, at(0));
    assert_eq!(
        notices(&ops),
        vec![ZmqError::ProtocolViolation(
            "incompatible ZMTP/2.0 socket pairing: local PULL \u{2194} peer PUB".to_string()
        )]
    );
    assert!(sent(&ops).is_empty());
}

fn opening_error(options: &SocketOptions, bytes: &[u8]) -> ZmqError {
    let (mut session, _) = session(options, false);
    session.connection_ready(None, at(0));
    session.handle_internal_sqe_completion(11, at(0));
    let ops = session.process_ring_read_data(bytes, at(0));
    assert_eq!(session.handler().phase(), ZmtpHandlerPhase::Error);
    assert!(sent(&ops).is_empty());
    assert_eq!(closes(&ops), 1);
    notices(&ops).remove(0)
}

#[test]
fn greetings_that_cannot_be_followed_are_refused() {
    let mut bad_revision = V2_PUSH;
    bad_revision[10] = 2;
    assert_eq!(
        opening_error(&options("PULL"), &bad_revision),
        ZmqError::ProtocolViolation(
            "Unsupported ZMTP revision 0x02 (only 0x01 and 0x03+ are supported)".to_string()
        )
    );
    let mut strict = options("PULL");
    strict.allow_zmtp2 = false;
    assert_eq!(
        opening_error(&strict, &V2_PUSH),
        ZmqError::ProtocolViolation(
            "peer advertised ZMTP/2.0 but allow_zmtp2 is disabled".to_string()
        )
    );
    assert_eq!(
        opening_error(&options("X\"Y"), &V2_PUSH),
        ZmqError::ProtocolViolation(
            "no ZMTP/2.0 socket-type byte for socket type \"X\\\"Y\"".to_string()
        )
    );
    assert_eq!(
        opening_error(&options("PULL"), &[1; 11]),
        ZmqError::ProtocolViolation(
            "greeting signature byte 0: expected 0xff, got 0x01".to_string()
        )
    );
}

/// A client that has read the peer's greeting; the server's side is played by hand.
fn after_greeting(world: &World, as_server: bool) -> (UringSession<World>, HandlerIoOps) {
    let mut session = UringSession::new(handler(&options("DEALER"), false), world.clone());
    session.connection_ready(None, at(0));
    session.handle_internal_sqe_completion(11, at(0));
    let mut greeting = BytesMut::new();
    ZmtpGreeting::encode(b"NULL\0\0\0\0\0\0\0\0\0\0\0\0\0\0\0\0", as_server, &mut greeting);
    let tail = sent(&session.process_ring_read_data(&greeting, at(0)));
    assert_eq!(tail.len(), 53);
    assert_eq!(&tail[..5], b"\0NULL");
    assert_eq!(tail[21], 0);
    let ops = session.handle_internal_sqe_completion(53, at(0));
    (session, ops)
}

#[test]
fn two_clients_are_refused() {
    let world = World::new();
    let (_, ops) = after_greeting(&world, false);
    assert_eq!(
        notices(&ops),
        vec![ZmqError::SecurityError("Role mismatch in greeting".to_string())]
    );
}

#[test]
fn failed_negotiation_fails_the_connection() {
    let world = World::new();
    world.state.borrow_mut().negotiation_fails = true;
    let (session, ops) = after_greeting(&world, true);
    assert_eq!(
        notices(&ops),
        vec![ZmqError::SecurityError("no common mechanism".to_string())]
    );
    assert_eq!(session.handler().phase(), ZmtpHandlerPhase::Error);
}

#[test]
fn tokens_are_exchanged_until_the_mechanism_is_done() {
    let world = World::new();
    world.state.borrow_mut().complete = false;
    world.state.borrow_mut().tokens = vec![b"second".to_vec(), b"first".to_vec()];
    let (mut session, ops) = after_greeting(&world, true);
    // One token per pass, as long as there are any.
    assert_eq!(sent(&ops), [&[4, 5][..], b"first", &[4, 6], b"second"].concat());
    assert_eq!(session.handler().phase(), ZmtpHandlerPhase::SecurityExchange);
    world.state.borrow_mut().tokens = vec![b"reply".to_vec()];
    let ops = session.process_ring_read_data(&[4, 3, b'y', b'e', b's'], at(1));
    assert_eq!(world.state.borrow().taken.len(), 1);
    assert_eq!(world.state.borrow().taken[0], b"yes".to_vec());
    assert_eq!(session.handler().phase(), ZmtpHandlerPhase::ReadyClientSend);
    let ready = sent(&ops);
    assert_eq!(&ready[..7], [&[4, 5][..], b"reply"].concat());
    assert_eq!(&ready[9..15], b"\x05READY");
}

#[test]
fn security_errors_fail_the_connection() {
    for (fault, text) in [
        (Some("wrong key".to_string()), "wrong key"),
        (None, "Unknown security error from mechanism"),
    ] {
        let world = World::new();
        world.state.borrow_mut().complete = false;
        world.state.borrow_mut().fault = Some(fault);
        let (_, ops) = after_greeting(&world, true);
        assert_eq!(notices(&ops), vec![ZmqError::SecurityError(text.to_string())]);
    }
    let world = World::new();
    world.state.borrow_mut().complete = false;
    let (mut session, _) = after_greeting(&world, true);
    let ops = session.process_ring_read_data(&[0, 1, 1], at(0));
    assert_eq!(
        notices(&ops),
        vec![ZmqError::SecurityError("Expected ZMTP COMMAND for security token".to_string())]
    );
    let world = World::new();
    world.state.borrow_mut().complete = false;
    let (mut session, _) = after_greeting(&world, true);
    let ops = session.process_ring_read_data(&[0xee], at(0));
    assert_eq!(
        notices(&ops),
        vec![ZmqError::SecurityError(
            "Failed to parse ZMTP frame for security token: protocol violation: bad frame"
                .to_string()
        )]
    );
    let world = World::new();
    world.state.borrow_mut().framer_fails = true;
    let (_, ops) = after_greeting(&world, true);
    assert_eq!(notices(&ops), vec![ZmqError::SecurityError("no framer".to_string())]);
}

#[test]
fn anything_but_ready_fails_the_handshake() {
    let world = World::new();
    let (mut session, _) = after_greeting(&world, true);
    session.handle_internal_sqe_completion(1, at(0));
    assert_eq!(session.handler().phase(), ZmtpHandlerPhase::ReadyClientWaitServer);
    let ops = session.process_ring_read_data(&encode(&[command("PING", b"")]), at(0));
    assert_eq!(
        notices(&ops),
        vec![ZmqError::ProtocolViolation(
            "C: Expected READY from server, got other/unparseable".to_string()
        )]
    );
}

/// A client in ZMTP/3.x after the handshake.
fn v3_session(options: &SocketOptions) -> (UringSession<World>, World) {
    let world = World::new();
    let mut session = UringSession::new(handler(options, false), world.clone());
    session.connection_ready(Some(9), at(0));
    session.handle_internal_sqe_completion(11, at(0));
    let mut greeting = BytesMut::new();
    ZmtpGreeting::encode(b"NULL\0\0\0\0\0\0\0\0\0\0\0\0\0\0\0\0", true, &mut greeting);
    session.process_ring_read_data(&greeting, at(0));
    session.handle_internal_sqe_completion(53, at(0));
    session.handle_internal_sqe_completion(1, at(0));
    session.process_ring_read_data(&encode(&[command("READY", b"")]), at(0));
    assert_eq!(session.handler().phase(), ZmtpHandlerPhase::DataPhase);
    (session, world)
}

#[test]
fn handshake_that_is_not_taken_fails_the_connection() {
    let world = World::new();
    let (mut session, _) = after_greeting(&world, true);
    session.handle_internal_sqe_completion(1, at(0));
    world.state.borrow_mut().accepts = false;
    let ops = session.process_ring_read_data(&encode(&[command("READY", b"")]), at(0));
    assert_eq!(session.handler().phase(), ZmtpHandlerPhase::Error);
    // The phase was already that of data, so no handshake failure is told.
    assert!(notices(&ops).is_empty());
    assert_eq!(closes(&ops), 1);
}

#[test]
fn pings_are_answered_and_other_commands_ignored() {
    let (mut session, world) = v3_session(&options("PUSH"));
    let ops = session.process_ring_read_data(
        &encode(&[command("SUBSCRIBE", b""), command("PING", b"ctx")]),
        at(1),
    );
    assert_eq!(sent(&ops), encode(&[command("PONG", b"ctx")]));
    assert!(messages(&world).is_empty());
    let ops = session.process_ring_read_data(&encode(&[command("ERROR", b"")]), at(1));
    assert_eq!(session.handler().phase(), ZmtpHandlerPhase::Error);
    assert_eq!(closes(&ops), 1);
}

#[test]
fn message_that_is_not_taken_fails_the_connection() {
    let (mut session, world) = v3_session(&options("PULL"));
    world.state.borrow_mut().accepts = false;
    let ops = session.process_ring_read_data(&[0, 1, 5], at(1));
    assert_eq!(session.handler().phase(), ZmtpHandlerPhase::Error);
    assert!(ops.initiate_close_due_to_error);
}

#[test]
fn commands_are_refused_in_version_2() {
    let (mut session, world) = v2_session();
    let ops = session.process_ring_read_data(&encode(&[command("PING", b"")]), at(1));
    assert_eq!(session.handler().phase(), ZmtpHandlerPhase::Error);
    assert_eq!(closes(&ops), 1);
    assert!(sent(&ops).is_empty() && messages(&world).is_empty());
}

#[test]
fn heartbeats_watch_the_peer() {
    let mut with_heartbeat = options("PUSH");
    with_heartbeat.heartbeat_ivl = Some(Duration::from_secs(2));
    let (mut session, _) = v3_session(&with_heartbeat);
    assert!(session.prepare_sqes(at(1)).sqe_blueprints.is_empty());
    let ops = session.prepare_sqes(at(2));
    assert_eq!(sent(&ops), encode(&[command("PING", b"hb_ping")]));
    session.handle_internal_sqe_completion(16, at(2));
    // The PONG may take twice the interval.
    assert!(session.prepare_sqes(at(6)).sqe_blueprints.is_empty());
    session.process_ring_read_data(&encode(&[command("PONG", b"hb_ping")]), at(6));
    assert_eq!(sent(&session.prepare_sqes(at(8))), encode(&[command("PING", b"hb_ping")]));
    session.handle_internal_sqe_completion(16, at(8));
    let ops = session.prepare_sqes(Instant { nanos: 12 * SECOND + 1 });
    assert_eq!(session.handler().phase(), ZmtpHandlerPhase::Error);
    assert_eq!(closes(&ops), 1);
}

#[test]
fn no_pings_in_version_2() {
    let mut with_heartbeat = options("PULL");
    with_heartbeat.heartbeat_ivl = Some(Duration::from_secs(2));
    let (mut session, _) = session(&with_heartbeat, false);
    session.connection_ready(None, at(0));
    session.handle_internal_sqe_completion(11, at(0));
    session.process_ring_read_data(&V2_PUSH, at(0));
    session.handle_internal_sqe_completion(1, at(0));
    session.handle_internal_sqe_completion(2, at(0));
    session.process_ring_read_data(&[0, 0], at(0));
    assert!(session.prepare_sqes(at(1000)).sqe_blueprints.is_empty());
    assert_eq!(session.handler().phase(), ZmtpHandlerPhase::DataPhase);
}

#[test]
fn handshake_times_out() {
    let mut quick = options("PULL");
    quick.handshake_ivl = Some(Duration::from_secs(3));
    let (mut session, _) = session(&quick, false);
    session.connection_ready(None, at(0));
    session.handle_internal_sqe_completion(11, at(0));
    assert!(session.prepare_sqes(at(3)).sqe_blueprints.is_empty());
    let ops = session.prepare_sqes(Instant { nanos: 3 * SECOND + 1 });
    assert_eq!(notices(&ops), vec![ZmqError::Timeout]);
    let (mut session, _) = self::session(&quick, false);
    session.connection_ready(None, at(0));
    session.handle_internal_sqe_completion(11, at(0));
    let ops = session.process_ring_read_data(&V2_PUSH, at(4));
    assert_eq!(notices(&ops), vec![ZmqError::Timeout]);
    assert!(sent(&ops).is_empty());
}

#[test]
fn messages_wait_for_the_handshake_and_leave_in_order() {
    let (mut session, world) = session(&options("PUSH"), false);
    session.connection_ready(None, at(0));
    for n in 0..2u8 {
        let msg = Msg::from_vec(vec![n]).with_flags(MsgFlags::with_more());
        let ops = session.handle_outgoing_app_data(AppData::Single(msg), n as u64);
        assert!(ops.sqe_blueprints.is_empty());
    }
    session.handle_outgoing_app_data(AppData::Multipart(vec![Msg::from_vec(vec![7])]), 9);
    assert_eq!(session.handler().queued_len(), (2, 1));
    session.handle_internal_sqe_completion(11, at(0));
    let mut pull = V2_PUSH;
    pull[11] = 7;
    session.process_ring_read_data(&pull, at(0));
    session.handle_internal_sqe_completion(1, at(0));
    session.handle_internal_sqe_completion(2, at(0));
    session.process_ring_read_data(&[0, 0], at(0));
    assert_eq!(peer_identity(&world), None);
    // Messages of several frames come first, then the others in order, and the last
    // frame says that it is the last.
    assert_eq!(sent(&session.prepare_sqes(at(0))), vec![0, 1, 7]);
    assert_eq!(sent(&session.prepare_sqes(at(0))), vec![0, 1, 0]);
    assert_eq!(sent(&session.handle_internal_sqe_completion(3, at(0))), vec![0, 1, 1]);
    assert_eq!(session.handler().queued_len(), (0, 0));
}

#[test]
fn message_that_cannot_be_written_stays_queued() {
    let (mut session, world) = v3_session(&options("PUSH"));
    world.state.borrow_mut().write_fails = true;
    let ops = session.handle_outgoing_app_data(AppData::Single(Msg::from_vec(vec![1])), 4);
    assert!(ops.sqe_blueprints.is_empty());
    assert_eq!(session.handler().queued_len(), (1, 0));
    assert_eq!(session.handler().phase(), ZmtpHandlerPhase::DataPhase);
    let ops = session.prepare_sqes(at(0));
    assert_eq!(session.handler().phase(), ZmtpHandlerPhase::Error);
    assert_eq!(session.handler().queued_len(), (1, 0));
    assert_eq!(closes(&ops), 1);
}

#[test]
fn system_errors_fail_the_connection_but_for_those_of_no_data() {
    let (mut session, _) = v3_session(&options("PUSH"));
    session.handle_internal_sqe_completion(-11, at(0));
    assert_eq!(session.handler().phase(), ZmtpHandlerPhase::DataPhase);
    let ops = session.handle_internal_sqe_completion(-104, at(0));
    assert_eq!(session.handler().phase(), ZmtpHandlerPhase::Error);
    assert_eq!(closes(&ops), 1);
    let (mut opening, _) = self::session(&options("PUSH"), false);
    opening.connection_ready(None, at(0));
    let ops = opening.handle_internal_sqe_completion(-104, at(0));
    assert_eq!(notices(&ops), vec![ZmqError::IoError { errno: 104 }]);
}

#[test]
fn long_buffers_are_sent_without_a_copy() {
    let mut zero_copy = options("PUSH");
    zero_copy.io_uring.send_zerocopy = true;
    zero_copy.tcp_cork = true;
    let handler = handler(&zero_copy, false);
    let mut ops = HandlerIoOps::new();
    handler.add_send_blueprints_for_wire_bytes(Bytes::new(), OpOrigin::Handler, &mut ops);
    assert!(ops.sqe_blueprints.is_empty());
    handler.add_send_blueprints_for_wire_bytes(
        Bytes::from(vec![1; 1024]),
        OpOrigin::App(1),
        &mut ops,
    );
    handler.add_send_blueprints_for_wire_bytes(
        Bytes::from(vec![1; 1025]),
        OpOrigin::App(2),
        &mut ops,
    );
    assert!(matches!(ops.sqe_blueprints[0], HandlerSqeBlueprint::RequestSend { .. }));
    assert!(matches!(ops.sqe_blueprints[1], HandlerSqeBlueprint::RequestSendZeroCopy { .. }));

    let mut ops = HandlerIoOps::new();
    handler.add_send_blueprints_for_wire_frames(
        vec![Bytes::from(vec![1]), Bytes::from(vec![2; 2000]), Bytes::from(vec![3])],
        OpOrigin::App(3),
        &mut ops,
    );
    assert_eq!(ops.sqe_blueprints.len(), 5);
    assert!(matches!(ops.sqe_blueprints[0], HandlerSqeBlueprint::RequestSetCork(true)));
    assert!(matches!(
        ops.sqe_blueprints[1],
        HandlerSqeBlueprint::RequestSend { send_op_flags: 0x8000, .. }
    ));
    assert!(matches!(
        ops.sqe_blueprints[2],
        HandlerSqeBlueprint::RequestSendZeroCopy { send_op_flags: 0x8000, .. }
    ));
    assert!(matches!(
        ops.sqe_blueprints[3],
        HandlerSqeBlueprint::RequestSend { send_op_flags: 0, .. }
    ));
    assert!(matches!(ops.sqe_blueprints[4], HandlerSqeBlueprint::RequestSetCork(false)));

    let mut ops = HandlerIoOps::new();
    handler.add_send_blueprints_for_wire_frames(
        vec![Bytes::from(vec![1])],
        OpOrigin::App(3),
        &mut ops,
    );
    assert_eq!(ops.sqe_blueprints.len(), 1);
}

#[test]
fn multishot_reader_is_asked_for_and_lent() {
    let mut multishot = options("PUSH");
    multishot.io_uring.recv_multishot = true;
    let (mut session, world) = v3_session(&multishot);
    assert_eq!(session.handler().reader(), Some(9));
    let ops = session.prepare_sqes(at(0));
    assert!(matches!(
        ops.sqe_blueprints[0],
        HandlerSqeBlueprint::RequestRingReadMultishot { fd: 3, buffer_group: 9 }
    ));
    world.state.borrow_mut().reader_active = true;
    assert!(session.prepare_sqes(at(0)).sqe_blueprints.is_empty());
    assert_eq!(session.delegate_cqe_to_multishot_reader(8, at(0)), None);
    assert_eq!(session.delegate_cqe_to_multishot_reader(7, at(0)), Some(9));
    assert_eq!(session.handler().reader(), None);
    assert_eq!(session.delegate_cqe_to_multishot_reader(7, at(0)), None);
    session.return_reader(9);
    assert_eq!(
        session.handler().inform_multishot_reader_op_submitted(4, false, None),
        Some(ReaderNotice::OperationSubmitted { op: 4 })
    );
    assert_eq!(
        session.handler().inform_multishot_reader_op_submitted(4, true, Some(5)),
        Some(ReaderNotice::CancellationSubmitted { op: 4, target: 5 })
    );
    assert_eq!(session.handler().inform_multishot_reader_op_submitted(4, true, None), None);
}

#[test]
fn closing_drops_queued_messages() {
    let (mut session, _) = session(&options("PUSH"), false);
    session.connection_ready(None, at(0));
    session.handle_outgoing_app_data(AppData::Single(Msg::new()), 1);
    assert!(!session.handler().is_closing_or_closed());
    session.close_initiated();
    assert_eq!(session.handler().phase(), ZmtpHandlerPhase::Closing);
    assert_eq!(session.handler().queued_len(), (0, 0));
    session.close_initiated();
    session.fd_has_been_closed();
    assert_eq!(session.handler().phase(), ZmtpHandlerPhase::Closed);
    session.close_initiated();
    assert_eq!(session.handler().phase(), ZmtpHandlerPhase::Closed);
    let (handler, _) = session.into_parts();
    assert_eq!(handler.fd(), 3);
}

#[test]
fn failing_twice_is_failing_once() {
    let mut handler = handler(&options("PUSH"), false);
    let mut ops = HandlerIoOps::new();
    handler.transition_to_error(&mut ops, ZmqError::Timeout);
    handler.transition_to_error(&mut ops, ZmqError::ConnectionClosed);
    assert_eq!(notices(&ops), vec![ZmqError::Timeout]);
    assert_eq!(closes(&ops), 1);
}

#[test]
fn reading_before_the_connection_is_up_is_an_error() {
    let (mut session, _) = session(&options("PUSH"), false);
    let mut ops = HandlerIoOps::new();
    assert_eq!(
        session.process_buffered_reads(&mut ops, at(0)),
        Err(ZmqError::InvalidState(
            "ZmtpHandler in Initial phase during data processing".to_string()
        ))
    );
}

#[test]
fn steps_can_be_answered_one_by_one() {
    let mut handler = handler(&options("PUSH"), false);
    let mut ops = HandlerIoOps::new();
    let pass = Pass {
        made_progress: false,
        greeting_len: 0,
        accumulator_len: 0,
        progress: false,
        token_action: false,
    };
    let flow = handler.resume(
        &mut ops,
        Stage::ResponseToken,
        pass,
        Reply::Token(Ok(Some(vec![1, 2]))),
        at(0),
    );
    match flow {
        Flow::Ask { stage: Stage::ResponseWritten, request: Request::WriteFrames(frames), .. } => {
            assert_eq!(frames.len(), 1);
            assert_eq!(frames[0].body(), vec![1, 2]);
            assert!(frames[0].is_command());
        }
        _ => panic!("the token is to be written"),
    }
}

#[test]
fn factory_makes_handlers() {
    let factory = ZmtpHandlerFactory {};
    assert_eq!(factory.id(), "zmtp-uring/3.1");
    let config = ProtocolConfig::Zmtp(Arc::new(ZmtpEngineConfig::from(&options("PULL"))));
    let handler = factory.create_handler(5, &config, true, at(0)).unwrap();
    assert_eq!(handler.fd(), 5);
    assert_eq!(handler.phase(), ZmtpHandlerPhase::Initial);
    assert_eq!(handler.handshake_timeout(), Duration::from_secs(30));
    let properties = handler.build_ready_properties();
    assert_eq!(properties.get("Socket-Type"), Some(&b"PULL".to_vec()));
    assert_eq!(properties.get("Identity"), None);
}

/// What a connection on a stream sends upon these first bytes, or how it fails.
fn stream_answer(options: &SocketOptions, bytes: &[u8]) -> Result<Vec<u8>, ZmqError> {
    let mut connection = ZmtpProtocolHandlerX::new(
        Arc::new(ZmtpEngineConfig::from(options)),
        false,
        ZmtpHeartbeatStateX::new(None, Duration::from_secs(30), at(0)),
    );
    let mut flow = connection.advance_handshake_step_impl(at(0));
    if let HandshakeFlow::Ask { stage, .. } = flow {
        let wrote = HandshakeReply::Wrote(WriteOutcome::Written);
        connection.resume_handshake_step(stage, wrote, at(0));
    }
    flow = connection.advance_handshake_step_impl(at(0));
    if let HandshakeFlow::Ask { stage, .. } = flow {
        let read = HandshakeReply::Read(ReadOutcome::Data(bytes.to_vec()));
        flow = connection.resume_handshake_step(stage, read, at(0));
    }
    match flow {
        HandshakeFlow::Ask { request: HandshakeRequest::Write { data, .. }, .. } => Ok(data),
        HandshakeFlow::Return(Err(error)) => Err(error),
        other => panic!("{:?}", other),
    }
}

#[test]
fn both_transports_answer_alike() {
    let mut greeting = BytesMut::new();
    ZmtpGreeting::encode(b"NULL\0\0\0\0\0\0\0\0\0\0\0\0\0\0\0\0", true, &mut greeting);
    for bytes in [&greeting[..], &V2_PUSH[..]] {
        let (mut session, _) = session(&options("PULL"), false);
        session.connection_ready(None, at(0));
        session.handle_internal_sqe_completion(11, at(0));
        let ops = session.process_ring_read_data(bytes, at(0));
        assert_eq!(stream_answer(&options("PULL"), bytes), Ok(sent(&ops)));
    }
    let mut strict = options("PULL");
    strict.allow_zmtp2 = false;
    assert_eq!(stream_answer(&strict, &V2_PUSH), Err(opening_error(&strict, &V2_PUSH)));
    let unknown = options("X");
    assert_eq!(stream_answer(&unknown, &V2_PUSH), Err(opening_error(&unknown, &V2_PUSH)));
    let pull = options("PULL");
    assert_eq!(stream_answer(&pull, &[1; 11]), Err(opening_error(&pull, &[1; 11])));
}

#[test]
fn handshakes_have_a_time_limit() {
    let mut options = options("PULL");
    assert_eq!(handshake_time(&ZmtpEngineConfig::from(&options)), Duration::from_secs(30));
    options.handshake_ivl = Some(Duration::from_secs(2));
    assert_eq!(handshake_time(&ZmtpEngineConfig::from(&options)), Duration::from_secs(2));
}

#[test]
fn surroundings_are_asked_no_more_than_needed() {
    let (mut session, world) = v2_session();
    assert_eq!(world.state.borrow().delivered.len(), 1);
    session.process_ring_read_data(&[0, 1, 5], at(1));
    assert_eq!(messages(&world), vec![vec![5]]);
    session.handle_internal_sqe_completion(3, at(1));
    session.prepare_sqes(at(1));
    session.close_initiated();
    assert_eq!(messages(&world), vec![vec![5]]);
    assert!(world.state.borrow().taken.is_empty());
    assert!(world.state.borrow().negotiated.is_empty());
}
