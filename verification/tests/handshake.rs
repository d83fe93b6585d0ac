use bytes::BytesMut;
use std::sync::Arc;
use zmtp_core::command::{Properties, ZmtpCommand, ZmtpReady};
use zmtp_core::greeting::{NegotiatedVersion, ZmtpGreeting};
use zmtp_core::stream::handshake::ZmtpProtocolHandlerX;
use zmtp_core::stream::types::{
    HandshakeFlow, HandshakeReply, HandshakeRequest, HandshakeStage, HandshakeSubPhaseX,
    ProcessTokenAction, ReadOutcome, WriteOutcome, ZmtpHandshakeProgressX,
};
use zmtp_core::heartbeat::ZmtpHeartbeatStateX;
use zmtp_core::message::{Blob, Msg, MsgFlags};
use zmtp_core::options::{SocketOptions, ZmtpEngineConfig};
use zmtp_core::{Duration, Instant, ZmqError};

const SECOND: u128 = 1_000_000_000;

fn at(seconds: u128) -> Instant {
    Instant { nanos: seconds * SECOND }
}

fn options(socket_type: &str) -> SocketOptions {
    let mut options = SocketOptions::default();
    options.socket_type_name = socket_type.to_string();
    options
}

fn connection(options: &SocketOptions, is_server: bool) -> ZmtpProtocolHandlerX {
    ZmtpProtocolHandlerX::new(
        Arc::new(ZmtpEngineConfig::from(options)),
        is_server,
        ZmtpHeartbeatStateX::new(None, Duration::from_secs(30), at(0)),
    )
}

fn asked(flow: HandshakeFlow) -> (HandshakeStage, HandshakeRequest) {
    match flow {
        HandshakeFlow::Ask { stage, request } => (stage, request),
        HandshakeFlow::Return(result) => panic!("done with {:?}", result),
    }
}

fn progress(flow: HandshakeFlow) -> ZmtpHandshakeProgressX {
    match flow {
        HandshakeFlow::Return(result) => result.unwrap(),
        HandshakeFlow::Ask { request, .. } => panic!("asked {:?}", request),
    }
}

fn error(flow: HandshakeFlow) -> ZmqError {
    match flow {
        HandshakeFlow::Return(result) => result.unwrap_err(),
        HandshakeFlow::Ask { request, .. } => panic!("asked {:?}", request),
    }
}

fn written(request: HandshakeRequest) -> Vec<u8> {
    match request {
        HandshakeRequest::Write { data, within, .. } => {
            assert_eq!(within, Duration::from_secs(15));
            data
        }
        other => panic!("asked {:?}", other),
    }
}

fn wrote() -> HandshakeReply {
    HandshakeReply::Wrote(WriteOutcome::Written)
}

fn read(bytes: &[u8]) -> HandshakeReply {
    HandshakeReply::Read(ReadOutcome::Data(bytes.to_vec()))
}

/// Sends the signature and takes these bytes of the peer; returns how the step goes on.
fn open(connection: &mut ZmtpProtocolHandlerX, bytes: &[u8]) -> HandshakeFlow {
    let (stage, request) = asked(connection.advance_handshake_step_impl(at(0)));
    assert_eq!(written(request), vec![0xff, 0, 0, 0, 0, 0, 0, 0, 0, 0x7f, 0x03]);
    progress(connection.resume_handshake_step(stage, wrote(), at(0)));
    assert_eq!(connection.sub_phase(), HandshakeSubPhaseX::WaitingForPeerRevision);
    let (stage, request) = asked(connection.advance_handshake_step_impl(at(0)));
    assert!(matches!(request, HandshakeRequest::Read { within } if within == Duration::from_secs(15)));
    connection.resume_handshake_step(stage, read(bytes), at(1))
}

const V2_PUSH: [u8; 12] = [0xff, 0, 0, 0, 0, 0, 0, 0, 0, 0x7f, 0x01, 0x08];

fn v3_greeting(as_server: bool) -> BytesMut {
    let mut greeting = BytesMut::new();
    ZmtpGreeting::encode(b"NULL\0\0\0\0\0\0\0\0\0\0\0\0\0\0\0\0", as_server, &mut greeting);
    greeting
}

/// A connection that has read the peer's ZMTP/3.x greeting.
fn after_greeting(options: &SocketOptions, is_server: bool) -> ZmtpProtocolHandlerX {
    let mut connection = connection(options, is_server);
    let (stage, request) = asked(open(&mut connection, &v3_greeting(!is_server)[..20]));
    let tail = written(request);
    assert_eq!(tail.len(), 53);
    assert_eq!(tail[21], is_server as u8);
    progress(connection.resume_handshake_step(stage, wrote(), at(1)));
    assert_eq!(connection.sub_phase(), HandshakeSubPhaseX::WaitingForGreeting);
    let (stage, _) = asked(connection.advance_handshake_step_impl(at(1)));
    progress(connection.resume_handshake_step(
        stage,
        read(&v3_greeting(!is_server)[20..]),
        at(1),
    ));
    assert_eq!(connection.sub_phase(), HandshakeSubPhaseX::SecurityHandshake);
    assert_eq!(connection.negotiated_version(), Some(NegotiatedVersion::V3 { minor: 0 }));
    assert_eq!(connection.buffered_len(), 0);
    connection
}

/// A connection that has done the work of the mechanism.
fn after_security(options: &SocketOptions, is_server: bool) -> ZmtpProtocolHandlerX {
    let mut connection = after_greeting(options, is_server);
    let (stage, request) = asked(connection.advance_handshake_step_impl(at(1)));
    assert!(matches!(request, HandshakeRequest::MechanismName));
    let name = HandshakeReply::Name("CURVE".to_string());
    let (stage, request) = asked(connection.resume_handshake_step(stage, name, at(1)));
    assert!(matches!(request, HandshakeRequest::MechanismComplete));
    let (stage, request) =
        asked(connection.resume_handshake_step(stage, HandshakeReply::Complete(true), at(1)));
    assert!(matches!(request, HandshakeRequest::IntoFramer(-1)));
    let done = HandshakeReply::Identity(Ok(None));
    progress(connection.resume_handshake_step(stage, done, at(1)));
    assert_eq!(connection.sub_phase(), HandshakeSubPhaseX::ReadyExchange);
    connection
}

fn ready(properties: &[(&str, &[u8])]) -> HandshakeReply {
    let mut all = Properties::new();
    for (name, value) in properties {
        all.insert(name, value.to_vec());
    }
    HandshakeReply::Command(Some(ZmtpCommand::Ready(ZmtpReady { properties: all })))
}

/// Answers a read and the look for a frame in what was read.
fn receive(
    connection: &mut ZmtpProtocolHandlerX,
    flow: HandshakeFlow,
    msg: Msg,
) -> HandshakeFlow {
    let (stage, request) = asked(flow);
    assert!(matches!(request, HandshakeRequest::Read { .. }));
    let (stage, request) = asked(connection.resume_handshake_step(stage, read(b"xyz"), at(2)));
    match request {
        HandshakeRequest::DecodeFrame(bytes) => assert_eq!(&bytes[..], b"xyz"),
        other => panic!("asked {:?}", other),
    }
    connection.resume_handshake_step(
        stage,
        HandshakeReply::Frame { outcome: Ok(Some(msg)), rest: BytesMut::new() },
        at(2),
    )
}

fn command(body: &[u8]) -> Msg {
    Msg::from_vec(body.to_vec()).with_flags(MsgFlags::with_command())
}

#[test]
fn client_sends_ready_first() {
    let mut with_identity = options("DEALER");
    with_identity.routing_id = Some(Blob::from_vec(b"me".to_vec()));
    let mut client = after_security(&with_identity, false);
    let (stage, request) = asked(client.advance_handshake_step_impl(at(1)));
    match request {
        HandshakeRequest::CreateReady(properties) => {
            assert_eq!(properties.get("Socket-Type"), Some(&b"DEALER".to_vec()));
            assert_eq!(properties.get("Identity"), Some(&b"me".to_vec()));
        }
        other => panic!("asked {:?}", other),
    }
    let msg = HandshakeReply::Message(Msg::from_vec(b"ready".to_vec()));
    let (stage, request) = asked(client.resume_handshake_step(stage, msg, at(1)));
    match request {
        HandshakeRequest::EncodeCommand(msg) => {
            assert!(msg.is_command());
            assert_eq!(msg.body(), b"ready");
        }
        other => panic!("asked {:?}", other),
    }
    let data = HandshakeReply::Encoded(Ok(vec![1, 2]));
    let (stage, request) = asked(client.resume_handshake_step(stage, data, at(1)));
    assert!(matches!(request, HandshakeRequest::Write { flush: false, .. }));
    progress(client.resume_handshake_step(stage, wrote(), at(5)));
    assert_eq!(client.sub_phase(), HandshakeSubPhaseX::ClientSentReady);
    assert_eq!(client.heartbeat_state().last_activity_time, at(5));

    let flow = client.advance_handshake_step_impl(at(5));
    let (stage, request) = asked(receive(&mut client, flow, command(b"r")));
    assert!(matches!(request, HandshakeRequest::ParseCommand(_)));
    let flow = client.resume_handshake_step(
        stage,
        ready(&[("Socket-Type", b"ROUTER"), ("Identity", b"you")]),
        at(5),
    );
    match progress(flow) {
        ZmtpHandshakeProgressX::IdentityReady(id) => assert_eq!(id.to_vec(), b"you"),
        other => panic!("{:?}", other),
    }
    assert_eq!(client.sub_phase(), HandshakeSubPhaseX::Done);
    assert_eq!(client.peer_socket_type(), Some("ROUTER"));
    assert!(matches!(
        progress(client.advance_handshake_step_impl(at(6))),
        ZmtpHandshakeProgressX::HandshakeComplete
    ));
}

#[test]
fn server_answers_ready() {
    let mut server = after_security(&options("PULL"), true);
    let flow = server.advance_handshake_step_impl(at(1));
    let (stage, _) = asked(receive(&mut server, flow, command(b"r")));
    progress(server.resume_handshake_step(
        stage,
        ready(&[("Socket-Type", &[0xff]), ("Identity", b"")]),
        at(2),
    ));
    assert_eq!(server.sub_phase(), HandshakeSubPhaseX::ServerReceivedReady);
    // A type that is no text is not kept.
    assert_eq!(server.peer_socket_type(), None);
    let (stage, request) = asked(server.advance_handshake_step_impl(at(2)));
    match request {
        HandshakeRequest::CreateReady(properties) => assert_eq!(properties.get("Identity"), None),
        other => panic!("asked {:?}", other),
    }
    let msg = HandshakeReply::Message(Msg::new());
    let (stage, _) = asked(server.resume_handshake_step(stage, msg, at(2)));
    let data = HandshakeReply::Encoded(Ok(vec![1]));
    let (stage, _) = asked(server.resume_handshake_step(stage, data, at(2)));
    assert!(matches!(
        progress(server.resume_handshake_step(stage, wrote(), at(2))),
        ZmtpHandshakeProgressX::HandshakeComplete
    ));
    assert_eq!(server.sub_phase(), HandshakeSubPhaseX::Done);
}

#[test]
fn anything_but_ready_is_refused() {
    let mut server = after_security(&options("PULL"), true);
    let flow = server.advance_handshake_step_impl(at(1));
    let (stage, _) = asked(receive(&mut server, flow, command(b"r")));
    let other = HandshakeReply::Command(Some(ZmtpCommand::Other));
    assert_eq!(
        error(server.resume_handshake_step(stage, other, at(2))),
        ZmqError::ProtocolViolation("Expected READY".to_string())
    );
    // The phase is as before, so the step can be begun again.
    assert_eq!(server.sub_phase(), HandshakeSubPhaseX::ReadyExchange);
    let flow = server.advance_handshake_step_impl(at(1));
    assert_eq!(
        error(receive(&mut server, flow, Msg::from_vec(b"data".to_vec()))),
        ZmqError::ProtocolViolation("Expected COMMAND frame in handshake".to_string())
    );
}

#[test]
fn mechanism_is_driven_to_its_end() {
    let mut client = after_greeting(&options("PUSH"), false);
    let (stage, _) = asked(client.advance_handshake_step_impl(at(1)));
    let name = HandshakeReply::Name("NULL".to_string());
    let (stage, request) = asked(client.resume_handshake_step(stage, name, at(1)));
    match request {
        HandshakeRequest::Negotiate(greeting) => assert!(greeting.as_server),
        other => panic!("asked {:?}", other),
    }
    let chosen = HandshakeReply::Negotiated(Ok(()));
    let (stage, _) = asked(client.resume_handshake_step(stage, chosen, at(1)));
    let (stage, request) =
        asked(client.resume_handshake_step(stage, HandshakeReply::Complete(false), at(1)));
    assert!(matches!(request, HandshakeRequest::MechanismFault));
    let (stage, request) =
        asked(client.resume_handshake_step(stage, HandshakeReply::Fault(None), at(1)));
    assert!(matches!(request, HandshakeRequest::ProduceToken));
    // A token is sent as a command, and the mechanism is asked again.
    let token = HandshakeReply::Token(Ok(Some(b"hello".to_vec())));
    let (stage, request) = asked(client.resume_handshake_step(stage, token, at(1)));
    match request {
        HandshakeRequest::EncodeCommand(msg) => assert_eq!(msg, command(b"hello")),
        other => panic!("asked {:?}", other),
    }
    let data = HandshakeReply::Encoded(Ok(vec![1]));
    let (stage, _) = asked(client.resume_handshake_step(stage, data, at(1)));
    let (stage, request) = asked(client.resume_handshake_step(stage, wrote(), at(1)));
    assert!(matches!(request, HandshakeRequest::MechanismComplete));
    let (stage, _) =
        asked(client.resume_handshake_step(stage, HandshakeReply::Complete(false), at(1)));
    let (stage, _) = asked(client.resume_handshake_step(stage, HandshakeReply::Fault(None), at(1)));
    // No token: the peer's is awaited.
    let flow = client.resume_handshake_step(stage, HandshakeReply::Token(Ok(None)), at(1));
    let (stage, request) = asked(receive(&mut client, flow, command(b"welcome")));
    match request {
        HandshakeRequest::ProcessToken(token) => assert_eq!(token, b"welcome"),
        other => panic!("asked {:?}", other),
    }
    let action = HandshakeReply::Processed(Ok(ProcessTokenAction::ProduceAndSend));
    let (stage, request) = asked(client.resume_handshake_step(stage, action, at(2)));
    assert!(matches!(request, HandshakeRequest::ProduceToken));
    assert_eq!(
        error(client.resume_handshake_step(stage, HandshakeReply::Token(Ok(None)), at(2))),
        ZmqError::Internal(
            "Mechanism requested ProduceAndSend but then produced no token.".to_string()
        )
    );
}

#[test]
fn proven_identity_is_reported() {
    let mut client = after_greeting(&options("PUSH"), false);
    let (stage, _) = asked(client.advance_handshake_step_impl(at(1)));
    let name = HandshakeReply::Name("PLAIN".to_string());
    let (stage, _) = asked(client.resume_handshake_step(stage, name, at(1)));
    let (stage, _) =
        asked(client.resume_handshake_step(stage, HandshakeReply::Complete(true), at(1)));
    let id = HandshakeReply::Identity(Ok(Some(b"id".to_vec())));
    match progress(client.resume_handshake_step(stage, id, at(1))) {
        ZmtpHandshakeProgressX::IdentityReady(id) => assert_eq!(id.to_vec(), b"id"),
        other => panic!("{:?}", other),
    }
    assert_eq!(client.sub_phase(), HandshakeSubPhaseX::ReadyExchange);
}

#[test]
fn failed_mechanism_is_an_error() {
    for (reason, text) in
        [(Some("bad key".to_string()), "bad key"), (None, "Unknown security error")]
    {
        let mut client = after_greeting(&options("PUSH"), false);
        let (stage, _) = asked(client.advance_handshake_step_impl(at(1)));
        let name = HandshakeReply::Name("PLAIN".to_string());
        let (stage, _) = asked(client.resume_handshake_step(stage, name, at(1)));
        let (stage, _) =
            asked(client.resume_handshake_step(stage, HandshakeReply::Complete(false), at(1)));
        let fault = HandshakeReply::Fault(Some(reason));
        assert_eq!(
            error(client.resume_handshake_step(stage, fault, at(1))),
            ZmqError::SecurityError(text.to_string())
        );
    }
}

#[test]
fn version_2_peer_on_a_stream_is_followed() {
    let mut pull = connection(&options("PULL"), false);
    let (stage, request) = asked(open(&mut pull, &V2_PUSH));
    assert_eq!(written(request), vec![0x07]);
    progress(pull.resume_handshake_step(stage, wrote(), at(1)));
    assert_eq!(pull.negotiated_version(), Some(NegotiatedVersion::V2));
    assert_eq!(pull.sub_phase(), HandshakeSubPhaseX::V2IdentityExchange);
    let (stage, request) = asked(pull.advance_handshake_step_impl(at(1)));
    assert_eq!(written(request), vec![0, 0]);
    assert_eq!(pull.peer_socket_type(), Some("PUSH"));
    let flow = pull.resume_handshake_step(stage, wrote(), at(1));
    let flow = receive(&mut pull, flow, Msg::from_vec(b"peer".to_vec()));
    match progress(flow) {
        ZmtpHandshakeProgressX::IdentityReady(id) => assert_eq!(id.to_vec(), b"peer"),
        other => panic!("{:?}", other),
    }
    assert_eq!(pull.sub_phase(), HandshakeSubPhaseX::Done);
}

#[test]
fn empty_version_2_identity_completes_the_handshake() {
    let mut pull = connection(&options("PULL"), false);
    let (stage, _) = asked(open(&mut pull, &V2_PUSH));
    progress(pull.resume_handshake_step(stage, wrote(), at(1)));
    let (stage, _) = asked(pull.advance_handshake_step_impl(at(1)));
    let flow = pull.resume_handshake_step(stage, wrote(), at(1));
    let flow = receive(&mut pull, flow, Msg::new());
    assert!(matches!(progress(flow), ZmtpHandshakeProgressX::HandshakeComplete));
}

#[test]
fn version_2_identity_frames_are_checked() {
    for (msg, text) in [
        (
            command(b""),
            "ZMTP/2.0 identity frame had COMMAND flag set (commands do not exist in v2)",
        ),
        (
            Msg::new().with_flags(MsgFlags::with_more()),
            "ZMTP/2.0 identity frame had MORE flag set (identity is a single frame)",
        ),
        (Msg::from_vec(vec![1; 256]), "ZMTP/2.0 identity frame exceeded 255 bytes"),
    ] {
        let mut pull = connection(&options("PULL"), false);
        let (stage, _) = asked(open(&mut pull, &V2_PUSH));
        progress(pull.resume_handshake_step(stage, wrote(), at(1)));
        let (stage, _) = asked(pull.advance_handshake_step_impl(at(1)));
        let flow = pull.resume_handshake_step(stage, wrote(), at(1));
        assert_eq!(
            error(receive(&mut pull, flow, msg)),
            ZmqError::ProtocolViolation(text.to_string())
        );
    }
}

#[test]
fn peers_that_cannot_be_followed_on_a_stream_are_refused() {
    let mut bad_revision = V2_PUSH;
    bad_revision[10] = 0;
    assert_eq!(
        error(open(&mut connection(&options("PULL"), false), &bad_revision)),
        ZmqError::ProtocolViolation(
            "Unsupported ZMTP revision 0x00 (only 0x01 and 0x03+ are supported)".to_string()
        )
    );
    let mut strict = options("PULL");
    strict.allow_zmtp2 = false;
    assert_eq!(
        error(open(&mut connection(&strict, false), &V2_PUSH)),
        ZmqError::ProtocolViolation(
            "peer advertised ZMTP/2.0 but allow_zmtp2 is disabled".to_string()
        )
    );
    assert_eq!(
        error(open(&mut connection(&options("STREAM"), false), &V2_PUSH)),
        ZmqError::ProtocolViolation(
            "no ZMTP/2.0 socket-type byte for socket type \"STREAM\"".to_string()
        )
    );
    let mut sub = connection(&options("SUB"), false);
    let (stage, _) = asked(open(&mut sub, &V2_PUSH));
    progress(sub.resume_handshake_step(stage, wrote(), at(1)));
    assert_eq!(
        error(sub.advance_handshake_step_impl(at(1))),
        ZmqError::ProtocolViolation(
            "incompatible ZMTP/2.0 socket pairing: local SUB \u{2194} peer PUSH".to_string()
        )
    );
}

#[test]
fn reads_end_in_time() {
    let mut quick = options("PULL");
    quick.handshake_ivl = Some(Duration::from_secs(3));
    let mut pull = connection(&quick, false);
    let (stage, _) = asked(pull.advance_handshake_step_impl(at(0)));
    progress(pull.resume_handshake_step(stage, wrote(), at(0)));
    let (stage, request) = asked(pull.advance_handshake_step_impl(at(1)));
    assert!(matches!(request, HandshakeRequest::Read { within } if within == Duration::from_secs(3)));
    // What is left of the time is left for the next read.
    let (stage, request) = asked(pull.resume_handshake_step(stage, read(&V2_PUSH[..5]), at(3)));
    assert!(matches!(request, HandshakeRequest::Read { within } if within == Duration::from_secs(1)));
    assert_eq!(
        error(pull.resume_handshake_step(stage, read(&V2_PUSH[5..8]), at(4))),
        ZmqError::Timeout
    );
    // What has arrived is kept for the next try.
    assert_eq!(pull.buffered_len(), 8);
    let (stage, _) = asked(pull.advance_handshake_step_impl(at(4)));
    assert_eq!(error(pull.resume_handshake_step(stage, read(&[]), at(4))), ZmqError::ConnectionClosed);
    let (stage, _) = asked(pull.advance_handshake_step_impl(at(4)));
    let elapsed = HandshakeReply::Read(ReadOutcome::Elapsed);
    assert_eq!(error(pull.resume_handshake_step(stage, elapsed, at(4))), ZmqError::Timeout);
    let (stage, _) = asked(pull.advance_handshake_step_impl(at(4)));
    let failed = HandshakeReply::Read(ReadOutcome::Failed { errno: 104 });
    assert_eq!(
        error(pull.resume_handshake_step(stage, failed, at(4))),
        ZmqError::IoError { errno: 104 }
    );
}

#[test]
fn writes_that_fail_are_reported() {
    for (outcome, expected) in [
        (WriteOutcome::Elapsed, ZmqError::Timeout),
        (WriteOutcome::Failed { errno: 32 }, ZmqError::IoError { errno: 32 }),
    ] {
        let mut push = connection(&options("PUSH"), false);
        let (stage, _) = asked(push.advance_handshake_step_impl(at(0)));
        let reply = HandshakeReply::Wrote(outcome);
        assert_eq!(error(push.resume_handshake_step(stage, reply, at(0))), expected);
        assert_eq!(push.sub_phase(), HandshakeSubPhaseX::GreetingExchange);
    }
}

#[test]
fn nothing_goes_without_a_stream() {
    let mut push = connection(&options("PUSH"), false);
    push.drop_stream();
    assert_eq!(
        error(push.advance_handshake_step_impl(at(0))),
        ZmqError::Internal("Stream unavailable".to_string())
    );
    let mut server = after_security(&options("PULL"), true);
    server.drop_stream();
    assert_eq!(
        error(server.advance_handshake_step_impl(at(1))),
        ZmqError::Internal("Stream unavailable for reading handshake command".to_string())
    );
}

#[test]
fn proposed_mechanism_follows_the_settings() {
    let mut settings = options("PUSH");
    let field = |options: &SocketOptions, is_server: bool| {
        connection(options, is_server).determine_own_greeting_mechanism_impl()
    };
    assert_eq!(&field(&settings, false), b"NULL\0\0\0\0\0\0\0\0\0\0\0\0\0\0\0\0");
    settings.plain_options.enabled = true;
    assert_eq!(&field(&settings, false), b"PLAIN\0\0\0\0\0\0\0\0\0\0\0\0\0\0\0");
    settings.curve_options.enabled = true;
    assert_eq!(&field(&settings, false), b"CURVE\0\0\0\0\0\0\0\0\0\0\0\0\0\0\0");
    // Noise_XX is proposed only where its keys are there.
    settings.noise_xx_options.enabled = true;
    assert_eq!(&field(&settings, true), b"CURVE\0\0\0\0\0\0\0\0\0\0\0\0\0\0\0");
    settings.noise_xx_options.static_secret_key_bytes = Some([1; 32]);
    assert_eq!(&field(&settings, true), b"NOISE_XX\0\0\0\0\0\0\0\0\0\0\0\0");
    assert_eq!(&field(&settings, false), b"CURVE\0\0\0\0\0\0\0\0\0\0\0\0\0\0\0");
    settings.noise_xx_options.remote_static_public_key_bytes = Some([2; 32]);
    assert_eq!(&field(&settings, false), b"NOISE_XX\0\0\0\0\0\0\0\0\0\0\0\0");
}

#[test]
fn heartbeats_run_on_a_stream() {
    let mut push = ZmtpProtocolHandlerX::new(
        Arc::new(ZmtpEngineConfig::from(&options("PUSH"))),
        false,
        ZmtpHeartbeatStateX::new(Some(Duration::from_secs(2)), Duration::from_secs(3), at(0)),
    );
    push.record_activity(at(1));
    assert!(!push.is_ping_due(at(2)));
    assert!(push.is_ping_due(at(3)));
    assert_eq!(push.ping_to_send(at(2)), None);
    assert_eq!(push.ping_to_send(at(3)), Some((0, vec![])));
    push.ping_sent(at(3));
    assert!(!push.is_ping_due(at(9)));
    assert_eq!(push.ping_to_send(at(9)), None);
    assert!(!push.is_pong_overdue(at(5)));
    assert!(push.is_pong_overdue(at(6)));
    let pong = Some(ZmtpCommand::Pong(vec![]));
    assert_eq!(push.process_heartbeat_command(pong), Ok(None));
    assert!(!push.is_pong_overdue(at(6)));
    let ping = Some(ZmtpCommand::Ping(vec![7]));
    assert_eq!(push.process_heartbeat_command(ping), Ok(Some(vec![7])));
}
