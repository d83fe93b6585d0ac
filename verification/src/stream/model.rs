//! What the handshake of a connection on a stream does, step by step.

use vstd::prelude::*;

use crate::command::CommandView;
use crate::error::ErrorView;
use crate::greeting::{GreetingView, NegotiatedVersion};
use crate::stream::types::{
    HandshakeFlowView, HandshakeReplyView, HandshakeRequestView, HandshakeStage, HandshakeSubPhaseX,
    ProcessTokenAction, ProgressView, ReadPurpose, ReadView, SendPurpose, WriteOutcome,
};
use crate::heartbeat::ZmtpHeartbeatStateX;
use crate::message::{MsgFlags, MsgView};
use crate::options::ConfigView;
use crate::time::{Duration, Instant};

verus! {

/// The state of a connection on a stream, as far as the handshake goes.
#[verifier::ext_equal]
pub struct SessionModel {
    pub config: ConfigView,
    pub is_server: bool,
    /// Whether the stream is still there.
    pub has_stream: bool,
    pub sub_phase: HandshakeSubPhaseX,
    pub peer_socket_type: Option<Seq<char>>,
    pub peer_identity: Option<Seq<u8>>,
    pub heartbeat: ZmtpHeartbeatStateX,
    /// The bytes that have arrived and were not yet used.
    pub received: Seq<u8>,
    pub version: Option<NegotiatedVersion>,
    pub peer_greeting: Option<GreetingView>,
}

/// The state after a step, and how it goes on.
pub struct HandshakeStep {
    pub session: SessionModel,
    pub flow: HandshakeFlowView,
}

/// The time that each operation of a handshake may take.
pub open spec fn operation_time(config: ConfigView) -> Duration {
    match config.handshake_timeout {
        Some(time) => time,
        None => crate::time::seconds(15),
    }
}

/// The step is done.
pub open spec fn progress(s: SessionModel, progress: ProgressView) -> HandshakeStep {
    HandshakeStep { session: s, flow: HandshakeFlowView::Return(Ok(progress)) }
}

/// The step has failed.
pub open spec fn failure(s: SessionModel, error: ErrorView) -> HandshakeStep {
    HandshakeStep { session: s, flow: HandshakeFlowView::Return(Err(error)) }
}

/// The step goes on once the question is answered.
pub open spec fn question(
    s: SessionModel,
    stage: HandshakeStage,
    request: HandshakeRequestView,
) -> HandshakeStep {
    HandshakeStep { session: s, flow: HandshakeFlowView::Ask { stage, request } }
}

/// The connection after traffic.
pub open spec fn with_activity(s: SessionModel, now: Instant) -> SessionModel {
    SessionModel { heartbeat: crate::heartbeat::active(s.heartbeat, now), ..s }
}

/// Bytes are written, and the stream flushed.
pub open spec fn write_and_flush(
    s: SessionModel,
    stage: HandshakeStage,
    data: Seq<u8>,
) -> HandshakeStep {
    if s.has_stream {
        question(
            s,
            stage,
            HandshakeRequestView::Write { data, flush: true, within: operation_time(s.config) },
        )
    } else {
        failure(s, ErrorView::Internal("Stream unavailable"@))
    }
}

/// The error of a write that did not end well.
pub open spec fn write_error(outcome: WriteOutcome) -> Option<ErrorView> {
    match outcome {
        WriteOutcome::Written => None,
        WriteOutcome::Elapsed => Some(ErrorView::Timeout),
        WriteOutcome::Failed { errno } => Some(ErrorView::IoError(errno)),
    }
}

/// More bytes are read, where there is time left until the deadline.
pub open spec fn read_more(
    s: SessionModel,
    stage: HandshakeStage,
    deadline: Instant,
    now: Instant,
) -> HandshakeStep {
    let remaining = crate::time::span(now, deadline);
    if remaining.nanos == 0 {
        failure(s, ErrorView::Timeout)
    } else {
        question(s, stage, HandshakeRequestView::Read { within: remaining })
    }
}

/// The connection once bytes were read.
pub open spec fn with_received(s: SessionModel, bytes: Seq<u8>, now: Instant) -> SessionModel {
    SessionModel { received: s.received + bytes, ..with_activity(s, now) }
}

/// The error of a read that did not end well; none at all came where the peer closed
/// the stream.
pub open spec fn read_error(outcome: ReadView) -> Option<ErrorView> {
    match outcome {
        ReadView::Data(bytes) => if bytes.len() == 0 {
            Some(ErrorView::ConnectionClosed)
        } else {
            None
        },
        ReadView::Elapsed => Some(ErrorView::Timeout),
        ReadView::Failed(errno) => Some(ErrorView::IoError(errno)),
    }
}

/// The bytes of a read.
pub open spec fn read_bytes(outcome: ReadView) -> Seq<u8> {
    match outcome {
        ReadView::Data(bytes) => bytes,
        _ => Seq::empty(),
    }
}

/// The signature and the major version are sent, whatever the peer's version.
pub open spec fn send_signature(s: SessionModel) -> HandshakeStep {
    write_and_flush(s, HandshakeStage::SignatureSent, crate::greeting::prelude_bytes())
}

/// They were sent.
#[verifier::opaque]
pub open spec fn signature_sent(
    s: SessionModel,
    outcome: WriteOutcome,
    now: Instant,
) -> HandshakeStep {
    match write_error(outcome) {
        Some(error) => failure(s, error),
        None => progress(
            SessionModel {
                received: Seq::empty(),
                sub_phase: HandshakeSubPhaseX::WaitingForPeerRevision,
                ..with_activity(s, now)
            },
            ProgressView::InProgress,
        ),
    }
}

/// The first eleven bytes of the peer are awaited.
#[verifier::opaque]
pub open spec fn peer_revision(s: SessionModel, deadline: Instant, now: Instant) -> HandshakeStep {
    if !s.has_stream {
        failure(s, ErrorView::Internal("Stream unavailable"@))
    } else if s.received.len() < 11 {
        read_more(s, HandshakeStage::PeekRead { deadline }, deadline, now)
    } else {
        match crate::greeting::peeked_revision(s.received.take(11)) {
            Err(error) => failure(s, error),
            Ok(revision) => if revision == 0x01 {
                send_v2_tail(s)
            } else if revision >= 0x03 {
                write_and_flush(
                    s,
                    HandshakeStage::V3TailSent,
                    crate::greeting::v3_tail_post_major_bytes(
                        crate::mechanism::mechanism_field(
                            crate::mechanism::proposed_mechanism(s.config, s.is_server),
                        ),
                        s.is_server,
                    ),
                )
            } else {
                failure(s, crate::uring::model::unsupported_revision(revision))
            },
        }
    }
}

/// The socket type is sent to a peer of version 2.0, if that is allowed.
pub open spec fn send_v2_tail(s: SessionModel) -> HandshakeStep {
    if !s.config.allow_zmtp2 {
        failure(s, crate::uring::model::v2_not_allowed())
    } else {
        match crate::greeting::code_of_name(s.config.socket_type_name) {
            None => failure(s, crate::uring::model::v2_type_unknown(s.config.socket_type_name)),
            Some(code) => write_and_flush(s, HandshakeStage::V2TailSent, seq![code]),
        }
    }
}

/// The socket type was sent: the two ends speak version 2.0.
#[verifier::opaque]
pub open spec fn v2_tail_sent(s: SessionModel, outcome: WriteOutcome) -> HandshakeStep {
    match write_error(outcome) {
        Some(error) => failure(s, error),
        None => progress(
            SessionModel {
                version: Some(NegotiatedVersion::V2),
                sub_phase: HandshakeSubPhaseX::V2IdentityExchange,
                ..s
            },
            ProgressView::InProgress,
        ),
    }
}

/// The rest of the ZMTP/3.x greeting was sent.
#[verifier::opaque]
pub open spec fn v3_tail_sent(s: SessionModel, outcome: WriteOutcome) -> HandshakeStep {
    match write_error(outcome) {
        Some(error) => failure(s, error),
        None => progress(
            SessionModel { sub_phase: HandshakeSubPhaseX::WaitingForGreeting, ..s },
            ProgressView::InProgress,
        ),
    }
}

/// The whole ZMTP/3.x greeting of the peer is awaited.
#[verifier::opaque]
pub open spec fn receive_greeting(
    s: SessionModel,
    deadline: Instant,
    now: Instant,
) -> HandshakeStep {
    let rest = SessionModel { received: s.received.skip(64), ..s };
    if !s.has_stream {
        failure(s, ErrorView::Internal("Stream unavailable"@))
    } else if s.received.len() < 64 {
        read_more(s, HandshakeStage::GreetingRead { deadline }, deadline, now)
    } else {
        match crate::greeting::decoded_greeting(s.received) {
            Err(error) => failure(rest, error),
            Ok(greeting) => progress(
                SessionModel {
                    version: Some(NegotiatedVersion::V3 { minor: greeting.version.1 }),
                    peer_greeting: Some(greeting),
                    sub_phase: HandshakeSubPhaseX::SecurityHandshake,
                    ..rest
                },
                ProgressView::InProgress,
            ),
        }
    }
}

/// The mechanism is asked how far it has come.
pub open spec fn security_turn(s: SessionModel) -> HandshakeStep {
    question(s, HandshakeStage::MechanismStatus, HandshakeRequestView::MechanismComplete)
}

/// The name of the mechanism tells whether it is the one of before the greetings.
#[verifier::opaque]
pub open spec fn mechanism_named(s: SessionModel, name: Seq<char>) -> HandshakeStep {
    if name == "NULL"@ {
        match s.peer_greeting {
            Some(greeting) => question(
                s,
                HandshakeStage::MechanismNegotiated,
                HandshakeRequestView::Negotiate(greeting),
            ),
            None => failure(
                s,
                ErrorView::Internal("Handshake entered security phase without a peer greeting"@),
            ),
        }
    } else {
        security_turn(s)
    }
}

/// The mechanism was chosen.
#[verifier::opaque]
pub open spec fn mechanism_negotiated(
    s: SessionModel,
    result: Result<(), ErrorView>,
) -> HandshakeStep {
    match result {
        Err(error) => failure(s, error),
        Ok(_) => security_turn(s),
    }
}

/// Whether the mechanism has done its work.
#[verifier::opaque]
pub open spec fn mechanism_status(s: SessionModel, complete: bool) -> HandshakeStep {
    if complete {
        question(
            s,
            HandshakeStage::FramerMade,
            HandshakeRequestView::IntoFramer(s.config.max_msg_size),
        )
    } else {
        question(s, HandshakeStage::MechanismFault, HandshakeRequestView::MechanismFault)
    }
}

/// The mechanism made the framer: the READY commands come next.
#[verifier::opaque]
pub open spec fn framer_made(
    s: SessionModel,
    identity: Result<Option<Seq<u8>>, ErrorView>,
) -> HandshakeStep {
    match identity {
        Err(error) => failure(s, error),
        Ok(identity) => progress(
            SessionModel { sub_phase: HandshakeSubPhaseX::ReadyExchange, ..s },
            match identity {
                Some(id) => ProgressView::IdentityReady(id),
                None => ProgressView::InProgress,
            },
        ),
    }
}

/// Whether the mechanism has failed.
#[verifier::opaque]
pub open spec fn mechanism_fault(
    s: SessionModel,
    fault: Option<Option<Seq<char>>>,
) -> HandshakeStep {
    match fault {
        Some(Some(reason)) => failure(s, ErrorView::SecurityError(reason)),
        Some(None) => failure(s, ErrorView::SecurityError("Unknown security error"@)),
        None => question(s, HandshakeStage::TokenProduced, HandshakeRequestView::ProduceToken),
    }
}

/// A command is sent: it is put on the wire first.
pub open spec fn send_command(
    s: SessionModel,
    purpose: SendPurpose,
    msg: MsgView,
) -> HandshakeStep {
    question(
        s,
        HandshakeStage::CommandEncoded(purpose),
        HandshakeRequestView::EncodeCommand(
            MsgView { flags: MsgFlags { more: false, command: true }, ..msg },
        ),
    )
}

/// A token is sent.
pub open spec fn send_token(
    s: SessionModel,
    purpose: SendPurpose,
    token: Seq<u8>,
) -> HandshakeStep {
    send_command(
        s,
        purpose,
        crate::message::frame(token, MsgFlags { more: false, command: false }),
    )
}

/// The mechanism has a token to send; where it has none, the peer's is awaited.
#[verifier::opaque]
pub open spec fn token_produced(
    s: SessionModel,
    token: Result<Option<Seq<u8>>, ErrorView>,
    now: Instant,
) -> HandshakeStep {
    match token {
        Err(error) => failure(s, error),
        Ok(Some(token)) => send_token(s, SendPurpose::Token, token),
        Ok(None) => receive_command(s, ReadPurpose::Token, now),
    }
}

/// The mechanism answers the token of the peer, as it said it would.
#[verifier::opaque]
pub open spec fn reply_produced(
    s: SessionModel,
    token: Result<Option<Seq<u8>>, ErrorView>,
) -> HandshakeStep {
    match token {
        Err(error) => failure(s, error),
        Ok(Some(token)) => send_token(s, SendPurpose::ReplyToken, token),
        Ok(None) => failure(
            s,
            ErrorView::Internal("Mechanism requested ProduceAndSend but then produced no token."@),
        ),
    }
}

/// The mechanism took the token of the peer.
#[verifier::opaque]
pub open spec fn token_processed(
    s: SessionModel,
    action: Result<ProcessTokenAction, ErrorView>,
) -> HandshakeStep {
    match action {
        Err(error) => failure(s, error),
        Ok(ProcessTokenAction::ProduceAndSend) => question(
            s,
            HandshakeStage::ReplyProduced,
            HandshakeRequestView::ProduceToken,
        ),
        Ok(_) => security_turn(s),
    }
}

/// A command is on the wire: it is written.
#[verifier::opaque]
pub open spec fn command_encoded(
    s: SessionModel,
    purpose: SendPurpose,
    data: Result<Seq<u8>, ErrorView>,
) -> HandshakeStep {
    match data {
        Err(error) => failure(s, error),
        Ok(data) => if s.has_stream {
            question(
                s,
                HandshakeStage::CommandSent(purpose),
                HandshakeRequestView::Write {
                    data,
                    flush: false,
                    within: operation_time(s.config),
                },
            )
        } else {
            failure(s, ErrorView::Internal("Stream unavailable for send"@))
        },
    }
}

/// The handshake is done; the identity of the peer is reported, if it has one.
pub open spec fn finished(s: SessionModel, identity: Option<Seq<u8>>) -> HandshakeStep {
    progress(
        SessionModel { sub_phase: HandshakeSubPhaseX::Done, ..s },
        match identity {
            Some(id) => ProgressView::IdentityReady(id),
            None => ProgressView::HandshakeComplete,
        },
    )
}

/// A command was written.
#[verifier::opaque]
pub open spec fn command_sent(
    s: SessionModel,
    purpose: SendPurpose,
    outcome: WriteOutcome,
    now: Instant,
) -> HandshakeStep {
    let sent = with_activity(s, now);
    match write_error(outcome) {
        Some(error) => failure(s, error),
        None => match purpose {
            SendPurpose::Token | SendPurpose::ReplyToken => security_turn(sent),
            SendPurpose::ClientReady => progress(
                SessionModel { sub_phase: HandshakeSubPhaseX::ClientSentReady, ..sent },
                ProgressView::InProgress,
            ),
            SendPurpose::ServerReady => finished(
                SessionModel { peer_identity: None, ..sent },
                s.peer_identity,
            ),
        },
    }
}

/// A command of the peer is awaited.
pub open spec fn receive_command(
    s: SessionModel,
    purpose: ReadPurpose,
    now: Instant,
) -> HandshakeStep {
    if s.has_stream {
        decode_command(
            s,
            purpose,
            crate::time::after(now, operation_time(s.config)),
            now,
        )
    } else {
        failure(s, ErrorView::Internal("Stream unavailable for reading handshake command"@))
    }
}

/// A frame is looked for where any bytes have arrived; else more are read.
pub open spec fn decode_command(
    s: SessionModel,
    purpose: ReadPurpose,
    deadline: Instant,
    now: Instant,
) -> HandshakeStep {
    if s.received.len() > 0 {
        question(
            SessionModel { received: Seq::empty(), ..s },
            HandshakeStage::CommandDecoded { purpose, deadline },
            HandshakeRequestView::DecodeFrame(s.received),
        )
    } else {
        read_more(s, HandshakeStage::CommandRead { purpose, deadline }, deadline, now)
    }
}

/// A command of the peer has arrived, or not yet.
#[verifier::opaque]
pub open spec fn command_decoded(
    s: SessionModel,
    purpose: ReadPurpose,
    deadline: Instant,
    outcome: Result<Option<MsgView>, ErrorView>,
    now: Instant,
) -> HandshakeStep {
    let heard = with_activity(s, now);
    match outcome {
        Err(error) => failure(s, error),
        Ok(None) => read_more(
            s,
            HandshakeStage::CommandRead { purpose, deadline },
            deadline,
            now,
        ),
        Ok(Some(msg)) => if !msg.flags.command {
            failure(heard, ErrorView::ProtocolViolation("Expected COMMAND frame in handshake"@))
        } else {
            match purpose {
                ReadPurpose::Token => question(
                    heard,
                    HandshakeStage::TokenProcessed,
                    HandshakeRequestView::ProcessToken(msg.body()),
                ),
                _ => question(
                    heard,
                    HandshakeStage::ReadyParsed(purpose),
                    HandshakeRequestView::ParseCommand(msg),
                ),
            }
        },
    }
}

/// Bytes came while a command was awaited.
#[verifier::opaque]
pub open spec fn command_read(
    s: SessionModel,
    purpose: ReadPurpose,
    deadline: Instant,
    outcome: ReadView,
    now: Instant,
) -> HandshakeStep {
    match read_error(outcome) {
        Some(error) => failure(s, error),
        None => decode_command(
            with_received(s, read_bytes(outcome), now),
            purpose,
            deadline,
            now,
        ),
    }
}

/// The READY command of this end is made.
pub open spec fn create_ready(s: SessionModel, purpose: SendPurpose) -> HandshakeStep {
    question(
        s,
        HandshakeStage::ReadyCreated(purpose),
        HandshakeRequestView::CreateReady(crate::ready::stream_ready_properties(s.config)),
    )
}

/// The READY commands are exchanged: the client's comes first.
pub open spec fn ready_exchange(s: SessionModel, now: Instant) -> HandshakeStep {
    if s.is_server {
        receive_command(s, ReadPurpose::ClientReady, now)
    } else {
        create_ready(s, SendPurpose::ClientReady)
    }
}

/// The type of socket that the peer announced, where it is a text.
pub open spec fn announced_type(properties: Map<Seq<char>, Seq<u8>>) -> Option<Seq<char>> {
    match crate::ready::property(properties, "Socket-Type"@) {
        Some(bytes) if vstd::utf8::valid_utf8(bytes) => Some(vstd::utf8::decode_utf8(bytes)),
        _ => None,
    }
}

/// The connection once the peer announced its type of socket, if it did.
pub open spec fn with_peer_type(
    s: SessionModel,
    properties: Map<Seq<char>, Seq<u8>>,
) -> SessionModel {
    SessionModel {
        peer_socket_type: match announced_type(properties) {
            Some(name) => Some(name),
            None => s.peer_socket_type,
        },
        ..s
    }
}

/// The READY command of the peer was read.
#[verifier::opaque]
pub open spec fn ready_parsed(
    s: SessionModel,
    purpose: ReadPurpose,
    command: Option<CommandView>,
) -> HandshakeStep {
    match command {
        Some(CommandView::Ready(properties)) => {
            let known = with_peer_type(s, properties);
            let identity = crate::ready::announced_identity(properties);
            if purpose == ReadPurpose::ClientReady {
                progress(
                    SessionModel {
                        peer_identity: identity,
                        sub_phase: HandshakeSubPhaseX::ServerReceivedReady,
                        ..known
                    },
                    ProgressView::InProgress,
                )
            } else {
                finished(known, identity)
            }
        },
        _ => failure(s, ErrorView::ProtocolViolation("Expected READY"@)),
    }
}

/// ZMTP/2.0: the socket type of the peer is awaited and checked, and the empty
/// identity is sent.
#[verifier::opaque]
pub open spec fn v2_greeting(s: SessionModel, deadline: Instant, now: Instant) -> HandshakeStep {
    let rest = SessionModel { received: s.received.skip(12), ..s };
    if !s.has_stream {
        failure(s, ErrorView::Internal("Stream unavailable"@))
    } else if s.received.len() < 12 {
        read_more(s, HandshakeStage::V2GreetingRead { deadline }, deadline, now)
    } else {
        match crate::v2_rules::compatibility(s.config.socket_type_name, s.received[11]) {
            Err(error) => failure(rest, error),
            Ok(_) => write_and_flush(
                SessionModel {
                    peer_socket_type: crate::greeting::name_of_code(s.received[11]),
                    ..rest
                },
                HandshakeStage::V2IdentitySent,
                seq![0u8, 0u8],
            ),
        }
    }
}

/// ZMTP/2.0: the empty identity was sent; the peer's is awaited.
#[verifier::opaque]
pub open spec fn v2_identity_sent(
    s: SessionModel,
    outcome: WriteOutcome,
    now: Instant,
) -> HandshakeStep {
    match write_error(outcome) {
        Some(error) => failure(s, error),
        None => decode_v2_identity(
            with_activity(s, now),
            crate::time::after(now, operation_time(s.config)),
            now,
        ),
    }
}

/// ZMTP/2.0: the identity of the peer is looked for where any bytes have arrived.
pub open spec fn decode_v2_identity(
    s: SessionModel,
    deadline: Instant,
    now: Instant,
) -> HandshakeStep {
    if s.received.len() > 0 {
        question(
            SessionModel { received: Seq::empty(), ..s },
            HandshakeStage::V2IdentityDecoded { deadline },
            HandshakeRequestView::DecodeFrame(s.received),
        )
    } else {
        read_more(s, HandshakeStage::V2IdentityRead { deadline }, deadline, now)
    }
}

/// ZMTP/2.0: the identity of the peer has arrived, or not yet.
#[verifier::opaque]
pub open spec fn v2_identity_decoded(
    s: SessionModel,
    deadline: Instant,
    outcome: Result<Option<MsgView>, ErrorView>,
    now: Instant,
) -> HandshakeStep {
    match outcome {
        Err(error) => failure(s, error),
        Ok(None) => read_more(s, HandshakeStage::V2IdentityRead { deadline }, deadline, now),
        Ok(Some(msg)) => match crate::v2_rules::identity_constraints(msg) {
            Err(error) => failure(s, error),
            Ok(_) => finished(
                SessionModel { peer_identity: None, ..with_activity(s, now) },
                if msg.body().len() > 0 {
                    Some(msg.body())
                } else {
                    s.peer_identity
                },
            ),
        },
    }
}

/// ZMTP/2.0: bytes came while the identity of the peer was awaited.
#[verifier::opaque]
pub open spec fn v2_identity_read(
    s: SessionModel,
    deadline: Instant,
    outcome: ReadView,
    now: Instant,
) -> HandshakeStep {
    match read_error(outcome) {
        Some(error) => failure(s, error),
        None => decode_v2_identity(with_received(s, read_bytes(outcome), now), deadline, now),
    }
}

/// Bytes came while a greeting was awaited.
#[verifier::opaque]
pub open spec fn greeting_read(
    s: SessionModel,
    stage: HandshakeStage,
    outcome: ReadView,
    now: Instant,
) -> HandshakeStep {
    let more = with_received(s, read_bytes(outcome), now);
    match read_error(outcome) {
        Some(error) => failure(s, error),
        None => match stage {
            HandshakeStage::PeekRead { deadline } => peer_revision(more, deadline, now),
            HandshakeStage::GreetingRead { deadline } => receive_greeting(more, deadline, now),
            HandshakeStage::V2GreetingRead { deadline } => v2_greeting(more, deadline, now),
            _ => progress(more, ProgressView::InProgress),
        },
    }
}

/// A step of the handshake begins, by the phase that it is in.
pub open spec fn step_begun(s: SessionModel, now: Instant) -> HandshakeStep {
    let deadline = crate::time::after(now, operation_time(s.config));
    match s.sub_phase {
        HandshakeSubPhaseX::GreetingExchange => send_signature(s),
        HandshakeSubPhaseX::WaitingForPeerRevision => peer_revision(s, deadline, now),
        HandshakeSubPhaseX::WaitingForGreeting => receive_greeting(s, deadline, now),
        HandshakeSubPhaseX::SecurityHandshake => question(
            s,
            HandshakeStage::MechanismNamed,
            HandshakeRequestView::MechanismName,
        ),
        HandshakeSubPhaseX::ReadyExchange => ready_exchange(s, now),
        HandshakeSubPhaseX::ClientSentReady => receive_command(s, ReadPurpose::ServerReady, now),
        HandshakeSubPhaseX::ServerReceivedReady => create_ready(s, SendPurpose::ServerReady),
        HandshakeSubPhaseX::V2IdentityExchange => v2_greeting(s, deadline, now),
        HandshakeSubPhaseX::Done => progress(s, ProgressView::HandshakeComplete),
    }
}

/// A step goes on once the question asked at `stage` is answered.  An answer of
/// another kind than the question ends the step.
#[verifier::opaque]
pub open spec fn step_resumed(
    s: SessionModel,
    stage: HandshakeStage,
    reply: HandshakeReplyView,
    now: Instant,
) -> HandshakeStep {
    match reply {
        HandshakeReplyView::Wrote(outcome) => match stage {
            HandshakeStage::SignatureSent => signature_sent(s, outcome, now),
            HandshakeStage::V2TailSent => v2_tail_sent(s, outcome),
            HandshakeStage::V3TailSent => v3_tail_sent(s, outcome),
            HandshakeStage::CommandSent(purpose) => command_sent(s, purpose, outcome, now),
            HandshakeStage::V2IdentitySent => v2_identity_sent(s, outcome, now),
            _ => progress(s, ProgressView::InProgress),
        },
        HandshakeReplyView::Read(outcome) => match stage {
            HandshakeStage::CommandRead { purpose, deadline } => command_read(
                s,
                purpose,
                deadline,
                outcome,
                now,
            ),
            HandshakeStage::V2IdentityRead { deadline } => v2_identity_read(
                s,
                deadline,
                outcome,
                now,
            ),
            _ => greeting_read(s, stage, outcome, now),
        },
        HandshakeReplyView::Frame { outcome, rest } => {
            let s = SessionModel { received: rest, ..s };
            match stage {
                HandshakeStage::CommandDecoded { purpose, deadline } => command_decoded(
                    s,
                    purpose,
                    deadline,
                    outcome,
                    now,
                ),
                HandshakeStage::V2IdentityDecoded { deadline } => v2_identity_decoded(
                    s,
                    deadline,
                    outcome,
                    now,
                ),
                _ => progress(s, ProgressView::InProgress),
            }
        },
        HandshakeReplyView::Encoded(data) => match stage {
            HandshakeStage::CommandEncoded(purpose) => command_encoded(s, purpose, data),
            _ => progress(s, ProgressView::InProgress),
        },
        HandshakeReplyView::Message(msg) => match stage {
            HandshakeStage::ReadyCreated(purpose) => send_command(s, purpose, msg),
            _ => progress(s, ProgressView::InProgress),
        },
        HandshakeReplyView::Command(command) => match stage {
            HandshakeStage::ReadyParsed(purpose) => ready_parsed(s, purpose, command),
            _ => progress(s, ProgressView::InProgress),
        },
        HandshakeReplyView::Name(name) => match stage {
            HandshakeStage::MechanismNamed => mechanism_named(s, name),
            _ => progress(s, ProgressView::InProgress),
        },
        HandshakeReplyView::Negotiated(result) => match stage {
            HandshakeStage::MechanismNegotiated => mechanism_negotiated(s, result),
            _ => progress(s, ProgressView::InProgress),
        },
        HandshakeReplyView::Complete(complete) => match stage {
            HandshakeStage::MechanismStatus => mechanism_status(s, complete),
            _ => progress(s, ProgressView::InProgress),
        },
        HandshakeReplyView::Fault(fault) => match stage {
            HandshakeStage::MechanismFault => mechanism_fault(s, fault),
            _ => progress(s, ProgressView::InProgress),
        },
        HandshakeReplyView::Token(token) => match stage {
            HandshakeStage::TokenProduced => token_produced(s, token, now),
            HandshakeStage::ReplyProduced => reply_produced(s, token),
            _ => progress(s, ProgressView::InProgress),
        },
        HandshakeReplyView::Processed(action) => match stage {
            HandshakeStage::TokenProcessed => token_processed(s, action),
            _ => progress(s, ProgressView::InProgress),
        },
        HandshakeReplyView::Identity(identity) => match stage {
            HandshakeStage::FramerMade => framer_made(s, identity),
            _ => progress(s, ProgressView::InProgress),
        },
    }
}

/// Whether a PING is to be sent: never in ZMTP/2.0, which has no commands.
pub open spec fn is_ping_due(s: SessionModel, now: Instant) -> bool {
    &&& s.version != Some(NegotiatedVersion::V2)
    &&& crate::heartbeat::is_ping_due(s.heartbeat, now)
}

} // verus!
