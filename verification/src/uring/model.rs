//! What a connection on io_uring does, step by step.
//!
//! A call on a connection runs in steps.  Each step changes the connection and the
//! operations to submit, and ends with a question to the surroundings or with the
//! end of the call.  The functions here say what every step does.

use vstd::prelude::*;

use crate::command::CommandView;
use crate::error::ErrorView;
use crate::greeting::NegotiatedVersion;
use crate::message::{MsgFlags, MsgView};
use crate::options::ConfigView;
use crate::time::{Duration, Instant};
use crate::uring::types::{
    BlueprintView, EventView, FlowView, OpOrigin, OpsView, Pass, QueuedMsgView, QueuedPartsView,
    ReplyView, RequestView, Stage, ZmtpHandlerPhase,
};

verus! {

/// Longer buffers are sent without a copy, where that is switched on.
pub const ZC_SEND_THRESHOLD: usize = 1024;

/// The state of a connection.
#[verifier::ext_equal]
pub struct HandlerModel {
    pub fd: i32,
    pub config: ConfigView,
    pub is_server: bool,
    pub phase: ZmtpHandlerPhase,
    /// The bytes of the peer's greeting that have arrived.
    pub greeting: Seq<u8>,
    /// The other bytes that have arrived and were not yet used.
    pub accumulated: Seq<u8>,
    /// Whether a security mechanism is at work.
    pub has_mechanism: bool,
    pub last_activity: Instant,
    pub last_ping_sent: Option<Instant>,
    pub waiting_for_pong: bool,
    pub heartbeat_ivl: Option<Duration>,
    pub heartbeat_timeout: Duration,
    /// The messages of one frame that wait for their turn.
    pub outgoing: Seq<QueuedMsgView>,
    /// The messages of several frames that wait for their turn.
    pub outgoing_multipart: Seq<QueuedPartsView>,
    pub handshake_timeout: Duration,
    pub handshake_deadline: Instant,
    pub identity_from_security: Option<Seq<u8>>,
    pub identity_from_ready: Option<Seq<u8>>,
    pub final_identity: Option<Seq<u8>>,
    pub last_sent_was_ping: bool,
    /// The buffer group of the multishot reader, where there is one.
    pub reader: Option<u16>,
    pub version: Option<NegotiatedVersion>,
}

/// Whether the buffers are within their bounds: a greeting has 64 bytes at most.
pub open spec fn well_formed(h: HandlerModel) -> bool {
    h.greeting.len() <= 64
}

/// The state after a step, the operations so far, and how the call goes on.
pub struct Step {
    pub handler: HandlerModel,
    pub ops: OpsView,
    pub flow: FlowView,
}

/// The time that a handshake may take.
pub open spec fn handshake_time(config: ConfigView) -> Duration {
    match config.handshake_timeout {
        Some(time) => time,
        None => crate::time::seconds(30),
    }
}

/// The time that a PONG may take: twice the heartbeat interval, unless set.
pub open spec fn pong_time(config: ConfigView) -> Duration {
    match config.heartbeat_timeout {
        Some(time) => time,
        None => match config.heartbeat_ivl {
            Some(ivl) => crate::time::doubled(ivl),
            None => crate::time::seconds(30),
        },
    }
}

/// A connection that was just made.
pub open spec fn fresh(fd: i32, config: ConfigView, is_server: bool, now: Instant) -> HandlerModel {
    HandlerModel {
        fd,
        config,
        is_server,
        phase: ZmtpHandlerPhase::Initial,
        greeting: Seq::empty(),
        accumulated: Seq::empty(),
        has_mechanism: false,
        last_activity: now,
        last_ping_sent: None,
        waiting_for_pong: false,
        heartbeat_ivl: config.heartbeat_ivl,
        heartbeat_timeout: pong_time(config),
        outgoing: Seq::empty(),
        outgoing_multipart: Seq::empty(),
        handshake_timeout: handshake_time(config),
        handshake_deadline: crate::time::after(now, handshake_time(config)),
        identity_from_security: None,
        identity_from_ready: None,
        final_identity: None,
        last_sent_was_ping: false,
        reader: None,
        version: None,
    }
}

/// Whether the phase is one that no read or failure leads out of.
pub open spec fn is_final(phase: ZmtpHandlerPhase) -> bool {
    phase == ZmtpHandlerPhase::Error || phase == ZmtpHandlerPhase::Closed
}

/// The connection once it has failed.  A connection fails once at most.
pub open spec fn failed(h: HandlerModel) -> HandlerModel {
    if is_final(h.phase) {
        h
    } else {
        HandlerModel { phase: ZmtpHandlerPhase::Error, ..h }
    }
}

/// The operations once the connection has failed: it is to be closed, and a
/// handshake that is not done is reported.
pub open spec fn failed_ops(h: HandlerModel, ops: OpsView, error: ErrorView) -> OpsView {
    if is_final(h.phase) {
        ops
    } else {
        OpsView {
            blueprints: if ops.blueprints.contains(BlueprintView::Close) {
                ops.blueprints
            } else {
                ops.blueprints.push(BlueprintView::Close)
            },
            close: true,
            notices: if h.phase == ZmtpHandlerPhase::DataPhase {
                ops.notices
            } else {
                ops.notices.push(EventView::Error(error))
            },
        }
    }
}

/// The call ends with an error, and the connection fails.
pub open spec fn fail(h: HandlerModel, ops: OpsView, error: ErrorView) -> Step {
    Step {
        handler: failed(h),
        ops: failed_ops(h, ops, error),
        flow: FlowView::Return(Err(error)),
    }
}

/// The call ends with an error; the connection stays as it is.
pub open spec fn refuse(h: HandlerModel, ops: OpsView, error: ErrorView) -> Step {
    Step { handler: h, ops, flow: FlowView::Return(Err(error)) }
}

/// The call ends.
pub open spec fn done(h: HandlerModel, ops: OpsView, progress: bool) -> Step {
    Step { handler: h, ops, flow: FlowView::Return(Ok(progress)) }
}

/// The call goes on once the question is answered.
pub open spec fn ask(
    h: HandlerModel,
    ops: OpsView,
    stage: Stage,
    pass: Pass,
    request: RequestView,
) -> Step {
    Step { handler: h, ops, flow: FlowView::Ask { stage, pass, request } }
}

/// The call goes on once a frame was looked for in the bytes that have arrived.
pub open spec fn ask_frame(h: HandlerModel, ops: OpsView, stage: Stage, pass: Pass) -> Step {
    ask(
        HandlerModel { accumulated: Seq::empty(), ..h },
        ops,
        stage,
        pass,
        RequestView::ReadFrame(h.accumulated),
    )
}

/// The operations with bytes to send that the connection itself sends.
pub open spec fn with_send(ops: OpsView, data: Seq<u8>) -> OpsView {
    OpsView {
        blueprints: ops.blueprints.push(
            BlueprintView::Send { data, flags: 0, origin: OpOrigin::Handler },
        ),
        ..ops
    }
}

/// A violation of the protocol.
pub open spec fn violation(text: Seq<char>) -> ErrorView {
    ErrorView::ProtocolViolation(text)
}

/// The connection with as many bytes moved to the greeting as it lacks of
/// `target`, and as there are.
pub open spec fn filled(h: HandlerModel, target: int) -> HandlerModel {
    let lacking = target - h.greeting.len();
    let count = if lacking <= 0 {
        0
    } else if lacking <= h.accumulated.len() {
        lacking
    } else {
        h.accumulated.len() as int
    };
    HandlerModel {
        greeting: h.greeting + h.accumulated.take(count),
        accumulated: h.accumulated.skip(count),
        ..h
    }
}

/// The first eleven bytes of the peer tell which tail to send.
#[verifier::opaque]
pub open spec fn peer_revision_step(h: HandlerModel, ops: OpsView, made_progress: bool) -> Step {
    let h = filled(h, 11);
    if h.greeting.len() < 11 {
        done(h, ops, made_progress)
    } else {
        match crate::greeting::peeked_revision(h.greeting.take(11)) {
            Err(error) => fail(h, ops, error),
            Ok(revision) => if revision == 0x01 {
                v2_tail_step(h, ops)
            } else if revision >= 0x03 {
                done(
                    HandlerModel { phase: ZmtpHandlerPhase::SendV3Tail, ..h },
                    with_send(
                        ops,
                        crate::greeting::v3_tail_post_major_bytes(
                            crate::mechanism::mechanism_field(
                                crate::mechanism::proposed_mechanism(h.config, h.is_server),
                            ),
                            h.is_server,
                        ),
                    ),
                    true,
                )
            } else {
                fail(h, ops, unsupported_revision(revision))
            },
        }
    }
}

/// The error for a version that is neither 2.0 nor 3.x.
pub open spec fn unsupported_revision(revision: u8) -> ErrorView {
    violation(
        "Unsupported ZMTP revision "@ + crate::text::hex_text(revision)
            + " (only 0x01 and 0x03+ are supported)"@,
    )
}

/// The error for a peer of version 2.0 where that is not allowed.
pub open spec fn v2_not_allowed() -> ErrorView {
    violation("peer advertised ZMTP/2.0 but allow_zmtp2 is disabled"@)
}

/// The error for a socket type that version 2.0 does not know.
pub open spec fn v2_type_unknown(name: Seq<char>) -> ErrorView {
    violation(
        "no ZMTP/2.0 socket-type byte for socket type "@ + crate::text::quoted_text(name),
    )
}

/// The peer speaks version 2.0: if that is allowed, the socket type is sent.
#[verifier::opaque]
pub open spec fn v2_tail_step(h: HandlerModel, ops: OpsView) -> Step {
    if !h.config.allow_zmtp2 {
        fail(h, ops, v2_not_allowed())
    } else {
        match crate::greeting::code_of_name(h.config.socket_type_name) {
            None => fail(h, ops, v2_type_unknown(h.config.socket_type_name)),
            Some(code) => done(
                HandlerModel {
                    version: Some(NegotiatedVersion::V2),
                    phase: ZmtpHandlerPhase::SendV2Tail,
                    ..h
                },
                with_send(ops, seq![code]),
                true,
            ),
        }
    }
}

/// The whole greeting of a peer of version 3.x leads to the choice of a mechanism.
#[verifier::opaque]
pub open spec fn v3_greeting_step(h: HandlerModel, ops: OpsView, pass: Pass) -> Step {
    let full = filled(h, 64);
    let rest = HandlerModel { greeting: full.greeting.skip(64), ..full };
    if full.greeting.len() < 64 {
        done(full, ops, pass.made_progress)
    } else {
        match crate::greeting::decoded_greeting(full.greeting) {
            Err(error) => fail(rest, ops, error),
            Ok(greeting) => if greeting.as_server == h.is_server {
                fail(rest, ops, ErrorView::SecurityError("Role mismatch in greeting"@))
            } else {
                ask(
                    HandlerModel {
                        version: Some(NegotiatedVersion::V3 { minor: greeting.version.1 }),
                        ..rest
                    },
                    ops,
                    Stage::Negotiated,
                    Pass { progress: true, ..pass },
                    RequestView::Negotiate(greeting),
                )
            },
        }
    }
}

/// The socket type of a peer of version 2.0 is checked, and the empty identity
/// sent.
#[verifier::opaque]
pub open spec fn v2_greeting_step(h: HandlerModel, ops: OpsView, made_progress: bool) -> Step {
    let full = filled(h, 12);
    let rest = HandlerModel { greeting: full.greeting.skip(12), ..full };
    if full.greeting.len() < 12 {
        done(full, ops, made_progress)
    } else {
        match crate::v2_rules::compatibility(h.config.socket_type_name, full.greeting[11]) {
            Err(error) => fail(rest, ops, error),
            Ok(_) => done(
                HandlerModel { phase: ZmtpHandlerPhase::V2SendIdentity, ..rest },
                with_send(ops, seq![0u8, 0u8]),
                true,
            ),
        }
    }
}

/// Whether the handshake has taken longer than it may.
pub open spec fn is_overdue(h: HandlerModel, now: Instant) -> bool {
    &&& now.nanos > h.handshake_deadline.nanos
    &&& h.phase != ZmtpHandlerPhase::DataPhase
    &&& !is_final(h.phase)
}

/// A frame is looked for where any bytes have arrived.
pub open spec fn frame_if_any(h: HandlerModel, ops: OpsView, stage: Stage, pass: Pass) -> Step {
    if h.accumulated.len() == 0 {
        done(h, ops, pass.made_progress)
    } else {
        ask_frame(h, ops, stage, pass)
    }
}

/// A pass through the bytes that have arrived begins.
#[verifier::opaque]
pub open spec fn pass_begun(
    h: HandlerModel,
    ops: OpsView,
    made_progress: bool,
    now: Instant,
) -> Step {
    let pass = Pass {
        made_progress,
        greeting_len: h.greeting.len() as usize,
        accumulator_len: h.accumulated.len() as usize,
        progress: false,
        token_action: false,
    };
    if is_overdue(h, now) {
        fail(h, ops, ErrorView::Timeout)
    } else {
        match h.phase {
            ZmtpHandlerPhase::Initial => fail(
                h,
                ops,
                ErrorView::InvalidState("ZmtpHandler in Initial phase during data processing"@),
            ),
            ZmtpHandlerPhase::WaitPeerRevision => peer_revision_step(h, ops, made_progress),
            ZmtpHandlerPhase::WaitV3Greeting => v3_greeting_step(h, ops, pass),
            ZmtpHandlerPhase::V2GreetingExchange => v2_greeting_step(h, ops, made_progress),
            ZmtpHandlerPhase::V2WaitIdentity => frame_if_any(h, ops, Stage::IdentityFrame, pass),
            ZmtpHandlerPhase::SecurityExchange => if h.has_mechanism {
                ask(h, ops, Stage::SecurityComplete, pass, RequestView::MechanismComplete)
            } else {
                fail(
                    h,
                    ops,
                    ErrorView::InvalidState(
                        "CRITICAL: Security mechanism is None while in SecurityExchange phase."@,
                    ),
                )
            },
            ZmtpHandlerPhase::ReadyServerWaitClient => frame_if_any(
                h,
                ops,
                Stage::ClientReadyFrame,
                pass,
            ),
            ZmtpHandlerPhase::ReadyClientWaitServer => frame_if_any(
                h,
                ops,
                Stage::ServerReadyFrame,
                pass,
            ),
            ZmtpHandlerPhase::DataPhase => ask_frame(h, ops, Stage::DataFrame, pass),
            _ => done(h, ops, made_progress),
        }
    }
}

/// A pass through the bytes ends: where it made progress, another begins.
pub open spec fn pass_ended(h: HandlerModel, ops: OpsView, pass: Pass, now: Instant) -> Step {
    if h.greeting.len() == pass.greeting_len && h.accumulated.len() == pass.accumulator_len
        && !pass.progress {
        done(h, ops, pass.made_progress)
    } else {
        pass_begun(h, ops, pass.made_progress || pass.progress, now)
    }
}

/// The mechanism was chosen.
#[verifier::opaque]
pub open spec fn negotiated(
    h: HandlerModel,
    ops: OpsView,
    pass: Pass,
    result: Result<(), ErrorView>,
    now: Instant,
) -> Step {
    match result {
        Err(error) => refuse(h, ops, error),
        Ok(_) => pass_ended(
            HandlerModel { has_mechanism: true, phase: ZmtpHandlerPhase::SecurityExchange, ..h },
            ops,
            pass,
            now,
        ),
    }
}

/// The identity that the peer is known by: the one it announced, or else the one it
/// proved.
pub open spec fn settled_identity(h: HandlerModel) -> Option<Seq<u8>> {
    if h.identity_from_ready is Some {
        h.identity_from_ready
    } else {
        h.identity_from_security
    }
}

/// The handshake is done: the socket is told.
pub open spec fn signal_complete(h: HandlerModel, ops: OpsView, stage: Stage, pass: Pass) -> Step {
    ask(
        HandlerModel { final_identity: settled_identity(h), ..h },
        ops,
        stage,
        pass,
        RequestView::Deliver(EventView::HandshakeComplete(settled_identity(h))),
    )
}

/// The error where the socket does not take the end of the handshake.
pub open spec fn not_signalled() -> ErrorView {
    ErrorView::Internal("Failed to signal handshake completion"@)
}

/// Whether the socket took the end of the handshake, within a read.
#[verifier::opaque]
pub open spec fn signalled(
    h: HandlerModel,
    ops: OpsView,
    pass: Pass,
    accepted: bool,
    now: Instant,
) -> Step {
    if accepted {
        pass_ended(h, ops, pass, now)
    } else {
        refuse(h, ops, not_signalled())
    }
}

/// The peer's ZMTP/2.0 identity has arrived, or not yet.
#[verifier::opaque]
pub open spec fn identity_frame(
    h: HandlerModel,
    ops: OpsView,
    pass: Pass,
    outcome: Result<Option<MsgView>, ErrorView>,
) -> Step {
    match outcome {
        Err(error) => fail(h, ops, error),
        Ok(None) => done(h, ops, pass.made_progress),
        Ok(Some(msg)) => if msg.flags.command {
            fail(h, ops, violation("ZMTP/2.0 identity frame had COMMAND flag set"@))
        } else if msg.flags.more {
            fail(h, ops, violation("ZMTP/2.0 identity frame had MORE flag set"@))
        } else if msg.body().len() > 255 {
            fail(h, ops, violation("ZMTP/2.0 identity frame exceeded 255 bytes"@))
        } else {
            signal_complete(
                HandlerModel {
                    identity_from_ready: if msg.body().len() > 0 {
                        Some(msg.body())
                    } else {
                        h.identity_from_ready
                    },
                    phase: ZmtpHandlerPhase::DataPhase,
                    ..h
                },
                ops,
                Stage::Signalled,
                Pass { progress: true, ..pass },
            )
        },
    }
}

/// The mechanism has done its work: it makes the framer.
pub open spec fn finish_security(h: HandlerModel, ops: OpsView, pass: Pass) -> Step {
    ask(
        HandlerModel { has_mechanism: false, ..h },
        ops,
        Stage::FramerMade,
        pass,
        RequestView::IntoFramer(h.config.max_msg_size),
    )
}

/// Whether the mechanism had done its work before this pass.
#[verifier::opaque]
pub open spec fn security_complete(h: HandlerModel, ops: OpsView, pass: Pass, yes: bool) -> Step {
    if yes {
        finish_security(h, ops, pass)
    } else {
        ask(h, ops, Stage::FirstToken, pass, RequestView::ProduceToken)
    }
}

/// A token of this end is put on the wire.
pub open spec fn write_token(
    h: HandlerModel,
    ops: OpsView,
    stage: Stage,
    pass: Pass,
    token: Seq<u8>,
) -> Step {
    ask(
        h,
        ops,
        stage,
        pass,
        RequestView::WriteFrames(
            seq![crate::message::frame(token, MsgFlags { more: false, command: true })],
        ),
    )
}

/// A token of the peer is looked for where any bytes have arrived.
pub open spec fn read_peer_token(h: HandlerModel, ops: OpsView, pass: Pass) -> Step {
    if h.accumulated.len() > 0 {
        ask_frame(h, ops, Stage::PeerToken, pass)
    } else {
        ask(h, ops, Stage::CompleteAfter, pass, RequestView::MechanismComplete)
    }
}

/// The mechanism has a token to send, or none.
#[verifier::opaque]
pub open spec fn first_token(
    h: HandlerModel,
    ops: OpsView,
    pass: Pass,
    token: Result<Option<Seq<u8>>, ErrorView>,
) -> Step {
    match token {
        Err(error) => refuse(h, ops, error),
        Ok(Some(token)) => write_token(h, ops, Stage::FirstTokenWritten, pass, token),
        Ok(None) => read_peer_token(h, ops, pass),
    }
}

/// The first token of this end is on the wire.
#[verifier::opaque]
pub open spec fn first_token_written(
    h: HandlerModel,
    ops: OpsView,
    pass: Pass,
    wire: Result<Seq<u8>, ErrorView>,
) -> Step {
    match wire {
        Err(error) => refuse(h, ops, error),
        Ok(data) => read_peer_token(
            h,
            with_send(ops, data),
            Pass { progress: true, token_action: true, ..pass },
        ),
    }
}

/// A token of the peer has arrived, or not yet.
#[verifier::opaque]
pub open spec fn peer_token(
    h: HandlerModel,
    ops: OpsView,
    pass: Pass,
    outcome: Result<Option<MsgView>, ErrorView>,
) -> Step {
    match outcome {
        Err(error) => fail(
            h,
            ops,
            ErrorView::SecurityError(
                "Failed to parse ZMTP frame for security token: "@ + crate::error::description(
                    error,
                ),
            ),
        ),
        Ok(None) => ask(h, ops, Stage::CompleteAfter, pass, RequestView::MechanismComplete),
        Ok(Some(msg)) => if !msg.flags.command {
            fail(h, ops, ErrorView::SecurityError("Expected ZMTP COMMAND for security token"@))
        } else {
            ask(
                h,
                ops,
                Stage::PeerTokenProcessed,
                Pass { progress: true, token_action: true, ..pass },
                RequestView::ProcessToken(msg.body()),
            )
        },
    }
}

/// The mechanism took the token of the peer.
#[verifier::opaque]
pub open spec fn peer_token_processed(
    h: HandlerModel,
    ops: OpsView,
    pass: Pass,
    result: Result<(), ErrorView>,
) -> Step {
    match result {
        Err(error) => refuse(h, ops, error),
        Ok(_) => ask(h, ops, Stage::ResponseToken, pass, RequestView::ProduceToken),
    }
}

/// The mechanism answers the token of the peer, or not.
#[verifier::opaque]
pub open spec fn response_token(
    h: HandlerModel,
    ops: OpsView,
    pass: Pass,
    token: Result<Option<Seq<u8>>, ErrorView>,
) -> Step {
    match token {
        Err(error) => refuse(h, ops, error),
        Ok(Some(token)) => write_token(h, ops, Stage::ResponseWritten, pass, token),
        Ok(None) => ask(h, ops, Stage::CompleteAfter, pass, RequestView::MechanismComplete),
    }
}

/// The answer to the token of the peer is on the wire.
#[verifier::opaque]
pub open spec fn response_written(
    h: HandlerModel,
    ops: OpsView,
    pass: Pass,
    wire: Result<Seq<u8>, ErrorView>,
) -> Step {
    match wire {
        Err(error) => refuse(h, ops, error),
        Ok(data) => ask(
            h,
            with_send(ops, data),
            Stage::CompleteAfter,
            pass,
            RequestView::MechanismComplete,
        ),
    }
}

/// Whether the mechanism has done its work now.
#[verifier::opaque]
pub open spec fn complete_after(h: HandlerModel, ops: OpsView, pass: Pass, yes: bool) -> Step {
    if yes {
        finish_security(h, ops, pass)
    } else {
        ask(h, ops, Stage::FaultAfter, pass, RequestView::MechanismFault)
    }
}

/// Whether the mechanism has failed.
#[verifier::opaque]
pub open spec fn fault_after(
    h: HandlerModel,
    ops: OpsView,
    pass: Pass,
    fault: Option<Option<Seq<char>>>,
    now: Instant,
) -> Step {
    match fault {
        Some(Some(reason)) => fail(h, ops, ErrorView::SecurityError(reason)),
        Some(None) => fail(
            h,
            ops,
            ErrorView::SecurityError("Unknown security error from mechanism"@),
        ),
        None => if !pass.token_action && h.accumulated.len() == 0 {
            done(h, ops, pass.made_progress)
        } else {
            pass_ended(h, ops, pass, now)
        },
    }
}

/// A READY command is put on the wire.
pub open spec fn write_ready(h: HandlerModel, ops: OpsView, stage: Stage, pass: Pass) -> Step {
    ask(
        h,
        ops,
        stage,
        pass,
        RequestView::WriteReady(crate::ready::uring_ready_properties(h.config)),
    )
}

/// The mechanism made the framer: the READY commands come next, the client's first.
#[verifier::opaque]
pub open spec fn framer_made(
    h: HandlerModel,
    ops: OpsView,
    pass: Pass,
    identity: Result<Option<Seq<u8>>, ErrorView>,
    now: Instant,
) -> Step {
    match identity {
        Err(error) => Step {
            handler: failed(h),
            ops: failed_ops(h, ops, error),
            flow: FlowView::Return(
                Err(ErrorView::Internal("Failed to create framer from mechanism"@)),
            ),
        },
        Ok(identity) => {
            let known = HandlerModel {
                identity_from_security: if h.identity_from_security is None {
                    identity
                } else {
                    h.identity_from_security
                },
                phase: if h.is_server {
                    ZmtpHandlerPhase::ReadyServerWaitClient
                } else {
                    ZmtpHandlerPhase::ReadyClientSend
                },
                ..h
            };
            if h.is_server {
                pass_ended(known, ops, Pass { progress: true, ..pass }, now)
            } else {
                write_ready(known, ops, Stage::ClientReadyWritten, pass)
            }
        },
    }
}

/// The client's READY is on the wire.
#[verifier::opaque]
pub open spec fn client_ready_written(
    h: HandlerModel,
    ops: OpsView,
    pass: Pass,
    wire: Result<Seq<u8>, ErrorView>,
    now: Instant,
) -> Step {
    match wire {
        Err(error) => refuse(h, ops, error),
        Ok(data) => pass_ended(h, with_send(ops, data), Pass { progress: true, ..pass }, now),
    }
}

/// The peer's READY has arrived, or not yet.
#[verifier::opaque]
pub open spec fn ready_frame(
    h: HandlerModel,
    ops: OpsView,
    stage: Stage,
    pass: Pass,
    outcome: Result<Option<MsgView>, ErrorView>,
) -> Step {
    match outcome {
        Err(error) => fail(h, ops, error),
        Ok(None) => done(h, ops, pass.made_progress),
        Ok(Some(msg)) => ask(
            h,
            ops,
            stage,
            Pass { progress: true, ..pass },
            RequestView::ParseCommand(msg),
        ),
    }
}

/// The connection once the peer has announced these properties.
pub open spec fn with_announced(
    h: HandlerModel,
    properties: Map<Seq<char>, Seq<u8>>,
) -> HandlerModel {
    HandlerModel {
        identity_from_ready: match crate::ready::property(properties, "Identity"@) {
            Some(id) => Some(id),
            None => h.identity_from_ready,
        },
        ..h
    }
}

/// The client's READY was read: the server's is put on the wire.
#[verifier::opaque]
pub open spec fn client_ready_parsed(
    h: HandlerModel,
    ops: OpsView,
    pass: Pass,
    command: Option<CommandView>,
) -> Step {
    match command {
        Some(CommandView::Ready(properties)) => write_ready(
            with_announced(h, properties),
            ops,
            Stage::ServerReadyWritten,
            pass,
        ),
        _ => fail(h, ops, violation("S: Expected READY from client, got other/unparseable"@)),
    }
}

/// The server's READY is on the wire.
#[verifier::opaque]
pub open spec fn server_ready_written(
    h: HandlerModel,
    ops: OpsView,
    pass: Pass,
    wire: Result<Seq<u8>, ErrorView>,
    now: Instant,
) -> Step {
    match wire {
        Err(error) => refuse(h, ops, error),
        Ok(data) => pass_ended(
            HandlerModel { phase: ZmtpHandlerPhase::ReadyServerSend, ..h },
            with_send(ops, data),
            pass,
            now,
        ),
    }
}

/// The server's READY was read: the client's handshake is done.
#[verifier::opaque]
pub open spec fn server_ready_parsed(
    h: HandlerModel,
    ops: OpsView,
    pass: Pass,
    command: Option<CommandView>,
) -> Step {
    match command {
        Some(CommandView::Ready(properties)) => signal_complete(
            HandlerModel { phase: ZmtpHandlerPhase::DataPhase, ..with_announced(h, properties) },
            ops,
            Stage::Signalled,
            pass,
        ),
        _ => fail(h, ops, violation("C: Expected READY from server, got other/unparseable"@)),
    }
}

/// A frame after the handshake has arrived, or not yet.
#[verifier::opaque]
pub open spec fn data_frame(
    h: HandlerModel,
    ops: OpsView,
    pass: Pass,
    outcome: Result<Option<MsgView>, ErrorView>,
    now: Instant,
) -> Step {
    let active = HandlerModel { last_activity: now, ..h };
    let progress = Pass { progress: true, ..pass };
    match outcome {
        Err(error) => fail(h, ops, error),
        Ok(None) => pass_ended(h, ops, pass, now),
        Ok(Some(msg)) => if msg.flags.command {
            if h.version == Some(NegotiatedVersion::V2) {
                fail(
                    active,
                    ops,
                    violation("received COMMAND-flagged frame on a ZMTP/2.0 session"@),
                )
            } else {
                ask(active, ops, Stage::DataCommand, progress, RequestView::ParseCommand(msg))
            }
        } else {
            ask(
                active,
                ops,
                Stage::DataDelivered,
                progress,
                RequestView::Deliver(EventView::Data(msg)),
            )
        },
    }
}

/// A command after the handshake was read.
#[verifier::opaque]
pub open spec fn data_command(
    h: HandlerModel,
    ops: OpsView,
    pass: Pass,
    command: Option<CommandView>,
) -> Step {
    match command {
        Some(CommandView::Ping(context)) => ask(
            h,
            ops,
            Stage::PongWritten,
            pass,
            RequestView::WritePong(context),
        ),
        Some(CommandView::Pong(_)) => ask_frame(
            HandlerModel { waiting_for_pong: false, last_ping_sent: None, ..h },
            ops,
            Stage::DataFrame,
            pass,
        ),
        Some(CommandView::Error) => fail(h, ops, violation("Peer sent ZMTP ERROR command"@)),
        _ => ask_frame(h, ops, Stage::DataFrame, pass),
    }
}

/// The answer to a PING is on the wire.
#[verifier::opaque]
pub open spec fn pong_written(
    h: HandlerModel,
    ops: OpsView,
    pass: Pass,
    wire: Result<Seq<u8>, ErrorView>,
) -> Step {
    match wire {
        Err(error) => refuse(h, ops, error),
        Ok(data) => ask_frame(h, with_send(ops, data), Stage::DataFrame, pass),
    }
}

/// Whether the socket took a message.
#[verifier::opaque]
pub open spec fn data_delivered(h: HandlerModel, ops: OpsView, pass: Pass, accepted: bool) -> Step {
    if accepted {
        ask_frame(h, ops, Stage::DataFrame, pass)
    } else {
        fail(h, ops, ErrorView::Internal("Upstream channel error for ZMTP data"@))
    }
}

/// A read goes on once the question asked at `stage` is answered.  An answer of
/// another kind than the question ends the call.
pub open spec fn read_resumed(
    h: HandlerModel,
    ops: OpsView,
    stage: Stage,
    pass: Pass,
    reply: ReplyView,
    now: Instant,
) -> Step {
    match reply {
        ReplyView::Done(result) => match stage {
            Stage::Negotiated => negotiated(h, ops, pass, result, now),
            Stage::PeerTokenProcessed => peer_token_processed(h, ops, pass, result),
            _ => done(h, ops, pass.made_progress),
        },
        ReplyView::Frame { outcome, rest } => {
            let h = HandlerModel { accumulated: rest, ..h };
            match stage {
                Stage::IdentityFrame => identity_frame(h, ops, pass, outcome),
                Stage::PeerToken => peer_token(h, ops, pass, outcome),
                Stage::ClientReadyFrame => ready_frame(
                    h,
                    ops,
                    Stage::ClientReadyParsed,
                    pass,
                    outcome,
                ),
                Stage::ServerReadyFrame => ready_frame(
                    h,
                    ops,
                    Stage::ServerReadyParsed,
                    pass,
                    outcome,
                ),
                Stage::DataFrame => data_frame(h, ops, pass, outcome, now),
                _ => done(h, ops, pass.made_progress),
            }
        },
        ReplyView::Yes(yes) => match stage {
            Stage::Signalled => signalled(h, ops, pass, yes, now),
            Stage::SecurityComplete => security_complete(h, ops, pass, yes),
            Stage::CompleteAfter => complete_after(h, ops, pass, yes),
            Stage::DataDelivered => data_delivered(h, ops, pass, yes),
            _ => done(h, ops, pass.made_progress),
        },
        ReplyView::Token(token) => match stage {
            Stage::FirstToken => first_token(h, ops, pass, token),
            Stage::ResponseToken => response_token(h, ops, pass, token),
            _ => done(h, ops, pass.made_progress),
        },
        ReplyView::Fault(fault) => match stage {
            Stage::FaultAfter => fault_after(h, ops, pass, fault, now),
            _ => done(h, ops, pass.made_progress),
        },
        ReplyView::Identity(identity) => match stage {
            Stage::FramerMade => framer_made(h, ops, pass, identity, now),
            _ => done(h, ops, pass.made_progress),
        },
        ReplyView::Wire(wire) => match stage {
            Stage::FirstTokenWritten => first_token_written(h, ops, pass, wire),
            Stage::ResponseWritten => response_written(h, ops, pass, wire),
            Stage::ClientReadyWritten => client_ready_written(h, ops, pass, wire, now),
            Stage::ServerReadyWritten => server_ready_written(h, ops, pass, wire, now),
            Stage::PongWritten => pong_written(h, ops, pass, wire),
            _ => done(h, ops, pass.made_progress),
        },
        ReplyView::Command(command) => match stage {
            Stage::ClientReadyParsed => client_ready_parsed(h, ops, pass, command),
            Stage::ServerReadyParsed => server_ready_parsed(h, ops, pass, command),
            Stage::DataCommand => data_command(h, ops, pass, command),
            _ => done(h, ops, pass.made_progress),
        },
        ReplyView::Intent(_) => done(h, ops, pass.made_progress),
    }
}

} // verus!
