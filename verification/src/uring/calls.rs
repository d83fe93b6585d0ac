//! How each call on a connection on io_uring begins, goes on and ends.

use vstd::prelude::*;

use crate::error::ErrorView;
use crate::greeting::NegotiatedVersion;
use crate::message::{MsgFlags, MsgView};
use crate::options::ConfigView;
use crate::time::Instant;
use crate::uring::model::{HandlerModel, Step, ZC_SEND_THRESHOLD};
use crate::uring::types::{
    AppData, BlueprintView, EventView, FlowView, OpOrigin, OpsView, Pass, QueuedMsgView,
    QueuedPartsView, ReaderNotice, ReplyView, RequestView, Stage, ZmtpHandlerPhase,
};

verus! {

/// The flag that tells the system that more data of the same message follows.
pub const MSG_MORE: i32 = 0x8000;

/// The error number of an operation that found nothing to do.
pub const EAGAIN: i32 = 11;

/// What is remembered where there is nothing to remember.
pub open spec fn no_pass() -> Pass {
    Pass {
        made_progress: false,
        greeting_len: 0,
        accumulator_len: 0,
        progress: false,
        token_action: false,
    }
}

/// The call ends, and the connection fails, but the call itself does not.
pub open spec fn end_failed(h: HandlerModel, ops: OpsView, error: ErrorView) -> Step {
    Step {
        handler: crate::uring::model::failed(h),
        ops: crate::uring::model::failed_ops(h, ops, error),
        flow: FlowView::Return(Ok(false)),
    }
}

/// The call ends without more to do.
pub open spec fn ended(h: HandlerModel, ops: OpsView) -> Step {
    crate::uring::model::done(h, ops, false)
}

/// The connection is up: the signature and the major version are sent.
pub open spec fn connected(
    h: HandlerModel,
    buffer_group: Option<u16>,
    now: Instant,
) -> HandlerModel {
    HandlerModel {
        last_activity: now,
        handshake_deadline: crate::time::after(now, h.handshake_timeout),
        reader: if h.config.use_recv_multishot && buffer_group is Some {
            buffer_group
        } else {
            h.reader
        },
        phase: ZmtpHandlerPhase::SendSignature,
        ..h
    }
}

/// Bytes of the peer have arrived; none at all mean that it closed the connection.
pub open spec fn read_begun(
    h: HandlerModel,
    ops: OpsView,
    data: Seq<u8>,
    now: Instant,
) -> Step {
    let active = HandlerModel { last_activity: now, ..h };
    if data.len() == 0 && !crate::uring::model::is_final(h.phase) {
        let closed = crate::uring::model::failed_ops(active, ops, ErrorView::ConnectionClosed);
        ended(
            crate::uring::model::failed(active),
            if h.phase == ZmtpHandlerPhase::DataPhase {
                OpsView {
                    notices: closed.notices.push(EventView::Error(ErrorView::ConnectionClosed)),
                    ..closed
                }
            } else {
                closed
            },
        )
    } else {
        crate::uring::model::pass_begun(
            HandlerModel { accumulated: h.accumulated + data, ..active },
            ops,
            false,
            now,
        )
    }
}

/// The connection once a call has ended with `result`: an error makes it fail.
pub open spec fn concluded(h: HandlerModel, result: Result<bool, ErrorView>) -> HandlerModel {
    match result {
        Ok(_) => h,
        Err(_) => crate::uring::model::failed(h),
    }
}

/// The operations once a call has ended with `result`.
pub open spec fn concluded_ops(
    h: HandlerModel,
    ops: OpsView,
    result: Result<bool, ErrorView>,
) -> OpsView {
    match result {
        Ok(_) => ops,
        Err(error) => crate::uring::model::failed_ops(h, ops, error),
    }
}

/// The phase that follows the acknowledgement of what was sent.
pub open spec fn acknowledged(phase: ZmtpHandlerPhase) -> ZmtpHandlerPhase {
    match phase {
        ZmtpHandlerPhase::SendSignature => ZmtpHandlerPhase::WaitPeerRevision,
        ZmtpHandlerPhase::SendV3Tail => ZmtpHandlerPhase::WaitV3Greeting,
        ZmtpHandlerPhase::SendV2Tail => ZmtpHandlerPhase::V2GreetingExchange,
        ZmtpHandlerPhase::V2SendIdentity => ZmtpHandlerPhase::V2WaitIdentity,
        ZmtpHandlerPhase::ReadyClientSend => ZmtpHandlerPhase::ReadyClientWaitServer,
        ZmtpHandlerPhase::ReadyServerSend => ZmtpHandlerPhase::DataPhase,
        _ => phase,
    }
}

/// What has arrived meanwhile is read, where anything has.
pub open spec fn read_on(h: HandlerModel, ops: OpsView, now: Instant) -> Step {
    if h.greeting.len() > 0 || h.accumulated.len() > 0 {
        crate::uring::model::pass_begun(h, ops, false, now)
    } else {
        ended(h, ops)
    }
}

/// An operation of the connection has completed with `result`.
pub open spec fn completion_begun(
    h: HandlerModel,
    ops: OpsView,
    result: i32,
    now: Instant,
) -> Step {
    let active = HandlerModel { last_activity: now, ..h };
    let next = HandlerModel { phase: acknowledged(h.phase), ..active };
    if result < 0 && -result != EAGAIN {
        end_failed(active, ops, ErrorView::IoError((-result) as i32))
    } else if h.phase == ZmtpHandlerPhase::ReadyServerSend {
        crate::uring::model::signal_complete(next, ops, Stage::SendSignalled, no_pass())
    } else if h.phase == ZmtpHandlerPhase::DataPhase {
        write_queued(with_ping_acknowledged(active, now), ops)
    } else if next.phase != h.phase {
        read_on(next, ops, now)
    } else {
        ended(active, ops)
    }
}

/// The connection once a PING has left: its PONG is awaited.
pub open spec fn with_ping_acknowledged(h: HandlerModel, now: Instant) -> HandlerModel {
    if h.last_sent_was_ping {
        HandlerModel {
            waiting_for_pong: true,
            last_ping_sent: Some(now),
            last_sent_was_ping: false,
            ..h
        }
    } else {
        h
    }
}

/// The frames that a message of one frame is sent as: REQ and DEALER put an empty
/// frame before it, and it is the last one.
pub open spec fn logical_frames(config: ConfigView, msg: MsgView) -> Seq<MsgView> {
    let payload = MsgView { flags: MsgFlags { more: false, ..msg.flags }, ..msg };
    if config.socket_type_name == "REQ"@ || config.socket_type_name == "DEALER"@ {
        seq![MsgView { data: None, flags: MsgFlags { more: true, command: false } }, payload]
    } else {
        seq![payload]
    }
}

/// The first queued message is put on the wire, where there is one: those of
/// several frames come first.
pub open spec fn write_queued(h: HandlerModel, ops: OpsView) -> Step {
    if h.outgoing_multipart.len() > 0 {
        crate::uring::model::ask(
            h,
            ops,
            Stage::QueuedMultipart,
            no_pass(),
            RequestView::WriteFrames(h.outgoing_multipart[0].parts),
        )
    } else if h.outgoing.len() > 0 {
        crate::uring::model::ask(
            h,
            ops,
            Stage::QueuedSingle,
            no_pass(),
            RequestView::WriteFrames(logical_frames(h.config, h.outgoing[0].msg)),
        )
    } else {
        ended(h, ops)
    }
}

/// The operation that sends these bytes.
pub open spec fn send_blueprint(
    config: ConfigView,
    data: Seq<u8>,
    flags: i32,
    origin: OpOrigin,
) -> BlueprintView {
    if config.use_send_zerocopy && data.len() > ZC_SEND_THRESHOLD {
        BlueprintView::SendZeroCopy { data, flags, origin }
    } else {
        BlueprintView::Send { data, flags, origin }
    }
}

/// The operations with bytes of the application to send, where there are any.
pub open spec fn with_wire_bytes(
    config: ConfigView,
    ops: OpsView,
    data: Seq<u8>,
    origin: OpOrigin,
) -> OpsView {
    if data.len() == 0 {
        ops
    } else {
        OpsView { blueprints: ops.blueprints.push(send_blueprint(config, data, 0, origin)), ..ops }
    }
}

/// The operations that send buffers one after the other: all but the last say that
/// more follows.
pub open spec fn frame_blueprints(
    config: ConfigView,
    frames: Seq<Seq<u8>>,
    origin: OpOrigin,
) -> Seq<BlueprintView> {
    Seq::new(
        frames.len(),
        |i: int|
            send_blueprint(
                config,
                frames[i],
                if i == frames.len() - 1 {
                    0
                } else {
                    MSG_MORE
                },
                origin,
            ),
    )
}

/// The operations with buffers to send one after the other, between the operations
/// that cork the stream where there are several and that is switched on.
pub open spec fn with_wire_frames(
    config: ConfigView,
    ops: OpsView,
    frames: Seq<Seq<u8>>,
    origin: OpOrigin,
) -> OpsView {
    let sends = frame_blueprints(config, frames, origin);
    OpsView {
        blueprints: if frames.len() > 1 && config.use_cork {
            ops.blueprints + seq![BlueprintView::SetCork(true)] + sends + seq![
                BlueprintView::SetCork(false),
            ]
        } else {
            ops.blueprints + sends
        },
        ..ops
    }
}

/// The connection without the first queued message of several frames.
pub open spec fn without_first_parts(h: HandlerModel) -> HandlerModel {
    HandlerModel { outgoing_multipart: h.outgoing_multipart.skip(1), ..h }
}

/// The connection without the first queued message of one frame.
pub open spec fn without_first_msg(h: HandlerModel) -> HandlerModel {
    HandlerModel { outgoing: h.outgoing.skip(1), ..h }
}

/// The first queued message is on the wire: it leaves the queue.  Where it could not
/// be put there, it stays, and the connection fails if `fatal`.
pub open spec fn queued_written(
    h: HandlerModel,
    ops: OpsView,
    stage: Stage,
    wire: Result<Seq<u8>, ErrorView>,
) -> Step {
    let multipart = stage == Stage::QueuedMultipart || stage == Stage::AppMultipart;
    let fatal = stage == Stage::QueuedMultipart || stage == Stage::QueuedSingle;
    match wire {
        Err(error) => if fatal {
            end_failed(h, ops, error)
        } else {
            ended(h, ops)
        },
        Ok(data) => if multipart && h.outgoing_multipart.len() > 0 {
            ended(
                without_first_parts(h),
                with_wire_bytes(h.config, ops, data, OpOrigin::App(h.outgoing_multipart[0].op)),
            )
        } else if !multipart && h.outgoing.len() > 0 {
            ended(
                without_first_msg(h),
                with_wire_bytes(h.config, ops, data, OpOrigin::App(h.outgoing[0].op)),
            )
        } else {
            ended(h, ops)
        },
    }
}

/// Whether the socket took the end of the handshake, after a send.
pub open spec fn send_signalled(
    h: HandlerModel,
    ops: OpsView,
    accepted: bool,
    now: Instant,
) -> Step {
    if accepted {
        read_on(h, ops, now)
    } else {
        end_failed(h, ops, crate::uring::model::not_signalled())
    }
}

/// The worker asks for operations to submit.
pub open spec fn prepare_begun(h: HandlerModel, ops: OpsView, now: Instant) -> Step {
    if crate::uring::model::is_overdue(h, now) {
        end_failed(h, ops, ErrorView::Timeout)
    } else if h.reader is Some {
        crate::uring::model::ask(h, ops, Stage::ReaderStatus, no_pass(), RequestView::ReaderActive)
    } else {
        prepare_data(h, ops, now)
    }
}

/// Whether a read is under way; where none is, one is submitted.
pub open spec fn reader_status(h: HandlerModel, ops: OpsView, active: bool, now: Instant) -> Step {
    if active {
        prepare_data(h, ops, now)
    } else {
        crate::uring::model::ask(h, ops, Stage::ReaderIntent, no_pass(), RequestView::ReadIntent)
    }
}

/// The read to submit is known.
pub open spec fn reader_intent(
    h: HandlerModel,
    ops: OpsView,
    intent: Option<BlueprintView>,
    now: Instant,
) -> Step {
    match intent {
        Some(blueprint) => prepare_data(
            h,
            OpsView { blueprints: ops.blueprints.push(blueprint), ..ops },
            now,
        ),
        None => prepare_data(h, ops, now),
    }
}

/// After the handshake, and where no other operation is to be submitted, the first
/// queued message is put on the wire, or the peer is watched.
pub open spec fn prepare_data(h: HandlerModel, ops: OpsView, now: Instant) -> Step {
    if h.phase == ZmtpHandlerPhase::DataPhase && ops.blueprints.len() == 0 {
        if h.outgoing_multipart.len() > 0 || h.outgoing.len() > 0 {
            write_queued(h, ops)
        } else {
            watch_peer(h, ops, now)
        }
    } else {
        ended(h, ops)
    }
}

/// The context of the PING commands of this end.
pub open spec fn ping_context() -> Seq<u8> {
    seq![0x68u8, 0x62, 0x5f, 0x70, 0x69, 0x6e, 0x67]
}

/// A PONG that takes too long makes the connection fail.  A PING is sent where
/// nothing happened for the heartbeat interval, but never in version 2.0.
pub open spec fn watch_peer(h: HandlerModel, ops: OpsView, now: Instant) -> Step {
    if h.waiting_for_pong {
        match h.last_ping_sent {
            Some(sent) if crate::time::span(sent, now).nanos > h.heartbeat_timeout.nanos =>
                end_failed(h, ops, ErrorView::Timeout),
            _ => ended(h, ops),
        }
    } else {
        match h.heartbeat_ivl {
            Some(ivl) if h.version != Some(NegotiatedVersion::V2) && crate::time::span(
                h.last_activity,
                now,
            ).nanos >= ivl.nanos => crate::uring::model::ask(
                h,
                ops,
                Stage::PingWritten,
                no_pass(),
                RequestView::WritePing { ttl: 0, context: ping_context() },
            ),
            _ => ended(h, ops),
        }
    }
}

/// A PING is on the wire.
pub open spec fn ping_written(
    h: HandlerModel,
    ops: OpsView,
    wire: Result<Seq<u8>, ErrorView>,
) -> Step {
    match wire {
        Err(error) => end_failed(h, ops, error),
        Ok(data) => ended(
            HandlerModel { last_sent_was_ping: true, ..h },
            crate::uring::model::with_send(ops, data),
        ),
    }
}

/// Whether a message can be sent at once: the handshake is done and none waits.
pub open spec fn can_send_now(h: HandlerModel) -> bool {
    &&& h.phase == ZmtpHandlerPhase::DataPhase
    &&& h.outgoing.len() == 0
    &&& h.outgoing_multipart.len() == 0
}

/// The application hands in a message: it is put on the wire at once, where that
/// can be, and waits for its turn otherwise.
pub open spec fn app_data_begun(h: HandlerModel, ops: OpsView, data: AppData, op: u64) -> Step {
    match data {
        AppData::Multipart(parts) => {
            let queued = HandlerModel {
                outgoing_multipart: h.outgoing_multipart.push(
                    QueuedPartsView { parts: crate::message::views(parts@), op },
                ),
                ..h
            };
            if can_send_now(h) {
                crate::uring::model::ask(
                    queued,
                    ops,
                    Stage::AppMultipart,
                    no_pass(),
                    RequestView::WriteFrames(crate::message::views(parts@)),
                )
            } else {
                ended(queued, ops)
            }
        },
        AppData::Single(msg) => {
            let queued = HandlerModel {
                outgoing: h.outgoing.push(QueuedMsgView { msg: msg@, op }),
                ..h
            };
            if can_send_now(h) {
                crate::uring::model::ask(
                    queued,
                    ops,
                    Stage::AppSingle,
                    no_pass(),
                    RequestView::WriteFrames(logical_frames(h.config, msg@)),
                )
            } else {
                ended(queued, ops)
            }
        },
        AppData::Unknown => ended(h, ops),
    }
}

/// A call goes on once the question asked at `stage` is answered.
#[verifier::opaque]
pub open spec fn resumed(
    h: HandlerModel,
    ops: OpsView,
    stage: Stage,
    pass: Pass,
    reply: ReplyView,
    now: Instant,
) -> Step {
    match (stage, reply) {
        (Stage::SendSignalled, ReplyView::Yes(yes)) => send_signalled(h, ops, yes, now),
        (Stage::QueuedMultipart, ReplyView::Wire(wire)) => queued_written(h, ops, stage, wire),
        (Stage::QueuedSingle, ReplyView::Wire(wire)) => queued_written(h, ops, stage, wire),
        (Stage::AppMultipart, ReplyView::Wire(wire)) => queued_written(h, ops, stage, wire),
        (Stage::AppSingle, ReplyView::Wire(wire)) => queued_written(h, ops, stage, wire),
        (Stage::ReaderStatus, ReplyView::Yes(yes)) => reader_status(h, ops, yes, now),
        (Stage::ReaderIntent, ReplyView::Intent(intent)) => reader_intent(h, ops, intent, now),
        (Stage::PingWritten, ReplyView::Wire(wire)) => ping_written(h, ops, wire),
        _ => crate::uring::model::read_resumed(h, ops, stage, pass, reply, now),
    }
}

/// The connection once its end was asked for.
pub open spec fn closing(h: HandlerModel) -> HandlerModel {
    if h.phase == ZmtpHandlerPhase::Closing || crate::uring::model::is_final(h.phase) {
        h
    } else {
        HandlerModel {
            phase: ZmtpHandlerPhase::Closing,
            outgoing: Seq::empty(),
            outgoing_multipart: Seq::empty(),
            ..h
        }
    }
}

/// What the multishot reader is to be told of a submission: nothing where there is
/// no reader, or where a cancellation has no target.
pub open spec fn reader_notice(
    h: HandlerModel,
    op: u64,
    is_cancel: bool,
    target: Option<u64>,
) -> Option<ReaderNotice> {
    if h.reader is None {
        None
    } else if !is_cancel {
        Some(ReaderNotice::OperationSubmitted { op })
    } else {
        match target {
            Some(target) => Some(ReaderNotice::CancellationSubmitted { op, target }),
            None => None,
        }
    }
}

} // verus!
