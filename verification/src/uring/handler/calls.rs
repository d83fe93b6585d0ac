//! The calls on a connection that runs on io_uring.

use bytes::{Bytes, BytesMut};
use vstd::prelude::*;

use crate::buffer::{put_slice, put_u8};
use crate::error::ZmqError;
use crate::greeting::{encode_signature, NegotiatedVersion, GREETING_VERSION_MAJOR_BYTE};
use crate::message::{copy_frames, Msg, MsgFlags};
use crate::time::Instant;
use crate::uring::handler::{internal_send, ZmtpUringHandler};
use crate::uring::model::{HandlerModel, ZC_SEND_THRESHOLD};
use crate::uring::types::{
    AppData, Flow, HandlerIoOps, HandlerSqeBlueprint, HandlerUpstreamEvent, OpOrigin, Pass,
    QueuedMsg, QueuedParts, ReaderNotice, Reply, Request, Stage, ZmtpHandlerPhase,
};

verus! {

/// `libc::MSG_MORE` on Linux is the flag that tells the system that more data of
/// the same message follows.
#[verifier::external_body]
fn msg_more() -> (flag: i32)
    ensures
        flag == crate::uring::calls::MSG_MORE,
{
    libc::MSG_MORE
}

/// `libc::EAGAIN` on Linux is the error number of an operation that found nothing
/// to do; `libc::EWOULDBLOCK` is the same number.
#[verifier::external_body]
fn eagain() -> (errno: i32)
    ensures
        errno == crate::uring::calls::EAGAIN,
{
    libc::EAGAIN
}

fn no_pass() -> (pass: Pass)
    ensures
        pass == crate::uring::calls::no_pass(),
{
    Pass {
        made_progress: false,
        greeting_len: 0,
        accumulator_len: 0,
        progress: false,
        token_action: false,
    }
}

/// The first of the items, seen through its view, and the views of the others.
proof fn lemma_views_skip<T: View>(items: Seq<T>)
    requires
        items.len() > 0,
    ensures
        crate::message::views(items)[0] == items[0]@,
        crate::message::views(items.skip(1)) == crate::message::views(items).skip(1),
        items.skip(1) == items.subrange(1, items.len() as int),
{
    assert(crate::message::views(items.skip(1)) =~= crate::message::views(items).skip(1));
    assert(items.skip(1) =~= items.subrange(1, items.len() as int));
}

impl ZmtpUringHandler {
    /// The frames that a message of one frame is sent as: REQ and DEALER put an
    /// empty frame before it.
    pub fn prepare_logical_frames_for_app_msg(&self, app_msg: Msg) -> (frames: Vec<Msg>)
        ensures
            crate::message::views(frames@) == crate::uring::calls::logical_frames(
                self@.config,
                app_msg@,
            ),
    {
        let mut frames: Vec<Msg> = Vec::new();
        let name = self.zmtp_config.socket_type_name.as_str();
        if crate::text::same_text(name, "REQ") || crate::text::same_text(name, "DEALER") {
            frames.push(Msg::new().with_flags(MsgFlags::with_more()));
        }
        let flags = app_msg.flags();
        let payload = app_msg.with_flags(MsgFlags { more: false, command: flags.command });
        frames.push(payload);
        assert(crate::message::views(frames@) =~= crate::uring::calls::logical_frames(
            self@.config,
            app_msg@,
        ));
        frames
    }

    /// The operation that sends these bytes.
    fn send_blueprint(&self, data: Bytes, send_op_flags: i32, origin: OpOrigin) -> (blueprint:
        HandlerSqeBlueprint)
        ensures
            blueprint@ == crate::uring::calls::send_blueprint(
                self@.config,
                crate::buffer::frozen(data),
                send_op_flags,
                origin,
            ),
    {
        if self.zmtp_config.use_send_zerocopy && data.len() > ZC_SEND_THRESHOLD {
            HandlerSqeBlueprint::RequestSendZeroCopy { data_to_send: data, send_op_flags, origin }
        } else {
            HandlerSqeBlueprint::RequestSend { data, send_op_flags, origin }
        }
    }

    /// Adds the operation that sends these bytes, where there are any.
    pub fn add_send_blueprints_for_wire_bytes(
        &self,
        final_wire_bytes: Bytes,
        origin: OpOrigin,
        ops: &mut HandlerIoOps,
    )
        ensures
            final(ops)@ == crate::uring::calls::with_wire_bytes(
                self@.config,
                old(ops)@,
                crate::buffer::frozen(final_wire_bytes),
                origin,
            ),
    {
        if final_wire_bytes.is_empty() {
            return ;
        }
        ops.push(self.send_blueprint(final_wire_bytes, 0, origin));
    }

    /// Adds the operations that send buffers one after the other, between the
    /// operations that cork the stream where there are several and that is switched
    /// on.
    pub fn add_send_blueprints_for_wire_frames(
        &self,
        final_wire_frames: Vec<Bytes>,
        origin: OpOrigin,
        ops: &mut HandlerIoOps,
    )
        ensures
            final(ops)@ == crate::uring::calls::with_wire_frames(
                self@.config,
                old(ops)@,
                crate::uring::types::frozen_all(final_wire_frames@),
                origin,
            ),
    {
        let ghost frames = crate::uring::types::frozen_all(final_wire_frames@);
        let ghost sends = crate::uring::calls::frame_blueprints(self@.config, frames, origin);
        let count: usize = final_wire_frames.len();
        let should_cork = count > 1 && self.zmtp_config.use_cork;
        if should_cork {
            ops.push(HandlerSqeBlueprint::RequestSetCork(true));
        }
        let ghost start = ops@;
        let mut idx: usize = 0;
        let mut waiting = final_wire_frames;
        while idx < count
            invariant
                0 <= idx <= count,
                count == frames.len(),
                waiting@.len() == count - idx,
                forall|k: int| 0 <= k < waiting@.len() ==> crate::buffer::frozen(waiting@[k])
                    == frames[k + idx],
                sends == crate::uring::calls::frame_blueprints(self@.config, frames, origin),
                ops@ == (crate::uring::types::OpsView {
                    blueprints: start.blueprints + sends.take(idx as int),
                    ..start
                }),
            decreases count - idx,
        {
            let data = waiting.remove(0);
            let send_op_flags: i32 = if idx == count - 1 {
                0
            } else {
                msg_more()
            };
            ops.push(self.send_blueprint(data, send_op_flags, origin));
            assert(start.blueprints + sends.take(idx as int + 1) =~= (start.blueprints + sends.take(
                idx as int,
            )).push(sends[idx as int]));
            idx = idx + 1;
        }
        assert(sends.take(count as int) =~= sends);
        if should_cork {
            ops.push(HandlerSqeBlueprint::RequestSetCork(false));
        }
        assert(ops@ =~~= crate::uring::calls::with_wire_frames(
            self@.config,
            old(ops)@,
            frames,
            origin,
        ));
    }

    /// The connection is up: the signature and the major version are sent, whatever
    /// the peer's version.  Where the system fills buffers by itself, `buffer_group`
    /// names the group they come from.
    pub fn connection_ready(&mut self, buffer_group: Option<u16>, now: Instant) -> (ops:
        HandlerIoOps)
        requires
            old(self).well_formed(),
            crate::time::in_range(now, old(self)@.handshake_timeout),
        ensures
            final(self).well_formed(),
            final(self)@ == crate::uring::calls::connected(old(self)@, buffer_group, now),
            ops@ == crate::uring::model::with_send(
                crate::uring::types::no_ops(),
                crate::greeting::prelude_bytes(),
            ),
    {
        self.last_activity_time = now;
        self.handshake_timeout_deadline = now.plus(self.handshake_timeout);
        let mut ops = HandlerIoOps::new();
        if self.zmtp_config.use_recv_multishot {
            if buffer_group.is_some() {
                self.multishot_reader = buffer_group;
            }
        }
        let mut prelude = BytesMut::new();
        encode_signature(&mut prelude);
        put_u8(&mut prelude, GREETING_VERSION_MAJOR_BYTE);
        assert(crate::buffer::contents(prelude) =~= crate::greeting::prelude_bytes());
        ops.push(internal_send(prelude.freeze()));
        self.phase = ZmtpHandlerPhase::SendSignature;
        ops
    }

    /// The call ends and the connection fails.
    fn end_failed(&mut self, ops: &mut HandlerIoOps, error: ZmqError) -> (flow: Flow)
        ensures
            ({
                let step = crate::uring::calls::end_failed(old(self)@, old(ops)@, error@);
                &&& final(self)@ == step.handler
                &&& final(ops)@ == step.ops
                &&& flow@ == step.flow
            }),
    {
        self.transition_to_error(ops, error);
        Flow::Return(Ok(false))
    }

    /// Bytes of the peer have arrived; none at all mean that it closed the connection.
    pub fn begin_ring_read(
        &mut self,
        ops: &mut HandlerIoOps,
        buffer_slice: &[u8],
        now: Instant,
    ) -> (flow: Flow)
        requires
            old(self).well_formed(),
            crate::buffer::has_room(old(self)@.accumulated, buffer_slice@.len() as int),
        ensures
            final(self).well_formed(),
            ({
                let step = crate::uring::calls::read_begun(
                    old(self)@,
                    old(ops)@,
                    buffer_slice@,
                    now,
                );
                &&& final(self)@ == step.handler
                &&& final(ops)@ == step.ops
                &&& flow@ == step.flow
            }),
    {
        self.last_activity_time = now;
        if buffer_slice.len() == 0 && self.phase != ZmtpHandlerPhase::Closed && self.phase
            != ZmtpHandlerPhase::Error {
            let in_data_phase = self.phase == ZmtpHandlerPhase::DataPhase;
            self.transition_to_error(ops, ZmqError::ConnectionClosed);
            if in_data_phase {
                ops.notify(HandlerUpstreamEvent::Error(ZmqError::ConnectionClosed));
            }
            return Flow::Return(Ok(false));
        }
        if buffer_slice.len() > 0 {
            put_slice(&mut self.network_read_accumulator, buffer_slice);
        } else {
            assert(old(self)@.accumulated + buffer_slice@ =~= old(self)@.accumulated);
        }
        assert(self@ =~= (HandlerModel {
            accumulated: old(self)@.accumulated + buffer_slice@,
            last_activity: now,
            ..old(self)@
        }));
        self.pass_begun(ops, false, now)
    }

    /// Reads what has arrived meanwhile, where anything has.
    fn read_on(&mut self, ops: &mut HandlerIoOps, now: Instant) -> (flow: Flow)
        requires
            old(self).well_formed(),
        ensures
            final(self).well_formed(),
            ({
                let step = crate::uring::calls::read_on(old(self)@, old(ops)@, now);
                &&& final(self)@ == step.handler
                &&& final(ops)@ == step.ops
                &&& flow@ == step.flow
            }),
    {
        if !self.greeting_buffer.is_empty() || !self.network_read_accumulator.is_empty() {
            self.pass_begun(ops, false, now)
        } else {
            Flow::Return(Ok(false))
        }
    }

    /// Puts the first queued message on the wire, where there is one.
    fn write_queued(&mut self, ops: &mut HandlerIoOps) -> (flow: Flow)
        requires
            old(self).well_formed(),
        ensures
            final(self).well_formed(),
            ({
                let step = crate::uring::calls::write_queued(old(self)@, old(ops)@);
                &&& final(self)@ == step.handler
                &&& final(ops)@ == step.ops
                &&& flow@ == step.flow
            }),
    {
        if self.outgoing_multipart_app_messages.len() > 0 {
            let frames = copy_frames(&self.outgoing_multipart_app_messages[0].parts);
            proof {
                lemma_views_skip(self.outgoing_multipart_app_messages@);
            }
            Flow::Ask {
                stage: Stage::QueuedMultipart,
                pass: no_pass(),
                request: Request::WriteFrames(frames),
            }
        } else if self.outgoing_app_messages.len() > 0 {
            let msg = self.outgoing_app_messages[0].msg.clone();
            proof {
                lemma_views_skip(self.outgoing_app_messages@);
            }
            let frames = self.prepare_logical_frames_for_app_msg(msg);
            Flow::Ask {
                stage: Stage::QueuedSingle,
                pass: no_pass(),
                request: Request::WriteFrames(frames),
            }
        } else {
            Flow::Return(Ok(false))
        }
    }

    /// An operation that the connection asked for has completed with `cqe_result`.
    pub fn begin_completion(
        &mut self,
        ops: &mut HandlerIoOps,
        cqe_result: i32,
        now: Instant,
    ) -> (flow: Flow)
        requires
            old(self).well_formed(),
            cqe_result > i32::MIN,
        ensures
            final(self).well_formed(),
            ({
                let step = crate::uring::calls::completion_begun(
                    old(self)@,
                    old(ops)@,
                    cqe_result,
                    now,
                );
                &&& final(self)@ == step.handler
                &&& final(ops)@ == step.ops
                &&& flow@ == step.flow
            }),
    {
        self.last_activity_time = now;
        if cqe_result < 0 {
            let errno: i32 = -cqe_result;
            if errno != eagain() {
                return self.end_failed(ops, ZmqError::IoError { errno });
            }
        }
        match self.phase {
            ZmtpHandlerPhase::SendSignature => {
                self.phase = ZmtpHandlerPhase::WaitPeerRevision;
                self.read_on(ops, now)
            },
            ZmtpHandlerPhase::SendV3Tail => {
                self.phase = ZmtpHandlerPhase::WaitV3Greeting;
                self.read_on(ops, now)
            },
            ZmtpHandlerPhase::SendV2Tail => {
                self.phase = ZmtpHandlerPhase::V2GreetingExchange;
                self.read_on(ops, now)
            },
            ZmtpHandlerPhase::V2SendIdentity => {
                self.phase = ZmtpHandlerPhase::V2WaitIdentity;
                self.read_on(ops, now)
            },
            ZmtpHandlerPhase::ReadyClientSend => {
                self.phase = ZmtpHandlerPhase::ReadyClientWaitServer;
                self.read_on(ops, now)
            },
            ZmtpHandlerPhase::ReadyServerSend => {
                self.phase = ZmtpHandlerPhase::DataPhase;
                self.signal_upstream_handshake_complete(ops, Stage::SendSignalled, no_pass())
            },
            ZmtpHandlerPhase::DataPhase => {
                if self.last_sent_was_ping {
                    self.waiting_for_pong = true;
                    self.last_ping_sent_time = Some(now);
                    self.last_sent_was_ping = false;
                }
                self.write_queued(ops)
            },
            _ => Flow::Return(Ok(false)),
        }
    }

    /// The first queued message is on the wire, or could not be put there.
    fn queued_written(
        &mut self,
        ops: &mut HandlerIoOps,
        stage: Stage,
        wire: Result<Bytes, ZmqError>,
    ) -> (flow: Flow)
        requires
            old(self).well_formed(),
        ensures
            final(self).well_formed(),
            ({
                let step = crate::uring::calls::queued_written(
                    old(self)@,
                    old(ops)@,
                    stage,
                    crate::uring::types::wire_view(wire),
                );
                &&& final(self)@ == step.handler
                &&& final(ops)@ == step.ops
                &&& flow@ == step.flow
            }),
    {
        let multipart = stage == Stage::QueuedMultipart || stage == Stage::AppMultipart;
        match wire {
            Err(error) => {
                if stage == Stage::QueuedMultipart || stage == Stage::QueuedSingle {
                    self.end_failed(ops, error)
                } else {
                    Flow::Return(Ok(false))
                }
            },
            Ok(data) => {
                if multipart {
                    if self.outgoing_multipart_app_messages.len() > 0 {
                        proof {
                            lemma_views_skip(self.outgoing_multipart_app_messages@);
                        }
                        let op: u64 = self.outgoing_multipart_app_messages[0].op;
                        let _ = self.outgoing_multipart_app_messages.pop_front();
                        self.add_send_blueprints_for_wire_bytes(data, OpOrigin::App(op), ops);
                    }
                } else {
                    if self.outgoing_app_messages.len() > 0 {
                        proof {
                            lemma_views_skip(self.outgoing_app_messages@);
                        }
                        let op: u64 = self.outgoing_app_messages[0].op;
                        let _ = self.outgoing_app_messages.pop_front();
                        self.add_send_blueprints_for_wire_bytes(data, OpOrigin::App(op), ops);
                    }
                }
                Flow::Return(Ok(false))
            },
        }
    }

    /// Whether the socket took the end of the handshake, after a send.
    fn send_signalled(
        &mut self,
        ops: &mut HandlerIoOps,
        accepted: bool,
        now: Instant,
    ) -> (flow: Flow)
        requires
            old(self).well_formed(),
        ensures
            final(self).well_formed(),
            ({
                let step = crate::uring::calls::send_signalled(
                    old(self)@,
                    old(ops)@,
                    accepted,
                    now,
                );
                &&& final(self)@ == step.handler
                &&& final(ops)@ == step.ops
                &&& flow@ == step.flow
            }),
    {
        if accepted {
            self.read_on(ops, now)
        } else {
            self.end_failed(
                ops,
                ZmqError::Internal("Failed to signal handshake completion".to_string()),
            )
        }
    }

    /// The worker asks for operations to submit.
    pub fn begin_prepare(&mut self, ops: &mut HandlerIoOps, now: Instant) -> (flow: Flow)
        requires
            old(self).well_formed(),
        ensures
            final(self).well_formed(),
            ({
                let step = crate::uring::calls::prepare_begun(old(self)@, old(ops)@, now);
                &&& final(self)@ == step.handler
                &&& final(ops)@ == step.ops
                &&& flow@ == step.flow
            }),
    {
        if self.is_overdue(now) {
            return self.end_failed(ops, ZmqError::Timeout);
        }
        if self.multishot_reader.is_some() {
            Flow::Ask { stage: Stage::ReaderStatus, pass: no_pass(), request: Request::ReaderActive }
        } else {
            self.prepare_data(ops, now)
        }
    }

    /// Whether a read is under way; where none is, one is submitted.
    fn reader_status(&mut self, ops: &mut HandlerIoOps, active: bool, now: Instant) -> (flow: Flow)
        requires
            old(self).well_formed(),
        ensures
            final(self).well_formed(),
            ({
                let step = crate::uring::calls::reader_status(old(self)@, old(ops)@, active, now);
                &&& final(self)@ == step.handler
                &&& final(ops)@ == step.ops
                &&& flow@ == step.flow
            }),
    {
        if active {
            self.prepare_data(ops, now)
        } else {
            Flow::Ask { stage: Stage::ReaderIntent, pass: no_pass(), request: Request::ReadIntent }
        }
    }

    /// The read to submit is known.
    fn reader_intent(
        &mut self,
        ops: &mut HandlerIoOps,
        intent: Option<HandlerSqeBlueprint>,
        now: Instant,
    ) -> (flow: Flow)
        requires
            old(self).well_formed(),
        ensures
            final(self).well_formed(),
            ({
                let step = crate::uring::calls::reader_intent(
                    old(self)@,
                    old(ops)@,
                    crate::message::option_view(intent),
                    now,
                );
                &&& final(self)@ == step.handler
                &&& final(ops)@ == step.ops
                &&& flow@ == step.flow
            }),
    {
        if let Some(blueprint) = intent {
            ops.push(blueprint);
        }
        self.prepare_data(ops, now)
    }

    /// Puts the first queued message on the wire, or watches the peer.
    fn prepare_data(&mut self, ops: &mut HandlerIoOps, now: Instant) -> (flow: Flow)
        requires
            old(self).well_formed(),
        ensures
            final(self).well_formed(),
            ({
                let step = crate::uring::calls::prepare_data(old(self)@, old(ops)@, now);
                &&& final(self)@ == step.handler
                &&& final(ops)@ == step.ops
                &&& flow@ == step.flow
            }),
    {
        if self.phase == ZmtpHandlerPhase::DataPhase && ops.sqe_blueprints.len() == 0 {
            if self.outgoing_multipart_app_messages.len() > 0 || self.outgoing_app_messages.len() > 0 {
                self.write_queued(ops)
            } else {
                self.watch_peer(ops, now)
            }
        } else {
            Flow::Return(Ok(false))
        }
    }

    /// Fails where a PONG takes too long, and sends a PING where nothing happened for long.
    fn watch_peer(&mut self, ops: &mut HandlerIoOps, now: Instant) -> (flow: Flow)
        requires
            old(self).well_formed(),
        ensures
            final(self).well_formed(),
            ({
                let step = crate::uring::calls::watch_peer(old(self)@, old(ops)@, now);
                &&& final(self)@ == step.handler
                &&& final(ops)@ == step.ops
                &&& flow@ == step.flow
            }),
    {
        if self.waiting_for_pong {
            if let Some(sent) = self.last_ping_sent_time {
                if now.duration_since(sent).nanos > self.heartbeat_timeout_duration.nanos {
                    return self.end_failed(ops, ZmqError::Timeout);
                }
            }
            return Flow::Return(Ok(false));
        }
        if let Some(ivl) = self.heartbeat_ivl {
            let is_v2 = match self.negotiated_version {
                Some(NegotiatedVersion::V2) => true,
                _ => false,
            };
            if !is_v2 && now.duration_since(self.last_activity_time).nanos >= ivl.nanos {
                let mut context: Vec<u8> = Vec::new();
                context.push(0x68);
                context.push(0x62);
                context.push(0x5f);
                context.push(0x70);
                context.push(0x69);
                context.push(0x6e);
                context.push(0x67);
                assert(context@ =~= crate::uring::calls::ping_context());
                return Flow::Ask {
                    stage: Stage::PingWritten,
                    pass: no_pass(),
                    request: Request::WritePing { ttl: 0, context },
                };
            }
        }
        Flow::Return(Ok(false))
    }

    /// A PING is on the wire, or could not be put there.
    fn ping_written(
        &mut self,
        ops: &mut HandlerIoOps,
        wire: Result<Bytes, ZmqError>,
    ) -> (flow: Flow)
        requires
            old(self).well_formed(),
        ensures
            final(self).well_formed(),
            ({
                let step = crate::uring::calls::ping_written(
                    old(self)@,
                    old(ops)@,
                    crate::uring::types::wire_view(wire),
                );
                &&& final(self)@ == step.handler
                &&& final(ops)@ == step.ops
                &&& flow@ == step.flow
            }),
    {
        match wire {
            Err(error) => self.end_failed(ops, error),
            Ok(data) => {
                ops.push(internal_send(data));
                self.last_sent_was_ping = true;
                Flow::Return(Ok(false))
            },
        }
    }

    /// The application hands in a message, in the operation with this number: it is put
    /// on the wire at once, where that can be, and waits for its turn otherwise.
    pub fn begin_app_data(&mut self, ops: &mut HandlerIoOps, data: AppData, op: u64) -> (flow: Flow)
        requires
            old(self).well_formed(),
        ensures
            final(self).well_formed(),
            ({
                let step = crate::uring::calls::app_data_begun(old(self)@, old(ops)@, data, op);
                &&& final(self)@ == step.handler
                &&& final(ops)@ == step.ops
                &&& flow@ == step.flow
            }),
    {
        broadcast use crate::message::lemma_views_push;

        let can_send_now = self.phase == ZmtpHandlerPhase::DataPhase
            && self.outgoing_app_messages.len() == 0 && self.outgoing_multipart_app_messages.len() == 0;
        match data {
            AppData::Multipart(parts) => {
                let frames = copy_frames(&parts);
                self.outgoing_multipart_app_messages.push_back(QueuedParts { parts, op });
                if can_send_now {
                    Flow::Ask {
                        stage: Stage::AppMultipart,
                        pass: no_pass(),
                        request: Request::WriteFrames(frames),
                    }
                } else {
                    Flow::Return(Ok(false))
                }
            },
            AppData::Single(msg) => {
                let frames = self.prepare_logical_frames_for_app_msg(msg.clone());
                self.outgoing_app_messages.push_back(QueuedMsg { msg, op });
                if can_send_now {
                    Flow::Ask {
                        stage: Stage::AppSingle,
                        pass: no_pass(),
                        request: Request::WriteFrames(frames),
                    }
                } else {
                    Flow::Return(Ok(false))
                }
            },
            AppData::Unknown => Flow::Return(Ok(false)),
        }
    }

    /// Goes on with a call once the question asked at `stage` is answered.
    pub fn resume(
        &mut self,
        ops: &mut HandlerIoOps,
        stage: Stage,
        pass: Pass,
        reply: Reply,
        now: Instant,
    ) -> (flow: Flow)
        requires
            old(self).well_formed(),
        ensures
            final(self).well_formed(),
            ({
                let step = crate::uring::calls::resumed(
                    old(self)@,
                    old(ops)@,
                    stage,
                    pass,
                    reply@,
                    now,
                );
                &&& final(self)@ == step.handler
                &&& final(ops)@ == step.ops
                &&& flow@ == step.flow
            }),
    {
        proof {
            reveal(crate::uring::calls::resumed);
        }
        match (stage, reply) {
            (Stage::SendSignalled, Reply::Yes(yes)) => self.send_signalled(ops, yes, now),
            (Stage::QueuedMultipart, Reply::Wire(wire)) => self.queued_written(ops, stage, wire),
            (Stage::QueuedSingle, Reply::Wire(wire)) => self.queued_written(ops, stage, wire),
            (Stage::AppMultipart, Reply::Wire(wire)) => self.queued_written(ops, stage, wire),
            (Stage::AppSingle, Reply::Wire(wire)) => self.queued_written(ops, stage, wire),
            (Stage::ReaderStatus, Reply::Yes(yes)) => self.reader_status(ops, yes, now),
            (Stage::ReaderIntent, Reply::Intent(intent)) => self.reader_intent(ops, intent, now),
            (Stage::PingWritten, Reply::Wire(wire)) => self.ping_written(ops, wire),
            (_, reply) => self.resume_read(ops, stage, pass, reply, now),
        }
    }

    /// Concludes a call that has ended with `result`: an error makes the connection
    /// fail.
    pub fn conclude(&mut self, ops: &mut HandlerIoOps, result: Result<bool, ZmqError>)
        requires
            old(self).well_formed(),
        ensures
            final(self).well_formed(),
            final(self)@ == crate::uring::calls::concluded(
                old(self)@,
                crate::error::result_view(result),
            ),
            final(ops)@ == crate::uring::calls::concluded_ops(
                old(self)@,
                old(ops)@,
                crate::error::result_view(result),
            ),
    {
        if let Err(error) = result {
            self.transition_to_error(ops, error);
        }
    }

    /// The descriptor of the connection.
    pub fn fd(&self) -> (fd: i32)
        ensures
            fd == self@.fd,
    {
        self.fd
    }

    /// Where the connection stands.
    pub fn phase(&self) -> (phase: ZmtpHandlerPhase)
        ensures
            phase == self@.phase,
    {
        self.phase
    }

    /// The version that the two ends settled on, once they have.
    pub fn negotiated_version(&self) -> (version: Option<NegotiatedVersion>)
        ensures
            version == self@.version,
    {
        self.negotiated_version
    }

    /// How many bytes have arrived that were not yet used.
    pub fn buffered_len(&self) -> (n: usize)
        ensures
            n == self@.accumulated.len(),
    {
        self.network_read_accumulator.len()
    }

    /// How many messages wait for their turn.
    pub fn queued_len(&self) -> (n: (usize, usize))
        ensures
            n.0 == self@.outgoing.len(),
            n.1 == self@.outgoing_multipart.len(),
    {
        (self.outgoing_app_messages.len(), self.outgoing_multipart_app_messages.len())
    }

    /// The time that the handshake may take.
    pub fn handshake_timeout(&self) -> (time: crate::time::Duration)
        ensures
            time == self@.handshake_timeout,
    {
        self.handshake_timeout
    }

    /// The buffer group of the multishot reader, where there is one.
    pub fn reader(&self) -> (group: Option<u16>)
        ensures
            group == self@.reader,
    {
        self.multishot_reader
    }

    /// Whether the connection is at its end.
    pub fn is_closing_or_closed(&self) -> (yes: bool)
        ensures
            yes == (self@.phase == ZmtpHandlerPhase::Closing || crate::uring::model::is_final(
                self@.phase,
            )),
    {
        self.phase == ZmtpHandlerPhase::Closing || self.phase == ZmtpHandlerPhase::Closed
            || self.phase == ZmtpHandlerPhase::Error
    }

    /// The end of the connection was asked for: queued messages are dropped, and the
    /// worker closes the descriptor.
    pub fn close_initiated(&mut self) -> (ops: HandlerIoOps)
        requires
            old(self).well_formed(),
        ensures
            final(self).well_formed(),
            final(self)@ == crate::uring::calls::closing(old(self)@),
            ops@ == crate::uring::types::no_ops(),
    {
        if self.is_closing_or_closed() {
            return HandlerIoOps::new();
        }
        self.phase = ZmtpHandlerPhase::Closing;
        self.outgoing_app_messages.clear();
        self.outgoing_multipart_app_messages.clear();
        assert(self@ =~= crate::uring::calls::closing(old(self)@));
        HandlerIoOps::new()
    }

    /// The descriptor was closed.
    pub fn fd_has_been_closed(&mut self)
        requires
            old(self).well_formed(),
        ensures
            final(self).well_formed(),
            final(self)@ == (HandlerModel { phase: ZmtpHandlerPhase::Closed, ..old(self)@ }),
    {
        self.phase = ZmtpHandlerPhase::Closed;
    }

    /// Lends the multishot reader out for a completion, where there is one and the
    /// completion is its own.
    pub fn lend_reader(&mut self, matches_completion: bool) -> (group: Option<u16>)
        requires
            old(self).well_formed(),
        ensures
            final(self).well_formed(),
            group == if matches_completion {
                old(self)@.reader
            } else {
                None
            },
            final(self)@ == (HandlerModel {
                reader: if matches_completion {
                    None
                } else {
                    old(self)@.reader
                },
                ..old(self)@
            }),
    {
        if matches_completion {
            self.multishot_reader.take()
        } else {
            None
        }
    }

    /// Takes the multishot reader back.
    pub fn return_reader(&mut self, group: u16)
        requires
            old(self).well_formed(),
        ensures
            final(self).well_formed(),
            final(self)@ == (HandlerModel { reader: Some(group), ..old(self)@ }),
    {
        self.multishot_reader = Some(group);
    }

    /// What the multishot reader is to be told of an operation that was submitted.
    pub fn inform_multishot_reader_op_submitted(
        &self,
        op_user_data: u64,
        is_cancel_op: bool,
        target_op_data_if_cancel: Option<u64>,
    ) -> (notice: Option<ReaderNotice>)
        ensures
            notice == crate::uring::calls::reader_notice(
                self@,
                op_user_data,
                is_cancel_op,
                target_op_data_if_cancel,
            ),
    {
        if self.multishot_reader.is_none() {
            return None;
        }
        if is_cancel_op {
            match target_op_data_if_cancel {
                Some(target) => Some(
                    ReaderNotice::CancellationSubmitted { op: op_user_data, target },
                ),
                None => None,
            }
        } else {
            Some(ReaderNotice::OperationSubmitted { op: op_user_data })
        }
    }
}

} // verus!
