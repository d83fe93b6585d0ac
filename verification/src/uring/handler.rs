//! A connection that runs on io_uring.

use bytes::{Bytes, BytesMut};
use std::collections::VecDeque;
use std::sync::Arc;
use vstd::prelude::*;

use crate::buffer::put;
use crate::command::Properties;
use crate::error::ZmqError;
use crate::greeting::NegotiatedVersion;
use crate::message::Blob;
use crate::options::ZmtpEngineConfig;
use crate::ready::build_uring_ready_properties;
use crate::time::{Duration, Instant};
use crate::uring::model::HandlerModel;
use crate::uring::types::{
    Flow, HandlerIoOps, HandlerSqeBlueprint, HandlerUpstreamEvent, OpOrigin, QueuedMsg, QueuedParts,
    ZmtpHandlerPhase,
};

mod calls;
mod reads;

verus! {

/// A connection that runs on io_uring.
///
/// A call on it hands out questions to the surroundings, which are answered by
/// [`ZmtpUringHandler::resume`], until the call is done.
pub struct ZmtpUringHandler {
    fd: i32,
    zmtp_config: Arc<ZmtpEngineConfig>,
    is_server: bool,
    phase: ZmtpHandlerPhase,
    greeting_buffer: BytesMut,
    network_read_accumulator: BytesMut,
    has_mechanism: bool,
    last_activity_time: Instant,
    last_ping_sent_time: Option<Instant>,
    waiting_for_pong: bool,
    heartbeat_ivl: Option<Duration>,
    heartbeat_timeout_duration: Duration,
    outgoing_app_messages: VecDeque<QueuedMsg>,
    outgoing_multipart_app_messages: VecDeque<QueuedParts>,
    handshake_timeout: Duration,
    handshake_timeout_deadline: Instant,
    peer_identity_from_security: Option<Blob>,
    peer_identity_from_ready: Option<Blob>,
    final_peer_identity: Option<Blob>,
    last_sent_was_ping: bool,
    multishot_reader: Option<u16>,
    negotiated_version: Option<NegotiatedVersion>,
}

impl View for ZmtpUringHandler {
    type V = HandlerModel;

    closed spec fn view(&self) -> HandlerModel {
        HandlerModel {
            fd: self.fd,
            config: (*self.zmtp_config)@,
            is_server: self.is_server,
            phase: self.phase,
            greeting: crate::buffer::contents(self.greeting_buffer),
            accumulated: crate::buffer::contents(self.network_read_accumulator),
            has_mechanism: self.has_mechanism,
            last_activity: self.last_activity_time,
            last_ping_sent: self.last_ping_sent_time,
            waiting_for_pong: self.waiting_for_pong,
            heartbeat_ivl: self.heartbeat_ivl,
            heartbeat_timeout: self.heartbeat_timeout_duration,
            outgoing: crate::message::views(self.outgoing_app_messages@),
            outgoing_multipart: crate::message::views(self.outgoing_multipart_app_messages@),
            handshake_timeout: self.handshake_timeout,
            handshake_deadline: self.handshake_timeout_deadline,
            identity_from_security: crate::message::option_view(self.peer_identity_from_security),
            identity_from_ready: crate::message::option_view(self.peer_identity_from_ready),
            final_identity: crate::message::option_view(self.final_peer_identity),
            last_sent_was_ping: self.last_sent_was_ping,
            reader: self.multishot_reader,
            version: self.negotiated_version,
        }
    }
}

/// The time that a handshake may take with these settings.
pub fn handshake_time(config: &ZmtpEngineConfig) -> (time: Duration)
    ensures
        time == crate::uring::model::handshake_time(config@),
{
    match config.handshake_timeout {
        Some(time) => time,
        None => Duration::from_secs(30),
    }
}

/// Whether one of the operations closes the connection.
fn has_close(ops: &HandlerIoOps) -> (yes: bool)
    ensures
        yes == ops@.blueprints.contains(crate::uring::types::BlueprintView::Close),
{
    let mut i: usize = 0;
    while i < ops.sqe_blueprints.len()
        invariant
            0 <= i <= ops.sqe_blueprints@.len(),
            forall|k: int|
                0 <= k < i ==> ops.sqe_blueprints@[k]@ != crate::uring::types::BlueprintView::Close,
        decreases ops.sqe_blueprints@.len() - i,
    {
        if let HandlerSqeBlueprint::RequestClose = &ops.sqe_blueprints[i] {
            assert(ops@.blueprints[i as int] == crate::uring::types::BlueprintView::Close);
            return true;
        }
        i = i + 1;
    }
    assert forall|k: int| 0 <= k < ops@.blueprints.len() implies ops@.blueprints[k]
        != crate::uring::types::BlueprintView::Close by {
        assert(ops.sqe_blueprints@[k]@ != crate::uring::types::BlueprintView::Close);
    }
    false
}

/// The operation by which the connection itself sends bytes.
pub(crate) fn internal_send(data: Bytes) -> (blueprint: HandlerSqeBlueprint)
    ensures
        blueprint@ == (crate::uring::types::BlueprintView::Send {
            data: crate::buffer::frozen(data),
            flags: 0,
            origin: OpOrigin::Handler,
        }),
{
    HandlerSqeBlueprint::RequestSend { data, send_op_flags: 0, origin: OpOrigin::Handler }
}

impl ZmtpUringHandler {
    /// Whether the buffers are within their bounds.
    pub open spec fn well_formed(&self) -> bool {
        crate::uring::model::well_formed(self@)
    }

    /// A connection over the given descriptor, in the given role.
    pub fn new(
        fd: i32,
        zmtp_config_arg: Arc<ZmtpEngineConfig>,
        is_server: bool,
        now: Instant,
    ) -> (handler: ZmtpUringHandler)
        requires
            crate::time::in_range(now, crate::uring::model::handshake_time((*zmtp_config_arg)@)),
        ensures
            handler@ == crate::uring::model::fresh(fd, (*zmtp_config_arg)@, is_server, now),
            handler.well_formed(),
    {
        let handshake_timeout = handshake_time(&zmtp_config_arg);
        let heartbeat_timeout_duration = match zmtp_config_arg.heartbeat_timeout {
            Some(time) => time,
            None => match zmtp_config_arg.heartbeat_ivl {
                Some(ivl) => ivl.doubled(),
                None => Duration::from_secs(30),
            },
        };
        let heartbeat_ivl = zmtp_config_arg.heartbeat_ivl;
        let handler = ZmtpUringHandler {
            fd,
            zmtp_config: zmtp_config_arg,
            is_server,
            phase: ZmtpHandlerPhase::Initial,
            greeting_buffer: BytesMut::new(),
            network_read_accumulator: BytesMut::new(),
            has_mechanism: false,
            last_activity_time: now,
            last_ping_sent_time: None,
            waiting_for_pong: false,
            heartbeat_ivl,
            heartbeat_timeout_duration,
            outgoing_app_messages: VecDeque::new(),
            outgoing_multipart_app_messages: VecDeque::new(),
            handshake_timeout,
            handshake_timeout_deadline: now.plus(handshake_timeout),
            peer_identity_from_security: None,
            peer_identity_from_ready: None,
            final_peer_identity: None,
            last_sent_was_ping: false,
            multishot_reader: None,
            negotiated_version: None,
        };
        assert(handler@ =~~= crate::uring::model::fresh(fd, (*zmtp_config_arg)@, is_server, now));
        handler
    }

    /// Makes the connection fail, unless it has failed or is closed: it is to be
    /// closed, and a handshake that is not done is reported.
    pub fn transition_to_error(&mut self, ops: &mut HandlerIoOps, error: ZmqError)
        ensures
            final(self)@ == crate::uring::model::failed(old(self)@),
            final(ops)@ == crate::uring::model::failed_ops(old(self)@, old(ops)@, error@),
    {
        if self.phase == ZmtpHandlerPhase::Error || self.phase == ZmtpHandlerPhase::Closed {
            return ;
        }
        let previous_phase = self.phase;
        self.phase = ZmtpHandlerPhase::Error;
        ops.initiate_close_due_to_error = true;
        if !has_close(ops) {
            ops.push(HandlerSqeBlueprint::RequestClose);
        }
        if previous_phase != ZmtpHandlerPhase::DataPhase {
            ops.notify(HandlerUpstreamEvent::Error(error));
        }
    }

    fn fail(&mut self, ops: &mut HandlerIoOps, error: ZmqError) -> (flow: Flow)
        ensures
            ({
                let step = crate::uring::model::fail(old(self)@, old(ops)@, error@);
                &&& final(self)@ == step.handler
                &&& final(ops)@ == step.ops
                &&& flow@ == step.flow
            }),
    {
        self.transition_to_error(ops, error.clone());
        Flow::Return(Err(error))
    }

    /// The properties of the READY command that this connection sends.
    pub fn build_ready_properties(&self) -> (properties: Properties)
        ensures
            properties@ == crate::ready::uring_ready_properties(self@.config),
    {
        build_uring_ready_properties(&self.zmtp_config)
    }

    /// Moves as many bytes to the greeting as it lacks of `target`, and as there
    /// are.
    fn fill_greeting(&mut self, target: usize)
        requires
            old(self).well_formed(),
            target <= 64,
        ensures
            final(self)@ == crate::uring::model::filled(old(self)@, target as int),
            final(self).well_formed(),
    {
        let ghost before = self@;
        let held: usize = self.greeting_buffer.len();
        let mut count: usize = 0;
        if held < target {
            let needed: usize = target - held;
            let there: usize = self.network_read_accumulator.len();
            count = if needed < there {
                needed
            } else {
                there
            };
            if count > 0 {
                let front = self.network_read_accumulator.split_to(count);
                put(&mut self.greeting_buffer, front);
            }
        }
        proof {
            if count == 0 {
                assert(before.greeting + before.accumulated.take(0) =~= before.greeting);
                assert(before.accumulated.skip(0) =~= before.accumulated);
            }
            assert(self@ =~~= crate::uring::model::filled(before, target as int));
        }
    }
}

} // verus!
