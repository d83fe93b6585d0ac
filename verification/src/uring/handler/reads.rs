//! How a connection on io_uring works through the bytes that have arrived.

use bytes::{Bytes, BytesMut};
use vstd::prelude::*;

use crate::buffer::as_slice;
use crate::command::{Properties, ZmtpCommand};
use crate::error::{joined, ZmqError};
use crate::greeting::{
    encode_v3_tail_post_major, peek_revision, socket_type_code, NegotiatedVersion, ZmtpGreeting,
    ZmtpV2Greeting, GREETING_LENGTH, GREETING_VERSION_MAJOR_BYTE, SIGNATURE_LENGTH,
    V2_GREETING_LENGTH,
};
use crate::message::{copy_identity, Blob, Msg, MsgFlags};
use crate::ready::copy_property;
use crate::text::{push_hex, quoted};
use crate::time::Instant;
use crate::uring::handler::{internal_send, ZmtpUringHandler};
use crate::uring::types::{
    Flow, HandlerIoOps, HandlerUpstreamEvent, Pass, Reply, Request, Stage, ZmtpHandlerPhase,
};
use crate::v2_rules::validate_v2_socket_type_compat;

verus! {

impl ZmtpUringHandler {
    /// Hands out the bytes that have arrived, to look for a frame in them.
    fn ask_frame(&mut self, ops: &mut HandlerIoOps, stage: Stage, pass: Pass) -> (flow: Flow)
        requires
            old(self).well_formed(),
        ensures
            final(self).well_formed(),
            ({
                let step = crate::uring::model::ask_frame(old(self)@, old(ops)@, stage, pass);
                &&& final(self)@ == step.handler
                &&& final(ops)@ == step.ops
                &&& flow@ == step.flow
            }),
    {
        let mut bytes = BytesMut::new();
        std::mem::swap(&mut bytes, &mut self.network_read_accumulator);
        Flow::Ask { stage, pass, request: Request::ReadFrame(bytes) }
    }

    /// Sends the ZMTP/2.0 tail, if that version is allowed.
    fn v2_tail_step(&mut self, ops: &mut HandlerIoOps) -> (flow: Flow)
        requires
            old(self).well_formed(),
        ensures
            final(self).well_formed(),
            ({
                let step = crate::uring::model::v2_tail_step(old(self)@, old(ops)@);
                &&& final(self)@ == step.handler
                &&& final(ops)@ == step.ops
                &&& flow@ == step.flow
            }),
    {
        proof {
            reveal(crate::uring::model::v2_tail_step);
        }
        if !self.zmtp_config.allow_zmtp2 {
            return self.fail(
                ops,
                ZmqError::ProtocolViolation(
                    "peer advertised ZMTP/2.0 but allow_zmtp2 is disabled".to_string(),
                ),
            );
        }
        match socket_type_code(self.zmtp_config.socket_type_name.as_str()) {
            None => {
                let name = quoted(self.zmtp_config.socket_type_name.as_str());
                let text = joined("no ZMTP/2.0 socket-type byte for socket type ", name.as_str());
                self.fail(ops, ZmqError::ProtocolViolation(text))
            },
            Some(code) => {
                let tail: [u8; 1] = [code];
                ops.push(internal_send(Bytes::copy_from_slice(&tail)));
                assert(tail@ =~= seq![code]);
                self.negotiated_version = Some(NegotiatedVersion::V2);
                self.phase = ZmtpHandlerPhase::SendV2Tail;
                Flow::Return(Ok(true))
            },
        }
    }

    /// Reads the first eleven bytes of the peer and sends the tail that they call for.
    fn peer_revision_step(&mut self, ops: &mut HandlerIoOps, made_progress: bool) -> (flow: Flow)
        requires
            old(self).well_formed(),
        ensures
            final(self).well_formed(),
            ({
                let step = crate::uring::model::peer_revision_step(
                    old(self)@,
                    old(ops)@,
                    made_progress,
                );
                &&& final(self)@ == step.handler
                &&& final(ops)@ == step.ops
                &&& flow@ == step.flow
            }),
    {
        proof {
            reveal(crate::uring::model::peer_revision_step);
        }
        self.fill_greeting(SIGNATURE_LENGTH + 1);
        if self.greeting_buffer.len() < SIGNATURE_LENGTH + 1 {
            return Flow::Return(Ok(made_progress));
        }
        let ghost full = self@;
        let peeked = peek_revision(
            vstd::slice::slice_subrange(as_slice(&self.greeting_buffer), 0, SIGNATURE_LENGTH + 1),
        );
        assert(full.greeting.subrange(0, 11) =~= full.greeting.take(11));
        match peeked {
            Err(error) => self.fail(ops, error),
            Ok(revision) => {
                if revision == ZmtpV2Greeting::REVISION {
                    self.v2_tail_step(ops)
                } else if revision >= GREETING_VERSION_MAJOR_BYTE {
                    let mechanism = self.zmtp_config.security_mechanism_bytes_to_propose(
                        self.is_server,
                    );
                    let mut tail = BytesMut::new();
                    encode_v3_tail_post_major(&mechanism, self.is_server, &mut tail);
                    ops.push(internal_send(tail.freeze()));
                    self.phase = ZmtpHandlerPhase::SendV3Tail;
                    assert(ops@.blueprints =~~= crate::uring::model::peer_revision_step(
                        old(self)@,
                        old(ops)@,
                        made_progress,
                    ).ops.blueprints);
                    Flow::Return(Ok(true))
                } else {
                    let mut text = "Unsupported ZMTP revision ".to_string();
                    push_hex(&mut text, revision);
                    text.append(" (only 0x01 and 0x03+ are supported)");
                    self.fail(ops, ZmqError::ProtocolViolation(text))
                }
            },
        }
    }

    /// Reads the whole ZMTP/3.x greeting of the peer.
    fn v3_greeting_step(&mut self, ops: &mut HandlerIoOps, pass: Pass) -> (flow: Flow)
        requires
            old(self).well_formed(),
        ensures
            final(self).well_formed(),
            ({
                let step = crate::uring::model::v3_greeting_step(old(self)@, old(ops)@, pass);
                &&& final(self)@ == step.handler
                &&& final(ops)@ == step.ops
                &&& flow@ == step.flow
            }),
    {
        proof {
            reveal(crate::uring::model::v3_greeting_step);
        }
        self.fill_greeting(GREETING_LENGTH);
        if self.greeting_buffer.len() < GREETING_LENGTH {
            return Flow::Return(Ok(pass.made_progress));
        }
        match ZmtpGreeting::decode(&mut self.greeting_buffer) {
            Err(error) => self.fail(ops, error),
            Ok(None) => Flow::Return(Ok(pass.made_progress)),
            Ok(Some(greeting)) => {
                if greeting.as_server == self.is_server {
                    return self.fail(
                        ops,
                        ZmqError::SecurityError("Role mismatch in greeting".to_string()),
                    );
                }
                self.negotiated_version = Some(NegotiatedVersion::V3 { minor: greeting.version.1 });
                Flow::Ask {
                    stage: Stage::Negotiated,
                    pass: Pass { progress: true, ..pass },
                    request: Request::Negotiate(greeting),
                }
            },
        }
    }

    /// Reads the socket type of a peer of version 2.0 and sends the empty identity.
    fn v2_greeting_step(&mut self, ops: &mut HandlerIoOps, made_progress: bool) -> (flow: Flow)
        requires
            old(self).well_formed(),
        ensures
            final(self).well_formed(),
            ({
                let step = crate::uring::model::v2_greeting_step(
                    old(self)@,
                    old(ops)@,
                    made_progress,
                );
                &&& final(self)@ == step.handler
                &&& final(ops)@ == step.ops
                &&& flow@ == step.flow
            }),
    {
        proof {
            reveal(crate::uring::model::v2_greeting_step);
        }
        self.fill_greeting(V2_GREETING_LENGTH);
        if self.greeting_buffer.len() < V2_GREETING_LENGTH {
            return Flow::Return(Ok(made_progress));
        }
        let peer_type: u8 = as_slice(&self.greeting_buffer)[11];
        let _ = self.greeting_buffer.split_to(V2_GREETING_LENGTH);
        match validate_v2_socket_type_compat(self.zmtp_config.socket_type_name.as_str(), peer_type) {
            Err(error) => self.fail(ops, error),
            Ok(_) => {
                let identity: [u8; 2] = [0, 0];
                ops.push(internal_send(Bytes::copy_from_slice(&identity)));
                assert(identity@ =~= seq![0u8, 0u8]);
                self.phase = ZmtpHandlerPhase::V2SendIdentity;
                Flow::Return(Ok(true))
            },
        }
    }

    /// Looks for a frame, where any bytes have arrived.
    fn frame_if_any(&mut self, ops: &mut HandlerIoOps, stage: Stage, pass: Pass) -> (flow: Flow)
        requires
            old(self).well_formed(),
        ensures
            final(self).well_formed(),
            ({
                let step = crate::uring::model::frame_if_any(old(self)@, old(ops)@, stage, pass);
                &&& final(self)@ == step.handler
                &&& final(ops)@ == step.ops
                &&& flow@ == step.flow
            }),
    {
        if self.network_read_accumulator.is_empty() {
            Flow::Return(Ok(pass.made_progress))
        } else {
            self.ask_frame(ops, stage, pass)
        }
    }

    /// Begins a pass through the bytes that have arrived.
    pub(crate) fn pass_begun(
        &mut self,
        ops: &mut HandlerIoOps,
        made_progress: bool,
        now: Instant,
    ) -> (flow: Flow)
        requires
            old(self).well_formed(),
        ensures
            final(self).well_formed(),
            ({
                let step = crate::uring::model::pass_begun(
                    old(self)@,
                    old(ops)@,
                    made_progress,
                    now,
                );
                &&& final(self)@ == step.handler
                &&& final(ops)@ == step.ops
                &&& flow@ == step.flow
            }),
    {
        proof {
            reveal(crate::uring::model::pass_begun);
        }
        let pass = Pass {
            made_progress,
            greeting_len: self.greeting_buffer.len(),
            accumulator_len: self.network_read_accumulator.len(),
            progress: false,
            token_action: false,
        };
        if self.is_overdue(now) {
            return self.fail(ops, ZmqError::Timeout);
        }
        match self.phase {
            ZmtpHandlerPhase::Initial => self.fail(
                ops,
                ZmqError::InvalidState(
                    "ZmtpHandler in Initial phase during data processing".to_string(),
                ),
            ),
            ZmtpHandlerPhase::WaitPeerRevision => self.peer_revision_step(ops, made_progress),
            ZmtpHandlerPhase::WaitV3Greeting => self.v3_greeting_step(ops, pass),
            ZmtpHandlerPhase::V2GreetingExchange => self.v2_greeting_step(ops, made_progress),
            ZmtpHandlerPhase::V2WaitIdentity => self.frame_if_any(ops, Stage::IdentityFrame, pass),
            ZmtpHandlerPhase::SecurityExchange => {
                if self.has_mechanism {
                    Flow::Ask {
                        stage: Stage::SecurityComplete,
                        pass,
                        request: Request::MechanismComplete,
                    }
                } else {
                    self.fail(
                        ops,
                        ZmqError::InvalidState(
                            "CRITICAL: Security mechanism is None while in SecurityExchange phase.".to_string(),
                        ),
                    )
                }
            },
            ZmtpHandlerPhase::ReadyServerWaitClient => self.frame_if_any(
                ops,
                Stage::ClientReadyFrame,
                pass,
            ),
            ZmtpHandlerPhase::ReadyClientWaitServer => self.frame_if_any(
                ops,
                Stage::ServerReadyFrame,
                pass,
            ),
            ZmtpHandlerPhase::DataPhase => self.ask_frame(ops, Stage::DataFrame, pass),
            _ => Flow::Return(Ok(made_progress)),
        }
    }

    /// Whether the handshake has taken longer than it may.
    pub(crate) fn is_overdue(&self, now: Instant) -> (yes: bool)
        ensures
            yes == crate::uring::model::is_overdue(self@, now),
    {
        now.nanos > self.handshake_timeout_deadline.nanos && self.phase
            != ZmtpHandlerPhase::DataPhase && self.phase != ZmtpHandlerPhase::Error && self.phase
            != ZmtpHandlerPhase::Closed
    }

    /// Ends a pass through the bytes, and begins another where it made progress.
    fn pass_ended(&mut self, ops: &mut HandlerIoOps, pass: Pass, now: Instant) -> (flow: Flow)
        requires
            old(self).well_formed(),
        ensures
            final(self).well_formed(),
            ({
                let step = crate::uring::model::pass_ended(old(self)@, old(ops)@, pass, now);
                &&& final(self)@ == step.handler
                &&& final(ops)@ == step.ops
                &&& flow@ == step.flow
            }),
    {
        if self.greeting_buffer.len() == pass.greeting_len && self.network_read_accumulator.len()
            == pass.accumulator_len && !pass.progress {
            Flow::Return(Ok(pass.made_progress))
        } else {
            self.pass_begun(ops, pass.made_progress || pass.progress, now)
        }
    }

    /// The mechanism was chosen.
    fn negotiated(
        &mut self,
        ops: &mut HandlerIoOps,
        pass: Pass,
        result: Result<(), ZmqError>,
        now: Instant,
    ) -> (flow: Flow)
        requires
            old(self).well_formed(),
        ensures
            final(self).well_formed(),
            ({
                let step = crate::uring::model::negotiated(
                    old(self)@,
                    old(ops)@,
                    pass,
                    crate::error::result_view(result),
                    now,
                );
                &&& final(self)@ == step.handler
                &&& final(ops)@ == step.ops
                &&& flow@ == step.flow
            }),
    {
        proof {
            reveal(crate::uring::model::negotiated);
        }
        match result {
            Err(error) => Flow::Return(Err(error)),
            Ok(_) => {
                self.has_mechanism = true;
                self.phase = ZmtpHandlerPhase::SecurityExchange;
                self.pass_ended(ops, pass, now)
            },
        }
    }

    /// Tells the socket that the handshake is done, and by which identity the peer is known.
    pub(crate) fn signal_upstream_handshake_complete(
        &mut self,
        ops: &mut HandlerIoOps,
        stage: Stage,
        pass: Pass,
    ) -> (flow: Flow)
        requires
            old(self).well_formed(),
        ensures
            final(self).well_formed(),
            ({
                let step = crate::uring::model::signal_complete(old(self)@, old(ops)@, stage, pass);
                &&& final(self)@ == step.handler
                &&& final(ops)@ == step.ops
                &&& flow@ == step.flow
            }),
    {
        self.final_peer_identity = if self.peer_identity_from_ready.is_some() {
            copy_identity(&self.peer_identity_from_ready)
        } else {
            copy_identity(&self.peer_identity_from_security)
        };
        let event = HandlerUpstreamEvent::HandshakeComplete {
            peer_identity: copy_identity(&self.final_peer_identity),
        };
        Flow::Ask { stage, pass, request: Request::Deliver(event) }
    }

    /// Whether the socket took the end of the handshake.
    fn signalled(
        &mut self,
        ops: &mut HandlerIoOps,
        pass: Pass,
        accepted: bool,
        now: Instant,
    ) -> (flow: Flow)
        requires
            old(self).well_formed(),
        ensures
            final(self).well_formed(),
            ({
                let step = crate::uring::model::signalled(
                    old(self)@,
                    old(ops)@,
                    pass,
                    accepted,
                    now,
                );
                &&& final(self)@ == step.handler
                &&& final(ops)@ == step.ops
                &&& flow@ == step.flow
            }),
    {
        proof {
            reveal(crate::uring::model::signalled);
        }
        if accepted {
            self.pass_ended(ops, pass, now)
        } else {
            Flow::Return(
                Err(ZmqError::Internal("Failed to signal handshake completion".to_string())),
            )
        }
    }

    /// The peer's ZMTP/2.0 identity has arrived, or not yet.
    fn identity_frame(
        &mut self,
        ops: &mut HandlerIoOps,
        pass: Pass,
        outcome: Result<Option<Msg>, ZmqError>,
    ) -> (flow: Flow)
        requires
            old(self).well_formed(),
        ensures
            final(self).well_formed(),
            ({
                let step = crate::uring::model::identity_frame(
                    old(self)@,
                    old(ops)@,
                    pass,
                    crate::uring::types::optional_view(outcome),
                );
                &&& final(self)@ == step.handler
                &&& final(ops)@ == step.ops
                &&& flow@ == step.flow
            }),
    {
        proof {
            reveal(crate::uring::model::identity_frame);
        }
        match outcome {
            Err(error) => self.fail(ops, error),
            Ok(None) => Flow::Return(Ok(pass.made_progress)),
            Ok(Some(msg)) => {
                if msg.is_command() {
                    return self.fail(
                        ops,
                        ZmqError::ProtocolViolation(
                            "ZMTP/2.0 identity frame had COMMAND flag set".to_string(),
                        ),
                    );
                }
                if msg.is_more() {
                    return self.fail(
                        ops,
                        ZmqError::ProtocolViolation(
                            "ZMTP/2.0 identity frame had MORE flag set".to_string(),
                        ),
                    );
                }
                if msg.size() > 255 {
                    return self.fail(
                        ops,
                        ZmqError::ProtocolViolation(
                            "ZMTP/2.0 identity frame exceeded 255 bytes".to_string(),
                        ),
                    );
                }
                if msg.size() > 0 {
                    self.peer_identity_from_ready = Some(Blob::from_vec(msg.body()));
                }
                self.phase = ZmtpHandlerPhase::DataPhase;
                self.signal_upstream_handshake_complete(
                    ops,
                    Stage::Signalled,
                    Pass { progress: true, ..pass },
                )
            },
        }
    }

    /// Lets the mechanism make the framer.
    fn finish_security(&mut self, ops: &mut HandlerIoOps, pass: Pass) -> (flow: Flow)
        requires
            old(self).well_formed(),
        ensures
            final(self).well_formed(),
            ({
                let step = crate::uring::model::finish_security(old(self)@, old(ops)@, pass);
                &&& final(self)@ == step.handler
                &&& final(ops)@ == step.ops
                &&& flow@ == step.flow
            }),
    {
        self.has_mechanism = false;
        Flow::Ask {
            stage: Stage::FramerMade,
            pass,
            request: Request::IntoFramer(self.zmtp_config.max_msg_size),
        }
    }

    /// Whether the mechanism had done its work before this pass.
    fn security_complete(&mut self, ops: &mut HandlerIoOps, pass: Pass, yes: bool) -> (flow: Flow)
        requires
            old(self).well_formed(),
        ensures
            final(self).well_formed(),
            ({
                let step = crate::uring::model::security_complete(old(self)@, old(ops)@, pass, yes);
                &&& final(self)@ == step.handler
                &&& final(ops)@ == step.ops
                &&& flow@ == step.flow
            }),
    {
        proof {
            reveal(crate::uring::model::security_complete);
        }
        if yes {
            self.finish_security(ops, pass)
        } else {
            Flow::Ask { stage: Stage::FirstToken, pass, request: Request::ProduceToken }
        }
    }

    /// Puts a token of this end on the wire.
    fn write_token(
        &mut self,
        ops: &mut HandlerIoOps,
        stage: Stage,
        pass: Pass,
        token: Vec<u8>,
    ) -> (flow: Flow)
        requires
            old(self).well_formed(),
        ensures
            final(self).well_formed(),
            ({
                let step = crate::uring::model::write_token(
                    old(self)@,
                    old(ops)@,
                    stage,
                    pass,
                    token@,
                );
                &&& final(self)@ == step.handler
                &&& final(ops)@ == step.ops
                &&& flow@ == step.flow
            }),
    {
        let mut frames: Vec<Msg> = Vec::new();
        frames.push(Msg::from_vec(token).with_flags(MsgFlags::with_command()));
        assert(crate::message::views(frames@) =~= seq![
            crate::message::frame(token@, MsgFlags { more: false, command: true }),
        ]);
        Flow::Ask { stage, pass, request: Request::WriteFrames(frames) }
    }

    /// Looks for a token of the peer, where any bytes have arrived.
    fn read_peer_token(&mut self, ops: &mut HandlerIoOps, pass: Pass) -> (flow: Flow)
        requires
            old(self).well_formed(),
        ensures
            final(self).well_formed(),
            ({
                let step = crate::uring::model::read_peer_token(old(self)@, old(ops)@, pass);
                &&& final(self)@ == step.handler
                &&& final(ops)@ == step.ops
                &&& flow@ == step.flow
            }),
    {
        if !self.network_read_accumulator.is_empty() {
            self.ask_frame(ops, Stage::PeerToken, pass)
        } else {
            Flow::Ask { stage: Stage::CompleteAfter, pass, request: Request::MechanismComplete }
        }
    }

    /// The mechanism has a token to send, or none.
    fn first_token(
        &mut self,
        ops: &mut HandlerIoOps,
        pass: Pass,
        token: Result<Option<Vec<u8>>, ZmqError>,
    ) -> (flow: Flow)
        requires
            old(self).well_formed(),
        ensures
            final(self).well_formed(),
            ({
                let step = crate::uring::model::first_token(
                    old(self)@,
                    old(ops)@,
                    pass,
                    crate::uring::types::optional_view(token),
                );
                &&& final(self)@ == step.handler
                &&& final(ops)@ == step.ops
                &&& flow@ == step.flow
            }),
    {
        proof {
            reveal(crate::uring::model::first_token);
        }
        match token {
            Err(error) => Flow::Return(Err(error)),
            Ok(Some(token)) => self.write_token(ops, Stage::FirstTokenWritten, pass, token),
            Ok(None) => self.read_peer_token(ops, pass),
        }
    }

    /// The first token of this end is on the wire.
    fn first_token_written(
        &mut self,
        ops: &mut HandlerIoOps,
        pass: Pass,
        wire: Result<Bytes, ZmqError>,
    ) -> (flow: Flow)
        requires
            old(self).well_formed(),
        ensures
            final(self).well_formed(),
            ({
                let step = crate::uring::model::first_token_written(
                    old(self)@,
                    old(ops)@,
                    pass,
                    crate::uring::types::wire_view(wire),
                );
                &&& final(self)@ == step.handler
                &&& final(ops)@ == step.ops
                &&& flow@ == step.flow
            }),
    {
        proof {
            reveal(crate::uring::model::first_token_written);
        }
        match wire {
            Err(error) => Flow::Return(Err(error)),
            Ok(data) => {
                ops.push(internal_send(data));
                self.read_peer_token(ops, Pass { progress: true, token_action: true, ..pass })
            },
        }
    }

    /// A token of the peer has arrived, or not yet.
    fn peer_token(
        &mut self,
        ops: &mut HandlerIoOps,
        pass: Pass,
        outcome: Result<Option<Msg>, ZmqError>,
    ) -> (flow: Flow)
        requires
            old(self).well_formed(),
        ensures
            final(self).well_formed(),
            ({
                let step = crate::uring::model::peer_token(
                    old(self)@,
                    old(ops)@,
                    pass,
                    crate::uring::types::optional_view(outcome),
                );
                &&& final(self)@ == step.handler
                &&& final(ops)@ == step.ops
                &&& flow@ == step.flow
            }),
    {
        proof {
            reveal(crate::uring::model::peer_token);
        }
        match outcome {
            Err(error) => {
                let text = joined(
                    "Failed to parse ZMTP frame for security token: ",
                    error.describe().as_str(),
                );
                self.fail(ops, ZmqError::SecurityError(text))
            },
            Ok(None) => Flow::Ask {
                stage: Stage::CompleteAfter,
                pass,
                request: Request::MechanismComplete,
            },
            Ok(Some(msg)) => {
                if !msg.is_command() {
                    return self.fail(
                        ops,
                        ZmqError::SecurityError("Expected ZMTP COMMAND for security token".to_string()),
                    );
                }
                Flow::Ask {
                    stage: Stage::PeerTokenProcessed,
                    pass: Pass { progress: true, token_action: true, ..pass },
                    request: Request::ProcessToken(msg.body()),
                }
            },
        }
    }

    /// The mechanism took the token of the peer.
    fn peer_token_processed(
        &mut self,
        ops: &mut HandlerIoOps,
        pass: Pass,
        result: Result<(), ZmqError>,
    ) -> (flow: Flow)
        requires
            old(self).well_formed(),
        ensures
            final(self).well_formed(),
            ({
                let step = crate::uring::model::peer_token_processed(
                    old(self)@,
                    old(ops)@,
                    pass,
                    crate::error::result_view(result),
                );
                &&& final(self)@ == step.handler
                &&& final(ops)@ == step.ops
                &&& flow@ == step.flow
            }),
    {
        proof {
            reveal(crate::uring::model::peer_token_processed);
        }
        match result {
            Err(error) => Flow::Return(Err(error)),
            Ok(_) => Flow::Ask { stage: Stage::ResponseToken, pass, request: Request::ProduceToken },
        }
    }

    /// The mechanism answers the token of the peer, or not.
    fn response_token(
        &mut self,
        ops: &mut HandlerIoOps,
        pass: Pass,
        token: Result<Option<Vec<u8>>, ZmqError>,
    ) -> (flow: Flow)
        requires
            old(self).well_formed(),
        ensures
            final(self).well_formed(),
            ({
                let step = crate::uring::model::response_token(
                    old(self)@,
                    old(ops)@,
                    pass,
                    crate::uring::types::optional_view(token),
                );
                &&& final(self)@ == step.handler
                &&& final(ops)@ == step.ops
                &&& flow@ == step.flow
            }),
    {
        proof {
            reveal(crate::uring::model::response_token);
        }
        match token {
            Err(error) => Flow::Return(Err(error)),
            Ok(Some(token)) => self.write_token(ops, Stage::ResponseWritten, pass, token),
            Ok(None) => Flow::Ask {
                stage: Stage::CompleteAfter,
                pass,
                request: Request::MechanismComplete,
            },
        }
    }

    /// The answer to the token of the peer is on the wire.
    fn response_written(
        &mut self,
        ops: &mut HandlerIoOps,
        pass: Pass,
        wire: Result<Bytes, ZmqError>,
    ) -> (flow: Flow)
        requires
            old(self).well_formed(),
        ensures
            final(self).well_formed(),
            ({
                let step = crate::uring::model::response_written(
                    old(self)@,
                    old(ops)@,
                    pass,
                    crate::uring::types::wire_view(wire),
                );
                &&& final(self)@ == step.handler
                &&& final(ops)@ == step.ops
                &&& flow@ == step.flow
            }),
    {
        proof {
            reveal(crate::uring::model::response_written);
        }
        match wire {
            Err(error) => Flow::Return(Err(error)),
            Ok(data) => {
                ops.push(internal_send(data));
                Flow::Ask { stage: Stage::CompleteAfter, pass, request: Request::MechanismComplete }
            },
        }
    }

    /// Whether the mechanism has done its work now.
    fn complete_after(&mut self, ops: &mut HandlerIoOps, pass: Pass, yes: bool) -> (flow: Flow)
        requires
            old(self).well_formed(),
        ensures
            final(self).well_formed(),
            ({
                let step = crate::uring::model::complete_after(old(self)@, old(ops)@, pass, yes);
                &&& final(self)@ == step.handler
                &&& final(ops)@ == step.ops
                &&& flow@ == step.flow
            }),
    {
        proof {
            reveal(crate::uring::model::complete_after);
        }
        if yes {
            self.finish_security(ops, pass)
        } else {
            Flow::Ask { stage: Stage::FaultAfter, pass, request: Request::MechanismFault }
        }
    }

    /// Whether the mechanism has failed.
    fn fault_after(
        &mut self,
        ops: &mut HandlerIoOps,
        pass: Pass,
        fault: Option<Option<String>>,
        now: Instant,
    ) -> (flow: Flow)
        requires
            old(self).well_formed(),
        ensures
            final(self).well_formed(),
            ({
                let step = crate::uring::model::fault_after(
                    old(self)@,
                    old(ops)@,
                    pass,
                    crate::uring::types::fault_view(fault),
                    now,
                );
                &&& final(self)@ == step.handler
                &&& final(ops)@ == step.ops
                &&& flow@ == step.flow
            }),
    {
        proof {
            reveal(crate::uring::model::fault_after);
        }
        match fault {
            Some(Some(reason)) => self.fail(ops, ZmqError::SecurityError(reason)),
            Some(None) => self.fail(
                ops,
                ZmqError::SecurityError("Unknown security error from mechanism".to_string()),
            ),
            None => {
                if !pass.token_action && self.network_read_accumulator.is_empty() {
                    Flow::Return(Ok(pass.made_progress))
                } else {
                    self.pass_ended(ops, pass, now)
                }
            },
        }
    }

    /// Puts a READY command on the wire.
    fn write_ready(&mut self, ops: &mut HandlerIoOps, stage: Stage, pass: Pass) -> (flow: Flow)
        requires
            old(self).well_formed(),
        ensures
            final(self).well_formed(),
            ({
                let step = crate::uring::model::write_ready(old(self)@, old(ops)@, stage, pass);
                &&& final(self)@ == step.handler
                &&& final(ops)@ == step.ops
                &&& flow@ == step.flow
            }),
    {
        Flow::Ask { stage, pass, request: Request::WriteReady(self.build_ready_properties()) }
    }

    /// The mechanism made the framer: the READY commands come next.
    fn framer_made(
        &mut self,
        ops: &mut HandlerIoOps,
        pass: Pass,
        identity: Result<Option<Vec<u8>>, ZmqError>,
        now: Instant,
    ) -> (flow: Flow)
        requires
            old(self).well_formed(),
        ensures
            final(self).well_formed(),
            ({
                let step = crate::uring::model::framer_made(
                    old(self)@,
                    old(ops)@,
                    pass,
                    crate::uring::types::optional_view(identity),
                    now,
                );
                &&& final(self)@ == step.handler
                &&& final(ops)@ == step.ops
                &&& flow@ == step.flow
            }),
    {
        proof {
            reveal(crate::uring::model::framer_made);
        }
        match identity {
            Err(error) => {
                self.transition_to_error(ops, error);
                Flow::Return(
                    Err(ZmqError::Internal("Failed to create framer from mechanism".to_string())),
                )
            },
            Ok(identity) => {
                if self.peer_identity_from_security.is_none() {
                    self.peer_identity_from_security = match identity {
                        Some(id) => Some(Blob::from_vec(id)),
                        None => None,
                    };
                }
                if self.is_server {
                    self.phase = ZmtpHandlerPhase::ReadyServerWaitClient;
                    self.pass_ended(ops, Pass { progress: true, ..pass }, now)
                } else {
                    self.phase = ZmtpHandlerPhase::ReadyClientSend;
                    self.write_ready(ops, Stage::ClientReadyWritten, pass)
                }
            },
        }
    }

    /// The client's READY is on the wire.
    fn client_ready_written(
        &mut self,
        ops: &mut HandlerIoOps,
        pass: Pass,
        wire: Result<Bytes, ZmqError>,
        now: Instant,
    ) -> (flow: Flow)
        requires
            old(self).well_formed(),
        ensures
            final(self).well_formed(),
            ({
                let step = crate::uring::model::client_ready_written(
                    old(self)@,
                    old(ops)@,
                    pass,
                    crate::uring::types::wire_view(wire),
                    now,
                );
                &&& final(self)@ == step.handler
                &&& final(ops)@ == step.ops
                &&& flow@ == step.flow
            }),
    {
        proof {
            reveal(crate::uring::model::client_ready_written);
        }
        match wire {
            Err(error) => Flow::Return(Err(error)),
            Ok(data) => {
                ops.push(internal_send(data));
                self.pass_ended(ops, Pass { progress: true, ..pass }, now)
            },
        }
    }

    /// The peer's READY has arrived, or not yet.
    fn ready_frame(
        &mut self,
        ops: &mut HandlerIoOps,
        stage: Stage,
        pass: Pass,
        outcome: Result<Option<Msg>, ZmqError>,
    ) -> (flow: Flow)
        requires
            old(self).well_formed(),
        ensures
            final(self).well_formed(),
            ({
                let step = crate::uring::model::ready_frame(
                    old(self)@,
                    old(ops)@,
                    stage,
                    pass,
                    crate::uring::types::optional_view(outcome),
                );
                &&& final(self)@ == step.handler
                &&& final(ops)@ == step.ops
                &&& flow@ == step.flow
            }),
    {
        proof {
            reveal(crate::uring::model::ready_frame);
        }
        match outcome {
            Err(error) => self.fail(ops, error),
            Ok(None) => Flow::Return(Ok(pass.made_progress)),
            Ok(Some(msg)) => Flow::Ask {
                stage,
                pass: Pass { progress: true, ..pass },
                request: Request::ParseCommand(msg),
            },
        }
    }

    /// Keeps the identity that the peer has announced, where it has.
    fn note_announced(&mut self, properties: &Properties)
        ensures
            final(self)@ == crate::uring::model::with_announced(old(self)@, properties@),
    {
        if let Some(id) = copy_property(properties, "Identity") {
            self.peer_identity_from_ready = Some(Blob::from_vec(id));
        }
    }

    /// The client's READY was read: the server's is put on the wire.
    fn client_ready_parsed(
        &mut self,
        ops: &mut HandlerIoOps,
        pass: Pass,
        command: Option<ZmtpCommand>,
    ) -> (flow: Flow)
        requires
            old(self).well_formed(),
        ensures
            final(self).well_formed(),
            ({
                let step = crate::uring::model::client_ready_parsed(
                    old(self)@,
                    old(ops)@,
                    pass,
                    crate::message::option_view(command),
                );
                &&& final(self)@ == step.handler
                &&& final(ops)@ == step.ops
                &&& flow@ == step.flow
            }),
    {
        proof {
            reveal(crate::uring::model::client_ready_parsed);
        }
        match command {
            Some(ZmtpCommand::Ready(ready)) => {
                self.note_announced(&ready.properties);
                self.write_ready(ops, Stage::ServerReadyWritten, pass)
            },
            _ => self.fail(
                ops,
                ZmqError::ProtocolViolation(
                    "S: Expected READY from client, got other/unparseable".to_string(),
                ),
            ),
        }
    }

    /// The server's READY is on the wire.
    fn server_ready_written(
        &mut self,
        ops: &mut HandlerIoOps,
        pass: Pass,
        wire: Result<Bytes, ZmqError>,
        now: Instant,
    ) -> (flow: Flow)
        requires
            old(self).well_formed(),
        ensures
            final(self).well_formed(),
            ({
                let step = crate::uring::model::server_ready_written(
                    old(self)@,
                    old(ops)@,
                    pass,
                    crate::uring::types::wire_view(wire),
                    now,
                );
                &&& final(self)@ == step.handler
                &&& final(ops)@ == step.ops
                &&& flow@ == step.flow
            }),
    {
        proof {
            reveal(crate::uring::model::server_ready_written);
        }
        match wire {
            Err(error) => Flow::Return(Err(error)),
            Ok(data) => {
                ops.push(internal_send(data));
                self.phase = ZmtpHandlerPhase::ReadyServerSend;
                self.pass_ended(ops, pass, now)
            },
        }
    }

    /// The server's READY was read: the client's handshake is done.
    fn server_ready_parsed(
        &mut self,
        ops: &mut HandlerIoOps,
        pass: Pass,
        command: Option<ZmtpCommand>,
    ) -> (flow: Flow)
        requires
            old(self).well_formed(),
        ensures
            final(self).well_formed(),
            ({
                let step = crate::uring::model::server_ready_parsed(
                    old(self)@,
                    old(ops)@,
                    pass,
                    crate::message::option_view(command),
                );
                &&& final(self)@ == step.handler
                &&& final(ops)@ == step.ops
                &&& flow@ == step.flow
            }),
    {
        proof {
            reveal(crate::uring::model::server_ready_parsed);
        }
        match command {
            Some(ZmtpCommand::Ready(ready)) => {
                self.note_announced(&ready.properties);
                self.phase = ZmtpHandlerPhase::DataPhase;
                self.signal_upstream_handshake_complete(ops, Stage::Signalled, pass)
            },
            _ => self.fail(
                ops,
                ZmqError::ProtocolViolation(
                    "C: Expected READY from server, got other/unparseable".to_string(),
                ),
            ),
        }
    }

    /// A frame after the handshake has arrived, or not yet.
    fn data_frame(
        &mut self,
        ops: &mut HandlerIoOps,
        pass: Pass,
        outcome: Result<Option<Msg>, ZmqError>,
        now: Instant,
    ) -> (flow: Flow)
        requires
            old(self).well_formed(),
        ensures
            final(self).well_formed(),
            ({
                let step = crate::uring::model::data_frame(
                    old(self)@,
                    old(ops)@,
                    pass,
                    crate::uring::types::optional_view(outcome),
                    now,
                );
                &&& final(self)@ == step.handler
                &&& final(ops)@ == step.ops
                &&& flow@ == step.flow
            }),
    {
        proof {
            reveal(crate::uring::model::data_frame);
        }
        match outcome {
            Err(error) => self.fail(ops, error),
            Ok(None) => self.pass_ended(ops, pass, now),
            Ok(Some(msg)) => {
                self.last_activity_time = now;
                let pass = Pass { progress: true, ..pass };
                if msg.is_command() {
                    if let Some(NegotiatedVersion::V2) = self.negotiated_version {
                        return self.fail(
                            ops,
                            ZmqError::ProtocolViolation(
                                "received COMMAND-flagged frame on a ZMTP/2.0 session".to_string(),
                            ),
                        );
                    }
                    Flow::Ask { stage: Stage::DataCommand, pass, request: Request::ParseCommand(msg) }
                } else {
                    Flow::Ask {
                        stage: Stage::DataDelivered,
                        pass,
                        request: Request::Deliver(HandlerUpstreamEvent::Data(msg)),
                    }
                }
            },
        }
    }

    /// A command after the handshake was read.
    fn data_command(
        &mut self,
        ops: &mut HandlerIoOps,
        pass: Pass,
        command: Option<ZmtpCommand>,
    ) -> (flow: Flow)
        requires
            old(self).well_formed(),
        ensures
            final(self).well_formed(),
            ({
                let step = crate::uring::model::data_command(
                    old(self)@,
                    old(ops)@,
                    pass,
                    crate::message::option_view(command),
                );
                &&& final(self)@ == step.handler
                &&& final(ops)@ == step.ops
                &&& flow@ == step.flow
            }),
    {
        proof {
            reveal(crate::uring::model::data_command);
        }
        match command {
            Some(ZmtpCommand::Ping(context)) => Flow::Ask {
                stage: Stage::PongWritten,
                pass,
                request: Request::WritePong(context),
            },
            Some(ZmtpCommand::Pong(_)) => {
                self.waiting_for_pong = false;
                self.last_ping_sent_time = None;
                self.ask_frame(ops, Stage::DataFrame, pass)
            },
            Some(ZmtpCommand::Error) => self.fail(
                ops,
                ZmqError::ProtocolViolation("Peer sent ZMTP ERROR command".to_string()),
            ),
            _ => self.ask_frame(ops, Stage::DataFrame, pass),
        }
    }

    /// The answer to a PING is on the wire.
    fn pong_written(
        &mut self,
        ops: &mut HandlerIoOps,
        pass: Pass,
        wire: Result<Bytes, ZmqError>,
    ) -> (flow: Flow)
        requires
            old(self).well_formed(),
        ensures
            final(self).well_formed(),
            ({
                let step = crate::uring::model::pong_written(
                    old(self)@,
                    old(ops)@,
                    pass,
                    crate::uring::types::wire_view(wire),
                );
                &&& final(self)@ == step.handler
                &&& final(ops)@ == step.ops
                &&& flow@ == step.flow
            }),
    {
        proof {
            reveal(crate::uring::model::pong_written);
        }
        match wire {
            Err(error) => Flow::Return(Err(error)),
            Ok(data) => {
                ops.push(internal_send(data));
                self.ask_frame(ops, Stage::DataFrame, pass)
            },
        }
    }

    /// Whether the socket took a message.
    fn data_delivered(&mut self, ops: &mut HandlerIoOps, pass: Pass, accepted: bool) -> (flow: Flow)
        requires
            old(self).well_formed(),
        ensures
            final(self).well_formed(),
            ({
                let step = crate::uring::model::data_delivered(
                    old(self)@,
                    old(ops)@,
                    pass,
                    accepted,
                );
                &&& final(self)@ == step.handler
                &&& final(ops)@ == step.ops
                &&& flow@ == step.flow
            }),
    {
        proof {
            reveal(crate::uring::model::data_delivered);
        }
        if accepted {
            self.ask_frame(ops, Stage::DataFrame, pass)
        } else {
            self.fail(
                ops,
                ZmqError::Internal("Upstream channel error for ZMTP data".to_string()),
            )
        }
    }

    /// Goes on with a read once the question asked at `stage` is answered.
    pub(crate) fn resume_read(
        &mut self,
        ops: &mut HandlerIoOps,
        stage: Stage,
        pass: Pass,
        reply: Reply,
        now: Instant,
    ) -> (flow: Flow)
        requires
            old(self).well_formed(),
        ensures
            final(self).well_formed(),
            ({
                let step = crate::uring::model::read_resumed(
                    old(self)@,
                    old(ops)@,
                    stage,
                    pass,
                    reply@,
                    now,
                );
                &&& final(self)@ == step.handler
                &&& final(ops)@ == step.ops
                &&& flow@ == step.flow
            }),
    {
        match reply {
            Reply::Done(result) => match stage {
                Stage::Negotiated => self.negotiated(ops, pass, result, now),
                Stage::PeerTokenProcessed => self.peer_token_processed(ops, pass, result),
                _ => Flow::Return(Ok(pass.made_progress)),
            },
            Reply::Frame { outcome, rest } => {
                self.network_read_accumulator = rest;
                match stage {
                    Stage::IdentityFrame => self.identity_frame(ops, pass, outcome),
                    Stage::PeerToken => self.peer_token(ops, pass, outcome),
                    Stage::ClientReadyFrame => self.ready_frame(
                        ops,
                        Stage::ClientReadyParsed,
                        pass,
                        outcome,
                    ),
                    Stage::ServerReadyFrame => self.ready_frame(
                        ops,
                        Stage::ServerReadyParsed,
                        pass,
                        outcome,
                    ),
                    Stage::DataFrame => self.data_frame(ops, pass, outcome, now),
                    _ => Flow::Return(Ok(pass.made_progress)),
                }
            },
            Reply::Yes(yes) => match stage {
                Stage::Signalled => self.signalled(ops, pass, yes, now),
                Stage::SecurityComplete => self.security_complete(ops, pass, yes),
                Stage::CompleteAfter => self.complete_after(ops, pass, yes),
                Stage::DataDelivered => self.data_delivered(ops, pass, yes),
                _ => Flow::Return(Ok(pass.made_progress)),
            },
            Reply::Token(token) => match stage {
                Stage::FirstToken => self.first_token(ops, pass, token),
                Stage::ResponseToken => self.response_token(ops, pass, token),
                _ => Flow::Return(Ok(pass.made_progress)),
            },
            Reply::Fault(fault) => match stage {
                Stage::FaultAfter => self.fault_after(ops, pass, fault, now),
                _ => Flow::Return(Ok(pass.made_progress)),
            },
            Reply::Identity(identity) => match stage {
                Stage::FramerMade => self.framer_made(ops, pass, identity, now),
                _ => Flow::Return(Ok(pass.made_progress)),
            },
            Reply::Wire(wire) => match stage {
                Stage::FirstTokenWritten => self.first_token_written(ops, pass, wire),
                Stage::ResponseWritten => self.response_written(ops, pass, wire),
                Stage::ClientReadyWritten => self.client_ready_written(ops, pass, wire, now),
                Stage::ServerReadyWritten => self.server_ready_written(ops, pass, wire, now),
                Stage::PongWritten => self.pong_written(ops, pass, wire),
                _ => Flow::Return(Ok(pass.made_progress)),
            },
            Reply::Command(command) => match stage {
                Stage::ClientReadyParsed => self.client_ready_parsed(ops, pass, command),
                Stage::ServerReadyParsed => self.server_ready_parsed(ops, pass, command),
                Stage::DataCommand => self.data_command(ops, pass, command),
                _ => Flow::Return(Ok(pass.made_progress)),
            },
            Reply::Intent(_) => Flow::Return(Ok(pass.made_progress)),
        }
    }
}

} // verus!
