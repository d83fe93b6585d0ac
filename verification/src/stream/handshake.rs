//! The handshake of a connection on a stream.

use bytes::BytesMut;
use std::sync::Arc;
use vstd::prelude::*;

use crate::buffer::{advance, as_slice, put_slice, put_u8};
use crate::command::{Properties, ZmtpCommand};
use crate::error::{joined, ZmqError};
use crate::greeting::{
    encode_signature, encode_v3_tail_post_major, peek_revision, socket_type_code,
    socket_type_name_from_code, NegotiatedVersion, ZmtpGreeting, ZmtpV2Greeting, GREETING_LENGTH,
    GREETING_VERSION_MAJOR_BYTE, SIGNATURE_LENGTH, V2_GREETING_LENGTH,
};
use crate::stream::model::SessionModel;
use crate::stream::types::{
    HandshakeFlow, HandshakeReply, HandshakeReplyView, HandshakeRequest, HandshakeStage,
    HandshakeSubPhaseX, ProcessTokenAction, ReadOutcome, ReadPurpose, ReadView, SendPurpose,
    WriteOutcome, ZmtpHandshakeProgressX, ZmtpHandshakeStateX,
};
use crate::heartbeat::{
    check_pong_timeout_impl, process_heartbeat_command_impl, try_send_ping_impl, ZmtpHeartbeatStateX,
};
use crate::message::{Blob, Msg, MsgFlags};
use crate::options::ZmtpEngineConfig;
use crate::ready::{build_stream_ready_properties, copy_property, parse_peer_ready_identity};
use crate::text::{push_hex, quoted, same_text, utf8_string};
use crate::time::{Duration, Instant};
use crate::v2_rules::{enforce_v2_identity_constraints, validate_v2_socket_type_compat};

verus! {

/// A connection on a stream, as far as the handshake goes.
///
/// A step of the handshake hands out questions to the surroundings, which are
/// answered by [`ZmtpProtocolHandlerX::resume_handshake_step`], until the step is
/// done.  What has arrived is kept in the connection, so a step that is given up
/// between a question and its answer can be begun again.
pub struct ZmtpProtocolHandlerX {
    config: Arc<ZmtpEngineConfig>,
    is_server: bool,
    has_stream: bool,
    handshake_state: ZmtpHandshakeStateX,
    heartbeat_state: ZmtpHeartbeatStateX,
    network_read_buffer: BytesMut,
    negotiated_version: Option<NegotiatedVersion>,
    pending_peer_greeting: Option<ZmtpGreeting>,
}

impl View for ZmtpProtocolHandlerX {
    type V = SessionModel;

    closed spec fn view(&self) -> SessionModel {
        SessionModel {
            config: (*self.config)@,
            is_server: self.is_server,
            has_stream: self.has_stream,
            sub_phase: self.handshake_state.sub_phase,
            peer_socket_type: crate::message::option_view(self.handshake_state.peer_socket_type),
            peer_identity: crate::message::option_view(
                self.handshake_state.peer_identity_from_ready,
            ),
            heartbeat: self.heartbeat_state,
            received: crate::buffer::contents(self.network_read_buffer),
            version: self.negotiated_version,
            peer_greeting: crate::message::option_view(self.pending_peer_greeting),
        }
    }
}

/// The error of a write that did not end well.
fn write_error(outcome: WriteOutcome) -> (error: Option<ZmqError>)
    ensures
        crate::message::option_view(error) == crate::stream::model::write_error(outcome),
{
    match outcome {
        WriteOutcome::Written => None,
        WriteOutcome::Elapsed => Some(ZmqError::Timeout),
        WriteOutcome::Failed { errno } => Some(ZmqError::IoError { errno }),
    }
}

/// The step is done, but the handshake is not.
fn in_progress() -> (flow: HandshakeFlow)
    ensures
        flow@ == crate::stream::types::HandshakeFlowView::Return(
            Ok(crate::stream::types::ProgressView::InProgress),
        ),
{
    HandshakeFlow::Return(Ok(ZmtpHandshakeProgressX::InProgress))
}

/// The bytes that a buffer holds, as a vector.
fn to_vec(buffer: &BytesMut) -> (bytes: Vec<u8>)
    ensures
        bytes@ == crate::buffer::contents(*buffer),
{
    vstd::slice::slice_to_vec(as_slice(buffer))
}

impl ZmtpProtocolHandlerX {
    /// A connection that was just made, over a stream.
    pub fn new(
        config: Arc<ZmtpEngineConfig>,
        is_server: bool,
        heartbeat_state: ZmtpHeartbeatStateX,
    ) -> (handler: ZmtpProtocolHandlerX)
        ensures
            handler@ == (SessionModel {
                config: (*config)@,
                is_server,
                has_stream: true,
                sub_phase: HandshakeSubPhaseX::GreetingExchange,
                peer_socket_type: None,
                peer_identity: None,
                heartbeat: heartbeat_state,
                received: Seq::empty(),
                version: None,
                peer_greeting: None,
            }),
    {
        ZmtpProtocolHandlerX {
            config,
            is_server,
            has_stream: true,
            handshake_state: ZmtpHandshakeStateX::new(),
            heartbeat_state,
            network_read_buffer: BytesMut::new(),
            negotiated_version: None,
            pending_peer_greeting: None,
        }
    }

    /// The phase of the handshake.
    pub fn sub_phase(&self) -> (sub_phase: HandshakeSubPhaseX)
        ensures
            sub_phase == self@.sub_phase,
    {
        self.handshake_state.sub_phase
    }

    /// The version that the two ends settled on, once they have.
    pub fn negotiated_version(&self) -> (version: Option<NegotiatedVersion>)
        ensures
            version == self@.version,
    {
        self.negotiated_version
    }

    /// The type of the peer's socket, once it is known.
    pub fn peer_socket_type(&self) -> (name: Option<&str>)
        ensures
            crate::greeting::text_view(name) == self@.peer_socket_type,
    {
        match &self.handshake_state.peer_socket_type {
            Some(name) => Some(name.as_str()),
            None => None,
        }
    }

    /// What is known of the traffic.
    pub fn heartbeat_state(&self) -> (state: ZmtpHeartbeatStateX)
        ensures
            state == self@.heartbeat,
    {
        self.heartbeat_state
    }

    /// How many bytes have arrived that were not yet used.
    pub fn buffered_len(&self) -> (n: usize)
        ensures
            n == self@.received.len(),
    {
        self.network_read_buffer.len()
    }

    /// The stream is gone.
    pub fn drop_stream(&mut self)
        ensures
            final(self)@ == (SessionModel { has_stream: false, ..old(self)@ }),
    {
        self.has_stream = false;
    }

    /// The time that each operation of the handshake may take.
    pub fn operation_timeout(&self) -> (time: Duration)
        ensures
            time == crate::stream::model::operation_time(self@.config),
    {
        match self.config.handshake_timeout {
            Some(time) => time,
            None => Duration::from_secs(15),
        }
    }

    /// The 20 bytes that stand in the greeting for the mechanism to propose.
    pub fn determine_own_greeting_mechanism_impl(&self) -> (field: [u8; 20])
        ensures
            field@ == crate::mechanism::mechanism_field(
                crate::mechanism::proposed_mechanism(self@.config, self@.is_server),
            ),
    {
        self.config.security_mechanism_bytes_to_propose(self.is_server)
    }

    /// The properties of the READY command that this connection sends.
    pub fn build_ready_properties(&self) -> (properties: Properties)
        ensures
            properties@ == crate::ready::stream_ready_properties(self@.config),
    {
        build_stream_ready_properties(&self.config)
    }

    /// Appends bytes that were read.
    fn note_received(&mut self, bytes: &Vec<u8>, now: Instant)
        requires
            crate::buffer::has_room(old(self)@.received, bytes@.len() as int),
        ensures
            final(self)@ == crate::stream::model::with_received(old(self)@, bytes@, now),
    {
        put_slice(&mut self.network_read_buffer, bytes.as_slice());
        self.heartbeat_state.record_activity(now);
    }

    /// Writes bytes and flushes the stream.
    fn write_and_flush(&mut self, stage: HandshakeStage, data: Vec<u8>) -> (flow: HandshakeFlow)
        ensures
            ({
                let step = crate::stream::model::write_and_flush(old(self)@, stage, data@);
                &&& final(self)@ == step.session
                &&& flow@ == step.flow
            }),
    {
        if self.has_stream {
            let within = self.operation_timeout();
            HandshakeFlow::Ask {
                stage,
                request: HandshakeRequest::Write { data, flush: true, within },
            }
        } else {
            HandshakeFlow::Return(Err(ZmqError::Internal("Stream unavailable".to_string())))
        }
    }

    /// Reads more bytes, where there is time left until the deadline.
    fn read_more(
        &mut self,
        stage: HandshakeStage,
        deadline: Instant,
        now: Instant,
    ) -> (flow: HandshakeFlow)
        ensures
            ({
                let step = crate::stream::model::read_more(old(self)@, stage, deadline, now);
                &&& final(self)@ == step.session
                &&& flow@ == step.flow
            }),
    {
        let remaining = deadline.duration_since(now);
        if remaining.nanos == 0 {
            HandshakeFlow::Return(Err(ZmqError::Timeout))
        } else {
            HandshakeFlow::Ask { stage, request: HandshakeRequest::Read { within: remaining } }
        }
    }

    /// Sends the signature and the major version, whatever the peer's version.
    fn send_signature_impl(&mut self) -> (flow: HandshakeFlow)
        ensures
            ({
                let step = crate::stream::model::send_signature(old(self)@);
                &&& final(self)@ == step.session
                &&& flow@ == step.flow
            }),
    {
        let mut prelude = BytesMut::new();
        encode_signature(&mut prelude);
        put_u8(&mut prelude, GREETING_VERSION_MAJOR_BYTE);
        assert(crate::buffer::contents(prelude) =~= crate::greeting::prelude_bytes());
        self.write_and_flush(HandshakeStage::SignatureSent, to_vec(&prelude))
    }

    /// The signature and the major version were sent.
    fn signature_sent(&mut self, outcome: WriteOutcome, now: Instant) -> (flow: HandshakeFlow)
        ensures
            ({
                let step = crate::stream::model::signature_sent(old(self)@, outcome, now);
                &&& final(self)@ == step.session
                &&& flow@ == step.flow
            }),
    {
        proof {
            reveal(crate::stream::model::signature_sent);
        }
        if let Some(error) = write_error(outcome) {
            return HandshakeFlow::Return(Err(error));
        }
        self.heartbeat_state.record_activity(now);
        self.network_read_buffer.clear();
        self.handshake_state.sub_phase = HandshakeSubPhaseX::WaitingForPeerRevision;
        in_progress()
    }

    /// Waits for the first eleven bytes of the peer, and sends the tail that they call
    /// for.
    fn wait_for_peer_revision_impl(
        &mut self,
        deadline: Instant,
        now: Instant,
    ) -> (flow: HandshakeFlow)
        ensures
            ({
                let step = crate::stream::model::peer_revision(old(self)@, deadline, now);
                &&& final(self)@ == step.session
                &&& flow@ == step.flow
            }),
    {
        proof {
            reveal(crate::stream::model::peer_revision);
        }
        if !self.has_stream {
            return HandshakeFlow::Return(
                Err(ZmqError::Internal("Stream unavailable".to_string())),
            );
        }
        if self.network_read_buffer.len() < SIGNATURE_LENGTH + 1 {
            return self.read_more(HandshakeStage::PeekRead { deadline }, deadline, now);
        }
        let ghost received = self@.received;
        assert(received.subrange(0, 11) =~= received.take(11));
        match peek_revision(
            vstd::slice::slice_subrange(as_slice(&self.network_read_buffer), 0, SIGNATURE_LENGTH + 1),
        ) {
            Err(error) => HandshakeFlow::Return(Err(error)),
            Ok(revision) => {
                if revision == ZmtpV2Greeting::REVISION {
                    self.write_v2_tail_and_advance()
                } else if revision >= GREETING_VERSION_MAJOR_BYTE {
                    let mechanism = self.determine_own_greeting_mechanism_impl();
                    let mut tail = BytesMut::new();
                    encode_v3_tail_post_major(&mechanism, self.is_server, &mut tail);
                    let data = to_vec(&tail);
                    assert(data@ =~= crate::greeting::v3_tail_post_major_bytes(
                        mechanism@,
                        self@.is_server,
                    ));
                    self.write_and_flush(HandshakeStage::V3TailSent, data)
                } else {
                    let mut text = "Unsupported ZMTP revision ".to_string();
                    push_hex(&mut text, revision);
                    text.append(" (only 0x01 and 0x03+ are supported)");
                    HandshakeFlow::Return(Err(ZmqError::ProtocolViolation(text)))
                }
            },
        }
    }

    /// Sends the socket type to a peer of version 2.0, if that is allowed.
    fn write_v2_tail_and_advance(&mut self) -> (flow: HandshakeFlow)
        ensures
            ({
                let step = crate::stream::model::send_v2_tail(old(self)@);
                &&& final(self)@ == step.session
                &&& flow@ == step.flow
            }),
    {
        if !self.config.allow_zmtp2 {
            return HandshakeFlow::Return(
                Err(
                    ZmqError::ProtocolViolation(
                        "peer advertised ZMTP/2.0 but allow_zmtp2 is disabled".to_string(),
                    ),
                ),
            );
        }
        match socket_type_code(self.config.socket_type_name.as_str()) {
            None => {
                let name = quoted(self.config.socket_type_name.as_str());
                let text = joined("no ZMTP/2.0 socket-type byte for socket type ", name.as_str());
                HandshakeFlow::Return(Err(ZmqError::ProtocolViolation(text)))
            },
            Some(code) => {
                let mut tail: Vec<u8> = Vec::new();
                tail.push(code);
                assert(tail@ =~= seq![code]);
                self.write_and_flush(HandshakeStage::V2TailSent, tail)
            },
        }
    }

    /// The socket type was sent: the two ends speak version 2.0.
    fn v2_tail_sent(&mut self, outcome: WriteOutcome) -> (flow: HandshakeFlow)
        ensures
            ({
                let step = crate::stream::model::v2_tail_sent(old(self)@, outcome);
                &&& final(self)@ == step.session
                &&& flow@ == step.flow
            }),
    {
        proof {
            reveal(crate::stream::model::v2_tail_sent);
        }
        if let Some(error) = write_error(outcome) {
            return HandshakeFlow::Return(Err(error));
        }
        self.negotiated_version = Some(NegotiatedVersion::V2);
        self.handshake_state.sub_phase = HandshakeSubPhaseX::V2IdentityExchange;
        in_progress()
    }

    /// The rest of the ZMTP/3.x greeting was sent.
    fn v3_tail_sent(&mut self, outcome: WriteOutcome) -> (flow: HandshakeFlow)
        ensures
            ({
                let step = crate::stream::model::v3_tail_sent(old(self)@, outcome);
                &&& final(self)@ == step.session
                &&& flow@ == step.flow
            }),
    {
        proof {
            reveal(crate::stream::model::v3_tail_sent);
        }
        if let Some(error) = write_error(outcome) {
            return HandshakeFlow::Return(Err(error));
        }
        self.handshake_state.sub_phase = HandshakeSubPhaseX::WaitingForGreeting;
        in_progress()
    }

    /// Waits for the whole ZMTP/3.x greeting of the peer.
    fn receive_greeting_impl(&mut self, deadline: Instant, now: Instant) -> (flow: HandshakeFlow)
        ensures
            ({
                let step = crate::stream::model::receive_greeting(old(self)@, deadline, now);
                &&& final(self)@ == step.session
                &&& flow@ == step.flow
            }),
    {
        proof {
            reveal(crate::stream::model::receive_greeting);
        }
        if !self.has_stream {
            return HandshakeFlow::Return(
                Err(ZmqError::Internal("Stream unavailable".to_string())),
            );
        }
        if self.network_read_buffer.len() < GREETING_LENGTH {
            return self.read_more(HandshakeStage::GreetingRead { deadline }, deadline, now);
        }
        match ZmtpGreeting::decode(&mut self.network_read_buffer) {
            Err(error) => HandshakeFlow::Return(Err(error)),
            Ok(None) => HandshakeFlow::Return(
                Err(ZmqError::ProtocolViolation("g decode".to_string())),
            ),
            Ok(Some(greeting)) => {
                self.negotiated_version = Some(NegotiatedVersion::V3 { minor: greeting.version.1 });
                self.pending_peer_greeting = Some(greeting);
                self.handshake_state.sub_phase = HandshakeSubPhaseX::SecurityHandshake;
                in_progress()
            },
        }
    }

    /// Asks the mechanism how far it has come.
    fn security_turn(&mut self) -> (flow: HandshakeFlow)
        ensures
            ({
                let step = crate::stream::model::security_turn(old(self)@);
                &&& final(self)@ == step.session
                &&& flow@ == step.flow
            }),
    {
        HandshakeFlow::Ask {
            stage: HandshakeStage::MechanismStatus,
            request: HandshakeRequest::MechanismComplete,
        }
    }

    /// Begins the work of the mechanism: the one of before the greetings is replaced.
    fn mechanism_named(&mut self, name: String) -> (flow: HandshakeFlow)
        ensures
            ({
                let step = crate::stream::model::mechanism_named(old(self)@, name@);
                &&& final(self)@ == step.session
                &&& flow@ == step.flow
            }),
    {
        proof {
            reveal(crate::stream::model::mechanism_named);
        }
        if same_text(name.as_str(), "NULL") {
            match self.pending_peer_greeting {
                Some(greeting) => HandshakeFlow::Ask {
                    stage: HandshakeStage::MechanismNegotiated,
                    request: HandshakeRequest::Negotiate(greeting),
                },
                None => HandshakeFlow::Return(
                    Err(
                        ZmqError::Internal(
                            "Handshake entered security phase without a peer greeting".to_string(),
                        ),
                    ),
                ),
            }
        } else {
            self.security_turn()
        }
    }

    /// The mechanism was chosen.
    fn mechanism_negotiated(&mut self, result: Result<(), ZmqError>) -> (flow: HandshakeFlow)
        ensures
            ({
                let step = crate::stream::model::mechanism_negotiated(
                    old(self)@,
                    crate::error::result_view(result),
                );
                &&& final(self)@ == step.session
                &&& flow@ == step.flow
            }),
    {
        proof {
            reveal(crate::stream::model::mechanism_negotiated);
        }
        match result {
            Err(error) => HandshakeFlow::Return(Err(error)),
            Ok(_) => self.security_turn(),
        }
    }

    /// Whether the mechanism has done its work.
    fn mechanism_status(&mut self, complete: bool) -> (flow: HandshakeFlow)
        ensures
            ({
                let step = crate::stream::model::mechanism_status(old(self)@, complete);
                &&& final(self)@ == step.session
                &&& flow@ == step.flow
            }),
    {
        proof {
            reveal(crate::stream::model::mechanism_status);
        }
        if complete {
            HandshakeFlow::Ask {
                stage: HandshakeStage::FramerMade,
                request: HandshakeRequest::IntoFramer(self.config.max_msg_size),
            }
        } else {
            HandshakeFlow::Ask {
                stage: HandshakeStage::MechanismFault,
                request: HandshakeRequest::MechanismFault,
            }
        }
    }

    /// The mechanism made the framer: the READY commands come next.
    fn framer_made(&mut self, identity: Result<Option<Vec<u8>>, ZmqError>) -> (flow: HandshakeFlow)
        ensures
            ({
                let step = crate::stream::model::framer_made(
                    old(self)@,
                    crate::uring::types::optional_view(identity),
                );
                &&& final(self)@ == step.session
                &&& flow@ == step.flow
            }),
    {
        proof {
            reveal(crate::stream::model::framer_made);
        }
        match identity {
            Err(error) => HandshakeFlow::Return(Err(error)),
            Ok(identity) => {
                self.handshake_state.sub_phase = HandshakeSubPhaseX::ReadyExchange;
                match identity {
                    Some(id) => HandshakeFlow::Return(
                        Ok(ZmtpHandshakeProgressX::IdentityReady(Blob::from_vec(id))),
                    ),
                    None => in_progress(),
                }
            },
        }
    }

    /// Whether the mechanism has failed.
    fn mechanism_fault(&mut self, fault: Option<Option<String>>) -> (flow: HandshakeFlow)
        ensures
            ({
                let step = crate::stream::model::mechanism_fault(
                    old(self)@,
                    crate::uring::types::fault_view(fault),
                );
                &&& final(self)@ == step.session
                &&& flow@ == step.flow
            }),
    {
        proof {
            reveal(crate::stream::model::mechanism_fault);
        }
        match fault {
            Some(Some(reason)) => HandshakeFlow::Return(Err(ZmqError::SecurityError(reason))),
            Some(None) => HandshakeFlow::Return(
                Err(ZmqError::SecurityError("Unknown security error".to_string())),
            ),
            None => HandshakeFlow::Ask {
                stage: HandshakeStage::TokenProduced,
                request: HandshakeRequest::ProduceToken,
            },
        }
    }

    /// Sends a command: it is put on the wire first.
    fn send_handshake_command_frame_impl(
        &mut self,
        purpose: SendPurpose,
        command_msg: Msg,
    ) -> (flow: HandshakeFlow)
        ensures
            ({
                let step = crate::stream::model::send_command(old(self)@, purpose, command_msg@);
                &&& final(self)@ == step.session
                &&& flow@ == step.flow
            }),
    {
        HandshakeFlow::Ask {
            stage: HandshakeStage::CommandEncoded(purpose),
            request: HandshakeRequest::EncodeCommand(
                command_msg.with_flags(MsgFlags::with_command()),
            ),
        }
    }

    /// The mechanism has a token to send; where it has none, the peer's is awaited.
    fn token_produced(
        &mut self,
        token: Result<Option<Vec<u8>>, ZmqError>,
        now: Instant,
    ) -> (flow: HandshakeFlow)
        requires
            crate::time::in_range(now, crate::stream::model::operation_time(old(self)@.config)),
        ensures
            ({
                let step = crate::stream::model::token_produced(
                    old(self)@,
                    crate::uring::types::optional_view(token),
                    now,
                );
                &&& final(self)@ == step.session
                &&& flow@ == step.flow
            }),
    {
        proof {
            reveal(crate::stream::model::token_produced);
        }
        match token {
            Err(error) => HandshakeFlow::Return(Err(error)),
            Ok(Some(token)) => self.send_handshake_command_frame_impl(
                SendPurpose::Token,
                Msg::from_vec(token),
            ),
            Ok(None) => self.read_handshake_command_frame_impl(ReadPurpose::Token, now),
        }
    }

    /// The mechanism answers the token of the peer, as it said it would.
    fn reply_produced(&mut self, token: Result<Option<Vec<u8>>, ZmqError>) -> (flow: HandshakeFlow)
        ensures
            ({
                let step = crate::stream::model::reply_produced(
                    old(self)@,
                    crate::uring::types::optional_view(token),
                );
                &&& final(self)@ == step.session
                &&& flow@ == step.flow
            }),
    {
        proof {
            reveal(crate::stream::model::reply_produced);
        }
        match token {
            Err(error) => HandshakeFlow::Return(Err(error)),
            Ok(Some(token)) => self.send_handshake_command_frame_impl(
                SendPurpose::ReplyToken,
                Msg::from_vec(token),
            ),
            Ok(None) => HandshakeFlow::Return(
                Err(
                    ZmqError::Internal(
                        "Mechanism requested ProduceAndSend but then produced no token.".to_string(),
                    ),
                ),
            ),
        }
    }

    /// The mechanism took the token of the peer.
    fn token_processed(
        &mut self,
        action: Result<ProcessTokenAction, ZmqError>,
    ) -> (flow: HandshakeFlow)
        ensures
            ({
                let step = crate::stream::model::token_processed(
                    old(self)@,
                    crate::error::result_view(action),
                );
                &&& final(self)@ == step.session
                &&& flow@ == step.flow
            }),
    {
        proof {
            reveal(crate::stream::model::token_processed);
        }
        match action {
            Err(error) => HandshakeFlow::Return(Err(error)),
            Ok(ProcessTokenAction::ProduceAndSend) => HandshakeFlow::Ask {
                stage: HandshakeStage::ReplyProduced,
                request: HandshakeRequest::ProduceToken,
            },
            Ok(_) => self.security_turn(),
        }
    }

    /// A command is on the wire: it is written.
    fn command_encoded(
        &mut self,
        purpose: SendPurpose,
        data: Result<Vec<u8>, ZmqError>,
    ) -> (flow: HandshakeFlow)
        ensures
            ({
                let step = crate::stream::model::command_encoded(
                    old(self)@,
                    purpose,
                    crate::options::values::value_view(data),
                );
                &&& final(self)@ == step.session
                &&& flow@ == step.flow
            }),
    {
        proof {
            reveal(crate::stream::model::command_encoded);
        }
        match data {
            Err(error) => HandshakeFlow::Return(Err(error)),
            Ok(data) => {
                if self.has_stream {
                    let within = self.operation_timeout();
                    HandshakeFlow::Ask {
                        stage: HandshakeStage::CommandSent(purpose),
                        request: HandshakeRequest::Write { data, flush: false, within },
                    }
                } else {
                    HandshakeFlow::Return(
                        Err(ZmqError::Internal("Stream unavailable for send".to_string())),
                    )
                }
            },
        }
    }

    /// The handshake is done.
    fn finished(&mut self, identity: Option<Blob>) -> (flow: HandshakeFlow)
        ensures
            ({
                let step = crate::stream::model::finished(
                    old(self)@,
                    crate::message::option_view(identity),
                );
                &&& final(self)@ == step.session
                &&& flow@ == step.flow
            }),
    {
        self.handshake_state.sub_phase = HandshakeSubPhaseX::Done;
        match identity {
            Some(id) => HandshakeFlow::Return(Ok(ZmtpHandshakeProgressX::IdentityReady(id))),
            None => HandshakeFlow::Return(Ok(ZmtpHandshakeProgressX::HandshakeComplete)),
        }
    }

    /// A command was written.
    fn command_sent(
        &mut self,
        purpose: SendPurpose,
        outcome: WriteOutcome,
        now: Instant,
    ) -> (flow: HandshakeFlow)
        ensures
            ({
                let step = crate::stream::model::command_sent(old(self)@, purpose, outcome, now);
                &&& final(self)@ == step.session
                &&& flow@ == step.flow
            }),
    {
        proof {
            reveal(crate::stream::model::command_sent);
        }
        if let Some(error) = write_error(outcome) {
            return HandshakeFlow::Return(Err(error));
        }
        self.heartbeat_state.record_activity(now);
        match purpose {
            SendPurpose::Token | SendPurpose::ReplyToken => self.security_turn(),
            SendPurpose::ClientReady => {
                self.handshake_state.sub_phase = HandshakeSubPhaseX::ClientSentReady;
                in_progress()
            },
            SendPurpose::ServerReady => {
                let identity = self.handshake_state.peer_identity_from_ready.take();
                self.finished(identity)
            },
        }
    }

    /// Waits for a command of the peer.
    fn read_handshake_command_frame_impl(
        &mut self,
        purpose: ReadPurpose,
        now: Instant,
    ) -> (flow: HandshakeFlow)
        requires
            crate::time::in_range(now, crate::stream::model::operation_time(old(self)@.config)),
        ensures
            ({
                let step = crate::stream::model::receive_command(old(self)@, purpose, now);
                &&& final(self)@ == step.session
                &&& flow@ == step.flow
            }),
    {
        if self.has_stream {
            let deadline = now.plus(self.operation_timeout());
            self.decode_command(purpose, deadline, now)
        } else {
            HandshakeFlow::Return(
                Err(
                    ZmqError::Internal(
                        "Stream unavailable for reading handshake command".to_string(),
                    ),
                ),
            )
        }
    }

    /// Looks for a command where any bytes have arrived; else reads more.
    fn decode_command(
        &mut self,
        purpose: ReadPurpose,
        deadline: Instant,
        now: Instant,
    ) -> (flow: HandshakeFlow)
        ensures
            ({
                let step = crate::stream::model::decode_command(old(self)@, purpose, deadline, now);
                &&& final(self)@ == step.session
                &&& flow@ == step.flow
            }),
    {
        if !self.network_read_buffer.is_empty() {
            let mut bytes = BytesMut::new();
            std::mem::swap(&mut bytes, &mut self.network_read_buffer);
            HandshakeFlow::Ask {
                stage: HandshakeStage::CommandDecoded { purpose, deadline },
                request: HandshakeRequest::DecodeFrame(bytes),
            }
        } else {
            self.read_more(HandshakeStage::CommandRead { purpose, deadline }, deadline, now)
        }
    }

    /// A command of the peer has arrived, or not yet.
    fn command_decoded(
        &mut self,
        purpose: ReadPurpose,
        deadline: Instant,
        outcome: Result<Option<Msg>, ZmqError>,
        now: Instant,
    ) -> (flow: HandshakeFlow)
        ensures
            ({
                let step = crate::stream::model::command_decoded(
                    old(self)@,
                    purpose,
                    deadline,
                    crate::uring::types::optional_view(outcome),
                    now,
                );
                &&& final(self)@ == step.session
                &&& flow@ == step.flow
            }),
    {
        proof {
            reveal(crate::stream::model::command_decoded);
        }
        match outcome {
            Err(error) => HandshakeFlow::Return(Err(error)),
            Ok(None) => self.read_more(
                HandshakeStage::CommandRead { purpose, deadline },
                deadline,
                now,
            ),
            Ok(Some(msg)) => {
                self.heartbeat_state.record_activity(now);
                if !msg.is_command() {
                    return HandshakeFlow::Return(
                        Err(
                            ZmqError::ProtocolViolation(
                                "Expected COMMAND frame in handshake".to_string(),
                            ),
                        ),
                    );
                }
                match purpose {
                    ReadPurpose::Token => HandshakeFlow::Ask {
                        stage: HandshakeStage::TokenProcessed,
                        request: HandshakeRequest::ProcessToken(msg.body()),
                    },
                    _ => HandshakeFlow::Ask {
                        stage: HandshakeStage::ReadyParsed(purpose),
                        request: HandshakeRequest::ParseCommand(msg),
                    },
                }
            },
        }
    }

    /// Bytes came while a command was awaited.
    fn command_read(
        &mut self,
        purpose: ReadPurpose,
        deadline: Instant,
        outcome: ReadOutcome,
        now: Instant,
    ) -> (flow: HandshakeFlow)
        requires
            outcome@ matches ReadView::Data(bytes) ==> crate::buffer::has_room(
                old(self)@.received,
                bytes.len() as int,
            ),
        ensures
            ({
                let step = crate::stream::model::command_read(
                    old(self)@,
                    purpose,
                    deadline,
                    outcome@,
                    now,
                );
                &&& final(self)@ == step.session
                &&& flow@ == step.flow
            }),
    {
        proof {
            reveal(crate::stream::model::command_read);
        }
        match outcome {
            ReadOutcome::Elapsed => HandshakeFlow::Return(Err(ZmqError::Timeout)),
            ReadOutcome::Failed { errno } => HandshakeFlow::Return(Err(ZmqError::IoError { errno })),
            ReadOutcome::Data(bytes) => {
                if bytes.len() == 0 {
                    return HandshakeFlow::Return(Err(ZmqError::ConnectionClosed));
                }
                self.note_received(&bytes, now);
                self.decode_command(purpose, deadline, now)
            },
        }
    }

    /// Makes the READY command of this end.
    fn create_ready(&mut self, purpose: SendPurpose) -> (flow: HandshakeFlow)
        ensures
            ({
                let step = crate::stream::model::create_ready(old(self)@, purpose);
                &&& final(self)@ == step.session
                &&& flow@ == step.flow
            }),
    {
        HandshakeFlow::Ask {
            stage: HandshakeStage::ReadyCreated(purpose),
            request: HandshakeRequest::CreateReady(self.build_ready_properties()),
        }
    }

    /// Exchanges the READY commands: the client's comes first.
    fn perform_ready_exchange_step_impl(&mut self, now: Instant) -> (flow: HandshakeFlow)
        requires
            crate::time::in_range(now, crate::stream::model::operation_time(old(self)@.config)),
        ensures
            ({
                let step = crate::stream::model::ready_exchange(old(self)@, now);
                &&& final(self)@ == step.session
                &&& flow@ == step.flow
            }),
    {
        if self.is_server {
            self.read_handshake_command_frame_impl(ReadPurpose::ClientReady, now)
        } else {
            self.create_ready(SendPurpose::ClientReady)
        }
    }

    /// Keeps the type of socket that the peer announced, if it did.
    fn note_peer_type(&mut self, properties: &Properties)
        ensures
            final(self)@ == crate::stream::model::with_peer_type(old(self)@, properties@),
    {
        if let Some(bytes) = copy_property(properties, "Socket-Type") {
            if let Some(name) = utf8_string(bytes) {
                self.handshake_state.peer_socket_type = Some(name);
            }
        }
    }

    /// The READY command of the peer was read.
    fn ready_parsed(
        &mut self,
        purpose: ReadPurpose,
        command: Option<ZmtpCommand>,
    ) -> (flow: HandshakeFlow)
        ensures
            ({
                let step = crate::stream::model::ready_parsed(
                    old(self)@,
                    purpose,
                    crate::message::option_view(command),
                );
                &&& final(self)@ == step.session
                &&& flow@ == step.flow
            }),
    {
        proof {
            reveal(crate::stream::model::ready_parsed);
        }
        match command {
            Some(ZmtpCommand::Ready(ready)) => {
                self.note_peer_type(&ready.properties);
                let identity = parse_peer_ready_identity(&ready);
                if purpose == ReadPurpose::ClientReady {
                    self.handshake_state.peer_identity_from_ready = identity;
                    self.handshake_state.sub_phase = HandshakeSubPhaseX::ServerReceivedReady;
                    in_progress()
                } else {
                    self.finished(identity)
                }
            },
            _ => HandshakeFlow::Return(
                Err(ZmqError::ProtocolViolation("Expected READY".to_string())),
            ),
        }
    }

    /// ZMTP/2.0: waits for the socket type of the peer, checks it, and sends the empty
    /// identity.
    fn exchange_v2_identity(&mut self, deadline: Instant, now: Instant) -> (flow: HandshakeFlow)
        ensures
            ({
                let step = crate::stream::model::v2_greeting(old(self)@, deadline, now);
                &&& final(self)@ == step.session
                &&& flow@ == step.flow
            }),
    {
        proof {
            reveal(crate::stream::model::v2_greeting);
        }
        if !self.has_stream {
            return HandshakeFlow::Return(
                Err(ZmqError::Internal("Stream unavailable".to_string())),
            );
        }
        if self.network_read_buffer.len() < V2_GREETING_LENGTH {
            return self.read_more(HandshakeStage::V2GreetingRead { deadline }, deadline, now);
        }
        let peer_type: u8 = as_slice(&self.network_read_buffer)[11];
        advance(&mut self.network_read_buffer, V2_GREETING_LENGTH);
        match validate_v2_socket_type_compat(self.config.socket_type_name.as_str(), peer_type) {
            Err(error) => HandshakeFlow::Return(Err(error)),
            Ok(_) => {
                self.handshake_state.peer_socket_type = match socket_type_name_from_code(peer_type) {
                    Some(name) => Some(name.to_string()),
                    None => None,
                };
                let mut identity: Vec<u8> = Vec::new();
                identity.push(0);
                identity.push(0);
                assert(identity@ =~= seq![0u8, 0u8]);
                self.write_and_flush(HandshakeStage::V2IdentitySent, identity)
            },
        }
    }

    /// ZMTP/2.0: the empty identity was sent; the peer's is awaited.
    fn v2_identity_sent(&mut self, outcome: WriteOutcome, now: Instant) -> (flow: HandshakeFlow)
        requires
            crate::time::in_range(now, crate::stream::model::operation_time(old(self)@.config)),
        ensures
            ({
                let step = crate::stream::model::v2_identity_sent(old(self)@, outcome, now);
                &&& final(self)@ == step.session
                &&& flow@ == step.flow
            }),
    {
        proof {
            reveal(crate::stream::model::v2_identity_sent);
        }
        if let Some(error) = write_error(outcome) {
            return HandshakeFlow::Return(Err(error));
        }
        self.heartbeat_state.record_activity(now);
        let deadline = now.plus(self.operation_timeout());
        self.read_v2_identity_frame(deadline, now)
    }

    /// ZMTP/2.0: looks for the identity of the peer where any bytes have arrived; else
    /// reads more.
    fn read_v2_identity_frame(&mut self, deadline: Instant, now: Instant) -> (flow: HandshakeFlow)
        ensures
            ({
                let step = crate::stream::model::decode_v2_identity(old(self)@, deadline, now);
                &&& final(self)@ == step.session
                &&& flow@ == step.flow
            }),
    {
        if !self.network_read_buffer.is_empty() {
            let mut bytes = BytesMut::new();
            std::mem::swap(&mut bytes, &mut self.network_read_buffer);
            HandshakeFlow::Ask {
                stage: HandshakeStage::V2IdentityDecoded { deadline },
                request: HandshakeRequest::DecodeFrame(bytes),
            }
        } else {
            self.read_more(HandshakeStage::V2IdentityRead { deadline }, deadline, now)
        }
    }

    /// ZMTP/2.0: the identity of the peer has arrived, or not yet.
    fn v2_identity_decoded(
        &mut self,
        deadline: Instant,
        outcome: Result<Option<Msg>, ZmqError>,
        now: Instant,
    ) -> (flow: HandshakeFlow)
        ensures
            ({
                let step = crate::stream::model::v2_identity_decoded(
                    old(self)@,
                    deadline,
                    crate::uring::types::optional_view(outcome),
                    now,
                );
                &&& final(self)@ == step.session
                &&& flow@ == step.flow
            }),
    {
        proof {
            reveal(crate::stream::model::v2_identity_decoded);
        }
        match outcome {
            Err(error) => HandshakeFlow::Return(Err(error)),
            Ok(None) => self.read_more(HandshakeStage::V2IdentityRead { deadline }, deadline, now),
            Ok(Some(msg)) => {
                if let Err(error) = enforce_v2_identity_constraints(&msg) {
                    return HandshakeFlow::Return(Err(error));
                }
                self.heartbeat_state.record_activity(now);
                if msg.size() > 0 {
                    self.handshake_state.peer_identity_from_ready = Some(Blob::from_vec(msg.body()));
                }
                let identity = self.handshake_state.peer_identity_from_ready.take();
                self.finished(identity)
            },
        }
    }

    /// ZMTP/2.0: bytes came while the identity of the peer was awaited.
    fn v2_identity_read(
        &mut self,
        deadline: Instant,
        outcome: ReadOutcome,
        now: Instant,
    ) -> (flow: HandshakeFlow)
        requires
            outcome@ matches ReadView::Data(bytes) ==> crate::buffer::has_room(
                old(self)@.received,
                bytes.len() as int,
            ),
        ensures
            ({
                let step = crate::stream::model::v2_identity_read(
                    old(self)@,
                    deadline,
                    outcome@,
                    now,
                );
                &&& final(self)@ == step.session
                &&& flow@ == step.flow
            }),
    {
        proof {
            reveal(crate::stream::model::v2_identity_read);
        }
        match outcome {
            ReadOutcome::Elapsed => HandshakeFlow::Return(Err(ZmqError::Timeout)),
            ReadOutcome::Failed { errno } => HandshakeFlow::Return(Err(ZmqError::IoError { errno })),
            ReadOutcome::Data(bytes) => {
                if bytes.len() == 0 {
                    return HandshakeFlow::Return(Err(ZmqError::ConnectionClosed));
                }
                self.note_received(&bytes, now);
                self.read_v2_identity_frame(deadline, now)
            },
        }
    }

    /// Bytes came while a greeting was awaited.
    fn greeting_read(
        &mut self,
        stage: HandshakeStage,
        outcome: ReadOutcome,
        now: Instant,
    ) -> (flow: HandshakeFlow)
        requires
            outcome@ matches ReadView::Data(bytes) ==> crate::buffer::has_room(
                old(self)@.received,
                bytes.len() as int,
            ),
        ensures
            ({
                let step = crate::stream::model::greeting_read(old(self)@, stage, outcome@, now);
                &&& final(self)@ == step.session
                &&& flow@ == step.flow
            }),
    {
        proof {
            reveal(crate::stream::model::greeting_read);
        }
        match outcome {
            ReadOutcome::Elapsed => HandshakeFlow::Return(Err(ZmqError::Timeout)),
            ReadOutcome::Failed { errno } => HandshakeFlow::Return(Err(ZmqError::IoError { errno })),
            ReadOutcome::Data(bytes) => {
                if bytes.len() == 0 {
                    return HandshakeFlow::Return(Err(ZmqError::ConnectionClosed));
                }
                self.note_received(&bytes, now);
                match stage {
                    HandshakeStage::PeekRead { deadline } => self.wait_for_peer_revision_impl(
                        deadline,
                        now,
                    ),
                    HandshakeStage::GreetingRead { deadline } => self.receive_greeting_impl(
                        deadline,
                        now,
                    ),
                    HandshakeStage::V2GreetingRead { deadline } => self.exchange_v2_identity(
                        deadline,
                        now,
                    ),
                    _ => in_progress(),
                }
            },
        }
    }

    /// Begins a step of the handshake, by the phase that it is in.
    pub fn advance_handshake_step_impl(&mut self, now: Instant) -> (flow: HandshakeFlow)
        requires
            crate::time::in_range(now, crate::stream::model::operation_time(old(self)@.config)),
        ensures
            ({
                let step = crate::stream::model::step_begun(old(self)@, now);
                &&& final(self)@ == step.session
                &&& flow@ == step.flow
            }),
    {
        let deadline = now.plus(self.operation_timeout());
        match self.handshake_state.sub_phase {
            HandshakeSubPhaseX::GreetingExchange => self.send_signature_impl(),
            HandshakeSubPhaseX::WaitingForPeerRevision => self.wait_for_peer_revision_impl(
                deadline,
                now,
            ),
            HandshakeSubPhaseX::WaitingForGreeting => self.receive_greeting_impl(deadline, now),
            HandshakeSubPhaseX::SecurityHandshake => self.perform_security_handshake_step_impl(),
            HandshakeSubPhaseX::ReadyExchange => self.perform_ready_exchange_step_impl(now),
            HandshakeSubPhaseX::ClientSentReady => self.read_handshake_command_frame_impl(
                ReadPurpose::ServerReady,
                now,
            ),
            HandshakeSubPhaseX::ServerReceivedReady => self.create_ready(SendPurpose::ServerReady),
            HandshakeSubPhaseX::V2IdentityExchange => self.exchange_v2_identity(deadline, now),
            HandshakeSubPhaseX::Done => HandshakeFlow::Return(
                Ok(ZmtpHandshakeProgressX::HandshakeComplete),
            ),
        }
    }

    /// Begins a step of the work of the mechanism: its name tells whether it was
    /// chosen already.
    fn perform_security_handshake_step_impl(&mut self) -> (flow: HandshakeFlow)
        ensures
            final(self)@ == old(self)@,
            flow@ == (crate::stream::types::HandshakeFlowView::Ask {
                stage: HandshakeStage::MechanismNamed,
                request: crate::stream::types::HandshakeRequestView::MechanismName,
            }),
    {
        HandshakeFlow::Ask {
            stage: HandshakeStage::MechanismNamed,
            request: HandshakeRequest::MechanismName,
        }
    }

    /// Goes on with a step once the question asked at `stage` is answered.
    pub fn resume_handshake_step(
        &mut self,
        stage: HandshakeStage,
        reply: HandshakeReply,
        now: Instant,
    ) -> (flow: HandshakeFlow)
        requires
            crate::time::in_range(now, crate::stream::model::operation_time(old(self)@.config)),
            reply@ matches HandshakeReplyView::Read(ReadView::Data(bytes))
                ==> crate::buffer::has_room(old(self)@.received, bytes.len() as int),
        ensures
            ({
                let step = crate::stream::model::step_resumed(old(self)@, stage, reply@, now);
                &&& final(self)@ == step.session
                &&& flow@ == step.flow
            }),
    {
        proof {
            reveal(crate::stream::model::step_resumed);
        }
        match reply {
            HandshakeReply::Wrote(outcome) => match stage {
                HandshakeStage::SignatureSent => self.signature_sent(outcome, now),
                HandshakeStage::V2TailSent => self.v2_tail_sent(outcome),
                HandshakeStage::V3TailSent => self.v3_tail_sent(outcome),
                HandshakeStage::CommandSent(purpose) => self.command_sent(purpose, outcome, now),
                HandshakeStage::V2IdentitySent => self.v2_identity_sent(outcome, now),
                _ => in_progress(),
            },
            HandshakeReply::Read(outcome) => match stage {
                HandshakeStage::CommandRead { purpose, deadline } => self.command_read(
                    purpose,
                    deadline,
                    outcome,
                    now,
                ),
                HandshakeStage::V2IdentityRead { deadline } => self.v2_identity_read(
                    deadline,
                    outcome,
                    now,
                ),
                _ => self.greeting_read(stage, outcome, now),
            },
            HandshakeReply::Frame { outcome, rest } => {
                self.network_read_buffer = rest;
                match stage {
                    HandshakeStage::CommandDecoded { purpose, deadline } => self.command_decoded(
                        purpose,
                        deadline,
                        outcome,
                        now,
                    ),
                    HandshakeStage::V2IdentityDecoded { deadline } => self.v2_identity_decoded(
                        deadline,
                        outcome,
                        now,
                    ),
                    _ => in_progress(),
                }
            },
            HandshakeReply::Encoded(data) => match stage {
                HandshakeStage::CommandEncoded(purpose) => self.command_encoded(purpose, data),
                _ => in_progress(),
            },
            HandshakeReply::Message(msg) => match stage {
                HandshakeStage::ReadyCreated(purpose) => self.send_handshake_command_frame_impl(
                    purpose,
                    msg,
                ),
                _ => in_progress(),
            },
            HandshakeReply::Command(command) => match stage {
                HandshakeStage::ReadyParsed(purpose) => self.ready_parsed(purpose, command),
                _ => in_progress(),
            },
            HandshakeReply::Name(name) => match stage {
                HandshakeStage::MechanismNamed => self.mechanism_named(name),
                _ => in_progress(),
            },
            HandshakeReply::Negotiated(result) => match stage {
                HandshakeStage::MechanismNegotiated => self.mechanism_negotiated(result),
                _ => in_progress(),
            },
            HandshakeReply::Complete(complete) => match stage {
                HandshakeStage::MechanismStatus => self.mechanism_status(complete),
                _ => in_progress(),
            },
            HandshakeReply::Fault(fault) => match stage {
                HandshakeStage::MechanismFault => self.mechanism_fault(fault),
                _ => in_progress(),
            },
            HandshakeReply::Token(token) => match stage {
                HandshakeStage::TokenProduced => self.token_produced(token, now),
                HandshakeStage::ReplyProduced => self.reply_produced(token),
                _ => in_progress(),
            },
            HandshakeReply::Processed(action) => match stage {
                HandshakeStage::TokenProcessed => self.token_processed(action),
                _ => in_progress(),
            },
            HandshakeReply::Identity(identity) => match stage {
                HandshakeStage::FramerMade => self.framer_made(identity),
                _ => in_progress(),
            },
        }
    }

    /// Something was sent or received.
    pub fn record_activity(&mut self, now: Instant)
        ensures
            final(self)@ == crate::stream::model::with_activity(old(self)@, now),
    {
        self.heartbeat_state.record_activity(now);
    }

    /// Whether a PING is to be sent.
    pub fn is_ping_due(&self, now: Instant) -> (due: bool)
        ensures
            due == crate::stream::model::is_ping_due(self@, now),
    {
        try_send_ping_impl(&self.heartbeat_state, self.negotiated_version, now)
    }

    /// The TTL and the context of the PING to send, where one is due: it lives for no
    /// hop, and carries no context.
    pub fn ping_to_send(&self, now: Instant) -> (ping: Option<(u16, Vec<u8>)>)
        ensures
            match ping {
                Some((ttl, context)) => {
                    &&& crate::stream::model::is_ping_due(self@, now)
                    &&& ttl == 0
                    &&& context@ == Seq::<u8>::empty()
                },
                None => !crate::stream::model::is_ping_due(self@, now),
            },
    {
        if self.is_ping_due(now) {
            Some((0, Vec::new()))
        } else {
            None
        }
    }

    /// A PING was sent.
    pub fn ping_sent(&mut self, now: Instant)
        ensures
            final(self)@ == (SessionModel {
                heartbeat: crate::heartbeat::pinged(old(self)@.heartbeat, now),
                ..old(self)@
            }),
    {
        self.heartbeat_state.ping_sent(now);
    }

    /// Whether a PONG has taken as long as it may.
    pub fn is_pong_overdue(&self, now: Instant) -> (yes: bool)
        ensures
            yes == crate::heartbeat::is_pong_overdue(self@.heartbeat, now),
    {
        check_pong_timeout_impl(&self.heartbeat_state, now)
    }

    /// Takes a command that was received after the handshake, and returns the context
    /// of the PONG to send, where it was a PING.
    pub fn process_heartbeat_command(&mut self, command: Option<ZmtpCommand>) -> (reply: Result<
        Option<Vec<u8>>,
        ZmqError,
    >)
        ensures
            crate::uring::types::optional_view(reply) == crate::heartbeat::heartbeat_reply(
                crate::message::option_view(command),
            ),
            final(self)@ == (SessionModel {
                heartbeat: if command matches Some(ZmtpCommand::Pong(_)) {
                    crate::heartbeat::ponged(old(self)@.heartbeat)
                } else {
                    old(self)@.heartbeat
                },
                ..old(self)@
            }),
    {
        process_heartbeat_command_impl(&mut self.heartbeat_state, command)
    }
}

} // verus!
