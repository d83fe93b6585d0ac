//! The handshake of a connection on a stream: its phases, its questions and its
//! answers.

use bytes::BytesMut;
use vstd::prelude::*;

use crate::command::{CommandView, Properties, ZmtpCommand};
use crate::error::{ErrorView, ZmqError};
use crate::greeting::{GreetingView, ZmtpGreeting};
use crate::message::{Blob, Msg, MsgView};
use crate::time::{Duration, Instant};

verus! {

/// The phases of a session.
#[derive(Debug, Clone, Copy, PartialEq, Eq, Structural)]
pub enum ConnectionPhaseX {
    /// The session has just begun.
    Initial,
    HandshakeInProgress,
    /// The handshake is done; the pipes of the socket are awaited.
    WaitingForPipes,
    /// Messages go both ways.
    Operational,
    ShuttingDownStream,
    Terminating,
}

/// The phases of a handshake.
#[derive(Debug, Clone, Copy, PartialEq, Eq, Structural)]
pub enum HandshakeSubPhaseX {
    /// The signature and the major version are to be sent.
    GreetingExchange,
    /// They were sent; the first eleven bytes of the peer tell which tail to send.
    WaitingForPeerRevision,
    /// The tail was sent; the rest of the peer's ZMTP/3.x greeting is awaited.
    WaitingForGreeting,
    SecurityHandshake,
    /// The READY commands are to be exchanged: the client's comes first.
    ReadyExchange,
    /// The client's READY was sent; the server's is awaited.
    ClientSentReady,
    /// The client's READY was received; the server's is to be sent.
    ServerReceivedReady,
    /// ZMTP/2.0: the identities are to be exchanged.
    V2IdentityExchange,
    Done,
}

/// How far a handshake has come.
#[derive(Debug, Clone)]
pub enum ZmtpHandshakeProgressX {
    /// More steps are needed.
    InProgress,
    /// The identity of the peer is known.
    IdentityReady(Blob),
    HandshakeComplete,
    /// The peer broke the protocol in a way that a further step may mend.
    ProtocolError(String),
    FatalError(ZmqError),
}

/// A [`ZmtpHandshakeProgressX`] seen through views.
#[verifier::ext_equal]
pub enum ProgressView {
    InProgress,
    IdentityReady(Seq<u8>),
    HandshakeComplete,
    ProtocolError(Seq<char>),
    FatalError(ErrorView),
}

impl View for ZmtpHandshakeProgressX {
    type V = ProgressView;

    open spec fn view(&self) -> ProgressView {
        match *self {
            ZmtpHandshakeProgressX::InProgress => ProgressView::InProgress,
            ZmtpHandshakeProgressX::IdentityReady(id) => ProgressView::IdentityReady(id@),
            ZmtpHandshakeProgressX::HandshakeComplete => ProgressView::HandshakeComplete,
            ZmtpHandshakeProgressX::ProtocolError(text) => ProgressView::ProtocolError(text@),
            ZmtpHandshakeProgressX::FatalError(error) => ProgressView::FatalError(error@),
        }
    }
}

/// What a handshake has come to know, and where it stands.
#[derive(Debug)]
pub struct ZmtpHandshakeStateX {
    pub sub_phase: HandshakeSubPhaseX,
    /// The type of the peer's socket.
    pub peer_socket_type: Option<String>,
    /// The identity that the peer announced, until it is reported.
    pub peer_identity_from_ready: Option<Blob>,
}

impl ZmtpHandshakeStateX {
    /// The state of a handshake that has not begun.
    pub fn new() -> (state: Self)
        ensures
            state.sub_phase == HandshakeSubPhaseX::GreetingExchange,
            state.peer_socket_type is None,
            state.peer_identity_from_ready is None,
    {
        ZmtpHandshakeStateX {
            sub_phase: HandshakeSubPhaseX::GreetingExchange,
            peer_socket_type: None,
            peer_identity_from_ready: None,
        }
    }
}

/// What a mechanism wants after it took a token.
#[derive(Debug, Clone, Copy, PartialEq, Eq, Structural)]
pub enum ProcessTokenAction {
    /// Another token of the peer.
    ContinueWaiting,
    /// To answer.
    ProduceAndSend,
    /// Nothing more.
    HandshakeComplete,
}

/// What a command is sent for.
#[derive(Debug, Clone, Copy, PartialEq, Eq, Structural)]
pub enum SendPurpose {
    /// A token that the mechanism sends by itself.
    Token,
    /// A token that answers the peer's.
    ReplyToken,
    ClientReady,
    ServerReady,
}

/// What a command is received for.
#[derive(Debug, Clone, Copy, PartialEq, Eq, Structural)]
pub enum ReadPurpose {
    Token,
    /// The server reads the client's READY.
    ClientReady,
    /// The client reads the server's READY.
    ServerReady,
}

/// What an answer is awaited for, and until when where there is a limit.
#[derive(Debug, Clone, Copy, PartialEq, Eq, Structural)]
pub enum HandshakeStage {
    SignatureSent,
    PeekRead { deadline: Instant },
    V2TailSent,
    V3TailSent,
    GreetingRead { deadline: Instant },
    MechanismNamed,
    MechanismNegotiated,
    MechanismStatus,
    MechanismFault,
    TokenProduced,
    TokenProcessed,
    ReplyProduced,
    FramerMade,
    ReadyCreated(SendPurpose),
    CommandEncoded(SendPurpose),
    CommandSent(SendPurpose),
    CommandDecoded { purpose: ReadPurpose, deadline: Instant },
    CommandRead { purpose: ReadPurpose, deadline: Instant },
    ReadyParsed(ReadPurpose),
    V2GreetingRead { deadline: Instant },
    V2IdentitySent,
    V2IdentityDecoded { deadline: Instant },
    V2IdentityRead { deadline: Instant },
}

/// A question that a handshake puts to its surroundings.
#[derive(Debug)]
pub enum HandshakeRequest {
    /// Write these bytes within this time and, if asked, flush the stream within the
    /// same time again.
    Write { data: Vec<u8>, flush: bool, within: Duration },
    /// Read some bytes within this time.
    Read { within: Duration },
    /// What frame is at the start of these bytes?
    DecodeFrame(BytesMut),
    /// What bytes does this frame make on the wire?
    EncodeCommand(Msg),
    /// What frame is a READY command with these properties?
    CreateReady(Properties),
    /// Which command does this frame hold?
    ParseCommand(Msg),
    /// What is the mechanism called?
    MechanismName,
    /// Which mechanism do the two ends settle on?  It is put to work.
    Negotiate(ZmtpGreeting),
    /// Has the mechanism done its work?
    MechanismComplete,
    /// Has the mechanism failed?
    MechanismFault,
    /// What does the mechanism want to send?
    ProduceToken,
    /// Let the mechanism take this token of the peer.
    ProcessToken(Vec<u8>),
    /// Let the mechanism make the framer of the connection, for frames of at most
    /// this length.
    IntoFramer(i64),
}

/// A [`HandshakeRequest`] seen through views.
#[verifier::ext_equal]
pub enum HandshakeRequestView {
    Write { data: Seq<u8>, flush: bool, within: Duration },
    Read { within: Duration },
    DecodeFrame(Seq<u8>),
    EncodeCommand(MsgView),
    CreateReady(Map<Seq<char>, Seq<u8>>),
    ParseCommand(MsgView),
    MechanismName,
    Negotiate(GreetingView),
    MechanismComplete,
    MechanismFault,
    ProduceToken,
    ProcessToken(Seq<u8>),
    IntoFramer(i64),
}

impl View for HandshakeRequest {
    type V = HandshakeRequestView;

    open spec fn view(&self) -> HandshakeRequestView {
        match *self {
            HandshakeRequest::Write { data, flush, within } => HandshakeRequestView::Write {
                data: data@,
                flush,
                within,
            },
            HandshakeRequest::Read { within } => HandshakeRequestView::Read { within },
            HandshakeRequest::DecodeFrame(bytes) => HandshakeRequestView::DecodeFrame(
                crate::buffer::contents(bytes),
            ),
            HandshakeRequest::EncodeCommand(msg) => HandshakeRequestView::EncodeCommand(msg@),
            HandshakeRequest::CreateReady(properties) => HandshakeRequestView::CreateReady(
                properties@,
            ),
            HandshakeRequest::ParseCommand(msg) => HandshakeRequestView::ParseCommand(msg@),
            HandshakeRequest::MechanismName => HandshakeRequestView::MechanismName,
            HandshakeRequest::Negotiate(greeting) => HandshakeRequestView::Negotiate(greeting@),
            HandshakeRequest::MechanismComplete => HandshakeRequestView::MechanismComplete,
            HandshakeRequest::MechanismFault => HandshakeRequestView::MechanismFault,
            HandshakeRequest::ProduceToken => HandshakeRequestView::ProduceToken,
            HandshakeRequest::ProcessToken(token) => HandshakeRequestView::ProcessToken(token@),
            HandshakeRequest::IntoFramer(limit) => HandshakeRequestView::IntoFramer(limit),
        }
    }
}

/// How a write ended.
#[derive(Debug, Clone, Copy, PartialEq, Eq, Structural)]
pub enum WriteOutcome {
    Written,
    /// It took too long.
    Elapsed,
    Failed { errno: i32 },
}

/// How a read ended.
#[derive(Debug)]
pub enum ReadOutcome {
    /// These bytes came; none mean that the peer closed the stream.
    Data(Vec<u8>),
    /// It took too long.
    Elapsed,
    Failed { errno: i32 },
}

/// A [`ReadOutcome`] with its bytes as a sequence.
#[verifier::ext_equal]
pub enum ReadView {
    Data(Seq<u8>),
    Elapsed,
    Failed(i32),
}

impl View for ReadOutcome {
    type V = ReadView;

    open spec fn view(&self) -> ReadView {
        match *self {
            ReadOutcome::Data(bytes) => ReadView::Data(bytes@),
            ReadOutcome::Elapsed => ReadView::Elapsed,
            ReadOutcome::Failed { errno } => ReadView::Failed(errno),
        }
    }
}

/// The answer to a [`HandshakeRequest`].
#[derive(Debug)]
pub enum HandshakeReply {
    /// To `Write`.
    Wrote(WriteOutcome),
    /// To `Read`.
    Read(ReadOutcome),
    /// To `DecodeFrame`: the frame, if the bytes hold a whole one, and the bytes that
    /// are left.
    Frame { outcome: Result<Option<Msg>, ZmqError>, rest: BytesMut },
    /// To `EncodeCommand`.
    Encoded(Result<Vec<u8>, ZmqError>),
    /// To `CreateReady`.
    Message(Msg),
    /// To `ParseCommand`: none where the frame holds no command.
    Command(Option<ZmtpCommand>),
    /// To `MechanismName`.
    Name(String),
    /// To `Negotiate`.
    Negotiated(Result<(), ZmqError>),
    /// To `MechanismComplete`.
    Complete(bool),
    /// To `MechanismFault`: where it failed, the reason, if it gave one.
    Fault(Option<Option<String>>),
    /// To `ProduceToken`.
    Token(Result<Option<Vec<u8>>, ZmqError>),
    /// To `ProcessToken`.
    Processed(Result<ProcessTokenAction, ZmqError>),
    /// To `IntoFramer`: the identity that the peer proved, if any.
    Identity(Result<Option<Vec<u8>>, ZmqError>),
}

/// A [`HandshakeReply`] seen through views.
#[verifier::ext_equal]
pub enum HandshakeReplyView {
    Wrote(WriteOutcome),
    Read(ReadView),
    Frame { outcome: Result<Option<MsgView>, ErrorView>, rest: Seq<u8> },
    Encoded(Result<Seq<u8>, ErrorView>),
    Message(MsgView),
    Command(Option<CommandView>),
    Name(Seq<char>),
    Negotiated(Result<(), ErrorView>),
    Complete(bool),
    Fault(Option<Option<Seq<char>>>),
    Token(Result<Option<Seq<u8>>, ErrorView>),
    Processed(Result<ProcessTokenAction, ErrorView>),
    Identity(Result<Option<Seq<u8>>, ErrorView>),
}

impl View for HandshakeReply {
    type V = HandshakeReplyView;

    open spec fn view(&self) -> HandshakeReplyView {
        match *self {
            HandshakeReply::Wrote(outcome) => HandshakeReplyView::Wrote(outcome),
            HandshakeReply::Read(outcome) => HandshakeReplyView::Read(outcome@),
            HandshakeReply::Frame { outcome, rest } => HandshakeReplyView::Frame {
                outcome: crate::uring::types::optional_view(outcome),
                rest: crate::buffer::contents(rest),
            },
            HandshakeReply::Encoded(data) => HandshakeReplyView::Encoded(
                crate::options::values::value_view(data),
            ),
            HandshakeReply::Message(msg) => HandshakeReplyView::Message(msg@),
            HandshakeReply::Command(command) => HandshakeReplyView::Command(
                crate::message::option_view(command),
            ),
            HandshakeReply::Name(name) => HandshakeReplyView::Name(name@),
            HandshakeReply::Negotiated(result) => HandshakeReplyView::Negotiated(
                crate::error::result_view(result),
            ),
            HandshakeReply::Complete(yes) => HandshakeReplyView::Complete(yes),
            HandshakeReply::Fault(fault) => HandshakeReplyView::Fault(
                crate::uring::types::fault_view(fault),
            ),
            HandshakeReply::Token(token) => HandshakeReplyView::Token(
                crate::uring::types::optional_view(token),
            ),
            HandshakeReply::Processed(result) => HandshakeReplyView::Processed(
                crate::error::result_view(result),
            ),
            HandshakeReply::Identity(identity) => HandshakeReplyView::Identity(
                crate::uring::types::optional_view(identity),
            ),
        }
    }
}

/// How a step of a handshake goes on.
#[derive(Debug)]
pub enum HandshakeFlow {
    /// The step goes on at `stage` once the question is answered.
    Ask { stage: HandshakeStage, request: HandshakeRequest },
    /// The step is done.
    Return(Result<ZmtpHandshakeProgressX, ZmqError>),
}

/// A [`HandshakeFlow`] seen through views.
#[verifier::ext_equal]
pub enum HandshakeFlowView {
    Ask { stage: HandshakeStage, request: HandshakeRequestView },
    Return(Result<ProgressView, ErrorView>),
}

impl View for HandshakeFlow {
    type V = HandshakeFlowView;

    open spec fn view(&self) -> HandshakeFlowView {
        match *self {
            HandshakeFlow::Ask { stage, request } => HandshakeFlowView::Ask {
                stage,
                request: request@,
            },
            HandshakeFlow::Return(result) => HandshakeFlowView::Return(
                crate::options::values::value_view(result),
            ),
        }
    }
}

} // verus!
