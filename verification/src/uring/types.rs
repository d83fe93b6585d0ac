//! What a connection on io_uring hands out and takes in.

use bytes::{Bytes, BytesMut};
use vstd::prelude::*;

use crate::command::{CommandView, Properties, ZmtpCommand};
use crate::error::{ErrorView, ZmqError};
use crate::greeting::{GreetingView, ZmtpGreeting};
use crate::message::{Blob, Msg, MsgView};

verus! {

/// Where a connection stands.
#[derive(Debug, PartialEq, Eq, Clone, Copy, Structural)]
pub enum ZmtpHandlerPhase {
    Initial,
    /// The signature and the major version were sent; their acknowledgement is
    /// awaited.
    SendSignature,
    /// The first eleven bytes of the peer are awaited: they tell which tail to
    /// send.
    WaitPeerRevision,
    /// The rest of the ZMTP/3.x greeting was sent.
    SendV3Tail,
    /// The peer's whole ZMTP/3.x greeting is awaited.
    WaitV3Greeting,
    /// The socket type, the rest of the ZMTP/2.0 greeting, was sent.
    SendV2Tail,
    /// The peer's socket type is awaited.
    V2GreetingExchange,
    /// The empty ZMTP/2.0 identity was sent.
    V2SendIdentity,
    /// The peer's ZMTP/2.0 identity is awaited.
    V2WaitIdentity,
    /// The security mechanism is at work.
    SecurityExchange,
    /// The client's READY was sent.
    ReadyClientSend,
    /// The client awaits the server's READY.
    ReadyClientWaitServer,
    /// The server awaits the client's READY.
    ReadyServerWaitClient,
    /// The server's READY was sent.
    ReadyServerSend,
    /// Messages go both ways.
    DataPhase,
    Error,
    Closing,
    Closed,
}

/// On whose behalf bytes are sent.
#[derive(Debug, PartialEq, Eq, Clone, Copy, Structural)]
pub enum OpOrigin {
    /// The connection itself.
    Handler,
    /// The operation of the application with this number.
    App(u64),
}

/// An operation that the worker is to submit.
#[derive(Debug)]
pub enum HandlerSqeBlueprint {
    RequestSend { data: Bytes, send_op_flags: i32, origin: OpOrigin },
    RequestSendZeroCopy { data_to_send: Bytes, send_op_flags: i32, origin: OpOrigin },
    RequestSetCork(bool),
    RequestRingReadMultishot { fd: i32, buffer_group: u16 },
    RequestClose,
}

/// A [`HandlerSqeBlueprint`] with its data as a sequence.
#[verifier::ext_equal]
pub enum BlueprintView {
    Send { data: Seq<u8>, flags: i32, origin: OpOrigin },
    SendZeroCopy { data: Seq<u8>, flags: i32, origin: OpOrigin },
    SetCork(bool),
    RingReadMultishot { fd: i32, buffer_group: u16 },
    Close,
}

impl View for HandlerSqeBlueprint {
    type V = BlueprintView;

    open spec fn view(&self) -> BlueprintView {
        match *self {
            HandlerSqeBlueprint::RequestSend { data, send_op_flags, origin } => BlueprintView::Send {
                data: crate::buffer::frozen(data),
                flags: send_op_flags,
                origin,
            },
            HandlerSqeBlueprint::RequestSendZeroCopy { data_to_send, send_op_flags, origin } =>
                BlueprintView::SendZeroCopy {
                data: crate::buffer::frozen(data_to_send),
                flags: send_op_flags,
                origin,
            },
            HandlerSqeBlueprint::RequestSetCork(on) => BlueprintView::SetCork(on),
            HandlerSqeBlueprint::RequestRingReadMultishot { fd, buffer_group } =>
                BlueprintView::RingReadMultishot { fd, buffer_group },
            HandlerSqeBlueprint::RequestClose => BlueprintView::Close,
        }
    }
}

/// The bytes of several buffers.
pub open spec fn frozen_all(buffers: Seq<Bytes>) -> Seq<Seq<u8>> {
    Seq::new(buffers.len(), |i: int| crate::buffer::frozen(buffers[i]))
}

/// Something that the socket above a connection is told.
#[derive(Debug)]
pub enum HandlerUpstreamEvent {
    Data(Msg),
    HandshakeComplete { peer_identity: Option<Blob> },
    Error(ZmqError),
}

/// A [`HandlerUpstreamEvent`] seen through views.
#[verifier::ext_equal]
pub enum EventView {
    Data(MsgView),
    HandshakeComplete(Option<Seq<u8>>),
    Error(ErrorView),
}

impl View for HandlerUpstreamEvent {
    type V = EventView;

    open spec fn view(&self) -> EventView {
        match *self {
            HandlerUpstreamEvent::Data(msg) => EventView::Data(msg@),
            HandlerUpstreamEvent::HandshakeComplete { peer_identity } =>
                EventView::HandshakeComplete(crate::message::option_view(peer_identity)),
            HandlerUpstreamEvent::Error(error) => EventView::Error(error@),
        }
    }
}

/// What a call on a connection asks of its worker.
#[derive(Debug)]
pub struct HandlerIoOps {
    /// The operations to submit, in order.
    pub sqe_blueprints: Vec<HandlerSqeBlueprint>,
    /// Whether the connection is to be closed because of an error.
    pub initiate_close_due_to_error: bool,
    /// What to tell the socket; it is lost where the socket does not listen.
    pub upstream_notices: Vec<HandlerUpstreamEvent>,
}

/// A [`HandlerIoOps`] seen through views.
#[verifier::ext_equal]
pub struct OpsView {
    pub blueprints: Seq<BlueprintView>,
    pub close: bool,
    pub notices: Seq<EventView>,
}

/// Nothing to do.
pub open spec fn no_ops() -> OpsView {
    OpsView { blueprints: Seq::empty(), close: false, notices: Seq::empty() }
}

impl View for HandlerIoOps {
    type V = OpsView;

    open spec fn view(&self) -> OpsView {
        OpsView {
            blueprints: crate::message::views(self.sqe_blueprints@),
            close: self.initiate_close_due_to_error,
            notices: crate::message::views(self.upstream_notices@),
        }
    }
}

impl HandlerIoOps {
    /// Nothing to do.
    pub fn new() -> (ops: HandlerIoOps)
        ensures
            ops@ == no_ops(),
    {
        HandlerIoOps {
            sqe_blueprints: Vec::new(),
            initiate_close_due_to_error: false,
            upstream_notices: Vec::new(),
        }
    }

    /// Adds an operation at the end.
    pub(crate) fn push(&mut self, blueprint: HandlerSqeBlueprint)
        ensures
            final(self)@ == (OpsView {
                blueprints: old(self)@.blueprints.push(blueprint@),
                ..old(self)@
            }),
    {
        broadcast use crate::message::lemma_views_push;

        self.sqe_blueprints.push(blueprint);
    }

    /// Adds something to tell at the end.
    pub(crate) fn notify(&mut self, event: HandlerUpstreamEvent)
        ensures
            final(self)@ == (OpsView { notices: old(self)@.notices.push(event@), ..old(self)@ }),
    {
        broadcast use crate::message::lemma_views_push;

        self.upstream_notices.push(event);
    }
}

/// What the application hands to a connection for sending.
#[derive(Debug)]
pub enum AppData {
    /// The frames of one message.
    Multipart(Vec<Msg>),
    /// A message of one frame.
    Single(Msg),
    /// Anything else.
    Unknown,
}

/// A question that a connection puts to its surroundings.
#[derive(Debug)]
pub enum Request {
    /// Which security mechanism do the two ends settle on?  It is put to work.
    Negotiate(ZmtpGreeting),
    /// What frame is at the start of these bytes?
    ReadFrame(BytesMut),
    /// Has the mechanism done its work?
    MechanismComplete,
    /// What does the mechanism want to send?
    ProduceToken,
    /// Let the mechanism take this token of the peer.
    ProcessToken(Vec<u8>),
    /// Has the mechanism failed?
    MechanismFault,
    /// Let the mechanism make the framer of the connection, for frames of at most
    /// this length.
    IntoFramer(i64),
    /// What bytes do these frames make on the wire?
    WriteFrames(Vec<Msg>),
    /// What bytes does a READY command with these properties make on the wire?
    WriteReady(Properties),
    /// What bytes does a PONG command with this context make on the wire?
    WritePong(Vec<u8>),
    /// What bytes does a PING command make on the wire?
    WritePing { ttl: u16, context: Vec<u8> },
    /// Which command does this frame hold?
    ParseCommand(Msg),
    /// Does the socket take this event?
    Deliver(HandlerUpstreamEvent),
    /// Is a multishot read under way?
    ReaderActive,
    /// Which read is to be submitted?
    ReadIntent,
    /// Does the completion with this number belong to the multishot reader?
    ReaderMatches(u64),
}

/// A [`Request`] seen through views.
#[verifier::ext_equal]
pub enum RequestView {
    Negotiate(GreetingView),
    ReadFrame(Seq<u8>),
    MechanismComplete,
    ProduceToken,
    ProcessToken(Seq<u8>),
    MechanismFault,
    IntoFramer(i64),
    WriteFrames(Seq<MsgView>),
    WriteReady(Map<Seq<char>, Seq<u8>>),
    WritePong(Seq<u8>),
    WritePing { ttl: u16, context: Seq<u8> },
    ParseCommand(MsgView),
    Deliver(EventView),
    ReaderActive,
    ReadIntent,
    ReaderMatches(u64),
}

impl View for Request {
    type V = RequestView;

    open spec fn view(&self) -> RequestView {
        match *self {
            Request::Negotiate(greeting) => RequestView::Negotiate(greeting@),
            Request::ReadFrame(bytes) => RequestView::ReadFrame(crate::buffer::contents(bytes)),
            Request::MechanismComplete => RequestView::MechanismComplete,
            Request::ProduceToken => RequestView::ProduceToken,
            Request::ProcessToken(token) => RequestView::ProcessToken(token@),
            Request::MechanismFault => RequestView::MechanismFault,
            Request::IntoFramer(limit) => RequestView::IntoFramer(limit),
            Request::WriteFrames(frames) => RequestView::WriteFrames(
                crate::message::views(frames@),
            ),
            Request::WriteReady(properties) => RequestView::WriteReady(properties@),
            Request::WritePong(context) => RequestView::WritePong(context@),
            Request::WritePing { ttl, context } => RequestView::WritePing {
                ttl,
                context: context@,
            },
            Request::ParseCommand(msg) => RequestView::ParseCommand(msg@),
            Request::Deliver(event) => RequestView::Deliver(event@),
            Request::ReaderActive => RequestView::ReaderActive,
            Request::ReadIntent => RequestView::ReadIntent,
            Request::ReaderMatches(op) => RequestView::ReaderMatches(op),
        }
    }
}

/// The answer to a [`Request`].
#[derive(Debug)]
pub enum Reply {
    /// To `Negotiate` and `ProcessToken`.
    Done(Result<(), ZmqError>),
    /// To `ReadFrame`: the frame, if the bytes hold a whole one, and the bytes that
    /// are left.
    Frame { outcome: Result<Option<Msg>, ZmqError>, rest: BytesMut },
    /// To `MechanismComplete`, `Deliver`, `ReaderActive` and `ReaderMatches`.
    Yes(bool),
    /// To `ProduceToken`.
    Token(Result<Option<Vec<u8>>, ZmqError>),
    /// To `MechanismFault`: where it failed, the reason, if it gave one.
    Fault(Option<Option<String>>),
    /// To `IntoFramer`: the identity that the peer proved, if any.
    Identity(Result<Option<Vec<u8>>, ZmqError>),
    /// To the questions for bytes on the wire.
    Wire(Result<Bytes, ZmqError>),
    /// To `ParseCommand`: none where the frame holds no command.
    Command(Option<ZmtpCommand>),
    /// To `ReadIntent`.
    Intent(Option<HandlerSqeBlueprint>),
}

/// A [`Reply`] seen through views.
#[verifier::ext_equal]
pub enum ReplyView {
    Done(Result<(), ErrorView>),
    Frame { outcome: Result<Option<MsgView>, ErrorView>, rest: Seq<u8> },
    Yes(bool),
    Token(Result<Option<Seq<u8>>, ErrorView>),
    Fault(Option<Option<Seq<char>>>),
    Identity(Result<Option<Seq<u8>>, ErrorView>),
    Wire(Result<Seq<u8>, ErrorView>),
    Command(Option<CommandView>),
    Intent(Option<BlueprintView>),
}

/// A result that may hold a value, seen through views.
pub open spec fn optional_view<T: View>(result: Result<Option<T>, ZmqError>) -> Result<
    Option<T::V>,
    ErrorView,
> {
    match result {
        Ok(value) => Ok(crate::message::option_view(value)),
        Err(error) => Err(error@),
    }
}

/// A result of bytes on the wire, seen through views.
pub open spec fn wire_view(result: Result<Bytes, ZmqError>) -> Result<Seq<u8>, ErrorView> {
    match result {
        Ok(bytes) => Ok(crate::buffer::frozen(bytes)),
        Err(error) => Err(error@),
    }
}

/// A fault of a mechanism, where it failed, with the reason that it gave, if any.
pub open spec fn fault_view(fault: Option<Option<String>>) -> Option<Option<Seq<char>>> {
    match fault {
        Some(reason) => Some(crate::message::option_view(reason)),
        None => None,
    }
}

impl View for Reply {
    type V = ReplyView;

    open spec fn view(&self) -> ReplyView {
        match *self {
            Reply::Done(result) => ReplyView::Done(crate::error::result_view(result)),
            Reply::Frame { outcome, rest } => ReplyView::Frame {
                outcome: optional_view(outcome),
                rest: crate::buffer::contents(rest),
            },
            Reply::Yes(yes) => ReplyView::Yes(yes),
            Reply::Token(token) => ReplyView::Token(optional_view(token)),
            Reply::Fault(fault) => ReplyView::Fault(fault_view(fault)),
            Reply::Identity(identity) => ReplyView::Identity(optional_view(identity)),
            Reply::Wire(wire) => ReplyView::Wire(wire_view(wire)),
            Reply::Command(command) => ReplyView::Command(crate::message::option_view(command)),
            Reply::Intent(intent) => ReplyView::Intent(crate::message::option_view(intent)),
        }
    }
}

/// What an answer is awaited for.
#[derive(Debug, PartialEq, Eq, Clone, Copy, Structural)]
pub enum Stage {
    /// The mechanism that the greetings settle on.
    Negotiated,
    /// The peer's ZMTP/2.0 identity.
    IdentityFrame,
    /// Whether the socket took the end of the handshake, within a read.
    Signalled,
    /// Whether the mechanism had done its work before.
    SecurityComplete,
    /// The token of this end.
    FirstToken,
    FirstTokenWritten,
    /// The token of the peer.
    PeerToken,
    PeerTokenProcessed,
    /// The token of this end that answers the peer's.
    ResponseToken,
    ResponseWritten,
    /// Whether the mechanism has done its work now.
    CompleteAfter,
    FaultAfter,
    FramerMade,
    ClientReadyWritten,
    /// The client's READY.
    ClientReadyFrame,
    ClientReadyParsed,
    ServerReadyWritten,
    /// The server's READY.
    ServerReadyFrame,
    ServerReadyParsed,
    /// A frame after the handshake.
    DataFrame,
    DataCommand,
    PongWritten,
    DataDelivered,
    /// Whether the socket took the end of the handshake, after a send.
    SendSignalled,
    /// The bytes of the first queued message.
    QueuedMultipart,
    QueuedSingle,
    /// The bytes of a message that the application just handed in.
    AppMultipart,
    AppSingle,
    /// Whether a read is under way.
    ReaderStatus,
    ReaderIntent,
    PingWritten,
}

/// What a run through the buffered bytes remembers between questions.
#[derive(Debug, PartialEq, Eq, Clone, Copy, Structural)]
pub struct Pass {
    /// Whether an earlier pass of this call made progress.
    pub made_progress: bool,
    /// The length of the greeting buffer when the pass began.
    pub greeting_len: usize,
    /// The length of the read buffer when the pass began.
    pub accumulator_len: usize,
    /// Whether this pass made progress.
    pub progress: bool,
    /// Whether this pass sent or received a token.
    pub token_action: bool,
}

/// How a call on a connection goes on.
#[derive(Debug)]
pub enum Flow {
    /// The call goes on at `stage` once the question is answered.
    Ask { stage: Stage, pass: Pass, request: Request },
    /// The call is done.
    Return(Result<bool, ZmqError>),
}

/// A [`Flow`] seen through views.
#[verifier::ext_equal]
pub enum FlowView {
    Ask { stage: Stage, pass: Pass, request: RequestView },
    Return(Result<bool, ErrorView>),
}

impl View for Flow {
    type V = FlowView;

    open spec fn view(&self) -> FlowView {
        match *self {
            Flow::Ask { stage, pass, request } => FlowView::Ask { stage, pass, request: request@ },
            Flow::Return(result) => FlowView::Return(crate::error::result_view(result)),
        }
    }
}

/// A message that waits for its turn, with the number of the operation that sends
/// it.
#[derive(Debug)]
pub struct QueuedMsg {
    pub msg: Msg,
    pub op: u64,
}

/// A message of several frames that waits for its turn.
#[derive(Debug)]
pub struct QueuedParts {
    pub parts: Vec<Msg>,
    pub op: u64,
}

/// A [`QueuedMsg`] seen through views.
#[verifier::ext_equal]
pub struct QueuedMsgView {
    pub msg: MsgView,
    pub op: u64,
}

/// A [`QueuedParts`] seen through views.
#[verifier::ext_equal]
pub struct QueuedPartsView {
    pub parts: Seq<MsgView>,
    pub op: u64,
}

impl View for QueuedMsg {
    type V = QueuedMsgView;

    open spec fn view(&self) -> QueuedMsgView {
        QueuedMsgView { msg: self.msg@, op: self.op }
    }
}

impl View for QueuedParts {
    type V = QueuedPartsView;

    open spec fn view(&self) -> QueuedPartsView {
        QueuedPartsView { parts: crate::message::views(self.parts@), op: self.op }
    }
}

/// What the multishot reader of a connection is to be told of a submission.
#[derive(Debug, PartialEq, Eq, Clone, Copy, Structural)]
pub enum ReaderNotice {
    OperationSubmitted { op: u64 },
    CancellationSubmitted { op: u64, target: u64 },
}

} // verus!
