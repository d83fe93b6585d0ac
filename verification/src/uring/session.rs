//! A connection on io_uring together with its surroundings.
//!
//! The surroundings are the framer, the security mechanism, the socket and the
//! reader of the connection.  Nothing is taken for granted of what they answer: the
//! contracts here hold whatever they do.

use bytes::{Bytes, BytesMut};
use vstd::prelude::*;

use crate::command::{Properties, ZmtpCommand};
use crate::error::{ErrorView, ZmqError};
use crate::greeting::ZmtpGreeting;
use crate::message::Msg;
use crate::time::Instant;
use crate::uring::handler::ZmtpUringHandler;
use crate::uring::model::{HandlerModel, Step};
use crate::uring::types::{
    AppData, Flow, FlowView, HandlerIoOps, HandlerSqeBlueprint, HandlerUpstreamEvent, OpsView,
    Reply, ReplyView, Request, RequestView, ZmtpHandlerPhase,
};

verus! {

/// What a connection needs from around it.
pub trait UringEnvironment {
    /// Reads the clock.
    fn now(&mut self) -> Instant;

    /// Chooses the security mechanism that the peer's greeting calls for and puts it
    /// to work.
    fn negotiate_security_mechanism(&mut self, greeting: ZmtpGreeting) -> Result<(), ZmqError>;

    /// Takes a frame off the front of the bytes, where they hold a whole one, and
    /// returns the bytes that are left beside it.
    fn try_read_msg(&mut self, bytes: BytesMut) -> (Result<Option<Msg>, ZmqError>, BytesMut);

    /// Whether the mechanism has done its work.
    fn mechanism_is_complete(&mut self) -> bool;

    /// The token that the mechanism wants to send, if any.
    fn produce_token(&mut self) -> Result<Option<Vec<u8>>, ZmqError>;

    /// Hands a token of the peer to the mechanism.
    fn process_token(&mut self, token: Vec<u8>) -> Result<(), ZmqError>;

    /// Where the mechanism has failed, the reason, if it gave one.
    fn mechanism_fault(&mut self) -> Option<Option<String>>;

    /// Lets the mechanism make the framer, and returns the identity that the peer
    /// proved, if any.
    fn into_framer(&mut self, max_msg_size: i64) -> Result<Option<Vec<u8>>, ZmqError>;

    /// The bytes that the frames make on the wire.
    fn write_msg_multipart(&mut self, frames: Vec<Msg>) -> Result<Bytes, ZmqError>;

    /// The frame of a READY command.
    fn create_ready(&mut self, properties: Properties) -> Msg;

    /// The frame of a PONG command.
    fn create_pong(&mut self, context: Vec<u8>) -> Msg;

    /// The frame of a PING command.
    fn create_ping(&mut self, ttl: u16, context: Vec<u8>) -> Msg;

    /// The command that a frame holds, if any.
    fn parse_command(&mut self, msg: Msg) -> Option<ZmtpCommand>;

    /// Hands an event to the socket; no where it does not take it.
    fn try_send(&mut self, event: HandlerUpstreamEvent) -> bool;

    /// Whether a multishot read is under way.
    fn reader_is_active(&mut self) -> bool;

    /// The multishot read to submit, if any.
    fn prepare_recv_multi_intent(&mut self) -> Option<HandlerSqeBlueprint>;

    /// Whether the completion with this number belongs to the multishot reader.
    fn matches_cqe_user_data(&mut self, cqe_user_data: u64) -> bool;
}

/// One question to the surroundings, the answer, and when it came.
pub struct Turn {
    pub request: RequestView,
    pub reply: ReplyView,
    pub at: Instant,
}

/// Whether `reply` holds what one call on the surroundings returns for the question.
pub open spec fn asked<E: UringEnvironment>(
    environment: &mut E,
    request: Request,
    reply: Reply,
) -> bool {
    match (request, reply) {
        (Request::Negotiate(greeting), Reply::Done(result)) => call_ensures(
            E::negotiate_security_mechanism,
            (environment, greeting),
            result,
        ),
        (Request::ReadFrame(bytes), Reply::Frame { outcome, rest }) => call_ensures(
            E::try_read_msg,
            (environment, bytes),
            (outcome, rest),
        ),
        (Request::MechanismComplete, Reply::Yes(yes)) => call_ensures(
            E::mechanism_is_complete,
            (environment,),
            yes,
        ),
        (Request::ProduceToken, Reply::Token(token)) => call_ensures(
            E::produce_token,
            (environment,),
            token,
        ),
        (Request::ProcessToken(token), Reply::Done(result)) => call_ensures(
            E::process_token,
            (environment, token),
            result,
        ),
        (Request::MechanismFault, Reply::Fault(fault)) => call_ensures(
            E::mechanism_fault,
            (environment,),
            fault,
        ),
        (Request::IntoFramer(limit), Reply::Identity(identity)) => call_ensures(
            E::into_framer,
            (environment, limit),
            identity,
        ),
        (Request::WriteFrames(frames), Reply::Wire(wire)) => call_ensures(
            E::write_msg_multipart,
            (environment, frames),
            wire,
        ),
        (Request::ParseCommand(msg), Reply::Command(command)) => call_ensures(
            E::parse_command,
            (environment, msg),
            command,
        ),
        (Request::Deliver(event), Reply::Yes(yes)) => call_ensures(
            E::try_send,
            (environment, event),
            yes,
        ),
        (Request::ReaderActive, Reply::Yes(yes)) => call_ensures(
            E::reader_is_active,
            (environment,),
            yes,
        ),
        (Request::ReadIntent, Reply::Intent(intent)) => call_ensures(
            E::prepare_recv_multi_intent,
            (environment,),
            intent,
        ),
        (Request::ReaderMatches(op), Reply::Yes(yes)) => call_ensures(
            E::matches_cqe_user_data,
            (environment, op),
            yes,
        ),
        _ => false,
    }
}

/// Whether the question is for a command on the wire: it takes two calls on the
/// surroundings, one that makes the frame and one that writes it.
pub open spec fn makes_command(request: Request) -> bool {
    request is WriteReady || request is WritePong || request is WritePing
}

/// Whether `msg` is what the surroundings return for the frame of the command.
pub open spec fn made_command<E: UringEnvironment>(
    environment: &mut E,
    request: Request,
    msg: Msg,
) -> bool {
    match request {
        Request::WriteReady(properties) => call_ensures(
            E::create_ready,
            (environment, properties),
            msg,
        ),
        Request::WritePong(context) => call_ensures(E::create_pong, (environment, context), msg),
        Request::WritePing { ttl, context } => call_ensures(
            E::create_ping,
            (environment, ttl, context),
            msg,
        ),
        _ => false,
    }
}

/// Whether `reply` holds what the surroundings return for the bytes of this one frame.
pub open spec fn wrote_one<E: UringEnvironment>(
    environment: &mut E,
    msg: Msg,
    reply: Reply,
) -> bool {
    exists|frames: Vec<Msg>|
        frames@ == seq![msg] && #[trigger] asked(environment, Request::WriteFrames(frames), reply)
}

/// Whether `reply` holds the bytes of the command that the first call has made and the
/// second has written.
pub open spec fn asked_for_command<E: UringEnvironment>(
    first: &mut E,
    second: &mut E,
    request: Request,
    reply: Reply,
) -> bool {
    exists|msg: Msg| #[trigger]
        made_command(first, request, msg) && wrote_one(second, msg, reply)
}

/// Whether the answer of this turn came from the surroundings, upon its question.
pub open spec fn answered<E: UringEnvironment>(turn: Turn) -> bool {
    exists|first: &mut E, second: &mut E, request: Request, reply: Reply|
        {
            &&& request@ == turn.request
            &&& reply@ == turn.reply
            &&& #[trigger] asked_within(first, second, request, reply)
        }
}

/// Whether `reply` holds what the surroundings return for the question, in one call or
/// in two.
pub open spec fn asked_within<E: UringEnvironment>(
    first: &mut E,
    second: &mut E,
    request: Request,
    reply: Reply,
) -> bool {
    if makes_command(request) {
        asked_for_command(first, second, request, reply)
    } else {
        asked(first, request, reply)
    }
}

/// Whether this is a reading of the clock of the surroundings.
pub open spec fn clock_read<E: UringEnvironment>(at: Instant) -> bool {
    exists|environment: &mut E| #[trigger] call_ensures(E::now, (environment,), at)
}

/// Whether all of the turns were taken with the surroundings: the answers are theirs, and
/// so are the times.
pub open spec fn taken_with<E: UringEnvironment>(turns: Seq<Turn>) -> bool {
    forall|i: int|
        0 <= i < turns.len() ==> answered::<E>(#[trigger] turns[i]) && clock_read::<E>(turns[i].at)
}

/// Whether there is a turn with this number.
pub open spec fn is_turn(turns: Seq<Turn>, i: int) -> bool {
    0 <= i < turns.len()
}

/// Whether the states lead from one to the other, with a state before each of the turns
/// and one after the last.
pub open spec fn lead<E>(states: Seq<E>, from: E, to: E, turns: Seq<Turn>) -> bool {
    &&& states.len() == turns.len() + 1
    &&& states[0] == from
    &&& states.last() == to
}

/// Whether the turn with this number consists of these calls on the surroundings, and
/// of no other: they lead from the state before it to the state after it.  The first
/// call, and for a command the second, answer the question; the last reads the clock.
/// What each of the calls makes of the surroundings stands beside it.
pub open spec fn turn_led<E: UringEnvironment>(
    first: &mut E,
    after_first: E,
    second: &mut E,
    after_second: E,
    clock: &mut E,
    after_clock: E,
    request: Request,
    reply: Reply,
    turns: Seq<Turn>,
    states: Seq<E>,
    i: int,
) -> bool {
    &&& request@ == turns[i].request
    &&& reply@ == turns[i].reply
    &&& asked_within(first, second, request, reply)
    &&& call_ensures(E::now, (clock,), turns[i].at)
    &&& *first == states[i]
    &&& makes_command(request) ==> *second == after_first && *clock == after_second
    &&& !makes_command(request) ==> *clock == after_first
    &&& after_clock == states[i + 1]
}

/// A turn stays what it is when another follows.
proof fn lemma_turns_stay<E: UringEnvironment>(
    turns: Seq<Turn>,
    states: Seq<E>,
    turn: Turn,
    state: E,
)
    requires
        states.len() == turns.len() + 1,
    ensures
        forall|
            first: &mut E,
            after_first: E,
            second: &mut E,
            after_second: E,
            clock: &mut E,
            after_clock: E,
            request: Request,
            reply: Reply,
            i: int,
        | #[trigger]
            turn_led(
                first,
                after_first,
                second,
                after_second,
                clock,
                after_clock,
                request,
                reply,
                turns,
                states,
                i,
            ) && is_turn(turns, i) ==> turn_led(
                first,
                after_first,
                second,
                after_second,
                clock,
                after_clock,
                request,
                reply,
                turns.push(turn),
                states.push(state),
                i,
            ),
{
}

/// How a call ends: the connection, the operations and the result.
pub struct Ending {
    pub handler: HandlerModel,
    pub ops: OpsView,
    pub result: Result<bool, ErrorView>,
}

/// The end of a call that has come as far as `step` and then took these turns; none
/// where the turns are not those that the call takes.
pub open spec fn replayed(step: Step, turns: Seq<Turn>) -> Option<Ending>
    decreases turns.len(),
{
    match step.flow {
        FlowView::Return(result) => if turns.len() == 0 {
            Some(Ending { handler: step.handler, ops: step.ops, result })
        } else {
            None
        },
        FlowView::Ask { stage, pass, request } => if turns.len() == 0 || turns[0].request
            != request {
            None
        } else {
            replayed(
                crate::uring::calls::resumed(
                    step.handler,
                    step.ops,
                    stage,
                    pass,
                    turns[0].reply,
                    turns[0].at,
                ),
                turns.skip(1),
            )
        },
    }
}

/// How far a call that has come as far as `step` has come after these turns; nowhere
/// where they are not turns that the call takes.
pub open spec fn advanced(step: Step, turns: Seq<Turn>) -> Option<Step>
    decreases turns.len(),
{
    if turns.len() == 0 {
        Some(step)
    } else {
        match step.flow {
            FlowView::Ask { stage, pass, request } if turns[0].request == request => advanced(
                crate::uring::calls::resumed(
                    step.handler,
                    step.ops,
                    stage,
                    pass,
                    turns[0].reply,
                    turns[0].at,
                ),
                turns.skip(1),
            ),
            _ => None,
        }
    }
}

/// A call that took these turns and then ended replays to its end.
proof fn lemma_advanced_replays(step: Step, turns: Seq<Turn>)
    requires
        advanced(step, turns) is Some,
    ensures
        replayed(step, turns) == replayed(advanced(step, turns)->0, Seq::empty()),
    decreases turns.len(),
{
    if turns.len() == 0 {
        assert(turns =~= Seq::empty());
    } else if let FlowView::Ask { stage, pass, .. } = step.flow {
        let next = crate::uring::calls::resumed(
            step.handler,
            step.ops,
            stage,
            pass,
            turns[0].reply,
            turns[0].at,
        );
        lemma_advanced_replays(next, turns.skip(1));
    }
}

/// One more turn leads one step further.
proof fn lemma_advanced_push(step: Step, turns: Seq<Turn>, turn: Turn)
    requires
        advanced(step, turns) is Some,
    ensures
        ({
            let last = advanced(step, turns)->0;
            advanced(step, turns.push(turn)) == match last.flow {
                FlowView::Ask { stage, pass, request } if turn.request == request => Some(
                    crate::uring::calls::resumed(
                        last.handler,
                        last.ops,
                        stage,
                        pass,
                        turn.reply,
                        turn.at,
                    ),
                ),
                _ => None,
            }
        }),
    decreases turns.len(),
{
    if turns.len() == 0 {
        reveal_with_fuel(advanced, 2);
        assert(turns.push(turn)[0] == turn);
    } else if let FlowView::Ask { stage, pass, .. } = step.flow {
        let next = crate::uring::calls::resumed(
            step.handler,
            step.ops,
            stage,
            pass,
            turns[0].reply,
            turns[0].at,
        );
        lemma_advanced_push(next, turns.skip(1), turn);
        assert(turns.push(turn).skip(1) =~= turns.skip(1).push(turn));
    }
}

/// The error of a call that its surroundings keep going for ever.
pub open spec fn endless() -> ErrorView {
    ErrorView::Internal("Connection was asked without end"@)
}

/// A connection with its surroundings.
pub struct UringSession<E> {
    handler: ZmtpUringHandler,
    environment: E,
    turns: Ghost<Seq<Turn>>,
}

impl<E: UringEnvironment> UringSession<E> {
    /// The state of the connection.
    pub closed spec fn model(&self) -> HandlerModel {
        self.handler@
    }

    /// The surroundings of the connection.
    pub closed spec fn surroundings(&self) -> E {
        self.environment
    }

    /// All the turns that calls have taken so far.
    pub closed spec fn turns(&self) -> Seq<Turn> {
        self.turns@
    }

    /// Whether the connection is within its bounds.
    pub open spec fn well_formed(&self) -> bool {
        crate::uring::model::well_formed(self.model())
    }

    /// The turns that were taken since `before`.
    pub open spec fn turns_since(&self, before: UringSession<E>) -> Seq<Turn> {
        self.turns().skip(before.turns().len() as int)
    }

    /// Whether a call that began with `step` has led from `before` to this state and
    /// these operations, with this result: the call went the way that the answers of
    /// the surroundings took it.  A call that has taken as many turns as can be counted
    /// and still has a question is given up where it stands.
    pub open spec fn ran(
        &self,
        before: UringSession<E>,
        step: Step,
        ops: OpsView,
        result: Result<bool, ErrorView>,
    ) -> bool {
        &&& before.turns().is_prefix_of(self.turns())
        &&& taken_with::<E>(self.turns_since(before))
        &&& match replayed(step, self.turns_since(before)) {
            Some(ending) => self.model() == ending.handler && ops == ending.ops && result
                == ending.result,
            None => {
                &&& self.turns_since(before).len() == u64::MAX
                &&& result == Err::<bool, ErrorView>(endless())
                &&& advanced(step, self.turns_since(before)) matches Some(last)
                &&& last.flow is Ask
                &&& self.model() == last.handler
                &&& ops == last.ops
            },
        }
    }

    /// A connection with its surroundings.
    pub fn new(handler: ZmtpUringHandler, environment: E) -> (session: UringSession<E>)
        requires
            handler.well_formed(),
        ensures
            session.well_formed(),
            session.model() == handler@,
            session.turns() == Seq::<Turn>::empty(),
            session.surroundings() == environment,
    {
        UringSession { handler, environment, turns: Ghost(Seq::empty()) }
    }

    /// The connection itself.
    pub fn handler(&self) -> (handler: &ZmtpUringHandler)
        ensures
            handler@ == self.model(),
    {
        &self.handler
    }

    /// The surroundings.
    pub fn environment(&self) -> (environment: &E)
        ensures
            *environment == self.surroundings(),
    {
        &self.environment
    }

    /// Parts the connection from its surroundings.
    pub fn into_parts(self) -> (parts: (ZmtpUringHandler, E))
        ensures
            parts.0@ == self.model(),
            parts.1 == self.surroundings(),
    {
        (self.handler, self.environment)
    }

    /// Puts a question to the surroundings, and returns what they answer.  Nothing else
    /// happens to them.
    fn answer(&mut self, request: Request) -> (reply: Reply)
        ensures
            final(self).model() == old(self).model(),
            final(self).turns() == old(self).turns(),
            exists|first: &mut E, second: &mut E|
                {
                    &&& #[trigger] asked_within(first, second, request, reply)
                    &&& *first == old(self).surroundings()
                    &&& makes_command(request) ==> *second == *final(first) && *final(second)
                        == final(self).surroundings()
                    &&& !makes_command(request) ==> *final(first) == final(self).surroundings()
                },
    {
        let ghost question = request;
        match request {
            Request::Negotiate(greeting) => {
                let result = self.environment.negotiate_security_mechanism(greeting);
                assert forall|environment: &mut E| #[trigger]
                    call_ensures(E::negotiate_security_mechanism, (environment, greeting), result)
                    implies asked_within(
                    environment,
                    environment,
                    question,
                    Reply::Done(result),
                ) by { }
                Reply::Done(result)
            },
            Request::ReadFrame(bytes) => {
                let (outcome, rest) = self.environment.try_read_msg(bytes);
                assert forall|environment: &mut E| #[trigger]
                    call_ensures(E::try_read_msg, (environment, bytes), (outcome, rest))
                    implies asked_within(
                    environment,
                    environment,
                    question,
                    Reply::Frame { outcome, rest },
                ) by { }
                Reply::Frame { outcome, rest }
            },
            Request::MechanismComplete => {
                let yes = self.environment.mechanism_is_complete();
                assert forall|environment: &mut E| #[trigger]
                    call_ensures(E::mechanism_is_complete, (environment,), yes)
                    implies asked_within(
                    environment,
                    environment,
                    question,
                    Reply::Yes(yes),
                ) by { }
                Reply::Yes(yes)
            },
            Request::ProduceToken => {
                let token = self.environment.produce_token();
                assert forall|environment: &mut E| #[trigger]
                    call_ensures(E::produce_token, (environment,), token) implies asked_within(
                    environment,
                    environment,
                    question,
                    Reply::Token(token),
                ) by { }
                Reply::Token(token)
            },
            Request::ProcessToken(token) => {
                let result = self.environment.process_token(token);
                assert forall|environment: &mut E| #[trigger]
                    call_ensures(E::process_token, (environment, token), result)
                    implies asked_within(
                    environment,
                    environment,
                    question,
                    Reply::Done(result),
                ) by { }
                Reply::Done(result)
            },
            Request::MechanismFault => {
                let fault = self.environment.mechanism_fault();
                assert forall|environment: &mut E| #[trigger]
                    call_ensures(E::mechanism_fault, (environment,), fault) implies asked_within(
                    environment,
                    environment,
                    question,
                    Reply::Fault(fault),
                ) by { }
                Reply::Fault(fault)
            },
            Request::IntoFramer(limit) => {
                let identity = self.environment.into_framer(limit);
                assert forall|environment: &mut E| #[trigger]
                    call_ensures(E::into_framer, (environment, limit), identity)
                    implies asked_within(
                    environment,
                    environment,
                    question,
                    Reply::Identity(identity),
                ) by { }
                Reply::Identity(identity)
            },
            Request::WriteFrames(frames) => {
                let wire = self.environment.write_msg_multipart(frames);
                assert forall|environment: &mut E| #[trigger]
                    call_ensures(E::write_msg_multipart, (environment, frames), wire)
                    implies asked_within(
                    environment,
                    environment,
                    question,
                    Reply::Wire(wire),
                ) by { }
                Reply::Wire(wire)
            },
            Request::WriteReady(properties) => {
                let msg = self.environment.create_ready(properties);
                let reply = self.write_one(msg);
                assert forall|first: &mut E, second: &mut E| #[trigger]
                    call_ensures(E::create_ready, (first, properties), msg) && #[trigger] wrote_one(
                        second,
                        msg,
                        reply,
                    ) implies asked_within(first, second, question, reply) by {
                    assert(made_command(first, question, msg));
                }
                reply
            },
            Request::WritePong(context) => {
                let msg = self.environment.create_pong(context);
                let reply = self.write_one(msg);
                assert forall|first: &mut E, second: &mut E| #[trigger]
                    call_ensures(E::create_pong, (first, context), msg) && #[trigger] wrote_one(
                        second,
                        msg,
                        reply,
                    ) implies asked_within(first, second, question, reply) by {
                    assert(made_command(first, question, msg));
                }
                reply
            },
            Request::WritePing { ttl, context } => {
                let msg = self.environment.create_ping(ttl, context);
                let reply = self.write_one(msg);
                assert forall|first: &mut E, second: &mut E| #[trigger]
                    call_ensures(E::create_ping, (first, ttl, context), msg) && #[trigger] wrote_one(
                        second,
                        msg,
                        reply,
                    ) implies asked_within(first, second, question, reply) by {
                    assert(made_command(first, question, msg));
                }
                reply
            },
            Request::ParseCommand(msg) => {
                let command = self.environment.parse_command(msg);
                assert forall|environment: &mut E| #[trigger]
                    call_ensures(E::parse_command, (environment, msg), command)
                    implies asked_within(
                    environment,
                    environment,
                    question,
                    Reply::Command(command),
                ) by { }
                Reply::Command(command)
            },
            Request::Deliver(event) => {
                let yes = self.environment.try_send(event);
                assert forall|environment: &mut E| #[trigger]
                    call_ensures(E::try_send, (environment, event), yes) implies asked_within(
                    environment,
                    environment,
                    question,
                    Reply::Yes(yes),
                ) by { }
                Reply::Yes(yes)
            },
            Request::ReaderActive => {
                let yes = self.environment.reader_is_active();
                assert forall|environment: &mut E| #[trigger]
                    call_ensures(E::reader_is_active, (environment,), yes) implies asked_within(
                    environment,
                    environment,
                    question,
                    Reply::Yes(yes),
                ) by { }
                Reply::Yes(yes)
            },
            Request::ReadIntent => {
                let intent = self.environment.prepare_recv_multi_intent();
                assert forall|environment: &mut E| #[trigger]
                    call_ensures(E::prepare_recv_multi_intent, (environment,), intent)
                    implies asked_within(
                    environment,
                    environment,
                    question,
                    Reply::Intent(intent),
                ) by { }
                Reply::Intent(intent)
            },
            Request::ReaderMatches(op) => {
                let yes = self.environment.matches_cqe_user_data(op);
                assert forall|environment: &mut E| #[trigger]
                    call_ensures(E::matches_cqe_user_data, (environment, op), yes)
                    implies asked_within(
                    environment,
                    environment,
                    question,
                    Reply::Yes(yes),
                ) by { }
                Reply::Yes(yes)
            },
        }
    }

    /// Asks the surroundings for the bytes of one frame, and returns what they answer.
    fn write_one(&mut self, msg: Msg) -> (reply: Reply)
        ensures
            final(self).model() == old(self).model(),
            final(self).turns() == old(self).turns(),
            exists|environment: &mut E|
                {
                    &&& #[trigger] wrote_one(environment, msg, reply)
                    &&& *environment == old(self).surroundings()
                    &&& *final(environment) == final(self).surroundings()
                },
    {
        let mut frames: Vec<Msg> = Vec::new();
        frames.push(msg);
        let ghost one = frames;
        assert(one@ =~= seq![msg]);
        let wire = self.environment.write_msg_multipart(frames);
        assert forall|environment: &mut E| #[trigger]
            call_ensures(E::write_msg_multipart, (environment, one), wire) implies wrote_one(
            environment,
            msg,
            Reply::Wire(wire),
        ) by {
            assert(asked(environment, Request::WriteFrames(one), Reply::Wire(wire)));
        }
        Reply::Wire(wire)
    }

    /// Goes on with a call, one answer after the other, until it is done.
    fn run(&mut self, ops: &mut HandlerIoOps, flow: Flow) -> (result: Result<bool, ZmqError>)
        requires
            old(self).well_formed(),
        ensures
            final(self).well_formed(),
            final(self).ran(
                *old(self),
                (Step { handler: old(self).model(), ops: old(ops)@, flow: flow@ }),
                final(ops)@,
                crate::error::result_view(result),
            ),
            exists|states: Seq<E>|
                {
                    &&& #[trigger] lead(
                        states,
                        old(self).surroundings(),
                        final(self).surroundings(),
                        final(self).turns_since(*old(self)),
                    )
                    &&& forall|i: int| #[trigger]
                        is_turn(final(self).turns_since(*old(self)), i) ==> exists|
                            first: &mut E,
                            second: &mut E,
                            clock: &mut E,
                            request: Request,
                            reply: Reply,
                        | #[trigger]
                            turn_led(
                                first,
                                *final(first),
                                second,
                                *final(second),
                                clock,
                                *final(clock),
                                request,
                                reply,
                                final(self).turns_since(*old(self)),
                                states,
                                i,
                            )
                },
    {
        let ghost first = Step { handler: self.model(), ops: ops@, flow: flow@ };
        let ghost before = self.turns();
        let ghost mut taken: Seq<Turn> = Seq::empty();
        let ghost mut states: Seq<E> = seq![self.surroundings()];
        let mut next = flow;
        let mut left: u64 = u64::MAX;
        assert(before + taken =~= before);
        loop
            invariant
                self.well_formed(),
                before == old(self).turns(),
                first == (Step { handler: old(self).model(), ops: old(ops)@, flow: flow@ }),
                self.turns() == before + taken,
                taken.len() + left == u64::MAX,
                taken_with::<E>(taken),
                lead(states, old(self).surroundings(), self.surroundings(), taken),
                forall|i: int| #[trigger]
                    is_turn(taken, i) ==> exists|
                        first: &mut E,
                        second: &mut E,
                        clock: &mut E,
                        request: Request,
                        reply: Reply,
                    | #[trigger]
                        turn_led(
                            first,
                            *final(first),
                            second,
                            *final(second),
                            clock,
                            *final(clock),
                            request,
                            reply,
                            taken,
                            states,
                            i,
                        ),
                advanced(first, taken) == Some(
                    Step { handler: self.model(), ops: ops@, flow: next@ },
                ),
            decreases left,
        {
            proof {
                lemma_advanced_replays(first, taken);
                assert(self.turns_since(*old(self)) =~= taken);
                assert(before.is_prefix_of(self.turns()));
            }
            match next {
                Flow::Return(result) => {
                    return result;
                },
                Flow::Ask { stage, pass, request } => {
                    if left == 0 {
                        return Err(
                            ZmqError::Internal("Connection was asked without end".to_string()),
                        );
                    }
                    let ghost question = request;
                    let reply = self.answer(request);
                    let now = self.environment.now();
                    proof {
                        let turn = Turn { request: question@, reply: reply@, at: now };
                        assert(answered::<E>(turn));
                        assert(clock_read::<E>(now));
                        let earlier = taken;
                        let before_it = states;
                        taken = taken.push(turn);
                        states = states.push(self.surroundings());
                        let last = earlier.len() as int;
                        lemma_turns_stay(earlier, before_it, turn, self.surroundings());
                        assert forall|first: &mut E, second: &mut E, clock: &mut E|
                            {
                                &&& #[trigger] asked_within(first, second, question, reply)
                                &&& #[trigger] call_ensures(E::now, (clock,), now)
                                &&& *first == before_it[last]
                                &&& makes_command(question) ==> *second == *final(first) && *clock
                                    == *final(second)
                                &&& !makes_command(question) ==> *clock == *final(first)
                                &&& *final(clock) == states[last + 1]
                            } implies turn_led(
                            first,
                            *final(first),
                            second,
                            *final(second),
                            clock,
                            *final(clock),
                            question,
                            reply,
                            taken,
                            states,
                            last,
                        ) by { }
                        assert(forall|i: int| #[trigger]
                            is_turn(taken, i) ==> is_turn(earlier, i) || i == last);
                        lemma_advanced_push(first, earlier, turn);
                        assert(before + taken =~= (before + earlier).push(turn));
                        self.turns@ = self.turns@.push(turn);
                    }
                    next = self.handler.resume(ops, stage, pass, reply, now);
                    left = left - 1;
                },
            }
        }
    }

    /// Works through the bytes that have arrived.
    pub fn process_buffered_reads(&mut self, ops: &mut HandlerIoOps, now: Instant) -> (result:
        Result<bool, ZmqError>)
        requires
            old(self).well_formed(),
        ensures
            final(self).well_formed(),
            final(self).ran(
                *old(self),
                crate::uring::model::pass_begun(old(self).model(), old(ops)@, false, now),
                final(ops)@,
                crate::error::result_view(result),
            ),
            exists|states: Seq<E>|
                {
                    &&& #[trigger] lead(
                        states,
                        old(self).surroundings(),
                        final(self).surroundings(),
                        final(self).turns_since(*old(self)),
                    )
                    &&& forall|i: int| #[trigger]
                        is_turn(final(self).turns_since(*old(self)), i) ==> exists|
                            first: &mut E,
                            second: &mut E,
                            clock: &mut E,
                            request: Request,
                            reply: Reply,
                        | #[trigger]
                            turn_led(
                                first,
                                *final(first),
                                second,
                                *final(second),
                                clock,
                                *final(clock),
                                request,
                                reply,
                                final(self).turns_since(*old(self)),
                                states,
                                i,
                            )
                },
    {
        let flow = self.handler.pass_begun(ops, false, now);
        let ghost begun = *self;
        let result = self.run(ops, flow);
        assert(begun.surroundings() == old(self).surroundings());
        assert(self.turns_since(begun) == self.turns_since(*old(self)));
        result
    }

    /// Goes on with a call until it is done, and concludes it.
    fn run_and_conclude(&mut self, ops: &mut HandlerIoOps, flow: Flow)
        requires
            old(self).well_formed(),
        ensures
            final(self).well_formed(),
            final(self).completed(
                *old(self),
                (Step { handler: old(self).model(), ops: old(ops)@, flow: flow@ }),
                final(ops)@,
            ),
            exists|states: Seq<E>|
                {
                    &&& #[trigger] lead(
                        states,
                        old(self).surroundings(),
                        final(self).surroundings(),
                        final(self).turns_since(*old(self)),
                    )
                    &&& forall|i: int| #[trigger]
                        is_turn(final(self).turns_since(*old(self)), i) ==> exists|
                            first: &mut E,
                            second: &mut E,
                            clock: &mut E,
                            request: Request,
                            reply: Reply,
                        | #[trigger]
                            turn_led(
                                first,
                                *final(first),
                                second,
                                *final(second),
                                clock,
                                *final(clock),
                                request,
                                reply,
                                final(self).turns_since(*old(self)),
                                states,
                                i,
                            )
                },
    {
        let result = self.run(ops, flow);
        let ghost ended = *self;
        self.handler.conclude(ops, result);
        assert(self.surroundings() == ended.surroundings());
        assert(self.turns_since(*old(self)) == ended.turns_since(*old(self)));
    }

    /// Whether a call that began with `step` has led from `before` to this state and
    /// these operations, and was concluded: an error has made the connection fail, and
    /// so has giving up.
    pub open spec fn completed(&self, before: UringSession<E>, step: Step, ops: OpsView) -> bool {
        &&& before.turns().is_prefix_of(self.turns())
        &&& taken_with::<E>(self.turns_since(before))
        &&& match replayed(step, self.turns_since(before)) {
            Some(ending) => {
                &&& self.model() == crate::uring::calls::concluded(ending.handler, ending.result)
                &&& ops == crate::uring::calls::concluded_ops(
                    ending.handler,
                    ending.ops,
                    ending.result,
                )
            },
            None => {
                &&& self.turns_since(before).len() == u64::MAX
                &&& advanced(step, self.turns_since(before)) matches Some(last)
                &&& last.flow is Ask
                &&& self.model() == crate::uring::model::failed(last.handler)
                &&& ops == crate::uring::model::failed_ops(last.handler, last.ops, endless())
            },
        }
    }

    /// The connection is up.
    pub fn connection_ready(&mut self, buffer_group: Option<u16>, now: Instant) -> (ops:
        HandlerIoOps)
        requires
            old(self).well_formed(),
            crate::time::in_range(now, old(self).model().handshake_timeout),
        ensures
            final(self).well_formed(),
            final(self).turns() == old(self).turns(),
            final(self).surroundings() == old(self).surroundings(),
            final(self).model() == crate::uring::calls::connected(
                old(self).model(),
                buffer_group,
                now,
            ),
            ops@ == crate::uring::model::with_send(
                crate::uring::types::no_ops(),
                crate::greeting::prelude_bytes(),
            ),
    {
        self.handler.connection_ready(buffer_group, now)
    }

    /// Bytes of the peer have arrived; none at all mean that it closed the connection.
    pub fn process_ring_read_data(&mut self, buffer_slice: &[u8], now: Instant) -> (ops:
        HandlerIoOps)
        requires
            old(self).well_formed(),
            crate::buffer::has_room(old(self).model().accumulated, buffer_slice@.len() as int),
        ensures
            final(self).well_formed(),
            final(self).completed(
                *old(self),
                crate::uring::calls::read_begun(
                    old(self).model(),
                    crate::uring::types::no_ops(),
                    buffer_slice@,
                    now,
                ),
                ops@,
            ),
            exists|states: Seq<E>|
                {
                    &&& #[trigger] lead(
                        states,
                        old(self).surroundings(),
                        final(self).surroundings(),
                        final(self).turns_since(*old(self)),
                    )
                    &&& forall|i: int| #[trigger]
                        is_turn(final(self).turns_since(*old(self)), i) ==> exists|
                            first: &mut E,
                            second: &mut E,
                            clock: &mut E,
                            request: Request,
                            reply: Reply,
                        | #[trigger]
                            turn_led(
                                first,
                                *final(first),
                                second,
                                *final(second),
                                clock,
                                *final(clock),
                                request,
                                reply,
                                final(self).turns_since(*old(self)),
                                states,
                                i,
                            )
                },
    {
        let mut ops = HandlerIoOps::new();
        let flow = self.handler.begin_ring_read(&mut ops, buffer_slice, now);
        let ghost begun = *self;
        self.run_and_conclude(&mut ops, flow);
        assert(begun.surroundings() == old(self).surroundings());
        assert(self.turns_since(begun) == self.turns_since(*old(self)));
        ops
    }

    /// An operation that the connection asked for has completed with `cqe_result`, a
    /// count or the negative of an error number.
    pub fn handle_internal_sqe_completion(&mut self, cqe_result: i32, now: Instant) -> (ops:
        HandlerIoOps)
        requires
            old(self).well_formed(),
            cqe_result > i32::MIN,
        ensures
            final(self).well_formed(),
            final(self).completed(
                *old(self),
                crate::uring::calls::completion_begun(
                    old(self).model(),
                    crate::uring::types::no_ops(),
                    cqe_result,
                    now,
                ),
                ops@,
            ),
            exists|states: Seq<E>|
                {
                    &&& #[trigger] lead(
                        states,
                        old(self).surroundings(),
                        final(self).surroundings(),
                        final(self).turns_since(*old(self)),
                    )
                    &&& forall|i: int| #[trigger]
                        is_turn(final(self).turns_since(*old(self)), i) ==> exists|
                            first: &mut E,
                            second: &mut E,
                            clock: &mut E,
                            request: Request,
                            reply: Reply,
                        | #[trigger]
                            turn_led(
                                first,
                                *final(first),
                                second,
                                *final(second),
                                clock,
                                *final(clock),
                                request,
                                reply,
                                final(self).turns_since(*old(self)),
                                states,
                                i,
                            )
                },
    {
        let mut ops = HandlerIoOps::new();
        let flow = self.handler.begin_completion(&mut ops, cqe_result, now);
        let ghost begun = *self;
        self.run_and_conclude(&mut ops, flow);
        assert(begun.surroundings() == old(self).surroundings());
        assert(self.turns_since(begun) == self.turns_since(*old(self)));
        ops
    }

    /// The worker asks for operations to submit.
    pub fn prepare_sqes(&mut self, now: Instant) -> (ops: HandlerIoOps)
        requires
            old(self).well_formed(),
        ensures
            final(self).well_formed(),
            final(self).completed(
                *old(self),
                crate::uring::calls::prepare_begun(
                    old(self).model(),
                    crate::uring::types::no_ops(),
                    now,
                ),
                ops@,
            ),
            exists|states: Seq<E>|
                {
                    &&& #[trigger] lead(
                        states,
                        old(self).surroundings(),
                        final(self).surroundings(),
                        final(self).turns_since(*old(self)),
                    )
                    &&& forall|i: int| #[trigger]
                        is_turn(final(self).turns_since(*old(self)), i) ==> exists|
                            first: &mut E,
                            second: &mut E,
                            clock: &mut E,
                            request: Request,
                            reply: Reply,
                        | #[trigger]
                            turn_led(
                                first,
                                *final(first),
                                second,
                                *final(second),
                                clock,
                                *final(clock),
                                request,
                                reply,
                                final(self).turns_since(*old(self)),
                                states,
                                i,
                            )
                },
    {
        let mut ops = HandlerIoOps::new();
        let flow = self.handler.begin_prepare(&mut ops, now);
        let ghost begun = *self;
        self.run_and_conclude(&mut ops, flow);
        assert(begun.surroundings() == old(self).surroundings());
        assert(self.turns_since(begun) == self.turns_since(*old(self)));
        ops
    }

    /// The application hands in a message, in the operation with this number.
    pub fn handle_outgoing_app_data(&mut self, data: AppData, op: u64) -> (ops: HandlerIoOps)
        requires
            old(self).well_formed(),
        ensures
            final(self).well_formed(),
            final(self).completed(
                *old(self),
                crate::uring::calls::app_data_begun(
                    old(self).model(),
                    crate::uring::types::no_ops(),
                    data,
                    op,
                ),
                ops@,
            ),
            exists|states: Seq<E>|
                {
                    &&& #[trigger] lead(
                        states,
                        old(self).surroundings(),
                        final(self).surroundings(),
                        final(self).turns_since(*old(self)),
                    )
                    &&& forall|i: int| #[trigger]
                        is_turn(final(self).turns_since(*old(self)), i) ==> exists|
                            first: &mut E,
                            second: &mut E,
                            clock: &mut E,
                            request: Request,
                            reply: Reply,
                        | #[trigger]
                            turn_led(
                                first,
                                *final(first),
                                second,
                                *final(second),
                                clock,
                                *final(clock),
                                request,
                                reply,
                                final(self).turns_since(*old(self)),
                                states,
                                i,
                            )
                },
    {
        let mut ops = HandlerIoOps::new();
        let flow = self.handler.begin_app_data(&mut ops, data, op);
        let ghost begun = *self;
        self.run_and_conclude(&mut ops, flow);
        assert(begun.surroundings() == old(self).surroundings());
        assert(self.turns_since(begun) == self.turns_since(*old(self)));
        ops
    }

    /// The end of the connection was asked for.
    pub fn close_initiated(&mut self) -> (ops: HandlerIoOps)
        requires
            old(self).well_formed(),
        ensures
            final(self).well_formed(),
            final(self).turns() == old(self).turns(),
            final(self).surroundings() == old(self).surroundings(),
            final(self).model() == crate::uring::calls::closing(old(self).model()),
            ops@ == crate::uring::types::no_ops(),
    {
        self.handler.close_initiated()
    }

    /// The descriptor was closed.
    pub fn fd_has_been_closed(&mut self)
        requires
            old(self).well_formed(),
        ensures
            final(self).well_formed(),
            final(self).turns() == old(self).turns(),
            final(self).surroundings() == old(self).surroundings(),
            final(self).model() == (HandlerModel {
                phase: ZmtpHandlerPhase::Closed,
                ..old(self).model()
            }),
    {
        self.handler.fd_has_been_closed()
    }

    /// Lends the multishot reader out, where there is one and the completion with
    /// this number is its own.  The reader then takes the completion, hands over the
    /// bytes that came with it, and is given back.
    pub fn delegate_cqe_to_multishot_reader(&mut self, cqe_user_data: u64, now: Instant) -> (lent:
        Option<u16>)
        requires
            old(self).well_formed(),
        ensures
            final(self).well_formed(),
            old(self).model().reader is None ==> lent is None && final(self).model()
                == old(self).model() && final(self).turns() == old(self).turns()
                && final(self).surroundings() == old(self).surroundings(),
            old(self).model().reader is Some ==> {
                &&& final(self).turns().len() == old(self).turns().len() + 1
                &&& old(self).turns().is_prefix_of(final(self).turns())
                &&& final(self).turns().last().request == RequestView::ReaderMatches(cqe_user_data)
                &&& final(self).turns().last().at == now
                &&& final(self).turns().last().reply matches ReplyView::Yes(yes)
                &&& exists|environment: &mut E|
                    {
                        &&& #[trigger] call_ensures(
                            E::matches_cqe_user_data,
                            (environment, cqe_user_data),
                            yes,
                        )
                        &&& *environment == old(self).surroundings()
                        &&& *final(environment) == final(self).surroundings()
                    }
                &&& if yes {
                    &&& lent == old(self).model().reader
                    &&& final(self).model() == (HandlerModel { reader: None, ..old(self).model() })
                } else {
                    lent is None && final(self).model() == old(self).model()
                }
            },
    {
        if self.handler.reader().is_none() {
            return None;
        }
        let matches = self.environment.matches_cqe_user_data(cqe_user_data);
        proof {
            let turn = Turn {
                request: RequestView::ReaderMatches(cqe_user_data),
                reply: ReplyView::Yes(matches),
                at: now,
            };
            self.turns@ = self.turns@.push(turn);
        }
        self.handler.lend_reader(matches)
    }

    /// Takes the multishot reader back.
    pub fn return_reader(&mut self, group: u16)
        requires
            old(self).well_formed(),
        ensures
            final(self).well_formed(),
            final(self).turns() == old(self).turns(),
            final(self).surroundings() == old(self).surroundings(),
            final(self).model() == (HandlerModel { reader: Some(group), ..old(self).model() }),
    {
        self.handler.return_reader(group)
    }
}

} // verus!
