//! What comes of the events in the life of a connection on io_uring.

use vstd::prelude::*;

use crate::error::ErrorView;
use crate::greeting::{GreetingView, NegotiatedVersion};
use crate::message::MsgView;
use crate::time::Instant;
use crate::uring::model::{HandlerModel, Step};
use crate::uring::session::Turn;
use crate::uring::types::{
    AppData, BlueprintView, EventView, FlowView, OpOrigin, OpsView, Pass, QueuedMsgView, ReplyView,
    RequestView, Stage, ZmtpHandlerPhase,
};

verus! {

/// Whether one of the operations at most closes the connection.
pub open spec fn closes_at_most_once(blueprints: Seq<BlueprintView>) -> bool {
    forall|i: int, j: int|
        0 <= i < j < blueprints.len() ==> blueprints[i] != BlueprintView::Close || blueprints[j]
            != BlueprintView::Close
}

/// A connection that has failed, or is closed, does not fail again: nothing changes,
/// and nothing more is submitted or told.
pub proof fn law_failing_twice_is_failing_once(h: HandlerModel, ops: OpsView, error: ErrorView)
    ensures
        crate::uring::model::failed(crate::uring::model::failed(h)) == crate::uring::model::failed(h),
        crate::uring::model::failed_ops(crate::uring::model::failed(h), ops, error) == ops,
{
}

/// A connection that fails is to be closed, by one operation at most.
pub proof fn law_failing_closes_once(h: HandlerModel, ops: OpsView, error: ErrorView)
    requires
        closes_at_most_once(ops.blueprints),
        !crate::uring::model::is_final(h.phase),
    ensures
        crate::uring::model::failed(h).phase == ZmtpHandlerPhase::Error,
        crate::uring::model::failed_ops(h, ops, error).close,
        crate::uring::model::failed_ops(h, ops, error).blueprints.contains(BlueprintView::Close),
        closes_at_most_once(crate::uring::model::failed_ops(h, ops, error).blueprints),
{
    let after = crate::uring::model::failed_ops(h, ops, error).blueprints;
    if !ops.blueprints.contains(BlueprintView::Close) {
        assert(after.last() == BlueprintView::Close);
        assert forall|i: int| 0 <= i < ops.blueprints.len() implies ops.blueprints[i]
            != BlueprintView::Close by {
            assert(ops.blueprints.contains(ops.blueprints[i]));
        }
    }
}

/// Bytes that arrive after a connection has failed, or was closed, change nothing but
/// the buffer, and nothing is asked, submitted or told.
pub proof fn law_reads_after_the_end_do_nothing(
    h: HandlerModel,
    ops: OpsView,
    data: Seq<u8>,
    now: Instant,
)
    requires
        crate::uring::model::is_final(h.phase),
    ensures
        ({
            let step = crate::uring::calls::read_begun(h, ops, data, now);
            &&& step.flow == FlowView::Return(Ok(false))
            &&& step.ops == ops
            &&& step.handler == (HandlerModel {
                last_activity: now,
                accumulated: h.accumulated + data,
                ..h
            })
        }),
{
    reveal(crate::uring::model::pass_begun);
}

/// Where the peer closes the connection it fails, whatever the phase, and the socket
/// is told so once.
pub proof fn law_end_of_stream_is_reported_once(h: HandlerModel, now: Instant)
    requires
        !crate::uring::model::is_final(h.phase),
    ensures
        ({
            let step = crate::uring::calls::read_begun(
                h,
                crate::uring::types::no_ops(),
                Seq::empty(),
                now,
            );
            &&& step.flow == FlowView::Return(Ok(false))
            &&& step.handler.phase == ZmtpHandlerPhase::Error
            &&& step.ops.close
            &&& step.ops.blueprints == seq![BlueprintView::Close]
            &&& step.ops.notices == seq![EventView::Error(ErrorView::ConnectionClosed)]
        }),
{
    let none = crate::uring::types::no_ops();
    assert(!none.blueprints.contains(BlueprintView::Close));
    assert(none.blueprints.push(BlueprintView::Close) =~= seq![BlueprintView::Close]);
    assert(none.notices.push(EventView::Error(ErrorView::ConnectionClosed)) =~= seq![
        EventView::Error(ErrorView::ConnectionClosed),
    ]);
}

/// A handshake that takes longer than it may makes the connection fail, at the next
/// bytes as at the next chance to submit; afterwards time does not matter.
pub proof fn law_handshake_timeout(h: HandlerModel, ops: OpsView, data: Seq<u8>, now: Instant)
    ensures
        crate::uring::model::is_overdue(h, now) && data.len() > 0 ==> {
            let step = crate::uring::calls::read_begun(h, ops, data, now);
            step.handler.phase == ZmtpHandlerPhase::Error && step.flow == FlowView::Return(
                Err(ErrorView::Timeout),
            )
        },
        crate::uring::model::is_overdue(h, now) ==> crate::uring::calls::prepare_begun(
            h,
            ops,
            now,
        ).handler.phase == ZmtpHandlerPhase::Error,
        h.phase == ZmtpHandlerPhase::DataPhase ==> !crate::uring::model::is_overdue(h, now),
{
    reveal(crate::uring::model::pass_begun);
}

/// A command frame on a ZMTP/2.0 connection makes it fail; it is neither parsed nor
/// handed up.
pub proof fn law_no_commands_in_version_2(
    h: HandlerModel,
    ops: OpsView,
    pass: Pass,
    msg: MsgView,
    rest: Seq<u8>,
    now: Instant,
)
    requires
        h.phase == ZmtpHandlerPhase::DataPhase,
        h.version == Some(NegotiatedVersion::V2),
        msg.flags.command,
    ensures
        ({
            let step = crate::uring::calls::resumed(
                h,
                ops,
                Stage::DataFrame,
                pass,
                ReplyView::Frame { outcome: Ok(Some(msg)), rest },
                now,
            );
            &&& step.handler.phase == ZmtpHandlerPhase::Error
            &&& step.flow == FlowView::Return(
                Err(
                    ErrorView::ProtocolViolation(
                        "received COMMAND-flagged frame on a ZMTP/2.0 session"@,
                    ),
                ),
            )
        }),
{
    reveal(crate::uring::calls::resumed);
    reveal(crate::uring::model::data_frame);
}

/// On a ZMTP/2.0 connection no PING is sent, however long nothing happens.
pub proof fn law_no_pings_in_version_2(h: HandlerModel, ops: OpsView, now: Instant)
    requires
        h.version == Some(NegotiatedVersion::V2),
        !h.waiting_for_pong,
        h.outgoing.len() == 0,
        h.outgoing_multipart.len() == 0,
    ensures
        crate::uring::calls::prepare_data(h, ops, now) == crate::uring::calls::ended(h, ops),
{
}

/// A peer of ZMTP/2.0 is refused where that version is not allowed: the connection
/// fails, and nothing is sent to the peer.
pub proof fn law_version_2_needs_permission(
    h: HandlerModel,
    ops: OpsView,
    socket_type: u8,
    now: Instant,
)
    requires
        h.phase == ZmtpHandlerPhase::WaitPeerRevision,
        h.greeting.len() == 0,
        h.accumulated.len() == 0,
        !h.config.allow_zmtp2,
        !crate::uring::model::is_overdue(h, now),
    ensures
        ({
            let step = crate::uring::calls::read_begun(
                h,
                ops,
                crate::greeting::v2_greeting_bytes(socket_type),
                now,
            );
            &&& step.handler.phase == ZmtpHandlerPhase::Error
            &&& step.flow == FlowView::Return(Err(crate::uring::model::v2_not_allowed()))
            &&& step.ops == crate::uring::model::failed_ops(
                h,
                ops,
                crate::uring::model::v2_not_allowed(),
            )
        }),
{
    reveal(crate::uring::model::pass_begun);
    reveal(crate::uring::model::peer_revision_step);
    reveal(crate::uring::model::v2_tail_step);
    let bytes = crate::greeting::v2_greeting_bytes(socket_type);
    assert(h.accumulated + bytes =~= bytes);
    assert(h.greeting + bytes.take(11) =~= bytes.take(11));
    assert(bytes.take(11).take(11) =~= bytes.take(11));
}

/// A peer of a version that is neither 2.0 nor 3.x is refused: the connection fails,
/// and nothing is sent to the peer.
pub proof fn law_other_versions_are_refused(
    h: HandlerModel,
    ops: OpsView,
    bytes: Seq<u8>,
    revision: u8,
    now: Instant,
)
    requires
        waits_for_peer(h, now),
        bytes.len() >= 11,
        crate::greeting::peeked_revision(bytes.take(11)) == Ok::<u8, ErrorView>(revision),
        revision != 0x01,
        revision < 0x03,
    ensures
        ({
            let step = crate::uring::calls::read_begun(h, ops, bytes, now);
            let error = crate::uring::model::unsupported_revision(revision);
            &&& step.handler.phase == ZmtpHandlerPhase::Error
            &&& step.flow == FlowView::Return(Err(error))
            &&& step.ops == crate::uring::model::failed_ops(h, ops, error)
        }),
{
    reveal(crate::uring::model::pass_begun);
    reveal(crate::uring::model::peer_revision_step);
    assert(h.accumulated + bytes =~= bytes);
    assert(h.greeting + bytes.take(11) =~= bytes.take(11));
    assert(bytes.take(11).take(11) =~= bytes.take(11));
}

/// A PING that has left awaits its PONG: once that has come nothing is awaited, and
/// where it takes longer than it may the connection fails.
pub proof fn law_pong_is_awaited(
    h: HandlerModel,
    ops: OpsView,
    pass: Pass,
    context: Seq<u8>,
    left: Instant,
    now: Instant,
)
    requires
        h.phase == ZmtpHandlerPhase::DataPhase,
        h.last_sent_was_ping,
        h.outgoing.len() == 0,
        h.outgoing_multipart.len() == 0,
        ops.blueprints.len() == 0,
    ensures
        ({
            let pinged = crate::uring::calls::completion_begun(h, ops, 0, left).handler;
            let ponged = crate::uring::calls::resumed(
                pinged,
                ops,
                Stage::DataCommand,
                pass,
                ReplyView::Command(Some(crate::command::CommandView::Pong(context))),
                now,
            ).handler;
            &&& pinged.waiting_for_pong && pinged.last_ping_sent == Some(left)
            &&& !pinged.last_sent_was_ping
            &&& !ponged.waiting_for_pong && ponged.last_ping_sent is None
            &&& crate::uring::calls::prepare_data(pinged, ops, now).handler.phase
                == ZmtpHandlerPhase::Error <==> crate::time::span(left, now).nanos
                > h.heartbeat_timeout.nanos
        }),
{
    reveal(crate::uring::calls::resumed);
    reveal(crate::uring::model::data_command);
}

/// The state of a connection that waits for the first bytes of its peer.
pub open spec fn waits_for_peer(h: HandlerModel, now: Instant) -> bool {
    &&& h.phase == ZmtpHandlerPhase::WaitPeerRevision
    &&& h.greeting.len() == 0
    &&& h.accumulated.len() == 0
    &&& now.nanos <= h.handshake_deadline.nanos
}

/// The tail that a connection sends to a peer of ZMTP/3.x.
pub open spec fn own_tail(h: HandlerModel) -> Seq<u8> {
    crate::greeting::v3_tail_post_major_bytes(
        crate::mechanism::mechanism_field(
            crate::mechanism::proposed_mechanism(h.config, h.is_server),
        ),
        h.is_server,
    )
}

/// The connection once it has read the prelude of a peer and its own tail has left.
pub open spec fn past_prelude(h: HandlerModel, now: Instant) -> HandlerModel {
    HandlerModel {
        phase: ZmtpHandlerPhase::WaitV3Greeting,
        greeting: crate::greeting::prelude_bytes(),
        last_activity: now,
        ..h
    }
}

/// A connection answers the prelude of a peer with its own tail, without awaiting
/// more.
pub proof fn law_prelude_is_enough_for_the_tail(h: HandlerModel, ops: OpsView, now: Instant)
    requires
        waits_for_peer(h, now),
    ensures
        ({
            let step = crate::uring::calls::read_begun(
                h,
                ops,
                crate::greeting::prelude_bytes(),
                now,
            );
            &&& step.flow == FlowView::Return(Ok(true))
            &&& step.ops == crate::uring::model::with_send(ops, own_tail(h))
            &&& step.handler == (HandlerModel {
                phase: ZmtpHandlerPhase::SendV3Tail,
                ..past_prelude(h, now)
            })
        }),
{
    reveal(crate::uring::model::pass_begun);
    reveal(crate::uring::model::peer_revision_step);
    let bytes = crate::greeting::prelude_bytes();
    assert(h.accumulated + bytes =~= bytes);
    assert(bytes.take(11) =~= bytes);
    assert(h.greeting + bytes =~= bytes);
    assert(bytes.skip(11) =~= h.accumulated);
}

/// Two connections of opposite roles never wait for each other: each sends its
/// prelude unasked, answers the other's prelude with its tail, and with the other's
/// tail comes to know the mechanism that the other proposes.
pub proof fn law_two_peers_come_to_know_each_other(
    one: HandlerModel,
    other: HandlerModel,
    ops: OpsView,
    now: Instant,
)
    requires
        waits_for_peer(one, now),
        one.is_server != other.is_server,
    ensures
        // The tail has left.
        crate::uring::calls::completion_begun(
            HandlerModel { phase: ZmtpHandlerPhase::SendV3Tail, ..past_prelude(one, now) },
            ops,
            0,
            now,
        ).handler.phase == ZmtpHandlerPhase::WaitV3Greeting,
        // The tail of the other arrives.
        crate::uring::calls::read_begun(past_prelude(one, now), ops, own_tail(other), now).flow
            matches FlowView::Ask { stage: Stage::Negotiated, request, .. } && request
            == RequestView::Negotiate(
            GreetingView {
                version: (3, 0),
                mechanism: crate::mechanism::mechanism_field(
                    crate::mechanism::proposed_mechanism(other.config, other.is_server),
                ),
                as_server: other.is_server,
            },
        ),
{
    reveal(crate::uring::model::pass_begun);
    reveal(crate::uring::model::v3_greeting_step);
    let mechanism = crate::mechanism::mechanism_field(
        crate::mechanism::proposed_mechanism(other.config, other.is_server),
    );
    assert(mechanism.len() == 20);
    let tail = own_tail(other);
    let prelude = crate::greeting::prelude_bytes();
    let whole = crate::greeting::v3_greeting_bytes(mechanism, other.is_server);
    crate::greeting::laws::law_staged_v3_greeting_is_whole(mechanism, other.is_server);
    crate::greeting::laws::law_v3_greeting_read_back(mechanism, other.is_server, Seq::empty());
    assert(whole + Seq::<u8>::empty() =~= whole);
    assert(one.accumulated + tail =~= tail);
    assert(tail.take(53) =~= tail);
    assert(prelude + tail =~= whole);
    let waiting = past_prelude(one, now);
    let fed = HandlerModel { accumulated: waiting.accumulated + tail, ..waiting };
    assert(crate::uring::model::filled(fed, 64).greeting =~= whole);
    if waiting.greeting.len() > 0 {
        let acked = crate::uring::calls::completion_begun(
            HandlerModel { phase: ZmtpHandlerPhase::SendV3Tail, ..waiting },
            ops,
            0,
            now,
        );
        assert(acked.handler.phase == ZmtpHandlerPhase::WaitV3Greeting);
    }
}

/// The connection once it has read the greeting of a peer of ZMTP/2.0 and sent its
/// socket type.
pub open spec fn past_v2_greeting(h: HandlerModel, socket_type: u8, now: Instant) -> HandlerModel {
    HandlerModel {
        phase: ZmtpHandlerPhase::SendV2Tail,
        version: Some(NegotiatedVersion::V2),
        greeting: crate::greeting::v2_greeting_bytes(socket_type).take(11),
        accumulated: seq![socket_type],
        last_activity: now,
        ..h
    }
}

/// A connection follows a peer of ZMTP/2.0, where that is allowed and the socket types
/// go together: it sends its own socket type and then the empty identity, each without
/// awaiting more of the peer.
pub proof fn law_version_2_peer_is_followed(
    h: HandlerModel,
    ops: OpsView,
    own_type: u8,
    socket_type: u8,
    now: Instant,
)
    requires
        waits_for_peer(h, now),
        h.config.allow_zmtp2,
        crate::greeting::code_of_name(h.config.socket_type_name) == Some(own_type),
        crate::v2_rules::compatibility(h.config.socket_type_name, socket_type) is Ok,
    ensures
        crate::uring::calls::read_begun(
            h,
            ops,
            crate::greeting::v2_greeting_bytes(socket_type),
            now,
        ) == (Step {
            handler: past_v2_greeting(h, socket_type, now),
            ops: crate::uring::model::with_send(ops, seq![own_type]),
            flow: FlowView::Return(Ok(true)),
        }),
        crate::uring::calls::completion_begun(past_v2_greeting(h, socket_type, now), ops, 1, now)
            == (Step {
            handler: HandlerModel {
                phase: ZmtpHandlerPhase::V2SendIdentity,
                greeting: Seq::empty(),
                accumulated: Seq::empty(),
                ..past_v2_greeting(h, socket_type, now)
            },
            ops: crate::uring::model::with_send(ops, seq![0u8, 0u8]),
            flow: FlowView::Return(Ok(true)),
        }),
{
    reveal(crate::uring::model::pass_begun);
    reveal(crate::uring::model::peer_revision_step);
    reveal(crate::uring::model::v2_tail_step);
    reveal(crate::uring::model::v2_greeting_step);
    let bytes = crate::greeting::v2_greeting_bytes(socket_type);
    let front = bytes.take(11);
    assert(h.accumulated + bytes =~= bytes);
    assert(h.greeting + front =~= front);
    assert(front.take(11) =~= front);
    assert(bytes.skip(11) =~= seq![socket_type]);
    let one = seq![socket_type];
    assert(one.take(1) =~= one);
    assert(one.skip(1) =~= Seq::empty());
    assert(front + one =~= bytes);
    assert(bytes.skip(12) =~= Seq::empty());
}

/// Messages of one kind leave in the order in which the application hands them in: a
/// new one goes to the end of its queue, and only the first leaves it.
pub proof fn law_messages_keep_their_order(
    h: HandlerModel,
    ops: OpsView,
    msg: crate::message::Msg,
    op: u64,
    data: Seq<u8>,
)
    requires
        h.outgoing.len() > 0,
    ensures
        crate::uring::calls::app_data_begun(h, ops, AppData::Single(msg), op) == (Step {
            handler: HandlerModel {
                outgoing: h.outgoing.push(QueuedMsgView { msg: msg@, op }),
                ..h
            },
            ops,
            flow: FlowView::Return(Ok(false)),
        }),
        crate::uring::calls::queued_written(h, ops, Stage::QueuedSingle, Ok(data)) == (Step {
            handler: HandlerModel { outgoing: h.outgoing.skip(1), ..h },
            ops: crate::uring::calls::with_wire_bytes(
                h.config,
                ops,
                data,
                OpOrigin::App(h.outgoing[0].op),
            ),
            flow: FlowView::Return(Ok(false)),
        }),
{
}

/// A queued message that cannot be put on the wire is not lost: it stays the first.
pub proof fn law_unsent_messages_stay_queued(
    h: HandlerModel,
    ops: OpsView,
    stage: Stage,
    error: ErrorView,
)
    ensures
        ({
            let step = crate::uring::calls::queued_written(h, ops, stage, Err(error));
            &&& step.handler.outgoing == h.outgoing
            &&& step.handler.outgoing_multipart == h.outgoing_multipart
        }),
{
}

/// A frame of data that arrives after the handshake is handed to the socket as it is, with
/// its data and all of its flags; the bytes behind it are kept for the next one.
pub proof fn law_frames_are_handed_up_unchanged(
    h: HandlerModel,
    ops: OpsView,
    pass: Pass,
    msg: MsgView,
    rest: Seq<u8>,
    now: Instant,
)
    requires
        !msg.flags.command,
    ensures
        ({
            let step = crate::uring::calls::resumed(
                h,
                ops,
                Stage::DataFrame,
                pass,
                ReplyView::Frame { outcome: Ok(Some(msg)), rest },
                now,
            );
            &&& step.flow matches FlowView::Ask {
                stage: Stage::DataDelivered,
                pass: next,
                request: RequestView::Deliver(EventView::Data(delivered)),
            }
            &&& delivered.data == msg.data
            &&& delivered.flags.more == msg.flags.more
            &&& delivered.flags.command == msg.flags.command
            &&& next.progress
            &&& step.ops == ops
            &&& step.handler == (HandlerModel { accumulated: rest, last_activity: now, ..h })
        }),
{
    reveal(crate::uring::calls::resumed);
    reveal(crate::uring::model::data_frame);
}

/// Once the socket has taken a message the next frame is looked for in the bytes that are
/// left; where it has not taken it the connection fails.
pub proof fn law_reading_goes_on_after_a_message(
    h: HandlerModel,
    ops: OpsView,
    pass: Pass,
    now: Instant,
)
    requires
        h.phase == ZmtpHandlerPhase::DataPhase,
    ensures
        ({
            let taken = crate::uring::calls::resumed(
                h,
                ops,
                Stage::DataDelivered,
                pass,
                ReplyView::Yes(true),
                now,
            );
            let refused = crate::uring::calls::resumed(
                h,
                ops,
                Stage::DataDelivered,
                pass,
                ReplyView::Yes(false),
                now,
            );
            &&& taken.flow == (FlowView::Ask {
                stage: Stage::DataFrame,
                pass,
                request: RequestView::ReadFrame(h.accumulated),
            })
            &&& taken.ops == ops
            &&& refused.handler == (HandlerModel { phase: ZmtpHandlerPhase::Error, ..h })
            &&& refused.ops.close
            &&& refused.ops.notices == ops.notices
            &&& refused.flow == FlowView::Return(
                Err(ErrorView::Internal("Upstream channel error for ZMTP data"@)),
            )
        }),
{
    reveal(crate::uring::calls::resumed);
    reveal(crate::uring::model::data_delivered);
}

/// A command frame that arrives after the handshake in ZMTP/3.x is parsed as it is.
pub proof fn law_command_frames_are_parsed(
    h: HandlerModel,
    ops: OpsView,
    pass: Pass,
    msg: MsgView,
    rest: Seq<u8>,
    now: Instant,
)
    requires
        h.version != Some(NegotiatedVersion::V2),
        msg.flags.command,
    ensures
        ({
            let step = crate::uring::calls::resumed(
                h,
                ops,
                Stage::DataFrame,
                pass,
                ReplyView::Frame { outcome: Ok(Some(msg)), rest },
                now,
            );
            &&& step.flow matches FlowView::Ask {
                stage: Stage::DataCommand,
                request: RequestView::ParseCommand(parsed),
                ..
            }
            &&& parsed == msg
            &&& step.ops == ops
            &&& step.handler == (HandlerModel { accumulated: rest, last_activity: now, ..h })
        }),
{
    reveal(crate::uring::calls::resumed);
    reveal(crate::uring::model::data_frame);
}

/// A PING that arrives after the handshake is answered with a PONG of its own context, and
/// reading goes on.
pub proof fn law_pings_are_answered(
    h: HandlerModel,
    ops: OpsView,
    pass: Pass,
    context: Seq<u8>,
    wire: Seq<u8>,
    now: Instant,
)
    ensures
        crate::uring::calls::resumed(
            h,
            ops,
            Stage::DataCommand,
            pass,
            ReplyView::Command(Some(crate::command::CommandView::Ping(context))),
            now,
        ) == (Step {
            handler: h,
            ops,
            flow: FlowView::Ask {
                stage: Stage::PongWritten,
                pass,
                request: RequestView::WritePong(context),
            },
        }),
        crate::uring::calls::resumed(
            h,
            ops,
            Stage::PongWritten,
            pass,
            ReplyView::Wire(Ok(wire)),
            now,
        ) == (Step {
            handler: HandlerModel { accumulated: Seq::empty(), ..h },
            ops: OpsView {
                blueprints: ops.blueprints.push(
                    BlueprintView::Send { data: wire, flags: 0, origin: OpOrigin::Handler },
                ),
                ..ops
            },
            flow: FlowView::Ask {
                stage: Stage::DataFrame,
                pass,
                request: RequestView::ReadFrame(h.accumulated),
            },
        }),
{
    reveal(crate::uring::calls::resumed);
    reveal(crate::uring::model::data_command);
    reveal(crate::uring::model::pong_written);
}

/// An ERROR command makes the connection fail; reading goes on after any command but that
/// and a PING.
pub proof fn law_other_commands(
    h: HandlerModel,
    ops: OpsView,
    pass: Pass,
    command: Option<crate::command::CommandView>,
    now: Instant,
)
    requires
        h.phase == ZmtpHandlerPhase::DataPhase,
    ensures
        ({
            let step = crate::uring::calls::resumed(
                h,
                ops,
                Stage::DataCommand,
                pass,
                ReplyView::Command(command),
                now,
            );
            match command {
                Some(crate::command::CommandView::Ping(_)) => true,
                Some(crate::command::CommandView::Error) => {
                    &&& step.handler.phase == ZmtpHandlerPhase::Error
                    &&& step.flow == FlowView::Return(
                        Err(ErrorView::ProtocolViolation("Peer sent ZMTP ERROR command"@)),
                    )
                },
                _ => {
                    &&& step.ops == ops
                    &&& step.flow == (FlowView::Ask {
                        stage: Stage::DataFrame,
                        pass,
                        request: RequestView::ReadFrame(h.accumulated),
                    })
                },
            }
        }),
{
    reveal(crate::uring::calls::resumed);
    reveal(crate::uring::model::data_command);
}

/// The frames that a message of one frame is put on the wire as.  REQ and DEALER put an
/// empty frame with MORE before it; no other type of socket does.  The message itself
/// comes last, without MORE and with its data.
pub proof fn law_single_messages_are_framed(
    h: HandlerModel,
    ops: OpsView,
    msg: crate::message::Msg,
    op: u64,
)
    requires
        h.phase == ZmtpHandlerPhase::DataPhase,
        h.outgoing.len() == 0,
        h.outgoing_multipart.len() == 0,
    ensures
        crate::uring::calls::app_data_begun(h, ops, AppData::Single(msg), op).flow
            matches FlowView::Ask {
            stage: Stage::AppSingle,
            request: RequestView::WriteFrames(frames),
            ..
        } && framed(h.config.socket_type_name, msg@, frames),
{
}

/// The same of a message that had to wait for its turn.
pub proof fn law_queued_single_messages_are_framed(h: HandlerModel, ops: OpsView)
    requires
        h.outgoing.len() > 0,
        h.outgoing_multipart.len() == 0,
    ensures
        crate::uring::calls::write_queued(h, ops).flow matches FlowView::Ask {
            stage: Stage::QueuedSingle,
            request: RequestView::WriteFrames(frames),
            ..
        } && framed(h.config.socket_type_name, h.outgoing[0].msg, frames),
{
}

/// Whether these are the frames that a message of one frame makes on a socket of the type
/// with this name.
pub open spec fn framed(socket_type: Seq<char>, msg: MsgView, frames: Seq<MsgView>) -> bool {
    let delimited = socket_type == "REQ"@ || socket_type == "DEALER"@;
    &&& frames.len() == if delimited {
        2int
    } else {
        1int
    }
    &&& frames.last().data == msg.data
    &&& !frames.last().flags.more
    &&& frames.last().flags.command == msg.flags.command
    &&& delimited ==> {
        &&& frames[0].body().len() == 0
        &&& frames[0].flags.more
        &&& !frames[0].flags.command
    }
}

/// The frames of data that the framer has returned in these turns, once the handshake was
/// done: it was before them where `done`, and is from the turn on in which the socket is
/// told so.
pub open spec fn data_frames(turns: Seq<Turn>, done: bool) -> Seq<MsgView>
    decreases turns.len(),
{
    if turns.len() == 0 {
        Seq::empty()
    } else {
        match (turns[0].request, turns[0].reply) {
            (
                RequestView::ReadFrame(_),
                ReplyView::Frame { outcome: Ok(Some(msg)), .. },
            ) if done && !msg.flags.command => seq![msg] + data_frames(turns.skip(1), done),
            (RequestView::Deliver(EventView::HandshakeComplete(_)), _) => data_frames(
                turns.skip(1),
                true,
            ),
            _ => data_frames(turns.skip(1), done),
        }
    }
}

/// The frames that the socket was handed in these turns.
pub open spec fn handed_up(turns: Seq<Turn>) -> Seq<MsgView>
    decreases turns.len(),
{
    if turns.len() == 0 {
        Seq::empty()
    } else {
        match turns[0].request {
            RequestView::Deliver(EventView::Data(msg)) => seq![msg] + handed_up(turns.skip(1)),
            _ => handed_up(turns.skip(1)),
        }
    }
}

/// The frame that is about to be handed to the socket, if any.
spec fn pending(step: Step) -> Seq<MsgView> {
    match step.flow {
        FlowView::Ask { request: RequestView::Deliver(EventView::Data(msg)), .. } => seq![msg],
        _ => Seq::empty(),
    }
}

/// Whether a call that has come as far as `step` asks what belongs to its stage, with the
/// handshake done or not.
spec fn reading(step: Step, done: bool) -> bool {
    step.flow matches FlowView::Ask { stage, request, .. } ==> match stage {
        Stage::DataFrame => done && step.handler.phase == ZmtpHandlerPhase::DataPhase
            && request is ReadFrame,
        Stage::DataDelivered => done && step.handler.phase == ZmtpHandlerPhase::DataPhase
            && request matches RequestView::Deliver(EventView::Data(_)),
        Stage::DataCommand => done && step.handler.phase == ZmtpHandlerPhase::DataPhase
            && request is ParseCommand,
        Stage::PongWritten => done && step.handler.phase == ZmtpHandlerPhase::DataPhase
            && request is WritePong,
        Stage::Signalled | Stage::SendSignalled => !done && step.handler.phase
            == ZmtpHandlerPhase::DataPhase && request matches RequestView::Deliver(
            EventView::HandshakeComplete(_),
        ),
        Stage::QueuedMultipart
        | Stage::QueuedSingle
        | Stage::AppMultipart
        | Stage::AppSingle
        | Stage::PingWritten
        | Stage::ReaderStatus
        | Stage::ReaderIntent => request !is ReadFrame && request !is Deliver,
        _ => !done && step.handler.phase != ZmtpHandlerPhase::DataPhase && request !is Deliver,
    }
}

proof fn lemma_pass_is_reading(h: HandlerModel, ops: OpsView, made_progress: bool, now: Instant)
    ensures
        ({
            let step = crate::uring::model::pass_begun(h, ops, made_progress, now);
            reading(step, h.phase == ZmtpHandlerPhase::DataPhase) && pending(step).len() == 0
        }),
{
    reveal(crate::uring::model::pass_begun);
    reveal(crate::uring::model::peer_revision_step);
    reveal(crate::uring::model::v2_tail_step);
    reveal(crate::uring::model::v3_greeting_step);
    reveal(crate::uring::model::v2_greeting_step);
}

proof fn lemma_pass_end_is_reading(h: HandlerModel, ops: OpsView, pass: Pass, now: Instant)
    ensures
        ({
            let step = crate::uring::model::pass_ended(h, ops, pass, now);
            reading(step, h.phase == ZmtpHandlerPhase::DataPhase) && pending(step).len() == 0
        }),
{
    lemma_pass_is_reading(h, ops, pass.made_progress || pass.progress, now);
}

#[verifier::rlimit(60)]
proof fn lemma_handshake_is_reading(
    h: HandlerModel,
    ops: OpsView,
    stage: Stage,
    pass: Pass,
    reply: ReplyView,
    now: Instant,
)
    requires
        h.phase != ZmtpHandlerPhase::DataPhase,
        stage != Stage::DataFrame && stage != Stage::DataDelivered && stage != Stage::DataCommand
            && stage != Stage::PongWritten && stage != Stage::Signalled,
    ensures
        ({
            let step = crate::uring::model::read_resumed(h, ops, stage, pass, reply, now);
            reading(step, false) && pending(step).len() == 0
        }),
{
    match stage {
        Stage::Negotiated => {
            reveal(crate::uring::model::negotiated);
            lemma_pass_end_is_reading(
                HandlerModel {
                    has_mechanism: true,
                    phase: ZmtpHandlerPhase::SecurityExchange,
                    ..h
                },
                ops,
                pass,
                now,
            );
        },
        Stage::IdentityFrame => {
            reveal(crate::uring::model::identity_frame);
        },
        Stage::SecurityComplete => {
            reveal(crate::uring::model::security_complete);
        },
        Stage::FirstToken => {
            reveal(crate::uring::model::first_token);
        },
        Stage::FirstTokenWritten => {
            reveal(crate::uring::model::first_token_written);
        },
        Stage::PeerToken => {
            reveal(crate::uring::model::peer_token);
        },
        Stage::PeerTokenProcessed => {
            reveal(crate::uring::model::peer_token_processed);
        },
        Stage::ResponseToken => {
            reveal(crate::uring::model::response_token);
        },
        Stage::ResponseWritten => {
            reveal(crate::uring::model::response_written);
        },
        Stage::CompleteAfter => {
            reveal(crate::uring::model::complete_after);
        },
        Stage::FaultAfter => {
            reveal(crate::uring::model::fault_after);
            lemma_pass_end_is_reading(h, ops, pass, now);
        },
        Stage::FramerMade => {
            reveal(crate::uring::model::framer_made);
            if let ReplyView::Identity(Ok(identity)) = reply {
                lemma_pass_end_is_reading(
                    HandlerModel {
                        identity_from_security: if h.identity_from_security is None {
                            identity
                        } else {
                            h.identity_from_security
                        },
                        phase: ZmtpHandlerPhase::ReadyServerWaitClient,
                        ..h
                    },
                    ops,
                    Pass { progress: true, ..pass },
                    now,
                );
            }
        },
        Stage::ClientReadyWritten => {
            reveal(crate::uring::model::client_ready_written);
            if let ReplyView::Wire(Ok(data)) = reply {
                lemma_pass_end_is_reading(
                    h,
                    crate::uring::model::with_send(ops, data),
                    Pass { progress: true, ..pass },
                    now,
                );
            }
        },
        Stage::ClientReadyFrame | Stage::ServerReadyFrame => {
            reveal(crate::uring::model::ready_frame);
        },
        Stage::ClientReadyParsed => {
            reveal(crate::uring::model::client_ready_parsed);
        },
        Stage::ServerReadyWritten => {
            reveal(crate::uring::model::server_ready_written);
            if let ReplyView::Wire(Ok(data)) = reply {
                lemma_pass_end_is_reading(
                    HandlerModel { phase: ZmtpHandlerPhase::ReadyServerSend, ..h },
                    crate::uring::model::with_send(ops, data),
                    pass,
                    now,
                );
            }
        },
        Stage::ServerReadyParsed => {
            reveal(crate::uring::model::server_ready_parsed);
        },
        _ => {},
    }
}

/// What an answer leads to: a frame of data to be handed up, as it is, and nothing to be
/// handed up otherwise.
proof fn lemma_reading_goes_on(
    h: HandlerModel,
    ops: OpsView,
    stage: Stage,
    pass: Pass,
    request: RequestView,
    reply: ReplyView,
    now: Instant,
    done: bool,
)
    requires
        reading(Step { handler: h, ops, flow: FlowView::Ask { stage, pass, request } }, done),
    ensures
        ({
            let next = crate::uring::calls::resumed(h, ops, stage, pass, reply, now);
            let told = request matches RequestView::Deliver(EventView::HandshakeComplete(_));
            &&& reading(next, done || told)
            &&& pending(next) == match (request, reply) {
                (
                    RequestView::ReadFrame(_),
                    ReplyView::Frame { outcome: Ok(Some(msg)), .. },
                ) if done && !msg.flags.command => seq![msg],
                _ => Seq::empty(),
            }
        }),
{
    reveal(crate::uring::calls::resumed);
    match stage {
        Stage::DataFrame => {
            reveal(crate::uring::model::data_frame);
            if let ReplyView::Frame { outcome, rest } = reply {
                lemma_pass_end_is_reading(HandlerModel { accumulated: rest, ..h }, ops, pass, now);
            }
        },
        Stage::DataDelivered => {
            reveal(crate::uring::model::data_delivered);
        },
        Stage::DataCommand => {
            reveal(crate::uring::model::data_command);
        },
        Stage::PongWritten => {
            reveal(crate::uring::model::pong_written);
        },
        Stage::Signalled => {
            reveal(crate::uring::model::signalled);
            lemma_pass_end_is_reading(h, ops, pass, now);
        },
        Stage::SendSignalled => {
            lemma_pass_is_reading(h, ops, false, now);
        },
        Stage::QueuedMultipart
        | Stage::QueuedSingle
        | Stage::AppMultipart
        | Stage::AppSingle
        | Stage::PingWritten
        | Stage::ReaderStatus
        | Stage::ReaderIntent => {},
        _ => {
            lemma_handshake_is_reading(h, ops, stage, pass, reply, now);
        },
    }
    assert(pending(crate::uring::calls::resumed(h, ops, stage, pass, reply, now)) =~= match (
        request,
        reply,
    ) {
        (
            RequestView::ReadFrame(_),
            ReplyView::Frame { outcome: Ok(Some(msg)), .. },
        ) if done && !msg.flags.command => seq![msg],
        _ => Seq::empty(),
    });
}

proof fn lemma_handed_up(step: Step, turns: Seq<Turn>, done: bool)
    requires
        reading(step, done),
        crate::uring::session::replayed(step, turns) is Some,
    ensures
        handed_up(turns) == pending(step) + data_frames(turns, done),
    decreases turns.len(),
{
    if let FlowView::Ask { stage, pass, request } = step.flow {
        let reply = turns[0].reply;
        let next = crate::uring::calls::resumed(
            step.handler,
            step.ops,
            stage,
            pass,
            reply,
            turns[0].at,
        );
        lemma_reading_goes_on(
            step.handler,
            step.ops,
            stage,
            pass,
            request,
            reply,
            turns[0].at,
            done,
        );
        let told = request matches RequestView::Deliver(EventView::HandshakeComplete(_));
        lemma_handed_up(next, turns.skip(1), done || told);
        assert(handed_up(turns) =~= pending(step) + data_frames(turns, done));
    } else {
        assert(handed_up(turns) =~= pending(step) + data_frames(turns, done));
    }
}

/// In a whole call the socket is handed the frames of data that the framer has returned
/// once the handshake was done: all of them, each with its data and its flags, in their
/// order, and no others.  This holds of bytes that arrive, of bytes that were kept, and of
/// bytes that had arrived when a send completes.
pub proof fn law_messages_are_handed_up_as_they_come(
    h: HandlerModel,
    ops: OpsView,
    data: Seq<u8>,
    result: i32,
    now: Instant,
    turns: Seq<Turn>,
)
    ensures
        crate::uring::session::replayed(
            crate::uring::calls::read_begun(h, ops, data, now),
            turns,
        ) is Some ==> handed_up(turns) == data_frames(
            turns,
            h.phase == ZmtpHandlerPhase::DataPhase,
        ),
        crate::uring::session::replayed(
            crate::uring::model::pass_begun(h, ops, false, now),
            turns,
        ) is Some ==> handed_up(turns) == data_frames(
            turns,
            h.phase == ZmtpHandlerPhase::DataPhase,
        ),
        crate::uring::session::replayed(
            crate::uring::calls::completion_begun(h, ops, result, now),
            turns,
        ) is Some ==> handed_up(turns) == data_frames(
            turns,
            h.phase == ZmtpHandlerPhase::DataPhase,
        ),
{
    let done = h.phase == ZmtpHandlerPhase::DataPhase;
    let active = HandlerModel { last_activity: now, ..h };
    let fed = HandlerModel { accumulated: h.accumulated + data, ..active };
    lemma_pass_is_reading(h, ops, false, now);
    lemma_pass_is_reading(fed, ops, false, now);
    let next = HandlerModel { phase: crate::uring::calls::acknowledged(h.phase), ..active };
    lemma_pass_is_reading(next, ops, false, now);
    let read = crate::uring::calls::read_begun(h, ops, data, now);
    if crate::uring::session::replayed(read, turns) is Some {
        lemma_handed_up(read, turns, done);
        assert(pending(read) + data_frames(turns, done) =~= data_frames(turns, done));
    }
    let kept = crate::uring::model::pass_begun(h, ops, false, now);
    if crate::uring::session::replayed(kept, turns) is Some {
        lemma_handed_up(kept, turns, done);
        assert(pending(kept) + data_frames(turns, done) =~= data_frames(turns, done));
    }
    let sent = crate::uring::calls::completion_begun(h, ops, result, now);
    if crate::uring::session::replayed(sent, turns) is Some {
        lemma_handed_up(sent, turns, done);
        assert(pending(sent) + data_frames(turns, done) =~= data_frames(turns, done));
    }
}

/// A message of several frames is put on the wire as it was handed in, one that had to wait
/// before any of one frame; with nothing waiting, at once.
pub proof fn law_multipart_messages_are_sent_as_they_are(
    h: HandlerModel,
    ops: OpsView,
    parts: Vec<crate::message::Msg>,
    op: u64,
)
    ensures
        ({
            let step = crate::uring::calls::app_data_begun(h, ops, AppData::Multipart(parts), op);
            let queued = step.handler.outgoing_multipart;
            &&& step.ops == ops
            &&& step.handler.outgoing == h.outgoing
            &&& step.handler.phase == h.phase
            &&& queued.len() == h.outgoing_multipart.len() + 1
            &&& queued.take(h.outgoing_multipart.len() as int) == h.outgoing_multipart
            &&& queued.last().op == op
            &&& queued.last().parts.len() == parts@.len()
            &&& forall|i: int|
                0 <= i < parts@.len() ==> #[trigger] queued.last().parts[i] == parts@[i]@
            &&& if h.phase == ZmtpHandlerPhase::DataPhase && h.outgoing.len() == 0
                && h.outgoing_multipart.len() == 0 {
                step.flow matches FlowView::Ask {
                    stage: Stage::AppMultipart,
                    request: RequestView::WriteFrames(frames),
                    ..
                } && frames == queued.last().parts
            } else {
                step.flow == FlowView::Return(Ok(false))
            }
        }),
        h.outgoing_multipart.len() > 0 ==> (crate::uring::calls::write_queued(h, ops).flow
            matches FlowView::Ask {
            stage: Stage::QueuedMultipart,
            request: RequestView::WriteFrames(frames),
            ..
        } && frames == h.outgoing_multipart[0].parts),
{
    assert(h.outgoing_multipart.push(
        crate::uring::types::QueuedPartsView { parts: crate::message::views(parts@), op },
    ).take(h.outgoing_multipart.len() as int) =~= h.outgoing_multipart);
}

/// A message of one frame waits behind those that wait already, where it cannot be sent at
/// once; data of another kind changes nothing.
pub proof fn law_single_messages_wait_their_turn(
    h: HandlerModel,
    ops: OpsView,
    msg: crate::message::Msg,
    op: u64,
)
    ensures
        ({
            let step = crate::uring::calls::app_data_begun(h, ops, AppData::Single(msg), op);
            let queued = step.handler.outgoing;
            &&& step.ops == ops
            &&& step.handler.outgoing_multipart == h.outgoing_multipart
            &&& queued.take(h.outgoing.len() as int) == h.outgoing
            &&& queued.len() == h.outgoing.len() + 1
            &&& queued.last() == (QueuedMsgView { msg: msg@, op })
            &&& step.flow is Return <==> h.phase != ZmtpHandlerPhase::DataPhase || h.outgoing.len()
                > 0 || h.outgoing_multipart.len() > 0
        }),
        crate::uring::calls::app_data_begun(h, ops, AppData::Unknown, op) == (Step {
            handler: h,
            ops,
            flow: FlowView::Return(Ok(false)),
        }),
{
    assert(h.outgoing.push(QueuedMsgView { msg: msg@, op }).take(h.outgoing.len() as int)
        =~= h.outgoing);
}

/// The bytes that a message makes on the wire are sent as they are, in the operation that
/// the application handed it in with, and the message leaves its queue.  More than 1024 are
/// sent without a copy where that is switched on, and none are not sent.
pub proof fn law_wire_bytes_are_sent(h: HandlerModel, ops: OpsView, stage: Stage, data: Seq<u8>)
    requires
        stage == Stage::QueuedSingle || stage == Stage::AppSingle ==> h.outgoing.len() > 0,
        stage == Stage::QueuedMultipart || stage == Stage::AppMultipart
            ==> h.outgoing_multipart.len() > 0,
        stage == Stage::QueuedSingle || stage == Stage::AppSingle || stage
            == Stage::QueuedMultipart || stage == Stage::AppMultipart,
    ensures
        ({
            let single = stage == Stage::QueuedSingle || stage == Stage::AppSingle;
            let step = crate::uring::calls::queued_written(h, ops, stage, Ok(data));
            let origin = OpOrigin::App(
                if single {
                    h.outgoing[0].op
                } else {
                    h.outgoing_multipart[0].op
                },
            );
            &&& step.flow == FlowView::Return(Ok(false))
            &&& step.handler.phase == h.phase
            &&& step.handler.outgoing == if single {
                h.outgoing.skip(1)
            } else {
                h.outgoing
            }
            &&& step.handler.outgoing_multipart == if single {
                h.outgoing_multipart
            } else {
                h.outgoing_multipart.skip(1)
            }
            &&& step.ops.close == ops.close && step.ops.notices == ops.notices
            &&& step.ops.blueprints == if data.len() == 0 {
                ops.blueprints
            } else if data.len() > 1024 && h.config.use_send_zerocopy {
                ops.blueprints.push(BlueprintView::SendZeroCopy { data, flags: 0, origin })
            } else {
                ops.blueprints.push(BlueprintView::Send { data, flags: 0, origin })
            }
        }),
{
}

/// Buffers that are sent one after the other: all but the last say that more follows, and
/// where there are several the stream is corked meanwhile, if that is switched on.
pub proof fn law_buffers_are_sent_in_order(
    config: crate::options::ConfigView,
    ops: OpsView,
    frames: Seq<Seq<u8>>,
    origin: OpOrigin,
    i: int,
)
    requires
        0 <= i < frames.len(),
    ensures
        ({
            let after = crate::uring::calls::with_wire_frames(config, ops, frames, origin);
            let corked = frames.len() > 1 && config.use_cork;
            let first = ops.blueprints.len() + if corked {
                1int
            } else {
                0int
            };
            let flags = if i == frames.len() - 1 {
                0i32
            } else {
                0x8000i32
            };
            &&& after.close == ops.close && after.notices == ops.notices
            &&& after.blueprints.take(ops.blueprints.len() as int) == ops.blueprints
            &&& after.blueprints.len() == first + frames.len() + if corked {
                1int
            } else {
                0int
            }
            &&& corked ==> after.blueprints[ops.blueprints.len() as int]
                == BlueprintView::SetCork(true) && after.blueprints.last()
                == BlueprintView::SetCork(false)
            &&& after.blueprints[first + i] == if config.use_send_zerocopy && frames[i].len()
                > 1024 {
                BlueprintView::SendZeroCopy { data: frames[i], flags, origin }
            } else {
                BlueprintView::Send { data: frames[i], flags, origin }
            }
        }),
{
    let after = crate::uring::calls::with_wire_frames(config, ops, frames, origin);
    assert(after.blueprints.take(ops.blueprints.len() as int) =~= ops.blueprints);
}

/// Where a connection stands once what it had sent is acknowledged.
pub proof fn law_acknowledgements_lead_on()
    ensures
        crate::uring::calls::acknowledged(ZmtpHandlerPhase::SendSignature)
            == ZmtpHandlerPhase::WaitPeerRevision,
        crate::uring::calls::acknowledged(ZmtpHandlerPhase::SendV3Tail)
            == ZmtpHandlerPhase::WaitV3Greeting,
        crate::uring::calls::acknowledged(ZmtpHandlerPhase::SendV2Tail)
            == ZmtpHandlerPhase::V2GreetingExchange,
        crate::uring::calls::acknowledged(ZmtpHandlerPhase::V2SendIdentity)
            == ZmtpHandlerPhase::V2WaitIdentity,
        crate::uring::calls::acknowledged(ZmtpHandlerPhase::ReadyClientSend)
            == ZmtpHandlerPhase::ReadyClientWaitServer,
        crate::uring::calls::acknowledged(ZmtpHandlerPhase::ReadyServerSend)
            == ZmtpHandlerPhase::DataPhase,
        crate::uring::calls::acknowledged(ZmtpHandlerPhase::DataPhase)
            == ZmtpHandlerPhase::DataPhase,
        crate::uring::calls::acknowledged(ZmtpHandlerPhase::SecurityExchange)
            == ZmtpHandlerPhase::SecurityExchange,
        crate::uring::calls::acknowledged(ZmtpHandlerPhase::Closing) == ZmtpHandlerPhase::Closing,
{
}

/// An operation that the system reports an error for makes the connection fail, but for the
/// error that says that there was nothing to do.
pub proof fn law_system_errors_fail_the_connection(
    h: HandlerModel,
    ops: OpsView,
    result: i32,
    now: Instant,
)
    requires
        i32::MIN < result < 0,
        !crate::uring::model::is_final(h.phase),
    ensures
        ({
            let step = crate::uring::calls::completion_begun(h, ops, result, now);
            result != -11 ==> {
                &&& step.handler.phase == ZmtpHandlerPhase::Error
                &&& step.handler.outgoing == h.outgoing
                &&& step.handler.outgoing_multipart == h.outgoing_multipart
                &&& step.ops.close
                &&& step.ops.blueprints.contains(BlueprintView::Close)
                &&& step.ops.notices == if h.phase == ZmtpHandlerPhase::DataPhase {
                    ops.notices
                } else {
                    ops.notices.push(EventView::Error(ErrorView::IoError((-result) as i32)))
                }
            }
        }),
        crate::uring::calls::completion_begun(h, ops, (-11) as i32, now)
            == crate::uring::calls::completion_begun(h, ops, 0, now),
{
    if result != -11 && !ops.blueprints.contains(BlueprintView::Close) {
        assert(ops.blueprints.push(BlueprintView::Close).last() == BlueprintView::Close);
    }
}

/// When a PING is sent: the handshake is done, nothing else is to be submitted or waits, no
/// PONG is awaited, the version is not 2.0, and the last traffic lies at least the interval
/// back.  It lives for no hop and carries `hb_ping`.
pub proof fn law_when_a_ping_is_sent(h: HandlerModel, ops: OpsView, now: Instant)
    requires
        h.phase == ZmtpHandlerPhase::DataPhase,
        h.reader is None,
        h.outgoing.len() == 0,
        h.outgoing_multipart.len() == 0,
        ops.blueprints.len() == 0,
    ensures
        ({
            let step = crate::uring::calls::prepare_begun(h, ops, now);
            let due = !h.waiting_for_pong && h.version != Some(NegotiatedVersion::V2) && (
            h.heartbeat_ivl matches Some(ivl) && (ivl.nanos == 0 || now.nanos
                >= h.last_activity.nanos + ivl.nanos));
            &&& step.flow is Ask <==> due
            &&& due ==> (step.flow matches FlowView::Ask {
                stage: Stage::PingWritten,
                request: RequestView::WritePing { ttl, context },
                ..
            } && ttl == 0 && context == seq![0x68u8, 0x62, 0x5f, 0x70, 0x69, 0x6e, 0x67])
            &&& !due && !h.waiting_for_pong ==> step.handler == h && step.ops == ops
        }),
{
}

/// A PING whose bytes are sent is remembered, so that its PONG is awaited once it has left.
pub proof fn law_sent_pings_are_remembered(
    h: HandlerModel,
    ops: OpsView,
    pass: Pass,
    wire: Seq<u8>,
    now: Instant,
)
    ensures
        ({
            let step = crate::uring::calls::resumed(
                h,
                ops,
                Stage::PingWritten,
                pass,
                ReplyView::Wire(Ok(wire)),
                now,
            );
            &&& step.handler == (HandlerModel { last_sent_was_ping: true, ..h })
            &&& step.ops.blueprints == ops.blueprints.push(
                BlueprintView::Send { data: wire, flags: 0, origin: OpOrigin::Handler },
            )
            &&& step.flow == FlowView::Return(Ok(false))
        }),
{
    reveal(crate::uring::calls::resumed);
}

/// A connection that comes up starts its handshake: the time for it begins, and a multishot
/// reader is made where that is switched on and there are buffers for it.
pub proof fn law_connections_come_up(h: HandlerModel, buffer_group: Option<u16>, now: Instant)
    requires
        crate::time::in_range(now, h.handshake_timeout),
    ensures
        ({
            let up = crate::uring::calls::connected(h, buffer_group, now);
            &&& up.phase == ZmtpHandlerPhase::SendSignature
            &&& up.last_activity == now
            &&& up.handshake_deadline.nanos == now.nanos + h.handshake_timeout.nanos
            &&& h.config.use_recv_multishot && buffer_group is Some ==> up.reader == buffer_group
            &&& !h.config.use_recv_multishot || buffer_group is None ==> up.reader == h.reader
            &&& up.config == h.config && up.is_server == h.is_server
            &&& up.outgoing == h.outgoing && up.outgoing_multipart == h.outgoing_multipart
        }),
{
}

/// How long a handshake and a PONG may take: as long as was set, or else 30 seconds; a PONG
/// twice the heartbeat interval, where there is one.
pub proof fn law_time_limits(
    fd: i32,
    config: crate::options::ConfigView,
    is_server: bool,
    now: Instant,
)
    ensures
        ({
            let h = crate::uring::model::fresh(fd, config, is_server, now);
            &&& h.handshake_timeout.nanos == match config.handshake_timeout {
                Some(time) => time.nanos as int,
                None => 30_000_000_000,
            }
            &&& match (config.heartbeat_timeout, config.heartbeat_ivl) {
                (Some(time), _) => h.heartbeat_timeout == time,
                (None, Some(ivl)) => 2 * ivl.nanos <= 18_446_744_073_709_551_615_999_999_999
                    ==> h.heartbeat_timeout.nanos == 2 * ivl.nanos,
                (None, None) => h.heartbeat_timeout.nanos == 30_000_000_000,
            }
            &&& h.heartbeat_ivl == config.heartbeat_ivl
            &&& h.phase == ZmtpHandlerPhase::Initial
            &&& h.fd == fd && h.is_server == is_server && h.config == config
            &&& h.outgoing.len() == 0 && h.outgoing_multipart.len() == 0 && h.reader is None
        }),
{
}

/// A call that ends with an error has made the connection fail; one that ends well has not.
pub proof fn law_errors_end_the_connection(
    h: HandlerModel,
    ops: OpsView,
    error: ErrorView,
    progress: bool,
)
    ensures
        crate::uring::model::is_final(crate::uring::calls::concluded(h, Err(error)).phase),
        !crate::uring::model::is_final(h.phase) ==> crate::uring::calls::concluded_ops(
            h,
            ops,
            Err(error),
        ).close,
        !crate::uring::model::is_final(h.phase) && h.phase != ZmtpHandlerPhase::DataPhase
            ==> crate::uring::calls::concluded_ops(h, ops, Err(error)).notices == ops.notices.push(
            EventView::Error(error),
        ),
        crate::uring::calls::concluded(h, Ok(progress)) == h,
        crate::uring::calls::concluded_ops(h, ops, Ok(progress)) == ops,
        crate::uring::model::is_final(ZmtpHandlerPhase::Error),
        crate::uring::model::is_final(ZmtpHandlerPhase::Closed),
        !crate::uring::model::is_final(ZmtpHandlerPhase::Closing),
        !crate::uring::model::is_final(ZmtpHandlerPhase::DataPhase),
{
}

/// A connection whose end is asked for drops what waits; one that has failed or is closed
/// stays as it is.
pub proof fn law_closing_drops_what_waits(h: HandlerModel)
    ensures
        ({
            let after = crate::uring::calls::closing(h);
            if h.phase == ZmtpHandlerPhase::Error || h.phase == ZmtpHandlerPhase::Closed || h.phase
                == ZmtpHandlerPhase::Closing {
                after == h
            } else {
                after.phase == ZmtpHandlerPhase::Closing && after.outgoing.len() == 0
                    && after.outgoing_multipart.len() == 0
            }
        }),
{
}

/// What the multishot reader is told of a submission.
pub proof fn law_reader_notices(h: HandlerModel, op: u64, target: u64)
    ensures
        ({
            let told = |is_cancel: bool, target: Option<u64>|
                crate::uring::calls::reader_notice(h, op, is_cancel, target);
            &&& h.reader is None ==> told(false, None) is None && told(true, Some(target)) is None
            &&& h.reader is Some ==> {
                &&& told(false, None) == Some(
                    crate::uring::types::ReaderNotice::OperationSubmitted { op },
                )
                &&& told(true, Some(target)) == Some(
                    crate::uring::types::ReaderNotice::CancellationSubmitted { op, target },
                )
                &&& told(true, None) is None
            }
        }),
{
}

/// The mechanism that has done its work makes the framer, for frames of the longest length
/// that is set; one that has not is asked for a token.
pub proof fn law_mechanism_is_driven(
    h: HandlerModel,
    ops: OpsView,
    pass: Pass,
    limit: i64,
    now: Instant,
)
    requires
        h.config.max_msg_size == limit,
    ensures
        ({
            let step = crate::uring::calls::resumed(
                h,
                ops,
                Stage::SecurityComplete,
                pass,
                ReplyView::Yes(true),
                now,
            );
            &&& step.ops == ops
            &&& !step.handler.has_mechanism
            &&& step.flow == (FlowView::Ask {
                stage: Stage::FramerMade,
                pass: pass,
                request: RequestView::IntoFramer(limit),
            })
        }),
        ({
            let step = crate::uring::calls::resumed(
                h,
                ops,
                Stage::SecurityComplete,
                pass,
                ReplyView::Yes(false),
                now,
            );
            &&& step.handler == h && step.ops == ops
            &&& step.flow == (FlowView::Ask {
                stage: Stage::FirstToken,
                pass: pass,
                request: RequestView::ProduceToken,
            })
        }),
        ({
            let step = crate::uring::calls::resumed(
                h,
                ops,
                Stage::CompleteAfter,
                pass,
                ReplyView::Yes(true),
                now,
            );
            &&& step.ops == ops
            &&& !step.handler.has_mechanism
            &&& step.flow == (FlowView::Ask {
                stage: Stage::FramerMade,
                pass: pass,
                request: RequestView::IntoFramer(limit),
            })
        }),
        ({
            let step = crate::uring::calls::resumed(
                h,
                ops,
                Stage::CompleteAfter,
                pass,
                ReplyView::Yes(false),
                now,
            );
            &&& step.handler == h && step.ops == ops
            &&& step.flow == (FlowView::Ask {
                stage: Stage::FaultAfter,
                pass: pass,
                request: RequestView::MechanismFault,
            })
        }),
{
    reveal(crate::uring::calls::resumed);
    reveal(crate::uring::model::security_complete);
    reveal(crate::uring::model::complete_after);
}

/// A token that the mechanism produces is put on the wire as one command frame
/// (before a token of the peer was taken).
pub proof fn law_own_tokens_are_written(
    h: HandlerModel,
    ops: OpsView,
    pass: Pass,
    token: Seq<u8>,
    now: Instant,
)
    ensures
        ({
            let step = crate::uring::calls::resumed(
                h,
                ops,
                Stage::FirstToken,
                pass,
                ReplyView::Token(Ok(Some(token))),
                now,
            );
            &&& step.handler == h && step.ops == ops
            &&& step.flow matches FlowView::Ask { stage: Stage::FirstTokenWritten, request: RequestView::WriteFrames(frames), .. }
            &&& frames.len() == 1
            &&& frames[0].data == Some(token)
            &&& frames[0].flags.command && !frames[0].flags.more
        }),
{
    reveal(crate::uring::calls::resumed);
    reveal(crate::uring::model::first_token);
}

/// A token that the mechanism produces is put on the wire as one command frame
/// (after a token of the peer was taken).
pub proof fn law_answering_tokens_are_written(
    h: HandlerModel,
    ops: OpsView,
    pass: Pass,
    token: Seq<u8>,
    now: Instant,
)
    ensures
        ({
            let step = crate::uring::calls::resumed(
                h,
                ops,
                Stage::ResponseToken,
                pass,
                ReplyView::Token(Ok(Some(token))),
                now,
            );
            &&& step.handler == h && step.ops == ops
            &&& step.flow matches FlowView::Ask { stage: Stage::ResponseWritten, request: RequestView::WriteFrames(frames), .. }
            &&& frames.len() == 1
            &&& frames[0].data == Some(token)
            &&& frames[0].flags.command && !frames[0].flags.more
        }),
{
    reveal(crate::uring::calls::resumed);
    reveal(crate::uring::model::response_token);
}

/// The bytes of a token are sent, and then a token of the peer is looked for in the bytes
/// that have arrived.
pub proof fn law_tokens_are_sent(
    h: HandlerModel,
    ops: OpsView,
    pass: Pass,
    wire: Seq<u8>,
    now: Instant,
)
    ensures
        ({
            let step = crate::uring::calls::resumed(
                h,
                ops,
                Stage::FirstTokenWritten,
                pass,
                ReplyView::Wire(Ok(wire)),
                now,
            );
            &&& step.ops.blueprints == ops.blueprints.push(
                BlueprintView::Send { data: wire, flags: 0, origin: OpOrigin::Handler },
            )
            &&& if h.accumulated.len() > 0 {
                step.flow matches FlowView::Ask { stage: Stage::PeerToken, request, .. } && request
                    == RequestView::ReadFrame(h.accumulated)
            } else {
                step.flow matches FlowView::Ask { stage: Stage::CompleteAfter, request, .. }
                    && request == RequestView::MechanismComplete
            }
        }),
        ({
            let step = crate::uring::calls::resumed(
                h,
                ops,
                Stage::ResponseWritten,
                pass,
                ReplyView::Wire(Ok(wire)),
                now,
            );
            &&& step.ops.blueprints == ops.blueprints.push(
                BlueprintView::Send { data: wire, flags: 0, origin: OpOrigin::Handler },
            )
            &&& step.flow == (FlowView::Ask {
                stage: Stage::CompleteAfter,
                pass: pass,
                request: RequestView::MechanismComplete,
            })
        }),
{
    reveal(crate::uring::calls::resumed);
    reveal(crate::uring::model::first_token_written);
    reveal(crate::uring::model::response_written);
}

/// A token of the peer, which comes as a command frame, is handed to the mechanism as it
/// is; the bytes behind it are kept.  Any other frame makes the connection fail.
pub proof fn law_tokens_of_the_peer_are_processed(
    h: HandlerModel,
    ops: OpsView,
    pass: Pass,
    msg: MsgView,
    rest: Seq<u8>,
    now: Instant,
)
    requires
        !crate::uring::model::is_final(h.phase),
    ensures
        ({
            let step = crate::uring::calls::resumed(
                h,
                ops,
                Stage::PeerToken,
                pass,
                ReplyView::Frame { outcome: Ok(Some(msg)), rest },
                now,
            );
            &&& if msg.flags.command {
                &&& step.ops == ops
                &&& step.handler == (HandlerModel { accumulated: rest, ..h })
                &&& step.flow matches FlowView::Ask {
                    stage: Stage::PeerTokenProcessed,
                    request: RequestView::ProcessToken(token),
                    ..
                }
                &&& token == msg.body()
            } else {
                step.handler.phase == ZmtpHandlerPhase::Error && (step.flow
                    matches FlowView::Return(Err(ErrorView::SecurityError(_))))
            }
        }),
        ({
            let step = crate::uring::calls::resumed(
                h,
                ops,
                Stage::PeerTokenProcessed,
                pass,
                ReplyView::Done(Ok(())),
                now,
            );
            &&& step.handler == h && step.ops == ops
            &&& step.flow == (FlowView::Ask {
                stage: Stage::ResponseToken,
                pass: pass,
                request: RequestView::ProduceToken,
            })
        }),
{
    reveal(crate::uring::calls::resumed);
    reveal(crate::uring::model::peer_token);
    reveal(crate::uring::model::peer_token_processed);
}

/// A mechanism that has failed makes the connection fail, with its own reason where it gives
/// one.
pub proof fn law_mechanism_faults_fail_the_connection(
    h: HandlerModel,
    ops: OpsView,
    pass: Pass,
    reason: Seq<char>,
    now: Instant,
)
    requires
        !crate::uring::model::is_final(h.phase),
    ensures
        ({
            let step = crate::uring::calls::resumed(
                h,
                ops,
                Stage::FaultAfter,
                pass,
                ReplyView::Fault(Some(Some(reason))),
                now,
            );
            &&& step.handler.phase == ZmtpHandlerPhase::Error
            &&& step.flow == FlowView::Return(Err(ErrorView::SecurityError(reason)))
        }),
        ({
            let step = crate::uring::calls::resumed(
                h,
                ops,
                Stage::FaultAfter,
                pass,
                ReplyView::Fault(Some(None)),
                now,
            );
            &&& step.handler.phase == ZmtpHandlerPhase::Error
            &&& step.flow matches FlowView::Return(Err(ErrorView::SecurityError(_)))
        }),
{
    reveal(crate::uring::calls::resumed);
    reveal(crate::uring::model::fault_after);
}

/// With the framer made, a client sends its READY and a server awaits one; the identity that
/// the peer has proved is kept, unless one was before.
pub proof fn law_ready_follows_security(
    h: HandlerModel,
    ops: OpsView,
    pass: Pass,
    identity: Option<Seq<u8>>,
    now: Instant,
)
    requires
        now.nanos <= h.handshake_deadline.nanos,
    ensures
        ({
            let step = crate::uring::calls::resumed(
                h,
                ops,
                Stage::FramerMade,
                pass,
                ReplyView::Identity(Ok(identity)),
                now,
            );
            &&& step.handler.identity_from_security == if h.identity_from_security is Some {
                h.identity_from_security
            } else {
                identity
            }
            &&& step.handler.phase == if h.is_server {
                ZmtpHandlerPhase::ReadyServerWaitClient
            } else {
                ZmtpHandlerPhase::ReadyClientSend
            }
            &&& !h.is_server ==> (step.flow matches FlowView::Ask {
                stage: Stage::ClientReadyWritten,
                request: RequestView::WriteReady(properties),
                ..
            } && properties == crate::ready::uring_ready_properties(h.config))
            &&& h.is_server && h.accumulated.len() > 0 ==> (step.flow matches FlowView::Ask {
                stage: Stage::ClientReadyFrame,
                request,
                ..
            } && request == RequestView::ReadFrame(h.accumulated))
        }),
{
    reveal(crate::uring::calls::resumed);
    reveal(crate::uring::model::framer_made);
    reveal(crate::uring::model::pass_begun);
}

/// The READY of a client is answered by that of the server, and its identity is kept; the
/// READY of a server ends the handshake.  Anything else in its place makes the connection
/// fail.
pub proof fn law_ready_commands_are_exchanged(
    h: HandlerModel,
    ops: OpsView,
    pass: Pass,
    command: Option<crate::command::CommandView>,
    wire: Seq<u8>,
    now: Instant,
)
    requires
        !crate::uring::model::is_final(h.phase),
    ensures
        ({
            let step = crate::uring::calls::resumed(
                h,
                ops,
                Stage::ClientReadyParsed,
                pass,
                ReplyView::Command(command),
                now,
            );
            &&& if let Some(crate::command::CommandView::Ready(properties)) = command {
                &&& step.flow matches FlowView::Ask {
                    stage: Stage::ServerReadyWritten,
                    request: RequestView::WriteReady(own),
                    ..
                }
                &&& own == crate::ready::uring_ready_properties(h.config)
                &&& step.handler.identity_from_ready == if properties.contains_key("Identity"@) {
                    Some(properties["Identity"@])
                } else {
                    h.identity_from_ready
                }
            } else {
                step.handler.phase == ZmtpHandlerPhase::Error && (step.flow
                    matches FlowView::Return(Err(ErrorView::ProtocolViolation(_))))
            }
        }),
        ({
            let step = crate::uring::calls::resumed(
                h,
                ops,
                Stage::ServerReadyWritten,
                pass,
                ReplyView::Wire(Ok(wire)),
                now,
            );
            now.nanos <= h.handshake_deadline.nanos ==> {
                &&& step.ops.blueprints == ops.blueprints.push(
                    BlueprintView::Send { data: wire, flags: 0, origin: OpOrigin::Handler },
                )
                &&& step.handler == (HandlerModel { phase: ZmtpHandlerPhase::ReadyServerSend, ..h })
                &&& step.flow is Return
            }
        }),
        ({
            let step = crate::uring::calls::resumed(
                h,
                ops,
                Stage::ServerReadyParsed,
                pass,
                ReplyView::Command(command),
                now,
            );
            &&& if let Some(crate::command::CommandView::Ready(properties)) = command {
                &&& step.handler.phase == ZmtpHandlerPhase::DataPhase
                &&& step.flow matches FlowView::Ask {
                    stage: Stage::Signalled,
                    request: RequestView::Deliver(EventView::HandshakeComplete(identity)),
                    ..
                }
                &&& identity == if properties.contains_key("Identity"@) {
                    Some(properties["Identity"@])
                } else if h.identity_from_ready is Some {
                    h.identity_from_ready
                } else {
                    h.identity_from_security
                }
                &&& step.handler.final_identity == identity
            } else {
                step.handler.phase == ZmtpHandlerPhase::Error && (step.flow
                    matches FlowView::Return(Err(ErrorView::ProtocolViolation(_))))
            }
        }),
{
    reveal(crate::uring::calls::resumed);
    reveal(crate::uring::model::client_ready_parsed);
    reveal(crate::uring::model::server_ready_written);
    reveal(crate::uring::model::server_ready_parsed);
    reveal(crate::uring::model::pass_begun);
}

/// The READY frame of the peer is parsed as it is, and the bytes behind it are kept.
pub proof fn law_ready_frames_are_parsed(
    h: HandlerModel,
    ops: OpsView,
    pass: Pass,
    msg: MsgView,
    rest: Seq<u8>,
    now: Instant,
)
    ensures
        ({
            let step = crate::uring::calls::resumed(
                h,
                ops,
                Stage::ClientReadyFrame,
                pass,
                ReplyView::Frame { outcome: Ok(Some(msg)), rest },
                now,
            );
            &&& step.handler == (HandlerModel { accumulated: rest, ..h }) && step.ops == ops
            &&& step.flow matches FlowView::Ask { stage: Stage::ClientReadyParsed, request, .. } && request == RequestView::ParseCommand(msg)
        }),
        ({
            let step = crate::uring::calls::resumed(
                h,
                ops,
                Stage::ServerReadyFrame,
                pass,
                ReplyView::Frame { outcome: Ok(Some(msg)), rest },
                now,
            );
            &&& step.handler == (HandlerModel { accumulated: rest, ..h }) && step.ops == ops
            &&& step.flow matches FlowView::Ask { stage: Stage::ServerReadyParsed, request, .. } && request == RequestView::ParseCommand(msg)
        }),
{
    reveal(crate::uring::calls::resumed);
    reveal(crate::uring::model::ready_frame);
}

/// The identity frame of a peer of ZMTP/2.0 ends the handshake: the peer is known by its
/// bytes, where it has any.  A command, a frame with MORE and one of more than 255 bytes are
/// refused.
pub proof fn law_version_2_identity_ends_the_handshake(
    h: HandlerModel,
    ops: OpsView,
    pass: Pass,
    msg: MsgView,
    rest: Seq<u8>,
    now: Instant,
)
    requires
        !crate::uring::model::is_final(h.phase),
    ensures
        ({
            let step = crate::uring::calls::resumed(
                h,
                ops,
                Stage::IdentityFrame,
                pass,
                ReplyView::Frame { outcome: Ok(Some(msg)), rest },
                now,
            );
            &&& if !msg.flags.command && !msg.flags.more && msg.body().len() <= 255 {
                &&& step.handler.phase == ZmtpHandlerPhase::DataPhase
                &&& step.handler.accumulated == rest
                &&& step.flow matches FlowView::Ask {
                    stage: Stage::Signalled,
                    request: RequestView::Deliver(EventView::HandshakeComplete(identity)),
                    ..
                }
                &&& identity == if msg.body().len() > 0 {
                    Some(msg.body())
                } else if h.identity_from_ready is Some {
                    h.identity_from_ready
                } else {
                    h.identity_from_security
                }
            } else {
                step.handler.phase == ZmtpHandlerPhase::Error && (step.flow
                    matches FlowView::Return(Err(ErrorView::ProtocolViolation(_))))
            }
        }),
{
    reveal(crate::uring::calls::resumed);
    reveal(crate::uring::model::identity_frame);
}

/// A server whose READY has left has done its handshake, and the socket is told by which
/// identity the peer is known: the one it announced, or else the one it proved.
pub proof fn law_server_handshake_is_reported(h: HandlerModel, ops: OpsView, now: Instant)
    requires
        h.phase == ZmtpHandlerPhase::ReadyServerSend,
    ensures
        ({
            let step = crate::uring::calls::completion_begun(h, ops, 0, now);
            &&& step.handler.phase == ZmtpHandlerPhase::DataPhase
            &&& step.ops == ops
            &&& step.flow matches FlowView::Ask {
                stage: Stage::SendSignalled,
                request: RequestView::Deliver(EventView::HandshakeComplete(identity)),
                ..
            }
            &&& identity == if h.identity_from_ready is Some {
                h.identity_from_ready
            } else {
                h.identity_from_security
            }
        }),
{
}

/// The greeting of a peer of ZMTP/3.x, once all of its 64 bytes are there, settles the
/// version and is what the mechanism is chosen by; a peer of the same role is refused.
pub proof fn law_v3_greeting_settles_the_version(
    h: HandlerModel,
    ops: OpsView,
    data: Seq<u8>,
    now: Instant,
)
    requires
        h.phase == ZmtpHandlerPhase::WaitV3Greeting,
        h.greeting.len() == 0,
        h.accumulated.len() == 0,
        now.nanos <= h.handshake_deadline.nanos,
        data.len() > 0,
    ensures
        ({
            let step = crate::uring::calls::read_begun(h, ops, data, now);
            if data.len() < 64 {
                &&& step.flow is Return
                &&& step.ops == ops
                &&& step.handler.greeting == data && step.handler.accumulated.len() == 0
                &&& step.handler.phase == h.phase && step.handler.version == h.version
            } else if data[0] == 0xff && data[10] == 3 && data[32] <= 1 && forall|i: int|
                33 <= i < 64 ==> data[i] == 0 {
                if (data[32] == 1) != h.is_server {
                    &&& step.ops == ops
                    &&& step.handler.version == Some(NegotiatedVersion::V3 { minor: data[11] })
                    &&& step.handler.accumulated == data.skip(64)
                    &&& step.handler.greeting.len() == 0
                    &&& step.flow matches FlowView::Ask {
                        stage: Stage::Negotiated,
                        request: RequestView::Negotiate(greeting),
                        ..
                    }
                    &&& greeting.version == (3u8, data[11])
                    &&& greeting.mechanism == data.subrange(12, 32)
                    &&& greeting.as_server == (data[32] == 1)
                } else {
                    step.handler.phase == ZmtpHandlerPhase::Error && (step.flow
                        matches FlowView::Return(Err(ErrorView::SecurityError(_))))
                }
            } else {
                step.handler.phase == ZmtpHandlerPhase::Error && (step.flow
                    matches FlowView::Return(Err(ErrorView::ProtocolViolation(_))))
            }
        }),
{
    reveal(crate::uring::model::pass_begun);
    reveal(crate::uring::model::v3_greeting_step);
    assert(h.accumulated + data =~= data);
    if data.len() < 64 {
        assert(data.take(data.len() as int) =~= data);
        assert(h.greeting + data =~= data);
    } else {
        let front = data.take(64);
        assert(h.greeting + front =~= front);
        assert(front.skip(64) =~= Seq::empty());
        assert(front.subrange(12, 32) =~= data.subrange(12, 32));
        assert(forall|i: int| 0 <= i < 64 ==> front[i] == data[i]);
    }
}

/// Once the mechanism is chosen it is put to work; where none can be, the call fails.
pub proof fn law_negotiation_puts_the_mechanism_to_work(
    h: HandlerModel,
    ops: OpsView,
    pass: Pass,
    error: ErrorView,
    now: Instant,
)
    requires
        pass.progress,
        now.nanos <= h.handshake_deadline.nanos,
    ensures
        ({
            let step = crate::uring::calls::resumed(
                h,
                ops,
                Stage::Negotiated,
                pass,
                ReplyView::Done(Ok(())),
                now,
            );
            &&& step.handler.phase == ZmtpHandlerPhase::SecurityExchange
            &&& step.handler.has_mechanism
            &&& step.flow matches FlowView::Ask { stage: Stage::SecurityComplete, request, .. }
            &&& request == RequestView::MechanismComplete
        }),
        crate::uring::calls::resumed(
            h,
            ops,
            Stage::Negotiated,
            pass,
            ReplyView::Done(Err(error)),
            now,
        ) == (Step { handler: h, ops, flow: FlowView::Return(Err(error)) }),
{
    reveal(crate::uring::calls::resumed);
    reveal(crate::uring::model::negotiated);
    reveal(crate::uring::model::pass_begun);
}

} // verus!
