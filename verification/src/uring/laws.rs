//! What connections on io_uring promise, whatever their surroundings answer.

use vstd::prelude::*;

use crate::greeting::NegotiatedVersion;
use crate::options::ConfigView;
use crate::time::Instant;
use crate::uring::model::{HandlerModel, Step};
use crate::uring::types::{
    AppData, EventView, FlowView, OpsView, Pass, ReplyView, RequestView, Stage,
    ZmtpHandlerPhase,
};

verus! {

/// Whether the version was settled as ZMTP/3.x.
pub open spec fn speaks_v3(h: HandlerModel) -> bool {
    h.version matches Some(NegotiatedVersion::V3 { .. })
}

/// Whether the version was settled as ZMTP/2.0.
pub open spec fn speaks_v2(h: HandlerModel) -> bool {
    h.version == Some(NegotiatedVersion::V2)
}

/// Whether the state of a connection fits together.
///
/// The version is settled in time and, as ZMTP/2.0, only where that is allowed; each
/// role goes through its own phases; and there are heartbeats in ZMTP/3.x alone.
pub open spec fn sound(h: HandlerModel) -> bool {
    &&& crate::uring::model::well_formed(h)
    &&& speaks_v2(h) ==> h.config.allow_zmtp2
    &&& h.waiting_for_pong || h.last_sent_was_ping ==> speaks_v3(h)
    &&& match h.phase {
        ZmtpHandlerPhase::Initial
        | ZmtpHandlerPhase::SendSignature
        | ZmtpHandlerPhase::WaitPeerRevision
        | ZmtpHandlerPhase::SendV3Tail => h.version is None,
        ZmtpHandlerPhase::WaitV3Greeting => !speaks_v2(h),
        ZmtpHandlerPhase::SendV2Tail
        | ZmtpHandlerPhase::V2GreetingExchange
        | ZmtpHandlerPhase::V2SendIdentity
        | ZmtpHandlerPhase::V2WaitIdentity => speaks_v2(h),
        ZmtpHandlerPhase::SecurityExchange => speaks_v3(h),
        ZmtpHandlerPhase::ReadyClientSend
        | ZmtpHandlerPhase::ReadyClientWaitServer => speaks_v3(h) && !h.is_server,
        ZmtpHandlerPhase::ReadyServerWaitClient
        | ZmtpHandlerPhase::ReadyServerSend => speaks_v3(h) && h.is_server,
        ZmtpHandlerPhase::DataPhase => h.version is Some,
        _ => true,
    }
}

/// Whether an answer can be awaited at this stage.
pub open spec fn stage_fits(stage: Stage, h: HandlerModel) -> bool {
    match stage {
        Stage::Negotiated => h.phase == ZmtpHandlerPhase::WaitV3Greeting && speaks_v3(h),
        Stage::IdentityFrame => h.phase == ZmtpHandlerPhase::V2WaitIdentity,
        Stage::SecurityComplete
        | Stage::FirstToken
        | Stage::FirstTokenWritten
        | Stage::PeerToken
        | Stage::PeerTokenProcessed
        | Stage::ResponseToken
        | Stage::ResponseWritten
        | Stage::CompleteAfter
        | Stage::FaultAfter
        | Stage::FramerMade => h.phase == ZmtpHandlerPhase::SecurityExchange,
        Stage::ClientReadyWritten => h.phase == ZmtpHandlerPhase::ReadyClientSend,
        Stage::ClientReadyFrame
        | Stage::ClientReadyParsed
        | Stage::ServerReadyWritten => h.phase == ZmtpHandlerPhase::ReadyServerWaitClient,
        Stage::ServerReadyFrame
        | Stage::ServerReadyParsed => h.phase == ZmtpHandlerPhase::ReadyClientWaitServer,
        Stage::Signalled
        | Stage::SendSignalled
        | Stage::DataFrame
        | Stage::DataDelivered
        | Stage::QueuedMultipart
        | Stage::QueuedSingle
        | Stage::AppMultipart
        | Stage::AppSingle => h.phase == ZmtpHandlerPhase::DataPhase,
        Stage::DataCommand
        | Stage::PongWritten
        | Stage::PingWritten => h.phase == ZmtpHandlerPhase::DataPhase && speaks_v3(h),
        Stage::ReaderStatus | Stage::ReaderIntent => true,
    }
}

/// Whether a request may be made in this state: a message is handed up only once the
/// handshake is done, and PING and PONG are sent in ZMTP/3.x alone.
pub open spec fn request_fits(request: RequestView, h: HandlerModel) -> bool {
    match request {
        RequestView::Deliver(EventView::Data(_)) => h.phase == ZmtpHandlerPhase::DataPhase,
        RequestView::Deliver(EventView::HandshakeComplete(_)) => h.phase
            == ZmtpHandlerPhase::DataPhase,
        RequestView::WritePing { .. } | RequestView::WritePong(_) => h.phase
            == ZmtpHandlerPhase::DataPhase && speaks_v3(h),
        _ => true,
    }
}

/// Whether a step leaves a state that fits together, and asks what it may.
pub open spec fn sound_step(step: Step) -> bool {
    &&& sound(step.handler)
    &&& step.flow matches FlowView::Ask { stage, request, .. } ==> stage_fits(stage, step.handler)
        && request_fits(request, step.handler)
}

proof fn lemma_peer_revision_is_sound(h: HandlerModel, ops: OpsView, made_progress: bool)
    requires
        sound(h),
        h.phase == ZmtpHandlerPhase::WaitPeerRevision,
    ensures
        sound_step(crate::uring::model::peer_revision_step(h, ops, made_progress)),
{
    reveal(crate::uring::model::peer_revision_step);
    reveal(crate::uring::model::v2_tail_step);
}

proof fn lemma_greetings_are_sound(h: HandlerModel, ops: OpsView, pass: Pass)
    requires
        sound(h),
    ensures
        h.phase == ZmtpHandlerPhase::WaitV3Greeting ==> sound_step(
            crate::uring::model::v3_greeting_step(h, ops, pass),
        ),
        h.phase == ZmtpHandlerPhase::V2GreetingExchange ==> sound_step(
            crate::uring::model::v2_greeting_step(h, ops, pass.made_progress),
        ),
{
    reveal(crate::uring::model::v3_greeting_step);
    reveal(crate::uring::model::v2_greeting_step);
}

proof fn lemma_pass_is_sound(h: HandlerModel, ops: OpsView, made_progress: bool, now: Instant)
    requires
        sound(h),
    ensures
        sound_step(crate::uring::model::pass_begun(h, ops, made_progress, now)),
{
    reveal(crate::uring::model::pass_begun);
    let pass = Pass {
        made_progress,
        greeting_len: h.greeting.len() as usize,
        accumulator_len: h.accumulated.len() as usize,
        progress: false,
        token_action: false,
    };
    lemma_greetings_are_sound(h, ops, pass);
    if h.phase == ZmtpHandlerPhase::WaitPeerRevision {
        lemma_peer_revision_is_sound(h, ops, made_progress);
    }
}

proof fn lemma_pass_end_is_sound(h: HandlerModel, ops: OpsView, pass: Pass, now: Instant)
    requires
        sound(h),
    ensures
        sound_step(crate::uring::model::pass_ended(h, ops, pass, now)),
{
    lemma_pass_is_sound(h, ops, pass.made_progress || pass.progress, now);
}

proof fn lemma_security_is_sound(
    h: HandlerModel,
    ops: OpsView,
    stage: Stage,
    pass: Pass,
    reply: ReplyView,
    now: Instant,
)
    requires
        sound(h),
        h.phase == ZmtpHandlerPhase::SecurityExchange,
        stage_fits(stage, h),
    ensures
        sound_step(crate::uring::model::read_resumed(h, ops, stage, pass, reply, now)),
{
    match stage {
        Stage::SecurityComplete => {
            reveal(crate::uring::model::security_complete);
        },
        Stage::FirstToken => {
            reveal(crate::uring::model::first_token);
        },
        Stage::FirstTokenWritten => {
            reveal(crate::uring::model::first_token_written);
        },
        Stage::PeerToken => {
            reveal(crate::uring::model::peer_token);
        },
        Stage::PeerTokenProcessed => {
            reveal(crate::uring::model::peer_token_processed);
        },
        Stage::ResponseToken => {
            reveal(crate::uring::model::response_token);
        },
        Stage::ResponseWritten => {
            reveal(crate::uring::model::response_written);
        },
        Stage::CompleteAfter => {
            reveal(crate::uring::model::complete_after);
        },
        Stage::FaultAfter => {
            reveal(crate::uring::model::fault_after);
            lemma_pass_end_is_sound(h, ops, pass, now);
        },
        _ => {
            lemma_framer_is_sound(h, ops, pass, reply, now);
        },
    }
}

proof fn lemma_framer_is_sound(
    h: HandlerModel,
    ops: OpsView,
    pass: Pass,
    reply: ReplyView,
    now: Instant,
)
    requires
        sound(h),
        h.phase == ZmtpHandlerPhase::SecurityExchange,
    ensures
        sound_step(
            crate::uring::model::read_resumed(h, ops, Stage::FramerMade, pass, reply, now),
        ),
{
    reveal(crate::uring::model::framer_made);
    if let ReplyView::Identity(Ok(identity)) = reply {
        let known = HandlerModel {
            identity_from_security: if h.identity_from_security is None {
                identity
            } else {
                h.identity_from_security
            },
            phase: ZmtpHandlerPhase::ReadyServerWaitClient,
            ..h
        };
        if h.is_server {
            lemma_pass_end_is_sound(known, ops, Pass { progress: true, ..pass }, now);
        }
    }
}

proof fn lemma_ready_is_sound(
    h: HandlerModel,
    ops: OpsView,
    stage: Stage,
    pass: Pass,
    reply: ReplyView,
    now: Instant,
)
    requires
        sound(h),
        stage == Stage::ClientReadyWritten || stage == Stage::ClientReadyFrame || stage
            == Stage::ClientReadyParsed || stage == Stage::ServerReadyWritten || stage
            == Stage::ServerReadyFrame || stage == Stage::ServerReadyParsed,
        stage_fits(stage, h),
    ensures
        sound_step(crate::uring::model::read_resumed(h, ops, stage, pass, reply, now)),
{
    reveal(crate::uring::model::client_ready_written);
    reveal(crate::uring::model::ready_frame);
    reveal(crate::uring::model::client_ready_parsed);
    reveal(crate::uring::model::server_ready_written);
    reveal(crate::uring::model::server_ready_parsed);
    if let ReplyView::Wire(Ok(data)) = reply {
        let sent = crate::uring::model::with_send(ops, data);
        if stage == Stage::ClientReadyWritten {
            lemma_pass_end_is_sound(h, sent, Pass { progress: true, ..pass }, now);
        } else if stage == Stage::ServerReadyWritten {
            let next = HandlerModel { phase: ZmtpHandlerPhase::ReadyServerSend, ..h };
            lemma_pass_end_is_sound(next, sent, pass, now);
        }
    }
}

proof fn lemma_data_is_sound(
    h: HandlerModel,
    ops: OpsView,
    stage: Stage,
    pass: Pass,
    reply: ReplyView,
    now: Instant,
)
    requires
        sound(h),
        h.phase == ZmtpHandlerPhase::DataPhase,
        stage_fits(stage, h),
    ensures
        sound_step(crate::uring::model::read_resumed(h, ops, stage, pass, reply, now)),
{
    reveal(crate::uring::model::signalled);
    reveal(crate::uring::model::data_frame);
    reveal(crate::uring::model::data_command);
    reveal(crate::uring::model::pong_written);
    reveal(crate::uring::model::data_delivered);
    lemma_pass_end_is_sound(h, ops, pass, now);
    if let ReplyView::Frame { outcome, rest } = reply {
        lemma_pass_end_is_sound(HandlerModel { accumulated: rest, ..h }, ops, pass, now);
    }
}

proof fn lemma_opening_is_sound(
    h: HandlerModel,
    ops: OpsView,
    stage: Stage,
    pass: Pass,
    reply: ReplyView,
    now: Instant,
)
    requires
        sound(h),
        stage == Stage::Negotiated || stage == Stage::IdentityFrame,
        stage_fits(stage, h),
    ensures
        sound_step(crate::uring::model::read_resumed(h, ops, stage, pass, reply, now)),
{
    reveal(crate::uring::model::negotiated);
    reveal(crate::uring::model::identity_frame);
    if stage == Stage::Negotiated {
        let next = HandlerModel {
            has_mechanism: true,
            phase: ZmtpHandlerPhase::SecurityExchange,
            ..h
        };
        lemma_pass_end_is_sound(next, ops, pass, now);
    }
}

proof fn lemma_prepare_is_sound(h: HandlerModel, ops: OpsView, now: Instant)
    requires
        sound(h),
    ensures
        sound_step(crate::uring::calls::prepare_data(h, ops, now)),
{
}

/// A connection that fits together goes on to do so, whatever is asked of it and
/// whatever its surroundings answer: here, when a call begins.
pub proof fn law_calls_begin_soundly(
    h: HandlerModel,
    ops: OpsView,
    data: Seq<u8>,
    result: i32,
    app_data: AppData,
    op: u64,
    now: Instant,
)
    requires
        sound(h),
    ensures
        sound_step(crate::uring::calls::read_begun(h, ops, data, now)),
        sound_step(crate::uring::calls::completion_begun(h, ops, result, now)),
        sound_step(crate::uring::calls::prepare_begun(h, ops, now)),
        sound_step(crate::uring::calls::app_data_begun(h, ops, app_data, op)),
        sound(crate::uring::calls::closing(h)),
        sound(HandlerModel { phase: ZmtpHandlerPhase::Closed, ..h }),
{
    let active = HandlerModel { last_activity: now, ..h };
    lemma_pass_is_sound(
        HandlerModel { accumulated: h.accumulated + data, ..active },
        ops,
        false,
        now,
    );
    let next = HandlerModel { phase: crate::uring::calls::acknowledged(h.phase), ..active };
    if h.phase != ZmtpHandlerPhase::DataPhase && next.phase != h.phase {
        lemma_pass_is_sound(next, ops, false, now);
    }
    lemma_prepare_is_sound(h, ops, now);
}

/// A connection that fits together goes on to do so, whatever its surroundings
/// answer: here, when a question is answered.
pub proof fn law_calls_go_on_soundly(
    h: HandlerModel,
    ops: OpsView,
    stage: Stage,
    pass: Pass,
    reply: ReplyView,
    now: Instant,
)
    requires
        sound(h),
        stage_fits(stage, h),
    ensures
        sound_step(crate::uring::calls::resumed(h, ops, stage, pass, reply, now)),
{
    reveal(crate::uring::calls::resumed);
    match stage {
        Stage::Negotiated | Stage::IdentityFrame => {
            lemma_opening_is_sound(h, ops, stage, pass, reply, now);
        },
        Stage::SecurityComplete
        | Stage::FirstToken
        | Stage::FirstTokenWritten
        | Stage::PeerToken
        | Stage::PeerTokenProcessed
        | Stage::ResponseToken
        | Stage::ResponseWritten
        | Stage::CompleteAfter
        | Stage::FaultAfter
        | Stage::FramerMade => {
            lemma_security_is_sound(h, ops, stage, pass, reply, now);
        },
        Stage::ClientReadyWritten
        | Stage::ClientReadyFrame
        | Stage::ClientReadyParsed
        | Stage::ServerReadyWritten
        | Stage::ServerReadyFrame
        | Stage::ServerReadyParsed => {
            lemma_ready_is_sound(h, ops, stage, pass, reply, now);
        },
        Stage::ReaderStatus => {
            lemma_prepare_is_sound(h, ops, now);
        },
        Stage::ReaderIntent => {
            lemma_prepare_is_sound(h, ops, now);
            if let ReplyView::Intent(Some(blueprint)) = reply {
                lemma_prepare_is_sound(
                    h,
                    OpsView { blueprints: ops.blueprints.push(blueprint), ..ops },
                    now,
                );
            }
        },
        _ => {
            lemma_data_is_sound(h, ops, stage, pass, reply, now);
            lemma_pass_is_sound(h, ops, false, now);
        },
    }
}

/// A connection fits together when it is made, and when it is up.
pub proof fn law_connections_start_soundly(
    fd: i32,
    config: ConfigView,
    is_server: bool,
    made: Instant,
    buffer_group: Option<u16>,
    up: Instant,
)
    ensures
        sound(crate::uring::model::fresh(fd, config, is_server, made)),
        sound(
            crate::uring::calls::connected(
                crate::uring::model::fresh(fd, config, is_server, made),
                buffer_group,
                up,
            ),
        ),
{
}

/// Whether each question of these turns may be asked in the state in which it is
/// asked, when a call that has come as far as `step` takes them.
pub open spec fn all_requests_fit(step: Step, turns: Seq<crate::uring::session::Turn>) -> bool
    decreases turns.len(),
{
    match step.flow {
        FlowView::Return(_) => true,
        FlowView::Ask { stage, pass, request } => request_fits(request, step.handler) && (
        turns.len() > 0 ==> all_requests_fit(
            crate::uring::calls::resumed(
                step.handler,
                step.ops,
                stage,
                pass,
                turns[0].reply,
                turns[0].at,
            ),
            turns.skip(1),
        )),
    }
}

/// Whole calls keep a connection fitting together, and ask what they may throughout,
/// whatever their surroundings answer: no message is handed up before the handshake is
/// done, and there is no PING or PONG in ZMTP/2.0.
pub proof fn law_whole_calls_are_sound(step: Step, turns: Seq<crate::uring::session::Turn>)
    requires
        sound_step(step),
    ensures
        all_requests_fit(step, turns),
        crate::uring::session::replayed(step, turns) matches Some(ending) ==> sound(
            crate::uring::calls::concluded(ending.handler, ending.result),
        ),
    decreases turns.len(),
{
    if let FlowView::Ask { stage, pass, request } = step.flow {
        if turns.len() > 0 {
            law_calls_go_on_soundly(
                step.handler,
                step.ops,
                stage,
                pass,
                turns[0].reply,
                turns[0].at,
            );
            law_whole_calls_are_sound(
                crate::uring::calls::resumed(
                    step.handler,
                    step.ops,
                    stage,
                    pass,
                    turns[0].reply,
                    turns[0].at,
                ),
                turns.skip(1),
            );
        }
    }
}

} // verus!
