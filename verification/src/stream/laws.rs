//! What handshakes on a stream promise, whatever their surroundings answer.

use vstd::prelude::*;

use crate::error::ErrorView;
use crate::greeting::{GreetingView, NegotiatedVersion};
use crate::stream::model::{HandshakeStep, SessionModel};
use crate::stream::types::{
    HandshakeFlowView, HandshakeReplyView, HandshakeRequestView, HandshakeStage, HandshakeSubPhaseX,
    ProgressView, ReadPurpose, SendPurpose,
};
use crate::time::Instant;

verus! {

/// How far a phase is from the beginning.
pub open spec fn rank(sub_phase: HandshakeSubPhaseX) -> int {
    match sub_phase {
        HandshakeSubPhaseX::GreetingExchange => 0,
        HandshakeSubPhaseX::WaitingForPeerRevision => 1,
        HandshakeSubPhaseX::WaitingForGreeting => 2,
        HandshakeSubPhaseX::V2IdentityExchange => 2,
        HandshakeSubPhaseX::SecurityHandshake => 3,
        HandshakeSubPhaseX::ReadyExchange => 4,
        HandshakeSubPhaseX::ClientSentReady => 5,
        HandshakeSubPhaseX::ServerReceivedReady => 5,
        HandshakeSubPhaseX::Done => 6,
    }
}

/// Whether the version was settled as ZMTP/3.x.
pub open spec fn speaks_v3(s: SessionModel) -> bool {
    s.version matches Some(NegotiatedVersion::V3 { .. })
}

/// Whether the state of a handshake fits together: the version is settled in time and,
/// as ZMTP/2.0, only where that is allowed, and each role goes through its own phases.
pub open spec fn sound(s: SessionModel) -> bool {
    &&& s.version == Some(NegotiatedVersion::V2) ==> s.config.allow_zmtp2
    &&& match s.sub_phase {
        HandshakeSubPhaseX::GreetingExchange
        | HandshakeSubPhaseX::WaitingForPeerRevision
        | HandshakeSubPhaseX::WaitingForGreeting => s.version is None,
        HandshakeSubPhaseX::V2IdentityExchange => s.version == Some(NegotiatedVersion::V2),
        HandshakeSubPhaseX::SecurityHandshake => speaks_v3(s) && s.peer_greeting is Some,
        HandshakeSubPhaseX::ReadyExchange => speaks_v3(s),
        HandshakeSubPhaseX::ClientSentReady => speaks_v3(s) && !s.is_server,
        HandshakeSubPhaseX::ServerReceivedReady => speaks_v3(s) && s.is_server,
        HandshakeSubPhaseX::Done => s.version is Some,
    }
}

/// The phase in which a command is sent for this purpose.
pub open spec fn sending_phase(purpose: SendPurpose) -> HandshakeSubPhaseX {
    match purpose {
        SendPurpose::Token | SendPurpose::ReplyToken => HandshakeSubPhaseX::SecurityHandshake,
        SendPurpose::ClientReady => HandshakeSubPhaseX::ReadyExchange,
        SendPurpose::ServerReady => HandshakeSubPhaseX::ServerReceivedReady,
    }
}

/// The phase in which a command is received for this purpose.
pub open spec fn receiving_phase(purpose: ReadPurpose) -> HandshakeSubPhaseX {
    match purpose {
        ReadPurpose::Token => HandshakeSubPhaseX::SecurityHandshake,
        ReadPurpose::ClientReady => HandshakeSubPhaseX::ReadyExchange,
        ReadPurpose::ServerReady => HandshakeSubPhaseX::ClientSentReady,
    }
}

/// Whether an answer can be awaited at this stage.
pub open spec fn stage_fits(stage: HandshakeStage, s: SessionModel) -> bool {
    match stage {
        HandshakeStage::SignatureSent => s.sub_phase == HandshakeSubPhaseX::GreetingExchange,
        HandshakeStage::PeekRead { .. } | HandshakeStage::V3TailSent => s.sub_phase
            == HandshakeSubPhaseX::WaitingForPeerRevision,
        HandshakeStage::V2TailSent => s.sub_phase == HandshakeSubPhaseX::WaitingForPeerRevision
            && s.config.allow_zmtp2,
        HandshakeStage::GreetingRead { .. } => s.sub_phase
            == HandshakeSubPhaseX::WaitingForGreeting,
        HandshakeStage::MechanismNamed
        | HandshakeStage::MechanismNegotiated
        | HandshakeStage::MechanismStatus
        | HandshakeStage::MechanismFault
        | HandshakeStage::TokenProduced
        | HandshakeStage::TokenProcessed
        | HandshakeStage::ReplyProduced
        | HandshakeStage::FramerMade => s.sub_phase == HandshakeSubPhaseX::SecurityHandshake,
        HandshakeStage::ReadyCreated(purpose)
        | HandshakeStage::CommandEncoded(purpose)
        | HandshakeStage::CommandSent(purpose) => {
            &&& s.sub_phase == sending_phase(purpose)
            &&& purpose == SendPurpose::ClientReady ==> !s.is_server
        },
        HandshakeStage::CommandDecoded { purpose, .. }
        | HandshakeStage::CommandRead { purpose, .. } => {
            &&& s.sub_phase == receiving_phase(purpose)
            &&& purpose == ReadPurpose::ClientReady ==> s.is_server
        },
        HandshakeStage::ReadyParsed(purpose) => {
            &&& s.sub_phase == receiving_phase(purpose)
            &&& purpose == ReadPurpose::ClientReady ==> s.is_server
            &&& purpose != ReadPurpose::Token
        },
        HandshakeStage::V2GreetingRead { .. }
        | HandshakeStage::V2IdentitySent
        | HandshakeStage::V2IdentityDecoded { .. }
        | HandshakeStage::V2IdentityRead { .. } => s.sub_phase
            == HandshakeSubPhaseX::V2IdentityExchange,
    }
}

/// Whether a step that began in `s` leaves a state that fits together, never goes
/// back, and stays where it was where it fails.
pub open spec fn sound_step(s: SessionModel, step: HandshakeStep) -> bool {
    &&& sound(step.session)
    &&& rank(step.session.sub_phase) >= rank(s.sub_phase)
    &&& match step.flow {
        HandshakeFlowView::Ask { stage, .. } => stage_fits(stage, step.session)
            && step.session.sub_phase == s.sub_phase,
        HandshakeFlowView::Return(Err(_)) => step.session.sub_phase == s.sub_phase,
        HandshakeFlowView::Return(Ok(ProgressView::HandshakeComplete)) => step.session.sub_phase
            == HandshakeSubPhaseX::Done,
        HandshakeFlowView::Return(Ok(_)) => true,
    }
}

proof fn lemma_greeting_steps_are_sound(s: SessionModel, deadline: Instant, now: Instant)
    requires
        sound(s),
    ensures
        s.sub_phase == HandshakeSubPhaseX::WaitingForPeerRevision ==> sound_step(
            s,
            crate::stream::model::peer_revision(s, deadline, now),
        ),
        s.sub_phase == HandshakeSubPhaseX::WaitingForGreeting ==> sound_step(
            s,
            crate::stream::model::receive_greeting(s, deadline, now),
        ),
        s.sub_phase == HandshakeSubPhaseX::V2IdentityExchange ==> sound_step(
            s,
            crate::stream::model::v2_greeting(s, deadline, now),
        ),
{
    reveal(crate::stream::model::peer_revision);
    reveal(crate::stream::model::receive_greeting);
    reveal(crate::stream::model::v2_greeting);
}

/// A handshake that fits together goes on to do so, never goes back to an earlier
/// phase, and stays in its phase where a step fails: here, when a step begins.
pub proof fn law_steps_begin_soundly(s: SessionModel, now: Instant)
    requires
        sound(s),
    ensures
        sound_step(s, crate::stream::model::step_begun(s, now)),
        s.sub_phase == HandshakeSubPhaseX::Done ==> crate::stream::model::step_begun(s, now)
            == (HandshakeStep {
            session: s,
            flow: HandshakeFlowView::Return(Ok(ProgressView::HandshakeComplete)),
        }),
{
    lemma_greeting_steps_are_sound(
        s,
        crate::time::after(now, crate::stream::model::operation_time(s.config)),
        now,
    );
}

proof fn lemma_opening_goes_on_soundly(
    s: SessionModel,
    stage: HandshakeStage,
    reply: HandshakeReplyView,
    now: Instant,
)
    requires
        sound(s),
        stage_fits(stage, s),
        rank(s.sub_phase) <= 1,
    ensures
        sound_step(s, crate::stream::model::step_resumed(s, stage, reply, now)),
{
    reveal(crate::stream::model::step_resumed);
    reveal(crate::stream::model::greeting_read);
    match stage {
        HandshakeStage::SignatureSent => {
            reveal(crate::stream::model::signature_sent);
        },
        HandshakeStage::V2TailSent => {
            reveal(crate::stream::model::v2_tail_sent);
        },
        HandshakeStage::V3TailSent => {
            reveal(crate::stream::model::v3_tail_sent);
        },
        HandshakeStage::PeekRead { deadline } => {
            if let HandshakeReplyView::Read(outcome) = reply {
                lemma_greeting_steps_are_sound(
                    crate::stream::model::with_received(
                        s,
                        crate::stream::model::read_bytes(outcome),
                        now,
                    ),
                    deadline,
                    now,
                );
            }
        },
        _ => {},
    }
}

proof fn lemma_greeting_goes_on_soundly(
    s: SessionModel,
    stage: HandshakeStage,
    reply: HandshakeReplyView,
    now: Instant,
)
    requires
        sound(s),
        stage_fits(stage, s),
        rank(s.sub_phase) == 2,
    ensures
        sound_step(s, crate::stream::model::step_resumed(s, stage, reply, now)),
{
    reveal(crate::stream::model::step_resumed);
    reveal(crate::stream::model::greeting_read);
    match stage {
        HandshakeStage::GreetingRead { deadline } | HandshakeStage::V2GreetingRead { deadline } => {
            if let HandshakeReplyView::Read(outcome) = reply {
                lemma_greeting_steps_are_sound(
                    crate::stream::model::with_received(
                        s,
                        crate::stream::model::read_bytes(outcome),
                        now,
                    ),
                    deadline,
                    now,
                );
            }
        },
        HandshakeStage::V2IdentitySent => {
            reveal(crate::stream::model::v2_identity_sent);
        },
        HandshakeStage::V2IdentityDecoded { .. } => {
            reveal(crate::stream::model::v2_identity_decoded);
        },
        HandshakeStage::V2IdentityRead { .. } => {
            reveal(crate::stream::model::v2_identity_read);
        },
        _ => {},
    }
}

proof fn lemma_security_goes_on_soundly(
    s: SessionModel,
    stage: HandshakeStage,
    reply: HandshakeReplyView,
    now: Instant,
)
    requires
        sound(s),
        stage_fits(stage, s),
        s.sub_phase == HandshakeSubPhaseX::SecurityHandshake,
    ensures
        sound_step(s, crate::stream::model::step_resumed(s, stage, reply, now)),
{
    reveal(crate::stream::model::step_resumed);
    reveal(crate::stream::model::greeting_read);
    match stage {
        HandshakeStage::MechanismNamed => {
            reveal(crate::stream::model::mechanism_named);
        },
        HandshakeStage::MechanismNegotiated => {
            reveal(crate::stream::model::mechanism_negotiated);
        },
        HandshakeStage::MechanismStatus => {
            reveal(crate::stream::model::mechanism_status);
        },
        HandshakeStage::MechanismFault => {
            reveal(crate::stream::model::mechanism_fault);
        },
        HandshakeStage::TokenProduced => {
            reveal(crate::stream::model::token_produced);
        },
        HandshakeStage::TokenProcessed => {
            reveal(crate::stream::model::token_processed);
        },
        HandshakeStage::ReplyProduced => {
            reveal(crate::stream::model::reply_produced);
        },
        HandshakeStage::FramerMade => {
            reveal(crate::stream::model::framer_made);
        },
        HandshakeStage::CommandEncoded(_) => {
            reveal(crate::stream::model::command_encoded);
        },
        HandshakeStage::CommandSent(_) => {
            reveal(crate::stream::model::command_sent);
        },
        HandshakeStage::CommandDecoded { .. } => {
            reveal(crate::stream::model::command_decoded);
        },
        HandshakeStage::CommandRead { .. } => {
            reveal(crate::stream::model::command_read);
        },
        _ => {},
    }
}

proof fn lemma_ready_goes_on_soundly(
    s: SessionModel,
    stage: HandshakeStage,
    reply: HandshakeReplyView,
    now: Instant,
)
    requires
        sound(s),
        stage_fits(stage, s),
        rank(s.sub_phase) >= 4,
    ensures
        sound_step(s, crate::stream::model::step_resumed(s, stage, reply, now)),
{
    reveal(crate::stream::model::step_resumed);
    reveal(crate::stream::model::greeting_read);
    match stage {
        HandshakeStage::CommandEncoded(_) => {
            reveal(crate::stream::model::command_encoded);
        },
        HandshakeStage::CommandSent(_) => {
            reveal(crate::stream::model::command_sent);
        },
        HandshakeStage::CommandDecoded { .. } => {
            reveal(crate::stream::model::command_decoded);
        },
        HandshakeStage::CommandRead { .. } => {
            reveal(crate::stream::model::command_read);
        },
        HandshakeStage::ReadyParsed(_) => {
            reveal(crate::stream::model::ready_parsed);
        },
        _ => {},
    }
}

/// A handshake that fits together goes on to do so, never goes back to an earlier
/// phase, and stays in its phase where a step fails: here, when a question is answered.
pub proof fn law_steps_go_on_soundly(
    s: SessionModel,
    stage: HandshakeStage,
    reply: HandshakeReplyView,
    now: Instant,
)
    requires
        sound(s),
        stage_fits(stage, s),
    ensures
        sound_step(s, crate::stream::model::step_resumed(s, stage, reply, now)),
{
    if rank(s.sub_phase) <= 1 {
        lemma_opening_goes_on_soundly(s, stage, reply, now);
    } else if rank(s.sub_phase) == 2 {
        lemma_greeting_goes_on_soundly(s, stage, reply, now);
    } else if s.sub_phase == HandshakeSubPhaseX::SecurityHandshake {
        lemma_security_goes_on_soundly(s, stage, reply, now);
    } else {
        lemma_ready_goes_on_soundly(s, stage, reply, now);
    }
}

/// The tail that a connection sends to a peer of ZMTP/3.x.
pub open spec fn own_tail(s: SessionModel) -> Seq<u8> {
    crate::greeting::v3_tail_post_major_bytes(
        crate::mechanism::mechanism_field(
            crate::mechanism::proposed_mechanism(s.config, s.is_server),
        ),
        s.is_server,
    )
}

/// Two connections never wait for each other: each sends its prelude unasked, answers
/// the other's prelude with its tail, and with the other's tail comes to know the
/// mechanism that the other proposes.
pub proof fn law_two_peers_come_to_know_each_other(
    one: SessionModel,
    other: SessionModel,
    now: Instant,
)
    requires
        one.has_stream,
    ensures
        // The prelude is sent unasked.
        one.sub_phase == HandshakeSubPhaseX::GreetingExchange ==> (
        crate::stream::model::step_begun(one, now).flow matches HandshakeFlowView::Ask {
            request: HandshakeRequestView::Write { data, .. },
            ..
        } && data == crate::greeting::prelude_bytes()),
        // The prelude of the other is answered with the tail.
        one.sub_phase == HandshakeSubPhaseX::WaitingForPeerRevision && one.received
            == crate::greeting::prelude_bytes() ==> (crate::stream::model::step_begun(
            one,
            now,
        ).flow matches HandshakeFlowView::Ask {
            request: HandshakeRequestView::Write { data, .. },
            ..
        } && data == own_tail(one)),
        // The tail of the other is understood.
        one.sub_phase == HandshakeSubPhaseX::WaitingForGreeting && one.received
            == crate::greeting::prelude_bytes() + own_tail(other) ==> {
            let step = crate::stream::model::step_begun(one, now);
            &&& step.flow == HandshakeFlowView::Return(Ok(ProgressView::InProgress))
            &&& step.session.sub_phase == HandshakeSubPhaseX::SecurityHandshake
            &&& step.session.peer_greeting == Some(
                GreetingView {
                    version: (3, 0),
                    mechanism: crate::mechanism::mechanism_field(
                        crate::mechanism::proposed_mechanism(other.config, other.is_server),
                    ),
                    as_server: other.is_server,
                },
            )
        },
{
    reveal(crate::stream::model::peer_revision);
    reveal(crate::stream::model::receive_greeting);
    let mechanism = crate::mechanism::mechanism_field(
        crate::mechanism::proposed_mechanism(other.config, other.is_server),
    );
    assert(mechanism.len() == 20);
    let whole = crate::greeting::v3_greeting_bytes(mechanism, other.is_server);
    crate::greeting::laws::law_staged_v3_greeting_is_whole(mechanism, other.is_server);
    crate::greeting::laws::law_v3_greeting_read_back(mechanism, other.is_server, Seq::empty());
    assert(whole + Seq::<u8>::empty() =~= whole);
    let prelude = crate::greeting::prelude_bytes();
    assert(prelude.take(11) =~= prelude);
}

/// A peer of a version that is neither 2.0 nor 3.x is refused, and nothing is sent to
/// it.
pub proof fn law_other_versions_are_refused(s: SessionModel, revision: u8, now: Instant)
    requires
        s.sub_phase == HandshakeSubPhaseX::WaitingForPeerRevision,
        s.has_stream,
        s.received.len() >= 11,
        crate::greeting::peeked_revision(s.received.take(11)) == Ok::<u8, ErrorView>(revision),
        revision != 0x01,
        revision < 0x03,
    ensures
        crate::stream::model::step_begun(s, now) == (HandshakeStep {
            session: s,
            flow: HandshakeFlowView::Return(
                Err(crate::uring::model::unsupported_revision(revision)),
            ),
        }),
{
    reveal(crate::stream::model::peer_revision);
}

/// A peer of ZMTP/2.0 is refused where that version is not allowed, and nothing is
/// sent to it.
pub proof fn law_version_2_needs_permission(s: SessionModel, now: Instant)
    requires
        s.sub_phase == HandshakeSubPhaseX::WaitingForPeerRevision,
        s.has_stream,
        s.received.len() >= 11,
        crate::greeting::peeked_revision(s.received.take(11)) == Ok::<u8, ErrorView>(1),
        !s.config.allow_zmtp2,
    ensures
        crate::stream::model::step_begun(s, now) == (HandshakeStep {
            session: s,
            flow: HandshakeFlowView::Return(Err(crate::uring::model::v2_not_allowed())),
        }),
{
    reveal(crate::stream::model::peer_revision);
}

/// On a ZMTP/2.0 connection no PING is ever due.
pub proof fn law_no_pings_in_version_2(s: SessionModel, now: Instant)
    requires
        s.version == Some(NegotiatedVersion::V2),
    ensures
        !crate::stream::model::is_ping_due(s, now),
{
}

/// A connection on a stream and one on io_uring with the same settings and role answer
/// the first bytes of a peer alike: they send the same tail, or fail with the same error.
pub proof fn law_both_transports_answer_alike(
    s: SessionModel,
    h: crate::uring::model::HandlerModel,
    ops: crate::uring::types::OpsView,
    now: Instant,
)
    requires
        s.sub_phase == HandshakeSubPhaseX::WaitingForPeerRevision,
        s.has_stream,
        s.received.len() >= 11,
        crate::uring::outcomes::waits_for_peer(h, now),
        h.config == s.config,
        h.is_server == s.is_server,
    ensures
        ({
            let on_ring = crate::uring::calls::read_begun(h, ops, s.received, now);
            match crate::stream::model::step_begun(s, now).flow {
                HandshakeFlowView::Ask { request: HandshakeRequestView::Write { data, .. }, .. } =>
                    on_ring.ops == crate::uring::model::with_send(ops, data)
                        && on_ring.flow is Return,
                HandshakeFlowView::Return(Err(error)) => on_ring.flow
                    == crate::uring::types::FlowView::Return(Err(error)),
                _ => false,
            }
        }),
{
    reveal(crate::stream::model::peer_revision);
    reveal(crate::uring::model::pass_begun);
    reveal(crate::uring::model::peer_revision_step);
    reveal(crate::uring::model::v2_tail_step);
    let bytes = s.received;
    assert(h.accumulated + bytes =~= bytes);
    assert(h.greeting + bytes.take(11) =~= bytes.take(11));
    assert(bytes.take(11).take(11) =~= bytes.take(11));
}

/// The identity that a client announces is the one that the server reports when the
/// handshake is done: a server that has read the READY of its client, and then makes,
/// encodes and writes its own, ends with exactly that identity, where it has from 1 to 255
/// bytes, and with none otherwise.
pub proof fn law_server_reports_the_announced_identity(
    s: SessionModel,
    properties: Map<Seq<char>, Seq<u8>>,
    msg: crate::message::MsgView,
    wire: Seq<u8>,
    at: Seq<Instant>,
)
    requires
        at.len() == 5,
        s.has_stream,
    ensures
        ({
            let read = crate::stream::model::step_resumed(
                s,
                HandshakeStage::ReadyParsed(ReadPurpose::ClientReady),
                HandshakeReplyView::Command(
                    Some(crate::command::CommandView::Ready(properties)),
                ),
                at[0],
            );
            let begun = crate::stream::model::step_begun(read.session, at[1]);
            let made = crate::stream::model::step_resumed(
                begun.session,
                HandshakeStage::ReadyCreated(SendPurpose::ServerReady),
                HandshakeReplyView::Message(msg),
                at[2],
            );
            let encoded = crate::stream::model::step_resumed(
                made.session,
                HandshakeStage::CommandEncoded(SendPurpose::ServerReady),
                HandshakeReplyView::Encoded(Ok(wire)),
                at[3],
            );
            let written = crate::stream::model::step_resumed(
                encoded.session,
                HandshakeStage::CommandSent(SendPurpose::ServerReady),
                HandshakeReplyView::Wrote(crate::stream::types::WriteOutcome::Written),
                at[4],
            );
            &&& read.flow == HandshakeFlowView::Return(Ok(ProgressView::InProgress))
            &&& begun.flow matches HandshakeFlowView::Ask {
                stage: HandshakeStage::ReadyCreated(SendPurpose::ServerReady),
                request: HandshakeRequestView::CreateReady(_),
            }
            &&& made.flow matches HandshakeFlowView::Ask {
                stage: HandshakeStage::CommandEncoded(SendPurpose::ServerReady),
                request: HandshakeRequestView::EncodeCommand(command),
            }
            &&& command.data == msg.data && command.flags.command && !command.flags.more
            &&& encoded.flow matches HandshakeFlowView::Ask {
                stage: HandshakeStage::CommandSent(SendPurpose::ServerReady),
                request: HandshakeRequestView::Write { data, .. },
            }
            &&& data == wire
            &&& written.session.sub_phase == HandshakeSubPhaseX::Done
            &&& written.flow == HandshakeFlowView::Return(
                Ok(
                    if properties.contains_key("Identity"@) && 1 <= properties["Identity"@].len()
                        <= 255 {
                        ProgressView::IdentityReady(properties["Identity"@])
                    } else {
                        ProgressView::HandshakeComplete
                    },
                ),
            )
        }),
{
    reveal(crate::stream::model::step_resumed);
    reveal(crate::stream::model::ready_parsed);
    reveal(crate::stream::model::command_encoded);
    reveal(crate::stream::model::command_sent);
}

/// The identity that a server announces is the one that the client reports, and with it the
/// handshake is done.
pub proof fn law_client_reports_the_announced_identity(
    s: SessionModel,
    properties: Map<Seq<char>, Seq<u8>>,
    now: Instant,
)
    ensures
        ({
            let read = crate::stream::model::step_resumed(
                s,
                HandshakeStage::ReadyParsed(ReadPurpose::ServerReady),
                HandshakeReplyView::Command(
                    Some(crate::command::CommandView::Ready(properties)),
                ),
                now,
            );
            &&& read.session.sub_phase == HandshakeSubPhaseX::Done
            &&& read.flow == HandshakeFlowView::Return(
                Ok(
                    if properties.contains_key("Identity"@) && 1 <= properties["Identity"@].len()
                        <= 255 {
                        ProgressView::IdentityReady(properties["Identity"@])
                    } else {
                        ProgressView::HandshakeComplete
                    },
                ),
            )
        }),
{
    reveal(crate::stream::model::step_resumed);
    reveal(crate::stream::model::ready_parsed);
}

/// The type of socket that a peer announces in its READY, as a text in UTF-8, is the one
/// it is known by.
pub proof fn law_announced_socket_type_is_known(
    s: SessionModel,
    purpose: ReadPurpose,
    properties: Map<Seq<char>, Seq<u8>>,
    now: Instant,
)
    ensures
        ({
            let after = crate::stream::model::step_resumed(
                s,
                HandshakeStage::ReadyParsed(purpose),
                HandshakeReplyView::Command(
                    Some(crate::command::CommandView::Ready(properties)),
                ),
                now,
            ).session.peer_socket_type;
            if properties.contains_key("Socket-Type"@) && vstd::utf8::valid_utf8(
                properties["Socket-Type"@],
            ) {
                after matches Some(name) && vstd::utf8::encode_utf8(name)
                    == properties["Socket-Type"@]
            } else {
                after == s.peer_socket_type
            }
        }),
{
    reveal(crate::stream::model::step_resumed);
    reveal(crate::stream::model::ready_parsed);
    if properties.contains_key("Socket-Type"@) && vstd::utf8::valid_utf8(
        properties["Socket-Type"@],
    ) {
        vstd::utf8::decode_utf8_encode_utf8(properties["Socket-Type"@]);
    }
}

/// A peer of ZMTP/2.0 is known by the identity in its identity frame, where that holds any
/// bytes; with it the handshake is done.
pub proof fn law_version_2_identity_is_reported(
    s: SessionModel,
    deadline: Instant,
    msg: crate::message::MsgView,
    rest: Seq<u8>,
    now: Instant,
)
    requires
        s.peer_identity is None,
        !msg.flags.command,
        !msg.flags.more,
        msg.body().len() <= 255,
    ensures
        ({
            let step = crate::stream::model::step_resumed(
                s,
                HandshakeStage::V2IdentityDecoded { deadline },
                HandshakeReplyView::Frame { outcome: Ok(Some(msg)), rest },
                now,
            );
            &&& step.session.sub_phase == HandshakeSubPhaseX::Done
            &&& step.session.received == rest
            &&& step.flow == HandshakeFlowView::Return(
                Ok(
                    if msg.body().len() > 0 {
                        ProgressView::IdentityReady(msg.body())
                    } else {
                        ProgressView::HandshakeComplete
                    },
                ),
            )
        }),
{
    reveal(crate::stream::model::step_resumed);
    reveal(crate::stream::model::v2_identity_decoded);
}

/// What was written leads to the next phase: the signature to the wait for the peer, with
/// nothing read before it kept, and the tail to the wait for the rest of the greeting or,
/// in ZMTP/2.0, to the identities.
pub proof fn law_what_was_written_leads_on(
    s: SessionModel,
    now: Instant,
)
    ensures
        ({
            let step = crate::stream::model::step_resumed(
                s,
                HandshakeStage::SignatureSent,
                HandshakeReplyView::Wrote(crate::stream::types::WriteOutcome::Written),
                now,
            );
            &&& step.session.sub_phase == HandshakeSubPhaseX::WaitingForPeerRevision
            &&& step.session.received.len() == 0
            &&& step.session.heartbeat.last_activity_time == now
            &&& step.flow == HandshakeFlowView::Return(Ok(ProgressView::InProgress))
        }),
        ({
            let step = crate::stream::model::step_resumed(
                s,
                HandshakeStage::V2TailSent,
                HandshakeReplyView::Wrote(crate::stream::types::WriteOutcome::Written),
                now,
            );
            &&& step.session == (SessionModel { version: Some(NegotiatedVersion::V2), sub_phase: HandshakeSubPhaseX::V2IdentityExchange, ..s })
            &&& step.flow == HandshakeFlowView::Return(Ok(ProgressView::InProgress))
        }),
        ({
            let step = crate::stream::model::step_resumed(
                s,
                HandshakeStage::V3TailSent,
                HandshakeReplyView::Wrote(crate::stream::types::WriteOutcome::Written),
                now,
            );
            &&& step.session == (SessionModel { sub_phase: HandshakeSubPhaseX::WaitingForGreeting, ..s })
            &&& step.flow == HandshakeFlowView::Return(Ok(ProgressView::InProgress))
        }),
        ({
            let step = crate::stream::model::step_resumed(
                s,
                HandshakeStage::CommandSent(SendPurpose::ClientReady),
                HandshakeReplyView::Wrote(crate::stream::types::WriteOutcome::Written),
                now,
            );
            &&& step.session.sub_phase == HandshakeSubPhaseX::ClientSentReady
            &&& step.session.received == s.received
            &&& step.flow == HandshakeFlowView::Return(Ok(ProgressView::InProgress))
        }),
{
    reveal(crate::stream::model::step_resumed);
    reveal(crate::stream::model::signature_sent);
    reveal(crate::stream::model::v2_tail_sent);
    reveal(crate::stream::model::v3_tail_sent);
    reveal(crate::stream::model::command_sent);
}

/// A write that takes too long or fails, and a read that does or finds the stream closed,
/// end the step with the error that says so, and change nothing.
pub proof fn law_failed_input_and_output_is_reported(
    s: SessionModel,
    stage: HandshakeStage,
    errno: i32,
    now: Instant,
)
    requires
        stage is SignatureSent || stage is V2TailSent || stage is V3TailSent || stage is CommandSent || stage is V2IdentitySent || stage is PeekRead || stage is GreetingRead || stage is V2GreetingRead || stage is CommandRead || stage is V2IdentityRead,
    ensures
        ({
            let writes = stage is SignatureSent || stage is V2TailSent || stage is V3TailSent
                || stage is CommandSent || stage is V2IdentitySent;
            let ended = |reply: HandshakeReplyView, error: ErrorView|
                crate::stream::model::step_resumed(s, stage, reply, now) == (HandshakeStep {
                    session: s,
                    flow: HandshakeFlowView::Return(Err(error)),
                });
            &&& writes ==> {
                &&& ended(
                    HandshakeReplyView::Wrote(crate::stream::types::WriteOutcome::Elapsed),
                    ErrorView::Timeout,
                )
                &&& ended(
                    HandshakeReplyView::Wrote(
                        crate::stream::types::WriteOutcome::Failed { errno },
                    ),
                    ErrorView::IoError(errno),
                )
            }
            &&& !writes ==> {
                &&& ended(
                    HandshakeReplyView::Read(crate::stream::types::ReadView::Elapsed),
                    ErrorView::Timeout,
                )
                &&& ended(
                    HandshakeReplyView::Read(crate::stream::types::ReadView::Failed(errno)),
                    ErrorView::IoError(errno),
                )
                &&& ended(
                    HandshakeReplyView::Read(crate::stream::types::ReadView::Data(Seq::empty())),
                    ErrorView::ConnectionClosed,
                )
            }
        }),
{
    reveal(crate::stream::model::step_resumed);
    reveal(crate::stream::model::signature_sent);
    reveal(crate::stream::model::v2_tail_sent);
    reveal(crate::stream::model::v3_tail_sent);
    reveal(crate::stream::model::command_sent);
    reveal(crate::stream::model::v2_identity_sent);
    reveal(crate::stream::model::greeting_read);
    reveal(crate::stream::model::command_read);
    reveal(crate::stream::model::v2_identity_read);
}

/// How the mechanism is driven: it is negotiated while it is still the one of before the
/// greetings, makes the framer once it has done its work, and is asked for a token while it
/// has not failed.
pub proof fn law_mechanism_is_driven(
    s: SessionModel,
    name: Seq<char>,
    identity: Option<Seq<u8>>,
    reason: Seq<char>,
    now: Instant,
)
    ensures
        ({
            let step = crate::stream::model::step_resumed(
                s,
                HandshakeStage::MechanismNamed,
                HandshakeReplyView::Name(name),
                now,
            );
            &&& step.session == s
            &&& if name != "NULL"@ {
                step.flow == (HandshakeFlowView::Ask {
                    stage: HandshakeStage::MechanismStatus,
                    request: HandshakeRequestView::MechanismComplete,
                })
            } else if s.peer_greeting is Some {
                step.flow == (HandshakeFlowView::Ask {
                    stage: HandshakeStage::MechanismNegotiated,
                    request: HandshakeRequestView::Negotiate(s.peer_greeting->0),
                })
            } else {
                step.flow matches HandshakeFlowView::Return(Err(ErrorView::Internal(_)))
            }
        }),
        ({
            let step = crate::stream::model::step_resumed(
                s,
                HandshakeStage::MechanismNegotiated,
                HandshakeReplyView::Negotiated(Ok(())),
                now,
            );
            &&& step.session == s
            &&& step.flow == (HandshakeFlowView::Ask {
                stage: HandshakeStage::MechanismStatus,
                request: HandshakeRequestView::MechanismComplete,
            })
        }),
        ({
            let step = crate::stream::model::step_resumed(
                s,
                HandshakeStage::MechanismStatus,
                HandshakeReplyView::Complete(true),
                now,
            );
            &&& step.session == s
            &&& step.flow == (HandshakeFlowView::Ask {
                stage: HandshakeStage::FramerMade,
                request: HandshakeRequestView::IntoFramer(s.config.max_msg_size),
            })
        }),
        ({
            let step = crate::stream::model::step_resumed(
                s,
                HandshakeStage::MechanismStatus,
                HandshakeReplyView::Complete(false),
                now,
            );
            &&& step.session == s
            &&& step.flow == (HandshakeFlowView::Ask {
                stage: HandshakeStage::MechanismFault,
                request: HandshakeRequestView::MechanismFault,
            })
        }),
        ({
            let step = crate::stream::model::step_resumed(
                s,
                HandshakeStage::MechanismFault,
                HandshakeReplyView::Fault(None),
                now,
            );
            &&& step.session == s
            &&& step.flow == (HandshakeFlowView::Ask {
                stage: HandshakeStage::TokenProduced,
                request: HandshakeRequestView::ProduceToken,
            })
        }),
        ({
            let step = crate::stream::model::step_resumed(
                s,
                HandshakeStage::MechanismFault,
                HandshakeReplyView::Fault(Some(Some(reason))),
                now,
            );
            &&& step.session == s
            &&& step.flow == HandshakeFlowView::Return(Err(ErrorView::SecurityError(reason)))
        }),
        ({
            let step = crate::stream::model::step_resumed(
                s,
                HandshakeStage::FramerMade,
                HandshakeReplyView::Identity(Ok(identity)),
                now,
            );
            &&& step.session == (SessionModel { sub_phase: HandshakeSubPhaseX::ReadyExchange, ..s })
            &&& step.flow == HandshakeFlowView::Return(
                Ok(
                    match identity {
                        Some(id) => ProgressView::IdentityReady(id),
                        None => ProgressView::InProgress,
                    },
                ),
            )
        }),
{
    reveal(crate::stream::model::step_resumed);
    reveal(crate::stream::model::mechanism_named);
    reveal(crate::stream::model::mechanism_negotiated);
    reveal(crate::stream::model::mechanism_status);
    reveal(crate::stream::model::mechanism_fault);
    reveal(crate::stream::model::framer_made);
}

/// Tokens of this end are sent as command frames with just the bytes of the token, and those
/// of the peer are handed to the mechanism as they are.
pub proof fn law_tokens_are_exchanged(
    s: SessionModel,
    token: Seq<u8>,
    msg: crate::message::MsgView,
    rest: Seq<u8>,
    deadline: Instant,
    now: Instant,
)
    requires
        msg.flags.command,
    ensures
        ({
            let step = crate::stream::model::step_resumed(
                s,
                HandshakeStage::TokenProduced,
                HandshakeReplyView::Token(Ok(Some(token))),
                now,
            );
            &&& step.session == s
            &&& step.flow matches HandshakeFlowView::Ask { stage: HandshakeStage::CommandEncoded(SendPurpose::Token), request: HandshakeRequestView::EncodeCommand(command) }
            &&& command.data == Some(token) && command.flags.command && !command.flags.more
        }),
        ({
            let step = crate::stream::model::step_resumed(
                s,
                HandshakeStage::ReplyProduced,
                HandshakeReplyView::Token(Ok(Some(token))),
                now,
            );
            &&& step.session == s
            &&& step.flow matches HandshakeFlowView::Ask { stage: HandshakeStage::CommandEncoded(SendPurpose::ReplyToken), request: HandshakeRequestView::EncodeCommand(command) }
            &&& command.data == Some(token) && command.flags.command && !command.flags.more
        }),
        ({
            let step = crate::stream::model::step_resumed(
                s,
                HandshakeStage::CommandDecoded { purpose: ReadPurpose::Token, deadline },
                HandshakeReplyView::Frame { outcome: Ok(Some(msg)), rest },
                now,
            );
            &&& step.session.received == rest
            &&& step.session.sub_phase == s.sub_phase
            &&& step.flow == (HandshakeFlowView::Ask {
                stage: HandshakeStage::TokenProcessed,
                request: HandshakeRequestView::ProcessToken(msg.body()),
            })
        }),
        ({
            let step = crate::stream::model::step_resumed(
                s,
                HandshakeStage::TokenProcessed,
                HandshakeReplyView::Processed(Ok(crate::stream::types::ProcessTokenAction::ProduceAndSend)),
                now,
            );
            &&& step.session == s
            &&& step.flow == (HandshakeFlowView::Ask {
                stage: HandshakeStage::ReplyProduced,
                request: HandshakeRequestView::ProduceToken,
            })
        }),
        ({
            let step = crate::stream::model::step_resumed(
                s,
                HandshakeStage::TokenProcessed,
                HandshakeReplyView::Processed(Ok(crate::stream::types::ProcessTokenAction::ContinueWaiting)),
                now,
            );
            &&& step.session == s
            &&& step.flow == (HandshakeFlowView::Ask {
                stage: HandshakeStage::MechanismStatus,
                request: HandshakeRequestView::MechanismComplete,
            })
        }),
        ({
            let step = crate::stream::model::step_resumed(
                s,
                HandshakeStage::TokenProcessed,
                HandshakeReplyView::Processed(Ok(crate::stream::types::ProcessTokenAction::HandshakeComplete)),
                now,
            );
            &&& step.session == s
            &&& step.flow == (HandshakeFlowView::Ask {
                stage: HandshakeStage::MechanismStatus,
                request: HandshakeRequestView::MechanismComplete,
            })
        }),
        ({
            let step = crate::stream::model::step_resumed(
                s,
                HandshakeStage::CommandSent(SendPurpose::Token),
                HandshakeReplyView::Wrote(crate::stream::types::WriteOutcome::Written),
                now,
            );
            &&& step.session.received == s.received
            &&& step.flow == (HandshakeFlowView::Ask {
                stage: HandshakeStage::MechanismStatus,
                request: HandshakeRequestView::MechanismComplete,
            })
        }),
        ({
            let step = crate::stream::model::step_resumed(
                s,
                HandshakeStage::CommandSent(SendPurpose::ReplyToken),
                HandshakeReplyView::Wrote(crate::stream::types::WriteOutcome::Written),
                now,
            );
            &&& step.session.received == s.received
            &&& step.flow == (HandshakeFlowView::Ask {
                stage: HandshakeStage::MechanismStatus,
                request: HandshakeRequestView::MechanismComplete,
            })
        }),
{
    reveal(crate::stream::model::step_resumed);
    reveal(crate::stream::model::token_produced);
    reveal(crate::stream::model::reply_produced);
    reveal(crate::stream::model::command_decoded);
    reveal(crate::stream::model::token_processed);
    reveal(crate::stream::model::command_sent);
}

/// During the handshake only commands are taken, and where READY is awaited only that.
pub proof fn law_only_commands_are_taken(
    s: SessionModel,
    purpose: ReadPurpose,
    deadline: Instant,
    msg: crate::message::MsgView,
    rest: Seq<u8>,
    command: Option<crate::command::CommandView>,
    now: Instant,
)
    ensures
        ({
            let step = crate::stream::model::step_resumed(
                s,
                HandshakeStage::CommandDecoded { purpose, deadline },
                HandshakeReplyView::Frame { outcome: Ok(Some(msg)), rest },
                now,
            );
            &&& step.session.received == rest
            &&& !msg.flags.command ==> (step.flow matches HandshakeFlowView::Return(Err(ErrorView::ProtocolViolation(_))))
            &&& msg.flags.command && purpose != ReadPurpose::Token ==> step.flow == (HandshakeFlowView::Ask {
                stage: HandshakeStage::ReadyParsed(purpose),
                request: HandshakeRequestView::ParseCommand(msg),
            })
        }),
        ({
            let step = crate::stream::model::step_resumed(
                s,
                HandshakeStage::ReadyParsed(purpose),
                HandshakeReplyView::Command(command),
                now,
            );
            &&& !(command matches Some(crate::command::CommandView::Ready(_))) ==> step.session == s && (step.flow matches HandshakeFlowView::Return(Err(ErrorView::ProtocolViolation(_))))
        }),
{
    reveal(crate::stream::model::step_resumed);
    reveal(crate::stream::model::command_decoded);
    reveal(crate::stream::model::ready_parsed);
}

/// The client sends its READY first and the server awaits it; each announces its own
/// settings.
pub proof fn law_client_sends_ready_first(
    s: SessionModel,
    now: Instant,
)
    requires
        s.sub_phase == HandshakeSubPhaseX::ReadyExchange,
        s.has_stream,
        s.received.len() > 0,
    ensures
        ({
            let step = crate::stream::model::step_begun(s, now);
            if s.is_server {
                step.flow matches HandshakeFlowView::Ask {
                    stage: HandshakeStage::CommandDecoded { purpose: ReadPurpose::ClientReady, .. },
                    request,
                } && request == HandshakeRequestView::DecodeFrame(s.received)
            } else {
                step.flow == (HandshakeFlowView::Ask {
                    stage: HandshakeStage::ReadyCreated(SendPurpose::ClientReady),
                    request: HandshakeRequestView::CreateReady(
                        crate::ready::stream_ready_properties(s.config),
                    ),
                })
            }
        }),
{
    reveal(crate::stream::model::step_resumed);
}

/// In ZMTP/2.0 a peer whose socket type goes with this one's is sent the empty identity, and
/// is known by its type; another is refused.
pub proof fn law_version_2_greeting_is_answered(
    s: SessionModel,
    now: Instant,
)
    requires
        s.sub_phase == HandshakeSubPhaseX::V2IdentityExchange,
        s.has_stream,
        s.received.len() >= 12,
    ensures
        ({
            let step = crate::stream::model::step_begun(s, now);
            &&& step.session.received == s.received.skip(12)
            &&& if crate::v2_rules::compatibility(
                s.config.socket_type_name,
                s.received[11],
            ) is Ok {
                &&& step.flow matches HandshakeFlowView::Ask {
                    stage: HandshakeStage::V2IdentitySent,
                    request: HandshakeRequestView::Write { data, flush, .. },
                }
                &&& data == seq![0u8, 0u8] && flush
                &&& step.session.peer_socket_type matches Some(name)
                &&& crate::greeting::code_of_name(name) == Some(s.received[11])
            } else {
                step.flow matches HandshakeFlowView::Return(Err(ErrorView::ProtocolViolation(_)))
            }
        }),
{
    reveal(crate::stream::model::step_resumed);
    reveal(crate::stream::model::v2_greeting);
    crate::v2_rules::law_which_socket_types_go_together(s.config.socket_type_name, s.received[11]);
    crate::greeting::laws::law_socket_type_codes(s.config.socket_type_name, s.received[11]);
    if s.received[11] <= 8 {
        crate::greeting::laws::law_socket_type_codes_are_one_to_one(
            crate::greeting::name_of_code(s.received[11])->0,
            s.received[11],
        );
    }
}

} // verus!
