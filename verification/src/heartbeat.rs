//! Heartbeats: when to send a PING, and how long to wait for its PONG.

use vstd::prelude::*;

use crate::command::{CommandView, ZmtpCommand};
use crate::error::{ErrorView, ZmqError};
use crate::greeting::NegotiatedVersion;
use crate::time::{Duration, Instant};

verus! {

/// What is known of the traffic on a connection.
#[derive(Debug, Clone, Copy, PartialEq, Eq, Structural)]
pub struct ZmtpHeartbeatStateX {
    /// When something was last sent or received.
    pub last_activity_time: Instant,
    /// When the PING that still has no PONG was sent.
    pub last_ping_sent_time: Option<Instant>,
    pub waiting_for_pong: bool,
    /// The time without traffic after which a PING is sent; never where there is none.
    pub ivl: Option<Duration>,
    /// The time that a PONG may take.
    pub timeout: Duration,
}

/// The state after traffic.
pub open spec fn active(state: ZmtpHeartbeatStateX, now: Instant) -> ZmtpHeartbeatStateX {
    ZmtpHeartbeatStateX { last_activity_time: now, ..state }
}

/// The state after a PING was sent.
pub open spec fn pinged(state: ZmtpHeartbeatStateX, now: Instant) -> ZmtpHeartbeatStateX {
    ZmtpHeartbeatStateX {
        last_activity_time: now,
        last_ping_sent_time: Some(now),
        waiting_for_pong: true,
        ..state
    }
}

/// The state after a PONG was received.
pub open spec fn ponged(state: ZmtpHeartbeatStateX) -> ZmtpHeartbeatStateX {
    ZmtpHeartbeatStateX { last_ping_sent_time: None, waiting_for_pong: false, ..state }
}

/// Whether a PING is to be sent: none is awaiting its PONG, and nothing happened for
/// the interval.
pub open spec fn is_ping_due(state: ZmtpHeartbeatStateX, now: Instant) -> bool {
    &&& !state.waiting_for_pong
    &&& state.ivl matches Some(ivl) && crate::time::span(state.last_activity_time, now).nanos
        >= ivl.nanos
}

/// Whether a PONG has taken as long as it may.
pub open spec fn is_pong_overdue(state: ZmtpHeartbeatStateX, now: Instant) -> bool {
    &&& state.waiting_for_pong
    &&& state.last_ping_sent_time matches Some(sent) && crate::time::span(sent, now).nanos
        >= state.timeout.nanos
}

impl ZmtpHeartbeatStateX {
    /// The state of a connection that was just made.
    pub fn new(ivl: Option<Duration>, timeout: Duration, now: Instant) -> (state: Self)
        ensures
            state == (ZmtpHeartbeatStateX {
                last_activity_time: now,
                last_ping_sent_time: None,
                waiting_for_pong: false,
                ivl,
                timeout,
            }),
    {
        ZmtpHeartbeatStateX {
            last_activity_time: now,
            last_ping_sent_time: None,
            waiting_for_pong: false,
            ivl,
            timeout,
        }
    }

    /// Something was sent or received.
    pub fn record_activity(&mut self, now: Instant)
        ensures
            *final(self) == active(*old(self), now),
    {
        self.last_activity_time = now;
    }

    /// A PING was sent.
    pub fn ping_sent(&mut self, now: Instant)
        ensures
            *final(self) == pinged(*old(self), now),
    {
        self.last_ping_sent_time = Some(now);
        self.waiting_for_pong = true;
        self.last_activity_time = now;
    }

    /// A PONG was received.
    pub fn pong_received(&mut self)
        ensures
            *final(self) == ponged(*old(self)),
    {
        self.waiting_for_pong = false;
        self.last_ping_sent_time = None;
    }

    /// Whether a PING is to be sent.
    pub fn should_send_ping(&self, now: Instant) -> (yes: bool)
        ensures
            yes == is_ping_due(*self, now),
    {
        if self.waiting_for_pong {
            return false;
        }
        match self.ivl {
            Some(interval) => now.duration_since(self.last_activity_time).nanos >= interval.nanos,
            None => false,
        }
    }

    /// Whether a PONG has taken as long as it may.
    pub fn has_pong_timed_out(&self, now: Instant) -> (yes: bool)
        ensures
            yes == is_pong_overdue(*self, now),
    {
        if !self.waiting_for_pong {
            return false;
        }
        match self.last_ping_sent_time {
            Some(sent) => now.duration_since(sent).nanos >= self.timeout.nanos,
            None => false,
        }
    }

    /// When the PONG is due at the latest, where one is awaited.
    pub fn get_pong_deadline(&self) -> (deadline: Option<Instant>)
        requires
            self.waiting_for_pong ==> (self.last_ping_sent_time matches Some(sent)
                ==> crate::time::in_range(sent, self.timeout)),
        ensures
            deadline == match self.last_ping_sent_time {
                Some(sent) if self.waiting_for_pong => Some(
                    crate::time::after(sent, self.timeout),
                ),
                _ => None,
            },
    {
        if self.waiting_for_pong {
            match self.last_ping_sent_time {
                Some(sent) => Some(sent.plus(self.timeout)),
                None => None,
            }
        } else {
            None
        }
    }
}

/// What a command after the handshake calls for: the context of the PONG to send, if
/// any.
pub open spec fn heartbeat_reply(command: Option<CommandView>) -> Result<
    Option<Seq<u8>>,
    ErrorView,
> {
    match command {
        Some(CommandView::Ping(context)) => Ok(Some(context)),
        Some(CommandView::Error) => Err(
            ErrorView::ProtocolViolation("Received ZMTP ERROR from peer"@),
        ),
        Some(_) => Ok(None),
        None => Err(ErrorView::ProtocolViolation("Unparseable command received in data phase"@)),
    }
}

/// Takes a command that was received after the handshake, and returns the context of
/// the PONG to send, where it was a PING.  No command is given where the frame held
/// none.
pub fn process_heartbeat_command_impl(
    heartbeat_state: &mut ZmtpHeartbeatStateX,
    command: Option<ZmtpCommand>,
) -> (reply: Result<Option<Vec<u8>>, ZmqError>)
    ensures
        crate::uring::types::optional_view(reply) == heartbeat_reply(
            crate::message::option_view(command),
        ),
        *final(heartbeat_state) == if command matches Some(ZmtpCommand::Pong(_)) {
            ponged(*old(heartbeat_state))
        } else {
            *old(heartbeat_state)
        },
{
    match command {
        Some(ZmtpCommand::Ping(context)) => Ok(Some(context)),
        Some(ZmtpCommand::Pong(_)) => {
            heartbeat_state.pong_received();
            Ok(None)
        },
        Some(ZmtpCommand::Error) => Err(
            ZmqError::ProtocolViolation("Received ZMTP ERROR from peer".to_string()),
        ),
        Some(_) => Ok(None),
        None => Err(
            ZmqError::ProtocolViolation("Unparseable command received in data phase".to_string()),
        ),
    }
}

/// Whether a PING is to be sent on a connection of this version: in ZMTP/2.0 there
/// are no commands, so none ever is.  Once it is sent
/// [`ZmtpHeartbeatStateX::ping_sent`] is told.
pub fn try_send_ping_impl(
    heartbeat_state: &ZmtpHeartbeatStateX,
    negotiated_version: Option<NegotiatedVersion>,
    now: Instant,
) -> (due: bool)
    ensures
        due == (negotiated_version != Some(NegotiatedVersion::V2) && is_ping_due(
            *heartbeat_state,
            now,
        )),
{
    if let Some(NegotiatedVersion::V2) = negotiated_version {
        return false;
    }
    heartbeat_state.should_send_ping(now)
}

/// Whether a PONG has taken as long as it may.
pub fn check_pong_timeout_impl(heartbeat_state: &ZmtpHeartbeatStateX, now: Instant) -> (yes: bool)
    ensures
        yes == is_pong_overdue(*heartbeat_state, now),
{
    heartbeat_state.has_pong_timed_out(now)
}

/// After a PING was sent, no other is due until its PONG is there, whatever the time
/// and the traffic meanwhile.
pub proof fn law_one_ping_at_a_time(
    state: ZmtpHeartbeatStateX,
    sent: Instant,
    traffic: Instant,
    now: Instant,
)
    ensures
        !is_ping_due(pinged(state, sent), now),
        !is_ping_due(active(pinged(state, sent), traffic), now),
{
}

/// A PONG is overdue from its deadline on, not before, and never once it is there.
pub proof fn law_pong_is_overdue_at_its_deadline(
    state: ZmtpHeartbeatStateX,
    sent: Instant,
    now: Instant,
)
    requires
        crate::time::in_range(sent, state.timeout),
        sent.nanos <= now.nanos,
    ensures
        is_pong_overdue(pinged(state, sent), now) <==> crate::time::after(sent, state.timeout).nanos
            <= now.nanos,
        !is_pong_overdue(ponged(pinged(state, sent)), now),
{
}

/// Traffic puts the next PING off by the whole interval.
pub proof fn law_traffic_puts_off_the_ping(
    state: ZmtpHeartbeatStateX,
    ivl: Duration,
    traffic: Instant,
    now: Instant,
)
    requires
        state.ivl == Some(ivl),
        !state.waiting_for_pong,
        traffic.nanos <= now.nanos,
    ensures
        is_ping_due(active(state, traffic), now) <==> now.nanos - traffic.nanos >= ivl.nanos,
{
}

/// When a PING is due: no PONG is awaited, there is an interval, and the last traffic lies
/// at least that long back.
pub proof fn law_when_a_ping_is_due(state: ZmtpHeartbeatStateX, now: Instant)
    ensures
        is_ping_due(state, now) <==> {
            &&& !state.waiting_for_pong
            &&& state.ivl matches Some(ivl)
            &&& ivl.nanos == 0 || now.nanos >= state.last_activity_time.nanos + ivl.nanos
        },
{
}

/// When a PONG is overdue: it is awaited, and its PING lies at least as long back as it may
/// take.
pub proof fn law_when_a_pong_is_overdue(state: ZmtpHeartbeatStateX, now: Instant)
    ensures
        is_pong_overdue(state, now) <==> {
            &&& state.waiting_for_pong
            &&& state.last_ping_sent_time matches Some(sent)
            &&& state.timeout.nanos == 0 || now.nanos >= sent.nanos + state.timeout.nanos
        },
{
}

/// What traffic, a PING and a PONG each leave behind; the interval and the time that a
/// PONG may take stay.
pub proof fn law_what_heartbeats_leave_behind(state: ZmtpHeartbeatStateX, now: Instant)
    ensures
        active(state, now).last_activity_time == now,
        active(state, now).waiting_for_pong == state.waiting_for_pong,
        active(state, now).last_ping_sent_time == state.last_ping_sent_time,
        pinged(state, now).last_activity_time == now,
        pinged(state, now).waiting_for_pong,
        pinged(state, now).last_ping_sent_time == Some(now),
        ponged(state).last_activity_time == state.last_activity_time,
        !ponged(state).waiting_for_pong,
        ponged(state).last_ping_sent_time is None,
        forall|next: ZmtpHeartbeatStateX|
            next == active(state, now) || next == pinged(state, now) || next == ponged(state)
                ==> #[trigger] next.ivl == state.ivl && next.timeout == state.timeout,
{
}

/// What comes of the commands that arrive after the handshake: a PING is answered with its
/// own context, an ERROR and a frame that holds no command are errors, and anything else
/// calls for nothing.
pub proof fn law_what_commands_call_for(
    context: Seq<u8>,
    properties: Map<Seq<char>, Seq<u8>>,
)
    ensures
        heartbeat_reply(Some(CommandView::Ping(context))) == Ok::<Option<Seq<u8>>, ErrorView>(Some(context)),
        heartbeat_reply(Some(CommandView::Pong(context))) == Ok::<Option<Seq<u8>>, ErrorView>(None),
        heartbeat_reply(Some(CommandView::Ready(properties))) == Ok::<Option<Seq<u8>>, ErrorView>(None),
        heartbeat_reply(Some(CommandView::Other)) == Ok::<Option<Seq<u8>>, ErrorView>(None),
        heartbeat_reply(Some(CommandView::Error)) matches Err(
            ErrorView::ProtocolViolation(text),
        ) && text == "Received ZMTP ERROR from peer"@,
        heartbeat_reply(None) matches Err(ErrorView::ProtocolViolation(text)) && text
            == "Unparseable command received in data phase"@,
{
}

} // verus!
