use zmtp_core::command::ZmtpCommand;
use zmtp_core::greeting::NegotiatedVersion;
use zmtp_core::heartbeat::{
    check_pong_timeout_impl, process_heartbeat_command_impl, try_send_ping_impl,
    ZmtpHeartbeatStateX,
};
use zmtp_core::v2_rules::validate_v2_socket_type_compat;
use zmtp_core::{Duration, Instant, ZmqError};

fn at(nanos: u128) -> Instant {
    Instant { nanos }
}

fn state() -> ZmtpHeartbeatStateX {
    ZmtpHeartbeatStateX::new(Some(Duration { nanos: 10 }), Duration { nanos: 5 }, at(100))
}

#[test]
fn ping_is_due_after_the_interval_and_once() {
    let mut state = state();
    assert!(!state.should_send_ping(at(109)));
    assert!(state.should_send_ping(at(110)));
    state.record_activity(at(105));
    assert!(!state.should_send_ping(at(114)));
    assert!(state.should_send_ping(at(115)));
    state.ping_sent(at(115));
    assert!(!state.should_send_ping(at(1000)));
    state.pong_received();
    assert!(state.should_send_ping(at(125)));
    let silent = ZmtpHeartbeatStateX::new(None, Duration { nanos: 5 }, at(100));
    assert!(!silent.should_send_ping(at(1_000_000)));
}

#[test]
fn pong_is_overdue_from_its_deadline_on() {
    let mut state = state();
    assert_eq!(state.get_pong_deadline(), None);
    assert!(!state.has_pong_timed_out(at(1000)));
    state.ping_sent(at(115));
    assert_eq!(state.get_pong_deadline(), Some(at(120)));
    assert!(!check_pong_timeout_impl(&state, at(119)));
    assert!(check_pong_timeout_impl(&state, at(120)));
    // A clock that went back is taken to have stood still.
    assert!(!state.has_pong_timed_out(at(1)));
    state.pong_received();
    assert!(!state.has_pong_timed_out(at(1000)));
}

#[test]
fn no_ping_on_a_stream_of_version_2() {
    let state = state();
    assert!(try_send_ping_impl(&state, None, at(110)));
    assert!(try_send_ping_impl(&state, Some(NegotiatedVersion::V3 { minor: 1 }), at(110)));
    assert!(!try_send_ping_impl(&state, Some(NegotiatedVersion::V2), at(110)));
}

#[test]
fn heartbeat_commands_are_answered() {
    let mut state = state();
    state.ping_sent(at(115));
    let ping = Some(ZmtpCommand::Ping(vec![1, 2]));
    assert_eq!(process_heartbeat_command_impl(&mut state, ping), Ok(Some(vec![1, 2])));
    assert!(state.waiting_for_pong);
    assert_eq!(process_heartbeat_command_impl(&mut state, Some(ZmtpCommand::Other)), Ok(None));
    assert_eq!(
        process_heartbeat_command_impl(&mut state, Some(ZmtpCommand::Pong(vec![]))),
        Ok(None)
    );
    assert!(!state.waiting_for_pong);
    assert_eq!(
        process_heartbeat_command_impl(&mut state, Some(ZmtpCommand::Error)),
        Err(ZmqError::ProtocolViolation("Received ZMTP ERROR from peer".to_string()))
    );
    assert_eq!(
        process_heartbeat_command_impl(&mut state, None),
        Err(ZmqError::ProtocolViolation(
            "Unparseable command received in data phase".to_string()
        ))
    );
}

#[test]
fn socket_types_go_together_both_ways() {
    let names = ["PAIR", "PUB", "SUB", "REQ", "REP", "DEALER", "ROUTER", "PULL", "PUSH"];
    let mut pairs = 0;
    for (one, one_name) in names.iter().enumerate() {
        for (other, other_name) in names.iter().enumerate() {
            let there = validate_v2_socket_type_compat(one_name, other as u8).is_ok();
            let back = validate_v2_socket_type_compat(other_name, one as u8).is_ok();
            assert_eq!(there, back);
            if there {
                pairs += 1;
            }
        }
    }
    assert_eq!(pairs, 15);
    assert_eq!(
        validate_v2_socket_type_compat("PULL", 0x09),
        Err(ZmqError::ProtocolViolation(
            "v2 peer advertised unknown socket-type byte 0x09".to_string()
        ))
    );
    assert!(validate_v2_socket_type_compat("XPUB", 2).is_err());
}
