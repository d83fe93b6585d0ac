use zmtp_core::byte_order::ByteOrder;
use zmtp_core::options::access::{
    apply_core_option_value, apply_core_option_value_in, retrieve_core_option_value,
    retrieve_core_option_value_in, CoreState,
};
use zmtp_core::options::{
    SocketOptions, ZmtpEngineConfig, AUTO_DELIMITER, CURVE_SECRET_KEY, CURVE_SERVER,
    CURVE_SERVER_KEY, HANDSHAKE_IVL, HEARTBEAT_IVL, HEARTBEAT_TIMEOUT, IO_URING_RCVMULTISHOT,
    IO_URING_SESSION_ENABLED, IO_URING_SNDZEROCOPY, LAST_ENDPOINT, LINGER, MAXMSGSIZE,
    MAX_CONNECTIONS, NOISE_XX_ENABLED, NOISE_XX_REMOTE_STATIC_PUBLIC_KEY,
    NOISE_XX_STATIC_SECRET_KEY, PLAIN_PASSWORD, PLAIN_SERVER, PLAIN_USERNAME, RCVHWM, RCVTIMEO,
    RECONNECT_IVL, RECONNECT_IVL_MAX, ROUTER_MANDATORY, ROUTING_ID, SNDHWM, SNDTIMEO,
    SOCKET_TYPE, SUBSCRIBE, TCP_CORK, TCP_KEEPALIVE, TCP_KEEPALIVE_CNT, TCP_KEEPALIVE_IDLE,
    TCP_KEEPALIVE_INTVL, UNSUBSCRIBE, ZAP_DOMAIN, ZMTP2_ALLOWED,
};
use zmtp_core::{Duration, ZmqError};

fn core_state() -> CoreState {
    CoreState { last_bound_endpoint: Some("tcp://*:1".to_string()), socket_type: 7 }
}

fn set(options: &mut SocketOptions, id: i32, value: &[u8]) -> Result<(), ZmqError> {
    apply_core_option_value(options, id, value)
}

fn set_number(options: &mut SocketOptions, id: i32, n: i32) -> Result<(), ZmqError> {
    set(options, id, &n.to_ne_bytes())
}

fn read(options: &SocketOptions, id: i32) -> Result<Vec<u8>, ZmqError> {
    retrieve_core_option_value(options, &core_state(), id)
}

fn read_number(options: &SocketOptions, id: i32) -> i32 {
    let bytes = read(options, id).unwrap();
    i32::from_ne_bytes([bytes[0], bytes[1], bytes[2], bytes[3]])
}

#[test]
fn defaults_are_those_of_a_fresh_socket() {
    let options = SocketOptions::default();
    assert_eq!(options.socket_type_name, "UNKNOWN");
    assert_eq!(read_number(&options, SNDHWM), 256);
    assert_eq!(read_number(&options, RCVHWM), 256);
    assert_eq!(read_number(&options, LINGER), 0);
    assert_eq!(read_number(&options, RECONNECT_IVL), 1000);
    assert_eq!(read_number(&options, RCVTIMEO), -1);
    assert_eq!(read_number(&options, MAX_CONNECTIONS), 1024);
    assert_eq!(read_number(&options, ZMTP2_ALLOWED), 1);
    assert_eq!(read(&options, MAXMSGSIZE).unwrap(), (-1i64).to_ne_bytes().to_vec());
}

#[test]
fn numbers_are_read_back_as_they_were_set() {
    let mut options = SocketOptions::default();
    let ids = [
        SNDHWM, RCVHWM, LINGER, RECONNECT_IVL, RECONNECT_IVL_MAX, RCVTIMEO, SNDTIMEO,
        TCP_KEEPALIVE_IDLE, TCP_KEEPALIVE_CNT, TCP_KEEPALIVE_INTVL, HEARTBEAT_IVL,
        HEARTBEAT_TIMEOUT, HANDSHAKE_IVL, MAX_CONNECTIONS,
    ];
    for (i, id) in ids.iter().enumerate() {
        set_number(&mut options, *id, 1000 + i as i32).unwrap();
    }
    for (i, id) in ids.iter().enumerate() {
        assert_eq!(read_number(&options, *id), 1000 + i as i32);
    }
    assert_eq!(options.linger, Some(Duration { nanos: 1_002_000_000 }));
    assert_eq!(options.tcp_keepalive_idle, Some(Duration { nanos: 1_007_000_000_000 }));
}

#[test]
fn flags_are_read_back_as_they_were_set() {
    let mut options = SocketOptions::default();
    let ids = [
        TCP_CORK, ZMTP2_ALLOWED, PLAIN_SERVER, NOISE_XX_ENABLED, IO_URING_SESSION_ENABLED,
        IO_URING_SNDZEROCOPY, IO_URING_RCVMULTISHOT,
    ];
    for id in ids {
        set_number(&mut options, id, 1).unwrap();
        assert_eq!(read_number(&options, id), 1);
        set_number(&mut options, id, 0).unwrap();
        assert_eq!(read_number(&options, id), 0);
        set_number(&mut options, id, 2).unwrap();
        assert_eq!(read_number(&options, id), 0);
    }
    assert!(options.plain_options.enabled);
}

#[test]
fn texts_and_keys_are_read_back_as_they_were_set() {
    let mut options = SocketOptions::default();
    assert_eq!(
        read(&options, ROUTING_ID),
        Err(ZmqError::Internal("Option ROUTING_ID not set".to_string()))
    );
    assert_eq!(
        read(&options, ZAP_DOMAIN),
        Err(ZmqError::Internal("Option ZAP_DOMAIN not set".to_string()))
    );
    set(&mut options, ROUTING_ID, b"me").unwrap();
    set(&mut options, ZAP_DOMAIN, "d\u{e9}".as_bytes()).unwrap();
    set(&mut options, PLAIN_USERNAME, b"user").unwrap();
    set(&mut options, NOISE_XX_REMOTE_STATIC_PUBLIC_KEY, &[9; 32]).unwrap();
    assert_eq!(read(&options, ROUTING_ID).unwrap(), b"me");
    assert_eq!(read(&options, ZAP_DOMAIN).unwrap(), "d\u{e9}".as_bytes());
    assert_eq!(read(&options, PLAIN_USERNAME).unwrap(), b"user");
    assert_eq!(read(&options, NOISE_XX_REMOTE_STATIC_PUBLIC_KEY).unwrap(), vec![9; 32]);
}

#[test]
fn secrets_can_be_set_but_not_read() {
    let mut options = SocketOptions::default();
    set(&mut options, PLAIN_PASSWORD, b"word").unwrap();
    set(&mut options, NOISE_XX_STATIC_SECRET_KEY, &[1; 32]).unwrap();
    set(&mut options, CURVE_SECRET_KEY, &[2; 32]).unwrap();
    set(&mut options, CURVE_SERVER_KEY, &[3; 32]).unwrap();
    set_number(&mut options, CURVE_SERVER, 1).unwrap();
    assert_eq!(
        read(&options, PLAIN_PASSWORD),
        Err(ZmqError::PermissionDenied("PLAIN_PASSWORD is write-only".to_string()))
    );
    assert_eq!(
        read(&options, NOISE_XX_STATIC_SECRET_KEY),
        Err(ZmqError::PermissionDenied("NOISE_XX_STATIC_SECRET_KEY is write-only".to_string()))
    );
    for id in [CURVE_SERVER, CURVE_SECRET_KEY, CURVE_SERVER_KEY] {
        assert_eq!(read(&options, id), Err(ZmqError::InvalidOption(id)));
    }
    assert_eq!(options.curve_options.server_public_key, Some([3; 32]));
    assert!(options.curve_options.enabled && options.curve_options.server_role);
}

#[test]
fn refused_values_change_nothing() {
    let mut options = SocketOptions::default();
    assert_eq!(set(&mut options, SNDHWM, &[1, 2, 3]), Err(ZmqError::InvalidOptionValue(0)));
    assert_eq!(
        set(&mut options, RCVTIMEO, &[1]),
        Err(ZmqError::InvalidOptionValue(RCVTIMEO))
    );
    assert_eq!(set_number(&mut options, LINGER, -2), Err(ZmqError::InvalidOptionValue(LINGER)));
    assert_eq!(
        set_number(&mut options, TCP_KEEPALIVE, 2),
        Err(ZmqError::InvalidOptionValue(TCP_KEEPALIVE))
    );
    assert_eq!(
        set_number(&mut options, MAX_CONNECTIONS, 0),
        Err(ZmqError::InvalidOptionValue(MAX_CONNECTIONS))
    );
    assert_eq!(
        set_number(&mut options, HEARTBEAT_IVL, -1),
        Err(ZmqError::InvalidOptionValue(HEARTBEAT_IVL))
    );
    assert_eq!(
        set_number(&mut options, RECONNECT_IVL, -2),
        Err(ZmqError::InvalidOptionValue(RECONNECT_IVL))
    );
    assert_eq!(
        set_number(&mut options, RECONNECT_IVL_MAX, -1),
        Err(ZmqError::InvalidOptionValue(RECONNECT_IVL_MAX))
    );
    assert_eq!(
        set(&mut options, MAXMSGSIZE, &(-2i64).to_ne_bytes()),
        Err(ZmqError::InvalidOptionValue(MAXMSGSIZE))
    );
    assert_eq!(
        set(&mut options, ROUTING_ID, &[0; 256]),
        Err(ZmqError::InvalidOptionValue(ROUTING_ID))
    );
    assert_eq!(
        set(&mut options, ZAP_DOMAIN, &[0xff]),
        Err(ZmqError::InvalidOptionValue(ZAP_DOMAIN))
    );
    assert_eq!(
        set(&mut options, CURVE_SECRET_KEY, &[0; 31]),
        Err(ZmqError::InvalidOptionValue(CURVE_SECRET_KEY))
    );
    assert!(!options.curve_options.enabled);
    assert_eq!(options.zap_domain, None);
    assert_eq!(read_number(&options, SNDHWM), 256);
    assert_eq!(read_number(&options, LINGER), 0);
}

#[test]
fn negative_marks_and_intervals_stand_for_their_canonical_form() {
    let mut options = SocketOptions::default();
    set_number(&mut options, SNDHWM, -5).unwrap();
    assert_eq!(read_number(&options, SNDHWM), 0);
    set_number(&mut options, RECONNECT_IVL, -1).unwrap();
    assert_eq!(options.reconnect_ivl, None);
    assert_eq!(read_number(&options, RECONNECT_IVL), 0);
    set_number(&mut options, LINGER, -1).unwrap();
    assert_eq!(options.linger, None);
    assert_eq!(read_number(&options, LINGER), -1);
}

#[test]
fn pattern_options_and_unknown_ids_are_told_apart() {
    let mut options = SocketOptions::default();
    for id in [SUBSCRIBE, UNSUBSCRIBE, ROUTER_MANDATORY, AUTO_DELIMITER] {
        assert_eq!(set_number(&mut options, id, 1), Err(ZmqError::UnsupportedOption(id)));
        assert_eq!(read(&options, id), Err(ZmqError::UnsupportedOption(id)));
    }
    for id in [LAST_ENDPOINT, SOCKET_TYPE] {
        assert_eq!(set_number(&mut options, id, 1), Err(ZmqError::UnsupportedOption(id)));
    }
    assert_eq!(set_number(&mut options, 9999, 1), Err(ZmqError::InvalidOption(9999)));
    assert_eq!(read(&options, 9999), Err(ZmqError::InvalidOption(9999)));
    assert_eq!(read(&options, LAST_ENDPOINT).unwrap(), b"tcp://*:1");
    assert_eq!(read_number(&options, SOCKET_TYPE), 7);
}

#[test]
fn byte_order_of_numbers_can_be_chosen() {
    let mut options = SocketOptions::default();
    apply_core_option_value_in(ByteOrder::Big, &mut options, SNDHWM, &[0, 0, 1, 2]).unwrap();
    assert_eq!(options.sndhwm, 258);
    let little = retrieve_core_option_value_in(ByteOrder::Little, &options, &core_state(), SNDHWM);
    assert_eq!(little.unwrap(), vec![2, 1, 0, 0]);
    let big = [0xff, 0xff, 0xff, 0xff, 0xff, 0xff, 0xff, 0xff];
    apply_core_option_value_in(ByteOrder::Big, &mut options, MAXMSGSIZE, &big).unwrap();
    assert_eq!(options.maxmsgsize, -1);
}

#[test]
fn long_spans_are_capped_or_cut() {
    let mut options = SocketOptions::default();
    options.linger = Some(Duration::from_secs(10_000_000));
    assert_eq!(read_number(&options, LINGER), i32::MAX);
    options.reconnect_ivl = Some(Duration::from_millis(0x1_0000_0005));
    assert_eq!(read_number(&options, RECONNECT_IVL), 5);
    options.handshake_ivl = Some(Duration::from_millis(0x8000_0000));
    assert_eq!(read_number(&options, HANDSHAKE_IVL), i32::MIN);
}

#[test]
fn settings_of_a_connection_follow_from_the_options() {
    let mut options = SocketOptions::default();
    options.socket_type_name = "PULL".to_string();
    set(&mut options, ROUTING_ID, b"me").unwrap();
    set_number(&mut options, HANDSHAKE_IVL, 5).unwrap();
    let config = ZmtpEngineConfig::from(&options);
    assert!(!config.security_enabled && config.allow_zmtp2);
    assert_eq!(config.socket_type_name, "PULL");
    assert_eq!(config.routing_id.unwrap().to_vec(), b"me");
    assert_eq!(config.handshake_timeout, Some(Duration::from_millis(5)));
    set(&mut options, CURVE_SECRET_KEY, &[2; 32]).unwrap();
    set_number(&mut options, ZMTP2_ALLOWED, 0).unwrap();
    let config = ZmtpEngineConfig::from(&options);
    assert!(config.security_enabled && config.use_curve && !config.allow_zmtp2);
    assert_eq!(config.curve_local_secret_key, Some([2; 32]));
}
