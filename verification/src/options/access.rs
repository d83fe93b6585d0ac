//! Setting and reading the options of a socket by their ids.

use vstd::prelude::*;

use crate::byte_order::{truncate_i32, ByteOrder};
use crate::error::{ErrorView, ZmqError};
use crate::options::values::{
    parse_blob_option, parse_bool_option, parse_handshake_option, parse_heartbeat_option,
    parse_i32_option, parse_keepalive_mode_option, parse_key_option, parse_linger_option,
    parse_max_connections_option, parse_maxmsgsize_option, parse_reconnect_ivl_max_option,
    parse_reconnect_ivl_option, parse_secs_duration_option, parse_string_option,
    parse_timeout_option, parse_u32_option,
};
use crate::options::{
    CurveView, IOURingSocketOptions, NoiseView, OptionsView, PlainView, SocketOptions,
    AUTO_DELIMITER, CURVE_SECRET_KEY, CURVE_SERVER, CURVE_SERVER_KEY, HANDSHAKE_IVL,
    HEARTBEAT_IVL, HEARTBEAT_TIMEOUT, IO_URING_RCVMULTISHOT, IO_URING_SESSION_ENABLED,
    IO_URING_SNDZEROCOPY, LAST_ENDPOINT, LINGER, MAXMSGSIZE, MAX_CONNECTIONS, NOISE_XX_ENABLED,
    NOISE_XX_REMOTE_STATIC_PUBLIC_KEY, NOISE_XX_STATIC_SECRET_KEY, PLAIN_PASSWORD, PLAIN_SERVER,
    PLAIN_USERNAME, RCVHWM, RCVTIMEO, RECONNECT_IVL, RECONNECT_IVL_MAX, ROUTER_MANDATORY,
    ROUTING_ID, SNDHWM, SNDTIMEO, SOCKET_TYPE, SUBSCRIBE, TCP_CORK, TCP_KEEPALIVE,
    TCP_KEEPALIVE_CNT, TCP_KEEPALIVE_IDLE, TCP_KEEPALIVE_INTVL, UNSUBSCRIBE, ZAP_DOMAIN,
    ZMTP2_ALLOWED,
};
use crate::time::Duration;

verus! {

/// What a socket knows of itself besides its options.
#[derive(Debug, Clone)]
pub struct CoreState {
    /// The endpoint that the socket was last bound to.
    pub last_bound_endpoint: Option<String>,
    /// The number of the type of the socket.
    pub socket_type: i32,
}

/// Whether the option with this id is left to the pattern of the socket, or can
/// only be read.
pub open spec fn not_settable(option_id: i32) -> bool {
    ||| option_id == SUBSCRIBE
    ||| option_id == UNSUBSCRIBE
    ||| option_id == LAST_ENDPOINT
    ||| option_id == ROUTER_MANDATORY
    ||| option_id == AUTO_DELIMITER
    ||| option_id == SOCKET_TYPE
}

/// A count that is 0 where the integer is negative.
pub open spec fn high_water_mark(n: i32) -> usize {
    if n >= 0 {
        n as usize
    } else {
        0
    }
}

/// [`applied`] for the options of queues, identities and message limits; none for any other.
pub open spec fn queue_option_applied(
    order: ByteOrder,
    before: OptionsView,
    option_id: i32,
    value: Seq<u8>,
) -> Option<Result<OptionsView, ErrorView>> {
    if option_id == SNDHWM {
        Some(
            match crate::options::values::integer(order, value, 0) {
                Ok(n) => Ok(OptionsView { sndhwm: high_water_mark(n), ..before }),
                Err(error) => Err(error),
            },
        )
    } else if option_id == RCVHWM {
        Some(
            match crate::options::values::integer(order, value, 0) {
                Ok(n) => Ok(OptionsView { rcvhwm: high_water_mark(n), ..before }),
                Err(error) => Err(error),
            },
        )
    } else if option_id == LINGER {
        Some(
            match crate::options::values::limit_ms(order, value, 0, LINGER) {
                Ok(linger) => Ok(OptionsView { linger, ..before }),
                Err(error) => Err(error),
            },
        )
    } else if option_id == RCVTIMEO {
        Some(
            match crate::options::values::limit_ms(order, value, RCVTIMEO, RCVTIMEO) {
                Ok(rcvtimeo) => Ok(OptionsView { rcvtimeo, ..before }),
                Err(error) => Err(error),
            },
        )
    } else if option_id == SNDTIMEO {
        Some(
            match crate::options::values::limit_ms(order, value, SNDTIMEO, SNDTIMEO) {
                Ok(sndtimeo) => Ok(OptionsView { sndtimeo, ..before }),
                Err(error) => Err(error),
            },
        )
    } else if option_id == ROUTING_ID {
        Some(
            match crate::options::values::identity(value) {
                Ok(id) => Ok(OptionsView { routing_id: Some(id), ..before }),
                Err(error) => Err(error),
            },
        )
    } else if option_id == MAXMSGSIZE {
        Some(
            match crate::options::values::message_limit(order, value) {
                Ok(maxmsgsize) => Ok(OptionsView { maxmsgsize, ..before }),
                Err(error) => Err(error),
            },
        )
    } else {
        None
    }
}

/// [`applied`] for the options of connections and heartbeats; none for any other.
pub open spec fn connection_option_applied(
    order: ByteOrder,
    before: OptionsView,
    option_id: i32,
    value: Seq<u8>,
) -> Option<Result<OptionsView, ErrorView>> {
    if option_id == RECONNECT_IVL {
        Some(
            match crate::options::values::reconnect_ms(order, value) {
                Ok(reconnect_ivl) => Ok(OptionsView { reconnect_ivl, ..before }),
                Err(error) => Err(error),
            },
        )
    } else if option_id == RECONNECT_IVL_MAX {
        Some(
            match crate::options::values::reconnect_max_ms(order, value) {
                Ok(reconnect_ivl_max) => Ok(OptionsView { reconnect_ivl_max, ..before }),
                Err(error) => Err(error),
            },
        )
    } else if option_id == MAX_CONNECTIONS {
        Some(
            match crate::options::values::connection_limit(order, value, MAX_CONNECTIONS) {
                Ok(max_connections) => Ok(OptionsView { max_connections, ..before }),
                Err(error) => Err(error),
            },
        )
    } else if option_id == HEARTBEAT_IVL {
        Some(
            match crate::options::values::interval_ms(order, value, HEARTBEAT_IVL) {
                Ok(heartbeat_ivl) => Ok(OptionsView { heartbeat_ivl, ..before }),
                Err(error) => Err(error),
            },
        )
    } else if option_id == HEARTBEAT_TIMEOUT {
        Some(
            match crate::options::values::interval_ms(order, value, HEARTBEAT_TIMEOUT) {
                Ok(heartbeat_timeout) => Ok(OptionsView { heartbeat_timeout, ..before }),
                Err(error) => Err(error),
            },
        )
    } else if option_id == HANDSHAKE_IVL {
        Some(
            match crate::options::values::interval_ms(order, value, HANDSHAKE_IVL) {
                Ok(handshake_ivl) => Ok(OptionsView { handshake_ivl, ..before }),
                Err(error) => Err(error),
            },
        )
    } else if option_id == ZMTP2_ALLOWED {
        Some(
            match crate::options::values::flag(order, value) {
                Ok(allow_zmtp2) => Ok(OptionsView { allow_zmtp2, ..before }),
                Err(error) => Err(error),
            },
        )
    } else {
        None
    }
}

/// [`applied`] for the options of the transport; none for any other.
pub open spec fn transport_option_applied(
    order: ByteOrder,
    before: OptionsView,
    option_id: i32,
    value: Seq<u8>,
) -> Option<Result<OptionsView, ErrorView>> {
    if option_id == TCP_KEEPALIVE {
        Some(
            match crate::options::values::keepalive_mode(order, value) {
                Ok(tcp_keepalive_enabled) => Ok(OptionsView { tcp_keepalive_enabled, ..before }),
                Err(error) => Err(error),
            },
        )
    } else if option_id == TCP_KEEPALIVE_IDLE {
        Some(
            match crate::options::values::count_secs(order, value) {
                Ok(tcp_keepalive_idle) => Ok(OptionsView { tcp_keepalive_idle, ..before }),
                Err(error) => Err(error),
            },
        )
    } else if option_id == TCP_KEEPALIVE_CNT {
        Some(
            match crate::options::values::count(order, value) {
                Ok(tcp_keepalive_count) => Ok(OptionsView { tcp_keepalive_count, ..before }),
                Err(error) => Err(error),
            },
        )
    } else if option_id == TCP_KEEPALIVE_INTVL {
        Some(
            match crate::options::values::count_secs(order, value) {
                Ok(tcp_keepalive_interval) => Ok(OptionsView { tcp_keepalive_interval, ..before }),
                Err(error) => Err(error),
            },
        )
    } else if option_id == TCP_CORK {
        Some(
            match crate::options::values::flag(order, value) {
                Ok(tcp_cork) => Ok(OptionsView { tcp_cork, ..before }),
                Err(error) => Err(error),
            },
        )
    } else if option_id == IO_URING_SESSION_ENABLED {
        Some(
            match crate::options::values::flag(order, value) {
                Ok(yes) => Ok(
                    OptionsView {
                        io_uring: IOURingSocketOptions { session_enabled: yes, ..before.io_uring },
                        ..before
                    },
                ),
                Err(error) => Err(error),
            },
        )
    } else if option_id == IO_URING_SNDZEROCOPY {
        Some(
            match crate::options::values::flag(order, value) {
                Ok(yes) => Ok(
                    OptionsView {
                        io_uring: IOURingSocketOptions { send_zerocopy: yes, ..before.io_uring },
                        ..before
                    },
                ),
                Err(error) => Err(error),
            },
        )
    } else if option_id == IO_URING_RCVMULTISHOT {
        Some(
            match crate::options::values::flag(order, value) {
                Ok(yes) => Ok(
                    OptionsView {
                        io_uring: IOURingSocketOptions { recv_multishot: yes, ..before.io_uring },
                        ..before
                    },
                ),
                Err(error) => Err(error),
            },
        )
    } else {
        None
    }
}

/// [`applied`] for the options of authentication domains and the PLAIN mechanism; none
/// for any other.
pub open spec fn plain_option_applied(
    order: ByteOrder,
    before: OptionsView,
    option_id: i32,
    value: Seq<u8>,
) -> Option<Result<OptionsView, ErrorView>> {
    if option_id == ZAP_DOMAIN {
        Some(
            match crate::options::values::text(value, ZAP_DOMAIN) {
                Ok(domain) => Ok(OptionsView { zap_domain: Some(domain), ..before }),
                Err(error) => Err(error),
            },
        )
    } else if option_id == PLAIN_SERVER {
        Some(
            match crate::options::values::flag(order, value) {
                Ok(yes) => Ok(
                    OptionsView {
                        plain_options: PlainView {
                            server_role: Some(yes),
                            enabled: true,
                            ..before.plain_options
                        },
                        ..before
                    },
                ),
                Err(error) => Err(error),
            },
        )
    } else if option_id == PLAIN_USERNAME {
        Some(
            match crate::options::values::text(value, PLAIN_USERNAME) {
                Ok(name) => Ok(
                    OptionsView {
                        plain_options: PlainView {
                            username: Some(name),
                            enabled: true,
                            ..before.plain_options
                        },
                        ..before
                    },
                ),
                Err(error) => Err(error),
            },
        )
    } else if option_id == PLAIN_PASSWORD {
        Some(
            match crate::options::values::text(value, PLAIN_PASSWORD) {
                Ok(word) => Ok(
                    OptionsView {
                        plain_options: PlainView {
                            password: Some(word),
                            enabled: true,
                            ..before.plain_options
                        },
                        ..before
                    },
                ),
                Err(error) => Err(error),
            },
        )
    } else {
        None
    }
}

/// [`applied`] for the options of the mechanisms with keys; none for any other.
pub open spec fn key_option_applied(
    order: ByteOrder,
    before: OptionsView,
    option_id: i32,
    value: Seq<u8>,
) -> Option<Result<OptionsView, ErrorView>> {
    if option_id == CURVE_SERVER {
        Some(
            match crate::options::values::flag(order, value) {
                Ok(yes) => Ok(
                    OptionsView {
                        curve_options: CurveView {
                            server_role: yes,
                            enabled: true,
                            ..before.curve_options
                        },
                        ..before
                    },
                ),
                Err(error) => Err(error),
            },
        )
    } else if option_id == CURVE_SECRET_KEY {
        Some(
            match crate::options::values::key(value, 32, CURVE_SECRET_KEY) {
                Ok(key) => Ok(
                    OptionsView {
                        curve_options: CurveView {
                            secret_key: Some(key),
                            enabled: true,
                            ..before.curve_options
                        },
                        ..before
                    },
                ),
                Err(error) => Err(error),
            },
        )
    } else if option_id == CURVE_SERVER_KEY {
        Some(
            match crate::options::values::key(value, 32, CURVE_SERVER_KEY) {
                Ok(key) => Ok(
                    OptionsView {
                        curve_options: CurveView {
                            server_public_key: Some(key),
                            enabled: true,
                            ..before.curve_options
                        },
                        ..before
                    },
                ),
                Err(error) => Err(error),
            },
        )
    } else if option_id == NOISE_XX_ENABLED {
        Some(
            match crate::options::values::flag(order, value) {
                Ok(yes) => Ok(
                    OptionsView {
                        noise_xx_options: NoiseView { enabled: yes, ..before.noise_xx_options },
                        ..before
                    },
                ),
                Err(error) => Err(error),
            },
        )
    } else if option_id == NOISE_XX_STATIC_SECRET_KEY {
        Some(
            match crate::options::values::key(value, 32, NOISE_XX_STATIC_SECRET_KEY) {
                Ok(key) => Ok(
                    OptionsView {
                        noise_xx_options: NoiseView {
                            static_secret_key_bytes: Some(key),
                            ..before.noise_xx_options
                        },
                        ..before
                    },
                ),
                Err(error) => Err(error),
            },
        )
    } else if option_id == NOISE_XX_REMOTE_STATIC_PUBLIC_KEY {
        Some(
            match crate::options::values::key(value, 32, NOISE_XX_REMOTE_STATIC_PUBLIC_KEY) {
                Ok(key) => Ok(
                    OptionsView {
                        noise_xx_options: NoiseView {
                            remote_static_public_key_bytes: Some(key),
                            ..before.noise_xx_options
                        },
                        ..before
                    },
                ),
                Err(error) => Err(error),
            },
        )
    } else {
        None
    }
}

/// The options once the one with this id is set to `value`, whose integers have
/// their bytes in `order`.
pub open spec fn applied(
    order: ByteOrder,
    before: OptionsView,
    option_id: i32,
    value: Seq<u8>,
) -> Result<OptionsView, ErrorView> {
    if let Some(after) = queue_option_applied(order, before, option_id, value) {
        after
    } else if let Some(after) = connection_option_applied(order, before, option_id, value) {
        after
    } else if let Some(after) = transport_option_applied(order, before, option_id, value) {
        after
    } else if let Some(after) = plain_option_applied(order, before, option_id, value) {
        after
    } else if let Some(after) = key_option_applied(order, before, option_id, value) {
        after
    } else if not_settable(option_id) {
        Err(ErrorView::UnsupportedOption(option_id))
    } else {
        Err(ErrorView::InvalidOption(option_id))
    }
}

/// Sets the option with this id to `value`.
///
/// Integers are read in the byte order of the machine.  An error leaves all the
/// options as they were.
pub fn apply_core_option_value(
    options: &mut SocketOptions,
    option_id: i32,
    value: &[u8],
) -> (done: Result<(), ZmqError>)
    ensures
        exists|order: ByteOrder|
            crate::byte_order::is_native(order) && #[trigger] option_set(
                order,
                old(options)@,
                option_id,
                value@,
                final(options)@,
                done,
            ),
{
    let order = ByteOrder::native();
    let done = apply_core_option_value_in(order, options, option_id, value);
    assert(option_set(order, old(options)@, option_id, value@, options@, done));
    done
}

/// Whether `done` and `after` are what setting an option returns and leaves.
pub open spec fn option_set(
    order: ByteOrder,
    before: OptionsView,
    option_id: i32,
    value: Seq<u8>,
    after: OptionsView,
    done: Result<(), ZmqError>,
) -> bool {
    match applied(order, before, option_id, value) {
        Ok(options) => done is Ok && after == options,
        Err(error) => done matches Err(e) && e@ == error && after == before,
    }
}

/// Sets the option with this id to `value`, whose integers have their bytes in
/// `order`.
pub fn apply_core_option_value_in(
    order: ByteOrder,
    options: &mut SocketOptions,
    option_id: i32,
    value: &[u8],
) -> (done: Result<(), ZmqError>)
    ensures
        option_set(order, old(options)@, option_id, value@, final(options)@, done),
{
    match option_id {
        SNDHWM => match parse_i32_option(order, value) {
            Ok(v) => {
                options.sndhwm = if v >= 0 {
                    v as usize
                } else {
                    0
                };
            },
            Err(error) => return Err(error),
        },
        RCVHWM => match parse_i32_option(order, value) {
            Ok(v) => {
                options.rcvhwm = if v >= 0 {
                    v as usize
                } else {
                    0
                };
            },
            Err(error) => return Err(error),
        },
        LINGER => match parse_linger_option(order, value) {
            Ok(v) => {
                options.linger = v;
            },
            Err(error) => return Err(error),
        },
        RECONNECT_IVL => match parse_reconnect_ivl_option(order, value) {
            Ok(v) => {
                options.reconnect_ivl = v;
            },
            Err(error) => return Err(error),
        },
        RECONNECT_IVL_MAX => match parse_reconnect_ivl_max_option(order, value) {
            Ok(v) => {
                options.reconnect_ivl_max = v;
            },
            Err(error) => return Err(error),
        },
        RCVTIMEO => match parse_timeout_option(order, value, RCVTIMEO) {
            Ok(v) => {
                options.rcvtimeo = v;
            },
            Err(error) => return Err(error),
        },
        SNDTIMEO => match parse_timeout_option(order, value, SNDTIMEO) {
            Ok(v) => {
                options.sndtimeo = v;
            },
            Err(error) => return Err(error),
        },
        TCP_KEEPALIVE => match parse_keepalive_mode_option(order, value) {
            Ok(v) => {
                options.tcp_keepalive_enabled = v;
            },
            Err(error) => return Err(error),
        },
        TCP_KEEPALIVE_IDLE => match parse_secs_duration_option(order, value) {
            Ok(v) => {
                options.tcp_keepalive_idle = v;
            },
            Err(error) => return Err(error),
        },
        TCP_KEEPALIVE_CNT => match parse_u32_option(order, value) {
            Ok(v) => {
                options.tcp_keepalive_count = v;
            },
            Err(error) => return Err(error),
        },
        TCP_KEEPALIVE_INTVL => match parse_secs_duration_option(order, value) {
            Ok(v) => {
                options.tcp_keepalive_interval = v;
            },
            Err(error) => return Err(error),
        },
        HEARTBEAT_IVL => match parse_heartbeat_option(order, value, HEARTBEAT_IVL) {
            Ok(v) => {
                options.heartbeat_ivl = v;
            },
            Err(error) => return Err(error),
        },
        HEARTBEAT_TIMEOUT => match parse_heartbeat_option(order, value, HEARTBEAT_TIMEOUT) {
            Ok(v) => {
                options.heartbeat_timeout = v;
            },
            Err(error) => return Err(error),
        },
        HANDSHAKE_IVL => match parse_handshake_option(order, value, HANDSHAKE_IVL) {
            Ok(v) => {
                options.handshake_ivl = v;
            },
            Err(error) => return Err(error),
        },
        MAXMSGSIZE => match parse_maxmsgsize_option(order, value) {
            Ok(v) => {
                options.maxmsgsize = v;
            },
            Err(error) => return Err(error),
        },
        MAX_CONNECTIONS => match parse_max_connections_option(order, value, MAX_CONNECTIONS) {
            Ok(v) => {
                options.max_connections = v;
            },
            Err(error) => return Err(error),
        },
        TCP_CORK => match parse_bool_option(order, value) {
            Ok(v) => {
                options.tcp_cork = v;
            },
            Err(error) => return Err(error),
        },
        ZMTP2_ALLOWED => match parse_bool_option(order, value) {
            Ok(v) => {
                options.allow_zmtp2 = v;
            },
            Err(error) => return Err(error),
        },
        ROUTING_ID => match parse_blob_option(value) {
            Ok(v) => {
                options.routing_id = Some(v);
            },
            Err(error) => return Err(error),
        },
        ZAP_DOMAIN => match parse_string_option(value, option_id) {
            Ok(v) => {
                options.zap_domain = Some(v);
            },
            Err(error) => return Err(error),
        },
        PLAIN_SERVER => match parse_bool_option(order, value) {
            Ok(v) => {
                options.plain_options.server_role = Some(v);
                options.plain_options.enabled = true;
            },
            Err(error) => return Err(error),
        },
        PLAIN_USERNAME => match parse_string_option(value, option_id) {
            Ok(v) => {
                options.plain_options.username = Some(v);
                options.plain_options.enabled = true;
            },
            Err(error) => return Err(error),
        },
        PLAIN_PASSWORD => match parse_string_option(value, option_id) {
            Ok(v) => {
                options.plain_options.password = Some(v);
                options.plain_options.enabled = true;
            },
            Err(error) => return Err(error),
        },
        CURVE_SERVER => match parse_bool_option(order, value) {
            Ok(v) => {
                options.curve_options.server_role = v;
                options.curve_options.enabled = true;
            },
            Err(error) => return Err(error),
        },
        CURVE_SECRET_KEY => match parse_key_option::<32>(value, option_id) {
            Ok(v) => {
                options.curve_options.secret_key = Some(v);
                options.curve_options.enabled = true;
            },
            Err(error) => return Err(error),
        },
        CURVE_SERVER_KEY => match parse_key_option::<32>(value, option_id) {
            Ok(v) => {
                options.curve_options.server_public_key = Some(v);
                options.curve_options.enabled = true;
            },
            Err(error) => return Err(error),
        },
        NOISE_XX_ENABLED => match parse_bool_option(order, value) {
            Ok(v) => {
                options.noise_xx_options.enabled = v;
            },
            Err(error) => return Err(error),
        },
        NOISE_XX_STATIC_SECRET_KEY => match parse_key_option::<32>(value, option_id) {
            Ok(v) => {
                options.noise_xx_options.static_secret_key_bytes = Some(v);
            },
            Err(error) => return Err(error),
        },
        NOISE_XX_REMOTE_STATIC_PUBLIC_KEY => match parse_key_option::<32>(value, option_id) {
            Ok(v) => {
                options.noise_xx_options.remote_static_public_key_bytes = Some(v);
            },
            Err(error) => return Err(error),
        },
        IO_URING_SESSION_ENABLED => match parse_bool_option(order, value) {
            Ok(v) => {
                options.io_uring.session_enabled = v;
            },
            Err(error) => return Err(error),
        },
        IO_URING_SNDZEROCOPY => match parse_bool_option(order, value) {
            Ok(v) => {
                options.io_uring.send_zerocopy = v;
            },
            Err(error) => return Err(error),
        },
        IO_URING_RCVMULTISHOT => match parse_bool_option(order, value) {
            Ok(v) => {
                options.io_uring.recv_multishot = v;
            },
            Err(error) => return Err(error),
        },
        SUBSCRIBE | UNSUBSCRIBE | LAST_ENDPOINT | ROUTER_MANDATORY | AUTO_DELIMITER | SOCKET_TYPE =>
            return Err(ZmqError::UnsupportedOption(option_id)),
        _ => return Err(ZmqError::InvalidOption(option_id)),
    }
    Ok(())
}

/// What a socket knows of itself, with texts as sequences.
pub struct CoreView {
    pub last_bound_endpoint: Option<Seq<char>>,
    pub socket_type: i32,
}

impl View for CoreState {
    type V = CoreView;

    open spec fn view(&self) -> CoreView {
        CoreView {
            last_bound_endpoint: crate::message::option_view(self.last_bound_endpoint),
            socket_type: self.socket_type,
        }
    }
}

/// A span in milliseconds, in the low 32 bits; `none` where there is no span.
pub open spec fn span_ms(span: Option<Duration>, none: i32) -> i32 {
    match span {
        Some(span) => crate::byte_order::low_i32(
            (span.nanos / crate::time::NANOS_PER_MILLI) as int,
        ),
        None => none,
    }
}

/// A span in milliseconds, or the largest integer where that is less; -1 where
/// there is no span.
pub open spec fn capped_ms(span: Option<Duration>) -> i32 {
    match span {
        Some(span) => if span.nanos / crate::time::NANOS_PER_MILLI <= i32::MAX {
            (span.nanos / crate::time::NANOS_PER_MILLI) as i32
        } else {
            i32::MAX
        },
        None => (-1) as i32,
    }
}

/// A span in seconds, in the low 32 bits; 0 where there is no span.
pub open spec fn span_secs(span: Option<Duration>) -> i32 {
    match span {
        Some(span) => crate::byte_order::low_i32((span.nanos / crate::time::NANOS_PER_SEC) as int),
        None => 0,
    }
}

/// 1 for yes, 0 for no.
pub open spec fn flag_number(yes: bool) -> i32 {
    if yes {
        1
    } else {
        0
    }
}

/// The value of an option that may not be set.
pub open spec fn if_set(value: Option<Seq<u8>>, otherwise: Seq<char>) -> Result<
    Seq<u8>,
    ErrorView,
> {
    match value {
        Some(value) => Ok(value),
        None => Err(ErrorView::Internal(otherwise)),
    }
}

/// A text as UTF-8, where there is one.
pub open spec fn text_bytes(text: Option<Seq<char>>) -> Option<Seq<u8>> {
    match text {
        Some(text) => Some(vstd::utf8::encode_utf8(text)),
        None => None,
    }
}

/// The integer that the option with this id is read as, where it is read as a
/// 32-bit integer whatever the options are.
pub open spec fn number_read(options: OptionsView, core: CoreView, option_id: i32) -> Option<i32> {
    if option_id == SNDHWM {
        Some(crate::byte_order::low_i32(options.sndhwm as int))
    } else if option_id == RCVHWM {
        Some(crate::byte_order::low_i32(options.rcvhwm as int))
    } else if option_id == LINGER {
        Some(capped_ms(options.linger))
    } else if option_id == RECONNECT_IVL {
        Some(span_ms(options.reconnect_ivl, 0))
    } else if option_id == RECONNECT_IVL_MAX {
        Some(span_ms(options.reconnect_ivl_max, 0))
    } else if option_id == RCVTIMEO {
        Some(capped_ms(options.rcvtimeo))
    } else if option_id == SNDTIMEO {
        Some(capped_ms(options.sndtimeo))
    } else if option_id == TCP_KEEPALIVE {
        Some(options.tcp_keepalive_enabled)
    } else if option_id == TCP_KEEPALIVE_IDLE {
        Some(span_secs(options.tcp_keepalive_idle))
    } else if option_id == TCP_KEEPALIVE_CNT {
        Some(match options.tcp_keepalive_count {
                Some(n) => crate::byte_order::low_i32(n as int),
                None => 0,
            })
    } else if option_id == TCP_KEEPALIVE_INTVL {
        Some(span_secs(options.tcp_keepalive_interval))
    } else if option_id == HEARTBEAT_IVL {
        Some(span_ms(options.heartbeat_ivl, 0))
    } else if option_id == HEARTBEAT_TIMEOUT {
        Some(span_ms(options.heartbeat_timeout, 0))
    } else if option_id == HANDSHAKE_IVL {
        Some(span_ms(options.handshake_ivl, 0))
    } else if option_id == MAX_CONNECTIONS {
        Some(match options.max_connections {
                Some(n) => crate::byte_order::low_i32(n as int),
                None => (-1) as i32,
            })
    } else if option_id == TCP_CORK {
        Some(flag_number(options.tcp_cork))
    } else if option_id == ZMTP2_ALLOWED {
        Some(flag_number(options.allow_zmtp2))
    } else if option_id == NOISE_XX_ENABLED {
        Some(flag_number(options.noise_xx_options.enabled))
    } else if option_id == IO_URING_SESSION_ENABLED {
        Some(flag_number(options.io_uring.session_enabled))
    } else if option_id == IO_URING_SNDZEROCOPY {
        Some(flag_number(options.io_uring.send_zerocopy))
    } else if option_id == IO_URING_RCVMULTISHOT {
        Some(flag_number(options.io_uring.recv_multishot))
    } else if option_id == SOCKET_TYPE {
        Some(core.socket_type)
    } else {
        None
    }
}

/// The value that the option with this id is read as, with the bytes of its
/// integers in `order`.
pub open spec fn retrieved(
    order: ByteOrder,
    options: OptionsView,
    core: CoreView,
    option_id: i32,
) -> Result<Seq<u8>, ErrorView> {
    if let Some(n) = number_read(options, core, option_id) {
        Ok(crate::byte_order::i32_bytes(order, n))
    } else if option_id == MAXMSGSIZE {
        Ok(crate::byte_order::i64_bytes(order, options.maxmsgsize))
    } else if option_id == ROUTING_ID {
        if_set(options.routing_id, "Option ROUTING_ID not set"@)
    } else if option_id == LAST_ENDPOINT {
        match text_bytes(core.last_bound_endpoint) {
            Some(endpoint) => Ok(endpoint),
            None => Ok(Seq::empty()),
        }
    } else if option_id == ZAP_DOMAIN {
        if_set(text_bytes(options.zap_domain), "Option ZAP_DOMAIN not set"@)
    } else if option_id == PLAIN_SERVER {
        match options.plain_options.server_role {
            Some(yes) => Ok(crate::byte_order::i32_bytes(order, flag_number(yes))),
            None => Err(ErrorView::Internal("Option PLAIN_SERVER not set"@)),
        }
    } else if option_id == PLAIN_USERNAME {
        if_set(text_bytes(options.plain_options.username), "Option PLAIN_USERNAME not set"@)
    } else if option_id == PLAIN_PASSWORD {
        Err(ErrorView::PermissionDenied("PLAIN_PASSWORD is write-only"@))
    } else if option_id == NOISE_XX_STATIC_SECRET_KEY {
        Err(ErrorView::PermissionDenied("NOISE_XX_STATIC_SECRET_KEY is write-only"@))
    } else if option_id == NOISE_XX_REMOTE_STATIC_PUBLIC_KEY {
        if_set(
            options.noise_xx_options.remote_static_public_key_bytes,
            "Option NOISE_XX_REMOTE_STATIC_PUBLIC_KEY not set"@,
        )
    } else if option_id == SUBSCRIBE || option_id == UNSUBSCRIBE || option_id == ROUTER_MANDATORY
        || option_id == AUTO_DELIMITER {
        Err(ErrorView::UnsupportedOption(option_id))
    } else {
        Err(ErrorView::InvalidOption(option_id))
    }
}

/// Reads the option with this id.
///
/// Integers are written in the byte order of the machine.
pub fn retrieve_core_option_value(
    options: &SocketOptions,
    core_s_reader: &CoreState,
    option_id: i32,
) -> (value: Result<Vec<u8>, ZmqError>)
    ensures
        exists|order: ByteOrder|
            crate::byte_order::is_native(order) && crate::options::values::value_view(value)
                == #[trigger] retrieved(order, options@, core_s_reader@, option_id),
{
    retrieve_core_option_value_in(ByteOrder::native(), options, core_s_reader, option_id)
}

fn read_span_ms(span: Option<Duration>, none: i32) -> (n: i32)
    ensures
        n == span_ms(span, none),
{
    match span {
        Some(span) => truncate_i32(span.as_millis()),
        None => none,
    }
}

fn read_capped_ms(span: Option<Duration>) -> (n: i32)
    ensures
        n == capped_ms(span),
{
    match span {
        Some(span) => {
            let count: u128 = span.as_millis();
            if count <= i32::MAX as u128 {
                count as i32
            } else {
                i32::MAX
            }
        },
        None => -1,
    }
}

fn read_span_secs(span: Option<Duration>) -> (n: i32)
    ensures
        n == span_secs(span),
{
    match span {
        Some(span) => truncate_i32(span.as_secs()),
        None => 0,
    }
}

fn read_flag(yes: bool) -> (n: i32)
    ensures
        n == flag_number(yes),
{
    if yes {
        1
    } else {
        0
    }
}

fn read_text(text: &Option<String>, otherwise: &str) -> (value: Result<Vec<u8>, ZmqError>)
    ensures
        crate::options::values::value_view(value) == if_set(
            text_bytes(crate::message::option_view(*text)),
            otherwise@,
        ),
{
    match text {
        Some(text) => Ok(vstd::slice::slice_to_vec(text.as_str().as_bytes())),
        None => Err(ZmqError::Internal(otherwise.to_string())),
    }
}

/// Reads the option with this id, with the bytes of integers in `order`.
pub fn retrieve_core_option_value_in(
    order: ByteOrder,
    options: &SocketOptions,
    core_s_reader: &CoreState,
    option_id: i32,
) -> (value: Result<Vec<u8>, ZmqError>)
    ensures
        crate::options::values::value_view(value) == retrieved(
            order,
            options@,
            core_s_reader@,
            option_id,
        ),
{
    match option_id {
        SNDHWM => Ok(order.write_i32(truncate_i32(options.sndhwm as u128))),
        RCVHWM => Ok(order.write_i32(truncate_i32(options.rcvhwm as u128))),
        LINGER => Ok(order.write_i32(read_capped_ms(options.linger))),
        RECONNECT_IVL => Ok(order.write_i32(read_span_ms(options.reconnect_ivl, 0))),
        RECONNECT_IVL_MAX => Ok(order.write_i32(read_span_ms(options.reconnect_ivl_max, 0))),
        RCVTIMEO => Ok(order.write_i32(read_capped_ms(options.rcvtimeo))),
        SNDTIMEO => Ok(order.write_i32(read_capped_ms(options.sndtimeo))),
        TCP_KEEPALIVE => Ok(order.write_i32(options.tcp_keepalive_enabled)),
        TCP_KEEPALIVE_IDLE => Ok(order.write_i32(read_span_secs(options.tcp_keepalive_idle))),
        TCP_KEEPALIVE_CNT => Ok(
            order.write_i32(
                match options.tcp_keepalive_count {
                    Some(n) => truncate_i32(n as u128),
                    None => 0,
                },
            ),
        ),
        TCP_KEEPALIVE_INTVL => Ok(order.write_i32(read_span_secs(options.tcp_keepalive_interval))),
        HEARTBEAT_IVL => Ok(order.write_i32(read_span_ms(options.heartbeat_ivl, 0))),
        HEARTBEAT_TIMEOUT => Ok(order.write_i32(read_span_ms(options.heartbeat_timeout, 0))),
        HANDSHAKE_IVL => Ok(order.write_i32(read_span_ms(options.handshake_ivl, 0))),
        MAX_CONNECTIONS => Ok(
            order.write_i32(
                match options.max_connections {
                    Some(n) => truncate_i32(n as u128),
                    None => -1,
                },
            ),
        ),
        TCP_CORK => Ok(order.write_i32(read_flag(options.tcp_cork))),
        ZMTP2_ALLOWED => Ok(order.write_i32(read_flag(options.allow_zmtp2))),
        NOISE_XX_ENABLED => Ok(order.write_i32(read_flag(options.noise_xx_options.enabled))),
        IO_URING_SESSION_ENABLED => Ok(
            order.write_i32(read_flag(options.io_uring.session_enabled)),
        ),
        IO_URING_SNDZEROCOPY => Ok(order.write_i32(read_flag(options.io_uring.send_zerocopy))),
        IO_URING_RCVMULTISHOT => Ok(order.write_i32(read_flag(options.io_uring.recv_multishot))),
        SOCKET_TYPE => Ok(order.write_i32(core_s_reader.socket_type)),
        MAXMSGSIZE => Ok(order.write_i64(options.maxmsgsize)),
        ROUTING_ID => match &options.routing_id {
            Some(identity) => Ok(identity.to_vec()),
            None => Err(ZmqError::Internal("Option ROUTING_ID not set".to_string())),
        },
        LAST_ENDPOINT => match &core_s_reader.last_bound_endpoint {
            Some(endpoint) => Ok(vstd::slice::slice_to_vec(endpoint.as_str().as_bytes())),
            None => Ok(Vec::new()),
        },
        ZAP_DOMAIN => read_text(&options.zap_domain, "Option ZAP_DOMAIN not set"),
        PLAIN_SERVER => match options.plain_options.server_role {
            Some(yes) => Ok(order.write_i32(read_flag(yes))),
            None => Err(ZmqError::Internal("Option PLAIN_SERVER not set".to_string())),
        },
        PLAIN_USERNAME => read_text(
            &options.plain_options.username,
            "Option PLAIN_USERNAME not set",
        ),
        PLAIN_PASSWORD => Err(
            ZmqError::PermissionDenied("PLAIN_PASSWORD is write-only".to_string()),
        ),
        NOISE_XX_STATIC_SECRET_KEY => Err(
            ZmqError::PermissionDenied("NOISE_XX_STATIC_SECRET_KEY is write-only".to_string()),
        ),
        NOISE_XX_REMOTE_STATIC_PUBLIC_KEY =>
            match &options.noise_xx_options.remote_static_public_key_bytes {
            Some(key) => Ok(vstd::slice::slice_to_vec(key.as_slice())),
            None => Err(
                ZmqError::Internal("Option NOISE_XX_REMOTE_STATIC_PUBLIC_KEY not set".to_string()),
            ),
        },
        SUBSCRIBE | UNSUBSCRIBE | ROUTER_MANDATORY | AUTO_DELIMITER => Err(
            ZmqError::UnsupportedOption(option_id),
        ),
        _ => Err(ZmqError::InvalidOption(option_id)),
    }
}

} // verus!
