//! Socket options and the settings that a connection derives from them.

use vstd::prelude::*;

use crate::message::{copy_identity, Blob};
use crate::time::Duration;

pub mod access;
pub mod laws;
pub mod values;

verus! {

pub const SNDHWM: i32 = 23;
pub const RCVHWM: i32 = 24;
pub const LINGER: i32 = 17;
pub const SUBSCRIBE: i32 = 6;
pub const UNSUBSCRIBE: i32 = 7;
pub const ROUTING_ID: i32 = 5;
pub const RECONNECT_IVL: i32 = 18;
pub const RECONNECT_IVL_MAX: i32 = 21;
pub const RCVTIMEO: i32 = 27;
pub const SNDTIMEO: i32 = 28;
pub const LAST_ENDPOINT: i32 = 32;
pub const TCP_KEEPALIVE: i32 = 34;
pub const TCP_KEEPALIVE_IDLE: i32 = 35;
pub const TCP_KEEPALIVE_CNT: i32 = 36;
pub const TCP_KEEPALIVE_INTVL: i32 = 37;
pub const HEARTBEAT_IVL: i32 = 38;
pub const HEARTBEAT_TIMEOUT: i32 = 39;
pub const HEARTBEAT_TTL: i32 = 40;
pub const HANDSHAKE_IVL: i32 = 41;
pub const ROUTER_MANDATORY: i32 = 33;
/// Whether ROUTER and DEALER insert and strip delimiters by themselves.
pub const AUTO_DELIMITER: i32 = 42;
/// Whether a connection may fall back to ZMTP/2.0: 1, the default, or 0.
pub const ZMTP2_ALLOWED: i32 = 1180;
pub const ZAP_DOMAIN: i32 = 55;
pub const PLAIN_SERVER: i32 = 44;
pub const PLAIN_USERNAME: i32 = 45;
pub const PLAIN_PASSWORD: i32 = 46;
pub const NOISE_XX_ENABLED: i32 = 1202;
pub const NOISE_XX_STATIC_SECRET_KEY: i32 = 1200;
pub const NOISE_XX_REMOTE_STATIC_PUBLIC_KEY: i32 = 1201;
pub const CURVE_SERVER: i32 = 47;
pub const CURVE_SECRET_KEY: i32 = 49;
pub const CURVE_SERVER_KEY: i32 = 48;
pub const MAXMSGSIZE: i32 = 22;
pub const MAX_CONNECTIONS: i32 = 1000;
pub const IO_URING_SNDZEROCOPY: i32 = 1170;
pub const IO_URING_RCVMULTISHOT: i32 = 1171;
/// Whether to cork the TCP stream while the frames of a message are sent.
pub const TCP_CORK: i32 = 1172;
pub const IO_URING_SESSION_ENABLED: i32 = 1175;
/// The type of the socket; it can be read only.
pub const SOCKET_TYPE: i32 = 16;

/// The time before the first reconnection attempt, unless set otherwise.
pub const DEFAULT_RECONNECT_IVL_MS: u64 = 1000;

/// The options of a socket.
#[derive(Debug, Clone)]
pub struct SocketOptions {
    /// How many inbound messages may wait.
    pub rcvhwm: usize,
    /// How many outbound messages may wait.
    pub sndhwm: usize,
    /// How long a receive may take; forever where there is none.
    pub rcvtimeo: Option<Duration>,
    /// How long a send may take; forever where there is none.
    pub sndtimeo: Option<Duration>,
    /// How long unsent messages are kept on close; forever where there is none.
    pub linger: Option<Duration>,
    /// The time before a reconnection attempt; no attempt where there is none.
    pub reconnect_ivl: Option<Duration>,
    /// The longest time before a reconnection attempt.
    pub reconnect_ivl_max: Option<Duration>,
    pub backlog: Option<u32>,
    /// The identity that peers know this socket by.
    pub routing_id: Option<Blob>,
    /// The type of the socket, in capitals.
    pub socket_type_name: String,
    /// -1 for off, 0 for the system's default, 1 for on.
    pub tcp_keepalive_enabled: i32,
    pub tcp_keepalive_idle: Option<Duration>,
    pub tcp_keepalive_count: Option<u32>,
    pub tcp_keepalive_interval: Option<Duration>,
    pub tcp_nodelay: bool,
    /// How many connections there may be; any number where there is none.
    pub max_connections: Option<usize>,
    /// The longest inbound frame in bytes; -1 for any length.
    pub maxmsgsize: i64,
    /// Whether a connection may fall back to ZMTP/2.0.
    pub allow_zmtp2: bool,
    /// The time without traffic after which a PING is sent; never where there is none.
    pub heartbeat_ivl: Option<Duration>,
    /// The time that a PONG may take.
    pub heartbeat_timeout: Option<Duration>,
    /// The time that a handshake may take.
    pub handshake_ivl: Option<Duration>,
    /// Whether a message to an unknown peer is an error.
    pub router_mandatory: bool,
    pub tcp_cork: bool,
    pub io_uring: IOURingSocketOptions,
    pub zap_domain: Option<String>,
    pub plain_options: PlainMechanismSocketOptions,
    pub curve_options: CurveMechanismSocketOptions,
    pub noise_xx_options: NoiseXxSocketOptions,
}

/// The options of a socket that runs on io_uring.
#[derive(Debug, Clone, Copy, PartialEq, Eq, Structural)]
pub struct IOURingSocketOptions {
    pub send_zerocopy: bool,
    pub recv_multishot: bool,
    pub session_enabled: bool,
}

/// The options of the CURVE mechanism.
#[derive(Debug, Clone, Copy)]
pub struct CurveMechanismSocketOptions {
    pub enabled: bool,
    /// Whether the socket takes the server's part.
    pub server_role: bool,
    pub secret_key: Option<[u8; 32]>,
    /// The key of the server that a client connects to.
    pub server_public_key: Option<[u8; 32]>,
}

/// The options of the Noise_XX mechanism.
#[derive(Debug, Clone, Copy)]
pub struct NoiseXxSocketOptions {
    pub enabled: bool,
    pub static_secret_key_bytes: Option<[u8; 32]>,
    pub remote_static_public_key_bytes: Option<[u8; 32]>,
}

/// The options of the PLAIN mechanism.
#[derive(Debug, Clone)]
pub struct PlainMechanismSocketOptions {
    pub enabled: bool,
    /// Whether the socket takes the server's part, where that is set.
    pub server_role: Option<bool>,
    pub username: Option<String>,
    pub password: Option<String>,
}

/// What a TCP stream is set up with.
#[derive(Debug, Clone, Copy, PartialEq, Eq)]
pub struct TcpTransportConfig {
    pub tcp_nodelay: bool,
    pub keepalive_time: Option<Duration>,
    pub keepalive_interval: Option<Duration>,
    pub keepalive_count: Option<u32>,
}

/// The options of the CURVE mechanism, with keys as sequences.
#[verifier::ext_equal]
pub struct CurveView {
    pub enabled: bool,
    pub server_role: bool,
    pub secret_key: Option<Seq<u8>>,
    pub server_public_key: Option<Seq<u8>>,
}

impl View for CurveMechanismSocketOptions {
    type V = CurveView;

    open spec fn view(&self) -> CurveView {
        CurveView {
            enabled: self.enabled,
            server_role: self.server_role,
            secret_key: crate::message::option_view(self.secret_key),
            server_public_key: crate::message::option_view(self.server_public_key),
        }
    }
}

/// The options of the Noise_XX mechanism, with keys as sequences.
#[verifier::ext_equal]
pub struct NoiseView {
    pub enabled: bool,
    pub static_secret_key_bytes: Option<Seq<u8>>,
    pub remote_static_public_key_bytes: Option<Seq<u8>>,
}

impl View for NoiseXxSocketOptions {
    type V = NoiseView;

    open spec fn view(&self) -> NoiseView {
        NoiseView {
            enabled: self.enabled,
            static_secret_key_bytes: crate::message::option_view(self.static_secret_key_bytes),
            remote_static_public_key_bytes: crate::message::option_view(
                self.remote_static_public_key_bytes,
            ),
        }
    }
}

/// The options of the PLAIN mechanism, with texts as sequences.
#[verifier::ext_equal]
pub struct PlainView {
    pub enabled: bool,
    pub server_role: Option<bool>,
    pub username: Option<Seq<char>>,
    pub password: Option<Seq<char>>,
}

impl View for PlainMechanismSocketOptions {
    type V = PlainView;

    open spec fn view(&self) -> PlainView {
        PlainView {
            enabled: self.enabled,
            server_role: self.server_role,
            username: crate::message::option_view(self.username),
            password: crate::message::option_view(self.password),
        }
    }
}

/// The options of a socket, with identities, keys and texts as sequences.
#[verifier::ext_equal]
pub struct OptionsView {
    pub rcvhwm: usize,
    pub sndhwm: usize,
    pub rcvtimeo: Option<Duration>,
    pub sndtimeo: Option<Duration>,
    pub linger: Option<Duration>,
    pub reconnect_ivl: Option<Duration>,
    pub reconnect_ivl_max: Option<Duration>,
    pub backlog: Option<u32>,
    pub routing_id: Option<Seq<u8>>,
    pub socket_type_name: Seq<char>,
    pub tcp_keepalive_enabled: i32,
    pub tcp_keepalive_idle: Option<Duration>,
    pub tcp_keepalive_count: Option<u32>,
    pub tcp_keepalive_interval: Option<Duration>,
    pub tcp_nodelay: bool,
    pub max_connections: Option<usize>,
    pub maxmsgsize: i64,
    pub allow_zmtp2: bool,
    pub heartbeat_ivl: Option<Duration>,
    pub heartbeat_timeout: Option<Duration>,
    pub handshake_ivl: Option<Duration>,
    pub router_mandatory: bool,
    pub tcp_cork: bool,
    pub io_uring: IOURingSocketOptions,
    pub zap_domain: Option<Seq<char>>,
    pub plain_options: PlainView,
    pub curve_options: CurveView,
    pub noise_xx_options: NoiseView,
}

impl View for SocketOptions {
    type V = OptionsView;

    open spec fn view(&self) -> OptionsView {
        OptionsView {
            rcvhwm: self.rcvhwm,
            sndhwm: self.sndhwm,
            rcvtimeo: self.rcvtimeo,
            sndtimeo: self.sndtimeo,
            linger: self.linger,
            reconnect_ivl: self.reconnect_ivl,
            reconnect_ivl_max: self.reconnect_ivl_max,
            backlog: self.backlog,
            routing_id: crate::message::option_view(self.routing_id),
            socket_type_name: self.socket_type_name@,
            tcp_keepalive_enabled: self.tcp_keepalive_enabled,
            tcp_keepalive_idle: self.tcp_keepalive_idle,
            tcp_keepalive_count: self.tcp_keepalive_count,
            tcp_keepalive_interval: self.tcp_keepalive_interval,
            tcp_nodelay: self.tcp_nodelay,
            max_connections: self.max_connections,
            maxmsgsize: self.maxmsgsize,
            allow_zmtp2: self.allow_zmtp2,
            heartbeat_ivl: self.heartbeat_ivl,
            heartbeat_timeout: self.heartbeat_timeout,
            handshake_ivl: self.handshake_ivl,
            router_mandatory: self.router_mandatory,
            tcp_cork: self.tcp_cork,
            io_uring: self.io_uring,
            zap_domain: crate::message::option_view(self.zap_domain),
            plain_options: self.plain_options@,
            curve_options: self.curve_options@,
            noise_xx_options: self.noise_xx_options@,
        }
    }
}

impl Default for IOURingSocketOptions {
    fn default() -> (options: Self)
        ensures
            options == (IOURingSocketOptions {
                send_zerocopy: false,
                recv_multishot: false,
                session_enabled: false,
            }),
    {
        IOURingSocketOptions { session_enabled: false, send_zerocopy: false, recv_multishot: false }
    }
}

impl Default for CurveMechanismSocketOptions {
    fn default() -> (options: Self)
        ensures
            options == (CurveMechanismSocketOptions {
                enabled: false,
                server_role: false,
                secret_key: None,
                server_public_key: None,
            }),
    {
        CurveMechanismSocketOptions {
            enabled: false,
            server_role: false,
            secret_key: None,
            server_public_key: None,
        }
    }
}

impl Default for NoiseXxSocketOptions {
    fn default() -> (options: Self)
        ensures
            options == (NoiseXxSocketOptions {
                enabled: false,
                static_secret_key_bytes: None,
                remote_static_public_key_bytes: None,
            }),
    {
        NoiseXxSocketOptions {
            enabled: false,
            static_secret_key_bytes: None,
            remote_static_public_key_bytes: None,
        }
    }
}

impl Default for PlainMechanismSocketOptions {
    fn default() -> (options: Self)
        ensures
            options == (PlainMechanismSocketOptions {
                enabled: false,
                server_role: None,
                username: None,
                password: None,
            }),
    {
        PlainMechanismSocketOptions {
            enabled: false,
            server_role: None,
            username: None,
            password: None,
        }
    }
}

impl Default for TcpTransportConfig {
    fn default() -> (config: Self)
        ensures
            config == (TcpTransportConfig {
                tcp_nodelay: false,
                keepalive_time: None,
                keepalive_interval: None,
                keepalive_count: None,
            }),
    {
        TcpTransportConfig {
            tcp_nodelay: false,
            keepalive_time: None,
            keepalive_interval: None,
            keepalive_count: None,
        }
    }
}

/// The options of a socket before any is set.
pub open spec fn default_options() -> OptionsView {
    OptionsView {
        rcvhwm: 256,
        sndhwm: 256,
        rcvtimeo: None,
        sndtimeo: None,
        linger: Some(Duration { nanos: 0 }),
        reconnect_ivl: Some(crate::time::millis(1000)),
        reconnect_ivl_max: Some(Duration { nanos: 0 }),
        backlog: None,
        routing_id: None,
        socket_type_name: "UNKNOWN"@,
        tcp_keepalive_enabled: 0,
        tcp_keepalive_idle: None,
        tcp_keepalive_count: None,
        tcp_keepalive_interval: None,
        tcp_nodelay: true,
        max_connections: Some(1024),
        maxmsgsize: (-1) as i64,
        allow_zmtp2: true,
        heartbeat_ivl: None,
        heartbeat_timeout: None,
        handshake_ivl: None,
        router_mandatory: false,
        tcp_cork: false,
        io_uring: IOURingSocketOptions {
            send_zerocopy: false,
            recv_multishot: false,
            session_enabled: false,
        },
        zap_domain: None,
        plain_options: PlainView {
            enabled: false,
            server_role: None,
            username: None,
            password: None,
        },
        curve_options: CurveView {
            enabled: false,
            server_role: false,
            secret_key: None,
            server_public_key: None,
        },
        noise_xx_options: NoiseView {
            enabled: false,
            static_secret_key_bytes: None,
            remote_static_public_key_bytes: None,
        },
    }
}

impl Default for SocketOptions {
    fn default() -> (options: Self)
        ensures
            options@ == default_options(),
    {
        SocketOptions {
            rcvhwm: 256,
            sndhwm: 256,
            rcvtimeo: None,
            sndtimeo: None,
            linger: Some(Duration { nanos: 0 }),
            reconnect_ivl: Some(Duration::from_millis(DEFAULT_RECONNECT_IVL_MS)),
            reconnect_ivl_max: Some(Duration { nanos: 0 }),
            backlog: None,
            routing_id: None,
            socket_type_name: "UNKNOWN".to_string(),
            tcp_keepalive_enabled: 0,
            tcp_keepalive_idle: None,
            tcp_keepalive_count: None,
            tcp_keepalive_interval: None,
            tcp_nodelay: true,
            max_connections: Some(1024),
            maxmsgsize: -1,
            allow_zmtp2: true,
            heartbeat_ivl: None,
            heartbeat_timeout: None,
            handshake_ivl: None,
            router_mandatory: false,
            tcp_cork: false,
            io_uring: IOURingSocketOptions::default(),
            zap_domain: None,
            plain_options: PlainMechanismSocketOptions::default(),
            noise_xx_options: NoiseXxSocketOptions::default(),
            curve_options: CurveMechanismSocketOptions::default(),
        }
    }
}

/// The settings of a connection.
#[derive(Debug, Clone, Default)]
pub struct ZmtpEngineConfig {
    /// The identity to announce.
    pub routing_id: Option<Blob>,
    /// The type of the socket, in capitals.
    pub socket_type_name: String,
    /// Whether any security mechanism is switched on.
    pub security_enabled: bool,
    pub heartbeat_ivl: Option<Duration>,
    pub heartbeat_timeout: Option<Duration>,
    pub handshake_timeout: Option<Duration>,
    pub rcvtimeo: Option<Duration>,
    pub sndtimeo: Option<Duration>,
    pub use_send_zerocopy: bool,
    pub use_recv_multishot: bool,
    pub use_cork: bool,
    pub use_noise_xx: bool,
    pub noise_xx_local_sk_bytes_for_engine: Option<[u8; 32]>,
    pub noise_xx_remote_pk_bytes_for_engine: Option<[u8; 32]>,
    pub use_curve: bool,
    pub curve_local_secret_key: Option<[u8; 32]>,
    pub curve_remote_public_key: Option<[u8; 32]>,
    pub use_plain: bool,
    pub plain_username_for_engine: Option<String>,
    pub plain_password_for_engine: Option<String>,
    /// The longest inbound frame in bytes; -1 for any length.
    pub max_msg_size: i64,
    /// Whether the connection may fall back to ZMTP/2.0.
    pub allow_zmtp2: bool,
}

/// The settings of a connection, with identities, keys and texts as sequences.
#[verifier::ext_equal]
pub struct ConfigView {
    pub routing_id: Option<Seq<u8>>,
    pub socket_type_name: Seq<char>,
    pub security_enabled: bool,
    pub heartbeat_ivl: Option<Duration>,
    pub heartbeat_timeout: Option<Duration>,
    pub handshake_timeout: Option<Duration>,
    pub rcvtimeo: Option<Duration>,
    pub sndtimeo: Option<Duration>,
    pub use_send_zerocopy: bool,
    pub use_recv_multishot: bool,
    pub use_cork: bool,
    pub use_noise_xx: bool,
    pub noise_xx_local_sk_bytes_for_engine: Option<Seq<u8>>,
    pub noise_xx_remote_pk_bytes_for_engine: Option<Seq<u8>>,
    pub use_curve: bool,
    pub curve_local_secret_key: Option<Seq<u8>>,
    pub curve_remote_public_key: Option<Seq<u8>>,
    pub use_plain: bool,
    pub plain_username_for_engine: Option<Seq<char>>,
    pub plain_password_for_engine: Option<Seq<char>>,
    pub max_msg_size: i64,
    pub allow_zmtp2: bool,
}

impl View for ZmtpEngineConfig {
    type V = ConfigView;

    open spec fn view(&self) -> ConfigView {
        ConfigView {
            routing_id: crate::message::option_view(self.routing_id),
            socket_type_name: self.socket_type_name@,
            security_enabled: self.security_enabled,
            heartbeat_ivl: self.heartbeat_ivl,
            heartbeat_timeout: self.heartbeat_timeout,
            handshake_timeout: self.handshake_timeout,
            rcvtimeo: self.rcvtimeo,
            sndtimeo: self.sndtimeo,
            use_send_zerocopy: self.use_send_zerocopy,
            use_recv_multishot: self.use_recv_multishot,
            use_cork: self.use_cork,
            use_noise_xx: self.use_noise_xx,
            noise_xx_local_sk_bytes_for_engine: crate::message::option_view(
                self.noise_xx_local_sk_bytes_for_engine,
            ),
            noise_xx_remote_pk_bytes_for_engine: crate::message::option_view(
                self.noise_xx_remote_pk_bytes_for_engine,
            ),
            use_curve: self.use_curve,
            curve_local_secret_key: crate::message::option_view(self.curve_local_secret_key),
            curve_remote_public_key: crate::message::option_view(self.curve_remote_public_key),
            use_plain: self.use_plain,
            plain_username_for_engine: crate::message::option_view(self.plain_username_for_engine),
            plain_password_for_engine: crate::message::option_view(self.plain_password_for_engine),
            max_msg_size: self.max_msg_size,
            allow_zmtp2: self.allow_zmtp2,
        }
    }
}

/// The settings that follow from the options.
pub open spec fn config_of(options: OptionsView) -> ConfigView {
    ConfigView {
        routing_id: options.routing_id,
        socket_type_name: options.socket_type_name,
        security_enabled: options.plain_options.enabled || options.noise_xx_options.enabled
            || options.curve_options.enabled,
        heartbeat_ivl: options.heartbeat_ivl,
        heartbeat_timeout: options.heartbeat_timeout,
        handshake_timeout: options.handshake_ivl,
        rcvtimeo: options.rcvtimeo,
        sndtimeo: options.sndtimeo,
        use_send_zerocopy: options.io_uring.send_zerocopy,
        use_recv_multishot: options.io_uring.recv_multishot,
        use_cork: options.tcp_cork,
        use_noise_xx: options.noise_xx_options.enabled,
        noise_xx_local_sk_bytes_for_engine: options.noise_xx_options.static_secret_key_bytes,
        noise_xx_remote_pk_bytes_for_engine:
            options.noise_xx_options.remote_static_public_key_bytes,
        use_curve: options.curve_options.enabled,
        curve_local_secret_key: options.curve_options.secret_key,
        curve_remote_public_key: options.curve_options.server_public_key,
        use_plain: options.plain_options.enabled,
        plain_username_for_engine: options.plain_options.username,
        plain_password_for_engine: options.plain_options.password,
        max_msg_size: options.maxmsgsize,
        allow_zmtp2: options.allow_zmtp2,
    }
}

fn copy_text(text: &Option<String>) -> (copy: Option<String>)
    ensures
        copy == *text,
{
    match text {
        Some(text) => Some(text.clone()),
        None => None,
    }
}

impl<'a> From<&'a SocketOptions> for ZmtpEngineConfig {
    /// The settings that follow from the options.
    fn from(options: &'a SocketOptions) -> (config: Self)
        ensures
            config@ == config_of(options@),
    {
        let security_enabled = options.plain_options.enabled || options.noise_xx_options.enabled
            || options.curve_options.enabled;
        ZmtpEngineConfig {
            routing_id: copy_identity(&options.routing_id),
            socket_type_name: options.socket_type_name.clone(),
            security_enabled,
            heartbeat_ivl: options.heartbeat_ivl,
            heartbeat_timeout: options.heartbeat_timeout,
            handshake_timeout: options.handshake_ivl,
            rcvtimeo: options.rcvtimeo,
            sndtimeo: options.sndtimeo,
            use_send_zerocopy: options.io_uring.send_zerocopy,
            use_recv_multishot: options.io_uring.recv_multishot,
            use_cork: options.tcp_cork,
            use_noise_xx: options.noise_xx_options.enabled,
            noise_xx_local_sk_bytes_for_engine: options.noise_xx_options.static_secret_key_bytes,
            noise_xx_remote_pk_bytes_for_engine:
                options.noise_xx_options.remote_static_public_key_bytes,
            use_curve: options.curve_options.enabled,
            curve_local_secret_key: options.curve_options.secret_key,
            curve_remote_public_key: options.curve_options.server_public_key,
            use_plain: options.plain_options.enabled,
            plain_username_for_engine: copy_text(&options.plain_options.username),
            plain_password_for_engine: copy_text(&options.plain_options.password),
            max_msg_size: options.maxmsgsize,
            allow_zmtp2: options.allow_zmtp2,
        }
    }
}

impl<'a> vstd::std_specs::convert::FromSpecImpl<&'a SocketOptions> for ZmtpEngineConfig {
    open spec fn obeys_from_spec() -> bool {
        false
    }

    open spec fn from_spec(options: &'a SocketOptions) -> ZmtpEngineConfig {
        arbitrary()
    }
}

} // verus!
