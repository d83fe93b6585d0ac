//! What setting and reading options promise together.

use vstd::prelude::*;

use crate::byte_order::ByteOrder;
use crate::options::access::CoreView;
use crate::options::{
    OptionsView, CURVE_SECRET_KEY, CURVE_SERVER, CURVE_SERVER_KEY, HANDSHAKE_IVL, HEARTBEAT_IVL,
    HEARTBEAT_TIMEOUT, IO_URING_RCVMULTISHOT, IO_URING_SESSION_ENABLED, IO_URING_SNDZEROCOPY,
    LINGER, MAXMSGSIZE, MAX_CONNECTIONS, NOISE_XX_ENABLED, NOISE_XX_REMOTE_STATIC_PUBLIC_KEY,
    NOISE_XX_STATIC_SECRET_KEY, PLAIN_PASSWORD, PLAIN_SERVER, PLAIN_USERNAME, RCVHWM, RCVTIMEO,
    RECONNECT_IVL, RECONNECT_IVL_MAX, ROUTING_ID, SNDHWM, SNDTIMEO, TCP_CORK, TCP_KEEPALIVE,
    TCP_KEEPALIVE_CNT, TCP_KEEPALIVE_IDLE, TCP_KEEPALIVE_INTVL, ZAP_DOMAIN, ZMTP2_ALLOWED,
};
use crate::time::Duration;

verus! {

/// Whether the option with this id can be set but never read.
pub open spec fn write_only(option_id: i32) -> bool {
    ||| option_id == PLAIN_PASSWORD
    ||| option_id == NOISE_XX_STATIC_SECRET_KEY
    ||| option_id == CURVE_SERVER
    ||| option_id == CURVE_SECRET_KEY
    ||| option_id == CURVE_SERVER_KEY
}

/// Whether the option with this id is a flag.
pub open spec fn is_flag(option_id: i32) -> bool {
    ||| option_id == TCP_CORK
    ||| option_id == ZMTP2_ALLOWED
    ||| option_id == PLAIN_SERVER
    ||| option_id == NOISE_XX_ENABLED
    ||| option_id == IO_URING_SESSION_ENABLED
    ||| option_id == IO_URING_SNDZEROCOPY
    ||| option_id == IO_URING_RCVMULTISHOT
}

/// Whether `value` is the form in which the option is read back.  The others that
/// an option takes stand for one of these: a negative high-water mark for 0, a
/// number other than 1 for a flag that is off, -1 for no reconnection.
pub open spec fn canonical(order: ByteOrder, option_id: i32, value: Seq<u8>) -> bool {
    let n = crate::byte_order::i32_of(order, value);
    &&& option_id == SNDHWM || option_id == RCVHWM ==> n >= 0
    &&& is_flag(option_id) ==> n == 0 || n == 1
    &&& option_id == RECONNECT_IVL ==> n != -1
}

proof fn lemma_low_i32(n: int)
    requires
        0 <= n <= i32::MAX,
    ensures
        crate::byte_order::low_i32(n) == n,
{
}

proof fn lemma_millis_read_back(n: i32)
    requires
        n >= 0,
    ensures
        crate::time::millis(n as int).nanos / crate::time::NANOS_PER_MILLI == n,
        crate::time::seconds(n as int).nanos / crate::time::NANOS_PER_SEC == n,
        crate::byte_order::low_i32(n as int) == n,
{
    lemma_low_i32(n as int);
    assert(crate::time::millis(n as int).nanos == n * 1_000_000);
    assert(crate::time::seconds(n as int).nanos == n * 1_000_000_000);
}

/// An option that can be read is read back as it was set, where the value has the
/// form in which the option is read.
#[verifier::rlimit(60)]
pub proof fn law_option_read_back(
    order: ByteOrder,
    before: OptionsView,
    after: OptionsView,
    core: CoreView,
    option_id: i32,
    value: Seq<u8>,
)
    requires
        crate::options::access::applied(order, before, option_id, value) == Ok::<
            OptionsView,
            crate::error::ErrorView,
        >(after),
        !write_only(option_id),
        canonical(order, option_id, value),
    ensures
        crate::options::access::retrieved(order, after, core, option_id) == Ok::<
            Seq<u8>,
            crate::error::ErrorView,
        >(value),
{
    if value.len() == 4 {
        crate::byte_order::law_i32_write_back(order, value);
        let n = crate::byte_order::i32_of(order, value);
        if n >= 0 {
            lemma_millis_read_back(n);
        }
    }
    if option_id == MAXMSGSIZE {
        crate::byte_order::law_i64_write_back(order, value);
    }
    if vstd::utf8::valid_utf8(value) {
        vstd::utf8::decode_utf8_encode_utf8(value);
    }
    if crate::options::access::queue_option_applied(order, before, option_id, value) is Some {
    } else if crate::options::access::connection_option_applied(
        order,
        before,
        option_id,
        value,
    ) is Some {
    } else if crate::options::access::transport_option_applied(
        order,
        before,
        option_id,
        value,
    ) is Some {
    } else if crate::options::access::plain_option_applied(
        order,
        before,
        option_id,
        value,
    ) is Some {
    }
}

/// Whether two sets of options agree on all that can be read, but for the option
/// with this id.
spec fn agree_but_for(option_id: i32, before: OptionsView, after: OptionsView) -> bool {
    &&& option_id != SNDHWM ==> after.sndhwm == before.sndhwm
    &&& option_id != RCVHWM ==> after.rcvhwm == before.rcvhwm
    &&& option_id != LINGER ==> after.linger == before.linger
    &&& option_id != RECONNECT_IVL ==> after.reconnect_ivl == before.reconnect_ivl
    &&& option_id != RECONNECT_IVL_MAX ==> after.reconnect_ivl_max == before.reconnect_ivl_max
    &&& option_id != RCVTIMEO ==> after.rcvtimeo == before.rcvtimeo
    &&& option_id != SNDTIMEO ==> after.sndtimeo == before.sndtimeo
    &&& option_id != TCP_KEEPALIVE ==> after.tcp_keepalive_enabled == before.tcp_keepalive_enabled
    &&& option_id != TCP_KEEPALIVE_IDLE ==> after.tcp_keepalive_idle == before.tcp_keepalive_idle
    &&& option_id != TCP_KEEPALIVE_CNT ==> after.tcp_keepalive_count == before.tcp_keepalive_count
    &&& option_id != TCP_KEEPALIVE_INTVL ==> after.tcp_keepalive_interval
        == before.tcp_keepalive_interval
    &&& option_id != HEARTBEAT_IVL ==> after.heartbeat_ivl == before.heartbeat_ivl
    &&& option_id != HEARTBEAT_TIMEOUT ==> after.heartbeat_timeout == before.heartbeat_timeout
    &&& option_id != HANDSHAKE_IVL ==> after.handshake_ivl == before.handshake_ivl
    &&& option_id != MAXMSGSIZE ==> after.maxmsgsize == before.maxmsgsize
    &&& option_id != MAX_CONNECTIONS ==> after.max_connections == before.max_connections
    &&& option_id != TCP_CORK ==> after.tcp_cork == before.tcp_cork
    &&& option_id != ZMTP2_ALLOWED ==> after.allow_zmtp2 == before.allow_zmtp2
    &&& option_id != ROUTING_ID ==> after.routing_id == before.routing_id
    &&& option_id != ZAP_DOMAIN ==> after.zap_domain == before.zap_domain
    &&& option_id != PLAIN_SERVER ==> after.plain_options.server_role
        == before.plain_options.server_role
    &&& option_id != PLAIN_USERNAME ==> after.plain_options.username
        == before.plain_options.username
    &&& option_id != NOISE_XX_ENABLED ==> after.noise_xx_options.enabled
        == before.noise_xx_options.enabled
    &&& option_id != NOISE_XX_REMOTE_STATIC_PUBLIC_KEY ==> after.noise_xx_options.remote_static_public_key_bytes
        == before.noise_xx_options.remote_static_public_key_bytes
    &&& option_id != IO_URING_SESSION_ENABLED ==> after.io_uring.session_enabled
        == before.io_uring.session_enabled
    &&& option_id != IO_URING_SNDZEROCOPY ==> after.io_uring.send_zerocopy
        == before.io_uring.send_zerocopy
    &&& option_id != IO_URING_RCVMULTISHOT ==> after.io_uring.recv_multishot
        == before.io_uring.recv_multishot
}

#[verifier::rlimit(60)]
proof fn lemma_one_option_changes(
    order: ByteOrder,
    before: OptionsView,
    after: OptionsView,
    option_id: i32,
    value: Seq<u8>,
)
    requires
        crate::options::access::applied(order, before, option_id, value) == Ok::<
            OptionsView,
            crate::error::ErrorView,
        >(after),
    ensures
        agree_but_for(option_id, before, after),
{
    if crate::options::access::queue_option_applied(order, before, option_id, value) is Some {
    } else if crate::options::access::connection_option_applied(
        order,
        before,
        option_id,
        value,
    ) is Some {
    } else if crate::options::access::transport_option_applied(
        order,
        before,
        option_id,
        value,
    ) is Some {
    } else if crate::options::access::plain_option_applied(
        order,
        before,
        option_id,
        value,
    ) is Some {
    }
}

proof fn lemma_agreeing_options_read_alike(
    order: ByteOrder,
    before: OptionsView,
    after: OptionsView,
    core: CoreView,
    option_id: i32,
    other: i32,
)
    requires
        agree_but_for(option_id, before, after),
        other != option_id,
    ensures
        crate::options::access::retrieved(order, after, core, other)
            == crate::options::access::retrieved(order, before, core, other),
{
}

/// Setting one option leaves what every other option is read as.
pub proof fn law_other_options_unchanged(
    order: ByteOrder,
    before: OptionsView,
    after: OptionsView,
    core: CoreView,
    option_id: i32,
    value: Seq<u8>,
    other: i32,
    read_order: ByteOrder,
)
    requires
        crate::options::access::applied(order, before, option_id, value) == Ok::<
            OptionsView,
            crate::error::ErrorView,
        >(after),
        other != option_id,
    ensures
        crate::options::access::retrieved(read_order, after, core, other)
            == crate::options::access::retrieved(read_order, before, core, other),
{
    lemma_one_option_changes(order, before, after, option_id, value);
    lemma_agreeing_options_read_alike(read_order, before, after, core, option_id, other);
}

/// A secret that was set cannot be read: the option is refused whatever the
/// options are, and setting it changes nothing that any option is read as.
pub proof fn law_write_only_options_stay_hidden(
    order: ByteOrder,
    before: OptionsView,
    after: OptionsView,
    core: CoreView,
    option_id: i32,
    value: Seq<u8>,
    read: i32,
    read_order: ByteOrder,
)
    requires
        write_only(option_id),
        crate::options::access::applied(order, before, option_id, value) == Ok::<
            OptionsView,
            crate::error::ErrorView,
        >(after),
    ensures
        crate::options::access::retrieved(read_order, after, core, option_id) is Err,
        crate::options::access::retrieved(read_order, after, core, read)
            == crate::options::access::retrieved(read_order, before, core, read),
{
}

/// Setting an option of the PLAIN or of the CURVE mechanism switches the mechanism on.
pub proof fn law_mechanism_options_switch_it_on(
    order: ByteOrder,
    before: OptionsView,
    after: OptionsView,
    option_id: i32,
    value: Seq<u8>,
)
    requires
        crate::options::access::applied(order, before, option_id, value) == Ok::<
            OptionsView,
            crate::error::ErrorView,
        >(after),
    ensures
        option_id == PLAIN_SERVER || option_id == PLAIN_USERNAME || option_id == PLAIN_PASSWORD
            ==> after.plain_options.enabled && crate::options::config_of(after).security_enabled,
        option_id == CURVE_SERVER || option_id == CURVE_SECRET_KEY || option_id == CURVE_SERVER_KEY
            ==> after.curve_options.enabled && crate::options::config_of(after).security_enabled,
{
}

/// Whether a span is none or at least a millisecond.
pub open spec fn off_or_positive(span: Option<Duration>) -> bool {
    span matches Some(span) ==> span.nanos >= crate::time::NANOS_PER_MILLI
}

/// Whether a key has the length of a key, where there is one.
pub open spec fn absent_or_key(key: Option<Seq<u8>>) -> bool {
    key matches Some(key) ==> key.len() == 32
}

/// Whether every option has a value that it can be set to.
pub open spec fn in_bounds(options: OptionsView) -> bool {
    &&& -1 <= options.tcp_keepalive_enabled <= 1
    &&& options.maxmsgsize >= -1
    &&& options.max_connections matches Some(n) ==> n >= 1
    &&& options.routing_id matches Some(id) ==> id.len() <= 255
    &&& off_or_positive(options.reconnect_ivl)
    &&& off_or_positive(options.heartbeat_ivl)
    &&& off_or_positive(options.heartbeat_timeout)
    &&& off_or_positive(options.handshake_ivl)
    &&& absent_or_key(options.curve_options.secret_key)
    &&& absent_or_key(options.curve_options.server_public_key)
    &&& absent_or_key(options.noise_xx_options.static_secret_key_bytes)
    &&& absent_or_key(options.noise_xx_options.remote_static_public_key_bytes)
}

/// The options start in bounds, and setting one keeps them there.
#[verifier::rlimit(60)]
pub proof fn law_options_stay_in_bounds(
    order: ByteOrder,
    before: OptionsView,
    option_id: i32,
    value: Seq<u8>,
)
    requires
        in_bounds(before),
    ensures
        in_bounds(crate::options::default_options()),
        crate::options::access::applied(order, before, option_id, value) matches Ok(after)
            ==> in_bounds(after),
{
    if crate::options::access::queue_option_applied(order, before, option_id, value) is Some {
    } else if crate::options::access::connection_option_applied(
        order,
        before,
        option_id,
        value,
    ) is Some {
    } else if crate::options::access::transport_option_applied(
        order,
        before,
        option_id,
        value,
    ) is Some {
    } else if crate::options::access::plain_option_applied(
        order,
        before,
        option_id,
        value,
    ) is Some {
    }
}

/// A secret that was set is the one that connections use: it is stored as it was given,
/// and the settings of a connection hold it.
pub proof fn law_secrets_reach_the_connection(
    order: ByteOrder,
    before: OptionsView,
    after: OptionsView,
    option_id: i32,
    value: Seq<u8>,
)
    requires
        crate::options::access::applied(order, before, option_id, value) == Ok::<
            OptionsView,
            crate::error::ErrorView,
        >(after),
    ensures
        ({
            let settings = crate::options::config_of(after);
            &&& option_id == 46 ==> {
                &&& after.plain_options.password matches Some(word)
                &&& vstd::utf8::encode_utf8(word) == value
                &&& settings.plain_password_for_engine == Some(word)
                &&& after.plain_options.username == before.plain_options.username
                &&& after.plain_options.server_role == before.plain_options.server_role
                &&& settings.use_plain
            }
            &&& option_id == 45 ==> {
                &&& after.plain_options.username matches Some(name)
                &&& vstd::utf8::encode_utf8(name) == value
                &&& settings.plain_username_for_engine == Some(name)
                &&& after.plain_options.password == before.plain_options.password
                &&& settings.use_plain
            }
            &&& option_id == 47 ==> {
                &&& after.curve_options.server_role == (crate::byte_order::i32_of(order, value)
                    == 1)
                &&& after.curve_options.secret_key == before.curve_options.secret_key
                &&& after.curve_options.server_public_key == before.curve_options.server_public_key
                &&& settings.use_curve
            }
            &&& option_id == 49 ==> {
                &&& value.len() == 32
                &&& after.curve_options.secret_key == Some(value)
                &&& settings.curve_local_secret_key == Some(value)
                &&& after.curve_options.server_public_key == before.curve_options.server_public_key
                &&& after.curve_options.server_role == before.curve_options.server_role
                &&& settings.use_curve
            }
            &&& option_id == 48 ==> {
                &&& value.len() == 32
                &&& after.curve_options.server_public_key == Some(value)
                &&& settings.curve_remote_public_key == Some(value)
                &&& after.curve_options.secret_key == before.curve_options.secret_key
                &&& after.curve_options.server_role == before.curve_options.server_role
                &&& settings.use_curve
            }
            &&& option_id == 1200 ==> {
                &&& value.len() == 32
                &&& after.noise_xx_options.static_secret_key_bytes == Some(value)
                &&& settings.noise_xx_local_sk_bytes_for_engine == Some(value)
                &&& after.noise_xx_options.enabled == before.noise_xx_options.enabled
            }
            &&& option_id == 1201 ==> {
                &&& value.len() == 32
                &&& after.noise_xx_options.remote_static_public_key_bytes == Some(value)
                &&& settings.noise_xx_remote_pk_bytes_for_engine == Some(value)
                &&& after.noise_xx_options.static_secret_key_bytes
                    == before.noise_xx_options.static_secret_key_bytes
                &&& after.noise_xx_options.enabled == before.noise_xx_options.enabled
            }
        }),
{
    if vstd::utf8::valid_utf8(value) {
        vstd::utf8::decode_utf8_encode_utf8(value);
    }
}

/// No secret changes but by its own option.
pub proof fn law_secrets_stay(
    order: ByteOrder,
    before: OptionsView,
    after: OptionsView,
    option_id: i32,
    value: Seq<u8>,
)
    requires
        crate::options::access::applied(order, before, option_id, value) == Ok::<
            OptionsView,
            crate::error::ErrorView,
        >(after),
    ensures
        option_id != 46 ==> after.plain_options.password == before.plain_options.password,
        option_id != 47 ==> after.curve_options.server_role == before.curve_options.server_role,
        option_id != 49 ==> after.curve_options.secret_key == before.curve_options.secret_key,
        option_id != 48 ==> after.curve_options.server_public_key
            == before.curve_options.server_public_key,
        option_id != 1200 ==> after.noise_xx_options.static_secret_key_bytes
            == before.noise_xx_options.static_secret_key_bytes,
        option_id != 44 && option_id != 45 && option_id != 46 ==> after.plain_options.enabled
            == before.plain_options.enabled,
        option_id != 47 && option_id != 48 && option_id != 49 ==> after.curve_options.enabled
            == before.curve_options.enabled,
        after.socket_type_name == before.socket_type_name,
        after.tcp_nodelay == before.tcp_nodelay,
        after.backlog == before.backlog,
        after.router_mandatory == before.router_mandatory,
{
    lemma_one_option_changes(order, before, after, option_id, value);
}

/// The ids of the options.
pub proof fn law_option_ids()
    ensures
        ROUTING_ID == 5 && LINGER == 17 && RECONNECT_IVL == 18 && RECONNECT_IVL_MAX == 21,
        MAXMSGSIZE == 22 && SNDHWM == 23 && RCVHWM == 24 && RCVTIMEO == 27 && SNDTIMEO == 28,
        TCP_KEEPALIVE == 34 && TCP_KEEPALIVE_IDLE == 35 && TCP_KEEPALIVE_CNT == 36,
        TCP_KEEPALIVE_INTVL == 37 && HEARTBEAT_IVL == 38 && HEARTBEAT_TIMEOUT == 39,
        HANDSHAKE_IVL == 41 && PLAIN_SERVER == 44 && PLAIN_USERNAME == 45 && PLAIN_PASSWORD == 46,
        CURVE_SERVER == 47 && CURVE_SERVER_KEY == 48 && CURVE_SECRET_KEY == 49 && ZAP_DOMAIN == 55,
        MAX_CONNECTIONS == 1000 && IO_URING_SNDZEROCOPY == 1170 && IO_URING_RCVMULTISHOT == 1171,
        TCP_CORK == 1172 && IO_URING_SESSION_ENABLED == 1175 && ZMTP2_ALLOWED == 1180,
        NOISE_XX_STATIC_SECRET_KEY == 1200 && NOISE_XX_REMOTE_STATIC_PUBLIC_KEY == 1201,
        NOISE_XX_ENABLED == 1202,
{
}

/// A span that stands for a count of milliseconds, or for none where the count is `off`.
pub open spec fn is_millis(span: Option<Duration>, count: int, off: int) -> bool {
    if count == off {
        span is None
    } else {
        span matches Some(span) && span.nanos == count * 1_000_000
    }
}

/// Where the value of an option that is a number is stored, and as what.
#[verifier::rlimit(60)]
pub proof fn law_numbers_are_stored(
    order: ByteOrder,
    before: OptionsView,
    after: OptionsView,
    option_id: i32,
    value: Seq<u8>,
)
    requires
        crate::options::access::applied(order, before, option_id, value) == Ok::<
            OptionsView,
            crate::error::ErrorView,
        >(after),
    ensures
        ({
            let n = crate::byte_order::i32_of(order, value) as int;
            let mark = if n > 0 {
                n
            } else {
                0
            };
            &&& option_id == 23 ==> after.sndhwm == mark
            &&& option_id == 24 ==> after.rcvhwm == mark
            &&& option_id == 17 ==> n >= -1 && is_millis(after.linger, n, -1)
            &&& option_id == 27 ==> n >= -1 && is_millis(after.rcvtimeo, n, -1)
            &&& option_id == 28 ==> n >= -1 && is_millis(after.sndtimeo, n, -1)
            &&& option_id == 18 ==> n >= -1 && (n != -1 ==> is_millis(after.reconnect_ivl, n, 0))
                && (n == -1 ==> after.reconnect_ivl is None)
            &&& option_id == 21 ==> n >= 0 && is_millis(after.reconnect_ivl_max, n, -1)
            &&& option_id == 38 ==> n >= 0 && is_millis(after.heartbeat_ivl, n, 0)
            &&& option_id == 39 ==> n >= 0 && is_millis(after.heartbeat_timeout, n, 0)
            &&& option_id == 41 ==> n >= 0 && is_millis(after.handshake_ivl, n, 0)
            &&& option_id == 34 ==> -1 <= n <= 1 && after.tcp_keepalive_enabled == n
            &&& option_id == 35 ==> n >= 0 && (after.tcp_keepalive_idle matches Some(span)
                && span.nanos == n * 1_000_000_000)
            &&& option_id == 37 ==> n >= 0 && (after.tcp_keepalive_interval matches Some(span)
                && span.nanos == n * 1_000_000_000)
            &&& option_id == 36 ==> (after.tcp_keepalive_count matches Some(count) && count == n)
            &&& option_id == 1000 ==> if n == -1 {
                after.max_connections is None
            } else {
                n >= 1 && (after.max_connections matches Some(count) && count == n)
            }
            &&& option_id == 22 ==> after.maxmsgsize == crate::byte_order::i64_of(order, value)
                && after.maxmsgsize >= -1
            &&& option_id == 1172 ==> after.tcp_cork == (n == 1)
            &&& option_id == 1180 ==> after.allow_zmtp2 == (n == 1)
            &&& option_id == 44 ==> after.plain_options.server_role == Some(n == 1)
            &&& option_id == 1202 ==> after.noise_xx_options.enabled == (n == 1)
            &&& option_id == 1175 ==> after.io_uring.session_enabled == (n == 1)
            &&& option_id == 1170 ==> after.io_uring.send_zerocopy == (n == 1)
            &&& option_id == 1171 ==> after.io_uring.recv_multishot == (n == 1)
            &&& option_id == 5 ==> after.routing_id == Some(value) && value.len() <= 255
            &&& option_id == 55 ==> (after.zap_domain matches Some(domain)
                && vstd::utf8::encode_utf8(domain) == value)
            &&& option_id != 5 && option_id != 55 && option_id != 45 && option_id != 46 && option_id
                != 48 && option_id != 49 && option_id != 1200 && option_id != 1201 && option_id
                != 22 ==> value.len() == 4
            &&& option_id == 22 ==> value.len() == 8
        }),
{
    if vstd::utf8::valid_utf8(value) {
        vstd::utf8::decode_utf8_encode_utf8(value);
    }
    if crate::options::access::queue_option_applied(order, before, option_id, value) is Some {
    } else if crate::options::access::connection_option_applied(
        order,
        before,
        option_id,
        value,
    ) is Some {
    } else if crate::options::access::transport_option_applied(
        order,
        before,
        option_id,
        value,
    ) is Some {
    } else if crate::options::access::plain_option_applied(
        order,
        before,
        option_id,
        value,
    ) is Some {
    }
}

/// Which values the options refuse.
#[verifier::rlimit(60)]
pub proof fn law_which_values_are_taken(
    order: ByteOrder,
    before: OptionsView,
    option_id: i32,
    value: Seq<u8>,
)
    ensures
        ({
            let n = crate::byte_order::i32_of(order, value);
            let taken = crate::options::access::applied(order, before, option_id, value) is Ok;
            &&& option_id == 23 || option_id == 24 || option_id == 1172 || option_id == 1180
                || option_id == 44 || option_id == 47 || option_id == 1202 || option_id == 1175
                || option_id == 1170 || option_id == 1171 ==> taken == (value.len() == 4)
            &&& option_id == 17 || option_id == 27 || option_id == 28 || option_id == 18 ==> taken
                == (value.len() == 4 && n >= -1)
            &&& option_id == 21 || option_id == 35 || option_id == 36 || option_id == 37
                || option_id == 38 || option_id == 39 || option_id == 41 ==> taken == (value.len()
                == 4 && n >= 0)
            &&& option_id == 34 ==> taken == (value.len() == 4 && -1 <= n <= 1)
            &&& option_id == 1000 ==> taken == (value.len() == 4 && (n == -1 || n >= 1))
            &&& option_id == 22 ==> taken == (value.len() == 8 && crate::byte_order::i64_of(
                order,
                value,
            ) >= -1)
            &&& option_id == 5 ==> taken == (value.len() <= 255)
            &&& option_id == 45 || option_id == 46 || option_id == 55 ==> taken
                == vstd::utf8::valid_utf8(value)
            &&& option_id == 48 || option_id == 49 || option_id == 1200 || option_id == 1201
                ==> taken == (value.len() == 32)
            &&& option_id == 6 || option_id == 7 || option_id == 16 || option_id == 32 || option_id
                == 33 || option_id == 42 ==> crate::options::access::applied(
                order,
                before,
                option_id,
                value,
            ) == Err::<OptionsView, crate::error::ErrorView>(
                crate::error::ErrorView::UnsupportedOption(option_id),
            )
        }),
{
}

/// The settings of a connection are those of the options.
pub proof fn law_settings_follow_the_options(options: OptionsView)
    ensures
        ({
            let settings = crate::options::config_of(options);
            &&& settings.routing_id == options.routing_id
            &&& settings.socket_type_name == options.socket_type_name
            &&& settings.heartbeat_ivl == options.heartbeat_ivl
            &&& settings.heartbeat_timeout == options.heartbeat_timeout
            &&& settings.handshake_timeout == options.handshake_ivl
            &&& settings.rcvtimeo == options.rcvtimeo
            &&& settings.sndtimeo == options.sndtimeo
            &&& settings.use_send_zerocopy == options.io_uring.send_zerocopy
            &&& settings.use_recv_multishot == options.io_uring.recv_multishot
            &&& settings.use_cork == options.tcp_cork
            &&& settings.use_noise_xx == options.noise_xx_options.enabled
            &&& settings.noise_xx_local_sk_bytes_for_engine
                == options.noise_xx_options.static_secret_key_bytes
            &&& settings.noise_xx_remote_pk_bytes_for_engine
                == options.noise_xx_options.remote_static_public_key_bytes
            &&& settings.use_curve == options.curve_options.enabled
            &&& settings.curve_local_secret_key == options.curve_options.secret_key
            &&& settings.curve_remote_public_key == options.curve_options.server_public_key
            &&& settings.use_plain == options.plain_options.enabled
            &&& settings.plain_username_for_engine == options.plain_options.username
            &&& settings.plain_password_for_engine == options.plain_options.password
            &&& settings.max_msg_size == options.maxmsgsize
            &&& settings.allow_zmtp2 == options.allow_zmtp2
            &&& settings.security_enabled <==> settings.use_plain || settings.use_curve
                || settings.use_noise_xx
        }),
{
}

/// What a socket is like before any option is set: it may fall back to ZMTP/2.0, queues 256
/// messages each way, waits for ever, reconnects after a second, keeps nothing when it is
/// closed, and uses no security.
pub proof fn law_defaults()
    ensures
        ({
            let options = crate::options::default_options();
            &&& options.allow_zmtp2
            &&& options.sndhwm == 256 && options.rcvhwm == 256
            &&& options.sndtimeo is None && options.rcvtimeo is None
            &&& options.linger == Some(Duration { nanos: 0 })
            &&& options.reconnect_ivl == Some(Duration { nanos: 1_000_000_000 })
            &&& options.reconnect_ivl_max == Some(Duration { nanos: 0 })
            &&& options.max_connections == Some(1024usize)
            &&& options.maxmsgsize == -1
            &&& options.tcp_nodelay && !options.tcp_cork
            &&& options.tcp_keepalive_enabled == 0
            &&& options.heartbeat_ivl is None && options.heartbeat_timeout is None
            &&& options.handshake_ivl is None
            &&& options.routing_id is None && options.zap_domain is None
            &&& !options.router_mandatory
            &&& !options.io_uring.session_enabled && !options.io_uring.send_zerocopy
                && !options.io_uring.recv_multishot
            &&& !crate::options::config_of(options).security_enabled
        }),
{
}

} // verus!
