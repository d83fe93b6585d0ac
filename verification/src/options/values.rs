//! The values that socket options take, as bytes.
//!
//! An integer option is given as the bytes of the integer in the order of the
//! machine.

use vstd::prelude::*;

use crate::byte_order::ByteOrder;
use crate::error::{ErrorView, ZmqError};
use crate::message::Blob;
use crate::options::{
    LINGER, MAXMSGSIZE, RECONNECT_IVL, RECONNECT_IVL_MAX, ROUTING_ID, TCP_KEEPALIVE,
};
use crate::text::utf8_string;
use crate::time::Duration;

verus! {

/// The integer that `value` stands for; an error that names `option_id` where it
/// is not four bytes long.
pub open spec fn integer(order: ByteOrder, value: Seq<u8>, option_id: i32) -> Result<
    i32,
    ErrorView,
> {
    if value.len() == 4 {
        Ok(crate::byte_order::i32_of(order, value))
    } else {
        Err(ErrorView::InvalidOptionValue(option_id))
    }
}

/// Whether `value` is the integer 1.
pub open spec fn flag(order: ByteOrder, value: Seq<u8>) -> Result<bool, ErrorView> {
    match integer(order, value, 0) {
        Ok(n) => Ok(n == 1),
        Err(error) => Err(error),
    }
}

/// A count of milliseconds, or -1 for no limit.
pub open spec fn limit_ms(order: ByteOrder, value: Seq<u8>, size_id: i32, range_id: i32) -> Result<
    Option<Duration>,
    ErrorView,
> {
    match integer(order, value, size_id) {
        Ok(n) => if n == -1 {
            Ok(None)
        } else if n >= 0 {
            Ok(Some(crate::time::millis(n as int)))
        } else {
            Err(ErrorView::InvalidOptionValue(range_id))
        },
        Err(error) => Err(error),
    }
}

/// A count of seconds.
pub open spec fn count_secs(order: ByteOrder, value: Seq<u8>) -> Result<
    Option<Duration>,
    ErrorView,
> {
    match integer(order, value, 0) {
        Ok(n) => if n >= 0 {
            Ok(Some(crate::time::seconds(n as int)))
        } else {
            Err(ErrorView::InvalidOptionValue(0))
        },
        Err(error) => Err(error),
    }
}

/// A count.
pub open spec fn count(order: ByteOrder, value: Seq<u8>) -> Result<Option<u32>, ErrorView> {
    match integer(order, value, 0) {
        Ok(n) => if n >= 0 {
            Ok(Some(n as u32))
        } else {
            Err(ErrorView::InvalidOptionValue(0))
        },
        Err(error) => Err(error),
    }
}

/// -1, 0 or 1.
pub open spec fn keepalive_mode(order: ByteOrder, value: Seq<u8>) -> Result<i32, ErrorView> {
    match integer(order, value, 0) {
        Ok(n) => if -1 <= n <= 1 {
            Ok(n)
        } else {
            Err(ErrorView::InvalidOptionValue(TCP_KEEPALIVE))
        },
        Err(error) => Err(error),
    }
}

/// A count of milliseconds, or 0 for none.
pub open spec fn interval_ms(order: ByteOrder, value: Seq<u8>, option_id: i32) -> Result<
    Option<Duration>,
    ErrorView,
> {
    match integer(order, value, option_id) {
        Ok(n) => if n == 0 {
            Ok(None)
        } else if n > 0 {
            Ok(Some(crate::time::millis(n as int)))
        } else {
            Err(ErrorView::InvalidOptionValue(option_id))
        },
        Err(error) => Err(error),
    }
}

/// A count of milliseconds, or 0 or -1 for none.
pub open spec fn reconnect_ms(order: ByteOrder, value: Seq<u8>) -> Result<
    Option<Duration>,
    ErrorView,
> {
    match integer(order, value, 0) {
        Ok(n) => if n == -1 || n == 0 {
            Ok(None)
        } else if n > 0 {
            Ok(Some(crate::time::millis(n as int)))
        } else {
            Err(ErrorView::InvalidOptionValue(RECONNECT_IVL))
        },
        Err(error) => Err(error),
    }
}

/// A count of milliseconds.
pub open spec fn reconnect_max_ms(order: ByteOrder, value: Seq<u8>) -> Result<
    Option<Duration>,
    ErrorView,
> {
    match integer(order, value, 0) {
        Ok(n) => if n >= 0 {
            Ok(Some(crate::time::millis(n as int)))
        } else {
            Err(ErrorView::InvalidOptionValue(RECONNECT_IVL_MAX))
        },
        Err(error) => Err(error),
    }
}

/// A length in bytes, in 64 bits, or -1 for any.
pub open spec fn message_limit(order: ByteOrder, value: Seq<u8>) -> Result<i64, ErrorView> {
    if value.len() == 8 && crate::byte_order::i64_of(order, value) >= -1 {
        Ok(crate::byte_order::i64_of(order, value))
    } else {
        Err(ErrorView::InvalidOptionValue(MAXMSGSIZE))
    }
}

/// A count of at least 1, or -1 for any.
pub open spec fn connection_limit(order: ByteOrder, value: Seq<u8>, option_id: i32) -> Result<
    Option<usize>,
    ErrorView,
> {
    match integer(order, value, option_id) {
        Ok(n) => if n == -1 {
            Ok(None)
        } else if n >= 1 {
            Ok(Some(n as usize))
        } else {
            Err(ErrorView::InvalidOptionValue(option_id))
        },
        Err(error) => Err(error),
    }
}

/// An identity: at most 255 bytes.
pub open spec fn identity(value: Seq<u8>) -> Result<Seq<u8>, ErrorView> {
    if value.len() <= 255 {
        Ok(value)
    } else {
        Err(ErrorView::InvalidOptionValue(ROUTING_ID))
    }
}

/// A key of `length` bytes.
pub open spec fn key(value: Seq<u8>, length: nat, option_id: i32) -> Result<Seq<u8>, ErrorView> {
    if value.len() == length {
        Ok(value)
    } else {
        Err(ErrorView::InvalidOptionValue(option_id))
    }
}

/// A text in UTF-8.
pub open spec fn text(value: Seq<u8>, option_id: i32) -> Result<Seq<char>, ErrorView> {
    if vstd::utf8::valid_utf8(value) {
        Ok(vstd::utf8::decode_utf8(value))
    } else {
        Err(ErrorView::InvalidOptionValue(option_id))
    }
}

/// A result with both its value and its error seen through their views.
pub open spec fn value_view<T: View>(result: Result<T, ZmqError>) -> Result<T::V, ErrorView> {
    match result {
        Ok(value) => Ok(value@),
        Err(error) => Err(error@),
    }
}

/// Parses an integer.
pub fn parse_i32_option(order: ByteOrder, value: &[u8]) -> (n: Result<i32, ZmqError>)
    ensures
        crate::error::result_view(n) == integer(order, value@, 0),
{
    if value.len() == 4 {
        Ok(order.read_i32(value))
    } else {
        Err(ZmqError::InvalidOptionValue(0))
    }
}

/// Parses an integer for the option that an error is to name.
fn parse_i32_option_of(order: ByteOrder, value: &[u8], option_id: i32) -> (n: Result<
    i32,
    ZmqError,
>)
    ensures
        crate::error::result_view(n) == integer(order, value@, option_id),
{
    match parse_i32_option(order, value) {
        Ok(n) => Ok(n),
        Err(_) => Err(ZmqError::InvalidOptionValue(option_id)),
    }
}

/// Parses a flag: 1 is yes, anything else no.
pub fn parse_bool_option(order: ByteOrder, value: &[u8]) -> (yes: Result<bool, ZmqError>)
    ensures
        crate::error::result_view(yes) == flag(order, value@),
{
    match parse_i32_option(order, value) {
        Ok(n) => Ok(n == 1),
        Err(error) => Err(error),
    }
}

/// Parses a count of milliseconds, or -1 for no limit.
pub fn parse_duration_ms_option(order: ByteOrder, value: &[u8]) -> (limit: Result<
    Option<Duration>,
    ZmqError,
>)
    ensures
        crate::error::result_view(limit) == limit_ms(order, value@, 0, 0),
{
    match parse_i32_option(order, value) {
        Ok(n) => if n == -1 {
            Ok(None)
        } else if n >= 0 {
            Ok(Some(Duration::from_millis(n as u64)))
        } else {
            Err(ZmqError::InvalidOptionValue(0))
        },
        Err(error) => Err(error),
    }
}

/// Parses a count of seconds.
pub fn parse_secs_duration_option(order: ByteOrder, value: &[u8]) -> (span: Result<
    Option<Duration>,
    ZmqError,
>)
    ensures
        crate::error::result_view(span) == count_secs(order, value@),
{
    match parse_i32_option(order, value) {
        Ok(n) => if n >= 0 {
            Ok(Some(Duration::from_secs(n as u64)))
        } else {
            Err(ZmqError::InvalidOptionValue(0))
        },
        Err(error) => Err(error),
    }
}

/// Parses a timeout in milliseconds, or -1 for none.
pub fn parse_timeout_option(order: ByteOrder, value: &[u8], option_id: i32) -> (limit: Result<
    Option<Duration>,
    ZmqError,
>)
    ensures
        crate::error::result_view(limit) == limit_ms(order, value@, option_id, option_id),
{
    match parse_i32_option_of(order, value, option_id) {
        Ok(n) => if n == -1 {
            Ok(None)
        } else if n >= 0 {
            Ok(Some(Duration::from_millis(n as u64)))
        } else {
            Err(ZmqError::InvalidOptionValue(option_id))
        },
        Err(error) => Err(error),
    }
}

/// Parses how long unsent messages are kept, or -1 for ever.
pub fn parse_linger_option(order: ByteOrder, value: &[u8]) -> (limit: Result<
    Option<Duration>,
    ZmqError,
>)
    ensures
        crate::error::result_view(limit) == limit_ms(order, value@, 0, LINGER),
{
    match parse_i32_option(order, value) {
        Ok(n) => if n == -1 {
            Ok(None)
        } else if n >= 0 {
            Ok(Some(Duration::from_millis(n as u64)))
        } else {
            Err(ZmqError::InvalidOptionValue(LINGER))
        },
        Err(error) => Err(error),
    }
}

/// Parses a count.
pub fn parse_u32_option(order: ByteOrder, value: &[u8]) -> (n: Result<Option<u32>, ZmqError>)
    ensures
        crate::error::result_view(n) == count(order, value@),
{
    match parse_i32_option(order, value) {
        Ok(n) => if n >= 0 {
            Ok(Some(n as u32))
        } else {
            Err(ZmqError::InvalidOptionValue(0))
        },
        Err(error) => Err(error),
    }
}

/// Parses the keepalive mode.
pub fn parse_keepalive_mode_option(order: ByteOrder, value: &[u8]) -> (mode: Result<i32, ZmqError>)
    ensures
        crate::error::result_view(mode) == keepalive_mode(order, value@),
{
    match parse_i32_option(order, value) {
        Ok(n) => if n >= -1 && n <= 1 {
            Ok(n)
        } else {
            Err(ZmqError::InvalidOptionValue(TCP_KEEPALIVE))
        },
        Err(error) => Err(error),
    }
}

/// Parses an identity: at most 255 bytes.
pub fn parse_blob_option(value: &[u8]) -> (blob: Result<Blob, ZmqError>)
    ensures
        value_view(blob) == identity(value@),
{
    if value.len() > 255 {
        Err(ZmqError::InvalidOptionValue(ROUTING_ID))
    } else {
        Ok(Blob::from_vec(vstd::slice::slice_to_vec(value)))
    }
}

/// Parses a heartbeat interval or timeout: 0 switches it off.
pub fn parse_heartbeat_option(order: ByteOrder, value: &[u8], option_id: i32) -> (span: Result<
    Option<Duration>,
    ZmqError,
>)
    ensures
        crate::error::result_view(span) == interval_ms(order, value@, option_id),
{
    match parse_i32_option_of(order, value, option_id) {
        Ok(n) => if n == 0 {
            Ok(None)
        } else if n >= 1 {
            Ok(Some(Duration::from_millis(n as u64)))
        } else {
            Err(ZmqError::InvalidOptionValue(option_id))
        },
        Err(error) => Err(error),
    }
}

/// Parses the time that a handshake may take: 0 leaves it to the connection.
pub fn parse_handshake_option(order: ByteOrder, value: &[u8], option_id: i32) -> (span: Result<
    Option<Duration>,
    ZmqError,
>)
    ensures
        crate::error::result_view(span) == interval_ms(order, value@, option_id),
{
    match parse_i32_option_of(order, value, option_id) {
        Ok(n) => if n == 0 {
            Ok(None)
        } else if n >= 1 {
            Ok(Some(Duration::from_millis(n as u64)))
        } else {
            Err(ZmqError::InvalidOptionValue(option_id))
        },
        Err(error) => Err(error),
    }
}

/// Parses the time before a reconnection attempt: 0 and -1 switch it off.
pub fn parse_reconnect_ivl_option(order: ByteOrder, value: &[u8]) -> (span: Result<
    Option<Duration>,
    ZmqError,
>)
    ensures
        crate::error::result_view(span) == reconnect_ms(order, value@),
{
    match parse_i32_option(order, value) {
        Ok(n) => if n == -1 || n == 0 {
            Ok(None)
        } else if n >= 1 {
            Ok(Some(Duration::from_millis(n as u64)))
        } else {
            Err(ZmqError::InvalidOptionValue(RECONNECT_IVL))
        },
        Err(error) => Err(error),
    }
}

/// Parses the longest time before a reconnection attempt.
pub fn parse_reconnect_ivl_max_option(order: ByteOrder, value: &[u8]) -> (span: Result<
    Option<Duration>,
    ZmqError,
>)
    ensures
        crate::error::result_view(span) == reconnect_max_ms(order, value@),
{
    match parse_i32_option(order, value) {
        Ok(n) => if n >= 0 {
            Ok(Some(Duration::from_millis(n as u64)))
        } else {
            Err(ZmqError::InvalidOptionValue(RECONNECT_IVL_MAX))
        },
        Err(error) => Err(error),
    }
}

/// Parses the longest inbound frame: eight bytes, -1 for any length.
pub fn parse_maxmsgsize_option(order: ByteOrder, value: &[u8]) -> (limit: Result<i64, ZmqError>)
    ensures
        crate::error::result_view(limit) == message_limit(order, value@),
{
    if value.len() != 8 {
        return Err(ZmqError::InvalidOptionValue(MAXMSGSIZE));
    }
    let limit: i64 = order.read_i64(value);
    if limit < -1 {
        return Err(ZmqError::InvalidOptionValue(MAXMSGSIZE));
    }
    Ok(limit)
}

/// Parses the number of connections that there may be: -1 for any.
pub fn parse_max_connections_option(order: ByteOrder, value: &[u8], option_id: i32) -> (limit:
    Result<Option<usize>, ZmqError>)
    ensures
        crate::error::result_view(limit) == connection_limit(order, value@, option_id),
{
    match parse_i32_option_of(order, value, option_id) {
        Ok(n) => if n == -1 {
            Ok(None)
        } else if n >= 1 {
            Ok(Some(n as usize))
        } else {
            Err(ZmqError::InvalidOptionValue(option_id))
        },
        Err(error) => Err(error),
    }
}

/// Parses a key of `N` bytes.
pub fn parse_key_option<const N: usize>(value: &[u8], option_id: i32) -> (key: Result<
    [u8; N],
    ZmqError,
>)
    ensures
        value_view(key) == self::key(value@, N as nat, option_id),
{
    if value.len() != N {
        return Err(ZmqError::InvalidOptionValue(option_id));
    }
    let mut key: [u8; N] = [0u8;N];
    let mut i: usize = 0;
    while i < N
        invariant
            0 <= i <= N,
            value@.len() == N,
            forall|k: int| 0 <= k < i ==> key@[k] == value@[k],
        decreases N - i,
    {
        key[i] = value[i];
        i = i + 1;
    }
    assert(key@ =~= value@);
    Ok(key)
}

/// Parses a text in UTF-8.
pub fn parse_string_option(value: &[u8], option_id: i32) -> (text: Result<String, ZmqError>)
    ensures
        value_view(text) == self::text(value@, option_id),
{
    match utf8_string(vstd::slice::slice_to_vec(value)) {
        Some(text) => Ok(text),
        None => Err(ZmqError::InvalidOptionValue(option_id)),
    }
}

} // verus!
