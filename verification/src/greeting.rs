//! The greetings with which the two ends of a connection open.
//!
//! Every greeting starts with the same ten bytes, the signature.  The byte after
//! it tells the version: a ZMTP/2.0 greeting goes on with one byte for the socket
//! type, a ZMTP/3.x greeting with the minor version, the name of a security
//! mechanism, the role and padding.

use bytes::BytesMut;
use vstd::prelude::*;

use crate::buffer::{as_slice, put_bytes, put_slice, put_u8};
use crate::error::{ErrorView, ZmqError};
use crate::text::{push_decimal, push_hex, same_text, utf8_text};

pub mod laws;

verus! {

/// Bytes in a ZMTP/3.x greeting.
pub const GREETING_LENGTH: usize = 64;

/// Bytes in the name of a security mechanism, padding included.
pub const MECHANISM_LENGTH: usize = 20;

/// The major version that this end announces.
pub const GREETING_VERSION_MAJOR_BYTE: u8 = 0x03;

/// The minor version that this end announces.
pub const GREETING_VERSION_MINOR_BYTE: u8 = 0x00;

/// Bytes in the signature that every greeting starts with.
pub const SIGNATURE_LENGTH: usize = 10;

/// Bytes in a ZMTP/2.0 greeting.
pub const V2_GREETING_LENGTH: usize = 12;

/// Where the mechanism stands in a ZMTP/3.x greeting.
pub const MECHANISM_OFFSET: usize = 12;

/// Where the role stands in a ZMTP/3.x greeting.
pub const AS_SERVER_OFFSET: usize = 32;

/// Where the padding starts in a ZMTP/3.x greeting.
const PADDING_OFFSET: usize = 33;

/// The socket-type bytes of ZMTP/2.0.
pub const V2_SOCKET_TYPE_PAIR: u8 = 0x00;
pub const V2_SOCKET_TYPE_PUB: u8 = 0x01;
pub const V2_SOCKET_TYPE_SUB: u8 = 0x02;
pub const V2_SOCKET_TYPE_REQ: u8 = 0x03;
pub const V2_SOCKET_TYPE_REP: u8 = 0x04;
pub const V2_SOCKET_TYPE_DEALER: u8 = 0x05;
pub const V2_SOCKET_TYPE_ROUTER: u8 = 0x06;
pub const V2_SOCKET_TYPE_PULL: u8 = 0x07;
pub const V2_SOCKET_TYPE_PUSH: u8 = 0x08;

/// The version that the two ends of a connection settled on.
#[derive(Debug, Clone, Copy, PartialEq, Eq, Structural)]
pub enum NegotiatedVersion {
    /// ZMTP/2.0: no security mechanism, no command frames.
    V2,
    /// ZMTP/3.x, with the minor version that the peer announced.
    V3 { minor: u8 },
}

impl NegotiatedVersion {
    /// Whether this is ZMTP/2.0.
    pub fn is_v2(self) -> (yes: bool)
        ensures
            yes == (self is V2),
    {
        matches!(self, NegotiatedVersion::V2)
    }

    /// Whether this is ZMTP/3.x.
    pub fn is_v3(self) -> (yes: bool)
        ensures
            yes == (self is V3),
    {
        matches!(self, NegotiatedVersion::V3 { .. })
    }
}

/// The signature: `0xff`, eight zeros and `0x7f`.
pub open spec fn signature_bytes() -> Seq<u8> {
    seq![0xffu8, 0, 0, 0, 0, 0, 0, 0, 0, 0x7f]
}

/// The two bytes that end a ZMTP/2.0 greeting.
pub open spec fn v2_tail_bytes(socket_type: u8) -> Seq<u8> {
    seq![0x01u8, socket_type]
}

/// A whole ZMTP/2.0 greeting.
pub open spec fn v2_greeting_bytes(socket_type: u8) -> Seq<u8> {
    signature_bytes() + v2_tail_bytes(socket_type)
}

/// The flag byte for a role.
pub open spec fn role_byte(as_server: bool) -> u8 {
    if as_server {
        1
    } else {
        0
    }
}

/// What follows the major version in a ZMTP/3.x greeting.
pub open spec fn v3_tail_post_major_bytes(mechanism: Seq<u8>, as_server: bool) -> Seq<u8> {
    seq![GREETING_VERSION_MINOR_BYTE] + mechanism + seq![role_byte(as_server)] + Seq::new(
        31,
        |i: int| 0u8,
    )
}

/// What follows the signature in a ZMTP/3.x greeting.
pub open spec fn v3_tail_bytes(mechanism: Seq<u8>, as_server: bool) -> Seq<u8> {
    seq![GREETING_VERSION_MAJOR_BYTE] + v3_tail_post_major_bytes(mechanism, as_server)
}

/// A whole ZMTP/3.x greeting.
pub open spec fn v3_greeting_bytes(mechanism: Seq<u8>, as_server: bool) -> Seq<u8> {
    signature_bytes() + v3_tail_bytes(mechanism, as_server)
}

/// What this end sends before it knows the peer's version: the signature and its
/// own major version.
pub open spec fn prelude_bytes() -> Seq<u8> {
    signature_bytes().push(GREETING_VERSION_MAJOR_BYTE)
}

/// The version byte of a greeting that starts with `bytes`, or the reason why no
/// greeting does.
pub open spec fn peeked_revision(bytes: Seq<u8>) -> Result<u8, ErrorView> {
    if bytes.len() < 11 {
        Err(
            ErrorView::ProtocolViolation(
                "peek_revision: need 11 bytes, got "@ + crate::text::decimal_text(bytes.len()),
            ),
        )
    } else if bytes[0] != 0xff {
        Err(
            ErrorView::ProtocolViolation(
                "greeting signature byte 0: expected 0xff, got "@ + crate::text::hex_text(bytes[0]),
            ),
        )
    } else if exists|i: int| 1 <= i <= 8 && bytes[i] != 0 {
        Err(ErrorView::ProtocolViolation("greeting signature bytes 1 to 8: expected 0x00"@))
    } else if bytes[9] != 0x7f {
        Err(
            ErrorView::ProtocolViolation(
                "greeting signature byte 9: expected 0x7f, got "@ + crate::text::hex_text(bytes[9]),
            ),
        )
    } else {
        Ok(bytes[10])
    }
}

/// Checks the signature at the start of a greeting, `0xff`, eight times `0x00` and
/// `0x7f`, and returns the version byte that follows it.
pub fn peek_revision(buf: &[u8]) -> (revision: Result<u8, ZmqError>)
    ensures
        crate::error::result_view(revision) == peeked_revision(buf@),
{
    if buf.len() < SIGNATURE_LENGTH + 1 {
        let mut text = "peek_revision: need 11 bytes, got ".to_string();
        push_decimal(&mut text, buf.len() as u64);
        return Err(ZmqError::ProtocolViolation(text));
    }
    if buf[0] != 0xff {
        let mut text = "greeting signature byte 0: expected 0xff, got ".to_string();
        push_hex(&mut text, buf[0]);
        return Err(ZmqError::ProtocolViolation(text));
    }
    let mut i: usize = 1;
    while i < 9
        invariant
            1 <= i <= 9,
            buf@.len() >= 11,
            buf@[0] == 0xff,
            forall|k: int| 1 <= k < i ==> buf@[k] == 0,
        decreases 9 - i,
    {
        if buf[i] != 0 {
            return Err(
                ZmqError::ProtocolViolation(
                    "greeting signature bytes 1 to 8: expected 0x00".to_string(),
                ),
            );
        }
        i = i + 1;
    }
    if buf[9] != 0x7f {
        let mut text = "greeting signature byte 9: expected 0x7f, got ".to_string();
        push_hex(&mut text, buf[9]);
        return Err(ZmqError::ProtocolViolation(text));
    }
    Ok(buf[10])
}

/// What a ZMTP/2.0 greeting tells.
#[derive(Debug, Clone, Copy, PartialEq, Eq, Structural)]
pub struct ZmtpV2Greeting {
    /// The revision, always `0x01`.
    pub revision: u8,
    /// The socket type, as [`socket_type_code`] numbers it.
    pub socket_type: u8,
}

/// The greeting that ends with `tail`, or the reason why none does.
pub open spec fn decoded_v2_tail(tail: Seq<u8>) -> Result<ZmtpV2Greeting, ErrorView> {
    if tail[0] != 0x01 {
        Err(
            ErrorView::ProtocolViolation(
                "ZMTP/2.0 greeting: expected revision 0x01, got "@ + crate::text::hex_text(tail[0]),
            ),
        )
    } else {
        Ok(ZmtpV2Greeting { revision: 0x01, socket_type: tail[1] })
    }
}

impl ZmtpV2Greeting {
    /// The revision byte of ZMTP/2.0.
    pub const REVISION: u8 = 0x01;

    /// Appends the two bytes that end a ZMTP/2.0 greeting.
    pub fn encode_tail(socket_type: u8, buffer: &mut BytesMut)
        requires
            crate::buffer::has_room(crate::buffer::contents(*old(buffer)), 2),
        ensures
            crate::buffer::contents(*final(buffer)) == crate::buffer::contents(*old(buffer))
                + v2_tail_bytes(socket_type),
    {
        let ghost before = crate::buffer::contents(*buffer);
        buffer.reserve(2);
        put_u8(buffer, Self::REVISION);
        put_u8(buffer, socket_type);
        assert(crate::buffer::contents(*buffer) =~= before + v2_tail_bytes(socket_type));
    }

    /// Appends a whole ZMTP/2.0 greeting.
    pub fn encode_full(socket_type: u8, buffer: &mut BytesMut)
        requires
            crate::buffer::has_room(crate::buffer::contents(*old(buffer)), 12),
        ensures
            crate::buffer::contents(*final(buffer)) == crate::buffer::contents(*old(buffer))
                + v2_greeting_bytes(socket_type),
    {
        let ghost before = crate::buffer::contents(*buffer);
        buffer.reserve(V2_GREETING_LENGTH);
        encode_signature(buffer);
        Self::encode_tail(socket_type, buffer);
        assert(crate::buffer::contents(*buffer) =~= before + v2_greeting_bytes(socket_type));
    }

    /// Decodes the two bytes that follow the signature of a ZMTP/2.0 greeting.
    pub fn decode_tail(tail: [u8; 2]) -> (greeting: Result<ZmtpV2Greeting, ZmqError>)
        ensures
            crate::error::result_view(greeting) == decoded_v2_tail(tail@),
    {
        let revision: u8 = tail[0];
        if revision != Self::REVISION {
            let mut text = "ZMTP/2.0 greeting: expected revision 0x01, got ".to_string();
            push_hex(&mut text, revision);
            return Err(ZmqError::ProtocolViolation(text));
        }
        Ok(ZmtpV2Greeting { revision, socket_type: tail[1] })
    }
}

/// The ZMTP/2.0 byte for a socket type that is named in capitals.
pub open spec fn code_of_name(name: Seq<char>) -> Option<u8> {
    if name == "PAIR"@ {
        Some(V2_SOCKET_TYPE_PAIR)
    } else if name == "PUB"@ {
        Some(V2_SOCKET_TYPE_PUB)
    } else if name == "SUB"@ {
        Some(V2_SOCKET_TYPE_SUB)
    } else if name == "REQ"@ {
        Some(V2_SOCKET_TYPE_REQ)
    } else if name == "REP"@ {
        Some(V2_SOCKET_TYPE_REP)
    } else if name == "DEALER"@ {
        Some(V2_SOCKET_TYPE_DEALER)
    } else if name == "ROUTER"@ {
        Some(V2_SOCKET_TYPE_ROUTER)
    } else if name == "PULL"@ {
        Some(V2_SOCKET_TYPE_PULL)
    } else if name == "PUSH"@ {
        Some(V2_SOCKET_TYPE_PUSH)
    } else {
        None
    }
}

/// The name of the socket type that a ZMTP/2.0 byte stands for.
pub open spec fn name_of_code(code: u8) -> Option<Seq<char>> {
    if code == V2_SOCKET_TYPE_PAIR {
        Some("PAIR"@)
    } else if code == V2_SOCKET_TYPE_PUB {
        Some("PUB"@)
    } else if code == V2_SOCKET_TYPE_SUB {
        Some("SUB"@)
    } else if code == V2_SOCKET_TYPE_REQ {
        Some("REQ"@)
    } else if code == V2_SOCKET_TYPE_REP {
        Some("REP"@)
    } else if code == V2_SOCKET_TYPE_DEALER {
        Some("DEALER"@)
    } else if code == V2_SOCKET_TYPE_ROUTER {
        Some("ROUTER"@)
    } else if code == V2_SOCKET_TYPE_PULL {
        Some("PULL"@)
    } else if code == V2_SOCKET_TYPE_PUSH {
        Some("PUSH"@)
    } else {
        None
    }
}

/// Maps the name of a socket type, in capitals, to its ZMTP/2.0 byte.  Types that
/// ZMTP/2.0 does not know have none.
pub fn socket_type_code(name: &str) -> (code: Option<u8>)
    ensures
        code == code_of_name(name@),
{
    if same_text(name, "PAIR") {
        Some(V2_SOCKET_TYPE_PAIR)
    } else if same_text(name, "PUB") {
        Some(V2_SOCKET_TYPE_PUB)
    } else if same_text(name, "SUB") {
        Some(V2_SOCKET_TYPE_SUB)
    } else if same_text(name, "REQ") {
        Some(V2_SOCKET_TYPE_REQ)
    } else if same_text(name, "REP") {
        Some(V2_SOCKET_TYPE_REP)
    } else if same_text(name, "DEALER") {
        Some(V2_SOCKET_TYPE_DEALER)
    } else if same_text(name, "ROUTER") {
        Some(V2_SOCKET_TYPE_ROUTER)
    } else if same_text(name, "PULL") {
        Some(V2_SOCKET_TYPE_PULL)
    } else if same_text(name, "PUSH") {
        Some(V2_SOCKET_TYPE_PUSH)
    } else {
        None
    }
}

/// A text seen through its characters.
pub open spec fn text_view(text: Option<&'static str>) -> Option<Seq<char>> {
    match text {
        Some(text) => Some(text@),
        None => None,
    }
}

/// Maps a ZMTP/2.0 socket-type byte to the name of the type, in capitals.
pub fn socket_type_name_from_code(code: u8) -> (name: Option<&'static str>)
    ensures
        text_view(name) == name_of_code(code),
{
    match code {
        V2_SOCKET_TYPE_PAIR => Some("PAIR"),
        V2_SOCKET_TYPE_PUB => Some("PUB"),
        V2_SOCKET_TYPE_SUB => Some("SUB"),
        V2_SOCKET_TYPE_REQ => Some("REQ"),
        V2_SOCKET_TYPE_REP => Some("REP"),
        V2_SOCKET_TYPE_DEALER => Some("DEALER"),
        V2_SOCKET_TYPE_ROUTER => Some("ROUTER"),
        V2_SOCKET_TYPE_PULL => Some("PULL"),
        V2_SOCKET_TYPE_PUSH => Some("PUSH"),
        _ => None,
    }
}

/// Appends the signature.
pub fn encode_signature(buffer: &mut BytesMut)
    requires
        crate::buffer::has_room(crate::buffer::contents(*old(buffer)), 10),
    ensures
        crate::buffer::contents(*final(buffer)) == crate::buffer::contents(*old(buffer))
            + signature_bytes(),
{
    let ghost before = crate::buffer::contents(*buffer);
    buffer.reserve(SIGNATURE_LENGTH);
    put_u8(buffer, 0xff);
    put_bytes(buffer, 0, 8);
    put_u8(buffer, 0x7f);
    assert(crate::buffer::contents(*buffer) =~= before + signature_bytes());
}

/// Appends what follows the signature in a ZMTP/3.x greeting.
fn encode_v3_tail(mechanism: &[u8; 20], as_server: bool, buffer: &mut BytesMut)
    requires
        crate::buffer::has_room(crate::buffer::contents(*old(buffer)), 54),
    ensures
        crate::buffer::contents(*final(buffer)) == crate::buffer::contents(*old(buffer))
            + v3_tail_bytes(mechanism@, as_server),
{
    let ghost before = crate::buffer::contents(*buffer);
    put_u8(buffer, GREETING_VERSION_MAJOR_BYTE);
    encode_v3_tail_post_major(mechanism, as_server, buffer);
    assert(crate::buffer::contents(*buffer) =~= before + v3_tail_bytes(mechanism@, as_server));
}

/// Appends what follows the major version in a ZMTP/3.x greeting: the staged
/// greeting has sent the signature and the major version before.
pub fn encode_v3_tail_post_major(mechanism: &[u8; 20], as_server: bool, buffer: &mut BytesMut)
    requires
        crate::buffer::has_room(crate::buffer::contents(*old(buffer)), 53),
    ensures
        crate::buffer::contents(*final(buffer)) == crate::buffer::contents(*old(buffer))
            + v3_tail_post_major_bytes(mechanism@, as_server),
{
    let target: usize = GREETING_LENGTH - SIGNATURE_LENGTH - 1;
    let ghost before = crate::buffer::contents(*buffer);
    let start: usize = buffer.len();
    buffer.reserve(target);
    put_u8(buffer, GREETING_VERSION_MINOR_BYTE);
    put_slice(buffer, mechanism);
    put_u8(buffer, if as_server { 1 } else { 0 });
    let written: usize = buffer.len() - start;
    if written < target {
        put_bytes(buffer, 0, target - written);
    }
    assert(crate::buffer::contents(*buffer) =~= before + v3_tail_post_major_bytes(
        mechanism@,
        as_server,
    ));
}

/// What a ZMTP/3.x greeting tells.
#[derive(Debug, Clone, Copy, PartialEq, Eq)]
pub struct ZmtpGreeting {
    /// The major and the minor version.
    pub version: (u8, u8),
    /// The name of the security mechanism, padded with zeros.
    pub mechanism: [u8; 20],
    /// Whether the sender takes the server's part.
    pub as_server: bool,
}

/// A [`ZmtpGreeting`] with the mechanism as a sequence.
#[verifier::ext_equal]
pub struct GreetingView {
    pub version: (u8, u8),
    pub mechanism: Seq<u8>,
    pub as_server: bool,
}

impl View for ZmtpGreeting {
    type V = GreetingView;

    open spec fn view(&self) -> GreetingView {
        GreetingView {
            version: self.version,
            mechanism: self.mechanism@,
            as_server: self.as_server,
        }
    }
}

/// Whether the padding of a ZMTP/3.x greeting holds zeros alone.
pub open spec fn padding_is_zero(bytes: Seq<u8>) -> bool {
    forall|i: int| 33 <= i < 64 ==> bytes[i] == 0
}

fn is_padding_zero(data: &[u8]) -> (zero: bool)
    requires
        data@.len() == 64,
    ensures
        zero == padding_is_zero(data@),
{
    let mut idx: usize = PADDING_OFFSET;
    while idx < GREETING_LENGTH
        invariant
            33 <= idx <= 64,
            data@.len() == 64,
            forall|i: int| 33 <= i < idx ==> data@[i] == 0,
        decreases 64 - idx,
    {
        if data[idx] != 0 {
            return false;
        }
        idx = idx + 1;
    }
    true
}

/// The greeting in the first 64 of `bytes`, or the reason why they hold none.
pub open spec fn decoded_greeting(bytes: Seq<u8>) -> Result<GreetingView, ErrorView> {
    if bytes[0] != 0xff {
        Err(ErrorView::ProtocolViolation("Greeting does not start with 0xFF"@))
    } else if !padding_is_zero(bytes) {
        Err(ErrorView::ProtocolViolation("Non-zero byte in greeting padding"@))
    } else if bytes[10] != GREETING_VERSION_MAJOR_BYTE {
        Err(
            ErrorView::ProtocolViolation(
                "Unsupported ZMTP major version "@ + crate::text::decimal_text(bytes[10] as nat)
                    + "."@ + crate::text::decimal_text(bytes[11] as nat),
            ),
        )
    } else if bytes[32] > 1 {
        Err(ErrorView::ProtocolViolation("Invalid as-server flag"@))
    } else {
        Ok(
            GreetingView {
                version: (bytes[10], bytes[11]),
                mechanism: bytes.subrange(12, 32),
                as_server: bytes[32] == 1,
            },
        )
    }
}

/// The outcome of decoding seen through views.
pub open spec fn decode_view(result: Result<Option<ZmtpGreeting>, ZmqError>) -> Result<
    Option<GreetingView>,
    ErrorView,
> {
    match result {
        Ok(Some(greeting)) => Ok(Some(greeting@)),
        Ok(None) => Ok(None),
        Err(error) => Err(error@),
    }
}

/// The outcome of looking for a greeting at the start of `bytes`: none while
/// fewer than 64 bytes are there.
pub open spec fn decode_outcome(bytes: Seq<u8>) -> Result<Option<GreetingView>, ErrorView> {
    if bytes.len() < 64 {
        Ok(None)
    } else {
        match decoded_greeting(bytes) {
            Ok(greeting) => Ok(Some(greeting)),
            Err(error) => Err(error),
        }
    }
}

/// The bytes up to the first zero.
pub open spec fn up_to_zero(bytes: Seq<u8>) -> Seq<u8>
    decreases bytes.len(),
{
    if bytes.len() == 0 || bytes[0] == 0 {
        Seq::empty()
    } else {
        seq![bytes[0]] + up_to_zero(bytes.skip(1))
    }
}

/// Where the first zero stands, the bytes up to it are those before it.
proof fn lemma_up_to_zero(bytes: Seq<u8>, end: int)
    requires
        0 <= end <= bytes.len(),
        forall|i: int| 0 <= i < end ==> bytes[i] != 0,
        end < bytes.len() ==> bytes[end] == 0,
    ensures
        up_to_zero(bytes) == bytes.take(end),
    decreases end,
{
    if end > 0 {
        assert forall|i: int| 0 <= i < end - 1 implies bytes.skip(1)[i] != 0 by {
            assert(bytes[i + 1] != 0);
        }
        lemma_up_to_zero(bytes.skip(1), end - 1);
        assert(bytes.take(end) =~= seq![bytes[0]] + bytes.skip(1).take(end - 1));
    } else {
        assert(bytes.take(0) =~= Seq::empty());
    }
}

/// The name in a padded mechanism field: the text up to the first zero, if it is
/// valid UTF-8.
pub open spec fn mechanism_text(mechanism: Seq<u8>) -> Seq<char> {
    let name = up_to_zero(mechanism);
    if vstd::utf8::valid_utf8(name) {
        vstd::utf8::decode_utf8(name)
    } else {
        "<invalid_utf8>"@
    }
}

impl ZmtpGreeting {
    /// Appends a whole ZMTP/3.x greeting.
    pub fn encode(mechanism: &[u8; 20], as_server: bool, buffer: &mut BytesMut)
        requires
            crate::buffer::has_room(crate::buffer::contents(*old(buffer)), 64),
        ensures
            crate::buffer::contents(*final(buffer)) == crate::buffer::contents(*old(buffer))
                + v3_greeting_bytes(mechanism@, as_server),
    {
        let ghost before = crate::buffer::contents(*buffer);
        buffer.reserve(GREETING_LENGTH);
        encode_signature(buffer);
        encode_v3_tail(mechanism, as_server, buffer);
        assert(crate::buffer::contents(*buffer) =~= before + v3_greeting_bytes(
            mechanism@,
            as_server,
        ));
    }

    /// Appends what follows the signature in a ZMTP/3.x greeting.
    pub fn encode_tail(mechanism: &[u8; 20], as_server: bool, buffer: &mut BytesMut)
        requires
            crate::buffer::has_room(crate::buffer::contents(*old(buffer)), 54),
        ensures
            crate::buffer::contents(*final(buffer)) == crate::buffer::contents(*old(buffer))
                + v3_tail_bytes(mechanism@, as_server),
    {
        encode_v3_tail(mechanism, as_server, buffer);
    }

    /// Takes a greeting off the front of `buffer`, where 64 bytes are there, and
    /// decodes it.  The bytes are taken even where they hold no valid greeting.
    pub fn decode(buffer: &mut BytesMut) -> (greeting: Result<Option<ZmtpGreeting>, ZmqError>)
        ensures
            decode_view(greeting) == decode_outcome(crate::buffer::contents(*old(buffer))),
            crate::buffer::contents(*final(buffer)) == if crate::buffer::contents(
                *old(buffer),
            ).len() < 64 {
                crate::buffer::contents(*old(buffer))
            } else {
                crate::buffer::contents(*old(buffer)).skip(64)
            },
    {
        let ghost before = crate::buffer::contents(*buffer);
        if buffer.len() < GREETING_LENGTH {
            return Ok(None);
        }
        let front = buffer.split_to(GREETING_LENGTH);
        let data = as_slice(&front);
        assert(forall|i: int| 0 <= i < 64 ==> data@[i] == before[i]);
        if data[0] != 0xff {
            return Err(
                ZmqError::ProtocolViolation("Greeting does not start with 0xFF".to_string()),
            );
        }
        if !is_padding_zero(data) {
            return Err(
                ZmqError::ProtocolViolation("Non-zero byte in greeting padding".to_string()),
            );
        }
        let major_version: u8 = data[10];
        let minor_version: u8 = data[11];
        if major_version != GREETING_VERSION_MAJOR_BYTE {
            let mut text = "Unsupported ZMTP major version ".to_string();
            push_decimal(&mut text, major_version as u64);
            text.append(".");
            push_decimal(&mut text, minor_version as u64);
            return Err(ZmqError::ProtocolViolation(text));
        }
        let mechanism: [u8; 20] = [
            data[12],
            data[13],
            data[14],
            data[15],
            data[16],
            data[17],
            data[18],
            data[19],
            data[20],
            data[21],
            data[22],
            data[23],
            data[24],
            data[25],
            data[26],
            data[27],
            data[28],
            data[29],
            data[30],
            data[31],
        ];
        assert(mechanism@ =~= before.subrange(12, 32));
        let as_server = match data[AS_SERVER_OFFSET] {
            0x00 => false,
            0x01 => true,
            _ => return Err(ZmqError::ProtocolViolation("Invalid as-server flag".to_string())),
        };
        Ok(Some(ZmtpGreeting { version: (major_version, minor_version), mechanism, as_server }))
    }

    /// The name of the mechanism, without the padding.
    pub fn mechanism_name(&self) -> (name: &str)
        ensures
            name@ == mechanism_text(self.mechanism@),
    {
        let mut first_null: usize = 0;
        while first_null < MECHANISM_LENGTH && self.mechanism[first_null] != 0
            invariant
                0 <= first_null <= 20,
                forall|i: int| 0 <= i < first_null ==> self.mechanism@[i] != 0,
            decreases 20 - first_null,
        {
            first_null = first_null + 1;
        }
        proof {
            lemma_up_to_zero(self.mechanism@, first_null as int);
            assert(self.mechanism@.subrange(0, first_null as int) =~= self.mechanism@.take(
                first_null as int,
            ));
        }
        match utf8_text(vstd::slice::slice_subrange(&self.mechanism, 0, first_null)) {
            Some(name) => name,
            None => "<invalid_utf8>",
        }
    }
}

} // verus!
