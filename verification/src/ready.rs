//! The properties that READY commands carry.

use vstd::prelude::*;

use crate::command::{Properties, ZmtpReady};
use crate::message::Blob;
use crate::options::{ConfigView, ZmtpEngineConfig};
use crate::text::same_text;

verus! {

/// The property that names the type of the sender's socket.
pub open spec fn socket_type_property(config: ConfigView) -> Map<Seq<char>, Seq<u8>> {
    Map::empty().insert("Socket-Type"@, vstd::utf8::encode_utf8(config.socket_type_name))
}

/// What a connection on io_uring announces: the type of the socket and, where it
/// has from 1 to 255 bytes, the identity.
pub open spec fn uring_ready_properties(config: ConfigView) -> Map<Seq<char>, Seq<u8>> {
    match config.routing_id {
        Some(id) if 0 < id.len() <= 255 => socket_type_property(config).insert("Identity"@, id),
        _ => socket_type_property(config),
    }
}

/// Whether a socket of this type announces an identity on a stream.
pub open spec fn announces_identity(config: ConfigView) -> bool {
    ||| config.socket_type_name == "REQ"@
    ||| config.socket_type_name == "DEALER"@
    ||| config.socket_type_name == "ROUTER"@
}

/// What a connection on a stream announces: the type of the socket and, for the
/// types that use one, the identity, which may be empty.
pub open spec fn stream_ready_properties(config: ConfigView) -> Map<Seq<char>, Seq<u8>> {
    let identity = match config.routing_id {
        Some(id) => id,
        None => Seq::empty(),
    };
    if announces_identity(config) && identity.len() <= 255 {
        socket_type_property(config).insert("Identity"@, identity)
    } else {
        socket_type_property(config)
    }
}

fn socket_type_properties(config: &ZmtpEngineConfig) -> (properties: Properties)
    ensures
        properties@ == socket_type_property(config@),
{
    let mut properties = Properties::new();
    let name = vstd::slice::slice_to_vec(config.socket_type_name.as_str().as_bytes());
    properties.insert("Socket-Type", name);
    properties
}

/// The properties that a connection on io_uring announces.
pub fn build_uring_ready_properties(config: &ZmtpEngineConfig) -> (properties: Properties)
    ensures
        properties@ == uring_ready_properties(config@),
{
    let mut properties = socket_type_properties(config);
    if let Some(id) = &config.routing_id {
        if !id.is_empty() && id.len() <= 255 {
            properties.insert("Identity", id.to_vec());
        }
    }
    properties
}

/// The properties that a connection on a stream announces.
pub fn build_stream_ready_properties(config: &ZmtpEngineConfig) -> (properties: Properties)
    ensures
        properties@ == stream_ready_properties(config@),
{
    let mut properties = socket_type_properties(config);
    let socket_type = config.socket_type_name.as_str();
    if same_text(socket_type, "REQ") || same_text(socket_type, "DEALER") || same_text(
        socket_type,
        "ROUTER",
    ) {
        let identity: Vec<u8> = match &config.routing_id {
            Some(id) => id.to_vec(),
            None => Vec::new(),
        };
        if identity.len() <= 255 {
            properties.insert("Identity", identity);
        }
    }
    properties
}

/// The identity among the properties of a peer, where it has from 1 to 255 bytes.
pub open spec fn announced_identity(properties: Map<Seq<char>, Seq<u8>>) -> Option<Seq<u8>> {
    if properties.contains_key("Identity"@) && 0 < properties["Identity"@].len() <= 255 {
        Some(properties["Identity"@])
    } else {
        None
    }
}

/// The identity that a peer announced in its READY command.
pub fn parse_peer_ready_identity(peer_ready_data: &ZmtpReady) -> (identity: Option<Blob>)
    ensures
        crate::message::option_view(identity) == announced_identity(peer_ready_data.properties@),
{
    match peer_ready_data.properties.get("Identity") {
        Some(id) => if id.len() > 0 && id.len() <= 255 {
            Some(Blob::from_vec(vstd::slice::slice_to_vec(id.as_slice())))
        } else {
            None
        },
        None => None,
    }
}

/// The value by this name, where there is one.
pub open spec fn property(properties: Map<Seq<char>, Seq<u8>>, name: Seq<char>) -> Option<
    Seq<u8>,
> {
    if properties.contains_key(name) {
        Some(properties[name])
    } else {
        None
    }
}

/// A copy of the value by this name, where there is one.
pub(crate) fn copy_property(properties: &Properties, name: &str) -> (value: Option<Vec<u8>>)
    ensures
        crate::message::option_view(value) == property(properties@, name@),
{
    match properties.get(name) {
        Some(value) => Some(vstd::slice::slice_to_vec(value.as_slice())),
        None => None,
    }
}

/// What a connection announces in its READY command is what its peer reads: the type
/// of the socket always, and the identity where it may be announced.
pub proof fn law_ready_is_understood(config: ConfigView)
    ensures
        crate::stream::model::announced_type(uring_ready_properties(config)) == Some(
            config.socket_type_name,
        ),
        crate::stream::model::announced_type(stream_ready_properties(config)) == Some(
            config.socket_type_name,
        ),
        announced_identity(uring_ready_properties(config)) == match config.routing_id {
            Some(id) if 0 < id.len() <= 255 => Some(id),
            _ => None,
        },
        announced_identity(stream_ready_properties(config)) == match config.routing_id {
            Some(id) if 0 < id.len() <= 255 && announces_identity(config) => Some(id),
            _ => None,
        },
{
    reveal_strlit("Socket-Type");
    reveal_strlit("Identity");
    assert("Socket-Type"@.len() != "Identity"@.len());
    vstd::utf8::encode_utf8_valid_utf8(config.socket_type_name);
    vstd::utf8::encode_utf8_decode_utf8(config.socket_type_name);
}

/// Which properties READY commands carry.  The type of the socket is always among them,
/// as `Socket-Type`.  On io_uring an identity of 1 to 255 bytes is, as `Identity`; on a
/// stream REQ, DEALER and ROUTER announce theirs where it has at most 255 bytes, and an
/// empty one where they have none.  There are no other properties.
pub proof fn law_which_properties_are_announced(config: ConfigView, name: Seq<char>)
    ensures
        ({
            let on_ring = uring_ready_properties(config);
            let on_stream = stream_ready_properties(config);
            let routed = config.socket_type_name == "REQ"@ || config.socket_type_name == "DEALER"@
                || config.socket_type_name == "ROUTER"@;
            &&& on_ring.contains_key("Socket-Type"@)
            &&& on_ring["Socket-Type"@] == vstd::utf8::encode_utf8(config.socket_type_name)
            &&& on_stream.contains_key("Socket-Type"@)
            &&& on_stream["Socket-Type"@] == vstd::utf8::encode_utf8(config.socket_type_name)
            &&& match config.routing_id {
                Some(id) => {
                    &&& on_ring.contains_key("Identity"@) <==> 1 <= id.len() <= 255
                    &&& on_ring.contains_key("Identity"@) ==> on_ring["Identity"@] == id
                    &&& on_stream.contains_key("Identity"@) <==> routed && id.len() <= 255
                    &&& on_stream.contains_key("Identity"@) ==> on_stream["Identity"@] == id
                },
                None => {
                    &&& !on_ring.contains_key("Identity"@)
                    &&& on_stream.contains_key("Identity"@) <==> routed
                    &&& routed ==> on_stream["Identity"@].len() == 0
                },
            }
            &&& name != "Socket-Type"@ && name != "Identity"@ ==> !on_ring.contains_key(name)
                && !on_stream.contains_key(name)
        }),
{
    reveal_strlit("Socket-Type");
    reveal_strlit("Identity");
    assert("Socket-Type"@.len() != "Identity"@.len());
}

/// Which identity is read from the properties of a peer: the one by the name `Identity`,
/// where it has from 1 to 255 bytes.
pub proof fn law_which_identity_is_read(properties: Map<Seq<char>, Seq<u8>>)
    ensures
        announced_identity(properties) is Some <==> properties.contains_key("Identity"@) && 1
            <= properties["Identity"@].len() <= 255,
        announced_identity(properties) matches Some(id) ==> id == properties["Identity"@],
{
}

} // verus!
