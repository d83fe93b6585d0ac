//! The rules of ZMTP/2.0: which socket types go together, and what an identity
//! frame may hold.

use vstd::prelude::*;

use crate::error::{ErrorView, ZmqError};
use crate::greeting::{
    socket_type_code, socket_type_name_from_code, V2_SOCKET_TYPE_DEALER, V2_SOCKET_TYPE_PAIR,
    V2_SOCKET_TYPE_PUB, V2_SOCKET_TYPE_PULL, V2_SOCKET_TYPE_PUSH, V2_SOCKET_TYPE_REP,
    V2_SOCKET_TYPE_REQ, V2_SOCKET_TYPE_ROUTER, V2_SOCKET_TYPE_SUB,
};
use crate::message::{Msg, MsgView};
use crate::text::push_hex;

verus! {

/// Whether sockets of the two types, given by their ZMTP/2.0 bytes, can be
/// connected.
pub open spec fn types_match(own: u8, peer: u8) -> bool {
    ||| own == V2_SOCKET_TYPE_PULL && peer == V2_SOCKET_TYPE_PUSH
    ||| own == V2_SOCKET_TYPE_PUSH && peer == V2_SOCKET_TYPE_PULL
    ||| own == V2_SOCKET_TYPE_PUB && peer == V2_SOCKET_TYPE_SUB
    ||| own == V2_SOCKET_TYPE_SUB && peer == V2_SOCKET_TYPE_PUB
    ||| own == V2_SOCKET_TYPE_REQ && (peer == V2_SOCKET_TYPE_REP || peer == V2_SOCKET_TYPE_ROUTER)
    ||| own == V2_SOCKET_TYPE_REP && (peer == V2_SOCKET_TYPE_REQ || peer == V2_SOCKET_TYPE_DEALER)
    ||| own == V2_SOCKET_TYPE_DEALER && (peer == V2_SOCKET_TYPE_REP || peer
        == V2_SOCKET_TYPE_ROUTER || peer == V2_SOCKET_TYPE_DEALER)
    ||| own == V2_SOCKET_TYPE_ROUTER && (peer == V2_SOCKET_TYPE_REQ || peer
        == V2_SOCKET_TYPE_DEALER || peer == V2_SOCKET_TYPE_ROUTER)
    ||| own == V2_SOCKET_TYPE_PAIR && peer == V2_SOCKET_TYPE_PAIR
}

/// Whether a socket of the type with this name may talk to a peer with this
/// ZMTP/2.0 byte, or the reason why not.
pub open spec fn compatibility(own_name: Seq<char>, peer_byte: u8) -> Result<(), ErrorView> {
    match crate::greeting::name_of_code(peer_byte) {
        None => Err(
            ErrorView::ProtocolViolation(
                "v2 peer advertised unknown socket-type byte "@ + crate::text::hex_text(peer_byte),
            ),
        ),
        Some(peer_name) => match crate::greeting::code_of_name(own_name) {
            Some(own) if types_match(own, peer_byte) => Ok(()),
            _ => Err(
                ErrorView::ProtocolViolation(
                    "incompatible ZMTP/2.0 socket pairing: local "@ + own_name + " ↔ peer "@
                        + peer_name,
                ),
            ),
        },
    }
}

/// Refuses a peer whose socket type does not go with this socket's.
pub fn validate_v2_socket_type_compat(own_name: &str, peer_byte: u8) -> (ok: Result<(), ZmqError>)
    ensures
        crate::error::result_view(ok) == compatibility(own_name@, peer_byte),
{
    let peer_name = match socket_type_name_from_code(peer_byte) {
        Some(name) => name,
        None => {
            let mut text = "v2 peer advertised unknown socket-type byte ".to_string();
            push_hex(&mut text, peer_byte);
            return Err(ZmqError::ProtocolViolation(text));
        },
    };
    let ok = match socket_type_code(own_name) {
        Some(V2_SOCKET_TYPE_PULL) => peer_byte == V2_SOCKET_TYPE_PUSH,
        Some(V2_SOCKET_TYPE_PUSH) => peer_byte == V2_SOCKET_TYPE_PULL,
        Some(V2_SOCKET_TYPE_PUB) => peer_byte == V2_SOCKET_TYPE_SUB,
        Some(V2_SOCKET_TYPE_SUB) => peer_byte == V2_SOCKET_TYPE_PUB,
        Some(V2_SOCKET_TYPE_REQ) => peer_byte == V2_SOCKET_TYPE_REP || peer_byte
            == V2_SOCKET_TYPE_ROUTER,
        Some(V2_SOCKET_TYPE_REP) => peer_byte == V2_SOCKET_TYPE_REQ || peer_byte
            == V2_SOCKET_TYPE_DEALER,
        Some(V2_SOCKET_TYPE_DEALER) => peer_byte == V2_SOCKET_TYPE_REP || peer_byte
            == V2_SOCKET_TYPE_ROUTER || peer_byte == V2_SOCKET_TYPE_DEALER,
        Some(V2_SOCKET_TYPE_ROUTER) => peer_byte == V2_SOCKET_TYPE_REQ || peer_byte
            == V2_SOCKET_TYPE_DEALER || peer_byte == V2_SOCKET_TYPE_ROUTER,
        Some(V2_SOCKET_TYPE_PAIR) => peer_byte == V2_SOCKET_TYPE_PAIR,
        _ => false,
    };
    if !ok {
        let mut text = "incompatible ZMTP/2.0 socket pairing: local ".to_string();
        text.append(own_name);
        text.append(" ↔ peer ");
        text.append(peer_name);
        return Err(ZmqError::ProtocolViolation(text));
    }
    Ok(())
}

/// Whether a frame can be an identity, or the reason why not.
pub open spec fn identity_constraints(msg: MsgView) -> Result<(), ErrorView> {
    if msg.flags.command {
        Err(
            ErrorView::ProtocolViolation(
                "ZMTP/2.0 identity frame had COMMAND flag set (commands do not exist in v2)"@,
            ),
        )
    } else if msg.flags.more {
        Err(
            ErrorView::ProtocolViolation(
                "ZMTP/2.0 identity frame had MORE flag set (identity is a single frame)"@,
            ),
        )
    } else if msg.body().len() > 255 {
        Err(ErrorView::ProtocolViolation("ZMTP/2.0 identity frame exceeded 255 bytes"@))
    } else {
        Ok(())
    }
}

/// Refuses an identity frame with the COMMAND or the MORE flag, or with more than
/// 255 bytes.
pub fn enforce_v2_identity_constraints(msg: &Msg) -> (ok: Result<(), ZmqError>)
    ensures
        crate::error::result_view(ok) == identity_constraints(msg@),
{
    if msg.is_command() {
        return Err(
            ZmqError::ProtocolViolation(
                "ZMTP/2.0 identity frame had COMMAND flag set (commands do not exist in v2)".to_string(),
            ),
        );
    }
    if msg.is_more() {
        return Err(
            ZmqError::ProtocolViolation(
                "ZMTP/2.0 identity frame had MORE flag set (identity is a single frame)".to_string(),
            ),
        );
    }
    if msg.size() > 255 {
        return Err(
            ZmqError::ProtocolViolation("ZMTP/2.0 identity frame exceeded 255 bytes".to_string()),
        );
    }
    Ok(())
}

/// Whether two socket types go together does not depend on the end that asks.
pub proof fn law_compatibility_is_symmetric(
    one_name: Seq<char>,
    one: u8,
    other_name: Seq<char>,
    other: u8,
)
    requires
        crate::greeting::code_of_name(one_name) == Some(one),
        crate::greeting::code_of_name(other_name) == Some(other),
    ensures
        compatibility(one_name, other) is Ok <==> compatibility(other_name, one) is Ok,
{
    crate::greeting::laws::law_socket_type_codes_are_one_to_one(one_name, one);
    crate::greeting::laws::law_socket_type_codes_are_one_to_one(other_name, other);
}

/// These socket types go together in ZMTP/2.0, in either order, and no others: PULL with
/// PUSH, PUB with SUB, REQ with REP, REQ with ROUTER, REP with DEALER, DEALER with
/// ROUTER, and DEALER, ROUTER and PAIR each with its own kind.
///
/// The peer is given by its byte on the wire: 0 is PAIR, 1 PUB, 2 SUB, 3 REQ, 4 REP,
/// 5 DEALER, 6 ROUTER, 7 PULL and 8 PUSH.
pub proof fn law_which_socket_types_go_together(own_name: Seq<char>, peer_byte: u8)
    ensures
        compatibility(own_name, peer_byte) is Ok <==> {
            ||| own_name == "PULL"@ && peer_byte == 8
            ||| own_name == "PUSH"@ && peer_byte == 7
            ||| own_name == "PUB"@ && peer_byte == 2
            ||| own_name == "SUB"@ && peer_byte == 1
            ||| own_name == "REQ"@ && (peer_byte == 4 || peer_byte == 6)
            ||| own_name == "REP"@ && (peer_byte == 3 || peer_byte == 5)
            ||| own_name == "DEALER"@ && (peer_byte == 4 || peer_byte == 6 || peer_byte == 5)
            ||| own_name == "ROUTER"@ && (peer_byte == 3 || peer_byte == 5 || peer_byte == 6)
            ||| own_name == "PAIR"@ && peer_byte == 0
        },
        compatibility(own_name, peer_byte) matches Err(error) ==> error is ProtocolViolation,
{
    crate::greeting::laws::law_socket_type_codes(own_name, peer_byte);
}

/// The error of a refused pairing names both ends, or the byte that stands for no type.
pub proof fn law_refused_pairings_are_named(own_name: Seq<char>, peer_byte: u8)
    requires
        compatibility(own_name, peer_byte) is Err,
    ensures
        peer_byte > 8 ==> compatibility(own_name, peer_byte) == Err::<(), ErrorView>(
            ErrorView::ProtocolViolation(
                "v2 peer advertised unknown socket-type byte "@ + crate::text::hex_text(peer_byte),
            ),
        ),
        peer_byte <= 8 ==> exists|peer_name: Seq<char>|
            {
                &&& crate::greeting::code_of_name(peer_name) == Some(peer_byte)
                &&& compatibility(own_name, peer_byte) == Err::<(), ErrorView>(
                    ErrorView::ProtocolViolation(
                        "incompatible ZMTP/2.0 socket pairing: local "@ + own_name + " ↔ peer "@
                            + #[trigger] (peer_name + Seq::<char>::empty()),
                    ),
                )
            },
{
    if peer_byte <= 8 {
        let peer_name = crate::greeting::name_of_code(peer_byte)->0;
        crate::greeting::laws::law_socket_type_codes_are_one_to_one(peer_name, peer_byte);
        assert(peer_name + Seq::<char>::empty() =~= peer_name);
    }
}

/// An identity frame is accepted exactly where it is no command, is the only frame of its
/// message and has at most 255 bytes.
pub proof fn law_which_identity_frames_are_accepted(msg: MsgView)
    ensures
        identity_constraints(msg) is Ok <==> {
            &&& !msg.flags.command
            &&& !msg.flags.more
            &&& (msg.data matches Some(data) ==> data.len() <= 255)
        },
        identity_constraints(msg) matches Err(error) ==> error is ProtocolViolation,
{
}

} // verus!
