//! What the greetings promise together.

use vstd::prelude::*;

use crate::error::ErrorView;
use crate::greeting::{GreetingView, ZmtpV2Greeting};

verus! {

/// A ZMTP/3.x greeting is decoded as what it was made of, whatever follows it, and
/// what follows it is left.
pub proof fn law_v3_greeting_read_back(mechanism: Seq<u8>, as_server: bool, rest: Seq<u8>)
    requires
        mechanism.len() == 20,
    ensures
        crate::greeting::decode_outcome(
            crate::greeting::v3_greeting_bytes(mechanism, as_server) + rest,
        ) == Ok::<Option<GreetingView>, ErrorView>(
            Some(GreetingView { version: (3, 0), mechanism, as_server }),
        ),
        (crate::greeting::v3_greeting_bytes(mechanism, as_server) + rest).skip(64) == rest,
{
    let bytes = crate::greeting::v3_greeting_bytes(mechanism, as_server) + rest;
    assert(bytes.subrange(12, 32) =~= mechanism);
    assert(bytes.skip(64) =~= rest);
    assert(bytes[32] == crate::greeting::role_byte(as_server));
}

/// While fewer than 64 bytes of a greeting are there, none is decoded.
pub proof fn law_partial_greeting_is_awaited(mechanism: Seq<u8>, as_server: bool, length: int)
    requires
        mechanism.len() == 20,
        0 <= length < 64,
    ensures
        crate::greeting::decode_outcome(
            crate::greeting::v3_greeting_bytes(mechanism, as_server).take(length),
        ) == Ok::<Option<GreetingView>, ErrorView>(None),
{
}

/// A ZMTP/3.x greeting has 64 bytes, and sending it in stages sends the same: the
/// signature and then the tail, or the prelude and then what follows the major
/// version.
pub proof fn law_staged_v3_greeting_is_whole(mechanism: Seq<u8>, as_server: bool)
    requires
        mechanism.len() == 20,
    ensures
        crate::greeting::v3_greeting_bytes(mechanism, as_server).len() == 64,
        crate::greeting::signature_bytes() + crate::greeting::v3_tail_bytes(mechanism, as_server)
            == crate::greeting::v3_greeting_bytes(mechanism, as_server),
        crate::greeting::prelude_bytes() + crate::greeting::v3_tail_post_major_bytes(
            mechanism,
            as_server,
        ) == crate::greeting::v3_greeting_bytes(mechanism, as_server),
{
    assert(crate::greeting::prelude_bytes() + crate::greeting::v3_tail_post_major_bytes(
        mechanism,
        as_server,
    ) =~= crate::greeting::v3_greeting_bytes(mechanism, as_server));
}

/// A ZMTP/2.0 greeting has 12 bytes, and its tail is decoded as the revision and
/// the socket type it was made of.
pub proof fn law_v2_greeting_read_back(socket_type: u8)
    ensures
        crate::greeting::v2_greeting_bytes(socket_type).len() == 12,
        crate::greeting::decoded_v2_tail(
            crate::greeting::v2_greeting_bytes(socket_type).skip(10),
        ) == Ok::<ZmtpV2Greeting, ErrorView>(ZmtpV2Greeting { revision: 1, socket_type }),
{
    assert(crate::greeting::v2_greeting_bytes(socket_type).skip(10)
        =~= crate::greeting::v2_tail_bytes(socket_type));
}

/// The version byte tells the greetings apart: 1 in a ZMTP/2.0 greeting, 3 in a
/// ZMTP/3.x greeting and in its prelude alone.
pub proof fn law_version_byte_tells_greetings_apart(
    socket_type: u8,
    mechanism: Seq<u8>,
    as_server: bool,
    rest: Seq<u8>,
)
    requires
        mechanism.len() == 20,
    ensures
        crate::greeting::peeked_revision(crate::greeting::v2_greeting_bytes(socket_type) + rest)
            == Ok::<u8, ErrorView>(1),
        crate::greeting::peeked_revision(
            crate::greeting::v3_greeting_bytes(mechanism, as_server) + rest,
        ) == Ok::<u8, ErrorView>(3),
        crate::greeting::peeked_revision(crate::greeting::prelude_bytes() + rest) == Ok::<
            u8,
            ErrorView,
        >(3),
{
}

/// Whatever follows the version byte has no say in the version.
pub proof fn law_what_follows_the_version_is_ignored(one: Seq<u8>, other: Seq<u8>)
    requires
        one.len() >= 11,
        other.len() >= 11,
        one.take(11) == other.take(11),
    ensures
        crate::greeting::peeked_revision(one) == crate::greeting::peeked_revision(other),
{
    assert(forall|i: int| 0 <= i < 11 ==> one[i] == one.take(11)[i]);
    assert(forall|i: int| 0 <= i < 11 ==> other[i] == other.take(11)[i]);
}

/// A version is found behind the signature, and behind no other ten bytes.
pub proof fn law_only_the_signature_is_accepted(bytes: Seq<u8>)
    requires
        bytes.len() >= 11,
    ensures
        crate::greeting::peeked_revision(bytes) is Ok <==> bytes.take(10)
            == crate::greeting::signature_bytes(),
        crate::greeting::peeked_revision(bytes) is Ok ==> crate::greeting::peeked_revision(bytes)
            == Ok::<u8, ErrorView>(bytes[10]),
        crate::greeting::peeked_revision(bytes) matches Err(error) ==> error is ProtocolViolation,
{
    let signature = crate::greeting::signature_bytes();
    if crate::greeting::peeked_revision(bytes) is Ok {
        assert(bytes.take(10) =~= signature);
    }
    if bytes.take(10) == signature {
        assert forall|i: int| 0 <= i < 10 implies bytes[i] == signature[i] by {
            assert(bytes.take(10)[i] == bytes[i]);
        }
    }
}

/// Names and bytes of ZMTP/2.0 socket types belong together one to one.
pub proof fn law_socket_type_codes_are_one_to_one(name: Seq<char>, code: u8)
    ensures
        crate::greeting::code_of_name(name) == Some(code) <==> crate::greeting::name_of_code(code)
            == Some(name),
{
    reveal_strlit("PAIR");
    reveal_strlit("PUB");
    reveal_strlit("SUB");
    reveal_strlit("REQ");
    reveal_strlit("REP");
    reveal_strlit("DEALER");
    reveal_strlit("ROUTER");
    reveal_strlit("PULL");
    reveal_strlit("PUSH");
    assert("PAIR"@[1] != "PUB"@[1] && "PAIR"@[1] != "PULL"@[1] && "PAIR"@[1] != "PUSH"@[1]);
    assert("PUB"@.len() == 3 && "PULL"@.len() == 4 && "PUSH"@.len() == 4);
    assert("PULL"@[2] != "PUSH"@[2]);
    assert("REQ"@[2] != "REP"@[2]);
    assert("PUB"@[0] != "SUB"@[0] && "SUB"@[0] != "REQ"@[0] && "PUB"@[0] != "REQ"@[0]);
    assert("SUB"@[0] != "REP"@[0] && "PUB"@[0] != "REP"@[0]);
    assert("DEALER"@.len() == 6 && "ROUTER"@.len() == 6 && "DEALER"@[0] != "ROUTER"@[0]);
}

/// The names of the socket types and their bytes on the wire in ZMTP/2.0.
pub proof fn law_socket_type_codes(name: Seq<char>, code: u8)
    ensures
        crate::greeting::code_of_name("PAIR"@) == Some(0u8),
        crate::greeting::code_of_name("PUB"@) == Some(1u8),
        crate::greeting::code_of_name("SUB"@) == Some(2u8),
        crate::greeting::code_of_name("REQ"@) == Some(3u8),
        crate::greeting::code_of_name("REP"@) == Some(4u8),
        crate::greeting::code_of_name("DEALER"@) == Some(5u8),
        crate::greeting::code_of_name("ROUTER"@) == Some(6u8),
        crate::greeting::code_of_name("PULL"@) == Some(7u8),
        crate::greeting::code_of_name("PUSH"@) == Some(8u8),
        crate::greeting::code_of_name(name) is Some <==> {
            ||| name == "PAIR"@
            ||| name == "PUB"@
            ||| name == "SUB"@
            ||| name == "REQ"@
            ||| name == "REP"@
            ||| name == "DEALER"@
            ||| name == "ROUTER"@
            ||| name == "PULL"@
            ||| name == "PUSH"@
        },
        crate::greeting::name_of_code(code) is Some <==> code <= 8,
{
    law_socket_type_codes_are_one_to_one("PAIR"@, 0);
    law_socket_type_codes_are_one_to_one("PUB"@, 1);
    law_socket_type_codes_are_one_to_one("SUB"@, 2);
    law_socket_type_codes_are_one_to_one("REQ"@, 3);
    law_socket_type_codes_are_one_to_one("REP"@, 4);
    law_socket_type_codes_are_one_to_one("DEALER"@, 5);
    law_socket_type_codes_are_one_to_one("ROUTER"@, 6);
    law_socket_type_codes_are_one_to_one("PULL"@, 7);
    law_socket_type_codes_are_one_to_one("PUSH"@, 8);
}

/// Where everything stands in a ZMTP/3.x greeting.
pub proof fn law_layout_of_v3_greeting(mechanism: Seq<u8>, as_server: bool)
    requires
        mechanism.len() == 20,
    ensures
        ({
            let bytes = crate::greeting::v3_greeting_bytes(mechanism, as_server);
            &&& bytes.len() == 64
            &&& bytes[0] == 0xff
            &&& forall|i: int| 1 <= i < 9 ==> bytes[i] == 0
            &&& bytes[9] == 0x7f
            &&& bytes[10] == 3
            &&& bytes[11] == 0
            &&& bytes.subrange(12, 32) == mechanism
            &&& bytes[32] == if as_server {
                1u8
            } else {
                0u8
            }
            &&& forall|i: int| 33 <= i < 64 ==> bytes[i] == 0
            &&& crate::greeting::v3_tail_bytes(mechanism, as_server) == bytes.skip(10)
            &&& crate::greeting::v3_tail_post_major_bytes(mechanism, as_server) == bytes.skip(11)
            &&& crate::greeting::prelude_bytes() == bytes.take(11)
            &&& crate::greeting::signature_bytes() == bytes.take(10)
        }),
{
    let bytes = crate::greeting::v3_greeting_bytes(mechanism, as_server);
    assert(bytes.subrange(12, 32) =~= mechanism);
    assert(crate::greeting::v3_tail_bytes(mechanism, as_server) =~= bytes.skip(10));
    assert(crate::greeting::v3_tail_post_major_bytes(mechanism, as_server) =~= bytes.skip(11));
    assert(crate::greeting::prelude_bytes() =~= bytes.take(11));
    assert(crate::greeting::signature_bytes() =~= bytes.take(10));
}

/// Where everything stands in a ZMTP/2.0 greeting.
pub proof fn law_layout_of_v2_greeting(socket_type: u8)
    ensures
        ({
            let bytes = crate::greeting::v2_greeting_bytes(socket_type);
            &&& bytes.len() == 12
            &&& bytes[0] == 0xff
            &&& forall|i: int| 1 <= i < 9 ==> bytes[i] == 0
            &&& bytes[9] == 0x7f
            &&& bytes[10] == 1
            &&& bytes[11] == socket_type
            &&& crate::greeting::v2_tail_bytes(socket_type) == bytes.skip(10)
        }),
{
    assert(crate::greeting::v2_tail_bytes(socket_type)
        =~= crate::greeting::v2_greeting_bytes(socket_type).skip(10));
}

/// Which bytes start with a signature that a version can be told behind, and which
/// version that is.
pub proof fn law_which_signatures_are_accepted(bytes: Seq<u8>)
    ensures
        crate::greeting::peeked_revision(bytes) is Ok <==> {
            &&& bytes.len() >= 11
            &&& bytes[0] == 0xff
            &&& forall|i: int| 1 <= i <= 8 ==> bytes[i] == 0
            &&& bytes[9] == 0x7f
        },
        crate::greeting::peeked_revision(bytes) matches Ok(revision) ==> revision == bytes[10],
        crate::greeting::peeked_revision(bytes) matches Err(error) ==> error is ProtocolViolation,
{
}

/// Which 64 bytes are a ZMTP/3.x greeting, and what they tell.  The bytes between the first
/// and the version have no say.
pub proof fn law_which_v3_greetings_are_understood(bytes: Seq<u8>)
    requires
        bytes.len() >= 64,
    ensures
        crate::greeting::decode_outcome(bytes) is Ok <==> {
            &&& bytes[0] == 0xff
            &&& bytes[10] == 3
            &&& bytes[32] == 0 || bytes[32] == 1
            &&& forall|i: int| 33 <= i < 64 ==> bytes[i] == 0
        },
        crate::greeting::decode_outcome(bytes) matches Ok(greeting) ==> greeting matches Some(
            greeting,
        ) && {
            &&& greeting.version == (3u8, bytes[11])
            &&& greeting.mechanism == bytes.subrange(12, 32)
            &&& greeting.as_server == (bytes[32] == 1)
        },
        crate::greeting::decode_outcome(bytes) matches Err(error) ==> error is ProtocolViolation,
        crate::greeting::decoded_greeting(bytes) is Ok
            == crate::greeting::decode_outcome(bytes) is Ok,
        crate::greeting::decode_outcome(bytes) matches Ok(greeting) ==> greeting == Some(
            crate::greeting::decoded_greeting(bytes)->Ok_0,
        ),
{
}

/// The tail of a ZMTP/2.0 greeting tells the socket type, where its version is 1.
pub proof fn law_which_v2_tails_are_understood(tail: Seq<u8>)
    requires
        tail.len() == 2,
    ensures
        crate::greeting::decoded_v2_tail(tail) is Ok <==> tail[0] == 1,
        crate::greeting::decoded_v2_tail(tail) matches Ok(greeting) ==> greeting.revision == 1
            && greeting.socket_type == tail[1],
        crate::greeting::decoded_v2_tail(tail) matches Err(error) ==> error is ProtocolViolation,
{
}

/// The name of a mechanism is what stands before the padding of its field.
pub proof fn law_mechanism_name_is_unpadded(name: Seq<u8>, padding: Seq<u8>)
    requires
        forall|i: int| 0 <= i < name.len() ==> name[i] != 0,
        padding.len() > 0 ==> padding[0] == 0,
    ensures
        crate::greeting::mechanism_text(name + padding) == if vstd::utf8::valid_utf8(name) {
            vstd::utf8::decode_utf8(name)
        } else {
            "<invalid_utf8>"@
        },
    decreases name.len(),
{
    lemma_unpadded(name, padding);
}

proof fn lemma_unpadded(name: Seq<u8>, padding: Seq<u8>)
    requires
        forall|i: int| 0 <= i < name.len() ==> name[i] != 0,
        padding.len() > 0 ==> padding[0] == 0,
    ensures
        crate::greeting::up_to_zero(name + padding) == name,
    decreases name.len(),
{
    if name.len() == 0 {
        assert(name + padding =~= padding);
        assert(name =~= Seq::empty());
    } else {
        lemma_unpadded(name.skip(1), padding);
        assert((name + padding).skip(1) =~= name.skip(1) + padding);
        assert(seq![name[0]] + name.skip(1) =~= name);
    }
}

} // verus!
