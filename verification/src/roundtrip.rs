//! What holds between the encoders and the decoders.

use vstd::prelude::*;
use crate::decode::{
    spec_decode_auth_request, spec_decode_greeting, spec_decode_request, spec_port,
};
use crate::encode::{spec_address_field, spec_address_tag, spec_port_bytes, spec_request};
use crate::message::{AddressView, Command, DecodeError, RequestView, VERSION};

verus! {

/// The two bytes of a port are read back as that port.
pub proof fn port_round_trip(port: u16)
    ensures
        spec_port_bytes(port).len() == 2,
        spec_port(spec_port_bytes(port)[0], spec_port_bytes(port)[1]) == port,
{
}

/// A code byte decodes to a canonical command with that code, and a
/// canonical command is what its code decodes to.
pub proof fn command_round_trip(command: Command, code: u8)
    ensures
        Command::spec_from_code(code).canonical(),
        Command::spec_from_code(code).spec_code() == code,
        command.canonical() ==> Command::spec_from_code(command.spec_code()) == command,
{
}

/// Decoding the encoding of a request gives the request back: its command,
/// its address and its port, for each of the three address families, for a
/// domain name of every length from 0 to 255, and whatever bytes follow the
/// request. The length reported is that of the encoding.
pub proof fn request_round_trip(request: RequestView, rest: Seq<u8>)
    requires
        request.address.wf(),
        request.command.canonical(),
    ensures
        spec_decode_request(spec_request(request) + rest) == Ok::<(RequestView, nat), DecodeError>(
            (request, spec_request(request).len()),
        ),
{
    let head = seq![
        VERSION,
        request.command.spec_code(),
        0u8,
        spec_address_tag(request.address),
    ];
    let field = spec_address_field(request.address);
    let tail = spec_port_bytes(request.port);
    let s = spec_request(request) + rest;
    assert(s =~= head + field + tail + rest);
    assert(s[0] == VERSION);
    assert(s[1] == request.command.spec_code());
    assert(s[2] == 0u8);
    assert(s[3] == spec_address_tag(request.address));
    port_round_trip(request.port);
    match request.address {
        AddressView::V4(octets) => {
            assert(s.subrange(4, 8) =~= octets);
            assert(s[8] == tail[0]);
            assert(s[9] == tail[1]);
        },
        AddressView::V6(octets) => {
            assert(s.subrange(4, 20) =~= octets);
            assert(s[20] == tail[0]);
            assert(s[21] == tail[1]);
        },
        AddressView::Domain(name) => {
            let n = name.len() as int;
            assert(s[4] == n as u8);
            assert(s.subrange(5, 5 + n) =~= name);
            assert(s[5 + n] == tail[0]);
            assert(s[6 + n] == tail[1]);
        },
    }
}

/// What was decoded as a request encodes to the very bytes it was decoded
/// from, and is a request that can be encoded: its address is well formed
/// and its command canonical.
pub proof fn decoded_request_encodes_back(s: Seq<u8>)
    requires
        spec_decode_request(s) is Ok,
    ensures
        ({
            let (request, consumed) = spec_decode_request(s)->Ok_0;
            &&& consumed <= s.len()
            &&& request.address.wf()
            &&& request.command.canonical()
            &&& spec_request(request) == s.subrange(0, consumed as int)
        }),
{
    let (request, consumed) = spec_decode_request(s)->Ok_0;
    assert(spec_request(request) =~= s.subrange(0, consumed as int));
}

/// A decoder that asks for more bytes asks for at least one, and when
/// exactly that many bytes have come it has reached the end of the greeting,
/// asks again, or has found a fault: it never takes less than everything
/// that was read.
pub proof fn greeting_is_read_exactly(s: Seq<u8>, more: Seq<u8>)
    requires
        spec_decode_greeting(s) is Err,
        spec_decode_greeting(s)->Err_0 is Incomplete,
        more.len() == spec_decode_greeting(s)->Err_0->missing,
    ensures
        more.len() > 0,
        s.len() + more.len() <= 2 + 255,
        spec_decode_greeting(s + more) is Ok ==> spec_decode_greeting(s + more)->Ok_0.1 == s.len()
            + more.len(),
{
    let t = s + more;
    assert(forall|i: int| 0 <= i < s.len() ==> t[i] == s[i]);
}

/// The same for the username/password request.
pub proof fn auth_request_is_read_exactly(s: Seq<u8>, more: Seq<u8>)
    requires
        spec_decode_auth_request(s) is Err,
        spec_decode_auth_request(s)->Err_0 is Incomplete,
        more.len() == spec_decode_auth_request(s)->Err_0->missing,
    ensures
        more.len() > 0,
        s.len() + more.len() <= 3 + 255 + 255,
        spec_decode_auth_request(s + more) is Ok ==> spec_decode_auth_request(s + more)->Ok_0.1
            == s.len() + more.len(),
{
    let t = s + more;
    assert(forall|i: int| 0 <= i < s.len() ==> t[i] == s[i]);
}

/// The same for the request.
pub proof fn request_is_read_exactly(s: Seq<u8>, more: Seq<u8>)
    requires
        spec_decode_request(s) is Err,
        spec_decode_request(s)->Err_0 is Incomplete,
        more.len() == spec_decode_request(s)->Err_0->missing,
    ensures
        more.len() > 0,
        s.len() + more.len() <= 7 + 255,
        spec_decode_request(s + more) is Ok ==> spec_decode_request(s + more)->Ok_0.1 == s.len()
            + more.len(),
{
    let t = s + more;
    assert(forall|i: int| 0 <= i < s.len() ==> t[i] == s[i]);
}

/// A fault that a decoder has found stays: no bytes that follow can turn a
/// wrong version, a reserved byte that is not zero or an unknown address
/// type into a message.
pub proof fn faults_are_final(s: Seq<u8>, more: Seq<u8>)
    ensures
        (spec_decode_greeting(s) is Err && !(spec_decode_greeting(s)->Err_0 is Incomplete))
            ==> spec_decode_greeting(s + more) == spec_decode_greeting(s),
        (spec_decode_auth_request(s) is Err && !(spec_decode_auth_request(s)->Err_0
            is Incomplete)) ==> spec_decode_auth_request(s + more) == spec_decode_auth_request(s),
        (spec_decode_request(s) is Err && !(spec_decode_request(s)->Err_0 is Incomplete))
            ==> spec_decode_request(s + more) == spec_decode_request(s),
{
    let t = s + more;
    assert(forall|i: int| 0 <= i < s.len() ==> t[i] == s[i]);
}

} // verus!
