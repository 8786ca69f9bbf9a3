//! Encoders for the messages that a server sends, and for the request that a
//! client sends.

use vstd::prelude::*;
use crate::message::{
    Address, AddressView, BoundAddress, BoundAddressView, Reply, Request, RequestView,
    ATYP_DOMAIN, ATYP_V4, ATYP_V6, AUTH_VERSION, VERSION,
};

verus! {

/// The two bytes of a port in network order, the high one first.
pub open spec fn spec_port_bytes(port: u16) -> Seq<u8> {
    seq![(port / 256) as u8, (port % 256) as u8]
}

/// The bytes of a method selection.
pub open spec fn spec_method_selection(method: u8) -> Seq<u8> {
    seq![VERSION, method]
}

/// The bytes of the answer to a username/password request.
pub open spec fn spec_auth_result(success: bool) -> Seq<u8> {
    seq![AUTH_VERSION, if success { 0u8 } else { 1u8 }]
}

/// The bytes of a reply. Where no bound address is at hand the reply carries
/// the IPv4 address 0.0.0.0 and port 0.
pub open spec fn spec_reply(reply: Reply, bound: Option<BoundAddressView>) -> Seq<u8> {
    match bound {
        None => seq![VERSION, reply.spec_code(), 0u8, ATYP_V4, 0u8, 0u8, 0u8, 0u8, 0u8, 0u8],
        Some(BoundAddressView::V4 { octets, port }) => seq![
            VERSION,
            reply.spec_code(),
            0u8,
            ATYP_V4,
        ] + octets + spec_port_bytes(port),
        Some(BoundAddressView::V6 { octets, port }) => seq![
            VERSION,
            reply.spec_code(),
            0u8,
            ATYP_V6,
        ] + octets + spec_port_bytes(port),
    }
}

/// The address field of a request: the bytes of an IP address as they are, a
/// domain name behind its length.
pub open spec fn spec_address_field(address: AddressView) -> Seq<u8> {
    match address {
        AddressView::V4(octets) => octets,
        AddressView::V6(octets) => octets,
        AddressView::Domain(name) => seq![name.len() as u8] + name,
    }
}

/// The address-type tag of an address.
pub open spec fn spec_address_tag(address: AddressView) -> u8 {
    match address {
        AddressView::V4(_) => ATYP_V4,
        AddressView::V6(_) => ATYP_V6,
        AddressView::Domain(_) => ATYP_DOMAIN,
    }
}

/// The bytes of a request whose address is well formed.
pub open spec fn spec_request(request: RequestView) -> Seq<u8> {
    seq![VERSION, request.command.spec_code(), 0u8, spec_address_tag(request.address)]
        + spec_address_field(request.address) + spec_port_bytes(request.port)
}

/// Appends `bytes` to `out`.
pub(crate) fn append(out: &mut Vec<u8>, bytes: &[u8])
    ensures
        final(out)@ == old(out)@ + bytes@,
{
    let mut i: usize = 0;
    while i < bytes.len()
        invariant
            i <= bytes@.len(),
            out@ == old(out)@ + bytes@.subrange(0, i as int),
        decreases bytes@.len() - i,
    {
        out.push(bytes[i]);
        i = i + 1;
        assert(out@ =~= old(out)@ + bytes@.subrange(0, i as int));
    }
    assert(bytes@.subrange(0, i as int) =~= bytes@);
}

/// Appends the two bytes of `port`, the high one first.
fn append_port(out: &mut Vec<u8>, port: u16)
    ensures
        final(out)@ == old(out)@ + spec_port_bytes(port),
{
    out.push((port / 256) as u8);
    out.push((port % 256) as u8);
    assert(out@ =~= old(out)@ + spec_port_bytes(port));
}

/// Encodes the server's choice of an authentication method: `VER METHOD`.
pub fn encode_method_selection(method: u8) -> (bytes: Vec<u8>)
    ensures
        bytes@ == spec_method_selection(method),
{
    let mut bytes: Vec<u8> = Vec::new();
    bytes.push(VERSION);
    bytes.push(method);
    assert(bytes@ =~= spec_method_selection(method));
    bytes
}

/// Encodes the answer to a username/password request: `VER STATUS`, with
/// status zero for success and one for failure.
pub fn encode_auth_result(success: bool) -> (bytes: Vec<u8>)
    ensures
        bytes@ == spec_auth_result(success),
{
    let mut bytes: Vec<u8> = Vec::new();
    bytes.push(AUTH_VERSION);
    bytes.push(if success { 0u8 } else { 1u8 });
    assert(bytes@ =~= spec_auth_result(success));
    bytes
}

/// Encodes a reply: `VER REP RSV ATYP BND.ADDR BND.PORT`.
///
/// The address type and the length of the address follow the family of
/// `bound`. Without a bound address the reply carries 0.0.0.0 and port 0.
pub fn encode_reply(reply: Reply, bound: Option<BoundAddress>) -> (bytes: Vec<u8>)
    ensures
        bytes@ == spec_reply(
            reply,
            match bound {
                Some(address) => Some(address@),
                None => None,
            },
        ),
{
    let mut bytes: Vec<u8> = Vec::new();
    bytes.push(VERSION);
    bytes.push(reply.code());
    bytes.push(0u8);
    match bound {
        None => {
            bytes.push(ATYP_V4);
            bytes.push(0u8);
            bytes.push(0u8);
            bytes.push(0u8);
            bytes.push(0u8);
            bytes.push(0u8);
            bytes.push(0u8);
            assert(bytes@ =~= spec_reply(reply, None));
        },
        Some(BoundAddress::V4 { octets, port }) => {
            bytes.push(ATYP_V4);
            assert(bytes@ =~= seq![VERSION, reply.spec_code(), 0u8, ATYP_V4]);
            append(&mut bytes, octets.as_slice());
            append_port(&mut bytes, port);
        },
        Some(BoundAddress::V6 { octets, port }) => {
            bytes.push(ATYP_V6);
            assert(bytes@ =~= seq![VERSION, reply.spec_code(), 0u8, ATYP_V6]);
            append(&mut bytes, octets.as_slice());
            append_port(&mut bytes, port);
        },
    }
    bytes
}

/// Encodes a request: `VER CMD RSV ATYP DST.ADDR DST.PORT`.
///
/// A domain name of more than 255 bytes does not fit behind its one-byte
/// length, and there is no encoding for it.
pub fn encode_request(request: &Request) -> (result: Option<Vec<u8>>)
    ensures
        match result {
            Some(bytes) => request@.address.wf() && bytes@ == spec_request(request@),
            None => !request@.address.wf(),
        },
{
    let mut bytes: Vec<u8> = Vec::new();
    bytes.push(VERSION);
    bytes.push(request.command.code());
    bytes.push(0u8);
    match &request.address {
        Address::V4(octets) => {
            bytes.push(ATYP_V4);
            assert(bytes@ =~= seq![VERSION, request.command.spec_code(), 0u8, ATYP_V4]);
            append(&mut bytes, octets.as_slice());
        },
        Address::V6(octets) => {
            bytes.push(ATYP_V6);
            assert(bytes@ =~= seq![VERSION, request.command.spec_code(), 0u8, ATYP_V6]);
            append(&mut bytes, octets.as_slice());
        },
        Address::Domain(name) => {
            if name.len() > 255 {
                return None;
            }
            bytes.push(ATYP_DOMAIN);
            assert(bytes@ =~= seq![VERSION, request.command.spec_code(), 0u8, ATYP_DOMAIN]);
            bytes.push(name.len() as u8);
            append(&mut bytes, name.as_slice());
            assert(bytes@ =~= seq![VERSION, request.command.spec_code(), 0u8, ATYP_DOMAIN]
                + spec_address_field(request@.address));
        },
    }
    append_port(&mut bytes, request.port);
    Some(bytes)
}

} // verus!
