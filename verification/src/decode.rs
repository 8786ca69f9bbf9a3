//! Decoders for the messages that a client sends.
//!
//! A decoder looks at the front of a byte sequence. It never reads a field
//! before the fields that fix its place and length have been checked, so a
//! wrong version byte is reported as soon as it is there, whatever follows.
//! When the sequence ends too early the decoder says how many more bytes it
//! needs before it can go on; a driver that reads exactly that many and calls
//! again never reads past the end of a message.

use vstd::prelude::*;
use crate::message::{
    Address, AddressView, AuthRequest, AuthRequestView, Command, DecodeError, Greeting, Request,
    RequestView, ATYP_DOMAIN, ATYP_V4, ATYP_V6, AUTH_VERSION, VERSION,
};
use crate::text::{decode_lossy, lossy_text};

verus! {

/// The port that two bytes in network order stand for.
pub open spec fn spec_port(high: u8, low: u8) -> u16 {
    (high as int * 256 + low as int) as u16
}

/// What `decode_greeting` makes of a byte sequence: the offered methods and
/// the length of the message, or the reason why there is none.
pub open spec fn spec_decode_greeting(s: Seq<u8>) -> Result<(Seq<u8>, nat), DecodeError> {
    if s.len() < 2 {
        Err(DecodeError::Incomplete { missing: (2 - s.len()) as usize })
    } else if s[0] != VERSION {
        Err(DecodeError::ProtocolVersion)
    } else if s.len() < 2 + s[1] {
        Err(DecodeError::Incomplete { missing: (2 + s[1] - s.len()) as usize })
    } else {
        Ok((s.subrange(2, 2 + s[1]), (2 + s[1]) as nat))
    }
}

/// What `decode_auth_request` makes of a byte sequence.
pub open spec fn spec_decode_auth_request(s: Seq<u8>) -> Result<(AuthRequestView, nat), DecodeError> {
    if s.len() < 2 {
        Err(DecodeError::Incomplete { missing: (2 - s.len()) as usize })
    } else if s[0] != AUTH_VERSION {
        Err(DecodeError::ProtocolVersion)
    } else if s.len() < 3 + s[1] {
        Err(DecodeError::Incomplete { missing: (3 + s[1] - s.len()) as usize })
    } else if s.len() < 3 + s[1] + s[2 + s[1]] {
        Err(DecodeError::Incomplete { missing: (3 + s[1] + s[2 + s[1]] - s.len()) as usize })
    } else {
        Ok(
            (
                AuthRequestView {
                    username: lossy_text(s.subrange(2, 2 + s[1])),
                    password: lossy_text(s.subrange(3 + s[1], 3 + s[1] + s[2 + s[1]])),
                },
                (3 + s[1] + s[2 + s[1]]) as nat,
            ),
        )
    }
}

/// What `decode_request` makes of a byte sequence.
pub open spec fn spec_decode_request(s: Seq<u8>) -> Result<(RequestView, nat), DecodeError> {
    if s.len() < 4 {
        Err(DecodeError::Incomplete { missing: (4 - s.len()) as usize })
    } else if s[0] != VERSION {
        Err(DecodeError::ProtocolVersion)
    } else if s[2] != 0 {
        Err(DecodeError::MalformedRequest)
    } else if s[3] == ATYP_V4 {
        if s.len() < 10 {
            Err(DecodeError::Incomplete { missing: (10 - s.len()) as usize })
        } else {
            Ok(
                (
                    RequestView {
                        command: Command::spec_from_code(s[1]),
                        address: AddressView::V4(s.subrange(4, 8)),
                        port: spec_port(s[8], s[9]),
                    },
                    10,
                ),
            )
        }
    } else if s[3] == ATYP_DOMAIN {
        if s.len() < 5 {
            Err(DecodeError::Incomplete { missing: (5 - s.len()) as usize })
        } else if s.len() < 7 + s[4] {
            Err(DecodeError::Incomplete { missing: (7 + s[4] - s.len()) as usize })
        } else {
            Ok(
                (
                    RequestView {
                        command: Command::spec_from_code(s[1]),
                        address: AddressView::Domain(s.subrange(5, 5 + s[4])),
                        port: spec_port(s[5 + s[4]], s[6 + s[4]]),
                    },
                    (7 + s[4]) as nat,
                ),
            )
        }
    } else if s[3] == ATYP_V6 {
        if s.len() < 22 {
            Err(DecodeError::Incomplete { missing: (22 - s.len()) as usize })
        } else {
            Ok(
                (
                    RequestView {
                        command: Command::spec_from_code(s[1]),
                        address: AddressView::V6(s.subrange(4, 20)),
                        port: spec_port(s[20], s[21]),
                    },
                    22,
                ),
            )
        }
    } else {
        Err(DecodeError::UnsupportedAddressType)
    }
}

/// Copies the bytes of `input` from `start` up to `end`.
fn copy_range(input: &[u8], start: usize, end: usize) -> (out: Vec<u8>)
    requires
        start <= end <= input@.len(),
    ensures
        out@ == input@.subrange(start as int, end as int),
{
    let mut out: Vec<u8> = Vec::new();
    let mut i: usize = start;
    while i < end
        invariant
            start <= i <= end <= input@.len(),
            out@ == input@.subrange(start as int, i as int),
        decreases end - i,
    {
        out.push(input[i]);
        i = i + 1;
        assert(out@ =~= input@.subrange(start as int, i as int));
    }
    out
}

/// The four bytes of `input` that begin at `start`.
fn octets4(input: &[u8], start: usize) -> (out: [u8; 4])
    requires
        start + 4 <= input@.len(),
    ensures
        out@ == input@.subrange(start as int, start + 4),
{
    let out: [u8; 4] = [input[start], input[start + 1], input[start + 2], input[start + 3]];
    assert(out@ =~= input@.subrange(start as int, start + 4));
    out
}

/// The sixteen bytes of `input` that begin at `start`.
fn octets16(input: &[u8], start: usize) -> (out: [u8; 16])
    requires
        start + 16 <= input@.len(),
    ensures
        out@ == input@.subrange(start as int, start + 16),
{
    let out: [u8; 16] = [
        input[start],
        input[start + 1],
        input[start + 2],
        input[start + 3],
        input[start + 4],
        input[start + 5],
        input[start + 6],
        input[start + 7],
        input[start + 8],
        input[start + 9],
        input[start + 10],
        input[start + 11],
        input[start + 12],
        input[start + 13],
        input[start + 14],
        input[start + 15],
    ];
    assert(out@ =~= input@.subrange(start as int, start + 16));
    out
}

/// The port in two bytes, the high one first.
pub fn port_from_bytes(high: u8, low: u8) -> (port: u16)
    ensures
        port == spec_port(high, low),
{
    (high as u16) * 256 + (low as u16)
}

/// Decodes a greeting, `VER NMETHODS METHODS..`, from the front of `input`.
///
/// Returns the greeting and the number of bytes it took. A greeting that
/// offers no method at all is a valid one.
pub fn decode_greeting(input: &[u8]) -> (result: Result<(Greeting, usize), DecodeError>)
    ensures
        match result {
            Ok((greeting, consumed)) => spec_decode_greeting(input@) == Ok::<
                (Seq<u8>, nat),
                DecodeError,
            >((greeting@, consumed as nat)),
            Err(error) => spec_decode_greeting(input@) == Err::<(Seq<u8>, nat), DecodeError>(
                error,
            ),
        },
{
    let len = input.len();
    if len < 2 {
        return Err(DecodeError::Incomplete { missing: 2 - len });
    }
    if input[0] != VERSION {
        return Err(DecodeError::ProtocolVersion);
    }
    let end: usize = 2 + input[1] as usize;
    if len < end {
        return Err(DecodeError::Incomplete { missing: end - len });
    }
    let methods = copy_range(input, 2, end);
    Ok((Greeting { methods }, end))
}

/// Decodes a username/password request, `VER ULEN UNAME PLEN PASSWD`, from
/// the front of `input`.
///
/// The name and the password become text by lossy decoding: bytes that are
/// no valid UTF-8 are replaced, never refused.
pub fn decode_auth_request(input: &[u8]) -> (result: Result<(AuthRequest, usize), DecodeError>)
    ensures
        match result {
            Ok((request, consumed)) => spec_decode_auth_request(input@) == Ok::<
                (AuthRequestView, nat),
                DecodeError,
            >((request@, consumed as nat)),
            Err(error) => spec_decode_auth_request(input@) == Err::<
                (AuthRequestView, nat),
                DecodeError,
            >(error),
        },
{
    let len = input.len();
    if len < 2 {
        return Err(DecodeError::Incomplete { missing: 2 - len });
    }
    if input[0] != AUTH_VERSION {
        return Err(DecodeError::ProtocolVersion);
    }
    let name_end: usize = 2 + input[1] as usize;
    if len < name_end + 1 {
        return Err(DecodeError::Incomplete { missing: name_end + 1 - len });
    }
    let end: usize = name_end + 1 + input[name_end] as usize;
    if len < end {
        return Err(DecodeError::Incomplete { missing: end - len });
    }
    let name = copy_range(input, 2, name_end);
    let word = copy_range(input, name_end + 1, end);
    let username = decode_lossy(name.as_slice());
    let password = decode_lossy(word.as_slice());
    Ok((AuthRequest { username, password }, end))
}

/// Decodes a request, `VER CMD RSV ATYP DST.ADDR DST.PORT`, from the front of
/// `input`.
///
/// Every command code is decoded, the unknown ones too: whether a command is
/// served is not the decoder's to say. A domain name of length zero is
/// accepted.
pub fn decode_request(input: &[u8]) -> (result: Result<(Request, usize), DecodeError>)
    ensures
        match result {
            Ok((request, consumed)) => spec_decode_request(input@) == Ok::<
                (RequestView, nat),
                DecodeError,
            >((request@, consumed as nat)),
            Err(error) => spec_decode_request(input@) == Err::<(RequestView, nat), DecodeError>(
                error,
            ),
        },
{
    let len = input.len();
    if len < 4 {
        return Err(DecodeError::Incomplete { missing: 4 - len });
    }
    if input[0] != VERSION {
        return Err(DecodeError::ProtocolVersion);
    }
    if input[2] != 0 {
        return Err(DecodeError::MalformedRequest);
    }
    let command = Command::from_code(input[1]);
    let kind = input[3];
    if kind == ATYP_V4 {
        if len < 10 {
            return Err(DecodeError::Incomplete { missing: 10 - len });
        }
        let address = Address::V4(octets4(input, 4));
        let port = port_from_bytes(input[8], input[9]);
        Ok((Request { command, address, port }, 10))
    } else if kind == ATYP_DOMAIN {
        if len < 5 {
            return Err(DecodeError::Incomplete { missing: 5 - len });
        }
        let name_end: usize = 5 + input[4] as usize;
        if len < name_end + 2 {
            return Err(DecodeError::Incomplete { missing: name_end + 2 - len });
        }
        let address = Address::Domain(copy_range(input, 5, name_end));
        let port = port_from_bytes(input[name_end], input[name_end + 1]);
        Ok((Request { command, address, port }, name_end + 2))
    } else if kind == ATYP_V6 {
        if len < 22 {
            return Err(DecodeError::Incomplete { missing: 22 - len });
        }
        let address = Address::V6(octets16(input, 4));
        let port = port_from_bytes(input[20], input[21]);
        Ok((Request { command, address, port }, 22))
    } else {
        Err(DecodeError::UnsupportedAddressType)
    }
}

} // verus!
