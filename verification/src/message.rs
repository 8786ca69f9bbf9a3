//! The values that travel in SOCKS5 messages, and their mathematical views.

use vstd::prelude::*;

verus! {

/// The protocol version carried by greetings, selections, requests and replies.
pub const VERSION: u8 = 0x05;

/// The version of the username/password sub-negotiation.
pub const AUTH_VERSION: u8 = 0x01;

/// Method identifier: no authentication required.
pub const METHOD_NO_AUTH: u8 = 0x00;

/// Method identifier: username/password.
pub const METHOD_USER_PASS: u8 = 0x02;

/// Method identifier sent when none of the offered methods is acceptable.
pub const METHOD_NONE_ACCEPTABLE: u8 = 0xFF;

/// Address-type tag of an IPv4 address.
pub const ATYP_V4: u8 = 0x01;

/// Address-type tag of a domain name.
pub const ATYP_DOMAIN: u8 = 0x03;

/// Address-type tag of an IPv6 address.
pub const ATYP_V6: u8 = 0x04;

/// What a request asks the proxy to do.
#[derive(Clone, Copy, Debug, PartialEq, Eq, Structural)]
pub enum Command {
    Connect,
    Bind,
    UdpAssociate,
    Unknown(u8),
}

impl Command {
    /// The command that a code byte stands for.
    pub open spec fn spec_from_code(code: u8) -> Command {
        if code == 1 {
            Command::Connect
        } else if code == 2 {
            Command::Bind
        } else if code == 3 {
            Command::UdpAssociate
        } else {
            Command::Unknown(code)
        }
    }

    /// The code byte of a command.
    pub open spec fn spec_code(self) -> u8 {
        match self {
            Command::Connect => 1,
            Command::Bind => 2,
            Command::UdpAssociate => 3,
            Command::Unknown(code) => code,
        }
    }

    /// A command is canonical when it is the one its own code byte decodes to:
    /// every command but an `Unknown` that carries the code of a known one.
    pub open spec fn canonical(self) -> bool {
        match self {
            Command::Unknown(code) => code != 1 && code != 2 && code != 3,
            _ => true,
        }
    }

    pub fn from_code(code: u8) -> (command: Command)
        ensures
            command == Command::spec_from_code(code),
            command.canonical(),
            command.spec_code() == code,
    {
        if code == 1 {
            Command::Connect
        } else if code == 2 {
            Command::Bind
        } else if code == 3 {
            Command::UdpAssociate
        } else {
            Command::Unknown(code)
        }
    }

    pub fn code(self) -> (code: u8)
        ensures
            code == self.spec_code(),
    {
        match self {
            Command::Connect => 1,
            Command::Bind => 2,
            Command::UdpAssociate => 3,
            Command::Unknown(code) => code,
        }
    }
}

/// The outcome that a reply reports to the client.
#[derive(Clone, Copy, Debug, PartialEq, Eq, Structural)]
pub enum Reply {
    Succeeded,
    GeneralFailure,
    ConnectionNotAllowed,
    NetworkUnreachable,
    HostUnreachable,
    ConnectionRefused,
    TtlExpired,
    CommandNotSupported,
    AddressTypeNotSupported,
}

impl Reply {
    /// The code byte of a reply.
    pub open spec fn spec_code(self) -> u8 {
        match self {
            Reply::Succeeded => 0x00,
            Reply::GeneralFailure => 0x01,
            Reply::ConnectionNotAllowed => 0x02,
            Reply::NetworkUnreachable => 0x03,
            Reply::HostUnreachable => 0x04,
            Reply::ConnectionRefused => 0x05,
            Reply::TtlExpired => 0x06,
            Reply::CommandNotSupported => 0x07,
            Reply::AddressTypeNotSupported => 0x08,
        }
    }

    pub fn code(self) -> (code: u8)
        ensures
            code == self.spec_code(),
    {
        match self {
            Reply::Succeeded => 0x00,
            Reply::GeneralFailure => 0x01,
            Reply::ConnectionNotAllowed => 0x02,
            Reply::NetworkUnreachable => 0x03,
            Reply::HostUnreachable => 0x04,
            Reply::ConnectionRefused => 0x05,
            Reply::TtlExpired => 0x06,
            Reply::CommandNotSupported => 0x07,
            Reply::AddressTypeNotSupported => 0x08,
        }
    }
}

/// The destination that a request names.
#[derive(Clone, Debug, PartialEq, Eq)]
pub enum Address {
    V4([u8; 4]),
    V6([u8; 16]),
    /// A domain name, as the bytes that came over the wire.
    Domain(Vec<u8>),
}

/// An address as mathematics: its family and its bytes.
pub enum AddressView {
    V4(Seq<u8>),
    V6(Seq<u8>),
    Domain(Seq<u8>),
}

impl AddressView {
    /// The bytes have the length that the family fixes; a domain name fits
    /// behind a one-byte length prefix.
    pub open spec fn wf(self) -> bool {
        match self {
            AddressView::V4(octets) => octets.len() == 4,
            AddressView::V6(octets) => octets.len() == 16,
            AddressView::Domain(name) => name.len() <= 255,
        }
    }
}

impl View for Address {
    type V = AddressView;

    open spec fn view(&self) -> AddressView {
        match *self {
            Address::V4(octets) => AddressView::V4(octets@),
            Address::V6(octets) => AddressView::V6(octets@),
            Address::Domain(name) => AddressView::Domain(name@),
        }
    }
}

/// A client's request: a command, a destination and a port.
#[derive(Clone, Debug, PartialEq, Eq)]
pub struct Request {
    pub command: Command,
    pub address: Address,
    pub port: u16,
}

pub struct RequestView {
    pub command: Command,
    pub address: AddressView,
    pub port: u16,
}

impl View for Request {
    type V = RequestView;

    open spec fn view(&self) -> RequestView {
        RequestView { command: self.command, address: self.address@, port: self.port }
    }
}

/// A client's greeting: the authentication methods it offers, in the order
/// in which it sent them.
#[derive(Clone, Debug, PartialEq, Eq)]
pub struct Greeting {
    pub methods: Vec<u8>,
}

impl View for Greeting {
    type V = Seq<u8>;

    open spec fn view(&self) -> Seq<u8> {
        self.methods@
    }
}

/// The credentials that a client presents in the sub-negotiation, as text.
#[derive(Clone, Debug, PartialEq, Eq)]
pub struct AuthRequest {
    pub username: String,
    pub password: String,
}

pub struct AuthRequestView {
    pub username: Seq<char>,
    pub password: Seq<char>,
}

impl View for AuthRequest {
    type V = AuthRequestView;

    open spec fn view(&self) -> AuthRequestView {
        AuthRequestView { username: self.username@, password: self.password@ }
    }
}

/// The local end of the outbound connection, reported in a reply.
#[derive(Clone, Copy, Debug, PartialEq, Eq)]
pub enum BoundAddress {
    V4 { octets: [u8; 4], port: u16 },
    V6 { octets: [u8; 16], port: u16 },
}

pub enum BoundAddressView {
    V4 { octets: Seq<u8>, port: u16 },
    V6 { octets: Seq<u8>, port: u16 },
}

impl View for BoundAddress {
    type V = BoundAddressView;

    open spec fn view(&self) -> BoundAddressView {
        match *self {
            BoundAddress::V4 { octets, port } => BoundAddressView::V4 { octets: octets@, port },
            BoundAddress::V6 { octets, port } => BoundAddressView::V6 { octets: octets@, port },
        }
    }
}

/// Why a decoder produced no value.
#[derive(Clone, Copy, Debug, PartialEq, Eq, Structural)]
pub enum DecodeError {
    /// The input ends before the message does. `missing` is the number of
    /// further bytes without which the decoder cannot go on.
    Incomplete { missing: usize },
    /// The version byte is not the one the message must carry.
    ProtocolVersion,
    /// The reserved byte of a request is not zero.
    MalformedRequest,
    /// The address-type tag of a request is none of the three known ones.
    UnsupportedAddressType,
}

} // verus!
