//! The session: one client connection, from its greeting to the end of the
//! relay.
//!
//! A session performs no I/O. It is a state machine that a driver steps:
//! every step takes the event that ended the last action and gives the
//! action to perform next. The phases follow one another in one direction
//! only, and every failure ends the session it occurs in.

use vstd::prelude::*;
use crate::auth::{Credentials, CredentialsView};
use crate::decode::{
    decode_auth_request, decode_greeting, decode_request, spec_decode_auth_request,
    spec_decode_greeting, spec_decode_request,
};
use crate::encode::{
    append, encode_auth_result, encode_method_selection, encode_reply, spec_auth_result,
    spec_method_selection, spec_reply,
};
use crate::message::{
    Address, AddressView, BoundAddress, BoundAddressView, Command, DecodeError, Greeting, Reply,
    Request, RequestView, METHOD_NONE_ACCEPTABLE, METHOD_NO_AUTH, METHOD_USER_PASS,
};
use crate::relay::{relay_result, spec_relay_result, DirectionOutcome};
use crate::text::{decode_lossy, lossy_text};

verus! {

/// Why a session ended without having relayed to the end.
#[derive(Clone, Copy, Debug, PartialEq, Eq, Structural)]
pub enum SessionError {
    /// A greeting or a request did not carry version 5.
    ProtocolVersion,
    /// The reserved byte of the request was not zero.
    MalformedRequest,
    /// The request named an address type that is none of the three known.
    UnsupportedAddressType,
    /// The client offered no method that the server accepts.
    NoAcceptableMethod,
    /// The credentials were wrong, or the sub-negotiation was malformed.
    AuthenticationFailed,
    /// The request asked for a command other than `Connect`.
    UnsupportedCommand,
    /// The outbound connection could not be opened.
    Connect,
    /// A read or a write on a socket failed, or a stream ended too early.
    Transport,
    /// One direction of the relay crashed.
    PanicRecovery,
}

impl SessionError {
    /// The session error that a decoding error amounts to. Input that ends
    /// inside a message is a stream that ended too early.
    pub open spec fn spec_from_decode(error: DecodeError) -> SessionError {
        match error {
            DecodeError::Incomplete { .. } => SessionError::Transport,
            DecodeError::ProtocolVersion => SessionError::ProtocolVersion,
            DecodeError::MalformedRequest => SessionError::MalformedRequest,
            DecodeError::UnsupportedAddressType => SessionError::UnsupportedAddressType,
        }
    }

    pub fn from_decode(error: DecodeError) -> (result: SessionError)
        ensures
            result == SessionError::spec_from_decode(error),
    {
        match error {
            DecodeError::Incomplete { .. } => SessionError::Transport,
            DecodeError::ProtocolVersion => SessionError::ProtocolVersion,
            DecodeError::MalformedRequest => SessionError::MalformedRequest,
            DecodeError::UnsupportedAddressType => SessionError::UnsupportedAddressType,
        }
    }
}

/// The method that the server chooses among those offered: username/password
/// where it is offered, else no authentication where that is offered, else
/// none. The order of the offer plays no part.
pub open spec fn spec_choose_method(methods: Seq<u8>) -> u8 {
    if methods.contains(METHOD_USER_PASS) {
        METHOD_USER_PASS
    } else if methods.contains(METHOD_NO_AUTH) {
        METHOD_NO_AUTH
    } else {
        METHOD_NONE_ACCEPTABLE
    }
}

/// Whether `method` is among `methods`.
fn offers(methods: &[u8], method: u8) -> (found: bool)
    ensures
        found == methods@.contains(method),
{
    let mut i: usize = 0;
    while i < methods.len()
        invariant
            i <= methods@.len(),
            forall|k: int| 0 <= k < i ==> methods@[k] != method,
        decreases methods@.len() - i,
    {
        if methods[i] == method {
            return true;
        }
        i = i + 1;
    }
    false
}

/// Chooses the authentication method for a greeting.
pub fn choose_method(greeting: &Greeting) -> (method: u8)
    ensures
        method == spec_choose_method(greeting@),
{
    if offers(greeting.methods.as_slice(), METHOD_USER_PASS) {
        METHOD_USER_PASS
    } else if offers(greeting.methods.as_slice(), METHOD_NO_AUTH) {
        METHOD_NO_AUTH
    } else {
        METHOD_NONE_ACCEPTABLE
    }
}

/// Where the outbound connection goes: an IP address as it came, or a host
/// name as text, to be resolved by the driver.
#[derive(Clone, Debug, PartialEq, Eq)]
pub enum Destination {
    V4 { octets: [u8; 4], port: u16 },
    V6 { octets: [u8; 16], port: u16 },
    Named { host: String, port: u16 },
}

pub enum DestinationView {
    V4 { octets: Seq<u8>, port: u16 },
    V6 { octets: Seq<u8>, port: u16 },
    Named { host: Seq<char>, port: u16 },
}

impl View for Destination {
    type V = DestinationView;

    open spec fn view(&self) -> DestinationView {
        match *self {
            Destination::V4 { octets, port } => DestinationView::V4 { octets: octets@, port },
            Destination::V6 { octets, port } => DestinationView::V6 { octets: octets@, port },
            Destination::Named { host, port } => DestinationView::Named { host: host@, port },
        }
    }
}

/// The destination that a request names. The bytes of a domain name become
/// text by lossy decoding.
pub open spec fn spec_destination(request: RequestView) -> DestinationView {
    match request.address {
        AddressView::V4(octets) => DestinationView::V4 { octets, port: request.port },
        AddressView::V6(octets) => DestinationView::V6 { octets, port: request.port },
        AddressView::Domain(name) => DestinationView::Named {
            host: lossy_text(name),
            port: request.port,
        },
    }
}

/// The destination that a request names.
pub fn destination(request: &Request) -> (result: Destination)
    ensures
        result@ == spec_destination(request@),
{
    match &request.address {
        Address::V4(octets) => Destination::V4 { octets: *octets, port: request.port },
        Address::V6(octets) => Destination::V6 { octets: *octets, port: request.port },
        Address::Domain(name) => Destination::Named {
            host: decode_lossy(name.as_slice()),
            port: request.port,
        },
    }
}

/// Where a session stands.
#[derive(Clone, Copy, Debug, PartialEq, Eq, Structural)]
pub enum Phase {
    /// The greeting is being read.
    Greeting,
    /// The choice of `method` is being sent.
    Selecting { method: u8 },
    /// The username/password request is being read.
    Authentication,
    /// The acceptance of the credentials is being sent.
    Accepting,
    /// The refusal of wrong credentials is being sent.
    Refusing,
    /// The refusal of a malformed sub-negotiation is being sent.
    RefusingVersion,
    /// The request is being read.
    Request,
    /// The refusal of a command that is not served is being sent.
    RefusingCommand,
    /// The outbound connection is being opened.
    Connecting,
    /// The report of a failed connection is being sent.
    ReportingFailure,
    /// The report of the open connection is being sent.
    ReportingSuccess,
    /// Bytes are being relayed.
    Relaying,
    /// The session has ended.
    Closed,
}

/// What the driver reports to the session.
#[derive(Clone, Debug, PartialEq, Eq)]
pub enum Event {
    /// The bytes that the last `Read` asked for, all of them and no more.
    Received(Vec<u8>),
    /// The bytes of the last `Send` were written and flushed.
    Sent,
    /// A read or a write failed, or the stream ended before the bytes asked
    /// for were there.
    TransportFailed,
    /// The outbound connection is open, with its local end where that is
    /// known.
    Connected(Option<BoundAddress>),
    /// The outbound connection could not be opened.
    ConnectFailed,
    /// Both directions of the relay have ended.
    Relayed { client_to_remote: DirectionOutcome, remote_to_client: DirectionOutcome },
}

pub enum EventView {
    Received(Seq<u8>),
    Sent,
    TransportFailed,
    Connected(Option<BoundAddressView>),
    ConnectFailed,
    Relayed { client_to_remote: DirectionOutcome, remote_to_client: DirectionOutcome },
}

impl View for Event {
    type V = EventView;

    open spec fn view(&self) -> EventView {
        match *self {
            Event::Received(bytes) => EventView::Received(bytes@),
            Event::Sent => EventView::Sent,
            Event::TransportFailed => EventView::TransportFailed,
            Event::Connected(Some(bound)) => EventView::Connected(Some(bound@)),
            Event::Connected(None) => EventView::Connected(None),
            Event::ConnectFailed => EventView::ConnectFailed,
            Event::Relayed { client_to_remote, remote_to_client } => EventView::Relayed {
                client_to_remote,
                remote_to_client,
            },
        }
    }
}

/// What the session asks the driver to do next.
#[derive(Debug, PartialEq, Eq)]
pub enum Action {
    /// Read exactly `count` bytes from the client, then report `Received`.
    Read { count: usize },
    /// Write `bytes` to the client and flush, then report `Sent`.
    Send { bytes: Vec<u8> },
    /// Open a connection to `destination`, then report `Connected` or
    /// `ConnectFailed`.
    Connect { destination: Destination },
    /// Relay between the client and the remote end until both directions
    /// have ended, then report `Relayed`.
    Relay,
    /// Close the sockets: the session is over, with this outcome.
    Close { outcome: Result<(), SessionError> },
}

pub enum ActionView {
    Read { count: usize },
    Send { bytes: Seq<u8> },
    Connect { destination: DestinationView },
    Relay,
    Close { outcome: Result<(), SessionError> },
}

impl View for Action {
    type V = ActionView;

    open spec fn view(&self) -> ActionView {
        match *self {
            Action::Read { count } => ActionView::Read { count },
            Action::Send { bytes } => ActionView::Send { bytes: bytes@ },
            Action::Connect { destination } => ActionView::Connect { destination: destination@ },
            Action::Relay => ActionView::Relay,
            Action::Close { outcome } => ActionView::Close { outcome },
        }
    }
}

/// One client connection.
#[derive(Debug)]
pub struct Session {
    phase: Phase,
    /// The bytes of the message that is being read, as far as they came.
    buffer: Vec<u8>,
    /// The number of bytes that the outstanding `Read` asked for.
    pending: usize,
    credentials: Credentials,
}

pub struct SessionView {
    pub phase: Phase,
    pub buffer: Seq<u8>,
    pub pending: usize,
    pub credentials: CredentialsView,
}

impl View for Session {
    type V = SessionView;

    closed spec fn view(&self) -> SessionView {
        SessionView {
            phase: self.phase,
            buffer: self.buffer@,
            pending: self.pending,
            credentials: self.credentials@,
        }
    }
}

/// The session ends with `outcome`.
pub open spec fn spec_close(s: SessionView, outcome: Result<(), SessionError>) -> (
    SessionView,
    ActionView,
) {
    (
        SessionView { phase: Phase::Closed, buffer: Seq::empty(), pending: 0, ..s },
        ActionView::Close { outcome },
    )
}

/// The session turns to reading a new message in `phase`, of which `count`
/// bytes are needed first.
pub open spec fn spec_read(s: SessionView, phase: Phase, count: usize) -> (SessionView, ActionView) {
    (SessionView { phase, buffer: Seq::empty(), pending: count, ..s }, ActionView::Read { count })
}

/// The session turns to sending `bytes` in `phase`.
pub open spec fn spec_send(s: SessionView, phase: Phase, bytes: Seq<u8>) -> (
    SessionView,
    ActionView,
) {
    (SessionView { phase, buffer: Seq::empty(), pending: 0, ..s }, ActionView::Send { bytes })
}

/// The session goes on reading the message of which `buffer` is there and
/// `missing` more bytes are needed.
pub open spec fn spec_read_on(s: SessionView, buffer: Seq<u8>, missing: usize) -> (
    SessionView,
    ActionView,
) {
    (SessionView { buffer, pending: missing, ..s }, ActionView::Read { count: missing })
}

/// The step on bytes received while the greeting is read.
pub open spec fn spec_on_greeting(s: SessionView, buffer: Seq<u8>) -> (SessionView, ActionView) {
    match spec_decode_greeting(buffer) {
        Err(DecodeError::Incomplete { missing }) => spec_read_on(s, buffer, missing),
        Err(error) => spec_close(s, Err(SessionError::spec_from_decode(error))),
        Ok((methods, _)) => spec_send(
            s,
            Phase::Selecting { method: spec_choose_method(methods) },
            spec_method_selection(spec_choose_method(methods)),
        ),
    }
}

/// The step on bytes received while the username/password request is read.
pub open spec fn spec_on_auth_request(s: SessionView, buffer: Seq<u8>) -> (
    SessionView,
    ActionView,
) {
    match spec_decode_auth_request(buffer) {
        Err(DecodeError::Incomplete { missing }) => spec_read_on(s, buffer, missing),
        Err(_) => spec_send(s, Phase::RefusingVersion, spec_auth_result(false)),
        Ok((request, _)) => if s.credentials.accepts(request.username, request.password) {
            spec_send(s, Phase::Accepting, spec_auth_result(true))
        } else {
            spec_send(s, Phase::Refusing, spec_auth_result(false))
        },
    }
}

/// The step on bytes received while the request is read.
pub open spec fn spec_on_request(s: SessionView, buffer: Seq<u8>) -> (SessionView, ActionView) {
    match spec_decode_request(buffer) {
        Err(DecodeError::Incomplete { missing }) => spec_read_on(s, buffer, missing),
        Err(error) => spec_close(s, Err(SessionError::spec_from_decode(error))),
        Ok((request, _)) => if request.command == Command::Connect {
            (
                SessionView { phase: Phase::Connecting, buffer: Seq::empty(), pending: 0, ..s },
                ActionView::Connect { destination: spec_destination(request) },
            )
        } else {
            spec_send(s, Phase::RefusingCommand, spec_reply(Reply::CommandNotSupported, None))
        },
    }
}

/// The step on received bytes. Bytes that come unasked, or in another number
/// than was asked for, are a failure of the transport.
pub open spec fn spec_receive(s: SessionView, bytes: Seq<u8>) -> (SessionView, ActionView) {
    if bytes.len() != s.pending {
        spec_close(s, Err(SessionError::Transport))
    } else {
        match s.phase {
            Phase::Greeting => spec_on_greeting(s, s.buffer + bytes),
            Phase::Authentication => spec_on_auth_request(s, s.buffer + bytes),
            Phase::Request => spec_on_request(s, s.buffer + bytes),
            _ => spec_close(s, Err(SessionError::Transport)),
        }
    }
}

/// The step on the report that the last bytes were sent.
pub open spec fn spec_sent(s: SessionView) -> (SessionView, ActionView) {
    match s.phase {
        Phase::Selecting { method } => if method == METHOD_USER_PASS {
            spec_read(s, Phase::Authentication, 2)
        } else if method == METHOD_NO_AUTH {
            spec_read(s, Phase::Request, 4)
        } else {
            spec_close(s, Err(SessionError::NoAcceptableMethod))
        },
        Phase::Accepting => spec_read(s, Phase::Request, 4),
        Phase::Refusing => spec_close(s, Err(SessionError::AuthenticationFailed)),
        Phase::RefusingVersion => spec_close(s, Err(SessionError::AuthenticationFailed)),
        Phase::RefusingCommand => spec_close(s, Err(SessionError::UnsupportedCommand)),
        Phase::ReportingFailure => spec_close(s, Err(SessionError::Connect)),
        Phase::ReportingSuccess => (
            SessionView { phase: Phase::Relaying, buffer: Seq::empty(), pending: 0, ..s },
            ActionView::Relay,
        ),
        _ => spec_close(s, Err(SessionError::Transport)),
    }
}

/// The outcome of a session whose relay ended.
pub open spec fn spec_relay_outcome(
    client_to_remote: DirectionOutcome,
    remote_to_client: DirectionOutcome,
) -> Result<(), SessionError> {
    match spec_relay_result(client_to_remote, remote_to_client) {
        Ok(_) => Ok(()),
        Err(error) => Err(error),
    }
}

/// The transition function of the session: the state after an event, and the
/// action that the driver is to perform next.
///
/// An event that the phase does not wait for ends the session as a failure
/// of the transport does. The one failure that is passed over is that of
/// sending the refusal of a malformed sub-negotiation: the session then ends
/// as if the refusal had been sent.
pub open spec fn spec_step(s: SessionView, event: EventView) -> (SessionView, ActionView) {
    match event {
        EventView::Received(bytes) => spec_receive(s, bytes),
        EventView::Sent => spec_sent(s),
        EventView::TransportFailed => if s.phase == Phase::RefusingVersion {
            spec_close(s, Err(SessionError::AuthenticationFailed))
        } else {
            spec_close(s, Err(SessionError::Transport))
        },
        EventView::Connected(bound) => if s.phase == Phase::Connecting {
            spec_send(s, Phase::ReportingSuccess, spec_reply(Reply::Succeeded, bound))
        } else {
            spec_close(s, Err(SessionError::Transport))
        },
        EventView::ConnectFailed => if s.phase == Phase::Connecting {
            spec_send(s, Phase::ReportingFailure, spec_reply(Reply::GeneralFailure, None))
        } else {
            spec_close(s, Err(SessionError::Transport))
        },
        EventView::Relayed { client_to_remote, remote_to_client } => if s.phase
            == Phase::Relaying {
            spec_close(s, spec_relay_outcome(client_to_remote, remote_to_client))
        } else {
            spec_close(s, Err(SessionError::Transport))
        },
    }
}

/// The state in which a session begins: nothing read, two bytes asked for.
pub open spec fn spec_start(credentials: CredentialsView) -> SessionView {
    SessionView { phase: Phase::Greeting, buffer: Seq::empty(), pending: 2, credentials }
}

impl Session {
    /// Begins a session that will hold credentials against `credentials`.
    /// The first action is to read the two bytes that open a greeting.
    pub fn start(credentials: Credentials) -> (result: (Session, Action))
        ensures
            result.0@ == spec_start(credentials@),
            result.1@ == (ActionView::Read { count: 2 }),
    {
        let session = Session { phase: Phase::Greeting, buffer: Vec::new(), pending: 2, credentials };
        (session, Action::Read { count: 2 })
    }

    /// The phase in which the session stands.
    pub fn phase(&self) -> (phase: Phase)
        ensures
            phase == self@.phase,
    {
        self.phase
    }

    /// Whether the session has ended.
    pub fn is_closed(&self) -> (closed: bool)
        ensures
            closed == (self@.phase == Phase::Closed),
    {
        match self.phase {
            Phase::Closed => true,
            _ => false,
        }
    }

    fn close(&mut self, outcome: Result<(), SessionError>) -> (action: Action)
        ensures
            (final(self)@, action@) == spec_close(old(self)@, outcome),
    {
        self.phase = Phase::Closed;
        self.buffer = Vec::new();
        self.pending = 0;
        Action::Close { outcome }
    }

    fn read(&mut self, phase: Phase, count: usize) -> (action: Action)
        ensures
            (final(self)@, action@) == spec_read(old(self)@, phase, count),
    {
        self.phase = phase;
        self.buffer = Vec::new();
        self.pending = count;
        Action::Read { count }
    }

    fn send(&mut self, phase: Phase, bytes: Vec<u8>) -> (action: Action)
        ensures
            (final(self)@, action@) == spec_send(old(self)@, phase, bytes@),
    {
        self.phase = phase;
        self.buffer = Vec::new();
        self.pending = 0;
        Action::Send { bytes }
    }

    fn read_on(&mut self, missing: usize) -> (action: Action)
        ensures
            (final(self)@, action@) == spec_read_on(old(self)@, old(self)@.buffer, missing),
    {
        self.pending = missing;
        Action::Read { count: missing }
    }

    fn on_greeting(&mut self) -> (action: Action)
        ensures
            (final(self)@, action@) == spec_on_greeting(old(self)@, old(self)@.buffer),
    {
        match decode_greeting(self.buffer.as_slice()) {
            Err(DecodeError::Incomplete { missing }) => self.read_on(missing),
            Err(error) => self.close(Err(SessionError::from_decode(error))),
            Ok((greeting, _)) => {
                let method = choose_method(&greeting);
                self.send(Phase::Selecting { method }, encode_method_selection(method))
            },
        }
    }

    fn on_auth_request(&mut self) -> (action: Action)
        ensures
            (final(self)@, action@) == spec_on_auth_request(old(self)@, old(self)@.buffer),
    {
        match decode_auth_request(self.buffer.as_slice()) {
            Err(DecodeError::Incomplete { missing }) => self.read_on(missing),
            Err(_) => self.send(Phase::RefusingVersion, encode_auth_result(false)),
            Ok((request, _)) => {
                if self.credentials.authenticate(
                    request.username.as_str(),
                    request.password.as_str(),
                ) {
                    self.send(Phase::Accepting, encode_auth_result(true))
                } else {
                    self.send(Phase::Refusing, encode_auth_result(false))
                }
            },
        }
    }

    fn on_request(&mut self) -> (action: Action)
        ensures
            (final(self)@, action@) == spec_on_request(old(self)@, old(self)@.buffer),
    {
        match decode_request(self.buffer.as_slice()) {
            Err(DecodeError::Incomplete { missing }) => self.read_on(missing),
            Err(error) => self.close(Err(SessionError::from_decode(error))),
            Ok((request, _)) => {
                match request.command {
                    Command::Connect => {
                        let target = destination(&request);
                        self.phase = Phase::Connecting;
                        self.buffer = Vec::new();
                        self.pending = 0;
                        Action::Connect { destination: target }
                    },
                    _ => self.send(
                        Phase::RefusingCommand,
                        encode_reply(Reply::CommandNotSupported, None),
                    ),
                }
            },
        }
    }

    fn receive(&mut self, bytes: Vec<u8>) -> (action: Action)
        ensures
            (final(self)@, action@) == spec_receive(old(self)@, bytes@),
    {
        if bytes.len() != self.pending {
            return self.close(Err(SessionError::Transport));
        }
        match self.phase {
            Phase::Greeting => {
                append(&mut self.buffer, bytes.as_slice());
                self.on_greeting()
            },
            Phase::Authentication => {
                append(&mut self.buffer, bytes.as_slice());
                self.on_auth_request()
            },
            Phase::Request => {
                append(&mut self.buffer, bytes.as_slice());
                self.on_request()
            },
            _ => self.close(Err(SessionError::Transport)),
        }
    }

    fn sent(&mut self) -> (action: Action)
        ensures
            (final(self)@, action@) == spec_sent(old(self)@),
    {
        match self.phase {
            Phase::Selecting { method } => {
                if method == METHOD_USER_PASS {
                    self.read(Phase::Authentication, 2)
                } else if method == METHOD_NO_AUTH {
                    self.read(Phase::Request, 4)
                } else {
                    self.close(Err(SessionError::NoAcceptableMethod))
                }
            },
            Phase::Accepting => self.read(Phase::Request, 4),
            Phase::Refusing => self.close(Err(SessionError::AuthenticationFailed)),
            Phase::RefusingVersion => self.close(Err(SessionError::AuthenticationFailed)),
            Phase::RefusingCommand => self.close(Err(SessionError::UnsupportedCommand)),
            Phase::ReportingFailure => self.close(Err(SessionError::Connect)),
            Phase::ReportingSuccess => {
                self.phase = Phase::Relaying;
                self.buffer = Vec::new();
                self.pending = 0;
                Action::Relay
            },
            _ => self.close(Err(SessionError::Transport)),
        }
    }

    /// Takes the event that ended the last action and gives the next action.
    pub fn step(&mut self, event: Event) -> (action: Action)
        ensures
            (final(self)@, action@) == spec_step(old(self)@, event@),
    {
        match event {
            Event::Received(bytes) => self.receive(bytes),
            Event::Sent => self.sent(),
            Event::TransportFailed => match self.phase {
                Phase::RefusingVersion => self.close(Err(SessionError::AuthenticationFailed)),
                _ => self.close(Err(SessionError::Transport)),
            },
            Event::Connected(bound) => match self.phase {
                Phase::Connecting => self.send(
                    Phase::ReportingSuccess,
                    encode_reply(Reply::Succeeded, bound),
                ),
                _ => self.close(Err(SessionError::Transport)),
            },
            Event::ConnectFailed => match self.phase {
                Phase::Connecting => self.send(
                    Phase::ReportingFailure,
                    encode_reply(Reply::GeneralFailure, None),
                ),
                _ => self.close(Err(SessionError::Transport)),
            },
            Event::Relayed { client_to_remote, remote_to_client } => match self.phase {
                Phase::Relaying => {
                    let outcome = match relay_result(client_to_remote, remote_to_client) {
                        Ok(_) => Ok(()),
                        Err(error) => Err(error),
                    };
                    self.close(outcome)
                },
                _ => self.close(Err(SessionError::Transport)),
            },
        }
    }
}

} // verus!
