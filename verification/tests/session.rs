use socks5::auth::Credentials;
use socks5::message::{
    Address, BoundAddress, Command, DecodeError, Greeting, Request,
};
use socks5::relay::DirectionOutcome;
use socks5::session::{
    choose_method, destination, Action, Destination, Event, Phase, Session, SessionError,
};

/// Feeds a session with bytes as a client would send them: every `Read` is
/// answered from the front of `input`, every `Send` is recorded and
/// confirmed. Returns the first action that is neither, and what was sent.
fn converse(session: &mut Session, first: Action, input: &[u8]) -> (Action, Vec<Vec<u8>>, usize) {
    let mut action = first;
    let mut at = 0;
    let mut sent = Vec::new();
    loop {
        action = match action {
            Action::Read { count } => {
                if at + count > input.len() {
                    return (Action::Read { count }, sent, at);
                }
                let chunk = input[at..at + count].to_vec();
                at += count;
                session.step(Event::Received(chunk))
            }
            Action::Send { bytes } => {
                sent.push(bytes);
                session.step(Event::Sent)
            }
            other => return (other, sent, at),
        };
    }
}

fn finished(bytes: u64) -> DirectionOutcome {
    DirectionOutcome::Finished { bytes }
}

#[test]
fn both_methods_offered_chooses_user_pass() {
    assert_eq!(choose_method(&Greeting { methods: vec![0x00, 0x02] }), 0x02);
    assert_eq!(choose_method(&Greeting { methods: vec![0x02, 0x00] }), 0x02);
    assert_eq!(choose_method(&Greeting { methods: vec![0x01, 0x00, 0x03, 0x02] }), 0x02);
}

#[test]
fn single_methods_are_chosen() {
    assert_eq!(choose_method(&Greeting { methods: vec![0x00] }), 0x00);
    assert_eq!(choose_method(&Greeting { methods: vec![0x02] }), 0x02);
    assert_eq!(choose_method(&Greeting { methods: vec![0x01, 0x00] }), 0x00);
}

#[test]
fn nothing_acceptable_chooses_ff() {
    assert_eq!(choose_method(&Greeting { methods: vec![] }), 0xFF);
    assert_eq!(choose_method(&Greeting { methods: vec![0x01] }), 0xFF);
    assert_eq!(choose_method(&Greeting { methods: vec![0x01, 0x03, 0x80, 0xFF] }), 0xFF);
}

#[test]
fn session_starts_by_reading_two_bytes() {
    let (session, action) = Session::start(Credentials::defaults());
    assert_eq!(action, Action::Read { count: 2 });
    assert_eq!(session.phase(), Phase::Greeting);
    assert!(!session.is_closed());
}

#[test]
fn no_auth_connect_and_relay() {
    let (mut session, first) = Session::start(Credentials::defaults());
    let input = [0x05, 0x01, 0x00, 0x05, 0x01, 0x00, 0x01, 93, 184, 216, 34, 0x00, 0x50];
    let (action, sent, used) = converse(&mut session, first, &input);
    assert_eq!(sent, vec![vec![0x05, 0x00]]);
    assert_eq!(used, input.len());
    assert_eq!(
        action,
        Action::Connect { destination: Destination::V4 { octets: [93, 184, 216, 34], port: 80 } }
    );
    assert_eq!(session.phase(), Phase::Connecting);

    let bound = BoundAddress::V4 { octets: [192, 168, 1, 5], port: 54321 };
    let action = session.step(Event::Connected(Some(bound)));
    assert_eq!(
        action,
        Action::Send { bytes: vec![0x05, 0x00, 0x00, 0x01, 192, 168, 1, 5, 0xD4, 0x31] }
    );
    assert_eq!(session.phase(), Phase::ReportingSuccess);

    assert_eq!(session.step(Event::Sent), Action::Relay);
    assert_eq!(session.phase(), Phase::Relaying);

    let action = session
        .step(Event::Relayed { client_to_remote: finished(120), remote_to_client: finished(4096) });
    assert_eq!(action, Action::Close { outcome: Ok(()) });
    assert!(session.is_closed());
}

#[test]
fn wrong_password_closes_before_the_request() {
    let (mut session, first) = Session::start(Credentials::defaults());
    let mut input = vec![0x05, 0x01, 0x02, 0x01, 0x04];
    input.extend_from_slice(b"user");
    input.push(0x05);
    input.extend_from_slice(b"wrong");
    // A request that must never be read.
    input.extend_from_slice(&[0x05, 0x01, 0x00, 0x01, 1, 2, 3, 4, 0, 80]);
    let (action, sent, used) = converse(&mut session, first, &input);
    assert_eq!(sent, vec![vec![0x05, 0x02], vec![0x01, 0x01]]);
    assert_eq!(action, Action::Close { outcome: Err(SessionError::AuthenticationFailed) });
    assert_eq!(used, 3 + 12);
    assert!(session.is_closed());
}

#[test]
fn bind_is_refused_without_connecting() {
    let (mut session, first) = Session::start(Credentials::defaults());
    let input = [0x05, 0x01, 0x00, 0x05, 0x02, 0x00, 0x01, 10, 0, 0, 1, 0x00, 0x50];
    let (action, sent, _) = converse(&mut session, first, &input);
    assert_eq!(
        sent,
        vec![vec![0x05, 0x00], vec![0x05, 0x07, 0x00, 0x01, 0x00, 0x00, 0x00, 0x00, 0x00, 0x00]]
    );
    assert_eq!(action, Action::Close { outcome: Err(SessionError::UnsupportedCommand) });
    assert!(session.is_closed());
}

#[test]
fn udp_associate_and_unknown_commands_are_refused() {
    for code in [0x03, 0x00, 0x09, 0xFF] {
        let (mut session, first) = Session::start(Credentials::defaults());
        let input = [0x05, 0x01, 0x00, 0x05, code, 0x00, 0x03, 0x01, b'x', 0x00, 0x50];
        let (action, sent, _) = converse(&mut session, first, &input);
        assert_eq!(sent[1], vec![0x05, 0x07, 0x00, 0x01, 0, 0, 0, 0, 0, 0]);
        assert_eq!(action, Action::Close { outcome: Err(SessionError::UnsupportedCommand) });
    }
}

#[test]
fn no_acceptable_method_ends_the_session() {
    let (mut session, first) = Session::start(Credentials::defaults());
    let input = [0x05, 0x02, 0x01, 0x03, 0x05, 0x01, 0x00, 0x01, 1, 2, 3, 4, 0, 80];
    let (action, sent, used) = converse(&mut session, first, &input);
    assert_eq!(sent, vec![vec![0x05, 0xFF]]);
    assert_eq!(action, Action::Close { outcome: Err(SessionError::NoAcceptableMethod) });
    assert_eq!(used, 4);
    assert!(session.is_closed());
}

#[test]
fn empty_offer_ends_the_session() {
    let (mut session, first) = Session::start(Credentials::defaults());
    let (action, sent, used) = converse(&mut session, first, &[0x05, 0x00, 0x05, 0x01]);
    assert_eq!(sent, vec![vec![0x05, 0xFF]]);
    assert_eq!(action, Action::Close { outcome: Err(SessionError::NoAcceptableMethod) });
    assert_eq!(used, 2);
}

#[test]
fn greeting_with_wrong_version_closes_without_answer() {
    let (mut session, first) = Session::start(Credentials::defaults());
    let (action, sent, used) = converse(&mut session, first, &[0x04, 0x01, 0x00]);
    assert!(sent.is_empty());
    assert_eq!(action, Action::Close { outcome: Err(SessionError::ProtocolVersion) });
    assert_eq!(used, 2);
}

#[test]
fn right_password_leads_to_the_request() {
    let (mut session, first) = Session::start(Credentials::defaults());
    let mut input = vec![0x05, 0x02, 0x00, 0x02, 0x01, 0x04];
    input.extend_from_slice(b"user");
    input.push(0x08);
    input.extend_from_slice(b"password");
    input.extend_from_slice(&[0x05, 0x01, 0x00, 0x03, 0x0B]);
    input.extend_from_slice(b"example.com");
    input.extend_from_slice(&[0x01, 0xBB]);
    let (action, sent, used) = converse(&mut session, first, &input);
    assert_eq!(sent, vec![vec![0x05, 0x02], vec![0x01, 0x00]]);
    assert_eq!(used, input.len());
    assert_eq!(
        action,
        Action::Connect {
            destination: Destination::Named { host: "example.com".to_string(), port: 443 }
        }
    );
}

#[test]
fn overridden_credentials_are_checked() {
    let credentials =
        Credentials::with_overrides(Some("alice".to_string()), Some("s3cret".to_string()));
    let (mut session, first) = Session::start(credentials.clone());
    let mut input = vec![0x05, 0x01, 0x02, 0x01, 0x05];
    input.extend_from_slice(b"alice");
    input.push(0x06);
    input.extend_from_slice(b"s3cret");
    let (action, sent, _) = converse(&mut session, first, &input);
    assert_eq!(sent, vec![vec![0x05, 0x02], vec![0x01, 0x00]]);
    assert_eq!(action, Action::Read { count: 4 });
    assert_eq!(session.phase(), Phase::Request);

    let (mut session, first) = Session::start(credentials);
    let mut input = vec![0x05, 0x01, 0x02, 0x01, 0x04];
    input.extend_from_slice(b"user");
    input.push(0x08);
    input.extend_from_slice(b"password");
    let (action, sent, _) = converse(&mut session, first, &input);
    assert_eq!(sent, vec![vec![0x05, 0x02], vec![0x01, 0x01]]);
    assert_eq!(action, Action::Close { outcome: Err(SessionError::AuthenticationFailed) });
}

#[test]
fn malformed_sub_negotiation_is_refused() {
    let (mut session, first) = Session::start(Credentials::defaults());
    let input = [0x05, 0x01, 0x02, 0x05, 0x04, b'u'];
    let (action, sent, used) = converse(&mut session, first, &input);
    assert_eq!(sent, vec![vec![0x05, 0x02], vec![0x01, 0x01]]);
    assert_eq!(action, Action::Close { outcome: Err(SessionError::AuthenticationFailed) });
    assert_eq!(used, 5);
}

#[test]
fn malformed_sub_negotiation_ends_the_same_when_the_refusal_is_lost() {
    let (mut session, _) = Session::start(Credentials::defaults());
    session.step(Event::Received(vec![0x05, 0x01]));
    session.step(Event::Received(vec![0x02]));
    session.step(Event::Sent);
    let action = session.step(Event::Received(vec![0x02, 0x00]));
    assert_eq!(action, Action::Send { bytes: vec![0x01, 0x01] });
    assert_eq!(session.phase(), Phase::RefusingVersion);
    let action = session.step(Event::TransportFailed);
    assert_eq!(action, Action::Close { outcome: Err(SessionError::AuthenticationFailed) });
}

#[test]
fn lost_refusal_of_credentials_is_a_transport_error() {
    let (mut session, _) = Session::start(Credentials::defaults());
    session.step(Event::Received(vec![0x05, 0x01]));
    session.step(Event::Received(vec![0x02]));
    session.step(Event::Sent);
    session.step(Event::Received(vec![0x01, 0x01]));
    session.step(Event::Received(vec![b'x', 0x01]));
    let action = session.step(Event::Received(vec![b'y']));
    assert_eq!(action, Action::Send { bytes: vec![0x01, 0x01] });
    assert_eq!(session.phase(), Phase::Refusing);
    let action = session.step(Event::TransportFailed);
    assert_eq!(action, Action::Close { outcome: Err(SessionError::Transport) });
}

#[test]
fn credentials_that_are_not_utf8_are_replaced_and_refused() {
    let (mut session, first) = Session::start(Credentials::defaults());
    let input = [0x05, 0x01, 0x02, 0x01, 0x01, 0xFF, 0x01, 0xFE];
    let (action, sent, _) = converse(&mut session, first, &input);
    assert_eq!(sent, vec![vec![0x05, 0x02], vec![0x01, 0x01]]);
    assert_eq!(action, Action::Close { outcome: Err(SessionError::AuthenticationFailed) });
}

#[test]
fn replaced_credentials_are_held_against_the_expected_text() {
    let credentials =
        Credentials::with_overrides(Some("\u{FFFD}".to_string()), Some("p".to_string()));
    let (mut session, first) = Session::start(credentials);
    let input = [0x05, 0x01, 0x02, 0x01, 0x01, 0xFF, 0x01, b'p'];
    let (action, sent, _) = converse(&mut session, first, &input);
    assert_eq!(sent, vec![vec![0x05, 0x02], vec![0x01, 0x00]]);
    assert_eq!(action, Action::Read { count: 4 });
}

#[test]
fn request_errors_close_without_reply() {
    let cases: [(&[u8], SessionError); 3] = [
        (&[0x04, 0x01, 0x00, 0x01], SessionError::ProtocolVersion),
        (&[0x05, 0x01, 0x07, 0x01], SessionError::MalformedRequest),
        (&[0x05, 0x01, 0x00, 0x02], SessionError::UnsupportedAddressType),
    ];
    for (header, error) in cases {
        let (mut session, first) = Session::start(Credentials::defaults());
        let mut input = vec![0x05, 0x01, 0x00];
        input.extend_from_slice(header);
        let (action, sent, used) = converse(&mut session, first, &input);
        assert_eq!(sent, vec![vec![0x05, 0x00]]);
        assert_eq!(action, Action::Close { outcome: Err(error) });
        assert_eq!(used, 7);
    }
}

#[test]
fn bind_with_unknown_address_type_is_a_decoding_error() {
    let (mut session, first) = Session::start(Credentials::defaults());
    let input = [0x05, 0x01, 0x00, 0x05, 0x02, 0x00, 0x09];
    let (action, sent, _) = converse(&mut session, first, &input);
    assert_eq!(sent, vec![vec![0x05, 0x00]]);
    assert_eq!(action, Action::Close { outcome: Err(SessionError::UnsupportedAddressType) });
}

#[test]
fn reads_follow_the_message_boundaries() {
    let (mut session, first) = Session::start(Credentials::defaults());
    assert_eq!(first, Action::Read { count: 2 });
    assert_eq!(session.step(Event::Received(vec![0x05, 0x03])), Action::Read { count: 3 });
    assert_eq!(
        session.step(Event::Received(vec![0x01, 0x00, 0x03])),
        Action::Send { bytes: vec![0x05, 0x00] }
    );
    assert_eq!(session.step(Event::Sent), Action::Read { count: 4 });
    assert_eq!(
        session.step(Event::Received(vec![0x05, 0x01, 0x00, 0x03])),
        Action::Read { count: 1 }
    );
    assert_eq!(session.step(Event::Received(vec![0x02])), Action::Read { count: 4 });
    assert_eq!(
        session.step(Event::Received(vec![b'h', b'i', 0x00, 0x15])),
        Action::Connect { destination: Destination::Named { host: "hi".to_string(), port: 21 } }
    );
}

#[test]
fn ipv6_request_asks_for_eighteen_more_bytes() {
    let (mut session, _) = Session::start(Credentials::defaults());
    session.step(Event::Received(vec![0x05, 0x01]));
    session.step(Event::Received(vec![0x00]));
    session.step(Event::Sent);
    assert_eq!(
        session.step(Event::Received(vec![0x05, 0x01, 0x00, 0x04])),
        Action::Read { count: 18 }
    );
    let mut rest = vec![0x11; 16];
    rest.extend_from_slice(&[0x00, 0x16]);
    assert_eq!(
        session.step(Event::Received(rest)),
        Action::Connect { destination: Destination::V6 { octets: [0x11; 16], port: 22 } }
    );
}

#[test]
fn short_read_is_a_transport_error() {
    let (mut session, _) = Session::start(Credentials::defaults());
    let action = session.step(Event::Received(vec![0x05]));
    assert_eq!(action, Action::Close { outcome: Err(SessionError::Transport) });
    assert!(session.is_closed());
}

#[test]
fn long_read_is_a_transport_error() {
    let (mut session, _) = Session::start(Credentials::defaults());
    let action = session.step(Event::Received(vec![0x05, 0x01, 0x00]));
    assert_eq!(action, Action::Close { outcome: Err(SessionError::Transport) });
}

#[test]
fn failed_read_is_a_transport_error() {
    let (mut session, _) = Session::start(Credentials::defaults());
    session.step(Event::Received(vec![0x05, 0x01]));
    let action = session.step(Event::TransportFailed);
    assert_eq!(action, Action::Close { outcome: Err(SessionError::Transport) });
    assert!(session.is_closed());
}

#[test]
fn failed_send_of_selection_is_a_transport_error() {
    let (mut session, _) = Session::start(Credentials::defaults());
    session.step(Event::Received(vec![0x05, 0x01]));
    session.step(Event::Received(vec![0x00]));
    let action = session.step(Event::TransportFailed);
    assert_eq!(action, Action::Close { outcome: Err(SessionError::Transport) });
}

fn session_at_connect() -> Session {
    let (mut session, first) = Session::start(Credentials::defaults());
    let input = [0x05, 0x01, 0x00, 0x05, 0x01, 0x00, 0x01, 10, 1, 2, 3, 0x00, 0x19];
    let (action, _, _) = converse(&mut session, first, &input);
    assert_eq!(
        action,
        Action::Connect { destination: Destination::V4 { octets: [10, 1, 2, 3], port: 25 } }
    );
    session
}

#[test]
fn failed_connect_is_reported_then_raised() {
    let mut session = session_at_connect();
    let action = session.step(Event::ConnectFailed);
    assert_eq!(action, Action::Send { bytes: vec![0x05, 0x01, 0x00, 0x01, 0, 0, 0, 0, 0, 0] });
    assert_eq!(session.phase(), Phase::ReportingFailure);
    let action = session.step(Event::Sent);
    assert_eq!(action, Action::Close { outcome: Err(SessionError::Connect) });
}

#[test]
fn lost_report_of_failed_connect_is_a_transport_error() {
    let mut session = session_at_connect();
    session.step(Event::ConnectFailed);
    let action = session.step(Event::TransportFailed);
    assert_eq!(action, Action::Close { outcome: Err(SessionError::Transport) });
}

#[test]
fn lost_refusal_of_command_is_a_transport_error() {
    let (mut session, _) = Session::start(Credentials::defaults());
    session.step(Event::Received(vec![0x05, 0x01]));
    session.step(Event::Received(vec![0x00]));
    session.step(Event::Sent);
    session.step(Event::Received(vec![0x05, 0x02, 0x00, 0x01]));
    let action = session.step(Event::Received(vec![1, 2, 3, 4, 0, 80]));
    assert_eq!(action, Action::Send { bytes: vec![0x05, 0x07, 0x00, 0x01, 0, 0, 0, 0, 0, 0] });
    let action = session.step(Event::TransportFailed);
    assert_eq!(action, Action::Close { outcome: Err(SessionError::Transport) });
}

#[test]
fn unknown_bound_address_is_reported_as_zero() {
    let mut session = session_at_connect();
    let action = session.step(Event::Connected(None));
    assert_eq!(action, Action::Send { bytes: vec![0x05, 0x00, 0x00, 0x01, 0, 0, 0, 0, 0, 0] });
    assert_eq!(session.step(Event::Sent), Action::Relay);
}

#[test]
fn bound_ipv6_address_is_reported() {
    let mut session = session_at_connect();
    let octets: [u8; 16] = [0, 0, 0, 0, 0, 0, 0, 0, 0, 0, 0, 0, 0, 0, 0, 1];
    let action = session.step(Event::Connected(Some(BoundAddress::V6 { octets, port: 0xC001 })));
    let mut expected = vec![0x05, 0x00, 0x00, 0x04];
    expected.extend_from_slice(&octets);
    expected.extend_from_slice(&[0xC0, 0x01]);
    assert_eq!(action, Action::Send { bytes: expected });
}

fn session_at_relay() -> Session {
    let mut session = session_at_connect();
    session.step(Event::Connected(None));
    assert_eq!(session.step(Event::Sent), Action::Relay);
    session
}

#[test]
fn relay_errors_end_the_session_with_an_error() {
    let mut session = session_at_relay();
    let action = session.step(Event::Relayed {
        client_to_remote: DirectionOutcome::Failed,
        remote_to_client: finished(7),
    });
    assert_eq!(action, Action::Close { outcome: Err(SessionError::Transport) });

    let mut session = session_at_relay();
    let action = session.step(Event::Relayed {
        client_to_remote: DirectionOutcome::Panicked,
        remote_to_client: finished(7),
    });
    assert_eq!(action, Action::Close { outcome: Err(SessionError::PanicRecovery) });
    assert!(session.is_closed());
}

#[test]
fn closed_session_stays_closed() {
    let (mut session, _) = Session::start(Credentials::defaults());
    session.step(Event::TransportFailed);
    assert!(session.is_closed());
    for event in [
        Event::Sent,
        Event::Received(vec![]),
        Event::Received(vec![0x05, 0x01]),
        Event::Connected(None),
        Event::ConnectFailed,
        Event::TransportFailed,
        Event::Relayed { client_to_remote: finished(0), remote_to_client: finished(0) },
    ] {
        let action = session.step(event);
        assert!(matches!(action, Action::Close { outcome: Err(_) }));
        assert!(session.is_closed());
    }
}

#[test]
fn events_out_of_turn_end_the_session() {
    let (mut session, _) = Session::start(Credentials::defaults());
    assert_eq!(
        session.step(Event::Sent),
        Action::Close { outcome: Err(SessionError::Transport) }
    );
    let (mut session, _) = Session::start(Credentials::defaults());
    assert_eq!(
        session.step(Event::Connected(None)),
        Action::Close { outcome: Err(SessionError::Transport) }
    );
    let mut session = session_at_connect();
    assert_eq!(
        session.step(Event::Sent),
        Action::Close { outcome: Err(SessionError::Transport) }
    );
    let mut session = session_at_relay();
    assert_eq!(
        session.step(Event::ConnectFailed),
        Action::Close { outcome: Err(SessionError::Transport) }
    );
}

#[test]
fn destination_of_a_domain_is_lossy_text() {
    let request =
        Request { command: Command::Connect, address: Address::Domain(vec![b'a', 0xFF]), port: 1 };
    assert_eq!(
        destination(&request),
        Destination::Named { host: "a\u{FFFD}".to_string(), port: 1 }
    );
    let request = Request {
        command: Command::Connect,
        address: Address::Domain("caf\u{E9}.test".as_bytes().to_vec()),
        port: 2,
    };
    assert_eq!(
        destination(&request),
        Destination::Named { host: "caf\u{E9}.test".to_string(), port: 2 }
    );
}

#[test]
fn destination_of_an_ip_address_keeps_the_bytes() {
    let request = Request { command: Command::Connect, address: Address::V4([1, 2, 3, 4]), port: 5 };
    assert_eq!(destination(&request), Destination::V4 { octets: [1, 2, 3, 4], port: 5 });
    let request = Request { command: Command::Connect, address: Address::V6([9; 16]), port: 6 };
    assert_eq!(destination(&request), Destination::V6 { octets: [9; 16], port: 6 });
}

#[test]
fn decoding_errors_map_to_session_errors() {
    assert_eq!(SessionError::from_decode(DecodeError::ProtocolVersion), SessionError::ProtocolVersion);
    assert_eq!(
        SessionError::from_decode(DecodeError::MalformedRequest),
        SessionError::MalformedRequest
    );
    assert_eq!(
        SessionError::from_decode(DecodeError::UnsupportedAddressType),
        SessionError::UnsupportedAddressType
    );
    assert_eq!(
        SessionError::from_decode(DecodeError::Incomplete { missing: 3 }),
        SessionError::Transport
    );
}
