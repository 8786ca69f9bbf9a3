//! What holds of every session, whatever the driver reports to it.

use vstd::prelude::*;
use crate::auth::CredentialsView;
use crate::decode::{spec_decode_auth_request, spec_decode_greeting, spec_decode_request};
use crate::encode::{spec_auth_result, spec_method_selection, spec_reply};
use crate::message::{
    AuthRequestView, Command, DecodeError, Reply, RequestView, METHOD_NONE_ACCEPTABLE,
    METHOD_NO_AUTH, METHOD_USER_PASS,
};
use crate::roundtrip::{
    auth_request_is_read_exactly, greeting_is_read_exactly, request_is_read_exactly,
};
use crate::session::{
    spec_choose_method, spec_start, spec_step, ActionView, EventView, Phase, SessionError,
    SessionView,
};

verus! {

/// How far a phase lies from the start of a session.
pub open spec fn rank(phase: Phase) -> nat {
    match phase {
        Phase::Greeting => 0,
        Phase::Selecting { .. } => 1,
        Phase::Authentication => 2,
        Phase::Accepting => 3,
        Phase::Refusing => 3,
        Phase::RefusingVersion => 3,
        Phase::Request => 4,
        Phase::RefusingCommand => 5,
        Phase::Connecting => 5,
        Phase::ReportingFailure => 6,
        Phase::ReportingSuccess => 6,
        Phase::Relaying => 7,
        Phase::Closed => 8,
    }
}

/// The state of a session is consistent: while a message is read, the bytes
/// that are there are the front of a message that is not complete, and the
/// outstanding read asks for what the decoder misses; at every other time
/// nothing is buffered and nothing is asked for.
pub open spec fn consistent(s: SessionView) -> bool {
    match s.phase {
        Phase::Greeting => spec_decode_greeting(s.buffer) == Err::<(Seq<u8>, nat), DecodeError>(
            DecodeError::Incomplete { missing: s.pending },
        ),
        Phase::Authentication => spec_decode_auth_request(s.buffer) == Err::<
            (AuthRequestView, nat),
            DecodeError,
        >(DecodeError::Incomplete { missing: s.pending }),
        Phase::Request => spec_decode_request(s.buffer) == Err::<(RequestView, nat), DecodeError>(
            DecodeError::Incomplete { missing: s.pending },
        ),
        _ => s.buffer.len() == 0 && s.pending == 0,
    }
}

/// The actions that a session gives in answer to a sequence of events.
pub open spec fn spec_run(s: SessionView, events: Seq<EventView>) -> Seq<ActionView>
    decreases events.len(),
{
    if events.len() == 0 {
        Seq::empty()
    } else {
        seq![spec_step(s, events[0]).1] + spec_run(spec_step(s, events[0]).0, events.drop_first())
    }
}

/// Where username/password is offered it is chosen, whatever else is
/// offered with it and in whatever order.
pub proof fn user_pass_is_preferred(methods: Seq<u8>)
    requires
        methods.contains(METHOD_USER_PASS),
    ensures
        spec_choose_method(methods) == METHOD_USER_PASS,
{
}

/// Where no authentication is offered and username/password is not, no
/// authentication is chosen.
pub proof fn no_auth_is_second_choice(methods: Seq<u8>)
    requires
        methods.contains(METHOD_NO_AUTH),
        !methods.contains(METHOD_USER_PASS),
    ensures
        spec_choose_method(methods) == METHOD_NO_AUTH,
{
}

/// Where neither of the two is offered, and so for an empty offer, the
/// choice is `0xFF`: no acceptable method.
pub proof fn nothing_acceptable_is_refused(methods: Seq<u8>)
    requires
        !methods.contains(METHOD_NO_AUTH),
        !methods.contains(METHOD_USER_PASS),
    ensures
        spec_choose_method(methods) == METHOD_NONE_ACCEPTABLE,
{
}

/// A session begins in a consistent state, and every step leaves it in one.
pub proof fn every_state_is_consistent(
    credentials: CredentialsView,
    s: SessionView,
    event: EventView,
)
    ensures
        consistent(spec_start(credentials)),
        consistent(spec_step(s, event).0),
{
    assert(Seq::<u8>::empty().len() == 0);
}

/// A session never reads past the end of a message: when the bytes asked
/// for complete the message, the message is all that was read.
pub proof fn messages_are_read_exactly(s: SessionView, bytes: Seq<u8>)
    requires
        consistent(s),
        bytes.len() == s.pending,
    ensures
        s.phase == Phase::Greeting && spec_decode_greeting(s.buffer + bytes) is Ok
            ==> spec_decode_greeting(s.buffer + bytes)->Ok_0.1 == s.buffer.len() + bytes.len(),
        s.phase == Phase::Authentication && spec_decode_auth_request(s.buffer + bytes) is Ok
            ==> spec_decode_auth_request(s.buffer + bytes)->Ok_0.1 == s.buffer.len()
            + bytes.len(),
        s.phase == Phase::Request && spec_decode_request(s.buffer + bytes) is Ok
            ==> spec_decode_request(s.buffer + bytes)->Ok_0.1 == s.buffer.len() + bytes.len(),
{
    if s.phase == Phase::Greeting {
        greeting_is_read_exactly(s.buffer, bytes);
    }
    if s.phase == Phase::Authentication {
        auth_request_is_read_exactly(s.buffer, bytes);
    }
    if s.phase == Phase::Request {
        request_is_read_exactly(s.buffer, bytes);
    }
}

/// The phases follow one another in one direction: no step leads back. A
/// step stays in its phase only to read more of the same message, or once
/// the session is closed.
pub proof fn no_step_leads_back(s: SessionView, event: EventView)
    ensures
        rank(s.phase) <= rank(spec_step(s, event).0.phase),
        spec_step(s, event).0.phase == s.phase ==> (spec_step(s, event).1 is Read || s.phase
            == Phase::Closed),
        spec_step(s, event).0.credentials == s.credentials,
{
}

/// Every step ends the session or gives the driver something to do, and
/// the session is closed exactly when the action is to close.
pub proof fn closing_is_the_last_action(s: SessionView, event: EventView)
    ensures
        spec_step(s, event).1 is Close <==> spec_step(s, event).0.phase == Phase::Closed,
{
}

/// A read always asks for something, and never for more than the longest
/// field of a message with what frames it: between 1 and 257 bytes.
pub proof fn reads_are_bounded(s: SessionView, event: EventView)
    ensures
        spec_step(s, event).1 is Read ==> 1 <= spec_step(s, event).1->count <= 257,
{
}

/// Once a session is closed, every further event is answered by closing.
pub proof fn closed_stays_closed(s: SessionView, events: Seq<EventView>)
    requires
        s.phase == Phase::Closed,
    ensures
        spec_run(s, events).len() == events.len(),
        forall|i: int| 0 <= i < events.len() ==> (#[trigger] spec_run(s, events)[i]) is Close,
    decreases events.len(),
{
    if events.len() > 0 {
        let next = spec_step(s, events[0]).0;
        closed_stays_closed(next, events.drop_first());
        assert forall|i: int| 0 <= i < events.len() implies (#[trigger] spec_run(s, events)[i])
            is Close by {
            if i > 0 {
                assert(spec_run(s, events)[i] == spec_run(next, events.drop_first())[i - 1]);
            }
        }
    }
}

/// A session that is one step from its end: it is sending its last message,
/// and whatever is reported next closes it.
pub open spec fn sending_last_message(s: SessionView) -> bool {
    s.phase == (Phase::Selecting { method: METHOD_NONE_ACCEPTABLE }) || s.phase == Phase::Refusing
        || s.phase == Phase::RefusingVersion || s.phase == Phase::RefusingCommand || s.phase
        == Phase::ReportingFailure
}

/// After its last message a session only closes: whatever events follow, it
/// asks for no read, no connection and no relay.
pub proof fn last_message_ends_the_session(s: SessionView, events: Seq<EventView>)
    requires
        sending_last_message(s),
    ensures
        spec_run(s, events).len() == events.len(),
        forall|i: int| 0 <= i < events.len() ==> (#[trigger] spec_run(s, events)[i]) is Close,
{
    if events.len() > 0 {
        let next = spec_step(s, events[0]).0;
        closed_stays_closed(next, events.drop_first());
        assert forall|i: int| 0 <= i < events.len() implies (#[trigger] spec_run(s, events)[i])
            is Close by {
            if i > 0 {
                assert(spec_run(s, events)[i] == spec_run(next, events.drop_first())[i - 1]);
            }
        }
    } else {
        assert(spec_run(s, events).len() == 0);
    }
}

/// A greeting that offers neither no-authentication nor username/password
/// is answered with `05 FF`, and the session ends with that answer: once it
/// is sent the outcome is `NoAcceptableMethod`, and whatever the driver
/// reports, no request is ever read.
pub proof fn unacceptable_greeting_ends_the_session(
    s: SessionView,
    bytes: Seq<u8>,
    events: Seq<EventView>,
)
    requires
        s.phase == Phase::Greeting,
        bytes.len() == s.pending,
        spec_decode_greeting(s.buffer + bytes) is Ok,
        !spec_decode_greeting(s.buffer + bytes)->Ok_0.0.contains(METHOD_NO_AUTH),
        !spec_decode_greeting(s.buffer + bytes)->Ok_0.0.contains(METHOD_USER_PASS),
    ensures
        spec_step(s, EventView::Received(bytes)).1 == (ActionView::Send {
            bytes: spec_method_selection(METHOD_NONE_ACCEPTABLE),
        }),
        spec_step(spec_step(s, EventView::Received(bytes)).0, EventView::Sent).1 == (
        ActionView::Close { outcome: Err(SessionError::NoAcceptableMethod) }),
        forall|i: int|
            0 <= i < events.len() ==> (#[trigger] spec_run(
                spec_step(s, EventView::Received(bytes)).0,
                events,
            )[i]) is Close,
{
    last_message_ends_the_session(spec_step(s, EventView::Received(bytes)).0, events);
}

/// Credentials that are not the expected ones are answered with `01 01`,
/// and the session ends with that answer: once it is sent the outcome is
/// `AuthenticationFailed`, and no request is ever read.
pub proof fn wrong_credentials_end_the_session(
    s: SessionView,
    bytes: Seq<u8>,
    events: Seq<EventView>,
)
    requires
        s.phase == Phase::Authentication,
        bytes.len() == s.pending,
        spec_decode_auth_request(s.buffer + bytes) is Ok,
        !s.credentials.accepts(
            spec_decode_auth_request(s.buffer + bytes)->Ok_0.0.username,
            spec_decode_auth_request(s.buffer + bytes)->Ok_0.0.password,
        ),
    ensures
        spec_step(s, EventView::Received(bytes)).1 == (ActionView::Send {
            bytes: spec_auth_result(false),
        }),
        spec_step(spec_step(s, EventView::Received(bytes)).0, EventView::Sent).1 == (
        ActionView::Close { outcome: Err(SessionError::AuthenticationFailed) }),
        forall|i: int|
            0 <= i < events.len() ==> (#[trigger] spec_run(
                spec_step(s, EventView::Received(bytes)).0,
                events,
            )[i]) is Close,
{
    last_message_ends_the_session(spec_step(s, EventView::Received(bytes)).0, events);
}

/// A request for a command other than `Connect` is answered with
/// `05 07 00 01 00 00 00 00 00 00`, and the session ends with that answer:
/// once it is sent the outcome is `UnsupportedCommand`, and no connection
/// is ever asked for.
pub proof fn unserved_command_ends_the_session(
    s: SessionView,
    bytes: Seq<u8>,
    events: Seq<EventView>,
)
    requires
        s.phase == Phase::Request,
        bytes.len() == s.pending,
        spec_decode_request(s.buffer + bytes) is Ok,
        spec_decode_request(s.buffer + bytes)->Ok_0.0.command != Command::Connect,
    ensures
        spec_step(s, EventView::Received(bytes)).1 == (ActionView::Send {
            bytes: seq![0x05u8, 0x07u8, 0u8, 0x01u8, 0u8, 0u8, 0u8, 0u8, 0u8, 0u8],
        }),
        spec_step(spec_step(s, EventView::Received(bytes)).0, EventView::Sent).1 == (
        ActionView::Close { outcome: Err(SessionError::UnsupportedCommand) }),
        forall|i: int|
            0 <= i < events.len() ==> (#[trigger] spec_run(
                spec_step(s, EventView::Received(bytes)).0,
                events,
            )[i]) is Close,
{
    assert(spec_reply(Reply::CommandNotSupported, None) =~= seq![
        0x05u8,
        0x07u8,
        0u8,
        0x01u8,
        0u8,
        0u8,
        0u8,
        0u8,
        0u8,
        0u8,
    ]);
    last_message_ends_the_session(spec_step(s, EventView::Received(bytes)).0, events);
}

/// The result of a connection attempt always reaches the client as a reply
/// before anything else happens: success as `Succeeded` with the bound
/// address, failure as `GeneralFailure` with none. A relay is asked for only
/// when the reply of success has been sent.
pub proof fn connection_result_is_reported_first(s: SessionView, event: EventView)
    ensures
        s.phase == Phase::Connecting && event is Connected ==> spec_step(s, event).1 == (
        ActionView::Send { bytes: spec_reply(Reply::Succeeded, event->Connected_0) }),
        s.phase == Phase::Connecting && event is ConnectFailed ==> spec_step(s, event).1 == (
        ActionView::Send { bytes: spec_reply(Reply::GeneralFailure, None) }),
        spec_step(s, event).1 is Relay ==> s.phase == Phase::ReportingSuccess && event is Sent,
        spec_step(s, event).1 is Connect ==> s.phase == Phase::Request && event is Received,
{
}

} // verus!
