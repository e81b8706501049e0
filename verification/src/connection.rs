use vstd::prelude::*;

use crate::text::{contains_text, has_infix, has_prefix, is_text, starts_with};

verus! {

/// What a text message of the stream is.
#[derive(Debug, PartialEq, Eq, Structural)]
pub enum TextMessage {
    /// An event to handle and to pass on to the clients.
    Event,
    /// The stream refused the token; it ends.
    TokenError,
    /// The stream reported another error; it ends.
    OtherError,
}

/// Tells an error reply of the stream (it begins with `{"err`) from an
/// event; an error that mentions `authToken` is about the token.
pub fn classify_text(message: &str) -> (r: TextMessage)
    ensures
        r == if !has_prefix(message@, "{\"err"@) {
            TextMessage::Event
        } else if has_infix(message@, "authToken"@) {
            TextMessage::TokenError
        } else {
            TextMessage::OtherError
        },
{
    if !starts_with(message, "{\"err") {
        TextMessage::Event
    } else if contains_text(message, "authToken") {
        TextMessage::TokenError
    } else {
        TextMessage::OtherError
    }
}

/// The kinds of stream events that change what the proxy keeps.
#[derive(Debug, PartialEq, Eq, Structural)]
pub enum EventKind {
    /// `friend-online`, `friend-location`.
    FriendLocation,
    /// `friend-active`.
    FriendActive,
    /// `friend-add`.
    FriendAdd,
    /// `friend-delete`.
    FriendDelete,
    /// `friend-offline`.
    FriendOffline,
    /// `user-location`.
    UserLocation,
    /// Any other type: nothing to change.
    Other,
}

/// The kind of an event, by the type that the stream gives it.
pub open spec fn event_kind(t: Seq<char>) -> EventKind {
    if t == "friend-online"@ || t == "friend-location"@ {
        EventKind::FriendLocation
    } else if t == "friend-active"@ {
        EventKind::FriendActive
    } else if t == "friend-add"@ {
        EventKind::FriendAdd
    } else if t == "friend-delete"@ {
        EventKind::FriendDelete
    } else if t == "friend-offline"@ {
        EventKind::FriendOffline
    } else if t == "user-location"@ {
        EventKind::UserLocation
    } else {
        EventKind::Other
    }
}

/// The kind of an event, by the type that the stream gives it.
pub fn classify_event(t: &str) -> (r: EventKind)
    ensures
        r == event_kind(t@),
{
    if is_text(t, "friend-online") || is_text(t, "friend-location") {
        EventKind::FriendLocation
    } else if is_text(t, "friend-active") {
        EventKind::FriendActive
    } else if is_text(t, "friend-add") {
        EventKind::FriendAdd
    } else if is_text(t, "friend-delete") {
        EventKind::FriendDelete
    } else if is_text(t, "friend-offline") {
        EventKind::FriendOffline
    } else if is_text(t, "user-location") {
        EventKind::UserLocation
    } else {
        EventKind::Other
    }
}

/// How a connection to the stream ended.
#[derive(Debug, PartialEq, Eq, Structural)]
pub enum StreamEnd {
    /// The stream closed.
    Disconnected,
    /// The stream refused the token.
    Token,
    /// An error of the connection itself (input/output).
    Io,
    /// Any other error.
    Unknown,
}

/// What to do after a connection to the stream ended.
#[derive(Debug, PartialEq, Eq, Structural)]
pub enum Next {
    /// Connect again at once.
    Reconnect,
    /// Wait ten seconds, then connect again.
    ReconnectAfterDelay,
    /// Stop; the friend lists are no longer kept.
    Stop,
}

/// The number of input/output errors in a row after which the client stops.
pub const MAX_IO_ERRORS: u8 = 20;

/// The reconnection policy of the stream client: a closed stream is opened
/// again, input/output errors are retried (the first at once, later ones
/// after a delay) up to twenty in a row, and anything else stops.
pub struct Reconnect {
    io_errors: u8,
}

impl View for Reconnect {
    type V = nat;

    /// The input/output errors in a row so far.
    closed spec fn view(&self) -> nat {
        self.io_errors as nat
    }
}

/// The decision after a connection ended, and the new count of input/output
/// errors in a row, from the count before.
pub open spec fn after_end(count: nat, end: StreamEnd) -> (Next, nat) {
    match end {
        StreamEnd::Disconnected => (Next::Reconnect, 0),
        StreamEnd::Io => if count + 1 == 1 {
            (Next::Reconnect, 1)
        } else if count + 1 == MAX_IO_ERRORS {
            (Next::Stop, count + 1)
        } else {
            (Next::ReconnectAfterDelay, count + 1)
        },
        _ => (Next::Stop, count),
    }
}

impl Reconnect {
    #[verifier::type_invariant]
    spec fn within_limit(self) -> bool {
        self.io_errors <= MAX_IO_ERRORS
    }

    /// No error yet.
    pub fn new() -> (r: Reconnect)
        ensures
            r@ == 0,
    {
        Reconnect { io_errors: 0 }
    }

    /// Decides what to do after a connection ended. Once it said `Stop`, the
    /// policy is not asked again.
    pub fn on_end(&mut self, end: StreamEnd) -> (r: Next)
        requires
            old(self)@ < MAX_IO_ERRORS,
        ensures
            (r, final(self)@) == after_end(old(self)@, end),
    {
        proof {
            use_type_invariant(&*self);
        }
        match end {
            StreamEnd::Disconnected => {
                self.io_errors = 0;
                Next::Reconnect
            },
            StreamEnd::Io => {
                self.io_errors = self.io_errors + 1;
                if self.io_errors == 1 {
                    Next::Reconnect
                } else if self.io_errors == MAX_IO_ERRORS {
                    Next::Stop
                } else {
                    Next::ReconnectAfterDelay
                }
            },
            _ => Next::Stop,
        }
    }
}

/// The decision and the count after `n` input/output errors in a row, from
/// a fresh policy.
pub open spec fn after_io_errors(n: nat) -> (Next, nat)
    decreases n,
{
    if n == 0 {
        (Next::Reconnect, 0)
    } else {
        after_end(after_io_errors((n - 1) as nat).1, StreamEnd::Io)
    }
}

/// The policy never counts past the limit, and only stops or counts below
/// it: a reconnection always leaves room for one more error.
pub proof fn law_count_within_limit(count: nat, end: StreamEnd)
    requires
        count < MAX_IO_ERRORS,
    ensures
        after_end(count, end).1 <= MAX_IO_ERRORS,
        after_end(count, end).0 != Next::Stop ==> after_end(count, end).1 < MAX_IO_ERRORS,
{
}

/// Of input/output errors in a row, the first is retried at once, the next
/// ones after a delay, and the twentieth stops the client.
pub proof fn law_io_errors_in_a_row(n: nat)
    requires
        1 <= n <= MAX_IO_ERRORS,
    ensures
        after_io_errors(n).1 == n,
        after_io_errors(n).0 == Next::Reconnect <==> n == 1,
        after_io_errors(n).0 == Next::Stop <==> n == MAX_IO_ERRORS,
        after_io_errors(n).0 == Next::ReconnectAfterDelay <==> 1 < n < MAX_IO_ERRORS,
    decreases n,
{
    if n > 1 {
        law_io_errors_in_a_row((n - 1) as nat);
    } else {
        assert(after_io_errors(0) == (Next::Reconnect, 0nat));
    }
}

/// A closed stream clears the count of errors in a row.
pub proof fn law_disconnect_resets(count: nat)
    ensures
        after_end(count, StreamEnd::Disconnected) == (Next::Reconnect, 0nat),
{
}

/// A refused token, or an error of no known kind, stops the client whatever
/// the count of input/output errors before it, and leaves that count as it
/// was: neither is ever retried.
pub proof fn law_token_and_unknown_stop(count: nat)
    ensures
        after_end(count, StreamEnd::Token) == (Next::Stop, count),
        after_end(count, StreamEnd::Unknown) == (Next::Stop, count),
{
}

/// Only a closed stream and an input/output error below the limit lead to a
/// new connection.
pub proof fn law_only_disconnect_and_io_reconnect(count: nat, end: StreamEnd)
    requires
        count < MAX_IO_ERRORS,
    ensures
        after_end(count, end).0 != Next::Stop <==> (end == StreamEnd::Disconnected || (end
            == StreamEnd::Io && count + 1 < MAX_IO_ERRORS)),
{
}

/// Notices a stream that has gone quiet: the stream pings regularly, and a
/// minute without a ping means the connection is lost.
pub struct Watchdog {
    silent: bool,
}

impl View for Watchdog {
    type V = bool;

    /// No ping came since the last check.
    closed spec fn view(&self) -> bool {
        self.silent
    }
}

impl Watchdog {
    /// Nothing heard yet.
    pub fn new() -> (r: Watchdog)
        ensures
            r@,
    {
        Watchdog { silent: true }
    }

    /// The stream pinged.
    pub fn on_ping(&mut self)
        ensures
            !final(self)@,
    {
        self.silent = false;
    }

    /// The minute is over: reports whether no ping came during it, and
    /// starts the next minute.
    pub fn on_tick(&mut self) -> (timed_out: bool)
        ensures
            timed_out == old(self)@,
            final(self)@,
    {
        let was_silent = self.silent;
        self.silent = true;
        was_silent
    }
}

} // verus!
