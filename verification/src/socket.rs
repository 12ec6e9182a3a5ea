//! The client session: what a session does on each thing that can happen
//! to it, how lines are framed, and where the socket lives.

use crate::protocol::{reply, PayloadView, Request, RequestView, Response, ResponseView};
use crate::text::{decimal, decimal_text};
use vstd::prelude::*;

verus! {

/// How many broadcast messages are kept for a subscriber that falls behind;
/// older ones are dropped for that subscriber alone.
pub const BROADCAST_CAPACITY: usize = 100;

/// The path of the socket of the user `uid`.
pub open spec fn socket_path_of(uid: u32) -> Seq<char> {
    "/run/user/"@ + decimal(uid as nat) + "/runaway-guard.sock"@
}

/// The path of the socket of the user `uid`.
pub fn socket_path(uid: u32) -> (path: String)
    ensures
        path@ == socket_path_of(uid),
{
    let mut path: String = "/run/user/".to_string();
    let user = decimal_text(uid as u64);
    path.append(user.as_str());
    path.append("/runaway-guard.sock");
    path
}

/// A message as it goes over the wire: the text and a line feed.
pub open spec fn framed(text: Seq<char>) -> Seq<char> {
    text.push('\n')
}

/// Frames a message for the wire.
pub fn frame(text: String) -> (line: String)
    ensures
        line@ == framed(text@),
{
    let mut line = text;
    line.push('\n');
    line
}

/// Something that happens to a session.
#[derive(Debug, Clone)]
pub enum SessionEvent {
    /// The client closed its side: a read gave no bytes.
    EndOfStream,
    /// Reading from the client failed.
    ReadFailed,
    /// A line was read and is a request.
    Request(Request),
    /// A line was read and is no request, for the reason given.
    Malformed(String),
    /// The handler answered the request in work.
    Handled(Response),
    /// A broadcast message arrived.
    Broadcast(String),
    /// The broadcast channel skipped messages for this session, or closed.
    BroadcastMissed,
    /// The last write reached the client.
    Written,
    /// The last write failed.
    WriteFailed,
}

/// What a `SessionEvent` holds, as plain values.
pub enum SessionEventView {
    EndOfStream,
    ReadFailed,
    Request(RequestView),
    Malformed(Seq<char>),
    Handled(ResponseView),
    Broadcast(Seq<char>),
    BroadcastMissed,
    Written,
    WriteFailed,
}

impl View for SessionEvent {
    type V = SessionEventView;

    open spec fn view(&self) -> SessionEventView {
        match *self {
            SessionEvent::EndOfStream => SessionEventView::EndOfStream,
            SessionEvent::ReadFailed => SessionEventView::ReadFailed,
            SessionEvent::Request(request) => SessionEventView::Request(request@),
            SessionEvent::Malformed(reason) => SessionEventView::Malformed(reason@),
            SessionEvent::Handled(response) => SessionEventView::Handled(response@),
            SessionEvent::Broadcast(message) => SessionEventView::Broadcast(message@),
            SessionEvent::BroadcastMissed => SessionEventView::BroadcastMissed,
            SessionEvent::Written => SessionEventView::Written,
            SessionEvent::WriteFailed => SessionEventView::WriteFailed,
        }
    }
}

/// What a session does next.
#[derive(Debug, Clone)]
pub enum SessionAction {
    /// Wait for the next line or broadcast message.
    Wait,
    /// Hand the request to the handler and report its response.
    Handle(Request),
    /// Encode the response, frame it and write it to the client.
    Respond(Response),
    /// Write this line, which is framed, to the client.
    Relay(String),
    /// End the session.
    Close,
}

/// What a `SessionAction` holds, as plain values.
pub enum SessionActionView {
    Wait,
    Handle(RequestView),
    Respond(ResponseView),
    Relay(Seq<char>),
    Close,
}

impl View for SessionAction {
    type V = SessionActionView;

    open spec fn view(&self) -> SessionActionView {
        match *self {
            SessionAction::Wait => SessionActionView::Wait,
            SessionAction::Handle(request) => SessionActionView::Handle(request@),
            SessionAction::Respond(response) => SessionActionView::Respond(response@),
            SessionAction::Relay(line) => SessionActionView::Relay(line@),
            SessionAction::Close => SessionActionView::Close,
        }
    }
}

/// What an open session does on `event`. A line that is no request is
/// answered with its error; a broadcast message is relayed as it is, framed;
/// missed broadcast messages are passed over.
pub open spec fn action_on(event: SessionEventView) -> SessionActionView {
    match event {
        SessionEventView::EndOfStream => SessionActionView::Close,
        SessionEventView::ReadFailed => SessionActionView::Close,
        SessionEventView::Request(request) => SessionActionView::Handle(request),
        SessionEventView::Malformed(reason) => SessionActionView::Respond(
            reply(PayloadView::Error(reason)),
        ),
        SessionEventView::Handled(response) => SessionActionView::Respond(response),
        SessionEventView::Broadcast(message) => SessionActionView::Relay(framed(message)),
        SessionEventView::BroadcastMissed => SessionActionView::Wait,
        SessionEventView::Written => SessionActionView::Wait,
        SessionEventView::WriteFailed => SessionActionView::Close,
    }
}

/// Whether `event` ends an open session: the end of the stream, or a failed
/// read or write. Nothing else does.
pub open spec fn ends_session(event: SessionEventView) -> bool {
    event is EndOfStream || event is ReadFailed || event is WriteFailed
}

/// One client connection.
#[derive(Debug)]
pub struct Session {
    open: bool,
}

impl Session {
    /// Whether the session is still open.
    pub closed spec fn is_open(&self) -> bool {
        self.open
    }

    /// The session of a client that has just connected.
    pub fn new() -> (session: Session)
        ensures
            session.is_open(),
    {
        Session { open: true }
    }

    /// Whether the session is still open.
    pub fn open(&self) -> (open: bool)
        ensures
            open == self.is_open(),
    {
        self.open
    }

    /// Takes in `event` and says what to do next. An open session acts as
    /// `action_on` says and stays open unless the event ends it; a closed
    /// session stays closed.
    pub fn on_event(&mut self, event: SessionEvent) -> (action: SessionAction)
        ensures
            action@ == if old(self).is_open() {
                action_on(event@)
            } else {
                SessionActionView::Close
            },
            final(self).is_open() == (old(self).is_open() && !ends_session(event@)),
    {
        if !self.open {
            return SessionAction::Close;
        }
        match event {
            SessionEvent::EndOfStream => {
                self.open = false;
                SessionAction::Close
            },
            SessionEvent::ReadFailed => {
                self.open = false;
                SessionAction::Close
            },
            SessionEvent::Request(request) => SessionAction::Handle(request),
            SessionEvent::Malformed(reason) => SessionAction::Respond(Response::error(reason)),
            SessionEvent::Handled(response) => SessionAction::Respond(response),
            SessionEvent::Broadcast(message) => SessionAction::Relay(frame(message)),
            SessionEvent::BroadcastMissed => SessionAction::Wait,
            SessionEvent::Written => SessionAction::Wait,
            SessionEvent::WriteFailed => {
                self.open = false;
                SessionAction::Close
            },
        }
    }
}

} // verus!
