//! Subscriber sessions: the per-client state machine that turns changes of
//! the broadcaster's cell into messages, and the text of such a message.

use vstd::prelude::*;
use vstd::string::StringExecFns;

use crate::broadcast::{advanced, observed, CellView, Cursor, LatestValue};
use crate::point::{PointView, TrackPoint};

verus! {

/// Where a session stands.
#[derive(Clone, Copy, Debug, PartialEq, Eq, Structural)]
pub enum SessionState {
    /// Waiting for the cell to change.
    AwaitingChange,
    /// A message is on its way to the client.
    Delivering,
    /// The session has ended for good.
    Closed,
}

/// What a session is told by the broadcaster and by its transport.
#[derive(Clone, Copy, Debug, PartialEq, Eq, Structural)]
pub enum SessionEvent {
    /// The session was woken because something was published.
    Woken,
    /// The broadcaster was torn down.
    BroadcasterGone,
    /// The message was written to the transport.
    Delivered,
    /// Writing to or reading from the transport failed.
    TransportFailed,
    /// The client closed the connection.
    PeerClosed,
}

/// What a session does next.
#[derive(Debug)]
pub enum SessionAction {
    /// Suspend until the next publication.
    Wait,
    /// Send this point to the client.
    Send(TrackPoint),
    /// Release the transport and end the loop.
    Close,
    /// Nothing: the event does not belong to the state.
    Ignore,
}

/// What an action says.
pub enum ActionView {
    Wait,
    Send(PointView),
    Close,
    Ignore,
}

impl View for SessionAction {
    type V = ActionView;

    open spec fn view(&self) -> ActionView {
        match *self {
            SessionAction::Wait => ActionView::Wait,
            SessionAction::Send(point) => ActionView::Send(point@),
            SessionAction::Close => ActionView::Close,
            SessionAction::Ignore => ActionView::Ignore,
        }
    }
}

/// What a session is: its state and the last version of the cell that it
/// has seen.
pub struct SessionView {
    pub state: SessionState,
    pub seen: nat,
}

/// A session that looks at the cell: it sends the current point if the cell
/// has changed since it last looked, and waits otherwise.
pub open spec fn look(seen: nat, cell: CellView) -> (SessionView, ActionView) {
    match observed(cell, seen) {
        Some(point) => (
            SessionView { state: SessionState::Delivering, seen: advanced(cell, seen) },
            ActionView::Send(point),
        ),
        None => (SessionView { state: SessionState::AwaitingChange, seen }, ActionView::Wait),
    }
}

/// The session that follows `session` on `event`, with the cell as it is at
/// that moment, and what to do.
///
/// A session that awaits a change looks at the cell when it is woken. A
/// session that is delivering goes back to awaiting a change when the
/// message is out, and looks at the cell at once, so that a publication made
/// meanwhile is not missed. A failure of the transport, a close by the
/// client or the loss of the broadcaster closes the session in either state.
/// A closed session stays closed.
pub open spec fn session_step(session: SessionView, cell: CellView, event: SessionEvent) -> (
    SessionView,
    ActionView,
) {
    match (session.state, event) {
        (SessionState::Closed, _) => (session, ActionView::Ignore),
        (_, SessionEvent::BroadcasterGone) | (_, SessionEvent::TransportFailed) | (
            _,
            SessionEvent::PeerClosed,
        ) => (SessionView { state: SessionState::Closed, seen: session.seen }, ActionView::Close),
        (SessionState::AwaitingChange, SessionEvent::Woken) => look(session.seen, cell),
        (SessionState::Delivering, SessionEvent::Delivered) => look(session.seen, cell),
        _ => (session, ActionView::Ignore),
    }
}

/// The state of one client's delivery loop.
#[derive(Debug)]
pub struct Session {
    state: SessionState,
    cursor: Cursor,
}

impl View for Session {
    type V = SessionView;

    closed spec fn view(&self) -> SessionView {
        SessionView { state: self.state, seen: self.cursor.seen() }
    }
}

impl Session {
    /// A session that has just subscribed to `latest`: it awaits a change,
    /// and has seen everything published so far.
    pub fn open(latest: &LatestValue) -> (session: Session)
        ensures
            session@ == (SessionView {
                state: SessionState::AwaitingChange,
                seen: latest@.version,
            }),
    {
        Session { state: SessionState::AwaitingChange, cursor: latest.subscribe() }
    }

    /// Where the session stands.
    pub fn state(&self) -> (state: SessionState)
        ensures
            state == self@.state,
    {
        self.state
    }

    /// Whether the session has ended.
    pub fn is_closed(&self) -> (closed: bool)
        ensures
            closed == (self@.state == SessionState::Closed),
    {
        match self.state {
            SessionState::Closed => true,
            _ => false,
        }
    }

    fn look_at(&mut self, latest: &LatestValue) -> (action: SessionAction)
        ensures
            (final(self)@, action@) == look(old(self)@.seen, latest@),
    {
        match latest.poll_change(&mut self.cursor) {
            Some(point) => {
                self.state = SessionState::Delivering;
                SessionAction::Send(point)
            },
            None => {
                self.state = SessionState::AwaitingChange;
                SessionAction::Wait
            },
        }
    }

    /// Moves the session on by one event, with the cell as it is now.
    pub fn on_event(&mut self, event: SessionEvent, latest: &LatestValue) -> (action: SessionAction)
        ensures
            (final(self)@, action@) == session_step(old(self)@, latest@, event),
    {
        match self.state {
            SessionState::Closed => SessionAction::Ignore,
            SessionState::AwaitingChange => match event {
                SessionEvent::Woken => self.look_at(latest),
                SessionEvent::Delivered => SessionAction::Ignore,
                _ => {
                    self.state = SessionState::Closed;
                    SessionAction::Close
                },
            },
            SessionState::Delivering => match event {
                SessionEvent::Delivered => self.look_at(latest),
                SessionEvent::Woken => SessionAction::Ignore,
                _ => {
                    self.state = SessionState::Closed;
                    SessionAction::Close
                },
            },
        }
    }
}

/// The text of the message that tells a client of one point: the
/// identifier in double quotes, then the two coordinate texts in brackets,
/// all in brackets.
pub open spec fn update_text(id: Seq<char>, latitude: Seq<char>, longitude: Seq<char>) -> Seq<
    char,
> {
    seq!['[', '"'] + id + seq!['"', ',', '['] + latitude + seq![','] + longitude + seq![']', ']']
}

/// Builds the message for one point from its identifier and the decimal
/// texts of its coordinates.
pub fn frame_update(id: &str, latitude: &str, longitude: &str) -> (text: String)
    ensures
        text@ == update_text(id@, latitude@, longitude@),
{
    proof {
        reveal_strlit("[\"");
        reveal_strlit("\",[");
        reveal_strlit(",");
        reveal_strlit("]]");
    }
    let mut text = String::from_str("[\"");
    assert(text@ =~= seq!['[', '"']);
    text.append(id);
    text.append("\",[");
    assert(text@ =~= seq!['[', '"'] + id@ + seq!['"', ',', '[']);
    text.append(latitude);
    text.append(",");
    assert(text@ =~= seq!['[', '"'] + id@ + seq!['"', ',', '['] + latitude@ + seq![',']);
    text.append(longitude);
    text.append("]]");
    assert(text@ =~= update_text(id@, latitude@, longitude@));
    text
}

/// A closed session is closed for good: no event reopens it, and it asks
/// for nothing more.
pub proof fn lemma_closed_is_terminal(session: SessionView, cell: CellView, event: SessionEvent)
    requires
        session.state == SessionState::Closed,
    ensures
        session_step(session, cell, event) == (session, ActionView::Ignore),
{
}

/// A point is sent at most once to a session: after the message for the
/// current point is out, the session waits until something else is
/// published.
pub proof fn lemma_sent_once(seen: nat, cell: CellView)
    requires
        look(seen, cell).1 is Send,
    ensures
        session_step(look(seen, cell).0, cell, SessionEvent::Delivered) == (
            SessionView { state: SessionState::AwaitingChange, seen: cell.version },
            ActionView::Wait,
        ),
{
}

} // verus!
