//! The session loop: what one connection does with each frame it receives.
//!
//! A session is a state machine. Its driver waits for the transport and
//! sends to the dispatch channel; the session decides. It starts
//! `Connected`, announces the client and reads; each frame it reads is
//! opened, decoded and handed on, or dropped; a close frame, the end of the
//! stream or a failure of the transport stops the reading, and the session
//! announces that the client has left. Where the dispatch channel takes no
//! more messages the session is over at once, and so is the server.

use vstd::prelude::*;

use crate::security::Security;
use crate::server::{decode_action, decoded_frame, FrameError, MainThreadMessage, MessageView};
use crate::state::ClientInfo;

verus! {

/// Where a session stands.
#[derive(Clone, Copy, Debug, PartialEq, Eq, Structural)]
pub enum SessionState {
    /// The connection is accepted; the client is not announced yet.
    Connected,
    /// The session waits for the next frame.
    Reading,
    /// The session has stopped reading; the client's leaving is not
    /// announced yet.
    Closing,
    /// The session is over.
    Closed,
}

/// What happens to a session.
#[derive(Debug, PartialEq, Eq)]
pub enum SessionEvent {
    /// A binary frame has arrived: a sealed command.
    Binary(Vec<u8>),
    /// A close frame has arrived.
    Close,
    /// A frame of any other kind has arrived.
    Other,
    /// The stream has ended.
    End,
    /// The transport has failed.
    TransportError,
    /// The dispatch channel has refused a message of this session: its
    /// consumer is gone.
    ChannelClosed,
}

/// What a session asks of its driver in answer to an event.
#[derive(Debug, PartialEq, Eq)]
pub enum Reaction {
    /// Send the message to the dispatch channel.
    Emit(MainThreadMessage),
    /// The frame is dropped, for the reason given; the session reads on.
    Dropped(FrameError),
    /// The frame is of a kind that is not expected; the session reads on.
    Unexpected,
    /// The session stops reading.
    Closing,
    /// The session is not reading: the event is ignored.
    Ignored,
    /// No command can be executed any more: the server is to stop.
    Fatal,
}

/// A reaction as a mathematical value.
pub enum ReactionView {
    Emit(MessageView),
    Dropped(FrameError),
    Unexpected,
    Closing,
    Ignored,
    Fatal,
}

impl View for Reaction {
    type V = ReactionView;

    open spec fn view(&self) -> ReactionView {
        match self {
            Reaction::Emit(message) => ReactionView::Emit(message@),
            Reaction::Dropped(error) => ReactionView::Dropped(*error),
            Reaction::Unexpected => ReactionView::Unexpected,
            Reaction::Closing => ReactionView::Closing,
            Reaction::Ignored => ReactionView::Ignored,
            Reaction::Fatal => ReactionView::Fatal,
        }
    }
}

/// Whether an event is a frame after which a session reads on.
pub open spec fn is_frame(event: SessionEvent) -> bool {
    event is Binary || event is Other
}

/// The state of a session after it is entered.
pub open spec fn after_connect(state: SessionState) -> SessionState {
    if state == SessionState::Connected {
        SessionState::Reading
    } else {
        state
    }
}

/// The state of a session after it is left.
pub open spec fn after_disconnect(state: SessionState) -> SessionState {
    if state == SessionState::Closing {
        SessionState::Closed
    } else {
        state
    }
}

/// The state of a session after an event.
pub open spec fn next_state(state: SessionState, event: SessionEvent) -> SessionState {
    if event is ChannelClosed {
        SessionState::Closed
    } else if state == SessionState::Reading && !is_frame(event) {
        SessionState::Closing
    } else {
        state
    }
}

/// The reaction of a session to an event.
pub open spec fn reaction_to<S: Security>(
    security: &S,
    state: SessionState,
    event: SessionEvent,
) -> ReactionView {
    if event is ChannelClosed {
        ReactionView::Fatal
    } else if state != SessionState::Reading {
        ReactionView::Ignored
    } else {
        match event {
            SessionEvent::Binary(raw) => match decoded_frame(security, raw@) {
                Ok(action) => ReactionView::Emit(MessageView::Perform(action)),
                Err(error) => ReactionView::Dropped(error),
            },
            SessionEvent::Other => ReactionView::Unexpected,
            _ => ReactionView::Closing,
        }
    }
}

/// The state of a session after a sequence of events.
pub open spec fn state_after(state: SessionState, events: Seq<SessionEvent>) -> SessionState
    decreases events.len(),
{
    if events.len() == 0 {
        state
    } else {
        next_state(state_after(state, events.drop_last()), events.last())
    }
}

/// The reactions of a session to a sequence of events, one for each.
pub open spec fn reactions_to<S: Security>(
    security: &S,
    state: SessionState,
    events: Seq<SessionEvent>,
) -> Seq<ReactionView>
    decreases events.len(),
{
    if events.len() == 0 {
        Seq::empty()
    } else {
        reactions_to(security, state, events.drop_last()).push(
            reaction_to(security, state_after(state, events.drop_last()), events.last()),
        )
    }
}

/// No frame ends a session, and no frame changes what becomes of a later
/// one: while frames are all that arrives, a session that reads goes on
/// reading, and its reaction to each frame is what it would be to that frame
/// alone. So a frame that is dropped leaves the session open, and the frame
/// after it is processed.
pub proof fn law_frames_keep_session_open<S: Security>(security: &S, events: Seq<SessionEvent>)
    requires
        forall|i: int| 0 <= i < events.len() ==> is_frame(#[trigger] events[i]),
    ensures
        state_after(SessionState::Reading, events) == SessionState::Reading,
        reactions_to(security, SessionState::Reading, events).len() == events.len(),
        forall|i: int|
            0 <= i < events.len() ==> #[trigger] reactions_to(
                security,
                SessionState::Reading,
                events,
            )[i] == reaction_to(security, SessionState::Reading, events[i]),
    decreases events.len(),
{
    if events.len() > 0 {
        let earlier = events.drop_last();
        law_frames_keep_session_open(security, earlier);
        assert forall|i: int| 0 <= i < events.len() implies #[trigger] reactions_to(
            security,
            SessionState::Reading,
            events,
        )[i] == reaction_to(security, SessionState::Reading, events[i]) by {
            if i < earlier.len() {
                assert(reactions_to(security, SessionState::Reading, earlier)[i] == reaction_to(
                    security,
                    SessionState::Reading,
                    earlier[i],
                ));
            }
        }
    }
}

/// A session that does not read ignores the transport: whatever frames and
/// ends arrive, it stays where it is and asks for nothing.
pub proof fn law_only_reading_sessions_react<S: Security>(
    security: &S,
    state: SessionState,
    events: Seq<SessionEvent>,
)
    requires
        state != SessionState::Reading,
        forall|i: int| 0 <= i < events.len() ==> !(#[trigger] events[i] is ChannelClosed),
    ensures
        state_after(state, events) == state,
        reactions_to(security, state, events).len() == events.len(),
        forall|i: int|
            0 <= i < events.len() ==> #[trigger] reactions_to(security, state, events)[i]
                == ReactionView::Ignored,
    decreases events.len(),
{
    if events.len() > 0 {
        let earlier = events.drop_last();
        law_only_reading_sessions_react(security, state, earlier);
        assert forall|i: int| 0 <= i < events.len() implies #[trigger] reactions_to(
            security,
            state,
            events,
        )[i] == ReactionView::Ignored by {
            if i < earlier.len() {
                assert(reactions_to(security, state, earlier)[i] == ReactionView::Ignored);
            }
        }
    }
}

/// A client is announced once, and its leaving once: entering a session
/// twice, or leaving it twice, is entering or leaving it once, and the
/// second call finds nothing to announce.
pub proof fn law_announced_once(state: SessionState)
    ensures
        after_connect(state) != SessionState::Connected,
        after_connect(after_connect(state)) == after_connect(state),
        after_disconnect(state) != SessionState::Closing,
        after_disconnect(after_disconnect(state)) == after_disconnect(state),
{
}

/// One connection: the client and where its session stands.
#[derive(Debug)]
pub struct Session {
    info: ClientInfo,
    state: SessionState,
}

impl Session {
    /// The client's name.
    pub closed spec fn client(&self) -> Seq<char> {
        self.info@
    }

    /// Where the session stands.
    pub closed spec fn phase(&self) -> SessionState {
        self.state
    }

    /// A session for a connection that was just accepted.
    pub fn new(info: ClientInfo) -> (session: Self)
        ensures
            session.client() == info@,
            session.phase() == SessionState::Connected,
    {
        Session { info, state: SessionState::Connected }
    }

    /// Where the session stands.
    pub fn state(&self) -> (state: SessionState)
        ensures
            state == self.phase(),
    {
        self.state
    }

    /// The client of this session.
    pub fn info(&self) -> (info: &ClientInfo)
        ensures
            info@ == self.client(),
    {
        &self.info
    }

    /// Enters the session: a session that is `Connected` starts reading, and
    /// the client is to be announced. Any other session stays as it is.
    pub fn connect(&mut self) -> (message: Option<MainThreadMessage>)
        ensures
            final(self).client() == old(self).client(),
            final(self).phase() == after_connect(old(self).phase()),
            old(self).phase() == SessionState::Connected ==> (message matches Some(announced)
                && announced@ == MessageView::DidConnect(old(self).client())),
            old(self).phase() != SessionState::Connected ==> message is None,
    {
        match self.state {
            SessionState::Connected => {
                self.state = SessionState::Reading;
                Some(MainThreadMessage::DidConnect(self.info.clone()))
            },
            _ => None,
        }
    }

    /// Takes one event. A session that reads opens and decodes a binary
    /// frame and hands the action on, or drops the frame; it reads on after
    /// any frame, and stops at a close frame, at the end of the stream and
    /// at a failure of the transport. A closed dispatch channel ends the
    /// session whatever its state.
    pub fn receive<S: Security>(&mut self, security: &S, event: SessionEvent) -> (reaction:
        Reaction)
        ensures
            final(self).client() == old(self).client(),
            final(self).phase() == next_state(old(self).phase(), event),
            reaction@ == reaction_to(security, old(self).phase(), event),
    {
        match event {
            SessionEvent::ChannelClosed => {
                self.state = SessionState::Closed;
                Reaction::Fatal
            },
            SessionEvent::Binary(raw) => match self.state {
                SessionState::Reading => match decode_action(raw.as_slice(), security) {
                    Ok(action) => Reaction::Emit(MainThreadMessage::Perform(action)),
                    Err(error) => Reaction::Dropped(error),
                },
                _ => Reaction::Ignored,
            },
            SessionEvent::Other => match self.state {
                SessionState::Reading => Reaction::Unexpected,
                _ => Reaction::Ignored,
            },
            _ => match self.state {
                SessionState::Reading => {
                    self.state = SessionState::Closing;
                    Reaction::Closing
                },
                _ => Reaction::Ignored,
            },
        }
    }

    /// Leaves the session: a session that is `Closing` is closed, and the
    /// client's leaving is to be announced. Any other session stays as it
    /// is.
    pub fn disconnect(&mut self) -> (message: Option<MainThreadMessage>)
        ensures
            final(self).client() == old(self).client(),
            final(self).phase() == after_disconnect(old(self).phase()),
            old(self).phase() == SessionState::Closing ==> (message matches Some(announced)
                && announced@ == MessageView::DidDisconnect(old(self).client())),
            old(self).phase() != SessionState::Closing ==> message is None,
    {
        match self.state {
            SessionState::Closing => {
                self.state = SessionState::Closed;
                Some(MainThreadMessage::DidDisconnect(self.info.clone()))
            },
            _ => None,
        }
    }
}

} // verus!
