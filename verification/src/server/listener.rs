//! The listener: what the server does with each connection it is offered.
//!
//! The driver binds and accepts; the listener decides. Every connection
//! that is accepted gets a session of its own. When accepting fails the
//! server stops: the execution context is told so once, and nothing is
//! started after that.

use vstd::prelude::*;

use crate::server::session::{Session, SessionState};
use crate::server::{MainThreadMessage, MessageView};
use crate::state::ClientInfo;

verus! {

/// What happens to a listener.
#[derive(Debug, PartialEq, Eq)]
pub enum ListenerEvent {
    /// A connection was accepted from the peer with this address.
    Accepted(String),
    /// No connection can be accepted any more.
    Failed,
}

/// What a listener asks of its driver in answer to an event.
#[derive(Debug)]
pub enum ListenerAction {
    /// Run this session as a task of its own.
    Serve(Session),
    /// Send the message to the dispatch channel and stop accepting.
    Shutdown(MainThreadMessage),
    /// The listener has stopped: the event is ignored.
    Ignored,
}

/// Whether a listener still serves after an event.
pub open spec fn serves_after(serving: bool, event: ListenerEvent) -> bool {
    serving && event is Accepted
}

/// Whether a listener still serves after a sequence of events.
pub open spec fn serves_after_all(serving: bool, events: Seq<ListenerEvent>) -> bool
    decreases events.len(),
{
    if events.len() == 0 {
        serving
    } else {
        serves_after(serves_after_all(serving, events.drop_last()), events.last())
    }
}

/// How often a listener announces the stop of the server over a sequence of
/// events.
pub open spec fn shutdowns(serving: bool, events: Seq<ListenerEvent>) -> nat
    decreases events.len(),
{
    if events.len() == 0 {
        0
    } else if serves_after_all(serving, events.drop_last()) && events.last() is Failed {
        shutdowns(serving, events.drop_last()) + 1
    } else {
        shutdowns(serving, events.drop_last())
    }
}

/// The stop of the server is announced once at most, and exactly once where
/// the listener served and has stopped.
pub proof fn law_shutdown_is_announced_once(serving: bool, events: Seq<ListenerEvent>)
    ensures
        shutdowns(serving, events) == if serving && !serves_after_all(serving, events) {
            1nat
        } else {
            0nat
        },
        serves_after_all(serving, events) ==> serving,
    decreases events.len(),
{
    if events.len() > 0 {
        law_shutdown_is_announced_once(serving, events.drop_last());
    }
}

/// The part of the server that is offered the connections.
#[derive(Debug)]
pub struct Listener {
    serving: bool,
}

impl Listener {
    /// Whether the listener still takes connections.
    pub closed spec fn serves(&self) -> bool {
        self.serving
    }

    /// A listener that serves.
    pub fn new() -> (listener: Self)
        ensures
            listener.serves(),
    {
        Listener { serving: true }
    }

    /// Whether the listener still takes connections.
    pub fn is_serving(&self) -> (serving: bool)
        ensures
            serving == self.serves(),
    {
        self.serving
    }

    /// Takes one event. A listener that serves starts a session for the
    /// peer of an accepted connection, named by the peer's address, and
    /// stops when accepting has failed; a listener that has stopped asks
    /// for nothing.
    pub fn on_event(&mut self, event: ListenerEvent) -> (action: ListenerAction)
        ensures
            final(self).serves() == serves_after(old(self).serves(), event),
            !old(self).serves() ==> action is Ignored,
            old(self).serves() ==> match event {
                ListenerEvent::Accepted(address) => action matches ListenerAction::Serve(session)
                    && session.client() == address@ && session.phase()
                    == SessionState::Connected,
                ListenerEvent::Failed => action matches ListenerAction::Shutdown(message)
                    && message@ == MessageView::DidExit,
            },
    {
        if !self.serving {
            return ListenerAction::Ignored;
        }
        match event {
            ListenerEvent::Accepted(address) => ListenerAction::Serve(
                Session::new(ClientInfo { name: address }),
            ),
            ListenerEvent::Failed => {
                self.serving = false;
                ListenerAction::Shutdown(MainThreadMessage::DidExit)
            },
        }
    }
}

} // verus!
