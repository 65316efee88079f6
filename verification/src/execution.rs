//! The execution context: the single consumer of the dispatch channel.
//!
//! Its driver takes one message at a time from the channel, asks the
//! context what to do with it, and does that before it takes the next. The
//! context owns the decision, and so the order: a command is performed when
//! its message is handled, and no message is handled after the server has
//! stopped.

use vstd::prelude::*;

use crate::protocol::action::Action;
use crate::server::MainThreadMessage;
use crate::state::ClientInfo;

verus! {

/// What the execution context asks of its driver for one message.
#[derive(Debug, PartialEq, Eq)]
pub enum Directive {
    /// Perform the action on the host, and return when it is done.
    Perform(Action),
    /// Tell the display that a client has connected.
    Connected(ClientInfo),
    /// Tell the display that a client has disconnected.
    Disconnected(ClientInfo),
    /// Leave the loop.
    Exit,
}

/// What a message asks for.
pub open spec fn directive_of(message: MainThreadMessage) -> Directive {
    match message {
        MainThreadMessage::Perform(action) => Directive::Perform(action),
        MainThreadMessage::DidConnect(client) => Directive::Connected(client),
        MainThreadMessage::DidDisconnect(client) => Directive::Disconnected(client),
        MainThreadMessage::DidExit => Directive::Exit,
    }
}

/// The place of the first message that stops the server, or the number of
/// messages where none does.
pub open spec fn exit_index(messages: Seq<MainThreadMessage>) -> nat
    decreases messages.len(),
{
    if messages.len() == 0 {
        0
    } else if messages.first() is DidExit {
        0
    } else {
        1 + exit_index(messages.drop_first())
    }
}

/// Whether the context still runs after the messages.
pub open spec fn runs_after(running: bool, messages: Seq<MainThreadMessage>) -> bool
    decreases messages.len(),
{
    if messages.len() == 0 {
        running
    } else {
        runs_after(running, messages.drop_last()) && !(messages.last() is DidExit)
    }
}

/// What the context asks for, message by message: a directive for each
/// message that it handles, in the order of the messages.
pub open spec fn directives_for(running: bool, messages: Seq<MainThreadMessage>) -> Seq<Directive>
    decreases messages.len(),
{
    if messages.len() == 0 {
        Seq::empty()
    } else if runs_after(running, messages.drop_last()) {
        directives_for(running, messages.drop_last()).push(directive_of(messages.last()))
    } else {
        directives_for(running, messages.drop_last())
    }
}

/// The place of the first stop is within the messages, no message before it
/// is a stop, and the message at it is one.
pub proof fn lemma_exit_index(messages: Seq<MainThreadMessage>)
    ensures
        exit_index(messages) <= messages.len(),
        forall|i: int| 0 <= i < exit_index(messages) ==> !(#[trigger] messages[i] is DidExit),
        exit_index(messages) < messages.len() ==> messages[exit_index(messages) as int] is DidExit,
    decreases messages.len(),
{
    if messages.len() > 0 && !(messages.first() is DidExit) {
        let rest = messages.drop_first();
        lemma_exit_index(rest);
        assert forall|i: int| 0 <= i < exit_index(messages) implies !(#[trigger] messages[i]
            is DidExit) by {
            if i > 0 {
                assert(messages[i] == rest[i - 1]);
            }
        }
    }
}

/// The context runs after some messages exactly when it ran before and none
/// of them is a stop.
pub proof fn lemma_runs_after(running: bool, messages: Seq<MainThreadMessage>)
    ensures
        runs_after(running, messages) == (running && exit_index(messages) == messages.len()),
    decreases messages.len(),
{
    lemma_exit_index(messages);
    if messages.len() > 0 {
        let earlier = messages.drop_last();
        lemma_runs_after(running, earlier);
        lemma_exit_index(earlier);
        let k = exit_index(messages);
        let e = exit_index(earlier);
        if e < earlier.len() {
            assert(earlier[e as int] == messages[e as int]);
            if k > e {
                assert(!(messages[e as int] is DidExit));
            }
        } else {
            assert forall|i: int| 0 <= i < earlier.len() implies !(#[trigger] messages[i]
                is DidExit) by {
                assert(messages[i] == earlier[i]);
            }
            if k < earlier.len() {
                assert(earlier[k as int] == messages[k as int]);
            }
        }
    }
}

/// Commands are carried out in the order in which they were taken from the
/// channel, each exactly once, and the stop ends it: a running context
/// handles the messages before the first stop and the stop itself, one
/// directive for each in their order, and nothing that comes after the
/// stop.
pub proof fn law_handles_in_order_until_exit(messages: Seq<MainThreadMessage>)
    ensures
        exit_index(messages) <= messages.len(),
        runs_after(true, messages) == (exit_index(messages) == messages.len()),
        directives_for(true, messages).len() == if exit_index(messages) < messages.len() {
            exit_index(messages) + 1
        } else {
            messages.len()
        },
        forall|i: int|
            0 <= i < directives_for(true, messages).len() ==> #[trigger] directives_for(
                true,
                messages,
            )[i] == directive_of(messages[i]),
    decreases messages.len(),
{
    lemma_exit_index(messages);
    lemma_runs_after(true, messages);
    if messages.len() > 0 {
        let earlier = messages.drop_last();
        law_handles_in_order_until_exit(earlier);
        lemma_exit_index(earlier);
        lemma_runs_after(true, earlier);
        let k = exit_index(messages);
        let e = exit_index(earlier);
        if e < earlier.len() {
            assert(earlier[e as int] == messages[e as int]);
            if k > e {
                assert(!(messages[e as int] is DidExit));
            }
            if k < e {
                assert(earlier[k as int] == messages[k as int]);
            }
        } else {
            assert forall|i: int| 0 <= i < earlier.len() implies !(#[trigger] messages[i]
                is DidExit) by {
                assert(messages[i] == earlier[i]);
            }
            if k < earlier.len() {
                assert(earlier[k as int] == messages[k as int]);
            }
        }
        assert forall|i: int| 0 <= i < directives_for(true, messages).len() implies #[trigger]
            directives_for(true, messages)[i] == directive_of(messages[i]) by {
            if i < directives_for(true, earlier).len() {
                assert(directives_for(true, earlier)[i] == directive_of(earlier[i]));
            }
        }
    }
}

/// A context that has stopped handles nothing.
pub proof fn law_stopped_handles_nothing(messages: Seq<MainThreadMessage>)
    ensures
        !runs_after(false, messages),
        directives_for(false, messages) == Seq::<Directive>::empty(),
    decreases messages.len(),
{
    if messages.len() > 0 {
        law_stopped_handles_nothing(messages.drop_last());
    }
}

/// The single owner of the host's input: it holds the controller, and
/// nothing else does. It runs until the server stops.
#[derive(Debug)]
pub struct ExecutionContext<C> {
    controller: C,
    running: bool,
}

impl<C> ExecutionContext<C> {
    /// Whether the context still handles messages.
    pub closed spec fn runs(&self) -> bool {
        self.running
    }

    /// The controller that the context holds.
    pub closed spec fn holds(&self) -> C {
        self.controller
    }

    /// A context that runs and holds the controller.
    pub fn new(controller: C) -> (context: Self)
        ensures
            context.runs(),
            context.holds() == controller,
    {
        ExecutionContext { controller, running: true }
    }

    /// Whether the context still handles messages.
    pub fn is_running(&self) -> (running: bool)
        ensures
            running == self.runs(),
    {
        self.running
    }

    /// Handles the next message from the channel. A running context asks for
    /// what the message asks for, and stops at `DidExit`; a context that has
    /// stopped asks for nothing.
    pub fn handle(&mut self, message: MainThreadMessage) -> (directive: Option<Directive>)
        ensures
            final(self).holds() == old(self).holds(),
            final(self).runs() == (old(self).runs() && !(message is DidExit)),
            directive == if old(self).runs() {
                Some(directive_of(message))
            } else {
                None
            },
    {
        if !self.running {
            return None;
        }
        Some(
            match message {
                MainThreadMessage::Perform(action) => Directive::Perform(action),
                MainThreadMessage::DidConnect(client) => Directive::Connected(client),
                MainThreadMessage::DidDisconnect(client) => Directive::Disconnected(client),
                MainThreadMessage::DidExit => {
                    self.running = false;
                    Directive::Exit
                },
            },
        )
    }

    /// The controller, for the one command that is being performed: while
    /// it is lent out, the context handles no message.
    pub fn controller(&mut self) -> (controller: &mut C)
        ensures
            *controller == old(self).holds(),
            final(self).holds() == *final(controller),
            final(self).runs() == old(self).runs(),
    {
        &mut self.controller
    }

    /// Gives the controller back when the loop is over.
    pub fn into_controller(self) -> (controller: C)
        ensures
            controller == self.holds(),
    {
        self.controller
    }
}

} // verus!
