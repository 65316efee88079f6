//! The server side of the protocol: the messages that reach the execution
//! context, the decoding of a frame, the session of one connection and the
//! listener that starts the sessions.

pub mod listener;
pub mod session;

pub use listener::{Listener, ListenerAction, ListenerEvent};
pub use session::{Reaction, ReactionView, Session, SessionEvent, SessionState};

use vstd::prelude::*;
use vstd::utf8::{decode_utf8, valid_utf8};

use crate::protocol::action::{decode, decoded, Action, ActionView, DecodeError};
use crate::security::{CryptoError, Security};
use crate::state::ClientInfo;

verus! {

/// What flows through the dispatch channel to the execution context.
#[derive(Debug, PartialEq, Eq)]
pub enum MainThreadMessage {
    /// Perform an action on the host.
    Perform(Action),
    /// A client has connected.
    DidConnect(ClientInfo),
    /// A client has disconnected.
    DidDisconnect(ClientInfo),
    /// The server has stopped.
    DidExit,
}

/// A message as a mathematical value; a client is its name.
pub enum MessageView {
    Perform(ActionView),
    DidConnect(Seq<char>),
    DidDisconnect(Seq<char>),
    DidExit,
}

impl View for MainThreadMessage {
    type V = MessageView;

    open spec fn view(&self) -> MessageView {
        match self {
            MainThreadMessage::Perform(action) => MessageView::Perform(action@),
            MainThreadMessage::DidConnect(client) => MessageView::DidConnect(client@),
            MainThreadMessage::DidDisconnect(client) => MessageView::DidDisconnect(client@),
            MainThreadMessage::DidExit => MessageView::DidExit,
        }
    }
}

/// Why a binary frame gave no action.
#[derive(Clone, Copy, Debug, PartialEq, Eq, Structural)]
pub enum FrameError {
    /// The envelope was not opened.
    Crypto(CryptoError),
    /// The message in the envelope is not UTF-8 text.
    Encoding,
    /// The text in the envelope is no action.
    Decode(DecodeError),
}

/// The action that a binary frame holds.
pub open spec fn decoded_frame<S: Security>(security: &S, raw: Seq<u8>) -> Result<
    ActionView,
    FrameError,
> {
    match security.opened(raw) {
        Err(error) => Err(FrameError::Crypto(error)),
        Ok(message) => if !valid_utf8(message) {
            Err(FrameError::Encoding)
        } else {
            match decoded(decode_utf8(message)) {
                Ok(action) => Ok(action),
                Err(error) => Err(FrameError::Decode(error)),
            }
        },
    }
}

/// The result of decoding a frame, with the action as a mathematical value.
pub open spec fn frame_view(result: Result<Action, FrameError>) -> Result<ActionView, FrameError> {
    match result {
        Ok(action) => Ok(action@),
        Err(error) => Err(error),
    }
}

/// `std::str::from_utf8`: the text that the bytes encode, `None` where they
/// are not UTF-8.
#[verifier::external_body]
fn utf8_text(bytes: &[u8]) -> (text: Option<&str>)
    ensures
        text is Some <==> valid_utf8(bytes@),
        text matches Some(decoded) ==> decoded@ == decode_utf8(bytes@),
{
    match std::str::from_utf8(bytes) {
        Ok(text) => Some(text),
        Err(_) => None,
    }
}

/// Opens a binary frame and decodes the action in it.
pub fn decode_action<S: Security>(raw: &[u8], security: &S) -> (action: Result<Action, FrameError>)
    ensures
        frame_view(action) == decoded_frame(security, raw@),
{
    let message = match security.open(raw) {
        Err(error) => {
            return Err(FrameError::Crypto(error));
        },
        Ok(message) => message,
    };
    match utf8_text(message.as_slice()) {
        None => Err(FrameError::Encoding),
        Some(text) => match decode(text) {
            Ok(action) => Ok(action),
            Err(error) => Err(FrameError::Decode(error)),
        },
    }
}

} // verus!
