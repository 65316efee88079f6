//! The command model: the typed vocabulary of remote actions and their wire
//! encoding.

pub mod action;
pub mod mouse_button;
pub mod vec2;

pub use action::{decode, encode, Action, ActionView, DecodeError};
pub use mouse_button::MouseButton;
pub use vec2::Vec2;
