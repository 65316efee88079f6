//! Actions and their encoding as JSON text.
//!
//! On the wire an action is a JSON object. Its member `type` names the
//! variant; the other members are the variant's fields:
//!
//! | `type`          | fields                         |
//! |-----------------|--------------------------------|
//! | `keySequence`   | `text`: string                 |
//! | `mouseMoveTo`   | `x`, `y`: integers             |
//! | `mouseMoveBy`   | `dx`, `dy`: integers           |
//! | `mouseDown`     | `button`: string, may be absent |
//! | `mouseUp`       | `button`: string, may be absent |
//! | `mouseClick`    | `button`: string, may be absent |
//!
//! An absent `button` means the left one. Members that a variant does not
//! name are ignored.

use vstd::prelude::*;

use crate::json;
use crate::json::{json_model, json_parsed, JsonModel};
use crate::protocol::mouse_button::MouseButton;
use crate::protocol::vec2::Vec2;
use crate::utils::same_text;

verus! {

/// One input event to reproduce on the host.
#[derive(Clone, Debug, PartialEq, Eq)]
pub enum Action {
    /// Type a sequence of characters.
    KeySequence { text: String },
    /// Move the pointer to absolute coordinates.
    MouseMoveTo { point: Vec2<i32> },
    /// Move the pointer by a displacement.
    MouseMoveBy { delta: Vec2<i32> },
    /// Press a button.
    MouseDown { button: MouseButton },
    /// Release a button.
    MouseUp { button: MouseButton },
    /// Press and release a button.
    MouseClick { button: MouseButton },
}

/// An action as a mathematical value.
pub enum ActionView {
    KeySequence { text: Seq<char> },
    MouseMoveTo { point: Vec2<i32> },
    MouseMoveBy { delta: Vec2<i32> },
    MouseDown { button: MouseButton },
    MouseUp { button: MouseButton },
    MouseClick { button: MouseButton },
}

impl View for Action {
    type V = ActionView;

    open spec fn view(&self) -> ActionView {
        match self {
            Action::KeySequence { text } => ActionView::KeySequence { text: text@ },
            Action::MouseMoveTo { point } => ActionView::MouseMoveTo { point: *point },
            Action::MouseMoveBy { delta } => ActionView::MouseMoveBy { delta: *delta },
            Action::MouseDown { button } => ActionView::MouseDown { button: *button },
            Action::MouseUp { button } => ActionView::MouseUp { button: *button },
            Action::MouseClick { button } => ActionView::MouseClick { button: *button },
        }
    }
}

/// Why a text was not decoded.
#[derive(Clone, Copy, Debug, PartialEq, Eq, Structural)]
pub enum DecodeError {
    /// The text is not JSON.
    Syntax,
    /// The member `type` is no string, or names no variant.
    UnknownVariant,
    /// The member `type` or a field of the variant is absent.
    MissingField,
    /// A field is present and holds the wrong kind of value.
    InvalidField,
}

/// The string under `key`.
pub open spec fn text_field(model: JsonModel, key: Seq<char>) -> Result<Seq<char>, DecodeError> {
    match model.member(key) {
        None => Err(DecodeError::MissingField),
        Some(JsonModel::Text(text)) => Ok(text),
        Some(_) => Err(DecodeError::InvalidField),
    }
}

/// The integer under `key`, which has to fit in `i32`.
pub open spec fn coordinate_field(model: JsonModel, key: Seq<char>) -> Result<i32, DecodeError> {
    match model.member(key) {
        None => Err(DecodeError::MissingField),
        Some(JsonModel::Integer(number)) => if i32::MIN <= number <= i32::MAX {
            Ok(number as i32)
        } else {
            Err(DecodeError::InvalidField)
        },
        Some(_) => Err(DecodeError::InvalidField),
    }
}

/// The two integers under `first` and `second`; where both are at fault, the
/// error is that of `first`.
pub open spec fn pair_field(model: JsonModel, first: Seq<char>, second: Seq<char>) -> Result<
    Vec2<i32>,
    DecodeError,
> {
    match coordinate_field(model, first) {
        Err(error) => Err(error),
        Ok(x) => match coordinate_field(model, second) {
            Err(error) => Err(error),
            Ok(y) => Ok(Vec2 { x, y }),
        },
    }
}

/// The button under `button`: the left one where the member is absent.
pub open spec fn button_field(model: JsonModel) -> Result<MouseButton, DecodeError> {
    match model.member("button"@) {
        None => Ok(MouseButton::Left),
        Some(JsonModel::Text(name)) => match MouseButton::named(name) {
            Some(button) => Ok(button),
            None => Err(DecodeError::InvalidField),
        },
        Some(_) => Err(DecodeError::InvalidField),
    }
}

/// The action that a JSON value stands for.
pub open spec fn decoded_model(model: JsonModel) -> Result<ActionView, DecodeError> {
    match model.member("type"@) {
        None => Err(DecodeError::MissingField),
        Some(JsonModel::Text(tag)) => if tag == "keySequence"@ {
            match text_field(model, "text"@) {
                Ok(text) => Ok(ActionView::KeySequence { text }),
                Err(error) => Err(error),
            }
        } else if tag == "mouseMoveTo"@ {
            match pair_field(model, "x"@, "y"@) {
                Ok(point) => Ok(ActionView::MouseMoveTo { point }),
                Err(error) => Err(error),
            }
        } else if tag == "mouseMoveBy"@ {
            match pair_field(model, "dx"@, "dy"@) {
                Ok(delta) => Ok(ActionView::MouseMoveBy { delta }),
                Err(error) => Err(error),
            }
        } else if tag == "mouseDown"@ {
            match button_field(model) {
                Ok(button) => Ok(ActionView::MouseDown { button }),
                Err(error) => Err(error),
            }
        } else if tag == "mouseUp"@ {
            match button_field(model) {
                Ok(button) => Ok(ActionView::MouseUp { button }),
                Err(error) => Err(error),
            }
        } else if tag == "mouseClick"@ {
            match button_field(model) {
                Ok(button) => Ok(ActionView::MouseClick { button }),
                Err(error) => Err(error),
            }
        } else {
            Err(DecodeError::UnknownVariant)
        },
        Some(_) => Err(DecodeError::UnknownVariant),
    }
}

/// The action that a text stands for.
pub open spec fn decoded(text: Seq<char>) -> Result<ActionView, DecodeError> {
    match json_parsed(text) {
        None => Err(DecodeError::Syntax),
        Some(model) => decoded_model(model),
    }
}

impl ActionView {
    /// The name of the variant on the wire.
    pub open spec fn tag(self) -> Seq<char> {
        match self {
            ActionView::KeySequence { .. } => "keySequence"@,
            ActionView::MouseMoveTo { .. } => "mouseMoveTo"@,
            ActionView::MouseMoveBy { .. } => "mouseMoveBy"@,
            ActionView::MouseDown { .. } => "mouseDown"@,
            ActionView::MouseUp { .. } => "mouseUp"@,
            ActionView::MouseClick { .. } => "mouseClick"@,
        }
    }

    /// The JSON object that stands for the action.
    pub open spec fn wire_model(self) -> JsonModel {
        let tagged = JsonModel::empty_object().with("type"@, JsonModel::Text(self.tag()));
        match self {
            ActionView::KeySequence { text } => tagged.with("text"@, JsonModel::Text(text)),
            ActionView::MouseMoveTo { point } => tagged.with(
                "x"@,
                JsonModel::Integer(point.x as i64),
            ).with("y"@, JsonModel::Integer(point.y as i64)),
            ActionView::MouseMoveBy { delta } => tagged.with(
                "dx"@,
                JsonModel::Integer(delta.x as i64),
            ).with("dy"@, JsonModel::Integer(delta.y as i64)),
            ActionView::MouseDown { button } => tagged.with(
                "button"@,
                JsonModel::Text(button.wire_name()),
            ),
            ActionView::MouseUp { button } => tagged.with(
                "button"@,
                JsonModel::Text(button.wire_name()),
            ),
            ActionView::MouseClick { button } => tagged.with(
                "button"@,
                JsonModel::Text(button.wire_name()),
            ),
        }
    }
}

/// What the strings of the wire format hold, as far as they differ.
proof fn reveal_wire_names()
    ensures
        "type"@.len() == 4,
        "text"@.len() == 4,
        "type"@[1] == 'y',
        "text"@[1] == 'e',
        "x"@.len() == 1,
        "y"@.len() == 1,
        "x"@[0] == 'x',
        "y"@[0] == 'y',
        "dx"@.len() == 2,
        "dy"@.len() == 2,
        "dx"@[1] == 'x',
        "dy"@[1] == 'y',
        "button"@.len() == 6,
        "keySequence"@.len() == 11,
        "mouseMoveTo"@.len() == 11,
        "mouseMoveBy"@.len() == 11,
        "keySequence"@[0] == 'k',
        "mouseMoveTo"@[0] == 'm',
        "mouseMoveTo"@[9] == 'T',
        "mouseMoveBy"@[0] == 'm',
        "mouseMoveBy"@[9] == 'B',
        "mouseDown"@.len() == 9,
        "mouseUp"@.len() == 7,
        "mouseClick"@.len() == 10,
{
    reveal_strlit("type");
    reveal_strlit("text");
    reveal_strlit("x");
    reveal_strlit("y");
    reveal_strlit("dx");
    reveal_strlit("dy");
    reveal_strlit("button");
    reveal_strlit("keySequence");
    reveal_strlit("mouseMoveTo");
    reveal_strlit("mouseMoveBy");
    reveal_strlit("mouseDown");
    reveal_strlit("mouseUp");
    reveal_strlit("mouseClick");
}

/// Decoding inverts encoding: the object that stands for an action is
/// decoded to that action.
pub proof fn law_wire_model_round_trip(action: ActionView)
    ensures
        decoded_model(action.wire_model()) == Ok::<ActionView, DecodeError>(action),
        action.wire_model().is_document(),
{
    reveal_wire_names();
    match action {
        ActionView::MouseDown { button } => {
            MouseButton::law_button_of_its_name(button);
        },
        ActionView::MouseUp { button } => {
            MouseButton::law_button_of_its_name(button);
        },
        ActionView::MouseClick { button } => {
            MouseButton::law_button_of_its_name(button);
        },
        _ => {},
    }
}

/// The result of decoding, with the action as a mathematical value.
pub open spec fn result_view(result: Result<Action, DecodeError>) -> Result<
    ActionView,
    DecodeError,
> {
    match result {
        Ok(action) => Ok(action@),
        Err(error) => Err(error),
    }
}

/// The result of reading a string, with the string as a mathematical value.
spec fn text_view(result: Result<String, DecodeError>) -> Result<Seq<char>, DecodeError> {
    match result {
        Ok(text) => Ok(text@),
        Err(error) => Err(error),
    }
}

/// Reads the string under `key`.
fn read_text(value: &serde_json::Value, key: &str) -> (text: Result<String, DecodeError>)
    ensures
        text_view(text) == text_field(json_model(*value), key@),
{
    match json::member(value, key) {
        None => Err(DecodeError::MissingField),
        Some(member) => match json::as_text(&member) {
            Some(text) => Ok(text),
            None => Err(DecodeError::InvalidField),
        },
    }
}

/// Reads the integer under `key`.
fn read_coordinate(value: &serde_json::Value, key: &str) -> (number: Result<i32, DecodeError>)
    ensures
        number == coordinate_field(json_model(*value), key@),
{
    match json::member(value, key) {
        None => Err(DecodeError::MissingField),
        Some(member) => match json::as_integer(&member) {
            Some(number) => if -2147483648 <= number && number <= 2147483647 {
                Ok(number as i32)
            } else {
                Err(DecodeError::InvalidField)
            },
            None => Err(DecodeError::InvalidField),
        },
    }
}

/// Reads the two integers under `first` and `second`.
fn read_pair(value: &serde_json::Value, first: &str, second: &str) -> (pair: Result<
    Vec2<i32>,
    DecodeError,
>)
    ensures
        pair == pair_field(json_model(*value), first@, second@),
{
    match read_coordinate(value, first) {
        Err(error) => Err(error),
        Ok(x) => match read_coordinate(value, second) {
            Err(error) => Err(error),
            Ok(y) => Ok(Vec2 { x, y }),
        },
    }
}

/// Reads the button, which may be absent.
fn read_button(value: &serde_json::Value) -> (button: Result<MouseButton, DecodeError>)
    ensures
        button == button_field(json_model(*value)),
{
    match json::member(value, "button") {
        None => Ok(MouseButton::default()),
        Some(member) => match json::as_text(&member) {
            Some(name) => match MouseButton::from_name(name.as_str()) {
                Some(button) => Ok(button),
                None => Err(DecodeError::InvalidField),
            },
            None => Err(DecodeError::InvalidField),
        },
    }
}

impl Action {
    /// The action that a parsed JSON value stands for.
    pub fn from_json(value: &serde_json::Value) -> (action: Result<Action, DecodeError>)
        ensures
            result_view(action) == decoded_model(json_model(*value)),
    {
        let tag = match json::member(value, "type") {
            None => {
                return Err(DecodeError::MissingField);
            },
            Some(member) => match json::as_text(&member) {
                None => {
                    return Err(DecodeError::UnknownVariant);
                },
                Some(tag) => tag,
            },
        };
        if same_text(tag.as_str(), "keySequence") {
            match read_text(value, "text") {
                Ok(text) => Ok(Action::KeySequence { text }),
                Err(error) => Err(error),
            }
        } else if same_text(tag.as_str(), "mouseMoveTo") {
            match read_pair(value, "x", "y") {
                Ok(point) => Ok(Action::MouseMoveTo { point }),
                Err(error) => Err(error),
            }
        } else if same_text(tag.as_str(), "mouseMoveBy") {
            match read_pair(value, "dx", "dy") {
                Ok(delta) => Ok(Action::MouseMoveBy { delta }),
                Err(error) => Err(error),
            }
        } else if same_text(tag.as_str(), "mouseDown") {
            match read_button(value) {
                Ok(button) => Ok(Action::MouseDown { button }),
                Err(error) => Err(error),
            }
        } else if same_text(tag.as_str(), "mouseUp") {
            match read_button(value) {
                Ok(button) => Ok(Action::MouseUp { button }),
                Err(error) => Err(error),
            }
        } else if same_text(tag.as_str(), "mouseClick") {
            match read_button(value) {
                Ok(button) => Ok(Action::MouseClick { button }),
                Err(error) => Err(error),
            }
        } else {
            Err(DecodeError::UnknownVariant)
        }
    }

    /// The JSON value that stands for this action.
    pub fn to_json(&self) -> (value: serde_json::Value)
        ensures
            json_model(value) == self@.wire_model(),
    {
        let mut value = json::object();
        match self {
            Action::KeySequence { text } => {
                json::insert(&mut value, "type", json::string("keySequence"));
                json::insert(&mut value, "text", json::string(text.as_str()));
            },
            Action::MouseMoveTo { point } => {
                json::insert(&mut value, "type", json::string("mouseMoveTo"));
                json::insert(&mut value, "x", json::integer(point.x as i64));
                json::insert(&mut value, "y", json::integer(point.y as i64));
            },
            Action::MouseMoveBy { delta } => {
                json::insert(&mut value, "type", json::string("mouseMoveBy"));
                json::insert(&mut value, "dx", json::integer(delta.x as i64));
                json::insert(&mut value, "dy", json::integer(delta.y as i64));
            },
            Action::MouseDown { button } => {
                json::insert(&mut value, "type", json::string("mouseDown"));
                json::insert(&mut value, "button", json::string(button.name()));
            },
            Action::MouseUp { button } => {
                json::insert(&mut value, "type", json::string("mouseUp"));
                json::insert(&mut value, "button", json::string(button.name()));
            },
            Action::MouseClick { button } => {
                json::insert(&mut value, "type", json::string("mouseClick"));
                json::insert(&mut value, "button", json::string(button.name()));
            },
        }
        value
    }
}

/// Encodes an action as JSON text. The text is one that the JSON parser
/// reads as the object that stands for the action, so that [`decode`] gives
/// the action back.
pub fn encode(action: &Action) -> (text: String)
    ensures
        json_parsed(text@) == Some(action@.wire_model()),
        decoded(text@) == Ok::<ActionView, DecodeError>(action@),
{
    let value = action.to_json();
    proof {
        law_wire_model_round_trip(action@);
    }
    json::render(&value)
}

/// Decodes an action from JSON text.
pub fn decode(text: &str) -> (action: Result<Action, DecodeError>)
    ensures
        result_view(action) == decoded(text@),
{
    match json::parse(text) {
        None => Err(DecodeError::Syntax),
        Some(value) => Action::from_json(&value),
    }
}

} // verus!
