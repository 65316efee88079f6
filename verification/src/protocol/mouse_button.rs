//! Mouse buttons and their names on the wire.

use vstd::prelude::*;

use crate::utils::same_text;

verus! {

/// A mouse button.
#[derive(Clone, Copy, Debug, PartialEq, Eq, Structural)]
pub enum MouseButton {
    Left,
    Middle,
    Right,
}

impl Default for MouseButton {
    /// The button that a command means when it names none.
    fn default() -> (button: Self)
        ensures
            button == MouseButton::Left,
    {
        MouseButton::Left
    }
}

impl MouseButton {
    /// The name of the button on the wire.
    pub open spec fn wire_name(self) -> Seq<char> {
        match self {
            MouseButton::Left => "left"@,
            MouseButton::Middle => "middle"@,
            MouseButton::Right => "right"@,
        }
    }

    /// The button that a wire name stands for, if it is the name of one.
    pub open spec fn named(name: Seq<char>) -> Option<MouseButton> {
        if name == "left"@ {
            Some(MouseButton::Left)
        } else if name == "middle"@ {
            Some(MouseButton::Middle)
        } else if name == "right"@ {
            Some(MouseButton::Right)
        } else {
            None
        }
    }

    /// A button is found again by its name: the three names differ.
    pub proof fn law_button_of_its_name(button: MouseButton)
        ensures
            MouseButton::named(button.wire_name()) == Some(button),
    {
        reveal_strlit("left");
        reveal_strlit("middle");
        reveal_strlit("right");
        assert("left"@.len() == 4 && "middle"@.len() == 6 && "right"@.len() == 5);
    }

    /// The name of this button on the wire.
    pub fn name(self) -> (name: &'static str)
        ensures
            name@ == self.wire_name(),
    {
        match self {
            MouseButton::Left => "left",
            MouseButton::Middle => "middle",
            MouseButton::Right => "right",
        }
    }

    /// The button called `name` on the wire, `None` where no button is
    /// called so.
    pub fn from_name(name: &str) -> (button: Option<MouseButton>)
        ensures
            button == MouseButton::named(name@),
    {
        if same_text(name, "left") {
            Some(MouseButton::Left)
        } else if same_text(name, "middle") {
            Some(MouseButton::Middle)
        } else if same_text(name, "right") {
            Some(MouseButton::Right)
        } else {
            None
        }
    }
}

} // verus!
