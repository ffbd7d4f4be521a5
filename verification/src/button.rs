//! The demo button's styling rules: pointer interaction state decides the
//! label, the fill color and the border color. Purely cosmetic — no game
//! effect.

use vstd::prelude::*;
use vstd::string::StringExecFns;

verus! {

/// Pointer interaction state of the button, from most to least engaged.
#[derive(Clone, Copy, Debug, PartialEq, Eq, Structural)]
pub enum Interaction {
    /// The pointer is pressing the button.
    Pressed,
    /// The pointer hovers over the button without pressing it.
    Hovered,
    /// The pointer does not touch the button.
    Idle,
}

/// A color as percentages of full intensity per channel.
#[derive(Clone, Copy, Debug, PartialEq, Eq, Structural)]
pub struct Rgb {
    pub r: u8,
    pub g: u8,
    pub b: u8,
}

/// Every channel is a percentage.
pub open spec fn rgb_wf(c: Rgb) -> bool {
    c.r <= 100 && c.g <= 100 && c.b <= 100
}

/// What the button shows in one interaction state.
pub struct ButtonVisual {
    pub background: Rgb,
    pub border: Rgb,
    pub label: String,
}

/// Fill color per interaction state: greenish while pressed, two greys
/// otherwise.
pub open spec fn background_for(i: Interaction) -> Rgb {
    match i {
        Interaction::Pressed => Rgb { r: 35, g: 75, b: 35 },
        Interaction::Hovered => Rgb { r: 25, g: 25, b: 25 },
        Interaction::Idle => Rgb { r: 15, g: 15, b: 15 },
    }
}

/// Border color per interaction state: red, white or black.
pub open spec fn border_for(i: Interaction) -> Rgb {
    match i {
        Interaction::Pressed => Rgb { r: 100, g: 0, b: 0 },
        Interaction::Hovered => Rgb { r: 100, g: 100, b: 100 },
        Interaction::Idle => Rgb { r: 0, g: 0, b: 0 },
    }
}

/// Label text per interaction state.
pub open spec fn label_for(i: Interaction) -> Seq<char> {
    match i {
        Interaction::Pressed => "Press"@,
        Interaction::Hovered => "Hover"@,
        Interaction::Idle => "Button"@,
    }
}

/// The complete styling decision the UI applies whenever the button's
/// interaction state changes.
pub fn button_visual(i: Interaction) -> (v: ButtonVisual)
    ensures
        v.background == background_for(i),
        v.border == border_for(i),
        v.label@ == label_for(i),
        rgb_wf(v.background),
        rgb_wf(v.border),
{
    match i {
        Interaction::Pressed => ButtonVisual {
            background: Rgb { r: 35, g: 75, b: 35 },
            border: Rgb { r: 100, g: 0, b: 0 },
            label: String::from_str("Press"),
        },
        Interaction::Hovered => ButtonVisual {
            background: Rgb { r: 25, g: 25, b: 25 },
            border: Rgb { r: 100, g: 100, b: 100 },
            label: String::from_str("Hover"),
        },
        Interaction::Idle => ButtonVisual {
            background: Rgb { r: 15, g: 15, b: 15 },
            border: Rgb { r: 0, g: 0, b: 0 },
            label: String::from_str("Button"),
        },
    }
}

} // verus!
