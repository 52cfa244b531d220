//! The colours the game distinguishes.

use vstd::prelude::*;

verus! {

/// A colour of the game, by name. How a colour is drawn is left to whoever
/// renders it.
#[derive(Clone, Copy, Debug, PartialEq, Eq, Hash, Structural)]
pub enum Color {
    White,
    Black,
    Red,
    Green,
    Blue,
    Yellow,
    /// The dark grey of a button at rest.
    Charcoal,
    /// The lighter grey of a button under the cursor.
    Slate,
    /// The green of a button that was clicked.
    Fern,
}

/// The colour of a token that rests on no answer.
pub const DEFAULT_COLOR: Color = Color::White;

/// The colour of an answer block.
#[derive(Clone, Copy, Debug, PartialEq, Eq, Structural)]
pub struct AnswerColor(pub Color);

/// The colour of the answer block in slot `i`: red, green, blue and yellow in
/// slot order.
pub open spec fn palette_color(i: int) -> Color {
    if i == 0 {
        Color::Red
    } else if i == 1 {
        Color::Green
    } else if i == 2 {
        Color::Blue
    } else {
        Color::Yellow
    }
}

/// The colour of the answer block in slot `i`.
pub fn palette(i: usize) -> (color: AnswerColor)
    requires
        i < 4,
    ensures
        color.0 == palette_color(i as int),
{
    if i == 0 {
        AnswerColor(Color::Red)
    } else if i == 1 {
        AnswerColor(Color::Green)
    } else if i == 2 {
        AnswerColor(Color::Blue)
    } else {
        AnswerColor(Color::Yellow)
    }
}

/// No two answer blocks share a colour.
pub proof fn palette_is_distinct(i: int, j: int)
    requires
        0 <= i < 4,
        0 <= j < 4,
        i != j,
    ensures
        palette_color(i) != palette_color(j),
{
}

} // verus!
