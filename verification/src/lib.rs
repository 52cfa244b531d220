//! PrettySure: a trivia game about hedging your bets.
//!
//! This crate holds the rules of the game as plain data and verified
//! functions: hit testing, the drag-and-drop state machine of the tokens, the
//! condition under which a round may be submitted, scoring, the highlight
//! blink that paces a round, round advancement, and the shaping of fetched
//! trivia into rounds. Windowing, rendering and the network live outside of it
//! and exchange plain values with it once per tick.
//!
//! All positions and lengths are integers in layout units, with
//! [`geometry::UNITS_PER_PIXEL`] units to a logical pixel.

pub mod answer;
pub mod color;
pub mod game;
pub mod geometry;
pub mod load;
pub mod loading;
pub mod menu;
pub mod timer;
pub mod token;
pub mod trivia;
pub mod ui;

use vstd::prelude::*;

use color::Color;

verus! {

/// Number of answers offered with every question.
pub const ANSWER_COUNT: usize = 4;

/// Number of tokens a player distributes each round.
pub const TOKEN_COUNT: usize = 5;

/// How the cursor relates to a button.
#[derive(Clone, Copy, Debug, PartialEq, Eq, Structural)]
pub enum Interaction {
    /// The button was clicked.
    Clicked,
    /// The cursor is over the button.
    Hovered,
    /// The cursor is elsewhere.
    Idle,
}

/// The colours of a button, by how the cursor relates to it.
#[derive(Clone, Copy, Debug, PartialEq, Eq, Structural)]
pub struct ButtonMaterials {
    pub none: Color,
    pub hovered: Color,
    pub clicked: Color,
}

/// The colours of a button as the game starts out with them.
pub open spec fn button_materials() -> ButtonMaterials {
    ButtonMaterials { none: Color::Charcoal, hovered: Color::Slate, clicked: Color::Fern }
}

/// Sets up the colours of the buttons.
pub fn setup() -> (colors: ButtonMaterials)
    ensures
        colors == button_materials(),
{
    ButtonMaterials { none: Color::Charcoal, hovered: Color::Slate, clicked: Color::Fern }
}

/// The screens of the application.
#[derive(Clone, Copy, Debug, PartialEq, Eq, Hash, Structural)]
pub enum AppState {
    Menu,
    Load,
    Game,
}

} // verus!
