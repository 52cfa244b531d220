//! The buttons that lead from one screen to another.

use vstd::prelude::*;

use crate::color::Color;
use crate::{AppState, ButtonMaterials, Interaction};

verus! {

/// What a change of the cursor over a button leads to.
#[derive(Clone, Copy, Debug, PartialEq, Eq, Structural)]
pub struct ButtonPress {
    /// The colour the button takes.
    pub color: Color,
    /// The screen to show next, if the button was clicked.
    pub next: Option<AppState>,
}

/// The effect of the cursor on a button that leads to the screen `target`.
pub open spec fn button_press(
    interaction: Interaction,
    colors: ButtonMaterials,
    target: AppState,
) -> ButtonPress {
    match interaction {
        Interaction::Clicked => ButtonPress { color: colors.clicked, next: Some(target) },
        Interaction::Hovered => ButtonPress { color: colors.hovered, next: None },
        Interaction::Idle => ButtonPress { color: colors.none, next: None },
    }
}

/// Click handler of the play button of the menu: a click starts loading.
pub fn play_button(interaction: Interaction, colors: &ButtonMaterials) -> (press: ButtonPress)
    ensures
        press == button_press(interaction, *colors, AppState::Load),
{
    match interaction {
        Interaction::Clicked => ButtonPress { color: colors.clicked, next: Some(AppState::Load) },
        Interaction::Hovered => ButtonPress { color: colors.hovered, next: None },
        Interaction::Idle => ButtonPress { color: colors.none, next: None },
    }
}

} // verus!
