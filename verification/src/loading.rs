//! The text shown while the questions are fetched.

use vstd::prelude::*;

use crate::timer::{Timer, HALF_SECOND};
use crate::AppState;

verus! {

/// The animation of the loading text: every half second the text moves on to
/// the next of four frames.
#[derive(Clone, Copy, Debug, PartialEq, Eq, Structural)]
pub struct LoadText {
    /// Paces the animation.
    pub timer: Timer,
    /// The frame that is shown next.
    pub dots: u8,
}

/// The text of a frame of the animation.
pub open spec fn loading_frame(dots: u8) -> Seq<char> {
    if dots == 0 {
        "Loading.    "@
    } else if dots == 1 {
        "Loading. .  "@
    } else if dots == 2 {
        "Loading. . ."@
    } else {
        "Loading     "@
    }
}

/// The frame that follows a frame.
pub open spec fn next_frame(dots: u8) -> u8 {
    ((dots + 1) % 4) as u8
}

/// The state of the loading text when the loading screen is spawned. The
/// screen starts out showing "Loading. . .".
pub fn spawn_loadscreen() -> (load: LoadText)
    ensures
        load == (LoadText {
            timer: Timer { elapsed: 0, period: HALF_SECOND, finished: false },
            dots: 3,
        }),
{
    LoadText { timer: Timer::new(HALF_SECOND), dots: 3 }
}

/// Animates the loading text by `delta` more nanoseconds.
///
/// Returns the text to show from now on, if the animation moved on.
pub fn update_loadscreen(load: &mut LoadText, delta: u64) -> (text: Option<&'static str>)
    ensures
        final(load).timer == old(load).timer.ticked(delta),
        if final(load).timer.finished {
            &&& text matches Some(t)
            &&& t@ == loading_frame(old(load).dots)
            &&& final(load).dots == next_frame(old(load).dots)
        } else {
            text is None && final(load).dots == old(load).dots
        },
{
    let mut timer = load.timer;
    timer.tick(delta);
    if timer.just_finished() {
        let dots: u8 = load.dots;
        let text = if dots == 0 {
            "Loading.    "
        } else if dots == 1 {
            "Loading. .  "
        } else if dots == 2 {
            "Loading. . ."
        } else {
            "Loading     "
        };
        let next: u16 = (dots as u16 + 1) % 4;
        *load = LoadText { timer, dots: next as u8 };
        Some(text)
    } else {
        *load = LoadText { timer, dots: load.dots };
        None
    }
}

/// The animation runs through its four frames in turn and starts over.
pub proof fn frames_cycle(dots: u8)
    requires
        dots < 4,
    ensures
        next_frame(dots) < 4,
        next_frame(next_frame(next_frame(next_frame(dots)))) == dots,
        next_frame(dots) != dots,
{
}

/// Returns to the menu on a left click while the error card is shown.
pub fn error_to_menu(error_shown: bool, left_click: bool) -> (next: Option<AppState>)
    ensures
        next == if error_shown && left_click {
            Some(AppState::Menu)
        } else {
            None
        },
{
    if error_shown && left_click {
        Some(AppState::Menu)
    } else {
        None
    }
}

} // verus!
