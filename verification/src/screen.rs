//! The screen state: the four mutually exclusive interaction modes, and the
//! fixed footer texts each mode selects.

use vstd::prelude::*;

verus! {

/// The active interaction mode. Exactly one is active at any time; the
/// initial mode is `Main`. Transitions are commanded by input handling
/// outside this library.
#[derive(Clone, Copy, PartialEq, Eq, Structural, Debug)]
pub enum CurrentScreen {
    Main,
    Editing,
    Task,
    Exiting,
}

/// The short navigation label naming each mode.
pub open spec fn nav_label_spec(s: CurrentScreen) -> Seq<char> {
    match s {
        CurrentScreen::Main => " Main Menu"@,
        CurrentScreen::Editing => " Editing"@,
        CurrentScreen::Task => " Task View"@,
        CurrentScreen::Exiting => " Exiting"@,
    }
}

/// The control legend shown for each mode.
pub open spec fn hint_text_spec(s: CurrentScreen) -> Seq<char> {
    match s {
        CurrentScreen::Main => " [⬆] / [⬇] to move, [➡] to select [⬅] to unselect, [q] to quit"@,
        CurrentScreen::Editing => " [⬆] / [⬇] to move, [➡] to select [⬅] to unselect"@,
        CurrentScreen::Task => " [⬆] / [⬇] to move, [➡] to select [⬅] to unselect"@,
        CurrentScreen::Exiting => " [y] for yes, [n] for no"@,
    }
}

/// The navigation label for the footer's left part.
pub fn nav_label(s: CurrentScreen) -> (r: String)
    ensures
        r@ == nav_label_spec(s),
{
    match s {
        CurrentScreen::Main => " Main Menu".to_string(),
        CurrentScreen::Editing => " Editing".to_string(),
        CurrentScreen::Task => " Task View".to_string(),
        CurrentScreen::Exiting => " Exiting".to_string(),
    }
}

/// The control legend for the footer's right part.
pub fn hint_text(s: CurrentScreen) -> (r: String)
    ensures
        r@ == hint_text_spec(s),
{
    match s {
        CurrentScreen::Main => {
            " [⬆] / [⬇] to move, [➡] to select [⬅] to unselect, [q] to quit".to_string()
        },
        CurrentScreen::Editing => " [⬆] / [⬇] to move, [➡] to select [⬅] to unselect".to_string(),
        CurrentScreen::Task => " [⬆] / [⬇] to move, [➡] to select [⬅] to unselect".to_string(),
        CurrentScreen::Exiting => " [y] for yes, [n] for no".to_string(),
    }
}

} // verus!
