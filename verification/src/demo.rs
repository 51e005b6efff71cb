//! The demo game: a hallway with a locked drawer.

use vstd::prelude::*;
use crate::state::GameState;
use crate::text::str_eq;

verus! {

/// The demo's own application context; it holds nothing.
#[derive(Debug, PartialEq, Eq)]
pub struct AppState;

/// Creates the demo's application context.
pub fn init_state() -> (s: AppState)
    ensures
        s == AppState,
{
    AppState
}

/// The trigger the demo's `interact_drawer` script runs: the drawer opens
/// when the flag `has_brass_key` is set, and stays locked otherwise.
pub open spec fn drawer_trigger(state: GameState) -> Seq<char> {
    if state.flag_of("has_brass_key"@) == Some(true) {
        "action:show_dialogue Drawer 'You unlocked the drawer using the brass key!\nInside you found a shiny gemstone! You Win!'"@
    } else {
        "action:show_dialogue Drawer 'The drawer is locked tightly. It seems to require a key.'"@
    }
}

/// Runs a script of the demo: `interact_drawer` answers with the trigger to
/// run next; other scripts answer nothing. The state is not changed.
pub fn script_hook(state: &mut GameState, script_name: &str) -> (r: Option<String>)
    ensures
        *final(state) == *old(state),
        match r {
            Some(t) => script_name@ == "interact_drawer"@ && t@ == drawer_trigger(*old(state)),
            None => script_name@ != "interact_drawer"@,
        },
{
    if str_eq(script_name, "interact_drawer") {
        if state.flag("has_brass_key") == Some(true) {
            Some(
                "action:show_dialogue Drawer 'You unlocked the drawer using the brass key!\nInside you found a shiny gemstone! You Win!'".to_owned(),
            )
        } else {
            Some(
                "action:show_dialogue Drawer 'The drawer is locked tightly. It seems to require a key.'".to_owned(),
            )
        }
    } else {
        None
    }
}

} // verus!
