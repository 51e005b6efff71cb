//! What a scene screen shows around the scene itself: its header, the tooltip
//! of the hovered hotspot, and the event a frame's input gives.

use vstd::prelude::*;
use vstd::string::StringExecFns;
use crate::engine::{CursorType, EngineEvent};
use crate::text::{remove_all, remove_all_str, str_eq, to_uppercase, uppercase};

verus! {

/// The verb a tooltip starts with for each cursor.
pub open spec fn prefix_for(c: CursorType) -> Seq<char> {
    match c {
        CursorType::Look => "Look at"@,
        CursorType::Grab => "Take"@,
        CursorType::Talk => "Talk to"@,
        CursorType::ExitLeft | CursorType::ExitRight | CursorType::Walk => "Go to"@,
        CursorType::Pointer => "Interact with"@,
    }
}

/// The verb a tooltip starts with for the cursor `c`.
pub fn action_prefix(c: CursorType) -> (s: &'static str)
    ensures
        s@ == prefix_for(c),
{
    match c {
        CursorType::Look => "Look at",
        CursorType::Grab => "Take",
        CursorType::Talk => "Talk to",
        CursorType::ExitLeft | CursorType::ExitRight | CursorType::Walk => "Go to",
        CursorType::Pointer => "Interact with",
    }
}

/// The tooltip shown over a hovered hotspot: the cursor's verb, a space, and
/// the hotspot's tooltip (`Look at Painting`).
pub fn tooltip_text(c: CursorType, tooltip: &str) -> (s: String)
    ensures
        s@ == prefix_for(c) + " "@ + tooltip@,
{
    let mut s = String::new();
    s.append(action_prefix(c));
    s.append(" ");
    s.append(tooltip);
    s
}

/// The header of a scene screen for an already formatted title:
/// `Scene: ` and the title.
pub fn header_text(title: &str) -> (s: String)
    ensures
        s@ == "Scene: "@ + title@,
{
    let mut s = String::new();
    s.append("Scene: ");
    s.append(title);
    s
}

/// The header of a scene screen: `Scene: ` and the scene ID in upper case.
pub fn scene_header(scene_id: &str) -> (s: String)
    ensures
        s@ == "Scene: "@ + uppercase(scene_id@),
{
    let upper = to_uppercase(scene_id);
    header_text(upper.as_str())
}

/// The header of a scene screen without the `scene_` prefixes of its ID:
/// `scene_hallway` is shown as `Scene: HALLWAY`.
pub fn scene_title(scene_id: &str) -> (s: String)
    ensures
        s@ == "Scene: "@ + uppercase(remove_all(scene_id@, "scene_"@)),
{
    proof {
        reveal_strlit("scene_");
    }
    let short = remove_all_str(scene_id, "scene_");
    let upper = to_uppercase(short.as_str());
    header_text(upper.as_str())
}

/// The packed color a scene is cleared with: warm brown for the hallway,
/// slate blue for the kitchen, dark grey otherwise.
pub open spec fn background_for(scene_id: Seq<char>) -> u32 {
    if scene_id == "scene_hallway"@ {
        0x28201CFFu32
    } else if scene_id == "scene_kitchen"@ {
        0x1C2830FFu32
    } else {
        0x181818FFu32
    }
}

/// The packed color a scene is cleared with.
pub fn scene_background(scene_id: &str) -> (hex: u32)
    ensures
        hex == background_for(scene_id@),
{
    if str_eq(scene_id, "scene_hallway") {
        0x28201CFF
    } else if str_eq(scene_id, "scene_kitchen") {
        0x1C2830FF
    } else {
        0x181818FF
    }
}

/// The event that a frame's input gives: while a dialogue is shown, a click
/// or the space key skips it and the scene takes no input; otherwise a click
/// on the hovered hotspot clicks it.
pub fn input_event(dialogue_open: bool, clicked: bool, space: bool, hovered: Option<&str>) -> (e:
    Option<EngineEvent>)
    ensures
        match e {
            Some(EngineEvent::SkipDialogue) => dialogue_open && (clicked || space),
            Some(EngineEvent::ClickHotspot { hotspot_id }) => !dialogue_open && clicked && (
            hovered matches Some(h) && hotspot_id@ == h@),
            Some(_) => false,
            None => if dialogue_open {
                !(clicked || space)
            } else {
                !clicked || hovered is None
            },
        },
{
    if dialogue_open {
        if clicked || space {
            Some(EngineEvent::SkipDialogue)
        } else {
            None
        }
    } else {
        match hovered {
            Some(id) => if clicked {
                Some(EngineEvent::ClickHotspot { hotspot_id: id.to_owned() })
            } else {
                None
            },
            None => None,
        }
    }
}

} // verus!
