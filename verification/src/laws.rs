//! What the engine's rules promise across its operations.

use vstd::prelude::*;
use crate::engine::{
    ActionModel, EngineController, EngineEvent, TriggerModel, action_effect, action_of,
    condition_holds, event_effect, trigger_effect, trigger_of,
};
use crate::state::{GameState, law_items_distinct, with_item};
use crate::color::{ascii_color_key, spaced};
use crate::gss::lookup::get_spec;
use crate::gss::model::{ObjectModel, ValueModel};
use crate::hud::prefix_for;
use crate::engine::CursorType;
use crate::layout::{VAlign, placed_valign_for, string_at, valign_for};
use crate::color::{exact_palette, palette_hex};
use crate::view::{hotspot_visible, keys_of, scene_hotspots, visible_hotspots};
use crate::text::{
    ascii_lower, ascii_lowercase, is_ascii, lemma_ascii_lower_idempotent,
    lemma_ascii_lower_keeps_space, lemma_trim_ascii, lemma_trim_ends, lemma_trim_keeps,
    lemma_trim_keeps_all, lemma_trim_map, split_once, trim,
};

verus! {

/// A leading `!` negates a condition (one that is trimmed, not empty and not
/// already negated).
pub proof fn law_condition_negation(s: GameState, c: Seq<char>)
    requires
        c.len() > 0,
        trim(c) == c,
        c[0] != '!',
    ensures
        condition_holds(s, seq!['!'] + c) == !condition_holds(s, c),
{
    let d = seq!['!'] + c;
    lemma_trim_ends(c);
    assert(d.last() == c.last());
    lemma_trim_keeps(d);
    assert(d.drop_first() =~= c);
}

/// Trimming twice is trimming once.
pub proof fn law_trim_idempotent(s: Seq<char>)
    ensures
        trim(trim(s)) == trim(s),
{
    lemma_trim_ends(s);
    if trim(s).len() > 0 {
        lemma_trim_keeps(trim(s));
    }
}

/// A cursor name reads the same with or without surrounding whitespace.
pub proof fn law_cursor_ignores_surrounding_space(s: Seq<char>)
    ensures
        crate::engine::cursor_for(crate::text::lowercase(trim(trim(s))))
            == crate::engine::cursor_for(crate::text::lowercase(trim(s))),
{
    law_trim_idempotent(s);
}

/// `prefix + id` reads back as itself after trimming, when `id` was trimmed.
proof fn lemma_trimmed_after(prefix: Seq<char>, id: Seq<char>, r: Seq<char>)
    requires
        prefix.len() > 0,
        !crate::text::is_white_space(prefix[0]),
        !crate::text::is_white_space(prefix.last()),
        id == trim(r),
    ensures
        trim(prefix + id) == prefix + id,
{
    lemma_trim_ends(r);
    let t = prefix + id;
    assert(t[0] == prefix[0]);
    if id.len() > 0 {
        assert(t.last() == id.last());
    } else {
        assert(t.last() == prefix.last());
    }
    lemma_trim_keeps(t);
}

/// After `pick_up_item ID`, the conditions `inventory.ID` and
/// `flags.has_ID` hold.
pub proof fn law_pick_up_item(
    old: EngineController,
    new: EngineController,
    a: Seq<char>,
    id: Seq<char>,
)
    requires
        action_of(a) == ActionModel::PickUpItem(id),
        action_effect(old, new, action_of(a)),
    ensures
        condition_holds(new.game_state(), "inventory."@ + id),
        condition_holds(new.game_state(), "flags.has_"@ + id),
{
    reveal_strlit("inventory.");
    reveal_strlit("flags.");
    reveal_strlit("flags.has_");
    reveal_strlit("has_");
    let t = trim(a);
    let parts = split_once(t, ' ');
    let r = parts.1->Some_0;
    assert(id == trim(r));
    lemma_trimmed_after("inventory."@, id, r);
    lemma_trimmed_after("flags.has_"@, id, r);
    let inv = "inventory."@ + id;
    assert(!("flags."@.is_prefix_of(inv))) by {
        assert(inv[0] != "flags."@[0]);
    }
    assert("inventory."@.is_prefix_of(inv));
    assert(inv.skip(10) =~= id);
    assert(new.game_state().items().contains(id)) by {
        let items = old.game_state().items();
        if !items.contains(id) {
            assert(items.push(id)[items.len() as int] == id);
        }
    }
    let fl = "flags.has_"@ + id;
    assert("flags."@.is_prefix_of(fl));
    assert(fl.skip(6) =~= "has_"@ + id);
    assert(new.game_state().flag_of("has_"@ + id) == Some(true));
}

/// After `set_flag NAME VALUE`, the condition `flags.NAME` holds exactly
/// when VALUE is `true`.
pub proof fn law_set_flag(
    old: EngineController,
    new: EngineController,
    a: Seq<char>,
    name: Seq<char>,
    value: bool,
)
    requires
        action_of(a) == ActionModel::SetFlag(name, value),
        action_effect(old, new, action_of(a)),
    ensures
        condition_holds(new.game_state(), "flags."@ + name) == value,
{
    reveal_strlit("flags.");
    let t = trim(a);
    let arg = trim(split_once(t, ' ').1->Some_0);
    let sub = split_once(arg, ' ');
    assert(name == trim(sub.0));
    lemma_trimmed_after("flags."@, name, sub.0);
    let c = "flags."@ + name;
    assert("flags."@.is_prefix_of(c));
    assert(c.skip(6) =~= name);
    assert(new.game_state().flag_of(name) == Some(value));
}

/// The inventory after a trigger begins with the inventory before it.
proof fn lemma_trigger_keeps_items(
    old: EngineController,
    new: EngineController,
    t: Seq<char>,
    r: Option<String>,
)
    requires
        trigger_effect(old, new, t, r),
    ensures
        old.game_state().items().is_prefix_of(new.game_state().items()),
{
    let items = old.game_state().items();
    assert(items.is_prefix_of(items));
    match trigger_of(t) {
        TriggerModel::Action(a) => match action_of(a) {
            ActionModel::PickUpItem(id) => {
                if !items.contains(id) {
                    assert(items.is_prefix_of(items.push(id)));
                }
            },
            _ => {},
        },
        _ => {},
    }
}

/// No event takes an item out of the inventory, or reorders it: the
/// inventory after an event begins with the inventory before it.
pub proof fn law_inventory_never_shrinks(
    old: EngineController,
    new: EngineController,
    e: EngineEvent,
    r: Option<String>,
)
    requires
        event_effect(old, new, e, r),
    ensures
        old.game_state().items().is_prefix_of(new.game_state().items()),
{
    let items = old.game_state().items();
    assert(items.is_prefix_of(items));
    match e {
        EngineEvent::SkipDialogue => {},
        _ => match crate::engine::event_trigger(old.scenes(), old.scene(), e) {
            Some(t) => lemma_trigger_keeps_items(old, new, t, r),
            None => {},
        },
    }
}

/// No event lists an item twice in an inventory that held none twice.
pub proof fn law_inventory_stays_distinct(
    old: EngineController,
    new: EngineController,
    e: EngineEvent,
    r: Option<String>,
)
    requires
        event_effect(old, new, e, r),
        old.game_state().items().no_duplicates(),
    ensures
        new.game_state().items().no_duplicates(),
{
    match e {
        EngineEvent::SkipDialogue => {},
        _ => match crate::engine::event_trigger(old.scenes(), old.scene(), e) {
            Some(t) => match trigger_of(t) {
                TriggerModel::Action(a) => match action_of(a) {
                    ActionModel::PickUpItem(id) => {
                        law_items_distinct(old.game_state().items(), id);
                        assert(new.game_state().items() == with_item(
                            old.game_state().items(),
                            id,
                        ));
                    },
                    _ => {},
                },
                _ => {},
            },
            None => {},
        },
    }
}

/// A cursor name settles after one normalisation: trimming and lowering
/// the ASCII letters of a name already trimmed and lowered changes nothing,
/// and an ASCII name stays ASCII. So, by `CursorType::from_str`'s contract,
/// an ASCII name and its trimmed, lowercased form give the same cursor.
pub proof fn law_cursor_name_settles(s: Seq<char>)
    ensures
        ascii_lowercase(trim(ascii_lowercase(trim(s)))) == ascii_lowercase(trim(s)),
        is_ascii(s) ==> is_ascii(ascii_lowercase(trim(s))),
{
    let f = |c: char| ascii_lower(c);
    let t = trim(s);
    let n = ascii_lowercase(t);
    assert forall|c: char| #[trigger] crate::text::is_white_space(f(c))
        == crate::text::is_white_space(c) by {
        lemma_ascii_lower_keeps_space(c);
    }
    lemma_trim_map(t, f);
    law_trim_idempotent(s);
    assert(n =~= t.map_values(f));
    assert(trim(n) == n);
    assert forall|i: int| 0 <= i < n.len() implies #[trigger] ascii_lowercase(n)[i] == n[i] by {
        lemma_ascii_lower_idempotent(t[i]);
    }
    assert(ascii_lowercase(n) =~= n);
    if is_ascii(s) {
        lemma_trim_ascii(s);
        assert forall|i: int| 0 <= i < n.len() implies (#[trigger] n[i] as u32) < 128 by {
            lemma_ascii_lower_idempotent(t[i]);
        }
    }
}

/// A color name settles after one normalisation: the key that `map_color`
/// compares (ASCII letters lowered, `_` and `-` read as spaces, trimmed) is
/// its own key, and an ASCII name has an ASCII key. So, by `map_color`'s
/// contract, an ASCII name and its normalised form give the same color.
pub proof fn law_color_key_settles(s: Seq<char>)
    ensures
        ascii_color_key(ascii_color_key(s)) == ascii_color_key(s),
        is_ascii(s) ==> is_ascii(ascii_color_key(s)),
{
    let g = spaced(ascii_lowercase(s));
    let k = trim(g);
    let q = |c: char| ascii_lower(c) == c && c != '_' && c != '-';
    assert forall|i: int| 0 <= i < g.len() implies q(#[trigger] g[i]) by {
        lemma_ascii_lower_idempotent(s[i]);
    }
    lemma_trim_keeps_all(g, q);
    assert forall|i: int| 0 <= i < k.len() implies #[trigger] spaced(ascii_lowercase(k))[i]
        == k[i] by {
        assert(q(k[i]));
    }
    assert(spaced(ascii_lowercase(k)) =~= k);
    law_trim_idempotent(g);
    if is_ascii(s) {
        assert forall|i: int| 0 <= i < g.len() implies (#[trigger] g[i] as u32) < 128 by {
            lemma_ascii_lower_idempotent(s[i]);
        }
        lemma_trim_ascii(g);
    }
}

proof fn lemma_visible_members(
    state: GameState,
    scenes: ObjectModel,
    scene: Seq<char>,
    names: Seq<Seq<char>>,
    n: Seq<char>,
)
    ensures
        (exists|i: int|
            0 <= i < visible_hotspots(state, scenes, scene, names).len()
                && #[trigger] visible_hotspots(state, scenes, scene, names)[i].id == n) <==> (
        names.contains(n) && hotspot_visible(state, scenes, scene, n)),
    decreases names.len(),
{
    if names.len() > 0 {
        let d = names.drop_last();
        lemma_visible_members(state, scenes, scene, d, n);
        let before = visible_hotspots(state, scenes, scene, d);
        let now = visible_hotspots(state, scenes, scene, names);
        assert(names =~= d.push(names.last()));
        assert(names.contains(n) <==> (d.contains(n) || names.last() == n)) by {
            if names.contains(n) {
                let k = choose|k: int| 0 <= k < names.len() && names[k] == n;
                if k < d.len() {
                    assert(d[k] == n);
                }
            }
            if d.contains(n) {
                let k = choose|k: int| 0 <= k < d.len() && d[k] == n;
                assert(names[k] == n);
            }
            if names.last() == n {
                assert(names[names.len() - 1] == n);
            }
        }
        if exists|i: int| 0 <= i < before.len() && #[trigger] before[i].id == n {
            let i = choose|i: int| 0 <= i < before.len() && #[trigger] before[i].id == n;
            assert(now[i] == before[i]);
        }
        if exists|i: int| 0 <= i < now.len() && #[trigger] now[i].id == n {
            let i = choose|i: int| 0 <= i < now.len() && #[trigger] now[i].id == n;
            if i < before.len() {
                assert(now[i] == before[i]);
            }
        }
        if hotspot_visible(state, scenes, scene, names.last()) {
            assert(now[before.len() as int].id == names.last());
        }
    }
}

/// The hotspots of a scene view are exactly the hotspots listed under the
/// scene's `hotspots` object whose `visible_if` condition (if any) holds.
pub proof fn law_scene_hotspots_members(
    state: GameState,
    scenes: ObjectModel,
    scene: Seq<char>,
    n: Seq<char>,
)
    ensures
        (exists|i: int|
            0 <= i < scene_hotspots(state, scenes, scene).len()
                && #[trigger] scene_hotspots(state, scenes, scene)[i].id == n) <==> (
        match get_spec(scenes, seq![scene, "hotspots"@]) {
            Some(ValueModel::Obj(o)) => keys_of(o).contains(n) && hotspot_visible(
                state,
                scenes,
                scene,
                n,
            ),
            _ => false,
        }),
{
    match get_spec(scenes, seq![scene, "hotspots"@]) {
        Some(ValueModel::Obj(o)) => {
            lemma_visible_members(state, scenes, scene, keys_of(o), n);
        },
        _ => {},
    }
}

/// Using an item on a hotspot runs only the trigger stored under the item's
/// id in the hotspot's `on_use` object. When there is no such string the
/// engine is unchanged and no script is returned; the hotspot's `on_click`
/// is never read.
pub proof fn law_use_item_runs_only_on_use(
    old: EngineController,
    new: EngineController,
    item_id: String,
    target: String,
    r: Option<String>,
)
    requires
        event_effect(old, new, EngineEvent::UseItem { item_id, target_hotspot_id: target }, r),
    ensures
        match get_spec(old.scenes(), seq![old.scene(), "hotspots"@, target@, "on_use"@]) {
            Some(ValueModel::Obj(o)) => match get_spec(o, seq![item_id@]) {
                Some(ValueModel::Str(t)) => trigger_effect(old, new, t, r),
                _ => new == old && r is None,
            },
            _ => new == old && r is None,
        },
{
}

/// Two engines that differ only in what their scenes hold outside a
/// hotspot's `on_use` object react alike to an item used on it: when neither
/// has a trigger for the item, both stay as they are.
pub proof fn law_use_item_ignores_on_click(
    old: EngineController,
    new: EngineController,
    item_id: String,
    target: String,
    r: Option<String>,
)
    requires
        event_effect(old, new, EngineEvent::UseItem { item_id, target_hotspot_id: target }, r),
        !(get_spec(old.scenes(), seq![old.scene(), "hotspots"@, target@, "on_use"@]) matches Some(
            ValueModel::Obj(_),
        )),
    ensures
        new == old,
        r is None,
{
}

/// Only the `Look` cursor gives the verb `Look at`, and exactly the exit
/// cursors and `Walk` give `Go to`.
pub proof fn law_cursor_verbs(c: CursorType)
    ensures
        (prefix_for(c) == "Look at"@) <==> (c == CursorType::Look),
        (prefix_for(c) == "Go to"@) <==> (c == CursorType::ExitLeft || c == CursorType::ExitRight
            || c == CursorType::Walk),
{
    reveal_strlit("Look at");
    reveal_strlit("Go to");
    reveal_strlit("Take");
    reveal_strlit("Talk to");
    reveal_strlit("Interact with");
    assert("Look at"@ != "Go to"@) by {
        assert("Look at"@.len() != "Go to"@.len());
    }
    assert("Take"@ != "Go to"@ && "Take"@ != "Look at"@) by {
        assert("Take"@[0] != "Go to"@[0]);
        assert("Take"@[0] != "Look at"@[0]);
    }
    assert("Talk to"@ != "Go to"@ && "Talk to"@ != "Look at"@) by {
        assert("Talk to"@[0] != "Go to"@[0]);
        assert("Talk to"@[0] != "Look at"@[0]);
    }
    assert("Interact with"@ != "Go to"@ && "Interact with"@ != "Look at"@) by {
        assert("Interact with"@.len() != "Go to"@.len());
        assert("Interact with"@.len() != "Look at"@.len());
    }
}

/// A `valign` of `middle` means the same as `center`: the element's middle,
/// for a child of a stack and for a placed element alike; and the two readers
/// agree on every alignment they both name (`top`, `middle`, `center`,
/// `bottom`).
pub proof fn law_valign_middle_is_center(
    style: ObjectModel,
    name: Seq<char>,
    a: Seq<char>,
)
    ensures
        (string_at(style, seq![name, "valign"@]) == Some("middle"@) || string_at(
            style,
            seq![name, "valign"@],
        ) == Some("center"@)) ==> valign_for(string_at(style, seq![name, "valign"@]))
            == VAlign::Middle && placed_valign_for(string_at(style, seq![name, "valign"@]))
            == VAlign::Middle,
        valign_for(Some("middle"@)) == valign_for(Some("center"@)),
        (a == "top"@ || a == "middle"@ || a == "center"@ || a == "bottom"@) ==> valign_for(Some(a))
            == placed_valign_for(Some(a)),
{
    reveal_strlit("top");
    reveal_strlit("middle");
    reveal_strlit("center");
    reveal_strlit("bottom");
    assert("top"@ != "middle"@ && "top"@ != "center"@ && "top"@ != "bottom"@) by {
        assert("top"@[0] != "middle"@[0]);
        assert("top"@[0] != "center"@[0]);
        assert("top"@[0] != "bottom"@[0]);
    }
    assert("middle"@ != "bottom"@ && "center"@ != "bottom"@) by {
        assert("middle"@[0] != "bottom"@[0]);
        assert("center"@[0] != "bottom"@[0]);
    }
}

/// Each palette name gives raylib's color of that name, as a packed
/// `0xRRGGBBAA` value (its aliases alike), a name written exactly reads the
/// same through the exact palette, and no two of the named colors coincide.
pub proof fn law_palette_colors(n: Seq<char>)
    ensures
        (n == "light gray"@ || n == "lightgray"@) ==> palette_hex(n) == 0xC8C8C8FFu32,
        (n == "gray"@ || n == "grey"@) ==> palette_hex(n) == 0x828282FFu32,
        (n == "dark gray"@ || n == "darkgrey"@) ==> palette_hex(n) == 0x505050FFu32,
        n == "yellow"@ ==> palette_hex(n) == 0xFDF900FFu32,
        n == "gold"@ ==> palette_hex(n) == 0xFFCB00FFu32,
        n == "orange"@ ==> palette_hex(n) == 0xFFA100FFu32,
        n == "pink"@ ==> palette_hex(n) == 0xFF6DC2FFu32,
        n == "red"@ ==> palette_hex(n) == 0xE62937FFu32,
        n == "maroon"@ ==> palette_hex(n) == 0xBE2137FFu32,
        n == "green"@ ==> palette_hex(n) == 0x00E430FFu32,
        n == "lime"@ ==> palette_hex(n) == 0x009E2FFFu32,
        (n == "dark green"@ || n == "darkgreen"@) ==> palette_hex(n) == 0x00752CFFu32,
        (n == "sky blue"@ || n == "skyblue"@) ==> palette_hex(n) == 0x66BFFFFFu32,
        n == "blue"@ ==> palette_hex(n) == 0x0079F1FFu32,
        (n == "dark blue"@ || n == "darkblue"@) ==> palette_hex(n) == 0x0052ACFFu32,
        n == "purple"@ ==> palette_hex(n) == 0xC87AFFFFu32,
        n == "violet"@ ==> palette_hex(n) == 0x873CBEFFu32,
        (n == "dark purple"@ || n == "darkpurple"@) ==> palette_hex(n) == 0x701F7EFFu32,
        n == "beige"@ ==> palette_hex(n) == 0xD3B083FFu32,
        n == "brown"@ ==> palette_hex(n) == 0x7F6A4FFFu32,
        (n == "dark brown"@ || n == "darkbrown"@) ==> palette_hex(n) == 0x4C3F2FFFu32,
        n == "white"@ ==> palette_hex(n) == 0xFFFFFFFFu32,
        n == "black"@ ==> palette_hex(n) == 0x000000FFu32,
        n == "magenta"@ ==> palette_hex(n) == 0xFF00FFFFu32,
        exact_palette(n) matches Some(h) ==> h == palette_hex(n),
{
    reveal_strlit("light gray");
    assert("light gray"@.len() == 10);
    assert("light gray"@[0] == 'l');
    assert("light gray"@[1] == 'i');
    assert("light gray"@[2] == 'g');
    assert("light gray"@[3] == 'h');
    assert("light gray"@[4] == 't');
    assert("light gray"@[5] == ' ');
    assert("light gray"@[6] == 'g');
    assert("light gray"@[7] == 'r');
    assert("light gray"@[8] == 'a');
    assert("light gray"@[9] == 'y');
    reveal_strlit("lightgray");
    assert("lightgray"@.len() == 9);
    assert("lightgray"@[0] == 'l');
    assert("lightgray"@[1] == 'i');
    assert("lightgray"@[2] == 'g');
    assert("lightgray"@[3] == 'h');
    assert("lightgray"@[4] == 't');
    assert("lightgray"@[5] == 'g');
    assert("lightgray"@[6] == 'r');
    assert("lightgray"@[7] == 'a');
    assert("lightgray"@[8] == 'y');
    reveal_strlit("gray");
    assert("gray"@.len() == 4);
    assert("gray"@[0] == 'g');
    assert("gray"@[1] == 'r');
    assert("gray"@[2] == 'a');
    assert("gray"@[3] == 'y');
    reveal_strlit("grey");
    assert("grey"@.len() == 4);
    assert("grey"@[0] == 'g');
    assert("grey"@[1] == 'r');
    assert("grey"@[2] == 'e');
    assert("grey"@[3] == 'y');
    reveal_strlit("dark gray");
    assert("dark gray"@.len() == 9);
    assert("dark gray"@[0] == 'd');
    assert("dark gray"@[1] == 'a');
    assert("dark gray"@[2] == 'r');
    assert("dark gray"@[3] == 'k');
    assert("dark gray"@[4] == ' ');
    assert("dark gray"@[5] == 'g');
    assert("dark gray"@[6] == 'r');
    assert("dark gray"@[7] == 'a');
    assert("dark gray"@[8] == 'y');
    reveal_strlit("darkgray");
    assert("darkgray"@.len() == 8);
    assert("darkgray"@[0] == 'd');
    assert("darkgray"@[1] == 'a');
    assert("darkgray"@[2] == 'r');
    assert("darkgray"@[3] == 'k');
    assert("darkgray"@[4] == 'g');
    assert("darkgray"@[5] == 'r');
    assert("darkgray"@[6] == 'a');
    assert("darkgray"@[7] == 'y');
    reveal_strlit("dark grey");
    assert("dark grey"@.len() == 9);
    assert("dark grey"@[0] == 'd');
    assert("dark grey"@[1] == 'a');
    assert("dark grey"@[2] == 'r');
    assert("dark grey"@[3] == 'k');
    assert("dark grey"@[4] == ' ');
    assert("dark grey"@[5] == 'g');
    assert("dark grey"@[6] == 'r');
    assert("dark grey"@[7] == 'e');
    assert("dark grey"@[8] == 'y');
    reveal_strlit("darkgrey");
    assert("darkgrey"@.len() == 8);
    assert("darkgrey"@[0] == 'd');
    assert("darkgrey"@[1] == 'a');
    assert("darkgrey"@[2] == 'r');
    assert("darkgrey"@[3] == 'k');
    assert("darkgrey"@[4] == 'g');
    assert("darkgrey"@[5] == 'r');
    assert("darkgrey"@[6] == 'e');
    assert("darkgrey"@[7] == 'y');
    reveal_strlit("yellow");
    assert("yellow"@.len() == 6);
    assert("yellow"@[0] == 'y');
    assert("yellow"@[1] == 'e');
    assert("yellow"@[2] == 'l');
    assert("yellow"@[3] == 'l');
    assert("yellow"@[4] == 'o');
    assert("yellow"@[5] == 'w');
    reveal_strlit("gold");
    assert("gold"@.len() == 4);
    assert("gold"@[0] == 'g');
    assert("gold"@[1] == 'o');
    assert("gold"@[2] == 'l');
    assert("gold"@[3] == 'd');
    reveal_strlit("orange");
    assert("orange"@.len() == 6);
    assert("orange"@[0] == 'o');
    assert("orange"@[1] == 'r');
    assert("orange"@[2] == 'a');
    assert("orange"@[3] == 'n');
    assert("orange"@[4] == 'g');
    assert("orange"@[5] == 'e');
    reveal_strlit("pink");
    assert("pink"@.len() == 4);
    assert("pink"@[0] == 'p');
    assert("pink"@[1] == 'i');
    assert("pink"@[2] == 'n');
    assert("pink"@[3] == 'k');
    reveal_strlit("red");
    assert("red"@.len() == 3);
    assert("red"@[0] == 'r');
    assert("red"@[1] == 'e');
    assert("red"@[2] == 'd');
    reveal_strlit("maroon");
    assert("maroon"@.len() == 6);
    assert("maroon"@[0] == 'm');
    assert("maroon"@[1] == 'a');
    assert("maroon"@[2] == 'r');
    assert("maroon"@[3] == 'o');
    assert("maroon"@[4] == 'o');
    assert("maroon"@[5] == 'n');
    reveal_strlit("green");
    assert("green"@.len() == 5);
    assert("green"@[0] == 'g');
    assert("green"@[1] == 'r');
    assert("green"@[2] == 'e');
    assert("green"@[3] == 'e');
    assert("green"@[4] == 'n');
    reveal_strlit("lime");
    assert("lime"@.len() == 4);
    assert("lime"@[0] == 'l');
    assert("lime"@[1] == 'i');
    assert("lime"@[2] == 'm');
    assert("lime"@[3] == 'e');
    reveal_strlit("dark green");
    assert("dark green"@.len() == 10);
    assert("dark green"@[0] == 'd');
    assert("dark green"@[1] == 'a');
    assert("dark green"@[2] == 'r');
    assert("dark green"@[3] == 'k');
    assert("dark green"@[4] == ' ');
    assert("dark green"@[5] == 'g');
    assert("dark green"@[6] == 'r');
    assert("dark green"@[7] == 'e');
    assert("dark green"@[8] == 'e');
    assert("dark green"@[9] == 'n');
    reveal_strlit("darkgreen");
    assert("darkgreen"@.len() == 9);
    assert("darkgreen"@[0] == 'd');
    assert("darkgreen"@[1] == 'a');
    assert("darkgreen"@[2] == 'r');
    assert("darkgreen"@[3] == 'k');
    assert("darkgreen"@[4] == 'g');
    assert("darkgreen"@[5] == 'r');
    assert("darkgreen"@[6] == 'e');
    assert("darkgreen"@[7] == 'e');
    assert("darkgreen"@[8] == 'n');
    reveal_strlit("sky blue");
    assert("sky blue"@.len() == 8);
    assert("sky blue"@[0] == 's');
    assert("sky blue"@[1] == 'k');
    assert("sky blue"@[2] == 'y');
    assert("sky blue"@[3] == ' ');
    assert("sky blue"@[4] == 'b');
    assert("sky blue"@[5] == 'l');
    assert("sky blue"@[6] == 'u');
    assert("sky blue"@[7] == 'e');
    reveal_strlit("skyblue");
    assert("skyblue"@.len() == 7);
    assert("skyblue"@[0] == 's');
    assert("skyblue"@[1] == 'k');
    assert("skyblue"@[2] == 'y');
    assert("skyblue"@[3] == 'b');
    assert("skyblue"@[4] == 'l');
    assert("skyblue"@[5] == 'u');
    assert("skyblue"@[6] == 'e');
    reveal_strlit("blue");
    assert("blue"@.len() == 4);
    assert("blue"@[0] == 'b');
    assert("blue"@[1] == 'l');
    assert("blue"@[2] == 'u');
    assert("blue"@[3] == 'e');
    reveal_strlit("dark blue");
    assert("dark blue"@.len() == 9);
    assert("dark blue"@[0] == 'd');
    assert("dark blue"@[1] == 'a');
    assert("dark blue"@[2] == 'r');
    assert("dark blue"@[3] == 'k');
    assert("dark blue"@[4] == ' ');
    assert("dark blue"@[5] == 'b');
    assert("dark blue"@[6] == 'l');
    assert("dark blue"@[7] == 'u');
    assert("dark blue"@[8] == 'e');
    reveal_strlit("darkblue");
    assert("darkblue"@.len() == 8);
    assert("darkblue"@[0] == 'd');
    assert("darkblue"@[1] == 'a');
    assert("darkblue"@[2] == 'r');
    assert("darkblue"@[3] == 'k');
    assert("darkblue"@[4] == 'b');
    assert("darkblue"@[5] == 'l');
    assert("darkblue"@[6] == 'u');
    assert("darkblue"@[7] == 'e');
    reveal_strlit("purple");
    assert("purple"@.len() == 6);
    assert("purple"@[0] == 'p');
    assert("purple"@[1] == 'u');
    assert("purple"@[2] == 'r');
    assert("purple"@[3] == 'p');
    assert("purple"@[4] == 'l');
    assert("purple"@[5] == 'e');
    reveal_strlit("violet");
    assert("violet"@.len() == 6);
    assert("violet"@[0] == 'v');
    assert("violet"@[1] == 'i');
    assert("violet"@[2] == 'o');
    assert("violet"@[3] == 'l');
    assert("violet"@[4] == 'e');
    assert("violet"@[5] == 't');
    reveal_strlit("dark purple");
    assert("dark purple"@.len() == 11);
    assert("dark purple"@[0] == 'd');
    assert("dark purple"@[1] == 'a');
    assert("dark purple"@[2] == 'r');
    assert("dark purple"@[3] == 'k');
    assert("dark purple"@[4] == ' ');
    assert("dark purple"@[5] == 'p');
    assert("dark purple"@[6] == 'u');
    assert("dark purple"@[7] == 'r');
    assert("dark purple"@[8] == 'p');
    assert("dark purple"@[9] == 'l');
    assert("dark purple"@[10] == 'e');
    reveal_strlit("darkpurple");
    assert("darkpurple"@.len() == 10);
    assert("darkpurple"@[0] == 'd');
    assert("darkpurple"@[1] == 'a');
    assert("darkpurple"@[2] == 'r');
    assert("darkpurple"@[3] == 'k');
    assert("darkpurple"@[4] == 'p');
    assert("darkpurple"@[5] == 'u');
    assert("darkpurple"@[6] == 'r');
    assert("darkpurple"@[7] == 'p');
    assert("darkpurple"@[8] == 'l');
    assert("darkpurple"@[9] == 'e');
    reveal_strlit("beige");
    assert("beige"@.len() == 5);
    assert("beige"@[0] == 'b');
    assert("beige"@[1] == 'e');
    assert("beige"@[2] == 'i');
    assert("beige"@[3] == 'g');
    assert("beige"@[4] == 'e');
    reveal_strlit("brown");
    assert("brown"@.len() == 5);
    assert("brown"@[0] == 'b');
    assert("brown"@[1] == 'r');
    assert("brown"@[2] == 'o');
    assert("brown"@[3] == 'w');
    assert("brown"@[4] == 'n');
    reveal_strlit("dark brown");
    assert("dark brown"@.len() == 10);
    assert("dark brown"@[0] == 'd');
    assert("dark brown"@[1] == 'a');
    assert("dark brown"@[2] == 'r');
    assert("dark brown"@[3] == 'k');
    assert("dark brown"@[4] == ' ');
    assert("dark brown"@[5] == 'b');
    assert("dark brown"@[6] == 'r');
    assert("dark brown"@[7] == 'o');
    assert("dark brown"@[8] == 'w');
    assert("dark brown"@[9] == 'n');
    reveal_strlit("darkbrown");
    assert("darkbrown"@.len() == 9);
    assert("darkbrown"@[0] == 'd');
    assert("darkbrown"@[1] == 'a');
    assert("darkbrown"@[2] == 'r');
    assert("darkbrown"@[3] == 'k');
    assert("darkbrown"@[4] == 'b');
    assert("darkbrown"@[5] == 'r');
    assert("darkbrown"@[6] == 'o');
    assert("darkbrown"@[7] == 'w');
    assert("darkbrown"@[8] == 'n');
    reveal_strlit("white");
    assert("white"@.len() == 5);
    assert("white"@[0] == 'w');
    assert("white"@[1] == 'h');
    assert("white"@[2] == 'i');
    assert("white"@[3] == 't');
    assert("white"@[4] == 'e');
    reveal_strlit("black");
    assert("black"@.len() == 5);
    assert("black"@[0] == 'b');
    assert("black"@[1] == 'l');
    assert("black"@[2] == 'a');
    assert("black"@[3] == 'c');
    assert("black"@[4] == 'k');
    reveal_strlit("magenta");
    assert("magenta"@.len() == 7);
    assert("magenta"@[0] == 'm');
    assert("magenta"@[1] == 'a');
    assert("magenta"@[2] == 'g');
    assert("magenta"@[3] == 'e');
    assert("magenta"@[4] == 'n');
    assert("magenta"@[5] == 't');
    assert("magenta"@[6] == 'a');
    reveal_strlit("blank");
    assert("blank"@.len() == 5);
    assert("blank"@[0] == 'b');
    assert("blank"@[1] == 'l');
    assert("blank"@[2] == 'a');
    assert("blank"@[3] == 'n');
    assert("blank"@[4] == 'k');
    reveal_strlit("transparent");
    assert("transparent"@.len() == 11);
    assert("transparent"@[0] == 't');
    assert("transparent"@[1] == 'r');
    assert("transparent"@[2] == 'a');
    assert("transparent"@[3] == 'n');
    assert("transparent"@[4] == 's');
    assert("transparent"@[5] == 'p');
    assert("transparent"@[6] == 'a');
    assert("transparent"@[7] == 'r');
    assert("transparent"@[8] == 'e');
    assert("transparent"@[9] == 'n');
    assert("transparent"@[10] == 't');
}

} // verus!
