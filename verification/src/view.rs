//! Snapshots of the active scene, built from the scene description and the
//! game state for a front end to draw.

use vstd::prelude::*;
use vstd::string::StringExecFns;
use crate::engine::{CursorType, DialogueView, ItemView, condition_holds, cursor_for};
use crate::fields::{Length, LengthModel, length_of, string_or};
use crate::gss::lookup::get_spec;
use crate::gss::model::{ObjectModel, ValueModel};
use crate::state::GameState;
use crate::text::{ascii_upper, lowercase, push_char, replace_char, to_ascii_upper, trim};

verus! {

/// Where a hotspot lies, as its description writes it: `left` is relative
/// to the screen width and `top` to the screen height; `width` and `height`
/// are taken as they are.
#[derive(Debug, PartialEq, Eq)]
pub struct HotspotBounds {
    pub left: Length,
    pub top: Length,
    pub width: Length,
    pub height: Length,
}

/// Visual hotspot region in the active scene.
#[derive(Debug, PartialEq, Eq)]
pub struct HotspotView {
    /// Unique identifier for this hotspot.
    pub id: String,
    /// Screen boundaries.
    pub bounds: HotspotBounds,
    /// Interaction cursor.
    pub hover_cursor: CursorType,
    /// Hover description text.
    pub tooltip: String,
}

/// The model of a [`HotspotView`].
pub struct HotspotModel {
    pub id: Seq<char>,
    pub left: LengthModel,
    pub top: LengthModel,
    pub width: LengthModel,
    pub height: LengthModel,
    pub hover_cursor: CursorType,
    pub tooltip: Seq<char>,
}

impl HotspotView {
    pub open spec fn view(self) -> HotspotModel {
        HotspotModel {
            id: self.id@,
            left: self.bounds.left@,
            top: self.bounds.top@,
            width: self.bounds.width@,
            height: self.bounds.height@,
            hover_cursor: self.hover_cursor,
            tooltip: self.tooltip@,
        }
    }
}

/// The model of an [`ItemView`].
pub struct ItemModel {
    pub id: Seq<char>,
    pub name: Seq<char>,
    pub icon_texture: Seq<char>,
}

impl ItemView {
    pub open spec fn view(self) -> ItemModel {
        ItemModel { id: self.id@, name: self.name@, icon_texture: self.icon_texture@ }
    }
}

/// Snapshot of the visible game scene.
#[derive(Debug, PartialEq, Eq)]
pub struct SceneView {
    /// Unique scene name.
    pub scene_id: String,
    /// Filepath or asset descriptor of the background.
    pub background_texture: String,
    /// List of interactive hotspots.
    pub hotspots: Vec<HotspotView>,
    /// Dialogue overlay status.
    pub dialogue: Option<DialogueView>,
    /// Current inventory.
    pub inventory: Vec<ItemView>,
}

/// The models of a list of hotspots.
pub open spec fn hotspots_view(hs: Seq<HotspotView>) -> Seq<HotspotModel> {
    hs.map_values(|h: HotspotView| h@)
}

/// The models of a list of items.
pub open spec fn items_view(items: Seq<ItemView>) -> Seq<ItemModel> {
    items.map_values(|i: ItemView| i@)
}

/// The path of the field `field` of the hotspot `name` of `scene`.
pub open spec fn hotspot_path(scene: Seq<char>, name: Seq<char>, field: Seq<char>) -> Seq<
    Seq<char>,
> {
    seq![scene, "hotspots"@, name, field]
}

/// The hotspot `name` of `scene` as the scene description gives it: lengths
/// as written, the cursor named by `cursor` (default `pointer`), and the
/// tooltip (default: the hotspot's name).
pub open spec fn hotspot_of(scenes: ObjectModel, scene: Seq<char>, name: Seq<char>) -> HotspotModel {
    let at = |field: Seq<char>| get_spec(scenes, hotspot_path(scene, name, field));
    HotspotModel {
        id: name,
        left: length_of(at("left"@)),
        top: length_of(at("top"@)),
        width: length_of(at("width"@)),
        height: length_of(at("height"@)),
        hover_cursor: cursor_for(lowercase(trim(string_or(at("cursor"@), "pointer"@)))),
        tooltip: string_or(at("tooltip"@), name),
    }
}

/// Whether the hotspot `name` is shown: its `visible_if` condition holds, or
/// it has no such string.
pub open spec fn hotspot_visible(
    state: GameState,
    scenes: ObjectModel,
    scene: Seq<char>,
    name: Seq<char>,
) -> bool {
    match get_spec(scenes, hotspot_path(scene, name, "visible_if"@)) {
        Some(ValueModel::Str(cond)) => condition_holds(state, cond),
        _ => true,
    }
}

/// The visible hotspots among `names`, in order.
pub open spec fn visible_hotspots(
    state: GameState,
    scenes: ObjectModel,
    scene: Seq<char>,
    names: Seq<Seq<char>>,
) -> Seq<HotspotModel>
    decreases names.len(),
{
    if names.len() == 0 {
        Seq::empty()
    } else {
        let before = visible_hotspots(state, scenes, scene, names.drop_last());
        if hotspot_visible(state, scenes, scene, names.last()) {
            before.push(hotspot_of(scenes, scene, names.last()))
        } else {
            before
        }
    }
}

/// The keys of an object, in document order.
pub open spec fn keys_of(o: ObjectModel) -> Seq<Seq<char>> {
    o.fields.map_values(|f: (Seq<char>, ValueModel)| f.0)
}

/// The visible hotspots of `scene`: those of the object at `scene.hotspots`,
/// in document order.
pub open spec fn scene_hotspots(state: GameState, scenes: ObjectModel, scene: Seq<char>) -> Seq<
    HotspotModel,
> {
    match get_spec(scenes, seq![scene, "hotspots"@]) {
        Some(ValueModel::Obj(o)) => visible_hotspots(state, scenes, scene, keys_of(o)),
        _ => Seq::empty(),
    }
}

/// `s` with its first character in ASCII upper case.
pub open spec fn capitalize(s: Seq<char>) -> Seq<char> {
    if s.len() == 0 {
        s
    } else {
        seq![ascii_upper(s[0])] + s.drop_first()
    }
}

/// The display name of an item: underscores become spaces and the first
/// letter is capitalized (`brass_key` is shown as `Brass key`).
pub open spec fn item_name(id: Seq<char>) -> Seq<char> {
    capitalize(replace_char(id, '_', ' '))
}

/// The icon of an item: `data/assets/items/ID.png`.
pub open spec fn item_icon(id: Seq<char>) -> Seq<char> {
    "data/assets/items/"@ + id + ".png"@
}

/// The snapshot of the item `id`.
pub open spec fn item_of(id: Seq<char>) -> ItemModel {
    ItemModel { id, name: item_name(id), icon_texture: item_icon(id) }
}

/// Builds the display name of the item `id`.
pub fn item_display_name(id: &str) -> (name: String)
    ensures
        name@ == item_name(id@),
{
    let mut name = String::new();
    let mut first = true;
    for c in it: id.chars()
        invariant
            first == (it.index() == 0),
            name@ == capitalize(replace_char(it.seq().take(it.index() as int), '_', ' ')),
    {
        let ghost done = it.seq().take(it.index() as int);
        let d = if c == '_' {
            ' '
        } else {
            c
        };
        let d = if first {
            to_ascii_upper(d)
        } else {
            d
        };
        push_char(&mut name, d);
        proof {
            let next = it.seq().take(it.index() + 1);
            assert(next =~= done.push(c));
            assert(replace_char(next, '_', ' ') =~= replace_char(done, '_', ' ').push(
                if c == '_' {
                    ' '
                } else {
                    c
                },
            ));
            if !first {
                assert(capitalize(replace_char(next, '_', ' ')) =~= capitalize(
                    replace_char(done, '_', ' '),
                ).push(d));
            } else {
                assert(capitalize(replace_char(next, '_', ' ')) =~= seq![d]);
            }
        }
        first = false;
    }
    name
}

/// Builds the snapshot of the collected item `id`.
pub fn item_view(id: &str) -> (item: ItemView)
    ensures
        item@ == item_of(id@),
{
    let mut icon = String::new();
    icon.append("data/assets/items/");
    icon.append(id);
    icon.append(".png");
    ItemView { id: id.to_owned(), name: item_display_name(id), icon_texture: icon }
}

/// Builds the snapshots of the collected items, in the order collected.
pub fn inventory_views(ids: &Vec<String>) -> (items: Vec<ItemView>)
    ensures
        items_view(items@) == ids@.map_values(|s: String| item_of(s@)),
{
    let mut items: Vec<ItemView> = Vec::new();
    let mut i: usize = 0;
    while i < ids.len()
        invariant
            i <= ids@.len(),
            items@.len() == i,
            forall|j: int| 0 <= j < i ==> #[trigger] items@[j]@ == item_of(ids@[j]@),
        decreases ids.len() - i,
    {
        items.push(item_view(ids[i].as_str()));
        i += 1;
    }
    assert(items_view(items@) =~= ids@.map_values(|s: String| item_of(s@)));
    items
}

} // verus!
