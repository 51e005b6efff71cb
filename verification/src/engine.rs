//! The point-and-click engine: scenes described in GSS, the game state, and
//! the rules that turn player events into state changes.

use vstd::prelude::*;
use vstd::string::StringExecFns;
use crate::fields::{get_string_field, length_field, string_or};
use crate::gss::lookup::{get_spec, path_view};
use crate::gss::model::{Object, ObjectModel, ValueModel};
use crate::state::{
    GameState, flag_stored, same_variables, with_item,
};
use crate::text::{
    ascii_lowercase, chars_of, find_char, is_ascii, lemma_trim_ascii, first_index_of, has_prefix, lowercase, range_is, split_once, str_eq,
    string_of_range, strip_prefix, to_lowercase, trim, trim_bounds, trim_char,
    trim_char_bounds,
};

use crate::view::{
    HotspotBounds, HotspotView, SceneView, hotspot_of, hotspot_path, hotspot_visible,
    hotspots_view, inventory_views, item_of, items_view, keys_of, scene_hotspots, visible_hotspots,
};

verus! {

/// The cursor types for hotspot interactions.
#[derive(Debug, Clone, Copy, PartialEq, Eq, Structural)]
pub enum CursorType {
    /// Standard pointer cursor.
    Pointer,
    /// Walk indicator (e.g. arrow or boots).
    Walk,
    /// Eye symbol to examine things.
    Look,
    /// Hand symbol to grab/pickup items.
    Grab,
    /// Talk bubble for speaking.
    Talk,
    /// Transition arrow to exit left.
    ExitLeft,
    /// Transition arrow to exit right.
    ExitRight,
}

/// The cursor that a (trimmed, lowercased) name stands for.
pub open spec fn cursor_for(name: Seq<char>) -> CursorType {
    if name == "walk"@ {
        CursorType::Walk
    } else if name == "look"@ {
        CursorType::Look
    } else if name == "grab"@ || name == "take"@ {
        CursorType::Grab
    } else if name == "talk"@ || name == "speak"@ {
        CursorType::Talk
    } else if name == "exit_left"@ {
        CursorType::ExitLeft
    } else if name == "exit_right"@ {
        CursorType::ExitRight
    } else {
        CursorType::Pointer
    }
}

impl CursorType {
    /// The cursor for an already trimmed and lowercased name.
    pub fn from_lowercase(name: &str) -> (c: CursorType)
        ensures
            c == cursor_for(name@),
    {
        if str_eq(name, "walk") {
            CursorType::Walk
        } else if str_eq(name, "look") {
            CursorType::Look
        } else if str_eq(name, "grab") || str_eq(name, "take") {
            CursorType::Grab
        } else if str_eq(name, "talk") || str_eq(name, "speak") {
            CursorType::Talk
        } else if str_eq(name, "exit_left") {
            CursorType::ExitLeft
        } else if str_eq(name, "exit_right") {
            CursorType::ExitRight
        } else {
            CursorType::Pointer
        }
    }

    /// Parse cursor string from GSS: the name is trimmed and lowercased.
    pub fn from_str(s: &str) -> (c: CursorType)
        ensures
            c == cursor_for(lowercase(trim(s@))),
            is_ascii(s@) ==> c == cursor_for(ascii_lowercase(trim(s@))),
    {
        let v = chars_of(s);
        let (lo, hi) = trim_bounds(&v, 0, v.len());
        assert(v@.subrange(0, v@.len() as int) =~= v@);
        let trimmed = string_of_range(&v, lo, hi);
        proof {
            if is_ascii(s@) {
                lemma_trim_ascii(s@);
            }
        }
        let lowered = to_lowercase(trimmed.as_str());
        CursorType::from_lowercase(lowered.as_str())
    }
}

/// The model of a [`DialogueView`].
pub struct DialogueModel {
    pub speaker: Seq<char>,
    pub text: Seq<char>,
    pub options: Seq<Seq<char>>,
}

/// Dialogue snapshot to display on the screen.
#[derive(Debug, PartialEq, Eq)]
pub struct DialogueView {
    /// Name of the character speaking.
    pub speaker: String,
    /// The speech content.
    pub text: String,
    /// Multiple-choice options (if any).
    pub options: Vec<String>,
}

impl DialogueView {
    pub open spec fn view(self) -> DialogueModel {
        DialogueModel {
            speaker: self.speaker@,
            text: self.text@,
            options: self.options@.map_values(|s: String| s@),
        }
    }

    /// A copy of this dialogue.
    pub fn copy(&self) -> (d: DialogueView)
        ensures
            d@ == self@,
    {
        let mut options: Vec<String> = Vec::new();
        let mut i: usize = 0;
        while i < self.options.len()
            invariant
                i <= self.options@.len(),
                options@.len() == i,
                forall|j: int| 0 <= j < i ==> #[trigger] options@[j]@ == self.options@[j]@,
            decreases self.options.len() - i,
        {
            options.push(self.options[i].clone());
            i += 1;
        }
        let d = DialogueView {
            speaker: self.speaker.clone(),
            text: self.text.clone(),
            options,
        };
        assert(d@.options =~= self@.options);
        d
    }
}

/// The model of an optional dialogue.
pub open spec fn dialogue_view(d: Option<DialogueView>) -> Option<DialogueModel> {
    match d {
        Some(v) => Some(v@),
        None => None,
    }
}

/// Item snapshot inside the player's inventory.
#[derive(Debug, PartialEq, Eq)]
pub struct ItemView {
    /// Uniquely identifies the item.
    pub id: String,
    /// Display name of the item.
    pub name: String,
    /// Texture asset filepath.
    pub icon_texture: String,
}

/// EngineEvent emitted by user interaction.
#[derive(Debug, PartialEq, Eq)]
pub enum EngineEvent {
    /// Sent when the player clicks on a hotspot area in the active scene.
    ClickHotspot { hotspot_id: String },
    /// Sent when a UI control button is pressed.
    ClickUiButton { button_id: String },
    /// Sent when the player uses an item on a hotspot.
    UseItem { item_id: String, target_hotspot_id: String },
    /// Sent when selecting a dialogue branch option.
    SelectDialogOption { option_index: usize },
    /// Sent when clicking screen/dialogue to skip to the next line.
    SkipDialogue,
}

/// What a condition string says of a state: an empty condition holds; a
/// leading `!` negates; `flags.NAME` and a bare `NAME` read a flag (absent is
/// false); `inventory.ID` asks whether the item was collected.
pub open spec fn condition_holds(state: GameState, cond: Seq<char>) -> bool {
    let c = trim(cond);
    if c.len() == 0 {
        true
    } else {
        let invert = c[0] == '!';
        let key = if invert {
            c.drop_first()
        } else {
            c
        };
        let val = match strip_prefix(key, "flags."@) {
            Some(name) => state.flag_of(name) == Some(true),
            None => match strip_prefix(key, "inventory."@) {
                Some(id) => state.items().contains(id),
                None => state.flag_of(key) == Some(true),
            },
        };
        if invert {
            !val
        } else {
            val
        }
    }
}

/// The model of an [`Action`].
pub enum ActionModel {
    ChangeScene(Seq<char>),
    PickUpItem(Seq<char>),
    SetFlag(Seq<char>, bool),
    ShowDialogue(Seq<char>, Seq<char>),
    ClearDialogue,
    Unknown(Seq<char>),
    Ignored,
}

/// An action command, as read from its text.
#[derive(Debug, PartialEq, Eq)]
pub enum Action {
    /// `change_scene ID`
    ChangeScene(String),
    /// `pick_up_item ID`: collect the item and set the flag `has_ID`.
    PickUpItem(String),
    /// `set_flag NAME VALUE`: the flag is true when VALUE is `true`.
    SetFlag(String, bool),
    /// `show_dialogue SPEAKER TEXT`, with quotes around TEXT removed.
    ShowDialogue(String, String),
    /// `clear_dialogue`
    ClearDialogue,
    /// A command the engine does not know.
    Unknown(String),
    /// A known command whose arguments are missing.
    Ignored,
}

impl Action {
    pub open spec fn view(self) -> ActionModel {
        match self {
            Action::ChangeScene(s) => ActionModel::ChangeScene(s@),
            Action::PickUpItem(s) => ActionModel::PickUpItem(s@),
            Action::SetFlag(s, b) => ActionModel::SetFlag(s@, b),
            Action::ShowDialogue(a, b) => ActionModel::ShowDialogue(a@, b@),
            Action::ClearDialogue => ActionModel::ClearDialogue,
            Action::Unknown(s) => ActionModel::Unknown(s@),
            Action::Ignored => ActionModel::Ignored,
        }
    }
}

/// The action an action string describes: the command is the text before the
/// first space, its argument the trimmed rest.
pub open spec fn action_of(s: Seq<char>) -> ActionModel {
    let a = trim(s);
    let parts = split_once(a, ' ');
    let cmd = parts.0;
    let arg = match parts.1 {
        Some(r) => trim(r),
        None => Seq::empty(),
    };
    if cmd == "change_scene"@ {
        if arg.len() > 0 {
            ActionModel::ChangeScene(arg)
        } else {
            ActionModel::Ignored
        }
    } else if cmd == "pick_up_item"@ {
        if arg.len() > 0 {
            ActionModel::PickUpItem(arg)
        } else {
            ActionModel::Ignored
        }
    } else if cmd == "set_flag"@ {
        let sub = split_once(arg, ' ');
        match sub.1 {
            Some(v) => ActionModel::SetFlag(trim(sub.0), trim(v) == "true"@),
            None => ActionModel::Ignored,
        }
    } else if cmd == "show_dialogue"@ {
        let sub = split_once(arg, ' ');
        match sub.1 {
            Some(t) => ActionModel::ShowDialogue(
                trim(sub.0),
                trim_char(trim_char(trim(t), '\''), '"'),
            ),
            None => ActionModel::Ignored,
        }
    } else if cmd == "clear_dialogue"@ {
        ActionModel::ClearDialogue
    } else {
        ActionModel::Unknown(cmd)
    }
}

/// What a trigger string asks for.
pub enum TriggerModel {
    /// `action:TEXT` runs the action TEXT.
    Action(Seq<char>),
    /// `script:NAME` asks the script hook to run NAME.
    Script(Seq<char>),
    /// Anything else does nothing.
    Ignored,
}

/// What the (trimmed) trigger string `t` asks for.
pub open spec fn trigger_of(t: Seq<char>) -> TriggerModel {
    let t = trim(t);
    match strip_prefix(t, "action:"@) {
        Some(a) => TriggerModel::Action(a),
        None => match strip_prefix(t, "script:"@) {
            Some(n) => TriggerModel::Script(n),
            None => TriggerModel::Ignored,
        },
    }
}

/// Reads an action string.
#[verifier::rlimit(40)]
pub fn parse_action(s: &str) -> (a: Action)
    ensures
        a@ == action_of(s@),
{
    let v = chars_of(s);
    let ghost all = v@;
    assert(v@.subrange(0, v@.len() as int) =~= v@);
    let (lo, hi) = trim_bounds(&v, 0, v.len());
    let ghost a = trim(s@);
    assert(a == v@.subrange(lo as int, hi as int));
    let (cmd_end, arg_lo, arg_hi) = match find_char(&v, lo, hi, ' ') {
        Some(sp) => {
            let (alo, ahi) = trim_bounds(&v, sp + 1, hi);
            proof {
                let i = sp - lo;
                assert(first_index_of(a, ' ') == Some(i));
                assert(a.take(i) =~= v@.subrange(lo as int, sp as int));
                assert(a.skip(i + 1) =~= v@.subrange(sp + 1, hi as int));
                assert(split_once(a, ' ') == (a.take(i), Some(a.skip(i + 1))));
            }
            (sp, alo, ahi)
        },
        None => {
            proof {
                assert(first_index_of(a, ' ') is None);
                assert(v@.subrange(hi as int, hi as int) =~= Seq::<char>::empty());
            }
            (hi, hi, hi)
        },
    };
    let ghost cmd = v@.subrange(lo as int, cmd_end as int);
    let ghost arg = v@.subrange(arg_lo as int, arg_hi as int);
    assert(cmd == split_once(a, ' ').0);
    assert(arg == match split_once(a, ' ').1 {
        Some(r) => trim(r),
        None => Seq::<char>::empty(),
    });
    if range_is(&v, lo, cmd_end, "change_scene") {
        if arg_hi > arg_lo {
            Action::ChangeScene(string_of_range(&v, arg_lo, arg_hi))
        } else {
            Action::Ignored
        }
    } else if range_is(&v, lo, cmd_end, "pick_up_item") {
        if arg_hi > arg_lo {
            Action::PickUpItem(string_of_range(&v, arg_lo, arg_hi))
        } else {
            Action::Ignored
        }
    } else if range_is(&v, lo, cmd_end, "set_flag") {
        match find_char(&v, arg_lo, arg_hi, ' ') {
            Some(sp) => {
                proof {
                    let i = sp - arg_lo;
                    assert(arg.take(i) =~= v@.subrange(arg_lo as int, sp as int));
                    assert(arg.skip(i + 1) =~= v@.subrange(sp + 1, arg_hi as int));
                }
                let (nlo, nhi) = trim_bounds(&v, arg_lo, sp);
                let (vlo, vhi) = trim_bounds(&v, sp + 1, arg_hi);
                let name = string_of_range(&v, nlo, nhi);
                let val = range_is(&v, vlo, vhi, "true");
                Action::SetFlag(name, val)
            },
            None => Action::Ignored,
        }
    } else if range_is(&v, lo, cmd_end, "show_dialogue") {
        match find_char(&v, arg_lo, arg_hi, ' ') {
            Some(sp) => {
                proof {
                    let i = sp - arg_lo;
                    assert(arg.take(i) =~= v@.subrange(arg_lo as int, sp as int));
                    assert(arg.skip(i + 1) =~= v@.subrange(sp + 1, arg_hi as int));
                }
                let (slo, shi) = trim_bounds(&v, arg_lo, sp);
                let (tlo, thi) = trim_bounds(&v, sp + 1, arg_hi);
                let (qlo, qhi) = trim_char_bounds(&v, tlo, thi, '\'');
                let (dlo, dhi) = trim_char_bounds(&v, qlo, qhi, '"');
                let speaker = string_of_range(&v, slo, shi);
                let text = string_of_range(&v, dlo, dhi);
                Action::ShowDialogue(speaker, text)
            },
            None => Action::Ignored,
        }
    } else if range_is(&v, lo, cmd_end, "clear_dialogue") {
        Action::ClearDialogue
    } else {
        Action::Unknown(string_of_range(&v, lo, cmd_end))
    }
}

/// A trigger, as read from its text.
#[derive(Debug, PartialEq, Eq)]
pub enum Trigger {
    /// Run this action string.
    Action(String),
    /// Ask the script hook to run this script.
    Script(String),
    /// Nothing to do.
    Ignored,
}

impl Trigger {
    pub open spec fn view(self) -> TriggerModel {
        match self {
            Trigger::Action(s) => TriggerModel::Action(s@),
            Trigger::Script(s) => TriggerModel::Script(s@),
            Trigger::Ignored => TriggerModel::Ignored,
        }
    }
}

/// Reads a trigger string.
pub fn parse_trigger(t: &str) -> (r: Trigger)
    ensures
        r@ == trigger_of(t@),
{
    let v = chars_of(t);
    assert(v@.subrange(0, v@.len() as int) =~= v@);
    let (lo, hi) = trim_bounds(&v, 0, v.len());
    let ghost tt = v@.subrange(lo as int, hi as int);
    if has_prefix(&v, lo, hi, "action:") {
        let n = "action:".unicode_len();
        assert(tt.skip(n as int) =~= v@.subrange(lo + n, hi as int));
        Trigger::Action(string_of_range(&v, lo + n, hi))
    } else if has_prefix(&v, lo, hi, "script:") {
        let n = "script:".unicode_len();
        assert(tt.skip(n as int) =~= v@.subrange(lo + n, hi as int));
        Trigger::Script(string_of_range(&v, lo + n, hi))
    } else {
        Trigger::Ignored
    }
}

/// The core point-and-click engine controller.
pub struct EngineController {
    scenes_gss: Object,
    current_scene: String,
    state: GameState,
    active_dialogue: Option<DialogueView>,
}

impl EngineController {
    /// The scene descriptions.
    pub closed spec fn scenes(self) -> ObjectModel {
        self.scenes_gss@
    }

    /// The ID of the current scene.
    pub closed spec fn scene(self) -> Seq<char> {
        self.current_scene@
    }

    /// The game state.
    pub closed spec fn game_state(self) -> GameState {
        self.state
    }

    /// The dialogue on screen, if any.
    pub closed spec fn dialogue(self) -> Option<DialogueModel> {
        dialogue_view(self.active_dialogue)
    }

    /// Create a new point-and-click engine context.
    pub fn new(scenes_gss: Object, initial_scene: String) -> (e: EngineController)
        ensures
            e.scenes() == scenes_gss@,
            e.scene() == initial_scene@,
            forall|k: Seq<char>| #[trigger] e.game_state().flag_of(k) is None,
            forall|k: Seq<char>| #[trigger] e.game_state().variable_of(k) is None,
            e.game_state().items() == Seq::<Seq<char>>::empty(),
            e.dialogue() is None,
    {
        EngineController {
            scenes_gss,
            current_scene: initial_scene,
            state: GameState::new(),
            active_dialogue: None,
        }
    }

    /// The game state.
    pub fn state(&self) -> (s: &GameState)
        ensures
            *s == self.game_state(),
    {
        &self.state
    }

    /// Get a mutable reference to the game state.
    pub fn state_mut(&mut self) -> (s: &mut GameState)
        ensures
            *s == old(self).game_state(),
            final(self).game_state() == *final(s),
            final(self).scenes() == old(self).scenes(),
            final(self).scene() == old(self).scene(),
            final(self).dialogue() == old(self).dialogue(),
    {
        &mut self.state
    }

    /// Retrieve the current scene ID.
    pub fn current_scene_id(&self) -> (s: &str)
        ensures
            s@ == self.scene(),
    {
        self.current_scene.as_str()
    }

    /// The dialogue on screen, if any.
    pub fn active_dialogue(&self) -> (d: Option<&DialogueView>)
        ensures
            match d {
                Some(v) => self.dialogue() == Some(v@),
                None => self.dialogue() is None,
            },
    {
        match &self.active_dialogue {
            Some(d) => Some(d),
            None => None,
        }
    }

    /// Whether a condition string holds in the current state.
    pub fn evaluate_condition(&self, cond: &str) -> (b: bool)
        ensures
            b == condition_holds(self.game_state(), cond@),
    {
        let v = chars_of(cond);
        assert(v@.subrange(0, v@.len() as int) =~= v@);
        let (lo, hi) = trim_bounds(&v, 0, v.len());
        let ghost c = v@.subrange(lo as int, hi as int);
        if lo == hi {
            return true;
        }
        let invert = v[lo] == '!';
        let klo = if invert {
            lo + 1
        } else {
            lo
        };
        let ghost key = v@.subrange(klo as int, hi as int);
        assert(key == (if invert {
            c.drop_first()
        } else {
            c
        }));
        let val = if has_prefix(&v, klo, hi, "flags.") {
            let n = "flags.".unicode_len();
            assert(key.skip(n as int) =~= v@.subrange(klo + n, hi as int));
            let name = string_of_range(&v, klo + n, hi);
            self.state.flag(name.as_str()) == Some(true)
        } else if has_prefix(&v, klo, hi, "inventory.") {
            let n = "inventory.".unicode_len();
            assert(key.skip(n as int) =~= v@.subrange(klo + n, hi as int));
            let id = string_of_range(&v, klo + n, hi);
            self.state.has_item(id.as_str())
        } else {
            let name = string_of_range(&v, klo, hi);
            self.state.flag(name.as_str()) == Some(true)
        };
        if invert {
            !val
        } else {
            val
        }
    }
}

/// The engine `new` is the engine `old` after the action `a`.
pub open spec fn action_effect(old: EngineController, new: EngineController, a: ActionModel) -> bool {
    &&& new.scenes() == old.scenes()
    &&& match a {
        ActionModel::ChangeScene(id) => {
            &&& new.scene() == id
            &&& new.game_state() == old.game_state()
            &&& new.dialogue() == old.dialogue()
        },
        ActionModel::PickUpItem(id) => {
            &&& new.scene() == old.scene()
            &&& new.dialogue() == old.dialogue()
            &&& new.game_state().items() == with_item(old.game_state().items(), id)
            &&& flag_stored(old.game_state(), new.game_state(), "has_"@ + id, true)
            &&& same_variables(old.game_state(), new.game_state())
        },
        ActionModel::SetFlag(name, value) => {
            &&& new.scene() == old.scene()
            &&& new.dialogue() == old.dialogue()
            &&& new.game_state().items() == old.game_state().items()
            &&& flag_stored(old.game_state(), new.game_state(), name, value)
            &&& same_variables(old.game_state(), new.game_state())
        },
        ActionModel::ShowDialogue(speaker, text) => {
            &&& new.scene() == old.scene()
            &&& new.game_state() == old.game_state()
            &&& new.dialogue() == Some(
                DialogueModel { speaker, text, options: Seq::empty() },
            )
        },
        ActionModel::ClearDialogue => {
            &&& new.scene() == old.scene()
            &&& new.game_state() == old.game_state()
            &&& new.dialogue() is None
        },
        _ => {
            &&& new.scene() == old.scene()
            &&& new.game_state() == old.game_state()
            &&& new.dialogue() == old.dialogue()
        },
    }
}

/// The engine `new` is the engine `old` after the trigger `t`, and `r` is the
/// script it asks the hook to run.
pub open spec fn trigger_effect(
    old: EngineController,
    new: EngineController,
    t: Seq<char>,
    r: Option<String>,
) -> bool {
    match trigger_of(t) {
        TriggerModel::Action(a) => action_effect(old, new, action_of(a)) && r is None,
        TriggerModel::Script(name) => new == old && (r matches Some(s) && s@ == name),
        TriggerModel::Ignored => new == old && r is None,
    }
}

/// The trigger that a click or an item use reads from the scene description.
pub open spec fn event_trigger(scenes: ObjectModel, scene: Seq<char>, e: EngineEvent) -> Option<
    Seq<char>,
> {
    match e {
        EngineEvent::ClickHotspot { hotspot_id } => match get_spec(
            scenes,
            seq![scene, "hotspots"@, hotspot_id@, "on_click"@],
        ) {
            Some(ValueModel::Str(t)) => Some(t),
            _ => None,
        },
        EngineEvent::UseItem { item_id, target_hotspot_id } => match get_spec(
            scenes,
            seq![scene, "hotspots"@, target_hotspot_id@, "on_use"@],
        ) {
            Some(ValueModel::Obj(o)) => match get_spec(o, seq![item_id@]) {
                Some(ValueModel::Str(t)) => Some(t),
                _ => None,
            },
            _ => None,
        },
        _ => None,
    }
}

/// The engine `new` is the engine `old` after the event `e`, and `r` is the
/// script it asks the hook to run: skipping clears the dialogue; a click or
/// an item use runs the trigger the scene description gives it; other
/// events change nothing.
pub open spec fn event_effect(
    old: EngineController,
    new: EngineController,
    e: EngineEvent,
    r: Option<String>,
) -> bool {
    match e {
        EngineEvent::SkipDialogue => {
            &&& new.scenes() == old.scenes()
            &&& new.scene() == old.scene()
            &&& new.game_state() == old.game_state()
            &&& new.dialogue() is None
            &&& r is None
        },
        _ => match event_trigger(old.scenes(), old.scene(), e) {
            Some(t) => trigger_effect(old, new, t, r),
            None => new == old && r is None,
        },
    }
}

impl EngineController {
    /// Runs an action command on the engine.
    pub fn execute_action(&mut self, action_str: &str)
        ensures
            action_effect(*old(self), *final(self), action_of(action_str@)),
    {
        let a = parse_action(action_str);
        match a {
            Action::ChangeScene(id) => {
                self.current_scene = id;
            },
            Action::PickUpItem(id) => {
                let mut flag = String::new();
                flag.append("has_");
                flag.append(id.as_str());
                self.state.add_item(id);
                self.state.set_flag(flag, true);
            },
            Action::SetFlag(name, value) => {
                self.state.set_flag(name, value);
            },
            Action::ShowDialogue(speaker, text) => {
                let d = DialogueView { speaker, text, options: Vec::new() };
                assert(d@.options =~= Seq::<Seq<char>>::empty());
                self.active_dialogue = Some(d);
            },
            Action::ClearDialogue => {
                self.active_dialogue = None;
            },
            Action::Unknown(_) => {},
            Action::Ignored => {},
        }
    }

    /// Runs a trigger: an `action:` runs here; a `script:` is handed back, as
    /// the name of the script for the hook to run.
    pub fn execute_trigger(&mut self, trigger: &str) -> (r: Option<String>)
        ensures
            trigger_effect(*old(self), *final(self), trigger@, r),
    {
        match parse_trigger(trigger) {
            Trigger::Action(a) => {
                self.execute_action(a.as_str());
                None
            },
            Trigger::Script(name) => Some(name),
            Trigger::Ignored => None,
        }
    }

    /// Process a UI interaction event. Returns the script that the event's
    /// trigger asks the hook to run, if any.
    pub fn process_event(&mut self, event: EngineEvent) -> (r: Option<String>)
        ensures
            event_effect(*old(self), *final(self), event, r),
    {
        match event {
            EngineEvent::ClickHotspot { hotspot_id } => {
                let found = {
                    let path: [&str; 4] = [
                        self.current_scene.as_str(),
                        "hotspots",
                        hotspot_id.as_str(),
                        "on_click",
                    ];
                    assert(path_view(path@) =~= seq![
                        self.current_scene@,
                        "hotspots"@,
                        hotspot_id@,
                        "on_click"@,
                    ]);
                    match self.scenes_gss.get_string(&path) {
                        Some(t) => Some(t.clone()),
                        None => None,
                    }
                };
                match found {
                    Some(t) => self.execute_trigger(t.as_str()),
                    None => None,
                }
            },
            EngineEvent::SkipDialogue => {
                self.active_dialogue = None;
                None
            },
            EngineEvent::UseItem { item_id, target_hotspot_id } => {
                let found = {
                    let path: [&str; 4] = [
                        self.current_scene.as_str(),
                        "hotspots",
                        target_hotspot_id.as_str(),
                        "on_use",
                    ];
                    assert(path_view(path@) =~= seq![
                        self.current_scene@,
                        "hotspots"@,
                        target_hotspot_id@,
                        "on_use"@,
                    ]);
                    match self.scenes_gss.get_object(&path) {
                        Some(on_use) => {
                            let p2: [&str; 1] = [item_id.as_str()];
                            assert(path_view(p2@) =~= seq![item_id@]);
                            match on_use.get_string(&p2) {
                                Some(t) => Some(t.clone()),
                                None => None,
                            }
                        },
                        None => None,
                    }
                };
                match found {
                    Some(t) => self.execute_trigger(t.as_str()),
                    None => None,
                }
            },
            _ => None,
        }
    }
}

/// The path of a field of a hotspot, as string slices.
fn hotspot_field<'a>(scene: &'a str, name: &'a str, field: &'a str) -> (p: [&'a str; 4])
    ensures
        path_view(p@) == hotspot_path(scene@, name@, field@),
{
    let p: [&str; 4] = [scene, "hotspots", name, field];
    assert(path_view(p@) =~= hotspot_path(scene@, name@, field@));
    p
}

impl EngineController {
    /// Whether the hotspot `name` of the current scene is shown.
    fn is_hotspot_visible(&self, name: &str) -> (b: bool)
        ensures
            b == hotspot_visible(self.game_state(), self.scenes(), self.scene(), name@),
    {
        let p = hotspot_field(self.current_scene.as_str(), name, "visible_if");
        match self.scenes_gss.get_string(&p) {
            Some(cond) => self.evaluate_condition(cond.as_str()),
            None => true,
        }
    }

    /// The snapshot of the hotspot `name` of the current scene.
    fn build_hotspot(&self, name: &str) -> (h: HotspotView)
        ensures
            h@ == hotspot_of(self.scenes(), self.scene(), name@),
    {
        let scene = self.current_scene.as_str();
        let left = length_field(&self.scenes_gss, &hotspot_field(scene, name, "left"));
        let top = length_field(&self.scenes_gss, &hotspot_field(scene, name, "top"));
        let width = length_field(&self.scenes_gss, &hotspot_field(scene, name, "width"));
        let height = length_field(&self.scenes_gss, &hotspot_field(scene, name, "height"));
        let cursor = get_string_field(
            &self.scenes_gss,
            &hotspot_field(scene, name, "cursor"),
            "pointer",
        );
        let tooltip = get_string_field(
            &self.scenes_gss,
            &hotspot_field(scene, name, "tooltip"),
            name,
        );
        HotspotView {
            id: name.to_owned(),
            bounds: HotspotBounds { left, top, width, height },
            hover_cursor: CursorType::from_str(cursor.as_str()),
            tooltip,
        }
    }

    /// Query GSS to output a snapshot of the current scene: its background
    /// (default `data/assets/fallback_bg.png`), its visible hotspots in
    /// document order, the dialogue on screen and the collected items.
    pub fn current_view(&self) -> (v: SceneView)
        ensures
            v.scene_id@ == self.scene(),
            v.background_texture@ == string_or(
                get_spec(self.scenes(), seq![self.scene(), "background"@]),
                "data/assets/fallback_bg.png"@,
            ),
            hotspots_view(v.hotspots@) == scene_hotspots(
                self.game_state(),
                self.scenes(),
                self.scene(),
            ),
            dialogue_view(v.dialogue) == self.dialogue(),
            items_view(v.inventory@) == self.game_state().items().map_values(
                |id: Seq<char>| item_of(id),
            ),
            forall|a: int, b: int|
                0 <= a < b < v.hotspots@.len() ==> #[trigger] v.hotspots@[a].id@
                    != #[trigger] v.hotspots@[b].id@,
    {
        let scene = self.current_scene.as_str();
        let bp: [&str; 2] = [scene, "background"];
        assert(path_view(bp@) =~= seq![self.scene(), "background"@]);
        let background_texture = get_string_field(
            &self.scenes_gss,
            &bp,
            "data/assets/fallback_bg.png",
        );
        let mut hotspots: Vec<HotspotView> = Vec::new();
        let hp: [&str; 2] = [scene, "hotspots"];
        assert(path_view(hp@) =~= seq![self.scene(), "hotspots"@]);
        match self.scenes_gss.get_object(&hp) {
            Some(o) => {
                let names = o.get_fields();
                let ghost keys = keys_of(o@);
                assert forall|a: int, b: int| 0 <= a < b < keys.len() implies #[trigger] keys[a]
                    != #[trigger] keys[b] by {
                    assert(names@[a]@ == keys[a]);
                    assert(names@[b]@ == keys[b]);
                }
                let mut i: usize = 0;
                while i < names.len()
                    invariant
                        i <= names@.len(),
                        names@.len() == keys.len(),
                        forall|j: int| 0 <= j < keys.len() ==> #[trigger] names@[j]@ == keys[j],
                        forall|a: int, b: int|
                            0 <= a < b < keys.len() ==> #[trigger] keys[a] != #[trigger] keys[b],
                        hotspots_view(hotspots@) == visible_hotspots(
                            self.game_state(),
                            self.scenes(),
                            self.scene(),
                            keys.take(i as int),
                        ),
                        forall|a: int|
                            0 <= a < hotspots@.len() ==> exists|k: int|
                                0 <= k < i && #[trigger] hotspots@[a].id@ == keys[k],
                        forall|a: int, b: int|
                            0 <= a < b < hotspots@.len() ==> #[trigger] hotspots@[a].id@
                                != #[trigger] hotspots@[b].id@,
                    decreases names.len() - i,
                {
                    let name = names[i].as_str();
                    let ghost before = hotspots@;
                    if self.is_hotspot_visible(name) {
                        let h = self.build_hotspot(name);
                        assert(h.id@ == keys[i as int]);
                        hotspots.push(h);
                        proof {
                            assert forall|a: int| 0 <= a < hotspots@.len() implies exists|k: int|
                                0 <= k < i + 1 && #[trigger] hotspots@[a].id@ == keys[k] by {
                                if a < before.len() {
                                    assert(hotspots@[a] == before[a]);
                                    let k = choose|k: int| 0 <= k < i && before[a].id@ == keys[k];
                                    assert(hotspots@[a].id@ == keys[k]);
                                } else {
                                    assert(hotspots@[a].id@ == keys[i as int]);
                                }
                            }
                            assert forall|a: int, b: int|
                                0 <= a < b < hotspots@.len() implies #[trigger] hotspots@[a].id@
                                != #[trigger] hotspots@[b].id@ by {
                                assert(hotspots@[a] == before[a]);
                                if b < before.len() {
                                    assert(hotspots@[b] == before[b]);
                                } else {
                                    let k = choose|k: int| 0 <= k < i && before[a].id@ == keys[k];
                                    assert(keys[k] != keys[i as int]);
                                }
                            }
                        }
                        assert(hotspots_view(hotspots@) =~= hotspots_view(before).push(
                            hotspot_of(self.scenes(), self.scene(), keys[i as int]),
                        ));
                    }
                    assert(keys.take(i + 1).drop_last() =~= keys.take(i as int));
                    i += 1;
                }
                assert(keys.take(names@.len() as int) =~= keys);
            },
            None => {},
        }
        let dialogue = match &self.active_dialogue {
            Some(d) => Some(d.copy()),
            None => None,
        };
        let ids = self.state.item_ids();
        let inventory = inventory_views(ids);
        proof {
            assert(ids@.map_values(|s: String| item_of(s@)) =~= self.game_state().items().map_values(
                |id: Seq<char>| item_of(id),
            ));
        }
        SceneView {
            scene_id: self.current_scene.clone(),
            background_texture,
            hotspots,
            dialogue,
            inventory,
        }
    }
}

} // verus!
