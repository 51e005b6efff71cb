use mux::engine::{
    parse_action, parse_trigger, Action, CursorType, DialogueView, EngineController, EngineEvent,
    Trigger,
};
use mux::fields::Length;
use mux::gss::model::Real;
use mux::gss::parser::parse_str;
use mux::state::GameState;
use mux::view::{item_display_name, item_view, HotspotBounds, HotspotView};
use mux::engine::ItemView;

fn scenes() -> mux::gss::model::Object {
    parse_str(
        r#"
        hallway = {
            background = "data/assets/hallway_bg.png",
            hotspots = {
                door_to_kitchen = {
                    left = 21%,
                    top = 25%,
                    width = 120.0,
                    height = 240.0,
                    cursor = "exit_left",
                    tooltip = "Kitchen Door",
                    on_click = "action:change_scene kitchen",
                },
                brass_key = {
                    left = 40%, top = 70%, width = 60, height = 40,
                    cursor = " GRAB ",
                    visible_if = "!flags.has_brass_key",
                    on_click = "action:pick_up_item brass_key",
                },
                drawer = {
                    left = 300, top = 200,
                    on_click = "script:interact_drawer",
                    on_use = {
                        brass_key = "action:set_flag drawer_open true",
                    },
                },
            },
        },
        kitchen = {
            hotspots = {
                exit = { on_click = "  action:change_scene hallway  " },
            },
        },
        "#,
    )
    .unwrap()
}

#[test]
fn test_condition_evaluation() {
    let gss = parse_str("").unwrap();
    let mut controller = EngineController::new(gss, "scene_1".to_string());

    controller.state_mut().set_flag("has_item".to_string(), true);
    controller.state_mut().set_flag("unlocked".to_string(), false);
    controller.state_mut().add_item("brass_key".to_string());

    assert!(controller.evaluate_condition("flags.has_item"));
    assert!(!controller.evaluate_condition("flags.unlocked"));
    assert!(!controller.evaluate_condition("!flags.has_item"));
    assert!(controller.evaluate_condition("!flags.unlocked"));

    assert!(controller.evaluate_condition("inventory.brass_key"));
    assert!(!controller.evaluate_condition("inventory.wooden_key"));
}

#[test]
fn test_execute_actions() {
    let gss = parse_str("").unwrap();
    let mut controller = EngineController::new(gss, "scene_1".to_string());

    controller.execute_action("pick_up_item shiny_gem");
    assert!(controller.state().has_item("shiny_gem"));
    assert_eq!(controller.state().flag("has_shiny_gem"), Some(true));

    controller.execute_action("set_flag door_open true");
    assert_eq!(controller.state().flag("door_open"), Some(true));

    controller.execute_action("change_scene scene_2");
    assert_eq!(controller.current_scene_id(), "scene_2");

    controller.execute_action("show_dialogue Hero 'Welcome home!'");
    assert_eq!(
        controller.active_dialogue(),
        Some(&DialogueView {
            speaker: "Hero".to_string(),
            text: "Welcome home!".to_string(),
            options: Vec::new(),
        })
    );
}

#[test]
fn conditions_edge_cases() {
    let mut controller = EngineController::new(parse_str("").unwrap(), "s".to_string());
    controller.state_mut().set_flag("lamp".to_string(), true);
    assert!(controller.evaluate_condition(""));
    assert!(controller.evaluate_condition("   "));
    assert!(controller.evaluate_condition("lamp"));
    assert!(controller.evaluate_condition("  flags.lamp  "));
    assert!(!controller.evaluate_condition("!lamp"));
    assert!(!controller.evaluate_condition("missing"));
    assert!(controller.evaluate_condition("!missing"));
    // The text after `!` is not trimmed again.
    assert!(controller.evaluate_condition("! lamp"));
}

#[test]
fn negation_flips_every_condition() {
    let mut controller = EngineController::new(parse_str("").unwrap(), "s".to_string());
    controller.state_mut().set_flag("a".to_string(), true);
    controller.state_mut().add_item("key".to_string());
    for c in ["a", "flags.a", "b", "inventory.key", "inventory.box"] {
        let negated = format!("!{}", c);
        assert_eq!(controller.evaluate_condition(&negated), !controller.evaluate_condition(c));
    }
}

#[test]
fn actions_are_read_from_text() {
    assert_eq!(parse_action("  change_scene   kitchen "), Action::ChangeScene("kitchen".to_string()));
    assert_eq!(parse_action("change_scene"), Action::Ignored);
    assert_eq!(parse_action("pick_up_item "), Action::Ignored);
    assert_eq!(parse_action("set_flag door"), Action::Ignored);
    assert_eq!(parse_action("set_flag door yes"), Action::SetFlag("door".to_string(), false));
    assert_eq!(
        parse_action("show_dialogue Bob \"Hi there\""),
        Action::ShowDialogue("Bob".to_string(), "Hi there".to_string())
    );
    assert_eq!(parse_action("clear_dialogue"), Action::ClearDialogue);
    assert_eq!(parse_action("dance wildly"), Action::Unknown("dance".to_string()));
}

#[test]
fn triggers_are_read_from_text() {
    assert_eq!(parse_trigger(" action:clear_dialogue "), Trigger::Action("clear_dialogue".to_string()));
    assert_eq!(parse_trigger("script:interact_drawer"), Trigger::Script("interact_drawer".to_string()));
    assert_eq!(parse_trigger("nothing"), Trigger::Ignored);
}

#[test]
fn unknown_action_changes_nothing() {
    let mut controller = EngineController::new(parse_str("").unwrap(), "s".to_string());
    controller.execute_action("dance");
    assert_eq!(controller.current_scene_id(), "s");
    assert!(controller.state().item_ids().is_empty());
    assert_eq!(controller.active_dialogue(), None);
}

#[test]
fn clear_dialogue_and_skip() {
    let mut controller = EngineController::new(parse_str("").unwrap(), "s".to_string());
    controller.execute_action("show_dialogue A 'x'");
    assert!(controller.active_dialogue().is_some());
    controller.execute_action("clear_dialogue");
    assert!(controller.active_dialogue().is_none());
    controller.execute_action("show_dialogue A 'x'");
    assert_eq!(controller.process_event(EngineEvent::SkipDialogue), None);
    assert!(controller.active_dialogue().is_none());
}

#[test]
fn picking_up_twice_lists_item_once() {
    let mut controller = EngineController::new(parse_str("").unwrap(), "s".to_string());
    controller.execute_action("pick_up_item coin");
    controller.execute_action("pick_up_item gem");
    controller.execute_action("pick_up_item coin");
    assert_eq!(controller.state().item_ids(), &vec!["coin".to_string(), "gem".to_string()]);
}

#[test]
fn current_view_lists_visible_hotspots() {
    let controller = EngineController::new(scenes(), "hallway".to_string());
    let view = controller.current_view();
    assert_eq!(view.scene_id, "hallway");
    assert_eq!(view.background_texture, "data/assets/hallway_bg.png");
    assert_eq!(view.dialogue, None);
    assert!(view.inventory.is_empty());
    assert_eq!(view.hotspots.len(), 3);
    assert_eq!(
        view.hotspots[0],
        HotspotView {
            id: "door_to_kitchen".to_string(),
            bounds: HotspotBounds {
                left: Length::Relative(Real::Percent(21)),
                top: Length::Relative(Real::Percent(25)),
                width: Length::Relative(Real::Literal("120.0".to_string())),
                height: Length::Relative(Real::Literal("240.0".to_string())),
            },
            hover_cursor: CursorType::ExitLeft,
            tooltip: "Kitchen Door".to_string(),
        }
    );
    assert_eq!(view.hotspots[1].id, "brass_key");
    assert_eq!(view.hotspots[1].hover_cursor, CursorType::Grab);
    assert_eq!(view.hotspots[1].tooltip, "brass_key");
    assert_eq!(view.hotspots[1].bounds.width, Length::Absolute(60));
    assert_eq!(view.hotspots[2].hover_cursor, CursorType::Pointer);
    assert_eq!(view.hotspots[2].bounds.width, Length::Unset);
    assert_eq!(view.hotspots[2].bounds.left, Length::Absolute(300));
    for a in 0..view.hotspots.len() {
        for b in a + 1..view.hotspots.len() {
            assert_ne!(view.hotspots[a].id, view.hotspots[b].id);
        }
    }
}

#[test]
fn picking_up_the_key_hides_its_hotspot() {
    let mut controller = EngineController::new(scenes(), "hallway".to_string());
    let r = controller.process_event(EngineEvent::ClickHotspot { hotspot_id: "brass_key".to_string() });
    assert_eq!(r, None);
    assert!(controller.evaluate_condition("inventory.brass_key"));
    assert!(controller.evaluate_condition("flags.has_brass_key"));
    let view = controller.current_view();
    let ids: Vec<&str> = view.hotspots.iter().map(|h| h.id.as_str()).collect();
    assert_eq!(ids, vec!["door_to_kitchen", "drawer"]);
    assert_eq!(
        view.inventory,
        vec![ItemView {
            id: "brass_key".to_string(),
            name: "Brass key".to_string(),
            icon_texture: "data/assets/items/brass_key.png".to_string(),
        }]
    );
}

#[test]
fn clicking_a_door_changes_scene() {
    let mut controller = EngineController::new(scenes(), "hallway".to_string());
    controller.process_event(EngineEvent::ClickHotspot { hotspot_id: "door_to_kitchen".to_string() });
    assert_eq!(controller.current_scene_id(), "kitchen");
    let view = controller.current_view();
    assert_eq!(view.background_texture, "data/assets/fallback_bg.png");
    assert_eq!(view.hotspots.len(), 1);
    controller.process_event(EngineEvent::ClickHotspot { hotspot_id: "exit".to_string() });
    assert_eq!(controller.current_scene_id(), "hallway");
}

#[test]
fn script_triggers_are_handed_back() {
    let mut controller = EngineController::new(scenes(), "hallway".to_string());
    let r = controller.process_event(EngineEvent::ClickHotspot { hotspot_id: "drawer".to_string() });
    assert_eq!(r, Some("interact_drawer".to_string()));
    let next = mux::demo::script_hook(controller.state_mut(), "interact_drawer").unwrap();
    assert_eq!(controller.execute_trigger(&next), None);
    assert_eq!(controller.active_dialogue().unwrap().speaker, "Drawer");
    assert_eq!(
        controller.active_dialogue().unwrap().text,
        "The drawer is locked tightly. It seems to require a key."
    );
}

#[test]
fn using_an_item_runs_its_trigger() {
    let mut controller = EngineController::new(scenes(), "hallway".to_string());
    let r = controller.process_event(EngineEvent::UseItem {
        item_id: "brass_key".to_string(),
        target_hotspot_id: "drawer".to_string(),
    });
    assert_eq!(r, None);
    assert_eq!(controller.state().flag("drawer_open"), Some(true));
    let before = controller.state().item_ids().clone();
    controller.process_event(EngineEvent::UseItem {
        item_id: "feather".to_string(),
        target_hotspot_id: "drawer".to_string(),
    });
    assert_eq!(controller.state().item_ids().clone(), before);
}

#[test]
fn other_events_change_nothing() {
    let mut controller = EngineController::new(scenes(), "hallway".to_string());
    assert_eq!(controller.process_event(EngineEvent::ClickUiButton { button_id: "x".to_string() }), None);
    assert_eq!(controller.process_event(EngineEvent::SelectDialogOption { option_index: 2 }), None);
    assert_eq!(controller.process_event(EngineEvent::ClickHotspot { hotspot_id: "nowhere".to_string() }), None);
    assert_eq!(controller.current_scene_id(), "hallway");
    assert!(controller.state().item_ids().is_empty());
}

#[test]
fn item_names_and_icons() {
    assert_eq!(item_display_name("brass_key"), "Brass key");
    assert_eq!(item_display_name("old_rusty_nail"), "Old rusty nail");
    assert_eq!(item_display_name(""), "");
    assert_eq!(item_display_name("élan"), "élan");
    assert_eq!(item_view("gem").icon_texture, "data/assets/items/gem.png");
}

#[test]
fn cursor_names() {
    assert_eq!(CursorType::from_str("walk"), CursorType::Walk);
    assert_eq!(CursorType::from_str("  LOOK "), CursorType::Look);
    assert_eq!(CursorType::from_str("Take"), CursorType::Grab);
    assert_eq!(CursorType::from_str("speak"), CursorType::Talk);
    assert_eq!(CursorType::from_str("EXIT_RIGHT"), CursorType::ExitRight);
    assert_eq!(CursorType::from_str("exit_left"), CursorType::ExitLeft);
    assert_eq!(CursorType::from_str("exit-left"), CursorType::Pointer);
    assert_eq!(CursorType::from_str(""), CursorType::Pointer);
}

#[test]
fn game_state_variables() {
    let mut s = GameState::new();
    assert_eq!(s.variable("hp"), None);
    s.set_variable("hp".to_string(), 10);
    s.set_variable("hp".to_string(), -3);
    assert_eq!(s.variable("hp"), Some(-3));
    assert_eq!(s.flag("hp"), None);
    let d = GameState::default();
    assert!(d.item_ids().is_empty());
}
