use mux::clock::format_time;
use mux::demo::{init_state, script_hook, AppState};
use mux::engine::{CursorType, EngineEvent};
use mux::gss::parser::parse_str;
use mux::hud::{action_prefix, header_text, input_event, scene_background, scene_header, scene_title, tooltip_text};
use mux::layout::{
    horizontal_align, placed_vertical_align, stack_direction, vertical_align, Direction, HAlign,
    VAlign,
};
use mux::runner::{plan_frame, style_after_load, AppConfig, DEFAULT_FPS};
use mux::state::GameState;

#[test]
fn clock_text() {
    assert_eq!(format_time(0), "00:00:00");
    assert_eq!(format_time(3661), "01:01:01");
    assert_eq!(format_time(86399), "23:59:59");
    assert_eq!(format_time(86400 + 59), "00:00:59");
    assert_eq!(format_time(u64::MAX), "07:00:15");
}

#[test]
fn drawer_script() {
    let mut state = GameState::new();
    assert_eq!(
        script_hook(&mut state, "interact_drawer"),
        Some("action:show_dialogue Drawer 'The drawer is locked tightly. It seems to require a key.'".to_string())
    );
    state.set_flag("has_brass_key".to_string(), true);
    assert_eq!(
        script_hook(&mut state, "interact_drawer"),
        Some("action:show_dialogue Drawer 'You unlocked the drawer using the brass key!\nInside you found a shiny gemstone! You Win!'".to_string())
    );
    assert_eq!(script_hook(&mut state, "other"), None);
    assert_eq!(init_state(), AppState);
}

#[test]
fn tooltips() {
    assert_eq!(action_prefix(CursorType::Walk), "Go to");
    assert_eq!(tooltip_text(CursorType::Look, "Painting"), "Look at Painting");
    assert_eq!(tooltip_text(CursorType::Grab, "key"), "Take key");
    assert_eq!(tooltip_text(CursorType::Talk, "Bob"), "Talk to Bob");
    assert_eq!(tooltip_text(CursorType::ExitRight, "Kitchen"), "Go to Kitchen");
    assert_eq!(tooltip_text(CursorType::Pointer, "it"), "Interact with it");
}

#[test]
fn headers() {
    assert_eq!(scene_header("hallway"), "Scene: HALLWAY");
    assert_eq!(scene_title("scene_hallway"), "Scene: HALLWAY");
    assert_eq!(scene_title("scene_scene_x"), "Scene: X");
    assert_eq!(scene_title("kitchen"), "Scene: KITCHEN");
    assert_eq!(scene_background("scene_hallway"), 0x28201CFF);
    assert_eq!(scene_background("scene_kitchen"), 0x1C2830FF);
    assert_eq!(scene_background("attic"), 0x181818FF);
}

#[test]
fn frame_input() {
    assert_eq!(input_event(true, true, false, Some("door")), Some(EngineEvent::SkipDialogue));
    assert_eq!(input_event(true, false, true, None), Some(EngineEvent::SkipDialogue));
    assert_eq!(input_event(true, false, false, Some("door")), None);
    assert_eq!(
        input_event(false, true, false, Some("door")),
        Some(EngineEvent::ClickHotspot { hotspot_id: "door".to_string() })
    );
    assert_eq!(input_event(false, false, true, Some("door")), None);
    assert_eq!(input_event(false, true, false, None), None);
}

#[test]
fn layout_reads() {
    let style = parse_str(
        r#"
        row = { direction = "horizontal" },
        col = { direction = "diagonal" },
        a = { align = "center", valign = "bottom" },
        b = { align = "right", valign = "center" },
        c = { align = "middle", valign = "top" },
        d = { valign = "sideways" },
        "#,
    )
    .unwrap();
    assert_eq!(stack_direction(&style, "row"), Direction::Horizontal);
    assert_eq!(stack_direction(&style, "col"), Direction::Vertical);
    assert_eq!(stack_direction(&style, "none"), Direction::Vertical);
    assert_eq!(horizontal_align(&style, "a"), HAlign::Center);
    assert_eq!(horizontal_align(&style, "b"), HAlign::Right);
    assert_eq!(horizontal_align(&style, "c"), HAlign::Left);
    assert_eq!(vertical_align(&style, "a"), VAlign::Bottom);
    assert_eq!(vertical_align(&style, "b"), VAlign::Middle);
    assert_eq!(vertical_align(&style, "c"), VAlign::Top);
    assert_eq!(vertical_align(&style, "d"), VAlign::Top);
    assert_eq!(placed_vertical_align(&style, "d"), VAlign::Middle);
    assert_eq!(placed_vertical_align(&style, "c"), VAlign::Top);
    assert_eq!(placed_vertical_align(&style, "none"), VAlign::Top);
}

#[test]
fn app_settings() {
    let c = AppConfig::init(800, 600, "Game".to_string());
    assert_eq!((c.virtual_width, c.virtual_height), (800, 600));
    assert_eq!(c.fps, DEFAULT_FPS);
    assert!(!c.responsive && !c.audio_device && c.style_file.is_none());
    let c = c
        .set_responsive(true)
        .set_virtual_resolution(320, 200)
        .set_audio_device()
        .set_style_file("data/test.gss")
        .set_fps(30);
    assert!(c.responsive && c.audio_device);
    assert_eq!((c.width, c.height, c.virtual_width, c.virtual_height), (800, 600, 320, 200));
    assert_eq!(c.style_file, Some("data/test.gss".to_string()));
    assert_eq!(c.fps, 30);
    assert_eq!(c.title, "Game");
}

#[test]
fn frame_plans() {
    let p = plan_frame(true, 800, 600, 1024, 768, false, false);
    assert_eq!(p.resize, Some((1024, 768)));
    let again = plan_frame(true, 1024, 768, 1024, 768, false, false);
    assert_eq!(again.resize, None);
    assert_eq!(plan_frame(true, 800, 600, 0, -5, false, false).resize, Some((1, 1)));
    assert_eq!(plan_frame(false, 800, 600, 1024, 768, true, false).resize, None);
    let p = plan_frame(false, 800, 600, 800, 600, true, true);
    assert!(p.reload);
    assert!(plan_frame(false, 800, 600, 800, 600, true, false).reload);
    assert!(plan_frame(false, 800, 600, 800, 600, false, true).reload);
    assert!(!plan_frame(false, 800, 600, 800, 600, false, false).reload);
}

#[test]
fn style_fallback() {
    let old = parse_str("a = 1").unwrap();
    let new = parse_str("a = 2").unwrap();
    let s = style_after_load(Some(Ok(new)), old);
    assert_eq!(s.get_u32(&["a"]), Some(2));
    let s2 = style_after_load(Some(Err("no such file".to_string())), s);
    assert_eq!(s2.get_u32(&["a"]), Some(2));
    let s3 = style_after_load(None, s2);
    assert_eq!(s3.get_u32(&["a"]), Some(2));
}

#[test]
fn headers_put_the_title_after_the_label() {
    assert_eq!(header_text("HALLWAY"), "Scene: HALLWAY");
    assert_eq!(header_text(""), "Scene: ");
    assert_eq!(header_text("kitchen"), "Scene: kitchen");
}

#[test]
fn cursor_names_settle_after_one_normalisation() {
    assert_eq!(CursorType::from_str("  Exit_Left "), CursorType::ExitLeft);
    assert_eq!(CursorType::from_str("TAKE"), CursorType::Grab);
    assert_eq!(CursorType::from_str("Speak"), CursorType::Talk);
    for name in ["  Exit_Left ", "TAKE", "Speak", " Walk", "nothing"] {
        let normal = name.trim().to_lowercase();
        assert_eq!(CursorType::from_str(name), CursorType::from_str(&normal));
    }
}

#[test]
fn clocks_read_back_as_seconds_of_the_day() {
    for secs in [0u64, 59, 3599, 3600, 45296, 86399, 86400, 90061, 1_000_000, u64::MAX] {
        let t = format_time(secs);
        let b = t.as_bytes();
        assert_eq!(b.len(), 8);
        assert_eq!((b[2], b[5]), (b':', b':'));
        let field = |i: usize| ((b[i] - b'0') as u64) * 10 + (b[i + 1] - b'0') as u64;
        assert!(field(0) < 24 && field(3) < 60 && field(6) < 60);
        assert_eq!(3600 * field(0) + 60 * field(3) + field(6), secs % 86400);
    }
}
