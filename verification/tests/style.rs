use mux::color::{get_color, map_color, map_lowercase_color, Color, BLANK, BLUE, DARKGRAY, GOLD, GRAY, LIGHTGRAY, RED, WHITE};
use mux::fields::{get_bool_field, get_string_field, length_field, Length};
use mux::gss::model::{Object, Real};
use mux::gss::parser::parse_str;
use mux::ui;

fn real_value(r: &Real) -> f32 {
    match r {
        Real::Literal(s) => s.parse::<f32>().unwrap(),
        Real::Percent(n) => *n as f32 / 100.0,
        Real::LiteralPercent(s) => s.parse::<f32>().unwrap() / 100.0,
    }
}

// The float reading of a length, as the renderer does it.
fn f32_field(style: &Object, path: &[&str], default: f32) -> f32 {
    match length_field(style, path) {
        Length::Relative(r) => real_value(&r),
        Length::Absolute(n) => n as f32,
        Length::Unset => default,
    }
}

fn relative_field(style: &Object, path: &[&str], scale: f32, default: f32) -> f32 {
    match length_field(style, path) {
        Length::Relative(r) => real_value(&r) * scale,
        Length::Absolute(n) => n as f32,
        Length::Unset => default,
    }
}

#[test]
fn test_style_get_color_field() {
    let style = parse_str(
        r#"
        btn_red = {
            color = "red",
        },
        btn_hex = {
            color = 0xFF00FFFF,
        },
        btn_missing = {},
        "#,
    )
    .unwrap();

    let white = get_color(WHITE);
    assert_eq!(ui::get_color_field(&style, &["btn_red", "color"], white), get_color(RED));
    assert_eq!(
        ui::get_color_field(&style, &["btn_hex", "color"], white),
        get_color(0xFF00FFFF)
    );
    assert_eq!(ui::get_color_field(&style, &["btn_missing", "color"], white), white);
}

#[test]
fn test_style_get_bool_field() {
    let style = parse_str(
        r#"
        widget = {
            visible = true,
        },
        "#,
    )
    .unwrap();

    assert!(ui::get_bool_field(&style, "widget", "visible", false));
    assert!(!ui::get_bool_field(&style, "widget", "missing", false));
    assert!(ui::get_bool_field(&style, "widget", "missing", true));
}

#[test]
fn test_style_get_f32_field() {
    let style = parse_str(
        r#"
        widget = {
            size_float = 24.5,
            size_int = 100,
        },
        "#,
    )
    .unwrap();

    assert_eq!(f32_field(&style, &["widget", "size_float"], 0.0), 24.5);
    assert_eq!(f32_field(&style, &["widget", "size_int"], 0.0), 100.0);
    assert_eq!(f32_field(&style, &["widget", "missing"], 5.0), 5.0);
}

#[test]
fn test_style_get_relative_field() {
    let style = parse_str(
        r#"
        widget = {
            pct = 0.5,
            pixels = 120,
        },
        "#,
    )
    .unwrap();

    assert_eq!(relative_field(&style, &["widget", "pct"], 800.0, 0.0), 400.0);
    assert_eq!(relative_field(&style, &["widget", "pixels"], 800.0, 0.0), 120.0);
    assert_eq!(relative_field(&style, &["widget", "missing"], 800.0, 10.0), 10.0);
}

#[test]
fn test_gss_helpers() {
    let style = parse_str(
        r#"
        base_col = "gold",
        btn = {
            color = base_col,
            hex_color = 0xFF00FFFF,
            scale = 50%,
            pixel_offset = 150,
            width = 300.5,
            count = 4,
            active = true,
            title = "Fireball",
        },
        "#,
    )
    .unwrap();

    assert_eq!(
        mux::color::get_color_field(&style, &["btn", "color"], get_color(WHITE)),
        get_color(GOLD)
    );
    assert_eq!(
        mux::color::get_color_field(&style, &["btn", "hex_color"], get_color(WHITE)),
        get_color(0xFF00FFFF)
    );
    assert_eq!(
        mux::color::get_color_field(&style, &["btn", "missing"], get_color(RED)),
        get_color(RED)
    );

    assert!(get_bool_field(&style, "btn", "active", false));
    assert!(!get_bool_field(&style, "btn", "missing", false));

    assert_eq!(f32_field(&style, &["btn", "width"], 0.0), 300.5);
    assert_eq!(f32_field(&style, &["btn", "count"], 0.0), 4.0);

    assert_eq!(relative_field(&style, &["btn", "scale"], 800.0, 0.0), 400.0);
    assert_eq!(relative_field(&style, &["btn", "pixel_offset"], 800.0, 0.0), 150.0);

    assert_eq!(get_string_field(&style, &["btn", "title"], "Default"), "Fireball");
    assert_eq!(get_string_field(&style, &["btn", "nothing"], "Default"), "Default");
    assert_eq!(length_field(&style, &["btn", "count"]), Length::Absolute(4));
}

#[test]
fn get_color_unpacks_channels() {
    assert_eq!(get_color(0x11223344), Color { r: 0x11, g: 0x22, b: 0x33, a: 0x44 });
    assert_eq!(get_color(GOLD), Color { r: 255, g: 203, b: 0, a: 255 });
    assert_eq!(get_color(BLANK), Color { r: 0, g: 0, b: 0, a: 0 });
}

#[test]
fn map_color_normalizes_names() {
    assert_eq!(map_color("Light_Gray"), get_color(LIGHTGRAY));
    assert_eq!(map_color("  dark-grey "), get_color(DARKGRAY));
    assert_eq!(map_color("GREY"), get_color(GRAY));
    assert_eq!(map_color("skyblue"), get_color(mux::color::SKYBLUE));
    assert_eq!(map_color("Blue"), get_color(BLUE));
    assert_eq!(map_color("transparent"), get_color(BLANK));
    assert_eq!(map_color("chartreuse"), get_color(BLANK));
}

#[test]
fn style_color_falls_back_on_unknown_names() {
    let style = parse_str(
        r#"
        a = { c = "Blank" },
        b = { c = "not a color" },
        d = { c = "Dark_Green" },
        e = { c = true },
        "#,
    )
    .unwrap();
    let red = get_color(RED);
    assert_eq!(mux::color::get_color_field(&style, &["a", "c"], red), get_color(BLANK));
    assert_eq!(mux::color::get_color_field(&style, &["b", "c"], red), red);
    assert_eq!(
        mux::color::get_color_field(&style, &["d", "c"], red),
        get_color(mux::color::DARKGREEN)
    );
    assert_eq!(mux::color::get_color_field(&style, &["e", "c"], red), red);
}

#[test]
fn ui_colors_match_names_exactly() {
    let style = parse_str(
        r#"a = { c = "dark green" }, b = { c = "Red" }, d = { c = "grey" }, e = { c = "chartreuse" }"#,
    )
    .unwrap();
    let white = get_color(WHITE);
    assert_eq!(ui::get_color_field(&style, &["a", "c"], white), get_color(mux::color::DARKGREEN));
    assert_eq!(ui::get_color_field(&style, &["b", "c"], white), white);
    assert_eq!(ui::get_color_field(&style, &["d", "c"], white), white);
    assert_eq!(ui::get_color_field(&style, &["e", "c"], white), white);
}

#[test]
fn lowercased_color_names_map_to_the_palette() {
    assert_eq!(map_lowercase_color("dark_gray"), get_color(DARKGRAY));
    assert_eq!(map_lowercase_color("  sky-blue "), map_color("Sky Blue"));
    assert_eq!(map_lowercase_color("grey"), get_color(GRAY));
    assert_eq!(map_lowercase_color("Red"), get_color(BLANK));
    assert_eq!(map_lowercase_color("nothing"), get_color(BLANK));
}

#[test]
fn color_names_settle_after_one_normalisation() {
    assert_eq!(map_color("Dark_Green"), get_color(mux::color::DARKGREEN));
    assert_eq!(map_color(" SKY-BLUE "), get_color(mux::color::SKYBLUE));
    assert_eq!(map_color("grey"), get_color(GRAY));
    assert_eq!(map_color("darkgrey"), get_color(DARKGRAY));
    assert_eq!(map_color("chartreuse"), get_color(BLANK));
    for name in ["Dark_Green", " SKY-BLUE ", "Light-Gray", "chartreuse"] {
        let normal = name.to_lowercase().replace(['_', '-'], " ");
        assert_eq!(map_color(name), map_color(normal.trim()));
    }
}
