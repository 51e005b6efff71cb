//! Colors: the raylib palette, packed `0xRRGGBBAA` values, and colors read
//! from style sheets.

use vstd::prelude::*;
use crate::gss::lookup::{get_spec, path_view};
use crate::gss::model::{Object, ValueModel};
use crate::text::{
    ascii_lowercase, chars_of, eq_ignore_ascii_case, is_ascii, eq_ignore_ascii_case_str, lowercase, range_is, to_lowercase,
    trim, trim_bounds,
};

verus! {

/// An RGBA color, one byte per channel.
#[derive(Debug, Clone, Copy, PartialEq, Eq, Structural)]
pub struct Color {
    pub r: u8,
    pub g: u8,
    pub b: u8,
    pub a: u8,
}

/// Light gray: `200, 200, 200, 255`.
pub const LIGHTGRAY: u32 = 0xC8C8C8FF;

/// Gray: `130, 130, 130, 255`.
pub const GRAY: u32 = 0x828282FF;

/// Dark gray: `80, 80, 80, 255`.
pub const DARKGRAY: u32 = 0x505050FF;

/// Yellow: `253, 249, 0, 255`.
pub const YELLOW: u32 = 0xFDF900FF;

/// Gold: `255, 203, 0, 255`.
pub const GOLD: u32 = 0xFFCB00FF;

/// Orange: `255, 161, 0, 255`.
pub const ORANGE: u32 = 0xFFA100FF;

/// Pink: `255, 109, 194, 255`.
pub const PINK: u32 = 0xFF6DC2FF;

/// Red: `230, 41, 55, 255`.
pub const RED: u32 = 0xE62937FF;

/// Maroon: `190, 33, 55, 255`.
pub const MAROON: u32 = 0xBE2137FF;

/// Green: `0, 228, 48, 255`.
pub const GREEN: u32 = 0x00E430FF;

/// Lime: `0, 158, 47, 255`.
pub const LIME: u32 = 0x009E2FFF;

/// Dark green: `0, 117, 44, 255`.
pub const DARKGREEN: u32 = 0x00752CFF;

/// Sky blue: `102, 191, 255, 255`.
pub const SKYBLUE: u32 = 0x66BFFFFF;

/// Blue: `0, 121, 241, 255`.
pub const BLUE: u32 = 0x0079F1FF;

/// Dark blue: `0, 82, 172, 255`.
pub const DARKBLUE: u32 = 0x0052ACFF;

/// Purple: `200, 122, 255, 255`.
pub const PURPLE: u32 = 0xC87AFFFF;

/// Violet: `135, 60, 190, 255`.
pub const VIOLET: u32 = 0x873CBEFF;

/// Dark purple: `112, 31, 126, 255`.
pub const DARKPURPLE: u32 = 0x701F7EFF;

/// Beige: `211, 176, 131, 255`.
pub const BEIGE: u32 = 0xD3B083FF;

/// Brown: `127, 106, 79, 255`.
pub const BROWN: u32 = 0x7F6A4FFF;

/// Dark brown: `76, 63, 47, 255`.
pub const DARKBROWN: u32 = 0x4C3F2FFF;

/// White: `255, 255, 255, 255`.
pub const WHITE: u32 = 0xFFFFFFFF;

/// Black: `0, 0, 0, 255`.
pub const BLACK: u32 = 0x000000FF;

/// Blank (transparent): `0, 0, 0, 0`.
pub const BLANK: u32 = 0x00000000;

/// Magenta: `255, 0, 255, 255`.
pub const MAGENTA: u32 = 0xFF00FFFF;

/// The color packed in `hex` as `0xRRGGBBAA`.
pub open spec fn color_of_hex(hex: u32) -> Color {
    Color {
        r: (hex >> 24u32) as u8,
        g: ((hex >> 16u32) & 0xffu32) as u8,
        b: ((hex >> 8u32) & 0xffu32) as u8,
        a: (hex & 0xffu32) as u8,
    }
}

/// Get a Color from a packed `0xRRGGBBAA` value.
pub fn get_color(hex: u32) -> (c: Color)
    ensures
        c == color_of_hex(hex),
{
    Color {
        r: (hex >> 24u32) as u8,
        g: ((hex >> 16u32) & 0xffu32) as u8,
        b: ((hex >> 8u32) & 0xffu32) as u8,
        a: (hex & 0xffu32) as u8,
    }
}

/// The palette entry of a normalized color name (aliases such as `grey` and
/// `darkgreen` included); unknown names are blank.
pub open spec fn palette_hex(name: Seq<char>) -> u32 {
    if name == "light gray"@ || name == "lightgray"@ {
        LIGHTGRAY
    } else if name == "gray"@ || name == "grey"@ {
        GRAY
    } else if name == "dark gray"@ || name == "darkgray"@ || name == "dark grey"@ || name == "darkgrey"@ {
        DARKGRAY
    } else if name == "yellow"@ {
        YELLOW
    } else if name == "gold"@ {
        GOLD
    } else if name == "orange"@ {
        ORANGE
    } else if name == "pink"@ {
        PINK
    } else if name == "red"@ {
        RED
    } else if name == "maroon"@ {
        MAROON
    } else if name == "green"@ {
        GREEN
    } else if name == "lime"@ {
        LIME
    } else if name == "dark green"@ || name == "darkgreen"@ {
        DARKGREEN
    } else if name == "sky blue"@ || name == "skyblue"@ {
        SKYBLUE
    } else if name == "blue"@ {
        BLUE
    } else if name == "dark blue"@ || name == "darkblue"@ {
        DARKBLUE
    } else if name == "purple"@ {
        PURPLE
    } else if name == "violet"@ {
        VIOLET
    } else if name == "dark purple"@ || name == "darkpurple"@ {
        DARKPURPLE
    } else if name == "beige"@ {
        BEIGE
    } else if name == "brown"@ {
        BROWN
    } else if name == "dark brown"@ || name == "darkbrown"@ {
        DARKBROWN
    } else if name == "white"@ {
        WHITE
    } else if name == "black"@ {
        BLACK
    } else if name == "magenta"@ {
        MAGENTA
    } else if name == "blank"@ || name == "transparent"@ {
        BLANK
    } else {
        BLANK
    }
}

/// The palette entry of a color name written exactly (`light gray`, `sky
/// blue`, ...); other names have none.
pub open spec fn exact_palette(name: Seq<char>) -> Option<u32> {
    if name == "light gray"@ {
        Some(LIGHTGRAY)
    } else if name == "gray"@ {
        Some(GRAY)
    } else if name == "dark gray"@ {
        Some(DARKGRAY)
    } else if name == "yellow"@ {
        Some(YELLOW)
    } else if name == "gold"@ {
        Some(GOLD)
    } else if name == "orange"@ {
        Some(ORANGE)
    } else if name == "pink"@ {
        Some(PINK)
    } else if name == "red"@ {
        Some(RED)
    } else if name == "maroon"@ {
        Some(MAROON)
    } else if name == "green"@ {
        Some(GREEN)
    } else if name == "lime"@ {
        Some(LIME)
    } else if name == "dark green"@ {
        Some(DARKGREEN)
    } else if name == "sky blue"@ {
        Some(SKYBLUE)
    } else if name == "blue"@ {
        Some(BLUE)
    } else if name == "dark blue"@ {
        Some(DARKBLUE)
    } else if name == "purple"@ {
        Some(PURPLE)
    } else if name == "violet"@ {
        Some(VIOLET)
    } else if name == "dark purple"@ {
        Some(DARKPURPLE)
    } else if name == "beige"@ {
        Some(BEIGE)
    } else if name == "brown"@ {
        Some(BROWN)
    } else if name == "dark brown"@ {
        Some(DARKBROWN)
    } else if name == "white"@ {
        Some(WHITE)
    } else if name == "black"@ {
        Some(BLACK)
    } else if name == "magenta"@ {
        Some(MAGENTA)
    } else {
        None
    }
}

/// `s` with every `_` and `-` replaced by a space.
pub open spec fn spaced(s: Seq<char>) -> Seq<char> {
    s.map_values(|c: char| if c == '_' || c == '-' { ' ' } else { c })
}

/// A color name written in ASCII as `map_color` compares it: ASCII letters
/// lowercased, `_` and `-` read as spaces, and trimmed.
pub open spec fn ascii_color_key(s: Seq<char>) -> Seq<char> {
    trim(spaced(ascii_lowercase(s)))
}

/// A color name as `map_color` compares it: lowercased, with `_` and `-`
/// read as spaces, and trimmed.
pub open spec fn color_key(s: Seq<char>) -> Seq<char> {
    trim(spaced(lowercase(s)))
}

fn palette_lookup(v: &Vec<char>, lo: usize, hi: usize) -> (h: u32)
    requires
        lo <= hi <= v.len(),
    ensures
        h == palette_hex(v@.subrange(lo as int, hi as int)),
{
    if range_is(v, lo, hi, "light gray") || range_is(v, lo, hi, "lightgray") {
        LIGHTGRAY
    } else if range_is(v, lo, hi, "gray") || range_is(v, lo, hi, "grey") {
        GRAY
    } else if range_is(v, lo, hi, "dark gray") || range_is(v, lo, hi, "darkgray") || range_is(v, lo, hi, "dark grey") || range_is(v, lo, hi, "darkgrey") {
        DARKGRAY
    } else if range_is(v, lo, hi, "yellow") {
        YELLOW
    } else if range_is(v, lo, hi, "gold") {
        GOLD
    } else if range_is(v, lo, hi, "orange") {
        ORANGE
    } else if range_is(v, lo, hi, "pink") {
        PINK
    } else if range_is(v, lo, hi, "red") {
        RED
    } else if range_is(v, lo, hi, "maroon") {
        MAROON
    } else if range_is(v, lo, hi, "green") {
        GREEN
    } else if range_is(v, lo, hi, "lime") {
        LIME
    } else if range_is(v, lo, hi, "dark green") || range_is(v, lo, hi, "darkgreen") {
        DARKGREEN
    } else if range_is(v, lo, hi, "sky blue") || range_is(v, lo, hi, "skyblue") {
        SKYBLUE
    } else if range_is(v, lo, hi, "blue") {
        BLUE
    } else if range_is(v, lo, hi, "dark blue") || range_is(v, lo, hi, "darkblue") {
        DARKBLUE
    } else if range_is(v, lo, hi, "purple") {
        PURPLE
    } else if range_is(v, lo, hi, "violet") {
        VIOLET
    } else if range_is(v, lo, hi, "dark purple") || range_is(v, lo, hi, "darkpurple") {
        DARKPURPLE
    } else if range_is(v, lo, hi, "beige") {
        BEIGE
    } else if range_is(v, lo, hi, "brown") {
        BROWN
    } else if range_is(v, lo, hi, "dark brown") || range_is(v, lo, hi, "darkbrown") {
        DARKBROWN
    } else if range_is(v, lo, hi, "white") {
        WHITE
    } else if range_is(v, lo, hi, "black") {
        BLACK
    } else if range_is(v, lo, hi, "magenta") {
        MAGENTA
    } else if range_is(v, lo, hi, "blank") || range_is(v, lo, hi, "transparent") {
        BLANK
    } else {
        BLANK
    }
}

/// The palette entry of `v`, compared exactly.
pub fn exact_palette_lookup(v: &Vec<char>) -> (h: Option<u32>)
    ensures
        h == exact_palette(v@),
{
    let lo: usize = 0;
    let hi: usize = v.len();
    assert(v@.subrange(0, v@.len() as int) =~= v@);
    if range_is(v, lo, hi, "light gray") {
        Some(LIGHTGRAY)
    } else if range_is(v, lo, hi, "gray") {
        Some(GRAY)
    } else if range_is(v, lo, hi, "dark gray") {
        Some(DARKGRAY)
    } else if range_is(v, lo, hi, "yellow") {
        Some(YELLOW)
    } else if range_is(v, lo, hi, "gold") {
        Some(GOLD)
    } else if range_is(v, lo, hi, "orange") {
        Some(ORANGE)
    } else if range_is(v, lo, hi, "pink") {
        Some(PINK)
    } else if range_is(v, lo, hi, "red") {
        Some(RED)
    } else if range_is(v, lo, hi, "maroon") {
        Some(MAROON)
    } else if range_is(v, lo, hi, "green") {
        Some(GREEN)
    } else if range_is(v, lo, hi, "lime") {
        Some(LIME)
    } else if range_is(v, lo, hi, "dark green") {
        Some(DARKGREEN)
    } else if range_is(v, lo, hi, "sky blue") {
        Some(SKYBLUE)
    } else if range_is(v, lo, hi, "blue") {
        Some(BLUE)
    } else if range_is(v, lo, hi, "dark blue") {
        Some(DARKBLUE)
    } else if range_is(v, lo, hi, "purple") {
        Some(PURPLE)
    } else if range_is(v, lo, hi, "violet") {
        Some(VIOLET)
    } else if range_is(v, lo, hi, "dark purple") {
        Some(DARKPURPLE)
    } else if range_is(v, lo, hi, "beige") {
        Some(BEIGE)
    } else if range_is(v, lo, hi, "brown") {
        Some(BROWN)
    } else if range_is(v, lo, hi, "dark brown") {
        Some(DARKBROWN)
    } else if range_is(v, lo, hi, "white") {
        Some(WHITE)
    } else if range_is(v, lo, hi, "black") {
        Some(BLACK)
    } else if range_is(v, lo, hi, "magenta") {
        Some(MAGENTA)
    } else {
        None
    }
}

/// Maps a lowercased color name to a palette color: `_` and `-` are read as
/// spaces and surrounding whitespace is ignored; unknown names give blank.
pub fn map_lowercase_color(lower: &str) -> (c: Color)
    ensures
        c == color_of_hex(palette_hex(trim(spaced(lower@)))),
{
    let raw = chars_of(lower);
    let mut v: Vec<char> = Vec::new();
    let mut i: usize = 0;
    while i < raw.len()
        invariant
            i <= raw@.len(),
            v@ == spaced(raw@.take(i as int)),
        decreases raw.len() - i,
    {
        let c = raw[i];
        v.push(
            if c == '_' || c == '-' {
                ' '
            } else {
                c
            },
        );
        assert(raw@.take(i + 1) =~= raw@.take(i as int).push(c));
        assert(v@ =~= spaced(raw@.take(i + 1)));
        i += 1;
    }
    assert(raw@.take(raw@.len() as int) =~= raw@);
    let (lo, hi) = trim_bounds(&v, 0, v.len());
    assert(v@.subrange(0, v@.len() as int) =~= v@);
    get_color(palette_lookup(&v, lo, hi))
}

/// Maps a color name to a palette color: case, `_` and `-` (read as spaces)
/// and surrounding whitespace are ignored; unknown names give blank.
pub fn map_color(string: &str) -> (c: Color)
    ensures
        c == color_of_hex(palette_hex(color_key(string@))),
        is_ascii(string@) ==> c == color_of_hex(palette_hex(ascii_color_key(string@))),
{
    let lower = to_lowercase(string);
    map_lowercase_color(lower.as_str())
}

/// The color a style value gives: a color name that maps to a palette color
/// (blank only when the name is `blank`, in any case), or a packed integer;
/// otherwise `default`.
pub open spec fn style_color(found: Option<ValueModel>, default: Color) -> Color {
    match found {
        Some(ValueModel::Str(s)) => {
            let mapped = color_of_hex(palette_hex(color_key(s)));
            if mapped != color_of_hex(BLANK) || eq_ignore_ascii_case(s, "blank"@) {
                mapped
            } else {
                default
            }
        },
        Some(ValueModel::Int(hex)) => color_of_hex(hex),
        _ => default,
    }
}

/// Retrieves a color property at the given path: a color name (such as
/// `"red"` or `"dark green"`) or a packed `0xRRGGBBAA` integer; `default`
/// when neither is there.
pub fn get_color_field(obj: &Object, path: &[&str], default: Color) -> (c: Color)
    ensures
        c == style_color(get_spec(obj@, path_view(path@)), default),
{
    match obj.get_string(path) {
        Some(string) => {
            let mapped = map_color(string.as_str());
            if mapped != get_color(BLANK) || eq_ignore_ascii_case_str(string.as_str(), "blank") {
                mapped
            } else {
                default
            }
        },
        None => match obj.get_u32(path) {
            Some(hex) => get_color(hex),
            None => default,
        },
    }
}

} // verus!
