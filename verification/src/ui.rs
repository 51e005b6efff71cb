//! Style reads for UI elements, where color names are matched exactly.

use vstd::prelude::*;
use crate::color::{Color, color_of_hex, exact_palette, exact_palette_lookup, get_color};
use crate::gss::lookup::{get_spec, path_view};
use crate::gss::model::{Object, ValueModel};
use crate::text::chars_of;

pub use crate::fields::get_bool_field;

verus! {

/// The color a UI style value gives: a color name written exactly as in the
/// palette, or a packed `0xRRGGBBAA` integer; `default` when the value is
/// missing or is a name the palette does not have.
pub open spec fn ui_color(found: Option<ValueModel>, default: Color) -> Color {
    match found {
        Some(ValueModel::Str(s)) => match exact_palette(s) {
            Some(hex) => color_of_hex(hex),
            None => default,
        },
        Some(ValueModel::Int(hex)) => color_of_hex(hex),
        _ => default,
    }
}

/// Retrieves a color property from the stylesheet at the given path: a
/// palette name (such as `red` or `dark green`) or a packed integer; the
/// `default` when the color cannot be found or parsed.
pub fn get_color_field(style: &Object, path: &[&str], default: Color) -> (c: Color)
    ensures
        c == ui_color(get_spec(style@, path_view(path@)), default),
{
    match style.get_string(path) {
        Some(name) => {
            let v = chars_of(name.as_str());
            match exact_palette_lookup(&v) {
                Some(hex) => get_color(hex),
                None => default,
            }
        },
        None => match style.get_u32(path) {
            Some(hex) => get_color(hex),
            None => default,
        },
    }
}

} // verus!
