//! How elements are placed: the stack direction and the alignments a style
//! sheet gives an element. The arithmetic on sizes is left to the renderer.

use vstd::prelude::*;
use crate::gss::lookup::{get_spec, path_view};
use crate::gss::model::{Object, ValueModel};
use crate::text::str_eq;

verus! {

/// The direction a stack lays out its children in.
#[derive(Debug, Clone, Copy, PartialEq, Eq, Structural)]
pub enum Direction {
    Vertical,
    Horizontal,
}

/// Where an element lies against its horizontal anchor.
#[derive(Debug, Clone, Copy, PartialEq, Eq, Structural)]
pub enum HAlign {
    /// The anchor is the element's left edge.
    Left,
    /// The anchor is the element's middle.
    Center,
    /// The anchor is the element's right edge.
    Right,
}

/// Where an element lies against its vertical anchor.
#[derive(Debug, Clone, Copy, PartialEq, Eq, Structural)]
pub enum VAlign {
    /// The anchor is the element's top edge.
    Top,
    /// The anchor is the element's middle.
    Middle,
    /// The anchor is the element's bottom edge.
    Bottom,
}

/// The string at `path`, if the value there is one.
pub open spec fn string_at(style: crate::gss::model::ObjectModel, path: Seq<Seq<char>>) -> Option<
    Seq<char>,
> {
    match get_spec(style, path) {
        Some(ValueModel::Str(s)) => Some(s),
        _ => None,
    }
}

/// The direction that a `direction` string gives: `horizontal`, or vertical
/// for anything else and when absent.
pub open spec fn direction_for(s: Option<Seq<char>>) -> Direction {
    match s {
        Some(d) => if d == "horizontal"@ {
            Direction::Horizontal
        } else {
            Direction::Vertical
        },
        None => Direction::Vertical,
    }
}

/// The alignment that an `align` string gives: `center`, `right`, or left
/// for anything else and when absent.
pub open spec fn halign_for(s: Option<Seq<char>>) -> HAlign {
    match s {
        Some(a) => if a == "center"@ {
            HAlign::Center
        } else if a == "right"@ {
            HAlign::Right
        } else {
            HAlign::Left
        },
        None => HAlign::Left,
    }
}

/// The alignment that a `valign` string gives: `middle` or `center`,
/// `bottom`, or top for anything else and when absent.
pub open spec fn valign_for(s: Option<Seq<char>>) -> VAlign {
    match s {
        Some(a) => if a == "middle"@ || a == "center"@ {
            VAlign::Middle
        } else if a == "bottom"@ {
            VAlign::Bottom
        } else {
            VAlign::Top
        },
        None => VAlign::Top,
    }
}

/// The alignment that a `valign` string gives to a placed element: `top`,
/// `bottom`, or middle for any other string; top when absent.
pub open spec fn placed_valign_for(s: Option<Seq<char>>) -> VAlign {
    match s {
        Some(a) => if a == "top"@ {
            VAlign::Top
        } else if a == "bottom"@ {
            VAlign::Bottom
        } else {
            VAlign::Middle
        },
        None => VAlign::Top,
    }
}

fn string_field<'a>(style: &'a Object, name: &str, field: &str) -> (r: Option<&'a String>)
    ensures
        match string_at(style@, seq![name@, field@]) {
            Some(s) => r matches Some(x) && x@ == s,
            None => r is None,
        },
{
    let path: [&str; 2] = [name, field];
    assert(path_view(path@) =~= seq![name@, field@]);
    style.get_string(&path)
}

/// The direction of the stack `name`.
pub fn stack_direction(style: &Object, name: &str) -> (d: Direction)
    ensures
        d == direction_for(string_at(style@, seq![name@, "direction"@])),
{
    match string_field(style, name, "direction") {
        Some(d) => if str_eq(d.as_str(), "horizontal") {
            Direction::Horizontal
        } else {
            Direction::Vertical
        },
        None => Direction::Vertical,
    }
}

/// The horizontal alignment of the element `name`.
pub fn horizontal_align(style: &Object, name: &str) -> (a: HAlign)
    ensures
        a == halign_for(string_at(style@, seq![name@, "align"@])),
{
    match string_field(style, name, "align") {
        Some(a) => if str_eq(a.as_str(), "center") {
            HAlign::Center
        } else if str_eq(a.as_str(), "right") {
            HAlign::Right
        } else {
            HAlign::Left
        },
        None => HAlign::Left,
    }
}

/// The vertical alignment of the element `name` in a stack or at its anchor.
pub fn vertical_align(style: &Object, name: &str) -> (a: VAlign)
    ensures
        a == valign_for(string_at(style@, seq![name@, "valign"@])),
{
    match string_field(style, name, "valign") {
        Some(a) => if str_eq(a.as_str(), "middle") || str_eq(a.as_str(), "center") {
            VAlign::Middle
        } else if str_eq(a.as_str(), "bottom") {
            VAlign::Bottom
        } else {
            VAlign::Top
        },
        None => VAlign::Top,
    }
}

/// The vertical alignment of an element placed with `place_element`.
pub fn placed_vertical_align(style: &Object, name: &str) -> (a: VAlign)
    ensures
        a == placed_valign_for(string_at(style@, seq![name@, "valign"@])),
{
    match string_field(style, name, "valign") {
        Some(a) => if str_eq(a.as_str(), "top") {
            VAlign::Top
        } else if str_eq(a.as_str(), "bottom") {
            VAlign::Bottom
        } else {
            VAlign::Middle
        },
        None => VAlign::Top,
    }
}

} // verus!
