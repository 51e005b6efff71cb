//! Typed reads of single GSS fields, with a default for what is absent.

use vstd::prelude::*;
use crate::gss::lookup::{get_spec, path_view};
use crate::gss::model::{Object, Real, RealModel, ValueModel};

verus! {

/// A length as a style sheet writes it.
///
/// An integer is a number of pixels; a real (or a percentage) is relative:
/// callers that scale lengths multiply it by the size it is relative to.
#[derive(Debug, PartialEq, Eq)]
pub enum Length {
    /// An integer such as `120`.
    Absolute(u32),
    /// A real such as `0.8` or a percentage such as `80%`.
    Relative(Real),
    /// No integer or real at the path.
    Unset,
}

/// The model of a [`Length`].
pub enum LengthModel {
    Absolute(u32),
    Relative(RealModel),
    Unset,
}

impl Length {
    pub open spec fn view(self) -> LengthModel {
        match self {
            Length::Absolute(n) => LengthModel::Absolute(n),
            Length::Relative(r) => LengthModel::Relative(r.view()),
            Length::Unset => LengthModel::Unset,
        }
    }
}

/// The length that a looked-up value gives.
pub open spec fn length_of(found: Option<ValueModel>) -> LengthModel {
    match found {
        Some(ValueModel::Int(n)) => LengthModel::Absolute(n),
        Some(ValueModel::Real(r)) => LengthModel::Relative(r),
        _ => LengthModel::Unset,
    }
}

/// The string that a looked-up value gives, or `default`.
pub open spec fn string_or(found: Option<ValueModel>, default: Seq<char>) -> Seq<char> {
    match found {
        Some(ValueModel::Str(s)) => s,
        _ => default,
    }
}

/// The boolean that a looked-up value gives, or `default`.
pub open spec fn bool_or(found: Option<ValueModel>, default: bool) -> bool {
    match found {
        Some(ValueModel::Bool(b)) => b,
        _ => default,
    }
}

/// The length at `path`: an integer, a real, or unset.
pub fn length_field(obj: &Object, path: &[&str]) -> (l: Length)
    ensures
        l@ == length_of(get_spec(obj@, path_view(path@))),
{
    match obj.get_u32(path) {
        Some(n) => Length::Absolute(n),
        None => match obj.get_real(path) {
            Some(r) => Length::Relative(r.copy()),
            None => Length::Unset,
        },
    }
}

/// Retrieves a string property at the given path, or `default` when the
/// value there is not a string.
pub fn get_string_field(obj: &Object, path: &[&str], default: &str) -> (s: String)
    ensures
        s@ == string_or(get_spec(obj@, path_view(path@)), default@),
{
    match obj.get_string(path) {
        Some(s) => s.clone(),
        None => default.to_owned(),
    }
}

/// Retrieves the boolean property `field` of the element `name`, or
/// `default` when the value there is not a boolean.
pub fn get_bool_field(obj: &Object, name: &str, field: &str, default: bool) -> (b: bool)
    ensures
        b == bool_or(get_spec(obj@, seq![name@, field@]), default),
{
    let path: [&str; 2] = [name, field];
    assert(path_view(path@) =~= seq![name@, field@]);
    match obj.get_bool(&path) {
        Some(b) => b,
        None => default,
    }
}

} // verus!
