//! The GSS grammar, as functions from token sequences to documents.
//!
//! ```text
//! document := EOF | (field ","?)+ EOF
//! object   := "{"? ( "}" | (field ("," field)* ","?)? "}" )  -- after a "{"
//! field    := IDENT "=" value
//! value    := NUMBER "%"? | REAL "%"? | "true" | "false" | STRING
//!           | "{" object | IDENT ("." names)? | "." IDENT names
//! names    := (IDENT ("." IDENT)* "."?)?
//! ```
//! A repetition stops at the first item that does not parse, where that
//! attempt stopped: the tokens it read stay read (a trailing `,` before `}` is
//! therefore accepted). Keys must be distinct in an object.
//!
//! Each parse yields its result and the position after it, or its error and
//! the position where it stopped.

use vstd::prelude::*;
use crate::gss::model::{ExprModel, ObjectModel, RealModel, ValueModel, DEFAULT_MAX_DEPTH};
use crate::gss::token::{TokKind, unescaped};
use crate::number::{IntError, int_error, parse_u32_radix};

verus! {

/// What a parse expected where it failed.
#[derive(Debug, Clone, Copy, PartialEq, Eq, Structural)]
pub enum Expected {
    Identifier,
    Assign,
    CloseCurly,
    Eof,
}

/// The model of a parse error.
pub enum ParseErrorModel {
    /// A token of another kind (named by `found`, the lexer's name for the
    /// kind) stood where `expected` was needed.
    Expected { expected: Expected, found: Seq<char> },
    /// An integer literal that is not a `u32`, and why.
    InvalidNumber { text: Seq<char>, reason: IntError },
    /// A token that cannot begin a value: its kind, the lexer's name for the
    /// kind, and its text.
    UnexpectedToken { kind: TokKind, name: Seq<char>, text: Seq<char> },
    /// A key written twice in one object.
    Redefinition { key: Seq<char> },
}

/// A sequence of tokens, as kinds, texts and kind names.
pub type Toks = Seq<(TokKind, Seq<char>, Seq<char>)>;

/// The kind of the token at `i`; past the end, the end-of-file token.
pub open spec fn kind_at(toks: Toks, i: int) -> TokKind {
    if 0 <= i < toks.len() {
        toks[i].0
    } else {
        TokKind::Eof
    }
}

/// The text of the token at `i`; past the end, empty.
pub open spec fn text_at(toks: Toks, i: int) -> Seq<char> {
    if 0 <= i < toks.len() {
        toks[i].1
    } else {
        Seq::empty()
    }
}

/// The lexer's name for the kind of the token at `i`; past the end, `EOF`.
pub open spec fn name_at(toks: Toks, i: int) -> Seq<char> {
    if 0 <= i < toks.len() {
        toks[i].2
    } else {
        "EOF"@
    }
}

/// Names separated by dots from `q` on: each `"." IDENT` adds a name; a
/// `"."` not followed by a name ends the list and is read. The result is the
/// names and the position after them.
pub open spec fn dotted_names(toks: Toks, q: int) -> (Seq<Seq<char>>, int)
    decreases toks.len() - q,
{
    if 0 <= q && kind_at(toks, q) == TokKind::Dot {
        if kind_at(toks, q + 1) == TokKind::Ident {
            let rest = dotted_names(toks, q + 2);
            (seq![text_at(toks, q + 1)] + rest.0, rest.1)
        } else {
            (Seq::empty(), q + 1)
        }
    } else {
        (Seq::empty(), q)
    }
}

/// Names separated by dots, possibly none, from `p` on.
pub open spec fn name_list(toks: Toks, p: int) -> (Seq<Seq<char>>, int) {
    if kind_at(toks, p) == TokKind::Ident {
        let rest = dotted_names(toks, p + 1);
        (seq![text_at(toks, p)] + rest.0, rest.1)
    } else {
        (Seq::empty(), p)
    }
}

/// Whether the key at `j` occurs before `j`.
pub open spec fn occurs_before(keys: Seq<Seq<char>>, j: int) -> bool {
    exists|k: int| 0 <= k < j && #[trigger] keys[k] == keys[j]
}

/// The index of the first key, from `j` on, that occurs before its index.
pub open spec fn first_repeat_from(keys: Seq<Seq<char>>, j: int) -> Option<int>
    decreases keys.len() - j,
{
    if j < 0 || j >= keys.len() {
        None
    } else if occurs_before(keys, j) {
        Some(j)
    } else {
        first_repeat_from(keys, j + 1)
    }
}

/// The index of the first key that occurs earlier in `keys`.
pub open spec fn first_repeat(keys: Seq<Seq<char>>) -> Option<int> {
    first_repeat_from(keys, 0)
}

/// An object with the parsed fields, or the error for the first key written
/// twice.
pub open spec fn build_object(fields: Seq<(Seq<char>, ValueModel)>) -> Result<
    ObjectModel,
    ParseErrorModel,
> {
    let keys = fields.map_values(|f: (Seq<char>, ValueModel)| f.0);
    match first_repeat(keys) {
        Some(j) => Err(ParseErrorModel::Redefinition { key: keys[j] }),
        None => Ok(ObjectModel { fields, max_depth: DEFAULT_MAX_DEPTH as nat }),
    }
}

/// The outcome of a parse: the result and the position after it, or the
/// error and the position where the parse stopped.
pub type Step<T> = Result<(T, int), (ParseErrorModel, int)>;

/// A value starting at `i`. Its first token is always read.
pub open spec fn parse_value(toks: Toks, i: int) -> Step<ValueModel>
    decreases toks.len() - i, 1int,
{
    let k = kind_at(toks, i);
    let t = text_at(toks, i);
    let j = i + 1;
    if i < 0 {
        Err((ParseErrorModel::UnexpectedToken { kind: k, name: name_at(toks, i), text: t }, j))
    } else {
        match k {
            TokKind::Number(radix) => match (if 2 <= radix <= 36 {
                parse_u32_radix(t, radix as nat)
            } else {
                None
            }) {
                None => Err(
                    (
                        ParseErrorModel::InvalidNumber {
                            text: t,
                            reason: if 2 <= radix <= 36 {
                                int_error(t, radix as nat)
                            } else {
                                IntError::InvalidDigit
                            },
                        },
                        j,
                    ),
                ),
                Some(x) => if kind_at(toks, j) == TokKind::Percent {
                    Ok((ValueModel::Real(RealModel::Percent(x)), j + 1))
                } else {
                    Ok((ValueModel::Int(x), j))
                },
            },
            TokKind::Real => if kind_at(toks, j) == TokKind::Percent {
                Ok((ValueModel::Real(RealModel::LiteralPercent(t)), j + 1))
            } else {
                Ok((ValueModel::Real(RealModel::Literal(t)), j))
            },
            TokKind::Ident => if t == "true"@ {
                Ok((ValueModel::Bool(true), j))
            } else if t == "false"@ {
                Ok((ValueModel::Bool(false), j))
            } else if kind_at(toks, j) == TokKind::Dot {
                let names = name_list(toks, j + 1);
                Ok((ValueModel::Ref(ExprModel::Access(seq![t] + names.0)), names.1))
            } else {
                Ok((ValueModel::Ref(ExprModel::Symbol(t)), j))
            },
            TokKind::Str => Ok((ValueModel::Str(unescaped(t)), j)),
            TokKind::OpenCurly => match parse_object(toks, j) {
                Ok((o, p)) => Ok((ValueModel::Obj(o), p)),
                Err(e) => Err(e),
            },
            TokKind::Dot => if kind_at(toks, j) == TokKind::Ident {
                let names = name_list(toks, j + 1);
                Ok(
                    (
                        ValueModel::Ref(ExprModel::RelAccess(seq![text_at(toks, j)] + names.0)),
                        names.1,
                    ),
                )
            } else {
                Err((ParseErrorModel::UnexpectedToken { kind: k, name: name_at(toks, i), text: t }, j))
            },
            _ => Err((ParseErrorModel::UnexpectedToken { kind: k, name: name_at(toks, i), text: t }, j)),
        }
    }
}

/// A field `IDENT "=" value` starting at `p`.
pub open spec fn parse_field(toks: Toks, p: int) -> Step<(Seq<char>, ValueModel)>
    decreases toks.len() - p, 2int,
{
    if kind_at(toks, p) != TokKind::Ident {
        Err(
            (
                ParseErrorModel::Expected { expected: Expected::Identifier, found: name_at(toks, p) },
                p,
            ),
        )
    } else if kind_at(toks, p + 1) != TokKind::Assign {
        Err(
            (
                ParseErrorModel::Expected { expected: Expected::Assign, found: name_at(toks, p + 1) },
                p + 1,
            ),
        )
    } else {
        match parse_value(toks, p + 2) {
            Ok((v, q)) => Ok(((text_at(toks, p), v), q)),
            Err(e) => Err(e),
        }
    }
}

/// Further fields `"," field` from `q` on; stops at the first that does not
/// parse, where that attempt stopped. (Every field takes at least three
/// tokens, so the position grows.)
pub open spec fn more_fields(toks: Toks, q: int) -> (Seq<(Seq<char>, ValueModel)>, int)
    decreases toks.len() - q, 3int,
{
    if kind_at(toks, q) != TokKind::Comma || q < 0 {
        (Seq::empty(), q)
    } else {
        match parse_field(toks, q + 1) {
            Ok((f, r)) => if q < r <= toks.len() {
                let rest = more_fields(toks, r);
                (seq![f] + rest.0, rest.1)
            } else {
                (Seq::empty(), q)
            },
            Err((_, r)) => (Seq::empty(), r),
        }
    }
}

/// The fields of an object from `p` on: none when the first does not parse.
pub open spec fn field_list(toks: Toks, p: int) -> (Seq<(Seq<char>, ValueModel)>, int)
    decreases toks.len() - p, 4int,
{
    match parse_field(toks, p) {
        Ok((f, r)) => if p < r <= toks.len() {
            let rest = more_fields(toks, r);
            (seq![f] + rest.0, rest.1)
        } else {
            (Seq::empty(), p)
        },
        Err((_, r)) => (Seq::empty(), r),
    }
}

/// An object at `i` (its `{` may have been read already), and the position
/// after its `}`.
pub open spec fn parse_object(toks: Toks, i: int) -> Step<ObjectModel>
    decreases toks.len() - i, 6int,
{
    let j = if kind_at(toks, i) == TokKind::OpenCurly {
        i + 1
    } else {
        i
    };
    if kind_at(toks, j) == TokKind::CloseCurly {
        Ok((ObjectModel { fields: Seq::empty(), max_depth: DEFAULT_MAX_DEPTH as nat }, j + 1))
    } else {
        let fl = field_list(toks, j);
        if kind_at(toks, fl.1) != TokKind::CloseCurly {
            Err(
                (
                    ParseErrorModel::Expected {
                        expected: Expected::CloseCurly,
                        found: name_at(toks, fl.1),
                    },
                    fl.1,
                ),
            )
        } else {
            match build_object(fl.0) {
                Ok(o) => Ok((o, fl.1 + 1)),
                Err(e) => Err((e, fl.1 + 1)),
            }
        }
    }
}

/// A top-level field: a field and an optional comma.
pub open spec fn parse_entry(toks: Toks, p: int) -> Step<(Seq<char>, ValueModel)> {
    match parse_field(toks, p) {
        Ok((f, q)) => if kind_at(toks, q) == TokKind::Comma {
            Ok((f, q + 1))
        } else {
            Ok((f, q))
        },
        Err(e) => Err(e),
    }
}

/// Further top-level fields from `q` on; stops at the first that does not
/// parse, where that attempt stopped.
pub open spec fn more_entries(toks: Toks, q: int) -> (Seq<(Seq<char>, ValueModel)>, int)
    decreases toks.len() - q,
{
    if q < 0 {
        (Seq::empty(), q)
    } else {
        match parse_entry(toks, q) {
            Ok((f, r)) => if q < r <= toks.len() {
                let rest = more_entries(toks, r);
                (seq![f] + rest.0, rest.1)
            } else {
                (Seq::empty(), q)
            },
            Err((_, r)) => (Seq::empty(), r),
        }
    }
}

/// What parsing a whole GSS document yields; an error comes with the
/// position where the parse stopped.
pub open spec fn parse_document_at(toks: Toks) -> Result<ObjectModel, (ParseErrorModel, int)> {
    if kind_at(toks, 0) == TokKind::Eof {
        Ok(ObjectModel { fields: Seq::empty(), max_depth: DEFAULT_MAX_DEPTH as nat })
    } else {
        match parse_entry(toks, 0) {
            Err(e) => Err(e),
            Ok((f, r)) => {
                let rest = if 0 < r <= toks.len() {
                    more_entries(toks, r)
                } else {
                    (Seq::empty(), r)
                };
                if kind_at(toks, rest.1) != TokKind::Eof {
                    Err(
                        (
                            ParseErrorModel::Expected {
                                expected: Expected::Eof,
                                found: name_at(toks, rest.1),
                            },
                            rest.1,
                        ),
                    )
                } else {
                    match build_object(seq![f] + rest.0) {
                        Ok(o) => Ok(o),
                        Err(e) => Err((e, rest.1 + 1)),
                    }
                }
            },
        }
    }
}

/// What parsing a whole GSS document yields.
pub open spec fn parse_document(toks: Toks) -> Result<ObjectModel, ParseErrorModel> {
    match parse_document_at(toks) {
        Ok(o) => Ok(o),
        Err((e, _)) => Err(e),
    }
}

} // verus!
