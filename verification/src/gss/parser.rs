//! The GSS parser: tokens to documents, following `grammar`.

use vstd::prelude::*;
use vstd::string::StringExecFns;
use crate::gss::grammar::{
    Expected, ParseErrorModel, Step, build_object, dotted_names, field_list, first_repeat,
    first_repeat_from, kind_at, more_entries, name_at, more_fields, name_list, occurs_before, parse_document,
    parse_document_at,
    parse_entry, parse_field, parse_object, parse_value, text_at,
};
use crate::gss::laws::lemma_no_repeat_distinct;
use crate::gss::model::{
    DEFAULT_MAX_DEPTH, Expr, Object, Real, Value, ValueModel, fields_model, lemma_fields_model,
    names_of,
};
use crate::gss::token::{
    TokKind, Token, classified, classify, lex_source, lexable, lexed, place_at, tokens_view, unescape,
};
use crate::number::{IntError, parse_u32};
use crate::text::{chars_of, escape_default, push_escaped, str_eq};

verus! {

/// Why a GSS source was rejected.
#[derive(Debug, PartialEq, Eq)]
pub enum ParseError {
    /// A token of another kind (named by `found`, the lexer's name for the
    /// kind) stood where `expected` was needed.
    Expected { expected: Expected, found: String },
    /// An integer literal that is not a `u32`, and why.
    InvalidNumber { text: String, reason: IntError },
    /// A token that cannot begin a value: its kind, the lexer's name for the
    /// kind, and its text.
    UnexpectedToken { kind: TokKind, name: String, text: String },
    /// A key written twice in one object.
    Redefinition { key: String },
}

impl ParseError {
    pub open spec fn view(self) -> ParseErrorModel {
        match self {
            ParseError::Expected { expected, found } => ParseErrorModel::Expected {
                expected,
                found: found@,
            },
            ParseError::InvalidNumber { text, reason } => ParseErrorModel::InvalidNumber {
                text: text@,
                reason,
            },
            ParseError::UnexpectedToken { kind, name, text } => ParseErrorModel::UnexpectedToken {
                kind,
                name: name@,
                text: text@,
            },
            ParseError::Redefinition { key } => ParseErrorModel::Redefinition { key: key@ },
        }
    }
}

/// How an error message names what was expected.
pub open spec fn expected_text(e: Expected) -> Seq<char> {
    match e {
        Expected::Identifier => "identifier"@,
        Expected::Assign => "="@,
        Expected::CloseCurly => "}"@,
        Expected::Eof => "EOF"@,
    }
}

/// How std describes an integer that does not parse.
pub open spec fn int_error_text(e: IntError) -> Seq<char> {
    match e {
        IntError::Empty => "cannot parse integer from empty string"@,
        IntError::InvalidDigit => "invalid digit found in string"@,
        IntError::PosOverflow => "number too large to fit in target type"@,
    }
}

fn int_error_str(e: IntError) -> (s: &'static str)
    ensures
        s@ == int_error_text(e),
{
    match e {
        IntError::Empty => "cannot parse integer from empty string",
        IntError::InvalidDigit => "invalid digit found in string",
        IntError::PosOverflow => "number too large to fit in target type",
    }
}

/// How the lexer's `Token` displays a token, from the lexer's name for its
/// kind and its text: `EOF` for the end; the lexer's error tokens described,
/// with their text escaped as `str::escape_default` does; string and
/// character literals escaped; any other token as its text.
pub open spec fn token_display(name: Seq<char>, text: Seq<char>) -> Seq<char> {
    if name == "EOF"@ {
        "EOF"@
    } else if name == "UnexpectedCharacter"@ {
        "Unexpected Character `"@ + escape_default(text) + "`"@
    } else if name == "InvalidEscapeSequence"@ {
        "Invalid Escape Sequence `"@ + escape_default(text) + "`"@
    } else if name == "UnterminatedStringLiteral"@ {
        "Unterminated String Literal `"@ + escape_default(text) + "`"@
    } else if name == "UnterminatedCharacterLiteral"@ {
        "Unterminated Character Literal `"@ + escape_default(text) + "`"@
    } else if name == "EmptyCharacterLiteral"@ {
        "Empty Character Literal"@
    } else if name == "StringLiteral"@ || name == "CharacterLiteral"@ {
        escape_default(text)
    } else {
        text
    }
}

/// Appends how the lexer's `Token` displays the token named `name` with
/// text `text` (see [`token_display`]).
fn push_token_display(m: &mut String, name: &str, text: &str)
    ensures
        final(m)@ == old(m)@ + token_display(name@, text@),
{
    let ghost start = m@;
    if str_eq(name, "EOF") {
        m.append("EOF");
    } else if str_eq(name, "UnexpectedCharacter") {
        m.append("Unexpected Character `");
        push_escaped(m, text);
        m.append("`");
    } else if str_eq(name, "InvalidEscapeSequence") {
        m.append("Invalid Escape Sequence `");
        push_escaped(m, text);
        m.append("`");
    } else if str_eq(name, "UnterminatedStringLiteral") {
        m.append("Unterminated String Literal `");
        push_escaped(m, text);
        m.append("`");
    } else if str_eq(name, "UnterminatedCharacterLiteral") {
        m.append("Unterminated Character Literal `");
        push_escaped(m, text);
        m.append("`");
    } else if str_eq(name, "EmptyCharacterLiteral") {
        m.append("Empty Character Literal");
    } else if str_eq(name, "StringLiteral") || str_eq(name, "CharacterLiteral") {
        push_escaped(m, text);
    } else {
        m.append(text);
    }
    assert(m@ =~= start + token_display(name@, text@));
}

/// The message of a parse error, such as `Redefinition of key width` or
/// ``Expect = got Number(D)``.
pub open spec fn error_message(e: ParseErrorModel) -> Seq<char> {
    match e {
        ParseErrorModel::Expected { expected, found } => "Expect "@ + expected_text(expected)
            + " got "@ + found,
        ParseErrorModel::InvalidNumber { reason, .. } => int_error_text(reason),
        ParseErrorModel::UnexpectedToken { name, text, .. } => "Unexpect token `"@
            + token_display(name, text) + "`"@,
        ParseErrorModel::Redefinition { key } => "Redefinition of key "@ + key,
    }
}

fn expected_str(e: Expected) -> (s: &'static str)
    ensures
        s@ == expected_text(e),
{
    match e {
        Expected::Identifier => "identifier",
        Expected::Assign => "=",
        Expected::CloseCurly => "}",
        Expected::Eof => "EOF",
    }
}

impl ParseError {
    /// The message that describes this error.
    pub fn message(&self) -> (m: String)
        ensures
            m@ == error_message(self@),
    {
        let mut m = String::new();
        match self {
            ParseError::Expected { expected, found } => {
                m.append("Expect ");
                m.append(expected_str(*expected));
                m.append(" got ");
                m.append(found.as_str());
            },
            ParseError::InvalidNumber { reason, .. } => {
                m.append(int_error_str(*reason));
            },
            ParseError::UnexpectedToken { name, text, .. } => {
                m.append("Unexpect token `");
                push_token_display(&mut m, name.as_str(), text.as_str());
                m.append("`");
            },
            ParseError::Redefinition { key } => {
                m.append("Redefinition of key ");
                m.append(key.as_str());
            },
        }
        m
    }
}

/// A parse outcome read as its model.
pub open spec fn step_view<T, M>(r: Result<(T, usize), (ParseError, usize)>, f: spec_fn(T) -> M) -> Step<M> {
    match r {
        Ok((x, p)) => Ok((f(x), p as int)),
        Err((e, p)) => Err((e@, p as int)),
    }
}

/// The kind of the token at `i`, the end-of-file kind past the end.
fn kind_at_exec(toks: &Vec<Token>, i: usize) -> (k: TokKind)
    ensures
        k == kind_at(tokens_view(toks@), i as int),
        i >= toks@.len() ==> k == TokKind::Eof,
        toks@.len() <= usize::MAX,
{
    if i < toks.len() {
        toks[i].kind
    } else {
        TokKind::Eof
    }
}

/// A copy of the text of the token at `i`, empty past the end.
fn text_at_exec(toks: &Vec<Token>, i: usize) -> (t: String)
    ensures
        t@ == text_at(tokens_view(toks@), i as int),
{
    if i < toks.len() {
        toks[i].text.clone()
    } else {
        String::new()
    }
}

/// The lexer's name for the kind of the token at `i`; `EOF` past the end.
fn name_at_exec(toks: &Vec<Token>, i: usize) -> (t: String)
    ensures
        t@ == name_at(tokens_view(toks@), i as int),
{
    if i < toks.len() {
        toks[i].name.clone()
    } else {
        "EOF".to_owned()
    }
}

proof fn lemma_fields_model_push(v: Seq<(String, Value)>, x: (String, Value))
    ensures
        fields_model(v.push(x)) == fields_model(v).push((x.0@, x.1@)),
{
    lemma_fields_model(v);
    lemma_fields_model(v.push(x));
    assert(fields_model(v.push(x)) =~= fields_model(v).push((x.0@, x.1@)));
}

proof fn lemma_names_push(v: Seq<String>, x: String)
    ensures
        names_of(v.push(x)) == names_of(v).push(x@),
{
    assert(names_of(v.push(x)) =~= names_of(v).push(x@));
}

/// Names after `q`, as `"." IDENT` pairs, appended to `names`.
fn dotted_names_exec(toks: &Vec<Token>, q: usize, names: &mut Vec<String>) -> (r: usize)
    requires
        q <= toks@.len(),
    ensures
        names_of(final(names)@) == names_of(old(names)@) + dotted_names(
            tokens_view(toks@),
            q as int,
        ).0,
        r == dotted_names(tokens_view(toks@), q as int).1,
        q <= r <= toks@.len(),
{
    let ghost tv = tokens_view(toks@);
    let ghost start = names_of(names@);
    let mut p = q;
    loop
        invariant_except_break
            tv == tokens_view(toks@),
            q <= p <= toks@.len(),
            start == names_of(old(names)@),
            dotted_names(tv, q as int) == (
                names_of(names@).skip(start.len() as int) + dotted_names(tv, p as int).0,
                dotted_names(tv, p as int).1,
            ),
            names_of(names@).take(start.len() as int) == start,
            start.len() <= names_of(names@).len(),
        ensures
            q <= p <= toks@.len(),
            names_of(names@) == start + dotted_names(tv, q as int).0,
            p == dotted_names(tv, q as int).1,
        decreases toks.len() - p,
    {
        if p < toks.len() && kind_at_exec(toks, p) == TokKind::Dot {
            if p + 1 < toks.len() && kind_at_exec(toks, p + 1) == TokKind::Ident {
                let ghost before = names@;
                let t = text_at_exec(toks, p + 1);
                names.push(t);
                proof {
                    lemma_names_push(before, t);
                    assert(names_of(names@).skip(start.len() as int) =~= names_of(before).skip(
                        start.len() as int,
                    ).push(t@));
                    assert(names_of(names@).take(start.len() as int) =~= names_of(before).take(
                        start.len() as int,
                    ));
                    assert(dotted_names(tv, p as int).0 =~= seq![t@] + dotted_names(tv, p + 2).0);
                }
                p = p + 2;
            } else {
                proof {
                    assert(kind_at(tv, p + 1) != TokKind::Ident);
                    assert(names_of(names@) =~= start + names_of(names@).skip(start.len() as int));
                }
                p = p + 1;
                break;
            }
        } else {
            proof {
                assert(dotted_names(tv, p as int).0 =~= Seq::<Seq<char>>::empty());
                assert(names_of(names@) =~= start + names_of(names@).skip(start.len() as int));
            }
            break;
        }
    }
    p
}

/// Names separated by dots from `p` on, appended to `names`.
fn name_list_exec(toks: &Vec<Token>, p: usize, names: &mut Vec<String>) -> (r: usize)
    requires
        p <= toks@.len(),
    ensures
        names_of(final(names)@) == names_of(old(names)@) + name_list(tokens_view(toks@), p as int).0,
        r == name_list(tokens_view(toks@), p as int).1,
        p <= r <= toks@.len(),
{
    let ghost tv = tokens_view(toks@);
    if p < toks.len() && kind_at_exec(toks, p) == TokKind::Ident {
        let ghost before = names@;
        let t = text_at_exec(toks, p);
        names.push(t);
        proof {
            lemma_names_push(before, t);
        }
        let r = dotted_names_exec(toks, p + 1, names);
        assert(names_of(names@) =~= names_of(before) + name_list(tv, p as int).0);
        r
    } else {
        assert(names_of(names@) =~= names_of(names@) + Seq::<Seq<char>>::empty());
        p
    }
}

/// Whether the key at `j` occurs before `j`.
fn occurs_before_exec(fields: &Vec<(String, Value)>, j: usize) -> (b: bool)
    requires
        j < fields@.len(),
    ensures
        b == occurs_before(fields@.map_values(|f: (String, Value)| f.0@), j as int),
{
    let ghost keys = fields@.map_values(|f: (String, Value)| f.0@);
    let mut k: usize = 0;
    while k < j
        invariant
            j < fields@.len(),
            keys == fields@.map_values(|f: (String, Value)| f.0@),
            k <= j,
            forall|m: int| 0 <= m < k ==> keys[m] != keys[j as int],
        decreases j - k,
    {
        if fields[k].0 == fields[j].0 {
            assert(keys[k as int] == keys[j as int]);
            return true;
        }
        k += 1;
    }
    false
}

/// The object made of `fields`, or the error for the first repeated key.
fn build_object_exec(fields: Vec<(String, Value)>) -> (r: Result<Object, ParseError>)
    ensures
        match r {
            Ok(o) => build_object(fields_model(fields@)) == Ok::<_, ParseErrorModel>(o@),
            Err(e) => build_object(fields_model(fields@)) == Err::<crate::gss::model::ObjectModel, _>(e@),
        },
{
    let ghost fm = fields_model(fields@);
    let ghost keys = fm.map_values(|f: (Seq<char>, ValueModel)| f.0);
    proof {
        lemma_fields_model(fields@);
        assert(keys =~= fields@.map_values(|f: (String, Value)| f.0@));
    }
    let mut j: usize = 0;
    while j < fields.len()
        invariant
            j <= fields@.len(),
            fm == fields_model(fields@),
            keys == fields@.map_values(|f: (String, Value)| f.0@),
            keys == fm.map_values(|f: (Seq<char>, ValueModel)| f.0),
            first_repeat(keys) == first_repeat_from(keys, j as int),
        decreases fields.len() - j,
    {
        if occurs_before_exec(&fields, j) {
            let key = fields[j].0.clone();
            return Err(ParseError::Redefinition { key });
        }
        j += 1;
    }
    proof {
        lemma_no_repeat_distinct(keys);
    }
    Ok(Object { fields, max_depth: DEFAULT_MAX_DEPTH })
}

/// A value starting at `i`, and the position after it; or the error and the
/// position where the parse stopped.
fn parse_value_exec(toks: &Vec<Token>, i: usize) -> (r: Result<(Value, usize), (ParseError, usize)>)
    requires
        i <= toks@.len() < usize::MAX,
    ensures
        step_view(r, |v: Value| v@) == parse_value(tokens_view(toks@), i as int),
        r matches Ok((_, p)) ==> i < p <= toks@.len(),
        r matches Err((_, q)) ==> i < q <= toks@.len() + 1,
    decreases toks@.len() - i, 1int,
{
    let ghost tv = tokens_view(toks@);
    let k = kind_at_exec(toks, i);
    if i >= toks.len() {
        return Err(
            (
                ParseError::UnexpectedToken {
                    kind: k,
                    name: name_at_exec(toks, i),
                    text: String::new(),
                },
                i + 1,
            ),
        );
    }
    assert(tv[i as int] == toks@[i as int]@);
    let next = kind_at_exec(toks, i + 1);
    match k {
        TokKind::Number(radix) => {
            let digits = chars_of(toks[i].text.as_str());
            let parsed = if 2 <= radix && radix <= 36 {
                parse_u32(&digits, radix)
            } else {
                Err(IntError::InvalidDigit)
            };
            match parsed {
                Err(reason) => Err(
                    (ParseError::InvalidNumber { text: toks[i].text.clone(), reason }, i + 1),
                ),
                Ok(x) => if next == TokKind::Percent {
                    Ok((Value::Real(Real::Percent(x)), i + 2))
                } else {
                    Ok((Value::Int(x), i + 1))
                },
            }
        },
        TokKind::Real => {
            let t = toks[i].text.clone();
            if next == TokKind::Percent {
                Ok((Value::Real(Real::LiteralPercent(t)), i + 2))
            } else {
                Ok((Value::Real(Real::Literal(t)), i + 1))
            }
        },
        TokKind::Ident => {
            let t = toks[i].text.clone();
            if str_eq(t.as_str(), "true") {
                Ok((Value::Bool(true), i + 1))
            } else if str_eq(t.as_str(), "false") {
                Ok((Value::Bool(false), i + 1))
            } else if next == TokKind::Dot {
                let mut names: Vec<String> = Vec::new();
                let ghost t_view = t@;
                names.push(t);
                proof {
                    lemma_names_push(Seq::empty(), names@[0]);
                    assert(names_of(Seq::<String>::empty()) =~= Seq::<Seq<char>>::empty());
                }
                let p = name_list_exec(toks, i + 2, &mut names);
                assert(names_of(names@) =~= seq![t_view] + name_list(tv, i + 2).0);
                Ok((Value::Ref(Expr::Access(names)), p))
            } else {
                Ok((Value::Ref(Expr::Symbol(t)), i + 1))
            }
        },
        TokKind::Str => {
            let s = unescape(toks[i].text.as_str());
            Ok((Value::Str(s), i + 1))
        },
        TokKind::OpenCurly => {
            match parse_object_exec(toks, i + 1) {
                Ok((o, p)) => Ok((Value::Obj(o), p)),
                Err(e) => Err(e),
            }
        },
        TokKind::Dot => {
            if next == TokKind::Ident {
                let mut names: Vec<String> = Vec::new();
                let t = text_at_exec(toks, i + 1);
                let ghost t_view = t@;
                names.push(t);
                proof {
                    lemma_names_push(Seq::empty(), names@[0]);
                    assert(names_of(Seq::<String>::empty()) =~= Seq::<Seq<char>>::empty());
                }
                let p = name_list_exec(toks, i + 2, &mut names);
                assert(names_of(names@) =~= seq![t_view] + name_list(tv, i + 2).0);
                Ok((Value::Ref(Expr::RelAccess(names)), p))
            } else {
                Err(
                    (
                        ParseError::UnexpectedToken {
                            kind: k,
                            name: toks[i].name.clone(),
                            text: toks[i].text.clone(),
                        },
                        i + 1,
                    ),
                )
            }
        },
        _ => Err(
                    (
                        ParseError::UnexpectedToken {
                            kind: k,
                            name: toks[i].name.clone(),
                            text: toks[i].text.clone(),
                        },
                        i + 1,
                    ),
                ),
    }
}

/// A field `IDENT "=" value` starting at `p`.
fn parse_field_exec(toks: &Vec<Token>, p: usize) -> (r: Result<
    ((String, Value), usize),
    (ParseError, usize),
>)
    requires
        p <= toks@.len() < usize::MAX,
    ensures
        step_view(r, |f: (String, Value)| (f.0@, f.1@)) == parse_field(
            tokens_view(toks@),
            p as int,
        ),
        r matches Ok((_, q)) ==> p < q <= toks@.len(),
        r matches Err((_, q)) ==> p <= q <= toks@.len() + 1,
    decreases toks@.len() - p, 2int,
{
    if kind_at_exec(toks, p) != TokKind::Ident {
        let found = name_at_exec(toks, p);
        return Err((ParseError::Expected { expected: Expected::Identifier, found }, p));
    }
    if kind_at_exec(toks, p + 1) != TokKind::Assign {
        let found = name_at_exec(toks, p + 1);
        return Err((ParseError::Expected { expected: Expected::Assign, found }, p + 1));
    }
    match parse_value_exec(toks, p + 2) {
        Ok((v, q)) => {
            let key = text_at_exec(toks, p);
            Ok(((key, v), q))
        },
        Err(e) => Err(e),
    }
}

/// The fields of an object from `p` on.
fn field_list_exec(toks: &Vec<Token>, p: usize) -> (r: (Vec<(String, Value)>, usize))
    requires
        p <= toks@.len() < usize::MAX,
    ensures
        fields_model(r.0@) == field_list(tokens_view(toks@), p as int).0,
        r.1 == field_list(tokens_view(toks@), p as int).1,
        p <= r.1 <= toks@.len() + 1,
    decreases toks@.len() - p, 4int,
{
    let ghost tv = tokens_view(toks@);
    let mut fields: Vec<(String, Value)> = Vec::new();
    match parse_field_exec(toks, p) {
        Err((_, stop)) => {
            assert(fields_model(fields@) =~= Seq::<(Seq<char>, ValueModel)>::empty());
            (fields, stop)
        },
        Ok((f, first_end)) => {
            proof {
                lemma_fields_model_push(fields@, f);
                assert(fields_model(Seq::<(String, Value)>::empty()) =~= Seq::<
                    (Seq<char>, ValueModel),
                >::empty());
            }
            fields.push(f);
            let mut q = first_end;
            loop
                invariant_except_break
                    tv == tokens_view(toks@),
                    toks@.len() < usize::MAX,
                    p < q <= toks@.len(),
                    field_list(tv, p as int) == (
                        fields_model(fields@) + more_fields(tv, q as int).0,
                        more_fields(tv, q as int).1,
                    ),
                ensures
                    p < q <= toks@.len() + 1,
                    field_list(tv, p as int) == (fields_model(fields@), q as int),
                decreases toks@.len() - q,
            {
                if !(q < toks.len() && kind_at_exec(toks, q) == TokKind::Comma) {
                    assert(fields_model(fields@) =~= fields_model(fields@) + Seq::<
                        (Seq<char>, ValueModel),
                    >::empty());
                    break;
                }
                match parse_field_exec(toks, q + 1) {
                    Ok((g, r)) => {
                        let ghost before = fields@;
                        proof {
                            lemma_fields_model_push(before, g);
                            assert(more_fields(tv, q as int).0 =~= seq![(g.0@, g.1@)]
                                + more_fields(tv, r as int).0);
                        }
                        fields.push(g);
                        assert(fields_model(fields@) + more_fields(tv, r as int).0
                            =~= fields_model(before) + more_fields(tv, q as int).0);
                        q = r;
                    },
                    Err((_, stop)) => {
                        assert(fields_model(fields@) =~= fields_model(fields@) + Seq::<
                            (Seq<char>, ValueModel),
                        >::empty());
                        q = stop;
                        break;
                    },
                }
            }
            (fields, q)
        },
    }
}

/// An object at `i`, and the position after its `}`.
fn parse_object_exec(toks: &Vec<Token>, i: usize) -> (r: Result<(Object, usize), (ParseError, usize)>)
    requires
        i <= toks@.len() < usize::MAX,
    ensures
        step_view(r, |o: Object| o@) == parse_object(tokens_view(toks@), i as int),
        r matches Ok((_, p)) ==> i < p <= toks@.len(),
        r matches Err((_, q)) ==> i <= q <= toks@.len() + 1,
    decreases toks@.len() - i, 6int,
{
    let j = if kind_at_exec(toks, i) == TokKind::OpenCurly {
        i + 1
    } else {
        i
    };
    if kind_at_exec(toks, j) == TokKind::CloseCurly {
        let o = Object::new();
        return Ok((o, j + 1));
    }
    let (fields, end) = field_list_exec(toks, j);
    if kind_at_exec(toks, end) != TokKind::CloseCurly {
        let found = name_at_exec(toks, end);
        return Err((ParseError::Expected { expected: Expected::CloseCurly, found }, end));
    }
    match build_object_exec(fields) {
        Ok(o) => Ok((o, end + 1)),
        Err(e) => Err((e, end + 1)),
    }
}

/// A top-level field and its optional comma, starting at `p`.
fn parse_entry_exec(toks: &Vec<Token>, p: usize) -> (r: Result<
    ((String, Value), usize),
    (ParseError, usize),
>)
    requires
        p <= toks@.len() < usize::MAX,
    ensures
        step_view(r, |f: (String, Value)| (f.0@, f.1@)) == parse_entry(
            tokens_view(toks@),
            p as int,
        ),
        r matches Ok((_, q)) ==> p < q <= toks@.len(),
        r matches Err((_, q)) ==> p <= q <= toks@.len() + 1,
{
    match parse_field_exec(toks, p) {
        Ok((f, q)) => if kind_at_exec(toks, q) == TokKind::Comma {
            Ok((f, q + 1))
        } else {
            Ok((f, q))
        },
        Err(e) => Err(e),
    }
}

/// Parses a whole GSS document from its tokens; an error comes with the
/// position where the parse stopped.
pub fn internal_parse_gss_at(toks: &Vec<Token>) -> (r: Result<Object, (ParseError, usize)>)
    requires
        toks@.len() < usize::MAX - 1,
    ensures
        match r {
            Ok(o) => parse_document_at(tokens_view(toks@)) == Ok::<_, (ParseErrorModel, int)>(o@),
            Err((e, q)) => parse_document_at(tokens_view(toks@)) == Err::<
                crate::gss::model::ObjectModel,
                _,
            >((e@, q as int)),
        },
{
    let ghost tv = tokens_view(toks@);
    if kind_at_exec(toks, 0) == TokKind::Eof {
        return Ok(Object::new());
    }
    let (f, first_end) = match parse_entry_exec(toks, 0) {
        Ok(x) => x,
        Err(e) => {
            return Err(e);
        },
    };
    let mut fields: Vec<(String, Value)> = Vec::new();
    proof {
        lemma_fields_model_push(fields@, f);
        assert(fields_model(Seq::<(String, Value)>::empty()) =~= Seq::<
            (Seq<char>, ValueModel),
        >::empty());
    }
    fields.push(f);
    let mut q = first_end;
    loop
        invariant_except_break
            tv == tokens_view(toks@),
            toks@.len() < usize::MAX,
            0 < q <= toks@.len(),
            more_entries(tv, first_end as int) == (
                fields_model(fields@).skip(1) + more_entries(tv, q as int).0,
                more_entries(tv, q as int).1,
            ),
            fields_model(fields@).len() >= 1,
            fields_model(fields@)[0] == (f.0@, f.1@),
        ensures
            0 < q <= toks@.len() + 1,
            more_entries(tv, first_end as int) == (fields_model(fields@).skip(1), q as int),
            fields_model(fields@).len() >= 1,
            fields_model(fields@)[0] == (f.0@, f.1@),
        decreases toks@.len() - q,
    {
        match parse_entry_exec(toks, q) {
            Ok((g, r)) => {
                let ghost before = fields@;
                proof {
                    lemma_fields_model_push(before, g);
                    assert(more_entries(tv, q as int).0 =~= seq![(g.0@, g.1@)] + more_entries(
                        tv,
                        r as int,
                    ).0);
                }
                fields.push(g);
                assert(fields_model(fields@).skip(1) + more_entries(tv, r as int).0
                    =~= fields_model(before).skip(1) + more_entries(tv, q as int).0);
                q = r;
            },
            Err((_, stop)) => {
                assert(fields_model(fields@).skip(1) =~= fields_model(fields@).skip(1) + Seq::<
                    (Seq<char>, ValueModel),
                >::empty());
                q = stop;
                break;
            },
        }
    }
    if kind_at_exec(toks, q) != TokKind::Eof {
        let found = name_at_exec(toks, q);
        return Err((ParseError::Expected { expected: Expected::Eof, found }, q));
    }
    assert(seq![(f.0@, f.1@)] + fields_model(fields@).skip(1) =~= fields_model(fields@));
    match build_object_exec(fields) {
        Ok(o) => Ok(o),
        Err(e) => Err((e, q + 1)),
    }
}

/// Parses a whole GSS document from its tokens.
pub fn internal_parse_gss(toks: &Vec<Token>) -> (r: Result<Object, ParseError>)
    requires
        toks@.len() < usize::MAX - 1,
    ensures
        match r {
            Ok(o) => parse_document(tokens_view(toks@)) == Ok::<_, ParseErrorModel>(o@),
            Err(e) => parse_document(tokens_view(toks@)) == Err::<
                crate::gss::model::ObjectModel,
                _,
            >(e@),
        },
{
    match internal_parse_gss_at(toks) {
        Ok(o) => Ok(o),
        Err((e, _)) => Err(e),
    }
}

/// Parses an object from its tokens at `pos`: an optional `{`, the fields
/// and the closing `}`. Gives the position after it, or the error and the
/// position where the parse stopped.
pub fn internal_parse_object(toks: &Vec<Token>, pos: usize) -> (r: Result<
    (Object, usize),
    (ParseError, usize),
>)
    requires
        toks@.len() < usize::MAX,
    ensures
        step_view(r, |o: Object| o@) == parse_object(tokens_view(toks@), pos as int),
{
    if pos > toks.len() {
        let found = "EOF".to_owned();
        return Err((ParseError::Expected { expected: Expected::CloseCurly, found }, pos));
    }
    parse_object_exec(toks, pos)
}

/// Parses a value from its tokens at `pos`. Gives the position after it, or
/// the error and the position where the parse stopped.
pub fn internal_parse_value(toks: &Vec<Token>, pos: usize) -> (r: Result<
    (Value, usize),
    (ParseError, usize),
>)
    requires
        toks@.len() < usize::MAX,
        pos < usize::MAX,
    ensures
        step_view(r, |v: Value| v@) == parse_value(tokens_view(toks@), pos as int),
{
    if pos > toks.len() {
        return Err(
            (
                ParseError::UnexpectedToken {
                    kind: TokKind::Eof,
                    name: "EOF".to_owned(),
                    text: String::new(),
                },
                pos + 1,
            ),
        );
    }
    parse_value_exec(toks, pos)
}

/// A parse error and the place (line and column) where the parse stopped.
#[derive(Debug, PartialEq, Eq)]
pub struct LocatedError {
    pub error: ParseError,
    pub line: usize,
    pub col: usize,
}

/// Parses a GSS document from its source text; an error comes with the
/// place where the parse stopped.
pub fn parse_str_located(source: &str) -> (r: Result<Object, LocatedError>)
    requires
        lexable(source@),
    ensures
        match r {
            Ok(o) => parse_document_at(classified(lexed(source@))) == Ok::<
                _,
                (ParseErrorModel, int),
            >(o@),
            Err(le) => parse_document_at(classified(lexed(source@))) matches Err((e, q)) && e
                == le.error@ && (le.line, le.col) == place_at(lexed(source@), q),
        },
{
    let raw = lex_source(source);
    let toks = classify(raw);
    match internal_parse_gss_at(&toks) {
        Ok(o) => Ok(o),
        Err((error, q)) => {
            let (line, col) = if q < toks.len() {
                (toks[q].line, toks[q].col)
            } else if toks.len() > 0 {
                (toks[toks.len() - 1].line, toks[toks.len() - 1].col)
            } else {
                (1, 1)
            };
            Err(LocatedError { error, line, col })
        },
    }
}

/// Parses a GSS document from its source text.
pub fn parse_str(source: &str) -> (r: Result<Object, ParseError>)
    requires
        lexable(source@),
    ensures
        match r {
            Ok(o) => parse_document(classified(lexed(source@))) == Ok::<_, ParseErrorModel>(o@),
            Err(e) => parse_document(classified(lexed(source@))) == Err::<
                crate::gss::model::ObjectModel,
                _,
            >(e@),
        },
{
    let raw = lex_source(source);
    let toks = classify(raw);
    internal_parse_gss(&toks)
}

/// Parses an object (with or without its opening `{`) from source text; what
/// follows its closing `}` is not read.
pub fn internal_parse_object_from_str(source: &str) -> (r: Result<Object, ParseError>)
    requires
        lexable(source@),
    ensures
        match r {
            Ok(o) => parse_object(classified(lexed(source@)), 0) matches Ok((m, _)) && m == o@,
            Err(e) => parse_object(classified(lexed(source@)), 0) matches Err((m, _)) && m == e@,
        },
{
    let raw = lex_source(source);
    let toks = classify(raw);
    match parse_object_exec(&toks, 0) {
        Ok((o, _)) => Ok(o),
        Err((e, _)) => Err(e),
    }
}

} // verus!
