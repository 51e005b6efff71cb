use mux::gss::token::lexable_source;
use mux::gss::dump::DumpPiece;
use mux::gss::model::{Expr, Object, Real, Value, ValueKind};
use mux::gss::parser::{
    internal_parse_gss, internal_parse_object, internal_parse_object_from_str,
    internal_parse_value, parse_str, parse_str_located, ParseError,
};
use mux::gss::grammar::Expected;
use mux::gss::token::{TokKind, Token};
use mux::number::IntError;

fn real_value(r: &Real) -> f32 {
    match r {
        Real::Literal(s) => s.parse::<f32>().unwrap(),
        Real::Percent(n) => *n as f32 / 100.0,
        Real::LiteralPercent(s) => s.parse::<f32>().unwrap() / 100.0,
    }
}

fn get_f32(gss: &Object, path: &[&str]) -> Option<f32> {
    gss.get_real(path).map(real_value)
}

fn dump_text(gss: &Object) -> String {
    let mut out = String::new();
    for p in gss.dump_pieces(0) {
        match p {
            DumpPiece::Text(t) => out.push_str(&t),
            DumpPiece::Real(r) => out.push_str(&format!("{}", real_value(&r))),
        }
    }
    out
}

#[test]
fn test_parse_success() {
    let source = r#"
        name = "GSS",
        version = 1,
        active = true,
        settings = {
            theme = "dark",
            debug = false,
        },
    "#;
    let gss = parse_str(source).expect("Should parse successfully");

    assert_eq!(gss.get_string(&["name"]), Some(&"GSS".to_string()));
    assert_eq!(gss.get_u32(&["version"]), Some(1));
    assert_eq!(gss.get_bool(&["active"]), Some(true));

    assert_eq!(gss.get_string(&["settings", "theme"]), Some(&"dark".to_string()));
    assert_eq!(gss.get_bool(&["settings", "debug"]), Some(false));

    assert_eq!(gss.get_string(&["non_existent"]), None);
    assert_eq!(gss.get_string(&["settings", "non_existent"]), None);
    assert_eq!(gss.get_u32(&["active"]), None);
}

#[test]
fn test_parse_redefinition() {
    let source = r#"
        key = 1,
        key = 2,
    "#;
    let result = parse_str(source);
    assert!(result.is_err());
    let err_msg = result.unwrap_err().message();
    assert!(err_msg.contains("Redefinition of key key"));
}

#[test]
fn test_parse_missing_comma() {
    let source = r#"
        test = {
            key = 1
            other = 2,
        }
    "#;
    let result = parse_str(source);
    assert!(result.is_err());
}

#[test]
fn test_parse_missing_eq() {
    let source = r#"
        key 1,
    "#;
    let result = parse_str(source);
    assert!(result.is_err());
}

#[test]
fn test_empty_path() {
    let gss = parse_str("a = 1,").expect("Should parse");
    assert_eq!(gss.get_u32(&[]), None);
}

#[test]
fn test_dump() {
    let source = r#"
        name = "GSS",
        version = 1,
        active = true,
        settings = {
            theme = "dark",
        },
    "#;
    let gss = parse_str(source).expect("Should parse");
    let text = dump_text(&gss);
    assert_eq!(
        text,
        "{\n    name => \"GSS\"\n    version => 1\n    active => true\n    settings => {\n        theme => \"dark\"\n    }\n}\n"
    );
}

#[test]
fn test_references() {
    let source = r#"
        root_val = 42,
        ref_symbol = root_val,
        nested = {
            value = 100,
            ref_symbol_nested = root_val,
        },
        ref_access = nested.value,
        other = {
            ref_access_nested = nested.value,
        },
        chained1 = root_val,
        chained2 = chained1,
        non_existent_ref = does_not_exist,
        nested_non_existent_ref = nested.does_not_exist,
    "#;
    let gss = parse_str(source).expect("Should parse references successfully");

    assert_eq!(gss.get_u32(&["ref_symbol"]), Some(42));
    assert_eq!(gss.get_u32(&["nested", "ref_symbol_nested"]), Some(42));
    assert_eq!(gss.get_u32(&["ref_access"]), Some(100));
    assert_eq!(gss.get_u32(&["other", "ref_access_nested"]), Some(100));
    assert_eq!(gss.get_u32(&["chained2"]), Some(42));
    assert_eq!(gss.get_u32(&["non_existent_ref"]), None);
    assert_eq!(gss.get_u32(&["nested_non_existent_ref"]), None);
    assert_eq!(gss.get_string(&["ref_symbol"]), None);

    let text = dump_text(&gss);
    assert!(text.contains("    ref_access => nested.value\n"));
    assert!(text.contains("    ref_symbol => root_val\n"));
}

#[test]
fn test_cycle_detection() {
    let source_direct = r#"
        a = a,
    "#;
    let gss = parse_str(source_direct).expect("Should parse");
    assert_eq!(gss.get_u32(&["a"]), None);

    let source_indirect = r#"
        a = b,
        b = a,
    "#;
    let gss = parse_str(source_indirect).expect("Should parse");
    assert_eq!(gss.get_u32(&["a"]), None);
    assert_eq!(gss.get_u32(&["b"]), None);

    let source_path = r#"
        a = b.x,
        b = {
            x = a,
        },
    "#;
    let gss = parse_str(source_path).expect("Should parse");
    assert_eq!(gss.get_u32(&["a"]), None);
}

#[test]
fn test_percent() {
    let source_path = r#"
        a = 89%,
    "#;
    let gss = parse_str(source_path).expect("Should parse");
    assert_eq!(get_f32(&gss, &["a"]), Some(0.89));
}

#[test]
fn test_float() {
    let source_path = r#"
        a = 0.123,
    "#;
    let gss = parse_str(source_path).expect("Should parse");
    assert_eq!(get_f32(&gss, &["a"]), Some(0.123));
}

#[test]
fn test_get_fields() {
    let source_path = r#"
        a = 0.123,
        b = true,
        c = "test",
    "#;
    let gss = parse_str(source_path).expect("Should parse");
    for field in gss.get_fields() {
        assert!(["a", "b", "c"].contains(&field.as_str()))
    }
}

#[test]
fn test_get_or_default() {
    let source_path = r#"

    "#;
    let gss = parse_str(source_path).expect("Should parse");
    match gss.get_or_default(&["a"], ValueKind::Real) {
        Value::Real(r) => assert_eq!(real_value(&r), 0.0),
        other => panic!("expected a real, got {:?}", other),
    }
    match gss.get_or(&["b"], Value::Real(Real::Literal("23.0".to_string()))) {
        Value::Real(r) => assert_eq!(real_value(&r), 23.0),
        other => panic!("expected a real, got {:?}", other),
    }
}

#[test]
fn test_get_inner_obj() {
    let source_path = r#"
        h = {
            inner = "Hi"
        }
        f = {
            g = h
        }
    "#;
    let gss = parse_str(source_path).expect("Should parse");
    assert_eq!(
        gss.get_or_default(&["f", "g", "inner"], ValueKind::Str),
        Value::Str("Hi".to_string())
    );
}

#[test]
fn fields_keep_document_order() {
    let gss = parse_str("c = 1, a = 2, b = 3").unwrap();
    assert_eq!(gss.get_fields(), vec!["c".to_string(), "a".to_string(), "b".to_string()]);
}

#[test]
fn relative_access_starts_at_holder() {
    let gss = parse_str(
        r#"
        x = 1,
        inner = { y = 4 },
        box = {
            x = 2,
            inner = { y = 3 },
            rel = .inner,
            abs = inner,
            local = .x,
        },
        "#,
    )
    .unwrap();
    assert_eq!(gss.get_u32(&["box", "rel", "y"]), Some(3));
    // A name without a leading dot is looked up from the root.
    assert_eq!(gss.get_u32(&["box", "abs", "y"]), Some(4));
    assert_eq!(gss.get_u32(&["box", "local"]), Some(2));
}

#[test]
fn relative_access_takes_one_name() {
    // After `.inner` the parser expects `,` or `}`, so `.inner.y` is refused.
    let err = parse_str("box = { inner = { y = 3 }, rel = .inner.y }").unwrap_err();
    assert_eq!(err, ParseError::Expected { expected: Expected::CloseCurly, found: "Dot".to_string() });
}

#[test]
fn trailing_dot_of_a_path_is_read() {
    let gss = parse_str("a = { b = 5 }, p = a.b., q = 1").unwrap();
    assert_eq!(gss.get_u32(&["p"]), Some(5));
    assert_eq!(gss.get_u32(&["q"]), Some(1));
}

#[test]
fn unfinished_field_after_a_comma_is_dropped() {
    let gss = parse_str("a = 1, b =").unwrap();
    assert_eq!(gss.get_fields(), vec!["a".to_string()]);
    let gss = parse_str("o = { a = 1, b }").unwrap();
    assert_eq!(gss.get_fields(), vec!["o".to_string()]);
    assert_eq!(gss.get_object(&["o"]).unwrap().get_fields(), vec!["a".to_string()]);
    let gss = parse_str("o = { a }").unwrap();
    assert!(gss.get_object(&["o"]).unwrap().get_fields().is_empty());
}

#[test]
fn reference_through_object_path() {
    let gss = parse_str(
        r#"
        theme = { colors = { fg = "white" } },
        button = { palette = theme.colors },
        "#,
    )
    .unwrap();
    assert_eq!(
        gss.get_string(&["button", "palette", "fg"]),
        Some(&"white".to_string())
    );
}

#[test]
fn depth_limit_cuts_long_chains() {
    let mut gss = parse_str("a = b, b = c, c = 7").unwrap();
    assert_eq!(gss.get_u32(&["a"]), Some(7));
    gss.set_max_depth(2);
    assert_eq!(gss.get_u32(&["a"]), None);
    gss.set_max_depth(3);
    assert_eq!(gss.get_u32(&["a"]), Some(7));
    gss.set_max_depth(0);
    assert_eq!(gss.get_u32(&["c"]), None);
}

#[test]
fn numbers_in_other_radixes() {
    let gss = parse_str("hex = 0xFF, bin = 0b101, oct = 0o17, pct = 0x10%").unwrap();
    assert_eq!(gss.get_u32(&["hex"]), Some(255));
    assert_eq!(gss.get_u32(&["bin"]), Some(5));
    assert_eq!(gss.get_u32(&["oct"]), Some(15));
    assert_eq!(gss.get_real(&["pct"]), Some(&Real::Percent(16)));
}

#[test]
fn decimal_percent_keeps_its_text() {
    let gss = parse_str("a = 2.5%").unwrap();
    assert_eq!(gss.get_real(&["a"]), Some(&Real::LiteralPercent("2.5".to_string())));
    assert_eq!(get_f32(&gss, &["a"]), Some(0.025));
}

#[test]
fn string_escapes_are_resolved() {
    let gss = parse_str(r#"s = "a\"b\nc""#).unwrap();
    assert_eq!(gss.get_string(&["s"]), Some(&"a\"b\nc".to_string()));
}

#[test]
fn number_too_large_is_an_error() {
    let err = parse_str("n = 4294967296").unwrap_err();
    assert_eq!(
        err,
        ParseError::InvalidNumber { text: "4294967296".to_string(), reason: IntError::PosOverflow }
    );
    assert_eq!(err.message(), "number too large to fit in target type");
    assert_eq!(parse_str("n = 4294967295").unwrap().get_u32(&["n"]), Some(u32::MAX));
}

#[test]
fn letter_after_a_digit_makes_a_bad_number() {
    // `1x5` is read as one hexadecimal number token whose text is `1x5`.
    let err = parse_str("n = 1x5").unwrap_err();
    assert_eq!(
        err,
        ParseError::InvalidNumber { text: "1x5".to_string(), reason: IntError::InvalidDigit }
    );
    assert_eq!(err.message(), "invalid digit found in string");
}

#[test]
fn missing_assign_message() {
    let err = parse_str("key 1,").unwrap_err();
    assert_eq!(
        err,
        ParseError::Expected { expected: Expected::Assign, found: "Number(D)".to_string() }
    );
    assert_eq!(err.message(), "Expect = got Number(D)");
}

#[test]
fn missing_close_curly_message() {
    let err = parse_str("test = { key = 1 other = 2, }").unwrap_err();
    assert_eq!(
        err,
        ParseError::Expected { expected: Expected::CloseCurly, found: "Identifier".to_string() }
    );
}

#[test]
fn trailing_garbage_is_an_error() {
    let err = parse_str("a = 1, }").unwrap_err();
    assert_eq!(
        err,
        ParseError::Expected { expected: Expected::Eof, found: "CloseCurly".to_string() }
    );
    assert_eq!(err.message(), "Expect EOF got CloseCurly");
}

#[test]
fn value_cannot_start_with_comma() {
    let err = parse_str("a = ,").unwrap_err();
    assert_eq!(err, ParseError::UnexpectedToken {
            kind: TokKind::Comma,
            name: "Comma".to_string(),
            text: ",".to_string(),
        });
    assert_eq!(err.message(), "Unexpect token `,`");
}

#[test]
fn nested_redefinition_is_an_error() {
    let err = parse_str("o = { k = 1, k = 2 }").unwrap_err();
    assert_eq!(err, ParseError::Redefinition { key: "k".to_string() });
}

#[test]
fn parsed_keys_are_distinct() {
    let gss = parse_str("a = 1, b = { a = 2, b = 3 }, c = a").unwrap();
    let keys = gss.get_fields();
    let mut sorted = keys.clone();
    sorted.sort();
    sorted.dedup();
    assert_eq!(sorted.len(), keys.len());
}

#[test]
fn object_from_str_with_and_without_brace() {
    let o = internal_parse_object_from_str("{ a = 1, b = true }").unwrap();
    assert_eq!(o.get_u32(&["a"]), Some(1));
    let o = internal_parse_object_from_str("a = 1, b = true }").unwrap();
    assert_eq!(o.get_bool(&["b"]), Some(true));
    let o = internal_parse_object_from_str("{}").unwrap();
    assert!(o.get_fields().is_empty());
}

#[test]
fn lookup_never_yields_a_reference() {
    let gss = parse_str("a = b, b = c").unwrap();
    assert_eq!(gss.get(&["a"]), None);
    let gss = parse_str("a = b, b = 1").unwrap();
    assert_eq!(gss.get(&["a"]), Some(&Value::Int(1)));
}

#[test]
fn get_or_falls_back_on_kind_mismatch() {
    let gss = parse_str("n = 5, s = \"x\"").unwrap();
    assert_eq!(gss.get_or(&["n"], Value::Int(9)), Value::Int(5));
    assert_eq!(gss.get_or(&["s"], Value::Int(9)), Value::Int(9));
    assert_eq!(gss.get_or_default(&["s"], ValueKind::Bool), Value::Bool(false));
    assert_eq!(gss.get_or_default(&["n"], ValueKind::Obj), Value::Obj(Object::new()));
}

#[test]
fn copies_are_deep() {
    let gss = parse_str("o = { x = .y, y = 0.5 }").unwrap();
    let o = gss.get_object(&["o"]).unwrap();
    let c = o.copy();
    assert_eq!(&c, o);
    assert_eq!(c.get(&["x"]), Some(&Value::Real(Real::Literal("0.5".to_string()))));
    let e = Expr::RelAccess(vec!["y".to_string()]);
    assert_eq!(e.copy(), e);
}

#[test]
fn parsing_tokens_directly() {
    let tok = |kind: TokKind, name: &str, text: &str| Token {
        kind,
        name: name.to_string(),
        text: text.to_string(),
        line: 1,
        col: 1,
    };
    let toks = vec![
        tok(TokKind::Ident, "Identifier", "a"),
        tok(TokKind::Assign, "Eq", "="),
        tok(TokKind::Number(16), "Number(X)", "ff"),
        tok(TokKind::Percent, "Mod", "%"),
    ];
    let gss = internal_parse_gss(&toks).unwrap();
    assert_eq!(gss.get_real(&["a"]), Some(&Real::Percent(255)));
    match internal_parse_value(&toks, 2) {
        Ok((v, next)) => {
            assert_eq!(v, Value::Real(Real::Percent(255)));
            assert_eq!(next, 4);
        },
        Err(_) => panic!("expected a value"),
    }
    match internal_parse_value(&toks, 4) {
        Err((e, stop)) => {
            assert_eq!(e, ParseError::UnexpectedToken {
                    kind: TokKind::Eof,
                    name: "EOF".to_string(),
                    text: String::new(),
                });
            assert_eq!(e.message(), "Unexpect token `EOF`");
            assert_eq!(stop, 5);
        },
        Ok(_) => panic!("expected an error"),
    }
    match internal_parse_object(&toks, 0) {
        Err((e, stop)) => {
            assert_eq!(e, ParseError::Expected { expected: Expected::CloseCurly, found: "EOF".to_string() });
            assert_eq!(stop, 4);
        },
        Ok(_) => panic!("expected an error"),
    }
}

#[test]
fn parse_errors_carry_their_place() {
    let err = parse_str_located("a = 1,\nkey 1,").unwrap_err();
    assert_eq!(
        err.error,
        ParseError::Expected { expected: Expected::Eof, found: "Number(D)".to_string() }
    );
    assert_eq!(err.error.message(), "Expect EOF got Number(D)");
    assert_eq!((err.line, err.col), (2, 6));
    let err = parse_str_located("key 1,").unwrap_err();
    assert_eq!((err.line, err.col), (1, 6));
    let err = parse_str_located("a = ").unwrap_err();
    assert_eq!(err.error.message(), "Unexpect token `EOF`");
    assert_eq!((err.line, err.col), (1, 5));
    assert_eq!(parse_str_located("a = 1").unwrap().get_u32(&["a"]), Some(1));
}

#[test]
fn sources_the_lexer_cannot_finish_are_recognised() {
    assert!(lexable_source("a = 1"));
    assert!(lexable_source("a = 1 // note\n"));
    assert!(lexable_source("// note\na = 1"));
    assert!(lexable_source("#!gss\na = 1"));
    assert!(lexable_source(""));
    assert!(!lexable_source("a = 1 // note"));
    assert!(!lexable_source("#!gss"));
    assert!(!lexable_source("a = b.."));
    assert!(!lexable_source("a = 0x"));
    assert!(!lexable_source("a = 7b"));
    assert!(lexable_source("a = 0x1f"));
}

#[test]
fn unexpected_tokens_are_shown_as_the_lexer_shows_them() {
    let msg = |src: &str| parse_str(src).unwrap_err().message();
    assert_eq!(msg("a = ~"), "Unexpect token `Unexpected Character `~``");
    assert_eq!(msg("a = @"), "Unexpect token `@`");
    assert_eq!(msg("a = \u{2603}"), "Unexpect token `Unexpected Character `\\u{2603}``");
    assert_eq!(msg("a = 'x'"), "Unexpect token `\\'x\\'`");
    assert_eq!(msg("a = \"abc"), "Unexpect token `Unterminated String Literal `\\\"abc``");
    assert_eq!(msg("a = ''"), "Unexpect token `Empty Character Literal`");
    assert_eq!(msg("a = ,"), "Unexpect token `,`");
    assert_eq!(msg("a = "), "Unexpect token `EOF`");
}
