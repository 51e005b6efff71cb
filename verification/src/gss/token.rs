//! The tokens of a GSS source, as `lex-just-parse` reads them.

use vstd::prelude::*;
use lex_just_parse::lexer::{Lexer, token_string_unescape};
use crate::text::{chars_of, str_eq};

verus! {

/// The kinds of token the GSS grammar distinguishes.
#[derive(Debug, Clone, Copy, PartialEq, Eq, Structural)]
pub enum TokKind {
    /// An integer literal; the radix (2, 8, 10 or 16) it is written in.
    Number(u32),
    /// A decimal literal with a fractional part, such as `0.5`.
    Real,
    /// A name such as `width`, `true` or `false`.
    Ident,
    /// A quoted string literal, quotes and escapes included.
    Str,
    OpenCurly,
    CloseCurly,
    Comma,
    Dot,
    /// `=`
    Assign,
    /// `%`
    Percent,
    /// The end of the source.
    Eof,
    /// Any other token.
    Other,
}

/// A token as the lexer reports it: the lexer's name for its kind (as its
/// `Debug` writes it, such as `Identifier` or `Number(D)`), the source text
/// it covers (for a number, its digits without a radix prefix), and where it
/// was read (after its first character, counting from line 1, column 1).
#[derive(Debug)]
pub struct RawToken {
    pub name: String,
    pub text: String,
    pub line: usize,
    pub col: usize,
}

/// A raw token as plain values: kind name, text, line and column.
pub type Lexed = (Seq<char>, Seq<char>, usize, usize);

/// The values of raw tokens.
pub open spec fn raw_view(ts: Seq<RawToken>) -> Seq<Lexed> {
    ts.map_values(|t: RawToken| (t.name@, t.text@, t.line, t.col))
}

/// The kind that the lexer's name for a kind stands for.
pub open spec fn kind_of_name(name: Seq<char>) -> TokKind {
    if name == "Number(B)"@ {
        TokKind::Number(2)
    } else if name == "Number(O)"@ {
        TokKind::Number(8)
    } else if name == "Number(D)"@ {
        TokKind::Number(10)
    } else if name == "Number(X)"@ {
        TokKind::Number(16)
    } else if name == "RealNumber"@ {
        TokKind::Real
    } else if name == "Identifier"@ {
        TokKind::Ident
    } else if name == "StringLiteral"@ {
        TokKind::Str
    } else if name == "OpenCurly"@ {
        TokKind::OpenCurly
    } else if name == "CloseCurly"@ {
        TokKind::CloseCurly
    } else if name == "Comma"@ {
        TokKind::Comma
    } else if name == "Dot"@ {
        TokKind::Dot
    } else if name == "Eq"@ {
        TokKind::Assign
    } else if name == "Mod"@ {
        TokKind::Percent
    } else if name == "EOF"@ {
        TokKind::Eof
    } else {
        TokKind::Other
    }
}

/// A token: its kind, the lexer's name for its kind, its text and its place.
#[derive(Debug)]
pub struct Token {
    pub kind: TokKind,
    pub name: String,
    pub text: String,
    pub line: usize,
    pub col: usize,
}

impl Token {
    /// The kind, the text and the kind's name.
    pub open spec fn view(self) -> (TokKind, Seq<char>, Seq<char>) {
        (self.kind, self.text@, self.name@)
    }
}

/// The views of a sequence of tokens.
pub open spec fn tokens_view(toks: Seq<Token>) -> Seq<(TokKind, Seq<char>, Seq<char>)> {
    toks.map_values(|t: Token| t@)
}

/// The tokens that raw tokens stand for.
pub open spec fn classified(ts: Seq<Lexed>) -> Seq<(TokKind, Seq<char>, Seq<char>)> {
    ts.map_values(|t: Lexed| (kind_of_name(t.0), t.1, t.0))
}

/// The place that a parse stopped at `q` reports: that of the token there,
/// or past the end that of the last token (the end of the input).
pub open spec fn place_at(ts: Seq<Lexed>, q: int) -> (usize, usize) {
    if 0 <= q < ts.len() {
        (ts[q].2, ts[q].3)
    } else if ts.len() > 0 {
        (ts.last().2, ts.last().3)
    } else {
        (1, 1)
    }
}

/// The tokens that `lex-just-parse` reads from `source`, up to and including
/// its first end-of-file token (at the end of the input, or at a NUL
/// character).
pub uninterp spec fn lexed(source: Seq<char>) -> Seq<Lexed>;

/// The character that the escape `\\c` stands for in a literal, if `c`
/// names one.
pub open spec fn escaped_char(c: char) -> Option<char> {
    if c == 'r' {
        Some('\r')
    } else if c == 'n' {
        Some('\n')
    } else if c == 't' {
        Some('\t')
    } else if c == '"' || c == '\'' || c == '\\' {
        Some(c)
    } else if c == '0' {
        Some('\0')
    } else {
        None
    }
}

/// The text of a literal's body `s`, read up to its closing quote: escapes
/// are resolved (`esc` says that a backslash came just before `s`); the text
/// ends at the first quote, at an escape that names no character, or at the
/// end of `s`.
pub open spec fn unescape_from(s: Seq<char>, esc: bool) -> Seq<char>
    decreases s.len(),
{
    if s.len() == 0 {
        Seq::empty()
    } else if esc {
        match escaped_char(s[0]) {
            Some(e) => seq![e] + unescape_from(s.drop_first(), false),
            None => Seq::empty(),
        }
    } else if s[0] == '"' || s[0] == '\'' {
        Seq::empty()
    } else if s[0] == '\\' {
        unescape_from(s.drop_first(), true)
    } else {
        seq![s[0]] + unescape_from(s.drop_first(), false)
    }
}

/// The text that `lex_just_parse::lexer::token_string_unescape` makes of a
/// string literal: its first character (the opening quote) is dropped and
/// the rest is read by [`unescape_from`].
pub open spec fn unescaped(literal: Seq<char>) -> Seq<char> {
    if literal.len() == 0 {
        Seq::empty()
    } else {
        unescape_from(literal.drop_first(), false)
    }
}

/// Every `//` in `s` is followed, somewhere after it, by a newline.
pub open spec fn comments_end(s: Seq<char>) -> bool {
    forall|i: int|
        #![trigger s[i], s[i + 1]]
        0 <= i && i + 1 < s.len() && s[i] == '/' && s[i + 1] == '/' ==> exists|j: int|
            i + 1 < j < s.len() && s[j] == '\n'
}

/// A letter that marks the radix of an integer literal after its first digit.
pub open spec fn radix_letter(c: char) -> bool {
    c == 'x' || c == 'X' || c == 'b' || c == 'B' || c == 'o' || c == 'O'
}

/// Sources on which `lex-just-parse` 1.3.1 is known to return: every `//`
/// comment and a first-line `#!` ends at a newline (the lexer reads a line
/// comment up to a newline, past the end of the input if there is none),
/// and the source does not end in `..` or in a digit and a radix letter
/// (the lexer reads a character past such an end and its slice then goes
/// out of range). The test looks at the characters alone, so it also turns
/// away some sources where such text stands inside a string literal.
pub open spec fn lexable(s: Seq<char>) -> bool {
    &&& comments_end(s)
    &&& (s.len() >= 2 && s[0] == '#' && s[1] == '!') ==> s.contains('\n')
    &&& !(s.len() >= 2 && s[s.len() - 2] == '.' && s[s.len() - 1] == '.')
    &&& !(s.len() >= 2 && '0' <= s[s.len() - 2] <= '9' && radix_letter(s[s.len() - 1]))
}

/// Whether every `//` in `v` is followed by a newline.
fn comments_end_exec(v: &Vec<char>) -> (b: bool)
    ensures
        b == comments_end(v@),
{
    let n = v.len();
    let mut i = n;
    let mut nl = false;
    while i > 0
        invariant
            i <= n == v@.len(),
            nl == (exists|j: int| i <= j < n && v@[j] == '\n'),
            forall|p: int|
                #![trigger v@[p], v@[p + 1]]
                i <= p && p + 1 < n && v@[p] == '/' && v@[p + 1] == '/' ==> exists|j: int|
                    p + 1 < j < n && v@[j] == '\n',
        decreases i,
    {
        i -= 1;
        if v[i] == '\n' {
            nl = true;
        } else if v[i] == '/' && i + 1 < n && v[i + 1] == '/' {
            if !nl {
                assert(!(exists|j: int| i + 1 < j < n && v@[j] == '\n'));
                return false;
            }
            let ghost w = choose|j: int| i + 1 <= j < n && v@[j] == '\n';
            assert(i + 1 < w < n && v@[w] == '\n');
        }
    }
    true
}

/// Whether `lex-just-parse` is known to return on `source` (see [`lexable`]).
pub fn lexable_source(source: &str) -> (b: bool)
    ensures
        b == lexable(source@),
{
    let v = chars_of(source);
    let n = v.len();
    if !comments_end_exec(&v) {
        return false;
    }
    if n >= 2 && v[0] == '#' && v[1] == '!' {
        let mut k: usize = 2;
        let mut found = false;
        while k < n && !found
            invariant
                2 <= k <= n == v@.len(),
                found ==> v@.contains('\n'),
                !found ==> forall|j: int| 0 <= j < k ==> v@[j] != '\n',
            decreases n - k + (if found { 0int } else { 1int }),
        {
            if v[k] == '\n' {
                assert(v@[k as int] == '\n');
                found = true;
            } else {
                k += 1;
            }
        }
        if !found {
            assert(!v@.contains('\n'));
            return false;
        }
    }
    if n >= 2 {
        let a = v[n - 2];
        let b = v[n - 1];
        if a == '.' && b == '.' {
            return false;
        }
        if '0' <= a && a <= '9' && (b == 'x' || b == 'X' || b == 'b' || b == 'B' || b == 'o'
            || b == 'O') {
            return false;
        }
    }
    true
}

/// Runs the `lex-just-parse` lexer (`Lexer::new`, then `next` up to and
/// including the end-of-file token) over `source`, and keeps each token's
/// kind name (its `Debug` text), text and place.
///
/// The contract names the token sequence [`lexed`]: the lexer is a
/// deterministic function of the source. What the sequence holds is not
/// stated here. Its `requires` keeps out the sources on which the lexer
/// does not return (see [`lexable`]). It also states that the vector's length is at most
/// `isize::MAX`, as std's allocation limit (at most `isize::MAX` bytes)
/// guarantees for a vector of tokens.
#[verifier::external_body]
pub(crate) fn lex_source(source: &str) -> (toks: Vec<RawToken>)
    requires
        lexable(source@),
    ensures
        raw_view(toks@) == lexed(source@),
        toks@.len() <= isize::MAX,
{
    let mut lexer = Lexer::new(source);
    let mut toks = Vec::new();
    loop {
        let t = lexer.next();
        let name = format!("{:?}", t.kind);
        toks.push(RawToken { name, text: t.source.to_string(), line: t.loc.line, col: t.loc.col });
        if t.is_eof() { return toks; }
    }
}

/// Calls `lex_just_parse::lexer::token_string_unescape` on a string literal;
/// the contract states its result as [`unescaped`] describes it.
#[verifier::external_body]
pub(crate) fn unescape(literal: &str) -> (s: String)
    ensures
        s@ == unescaped(literal@),
{
    token_string_unescape(literal)
}

/// The kind that the lexer's name for a kind stands for.
pub fn kind_named(name: &str) -> (k: TokKind)
    ensures
        k == kind_of_name(name@),
{
    if str_eq(name, "Number(B)") {
        TokKind::Number(2)
    } else if str_eq(name, "Number(O)") {
        TokKind::Number(8)
    } else if str_eq(name, "Number(D)") {
        TokKind::Number(10)
    } else if str_eq(name, "Number(X)") {
        TokKind::Number(16)
    } else if str_eq(name, "RealNumber") {
        TokKind::Real
    } else if str_eq(name, "Identifier") {
        TokKind::Ident
    } else if str_eq(name, "StringLiteral") {
        TokKind::Str
    } else if str_eq(name, "OpenCurly") {
        TokKind::OpenCurly
    } else if str_eq(name, "CloseCurly") {
        TokKind::CloseCurly
    } else if str_eq(name, "Comma") {
        TokKind::Comma
    } else if str_eq(name, "Dot") {
        TokKind::Dot
    } else if str_eq(name, "Eq") {
        TokKind::Assign
    } else if str_eq(name, "Mod") {
        TokKind::Percent
    } else if str_eq(name, "EOF") {
        TokKind::Eof
    } else {
        TokKind::Other
    }
}

/// The tokens that raw tokens stand for, at the same places.
pub fn classify(raw: Vec<RawToken>) -> (toks: Vec<Token>)
    ensures
        tokens_view(toks@) == classified(raw_view(raw@)),
        toks@.len() == raw@.len(),
        forall|i: int|
            #![trigger toks@[i]]
            0 <= i < raw@.len() ==> toks@[i].line == raw@[i].line && toks@[i].col == raw@[i].col,
{
    let mut toks: Vec<Token> = Vec::new();
    let mut i: usize = 0;
    while i < raw.len()
        invariant
            i <= raw@.len(),
            toks@.len() == i,
            forall|j: int|
                0 <= j < i ==> #[trigger] toks@[j]@ == classified(raw_view(raw@))[j]
                    && toks@[j].line == raw@[j].line && toks@[j].col == raw@[j].col,
        decreases raw.len() - i,
    {
        let r = &raw[i];
        let kind = kind_named(r.name.as_str());
        let name = r.name.clone();
        let text = r.text.clone();
        proof {
            assert(raw_view(raw@)[i as int] == (r.name@, r.text@, r.line, r.col));
        }
        let ghost before = toks@;
        toks.push(Token { kind, name, text, line: r.line, col: r.col });
        proof {
            assert forall|j: int| 0 <= j < i + 1 implies #[trigger] toks@[j]@ == classified(
                raw_view(raw@),
            )[j] && toks@[j].line == raw@[j].line && toks@[j].col == raw@[j].col by {
                if j < i {
                    assert(toks@[j] == before[j]);
                }
            }
        }
        i += 1;
    }
    assert(tokens_view(toks@) =~= classified(raw_view(raw@)));
    assert forall|j: int| #![trigger toks@[j]] 0 <= j < raw@.len() implies toks@[j].line
        == raw@[j].line && toks@[j].col == raw@[j].col by {
        assert(toks@[j]@ == classified(raw_view(raw@))[j]);
    }
    toks
}

} // verus!
