//! A readable listing of a GSS object, one field per line.

use vstd::prelude::*;
use vstd::string::StringExecFns;
use crate::gss::model::{
    Expr, ExprModel, Object, ObjectModel, Real, RealModel, Value, ValueModel, fields_model,
    lemma_fields_model, names_of,
};
use crate::number::{decimal, push_decimal};

verus! {

/// A piece of a listing: text, or a real number that the caller writes in
/// its float form.
#[derive(Debug)]
pub enum DumpPiece {
    Text(String),
    Real(Real),
}

/// The model of a [`DumpPiece`].
pub enum PieceModel {
    Text(Seq<char>),
    Real(RealModel),
}

impl DumpPiece {
    pub open spec fn view(self) -> PieceModel {
        match self {
            DumpPiece::Text(s) => PieceModel::Text(s@),
            DumpPiece::Real(r) => PieceModel::Real(r@),
        }
    }
}

/// The models of a sequence of pieces.
pub open spec fn pieces_view(ps: Seq<DumpPiece>) -> Seq<PieceModel> {
    ps.map_values(|p: DumpPiece| p@)
}

/// `n` levels of indentation, four spaces each.
pub open spec fn indent(n: nat) -> Seq<char>
    decreases n,
{
    if n == 0 {
        Seq::empty()
    } else {
        indent((n - 1) as nat) + "    "@
    }
}

/// The names of a path joined by dots.
pub open spec fn dotted(names: Seq<Seq<char>>) -> Seq<char>
    decreases names.len(),
{
    if names.len() == 0 {
        Seq::empty()
    } else if names.len() == 1 {
        names[0]
    } else {
        dotted(names.drop_last()) + "."@ + names.last()
    }
}

/// How a reference is written.
pub open spec fn expr_text(e: ExprModel) -> Seq<char> {
    match e {
        ExprModel::Symbol(s) => s,
        ExprModel::Access(p) => dotted(p),
        ExprModel::RelAccess(p) => "."@ + dotted(p),
    }
}

/// How deeply objects nest inside `o`.
pub open spec fn nesting(o: ObjectModel) -> nat
    decreases o,
{
    nesting_fields(o.fields)
}

/// How deeply objects nest inside the values of `fs`.
pub open spec fn nesting_fields(fs: Seq<(Seq<char>, ValueModel)>) -> nat
    decreases fs,
{
    if fs.len() == 0 {
        0
    } else {
        let here = match fs[0].1 {
            ValueModel::Obj(o) => nesting(o) + 1,
            _ => 0,
        };
        let rest = nesting_fields(fs.drop_first());
        if here > rest {
            here
        } else {
            rest
        }
    }
}

/// The listing of `o` at indentation `level`: `{`, a line per field, and the
/// closing `}`.
pub open spec fn dump_object(o: ObjectModel, level: nat) -> Seq<PieceModel>
    decreases o,
{
    seq![PieceModel::Text("{\n"@)] + dump_fields(o.fields, level) + seq![
        PieceModel::Text(indent(level) + "}\n"@),
    ]
}

/// The lines of the fields `fs` of an object at indentation `level`.
pub open spec fn dump_fields(fs: Seq<(Seq<char>, ValueModel)>, level: nat) -> Seq<PieceModel>
    decreases fs,
{
    if fs.len() == 0 {
        Seq::empty()
    } else {
        seq![PieceModel::Text(indent(level + 1) + fs[0].0 + " => "@)] + dump_value(fs[0].1, level)
            + dump_fields(fs.drop_first(), level)
    }
}

/// The listing of the value of a field of an object at indentation `level`.
pub open spec fn dump_value(v: ValueModel, level: nat) -> Seq<PieceModel>
    decreases v,
{
    match v {
        ValueModel::Str(s) => seq![PieceModel::Text("\""@ + s + "\"\n"@)],
        ValueModel::Int(n) => seq![PieceModel::Text(decimal(n as nat) + "\n"@)],
        ValueModel::Real(r) => seq![PieceModel::Real(r), PieceModel::Text("\n"@)],
        ValueModel::Bool(b) => seq![PieceModel::Text(if b { "true\n"@ } else { "false\n"@ })],
        ValueModel::Obj(o) => dump_object(o, level + 1),
        ValueModel::Ref(e) => seq![PieceModel::Text(expr_text(e) + "\n"@)],
    }
}

proof fn lemma_nesting_bound(fs: Seq<(Seq<char>, ValueModel)>, i: int)
    requires
        0 <= i < fs.len(),
    ensures
        fs[i].1 matches ValueModel::Obj(o) ==> nesting(o) + 1 <= nesting_fields(fs),
    decreases fs.len(),
{
    if i > 0 {
        lemma_nesting_bound(fs.drop_first(), i - 1);
    }
}

/// Appends `n` levels of indentation.
fn push_indent(s: &mut String, n: usize)
    ensures
        final(s)@ == old(s)@ + indent(n as nat),
{
    let mut i: usize = 0;
    while i < n
        invariant
            i <= n,
            s@ == old(s)@ + indent(i as nat),
        decreases n - i,
    {
        s.append("    ");
        i += 1;
    }
}

/// The names of a path joined by dots.
fn dotted_exec(names: &Vec<String>) -> (r: String)
    ensures
        r@ == dotted(names_of(names@)),
{
    let mut r = String::new();
    let mut i: usize = 0;
    while i < names.len()
        invariant
            i <= names@.len(),
            r@ == dotted(names_of(names@).take(i as int)),
        decreases names.len() - i,
    {
        let ghost t = names_of(names@).take(i + 1);
        assert(t.drop_last() =~= names_of(names@).take(i as int));
        if i > 0 {
            r.append(".");
        } else {
            assert(r@ =~= Seq::<char>::empty());
        }
        r.append(names[i].as_str());
        i += 1;
        if i == 1 {
            assert(r@ =~= t[0]);
        }
    }
    assert(names_of(names@).take(names@.len() as int) =~= names_of(names@));
    r
}

/// How a reference is written.
fn expr_text_exec(e: &Expr) -> (r: String)
    ensures
        r@ == expr_text(e@),
{
    match e {
        Expr::Symbol(s) => s.clone(),
        Expr::Access(p) => dotted_exec(p),
        Expr::RelAccess(p) => {
            let mut r = String::new();
            r.append(".");
            let d = dotted_exec(p);
            r.append(d.as_str());
            r
        },
    }
}

/// A `DumpPiece::Text` holding `a` followed by `b`.
fn text2(a: &str, b: &str) -> (p: DumpPiece)
    ensures
        p@ == PieceModel::Text(a@ + b@),
{
    let mut s = String::new();
    s.append(a);
    s.append(b);
    assert(s@ =~= a@ + b@);
    DumpPiece::Text(s)
}

/// Appends the listing of the value `v` of a field at indentation `level`.
fn dump_value_into(v: &Value, level: usize, out: &mut Vec<DumpPiece>)
    requires
        v@ matches ValueModel::Obj(o) ==> level + 1 + nesting(o) < usize::MAX,
    ensures
        pieces_view(final(out)@) == pieces_view(old(out)@) + dump_value(v@, level as nat),
    decreases v,
{
    let ghost before = out@;
    match v {
        Value::Str(s) => {
            let mut t = String::new();
            t.append("\"");
            t.append(s.as_str());
            t.append("\"\n");
            out.push(DumpPiece::Text(t));
        },
        Value::Int(n) => {
            let mut t = String::new();
            push_decimal(&mut t, *n);
            t.append("\n");
            out.push(DumpPiece::Text(t));
        },
        Value::Real(r) => {
            out.push(DumpPiece::Real(r.copy()));
            out.push(DumpPiece::Text(String::from_str("\n")));
        },
        Value::Bool(b) => {
            if *b {
                out.push(DumpPiece::Text(String::from_str("true\n")));
            } else {
                out.push(DumpPiece::Text(String::from_str("false\n")));
            }
        },
        Value::Obj(o) => {
            o.dump_into(level + 1, out);
        },
        Value::Ref(e) => {
            let t = expr_text_exec(e);
            out.push(text2(t.as_str(), "\n"));
        },
    }
    assert(pieces_view(out@) =~= pieces_view(before) + dump_value(v@, level as nat));
}

impl Object {
    /// Appends the listing of this object at indentation `level`.
    fn dump_into(&self, level: usize, out: &mut Vec<DumpPiece>)
        requires
            level + nesting(self@) < usize::MAX,
        ensures
            pieces_view(final(out)@) == pieces_view(old(out)@) + dump_object(self@, level as nat),
        decreases self,
    {
        let ghost fm = self@.fields;
        let ghost start = pieces_view(out@);
        proof {
            lemma_fields_model(self.fields@);
        }
        out.push(DumpPiece::Text(String::from_str("{\n")));
        let mut i: usize = 0;
        assert(fm.skip(0) =~= fm);
        while i < self.fields.len()
            invariant
                i <= self.fields@.len(),
                fm == self@.fields,
                fm == fields_model(self.fields@),
                fm.len() == self.fields@.len(),
                forall|j: int| 0 <= j < self.fields@.len() ==> #[trigger] fm[j] == (
                    self.fields@[j].0@,
                    self.fields@[j].1@,
                ),
                level + nesting(self@) < usize::MAX,
                pieces_view(out@) + dump_fields(fm.skip(i as int), level as nat) == start + seq![
                    PieceModel::Text("{\n"@),
                ] + dump_fields(fm, level as nat),
            decreases self.fields.len() - i,
        {
            let ghost before = pieces_view(out@);
            assert(fm.skip(i as int).drop_first() =~= fm.skip(i + 1));
            assert(fm.skip(i as int)[0] == fm[i as int]);
            let mut head = String::new();
            push_indent(&mut head, level + 1);
            head.append(self.fields[i].0.as_str());
            head.append(" => ");
            out.push(DumpPiece::Text(head));
            proof {
                lemma_nesting_bound(fm, i as int);
                assert(decreases_to!(self => self.fields));
                assert(decreases_to!(self.fields => self.fields@));
                assert(decreases_to!(self.fields@ => self.fields@[i as int]));
            }
            dump_value_into(&self.fields[i].1, level, out);
            assert(pieces_view(out@) + dump_fields(fm.skip(i + 1), level as nat) =~= before
                + dump_fields(fm.skip(i as int), level as nat));
            i += 1;
        }
        assert(fm.skip(i as int) =~= Seq::<(Seq<char>, ValueModel)>::empty());
        let ghost mid = pieces_view(out@);
        assert(mid + dump_fields(fm.skip(i as int), level as nat) =~= mid);
        let mut tail = String::new();
        push_indent(&mut tail, level);
        tail.append("}\n");
        let ghost tail_view = tail@;
        out.push(DumpPiece::Text(tail));
        assert(pieces_view(out@) =~= mid.push(PieceModel::Text(tail_view)));
        assert(pieces_view(out@) =~= start + dump_object(self@, level as nat));
    }

    /// How deeply objects nest inside this one, when that is below `cap`.
    fn nesting_below(&self, cap: usize) -> (r: Option<usize>)
        ensures
            match r {
                Some(n) => n == nesting(self@) && n < cap,
                None => nesting(self@) >= cap,
            },
        decreases self,
    {
        let ghost fm = self@.fields;
        proof {
            lemma_fields_model(self.fields@);
        }
        if cap == 0 {
            return None;
        }
        let mut best: usize = 0;
        let mut i: usize = self.fields.len();
        assert(fm.skip(i as int) =~= Seq::<(Seq<char>, ValueModel)>::empty());
        while i > 0
            invariant
                i <= self.fields@.len(),
                0 < cap,
                fm == self@.fields,
                fm.len() == self.fields@.len(),
                forall|j: int| 0 <= j < self.fields@.len() ==> #[trigger] fm[j] == (
                    self.fields@[j].0@,
                    self.fields@[j].1@,
                ),
                best == nesting_fields(fm.skip(i as int)),
                best < cap,
            decreases i,
        {
            i -= 1;
            assert(fm.skip(i as int).drop_first() =~= fm.skip(i + 1));
            assert(fm.skip(i as int)[0] == fm[i as int]);
            match &self.fields[i].1 {
                Value::Obj(o) => {
                    proof {
                        assert(decreases_to!(self => self.fields));
                        assert(decreases_to!(self.fields => self.fields@));
                        assert(decreases_to!(self.fields@ => self.fields@[i as int]));
                        lemma_nesting_bound(fm, i as int);
                    }
                    match o.nesting_below(cap - 1) {
                        Some(n) => {
                            if n + 1 > best {
                                best = n + 1;
                            }
                        },
                        None => {
                            return None;
                        },
                    }
                },
                _ => {},
            }
        }
        assert(fm.skip(0) =~= fm);
        Some(best)
    }

    /// Whether `dump_pieces` can list this object at indentation `level`:
    /// the deepest indentation fits in a `usize`.
    pub fn dump_fits(&self, level: usize) -> (b: bool)
        ensures
            b == (level + nesting(self@) < usize::MAX),
    {
        self.nesting_below(usize::MAX - level).is_some()
    }

    /// The listing of this object at indentation `level`: the pieces that
    /// `dump` writes one after the other.
    pub fn dump_pieces(&self, level: usize) -> (ps: Vec<DumpPiece>)
        requires
            level + nesting(self@) < usize::MAX,
        ensures
            pieces_view(ps@) == dump_object(self@, level as nat),
    {
        let mut out: Vec<DumpPiece> = Vec::new();
        self.dump_into(level, &mut out);
        assert(pieces_view(out@) =~= Seq::<PieceModel>::empty() + dump_object(self@, level as nat));
        out
    }
}

} // verus!
