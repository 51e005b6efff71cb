//! The values a GSS document holds, and the meaning of a path lookup.

use vstd::prelude::*;

verus! {

/// A real-number value as written in the source.
///
/// The library keeps the literal text; turning it into a float is left to the
/// caller (`Literal("0.5")` means 0.5, `Percent(89)` means 89 / 100,
/// `LiteralPercent("2.5")` means 2.5 / 100).
#[derive(Debug, PartialEq, Eq)]
pub enum Real {
    /// A decimal literal such as `0.123`.
    Literal(String),
    /// An integer percentage such as `89%`.
    Percent(u32),
    /// A decimal percentage such as `2.5%`.
    LiteralPercent(String),
}

/// A reference to another value of the document.
#[derive(Debug, PartialEq, Eq)]
pub enum Expr {
    /// `name`: a key of the object the lookup started from.
    Symbol(String),
    /// `a.b.c`: a path from the object the lookup started from.
    Access(Vec<String>),
    /// `.a.b`: a path from the object that holds the reference.
    RelAccess(Vec<String>),
}

/// A value of a GSS document.
#[derive(Debug, PartialEq, Eq)]
pub enum Value {
    /// An unsigned integer such as `42` or `0xFF`.
    Int(u32),
    /// A real number or a percentage.
    Real(Real),
    /// `true` or `false`.
    Bool(bool),
    /// A string literal, with its escapes resolved.
    Str(String),
    /// A nested object `{ ... }`.
    Obj(Object),
    /// A reference to another value.
    Ref(Expr),
}

/// A GSS object: named values in the order they were written, and the
/// maximum number of references a lookup may follow.
#[derive(Debug, PartialEq, Eq)]
pub struct Object {
    pub(crate) fields: Vec<(String, Value)>,
    pub(crate) max_depth: usize,
}

/// The kind of a value, as a typed lookup asks for it.
#[derive(Debug, Clone, Copy, PartialEq, Eq, Structural)]
pub enum ValueKind {
    Int,
    Real,
    Bool,
    Str,
    Obj,
}

/// The depth limit that `Object::new` sets.
pub const DEFAULT_MAX_DEPTH: usize = 20;

/// The mathematical model of a [`Real`].
pub enum RealModel {
    Literal(Seq<char>),
    Percent(u32),
    LiteralPercent(Seq<char>),
}

/// The mathematical model of an [`Expr`].
pub enum ExprModel {
    Symbol(Seq<char>),
    Access(Seq<Seq<char>>),
    RelAccess(Seq<Seq<char>>),
}

/// The mathematical model of a [`Value`].
pub enum ValueModel {
    Int(u32),
    Real(RealModel),
    Bool(bool),
    Str(Seq<char>),
    Obj(ObjectModel),
    Ref(ExprModel),
}

/// The mathematical model of an [`Object`]: its fields in document order and
/// its depth limit.
pub struct ObjectModel {
    pub fields: Seq<(Seq<char>, ValueModel)>,
    pub max_depth: nat,
}

impl Real {
    pub open spec fn view(self) -> RealModel {
        match self {
            Real::Literal(s) => RealModel::Literal(s@),
            Real::Percent(n) => RealModel::Percent(n),
            Real::LiteralPercent(s) => RealModel::LiteralPercent(s@),
        }
    }
}

/// The views of the strings of `seq`.
pub open spec fn names_of(seq: Seq<String>) -> Seq<Seq<char>> {
    seq.map_values(|s: String| s@)
}

impl Expr {
    pub open spec fn view(self) -> ExprModel {
        match self {
            Expr::Symbol(s) => ExprModel::Symbol(s@),
            Expr::Access(v) => ExprModel::Access(names_of(v@)),
            Expr::RelAccess(v) => ExprModel::RelAccess(names_of(v@)),
        }
    }
}

/// The models of a sequence of fields.
pub open spec fn fields_model(fs: Seq<(String, Value)>) -> Seq<(Seq<char>, ValueModel)>
    decreases fs,
{
    if fs.len() == 0 {
        Seq::empty()
    } else {
        seq![(fs[0].0@, fs[0].1.view())] + fields_model(fs.drop_first())
    }
}

impl Value {
    pub open spec fn view(self) -> ValueModel
        decreases self,
    {
        match self {
            Value::Int(n) => ValueModel::Int(n),
            Value::Real(r) => ValueModel::Real(r.view()),
            Value::Bool(b) => ValueModel::Bool(b),
            Value::Str(s) => ValueModel::Str(s@),
            Value::Obj(o) => ValueModel::Obj(o.view()),
            Value::Ref(e) => ValueModel::Ref(e.view()),
        }
    }
}

/// The keys of a list of fields.
pub open spec fn field_keys(fs: Seq<(String, Value)>) -> Seq<Seq<char>> {
    fs.map_values(|f: (String, Value)| f.0@)
}

impl Object {
    pub open(crate) spec fn view(self) -> ObjectModel
        decreases self,
    {
        ObjectModel { fields: fields_model(self.fields@), max_depth: self.max_depth as nat }
    }

    /// No key is written twice in an object.
    #[verifier::type_invariant]
    pub(crate) open spec fn keys_distinct(self) -> bool {
        field_keys(self.fields@).no_duplicates()
    }

    /// Creates an empty object with the default depth limit.
    pub fn new() -> (o: Object)
        ensures
            o@.fields.len() == 0,
            o@.max_depth == DEFAULT_MAX_DEPTH,
    {
        let o = Object { fields: Vec::new(), max_depth: DEFAULT_MAX_DEPTH };
        assert(o@.fields =~= Seq::empty());
        o
    }

    /// Sets the maximum number of references a lookup follows (default 20).
    pub fn set_max_depth(&mut self, max_depth: usize)
        ensures
            final(self)@.fields == old(self)@.fields,
            final(self)@.max_depth == max_depth,
    {
        proof {
            use_type_invariant(&*self);
        }
        self.max_depth = max_depth;
    }
}

impl ValueModel {
    /// The kind of this value; references have none.
    pub open spec fn kind(self) -> Option<ValueKind> {
        match self {
            ValueModel::Int(_) => Some(ValueKind::Int),
            ValueModel::Real(_) => Some(ValueKind::Real),
            ValueModel::Bool(_) => Some(ValueKind::Bool),
            ValueModel::Str(_) => Some(ValueKind::Str),
            ValueModel::Obj(_) => Some(ValueKind::Obj),
            ValueModel::Ref(_) => None,
        }
    }
}

impl Value {
    /// The kind of this value; references have none.
    pub fn kind(&self) -> (k: Option<ValueKind>)
        ensures
            k == self@.kind(),
    {
        match self {
            Value::Int(_) => Some(ValueKind::Int),
            Value::Real(_) => Some(ValueKind::Real),
            Value::Bool(_) => Some(ValueKind::Bool),
            Value::Str(_) => Some(ValueKind::Str),
            Value::Obj(_) => Some(ValueKind::Obj),
            Value::Ref(_) => None,
        }
    }
}

/// The model of the fields, entry by entry.
pub proof fn lemma_fields_model(fs: Seq<(String, Value)>)
    ensures
        fields_model(fs).len() == fs.len(),
        forall|i: int|
            0 <= i < fs.len() ==> #[trigger] fields_model(fs)[i] == (fs[i].0@, fs[i].1@),
    decreases fs.len(),
{
    if fs.len() > 0 {
        lemma_fields_model(fs.drop_first());
        assert forall|i: int| 0 <= i < fs.len() implies #[trigger] fields_model(fs)[i] == (
            fs[i].0@,
            fs[i].1@,
        ) by {
            if i > 0 {
                assert(fields_model(fs)[i] == fields_model(fs.drop_first())[i - 1]);
            }
        }
    }
}

impl Real {
    /// A copy of this value.
    pub fn copy(&self) -> (r: Real)
        ensures
            r@ == self@,
    {
        match self {
            Real::Literal(s) => Real::Literal(s.clone()),
            Real::Percent(n) => Real::Percent(*n),
            Real::LiteralPercent(s) => Real::LiteralPercent(s.clone()),
        }
    }
}

fn copy_names(v: &Vec<String>) -> (r: Vec<String>)
    ensures
        names_of(r@) == names_of(v@),
{
    let mut r: Vec<String> = Vec::new();
    let mut i: usize = 0;
    while i < v.len()
        invariant
            i <= v@.len(),
            r@.len() == i,
            forall|j: int| 0 <= j < i ==> #[trigger] r@[j]@ == v@[j]@,
        decreases v.len() - i,
    {
        r.push(v[i].clone());
        i += 1;
    }
    assert(names_of(r@) =~= names_of(v@));
    r
}

impl Expr {
    /// A copy of this reference.
    pub fn copy(&self) -> (r: Expr)
        ensures
            r@ == self@,
    {
        match self {
            Expr::Symbol(s) => Expr::Symbol(s.clone()),
            Expr::Access(v) => Expr::Access(copy_names(v)),
            Expr::RelAccess(v) => Expr::RelAccess(copy_names(v)),
        }
    }
}

impl Value {
    /// A deep copy of this value.
    pub fn copy(&self) -> (r: Value)
        ensures
            r@ == self@,
        decreases self,
    {
        match self {
            Value::Int(n) => Value::Int(*n),
            Value::Real(x) => Value::Real(x.copy()),
            Value::Bool(b) => Value::Bool(*b),
            Value::Str(s) => Value::Str(s.clone()),
            Value::Obj(o) => Value::Obj(o.copy()),
            Value::Ref(e) => Value::Ref(e.copy()),
        }
    }
}

impl Object {
    /// A deep copy of this object.
    pub fn copy(&self) -> (r: Object)
        ensures
            r@ == self@,
        decreases self,
    {
        let mut fields: Vec<(String, Value)> = Vec::new();
        let mut i: usize = 0;
        proof {
            lemma_fields_model(self.fields@);
            use_type_invariant(self);
        }
        while i < self.fields.len()
            invariant
                i <= self.fields@.len(),
                fields@.len() == i,
                forall|j: int|
                    0 <= j < i ==> #[trigger] fields@[j].0@ == self.fields@[j].0@ && fields@[j].1@
                        == self.fields@[j].1@,
            decreases self.fields.len() - i,
        {
            assert(decreases_to!(self => self.fields));
            assert(decreases_to!(self.fields => self.fields@));
            assert(decreases_to!(self.fields@ => self.fields@[i as int]));
            let v = self.fields[i].1.copy();
            let k = self.fields[i].0.clone();
            let ghost before = fields@;
            fields.push((k, v));
            assert forall|j: int| 0 <= j < i + 1 implies #[trigger] fields@[j].0@
                == self.fields@[j].0@ && fields@[j].1@ == self.fields@[j].1@ by {
                if j < i {
                    assert(fields@[j] == before[j]);
                }
            }
            i += 1;
        }
        assert(field_keys(fields@) =~= field_keys(self.fields@));
        let r = Object { fields, max_depth: self.max_depth };
        proof {
            lemma_fields_model(fields@);
            assert(fields_model(fields@) =~= fields_model(self.fields@));
        }
        r
    }
}

} // verus!
