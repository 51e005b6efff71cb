//! Path lookups in a GSS object, following references up to a depth limit.

use vstd::prelude::*;
use crate::gss::model::{
    Expr, ExprModel, Object, ObjectModel, Real, RealModel, Value, ValueKind, ValueModel,
    lemma_fields_model, names_of,
};
use crate::text::str_eq;

verus! {

/// The first value stored under `key` among `fields`.
pub open spec fn lookup_field(fields: Seq<(Seq<char>, ValueModel)>, key: Seq<char>) -> Option<
    ValueModel,
>
    decreases fields.len(),
{
    if fields.len() == 0 {
        None
    } else if fields[0].0 == key {
        Some(fields[0].1)
    } else {
        lookup_field(fields.drop_first(), key)
    }
}

/// What a lookup of `path` from `root` yields, having followed `depth`
/// references out of at most `max`. The result is never a reference.
pub open spec fn resolve(root: ObjectModel, path: Seq<Seq<char>>, depth: nat, max: nat) -> Option<
    ValueModel,
>
    decreases max - depth, path.len() + 1,
{
    if depth >= max || path.len() == 0 {
        None
    } else {
        walk(root, root, path, 0, depth, max)
    }
}

/// Follows the reference `e`, held by `holder`, for a lookup that started at
/// `root`: one more reference on the way.
pub open spec fn follow(root: ObjectModel, holder: ObjectModel, e: ExprModel, depth: nat, max: nat) -> Option<
    ValueModel,
>
    decreases max - depth, 0int,
{
    if depth >= max {
        None
    } else {
        match e {
            ExprModel::Symbol(s) => resolve(root, seq![s], depth + 1, max),
            ExprModel::Access(p) => resolve(root, p, depth + 1, max),
            ExprModel::RelAccess(p) => resolve(holder, p, depth + 1, max),
        }
    }
}

/// The lookup of `path[i..]` from `obj`, for a lookup that started at `root`.
pub open spec fn walk(
    root: ObjectModel,
    obj: ObjectModel,
    path: Seq<Seq<char>>,
    i: nat,
    depth: nat,
    max: nat,
) -> Option<ValueModel>
    decreases max - depth, path.len() - i,
{
    if depth >= max || i >= path.len() {
        None
    } else {
        match lookup_field(obj.fields, path[i as int]) {
            None => None,
            Some(v) => if i + 1 == path.len() {
                match v {
                    ValueModel::Ref(e) => follow(root, obj, e, depth, max),
                    _ => Some(v),
                }
            } else {
                match v {
                    ValueModel::Obj(o) => walk(root, o, path, i + 1, depth, max),
                    ValueModel::Ref(e) => match follow(root, obj, e, depth, max) {
                        Some(ValueModel::Obj(o)) => walk(root, o, path, i + 1, depth, max),
                        _ => None,
                    },
                    _ => None,
                }
            },
        }
    }
}

/// The view of a path given as string slices.
pub open spec fn path_view(path: Seq<&str>) -> Seq<Seq<char>> {
    path.map_values(|s: &str| s@)
}

/// What `Object::get` yields for `path`: the lookup from `obj`, following at
/// most `obj.max_depth` references.
pub open spec fn get_spec(obj: ObjectModel, path: Seq<Seq<char>>) -> Option<ValueModel> {
    resolve(obj, path, 0, obj.max_depth)
}

/// An optional reference, read as an optional model.
pub open spec fn view_opt(r: Option<&Value>) -> Option<ValueModel> {
    match r {
        Some(v) => Some(v@),
        None => None,
    }
}

/// The first value stored under `key` among `fields`.
fn find_field<'a>(fields: &'a Vec<(String, Value)>, key: &str) -> (r: Option<&'a Value>)
    ensures
        view_opt(r) == lookup_field(crate::gss::model::fields_model(fields@), key@),
{
    let ghost fm = crate::gss::model::fields_model(fields@);
    proof {
        lemma_fields_model(fields@);
    }
    let mut i: usize = 0;
    assert(fm.skip(0) =~= fm);
    while i < fields.len()
        invariant
            i <= fields@.len(),
            fm == crate::gss::model::fields_model(fields@),
            fm.len() == fields@.len(),
            forall|j: int| 0 <= j < fields@.len() ==> #[trigger] fm[j] == (fields@[j].0@, fields@[j].1@),
            lookup_field(fm, key@) == lookup_field(fm.skip(i as int), key@),
        decreases fields.len() - i,
    {
        assert(fm.skip(i as int).drop_first() =~= fm.skip(i + 1));
        assert(fm.skip(i as int)[0] == fm[i as int]);
        if str_eq(fields[i].0.as_str(), key) {
            return Some(&fields[i].1);
        }
        i += 1;
    }
    None
}

/// The names of a reference path, as string slices.
fn names_as_strs<'a>(seq: &'a Vec<String>) -> (r: Vec<&'a str>)
    ensures
        path_view(r@) == names_of(seq@),
{
    let mut r: Vec<&'a str> = Vec::new();
    let mut i: usize = 0;
    while i < seq.len()
        invariant
            i <= seq@.len(),
            r@.len() == i,
            path_view(r@) == names_of(seq@.take(i as int)),
        decreases seq.len() - i,
    {
        let ghost prev = r@;
        let s: &'a str = seq[i].as_str();
        r.push(s);
        proof {
            assert forall|j: int| 0 <= j <= i implies #[trigger] path_view(r@)[j] == names_of(
                seq@.take(i + 1),
            )[j] by {
                if j < i {
                    assert(path_view(prev)[j] == names_of(seq@.take(i as int))[j]);
                }
            }
        }
        i += 1;
        assert(path_view(r@) =~= names_of(seq@.take(i as int)));
    }
    assert(seq@.take(seq@.len() as int) =~= seq@);
    r
}

impl Object {
    /// Follows the reference `e`, held by `holder`, for a lookup that started
    /// at `self`.
    fn follow_exec<'a>(&'a self, holder: &'a Object, e: &'a Expr, depth: usize, max: usize) -> (r:
        Option<&'a Value>)
        requires
            depth < max,
        ensures
            view_opt(r) == follow(self@, holder@, e@, depth as nat, max as nat),
        decreases max - depth, 0int,
    {
        match e {
            Expr::Symbol(s) => {
                let p: Vec<&str> = vec![s.as_str()];
                assert(path_view(p@) =~= seq![s@]);
                self.lookup_from(p.as_slice(), depth + 1, max)
            },
            Expr::Access(seq) => {
                let p = names_as_strs(seq);
                self.lookup_from(p.as_slice(), depth + 1, max)
            },
            Expr::RelAccess(seq) => {
                let p = names_as_strs(seq);
                holder.lookup_from(p.as_slice(), depth + 1, max)
            },
        }
    }

    /// The lookup of `path` from `self`, having followed `depth` references
    /// out of at most `max`.
    pub fn lookup_from<'a>(&'a self, path: &[&str], depth: usize, max: usize) -> (r: Option<
        &'a Value,
    >)
        ensures
            view_opt(r) == resolve(self@, path_view(path@), depth as nat, max as nat),
        decreases max - depth, path@.len() + 1,
    {
        let ghost pv = path_view(path@);
        if depth >= max || path.len() == 0 {
            return None;
        }
        let n = path.len();
        let mut obj: &'a Object = self;
        let mut i: usize = 0;
        while i + 1 < n
            invariant
                0 <= i < n,
                n == path@.len(),
                pv == path_view(path@),
                depth < max,
                walk(self@, self@, pv, 0, depth as nat, max as nat) == walk(
                    self@,
                    obj@,
                    pv,
                    i as nat,
                    depth as nat,
                    max as nat,
                ),
            decreases n - i,
        {
            let found = find_field(&obj.fields, path[i]);
            assert(pv[i as int] == path@[i as int]@);
            match found {
                None => {
                    return None;
                },
                Some(v) => {
                    match v {
                        Value::Obj(o) => {
                            obj = o;
                        },
                        Value::Ref(e) => {
                            let target = self.follow_exec(obj, e, depth, max);
                            match target {
                                Some(Value::Obj(o)) => {
                                    obj = o;
                                },
                                _ => {
                                    return None;
                                },
                            }
                        },
                        _ => {
                            return None;
                        },
                    }
                },
            }
            i += 1;
        }
        let found = find_field(&obj.fields, path[i]);
        assert(pv[i as int] == path@[i as int]@);
        match found {
            None => None,
            Some(v) => match v {
                Value::Ref(e) => self.follow_exec(obj, e, depth, max),
                _ => Some(v),
            },
        }
    }

    /// The value at `path`, with references followed; `None` when a key is
    /// missing, a step is not an object, or more references than the depth
    /// limit would have to be followed.
    pub fn get<'a>(&'a self, path: &[&str]) -> (r: Option<&'a Value>)
        ensures
            view_opt(r) == get_spec(self@, path_view(path@)),
    {
        self.lookup_from(path, 0, self.max_depth)
    }
}

/// The value that `get_or_default` gives for a kind: zero, `0` as a real,
/// `false`, the empty string, or an empty object.
pub open spec fn default_of(kind: ValueKind) -> ValueModel {
    match kind {
        ValueKind::Int => ValueModel::Int(0),
        ValueKind::Real => ValueModel::Real(RealModel::Literal("0"@)),
        ValueKind::Bool => ValueModel::Bool(false),
        ValueKind::Str => ValueModel::Str(Seq::empty()),
        ValueKind::Obj => ValueModel::Obj(
            ObjectModel { fields: Seq::empty(), max_depth: crate::gss::model::DEFAULT_MAX_DEPTH as nat },
        ),
    }
}

/// The value of `kind` found at `path`, or `default`.
pub open spec fn found_or(found: Option<ValueModel>, kind: Option<ValueKind>, default: ValueModel) -> ValueModel {
    match found {
        Some(v) => if v.kind() == kind {
            v
        } else {
            default
        },
        None => default,
    }
}

/// The default value of `kind`.
pub fn default_value(kind: ValueKind) -> (v: Value)
    ensures
        v@ == default_of(kind),
{
    match kind {
        ValueKind::Int => Value::Int(0),
        ValueKind::Real => {
            let s = String::from_str("0");
            proof {
                reveal_strlit("0");
            }
            Value::Real(Real::Literal(s))
        },
        ValueKind::Bool => Value::Bool(false),
        ValueKind::Str => Value::Str(String::new()),
        ValueKind::Obj => Value::Obj(Object::new()),
    }
}

impl Object {
    /// The integer at `path`, if the value there is one.
    pub fn get_u32(&self, path: &[&str]) -> (r: Option<u32>)
        ensures
            r == (match get_spec(self@, path_view(path@)) {
                Some(ValueModel::Int(n)) => Some(n),
                _ => None,
            }),
    {
        match self.get(path) {
            Some(Value::Int(n)) => Some(*n),
            _ => None,
        }
    }

    /// The boolean at `path`, if the value there is one.
    pub fn get_bool(&self, path: &[&str]) -> (r: Option<bool>)
        ensures
            r == (match get_spec(self@, path_view(path@)) {
                Some(ValueModel::Bool(b)) => Some(b),
                _ => None,
            }),
    {
        match self.get(path) {
            Some(Value::Bool(b)) => Some(*b),
            _ => None,
        }
    }

    /// The string at `path`, if the value there is one.
    pub fn get_string<'a>(&'a self, path: &[&str]) -> (r: Option<&'a String>)
        ensures
            match get_spec(self@, path_view(path@)) {
                Some(ValueModel::Str(s)) => r matches Some(x) && x@ == s,
                _ => r is None,
            },
    {
        match self.get(path) {
            Some(Value::Str(s)) => Some(s),
            _ => None,
        }
    }

    /// The real number at `path`, if the value there is one.
    pub fn get_real<'a>(&'a self, path: &[&str]) -> (r: Option<&'a Real>)
        ensures
            match get_spec(self@, path_view(path@)) {
                Some(ValueModel::Real(x)) => r matches Some(y) && y@ == x,
                _ => r is None,
            },
    {
        match self.get(path) {
            Some(Value::Real(x)) => Some(x),
            _ => None,
        }
    }

    /// The object at `path`, if the value there is one.
    pub fn get_object<'a>(&'a self, path: &[&str]) -> (r: Option<&'a Object>)
        ensures
            match get_spec(self@, path_view(path@)) {
                Some(ValueModel::Obj(o)) => r matches Some(x) && x@ == o,
                _ => r is None,
            },
    {
        match self.get(path) {
            Some(Value::Obj(o)) => Some(o),
            _ => None,
        }
    }

    /// The keys of this object, in document order; no key is listed twice.
    pub fn get_fields(&self) -> (keys: Vec<String>)
        ensures
            keys@.len() == self@.fields.len(),
            forall|i: int| 0 <= i < keys@.len() ==> #[trigger] keys@[i]@ == self@.fields[i].0,
            forall|i: int, j: int|
                0 <= i < j < keys@.len() ==> #[trigger] keys@[i]@ != #[trigger] keys@[j]@,
    {
        proof {
            lemma_fields_model(self.fields@);
            use_type_invariant(self);
        }
        let mut keys: Vec<String> = Vec::new();
        let mut i: usize = 0;
        while i < self.fields.len()
            invariant
                i <= self.fields@.len(),
                keys@.len() == i,
                self@.fields == crate::gss::model::fields_model(self.fields@),
                self@.fields.len() == self.fields@.len(),
                forall|j: int| 0 <= j < self.fields@.len() ==> #[trigger] self@.fields[j] == (
                    self.fields@[j].0@,
                    self.fields@[j].1@,
                ),
                forall|j: int| 0 <= j < i ==> #[trigger] keys@[j]@ == self@.fields[j].0,
            decreases self.fields.len() - i,
        {
            keys.push(self.fields[i].0.clone());
            i += 1;
        }
        proof {
            assert forall|a: int, b: int| 0 <= a < b < keys@.len() implies keys@[a]@ != keys@[b]@ by {
                assert(crate::gss::model::field_keys(self.fields@)[a] == self.fields@[a].0@);
                assert(crate::gss::model::field_keys(self.fields@)[b] == self.fields@[b].0@);
            }
        }
        keys
    }

    /// The value at `path` when it has the kind of `default`, otherwise
    /// `default`.
    pub fn get_or(&self, path: &[&str], default: Value) -> (r: Value)
        ensures
            r@ == found_or(get_spec(self@, path_view(path@)), default@.kind(), default@),
    {
        let kind = default.kind();
        match self.get(path) {
            Some(v) => {
                if v.kind() == kind {
                    v.copy()
                } else {
                    default
                }
            },
            None => default,
        }
    }

    /// The value at `path` when it has the given kind, otherwise that kind's
    /// default value.
    pub fn get_or_default(&self, path: &[&str], kind: ValueKind) -> (r: Value)
        ensures
            r@ == found_or(get_spec(self@, path_view(path@)), Some(kind), default_of(kind)),
    {
        let d = default_value(kind);
        self.get_or(path, d)
    }
}

} // verus!
