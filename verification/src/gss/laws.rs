//! What holds of every lookup and every parse.

use vstd::prelude::*;
use crate::gss::grammar::{build_object, first_repeat, first_repeat_from, occurs_before, parse_document, parse_object, Toks};
use crate::gss::lookup::{follow, get_spec, lookup_field, resolve, walk};
use crate::gss::model::{ExprModel, ObjectModel, ValueModel};

verus! {

proof fn lemma_resolve_not_ref(root: ObjectModel, path: Seq<Seq<char>>, depth: nat, max: nat)
    ensures
        !(resolve(root, path, depth, max) matches Some(ValueModel::Ref(_))),
    decreases max - depth, path.len() + 1,
{
    if !(depth >= max || path.len() == 0) {
        lemma_walk_not_ref(root, root, path, 0, depth, max);
    }
}

proof fn lemma_follow_not_ref(root: ObjectModel, holder: ObjectModel, e: ExprModel, depth: nat, max: nat)
    ensures
        !(follow(root, holder, e, depth, max) matches Some(ValueModel::Ref(_))),
    decreases max - depth, 0int,
{
    if depth < max {
        match e {
            ExprModel::Symbol(s) => lemma_resolve_not_ref(root, seq![s], depth + 1, max),
            ExprModel::Access(p) => lemma_resolve_not_ref(root, p, depth + 1, max),
            ExprModel::RelAccess(p) => lemma_resolve_not_ref(holder, p, depth + 1, max),
        }
    }
}

proof fn lemma_walk_not_ref(
    root: ObjectModel,
    obj: ObjectModel,
    path: Seq<Seq<char>>,
    i: nat,
    depth: nat,
    max: nat,
)
    ensures
        !(walk(root, obj, path, i, depth, max) matches Some(ValueModel::Ref(_))),
    decreases max - depth, path.len() - i,
{
    if !(depth >= max || i >= path.len()) {
        match lookup_field(obj.fields, path[i as int]) {
            None => {},
            Some(v) => if i + 1 == path.len() {
                match v {
                    ValueModel::Ref(e) => lemma_follow_not_ref(root, obj, e, depth, max),
                    _ => {},
                }
            } else {
                match v {
                    ValueModel::Obj(o) => lemma_walk_not_ref(root, o, path, i + 1, depth, max),
                    ValueModel::Ref(e) => {
                        lemma_follow_not_ref(root, obj, e, depth, max);
                        match follow(root, obj, e, depth, max) {
                            Some(ValueModel::Obj(o)) => lemma_walk_not_ref(
                                root,
                                o,
                                path,
                                i + 1,
                                depth,
                                max,
                            ),
                            _ => {},
                        }
                    },
                    _ => {},
                }
            },
        }
    }
}

/// A lookup never yields a reference: references on the way are followed,
/// and one that cannot be followed within the depth limit yields nothing.
pub proof fn law_lookup_never_ref(obj: ObjectModel, path: Seq<Seq<char>>)
    ensures
        !(get_spec(obj, path) matches Some(ValueModel::Ref(_))),
{
    lemma_resolve_not_ref(obj, path, 0, obj.max_depth);
}

/// A key that holds a plain value (not a reference) is read back as that
/// value, whenever the depth limit allows any lookup at all.
pub proof fn law_direct_field(obj: ObjectModel, key: Seq<char>, v: ValueModel)
    requires
        obj.max_depth > 0,
        lookup_field(obj.fields, key) == Some(v),
        !(v is Ref),
    ensures
        get_spec(obj, seq![key]) == Some(v),
{
    assert(seq![key][0] == key);
}

/// A key that names another key of the same object (`a = b`) reads as that
/// key's plain value, when the depth limit allows following one reference.
pub proof fn law_symbol_reference(obj: ObjectModel, key: Seq<char>, target: Seq<char>, v: ValueModel)
    requires
        obj.max_depth > 1,
        lookup_field(obj.fields, key) == Some(ValueModel::Ref(ExprModel::Symbol(target))),
        lookup_field(obj.fields, target) == Some(v),
        !(v is Ref),
    ensures
        get_spec(obj, seq![key]) == Some(v),
{
    let max = obj.max_depth;
    assert(seq![key][0] == key);
    assert(seq![target][0] == target);
    assert(walk(obj, obj, seq![target], 0, 1, max) == Some(v));
    assert(resolve(obj, seq![target], 1, max) == Some(v));
    assert(follow(obj, obj, ExprModel::Symbol(target), 0, max) == Some(v));
    assert(walk(obj, obj, seq![key], 0, 0, max) == Some(v));
}

proof fn lemma_self_reference(obj: ObjectModel, key: Seq<char>, depth: nat)
    requires
        lookup_field(obj.fields, key) == Some(ValueModel::Ref(ExprModel::Symbol(key))),
    ensures
        resolve(obj, seq![key], depth, obj.max_depth) is None,
    decreases obj.max_depth - depth,
{
    let max = obj.max_depth;
    if depth < max {
        assert(seq![key][0] == key);
        lemma_self_reference(obj, key, depth + 1);
        assert(follow(obj, obj, ExprModel::Symbol(key), depth, max) is None);
        assert(walk(obj, obj, seq![key], 0, depth, max) is None);
    }
}

/// A key that names itself (`a = a`) reads as nothing, whatever the depth
/// limit: the cycle is cut off.
pub proof fn law_self_reference(obj: ObjectModel, key: Seq<char>)
    requires
        lookup_field(obj.fields, key) == Some(ValueModel::Ref(ExprModel::Symbol(key))),
    ensures
        get_spec(obj, seq![key]) is None,
{
    lemma_self_reference(obj, key, 0);
}

proof fn lemma_no_repeat_from(keys: Seq<Seq<char>>, j: int)
    requires
        0 <= j,
        first_repeat_from(keys, j) is None,
    ensures
        forall|i: int| j <= i < keys.len() ==> !occurs_before(keys, i),
    decreases keys.len() - j,
{
    if j < keys.len() {
        lemma_no_repeat_from(keys, j + 1);
    }
}

/// Keys in which no key occurs before its index are distinct.
pub proof fn lemma_no_repeat_distinct(keys: Seq<Seq<char>>)
    requires
        first_repeat(keys) is None,
    ensures
        keys.no_duplicates(),
{
    lemma_no_repeat_from(keys, 0);
    assert forall|i: int, j: int| 0 <= i < keys.len() && 0 <= j < keys.len() && i != j implies keys[i]
        != keys[j] by {
        if i < j {
            assert(!occurs_before(keys, j));
        } else {
            assert(!occurs_before(keys, i));
        }
    }
}

/// The keys of an object, in document order.
pub open spec fn object_keys(o: ObjectModel) -> Seq<Seq<char>> {
    o.fields.map_values(|f: (Seq<char>, ValueModel)| f.0)
}

/// An object that parsing builds never holds a key twice.
pub proof fn law_built_keys_distinct(fields: Seq<(Seq<char>, ValueModel)>, o: ObjectModel)
    requires
        build_object(fields) == Ok::<_, crate::gss::grammar::ParseErrorModel>(o),
    ensures
        object_keys(o).no_duplicates(),
{
    let keys = fields.map_values(|f: (Seq<char>, ValueModel)| f.0);
    assert(first_repeat(keys) is None);
    lemma_no_repeat_distinct(keys);
    assert(object_keys(o) == keys);
}

/// A parsed document never holds a top-level key twice.
pub proof fn law_document_keys_distinct(toks: Toks, o: ObjectModel)
    requires
        parse_document(toks) == Ok::<_, crate::gss::grammar::ParseErrorModel>(o),
    ensures
        object_keys(o).no_duplicates(),
{
    if o.fields.len() > 0 {
        let f = choose|fs: Seq<(Seq<char>, ValueModel)>| build_object(fs) == Ok::<_, crate::gss::grammar::ParseErrorModel>(o);
        law_built_keys_distinct(f, o);
    }
}

/// A parsed object never holds a key twice.
pub proof fn law_object_keys_distinct(toks: Toks, i: int, o: ObjectModel, next: int)
    requires
        parse_object(toks, i) == Ok::<_, (crate::gss::grammar::ParseErrorModel, int)>((o, next)),
    ensures
        object_keys(o).no_duplicates(),
{
    if o.fields.len() > 0 {
        let f = choose|fs: Seq<(Seq<char>, ValueModel)>| build_object(fs) == Ok::<_, crate::gss::grammar::ParseErrorModel>(o);
        law_built_keys_distinct(f, o);
    }
}

/// A reference `a.b...` (without a leading dot) is looked up from the root of
/// the document, wherever it is held: reading it costs one reference and
/// gives the lookup of its path from the root, and two objects that hold the
/// same reference under the same key read it alike, whatever else they hold.
pub proof fn law_access_reads_from_root(
    root: ObjectModel,
    holder: ObjectModel,
    other: ObjectModel,
    path: Seq<Seq<char>>,
    i: nat,
    depth: nat,
    max: nat,
    p: Seq<Seq<char>>,
)
    requires
        depth < max,
        i + 1 == path.len(),
        lookup_field(holder.fields, path[i as int]) == Some(ValueModel::Ref(ExprModel::Access(p))),
        lookup_field(other.fields, path[i as int]) == Some(ValueModel::Ref(ExprModel::Access(p))),
    ensures
        walk(root, holder, path, i, depth, max) == resolve(root, p, depth + 1, max),
        walk(root, holder, path, i, depth, max) == walk(root, other, path, i, depth, max),
{
    let e = ExprModel::Access(p);
    assert(follow(root, holder, e, depth, max) == resolve(root, p, depth + 1, max));
    assert(follow(root, other, e, depth, max) == resolve(root, p, depth + 1, max));
    assert(walk(root, holder, path, i, depth, max) == follow(root, holder, e, depth, max));
    assert(walk(root, other, path, i, depth, max) == follow(root, other, e, depth, max));
}

/// A reference `a.b...` held by an object nested under a top-level key
/// reads, through `Object::get`, as its path looked up from the document's
/// root (with one reference spent), not from the object that holds it.
pub proof fn law_nested_access_reads_from_root(
    root: ObjectModel,
    outer: Seq<char>,
    inner: ObjectModel,
    key: Seq<char>,
    p: Seq<Seq<char>>,
)
    requires
        root.max_depth > 0,
        lookup_field(root.fields, outer) == Some(ValueModel::Obj(inner)),
        lookup_field(inner.fields, key) == Some(ValueModel::Ref(ExprModel::Access(p))),
    ensures
        get_spec(root, seq![outer, key]) == resolve(root, p, 1, root.max_depth),
{
    let path = seq![outer, key];
    let max = root.max_depth;
    assert(path[0] == outer);
    assert(path[1] == key);
    let e = ExprModel::Access(p);
    assert(follow(root, inner, e, 0, max) == resolve(root, p, 1, max));
    assert(walk(root, inner, path, 1, 0, max) == follow(root, inner, e, 0, max));
    assert(walk(root, root, path, 0, 0, max) == walk(root, inner, path, 1, 0, max));
    assert(resolve(root, path, 0, max) == walk(root, root, path, 0, 0, max));
}

} // verus!
