use vstd::prelude::*;

use crate::table::{
    has_name, lemma_map_at, lemma_map_push, lemma_map_remove, map_of, names_distinct, position_of,
};

verus! {

/// A JSON document. Numbers keep their decimal text.
#[derive(Debug, PartialEq)]
pub enum Json {
    Null,
    Bool(bool),
    Number(String),
    Text(String),
    Array(Vec<Json>),
    Object(Vec<(String, Json)>),
}

/// Two documents with the same content, member for member and in the same order.
pub open spec fn same_json(a: Json, b: Json) -> bool
    decreases a,
{
    match a {
        Json::Null => b is Null,
        Json::Bool(x) => b is Bool && b->Bool_0 == x,
        Json::Number(x) => b is Number && b->Number_0@ == x@,
        Json::Text(x) => b is Text && b->Text_0@ == x@,
        Json::Array(x) => match b {
            Json::Array(y) => x.len() == y.len() && forall|i: int|
                0 <= i < x.len() ==> same_json(#[trigger] x@[i], y@[i]),
            _ => false,
        },
        Json::Object(x) => match b {
            Json::Object(y) => x.len() == y.len() && forall|i: int|
                0 <= i < x.len() ==> (#[trigger] x@[i]).0@ == y@[i].0@ && same_json(
                    x@[i].1,
                    y@[i].1,
                ),
            _ => false,
        },
    }
}

/// The members of an object, by name; nothing for any other document.
pub open spec fn members(j: Json) -> Map<Seq<char>, Json> {
    match j {
        Json::Object(f) => map_of(f@),
        _ => Map::empty(),
    }
}

/// No object anywhere in the document has two members of one name.
pub open spec fn well_named(j: Json) -> bool
    decreases j,
{
    match j {
        Json::Array(v) => forall|i: int| 0 <= i < v.len() ==> well_named(#[trigger] v@[i]),
        Json::Object(f) => names_distinct(f@) && forall|i: int|
            0 <= i < f.len() ==> well_named((#[trigger] f@[i]).1),
        _ => true,
    }
}

/// `r` is `t` with `s` merged into it: where both are objects, each member of
/// `s` is merged into the member of `t` of the same name when both are objects,
/// and replaces it (or is added) otherwise; members of `t` that `s` does not
/// name are kept as they are. Where either is not an object, `t` is kept.
pub open spec fn merge_holds(t: Json, s: Json, r: Json) -> bool
    decreases s,
{
    match s {
        Json::Object(sf) => if t is Object {
            &&& r is Object
            &&& forall|k: Seq<char>|
                #[trigger] members(r).contains_key(k) <==> members(t).contains_key(k)
                    || has_name(sf@, k)
            &&& forall|k: Seq<char>|
                #[trigger] members(t).contains_key(k) && !has_name(sf@, k) ==> members(r)[k]
                    == members(t)[k]
            &&& forall|i: int|
                0 <= i < sf.len() ==> {
                    let k = (#[trigger] sf@[i]).0@;
                    if members(t).contains_key(k) && members(t)[k] is Object && sf@[i].1 is Object {
                        merge_holds(members(t)[k], sf@[i].1, members(r)[k])
                    } else {
                        same_json(sf@[i].1, members(r)[k])
                    }
                }
        } else {
            r == t
        },
        _ => r == t,
    }
}

impl Json {
    /// The member `name` of an object; nothing for any other document.
    pub fn get(&self, name: &str) -> (r: Option<&Json>)
        ensures
            well_named(*self) ==> match r {
                Some(v) => members(*self).contains_key(name@) && *v == members(*self)[name@],
                None => !members(*self).contains_key(name@),
            },
    {
        match self {
            Json::Object(f) => match position_of(f, name) {
                Some(p) => {
                    proof {
                        if well_named(*self) {
                            lemma_map_at(f@, p as int);
                        }
                    }
                    Some(&f[p].1)
                },
                None => None,
            },
            _ => None,
        }
    }

    /// A copy of the document.
    pub fn copy(&self) -> (r: Json)
        ensures
            same_json(*self, r),
            well_named(*self) ==> well_named(r),
        decreases self,
    {
        match *self {
            Json::Null => Json::Null,
            Json::Bool(b) => Json::Bool(b),
            Json::Number(ref n) => Json::Number(n.clone()),
            Json::Text(ref t) => Json::Text(t.clone()),
            Json::Array(ref v) => {
                let mut out: Vec<Json> = Vec::new();
                let mut i: usize = 0;
                while i < v.len()
                    invariant
                        *self == Json::Array(*v),
                        i <= v.len(),
                        out.len() == i,
                        forall|j: int| 0 <= j < i ==> #[trigger] same_json(v@[j], out@[j]),
                        forall|j: int|
                            0 <= j < i ==> well_named(v@[j]) ==> #[trigger] well_named(out@[j]),
                    decreases v.len() - i,
                {
                    proof {
                        assert(decreases_to!(*self => (*self)->Array_0));
                        assert(decreases_to!(*v => v[i as int]));
                        assert(decreases_to!(*self => v[i as int]));
                    }
                    let c = v[i].copy();
                    out.push(c);
                    i = i + 1;
                }
                proof {
                    let r = Json::Array(out);
                    assert forall|j: int| 0 <= j < v.len() implies same_json(#[trigger] v@[j], out@[j]) by {}
                    assert(same_json(*self, r));
                    if well_named(*self) {
                        assert forall|j: int| 0 <= j < out.len() implies well_named(#[trigger] out@[j]) by {
                            assert(well_named(v@[j]));
                        }
                        assert(well_named(r));
                    }
                }
                Json::Array(out)
            },
            Json::Object(ref f) => {
                let mut out: Vec<(String, Json)> = Vec::new();
                let mut i: usize = 0;
                while i < f.len()
                    invariant
                        *self == Json::Object(*f),
                        i <= f.len(),
                        out.len() == i,
                        forall|j: int|
                            0 <= j < i ==> (#[trigger] f@[j]).0@ == out@[j].0@ && same_json(
                                f@[j].1,
                                out@[j].1,
                            ),
                        forall|j: int|
                            0 <= j < i ==> well_named(f@[j].1) ==> #[trigger] well_named(
                                out@[j].1,
                            ),
                    decreases f.len() - i,
                {
                    proof {
                        assert(decreases_to!(*self => (*self)->Object_0));
                        assert(decreases_to!(*f => f[i as int]));
                        assert(decreases_to!(f[i as int] => f[i as int].1));
                        assert(decreases_to!(*self => f[i as int].1));
                        assert(well_named(*self) ==> well_named(f@[i as int].1));
                    }
                    let c = f[i].1.copy();
                    out.push((f[i].0.clone(), c));
                    i = i + 1;
                }
                proof {
                    if well_named(*self) {
                        assert forall|a: int, b: int|
                            0 <= a < out.len() && 0 <= b < out.len() && a != b implies (
                            #[trigger] out@[a]).0@ != (#[trigger] out@[b]).0@ by {
                            assert(f@[a].0@ == out@[a].0@);
                            assert(f@[b].0@ == out@[b].0@);
                        }
                        assert forall|j: int| 0 <= j < out.len() implies well_named(
                            (#[trigger] out@[j]).1,
                        ) by {
                            assert(well_named(f@[j].1));
                        }
                        assert(well_named(Json::Object(out)));
                    }
                }
                Json::Object(out)
            },
        }
    }
}

/// Merges `source` into `target` (see `merge_holds`).
pub fn deep_merge(target: &mut Json, source: &Json)
    requires
        well_named(*old(target)),
        well_named(*source),
    ensures
        merge_holds(*old(target), *source, *final(target)),
        well_named(*final(target)),
{
    let mut t = Json::Null;
    core::mem::swap(target, &mut t);
    let r = merged(t, source);
    *target = r;
}

fn merged(t: Json, s: &Json) -> (r: Json)
    requires
        well_named(t),
        well_named(*s),
    ensures
        merge_holds(t, *s, r),
        well_named(r),
    decreases s,
{
    let ghost t0 = t;
    match s {
        Json::Object(sf) => {
            match t {
                Json::Object(tf) => {
                    let ghost tm = map_of(tf@);
                    let mut rf = tf;
                    let mut i: usize = 0;
                    proof {
                        assert forall|k: Seq<char>|
                            #[trigger] map_of(rf@).contains_key(k) implies well_named(
                            map_of(rf@)[k],
                        ) by {
                            let j = choose|j: int| 0 <= j < rf.len() && (#[trigger] rf@[j]).0@ == k;
                            lemma_map_at(rf@, j);
                            assert(well_named(rf@[j].1));
                        }
                    }
                    while i < sf.len()
                        invariant
                            i <= sf.len(),
                            names_distinct(sf@),
                            forall|j: int| 0 <= j < sf.len() ==> #[trigger] well_named(sf@[j].1),
                            tm == members(t0),
                            *s == Json::Object(*sf),
                            t0 is Object,
                            names_distinct(rf@),
                            forall|k: Seq<char>|
                                #[trigger] map_of(rf@).contains_key(k) ==> well_named(
                                    map_of(rf@)[k],
                                ),
                            forall|k: Seq<char>|
                                #[trigger] map_of(rf@).contains_key(k) <==> tm.contains_key(k)
                                    || has_name(sf@.take(i as int), k),
                            forall|k: Seq<char>|
                                #[trigger] tm.contains_key(k) && !has_name(sf@.take(i as int), k)
                                    ==> map_of(rf@)[k] == tm[k],
                            forall|j: int|
                                0 <= j < i ==> {
                                    let k = (#[trigger] sf@[j]).0@;
                                    if tm.contains_key(k) && tm[k] is Object && sf@[j].1 is Object {
                                        merge_holds(tm[k], sf@[j].1, map_of(rf@)[k])
                                    } else {
                                        same_json(sf@[j].1, map_of(rf@)[k])
                                    }
                                },
                        decreases sf.len() - i,
                    {
                        let name = &sf[i].0;
                        let sv = &sf[i].1;
                        let ghost before = rf@;
                        let ghost k = name@;
                        proof {
                            assert(!has_name(sf@.take(i as int), k)) by {
                                if has_name(sf@.take(i as int), k) {
                                    let j = choose|j: int|
                                        0 <= j < sf@.take(i as int).len() && (#[trigger] sf@.take(
                                            i as int,
                                        )[j]).0@ == k;
                                    assert(sf@[j].0@ == k);
                                }
                            }
                        }
                        let found = position_of(&rf, name.as_str());
                        let new_v = match found {
                            Some(p) => {
                                proof {
                                    lemma_map_at(rf@, p as int);
                                    lemma_map_remove(rf@, p as int);
                                }
                                let both = match (&rf[p].1, sv) {
                                    (Json::Object(_), Json::Object(_)) => true,
                                    _ => false,
                                };
                                let (_n, old_v) = rf.remove(p);
                                if both {
                                    proof {
                                        assert(decreases_to!(*s => (*s)->Object_0));
                                        assert(decreases_to!(*sf => sf[i as int]));
                                        assert(decreases_to!(sf[i as int] => sf[i as int].1));
                                        assert(decreases_to!(*s => sf[i as int].1));
                                    }
                                    merged(old_v, sv)
                                } else {
                                    sv.copy()
                                }
                            },
                            None => sv.copy(),
                        };
                        let ghost mid = rf@;
                        let entry = (name.clone(), new_v);
                        proof {
                            assert(!has_name(mid, k)) by {
                                if has_name(mid, k) {
                                    let j = choose|j: int| 0 <= j < mid.len() && (#[trigger] mid[j]).0@ == k;
                                    lemma_map_at(mid, j);
                                }
                            }
                            lemma_map_push(mid, entry);
                        }
                        rf.push(entry);
                        proof {
                            assert(map_of(rf@) == map_of(before).remove(k).insert(k, entry.1));
                            assert forall|kk: Seq<char>|
                                has_name(sf@.take(i + 1), kk) <==> has_name(sf@.take(i as int), kk)
                                    || kk == k by {
                                if has_name(sf@.take(i + 1), kk) {
                                    let j = choose|j: int|
                                        0 <= j < sf@.take(i + 1).len() && (#[trigger] sf@.take(
                                            i + 1,
                                        )[j]).0@ == kk;
                                    if j < i {
                                        assert(sf@.take(i as int)[j] == sf@.take(i + 1)[j]);
                                    }
                                }
                                if has_name(sf@.take(i as int), kk) {
                                    let j = choose|j: int|
                                        0 <= j < sf@.take(i as int).len() && (#[trigger] sf@.take(
                                            i as int,
                                        )[j]).0@ == kk;
                                    assert(sf@.take(i + 1)[j] == sf@.take(i as int)[j]);
                                }
                                if kk == k {
                                    assert(sf@.take(i + 1)[i as int] == sf@[i as int]);
                                }
                            }
                            assert forall|j: int| 0 <= j < i + 1 implies {
                                let kj = (#[trigger] sf@[j]).0@;
                                if tm.contains_key(kj) && tm[kj] is Object && sf@[j].1 is Object {
                                    merge_holds(tm[kj], sf@[j].1, map_of(rf@)[kj])
                                } else {
                                    same_json(sf@[j].1, map_of(rf@)[kj])
                                }
                            } by {
                                if j < i {
                                    assert(sf@[j].0@ != k);
                                }
                            }
                        }
                        i = i + 1;
                    }
                    proof {
                        assert(sf@.take(sf.len() as int) =~= sf@);
                        assert forall|a: int| 0 <= a < rf.len() implies well_named(
                            (#[trigger] rf@[a]).1,
                        ) by {
                            lemma_map_at(rf@, a);
                        }
                        assert(well_named(Json::Object(rf)));
                        let r = Json::Object(rf);
                        assert(members(r) == map_of(rf@));
                    }
                    Json::Object(rf)
                },
                other => other,
            }
        },
        _ => t,
    }
}

/// An object is well named when its names are distinct and each member is.
pub proof fn lemma_object_well_named(f: Vec<(String, Json)>)
    requires
        names_distinct(f@),
        forall|k: Seq<char>| #[trigger] map_of(f@).contains_key(k) ==> well_named(map_of(f@)[k]),
    ensures
        well_named(Json::Object(f)),
{
    assert forall|a: int| 0 <= a < f.len() implies well_named((#[trigger] f@[a]).1) by {
        lemma_map_at(f@, a);
    }
}

/// Sets the member `name` of the object `fields` to `value`.
pub fn set_member(fields: &mut Vec<(String, Json)>, name: String, value: Json)
    requires
        names_distinct(old(fields)@),
    ensures
        names_distinct(final(fields)@),
        map_of(final(fields)@) == map_of(old(fields)@).insert(name@, value),
{
    match position_of(fields, name.as_str()) {
        Some(p) => {
            proof {
                lemma_map_at(fields@, p as int);
                lemma_map_remove(fields@, p as int);
            }
            fields.remove(p);
        },
        None => {
            proof {
                assert(map_of(fields@).remove(name@) =~= map_of(fields@));
            }
        },
    }
    let ghost mid = fields@;
    proof {
        if has_name(mid, name@) {
            let j = choose|j: int| 0 <= j < mid.len() && (#[trigger] mid[j]).0@ == name@;
            lemma_map_at(mid, j);
        }
        lemma_map_push(mid, (name, value));
        assert(map_of(old(fields)@).remove(name@).insert(name@, value) =~= map_of(old(fields)@).insert(name@, value));
    }
    fields.push((name, value));
}

/// Removes the member `name` from the object `fields`, if present.
pub fn remove_member(fields: &mut Vec<(String, Json)>, name: &str)
    requires
        names_distinct(old(fields)@),
    ensures
        names_distinct(final(fields)@),
        map_of(final(fields)@) == map_of(old(fields)@).remove(name@),
{
    match position_of(fields, name) {
        Some(p) => {
            proof {
                lemma_map_at(fields@, p as int);
                lemma_map_remove(fields@, p as int);
            }
            fields.remove(p);
        },
        None => {
            proof {
                assert(map_of(fields@).remove(name@) =~= map_of(fields@));
            }
        },
    }
}

} // verus!
