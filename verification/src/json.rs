//! A JSON value type of the library, used for structured data and payloads.

use vstd::prelude::*;

use crate::order::{lemma_lex_total, lex_lt, str_lt};

verus! {

/// A JSON value. Numbers keep their JSON text; objects keep one entry per key.
#[derive(Debug)]
pub enum Json {
    Null,
    Bool(bool),
    Number(String),
    Str(String),
    Array(Vec<Json>),
    Object(Vec<(String, Json)>),
}

/// The mathematical value of a [`Json`].
pub enum JsonV {
    Null,
    Bool(bool),
    Number(Seq<char>),
    Str(Seq<char>),
    Array(Seq<JsonV>),
    Object(Seq<(Seq<char>, JsonV)>),
}

pub open spec fn jv(j: Json) -> JsonV
    decreases j,
{
    match j {
        Json::Null => JsonV::Null,
        Json::Bool(b) => JsonV::Bool(b),
        Json::Number(n) => JsonV::Number(n@),
        Json::Str(s) => JsonV::Str(s@),
        Json::Array(v) => JsonV::Array(
            Seq::new(
                v@.len(),
                |i: int|
                    {
                        if 0 <= i < v@.len() {
                            proof {
                                assert(decreases_to!(j => v));
                                assert(decreases_to!(v => v@));
                                assert(decreases_to!(v@ => v@[i]));
                            }
                            jv(v@[i])
                        } else {
                            JsonV::Null
                        }
                    },
            ),
        ),
        Json::Object(v) => JsonV::Object(
            Seq::new(
                v@.len(),
                |i: int|
                    {
                        if 0 <= i < v@.len() {
                            proof {
                                assert(decreases_to!(j => v));
                                assert(decreases_to!(v => v@));
                                assert(decreases_to!(v@ => v@[i]));
                                assert(decreases_to!(v@[i] => v@[i].1));
                            }
                            (v@[i].0@, jv(v@[i].1))
                        } else {
                            (Seq::empty(), JsonV::Null)
                        }
                    },
            ),
        ),
    }
}

/// The values of object entries.
pub open spec fn entries_v(es: Seq<(String, Json)>) -> Seq<(Seq<char>, JsonV)> {
    es.map_values(|e: (String, Json)| (e.0@, jv(e.1)))
}

/// A copy of a JSON value.
pub fn json_clone(j: &Json) -> (r: Json)
    ensures
        jv(r) == jv(*j),
    decreases j,
{
    match j {
        Json::Null => Json::Null,
        Json::Bool(b) => Json::Bool(*b),
        Json::Number(n) => Json::Number(n.clone()),
        Json::Str(t) => Json::Str(t.clone()),
        Json::Array(items) => {
            let mut out: Vec<Json> = Vec::new();
            let mut i: usize = 0;
            while i < items.len()
                invariant
                    i <= items@.len(),
                    out@.len() == i,
                    *j == Json::Array(*items),
                    forall|k: int| 0 <= k < i ==> jv(#[trigger] out@[k]) == jv(items@[k]),
                decreases items.len() - i,
            {
                proof {
                    assert(*items == (*j)->Array_0);
                    assert(decreases_to!(*j => (*j)->Array_0));
                    assert(decreases_to!(*items => items@));
                    assert(decreases_to!(items@ => items@[i as int]));
                }
                let c = json_clone(&items[i]);
                out.push(c);
                i += 1;
            }
            let r = Json::Array(out);
            proof {
                let sa = jv(r)->Array_0;
                let sb = jv(*j)->Array_0;
                assert(sa.len() == sb.len());
                assert forall|k: int| 0 <= k < sa.len() implies sa[k] == sb[k] by {
                    assert(sa[k] == jv(out@[k]));
                    assert(sb[k] == jv(items@[k]));
                }
                assert(sa =~= sb);
            }
            r
        },
        Json::Object(es) => {
            let mut out: Vec<(String, Json)> = Vec::new();
            let mut i: usize = 0;
            while i < es.len()
                invariant
                    i <= es@.len(),
                    out@.len() == i,
                    *j == Json::Object(*es),
                    forall|k: int|
                        0 <= k < i ==> (#[trigger] out@[k]).0@ == es@[k].0@ && jv(out@[k].1) == jv(
                            es@[k].1,
                        ),
                decreases es.len() - i,
            {
                proof {
                    assert(*es == (*j)->Object_0);
                    assert(decreases_to!(*j => (*j)->Object_0));
                    assert(decreases_to!(*es => es@));
                    assert(decreases_to!(es@ => es@[i as int]));
                    assert(decreases_to!(es@[i as int] => es@[i as int].1));
                }
                let c = json_clone(&es[i].1);
                out.push((es[i].0.clone(), c));
                i += 1;
            }
            let r = Json::Object(out);
            proof {
                let sa = jv(r)->Object_0;
                let sb = jv(*j)->Object_0;
                assert(sa.len() == sb.len());
                assert forall|k: int| 0 <= k < sa.len() implies sa[k] == sb[k] by {
                    assert(sa[k] == (out@[k].0@, jv(out@[k].1)));
                    assert(sb[k] == (es@[k].0@, jv(es@[k].1)));
                }
                assert(sa =~= sb);
            }
            r
        },
    }
}

/// Map insertion into entries kept sorted by key: the entry for `k` is
/// replaced, or a new one goes before the first greater key.
pub open spec fn obj_insert(es: Seq<(Seq<char>, JsonV)>, k: Seq<char>, v: JsonV) -> Seq<
    (Seq<char>, JsonV),
>
    decreases es.len(),
{
    if es.len() == 0 {
        seq![(k, v)]
    } else if es[0].0 == k {
        seq![(k, v)] + es.skip(1)
    } else if lex_lt(k, es[0].0) {
        seq![(k, v)] + es
    } else {
        seq![es[0]] + obj_insert(es.skip(1), k, v)
    }
}

proof fn lemma_obj_insert_at(es: Seq<(Seq<char>, JsonV)>, k: Seq<char>, v: JsonV, i: int)
    requires
        0 <= i <= es.len(),
        forall|j: int| 0 <= j < i ==> lex_lt(#[trigger] es[j].0, k),
    ensures
        obj_insert(es, k, v) == es.take(i) + obj_insert(es.skip(i), k, v),
    decreases i,
{
    if i == 0 {
        assert(es.skip(0) =~= es);
        assert(es.take(0) + obj_insert(es, k, v) =~= obj_insert(es, k, v));
    } else {
        assert(lex_lt(es[0].0, k));
        crate::order::lemma_lex_irreflexive(k);
        if lex_lt(k, es[0].0) {
            crate::order::lemma_lex_transitive(k, es[0].0, k);
        }
        let t = es.skip(1);
        assert forall|j: int| 0 <= j < i - 1 implies lex_lt(#[trigger] t[j].0, k) by {
            assert(t[j] == es[j + 1]);
        }
        lemma_obj_insert_at(t, k, v, i - 1);
        assert(t.skip(i - 1) =~= es.skip(i));
        assert(seq![es[0]] + t.take(i - 1) =~= es.take(i));
    }
}

/// Inserts `key: value` into object entries kept sorted by key.
pub fn json_insert(es: &mut Vec<(String, Json)>, key: String, value: Json)
    ensures
        entries_v(final(es)@) == obj_insert(entries_v(old(es)@), key@, jv(value)),
{
    let ghost ev = entries_v(es@);
    let mut i: usize = 0;
    while i < es.len() && str_lt(es[i].0.as_str(), key.as_str())
        invariant
            i <= es@.len(),
            ev == entries_v(es@),
            forall|j: int| 0 <= j < i ==> lex_lt(#[trigger] ev[j].0, key@),
        decreases es.len() - i,
    {
        assert(ev[i as int].0 == es@[i as int].0@);
        i += 1;
    }
    proof {
        lemma_obj_insert_at(ev, key@, jv(value), i as int);
    }
    let ghost kv = key@;
    let ghost vv = jv(value);
    if i < es.len() && es[i].0 == key {
        proof {
            assert(ev.skip(i as int)[0] == ev[i as int]);
        }
        es.set(i, (key, value));
        assert(entries_v(es@) =~= ev.take(i as int) + (seq![(kv, vv)] + ev.skip(i as int).skip(1)));
    } else {
        proof {
            if i < ev.len() {
                assert(ev.skip(i as int)[0] == ev[i as int]);
                assert(ev[i as int].0 == es@[i as int].0@);
                lemma_lex_total(kv, ev[i as int].0);
            }
        }
        es.insert(i, (key, value));
        assert(entries_v(es@) =~= ev.take(i as int) + (seq![(kv, vv)] + ev.skip(i as int)));
    }
}

pub proof fn lemma_jv_object(es: Vec<(String, Json)>)
    ensures
        jv(Json::Object(es)) == JsonV::Object(entries_v(es@)),
{
    let sa = jv(Json::Object(es))->Object_0;
    assert(sa =~= entries_v(es@));
}

/// Appends `key: value` to object entries (before they are made an object).
pub fn push_entry(es: &mut Vec<(String, Json)>, key: &str, value: Json)
    ensures
        entries_v(final(es)@) == entries_v(old(es)@).push((key@, jv(value))),
{
    let ghost before = entries_v(es@);
    let ghost v = jv(value);
    es.push((key.to_string(), value));
    assert(entries_v(es@) =~= before.push((key@, v)));
}

/// The entries of an object built by inserting `es` in order.
pub open spec fn object_from(es: Seq<(Seq<char>, JsonV)>) -> Seq<(Seq<char>, JsonV)>
    decreases es.len(),
{
    if es.len() == 0 {
        seq![]
    } else {
        obj_insert(object_from(es.drop_last()), es.last().0, es.last().1)
    }
}

/// The object made by inserting `entries` in order (a later key replaces an
/// earlier one; entries end up sorted by key).
pub fn json_object(entries: Vec<(String, Json)>) -> (r: Json)
    ensures
        jv(r) == JsonV::Object(object_from(entries_v(entries@))),
{
    let mut es: Vec<(String, Json)> = Vec::new();
    let mut rest = entries;
    let ghost all = entries_v(rest@);
    let n = rest.len();
    proof {
        assert(all.take(0) =~= Seq::<(Seq<char>, JsonV)>::empty());
        assert(entries_v(es@) =~= Seq::<(Seq<char>, JsonV)>::empty());
        assert(all.skip(0) =~= all);
    }
    while rest.len() > 0
        invariant
            n == all.len(),
            rest@.len() <= n,
            entries_v(rest@) == all.skip(n - rest@.len()),
            entries_v(es@) == object_from(all.take(n - rest@.len())),
        decreases rest@.len(),
    {
        let ghost k = n - rest@.len();
        let ghost before = entries_v(rest@);
        let ghost old_rest = rest@;
        let (key, value) = rest.remove(0);
        proof {
            assert(rest@ =~= old_rest.subrange(1, old_rest.len() as int));
            assert forall|j: int| 0 <= j < rest@.len() implies entries_v(rest@)[j] == before[j
                + 1] by {
                assert(rest@[j] == old_rest[j + 1]);
            }
            assert(before[0] == all[k]);
            assert(all.take(k + 1).drop_last() =~= all.take(k));
            assert(all.take(k + 1).last() == all[k]);
            assert(entries_v(rest@) =~= all.skip(k + 1));
        }
        json_insert(&mut es, key, value);
    }
    proof {
        assert(all.take(n as int) =~= all);
        lemma_jv_object(es);
    }
    Json::Object(es)
}

/// The index of the entry with key `k`, if any.
pub open spec fn obj_index(es: Seq<(Seq<char>, JsonV)>, k: Seq<char>) -> Option<int>
    decreases es.len(),
{
    if es.len() == 0 {
        None
    } else if es.last().0 == k {
        match obj_index(es.drop_last(), k) {
            Some(i) => Some(i),
            None => Some(es.len() - 1),
        }
    } else {
        obj_index(es.drop_last(), k)
    }
}

pub proof fn lemma_obj_index(es: Seq<(Seq<char>, JsonV)>, k: Seq<char>)
    ensures
        match obj_index(es, k) {
            Some(i) => 0 <= i < es.len() && es[i].0 == k && forall|j: int|
                0 <= j < i ==> #[trigger] es[j].0 != k,
            None => forall|j: int| 0 <= j < es.len() ==> #[trigger] es[j].0 != k,
        },
    decreases es.len(),
{
    if es.len() > 0 {
        lemma_obj_index(es.drop_last(), k);
        assert forall|j: int| 0 <= j < es.len() - 1 implies es[j] == es.drop_last()[j] by {}
    }
}

/// The value under key `k` of an object's entries: that of its first entry
/// with the key.
pub open spec fn obj_get(es: Seq<(Seq<char>, JsonV)>, k: Seq<char>) -> Option<JsonV> {
    match obj_index(es, k) {
        Some(i) => Some(es[i].1),
        None => None,
    }
}

/// The value under key `k` of a JSON value, when it is an object that has it.
pub open spec fn field(j: JsonV, k: Seq<char>) -> Option<JsonV> {
    match j {
        JsonV::Object(es) => obj_get(es, k),
        _ => None,
    }
}

/// Inserting `v` under `k` makes `v` the value under `k`, and leaves the
/// value under every other key as it was.
pub proof fn lemma_obj_insert_get(es: Seq<(Seq<char>, JsonV)>, k: Seq<char>, v: JsonV)
    ensures
        obj_get(obj_insert(es, k, v), k) == Some(v),
        forall|k2: Seq<char>| k2 != k ==> #[trigger] obj_get(obj_insert(es, k, v), k2) == obj_get(es, k2),
    decreases es.len(),
{
    let r = obj_insert(es, k, v);
    lemma_obj_index(r, k);
    if es.len() == 0 || es[0].0 == k || lex_lt(k, es[0].0) {
        assert(r[0] == (k, v));
        assert(r[0].0 == k);
        assert(obj_index(r, k) == Some(0int));
        assert(obj_get(r, k) == Some(v));
    }
    if es.len() == 0 {
        assert forall|k2: Seq<char>| k2 != k implies #[trigger] obj_get(r, k2) == obj_get(es, k2) by {
            lemma_obj_index(r, k2);
            lemma_obj_index(es, k2);
        }
    } else if es[0].0 == k {
        assert forall|k2: Seq<char>| k2 != k implies #[trigger] obj_get(r, k2) == obj_get(es, k2) by {
            lemma_obj_index(r, k2);
            lemma_obj_index(es, k2);
            if let Some(i) = obj_index(es, k2) {
                assert(r[i].0 == k2);
            }
            if let Some(i) = obj_index(r, k2) {
                assert(es[i].0 == k2);
            }
        }
    } else if lex_lt(k, es[0].0) {
        assert forall|k2: Seq<char>| k2 != k implies #[trigger] obj_get(r, k2) == obj_get(es, k2) by {
            lemma_obj_index(r, k2);
            lemma_obj_index(es, k2);
            if let Some(i) = obj_index(es, k2) {
                assert(r[i + 1] == es[i]);
            }
            if let Some(i) = obj_index(r, k2) {
                assert(es[i - 1] == r[i]);
            }
        }
    } else {
        let t = es.skip(1);
        lemma_obj_insert_get(t, k, v);
        let rt = obj_insert(t, k, v);
        assert(r == seq![es[0]] + rt);
        lemma_obj_index(rt, k);
        assert(r[0].0 != k);
        assert(obj_get(r, k) == Some(v)) by {
            let i = obj_index(rt, k)->0;
            assert(r[i + 1] == rt[i]);
            assert forall|j: int| 0 <= j < i + 1 implies #[trigger] r[j].0 != k by {
                if j > 0 {
                    assert(r[j] == rt[j - 1]);
                }
            }
            lemma_obj_index(r, k);
        }
        assert forall|k2: Seq<char>| k2 != k implies #[trigger] obj_get(r, k2) == obj_get(es, k2) by {
            lemma_obj_index(r, k2);
            lemma_obj_index(es, k2);
            lemma_obj_index(rt, k2);
            lemma_obj_index(t, k2);
            assert(obj_get(rt, k2) == obj_get(t, k2));
            if es[0].0 != k2 {
                if let Some(i) = obj_index(t, k2) {
                    assert(es[i + 1] == t[i]);
                    let j = obj_index(rt, k2)->0;
                    assert(r[j + 1] == rt[j]);
                }
                if let Some(i) = obj_index(es, k2) {
                    assert(t[i - 1] == es[i]);
                }
                if let Some(i) = obj_index(r, k2) {
                    assert(rt[i - 1] == r[i]);
                }
            }
        }
    }
}

/// `overlay` merged into `base`: objects merge key by key, recursively; any
/// other overlay replaces the base.
pub open spec fn merged(base: JsonV, overlay: JsonV) -> JsonV
    decreases overlay, 0nat,
{
    match overlay {
        JsonV::Object(o) => match base {
            JsonV::Object(b) => {
                proof {
                    assert(decreases_to!(overlay => o));
                }
                JsonV::Object(merged_entries(b, o, o.len()))
            },
            _ => overlay,
        },
        _ => overlay,
    }
}

/// The first `n` overlay entries merged into base entries `b`, in order.
pub open spec fn merged_entries(
    b: Seq<(Seq<char>, JsonV)>,
    o: Seq<(Seq<char>, JsonV)>,
    n: nat,
) -> Seq<(Seq<char>, JsonV)>
    decreases o, n,
{
    if n == 0 || n > o.len() {
        b
    } else {
        let acc = merged_entries(b, o, (n - 1) as nat);
        let k = o[n - 1].0;
        let v = o[n - 1].1;
        match obj_index(acc, k) {
            Some(i) => {
                proof {
                    assert(decreases_to!(o => o[n - 1]));
                    assert(decreases_to!(o[n - 1] => o[n - 1].1));
                }
                if 0 <= i < acc.len() {
                    acc.update(i, (k, merged(acc[i].1, v)))
                } else {
                    acc
                }
            },
            None => obj_insert(acc, k, v),
        }
    }
}

/// The index of the entry with key `k`, if any (executable).
pub fn find_key(es: &Vec<(String, Json)>, k: &String) -> (r: Option<usize>)
    ensures
        match r {
            Some(i) => obj_index(entries_v(es@), k@) == Some(i as int),
            None => obj_index(entries_v(es@), k@) is None,
        },
{
    let ghost ev = entries_v(es@);
    let mut i: usize = 0;
    proof {
        lemma_obj_index(ev, k@);
    }
    while i < es.len()
        invariant
            i <= es@.len(),
            ev == entries_v(es@),
            forall|j: int| 0 <= j < i ==> #[trigger] ev[j].0 != k@,
        decreases es.len() - i,
    {
        assert(ev[i as int].0 == es@[i as int].0@);
        if es[i].0 == *k {
            proof {
                lemma_obj_index(ev, k@);
                match obj_index(ev, k@) {
                    Some(t) => {
                        assert(ev[t].0 == k@);
                        if t < i {
                            assert(ev[t].0 != k@);
                        }
                        if t > i {
                            assert(ev[i as int].0 != k@);
                        }
                        assert(t == i);
                    },
                    None => {
                        assert(ev[i as int].0 != k@);
                    },
                }
            }
            return Some(i);
        }
        i += 1;
    }
    proof {
        lemma_obj_index(ev, k@);
    }
    None
}

/// Merges `overlay` into `base`.
pub fn merge_json(base: Json, overlay: &Json) -> (r: Json)
    ensures
        jv(r) == merged(jv(base), jv(*overlay)),
    decreases overlay,
{
    match overlay {
        Json::Object(o) => match base {
            Json::Object(b) => {
                let mut b = b;
                let ghost bv = entries_v(b@);
                proof {
                    lemma_jv_object(b);
                    lemma_jv_object(*o);
                }
                let ghost ov = entries_v(o@);
                let mut i: usize = 0;
                while i < o.len()
                    invariant
                        i <= o@.len(),
                        *overlay == Json::Object(*o),
                        ov == entries_v(o@),
                        entries_v(b@) == merged_entries(bv, ov, i as nat),
                    decreases o.len() - i,
                {
                    let ghost acc = entries_v(b@);
                    assert(ov[i as int] == (o@[i as int].0@, jv(o@[i as int].1)));
                    match find_key(&b, &o[i].0) {
                        Some(idx) => {
                            proof {
                                lemma_obj_index(acc, o@[i as int].0@);
                                assert(*o == (*overlay)->Object_0);
                                assert(decreases_to!(*overlay => (*overlay)->Object_0));
                                assert(decreases_to!(*o => o@));
                                assert(decreases_to!(o@ => o@[i as int]));
                                assert(decreases_to!(o@[i as int] => o@[i as int].1));
                            }
                            let (kk, old) = b.remove(idx);
                            let m = merge_json(old, &o[i].1);
                            b.insert(idx, (kk, m));
                            assert(entries_v(b@) =~= acc.update(
                                idx as int,
                                (ov[i as int].0, merged(acc[idx as int].1, ov[i as int].1)),
                            ));
                        },
                        None => {
                            let v = json_clone(&o[i].1);
                            json_insert(&mut b, o[i].0.clone(), v);
                        },
                    }
                    i += 1;
                }
                proof {
                    lemma_jv_object(b);
                    lemma_jv_object(*o);
                }
                Json::Object(b)
            },
            other => {
                proof {
                    lemma_jv_object(*o);
                }
                json_clone(overlay)
            },
        },
        _ => json_clone(overlay),
    }
}

} // verus!
