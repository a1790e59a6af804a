//! The validated answer corpus: the answer records of a site, sorted by id and
//! source path, checked for duplicate and dangling references.

use vstd::prelude::*;

use crate::answer::{AnswerAudience, AnswerIntent};
use crate::answers::{page_record, record_less, AnswerRecord, AnswerRecordV};
use crate::diagnostics::strs;
use crate::library::{Library, Page};
use crate::order::{
    insert_sorted_string, lemma_lex_irreflexive, lemma_lex_total, lemma_lex_transitive,
    lemma_strictly_sorted_unique, lex_lt, sort_strings, sorted_strings, str_lt, strictly_sorted,
    values, Ordered,
};
use crate::text::{
    chars_of, extend_str, join, str_eq, join_exec, lowercase, split_whitespace_exec, split_ws, string_of,
    to_lowercase_exec, views,
};

verus! {

// ---------------------------------------------------------------------------
// Keys and duplicate entries
// ---------------------------------------------------------------------------

/// The key two questions or aliases are compared by: words joined by single
/// spaces, lower-cased.
pub open spec fn normalized_key(v: Seq<char>) -> Seq<char> {
    lowercase(join(split_ws(v), " "@))
}

pub fn normalize_key(value: &str) -> (r: String)
    ensures
        r@ == normalized_key(value@),
{
    let chars = chars_of(value);
    let words = split_whitespace_exec(&chars);
    let sep = chars_of(" ");
    let joined = join_exec(&words, &sep);
    let lower = to_lowercase_exec(&joined);
    string_of(&lower)
}

/// The entry at `i` has the same key as an earlier one.
pub open spec fn repeats_earlier(values: Seq<Seq<char>>, i: int) -> bool {
    exists|j: int| 0 <= j < i && normalized_key(values[j]) == normalized_key(values[i])
}

/// `x` occurs in `values` at a position that repeats an earlier key.
pub open spec fn is_duplicate_value(values: Seq<Seq<char>>, x: Seq<char>) -> bool {
    exists|i: int| 0 <= i < values.len() && values[i] == x && repeats_earlier(values, i)
}

/// The duplicate entries of a list, each once, in sorted order.
pub open spec fn duplicate_values(values: Seq<Seq<char>>) -> Seq<Seq<char>> {
    choose|r: Seq<Seq<char>>|
        strictly_sorted::<String>(r) && forall|x: Seq<char>|
            r.contains(x) <==> is_duplicate_value(values, x)
}

/// The entries of a list whose key repeats an earlier entry's key, each once,
/// in sorted order.
pub fn duplicate_entries(list: &Vec<String>) -> (r: Vec<String>)
    ensures
        strs(r@) == duplicate_values(strs(list@)),
{
    let ghost vs = strs(list@);
    let mut seen: Vec<String> = Vec::new();
    let mut dups: Vec<String> = Vec::new();
    let mut i: usize = 0;
    while i < list.len()
        invariant
            i <= list@.len(),
            vs == strs(list@),
            strictly_sorted::<String>(values(dups@)),
            forall|k: Seq<char>|
                strs(seen@).contains(k) <==> exists|j: int|
                    0 <= j < i && #[trigger] normalized_key(vs[j]) == k,
            forall|x: Seq<char>|
                values(dups@).contains(x) <==> exists|m: int|
                    0 <= m < i && vs[m] == x && #[trigger] repeats_earlier(vs, m),
        decreases list.len() - i,
    {
        let key = normalize_key(list[i].as_str());
        let mut found = false;
        let mut j: usize = 0;
        while j < seen.len()
            invariant
                j <= seen@.len(),
                found == exists|t: int| 0 <= t < j && seen@[t]@ == key@,
            decreases seen.len() - j,
        {
            if seen[j] == key {
                found = true;
            }
            j += 1;
        }
        proof {
            assert(found == strs(seen@).contains(key@)) by {
                if found {
                    let t = choose|t: int| 0 <= t < j && seen@[t]@ == key@;
                    assert(strs(seen@)[t] == key@);
                }
                if strs(seen@).contains(key@) {
                    let t = choose|t: int| 0 <= t < strs(seen@).len() && strs(seen@)[t] == key@;
                    assert(seen@[t]@ == key@);
                }
            }
            assert(vs[i as int] == list@[i as int]@);
            assert(found == repeats_earlier(vs, i as int)) by {
                if found {
                    let j0 = choose|j0: int| 0 <= j0 < i && #[trigger] normalized_key(vs[j0]) == key@;
                    assert(normalized_key(vs[j0]) == normalized_key(vs[i as int]));
                }
                if repeats_earlier(vs, i as int) {
                    let j0 = choose|j0: int|
                        0 <= j0 < i && normalized_key(vs[j0]) == normalized_key(vs[i as int]);
                    assert(normalized_key(vs[j0]) == key@);
                }
            }
        }
        if found {
            let ghost old_dups = values(dups@);
            let _ = insert_sorted_string(&mut dups, list[i].clone());
            proof {
                assert forall|x: Seq<char>|
                    values(dups@).contains(x) <==> exists|m: int|
                        0 <= m < i + 1 && vs[m] == x && #[trigger] repeats_earlier(vs, m) by {
                    if values(dups@).contains(x) && !old_dups.contains(x) {
                        assert(x == vs[i as int]);
                        assert(repeats_earlier(vs, i as int));
                    }
                    if exists|m: int| 0 <= m < i + 1 && vs[m] == x && #[trigger] repeats_earlier(vs, m) {
                        let m = choose|m: int| 0 <= m < i + 1 && vs[m] == x && #[trigger] repeats_earlier(vs, m);
                        if m < i {
                            assert(old_dups.contains(x));
                        }
                    }
                }
                assert forall|k: Seq<char>|
                    strs(seen@).contains(k) <==> exists|j: int|
                        0 <= j < i + 1 && #[trigger] normalized_key(vs[j]) == k by {
                    if exists|j: int| 0 <= j < i + 1 && #[trigger] normalized_key(vs[j]) == k {
                        let j0 = choose|j0: int| 0 <= j0 < i + 1 && #[trigger] normalized_key(vs[j0]) == k;
                        if j0 == i {
                            assert(strs(seen@).contains(key@));
                        }
                    }
                }
            }
        } else {
            let ghost old_seen = strs(seen@);
            seen.push(key);
            proof {
                assert(strs(seen@) =~= old_seen.push(key@));
                assert forall|k: Seq<char>|
                    strs(seen@).contains(k) <==> exists|j: int|
                        0 <= j < i + 1 && #[trigger] normalized_key(vs[j]) == k by {
                    if strs(seen@).contains(k) {
                        let t = choose|t: int| 0 <= t < strs(seen@).len() && strs(seen@)[t] == k;
                        if t < old_seen.len() {
                            assert(old_seen.contains(k));
                        } else {
                            assert(normalized_key(vs[i as int]) == k);
                        }
                    }
                    if exists|j: int| 0 <= j < i + 1 && #[trigger] normalized_key(vs[j]) == k {
                        let j0 = choose|j0: int| 0 <= j0 < i + 1 && #[trigger] normalized_key(vs[j0]) == k;
                        if j0 < i {
                            assert(old_seen.contains(k));
                            let t = choose|t: int| 0 <= t < old_seen.len() && old_seen[t] == k;
                            assert(strs(seen@)[t] == k);
                        } else {
                            assert(strs(seen@)[old_seen.len() as int] == k);
                        }
                    }
                }
                assert forall|x: Seq<char>|
                    values(dups@).contains(x) <==> exists|m: int|
                        0 <= m < i + 1 && vs[m] == x && #[trigger] repeats_earlier(vs, m) by {
                    if exists|m: int| 0 <= m < i + 1 && vs[m] == x && #[trigger] repeats_earlier(vs, m) {
                        let m = choose|m: int| 0 <= m < i + 1 && vs[m] == x && #[trigger] repeats_earlier(vs, m);
                        assert(m != i);
                    }
                }
            }
        }
        i += 1;
    }
    proof {
        let d = duplicate_values(vs);
        assert(values(dups@) =~= strs(dups@));
        assert forall|x: Seq<char>| values(dups@).contains(x) <==> is_duplicate_value(vs, x) by {
            if values(dups@).contains(x) {
                let m = choose|m: int| 0 <= m < i && vs[m] == x && #[trigger] repeats_earlier(vs, m);
                assert(vs.len() == list@.len());
            }
            if is_duplicate_value(vs, x) {
                let m = choose|m: int| 0 <= m < vs.len() && vs[m] == x && repeats_earlier(vs, m);
            }
        }
        assert(strictly_sorted::<String>(d) && forall|x: Seq<char>|
            d.contains(x) <==> is_duplicate_value(vs, x));
        lemma_strictly_sorted_unique::<String>(values(dups@), d);
    }
    dups
}

/// `paths.join(", ")`.
pub fn format_paths(paths: &Vec<String>) -> (r: String)
    ensures
        r@ == join(strs(paths@), ", "@),
{
    let mut parts: Vec<Vec<char>> = Vec::new();
    let mut i: usize = 0;
    while i < paths.len()
        invariant
            i <= paths@.len(),
            views(parts@) == strs(paths@.take(i as int)),
        decreases paths.len() - i,
    {
        let ghost before = views(parts@);
        parts.push(chars_of(paths[i].as_str()));
        assert(views(parts@) =~= before.push(paths@[i as int]@));
        assert(strs(paths@.take(i + 1)) =~= strs(paths@.take(i as int)).push(paths@[i as int]@));
        i += 1;
    }
    assert(paths@.take(i as int) =~= paths@);
    let sep = chars_of(", ");
    let joined = join_exec(&parts, &sep);
    string_of(&joined)
}

// ---------------------------------------------------------------------------
// Groups of entries that share a key
// ---------------------------------------------------------------------------

/// An entry of a group check: its key, the text shown for it, and the source
/// path it comes from.
pub struct KeyedSource {
    pub key: String,
    pub shown: String,
    pub path: String,
}

impl View for KeyedSource {
    type V = (Seq<char>, Seq<char>, Seq<char>);

    open spec fn view(&self) -> (Seq<char>, Seq<char>, Seq<char>) {
        (self.key@, self.shown@, self.path@)
    }
}

/// The paths of the entries with key `k`, in order.
pub open spec fn group_paths(es: Seq<(Seq<char>, Seq<char>, Seq<char>)>, k: Seq<char>) -> Seq<
    Seq<char>,
>
    decreases es.len(),
{
    if es.len() == 0 {
        seq![]
    } else {
        let rest = group_paths(es.drop_last(), k);
        if es.last().0 == k {
            rest.push(es.last().2)
        } else {
            rest
        }
    }
}

/// No entry before `i` has the key of entry `i`.
pub open spec fn first_of_key(es: Seq<(Seq<char>, Seq<char>, Seq<char>)>, i: int) -> bool {
    forall|j: int| 0 <= j < i ==> #[trigger] es[j].0 != es[i].0
}

/// The message for a key shared by several entries.
pub open spec fn group_message(label: Seq<char>, shown: Seq<char>, paths: Seq<Seq<char>>) -> Seq<
    char,
> {
    label + shown + "` found in "@ + join(paths, ", "@)
}

/// One message per key that more than one entry has, at the key's first
/// entry, among the first `n` entries.
pub open spec fn group_errors(es: Seq<(Seq<char>, Seq<char>, Seq<char>)>, label: Seq<char>, n: nat) -> Seq<
    Seq<char>,
>
    decreases n,
{
    if n == 0 {
        seq![]
    } else {
        let rest = group_errors(es, label, (n - 1) as nat);
        let e = es[n - 1];
        let ps = group_paths(es, e.0);
        if first_of_key(es, n - 1) && ps.len() > 1 {
            rest.push(group_message(label, e.1, ps))
        } else {
            rest
        }
    }
}

fn group_paths_exec(es: &Vec<KeyedSource>, key: &String) -> (r: Vec<String>)
    ensures
        strs(r@) == group_paths(values(es@), key@),
{
    let mut r: Vec<String> = Vec::new();
    let mut k: usize = 0;
    while k < es.len()
        invariant
            k <= es@.len(),
            strs(r@) == group_paths(values(es@.take(k as int)), key@),
        decreases es.len() - k,
    {
        let ghost before = strs(r@);
        assert(values(es@.take(k + 1)).drop_last() =~= values(es@.take(k as int)));
        if es[k].key == *key {
            r.push(es[k].path.clone());
            assert(strs(r@) =~= before.push(es@[k as int].path@));
        }
        k += 1;
    }
    assert(es@.take(k as int) =~= es@);
    r
}

fn group_errors_exec(es: &Vec<KeyedSource>, label: &str) -> (r: Vec<String>)
    ensures
        strs(r@) == group_errors(values(es@), label@, es@.len()),
{
    let ghost ev = values(es@);
    let mut r: Vec<String> = Vec::new();
    let mut i: usize = 0;
    while i < es.len()
        invariant
            i <= es@.len(),
            ev == values(es@),
            strs(r@) == group_errors(ev, label@, i as nat),
        decreases es.len() - i,
    {
        let mut first = true;
        let mut j: usize = 0;
        while j < i
            invariant
                j <= i < es@.len(),
                ev == values(es@),
                first == forall|t: int| 0 <= t < j ==> #[trigger] ev[t].0 != ev[i as int].0,
            decreases i - j,
        {
            assert(ev[j as int] == es@[j as int]@);
            assert(ev[i as int] == es@[i as int]@);
            if es[j].key == es[i].key {
                first = false;
                assert(ev[j as int].0 == ev[i as int].0);
            } else {
                assert(ev[j as int].0 != ev[i as int].0);
            }
            j += 1;
        }
        let ghost before = strs(r@);
        if first {
            let ps = group_paths_exec(es, &es[i].key);
            if ps.len() > 1 {
                let joined = format_paths(&ps);
                let mut m: Vec<char> = Vec::new();
                extend_str(&mut m, label);
                extend_str(&mut m, es[i].shown.as_str());
                extend_str(&mut m, "` found in ");
                extend_str(&mut m, joined.as_str());
                r.push(string_of(&m));
                assert(strs(r@) =~= before.push(group_message(label@, ev[i as int].1, strs(ps@))));
            }
        }
        i += 1;
    }
    r
}

/// The id entries of a list of records.
pub open spec fn id_entries(s: Seq<AnswerRecordV>) -> Seq<(Seq<char>, Seq<char>, Seq<char>)> {
    s.map_values(|r: AnswerRecordV| (r.id, r.id, r.source_path))
}

/// The questions (or, with `aliases`, the retrieval aliases) of a record.
pub open spec fn listed(r: AnswerRecordV, aliases: bool) -> Seq<Seq<char>> {
    if aliases {
        r.retrieval_aliases
    } else {
        r.canonical_questions
    }
}

/// The question (or alias) entries of a list of records, keyed by their
/// normalized text.
pub open spec fn listed_entries(s: Seq<AnswerRecordV>, aliases: bool) -> Seq<
    (Seq<char>, Seq<char>, Seq<char>),
>
    decreases s.len(),
{
    if s.len() == 0 {
        seq![]
    } else {
        listed_entries(s.drop_last(), aliases) + listed(s.last(), aliases).map_values(
            |q: Seq<char>| (normalized_key(q), q, s.last().source_path),
        )
    }
}

fn id_entries_exec(recs: &Vec<AnswerRecord>) -> (r: Vec<KeyedSource>)
    ensures
        values(r@) == id_entries(values(recs@)),
{
    let mut r: Vec<KeyedSource> = Vec::new();
    let mut i: usize = 0;
    while i < recs.len()
        invariant
            i <= recs@.len(),
            values(r@) == id_entries(values(recs@.take(i as int))),
        decreases recs.len() - i,
    {
        let ghost before = values(r@);
        r.push(
            KeyedSource {
                key: recs[i].id.clone(),
                shown: recs[i].id.clone(),
                path: recs[i].source_path.clone(),
            },
        );
        assert(values(recs@.take(i + 1)) =~= values(recs@.take(i as int)).push(recs@[i as int]@));
        assert(id_entries(values(recs@.take(i + 1))) =~= id_entries(
            values(recs@.take(i as int)),
        ).push((recs@[i as int].id@, recs@[i as int].id@, recs@[i as int].source_path@)));
        assert(values(r@) =~= id_entries(values(recs@.take(i + 1))));
        i += 1;
    }
    assert(recs@.take(i as int) =~= recs@);
    r
}

fn listed_entries_exec(recs: &Vec<AnswerRecord>, aliases: bool) -> (r: Vec<KeyedSource>)
    ensures
        values(r@) == listed_entries(values(recs@), aliases),
{
    let mut r: Vec<KeyedSource> = Vec::new();
    let mut i: usize = 0;
    while i < recs.len()
        invariant
            i <= recs@.len(),
            values(r@) == listed_entries(values(recs@.take(i as int)), aliases),
        decreases recs.len() - i,
    {
        let rec = &recs[i];
        let list = if aliases {
            &rec.retrieval_aliases
        } else {
            &rec.canonical_questions
        };
        let ghost base = values(r@);
        let ghost lv = listed(rec@, aliases);
        assert(strs(list@) == lv);
        let mut j: usize = 0;
        while j < list.len()
            invariant
                j <= list@.len(),
                strs(list@) == lv,
                values(r@) == base + lv.take(j as int).map_values(
                    |q: Seq<char>| (normalized_key(q), q, rec.source_path@),
                ),
            decreases list.len() - j,
        {
            let ghost before = values(r@);
            let key = normalize_key(list[j].as_str());
            r.push(KeyedSource { key, shown: list[j].clone(), path: rec.source_path.clone() });
            assert(lv[j as int] == list@[j as int]@);
            assert(lv.take(j + 1).map_values(
                |q: Seq<char>| (normalized_key(q), q, rec.source_path@),
            ) =~= lv.take(j as int).map_values(
                |q: Seq<char>| (normalized_key(q), q, rec.source_path@),
            ).push((normalized_key(lv[j as int]), lv[j as int], rec.source_path@)));
            assert(values(r@) =~= before.push(
                (normalized_key(lv[j as int]), lv[j as int], rec.source_path@),
            ));
            j += 1;
        }
        assert(lv.take(j as int) =~= lv);
        assert(values(recs@.take(i + 1)).drop_last() =~= values(recs@.take(i as int)));
        assert(values(recs@.take(i + 1)).last() == rec@);
        i += 1;
    }
    assert(recs@.take(i as int) =~= recs@);
    r
}

// ---------------------------------------------------------------------------
// Per-record checks
// ---------------------------------------------------------------------------

/// The message for an entry repeated within one list of a record.
pub open spec fn dup_message(path: Seq<char>, field: Seq<char>, entry: Seq<char>) -> Seq<char> {
    path + ": `"@ + field + "` contains duplicate entry `"@ + entry + "`"@
}

pub open spec fn dup_messages(path: Seq<char>, field: Seq<char>, ds: Seq<Seq<char>>) -> Seq<
    Seq<char>,
> {
    ds.map_values(|d: Seq<char>| dup_message(path, field, d))
}

/// The duplicate-entry messages of one record: questions, then aliases, then
/// related ids.
pub open spec fn record_dup_errors(r: AnswerRecordV) -> Seq<Seq<char>> {
    dup_messages(r.source_path, "canonical_questions"@, duplicate_values(r.canonical_questions))
        + dup_messages(r.source_path, "retrieval_aliases"@, duplicate_values(r.retrieval_aliases))
        + dup_messages(r.source_path, "related"@, duplicate_values(r.related))
}

pub open spec fn all_dup_errors(s: Seq<AnswerRecordV>) -> Seq<Seq<char>>
    decreases s.len(),
{
    if s.len() == 0 {
        seq![]
    } else {
        all_dup_errors(s.drop_last()) + record_dup_errors(s.last())
    }
}

/// Some record of `s` has id `id`.
pub open spec fn has_record_id(s: Seq<AnswerRecordV>, id: Seq<char>) -> bool {
    exists|k: int| 0 <= k < s.len() && #[trigger] s[k].id == id
}

/// The message, if any, for related id `rid` of record `r`.
pub open spec fn related_error(all: Seq<AnswerRecordV>, r: AnswerRecordV, rid: Seq<char>) -> Seq<
    Seq<char>,
> {
    if rid == r.id {
        seq![r.source_path + ": `related` cannot reference the answer itself (`"@ + rid + "`)"@]
    } else if !has_record_id(all, rid) {
        seq![r.source_path + ": `related` references unknown answer id `"@ + rid + "`"@]
    } else {
        seq![]
    }
}

pub open spec fn record_related_errors(all: Seq<AnswerRecordV>, r: AnswerRecordV, n: nat) -> Seq<
    Seq<char>,
>
    decreases n,
{
    if n == 0 {
        seq![]
    } else {
        record_related_errors(all, r, (n - 1) as nat) + related_error(all, r, r.related[n - 1])
    }
}

pub open spec fn related_errors(all: Seq<AnswerRecordV>, s: Seq<AnswerRecordV>) -> Seq<Seq<char>>
    decreases s.len(),
{
    if s.len() == 0 {
        seq![]
    } else {
        related_errors(all, s.drop_last()) + record_related_errors(
            all,
            s.last(),
            s.last().related.len(),
        )
    }
}

/// Every validation message of a sorted list of records, before sorting.
pub open spec fn validation_errors(s: Seq<AnswerRecordV>) -> Seq<Seq<char>> {
    all_dup_errors(s) + group_errors(id_entries(s), "Duplicate answer id `"@, s.len())
        + group_errors(
        listed_entries(s, false),
        "Duplicate canonical question `"@,
        listed_entries(s, false).len(),
    ) + group_errors(
        listed_entries(s, true),
        "Duplicate retrieval alias `"@,
        listed_entries(s, true).len(),
    ) + related_errors(s, s)
}

/// The error of a failed validation, given its sorted messages.
pub open spec fn failure_message(es: Seq<Seq<char>>) -> Seq<char> {
    "Answer validation failed:\n- "@ + join(es, "\n- "@)
}

fn push_dup_messages(errors: &mut Vec<String>, path: &String, field: &str, ds: &Vec<String>)
    ensures
        strs(final(errors)@) == strs(old(errors)@) + dup_messages(path@, field@, strs(ds@)),
{
    let mut i: usize = 0;
    while i < ds.len()
        invariant
            i <= ds@.len(),
            strs(errors@) == strs(old(errors)@) + dup_messages(path@, field@, strs(ds@.take(i as int))),
        decreases ds.len() - i,
    {
        let ghost before = strs(errors@);
        let mut m: Vec<char> = Vec::new();
        extend_str(&mut m, path.as_str());
        extend_str(&mut m, ": `");
        extend_str(&mut m, field);
        extend_str(&mut m, "` contains duplicate entry `");
        extend_str(&mut m, ds[i].as_str());
        extend_str(&mut m, "`");
        errors.push(string_of(&m));
        assert(strs(ds@.take(i + 1)) =~= strs(ds@.take(i as int)).push(ds@[i as int]@));
        assert(dup_messages(path@, field@, strs(ds@.take(i + 1))) =~= dup_messages(
            path@,
            field@,
            strs(ds@.take(i as int)),
        ).push(dup_message(path@, field@, ds@[i as int]@)));
        assert(strs(errors@) =~= before.push(dup_message(path@, field@, ds@[i as int]@)));
        i += 1;
    }
    assert(ds@.take(i as int) =~= ds@);
}

fn all_dup_errors_exec(errors: &mut Vec<String>, recs: &Vec<AnswerRecord>)
    ensures
        strs(final(errors)@) == strs(old(errors)@) + all_dup_errors(values(recs@)),
{
    let mut i: usize = 0;
    while i < recs.len()
        invariant
            i <= recs@.len(),
            strs(errors@) == strs(old(errors)@) + all_dup_errors(values(recs@.take(i as int))),
        decreases recs.len() - i,
    {
        let rec = &recs[i];
        let ghost before = strs(errors@);
        let d1 = duplicate_entries(&rec.canonical_questions);
        push_dup_messages(errors, &rec.source_path, "canonical_questions", &d1);
        let d2 = duplicate_entries(&rec.retrieval_aliases);
        push_dup_messages(errors, &rec.source_path, "retrieval_aliases", &d2);
        let d3 = duplicate_entries(&rec.related);
        push_dup_messages(errors, &rec.source_path, "related", &d3);
        assert(values(recs@.take(i + 1)).drop_last() =~= values(recs@.take(i as int)));
        assert(values(recs@.take(i + 1)).last() == rec@);
        assert(strs(errors@) =~= before + record_dup_errors(rec@));
        i += 1;
    }
    assert(recs@.take(i as int) =~= recs@);
}

fn has_id_exec(recs: &Vec<AnswerRecord>, id: &String) -> (r: bool)
    ensures
        r == has_record_id(values(recs@), id@),
{
    let mut i: usize = 0;
    while i < recs.len()
        invariant
            i <= recs@.len(),
            forall|k: int| 0 <= k < i ==> recs@[k].id@ != id@,
        decreases recs.len() - i,
    {
        if recs[i].id == *id {
            assert(values(recs@)[i as int].id == id@);
            return true;
        }
        i += 1;
    }
    proof {
        if has_record_id(values(recs@), id@) {
            let k = choose|k: int| 0 <= k < values(recs@).len() && #[trigger] values(recs@)[k].id == id@;
            assert(values(recs@)[k] == recs@[k]@);
        }
    }
    false
}

fn related_errors_exec(errors: &mut Vec<String>, recs: &Vec<AnswerRecord>)
    ensures
        strs(final(errors)@) == strs(old(errors)@) + related_errors(values(recs@), values(recs@)),
{
    let ghost all = values(recs@);
    let mut i: usize = 0;
    while i < recs.len()
        invariant
            i <= recs@.len(),
            all == values(recs@),
            strs(errors@) == strs(old(errors)@) + related_errors(all, values(recs@.take(i as int))),
        decreases recs.len() - i,
    {
        let rec = &recs[i];
        let ghost base = strs(errors@);
        let mut j: usize = 0;
        while j < rec.related.len()
            invariant
                j <= rec.related@.len(),
                all == values(recs@),
                strs(errors@) == base + record_related_errors(all, rec@, j as nat),
            decreases rec.related.len() - j,
        {
            let ghost before = strs(errors@);
            let rid = &rec.related[j];
            assert(rec@.related[j as int] == rid@);
            if *rid == rec.id {
                let mut m: Vec<char> = Vec::new();
                extend_str(&mut m, rec.source_path.as_str());
                extend_str(&mut m, ": `related` cannot reference the answer itself (`");
                extend_str(&mut m, rid.as_str());
                extend_str(&mut m, "`)");
                errors.push(string_of(&m));
                assert(strs(errors@) =~= before + related_error(all, rec@, rid@));
            } else if !has_id_exec(recs, rid) {
                let mut m: Vec<char> = Vec::new();
                extend_str(&mut m, rec.source_path.as_str());
                extend_str(&mut m, ": `related` references unknown answer id `");
                extend_str(&mut m, rid.as_str());
                extend_str(&mut m, "`");
                errors.push(string_of(&m));
                assert(strs(errors@) =~= before + related_error(all, rec@, rid@));
            } else {
                assert(strs(errors@) =~= before + related_error(all, rec@, rid@));
            }
            j += 1;
        }
        assert(values(recs@.take(i + 1)).drop_last() =~= values(recs@.take(i as int)));
        assert(values(recs@.take(i + 1)).last() == rec@);
        i += 1;
    }
    assert(recs@.take(i as int) =~= recs@);
}

// ---------------------------------------------------------------------------
// The corpus
// ---------------------------------------------------------------------------

/// The records of a sequence of pages, in page order.
pub open spec fn library_records(pages: Seq<Page>) -> Seq<AnswerRecordV>
    decreases pages.len(),
{
    if pages.len() == 0 {
        seq![]
    } else {
        let rest = library_records(pages.drop_last());
        match page_record(pages.last()) {
            Some(r) => rest.push(r),
            None => rest,
        }
    }
}

/// The records of the pages, sorted by id and then source path.
pub open spec fn sorted_records(pages: Seq<Page>) -> Seq<AnswerRecordV> {
    choose|s: Seq<AnswerRecordV>|
        strictly_sorted::<AnswerRecord>(s) && forall|x: AnswerRecordV|
            s.contains(x) <==> library_records(pages).contains(x)
}

/// The answer records of a site, sorted by id and source path.
pub struct AnswerCorpus {
    records: Vec<AnswerRecord>,
}

impl View for AnswerCorpus {
    type V = Seq<AnswerRecordV>;

    closed spec fn view(&self) -> Seq<AnswerRecordV> {
        values(self.records@)
    }
}

impl Default for AnswerCorpus {
    fn default() -> (r: AnswerCorpus)
        ensures
            r@.len() == 0,
    {
        AnswerCorpus { records: Vec::new() }
    }
}

/// Records with different source paths are ordered one way or the other.
proof fn lemma_record_total(a: AnswerRecordV, b: AnswerRecordV)
    requires
        a.source_path != b.source_path,
    ensures
        AnswerRecord::less(a, b) || AnswerRecord::less(b, a),
{
    lemma_lex_total(a.id, b.id);
    lemma_lex_total(a.source_path, b.source_path);
}

/// Inserts a record into a strictly sorted vector of records none of which
/// shares its source path.
fn insert_record(v: &mut Vec<AnswerRecord>, r: AnswerRecord)
    requires
        strictly_sorted::<AnswerRecord>(values(old(v)@)),
        forall|k: int| 0 <= k < old(v)@.len() ==> old(v)@[k].source_path@ != r.source_path@,
    ensures
        strictly_sorted::<AnswerRecord>(values(final(v)@)),
        forall|y: AnswerRecordV|
            values(final(v)@).contains(y) <==> (values(old(v)@).contains(y) || y == r@),
        forall|k: int|
            0 <= k < final(v)@.len() ==> (exists|t: int|
                0 <= t < old(v)@.len() && final(v)@[k].source_path@ == old(v)@[t].source_path@)
                || final(v)@[k].source_path@ == r.source_path@,
{
    let ghost old_vals = values(v@);
    let ghost old_v = v@;
    let mut i: usize = 0;
    while i < v.len() && v[i].lt(&r)
        invariant
            i <= v@.len(),
            v@ == old_v,
            old_vals == values(old_v),
            strictly_sorted::<AnswerRecord>(old_vals),
            forall|j: int| 0 <= j < i ==> AnswerRecord::less(#[trigger] old_vals[j], r@),
        decreases v.len() - i,
    {
        assert(old_vals[i as int] == v@[i as int]@);
        i += 1;
    }
    let ghost rv = r@;
    proof {
        if i < v@.len() {
            assert(old_vals[i as int] == v@[i as int]@);
            assert(old_vals[i as int].source_path != rv.source_path);
            lemma_record_total(rv, old_vals[i as int]);
            assert(AnswerRecord::less(rv, old_vals[i as int]));
        }
    }
    v.insert(i, r);
    proof {
        let nv = values(v@);
        assert(nv =~= old_vals.insert(i as int, rv));
        assert forall|a: int, b: int| 0 <= a < b < nv.len() implies AnswerRecord::less(
            nv[a],
            nv[b],
        ) by {
            if b < i {
                assert(AnswerRecord::less(old_vals[a], old_vals[b]));
            } else if b == i {
                assert(AnswerRecord::less(old_vals[a], rv));
            } else if a < i {
                assert(AnswerRecord::less(old_vals[a], rv));
                assert(AnswerRecord::less(rv, old_vals[i as int]));
                if b > i + 1 {
                    assert(AnswerRecord::less(old_vals[i as int], old_vals[b - 1]));
                    AnswerRecord::less_transitive(old_vals[a], rv, old_vals[i as int]);
                    AnswerRecord::less_transitive(old_vals[a], old_vals[i as int], old_vals[b - 1]);
                } else {
                    AnswerRecord::less_transitive(old_vals[a], rv, old_vals[b - 1]);
                }
            } else if a == i {
                assert(AnswerRecord::less(rv, old_vals[i as int]));
                if b > i + 1 {
                    assert(AnswerRecord::less(old_vals[i as int], old_vals[b - 1]));
                    AnswerRecord::less_transitive(rv, old_vals[i as int], old_vals[b - 1]);
                }
            } else {
                assert(AnswerRecord::less(old_vals[a - 1], old_vals[b - 1]));
            }
        }
        assert forall|y: AnswerRecordV| nv.contains(y) <==> (old_vals.contains(y) || y == rv) by {
            if nv.contains(y) {
                let j = choose|j: int| 0 <= j < nv.len() && nv[j] == y;
                if j < i {
                    assert(old_vals[j] == y);
                } else if j > i {
                    assert(old_vals[j - 1] == y);
                }
            }
            if old_vals.contains(y) {
                let j = choose|j: int| 0 <= j < old_vals.len() && old_vals[j] == y;
                if j < i {
                    assert(nv[j] == y);
                } else {
                    assert(nv[j + 1] == y);
                }
            }
            if y == rv {
                assert(nv[i as int] == y);
            }
        }
        assert forall|k: int| 0 <= k < v@.len() implies (exists|t: int|
            0 <= t < old_v.len() && v@[k].source_path@ == old_v[t].source_path@)
            || v@[k].source_path@ == rv.source_path by {
            if k < i {
                assert(v@[k] == old_v[k]);
            } else if k > i {
                assert(v@[k] == old_v[k - 1]);
            }
        }
    }
}

/// A record of the first `n` pages comes from one of them.
proof fn lemma_library_record_source(pages: Seq<Page>, x: AnswerRecordV)
    requires
        library_records(pages).contains(x),
    ensures
        exists|j: int| 0 <= j < pages.len() && page_record(pages[j]) == Some(x),
    decreases pages.len(),
{
    let rest = library_records(pages.drop_last());
    if rest.contains(x) {
        lemma_library_record_source(pages.drop_last(), x);
        let j = choose|j: int| 0 <= j < pages.len() - 1 && page_record(pages.drop_last()[j]) == Some(x);
        assert(pages[j] == pages.drop_last()[j]);
    } else {
        assert(page_record(pages.last()) == Some(x));
        assert(pages[pages.len() - 1] == pages.last());
    }
}

/// The records of the pages, as a strictly sorted vector.
fn sorted_records_exec(library: &Library) -> (r: Vec<AnswerRecord>)
    requires
        library.well_formed(),
    ensures
        values(r@) == sorted_records(library.pages@),
{
    let pages = &library.pages;
    let mut v: Vec<AnswerRecord> = Vec::new();
    let mut i: usize = 0;
    while i < pages.len()
        invariant
            i <= pages@.len(),
            library.well_formed(),
            pages@ == library.pages@,
            strictly_sorted::<AnswerRecord>(values(v@)),
            forall|y: AnswerRecordV|
                values(v@).contains(y) <==> library_records(pages@.take(i as int)).contains(y),
            forall|k: int|
                #![trigger v@[k]]
                0 <= k < v@.len() ==> exists|t: int|
                    0 <= t < i && v@[k].source_path@ == #[trigger] pages@[t].source_path@,
        decreases pages.len() - i,
    {
        let ghost before = values(v@);
        let ghost old_v = v@;
        let page = &pages[i];
        assert(pages@.take(i + 1).drop_last() =~= pages@.take(i as int));
        assert(pages@.take(i + 1).last() == *page);
        match AnswerRecord::from_page(page) {
            Some(rec) => {
                proof {
                    assert forall|k: int| 0 <= k < v@.len() implies v@[k].source_path@
                        != rec.source_path@ by {
                        let t = choose|t: int|
                            0 <= t < i && v@[k].source_path@ == #[trigger] pages@[t].source_path@;
                        assert(rec.source_path@ == pages@[i as int].source_path@);
                    }
                }
                let ghost rv = rec@;
                insert_record(&mut v, rec);
                proof {
                    let lr = library_records(pages@.take(i as int));
                    assert(library_records(pages@.take(i + 1)) == lr.push(rv));
                    assert forall|y: AnswerRecordV|
                        values(v@).contains(y) <==> lr.push(rv).contains(y) by {
                        if lr.push(rv).contains(y) && y != rv {
                            let t = choose|t: int| 0 <= t < lr.push(rv).len() && lr.push(rv)[t] == y;
                            assert(lr[t] == y);
                        }
                        if lr.contains(y) {
                            let t = choose|t: int| 0 <= t < lr.len() && lr[t] == y;
                            assert(lr.push(rv)[t] == y);
                        }
                        if y == rv {
                            assert(lr.push(rv)[lr.len() as int] == y);
                        }
                    }
                    assert forall|k: int| #![trigger v@[k]] 0 <= k < v@.len() implies exists|t: int|
                        0 <= t < i + 1 && v@[k].source_path@ == #[trigger] pages@[t].source_path@ by {
                        if v@[k].source_path@ == rv.source_path {
                            assert(rv.source_path == pages@[i as int].source_path@);
                        } else {
                            let t = choose|t: int|
                                0 <= t < old_v.len() && v@[k].source_path@ == old_v[t].source_path@;
                            let t2 = choose|t2: int|
                                0 <= t2 < i && old_v[t].source_path@ == #[trigger] pages@[t2].source_path@;
                        }
                    }
                }
            },
            None => {
                assert(library_records(pages@.take(i + 1)) == library_records(pages@.take(i as int)));
            },
        }
        i += 1;
    }
    assert(pages@.take(i as int) =~= pages@);
    proof {
        let w = sorted_records(pages@);
        assert(strictly_sorted::<AnswerRecord>(w) && forall|x: AnswerRecordV|
            w.contains(x) <==> library_records(pages@).contains(x));
        lemma_strictly_sorted_unique::<AnswerRecord>(values(v@), w);
    }
    v
}

impl AnswerCorpus {
    /// Builds the corpus of a site's answer pages, sorted by id and source
    /// path, or fails with every validation message, sorted.
    pub fn from_library(library: &Library) -> (r: Result<AnswerCorpus, String>)
        requires
            library.well_formed(),
        ensures
            match r {
                Ok(c) => validation_errors(sorted_records(library.pages@)).len() == 0 && c@
                    == sorted_records(library.pages@),
                Err(m) => validation_errors(sorted_records(library.pages@)).len() > 0 && m@
                    == failure_message(
                    sorted_strings(validation_errors(sorted_records(library.pages@))),
                ),
            },
    {
        let records = sorted_records_exec(library);
        let ghost s = values(records@);
        let mut errors: Vec<String> = Vec::new();
        all_dup_errors_exec(&mut errors, &records);
        let ids = id_entries_exec(&records);
        let mut e = group_errors_exec(&ids, "Duplicate answer id `");
        errors.append(&mut e);
        let questions = listed_entries_exec(&records, false);
        let mut e = group_errors_exec(&questions, "Duplicate canonical question `");
        errors.append(&mut e);
        let aliases = listed_entries_exec(&records, true);
        let mut e = group_errors_exec(&aliases, "Duplicate retrieval alias `");
        errors.append(&mut e);
        related_errors_exec(&mut errors, &records);
        assert(strs(errors@) =~= validation_errors(s));
        if errors.len() > 0 {
            let sorted = sort_strings(errors);
            let mut parts: Vec<Vec<char>> = Vec::new();
            let mut i: usize = 0;
            while i < sorted.len()
                invariant
                    i <= sorted@.len(),
                    views(parts@) == values(sorted@.take(i as int)),
                decreases sorted.len() - i,
            {
                let ghost before = views(parts@);
                parts.push(chars_of(sorted[i].as_str()));
                assert(views(parts@) =~= before.push(sorted@[i as int]@));
                assert(values(sorted@.take(i + 1)) =~= values(sorted@.take(i as int)).push(
                    sorted@[i as int]@,
                ));
                i += 1;
            }
            assert(sorted@.take(i as int) =~= sorted@);
            assert(values(errors@) =~= strs(errors@));
            let sep = chars_of("\n- ");
            let body = join_exec(&parts, &sep);
            let mut m: Vec<char> = Vec::new();
            extend_str(&mut m, "Answer validation failed:\n- ");
            let ghost head = m@;
            crate::text::extend(&mut m, &body);
            return Err(string_of(&m));
        }
        Ok(AnswerCorpus { records })
    }
}

/// The last record with id `id`, by index.
pub open spec fn last_with_id(s: Seq<AnswerRecordV>, id: Seq<char>) -> Option<int>
    decreases s.len(),
{
    if s.len() == 0 {
        None
    } else if s.last().id == id {
        Some(s.len() - 1)
    } else {
        last_with_id(s.drop_last(), id)
    }
}

/// The records that a list of ids resolves to, skipping unknown ids.
pub open spec fn resolved(s: Seq<AnswerRecordV>, ids: Seq<Seq<char>>) -> Seq<AnswerRecordV>
    decreases ids.len(),
{
    if ids.len() == 0 {
        seq![]
    } else {
        resolved(s, ids.drop_last()) + match last_with_id(s, ids.last()) {
            Some(k) => seq![s[k]],
            None => seq![],
        }
    }
}

/// The related records of the record with id `id`.
pub open spec fn related_records(s: Seq<AnswerRecordV>, id: Seq<char>) -> Seq<AnswerRecordV> {
    match last_with_id(s, id) {
        Some(k) => resolved(s, s[k].related),
        None => seq![],
    }
}

/// The values behind a list of references.
pub open spec fn ref_values(v: Seq<&AnswerRecord>) -> Seq<AnswerRecordV> {
    v.map_values(|x: &AnswerRecord| x@)
}

proof fn lemma_last_with_id_bounds(s: Seq<AnswerRecordV>, id: Seq<char>)
    ensures
        match last_with_id(s, id) {
            Some(k) => 0 <= k < s.len() && s[k].id == id && forall|j: int|
                k < j < s.len() ==> #[trigger] s[j].id != id,
            None => forall|j: int| 0 <= j < s.len() ==> #[trigger] s[j].id != id,
        },
    decreases s.len(),
{
    if s.len() > 0 {
        lemma_last_with_id_bounds(s.drop_last(), id);
        assert forall|j: int| 0 <= j < s.len() - 1 implies s[j] == s.drop_last()[j] by {}
    }
}

impl AnswerCorpus {
    pub fn len(&self) -> (r: usize)
        ensures
            r == self@.len(),
    {
        self.records.len()
    }

    pub fn is_empty(&self) -> (r: bool)
        ensures
            r == (self@.len() == 0),
    {
        self.records.len() == 0
    }

    /// The records, in corpus order.
    pub fn iter(&self) -> (r: &[AnswerRecord])
        ensures
            values(r@) == self@,
    {
        self.records.as_slice()
    }

    fn index_of(&self, id: &str) -> (r: Option<usize>)
        ensures
            match r {
                Some(k) => last_with_id(self@, id@) == Some(k as int),
                None => last_with_id(self@, id@) is None,
            },
    {
        let mut found: Option<usize> = None;
        let mut i: usize = 0;
        while i < self.records.len()
            invariant
                i <= self.records@.len(),
                match found {
                    Some(k) => last_with_id(values(self.records@.take(i as int)), id@) == Some(
                        k as int,
                    ),
                    None => last_with_id(values(self.records@.take(i as int)), id@) is None,
                },
            decreases self.records.len() - i,
        {
            assert(values(self.records@.take(i + 1)).drop_last() =~= values(
                self.records@.take(i as int),
            ));
            assert(values(self.records@.take(i + 1)).last() == self.records@[i as int]@);
            if str_eq(self.records[i].id.as_str(), id) {
                found = Some(i);
            }
            i += 1;
        }
        assert(self.records@.take(i as int) =~= self.records@);
        found
    }

    /// The record with id `id` (the last one, should several share it).
    pub fn get(&self, id: &str) -> (r: Option<&AnswerRecord>)
        ensures
            match (r, last_with_id(self@, id@)) {
                (Some(x), Some(k)) => x@ == self@[k],
                (None, None) => true,
                _ => false,
            },
    {
        match self.index_of(id) {
            Some(k) => {
                proof {
                    lemma_last_with_id_bounds(self@, id@);
                }
                Some(&self.records[k])
            },
            None => None,
        }
    }

    /// The records about entity `entity`, in corpus order.
    pub fn same_entity(&self, entity: &str) -> (r: Vec<&AnswerRecord>)
        ensures
            ref_values(r@) == self@.filter(|x: AnswerRecordV| x.entity == entity@),
    {
        let mut r: Vec<&AnswerRecord> = Vec::new();
        let mut i: usize = 0;
        while i < self.records.len()
            invariant
                i <= self.records@.len(),
                ref_values(r@) == values(self.records@.take(i as int)).filter(
                    |x: AnswerRecordV| x.entity == entity@,
                ),
            decreases self.records.len() - i,
        {
            let ghost before = ref_values(r@);
            proof {
                reveal(Seq::filter);
            }
            assert(values(self.records@.take(i + 1)).drop_last() =~= values(
                self.records@.take(i as int),
            ));
            assert(values(self.records@.take(i + 1)).last() == self.records@[i as int]@);
            if str_eq(self.records[i].entity.as_str(), entity) {
                r.push(&self.records[i]);
                assert(ref_values(r@) =~= before.push(self.records@[i as int]@));
            }
            i += 1;
        }
        assert(self.records@.take(i as int) =~= self.records@);
        r
    }

    /// The records with intent `intent`, in corpus order.
    pub fn same_intent(&self, intent: &AnswerIntent) -> (r: Vec<&AnswerRecord>)
        ensures
            ref_values(r@) == self@.filter(|x: AnswerRecordV| x.intent == *intent),
    {
        let mut r: Vec<&AnswerRecord> = Vec::new();
        let mut i: usize = 0;
        while i < self.records.len()
            invariant
                i <= self.records@.len(),
                ref_values(r@) == values(self.records@.take(i as int)).filter(
                    |x: AnswerRecordV| x.intent == *intent,
                ),
            decreases self.records.len() - i,
        {
            let ghost before = ref_values(r@);
            proof {
                reveal(Seq::filter);
            }
            assert(values(self.records@.take(i + 1)).drop_last() =~= values(
                self.records@.take(i as int),
            ));
            assert(values(self.records@.take(i + 1)).last() == self.records@[i as int]@);
            if self.records[i].intent == *intent {
                r.push(&self.records[i]);
                assert(ref_values(r@) =~= before.push(self.records@[i as int]@));
            }
            i += 1;
        }
        assert(self.records@.take(i as int) =~= self.records@);
        r
    }

    /// The records for audience `audience`, in corpus order.
    pub fn same_audience(&self, audience: &AnswerAudience) -> (r: Vec<&AnswerRecord>)
        ensures
            ref_values(r@) == self@.filter(|x: AnswerRecordV| x.audience == *audience),
    {
        let mut r: Vec<&AnswerRecord> = Vec::new();
        let mut i: usize = 0;
        while i < self.records.len()
            invariant
                i <= self.records@.len(),
                ref_values(r@) == values(self.records@.take(i as int)).filter(
                    |x: AnswerRecordV| x.audience == *audience,
                ),
            decreases self.records.len() - i,
        {
            let ghost before = ref_values(r@);
            proof {
                reveal(Seq::filter);
            }
            assert(values(self.records@.take(i + 1)).drop_last() =~= values(
                self.records@.take(i as int),
            ));
            assert(values(self.records@.take(i + 1)).last() == self.records@[i as int]@);
            if self.records[i].audience == *audience {
                r.push(&self.records[i]);
                assert(ref_values(r@) =~= before.push(self.records@[i as int]@));
            }
            i += 1;
        }
        assert(self.records@.take(i as int) =~= self.records@);
        r
    }

    /// The records that the record with id `id` lists as related, in the
    /// order listed, skipping ids that name no record.
    pub fn related_to(&self, id: &str) -> (r: Vec<&AnswerRecord>)
        ensures
            ref_values(r@) == related_records(self@, id@),
    {
        let mut r: Vec<&AnswerRecord> = Vec::new();
        match self.get(id) {
            None => {},
            Some(rec) => {
                let mut j: usize = 0;
                while j < rec.related.len()
                    invariant
                        j <= rec.related@.len(),
                        last_with_id(self@, id@) is Some,
                        rec@ == self@[last_with_id(self@, id@)->0],
                        ref_values(r@) == resolved(self@, rec@.related.take(j as int)),
                    decreases rec.related.len() - j,
                {
                    let ghost before = ref_values(r@);
                    assert(rec@.related.take(j + 1).drop_last() =~= rec@.related.take(j as int));
                    assert(rec@.related.take(j + 1).last() == rec.related@[j as int]@);
                    match self.get(rec.related[j].as_str()) {
                        Some(x) => {
                            r.push(x);
                            assert(ref_values(r@) =~= before.push(x@));
                        },
                        None => {},
                    }
                    j += 1;
                }
                assert(rec@.related.take(j as int) =~= rec@.related);
            },
        }
        r
    }
}

// ---------------------------------------------------------------------------
// What validation guarantees
// ---------------------------------------------------------------------------

proof fn lemma_group_errors_monotone(
    es: Seq<(Seq<char>, Seq<char>, Seq<char>)>,
    label: Seq<char>,
    m: nat,
    n: nat,
)
    requires
        m <= n,
    ensures
        group_errors(es, label, m).len() <= group_errors(es, label, n).len(),
    decreases n,
{
    if m < n {
        lemma_group_errors_monotone(es, label, m, (n - 1) as nat);
    }
}

proof fn lemma_group_paths_one(es: Seq<(Seq<char>, Seq<char>, Seq<char>)>, k: Seq<char>, a: int)
    requires
        0 <= a < es.len(),
        es[a].0 == k,
    ensures
        group_paths(es, k).len() >= 1,
    decreases es.len(),
{
    if a < es.len() - 1 {
        lemma_group_paths_one(es.drop_last(), k, a);
    }
}

proof fn lemma_group_paths_two(
    es: Seq<(Seq<char>, Seq<char>, Seq<char>)>,
    k: Seq<char>,
    a: int,
    b: int,
)
    requires
        0 <= a < b < es.len(),
        es[a].0 == k,
        es[b].0 == k,
    ensures
        group_paths(es, k).len() >= 2,
    decreases es.len(),
{
    if b == es.len() - 1 {
        lemma_group_paths_one(es.drop_last(), k, a);
    } else {
        lemma_group_paths_two(es.drop_last(), k, a, b);
    }
}

proof fn lemma_first_of_key_exists(es: Seq<(Seq<char>, Seq<char>, Seq<char>)>, a: int)
    requires
        0 <= a < es.len(),
    ensures
        exists|f: int| 0 <= f <= a && es[f].0 == es[a].0 && first_of_key(es, f),
    decreases a,
{
    if first_of_key(es, a) {
        assert(0 <= a <= a && es[a].0 == es[a].0 && first_of_key(es, a));
    } else {
        let j = choose|j: int| 0 <= j < a && es[j].0 == es[a].0;
        lemma_first_of_key_exists(es, j);
        let f = choose|f: int| 0 <= f <= j && es[f].0 == es[j].0 && first_of_key(es, f);
        assert(0 <= f <= a && es[f].0 == es[a].0 && first_of_key(es, f));
    }
}

/// With no group message, no two entries share a key.
proof fn lemma_no_group_errors(es: Seq<(Seq<char>, Seq<char>, Seq<char>)>, label: Seq<char>)
    requires
        group_errors(es, label, es.len()).len() == 0,
    ensures
        forall|a: int, b: int| 0 <= a < b < es.len() ==> #[trigger] es[a].0 != #[trigger] es[b].0,
{
    assert forall|a: int, b: int| 0 <= a < b < es.len() implies #[trigger] es[a].0
        != #[trigger] es[b].0 by {
        if es[a].0 == es[b].0 {
            lemma_first_of_key_exists(es, a);
            let f = choose|f: int| 0 <= f <= a && es[f].0 == es[a].0 && first_of_key(es, f);
            lemma_group_paths_two(es, es[a].0, a, b);
            assert(group_errors(es, label, (f + 1) as nat).len() > 0);
            lemma_group_errors_monotone(es, label, (f + 1) as nat, es.len());
        }
    }
}

proof fn lemma_no_related_errors_of(all: Seq<AnswerRecordV>, r: AnswerRecordV, n: nat)
    requires
        n <= r.related.len(),
        record_related_errors(all, r, n).len() == 0,
    ensures
        forall|k: int|
            0 <= k < n ==> #[trigger] r.related[k] != r.id && has_record_id(all, r.related[k]),
    decreases n,
{
    if n > 0 {
        lemma_no_related_errors_of(all, r, (n - 1) as nat);
    }
}

proof fn lemma_no_related_errors(all: Seq<AnswerRecordV>, s: Seq<AnswerRecordV>)
    requires
        related_errors(all, s).len() == 0,
    ensures
        forall|i: int, k: int|
            0 <= i < s.len() && 0 <= k < s[i].related.len() ==> #[trigger] s[i].related[k]
                != s[i].id && has_record_id(all, s[i].related[k]),
    decreases s.len(),
{
    if s.len() > 0 {
        lemma_no_related_errors(all, s.drop_last());
        lemma_no_related_errors_of(all, s.last(), s.last().related.len());
        assert forall|i: int, k: int|
            0 <= i < s.len() && 0 <= k < s[i].related.len() implies #[trigger] s[i].related[k]
                != s[i].id && has_record_id(all, s[i].related[k]) by {
            if i < s.len() - 1 {
                assert(s[i] == s.drop_last()[i]);
            }
        }
    }
}

proof fn lemma_unique_ids_lookup(s: Seq<AnswerRecordV>, i: int)
    requires
        0 <= i < s.len(),
        forall|a: int, b: int| 0 <= a < b < s.len() ==> s[a].id != s[b].id,
    ensures
        last_with_id(s, s[i].id) == Some(i),
{
    lemma_last_with_id_bounds(s, s[i].id);
}

/// A list of records that passes validation has unique ids, so that looking
/// up an answer's id gives that answer back; every related id names another
/// answer of the list; and no two questions, nor two aliases, share a
/// normalized key.
pub proof fn law_validated_records(s: Seq<AnswerRecordV>)
    requires
        validation_errors(s).len() == 0,
    ensures
        forall|i: int, j: int| 0 <= i < j < s.len() ==> s[i].id != s[j].id,
        forall|i: int| 0 <= i < s.len() ==> last_with_id(s, #[trigger] s[i].id) == Some(i),
        forall|i: int, k: int|
            0 <= i < s.len() && 0 <= k < s[i].related.len() ==> #[trigger] s[i].related[k]
                != s[i].id && has_record_id(s, s[i].related[k]),
        forall|a: int, b: int|
            0 <= a < b < listed_entries(s, false).len() ==> listed_entries(s, false)[a].0
                != listed_entries(s, false)[b].0,
        forall|a: int, b: int|
            0 <= a < b < listed_entries(s, true).len() ==> listed_entries(s, true)[a].0
                != listed_entries(s, true)[b].0,
{
    let ids = id_entries(s);
    let qs = listed_entries(s, false);
    let als = listed_entries(s, true);
    assert(group_errors(ids, "Duplicate answer id `"@, s.len()).len() == 0);
    assert(group_errors(qs, "Duplicate canonical question `"@, qs.len()).len() == 0);
    assert(group_errors(als, "Duplicate retrieval alias `"@, als.len()).len() == 0);
    assert(related_errors(s, s).len() == 0);
    lemma_no_group_errors(ids, "Duplicate answer id `"@);
    lemma_no_group_errors(qs, "Duplicate canonical question `"@);
    lemma_no_group_errors(als, "Duplicate retrieval alias `"@);
    lemma_no_related_errors(s, s);
    assert forall|i: int, j: int| 0 <= i < j < s.len() implies s[i].id != s[j].id by {
        assert(ids[i].0 == s[i].id && ids[j].0 == s[j].id);
    }
    assert forall|i: int| 0 <= i < s.len() implies last_with_id(s, #[trigger] s[i].id) == Some(
        i,
    ) by {
        lemma_unique_ids_lookup(s, i);
    }
}

// ---------------------------------------------------------------------------
// The corpus as a whole
// ---------------------------------------------------------------------------

/// The number of pages that carry answer metadata.
pub open spec fn answer_page_count(pages: Seq<Page>) -> nat
    decreases pages.len(),
{
    if pages.len() == 0 {
        0
    } else {
        answer_page_count(pages.drop_last()) + if pages.last().answer is Some {
            1nat
        } else {
            0nat
        }
    }
}

/// No two pages share a source path.
pub open spec fn distinct_sources(pages: Seq<Page>) -> bool {
    forall|i: int, j: int|
        0 <= i < j < pages.len() ==> pages[i].source_path@ != pages[j].source_path@
}

/// `x` placed into a list sorted by id and source path.
pub open spec fn insert_sorted(r: Seq<AnswerRecordV>, x: AnswerRecordV) -> Seq<AnswerRecordV>
    decreases r.len(),
{
    if r.len() == 0 {
        seq![x]
    } else if record_less(x, r[0]) {
        seq![x] + r
    } else {
        seq![r[0]] + insert_sorted(r.skip(1), x)
    }
}

/// A list of records sorted by insertion.
pub open spec fn sort_records(l: Seq<AnswerRecordV>) -> Seq<AnswerRecordV>
    decreases l.len(),
{
    if l.len() == 0 {
        seq![]
    } else {
        insert_sorted(sort_records(l.drop_last()), l.last())
    }
}

proof fn lemma_insert_sorted(r: Seq<AnswerRecordV>, x: AnswerRecordV)
    requires
        strictly_sorted::<AnswerRecord>(r),
        forall|k: int| 0 <= k < r.len() ==> (#[trigger] r[k]).source_path != x.source_path,
    ensures
        strictly_sorted::<AnswerRecord>(insert_sorted(r, x)),
        insert_sorted(r, x).len() == r.len() + 1,
        forall|y: AnswerRecordV| #[trigger]
            insert_sorted(r, x).contains(y) <==> (r.contains(y) || y == x),
    decreases r.len(),
{
    if r.len() == 0 {
        assert(insert_sorted(r, x) =~= seq![x]);
        assert forall|y: AnswerRecordV| #[trigger]
            insert_sorted(r, x).contains(y) <==> (r.contains(y) || y == x) by {
            if insert_sorted(r, x).contains(y) {
                assert(insert_sorted(r, x)[0] == y);
            }
            if y == x {
                assert(insert_sorted(r, x)[0] == y);
            }
        }
    } else if record_less(x, r[0]) {
        let n = seq![x] + r;
        assert(insert_sorted(r, x) == n);
        assert forall|i: int, j: int| 0 <= i < j < n.len() implies record_less(n[i], n[j]) by {
            if i == 0 {
                if j > 1 {
                    <AnswerRecord as Ordered>::less_transitive(x, r[0], r[j - 1]);
                }
            } else {
                assert(<AnswerRecord as Ordered>::less(r[i - 1], r[j - 1]));
            }
        }
        assert forall|y: AnswerRecordV| #[trigger] n.contains(y) <==> (r.contains(y) || y == x) by {
            if n.contains(y) {
                let k = choose|k: int| 0 <= k < n.len() && n[k] == y;
                if k > 0 {
                    assert(r[k - 1] == y);
                }
            }
            if r.contains(y) {
                let k = choose|k: int| 0 <= k < r.len() && r[k] == y;
                assert(n[k + 1] == y);
            }
            if y == x {
                assert(n[0] == y);
            }
        }
    } else {
        let t = r.skip(1);
        assert forall|i: int, j: int| 0 <= i < j < t.len() implies record_less(t[i], t[j]) by {
            assert(<AnswerRecord as Ordered>::less(r[i + 1], r[j + 1]));
        }
        assert forall|k: int| 0 <= k < t.len() implies (#[trigger] t[k]).source_path
            != x.source_path by {
            assert(t[k] == r[k + 1]);
        }
        lemma_insert_sorted(t, x);
        let rest = insert_sorted(t, x);
        let n = seq![r[0]] + rest;
        assert(insert_sorted(r, x) == n);
        lemma_lex_total(x.id, r[0].id);
        lemma_lex_total(x.source_path, r[0].source_path);
        assert(record_less(r[0], x));
        assert forall|j: int| 0 <= j < rest.len() implies record_less(r[0], #[trigger] rest[j]) by {
            assert(rest.contains(rest[j]));
            if rest[j] != x {
                assert(t.contains(rest[j]));
                let k = choose|k: int| 0 <= k < t.len() && t[k] == rest[j];
                assert(<AnswerRecord as Ordered>::less(r[0], r[k + 1]));
            }
        }
        assert forall|i: int, j: int| 0 <= i < j < n.len() implies record_less(n[i], n[j]) by {
            if i == 0 {
                assert(n[j] == rest[j - 1]);
                assert(record_less(r[0], rest[j - 1]));
            } else {
                assert(n[i] == rest[i - 1] && n[j] == rest[j - 1]);
                assert(<AnswerRecord as Ordered>::less(rest[i - 1], rest[j - 1]));
            }
        }
        assert forall|y: AnswerRecordV| #[trigger] n.contains(y) <==> (r.contains(y) || y == x) by {
            if n.contains(y) {
                let k = choose|k: int| 0 <= k < n.len() && n[k] == y;
                if k > 0 {
                    assert(rest[k - 1] == y);
                    assert(rest.contains(y));
                    if y != x {
                        let m = choose|m: int| 0 <= m < t.len() && t[m] == y;
                        assert(r[m + 1] == y);
                    }
                }
            }
            if r.contains(y) {
                let k = choose|k: int| 0 <= k < r.len() && r[k] == y;
                if k == 0 {
                    assert(n[0] == y);
                } else {
                    assert(t[k - 1] == y);
                    assert(t.contains(y));
                    assert(rest.contains(y));
                    let m = choose|m: int| 0 <= m < rest.len() && rest[m] == y;
                    assert(n[m + 1] == y);
                }
            }
            if y == x {
                assert(rest.contains(x));
                let m = choose|m: int| 0 <= m < rest.len() && rest[m] == x;
                assert(n[m + 1] == y);
            }
        }
    }
}

proof fn lemma_sort_records(l: Seq<AnswerRecordV>)
    requires
        forall|i: int, j: int| 0 <= i < j < l.len() ==> l[i].source_path != l[j].source_path,
    ensures
        strictly_sorted::<AnswerRecord>(sort_records(l)),
        sort_records(l).len() == l.len(),
        forall|y: AnswerRecordV| #[trigger] sort_records(l).contains(y) <==> l.contains(y),
        forall|k: int|
            0 <= k < sort_records(l).len() ==> exists|m: int|
                0 <= m < l.len() && (#[trigger] sort_records(l)[k]).source_path == l[m].source_path,
    decreases l.len(),
{
    if l.len() > 0 {
        let d = l.drop_last();
        lemma_sort_records(d);
        let r = sort_records(d);
        assert forall|k: int| 0 <= k < r.len() implies (#[trigger] r[k]).source_path
            != l.last().source_path by {
            let m = choose|m: int| 0 <= m < d.len() && r[k].source_path == d[m].source_path;
            assert(d[m] == l[m]);
        }
        lemma_insert_sorted(r, l.last());
        assert forall|y: AnswerRecordV| #[trigger] sort_records(l).contains(y) <==> l.contains(y) by {
            if d.contains(y) {
                let m = choose|m: int| 0 <= m < d.len() && d[m] == y;
                assert(l[m] == y);
            }
            if l.contains(y) {
                let m = choose|m: int| 0 <= m < l.len() && l[m] == y;
                if m < l.len() - 1 {
                    assert(d[m] == y);
                }
            }
        }
        assert forall|k: int| 0 <= k < sort_records(l).len() implies exists|m: int|
            0 <= m < l.len() && (#[trigger] sort_records(l)[k]).source_path == l[m].source_path by {
            let y = sort_records(l)[k];
            assert(sort_records(l).contains(y));
            assert(l.contains(y));
            let m = choose|m: int| 0 <= m < l.len() && l[m] == y;
        }
    }
}

proof fn lemma_library_records(pages: Seq<Page>)
    requires
        distinct_sources(pages),
    ensures
        library_records(pages).len() == answer_page_count(pages),
        forall|i: int, j: int|
            0 <= i < j < library_records(pages).len() ==> library_records(pages)[i].source_path
                != library_records(pages)[j].source_path,
        forall|k: int|
            0 <= k < library_records(pages).len() ==> exists|t: int|
                0 <= t < pages.len() && (#[trigger] library_records(pages)[k]).source_path
                    == pages[t].source_path@,
    decreases pages.len(),
{
    if pages.len() > 0 {
        let d = pages.drop_last();
        assert forall|i: int, j: int| 0 <= i < j < d.len() implies d[i].source_path@
            != d[j].source_path@ by {
            assert(d[i] == pages[i] && d[j] == pages[j]);
        }
        lemma_library_records(d);
        let l = library_records(d);
        match page_record(pages.last()) {
            Some(rec) => {
                let n = l.push(rec);
                assert(library_records(pages) == n);
                assert forall|k: int| 0 <= k < l.len() implies (#[trigger] l[k]).source_path
                    != rec.source_path by {
                    let t = choose|t: int| 0 <= t < d.len() && l[k].source_path == d[t].source_path@;
                    assert(d[t] == pages[t]);
                }
                assert forall|i: int, j: int| 0 <= i < j < n.len() implies n[i].source_path
                    != n[j].source_path by {
                    if j == n.len() - 1 {
                        assert(n[i] == l[i]);
                    } else {
                        assert(n[i] == l[i] && n[j] == l[j]);
                    }
                }
                assert forall|k: int| 0 <= k < n.len() implies exists|t: int|
                    0 <= t < pages.len() && (#[trigger] n[k]).source_path == pages[t].source_path@ by {
                    if k == n.len() - 1 {
                        assert(n[k].source_path == pages[pages.len() - 1].source_path@);
                    } else {
                        assert(n[k] == l[k]);
                        let t = choose|t: int| 0 <= t < d.len() && l[k].source_path == d[t].source_path@;
                        assert(d[t] == pages[t]);
                    }
                }
            },
            None => {
                assert(library_records(pages) == l);
                assert forall|k: int| 0 <= k < l.len() implies exists|t: int|
                    0 <= t < pages.len() && (#[trigger] l[k]).source_path == pages[t].source_path@ by {
                    let t = choose|t: int| 0 <= t < d.len() && l[k].source_path == d[t].source_path@;
                    assert(d[t] == pages[t]);
                }
            },
        }
    }
}

/// The corpus of a library whose pages have distinct source paths holds one
/// record per page with answer metadata, each exactly once, sorted by id and
/// then by source path.
pub proof fn law_corpus_has_one_record_per_answer_page(pages: Seq<Page>)
    requires
        distinct_sources(pages),
    ensures
        sorted_records(pages).len() == answer_page_count(pages),
        strictly_sorted::<AnswerRecord>(sorted_records(pages)),
        forall|x: AnswerRecordV|
            #[trigger] sorted_records(pages).contains(x) <==> library_records(pages).contains(x),
{
    let l = library_records(pages);
    lemma_library_records(pages);
    lemma_sort_records(l);
    let w = sort_records(l);
    assert(strictly_sorted::<AnswerRecord>(w) && forall|x: AnswerRecordV|
        w.contains(x) <==> l.contains(x));
    let s = sorted_records(pages);
    lemma_strictly_sorted_unique::<AnswerRecord>(s, w);
}

/// In the corpus of a library that passes validation: ids strictly increase
/// along the corpus; looking an id up gives the one record with that id, and
/// nothing for an id no record has; and the related records of a record are
/// exactly the records its related ids name, in their order.
pub proof fn law_validated_corpus_lookup(pages: Seq<Page>)
    requires
        distinct_sources(pages),
        validation_errors(sorted_records(pages)).len() == 0,
    ensures
        forall|i: int, j: int|
            0 <= i < j < sorted_records(pages).len() ==> lex_lt(
                #[trigger] sorted_records(pages)[i].id,
                #[trigger] sorted_records(pages)[j].id,
            ),
        forall|i: int|
            0 <= i < sorted_records(pages).len() ==> last_with_id(
                sorted_records(pages),
                #[trigger] sorted_records(pages)[i].id,
            ) == Some(i),
        forall|id: Seq<char>|
            #[trigger] last_with_id(sorted_records(pages), id) is None <==> !has_record_id(
                sorted_records(pages),
                id,
            ),
        forall|i: int|
            0 <= i < sorted_records(pages).len() ==> (#[trigger] related_records(
                sorted_records(pages),
                sorted_records(pages)[i].id,
            )).map_values(|r: AnswerRecordV| r.id) == sorted_records(pages)[i].related,
{
    let s = sorted_records(pages);
    law_corpus_has_one_record_per_answer_page(pages);
    law_validated_records(s);
    assert forall|i: int, j: int| 0 <= i < j < s.len() implies lex_lt(
        #[trigger] s[i].id,
        #[trigger] s[j].id,
    ) by {
        assert(<AnswerRecord as Ordered>::less(s[i], s[j]));
    }
    assert forall|id: Seq<char>| #[trigger]
        last_with_id(s, id) is None <==> !has_record_id(s, id) by {
        lemma_last_with_id_bounds(s, id);
    }
    assert forall|i: int| 0 <= i < s.len() implies (#[trigger] related_records(
        s,
        s[i].id,
    )).map_values(|r: AnswerRecordV| r.id) == s[i].related by {
        assert(last_with_id(s, s[i].id) == Some(i));
        lemma_resolved_ids(s, s[i].related, s[i].related.len() as int, i);
        assert(s[i].related.take(s[i].related.len() as int) =~= s[i].related);
    }
}

proof fn lemma_resolved_ids(s: Seq<AnswerRecordV>, ids: Seq<Seq<char>>, n: int, i: int)
    requires
        0 <= n <= ids.len(),
        0 <= i < s.len(),
        ids == s[i].related,
        forall|a: int, k: int|
            0 <= a < s.len() && 0 <= k < s[a].related.len() ==> #[trigger] s[a].related[k]
                != s[a].id && has_record_id(s, s[a].related[k]),
    ensures
        resolved(s, ids.take(n)).map_values(|r: AnswerRecordV| r.id) == ids.take(n),
    decreases n,
{
    if n > 0 {
        lemma_resolved_ids(s, ids, n - 1, i);
        assert(ids.take(n).drop_last() =~= ids.take(n - 1));
        let id = ids[n - 1];
        assert(has_record_id(s, s[i].related[n - 1]));
        lemma_last_with_id_bounds(s, id);
        let prev = resolved(s, ids.take(n - 1));
        assert(resolved(s, ids.take(n)) == prev + seq![s[last_with_id(s, id)->0]]);
        assert(resolved(s, ids.take(n)).map_values(|r: AnswerRecordV| r.id) =~= prev.map_values(
            |r: AnswerRecordV| r.id,
        ).push(id));
        assert(ids.take(n) =~= ids.take(n - 1).push(id));
    } else {
        assert(ids.take(0) =~= Seq::<Seq<char>>::empty());
        assert(resolved(s, ids.take(0)).map_values(|r: AnswerRecordV| r.id) =~= Seq::<
            Seq<char>,
        >::empty());
    }
}

} // verus!
