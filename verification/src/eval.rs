//! Deterministic answer eval: text normalization, lexical ranking of answers
//! for a question, and the retrieval and selection checks of a fixture case.

use vstd::prelude::*;

use crate::answer::AiVisibility;
use crate::answers::{AnswerRecord, AnswerRecordV};
use crate::corpus::{ref_values, AnswerCorpus};
use crate::diagnostics::strs;
use crate::order::{
    insert_sorted_string, lemma_lex_irreflexive, lemma_lex_total, lemma_lex_transitive,
    lemma_strictly_sorted_unique, lex_lt, sort_total, sorted_arrangement, str_lt, strictly_sorted,
    values, Ordered, TotalOrdered,
};
use crate::text::{
    ascii_lower, chars_of, contains, is_ascii_alnum, contains_exec, eq, extend_str, split_whitespace_exec, split_ws, string_of, trim,
    trim_exec, views,
};

verus! {

// ---------------------------------------------------------------------------
// Normalization
// ---------------------------------------------------------------------------

/// What `char::to_lowercase` yields for a character.
pub uninterp spec fn char_lower(c: char) -> Seq<char>;

/// `char::to_lowercase`, collected. The result is named by `char_lower`;
/// for an ASCII character it is that character ASCII-lower-cased, as
/// `char::to_lowercase` documents.
#[verifier::external_body]
fn char_to_lowercase(c: char) -> (r: Vec<char>)
    ensures
        r@ == char_lower(c),
        (c as u32) < 128 ==> r@ == seq![ascii_lower(c)],
{
    c.to_lowercase().collect()
}

/// What `char::is_alphanumeric` says of a character.
pub uninterp spec fn alphanumeric(c: char) -> bool;

/// `char::is_alphanumeric`. The result is named by `alphanumeric`; for an
/// ASCII character it holds exactly of `0`-`9`, `a`-`z` and `A`-`Z`.
#[verifier::external_body]
fn is_alphanumeric(c: char) -> (r: bool)
    ensures
        r == alphanumeric(c),
        (c as u32) < 128 ==> (r <==> is_ascii_alnum(c)),
{
    c.is_alphanumeric()
}

/// Every character lower-cased.
pub open spec fn lowered(s: Seq<char>) -> Seq<char>
    decreases s.len(),
{
    if s.len() == 0 {
        seq![]
    } else {
        lowered(s.drop_last()) + char_lower(s.last())
    }
}

/// Alphanumeric characters kept, every other run of characters turned into
/// one space; `space` says whether the output so far ends in such a space.
pub open spec fn squash(cs: Seq<char>, space: bool) -> Seq<char>
    decreases cs.len(),
{
    if cs.len() == 0 {
        seq![]
    } else if alphanumeric(cs[0]) {
        seq![cs[0]] + squash(cs.skip(1), false)
    } else if !space {
        seq![' '] + squash(cs.skip(1), true)
    } else {
        squash(cs.skip(1), true)
    }
}

/// The normalized form of a text: lower-cased, runs of other characters
/// squashed into single spaces, trimmed.
pub open spec fn normalized(s: Seq<char>) -> Seq<char> {
    trim(squash(lowered(s), false))
}

proof fn lemma_squash_step(cs: Seq<char>, i: int, space: bool)
    requires
        0 <= i < cs.len(),
    ensures
        squash(cs.skip(i), space) == if alphanumeric(cs[i]) {
            seq![cs[i]] + squash(cs.skip(i + 1), false)
        } else if !space {
            seq![' '] + squash(cs.skip(i + 1), true)
        } else {
            squash(cs.skip(i + 1), true)
        },
{
    assert(cs.skip(i).skip(1) =~= cs.skip(i + 1));
    assert(cs.skip(i)[0] == cs[i]);
}

pub fn normalize_text(input: &str) -> (r: String)
    ensures
        r@ == normalized(input@),
{
    let chars = chars_of(input);
    let mut low: Vec<char> = Vec::new();
    let mut i: usize = 0;
    while i < chars.len()
        invariant
            i <= chars@.len(),
            low@ == lowered(chars@.take(i as int)),
        decreases chars.len() - i,
    {
        let l = char_to_lowercase(chars[i]);
        crate::text::extend(&mut low, &l);
        assert(chars@.take(i + 1).drop_last() =~= chars@.take(i as int));
        i += 1;
    }
    assert(chars@.take(i as int) =~= chars@);
    let mut out: Vec<char> = Vec::new();
    let mut space = false;
    let mut j: usize = 0;
    assert(low@.skip(0) =~= low@);
    while j < low.len()
        invariant
            j <= low@.len(),
            out@ + squash(low@.skip(j as int), space) == squash(low@, false),
        decreases low.len() - j,
    {
        let c = low[j];
        proof {
            lemma_squash_step(low@, j as int, space);
        }
        let ghost old_out = out@;
        let ghost old_space = space;
        if is_alphanumeric(c) {
            out.push(c);
            space = false;
        } else if !space {
            out.push(' ');
            space = true;
        }
        assert(out@ + squash(low@.skip(j + 1), space) =~= old_out + squash(
            low@.skip(j as int),
            old_space,
        ));
        j += 1;
    }
    assert(low@.skip(j as int) =~= Seq::<char>::empty());
    assert(out@ =~= squash(low@, false));
    let t = trim_exec(&out);
    string_of(&t)
}

/// `normalize_text(markdown).contains(normalize_text(term))`.
pub fn contains_term(markdown: &str, term: &str) -> (r: bool)
    ensures
        r == contains(normalized(markdown@), normalized(term@)),
{
    let m = normalize_text(markdown);
    let t = normalize_text(term);
    let mc = chars_of(m.as_str());
    let tc = chars_of(t.as_str());
    contains_exec(&mc, &tc)
}

// ---------------------------------------------------------------------------
// Tokens
// ---------------------------------------------------------------------------

/// A token counts when its UTF-8 form is longer than one byte.
pub open spec fn long_token(t: Seq<char>) -> bool {
    t.len() > 1 || (t.len() == 1 && t[0] >= '\u{80}')
}

/// `x` is a word of `s` longer than one byte.
pub open spec fn is_token(s: Seq<char>, x: Seq<char>) -> bool {
    split_ws(s).contains(x) && long_token(x)
}

/// The distinct words of a text longer than one byte, sorted.
pub open spec fn token_set(s: Seq<char>) -> Seq<Seq<char>> {
    choose|r: Seq<Seq<char>>|
        strictly_sorted::<String>(r) && forall|x: Seq<char>| r.contains(x) <==> is_token(s, x)
}

pub fn tokenize(input: &str) -> (r: Vec<String>)
    ensures
        values(r@) == token_set(input@),
{
    let chars = chars_of(input);
    let words = split_whitespace_exec(&chars);
    let ghost ws = views(words@);
    let mut r: Vec<String> = Vec::new();
    let mut i: usize = 0;
    while i < words.len()
        invariant
            i <= words@.len(),
            ws == views(words@),
            ws == split_ws(input@),
            strictly_sorted::<String>(values(r@)),
            forall|x: Seq<char>|
                values(r@).contains(x) <==> exists|k: int|
                    0 <= k < i && #[trigger] ws[k] == x && long_token(x),
        decreases words.len() - i,
    {
        let w = &words[i];
        let long = w.len() > 1 || (w.len() == 1 && w[0] >= '\u{80}');
        assert(long == long_token(w@));
        assert(ws[i as int] == w@);
        if long {
            let ghost before = values(r@);
            let _ = insert_sorted_string(&mut r, string_of(w));
            assert forall|x: Seq<char>|
                values(r@).contains(x) <==> exists|k: int|
                    0 <= k < i + 1 && #[trigger] ws[k] == x && long_token(x) by {
                if exists|k: int| 0 <= k < i + 1 && #[trigger] ws[k] == x && long_token(x) {
                    let k = choose|k: int| 0 <= k < i + 1 && #[trigger] ws[k] == x && long_token(x);
                    if k < i {
                        assert(before.contains(x));
                    }
                }
            }
        } else {
            assert forall|x: Seq<char>|
                values(r@).contains(x) <==> exists|k: int|
                    0 <= k < i + 1 && #[trigger] ws[k] == x && long_token(x) by {
                if exists|k: int| 0 <= k < i + 1 && #[trigger] ws[k] == x && long_token(x) {
                    let k = choose|k: int| 0 <= k < i + 1 && #[trigger] ws[k] == x && long_token(x);
                    assert(k != i);
                }
            }
        }
        i += 1;
    }
    proof {
        let w = token_set(input@);
        assert forall|x: Seq<char>| values(r@).contains(x) <==> is_token(input@, x) by {
            if values(r@).contains(x) {
                let k = choose|k: int| 0 <= k < i && #[trigger] ws[k] == x && long_token(x);
                assert(ws.contains(x));
            }
            if ws.contains(x) && long_token(x) {
                let k = choose|k: int| 0 <= k < ws.len() && ws[k] == x;
                assert(0 <= k < i && ws[k] == x && long_token(x));
            }
        }
        assert(strictly_sorted::<String>(w) && forall|x: Seq<char>|
            w.contains(x) <==> is_token(input@, x));
        lemma_strictly_sorted_unique::<String>(values(r@), w);
    }
    r
}

/// How many tokens of `q` are in `c`.
pub open spec fn shared_count(q: Seq<Seq<char>>, c: Seq<Seq<char>>) -> nat {
    q.filter(|t: Seq<char>| c.contains(t)).len()
}

fn shared_count_exec(q: &Vec<String>, c: &Vec<String>) -> (r: usize)
    ensures
        r == shared_count(values(q@), values(c@)),
{
    let ghost cv = values(c@);
    let mut n: usize = 0;
    let mut i: usize = 0;
    while i < q.len()
        invariant
            i <= q@.len(),
            cv == values(c@),
            n == values(q@).take(i as int).filter(|t: Seq<char>| cv.contains(t)).len(),
            n <= i,
        decreases q.len() - i,
    {
        proof {
            reveal(Seq::filter);
        }
        assert(values(q@).take(i + 1).drop_last() =~= values(q@).take(i as int));
        assert(values(q@).take(i + 1).last() == q@[i as int]@);
        let mut found = false;
        let mut j: usize = 0;
        while j < c.len()
            invariant
                j <= c@.len(),
                i < q@.len(),
                cv == values(c@),
                found == exists|t: int| 0 <= t < j && #[trigger] cv[t] == q@[i as int]@,
            decreases c.len() - j,
        {
            assert(cv[j as int] == c@[j as int]@);
            if c[j] == q[i] {
                found = true;
            }
            j += 1;
        }
        proof {
            if found {
                let t = choose|t: int| 0 <= t < j && #[trigger] cv[t] == q@[i as int]@;
                assert(cv.contains(q@[i as int]@));
            } else if cv.contains(q@[i as int]@) {
                let t = choose|t: int| 0 <= t < cv.len() && cv[t] == q@[i as int]@;
                assert(cv[t] == q@[i as int]@);
            }
        }
        if found {
            n += 1;
        }
        i += 1;
    }
    assert(values(q@).take(i as int) =~= values(q@));
    n
}

// ---------------------------------------------------------------------------
// Ranking
// ---------------------------------------------------------------------------

/// The score of one candidate text against a normalized query `q` with
/// tokens `qt`: `exact` for an equal text, `partial` when one contains the
/// other, plus `weight` per shared token.
pub open spec fn text_score(
    q: Seq<char>,
    qt: Seq<Seq<char>>,
    cand: Seq<char>,
    exact: nat,
    partial: nat,
    weight: nat,
) -> nat {
    let n = normalized(cand);
    (if n == q {
        exact
    } else if contains(n, q) || contains(q, n) {
        partial
    } else {
        0
    }) + shared_count(qt, token_set(n)) * weight
}

/// The scores of the first `n` texts of a list, summed.
pub open spec fn list_score(
    q: Seq<char>,
    qt: Seq<Seq<char>>,
    list: Seq<Seq<char>>,
    n: nat,
    exact: nat,
    partial: nat,
    weight: nat,
) -> nat
    decreases n,
{
    if n == 0 || n > list.len() {
        0
    } else {
        list_score(q, qt, list, (n - 1) as nat, exact, partial, weight) + text_score(
            q,
            qt,
            list[n - 1],
            exact,
            partial,
            weight,
        )
    }
}

/// The score of an answer for a normalized query `q` with tokens `qt`.
pub open spec fn record_score(q: Seq<char>, qt: Seq<Seq<char>>, r: AnswerRecordV) -> nat {
    (if normalized(r.title) == q {
        60nat
    } else {
        0nat
    }) + (if normalized(r.entity) == q {
        15nat
    } else {
        0nat
    }) + list_score(q, qt, r.canonical_questions, r.canonical_questions.len(), 120, 40, 12)
        + list_score(q, qt, r.retrieval_aliases, r.retrieval_aliases.len(), 80, 25, 8)
        + shared_count(qt, token_set(normalized(r.title))) * 10 + shared_count(
        qt,
        token_set(normalized(r.summary)),
    ) * 4 + shared_count(qt, token_set(normalized(r.entity))) * 3
}

proof fn lemma_list_score_monotone(
    q: Seq<char>,
    qt: Seq<Seq<char>>,
    list: Seq<Seq<char>>,
    m: nat,
    n: nat,
    exact: nat,
    partial: nat,
    weight: nat,
)
    requires
        m <= n <= list.len(),
    ensures
        list_score(q, qt, list, m, exact, partial, weight) <= list_score(
            q,
            qt,
            list,
            n,
            exact,
            partial,
            weight,
        ),
    decreases n,
{
    if m < n {
        lemma_list_score_monotone(q, qt, list, m, (n - 1) as nat, exact, partial, weight);
    }
}

fn text_score_exec(q: &String, qt: &Vec<String>, cand: &String, exact: u128, partial: u128, weight: u128) -> (r: u128)
    requires
        exact <= 200,
        partial <= 200,
        weight <= 20,
    ensures
        r == text_score(q@, values(qt@), cand@, exact as nat, partial as nat, weight as nat),
{
    let n = normalize_text(cand.as_str());
    let nc = chars_of(n.as_str());
    let qc = chars_of(q.as_str());
    let base: u128 = if crate::text::eq(&nc, &qc) {
        exact
    } else if contains_exec(&nc, &qc) || contains_exec(&qc, &nc) {
        partial
    } else {
        0
    };
    let toks = tokenize(n.as_str());
    let shared = shared_count_exec(qt, &toks);
    let sh = shared as u128;
    assert(sh * weight <= 20 * 0xffff_ffff_ffff_ffffu128) by (nonlinear_arith)
        requires
            sh <= 0xffff_ffff_ffff_ffffu128,
            weight <= 20,
    ;
    base + sh * weight
}

fn list_score_exec(
    q: &String,
    qt: &Vec<String>,
    list: &Vec<String>,
    exact: u128,
    partial: u128,
    weight: u128,
    bound: Ghost<nat>,
) -> (r: u128)
    requires
        exact <= 200,
        partial <= 200,
        weight <= 20,
        list_score(q@, values(qt@), strs(list@), list@.len(), exact as nat, partial as nat, weight as nat)
            <= bound@,
        bound@ <= i32::MAX,
    ensures
        r == list_score(q@, values(qt@), strs(list@), list@.len(), exact as nat, partial as nat, weight as nat),
{
    let ghost l = strs(list@);
    let mut acc: u128 = 0;
    let mut j: usize = 0;
    while j < list.len()
        invariant
            j <= list@.len(),
            l == strs(list@),
            exact <= 200,
            partial <= 200,
            weight <= 20,
            list_score(q@, values(qt@), l, l.len(), exact as nat, partial as nat, weight as nat) <= bound@,
            bound@ <= i32::MAX,
            acc == list_score(q@, values(qt@), l, j as nat, exact as nat, partial as nat, weight as nat),
        decreases list.len() - j,
    {
        proof {
            lemma_list_score_monotone(
                q@,
                values(qt@),
                l,
                (j + 1) as nat,
                l.len(),
                exact as nat,
                partial as nat,
                weight as nat,
            );
        }
        let t = text_score_exec(q, qt, &list[j], exact, partial, weight);
        assert(l[j as int] == list@[j as int]@);
        acc = acc + t;
        j += 1;
    }
    acc
}

/// A ranked answer: its id and score.
#[derive(Debug)]
pub struct RankedAnswer {
    pub id: String,
    pub score: i32,
}

impl View for RankedAnswer {
    type V = (Seq<char>, i32);

    open spec fn view(&self) -> (Seq<char>, i32) {
        (self.id@, self.score)
    }
}

/// Higher scores first, then ids in order.
impl Ordered for RankedAnswer {
    open spec fn less(a: (Seq<char>, i32), b: (Seq<char>, i32)) -> bool {
        a.1 > b.1 || (a.1 == b.1 && lex_lt(a.0, b.0))
    }

    proof fn less_irreflexive(a: (Seq<char>, i32)) {
        lemma_lex_irreflexive(a.0);
    }

    proof fn less_transitive(a: (Seq<char>, i32), b: (Seq<char>, i32), c: (Seq<char>, i32)) {
        if a.1 == b.1 && b.1 == c.1 {
            lemma_lex_transitive(a.0, b.0, c.0);
        }
    }

    fn lt(&self, other: &Self) -> (r: bool) {
        self.score > other.score || (self.score == other.score && str_lt(
            self.id.as_str(),
            other.id.as_str(),
        ))
    }
}

impl TotalOrdered for RankedAnswer {
    proof fn less_total(a: (Seq<char>, i32), b: (Seq<char>, i32)) {
        lemma_lex_total(a.0, b.0);
    }
}

/// The normalized query and its tokens.
pub open spec fn query_of(question: Seq<char>) -> Seq<char> {
    normalized(question)
}

/// Every answer that is not hidden from AI with a positive score, as
/// (id, score), in corpus order.
pub open spec fn scored(q: Seq<char>, s: Seq<AnswerRecordV>) -> Seq<(Seq<char>, i32)> {
    s.filter(|r: AnswerRecordV| r.ai_visibility != AiVisibility::Hidden).map_values(
        |r: AnswerRecordV| (r.id, record_score(q, token_set(q), r) as i32),
    ).filter(|c: (Seq<char>, i32)| c.1 > 0)
}

/// The scores of a corpus fit the score type.
pub open spec fn scores_fit(q: Seq<char>, s: Seq<AnswerRecordV>) -> bool {
    forall|k: int| 0 <= k < s.len() ==> record_score(q, token_set(q), #[trigger] s[k]) <= i32::MAX
}

fn record_score_exec(q: &String, qt: &Vec<String>, r: &AnswerRecord) -> (s: i32)
    requires
        values(qt@) == token_set(q@),
        record_score(q@, token_set(q@), r@) <= i32::MAX,
    ensures
        s == record_score(q@, token_set(q@), r@),
{
    let ghost total = record_score(q@, token_set(q@), r@);
    let title = normalize_text(r.title.as_str());
    let entity = normalize_text(r.entity.as_str());
    let summary = normalize_text(r.summary.as_str());
    let tc = chars_of(title.as_str());
    let ec = chars_of(entity.as_str());
    let qc = chars_of(q.as_str());
    let mut score: u128 = 0;
    if crate::text::eq(&tc, &qc) {
        score = score + 60;
    }
    if crate::text::eq(&ec, &qc) {
        score = score + 15;
    }
    let qs = list_score_exec(q, qt, &r.canonical_questions, 120, 40, 12, Ghost(total));
    let als = list_score_exec(q, qt, &r.retrieval_aliases, 80, 25, 8, Ghost(total));
    let tt = tokenize(title.as_str());
    let st = tokenize(summary.as_str());
    let et = tokenize(entity.as_str());
    let a = shared_count_exec(qt, &tt);
    let b = shared_count_exec(qt, &st);
    let c = shared_count_exec(qt, &et);
    score = score + qs + als + (a as u128) * 10 + (b as u128) * 4 + (c as u128) * 3;
    score as i32
}

fn list_score_checked(
    q: &String,
    qt: &Vec<String>,
    list: &Vec<String>,
    exact: u128,
    partial: u128,
    weight: u128,
) -> (r: Option<u128>)
    requires
        exact <= 200,
        partial <= 200,
        weight <= 20,
    ensures
        match r {
            Some(v) => v == list_score(q@, values(qt@), strs(list@), list@.len(), exact as nat, partial as nat, weight as nat)
                && v <= i32::MAX,
            None => list_score(q@, values(qt@), strs(list@), list@.len(), exact as nat, partial as nat, weight as nat)
                > i32::MAX,
        },
{
    let ghost l = strs(list@);
    let mut acc: u128 = 0;
    let mut j: usize = 0;
    while j < list.len()
        invariant
            j <= list@.len(),
            l == strs(list@),
            exact <= 200,
            partial <= 200,
            weight <= 20,
            acc <= i32::MAX,
            acc == list_score(q@, values(qt@), l, j as nat, exact as nat, partial as nat, weight as nat),
        decreases list.len() - j,
    {
        let t = text_score_exec(q, qt, &list[j], exact, partial, weight);
        assert(l[j as int] == list@[j as int]@);
        let next = acc.checked_add(t);
        j += 1;
        proof {
            lemma_list_score_monotone(
                q@,
                values(qt@),
                l,
                j as nat,
                l.len(),
                exact as nat,
                partial as nat,
                weight as nat,
            );
        }
        acc = match next {
            Some(v) => v,
            None => {
                return None;
            },
        };
        if acc > 0x7fff_ffff {
            proof {
                lemma_list_score_monotone(
                    q@,
                    values(qt@),
                    l,
                    j as nat,
                    l.len(),
                    exact as nat,
                    partial as nat,
                    weight as nat,
                );
            }
            return None;
        }
    }
    Some(acc)
}

fn record_fits(q: &String, qt: &Vec<String>, r: &AnswerRecord) -> (b: bool)
    requires
        values(qt@) == token_set(q@),
    ensures
        b == (record_score(q@, token_set(q@), r@) <= i32::MAX),
{
    let title = normalize_text(r.title.as_str());
    let entity = normalize_text(r.entity.as_str());
    let summary = normalize_text(r.summary.as_str());
    let tc = chars_of(title.as_str());
    let ec = chars_of(entity.as_str());
    let qc = chars_of(q.as_str());
    let mut score: u128 = 0;
    if crate::text::eq(&tc, &qc) {
        score = score + 60;
    }
    if crate::text::eq(&ec, &qc) {
        score = score + 15;
    }
    let qs = match list_score_checked(q, qt, &r.canonical_questions, 120, 40, 12) {
        Some(v) => v,
        None => {
            return false;
        },
    };
    let als = match list_score_checked(q, qt, &r.retrieval_aliases, 80, 25, 8) {
        Some(v) => v,
        None => {
            return false;
        },
    };
    let tt = tokenize(title.as_str());
    let st = tokenize(summary.as_str());
    let et = tokenize(entity.as_str());
    let a = shared_count_exec(qt, &tt);
    let b = shared_count_exec(qt, &st);
    let c = shared_count_exec(qt, &et);
    score = score + qs + als + (a as u128) * 10 + (b as u128) * 4 + (c as u128) * 3;
    score <= 0x7fff_ffff
}

/// Whether every answer's score for a question fits the score type, as
/// [`rank_answers`] requires.
pub fn scores_fit_check(question: &str, answers: &AnswerCorpus) -> (r: bool)
    ensures
        r == scores_fit(query_of(question@), answers@),
{
    let query = normalize_text(question);
    let query_tokens = tokenize(query.as_str());
    let recs = answers.iter();
    let ghost s = answers@;
    let mut i: usize = 0;
    while i < recs.len()
        invariant
            i <= recs@.len(),
            values(recs@) == s,
            s == answers@,
            query@ == query_of(question@),
            values(query_tokens@) == token_set(query@),
            forall|k: int| 0 <= k < i ==> record_score(query@, token_set(query@), #[trigger] s[k]) <= i32::MAX,
        decreases recs.len() - i,
    {
        assert(s[i as int] == recs@[i as int]@);
        if !record_fits(&query, &query_tokens, &recs[i]) {
            return false;
        }
        i += 1;
    }
    true
}

/// Some answer of `s` that is not hidden from AI has the id `id`, and
/// `score` is its positive score for the query `q`.
pub open spec fn visible_answer_scores(q: Seq<char>, s: Seq<AnswerRecordV>, id: Seq<char>, score: i32) -> bool {
    exists|j: int|
        0 <= j < s.len() && s[j].ai_visibility != AiVisibility::Hidden && s[j].id == id && score > 0
            && score == record_score(q, token_set(q), #[trigger] s[j])
}

/// Ranks the answers for a question: every answer not hidden from AI with a
/// positive score, highest score first, ties by id.
pub fn rank_answers(question: &str, answers: &AnswerCorpus) -> (r: Vec<RankedAnswer>)
    requires
        scores_fit(query_of(question@), answers@),
    ensures
        values(r@) == sorted_arrangement::<RankedAnswer>(scored(query_of(question@), answers@)),
        forall|k: int|
            0 <= k < r@.len() ==> visible_answer_scores(
                query_of(question@),
                answers@,
                (#[trigger] r@[k]).id@,
                r@[k].score,
            ),
        forall|j: int|
            0 <= j < answers@.len() && answers@[j].ai_visibility != AiVisibility::Hidden
                && record_score(query_of(question@), token_set(query_of(question@)), #[trigger] answers@[j])
                > 0 ==> exists|k: int|
                0 <= k < r@.len() && r@[k].id@ == answers@[j].id && r@[k].score == record_score(
                    query_of(question@),
                    token_set(query_of(question@)),
                    answers@[j],
                ),
{
    let query = normalize_text(question);
    let query_tokens = tokenize(query.as_str());
    let recs = answers.iter();
    let ghost s = answers@;
    let ghost q = query@;
    let mut out: Vec<RankedAnswer> = Vec::new();
    let mut i: usize = 0;
    while i < recs.len()
        invariant
            i <= recs@.len(),
            values(recs@) == s,
            s == answers@,
            q == query@,
            values(query_tokens@) == token_set(q),
            scores_fit(q, s),
            values(out@) == scored(q, s.take(i as int)),
        decreases recs.len() - i,
    {
        proof {
            reveal(Seq::filter);
        }
        let r = &recs[i];
        assert(s[i as int] == r@);
        let ghost before = values(out@);
        let ghost pre = s.take(i as int);
        let ghost post = s.take(i + 1);
        assert(post.drop_last() =~= pre);
        assert(post.last() == r@);
        if !matches!(r.ai_visibility, AiVisibility::Hidden) {
            let score = record_score_exec(&query, &query_tokens, r);
            let ghost vis_pre = pre.filter(|x: AnswerRecordV| x.ai_visibility != AiVisibility::Hidden);
            assert(post.filter(|x: AnswerRecordV| x.ai_visibility != AiVisibility::Hidden)
                =~= vis_pre.push(r@));
            let ghost f = |x: AnswerRecordV| (x.id, record_score(q, token_set(q), x) as i32);
            assert(vis_pre.push(r@).map_values(f) =~= vis_pre.map_values(f).push(f(r@)));
            assert(f(r@) == (r@.id, score));
            let ghost g = |c: (Seq<char>, i32)| c.1 > 0;
            assert(vis_pre.map_values(f).push(f(r@)).filter(g) == if score > 0 {
                vis_pre.map_values(f).filter(g).push(f(r@))
            } else {
                vis_pre.map_values(f).filter(g)
            }) by {
                assert(vis_pre.map_values(f).push(f(r@)).drop_last() =~= vis_pre.map_values(f));
            }
            if score > 0 {
                out.push(RankedAnswer { id: r.id.clone(), score });
                assert(values(out@) =~= before.push((r@.id, score)));
            }
        } else {
            assert(post.filter(|x: AnswerRecordV| x.ai_visibility != AiVisibility::Hidden)
                =~= pre.filter(|x: AnswerRecordV| x.ai_visibility != AiVisibility::Hidden));
        }
        i += 1;
    }
    assert(s.take(i as int) =~= s);
    let sorted = sort_total(out);
    proof {
        lemma_ranked_entries(q, s, sorted@);
    }
    sorted
}

/// Entries whose values are an arrangement of the scored candidates are
/// exactly the visible answers with a positive score, each with its score.
proof fn lemma_ranked_entries(q: Seq<char>, s: Seq<AnswerRecordV>, r: Seq<RankedAnswer>)
    requires
        scores_fit(q, s),
        values(r).to_multiset() == scored(q, s).to_multiset(),
    ensures
        forall|k: int|
            0 <= k < r.len() ==> visible_answer_scores(q, s, (#[trigger] r[k]).id@, r[k].score),
        forall|j: int|
            0 <= j < s.len() && s[j].ai_visibility != AiVisibility::Hidden
                && record_score(q, token_set(q), #[trigger] s[j]) > 0 ==> exists|k: int|
                0 <= k < r.len() && r[k].id@ == s[j].id && r[k].score == record_score(
                    q,
                    token_set(q),
                    s[j],
                ),
{
    broadcast use vstd::seq_lib::group_to_multiset_ensures;

    crate::laws::law_ranking_candidates(q, s);
    let cand = scored(q, s);
    let sv = values(r);
    assert forall|k: int| 0 <= k < r.len() implies visible_answer_scores(
        q,
        s,
        (#[trigger] r[k]).id@,
        r[k].score,
    ) by {
        let x = sv[k];
        assert(sv.contains(x));
        assert(sv.to_multiset().count(x) > 0);
        assert(cand.contains(x));
        let j = choose|j: int|
            0 <= j < s.len() && s[j].ai_visibility != AiVisibility::Hidden && record_score(
                q,
                token_set(q),
                s[j],
            ) > 0 && x == (s[j].id, record_score(q, token_set(q), s[j]) as i32);
        assert(record_score(q, token_set(q), s[j]) <= i32::MAX);
        assert(x == r[k]@);
        assert(r[k].score == record_score(q, token_set(q), s[j]));
        assert(s[j].id == r[k].id@);
    }
    assert forall|j: int|
        0 <= j < s.len() && s[j].ai_visibility != AiVisibility::Hidden && record_score(
            q,
            token_set(q),
            #[trigger] s[j],
        ) > 0 implies exists|k: int|
        0 <= k < r.len() && r[k].id@ == s[j].id && r[k].score == record_score(
            q,
            token_set(q),
            s[j],
        ) by {
        let x = (s[j].id, record_score(q, token_set(q), s[j]) as i32);
        assert(cand.contains(x));
        assert(cand.to_multiset().count(x) > 0);
        assert(sv.contains(x));
        let k = choose|k: int| 0 <= k < sv.len() && sv[k] == x;
        assert(r[k]@ == x);
    }
}

// ---------------------------------------------------------------------------
// Fixture cases
// ---------------------------------------------------------------------------

/// One eval case of a fixture file.
#[derive(Debug)]
pub struct EvalCase {
    pub question: String,
    pub expected_ids: Vec<String>,
    pub forbidden_ids: Vec<String>,
    pub required_terms: Vec<String>,
    pub rubric_focus: Option<String>,
}

/// Some value occurs twice.
pub open spec fn has_repeat(v: Seq<Seq<char>>) -> bool {
    exists|i: int, j: int| 0 <= i < j < v.len() && v[i] == v[j]
}

pub open spec fn duplicate_field_message(path: Seq<char>, field: Seq<char>) -> Seq<char> {
    "Eval fixture file "@ + path + " contains duplicate values in `"@ + field + "`"@
}

/// Fails when a list holds a value twice.
pub fn ensure_unique(field: &str, values_: &Vec<String>, path: &str) -> (r: Result<(), String>)
    ensures
        match r {
            Ok(()) => !has_repeat(strs(values_@)),
            Err(e) => has_repeat(strs(values_@)) && e@ == duplicate_field_message(path@, field@),
        },
{
    let ghost v = strs(values_@);
    let mut i: usize = 0;
    while i < values_.len()
        invariant
            i <= values_@.len(),
            v == strs(values_@),
            forall|a: int, b: int| 0 <= a < b < i ==> v[a] != v[b],
        decreases values_.len() - i,
    {
        let mut j: usize = 0;
        while j < i
            invariant
                j <= i < values_@.len(),
                v == strs(values_@),
                forall|a: int| 0 <= a < j ==> v[a] != v[i as int],
            decreases i - j,
        {
            if values_[j] == values_[i] {
                assert(v[j as int] == v[i as int]);
                let mut m: Vec<char> = Vec::new();
                extend_str(&mut m, "Eval fixture file ");
                extend_str(&mut m, path);
                extend_str(&mut m, " contains duplicate values in `");
                extend_str(&mut m, field);
                extend_str(&mut m, "`");
                return Err(string_of(&m));
            }
            j += 1;
        }
        i += 1;
    }
    Ok(())
}

/// The first problem with the cases of a fixture file, if any, checked case
/// by case: an empty trimmed question, then duplicates in the expected ids,
/// forbidden ids and required terms.
pub open spec fn fixture_error(path: Seq<char>, cases: Seq<EvalCase>) -> Option<Seq<char>>
    decreases cases.len(),
{
    if cases.len() == 0 {
        None
    } else {
        match fixture_error(path, cases.drop_last()) {
            Some(e) => Some(e),
            None => {
                let c = cases.last();
                if trim(c.question@).len() == 0 {
                    Some("Eval fixture file "@ + path + " contains a case with an empty question"@)
                } else if has_repeat(strs(c.expected_ids@)) {
                    Some(duplicate_field_message(path, "expected_ids"@))
                } else if has_repeat(strs(c.forbidden_ids@)) {
                    Some(duplicate_field_message(path, "forbidden_ids"@))
                } else if has_repeat(strs(c.required_terms@)) {
                    Some(duplicate_field_message(path, "required_terms"@))
                } else {
                    None
                }
            },
        }
    }
}

/// Checks the cases read from a fixture file and trims their questions.
pub fn prepare_fixture_cases(path: &str, cases: Vec<EvalCase>) -> (r: Result<Vec<EvalCase>, String>)
    ensures
        match r {
            Ok(v) => cases@.len() > 0 && fixture_error(path@, cases@) is None && v@.len()
                == cases@.len() && forall|k: int|
                0 <= k < v@.len() ==> (#[trigger] v@[k]).question@ == trim(cases@[k].question@)
                    && v@[k].expected_ids@ == cases@[k].expected_ids@
                    && v@[k].forbidden_ids@ == cases@[k].forbidden_ids@
                    && v@[k].required_terms@ == cases@[k].required_terms@
                    && v@[k].rubric_focus == cases@[k].rubric_focus,
            Err(e) => if cases@.len() == 0 {
                e@ == "Eval fixture file "@ + path@ + " does not contain any cases"@
            } else {
                fixture_error(path@, cases@) == Some(e@)
            },
        },
{
    if cases.len() == 0 {
        let mut m: Vec<char> = Vec::new();
        extend_str(&mut m, "Eval fixture file ");
        extend_str(&mut m, path);
        extend_str(&mut m, " does not contain any cases");
        return Err(string_of(&m));
    }
    let ghost orig = cases@;
    let mut rest = cases;
    let mut out: Vec<EvalCase> = Vec::new();
    let mut i: usize = 0;
    let n = rest.len();
    while rest.len() > 0
        invariant
            orig == cases@,
            orig.len() == n,
            n > 0,
            i + rest@.len() == n,
            rest@ == orig.skip(i as int),
            fixture_error(path@, orig.take(i as int)) is None,
            out@.len() == i,
            forall|k: int|
                0 <= k < i ==> (#[trigger] out@[k]).question@ == trim(orig[k].question@)
                    && out@[k].expected_ids@ == orig[k].expected_ids@
                    && out@[k].forbidden_ids@ == orig[k].forbidden_ids@
                    && out@[k].required_terms@ == orig[k].required_terms@
                    && out@[k].rubric_focus == orig[k].rubric_focus,
        decreases rest@.len(),
    {
        let ghost before = rest@;
        let c = rest.remove(0);
        assert(c == orig[i as int]);
        assert(rest@ =~= orig.skip(i + 1));
        assert(orig.take(i + 1).drop_last() =~= orig.take(i as int));
        let q = chars_of(c.question.as_str());
        let t = trim_exec(&q);
        if t.len() == 0 {
            proof {
                lemma_fixture_error_extends(path@, orig, i + 1);
            }
            let mut m: Vec<char> = Vec::new();
            extend_str(&mut m, "Eval fixture file ");
            extend_str(&mut m, path);
            extend_str(&mut m, " contains a case with an empty question");
            return Err(string_of(&m));
        }
        match ensure_unique("expected_ids", &c.expected_ids, path) {
            Err(e) => {
                proof {
                    lemma_fixture_error_extends(path@, orig, i + 1);
                }
                return Err(e);
            },
            Ok(()) => {},
        }
        match ensure_unique("forbidden_ids", &c.forbidden_ids, path) {
            Err(e) => {
                proof {
                    lemma_fixture_error_extends(path@, orig, i + 1);
                }
                return Err(e);
            },
            Ok(()) => {},
        }
        match ensure_unique("required_terms", &c.required_terms, path) {
            Err(e) => {
                proof {
                    lemma_fixture_error_extends(path@, orig, i + 1);
                }
                return Err(e);
            },
            Ok(()) => {},
        }
        let EvalCase { question: _, expected_ids, forbidden_ids, required_terms, rubric_focus } = c;
        out.push(
            EvalCase {
                question: string_of(&t),
                expected_ids,
                forbidden_ids,
                required_terms,
                rubric_focus,
            },
        );
        i += 1;
    }
    assert(orig.take(i as int) =~= orig);
    Ok(out)
}

proof fn lemma_fixture_error_extends(path: Seq<char>, cases: Seq<EvalCase>, n: int)
    requires
        0 <= n <= cases.len(),
        fixture_error(path, cases.take(n)) is Some,
    ensures
        fixture_error(path, cases) == fixture_error(path, cases.take(n)),
    decreases cases.len() - n,
{
    if n < cases.len() {
        assert(cases.take(n + 1).drop_last() =~= cases.take(n));
        lemma_fixture_error_extends(path, cases, n + 1);
    } else {
        assert(cases.take(n) =~= cases);
    }
}

// ---------------------------------------------------------------------------
// Settings
// ---------------------------------------------------------------------------

/// The model used when LLM grading is on and none is configured.
pub const DEFAULT_EVAL_MODEL: &'static str = "gpt-5.4-mini";

/// The endpoint used when none is configured.
pub const OPENAI_RESPONSES_URL: &'static str = "https://api.openai.com/v1/responses";

/// The fixture file read when none is given.
pub const DEFAULT_FIXTURES_PATH: &'static str = "eval/fixtures.yaml";

/// The model to grade with: the override, else the configured model, else
/// the default when grading is on; it must be a GPT-5.4 model.
pub open spec fn chosen_model(
    configured: Option<Seq<char>>,
    llm_enabled: bool,
    model_override: Option<Seq<char>>,
) -> Option<Seq<char>> {
    if model_override is Some {
        model_override
    } else if configured is Some {
        configured
    } else if llm_enabled {
        Some(DEFAULT_EVAL_MODEL@)
    } else {
        None
    }
}

pub fn resolve_model(eval: &crate::config::Eval, llm_enabled: bool, model_override: Option<&str>) -> (r:
    Result<Option<String>, String>)
    ensures
        match chosen_model(
            crate::diagnostics::ostr(eval.model),
            llm_enabled,
            match model_override {
                Some(m) => Some(m@),
                None => None,
            },
        ) {
            Some(m) => if crate::text::starts_with(m, "gpt-5.4"@) {
                r matches Ok(Some(x)) && x@ == m
            } else {
                r matches Err(e) && e@ == "Eval model `"@ + m + "` must be in the GPT-5.4 family"@
            },
            None => r matches Ok(None),
        },
{
    let model: Option<String> = match model_override {
        Some(m) => Some(m.to_owned()),
        None => match &eval.model {
            Some(m) => Some(m.clone()),
            None => if llm_enabled {
                Some(DEFAULT_EVAL_MODEL.to_owned())
            } else {
                None
            },
        },
    };
    match model {
        Some(m) => {
            let mc = chars_of(m.as_str());
            let prefix = chars_of("gpt-5.4");
            if !crate::text::starts_with_exec(&mc, &prefix) {
                let mut e: Vec<char> = Vec::new();
                extend_str(&mut e, "Eval model `");
                extend_str(&mut e, m.as_str());
                extend_str(&mut e, "` must be in the GPT-5.4 family");
                return Err(string_of(&e));
            }
            Ok(Some(m))
        },
        None => Ok(None),
    }
}

/// The endpoint: the override, else the configured one, else the OpenAI
/// Responses API.
pub fn resolve_api_base(eval: &crate::config::Eval, api_base_override: Option<&str>) -> (r: String)
    ensures
        r@ == match api_base_override {
            Some(a) => a@,
            None => match eval.api_base {
                Some(a) => a@,
                None => OPENAI_RESPONSES_URL@,
            },
        },
{
    match api_base_override {
        Some(a) => a.to_owned(),
        None => match &eval.api_base {
            Some(a) => a.clone(),
            None => OPENAI_RESPONSES_URL.to_owned(),
        },
    }
}

/// `root.join(path)` for Unix paths: an absolute path replaces the root;
/// otherwise the two are joined by one `/`.
pub open spec fn joined_path(root: Seq<char>, path: Seq<char>) -> Seq<char> {
    if crate::text::starts_with(path, "/"@) {
        path
    } else if root.len() == 0 || crate::text::ends_with(root, "/"@) {
        root + path
    } else {
        root + seq!['/'] + path
    }
}

/// The fixture file to read: the given path, resolved against the project
/// root when relative.
pub fn resolve_fixture_path(root_dir: &str, fixtures: &str) -> (r: String)
    ensures
        r@ == joined_path(root_dir@, fixtures@),
{
    let mut sl: Vec<char> = Vec::new();
    sl.push('/');
    proof {
        reveal_strlit("/");
        assert(sl@ =~= "/"@);
    }
    let f = chars_of(fixtures);
    let root = chars_of(root_dir);
    if crate::text::starts_with_exec(&f, &sl) {
        return fixtures.to_owned();
    }
    let mut out = root;
    if !(out.len() == 0 || crate::text::ends_with_exec(&out, &sl)) {
        out.push('/');
    }
    crate::text::extend(&mut out, &f);
    string_of(&out)
}

// ---------------------------------------------------------------------------
// Grading failures
// ---------------------------------------------------------------------------

/// The reason phrase `http::StatusCode::canonical_reason` gives a code.
pub uninterp spec fn status_reason(code: u16) -> Option<Seq<char>>;

/// `reqwest::StatusCode::from_u16(code)` and its `canonical_reason()`; the
/// result is named by `status_reason`.
#[verifier::external_body]
fn reason_phrase(code: u16) -> (r: Option<String>)
    requires
        100 <= code <= 999,
    ensures
        match r {
            Some(s) => status_reason(code) == Some(s@),
            None => status_reason(code) is None,
        },
{
    reqwest::StatusCode::from_u16(code).unwrap().canonical_reason().map(|s| s.to_string())
}

/// How a status code is displayed: the number and its reason phrase.
pub open spec fn status_text(code: u16) -> Seq<char> {
    crate::text::decimal(code as nat) + " "@ + match status_reason(code) {
        Some(r) => r,
        None => "<unknown status code>"@,
    }
}

fn status_text_exec(code: u16) -> (r: String)
    requires
        100 <= code <= 999,
    ensures
        r@ == status_text(code),
{
    let mut v = crate::text::decimal_exec(code as usize);
    extend_str(&mut v, " ");
    match reason_phrase(code) {
        Some(p) => extend_str(&mut v, p.as_str()),
        None => extend_str(&mut v, "<unknown status code>"),
    }
    string_of(&v)
}

/// The message for a failed grading request.
pub open spec fn failure_message(
    api_base: Seq<char>,
    status: Option<u16>,
    is_timeout: bool,
    is_connect: bool,
    detail: Seq<char>,
) -> Seq<char> {
    if is_timeout {
        "OpenAI eval request timed out after 45s while calling "@ + api_base
            + ". Check network reachability, proxy settings, or try again later."@
    } else if status is Some {
        let code = status->0;
        let st = status_text(code);
        if code == 401 || code == 403 {
            "OpenAI eval request was rejected with "@ + st + " from "@ + api_base
                + ". Check OPENAI_API_KEY and API access for the selected GPT-5.4 model."@
        } else if code == 429 {
            "OpenAI eval request was rate limited with "@ + st + " from "@ + api_base
                + ". Wait for capacity to recover or reduce eval concurrency."@
        } else if 500 <= code < 600 {
            "OpenAI eval request failed with upstream status "@ + st + " from "@ + api_base
                + ". The OpenAI API is unavailable or unstable; retry later."@
        } else if 400 <= code < 500 {
            "OpenAI eval request failed with API status "@ + st + " from "@ + api_base
                + ". Check the eval request configuration and selected model."@
        } else {
            "OpenAI eval request failed with unexpected status "@ + st + " from "@ + api_base + "."@
        }
    } else if is_connect {
        "OpenAI eval request could not connect to "@ + api_base
            + ". Check DNS, firewall, proxy, or outbound network access."@
    } else {
        "OpenAI eval transport failure while calling "@ + api_base + ": "@ + detail
    }
}

fn cat(parts: &mut Vec<char>, a: &str) -> (r: ())
    ensures
        final(parts)@ == old(parts)@ + a@,
{
    extend_str(parts, a);
}

/// Explains a failed grading request: a timeout, an HTTP status (a valid
/// code, 100 to 999), a connection failure, or another transport error.
pub fn classify_openai_failure(
    api_base: &str,
    status: Option<u16>,
    is_timeout: bool,
    is_connect: bool,
    detail: &str,
) -> (r: String)
    requires
        status matches Some(c) ==> 100 <= c <= 999,
    ensures
        r@ == failure_message(api_base@, status, is_timeout, is_connect, detail@),
{
    let mut m: Vec<char> = Vec::new();
    if is_timeout {
        cat(&mut m, "OpenAI eval request timed out after 45s while calling ");
        cat(&mut m, api_base);
        cat(&mut m, ". Check network reachability, proxy settings, or try again later.");
        return string_of(&m);
    }
    match status {
        Some(code) => {
            let st = status_text_exec(code);
            if code == 401 || code == 403 {
                cat(&mut m, "OpenAI eval request was rejected with ");
                cat(&mut m, st.as_str());
                cat(&mut m, " from ");
                cat(&mut m, api_base);
                cat(&mut m, ". Check OPENAI_API_KEY and API access for the selected GPT-5.4 model.");
            } else if code == 429 {
                cat(&mut m, "OpenAI eval request was rate limited with ");
                cat(&mut m, st.as_str());
                cat(&mut m, " from ");
                cat(&mut m, api_base);
                cat(&mut m, ". Wait for capacity to recover or reduce eval concurrency.");
            } else if 500 <= code && code < 600 {
                cat(&mut m, "OpenAI eval request failed with upstream status ");
                cat(&mut m, st.as_str());
                cat(&mut m, " from ");
                cat(&mut m, api_base);
                cat(&mut m, ". The OpenAI API is unavailable or unstable; retry later.");
            } else if 400 <= code && code < 500 {
                cat(&mut m, "OpenAI eval request failed with API status ");
                cat(&mut m, st.as_str());
                cat(&mut m, " from ");
                cat(&mut m, api_base);
                cat(&mut m, ". Check the eval request configuration and selected model.");
            } else {
                cat(&mut m, "OpenAI eval request failed with unexpected status ");
                cat(&mut m, st.as_str());
                cat(&mut m, " from ");
                cat(&mut m, api_base);
                cat(&mut m, ".");
            }
            string_of(&m)
        },
        None => {
            if is_connect {
                cat(&mut m, "OpenAI eval request could not connect to ");
                cat(&mut m, api_base);
                cat(&mut m, ". Check DNS, firewall, proxy, or outbound network access.");
            } else {
                cat(&mut m, "OpenAI eval transport failure while calling ");
                cat(&mut m, api_base);
                cat(&mut m, ": ");
                cat(&mut m, detail);
            }
            string_of(&m)
        },
    }
}

// ---------------------------------------------------------------------------
// Case checks
// ---------------------------------------------------------------------------

/// The retrieval check of a case.
#[derive(Debug)]
pub struct RetrievalCaseReport {
    pub passed: bool,
    pub ranked_ids: Vec<String>,
    pub missing_expected_ids: Vec<String>,
    pub present_forbidden_ids: Vec<String>,
}

/// The selection check of a case.
#[derive(Debug)]
pub struct SelectionCaseReport {
    pub passed: bool,
    pub selected_id: Option<String>,
    pub missing_required_terms: Vec<String>,
}

/// The machine Markdown of the answer with id `id`: that of the last page
/// with this answer id and machine Markdown.
pub open spec fn markdown_of(pages: Seq<crate::library::Page>, id: Seq<char>) -> Option<Seq<char>>
    decreases pages.len(),
{
    if pages.len() == 0 {
        None
    } else {
        let p = pages.last();
        if p.answer is Some && p.answer->0.id@ == id && p.canonical_machine_markdown is Some {
            Some(p.canonical_machine_markdown->0@)
        } else {
            markdown_of(pages.drop_last(), id)
        }
    }
}

pub fn machine_markdown_for(library: &crate::library::Library, id: &str) -> (r: Option<String>)
    ensures
        crate::diagnostics::ostr(r) == markdown_of(library.pages@, id@),
{
    let pages = &library.pages;
    let mut i = pages.len();
    assert(pages@.take(i as int) =~= pages@);
    while i > 0
        invariant
            i <= pages@.len(),
            pages == &library.pages,
            markdown_of(pages@, id@) == markdown_of(pages@.take(i as int), id@),
        decreases i,
    {
        let p = &pages[i - 1];
        assert(pages@.take(i as int).last() == *p);
        assert(pages@.take(i as int).drop_last() =~= pages@.take(i - 1));
        match (&p.answer, &p.canonical_machine_markdown) {
            (Some(a), Some(md)) => {
                if str_equal(&a.id, id) {
                    return Some(md.clone());
                }
            },
            _ => {},
        }
        i -= 1;
    }
    None
}

fn str_equal(a: &String, b: &str) -> (r: bool)
    ensures
        r == (a@ == b@),
{
    crate::text::str_eq(a.as_str(), b)
}

/// The first ranked id that is not forbidden.
pub open spec fn first_allowed(ranked: Seq<Seq<char>>, forbidden: Seq<Seq<char>>) -> Option<Seq<char>>
    decreases ranked.len(),
{
    if ranked.len() == 0 {
        None
    } else if !forbidden.contains(ranked[0]) {
        Some(ranked[0])
    } else {
        first_allowed(ranked.skip(1), forbidden)
    }
}

/// The retrieval check: the ranked ids, the expected ids missing from them,
/// the forbidden ids present in them; it passes when nothing is missing or
/// present and something was ranked.
pub open spec fn retrieval_ok(ranked: Seq<Seq<char>>, expected: Seq<Seq<char>>, forbidden: Seq<Seq<char>>) -> bool {
    expected.filter(|id: Seq<char>| !ranked.contains(id)).len() == 0 && forbidden.filter(
        |id: Seq<char>| ranked.contains(id),
    ).len() == 0 && ranked.len() > 0
}

/// The required terms that the selected answer's Markdown lacks.
pub open spec fn missing_terms(md: Option<Seq<char>>, required: Seq<Seq<char>>) -> Seq<Seq<char>> {
    required.filter(
        |t: Seq<char>| !(md is Some && contains(normalized(md->0), normalized(t))),
    )
}

fn contains_id(v: &Vec<String>, id: &String) -> (r: bool)
    ensures
        r == strs(v@).contains(id@),
{
    let mut i: usize = 0;
    while i < v.len()
        invariant
            i <= v@.len(),
            forall|k: int| 0 <= k < i ==> v@[k]@ != id@,
        decreases v.len() - i,
    {
        if v[i] == *id {
            assert(strs(v@)[i as int] == id@);
            return true;
        }
        i += 1;
    }
    proof {
        if strs(v@).contains(id@) {
            let k = choose|k: int| 0 <= k < strs(v@).len() && strs(v@)[k] == id@;
            assert(v@[k]@ == id@);
        }
    }
    false
}

/// The entries of `v` whose presence in `within` is `keep_present`.
fn filter_by_presence(v: &Vec<String>, within: &Vec<String>, keep_present: bool) -> (r: Vec<String>)
    ensures
        strs(r@) == strs(v@).filter(
            |id: Seq<char>| strs(within@).contains(id) == keep_present,
        ),
{
    let mut r: Vec<String> = Vec::new();
    let mut i: usize = 0;
    while i < v.len()
        invariant
            i <= v@.len(),
            strs(r@) == strs(v@.take(i as int)).filter(
                |id: Seq<char>| strs(within@).contains(id) == keep_present,
            ),
        decreases v.len() - i,
    {
        proof {
            reveal(Seq::filter);
        }
        let ghost before = strs(r@);
        assert(strs(v@.take(i + 1)).drop_last() =~= strs(v@.take(i as int)));
        assert(strs(v@.take(i + 1)).last() == v@[i as int]@);
        if contains_id(within, &v[i]) == keep_present {
            r.push(v[i].clone());
            assert(strs(r@) =~= before.push(v@[i as int]@));
        }
        i += 1;
    }
    assert(v@.take(i as int) =~= v@);
    r
}

/// Runs the retrieval and selection checks of a case against the ranking
/// of its question.
pub fn evaluate_case(
    case: &EvalCase,
    ranked: &Vec<RankedAnswer>,
    library: &crate::library::Library,
) -> (r: (RetrievalCaseReport, SelectionCaseReport))
    ensures
        ({
            let ids = values(ranked@).map_values(|c: (Seq<char>, i32)| c.0);
            let expected = strs(case.expected_ids@);
            let forbidden = strs(case.forbidden_ids@);
            let sel = first_allowed(ids, forbidden);
            let md = match sel {
                Some(s) => markdown_of(library.pages@, s),
                None => None,
            };
            &&& strs(r.0.ranked_ids@) == ids
            &&& strs(r.0.missing_expected_ids@) == expected.filter(|id: Seq<char>| !ids.contains(id))
            &&& strs(r.0.present_forbidden_ids@) == forbidden.filter(|id: Seq<char>| ids.contains(id))
            &&& r.0.passed == retrieval_ok(ids, expected, forbidden)
            &&& r.0.passed == (r.0.missing_expected_ids@.len() == 0
                && r.0.present_forbidden_ids@.len() == 0 && r.0.ranked_ids@.len() > 0)
            &&& crate::diagnostics::ostr(r.1.selected_id) == sel
            &&& strs(r.1.missing_required_terms@) == missing_terms(md, strs(case.required_terms@))
            &&& r.1.passed == (sel is Some && (expected.len() == 0 || expected.contains(sel->0))
                && missing_terms(md, strs(case.required_terms@)).len() == 0)
        }),
{
    let ghost ids = values(ranked@).map_values(|c: (Seq<char>, i32)| c.0);
    let mut ranked_ids: Vec<String> = Vec::new();
    let mut i: usize = 0;
    while i < ranked.len()
        invariant
            i <= ranked@.len(),
            ids == values(ranked@).map_values(|c: (Seq<char>, i32)| c.0),
            strs(ranked_ids@) == ids.take(i as int),
        decreases ranked.len() - i,
    {
        let ghost before = strs(ranked_ids@);
        ranked_ids.push(ranked[i].id.clone());
        assert(ids[i as int] == ranked@[i as int].id@);
        assert(ids.take(i + 1) =~= ids.take(i as int).push(ids[i as int]));
        assert(strs(ranked_ids@) =~= before.push(ranked@[i as int].id@));
        i += 1;
    }
    assert(ids.take(i as int) =~= ids);
    let missing = filter_by_presence(&case.expected_ids, &ranked_ids, false);
    let present = filter_by_presence(&case.forbidden_ids, &ranked_ids, true);
    proof {
        let f1 = |id: Seq<char>| strs(ranked_ids@).contains(id) == false;
        let f2 = |id: Seq<char>| !ids.contains(id);
        assert(f1 =~= f2);
        let g1 = |id: Seq<char>| strs(ranked_ids@).contains(id) == true;
        let g2 = |id: Seq<char>| ids.contains(id);
        assert(g1 =~= g2);
    }
    let retrieval_passed = missing.len() == 0 && present.len() == 0 && ranked_ids.len() > 0;
    // selection
    let ghost forbidden = strs(case.forbidden_ids@);
    let mut selected: Option<String> = None;
    let mut j: usize = 0;
    assert(ids.skip(0) =~= ids);
    while j < ranked_ids.len() && selected.is_none()
        invariant
            j <= ranked_ids@.len(),
            strs(ranked_ids@) == ids,
            forbidden == strs(case.forbidden_ids@),
            selected is None ==> first_allowed(ids, forbidden) == first_allowed(
                ids.skip(j as int),
                forbidden,
            ),
            selected is Some ==> crate::diagnostics::ostr(selected) == first_allowed(ids, forbidden),
        decreases ranked_ids.len() - j,
    {
        assert(ids.skip(j as int)[0] == ranked_ids@[j as int]@);
        assert(ids.skip(j as int).skip(1) =~= ids.skip(j + 1));
        if !contains_id(&case.forbidden_ids, &ranked_ids[j]) {
            selected = Some(ranked_ids[j].clone());
        }
        j += 1;
    }
    let ghost sel = first_allowed(ids, forbidden);
    proof {
        if j == ranked_ids@.len() {
            assert(ids.skip(j as int).len() == 0);
        }
    }
    assert(crate::diagnostics::ostr(selected) == sel);
    let md = match &selected {
        Some(s) => machine_markdown_for(library, s.as_str()),
        None => None,
    };
    let ghost mdv = crate::diagnostics::ostr(md);
    let mut missing_terms_v: Vec<String> = Vec::new();
    let mut k: usize = 0;
    while k < case.required_terms.len()
        invariant
            k <= case.required_terms@.len(),
            mdv == crate::diagnostics::ostr(md),
            strs(missing_terms_v@) == missing_terms(mdv, strs(case.required_terms@.take(k as int))),
        decreases case.required_terms.len() - k,
    {
        proof {
            reveal(Seq::filter);
        }
        let ghost before = strs(missing_terms_v@);
        assert(strs(case.required_terms@.take(k + 1)).drop_last() =~= strs(
            case.required_terms@.take(k as int),
        ));
        assert(strs(case.required_terms@.take(k + 1)).last() == case.required_terms@[k as int]@);
        let found = match &md {
            Some(m) => contains_term(m.as_str(), case.required_terms[k].as_str()),
            None => false,
        };
        if !found {
            missing_terms_v.push(case.required_terms[k].clone());
            assert(strs(missing_terms_v@) =~= before.push(case.required_terms@[k as int]@));
        }
        k += 1;
    }
    assert(case.required_terms@.take(k as int) =~= case.required_terms@);
    let selection_passed = match &selected {
        Some(s) => (case.expected_ids.len() == 0 || contains_id(&case.expected_ids, s))
            && missing_terms_v.len() == 0,
        None => false,
    };
    (
        RetrievalCaseReport {
            passed: retrieval_passed,
            ranked_ids,
            missing_expected_ids: missing,
            present_forbidden_ids: present,
        },
        SelectionCaseReport {
            passed: selection_passed,
            selected_id: selected,
            missing_required_terms: missing_terms_v,
        },
    )
}

/// The outcome of one case before the summary: retrieval and selection
/// verdicts, and the LLM grade's verdict when the case was graded.
#[derive(Clone, Copy, Debug)]
pub struct CaseVerdicts {
    pub retrieval_passed: bool,
    pub selection_passed: bool,
    pub llm_passed: Option<bool>,
}

/// The counts of an eval run.
#[derive(Clone, Copy, Debug)]
pub struct EvalCounts {
    pub total_cases: usize,
    pub passed_cases: usize,
    pub retrieval_passed: usize,
    pub selection_passed: usize,
    pub llm_scored_cases: usize,
    pub llm_passed_cases: usize,
}

/// A case passes when retrieval and selection pass and its LLM grade passed,
/// or, ungraded, when LLM grading is not required.
pub open spec fn case_passes(v: CaseVerdicts, require_llm: bool) -> bool {
    v.retrieval_passed && v.selection_passed && match v.llm_passed {
        Some(p) => p,
        None => !require_llm,
    }
}

pub open spec fn count_where(vs: Seq<CaseVerdicts>, f: spec_fn(CaseVerdicts) -> bool) -> nat {
    vs.filter(f).len()
}

/// Decides each case and counts the outcomes.
pub fn tally_cases(cases: &Vec<CaseVerdicts>, require_llm: bool) -> (r: (Vec<bool>, EvalCounts))
    ensures
        r.0@ == cases@.map_values(|v: CaseVerdicts| case_passes(v, require_llm)),
        r.1.total_cases == cases@.len(),
        r.1.passed_cases == count_where(cases@, |v: CaseVerdicts| case_passes(v, require_llm)),
        r.1.retrieval_passed == count_where(cases@, |v: CaseVerdicts| v.retrieval_passed),
        r.1.selection_passed == count_where(cases@, |v: CaseVerdicts| v.selection_passed),
        r.1.llm_scored_cases == count_where(cases@, |v: CaseVerdicts| v.llm_passed is Some),
        r.1.llm_passed_cases == count_where(cases@, |v: CaseVerdicts| v.llm_passed == Some(true)),
{
    let mut passed: Vec<bool> = Vec::new();
    let mut c = EvalCounts {
        total_cases: cases.len(),
        passed_cases: 0,
        retrieval_passed: 0,
        selection_passed: 0,
        llm_scored_cases: 0,
        llm_passed_cases: 0,
    };
    let mut i: usize = 0;
    while i < cases.len()
        invariant
            i <= cases@.len(),
            c.total_cases == cases@.len(),
            passed@ == cases@.take(i as int).map_values(|v: CaseVerdicts| case_passes(v, require_llm)),
            c.passed_cases == count_where(cases@.take(i as int), |v: CaseVerdicts| case_passes(v, require_llm)),
            c.retrieval_passed == count_where(cases@.take(i as int), |v: CaseVerdicts| v.retrieval_passed),
            c.selection_passed == count_where(cases@.take(i as int), |v: CaseVerdicts| v.selection_passed),
            c.llm_scored_cases == count_where(cases@.take(i as int), |v: CaseVerdicts| v.llm_passed is Some),
            c.llm_passed_cases == count_where(cases@.take(i as int), |v: CaseVerdicts| v.llm_passed == Some(true)),
            c.passed_cases <= i,
            c.retrieval_passed <= i,
            c.selection_passed <= i,
            c.llm_scored_cases <= i,
            c.llm_passed_cases <= i,
        decreases cases.len() - i,
    {
        proof {
            reveal(Seq::filter);
        }
        let v = cases[i];
        assert(cases@.take(i + 1).drop_last() =~= cases@.take(i as int));
        assert(cases@.take(i + 1).last() == v);
        let llm_ok = match v.llm_passed {
            Some(p) => p,
            None => !require_llm,
        };
        let ok = v.retrieval_passed && v.selection_passed && llm_ok;
        passed.push(ok);
        assert(passed@ =~= cases@.take(i + 1).map_values(|w: CaseVerdicts| case_passes(w, require_llm)));
        if ok {
            c.passed_cases = c.passed_cases + 1;
        }
        if v.retrieval_passed {
            c.retrieval_passed = c.retrieval_passed + 1;
        }
        if v.selection_passed {
            c.selection_passed = c.selection_passed + 1;
        }
        match v.llm_passed {
            Some(p) => {
                c.llm_scored_cases = c.llm_scored_cases + 1;
                if p {
                    c.llm_passed_cases = c.llm_passed_cases + 1;
                }
            },
            None => {},
        }
        i += 1;
    }
    assert(cases@.take(i as int) =~= cases@);
    (passed, c)
}

/// The count-based reasons an eval run fails: a case failed, or LLM grading
/// was required and some case was not graded.
pub fn counts_failed(c: &EvalCounts, require_llm: bool) -> (r: bool)
    ensures
        r == (c.passed_cases < c.total_cases || (require_llm && c.llm_scored_cases
            != c.total_cases)),
{
    c.passed_cases < c.total_cases || (require_llm && c.llm_scored_cases != c.total_cases)
}


/// The name of an eval output format in events.
pub fn eval_format_name(format: crate::cli::EvalFormat) -> (r: &'static str)
    ensures
        r@ == (match format {
            crate::cli::EvalFormat::Human => "human"@,
            crate::cli::EvalFormat::Json => "json"@,
            crate::cli::EvalFormat::JsonStream => "json_stream"@,
        }),
{
    match format {
        crate::cli::EvalFormat::Human => "human",
        crate::cli::EvalFormat::Json => "json",
        crate::cli::EvalFormat::JsonStream => "json_stream",
    }
}

} // verus!
