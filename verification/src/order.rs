//! Orderings used for deterministic outputs, and a verified sort.
//!
//! Strings are ordered as `str`'s `Ord` orders them: byte-wise on UTF-8,
//! which is the same as lexicographic order on the characters' code points.

use vstd::prelude::*;
use vstd::multiset::Multiset;

verus! {

broadcast use vstd::seq_lib::group_to_multiset_ensures;

/// `a < b` in the lexicographic order of code points.
pub open spec fn lex_lt(a: Seq<char>, b: Seq<char>) -> bool
    decreases a.len(),
{
    if a.len() == 0 {
        b.len() > 0
    } else if b.len() == 0 {
        false
    } else if a[0] != b[0] {
        a[0] < b[0]
    } else {
        lex_lt(a.skip(1), b.skip(1))
    }
}

pub proof fn lemma_lex_irreflexive(a: Seq<char>)
    ensures
        !lex_lt(a, a),
    decreases a.len(),
{
    if a.len() > 0 {
        lemma_lex_irreflexive(a.skip(1));
    }
}

pub proof fn lemma_lex_transitive(a: Seq<char>, b: Seq<char>, c: Seq<char>)
    requires
        lex_lt(a, b),
        lex_lt(b, c),
    ensures
        lex_lt(a, c),
    decreases a.len(),
{
    if a.len() > 0 && b.len() > 0 && c.len() > 0 {
        if a[0] == b[0] && b[0] == c[0] {
            lemma_lex_transitive(a.skip(1), b.skip(1), c.skip(1));
        }
    }
}

pub proof fn lemma_lex_total(a: Seq<char>, b: Seq<char>)
    ensures
        lex_lt(a, b) || lex_lt(b, a) || a == b,
    decreases a.len(),
{
    if a.len() > 0 && b.len() > 0 {
        if a[0] == b[0] {
            lemma_lex_total(a.skip(1), b.skip(1));
            if a.skip(1) == b.skip(1) {
                assert(a =~= seq![a[0]] + a.skip(1));
                assert(b =~= seq![b[0]] + b.skip(1));
            }
        }
    } else if a.len() == 0 && b.len() == 0 {
        assert(a =~= b);
    }
}

/// `a < b` for strings (executable).
pub fn str_lt(a: &str, b: &str) -> (r: bool)
    ensures
        r == lex_lt(a@, b@),
{
    let x = crate::text::chars_of(a);
    let y = crate::text::chars_of(b);
    chars_lt(&x, &y)
}

/// `a < b` for character sequences (executable).
pub fn chars_lt(a: &[char], b: &[char]) -> (r: bool)
    ensures
        r == lex_lt(a@, b@),
{
    let mut i: usize = 0;
    assert(a@.skip(0) =~= a@);
    assert(b@.skip(0) =~= b@);
    loop
        invariant
            i <= a@.len(),
            i <= b@.len(),
            lex_lt(a@, b@) == lex_lt(a@.skip(i as int), b@.skip(i as int)),
        decreases a@.len() - i,
    {
        if i == a.len() {
            return i < b.len();
        }
        if i == b.len() {
            return false;
        }
        assert(a@.skip(i as int)[0] == a@[i as int]);
        assert(b@.skip(i as int)[0] == b@[i as int]);
        if a[i] != b[i] {
            return a[i] < b[i];
        }
        assert(a@.skip(i as int).skip(1) =~= a@.skip(i + 1));
        assert(b@.skip(i as int).skip(1) =~= b@.skip(i + 1));
        i += 1;
    }
}

/// Options ordered as std orders them: `None` first, then by value.
pub open spec fn opt_lex_lt(a: Option<Seq<char>>, b: Option<Seq<char>>) -> bool {
    match (a, b) {
        (None, Some(_)) => true,
        (Some(x), Some(y)) => lex_lt(x, y),
        _ => false,
    }
}

pub proof fn lemma_opt_lex(a: Option<Seq<char>>, b: Option<Seq<char>>, c: Option<Seq<char>>)
    ensures
        !opt_lex_lt(a, a),
        opt_lex_lt(a, b) && opt_lex_lt(b, c) ==> opt_lex_lt(a, c),
        opt_lex_lt(a, b) || opt_lex_lt(b, a) || a == b,
{
    match (a, b, c) {
        (Some(x), Some(y), Some(z)) => {
            lemma_lex_irreflexive(x);
            if lex_lt(x, y) && lex_lt(y, z) {
                lemma_lex_transitive(x, y, z);
            }
            lemma_lex_total(x, y);
        },
        (Some(x), Some(y), None) => {
            lemma_lex_irreflexive(x);
            lemma_lex_total(x, y);
        },
        (Some(x), None, _) => {
            lemma_lex_irreflexive(x);
        },
        _ => {},
    }
}

pub fn opt_str_lt(a: &Option<String>, b: &Option<String>) -> (r: bool)
    ensures
        r == opt_lex_lt(crate::diagnostics::ostr(*a), crate::diagnostics::ostr(*b)),
{
    match (a, b) {
        (None, Some(_)) => true,
        (Some(x), Some(y)) => str_lt(x.as_str(), y.as_str()),
        _ => false,
    }
}

/// A strict weak order on the values of a type, with an executable comparison.
pub trait Ordered: View + Sized {
    spec fn less(a: Self::V, b: Self::V) -> bool;

    proof fn less_irreflexive(a: Self::V)
        ensures
            !Self::less(a, a),
    ;

    proof fn less_transitive(a: Self::V, b: Self::V, c: Self::V)
        requires
            Self::less(a, b),
            Self::less(b, c),
        ensures
            Self::less(a, c),
    ;

    fn lt(&self, other: &Self) -> (r: bool)
        ensures
            r == Self::less(self@, other@),
    ;
}

/// The values of a sequence of elements.
pub open spec fn values<T: View>(s: Seq<T>) -> Seq<T::V> {
    s.map_values(|x: T| x@)
}

/// No value comes after a later one.
pub open spec fn sorted_by_less<T: Ordered>(s: Seq<T::V>) -> bool {
    forall|i: int, j: int| 0 <= i < j < s.len() ==> !T::less(s[j], s[i])
}

/// The index of a least element of a non-empty vector.
fn index_of_least<T: Ordered>(v: &Vec<T>) -> (k: usize)
    requires
        v@.len() > 0,
    ensures
        k < v@.len(),
        forall|j: int| 0 <= j < v@.len() ==> !T::less(v@[j]@, v@[k as int]@),
{
    let mut k: usize = 0;
    let mut i: usize = 1;
    proof {
        T::less_irreflexive(v@[0]@);
    }
    while i < v.len()
        invariant
            1 <= i <= v@.len(),
            k < i,
            forall|j: int| 0 <= j < i ==> !T::less(v@[j]@, v@[k as int]@),
        decreases v.len() - i,
    {
        if v[i].lt(&v[k]) {
            proof {
                assert forall|j: int| 0 <= j < i + 1 implies !T::less(v@[j]@, v@[i as int]@) by {
                    if j == i {
                        T::less_irreflexive(v@[i as int]@);
                    } else if T::less(v@[j]@, v@[i as int]@) {
                        T::less_transitive(v@[j]@, v@[i as int]@, v@[k as int]@);
                    }
                }
            }
            k = i;
        }
        i += 1;
    }
    k
}

/// Sorts a vector: the result holds the same values, in order.
pub fn sort<T: Ordered>(v: Vec<T>) -> (r: Vec<T>)
    ensures
        values(r@).to_multiset() == values(v@).to_multiset(),
        sorted_by_less::<T>(values(r@)),
{
    let ghost orig = values(v@);
    let mut rest = v;
    let mut out: Vec<T> = Vec::new();
    while rest.len() > 0
        invariant
            values(out@).to_multiset().add(values(rest@).to_multiset()) == orig.to_multiset(),
            sorted_by_less::<T>(values(out@)),
            forall|i: int, j: int|
                0 <= i < out@.len() && 0 <= j < rest@.len() ==> !T::less(rest@[j]@, out@[i]@),
        decreases rest@.len(),
    {
        let k = index_of_least(&rest);
        let ghost before = rest@;
        let ghost old_out = out@;
        let m = rest.remove(k);
        proof {
            assert(values(rest@) =~= values(before).remove(k as int));
            assert(values(before).remove(k as int).to_multiset() =~= values(
                before,
            ).to_multiset().remove(m@));
        }
        out.push(m);
        proof {
            assert(values(out@) =~= values(old_out).push(m@));
            assert(values(out@).to_multiset() =~= values(old_out).to_multiset().insert(m@));
            assert forall|i: int, j: int|
                0 <= i < out@.len() && 0 <= j < rest@.len() implies !T::less(
                rest@[j]@,
                out@[i]@,
            ) by {
                let jj = if j < k {
                    j
                } else {
                    j + 1
                };
                assert(rest@[j] == before[jj]);
                if i < old_out.len() {
                    assert(out@[i] == old_out[i]);
                }
            }
            assert forall|i: int, j: int| 0 <= i < j < values(out@).len() implies !T::less(
                values(out@)[j],
                values(out@)[i],
            ) by {
                if j < old_out.len() {
                    assert(out@[i] == old_out[i] && out@[j] == old_out[j]);
                    assert(values(old_out)[i] == old_out[i]@);
                } else {
                    assert(out@[i] == old_out[i]);
                    assert(before[k as int] == m);
                }
            }
        }
    }
    assert(values(rest@).to_multiset() =~= Multiset::empty());
    assert(values(out@).to_multiset().add(values(rest@).to_multiset()) =~= values(
        out@,
    ).to_multiset());
    out
}


/// Every value comes strictly before each later one.
pub open spec fn strictly_sorted<T: Ordered>(s: Seq<T::V>) -> bool {
    forall|i: int, j: int| 0 <= i < j < s.len() ==> T::less(s[i], s[j])
}

/// Two strictly sorted sequences with the same members are equal.
pub proof fn lemma_strictly_sorted_unique<T: Ordered>(a: Seq<T::V>, b: Seq<T::V>)
    requires
        strictly_sorted::<T>(a),
        strictly_sorted::<T>(b),
        forall|x: T::V| a.contains(x) <==> b.contains(x),
    ensures
        a == b,
    decreases a.len(),
{
    if a.len() == 0 {
        if b.len() > 0 {
            assert(b.contains(b[0]));
        }
        assert(a =~= b);
    } else {
        assert(a.contains(a[0]));
        assert(b.contains(a[0]));
        let k = choose|k: int| 0 <= k < b.len() && b[k] == a[0];
        assert(b.contains(b[0]));
        assert(a.contains(b[0]));
        let m = choose|m: int| 0 <= m < a.len() && a[m] == b[0];
        if k > 0 && m > 0 {
            assert(T::less(b[0], b[k]));
            assert(T::less(a[0], a[m]));
            T::less_transitive(a[0], b[0], a[0]);
            T::less_irreflexive(a[0]);
        }
        assert(a[0] == b[0]);
        let a1 = a.skip(1);
        let b1 = b.skip(1);
        assert forall|x: T::V| a1.contains(x) <==> b1.contains(x) by {
            if a1.contains(x) {
                let i = choose|i: int| 0 <= i < a1.len() && a1[i] == x;
                assert(a[i + 1] == x);
                assert(T::less(a[0], a[i + 1]));
                T::less_irreflexive(a[0]);
                assert(a.contains(x));
                assert(b.contains(x));
                let j = choose|j: int| 0 <= j < b.len() && b[j] == x;
                assert(j != 0);
                assert(b1[j - 1] == x);
            }
            if b1.contains(x) {
                let i = choose|i: int| 0 <= i < b1.len() && b1[i] == x;
                assert(b[i + 1] == x);
                assert(T::less(b[0], b[i + 1]));
                T::less_irreflexive(b[0]);
                assert(b.contains(x));
                assert(a.contains(x));
                let j = choose|j: int| 0 <= j < a.len() && a[j] == x;
                assert(j != 0);
                assert(a1[j - 1] == x);
            }
        }
        lemma_strictly_sorted_unique::<T>(a1, b1);
        assert(a =~= seq![a[0]] + a1);
        assert(b =~= seq![b[0]] + b1);
    }
}

/// An order in which any two different values are comparable.
pub trait TotalOrdered: Ordered {
    proof fn less_total(a: Self::V, b: Self::V)
        ensures
            Self::less(a, b) || Self::less(b, a) || a == b,
    ;
}

/// Two sorted sequences with the same elements, counted with multiplicity,
/// are equal.
pub proof fn lemma_sorted_unique<T: TotalOrdered>(a: Seq<T::V>, b: Seq<T::V>)
    requires
        sorted_by_less::<T>(a),
        sorted_by_less::<T>(b),
        a.to_multiset() == b.to_multiset(),
    ensures
        a == b,
    decreases a.len(),
{
    if a.len() == 0 {
        assert(b.len() == 0);
        assert(a =~= b);
    } else {
        assert(a.contains(a[0]));
        assert(a.to_multiset().count(a[0]) > 0);
        assert(b.contains(a[0]));
        let k = choose|k: int| 0 <= k < b.len() && b[k] == a[0];
        assert(b.contains(b[0]));
        assert(b.to_multiset().count(b[0]) > 0);
        assert(a.contains(b[0]));
        let m = choose|m: int| 0 <= m < a.len() && a[m] == b[0];
        if k > 0 {
            assert(!T::less(b[k], b[0]));
        }
        if m > 0 {
            assert(!T::less(a[m], a[0]));
        }
        T::less_total(a[0], b[0]);
        assert(a[0] == b[0]);
        let a1 = a.remove(0);
        let b1 = b.remove(0);
        assert(a1.to_multiset() == a.to_multiset().remove(a[0]));
        assert(b1.to_multiset() == b.to_multiset().remove(b[0]));
        assert forall|i: int, j: int| 0 <= i < j < a1.len() implies !T::less(a1[j], a1[i]) by {
            assert(a1[i] == a[i + 1] && a1[j] == a[j + 1]);
        }
        assert forall|i: int, j: int| 0 <= i < j < b1.len() implies !T::less(b1[j], b1[i]) by {
            assert(b1[i] == b[i + 1] && b1[j] == b[j + 1]);
        }
        lemma_sorted_unique::<T>(a1, b1);
        assert(a =~= seq![a[0]] + a1);
        assert(b =~= seq![b[0]] + b1);
    }
}

/// The sorted arrangement of a sequence of values.
pub open spec fn sorted_arrangement<T: Ordered>(s: Seq<T::V>) -> Seq<T::V> {
    choose|r: Seq<T::V>| sorted_by_less::<T>(r) && r.to_multiset() == s.to_multiset()
}

/// Sorts a vector under a total order: the result is the sorted arrangement
/// of its values.
pub fn sort_total<T: TotalOrdered>(v: Vec<T>) -> (r: Vec<T>)
    ensures
        values(r@) == sorted_arrangement::<T>(values(v@)),
        values(r@).to_multiset() == values(v@).to_multiset(),
        sorted_by_less::<T>(values(r@)),
{
    let r = sort(v);
    proof {
        let w = sorted_arrangement::<T>(values(v@));
        assert(sorted_by_less::<T>(w) && w.to_multiset() == values(v@).to_multiset());
        lemma_sorted_unique::<T>(values(r@), w);
    }
    r
}

/// The sorted arrangement of a sequence of strings.
pub open spec fn sorted_strings(s: Seq<Seq<char>>) -> Seq<Seq<char>> {
    sorted_arrangement::<String>(s)
}

/// Sorts strings; the result is the sorted arrangement of the input.
pub fn sort_strings(v: Vec<String>) -> (r: Vec<String>)
    ensures
        values(r@) == sorted_strings(values(v@)),
{
    sort_total(v)
}

/// Adds `x` to a strictly sorted vector of strings kept as a set; returns
/// whether it was new.
pub fn insert_sorted_string(v: &mut Vec<String>, x: String) -> (added: bool)
    requires
        strictly_sorted::<String>(values(old(v)@)),
    ensures
        strictly_sorted::<String>(values(final(v)@)),
        forall|y: Seq<char>|
            values(final(v)@).contains(y) <==> (values(old(v)@).contains(y) || y == x@),
        added == !values(old(v)@).contains(x@),
{
    let ghost old_vals = values(v@);
    let mut i: usize = 0;
    while i < v.len() && str_lt(v[i].as_str(), x.as_str())
        invariant
            i <= v@.len(),
            values(v@) == old_vals,
            strictly_sorted::<String>(old_vals),
            forall|j: int| 0 <= j < i ==> lex_lt(#[trigger] old_vals[j], x@),
        decreases v.len() - i,
    {
        i += 1;
    }
    if i < v.len() && v[i] == x {
        assert(old_vals.contains(x@)) by {
            assert(old_vals[i as int] == x@);
        }
        return false;
    }
    proof {
        if i < v@.len() {
            assert(old_vals[i as int] == v@[i as int]@);
            assert(!lex_lt(old_vals[i as int], x@));
            assert(old_vals[i as int] != x@);
            lemma_lex_total(x@, old_vals[i as int]);
            assert(lex_lt(x@, old_vals[i as int]));
        }
        if old_vals.contains(x@) {
            let j = choose|j: int| 0 <= j < old_vals.len() && old_vals[j] == x@;
            if j < i {
                assert(lex_lt(old_vals[j], x@));
                lemma_lex_irreflexive(x@);
            } else {
                if j > i {
                    assert(String::less(old_vals[i as int], old_vals[j]));
                    lemma_lex_transitive(x@, old_vals[i as int], old_vals[j]);
                    lemma_lex_irreflexive(x@);
                }
            }
        }
    }
    let ghost xv = x@;
    v.insert(i, x);
    proof {
        let nv = values(v@);
        assert(nv =~= old_vals.insert(i as int, xv));
        assert forall|a: int, b: int| 0 <= a < b < nv.len() implies lex_lt(nv[a], nv[b]) by {
            if b < i {
                assert(String::less(old_vals[a], old_vals[b]));
            } else if b == i {
                assert(lex_lt(old_vals[a], xv));
            } else if a < i {
                assert(lex_lt(old_vals[a], xv));
                assert(lex_lt(xv, old_vals[i as int]));
                if b > i + 1 {
                    assert(String::less(old_vals[i as int], old_vals[b - 1]));
                    lemma_lex_transitive(old_vals[a], xv, old_vals[i as int]);
                    lemma_lex_transitive(old_vals[a], old_vals[i as int], old_vals[b - 1]);
                } else {
                    lemma_lex_transitive(old_vals[a], xv, old_vals[b - 1]);
                }
            } else if a == i {
                assert(lex_lt(xv, old_vals[i as int]));
                if b > i + 1 {
                    assert(String::less(old_vals[i as int], old_vals[b - 1]));
                    lemma_lex_transitive(xv, old_vals[i as int], old_vals[b - 1]);
                }
            } else {
                assert(String::less(old_vals[a - 1], old_vals[b - 1]));
            }
        }
        assert forall|y: Seq<char>| nv.contains(y) <==> (old_vals.contains(y) || y == xv) by {
            if nv.contains(y) {
                let j = choose|j: int| 0 <= j < nv.len() && nv[j] == y;
                if j < i {
                    assert(old_vals[j] == y);
                } else if j > i {
                    assert(old_vals[j - 1] == y);
                }
            }
            if old_vals.contains(y) {
                let j = choose|j: int| 0 <= j < old_vals.len() && old_vals[j] == y;
                if j < i {
                    assert(nv[j] == y);
                } else {
                    assert(nv[j + 1] == y);
                }
            }
            if y == xv {
                assert(nv[i as int] == y);
            }
        }
    }
    true
}

impl Ordered for String {
    open spec fn less(a: Seq<char>, b: Seq<char>) -> bool {
        lex_lt(a, b)
    }

    proof fn less_irreflexive(a: Seq<char>) {
        lemma_lex_irreflexive(a);
    }

    proof fn less_transitive(a: Seq<char>, b: Seq<char>, c: Seq<char>) {
        lemma_lex_transitive(a, b, c);
    }

    fn lt(&self, other: &Self) -> (r: bool) {
        str_lt(self.as_str(), other.as_str())
    }
}

impl TotalOrdered for String {
    proof fn less_total(a: Seq<char>, b: Seq<char>) {
        lemma_lex_total(a, b);
    }
}

} // verus!
