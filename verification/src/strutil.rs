//! Small verified string utilities: equality of string slices, and
//! splitting / joining on the `'-'` separator that target triples use.

use vstd::prelude::*;

verus! {

/// Compare two string slices character by character.
pub fn str_eq(a: &str, b: &str) -> (r: bool)
    ensures
        r == (a@ == b@),
{
    let n = a.unicode_len();
    if n != b.unicode_len() {
        return false;
    }
    let mut i: usize = 0;
    while i < n
        invariant
            n == a@.len(),
            n == b@.len(),
            i <= n,
            forall|j: int| 0 <= j < i ==> a@[j] == b@[j],
        decreases n - i,
    {
        if a.get_char(i) != b.get_char(i) {
            return false;
        }
        i = i + 1;
    }
    proof {
        assert(a@ =~= b@);
    }
    true
}

/// The index of the first `'-'` in `s`, or `s.len()` if there is none.
pub open spec fn first_dash(s: Seq<char>) -> int
    decreases s.len(),
{
    if s.len() == 0 {
        0
    } else if s[0] == '-' {
        0
    } else {
        1 + first_dash(s.drop_first())
    }
}

pub proof fn lemma_first_dash_bounds(s: Seq<char>)
    ensures
        0 <= first_dash(s) <= s.len(),
        forall|j: int| 0 <= j < first_dash(s) ==> s[j] != '-',
        first_dash(s) < s.len() ==> s[first_dash(s)] == '-',
    decreases s.len(),
{
    if s.len() != 0 && s[0] != '-' {
        lemma_first_dash_bounds(s.drop_first());
        assert forall|j: int| 0 <= j < first_dash(s) implies s[j] != '-' by {
            if j > 0 {
                assert(s.drop_first()[j - 1] != '-');
            }
        }
    }
}

/// If `s` has no dash at all, `first_dash` runs off the end.
pub proof fn lemma_first_dash_none(s: Seq<char>)
    requires
        forall|j: int| 0 <= j < s.len() ==> s[j] != '-',
    ensures
        first_dash(s) == s.len(),
    decreases s.len(),
{
    if s.len() != 0 {
        assert(s[0] != '-');
        lemma_first_dash_none(s.drop_first());
    }
}

/// If `s` starts with a dash-free prefix `a` followed by a dash,
/// `first_dash` finds exactly the end of `a`.
pub proof fn lemma_first_dash_at(s: Seq<char>, a: Seq<char>)
    requires
        a.len() < s.len(),
        forall|j: int| 0 <= j < a.len() ==> s[j] == a[j],
        forall|j: int| 0 <= j < a.len() ==> a[j] != '-',
        s[a.len() as int] == '-',
    ensures
        first_dash(s) == a.len(),
    decreases a.len(),
{
    if a.len() == 0 {
        assert(s[0] == '-');
    } else {
        assert(s[0] == a[0]);
        assert(s[0] != '-');
        lemma_first_dash_at(s.drop_first(), a.drop_first());
    }
}

/// Split `s` on `'-'`, keeping empty segments; the result always has at
/// least one element.
pub open spec fn spec_split(s: Seq<char>) -> Seq<Seq<char>>
    decreases s.len(),
    via spec_split_decreases
{
    let i = first_dash(s);
    if i == s.len() {
        seq![s]
    } else {
        seq![s.take(i)] + spec_split(s.skip(i + 1))
    }
}

#[via_fn]
proof fn spec_split_decreases(s: Seq<char>) {
    lemma_first_dash_bounds(s);
}

/// Join segments with `'-'` between them.
pub open spec fn spec_join(segs: Seq<Seq<char>>) -> Seq<char>
    decreases segs.len(),
{
    if segs.len() == 0 {
        Seq::empty()
    } else if segs.len() == 1 {
        segs[0]
    } else {
        segs[0] + seq!['-'] + spec_join(segs.drop_first())
    }
}

/// Appending one more segment to a non-empty list extends the join with
/// a dash and that segment.
pub proof fn lemma_spec_join_push(segs: Seq<Seq<char>>, x: Seq<char>)
    requires
        segs.len() >= 1,
    ensures
        spec_join(segs.push(x)) == spec_join(segs) + seq!['-'] + x,
    decreases segs.len(),
{
    if segs.len() == 1 {
        assert(segs.push(x).drop_first() =~= seq![x]);
        assert(spec_join(seq![x]) == x);
        assert(segs.push(x).len() == 2);
        assert(spec_join(segs.push(x)) == segs.push(x)[0] + seq!['-'] + spec_join(
            segs.push(x).drop_first(),
        ));
        assert(spec_join(segs.push(x)) =~= spec_join(segs) + seq!['-'] + x);
    } else {
        lemma_spec_join_push(segs.drop_first(), x);
        assert(segs.push(x).drop_first() =~= segs.drop_first().push(x));
        assert(spec_join(segs.push(x)) == segs[0] + seq!['-'] + spec_join(
            segs.drop_first().push(x),
        ));
        assert(spec_join(segs) + seq!['-'] + x =~= segs[0] + seq!['-'] + (spec_join(
            segs.drop_first(),
        ) + seq!['-'] + x));
    }
}

/// A segment list in which no segment contains a dash is recovered
/// exactly by splitting its join.
pub proof fn lemma_split_join(segs: Seq<Seq<char>>)
    requires
        segs.len() >= 1,
        forall|k: int, j: int|
            0 <= k < segs.len() && 0 <= j < segs[k].len() ==> #[trigger] segs[k][j] != '-',
    ensures
        spec_split(spec_join(segs)) == segs,
    decreases segs.len(),
{
    let s = spec_join(segs);
    if segs.len() == 1 {
        assert(forall|j: int| 0 <= j < s.len() ==> s[j] != '-');
        lemma_first_dash_none(s);
        assert(spec_split(s) =~= seq![segs[0]]);
        assert(spec_split(s) =~= segs);
    } else {
        let a = segs[0];
        let rest = spec_join(segs.drop_first());
        assert(s == a + seq!['-'] + rest);
        assert(a.len() < s.len());
        assert forall|j: int| 0 <= j < a.len() implies s[j] == a[j] && a[j] != '-' by {
            assert(segs[0][j] != '-');
        }
        assert(s[a.len() as int] == '-');
        lemma_first_dash_at(s, a);
        assert(first_dash(s) == a.len());
        assert(s.take(a.len() as int) =~= a);
        assert(s.skip(a.len() as int + 1) =~= rest);
        assert forall|k: int, j: int|
            0 <= k < segs.drop_first().len() && 0 <= j < segs.drop_first()[k].len() implies #[trigger] segs.drop_first()[k][j]
            != '-' by {
            assert(segs[k + 1][j] != '-');
        }
        lemma_split_join(segs.drop_first());
        assert(spec_split(s) =~= seq![a] + spec_split(rest));
        assert(seq![a] + segs.drop_first() =~= segs);
    }
}

/// Split a string slice on `'-'`, keeping empty segments.
pub fn split_dash<'a>(s: &'a str) -> (r: Vec<&'a str>)
    ensures
        r@.len() == spec_split(s@).len(),
        forall|k: int| 0 <= k < r@.len() ==> #[trigger] r@[k]@ == spec_split(s@)[k],
{
    let n = s.unicode_len();
    let mut r: Vec<&'a str> = Vec::new();
    let mut start: usize = 0;
    let mut i: usize = 0;
    proof {
        assert(s@.skip(0) =~= s@);
        assert(r@.map_values(|t: &str| t@) =~= Seq::<Seq<char>>::empty());
    }
    while i < n
        invariant
            n == s@.len(),
            start <= i <= n,
            forall|j: int| start <= j < i ==> s@[j] != '-',
            spec_split(s@) =~= r@.map_values(|t: &str| t@) + spec_split(s@.skip(start as int)),
        decreases n - i,
    {
        if s.get_char(i) == '-' {
            let seg = s.substring_char(start, i);
            proof {
                let tail = s@.skip(start as int);
                lemma_first_dash_at(tail, s@.subrange(start as int, i as int));
                assert(tail.take(i - start) =~= s@.subrange(start as int, i as int));
                assert(tail.skip(i - start + 1) =~= s@.skip(i + 1));
                assert(spec_split(tail) == seq![seg@] + spec_split(s@.skip(i + 1)));
                assert(r@.push(seg).map_values(|t: &str| t@) =~= r@.map_values(|t: &str| t@).push(
                    seg@,
                ));
                assert(r@.map_values(|t: &str| t@) + (seq![seg@] + spec_split(s@.skip(i + 1)))
                    =~= r@.push(seg).map_values(|t: &str| t@) + spec_split(s@.skip(i + 1)));
            }
            r.push(seg);
            start = i + 1;
        }
        i = i + 1;
    }
    let seg = s.substring_char(start, n);
    proof {
        let tail = s@.skip(start as int);
        assert(forall|j: int| 0 <= j < tail.len() ==> tail[j] != '-');
        lemma_first_dash_none(tail);
        assert(tail =~= s@.subrange(start as int, n as int));
        assert(spec_split(tail) == seq![seg@]);
        assert(r@.push(seg).map_values(|t: &str| t@) =~= r@.map_values(|t: &str| t@).push(seg@));
        assert(r@.map_values(|t: &str| t@) + seq![seg@] =~= r@.push(seg).map_values(
            |t: &str| t@,
        ));
    }
    r.push(seg);
    proof {
        assert(spec_split(s@) =~= r@.map_values(|t: &str| t@));
        assert forall|k: int| 0 <= k < r@.len() implies #[trigger] r@[k]@ == spec_split(s@)[k] by {
            assert(r@.map_values(|t: &str| t@)[k] == r@[k]@);
        }
    }
    r
}

/// Join string slices with `'-'` between them.
pub fn join_dash(segs: &Vec<&str>) -> (r: String)
    requires
        segs@.len() >= 1,
    ensures
        r@ == spec_join(segs@.map_values(|t: &str| t@)),
{
    let ghost model = segs@.map_values(|t: &str| t@);
    let mut r = String::new();
    r.append(segs[0]);
    assert(r@ == spec_join(model.take(1)));
    let mut i: usize = 1;
    while i < segs.len()
        invariant
            1 <= i <= segs@.len(),
            model == segs@.map_values(|t: &str| t@),
            r@ == spec_join(model.take(i as int)),
        decreases segs@.len() - i,
    {
        r.append("-");
        r.append(segs[i]);
        proof {
            reveal_strlit("-");
            assert("-"@ =~= seq!['-']);
            lemma_spec_join_push(model.take(i as int), model[i as int]);
            assert(model.take(i + 1) =~= model.take(i as int).push(model[i as int]));
        }
        i = i + 1;
    }
    proof {
        assert(model.take(segs@.len() as int) =~= model);
    }
    r
}

} // verus!
