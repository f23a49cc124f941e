//! Natural ordering of frame file names: runs of digits compare as numbers.
use vstd::prelude::*;
use std::cmp::Ordering;

verus! {

/// What `natord::compare` gives for two strings.
pub uninterp spec fn natural_order(a: Seq<char>, b: Seq<char>) -> Ordering;

/// Relies on natord::compare: the natural order of two strings, where runs
/// of decimal digits compare by their value and whitespace is skipped; its
/// result depends on the two strings alone.
#[verifier::external_body]
fn natural_compare(a: &str, b: &str) -> (r: Ordering)
    ensures
        r == natural_order(a@, b@),
{
    natord::compare(a, b)
}

/// The texts of a list of strings.
pub open spec fn texts(v: Seq<String>) -> Seq<Seq<char>> {
    v.map_values(|t: String| t@)
}

/// `x` placed into `s` after every element that does not come after it in
/// the natural order, counting from the end: one step of a stable insertion
/// sort.
pub open spec fn insert_natural(s: Seq<Seq<char>>, x: Seq<char>) -> Seq<Seq<char>>
    decreases s.len(),
{
    if s.len() == 0 {
        seq![x]
    } else if natural_order(x, s.last()) == Ordering::Less {
        insert_natural(s.drop_last(), x).push(s.last())
    } else {
        s.push(x)
    }
}

/// `s` stably sorted in the natural order: elements that compare equal keep
/// their order.
pub open spec fn natural_sorted(s: Seq<Seq<char>>) -> Seq<Seq<char>>
    decreases s.len(),
{
    if s.len() == 0 {
        s
    } else {
        insert_natural(natural_sorted(s.drop_last()), s.last())
    }
}

proof fn lemma_insert_at(s: Seq<Seq<char>>, x: Seq<char>, j: int)
    requires
        0 <= j <= s.len(),
        forall|k: int| j <= k < s.len() ==> natural_order(x, #[trigger] s[k]) == Ordering::Less,
        j == 0 || natural_order(x, s[j - 1]) != Ordering::Less,
    ensures
        insert_natural(s, x) == s.insert(j, x),
    decreases s.len(),
{
    if s.len() == 0 {
        assert(s.insert(j, x) =~= seq![x]);
    } else if j == s.len() {
        assert(s.insert(j, x) =~= s.push(x));
    } else {
        assert(natural_order(x, s[s.len() - 1]) == Ordering::Less);
        let t = s.drop_last();
        assert forall|k: int| j <= k < t.len() implies natural_order(x, #[trigger] t[k]) == Ordering::Less by {
            assert(t[k] == s[k]);
        }
        lemma_insert_at(t, x, j);
        assert(t.insert(j, x).push(s.last()) =~= s.insert(j, x));
    }
}

/// The frame files in natural order, or as given when `sort` is false.
pub fn sort_frames(frames: Vec<String>, sort: bool) -> (r: Vec<String>)
    ensures
        !sort ==> r@ == frames@,
        sort ==> texts(r@) == natural_sorted(texts(frames@)),
{
    if !sort {
        return frames;
    }
    let mut out: Vec<String> = Vec::new();
    let n = frames.len();
    let mut i: usize = 0;
    while i < n
        invariant
            n == frames@.len(),
            i <= n,
            texts(out@) == natural_sorted(texts(frames@.take(i as int))),
        decreases n - i,
    {
        let x = frames[i].clone();
        let mut j: usize = out.len();
        while j > 0 && matches!(natural_compare(x.as_str(), out[j - 1].as_str()), Ordering::Less)
            invariant
                j <= out@.len(),
                forall|k: int| j <= k < out@.len() ==> natural_order(x@, #[trigger] out@[k]@) == Ordering::Less,
            decreases j,
        {
            j = j - 1;
        }
        proof {
            let s = texts(out@);
            assert forall|k: int| j <= k < s.len() implies natural_order(x@, #[trigger] s[k]) == Ordering::Less by {
                assert(s[k] == out@[k]@);
            }
            if j > 0 {
                assert(s[j - 1] == out@[j - 1]@);
            }
            lemma_insert_at(s, x@, j as int);
            let pre = frames@.take(i as int);
            let next = frames@.take(i + 1);
            assert(texts(next).drop_last() =~= texts(pre));
            assert(texts(next).last() == frames@[i as int]@);
        }
        let ghost before = out@;
        out.insert(j, x);
        proof {
            assert(texts(out@) =~= texts(before).insert(j as int, x@));
        }
        i = i + 1;
    }
    assert(frames@.take(n as int) =~= frames@);
    out
}

} // verus!
