//! Character-level helpers over `Seq<char>`: whitespace trimming, substring
//! search and prefixes, each with an executable counterpart that works on a
//! range `lo..hi` of a character vector.

use vstd::prelude::*;

verus! {

/// Unicode `White_Space`, the set that `char::is_whitespace` and `str::trim` use.
pub open spec fn is_white(c: char) -> bool {
    let u = c as u32;
    ||| 0x09 <= u <= 0x0d
    ||| u == 0x20
    ||| u == 0x85
    ||| u == 0xa0
    ||| u == 0x1680
    ||| 0x2000 <= u <= 0x200a
    ||| u == 0x2028
    ||| u == 0x2029
    ||| u == 0x202f
    ||| u == 0x205f
    ||| u == 0x3000
}

/// `s` without its leading whitespace.
pub open spec fn trim_start(s: Seq<char>) -> Seq<char>
    decreases s.len(),
{
    if s.len() > 0 && is_white(s[0]) {
        trim_start(s.drop_first())
    } else {
        s
    }
}

/// `s` without its trailing whitespace.
pub open spec fn trim_end(s: Seq<char>) -> Seq<char>
    decreases s.len(),
{
    if s.len() > 0 && is_white(s.last()) {
        trim_end(s.drop_last())
    } else {
        s
    }
}

/// `s` without leading and trailing whitespace.
pub open spec fn trim(s: Seq<char>) -> Seq<char> {
    trim_end(trim_start(s))
}

/// `pat` occurs in `s` starting at index `i`.
pub open spec fn occurs_at(s: Seq<char>, pat: Seq<char>, i: int) -> bool {
    0 <= i && i + pat.len() <= s.len() && s.subrange(i, i + pat.len()) == pat
}

/// `pat` occurs somewhere in `s`.
pub open spec fn contains(s: Seq<char>, pat: Seq<char>) -> bool {
    exists|i: int| occurs_at(s, pat, i)
}

/// `s` begins with `pat`.
pub open spec fn starts_with(s: Seq<char>, pat: Seq<char>) -> bool {
    occurs_at(s, pat, 0)
}

/// `i` is where the leftmost occurrence of `pat` in `s` starts.
pub open spec fn is_first_occurrence(s: Seq<char>, pat: Seq<char>, i: int) -> bool {
    occurs_at(s, pat, i) && forall|j: int| 0 <= j < i ==> !occurs_at(s, pat, j)
}

/// Where the leftmost occurrence of `pat` in `s` starts.
pub open spec fn first_occurrence(s: Seq<char>, pat: Seq<char>) -> int
    recommends
        contains(s, pat),
{
    choose|i: int| is_first_occurrence(s, pat, i)
}

/// The second piece of `s` split at `pat`: what lies between the first
/// occurrence of `pat` and the next one, or the end of `s`.
pub open spec fn second_piece(s: Seq<char>, pat: Seq<char>) -> Seq<char>
    recommends
        contains(s, pat),
{
    let rest = s.skip(first_occurrence(s, pat) + pat.len());
    if contains(rest, pat) {
        rest.take(first_occurrence(rest, pat))
    } else {
        rest
    }
}

/// The pieces of `s` between newline characters, in order; there is always
/// at least one, and a text that ends in a newline has an empty last piece.
pub open spec fn lines_of(s: Seq<char>) -> Seq<Seq<char>>
    decreases s.len(),
{
    if s.len() == 0 {
        seq![Seq::empty()]
    } else {
        let rest = lines_of(s.drop_last());
        if s.last() == '\n' {
            rest.push(Seq::empty())
        } else {
            rest.update(rest.len() - 1, rest.last().push(s.last()))
        }
    }
}

/// The leftmost occurrence is unique, so `first_occurrence` names it.
pub proof fn lemma_first_occurrence(s: Seq<char>, pat: Seq<char>, i: int)
    requires
        is_first_occurrence(s, pat, i),
    ensures
        contains(s, pat),
        first_occurrence(s, pat) == i,
{
    let k = first_occurrence(s, pat);
    assert(is_first_occurrence(s, pat, k));
    if k < i {
        assert(!occurs_at(s, pat, k));
    }
    if i < k {
        assert(!occurs_at(s, pat, i));
    }
}

proof fn lemma_trim_start_range(s: Seq<char>, lo: int, a: int, hi: int)
    requires
        0 <= lo <= a <= hi <= s.len(),
        forall|k: int| lo <= k < a ==> is_white(#[trigger] s[k]),
        a == hi || !is_white(s[a]),
    ensures
        trim_start(s.subrange(lo, hi)) == s.subrange(a, hi),
    decreases a - lo,
{
    let t = s.subrange(lo, hi);
    if lo < a {
        assert(t.drop_first() =~= s.subrange(lo + 1, hi));
        lemma_trim_start_range(s, lo + 1, a, hi);
    } else {
        assert(t =~= s.subrange(a, hi));
    }
}

proof fn lemma_trim_end_range(s: Seq<char>, a: int, b: int, hi: int)
    requires
        0 <= a <= b <= hi <= s.len(),
        forall|k: int| b <= k < hi ==> is_white(#[trigger] s[k]),
        b == a || !is_white(s[b - 1]),
    ensures
        trim_end(s.subrange(a, hi)) == s.subrange(a, b),
    decreases hi - b,
{
    let t = s.subrange(a, hi);
    if b < hi {
        assert(t.drop_last() =~= s.subrange(a, hi - 1));
        lemma_trim_end_range(s, a, b, hi - 1);
    } else {
        assert(t =~= s.subrange(a, b));
    }
}

/// Copies the characters of `s` into a vector.
pub fn chars_of(s: &str) -> (v: Vec<char>)
    ensures
        v@ == s@,
{
    let mut v: Vec<char> = Vec::new();
    for c in it: s.chars()
        invariant
            v@ == it.seq().take(it.index() as int),
    {
        v.push(c);
    }
    v
}

/// Whether `c` is whitespace.
pub fn is_white_char(c: char) -> (r: bool)
    ensures
        r == is_white(c),
{
    let u = c as u32;
    (0x09 <= u && u <= 0x0d) || u == 0x20 || u == 0x85 || u == 0xa0 || u == 0x1680 || (0x2000
        <= u && u <= 0x200a) || u == 0x2028 || u == 0x2029 || u == 0x202f || u == 0x205f || u
        == 0x3000
}

/// The bounds of the trimmed part of `v[lo..hi]`.
pub fn trim_bounds(v: &Vec<char>, lo: usize, hi: usize) -> (r: (usize, usize))
    requires
        lo <= hi <= v.len(),
    ensures
        lo <= r.0 <= r.1 <= hi,
        v@.subrange(r.0 as int, r.1 as int) == trim(v@.subrange(lo as int, hi as int)),
{
    let mut a = lo;
    while a < hi && is_white_char(v[a])
        invariant
            lo <= a <= hi <= v.len(),
            forall|k: int| lo <= k < a ==> is_white(#[trigger] v@[k]),
        decreases hi - a,
    {
        a = a + 1;
    }
    let mut b = hi;
    while b > a && is_white_char(v[b - 1])
        invariant
            lo <= a <= b <= hi <= v.len(),
            forall|k: int| b <= k < hi ==> is_white(#[trigger] v@[k]),
        decreases b - a,
    {
        b = b - 1;
    }
    proof {
        lemma_trim_start_range(v@, lo as int, a as int, hi as int);
        lemma_trim_end_range(v@, a as int, b as int, hi as int);
    }
    (a, b)
}

/// Whether `pat` occurs in `v` at index `i`.
pub fn matches_at(v: &Vec<char>, i: usize, pat: &Vec<char>) -> (r: bool)
    ensures
        r == occurs_at(v@, pat@, i as int),
{
    if pat.len() > v.len() || i > v.len() - pat.len() {
        return false;
    }
    let mut k: usize = 0;
    while k < pat.len()
        invariant
            k <= pat.len(),
            i + pat.len() <= v.len(),
            forall|j: int| 0 <= j < k ==> v@[i + j] == pat@[j],
        decreases pat.len() - k,
    {
        if v[i + k] != pat[k] {
            assert(v@.subrange(i as int, i + pat.len())[k as int] != pat@[k as int]);
            return false;
        }
        k = k + 1;
    }
    assert(v@.subrange(i as int, i + pat.len()) =~= pat@);
    true
}

/// The leftmost occurrence of `pat` in `v[lo..hi]`, as an index into `v`.
pub fn find_in(v: &Vec<char>, lo: usize, hi: usize, pat: &Vec<char>) -> (r: Option<usize>)
    requires
        lo <= hi <= v.len(),
    ensures
        match r {
            Some(i) => lo <= i && is_first_occurrence(
                v@.subrange(lo as int, hi as int),
                pat@,
                i - lo,
            ),
            None => !contains(v@.subrange(lo as int, hi as int), pat@),
        },
{
    let ghost s = v@.subrange(lo as int, hi as int);
    if pat.len() > hi - lo {
        assert forall|j: int| !occurs_at(s, pat@, j) by {}
        return None;
    }
    if pat.len() == 0 {
        assert(s.subrange(0, 0) =~= pat@);
        return Some(lo);
    }
    let mut i = lo;
    while pat.len() <= hi - i
        invariant
            lo <= i <= hi,
            hi <= v.len(),
            pat.len() > 0,
            s == v@.subrange(lo as int, hi as int),
            forall|j: int| 0 <= j < i - lo ==> !occurs_at(s, pat@, j),
        decreases hi - i,
    {
        let m = matches_at(v, i, pat);
        assert(m == occurs_at(s, pat@, i - lo)) by {
            assert(s.subrange(i - lo, i - lo + pat.len()) =~= v@.subrange(
                i as int,
                i + pat.len(),
            ));
        }
        if m {
            return Some(i);
        }
        i = i + 1;
    }
    assert forall|j: int| !occurs_at(s, pat@, j) by {
        if 0 <= j && j + pat.len() <= s.len() {
            assert(j < i - lo);
        }
    }
    None
}

/// Whether `v[lo..hi]` contains `pat`.
pub fn contains_in(v: &Vec<char>, lo: usize, hi: usize, pat: &Vec<char>) -> (r: bool)
    requires
        lo <= hi <= v.len(),
    ensures
        r == contains(v@.subrange(lo as int, hi as int), pat@),
{
    match find_in(v, lo, hi, pat) {
        Some(i) => {
            proof {
                lemma_first_occurrence(v@.subrange(lo as int, hi as int), pat@, i - lo);
            }
            true
        },
        None => false,
    }
}

/// Whether `v[lo..hi]` begins with `pat`.
pub fn starts_with_in(v: &Vec<char>, lo: usize, hi: usize, pat: &Vec<char>) -> (r: bool)
    requires
        lo <= hi <= v.len(),
    ensures
        r == starts_with(v@.subrange(lo as int, hi as int), pat@),
{
    let ghost s = v@.subrange(lo as int, hi as int);
    if pat.len() > hi - lo {
        return false;
    }
    let m = matches_at(v, lo, pat);
    assert(s.subrange(0, pat.len() as int) =~= v@.subrange(lo as int, lo + pat.len()));
    m
}

/// Whether `v[lo..hi]` is exactly `pat`.
pub fn range_equals(v: &Vec<char>, lo: usize, hi: usize, pat: &Vec<char>) -> (r: bool)
    requires
        lo <= hi <= v.len(),
    ensures
        r == (v@.subrange(lo as int, hi as int) == pat@),
{
    if hi - lo != pat.len() {
        return false;
    }
    let m = matches_at(v, lo, pat);
    m
}

/// Where the second piece of `v` split at `pat` lies, if `pat` occurs in `v`.
pub fn second_piece_bounds(v: &Vec<char>, pat: &Vec<char>) -> (r: Option<(usize, usize)>)
    ensures
        r is Some <==> contains(v@, pat@),
        r matches Some((a, b)) ==> a <= b <= v.len() && v@.subrange(a as int, b as int)
            == second_piece(v@, pat@),
{
    let n = v.len();
    assert(v@.subrange(0, n as int) =~= v@);
    match find_in(v, 0, n, pat) {
        None => None,
        Some(i) => {
            proof {
                lemma_first_occurrence(v@, pat@, i as int);
            }
            let start = i + pat.len();
            let ghost rest = v@.skip(start as int);
            assert(rest =~= v@.subrange(start as int, n as int));
            match find_in(v, start, n, pat) {
                None => Some((start, n)),
                Some(j) => {
                    proof {
                        lemma_first_occurrence(rest, pat@, j - start);
                        assert(rest.take(j - start) =~= v@.subrange(start as int, j as int));
                    }
                    Some((start, j))
                },
            }
        },
    }
}

/// The bounds of the lines of `v`, in order: the pieces between newlines.
pub fn line_bounds(v: &Vec<char>) -> (r: Vec<(usize, usize)>)
    ensures
        r.len() == lines_of(v@).len(),
        forall|i: int|
            0 <= i < r.len() ==> {
                let (a, b) = #[trigger] r@[i];
                a <= b <= v.len() && v@.subrange(a as int, b as int) == lines_of(v@)[i]
            },
{
    let mut r: Vec<(usize, usize)> = Vec::new();
    let mut start: usize = 0;
    let mut k: usize = 0;
    assert(v@.take(0) =~= Seq::<char>::empty());
    assert(v@.subrange(0, 0) =~= Seq::<char>::empty());
    while k < v.len()
        invariant
            start <= k <= v.len(),
            lines_of(v@.take(k as int)).len() == r.len() + 1,
            lines_of(v@.take(k as int))[r.len() as int] == v@.subrange(start as int, k as int),
            forall|i: int|
                0 <= i < r.len() ==> {
                    let (a, b) = #[trigger] r@[i];
                    a <= b <= v.len() && v@.subrange(a as int, b as int) == lines_of(
                        v@.take(k as int),
                    )[i]
                },
        decreases v.len() - k,
    {
        let ghost before = lines_of(v@.take(k as int));
        assert(v@.take(k + 1).drop_last() =~= v@.take(k as int));
        if v[k] == '\n' {
            r.push((start, k));
            start = k + 1;
            assert(v@.subrange(start as int, start as int) =~= Seq::<char>::empty());
        } else {
            assert(v@.subrange(start as int, k + 1) =~= v@.subrange(start as int, k as int).push(
                v@[k as int],
            ));
        }
        k = k + 1;
        assert forall|i: int| 0 <= i < r.len() implies {
            let (a, b) = #[trigger] r@[i];
            a <= b <= v.len() && v@.subrange(a as int, b as int) == lines_of(v@.take(k as int))[i]
        } by {
            if i < r.len() - 1 || v@[k - 1] != '\n' {
                assert(lines_of(v@.take(k as int))[i] == before[i]);
            }
        }
    }
    r.push((start, k));
    assert(v@.take(k as int) =~= v@);
    r
}

/// `s` without leading and trailing whitespace, as a new string.
pub fn trimmed(s: &str) -> (r: String)
    ensures
        r@ == trim(s@),
{
    let v = chars_of(s);
    let n = v.len();
    let (a, b) = trim_bounds(&v, 0, n);
    assert(v@.subrange(0, n as int) =~= s@);
    String::from_str(s.substring_char(a, b))
}

} // verus!
