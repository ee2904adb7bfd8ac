//! The media duration in the encoder's report on an input file: the text
//! after the first `Duration:`, up to the end of its line and the first
//! comma, as hours, minutes and seconds separated by colons.
use vstd::prelude::*;

verus! {

/// Unicode `White_Space`.
pub open spec fn is_white_space(c: char) -> bool {
    let u = c as u32;
    (0x09 <= u <= 0x0D) || u == 0x20 || u == 0x85 || u == 0xA0 || u == 0x1680
        || (0x2000 <= u <= 0x200A) || u == 0x2028 || u == 0x2029 || u == 0x202F
        || u == 0x205F || u == 0x3000
}

pub open spec fn trim_start(s: Seq<char>) -> Seq<char>
    decreases s.len(),
{
    if s.len() > 0 && is_white_space(s[0]) {
        trim_start(s.drop_first())
    } else {
        s
    }
}

pub open spec fn trim_end(s: Seq<char>) -> Seq<char>
    decreases s.len(),
{
    if s.len() > 0 && is_white_space(s.last()) {
        trim_end(s.drop_last())
    } else {
        s
    }
}

/// `s` without leading and trailing white space.
pub open spec fn trim(s: Seq<char>) -> Seq<char> {
    trim_end(trim_start(s))
}

/// The first index from `i` on at which `c` stands, or the length.
pub open spec fn index_from(s: Seq<char>, c: char, i: int) -> int
    decreases s.len() - i,
{
    if i < 0 || i >= s.len() {
        s.len() as int
    } else if s[i] == c {
        i
    } else {
        index_from(s, c, i + 1)
    }
}

/// The first index at which `c` stands, or the length.
pub open spec fn index_of(s: Seq<char>, c: char) -> int {
    index_from(s, c, 0)
}

/// The first position from `i` on at which `p` occurs.
pub open spec fn match_from(s: Seq<char>, p: Seq<char>, i: int) -> Option<int>
    decreases s.len() + 1 - i,
{
    if i < 0 || i + p.len() > s.len() {
        None
    } else if s.subrange(i, i + p.len()) == p {
        Some(i)
    } else {
        match_from(s, p, i + 1)
    }
}

proof fn lemma_match_fits(s: Seq<char>, p: Seq<char>, i: int)
    ensures
        match_from(s, p, i) matches Some(k) ==> i <= k && k + p.len() <= s.len()
            && s.subrange(k, k + p.len()) == p,
    decreases s.len() + 1 - i,
{
    if !(i < 0 || i + p.len() > s.len()) && s.subrange(i, i + p.len()) != p {
        lemma_match_fits(s, p, i + 1);
    }
}

fn is_white_space_char(c: char) -> (r: bool)
    ensures
        r == is_white_space(c),
{
    let u = c as u32;
    (0x09 <= u && u <= 0x0D) || u == 0x20 || u == 0x85 || u == 0xA0 || u == 0x1680
        || (0x2000 <= u && u <= 0x200A) || u == 0x2028 || u == 0x2029 || u == 0x202F
        || u == 0x205F || u == 0x3000
}

/// The characters of `s`.
fn chars_of(s: &str) -> (r: Vec<char>)
    ensures
        r@ == s@,
{
    let n = s.unicode_len();
    let mut v: Vec<char> = Vec::new();
    let mut i: usize = 0;
    while i < n
        invariant
            n == s@.len(),
            i <= n,
            v@ == s@.subrange(0, i as int),
        decreases n - i,
    {
        v.push(s.get_char(i));
        i = i + 1;
        assert(v@ =~= s@.subrange(0, i as int));
    }
    assert(s@.subrange(0, n as int) =~= s@);
    v
}

/// The first index of `c` in `v[lo..hi]`, counted from the start of `v`, or `hi`.
fn find_char(v: &Vec<char>, c: char, lo: usize, hi: usize) -> (r: usize)
    requires
        lo <= hi <= v@.len(),
    ensures
        r == lo + index_of(v@.subrange(lo as int, hi as int), c),
        lo <= r <= hi,
{
    let ghost sub = v@.subrange(lo as int, hi as int);
    let mut i: usize = lo;
    while i < hi && v[i] != c
        invariant
            lo <= i <= hi <= v@.len(),
            sub == v@.subrange(lo as int, hi as int),
            index_of(sub, c) == index_from(sub, c, i - lo),
        decreases hi - i,
    {
        i = i + 1;
    }
    i
}

/// The bounds of `v[lo..hi]` without its leading and trailing white space.
fn trim_bounds(v: &Vec<char>, lo: usize, hi: usize) -> (r: (usize, usize))
    requires
        lo <= hi <= v@.len(),
    ensures
        lo <= r.0 <= r.1 <= hi,
        v@.subrange(r.0 as int, r.1 as int) == trim(v@.subrange(lo as int, hi as int)),
{
    let mut a: usize = lo;
    while a < hi && is_white_space_char(v[a])
        invariant
            lo <= a <= hi <= v@.len(),
            trim_start(v@.subrange(lo as int, hi as int)) == trim_start(v@.subrange(a as int, hi as int)),
        decreases hi - a,
    {
        assert(v@.subrange(a as int, hi as int).drop_first() =~= v@.subrange(a + 1, hi as int));
        a = a + 1;
    }
    let mut b: usize = hi;
    while b > a && is_white_space_char(v[b - 1])
        invariant
            lo <= a <= b <= hi <= v@.len(),
            trim_end(v@.subrange(a as int, hi as int)) == trim_end(v@.subrange(a as int, b as int)),
        decreases b - a,
    {
        assert(v@.subrange(a as int, b as int).drop_last() =~= v@.subrange(a as int, b - 1));
        b = b - 1;
    }
    (a, b)
}

/// The first position of `p` in `v`.
fn find_pattern(v: &Vec<char>, p: &Vec<char>) -> (r: Option<usize>)
    ensures
        match r {
            Some(k) => match_from(v@, p@, 0) == Some(k as int),
            None => match_from(v@, p@, 0) == None::<int>,
        },
{
    let n = v.len();
    let plen = p.len();
    if plen > n {
        return None;
    }
    let mut i: usize = 0;
    while i <= n - plen
        invariant
            n == v@.len(),
            plen == p@.len(),
            plen <= n,
            i <= n - plen + 1,
            match_from(v@, p@, 0) == match_from(v@, p@, i as int),
        decreases n - plen + 1 - i,
    {
        let mut j: usize = 0;
        while j < plen && v[i + j] == p[j]
            invariant
                n == v@.len(),
                plen == p@.len(),
                i + plen <= n,
                j <= plen,
                forall|k: int| 0 <= k < j ==> v@[i + k] == p@[k],
            decreases plen - j,
        {
            j = j + 1;
        }
        if j == plen {
            assert(v@.subrange(i as int, i + plen) =~= p@);
            return Some(i);
        }
        assert(v@.subrange(i as int, i + plen)[j as int] != p@[j as int]);
        i = i + 1;
    }
    None
}

/// `piece` split at its two colons; `None` unless it holds exactly two.
pub open spec fn split_three(piece: Seq<char>) -> Option<(Seq<char>, Seq<char>, Seq<char>)> {
    let c1 = index_of(piece, ':');
    if c1 >= piece.len() {
        None
    } else {
        let r1 = piece.subrange(c1 + 1, piece.len() as int);
        let c2 = index_of(r1, ':');
        if c2 >= r1.len() {
            None
        } else {
            let r2 = r1.subrange(c2 + 1, r1.len() as int);
            if index_of(r2, ':') < r2.len() {
                None
            } else {
                Some((trim(piece.subrange(0, c1)), trim(r1.subrange(0, c2)), trim(r2)))
            }
        }
    }
}

/// The hours, minutes and seconds texts of the first `Duration:` in a report.
pub open spec fn duration_fields_of(s: Seq<char>) -> Option<(Seq<char>, Seq<char>, Seq<char>)> {
    match match_from(s, "Duration:"@, 0) {
        None => None,
        Some(m) => {
            let after = s.subrange(m + "Duration:"@.len(), s.len() as int);
            let line_rest = after.subrange(0, index_of(after, '\n'));
            split_three(trim(line_rest.subrange(0, index_of(line_rest, ','))))
        },
    }
}

/// The three parts of a reported duration, each trimmed.
#[derive(Debug, Clone, PartialEq, Eq)]
pub struct DurationFields {
    pub hours: String,
    pub minutes: String,
    pub seconds: String,
}

/// Finds the first `Duration:` in the encoder's report and splits what follows
/// on its line, up to the first comma and trimmed, at its colons into hours,
/// minutes and seconds. `None` where there is no such text or it has other
/// than three parts.
pub fn duration_fields(report: &str) -> (r: Option<DurationFields>)
    ensures
        match duration_fields_of(report@) {
            None => r is None,
            Some(t) => r is Some && r->0.hours@ == t.0 && r->0.minutes@ == t.1
                && r->0.seconds@ == t.2,
        },
{
    let v = chars_of(report);
    let p = chars_of("Duration:");
    let m = match find_pattern(&v, &p) {
        None => {
            return None;
        },
        Some(m) => m,
    };
    let n = v.len();
    proof {
        lemma_match_fits(v@, p@, 0);
    }
    let a = m + p.len();
    let ghost s = v@;
    let ghost after = s.subrange(a as int, n as int);
    let line_end = find_char(&v, '\n', a, n);
    let ghost line_rest = after.subrange(0, index_of(after, '\n'));
    assert(line_rest =~= s.subrange(a as int, line_end as int));
    let comma = find_char(&v, ',', a, line_end);
    assert(line_rest.subrange(0, index_of(line_rest, ',')) =~= s.subrange(a as int, comma as int));
    let (lo, hi) = trim_bounds(&v, a, comma);
    let ghost piece = s.subrange(lo as int, hi as int);
    let c1 = find_char(&v, ':', lo, hi);
    if c1 == hi {
        return None;
    }
    let ghost r1 = piece.subrange(c1 - lo + 1, piece.len() as int);
    assert(r1 =~= s.subrange(c1 + 1, hi as int));
    let c2 = find_char(&v, ':', c1 + 1, hi);
    if c2 == hi {
        return None;
    }
    let ghost r2 = r1.subrange(c2 - c1, r1.len() as int);
    assert(r2 =~= s.subrange(c2 + 1, hi as int));
    let c3 = find_char(&v, ':', c2 + 1, hi);
    if c3 != hi {
        return None;
    }
    assert(piece.subrange(0, c1 - lo) =~= s.subrange(lo as int, c1 as int));
    assert(r1.subrange(0, c2 - c1 - 1) =~= s.subrange(c1 + 1, c2 as int));
    let (h0, h1) = trim_bounds(&v, lo, c1);
    let (m0, m1) = trim_bounds(&v, c1 + 1, c2);
    let (s0, s1) = trim_bounds(&v, c2 + 1, hi);
    Some(DurationFields {
        hours: String::from_str(report.substring_char(h0, h1)),
        minutes: String::from_str(report.substring_char(m0, m1)),
        seconds: String::from_str(report.substring_char(s0, s1)),
    })
}

} // verus!
