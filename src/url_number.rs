//! Recovering an issue number from the HTML URL of one of its comments.
//!
//! The URL has the shape `<issue-path>#<fragment>`: the number is the last
//! `/`-separated segment of the part before the first `#`, read as a decimal
//! `i32`. Where that segment is no such number, `UNPARSED_ISSUE` stands in.

use vstd::prelude::*;

verus! {

/// Marks an owning issue whose number could not be read from the URL: it is
/// out of range for any real issue number.
pub const UNPARSED_ISSUE: i32 = 2147483647;

/// The part of `s` before the first occurrence of `c`; all of `s` if there is
/// none.
pub open spec fn before_first(s: Seq<char>, c: char) -> Seq<char>
    decreases s.len(),
{
    if s.len() == 0 {
        s
    } else if s[0] == c {
        Seq::empty()
    } else {
        seq![s[0]] + before_first(s.drop_first(), c)
    }
}

/// The part of `s` after the last occurrence of `c`; all of `s` if there is
/// none.
pub open spec fn after_last(s: Seq<char>, c: char) -> Seq<char>
    decreases s.len(),
{
    if s.len() == 0 {
        s
    } else if s.last() == c {
        Seq::empty()
    } else {
        after_last(s.drop_last(), c).push(s.last())
    }
}

pub open spec fn is_digit(c: char) -> bool {
    '0' <= c && c <= '9'
}

pub open spec fn all_digits(s: Seq<char>) -> bool {
    forall|i: int| 0 <= i < s.len() ==> is_digit(#[trigger] s[i])
}

/// The value of a string of decimal digits, most significant first.
pub open spec fn digits_value(s: Seq<char>) -> int
    decreases s.len(),
{
    if s.len() == 0 {
        0
    } else {
        10 * digits_value(s.drop_last()) + (s.last() as int - '0' as int)
    }
}

/// A decimal `i32`: an optional `+` or `-`, then one or more digits, of a
/// value in range; nothing else.
pub open spec fn parse_i32(s: Seq<char>) -> Option<i32> {
    let signed = s.len() > 0 && (s[0] == '+' || s[0] == '-');
    let digits = if signed { s.drop_first() } else { s };
    let v = if s.len() > 0 && s[0] == '-' { -digits_value(digits) } else { digits_value(digits) };
    if digits.len() > 0 && all_digits(digits) && i32::MIN <= v <= i32::MAX {
        Some(v as i32)
    } else {
        None
    }
}

/// The segment of a comment URL that names the owning issue.
pub open spec fn issue_segment(url: Seq<char>) -> Seq<char> {
    after_last(before_first(url, '#'), '/')
}

/// The owning issue's number as read from a comment URL, or
/// `UNPARSED_ISSUE` where it cannot be read.
pub open spec fn issue_number_of(url: Seq<char>) -> i32 {
    match parse_i32(issue_segment(url)) {
        Some(n) => n,
        None => UNPARSED_ISSUE,
    }
}

proof fn lemma_before_first_at(s: Seq<char>, c: char, i: int)
    requires
        0 <= i <= s.len(),
        forall|k: int| 0 <= k < i ==> s[k] != c,
        i == s.len() || s[i] == c,
    ensures
        before_first(s, c) =~= s.take(i),
    decreases s.len(),
{
    if s.len() > 0 && i > 0 {
        lemma_before_first_at(s.drop_first(), c, i - 1);
    }
}

proof fn lemma_after_last_from(s: Seq<char>, c: char, j: int)
    requires
        0 <= j <= s.len(),
        forall|k: int| j <= k < s.len() ==> s[k] != c,
        j == 0 || s[j - 1] == c,
    ensures
        after_last(s, c) =~= s.subrange(j, s.len() as int),
    decreases s.len(),
{
    if s.len() > j {
        lemma_after_last_from(s.drop_last(), c, j);
    }
}

/// The characters of `s`, in order.
pub(crate) fn chars_of(s: &str) -> (r: Vec<char>)
    ensures
        r@ == s@,
{
    broadcast use vstd::string::axiom_spec_iter;

    let mut r: Vec<char> = Vec::new();
    for c in it: s.chars()
        invariant
            it.seq() == s@,
            r@ == it.seq().take(it.index() as int),
    {
        r.push(c);
    }
    r
}

/// Reads `s[lo..hi]` as a decimal `i32`.
fn parse_i32_range(s: &Vec<char>, lo: usize, hi: usize) -> (r: Option<i32>)
    requires
        lo <= hi <= s.len(),
    ensures
        r == parse_i32(s@.subrange(lo as int, hi as int)),
{
    let ghost seg = s@.subrange(lo as int, hi as int);
    let negative = lo < hi && s[lo] == '-';
    let start: usize = if lo < hi && (s[lo] == '+' || s[lo] == '-') { lo + 1 } else { lo };
    let ghost digits = s@.subrange(start as int, hi as int);
    assert(digits =~= (if seg.len() > 0 && (seg[0] == '+' || seg[0] == '-') {
        seg.drop_first()
    } else {
        seg
    }));
    if start == hi {
        return None;
    }
    // `acc` is the value read so far, until it passes the largest magnitude
    // that an `i32` can hold; from then on only `too_large` is kept.
    let mut acc: i64 = 0;
    let mut too_large = false;
    let mut k: usize = start;
    while k < hi
        invariant
            start <= k <= hi <= s.len(),
            seg == s@.subrange(lo as int, hi as int),
            digits == s@.subrange(start as int, hi as int),
            digits == (if seg.len() > 0 && (seg[0] == '+' || seg[0] == '-') {
                seg.drop_first()
            } else {
                seg
            }),
            all_digits(s@.subrange(start as int, k as int)),
            !too_large ==> acc == digits_value(s@.subrange(start as int, k as int)),
            !too_large ==> 0 <= acc <= 2147483648,
            too_large ==> digits_value(s@.subrange(start as int, k as int)) > 2147483648,
        decreases hi - k,
    {
        let c = s[k];
        let ghost prev = s@.subrange(start as int, k as int);
        let ghost next = s@.subrange(start as int, k + 1);
        assert(next.drop_last() =~= prev);
        if !('0' <= c && c <= '9') {
            assert(digits[k - start] == c);
            assert(!is_digit(digits[k - start]));
            assert(!all_digits(digits));
            return None;
        }
        proof {
            lemma_digits_value_nonneg(prev);
        }
        if !too_large {
            let d = (c as u32 - '0' as u32) as i64;
            acc = acc * 10 + d;
            if acc > 2147483648 {
                too_large = true;
            }
        }
        k = k + 1;
        assert(all_digits(next)) by {
            assert forall|i: int| 0 <= i < next.len() implies is_digit(#[trigger] next[i]) by {
                if i < prev.len() {
                    assert(next[i] == prev[i]);
                }
            }
        }
    }
    assert(s@.subrange(start as int, k as int) =~= digits);
    if too_large {
        return None;
    }
    if negative {
        Some((0 - acc) as i32)
    } else if acc <= 2147483647 {
        Some(acc as i32)
    } else {
        None
    }
}

proof fn lemma_digits_value_nonneg(s: Seq<char>)
    requires
        all_digits(s),
    ensures
        digits_value(s) >= 0,
    decreases s.len(),
{
    if s.len() > 0 {
        assert(all_digits(s.drop_last())) by {
            assert forall|i: int| 0 <= i < s.drop_last().len() implies is_digit(
                #[trigger] s.drop_last()[i],
            ) by {
                assert(s.drop_last()[i] == s[i]);
            }
        }
        lemma_digits_value_nonneg(s.drop_last());
        assert(is_digit(s[s.len() - 1]));
    }
}

/// Reads the owning issue's number from a comment URL: `None` where the
/// segment that should hold it is no decimal `i32`.
pub fn parse_issue_number(url: &str) -> (r: Option<i32>)
    ensures
        r == parse_i32(issue_segment(url@)),
{
    let s = chars_of(url);
    let n = s.len();
    let mut hash: usize = 0;
    while hash < n && s[hash] != '#'
        invariant
            hash <= n == s.len(),
            forall|k: int| 0 <= k < hash ==> s@[k] != '#',
        decreases n - hash,
    {
        hash = hash + 1;
    }
    proof {
        lemma_before_first_at(s@, '#', hash as int);
    }
    let mut seg_start: usize = hash;
    while seg_start > 0 && s[seg_start - 1] != '/'
        invariant
            seg_start <= hash <= n == s.len(),
            forall|k: int| seg_start <= k < hash ==> s@[k] != '/',
        decreases seg_start,
    {
        seg_start = seg_start - 1;
    }
    proof {
        let prefix = s@.take(hash as int);
        lemma_after_last_from(prefix, '/', seg_start as int);
        assert(prefix.subrange(seg_start as int, hash as int) =~= s@.subrange(
            seg_start as int,
            hash as int,
        ));
    }
    parse_i32_range(&s, seg_start, hash)
}

/// The number of the issue that a comment belongs to, read from the
/// comment's HTML URL; `UNPARSED_ISSUE` where the URL holds none.
pub fn issue_number_from_url(url: &str) -> (r: i32)
    ensures
        r == issue_number_of(url@),
        parse_i32(issue_segment(url@)) is None ==> r == UNPARSED_ISSUE,
{
    match parse_issue_number(url) {
        Some(n) => n,
        None => UNPARSED_ISSUE,
    }
}

} // verus!
