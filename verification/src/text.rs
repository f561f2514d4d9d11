//! Small verified helpers on strings and optional strings.

use vstd::prelude::*;
use vstd::string::*;
use vstd::utf8::*;

verus! {

/// The characters of an optional string.
pub open spec fn opt_chars(o: Option<String>) -> Option<Seq<char>> {
    match o {
        Some(s) => Some(s@),
        None => None,
    }
}

/// The characters of each string of a list.
pub open spec fn list_chars(v: Seq<String>) -> Seq<Seq<char>> {
    Seq::new(v.len(), |i: int| v[i]@)
}

/// Two strings hold the same characters exactly when they hold the same
/// bytes.
pub proof fn lemma_bytes_decide_chars(a: Seq<char>, b: Seq<char>)
    ensures
        (encode_utf8(a) == encode_utf8(b)) <==> (a == b),
{
    encode_utf8_decode_utf8(a);
    encode_utf8_decode_utf8(b);
}

/// Compares two string slices character by character.
pub fn str_eq(a: &str, b: &str) -> (same: bool)
    ensures
        same == (a@ == b@),
{
    let x = a.as_bytes();
    let y = b.as_bytes();
    proof {
        lemma_bytes_decide_chars(a@, b@);
        assert(x@ == encode_utf8(a@));
        assert(y@ == encode_utf8(b@));
    }
    if x.len() != y.len() {
        return false;
    }
    let n: usize = x.len();
    let mut i: usize = 0;
    while i < n
        invariant
            i <= n,
            n == x@.len(),
            n == y@.len(),
            (x@ == y@) <==> (a@ == b@),
            forall|j: int| 0 <= j < i ==> x@[j] == y@[j],
        decreases n - i,
    {
        if x[i] != y[i] {
            assert(x@[i as int] != y@[i as int]);
            return false;
        }
        i = i + 1;
    }
    assert(x@ =~= y@);
    true
}

/// A copy of an optional string.
pub fn clone_opt(o: &Option<String>) -> (out: Option<String>)
    ensures
        opt_chars(out) == opt_chars(*o),
{
    match o {
        Some(s) => Some(s.clone()),
        None => None,
    }
}

/// A copy of a list of strings.
pub fn clone_list(v: &Vec<String>) -> (out: Vec<String>)
    ensures
        list_chars(out@) == list_chars(v@),
{
    let mut out: Vec<String> = Vec::new();
    let mut i: usize = 0;
    while i < v.len()
        invariant
            i <= v.len(),
            out@.len() == i,
            forall|j: int| 0 <= j < i ==> out@[j]@ == v@[j]@,
        decreases v.len() - i,
    {
        out.push(v[i].clone());
        i = i + 1;
    }
    assert(list_chars(out@) =~= list_chars(v@));
    out
}

/// `c` is white space: a character with the Unicode property White_Space.
pub open spec fn is_white_space(c: char) -> bool {
    let n = c as u32;
    ||| 0x09 <= n <= 0x0d
    ||| n == 0x20
    ||| n == 0x85
    ||| n == 0xa0
    ||| n == 0x1680
    ||| 0x2000 <= n <= 0x200a
    ||| n == 0x2028
    ||| n == 0x2029
    ||| n == 0x202f
    ||| n == 0x205f
    ||| n == 0x3000
}

/// `s` without the white space at its front.
pub open spec fn strip_leading_space(s: Seq<char>) -> Seq<char>
    decreases s.len(),
{
    if s.len() > 0 && is_white_space(s[0]) {
        strip_leading_space(s.skip(1))
    } else {
        s
    }
}

/// `s` without the white space at its end.
pub open spec fn strip_trailing_space(s: Seq<char>) -> Seq<char>
    decreases s.len(),
{
    if s.len() > 0 && is_white_space(s.last()) {
        strip_trailing_space(s.drop_last())
    } else {
        s
    }
}

/// `s` without leading and trailing white space.
pub open spec fn trimmed(s: Seq<char>) -> Seq<char> {
    strip_trailing_space(strip_leading_space(s))
}

/// Trimmed text has no white space at either end, and trimming it again
/// changes nothing.
pub proof fn lemma_trimmed_is_trim(s: Seq<char>)
    ensures
        trimmed(s).len() <= s.len(),
        trimmed(s).len() > 0 ==> !is_white_space(trimmed(s)[0]) && !is_white_space(
            trimmed(s).last(),
        ),
        trimmed(trimmed(s)) == trimmed(s),
{
    lemma_leading_stripped(s);
    lemma_trailing_stripped(strip_leading_space(s));
    let t = trimmed(s);
    if t.len() > 0 {
        lemma_trailing_keeps_front(strip_leading_space(s));
    }
}

/// What is left after the front is stripped does not start with white
/// space.
pub proof fn lemma_leading_stripped(s: Seq<char>)
    ensures
        strip_leading_space(s).len() <= s.len(),
        strip_leading_space(s).len() > 0 ==> !is_white_space(strip_leading_space(s)[0]),
    decreases s.len(),
{
    if s.len() > 0 && is_white_space(s[0]) {
        lemma_leading_stripped(s.skip(1));
    }
}

/// What is left after the end is stripped does not end with white space.
pub proof fn lemma_trailing_stripped(s: Seq<char>)
    ensures
        strip_trailing_space(s).len() <= s.len(),
        strip_trailing_space(s).len() > 0 ==> !is_white_space(strip_trailing_space(s).last()),
    decreases s.len(),
{
    if s.len() > 0 && is_white_space(s.last()) {
        lemma_trailing_stripped(s.drop_last());
    }
}

/// Stripping the end leaves the front as it was.
pub proof fn lemma_trailing_keeps_front(s: Seq<char>)
    ensures
        strip_trailing_space(s).len() > 0 ==> s.len() > 0 && strip_trailing_space(s)[0] == s[0],
    decreases s.len(),
{
    if s.len() > 0 && is_white_space(s.last()) {
        lemma_trailing_keeps_front(s.drop_last());
    }
}

/// Tests whether `c` is white space.
pub fn is_space(c: char) -> (b: bool)
    ensures
        b == is_white_space(c),
{
    let n: u32 = c as u32;
    (0x09 <= n && n <= 0x0d) || n == 0x20 || n == 0x85 || n == 0xa0 || n == 0x1680 || (0x2000 <= n
        && n <= 0x200a) || n == 0x2028 || n == 0x2029 || n == 0x202f || n == 0x205f || n == 0x3000
}

/// `s` without leading and trailing white space.
pub fn trim(s: &str) -> (out: &str)
    ensures
        out@ == trimmed(s@),
{
    let n: usize = s.unicode_len();
    let mut from: usize = 0;
    proof {
        assert(s@.skip(0) =~= s@);
    }
    while from < n && is_space(s.get_char(from))
        invariant
            from <= n,
            n == s@.len(),
            strip_leading_space(s@) == strip_leading_space(s@.skip(from as int)),
        decreases n - from,
    {
        proof {
            assert(s@.skip(from as int).skip(1) =~= s@.skip(from + 1));
        }
        from = from + 1;
    }
    let mut to: usize = n;
    proof {
        assert(s@.subrange(from as int, n as int) =~= s@.skip(from as int));
    }
    while to > from && is_space(s.get_char(to - 1))
        invariant
            from <= to <= n,
            n == s@.len(),
            strip_leading_space(s@) == s@.skip(from as int),
            strip_trailing_space(s@.skip(from as int)) == strip_trailing_space(
                s@.subrange(from as int, to as int),
            ),
        decreases to - from,
    {
        proof {
            let part = s@.subrange(from as int, to as int);
            assert(part.last() == s@[to - 1]);
            assert(part.drop_last() =~= s@.subrange(from as int, to - 1));
        }
        to = to - 1;
    }
    proof {
        let part = s@.subrange(from as int, to as int);
        if to > from {
            assert(part.last() == s@[to - 1]);
        }
    }
    s.substring_char(from, to)
}

} // verus!
