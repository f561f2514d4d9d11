//! Content digests: the `sha256:<hex>` identity of an artifact.
//!
//! A digest string is modelled by its sequence of characters. The canonical
//! form is the prefix `sha256:` followed by 64 lowercase hexadecimal digits.

use sha2::Digest;
use sha2::Sha256;
use vstd::prelude::*;
use vstd::string::*;
use vstd::utf8::*;

verus! {

/// The characters of the algorithm prefix, `sha256:`.
pub open spec fn sha256_prefix() -> Seq<char> {
    seq!['s', 'h', 'a', '2', '5', '6', ':']
}

/// `c` is one of `0`-`9` or `a`-`f`.
pub open spec fn is_lower_hex(c: char) -> bool {
    ('0' <= c && c <= '9') || ('a' <= c && c <= 'f')
}

/// Every character of `s` is a lowercase hexadecimal digit.
pub open spec fn all_lower_hex(s: Seq<char>) -> bool {
    forall|i: int| 0 <= i < s.len() ==> is_lower_hex(#[trigger] s[i])
}

/// `s` begins with `sha256:`.
pub open spec fn has_sha256_prefix(s: Seq<char>) -> bool {
    sha256_prefix().is_prefix_of(s)
}

/// The shape test for a digest reference: the prefix, and 71 bytes in all.
pub open spec fn is_digest_spec(s: Seq<char>) -> bool {
    has_sha256_prefix(s) && encode_utf8(s).len() == 71
}

/// The canonical form: the prefix followed by exactly 64 lowercase hex digits.
pub open spec fn is_canonical_digest(s: Seq<char>) -> bool {
    &&& s.len() == 71
    &&& has_sha256_prefix(s)
    &&& all_lower_hex(s.skip(7))
}

/// `s` with the prefix put in front unless it is there already.
pub open spec fn normalize_spec(s: Seq<char>) -> Seq<char> {
    if has_sha256_prefix(s) {
        s
    } else {
        sha256_prefix() + s
    }
}

/// `s` without its leading run of `@` characters.
pub open spec fn strip_leading_at(s: Seq<char>) -> Seq<char>
    decreases s.len(),
{
    if s.len() > 0 && s[0] == '@' {
        strip_leading_at(s.skip(1))
    } else {
        s
    }
}

/// The name a digest has on disk: the prefix removed where there is one,
/// else any leading `@` characters removed.
pub open spec fn trim_prefix_spec(s: Seq<char>) -> Seq<char> {
    if has_sha256_prefix(s) {
        s.skip(7)
    } else {
        strip_leading_at(s)
    }
}

/// The SHA-256 hash of a byte sequence.
pub uninterp spec fn sha256(bytes: Seq<u8>) -> Seq<u8>;

/// The lowercase hexadecimal digit for a value below 16.
pub open spec fn hex_digit(n: int) -> char {
    if n == 0 {
        '0'
    } else if n == 1 {
        '1'
    } else if n == 2 {
        '2'
    } else if n == 3 {
        '3'
    } else if n == 4 {
        '4'
    } else if n == 5 {
        '5'
    } else if n == 6 {
        '6'
    } else if n == 7 {
        '7'
    } else if n == 8 {
        '8'
    } else if n == 9 {
        '9'
    } else if n == 10 {
        'a'
    } else if n == 11 {
        'b'
    } else if n == 12 {
        'c'
    } else if n == 13 {
        'd'
    } else if n == 14 {
        'e'
    } else {
        'f'
    }
}

/// Bytes written in lowercase hexadecimal: two digits for each byte, the
/// high half first.
pub open spec fn hex_of(bytes: Seq<u8>) -> Seq<char> {
    Seq::new(
        2 * bytes.len(),
        |i: int|
            if i % 2 == 0 {
                hex_digit(bytes[i / 2] as int / 16)
            } else {
                hex_digit(bytes[i / 2] as int % 16)
            },
    )
}

/// The lowercase hexadecimal SHA-256 of a byte sequence.
pub open spec fn sha256_hex(bytes: Seq<u8>) -> Seq<char> {
    hex_of(sha256(bytes))
}

/// The canonical digest of a byte sequence.
pub open spec fn digest_of(bytes: Seq<u8>) -> Seq<char> {
    sha256_prefix() + sha256_hex(bytes)
}

/// Hashes `bytes` with `sha2::Sha256` (`new`, `update`, `finalize`).
/// Trusted: the result is the SHA-256 of the input, which is 32 bytes
/// long.
#[verifier::external_body]
fn sha256_of(bytes: &[u8]) -> (hash: Vec<u8>)
    ensures
        hash@ == sha256(bytes@),
        hash@.len() == 32,
{
    let mut hasher = Sha256::new();
    hasher.update(bytes);
    hasher.finalize().to_vec()
}

/// The digit for a value below 16, as a string.
fn digit_text(n: u8) -> (text: &'static str)
    requires
        n < 16,
    ensures
        text@ == seq![hex_digit(n as int)],
{
    proof {
        reveal_strlit("0");
        reveal_strlit("1");
        reveal_strlit("2");
        reveal_strlit("3");
        reveal_strlit("4");
        reveal_strlit("5");
        reveal_strlit("6");
        reveal_strlit("7");
        reveal_strlit("8");
        reveal_strlit("9");
        reveal_strlit("a");
        reveal_strlit("b");
        reveal_strlit("c");
        reveal_strlit("d");
        reveal_strlit("e");
        reveal_strlit("f");
    }
    let text = match n {
        0 => "0",
        1 => "1",
        2 => "2",
        3 => "3",
        4 => "4",
        5 => "5",
        6 => "6",
        7 => "7",
        8 => "8",
        9 => "9",
        10 => "a",
        11 => "b",
        12 => "c",
        13 => "d",
        14 => "e",
        _ => "f",
    };
    assert(text@ =~= seq![hex_digit(n as int)]);
    text
}

/// Writes bytes in lowercase hexadecimal.
pub fn to_hex(bytes: &[u8]) -> (hex: String)
    ensures
        hex@ == hex_of(bytes@),
{
    let mut hex = String::new();
    let mut i: usize = 0;
    while i < bytes.len()
        invariant
            i <= bytes.len(),
            hex@ == hex_of(bytes@.take(i as int)),
        decreases bytes.len() - i,
    {
        let b: u8 = bytes[i];
        let ghost before = hex@;
        hex.append(digit_text(b / 16));
        hex.append(digit_text(b % 16));
        proof {
            let done = bytes@.take(i as int);
            let next = bytes@.take(i + 1);
            assert(next =~= done.push(b));
            assert(hex@ =~= hex_of(next)) by {
                assert(hex@.len() == 2 * next.len());
                assert forall|k: int| 0 <= k < hex@.len() implies hex@[k] == hex_of(next)[k] by {
                    if k < 2 * i {
                        assert(hex@[k] == before[k]);
                        assert(next[k / 2] == done[k / 2]);
                    }
                }
            }
        }
        i = i + 1;
    }
    proof {
        assert(bytes@.take(bytes@.len() as int) =~= bytes@);
    }
    hex
}

/// Every hexadecimal digit is a lowercase one.
pub proof fn lemma_hex_is_lower(bytes: Seq<u8>)
    ensures
        hex_of(bytes).len() == 2 * bytes.len(),
        all_lower_hex(hex_of(bytes)),
{
    assert forall|i: int| 0 <= i < hex_of(bytes).len() implies is_lower_hex(
        #[trigger] hex_of(bytes)[i],
    ) by {
        let b = bytes[i / 2] as int;
        assert(0 <= b / 16 < 16 && 0 <= b % 16 < 16);
    }
}

/// Tests whether `s` begins with `sha256:`.
pub fn starts_with_sha256(s: &str) -> (b: bool)
    ensures
        b == has_sha256_prefix(s@),
{
    let n: usize = s.unicode_len();
    if n < 7 {
        return false;
    }
    let b = s.get_char(0) == 's' && s.get_char(1) == 'h' && s.get_char(2) == 'a' && s.get_char(3)
        == '2' && s.get_char(4) == '5' && s.get_char(5) == '6' && s.get_char(6) == ':';
    proof {
        if b {
            assert(s@.subrange(0, 7) =~= sha256_prefix());
        }
    }
    b
}

/// True iff `s` starts with `sha256:` and is 71 bytes long.
pub fn is_digest(s: &str) -> (b: bool)
    ensures
        b == is_digest_spec(s@),
{
    starts_with_sha256(s) && s.as_bytes().len() == 71
}

/// Puts `sha256:` in front of `digest` unless it already starts with it.
pub fn normalize_digest(digest: &str) -> (out: String)
    ensures
        out@ == normalize_spec(digest@),
{
    if starts_with_sha256(digest) {
        digest.to_owned()
    } else {
        proof {
            reveal_strlit("sha256:");
            assert("sha256:"@ =~= sha256_prefix());
        }
        String::from_str("sha256:").concat(digest)
    }
}

/// Counts the `@` characters at the front of `s`.
fn leading_at_count(s: &str, n: usize) -> (k: usize)
    requires
        n == s@.len(),
    ensures
        k <= n,
        strip_leading_at(s@) == s@.skip(k as int),
{
    let mut k: usize = 0;
    proof {
        assert(s@.skip(0) =~= s@);
    }
    while k < n && s.get_char(k) == '@'
        invariant
            k <= n,
            n == s@.len(),
            strip_leading_at(s@) == strip_leading_at(s@.skip(k as int)),
        decreases n - k,
    {
        proof {
            assert(s@.skip(k as int).skip(1) =~= s@.skip(k + 1));
        }
        k = k + 1;
    }
    k
}

/// Strips `sha256:` from the front of `digest`; where it does not start
/// with it, strips any leading `@` instead.
pub fn trim_digest_prefix(digest: &str) -> (out: &str)
    ensures
        out@ == trim_prefix_spec(digest@),
{
    let n: usize = digest.unicode_len();
    if starts_with_sha256(digest) {
        proof {
            assert(digest@.subrange(7, n as int) =~= digest@.skip(7));
        }
        digest.substring_char(7, n)
    } else {
        let k: usize = leading_at_count(digest, n);
        proof {
            assert(digest@.subrange(k as int, n as int) =~= digest@.skip(k as int));
        }
        digest.substring_char(k, n)
    }
}

/// The digest for a hash: `sha256:` and the hash in lowercase hex. For a
/// hash of 32 bytes the digest is canonical.
pub fn digest_for_hash(hash: &[u8]) -> (out: String)
    ensures
        out@ == sha256_prefix() + hex_of(hash@),
        hash@.len() == 32 ==> is_canonical_digest(out@) && is_digest_spec(out@),
{
    let hex = to_hex(hash);
    proof {
        reveal_strlit("sha256:");
        assert("sha256:"@ =~= sha256_prefix());
        lemma_hex_is_lower(hash@);
    }
    let out = String::from_str("sha256:").concat(hex.as_str());
    proof {
        assert(out@.skip(7) =~= hex@);
        if hash@.len() == 32 {
            lemma_canonical_is_digest(out@);
        }
    }
    out
}

/// The canonical digest of `bytes`: `sha256:` and the lowercase hex
/// SHA-256.
pub fn digest_for_bytes(bytes: &[u8]) -> (out: String)
    ensures
        out@ == digest_of(bytes@),
        is_canonical_digest(out@),
        is_digest_spec(out@),
{
    let hash = sha256_of(bytes);
    digest_for_hash(hash.as_slice())
}

/// A canonical digest passes the shape test: it is ASCII, so its 71
/// characters are 71 bytes.
pub proof fn lemma_canonical_is_digest(s: Seq<char>)
    requires
        s.len() == 71,
        has_sha256_prefix(s),
        all_lower_hex(s.skip(7)),
    ensures
        is_canonical_digest(s),
        is_digest_spec(s),
{
    assert forall|i: int| 0 <= i < s.len() implies '\0' <= #[trigger] s[i] <= '\u{7f}' by {
        if i < 7 {
            assert(s[i] == sha256_prefix()[i]);
        } else {
            assert(s[i] == s.skip(7)[i - 7]);
            assert(is_lower_hex(s.skip(7)[i - 7]));
        }
    }
    assert(is_ascii_chars(s));
    is_ascii_chars_encode_utf8(s);
}

} // verus!
