//! Text operations used to build request URLs.

use vstd::prelude::*;
use vstd::string::*;
use vstd::utf8::encode_utf8;

verus! {

/// `pattern` occurs in `s` starting at index `i`.
pub open spec fn occurs_at(s: Seq<char>, pattern: Seq<char>, i: int) -> bool {
    &&& 0 <= i
    &&& i + pattern.len() <= s.len()
    &&& s.subrange(i, i + pattern.len()) == pattern
}

/// `i` is the leftmost index where `pattern` occurs in `s`.
pub open spec fn is_first_occurrence(s: Seq<char>, pattern: Seq<char>, i: int) -> bool {
    &&& occurs_at(s, pattern, i)
    &&& forall|j: int| 0 <= j < i ==> !occurs_at(s, pattern, j)
}

/// `s` with the leftmost occurrence of `pattern` replaced by `with`; `s`
/// itself when `pattern` does not occur.
pub open spec fn replace_first_spec(s: Seq<char>, pattern: Seq<char>, with: Seq<char>) -> Seq<char> {
    if exists|i: int| is_first_occurrence(s, pattern, i) {
        let i = choose|i: int| is_first_occurrence(s, pattern, i);
        s.subrange(0, i) + with + s.subrange(i + pattern.len(), s.len() as int)
    } else {
        s
    }
}

/// A query fragment as it is appended after the access token: empty stays
/// empty, one that starts with `&` is kept, any other gets a leading `&`.
pub open spec fn prefixed_query(query: Seq<char>) -> Seq<char> {
    if query.len() == 0 || query[0] == '&' {
        query
    } else {
        seq!['&'] + query
    }
}

/// Prefixing is idempotent: a fragment that was already brought into form
/// stays as it is.
pub proof fn query_prefixing_is_idempotent(query: Seq<char>)
    ensures
        prefixed_query(prefixed_query(query)) == prefixed_query(query),
{
    if query.len() > 0 && query[0] != '&' {
        assert((seq!['&'] + query)[0] == '&');
    }
}

fn occurs_at_exec(s: &str, pattern: &str, i: usize, n: usize, m: usize) -> (r: bool)
    requires
        n == s@.len(),
        m == pattern@.len(),
        i + m <= n,
    ensures
        r == occurs_at(s@, pattern@, i as int),
{
    let mut k: usize = 0;
    while k < m
        invariant
            n == s@.len(),
            m == pattern@.len(),
            i + m <= n,
            k <= m,
            forall|t: int| 0 <= t < k ==> s@[i + t] == pattern@[t],
        decreases m - k,
    {
        if s.get_char(i + k) != pattern.get_char(k) {
            assert(s@.subrange(i as int, i + m)[k as int] != pattern@[k as int]);
            return false;
        }
        k += 1;
    }
    assert(s@.subrange(i as int, i + m) =~= pattern@);
    true
}

/// Replaces the leftmost occurrence of `pattern` in `s` by `with`.
pub fn replace_first(s: &str, pattern: &str, with: &str) -> (r: String)
    ensures
        r@ == replace_first_spec(s@, pattern@, with@),
{
    let n = s.unicode_len();
    let m = pattern.unicode_len();
    if m > n {
        return s.to_owned();
    }
    let mut i: usize = 0;
    loop
        invariant
            n == s@.len(),
            m == pattern@.len(),
            m <= n,
            i <= n - m,
            forall|j: int| 0 <= j < i ==> !occurs_at(s@, pattern@, j),
        decreases n - m - i,
    {
        if occurs_at_exec(s, pattern, i, n, m) {
            let mut r = s.substring_char(0, i).to_owned();
            r.append(with);
            r.append(s.substring_char(i + m, n));
            proof {
                assert(is_first_occurrence(s@, pattern@, i as int));
                let c = choose|c: int| is_first_occurrence(s@, pattern@, c);
                if c < i {
                    assert(!occurs_at(s@, pattern@, c));
                } else if c > i {
                    assert(!occurs_at(s@, pattern@, i as int));
                }
            }
            return r;
        }
        if i == n - m {
            return s.to_owned();
        }
        i += 1;
    }
}

/// Brings a query fragment into the form in which it follows the access
/// token.
pub fn prefix_query(query: &str) -> (r: String)
    ensures
        r@ == prefixed_query(query@),
{
    if query.unicode_len() == 0 || query.get_char(0) == '&' {
        query.to_owned()
    } else {
        let mut r = "&".to_owned();
        proof {
            reveal_strlit("&");
        }
        r.append(query);
        r
    }
}

/// The bytes that a URL carries as they are: ASCII letters, digits and
/// `-`, `.`, `_`, `~`.
pub open spec fn is_unreserved(b: u8) -> bool {
    ||| 0x41 <= b <= 0x5a
    ||| 0x61 <= b <= 0x7a
    ||| 0x30 <= b <= 0x39
    ||| b == 0x2d
    ||| b == 0x2e
    ||| b == 0x5f
    ||| b == 0x7e
}

/// The upper-case hexadecimal digit of `n`, for `n < 16`.
pub open spec fn hex_digit(n: u8) -> char {
    if n < 10 {
        (n + 0x30) as char
    } else {
        (n + 0x37) as char
    }
}

/// One byte in a URL: itself when unreserved, else `%` and its two
/// hexadecimal digits.
pub open spec fn encode_byte(b: u8) -> Seq<char> {
    if is_unreserved(b) {
        seq![b as char]
    } else {
        seq!['%', hex_digit(b / 16), hex_digit(b % 16)]
    }
}

/// `bytes` percent-encoded, one byte after the other.
pub open spec fn percent_encoded(bytes: Seq<u8>) -> Seq<char>
    decreases bytes.len(),
{
    if bytes.len() == 0 {
        Seq::empty()
    } else {
        percent_encoded(bytes.drop_last()) + encode_byte(bytes.last())
    }
}

/// Relies on `String::push`, which appends `c` to the end of `s`.
#[verifier::external_body]
fn push_char(s: &mut String, c: char)
    ensures
        final(s)@ == old(s)@.push(c),
{
    s.push(c);
}

fn hex_digit_exec(n: u8) -> (r: char)
    requires
        n < 16,
    ensures
        r == hex_digit(n),
{
    if n < 10 {
        (n + 0x30) as char
    } else {
        (n + 0x37) as char
    }
}

fn is_unreserved_exec(b: u8) -> (r: bool)
    ensures
        r == is_unreserved(b),
{
    (0x41 <= b && b <= 0x5a) || (0x61 <= b && b <= 0x7a) || (0x30 <= b && b <= 0x39) || b == 0x2d
        || b == 0x2e || b == 0x5f || b == 0x7e
}

/// Percent-encodes the UTF-8 bytes of `s`, so that it can stand as a value
/// in a URL's query.
pub fn percent_encode(s: &str) -> (r: String)
    ensures
        r@ == percent_encoded(encode_utf8(s@)),
{
    let bytes = s.as_bytes();
    let mut r = String::new();
    let mut i: usize = 0;
    while i < bytes.len()
        invariant
            bytes@ == encode_utf8(s@),
            i <= bytes@.len(),
            r@ == percent_encoded(bytes@.subrange(0, i as int)),
        decreases bytes.len() - i,
    {
        let b = bytes[i];
        if is_unreserved_exec(b) {
            push_char(&mut r, b as char);
        } else {
            push_char(&mut r, '%');
            push_char(&mut r, hex_digit_exec(b / 16));
            push_char(&mut r, hex_digit_exec(b % 16));
        }
        assert(bytes@.subrange(0, i + 1).drop_last() =~= bytes@.subrange(0, i as int));
        i += 1;
    }
    assert(bytes@.subrange(0, bytes@.len() as int) =~= bytes@);
    r
}

} // verus!
