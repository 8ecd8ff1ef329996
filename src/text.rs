//! Character-level helpers on names, paths and numbers.
use vstd::prelude::*;

verus! {

/// The decimal digits, in order.
pub const DIGITS: &'static str = "0123456789";

/// The position just past the last character of `s[0..n]` that is not a slash.
pub open spec fn trimmed_len(s: Seq<char>, n: int) -> int
    decreases n,
{
    if n > 0 && s[n - 1] == '/' {
        trimmed_len(s, n - 1)
    } else {
        n
    }
}

/// The start of the slash-free run of characters that ends at position `n`.
pub open spec fn segment_start(s: Seq<char>, n: int) -> int
    decreases n,
{
    if n > 0 && s[n - 1] != '/' {
        segment_start(s, n - 1)
    } else {
        n
    }
}

/// What follows the last slash of `s` (all of `s` if it has none).
pub open spec fn after_last_slash(s: Seq<char>) -> Seq<char> {
    s.subrange(segment_start(s, s.len() as int), s.len() as int)
}

/// The last path segment of `s` once its trailing slashes are trimmed.
pub open spec fn last_segment(s: Seq<char>) -> Seq<char> {
    let e = trimmed_len(s, s.len() as int);
    s.subrange(segment_start(s, e), e)
}

/// `s` with every slash removed.
pub open spec fn without_slashes(s: Seq<char>) -> Seq<char>
    decreases s.len(),
{
    if s.len() == 0 {
        s
    } else if s.last() == '/' {
        without_slashes(s.drop_last())
    } else {
        without_slashes(s.drop_last()).push(s.last())
    }
}

/// The character of a decimal digit.
pub open spec fn digit_char(d: nat) -> char {
    DIGITS@[d as int]
}

/// The decimal notation of `n`, without leading zeros.
pub open spec fn decimal(n: nat) -> Seq<char>
    decreases n,
{
    if n < 10 {
        seq![digit_char(n)]
    } else {
        decimal(n / 10).push(digit_char(n % 10))
    }
}

/// Where the slash-free run of `s` that ends at `end` starts.
fn find_segment_start(s: &str, end: usize) -> (r: usize)
    requires
        end <= s@.len(),
    ensures
        r as int == segment_start(s@, end as int),
        r <= end,
{
    let mut b: usize = end;
    while b > 0 && s.get_char(b - 1) != '/'
        invariant
            b <= end <= s@.len(),
            segment_start(s@, b as int) == segment_start(s@, end as int),
        decreases b,
    {
        b = b - 1;
    }
    b
}

/// What follows the last slash of `s`: the subtype of a content type such
/// as `image/png`.
pub fn after_last_slash_of(s: &str) -> (r: &str)
    ensures
        r@ == after_last_slash(s@),
{
    let n = s.unicode_len();
    let b = find_segment_start(s, n);
    s.substring_char(b, n)
}

/// The last non-empty path segment of a link, used to name a game whose
/// listing entry has no display name.
pub fn last_segment_of(s: &str) -> (r: &str)
    ensures
        r@ == last_segment(s@),
{
    let mut e: usize = s.unicode_len();
    while e > 0 && s.get_char(e - 1) == '/'
        invariant
            e <= s@.len(),
            trimmed_len(s@, e as int) == trimmed_len(s@, s@.len() as int),
        decreases e,
    {
        e = e - 1;
    }
    let b = find_segment_start(s, e);
    s.substring_char(b, e)
}

/// `s` with every slash removed.
pub fn strip_slashes(s: &str) -> (r: String)
    ensures
        r@ == without_slashes(s@),
{
    let n = s.unicode_len();
    let mut r = String::new();
    let mut i: usize = 0;
    while i < n
        invariant
            i <= n == s@.len(),
            r@ == without_slashes(s@.subrange(0, i as int)),
        decreases n - i,
    {
        assert(s@.subrange(0, i + 1).drop_last() =~= s@.subrange(0, i as int));
        if s.get_char(i) != '/' {
            r.append(s.substring_char(i, i + 1));
            assert(s@.subrange(i as int, i + 1) =~= seq![s@[i as int]]);
        }
        i = i + 1;
    }
    assert(s@.subrange(0, n as int) =~= s@);
    r
}

/// Appends the decimal notation of `n` to `out`.
pub fn push_decimal(out: &mut String, n: u64)
    ensures
        final(out)@ == old(out)@ + decimal(n as nat),
    decreases n,
{
    proof {
        reveal_strlit("0123456789");
    }
    if n >= 10 {
        push_decimal(out, n / 10);
    }
    let d = (n % 10) as usize;
    out.append(DIGITS.substring_char(d, d + 1));
    assert(DIGITS@.subrange(d as int, d + 1) =~= seq![digit_char(d as nat)]);
    assert(final(out)@ =~= old(out)@ + decimal(n as nat));
}

/// Whether two strings hold the same characters.
pub fn same_text(a: &str, b: &str) -> (r: bool)
    ensures
        r == (a@ == b@),
{
    let n = a.unicode_len();
    if n != b.unicode_len() {
        return false;
    }
    let mut i: usize = 0;
    while i < n
        invariant
            i <= n == a@.len() == b@.len(),
            a@.subrange(0, i as int) == b@.subrange(0, i as int),
        decreases n - i,
    {
        if a.get_char(i) != b.get_char(i) {
            return false;
        }
        assert(a@.subrange(0, i + 1) =~= a@.subrange(0, i as int).push(a@[i as int]));
        assert(b@.subrange(0, i + 1) =~= b@.subrange(0, i as int).push(b@[i as int]));
        i = i + 1;
    }
    assert(a@ =~= a@.subrange(0, n as int));
    assert(b@ =~= b@.subrange(0, n as int));
    true
}

} // verus!
