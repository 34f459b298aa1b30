//! Character-level string helpers shared by the other modules: comparison,
//! trimming, decimal formatting and parsing, joining.

use vstd::prelude::*;
use vstd::string::*;

verus! {

/// Compares two string slices character by character.
pub fn str_eq(a: &str, b: &str) -> (r: bool)
    ensures
        r == (a@ == b@),
{
    let n: usize = a.unicode_len();
    if n != b.unicode_len() {
        return false;
    }
    let mut i: usize = 0;
    while i < n
        invariant
            n == a@.len(),
            n == b@.len(),
            i <= n,
            forall|j: int| 0 <= j < i ==> a@[j] == b@[j],
        decreases n - i,
    {
        if a.get_char(i) != b.get_char(i) {
            return false;
        }
        i = i + 1;
    }
    assert(a@ =~= b@);
    true
}

/// Appends one character to a string with `String::push`; claims only that
/// the string's characters are the old ones followed by `c`.
#[verifier::external_body]
pub(crate) fn push_char(s: &mut String, c: char)
    ensures
        final(s)@ == old(s)@.push(c),
{
    s.push(c);
}

/// An owned copy of a string slice.
pub fn owned(s: &str) -> (r: String)
    ensures
        r@ == s@,
{
    String::from_str(s)
}

/// The characters that `char::is_whitespace` accepts: the Unicode
/// `White_Space` property.
pub open spec fn is_whitespace(c: char) -> bool {
    let u: u32 = c as u32;
    ||| 0x9 <= u <= 0xd
    ||| u == 0x20
    ||| u == 0x85
    ||| u == 0xa0
    ||| u == 0x1680
    ||| 0x2000 <= u <= 0x200a
    ||| u == 0x2028
    ||| u == 0x2029
    ||| u == 0x202f
    ||| u == 0x205f
    ||| u == 0x3000
}

pub fn char_is_whitespace(c: char) -> (r: bool)
    ensures
        r == is_whitespace(c),
{
    let u: u32 = c as u32;
    (0x9 <= u && u <= 0xd) || u == 0x20 || u == 0x85 || u == 0xa0 || u == 0x1680 || (0x2000 <= u
        && u <= 0x200a) || u == 0x2028 || u == 0x2029 || u == 0x202f || u == 0x205f || u == 0x3000
}

/// `s` without its leading whitespace.
pub open spec fn trim_start(s: Seq<char>) -> Seq<char>
    decreases s.len(),
{
    if s.len() > 0 && is_whitespace(s[0]) {
        trim_start(s.drop_first())
    } else {
        s
    }
}

/// `s` without its trailing whitespace.
pub open spec fn trim_end(s: Seq<char>) -> Seq<char>
    decreases s.len(),
{
    if s.len() > 0 && is_whitespace(s.last()) {
        trim_end(s.drop_last())
    } else {
        s
    }
}

/// What `str::trim` returns: `s` without leading and trailing whitespace.
pub open spec fn trim(s: Seq<char>) -> Seq<char> {
    trim_end(trim_start(s))
}

proof fn lemma_trim_start_skip(s: Seq<char>, k: int)
    requires
        0 <= k <= s.len(),
        forall|j: int| 0 <= j < k ==> is_whitespace(#[trigger] s[j]),
    ensures
        trim_start(s) == trim_start(s.subrange(k, s.len() as int)),
    decreases k,
{
    if k > 0 {
        assert(s.drop_first() =~= s.subrange(1, s.len() as int));
        lemma_trim_start_skip(s.drop_first(), k - 1);
        assert(s.drop_first().subrange(k - 1, s.drop_first().len() as int) =~= s.subrange(
            k,
            s.len() as int,
        ));
    } else {
        assert(s.subrange(0, s.len() as int) =~= s);
    }
}

proof fn lemma_trim_end_skip(s: Seq<char>, k: int)
    requires
        0 <= k <= s.len(),
        forall|j: int| k <= j < s.len() ==> is_whitespace(#[trigger] s[j]),
    ensures
        trim_end(s) == trim_end(s.subrange(0, k)),
    decreases s.len() - k,
{
    if k < s.len() {
        assert(s.drop_last() =~= s.subrange(0, s.len() - 1));
        lemma_trim_end_skip(s.drop_last(), k);
        assert(s.drop_last().subrange(0, k) =~= s.subrange(0, k));
    } else {
        assert(s.subrange(0, k) =~= s);
    }
}

/// Removes leading and trailing whitespace, as `str::trim` does.
pub fn trim_str(s: &str) -> (r: String)
    ensures
        r@ == trim(s@),
{
    let n: usize = s.unicode_len();
    let mut lo: usize = 0;
    while lo < n && char_is_whitespace(s.get_char(lo))
        invariant
            n == s@.len(),
            lo <= n,
            forall|j: int| 0 <= j < lo ==> is_whitespace(#[trigger] s@[j]),
        decreases n - lo,
    {
        lo = lo + 1;
    }
    let ghost rest = s@.subrange(lo as int, n as int);
    proof {
        lemma_trim_start_skip(s@, lo as int);
        if lo < n {
            assert(rest[0] == s@[lo as int]);
        }
        assert(trim_start(rest) == rest);
    }
    let mut hi: usize = n;
    while hi > lo && char_is_whitespace(s.get_char(hi - 1))
        invariant
            n == s@.len(),
            lo <= hi <= n,
            forall|j: int| hi <= j < n ==> is_whitespace(#[trigger] s@[j]),
        decreases hi,
    {
        hi = hi - 1;
    }
    proof {
        let k: int = hi - lo;
        assert forall|j: int| k <= j < rest.len() implies is_whitespace(#[trigger] rest[j]) by {
            assert(rest[j] == s@[lo + j]);
        }
        lemma_trim_end_skip(rest, k);
        assert(rest.subrange(0, k) =~= s@.subrange(lo as int, hi as int));
        let t = s@.subrange(lo as int, hi as int);
        if t.len() > 0 {
            assert(t.last() == s@[hi - 1]);
        }
        assert(trim_end(t) == t);
    }
    String::from_str(s.substring_char(lo, hi))
}

/// The ASCII digit for `d < 10`.
pub open spec fn digit_char(d: nat) -> char {
    (48 + d) as char
}

/// The decimal representation of `n`, without sign or leading zeros.
pub open spec fn decimal(n: nat) -> Seq<char>
    decreases n,
{
    if n < 10 {
        seq![digit_char(n)]
    } else {
        decimal(n / 10).push(digit_char(n % 10))
    }
}

fn digit(d: u64) -> (c: char)
    requires
        d < 10,
    ensures
        c == digit_char(d as nat),
{
    let c = (48u8 + d as u8) as char;
    assert(c == digit_char(d as nat)) by {
        assert((48u8 + d as u8) as char == (48 + d) as char);
    }
    c
}

/// Formats `n` in decimal, as `u64::to_string` does.
pub fn decimal_string(n: u64) -> (r: String)
    ensures
        r@ == decimal(n as nat),
{
    // the digits, least significant first
    let mut digits: Vec<char> = Vec::new();
    let mut m: u64 = n;
    while m >= 10
        invariant
            m <= n,
            decimal(n as nat) == decimal(m as nat) + digits@.reverse(),
        decreases m,
    {
        let c = digit(m % 10);
        let ghost old_digits = digits@;
        let ghost old_m = m;
        digits.push(c);
        m = m / 10;
        proof {
            assert(decimal(old_m as nat) == decimal(m as nat).push(c));
            assert(digits@.reverse() =~= seq![c] + old_digits.reverse());
            assert(decimal(m as nat).push(c) + old_digits.reverse() =~= decimal(m as nat)
                + digits@.reverse());
        }
    }
    let c = digit(m);
    let ghost old_digits = digits@;
    digits.push(c);
    proof {
        assert(decimal(m as nat) == seq![c]);
        assert(digits@.reverse() =~= seq![c] + old_digits.reverse());
    }
    let mut s = String::new();
    let mut i: usize = digits.len();
    while i > 0
        invariant
            i <= digits@.len(),
            s@ == digits@.subrange(i as int, digits@.len() as int).reverse(),
        decreases i,
    {
        i = i - 1;
        let ghost old_s = s@;
        push_char(&mut s, digits[i]);
        assert(digits@.subrange(i as int, digits@.len() as int).reverse() =~= old_s.push(
            digits@[i as int],
        ));
    }
    assert(digits@.subrange(0, digits@.len() as int) =~= digits@);
    s
}

pub open spec fn is_ascii_digit(c: char) -> bool {
    48 <= c as u32 <= 57
}

/// The value of a string of decimal digits (0 for the empty string).
pub open spec fn digits_value(s: Seq<char>) -> nat
    decreases s.len(),
{
    if s.len() == 0 {
        0
    } else {
        digits_value(s.drop_last()) * 10 + (s.last() as u32 - 48) as nat
    }
}

/// The text after an optional leading `+`.
pub open spec fn unsigned_digits(s: Seq<char>) -> Seq<char> {
    if s.len() > 0 && s[0] == '+' {
        s.drop_first()
    } else {
        s
    }
}

pub open spec fn all_ascii_digits(d: Seq<char>) -> bool {
    forall|i: int| 0 <= i < d.len() ==> is_ascii_digit(#[trigger] d[i])
}

/// What `str::parse::<u32>` gives: an optional `+`, then one or more ASCII
/// digits whose value fits in a `u32`; `None` for every other text.
pub open spec fn parse_u32_spec(s: Seq<char>) -> Option<u32> {
    let digits = unsigned_digits(s);
    if digits.len() > 0 && all_ascii_digits(digits) && digits_value(digits) <= u32::MAX {
        Some(digits_value(digits) as u32)
    } else {
        None
    }
}

proof fn lemma_digits_value_prefix(s: Seq<char>, i: int)
    requires
        0 <= i <= s.len(),
        forall|j: int| 0 <= j < s.len() ==> is_ascii_digit(#[trigger] s[j]),
    ensures
        digits_value(s.take(i)) <= digits_value(s),
    decreases s.len() - i,
{
    if i < s.len() {
        assert(s.drop_last().take(i) =~= s.take(i)) by {
            if i == s.len() {
            }
        };
        if i <= s.len() - 1 {
            lemma_digits_value_prefix(s.drop_last(), i);
        }
        assert(digits_value(s.drop_last()) <= digits_value(s));
    } else {
        assert(s.take(i) =~= s);
    }
}

/// Parses a decimal `u32` as `str::parse::<u32>` does.
pub fn parse_u32(s: &str) -> (r: Option<u32>)
    ensures
        r == parse_u32_spec(s@),
{
    let n: usize = s.unicode_len();
    let mut start: usize = 0;
    if n > 0 && s.get_char(0) == '+' {
        start = 1;
    }
    let ghost digits = s@.subrange(start as int, n as int);
    proof {
        if n > 0 && s@[0] == '+' {
            assert(digits =~= s@.drop_first());
        } else {
            assert(digits =~= s@);
        }
    }
    if start == n {
        return None;
    }
    let mut acc: u64 = 0;
    let mut i: usize = start;
    while i < n
        invariant
            n == s@.len(),
            start <= i <= n,
            start < n,
            digits == s@.subrange(start as int, n as int),
            digits == unsigned_digits(s@),
            forall|j: int| 0 <= j < i - start ==> is_ascii_digit(#[trigger] digits[j]),
            acc == digits_value(digits.take(i - start)),
            acc <= u32::MAX,
        decreases n - i,
    {
        let c = s.get_char(i);
        let u: u32 = c as u32;
        if u < 48 || u > 57 {
            assert(!is_ascii_digit(digits[i - start]));
            assert(!all_ascii_digits(digits));
            return None;
        }
        let ghost k: int = i - start;
        assert(digits.take(k + 1).drop_last() =~= digits.take(k));
        acc = acc * 10 + (u - 48) as u64;
        i = i + 1;
        if acc > 0xffff_ffff {
            proof {
                if all_ascii_digits(digits) {
                    lemma_digits_value_prefix(digits, i - start);
                }
            }
            return None;
        }
    }
    assert(digits.take(n - start) =~= digits);
    Some(acc as u32)
}

/// The parts joined with `sep` between neighbours, as `[String]::join` does.
pub open spec fn join(parts: Seq<Seq<char>>, sep: Seq<char>) -> Seq<char>
    decreases parts.len(),
{
    if parts.len() == 0 {
        seq![]
    } else if parts.len() == 1 {
        parts[0]
    } else {
        join(parts.drop_last(), sep) + sep + parts.last()
    }
}

/// The views of a vector of strings.
pub open spec fn views(v: Seq<String>) -> Seq<Seq<char>> {
    v.map_values(|s: String| s@)
}

/// Joins the parts with `sep`.
pub fn join_strings(parts: &Vec<String>, sep: &str) -> (r: String)
    ensures
        r@ == join(views(parts@), sep@),
{
    let mut res = String::new();
    let mut i: usize = 0;
    while i < parts.len()
        invariant
            i <= parts@.len(),
            res@ == join(views(parts@).take(i as int), sep@),
        decreases parts@.len() - i,
    {
        let ghost old_res = res@;
        if i > 0 {
            res.append(sep);
        }
        res.append(parts[i].as_str());
        proof {
            let vs = views(parts@);
            assert(vs.take(i + 1).drop_last() =~= vs.take(i as int));
            assert(vs[i as int] == parts@[i as int]@);
            if i == 0 {
                assert(old_res =~= seq![]);
                assert(res@ =~= vs.take(1)[0]);
            }
        }
        i = i + 1;
    }
    assert(views(parts@).take(parts@.len() as int) =~= views(parts@));
    res
}

/// The position of the first `c` in `s`, as `str::find` gives it (counted
/// in characters).
pub fn find_char(s: &str, c: char) -> (r: Option<usize>)
    ensures
        r matches Some(i) ==> s@.index_of_first(c) == Some(i as int),
        r is None ==> s@.index_of_first(c) is None,
{
    let n: usize = s.unicode_len();
    let mut i: usize = 0;
    while i < n
        invariant
            n == s@.len(),
            i <= n,
            forall|j: int| 0 <= j < i ==> s@[j] != c,
        decreases n - i,
    {
        if s.get_char(i) == c {
            proof {
                s@.index_of_first_ensures(c);
                assert(s@.contains(c));
            }
            return Some(i);
        }
        i = i + 1;
    }
    proof {
        s@.index_of_first_ensures(c);
    }
    None
}

/// The position of the last `c` in `s`, as `str::rfind` gives it (counted
/// in characters).
pub fn rfind_char(s: &str, c: char) -> (r: Option<usize>)
    ensures
        r matches Some(i) ==> s@.index_of_last(c) == Some(i as int),
        r is None ==> s@.index_of_last(c) is None,
        s@.len() <= usize::MAX,
{
    let n: usize = s.unicode_len();
    let mut i: usize = n;
    while i > 0
        invariant
            n == s@.len(),
            i <= n,
            forall|j: int| i <= j < n ==> s@[j] != c,
        decreases i,
    {
        if s.get_char(i - 1) == c {
            proof {
                s@.index_of_last_ensures(c);
                assert(s@.contains(c));
            }
            return Some(i - 1);
        }
        i = i - 1;
    }
    proof {
        s@.index_of_last_ensures(c);
    }
    None
}

/// `s` without its trailing run of `c`, as `str::trim_end_matches(c)` gives.
pub open spec fn trim_end_char(s: Seq<char>, c: char) -> Seq<char>
    decreases s.len(),
{
    if s.len() > 0 && s.last() == c {
        trim_end_char(s.drop_last(), c)
    } else {
        s
    }
}

proof fn lemma_trim_end_char_skip(s: Seq<char>, c: char, k: int)
    requires
        0 <= k <= s.len(),
        forall|j: int| k <= j < s.len() ==> #[trigger] s[j] == c,
    ensures
        trim_end_char(s, c) == trim_end_char(s.subrange(0, k), c),
    decreases s.len() - k,
{
    if k < s.len() {
        assert(s.drop_last() =~= s.subrange(0, s.len() - 1));
        lemma_trim_end_char_skip(s.drop_last(), c, k);
        assert(s.drop_last().subrange(0, k) =~= s.subrange(0, k));
    } else {
        assert(s.subrange(0, k) =~= s);
    }
}

/// Removes every trailing `c`.
pub fn trim_end_matches_char(s: &str, c: char) -> (r: String)
    ensures
        r@ == trim_end_char(s@, c),
{
    let n: usize = s.unicode_len();
    let mut hi: usize = n;
    while hi > 0 && s.get_char(hi - 1) == c
        invariant
            n == s@.len(),
            hi <= n,
            forall|j: int| hi <= j < n ==> #[trigger] s@[j] == c,
        decreases hi,
    {
        hi = hi - 1;
    }
    proof {
        lemma_trim_end_char_skip(s@, c, hi as int);
        let t = s@.subrange(0, hi as int);
        if t.len() > 0 {
            assert(t.last() == s@[hi - 1]);
        }
        assert(trim_end_char(t, c) == t);
    }
    String::from_str(s.substring_char(0, hi))
}

/// `part` stands somewhere in `whole`, as a contiguous run.
pub open spec fn occurs_in(part: Seq<char>, whole: Seq<char>) -> bool {
    exists|k: int|
        0 <= k && k + part.len() <= whole.len() && #[trigger] whole.subrange(k, k + part.len())
            == part
}

/// Two texts with the same beginning and end are equal if the whole texts are.
pub proof fn lemma_cancel_middle(a: Seq<char>, x: Seq<char>, y: Seq<char>, b: Seq<char>)
    requires
        a + x + b == a + y + b,
    ensures
        x == y,
{
    assert((a + x + b).len() == a.len() + x.len() + b.len());
    assert((a + y + b).len() == a.len() + y.len() + b.len());
    assert(x =~= (a + x + b).subrange(a.len() as int, (a.len() + x.len()) as int));
    assert(y =~= (a + y + b).subrange(a.len() as int, (a.len() + y.len()) as int));
}

} // verus!
