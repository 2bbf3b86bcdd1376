//! Character-level helpers on `str` values: Unicode whitespace trimming,
//! prefix, suffix and substring tests, decimal numerals, and the two
//! lowercase conversions of std that the library relies on.

use vstd::prelude::*;
use vstd::std_specs::iter::IteratorSpec;

verus! {

/// The Unicode `White_Space` property (PropList.txt), which is what
/// `char::is_whitespace` and therefore `str::trim` test.
pub open spec fn is_white_space(c: char) -> bool {
    let u = c as u32;
    ||| 0x09 <= u <= 0x0D
    ||| u == 0x20
    ||| u == 0x85
    ||| u == 0xA0
    ||| u == 0x1680
    ||| 0x2000 <= u <= 0x200A
    ||| u == 0x2028
    ||| u == 0x2029
    ||| u == 0x202F
    ||| u == 0x205F
    ||| u == 0x3000
}

/// `s` without its leading whitespace.
pub open spec fn trim_start(s: Seq<char>) -> Seq<char>
    decreases s.len(),
{
    if s.len() > 0 && is_white_space(s[0]) {
        trim_start(s.drop_first())
    } else {
        s
    }
}

/// `s` without its trailing whitespace.
pub open spec fn trim_end(s: Seq<char>) -> Seq<char>
    decreases s.len(),
{
    if s.len() > 0 && is_white_space(s.last()) {
        trim_end(s.drop_last())
    } else {
        s
    }
}

/// `s` without leading and trailing whitespace, as `str::trim` gives it.
pub open spec fn trimmed(s: Seq<char>) -> Seq<char> {
    trim_end(trim_start(s))
}

/// `needle` occurs in `hay` at some position.
pub open spec fn contains_seq(hay: Seq<char>, needle: Seq<char>) -> bool {
    exists|i: int| 0 <= i <= hay.len() - needle.len() && #[trigger] hay.subrange(i, i + needle.len()) == needle
}

/// `hay` begins with `prefix`.
pub open spec fn starts_with_seq(hay: Seq<char>, prefix: Seq<char>) -> bool {
    prefix.len() <= hay.len() && hay.subrange(0, prefix.len() as int) == prefix
}

pub open spec fn is_ascii_digit(c: char) -> bool {
    '0' <= c <= '9'
}

/// Every character of `s` is an ASCII digit (true of the empty sequence).
pub open spec fn all_ascii_digits(s: Seq<char>) -> bool {
    forall|i: int| 0 <= i < s.len() ==> #[trigger] is_ascii_digit(s[i])
}

pub open spec fn digit_value(c: char) -> nat {
    ((c as int) - ('0' as int)) as nat
}

/// The number that a string of ASCII digits denotes in base ten.
pub open spec fn digits_value(s: Seq<char>) -> nat
    decreases s.len(),
{
    if s.len() == 0 {
        0
    } else {
        digits_value(s.drop_last()) * 10 + digit_value(s.last())
    }
}

/// What `str::parse` accepts for an unsigned integer type, before the range
/// check: an optional `+` followed by one or more ASCII digits, and the value
/// they denote.
pub open spec fn unsigned_numeral(s: Seq<char>) -> Option<nat> {
    let digits = if s.len() > 0 && s[0] == '+' {
        s.drop_first()
    } else {
        s
    };
    if digits.len() > 0 && all_ascii_digits(digits) {
        Some(digits_value(digits))
    } else {
        None
    }
}

/// The character of the decimal digit `d` (`d < 10`).
pub open spec fn digit_char(d: nat) -> char {
    (('0' as int) + d) as char
}

/// The decimal representation of `n`, as `format!("{}", n)` writes it.
pub open spec fn decimal(n: nat) -> Seq<char>
    decreases n,
{
    if n < 10 {
        seq![digit_char(n)]
    } else {
        decimal(n / 10).push(digit_char(n % 10))
    }
}

/// The view of an optional string.
pub open spec fn opt_view(o: Option<String>) -> Option<Seq<char>> {
    match o {
        Some(s) => Some(s@),
        None => None,
    }
}

/// An ASCII character.
pub open spec fn is_ascii_char(c: char) -> bool {
    c <= '\x7f'
}

/// Every character of `s` is ASCII.
pub open spec fn all_ascii(s: Seq<char>) -> bool {
    forall|i: int| 0 <= i < s.len() ==> #[trigger] is_ascii_char(s[i])
}

/// The lowercase of an ASCII character: `A`..`Z` become `a`..`z`, every other
/// character stays.
pub open spec fn ascii_lower_char(c: char) -> char {
    if 'A' <= c <= 'Z' {
        ((c as int) + 32) as char
    } else {
        c
    }
}

pub open spec fn ascii_lowercase(s: Seq<char>) -> Seq<char> {
    s.map_values(|c: char| ascii_lower_char(c))
}

/// What `str::to_lowercase` returns for a string that is not all ASCII: its
/// Unicode lowercase mapping.
pub uninterp spec fn lowercase(s: Seq<char>) -> Seq<char>;

/// What `char::to_lowercase` yields for a non-ASCII character, collected
/// into a string.
pub uninterp spec fn char_lowercase(c: char) -> Seq<char>;

/// The lowercase of a string, as `str::to_lowercase` gives it.
pub open spec fn str_lowercase(s: Seq<char>) -> Seq<char> {
    if all_ascii(s) {
        ascii_lowercase(s)
    } else {
        lowercase(s)
    }
}

/// The lowercase of a character, as `char::to_lowercase` yields it.
pub open spec fn char_lowercase_seq(c: char) -> Seq<char> {
    if is_ascii_char(c) {
        seq![ascii_lower_char(c)]
    } else {
        char_lowercase(c)
    }
}

/// Calls `str::to_lowercase`. The Unicode lowercase mapping maps the ASCII
/// letters `A`..`Z` to `a`..`z` and leaves every other ASCII character
/// unchanged (it has no lowercase mapping), so an ASCII string is lowercased
/// letter by letter; for other strings the result is named `lowercase` of the
/// argument and nothing more is claimed.
#[verifier::external_body]
pub(crate) fn to_lowercase(s: &str) -> (r: String)
    ensures
        all_ascii(s@) ==> r@ == ascii_lowercase(s@),
        !all_ascii(s@) ==> r@ == lowercase(s@),
{
    s.to_lowercase()
}

/// Calls `char::to_lowercase` and collects the characters it yields into a
/// string. An ASCII character gives its ASCII lowercase (`A`..`Z` to `a`..`z`,
/// the others themselves); for other characters the result is named
/// `char_lowercase` of the argument.
#[verifier::external_body]
pub(crate) fn char_to_lowercase(c: char) -> (r: String)
    ensures
        is_ascii_char(c) ==> r@ == seq![ascii_lower_char(c)],
        !is_ascii_char(c) ==> r@ == char_lowercase(c),
{
    c.to_lowercase().to_string()
}

/// The error that `str::parse` gives for an integer type, carried through
/// unopened.
#[verifier::external_type_specification]
#[verifier::external_body]
pub struct ExParseIntError(std::num::ParseIntError);

/// Calls `str::parse::<u32>`. As its documentation states, it succeeds exactly
/// on an optional `+` followed by one or more ASCII digits whose value fits in
/// a `u32`, and then gives that value. The error value is not described.
#[verifier::external_body]
pub(crate) fn parse_u32(s: &str) -> (r: Result<u32, std::num::ParseIntError>)
    ensures
        match unsigned_numeral(s@) {
            Some(n) => if n <= u32::MAX {
                r matches Ok(v) && v == n
            } else {
                r is Err
            },
            None => r is Err,
        },
{
    s.parse::<u32>()
}

/// Calls `str::parse::<u64>`, with the contract of `parse_u32` for `u64`.
#[verifier::external_body]
pub(crate) fn parse_u64(s: &str) -> (r: Result<u64, std::num::ParseIntError>)
    ensures
        match unsigned_numeral(s@) {
            Some(n) => if n <= u64::MAX {
                r matches Ok(v) && v == n
            } else {
                r is Err
            },
            None => r is Err,
        },
{
    s.parse::<u64>()
}

/// Whether `c` has the Unicode `White_Space` property.
pub fn is_white_space_char(c: char) -> (r: bool)
    ensures
        r == is_white_space(c),
{
    let u = c as u32;
    (0x09 <= u && u <= 0x0D) || u == 0x20 || u == 0x85 || u == 0xA0 || u == 0x1680 || (0x2000
        <= u && u <= 0x200A) || u == 0x2028 || u == 0x2029 || u == 0x202F || u == 0x205F || u
        == 0x3000
}

/// The characters of `s`, in order.
pub fn chars_of(s: &str) -> (r: Vec<char>)
    ensures
        r@ == s@,
{
    let mut r: Vec<char> = Vec::new();
    let mut it = s.chars();
    loop
        invariant_except_break
            r@ + it.remaining() == s@,
            it.decrease() is Some,
        ensures
            r@ == s@,
        decreases it.decrease()->0,
    {
        let ghost before = it.remaining();
        match it.next() {
            Some(c) => {
                assert(r@.push(c) + it.remaining() =~= r@ + before);
                r.push(c);
            },
            None => {
                assert(r@ + before =~= r@);
                break ;
            },
        }
    }
    r
}

/// `trim_start` removes the whitespace run at the front of `s`: it gives a
/// suffix of `s` that is empty or begins with a character that is not whitespace.
pub proof fn lemma_trim_start_shape(s: Seq<char>)
    ensures
        trim_start(s).len() <= s.len(),
        trim_start(s) == s.subrange(s.len() - trim_start(s).len(), s.len() as int),
        trim_start(s).len() == 0 || !is_white_space(trim_start(s)[0]),
    decreases s.len(),
{
    if s.len() > 0 && is_white_space(s[0]) {
        lemma_trim_start_shape(s.drop_first());
        assert(s.drop_first().subrange(
            s.drop_first().len() - trim_start(s).len(),
            s.drop_first().len() as int,
        ) =~= s.subrange(s.len() - trim_start(s).len(), s.len() as int));
    } else {
        assert(s.subrange(0, s.len() as int) =~= s);
    }
}

/// `trim_end` removes the whitespace run at the back of `s`: it gives a
/// prefix of `s` that is empty or ends with a character that is not whitespace.
pub proof fn lemma_trim_end_shape(s: Seq<char>)
    ensures
        trim_end(s).len() <= s.len(),
        trim_end(s) == s.subrange(0, trim_end(s).len() as int),
        trim_end(s).len() == 0 || !is_white_space(trim_end(s).last()),
    decreases s.len(),
{
    if s.len() > 0 && is_white_space(s.last()) {
        lemma_trim_end_shape(s.drop_last());
        assert(s.drop_last().subrange(0, trim_end(s).len() as int) =~= s.subrange(
            0,
            trim_end(s).len() as int,
        ));
    } else {
        assert(s.subrange(0, s.len() as int) =~= s);
    }
}

/// Trimming twice gives what trimming once gives.
pub proof fn lemma_trimmed_idempotent(s: Seq<char>)
    ensures
        trimmed(trimmed(s)) == trimmed(s),
{
    let u = trim_start(s);
    let t = trim_end(u);
    lemma_trim_start_shape(s);
    lemma_trim_end_shape(u);
    if t.len() > 0 {
        assert(t[0] == u[0]);
    }
    assert(trim_start(t) == t);
    lemma_trim_end_shape(t);
    assert(trim_end(t) == t);
}

/// A trimmed string neither begins nor ends with whitespace.
pub proof fn lemma_trimmed_ends(s: Seq<char>)
    ensures
        trimmed(s).len() == 0 || (!is_white_space(trimmed(s)[0]) && !is_white_space(
            trimmed(s).last(),
        )),
{
    let u = trim_start(s);
    lemma_trim_start_shape(s);
    lemma_trim_end_shape(u);
    if trimmed(s).len() > 0 {
        assert(trimmed(s)[0] == u[0]);
    }
}

/// A string that neither begins nor ends with whitespace is its own trim.
pub proof fn lemma_trimmed_unchanged(s: Seq<char>)
    requires
        s.len() == 0 || (!is_white_space(s[0]) && !is_white_space(s.last())),
    ensures
        trimmed(s) == s,
{
}

/// A string of ASCII digits is its own trim.
pub proof fn lemma_digits_trimmed(s: Seq<char>)
    requires
        all_ascii_digits(s),
    ensures
        trimmed(s) == s,
{
    if s.len() > 0 {
        assert(is_ascii_digit(s[0]));
        assert(is_ascii_digit(s[s.len() - 1]));
    }
    lemma_trimmed_unchanged(s);
}

/// A number written in decimal reads back as itself, as `str::parse` reads
/// it; its numeral is never empty and begins with `0` only for zero itself.
pub proof fn lemma_decimal_reads_back(n: nat)
    ensures
        decimal(n).len() > 0,
        all_ascii_digits(decimal(n)),
        digits_value(decimal(n)) == n,
        unsigned_numeral(decimal(n)) == Some(n),
        (decimal(n)[0] == '0') <==> (n == 0),
    decreases n,
{
    if n >= 10 {
        let q = n / 10;
        let d = n % 10;
        lemma_decimal_reads_back(q);
        let prev = decimal(q);
        let s = prev.push(digit_char(d));
        assert(s.drop_last() =~= prev);
        assert(s[0] == prev[0]);
        assert forall|i: int| 0 <= i < s.len() implies #[trigger] is_ascii_digit(s[i]) by {
            if i < prev.len() {
                assert(s[i] == prev[i]);
                assert(is_ascii_digit(prev[i]));
            }
        }
        assert(digit_value(digit_char(d)) == d);
        assert(s.last() == digit_char(d));
        assert(digits_value(s) == q * 10 + d);
        assert(n == q * 10 + d);
    } else {
        let s = decimal(n);
        assert(s.drop_last() =~= Seq::<char>::empty());
        assert(digits_value(s.drop_last()) == 0);
        assert(s.last() == digit_char(n));
        assert(digits_value(s) == digit_value(digit_char(n)));
    }
    let s = decimal(n);
    assert(is_ascii_digit(s[0]));
}

/// `s` with the whitespace at both ends removed, as `str::trim` does it.
pub fn trim(s: &str) -> (r: &str)
    ensures
        r@ == trimmed(s@),
{
    let cs = chars_of(s);
    let n = cs.len();
    let ghost v = s@;
    let mut i: usize = 0;
    assert(v.subrange(0, n as int) =~= v);
    while i < n && is_white_space_char(cs[i])
        invariant
            i <= n,
            n == v.len(),
            cs@ == v,
            trim_start(v) == trim_start(v.subrange(i as int, n as int)),
        decreases n - i,
    {
        assert(v.subrange(i as int, n as int).drop_first() =~= v.subrange(i + 1, n as int));
        i += 1;
    }
    assert(trim_start(v.subrange(i as int, n as int)) == v.subrange(i as int, n as int));
    let mut j: usize = n;
    while j > i && is_white_space_char(cs[j - 1])
        invariant
            i <= j <= n,
            n == v.len(),
            cs@ == v,
            trimmed(v) == trim_end(v.subrange(i as int, j as int)),
        decreases j,
    {
        assert(v.subrange(i as int, j as int).drop_last() =~= v.subrange(i as int, j - 1));
        j -= 1;
    }
    assert(trim_end(v.subrange(i as int, j as int)) == v.subrange(i as int, j as int));
    s.substring_char(i, j)
}

/// Whether `s` and `t` hold the same characters.
pub fn str_eq(s: &str, t: &str) -> (r: bool)
    ensures
        r == (s@ == t@),
{
    let n = s.unicode_len();
    if n != t.unicode_len() {
        return false;
    }
    let mut i: usize = 0;
    while i < n
        invariant
            i <= n,
            n == s@.len(),
            n == t@.len(),
            forall|k: int| 0 <= k < i ==> s@[k] == t@[k],
        decreases n - i,
    {
        if s.get_char(i) != t.get_char(i) {
            return false;
        }
        i += 1;
    }
    assert(s@ =~= t@);
    true
}

/// Whether `s` begins with `prefix`. Only the first characters of `s` are read
/// one by one, so a long `s` with a short `prefix` is cheap to test.
pub fn starts_with(s: &str, prefix: &str) -> (r: bool)
    ensures
        r == starts_with_seq(s@, prefix@),
{
    let m = prefix.unicode_len();
    if s.unicode_len() < m {
        return false;
    }
    let mut i: usize = 0;
    while i < m
        invariant
            i <= m,
            m == prefix@.len(),
            m <= s@.len(),
            forall|k: int| 0 <= k < i ==> s@[k] == prefix@[k],
        decreases m - i,
    {
        if s.get_char(i) != prefix.get_char(i) {
            assert(s@.subrange(0, m as int)[i as int] != prefix@[i as int]);
            return false;
        }
        i += 1;
    }
    assert(s@.subrange(0, m as int) =~= prefix@);
    true
}

/// Whether `needle` occurs anywhere in `hay`.
pub fn contains(hay: &str, needle: &str) -> (r: bool)
    ensures
        r == contains_seq(hay@, needle@),
{
    let h = chars_of(hay);
    let p = chars_of(needle);
    let n = h.len();
    let m = p.len();
    if m > n {
        assert forall|i: int| 0 <= i <= hay@.len() - needle@.len() implies #[trigger] hay@.subrange(
            i,
            i + needle@.len(),
        ) != needle@ by {}
        return false;
    }
    let mut i: usize = 0;
    while i <= n - m
        invariant
            m <= n,
            h@ == hay@,
            p@ == needle@,
            n == h@.len(),
            m == p@.len(),
            i <= n - m + 1,
            forall|k: int| 0 <= k < i ==> #[trigger] hay@.subrange(k, k + m) != needle@,
        decreases n - m + 1 - i,
    {
        let mut j: usize = 0;
        while j < m && h[i + j] == p[j]
            invariant
                i <= n - m,
                j <= m,
                n == h@.len(),
                m == p@.len(),
                forall|k: int| 0 <= k < j ==> h@[i + k] == p@[k],
            decreases m - j,
        {
            j += 1;
        }
        if j == m {
            assert(hay@.subrange(i as int, i + m) =~= needle@);
            return true;
        }
        assert(hay@.subrange(i as int, i + m)[j as int] != needle@[j as int]);
        i += 1;
    }
    false
}

/// The one-character string of the decimal digit `d`.
fn digit_str(d: u64) -> (r: &'static str)
    requires
        d < 10,
    ensures
        r@ == seq![digit_char(d as nat)],
{
    proof {
        reveal_strlit("0");
        reveal_strlit("1");
        reveal_strlit("2");
        reveal_strlit("3");
        reveal_strlit("4");
        reveal_strlit("5");
        reveal_strlit("6");
        reveal_strlit("7");
        reveal_strlit("8");
        reveal_strlit("9");
    }
    let r = match d {
        0 => "0",
        1 => "1",
        2 => "2",
        3 => "3",
        4 => "4",
        5 => "5",
        6 => "6",
        7 => "7",
        8 => "8",
        _ => "9",
    };
    assert(r@ =~= seq![digit_char(d as nat)]);
    r
}

/// Appends the decimal representation of `n` to `out`.
pub fn push_decimal(out: &mut String, n: u64)
    ensures
        final(out)@ == old(out)@ + decimal(n as nat),
    decreases n,
{
    if n >= 10 {
        push_decimal(out, n / 10);
    }
    out.append(digit_str(n % 10));
    assert(old(out)@ + decimal(n as nat) =~= final(out)@);
}

} // verus!
