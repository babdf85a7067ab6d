use vstd::prelude::*;

use crate::chars::{slice_range, str_chars, string_from_chars};

verus! {

/// The Unicode `White_Space` characters: what `char::is_whitespace` accepts.
pub open spec fn is_white_space(c: char) -> bool {
    let u = c as u32;
    (0x9 <= u && u <= 0xd) || u == 0x20 || u == 0x85 || u == 0xa0 || u == 0x1680 || (0x2000
        <= u && u <= 0x200a) || u == 0x2028 || u == 0x2029 || u == 0x202f || u == 0x205f || u
        == 0x3000
}

/// Executable form of [`is_white_space`].
pub fn is_white_space_char(c: char) -> (b: bool)
    ensures
        b == is_white_space(c),
{
    let u = c as u32;
    (0x9 <= u && u <= 0xd) || u == 0x20 || u == 0x85 || u == 0xa0 || u == 0x1680 || (0x2000
        <= u && u <= 0x200a) || u == 0x2028 || u == 0x2029 || u == 0x202f || u == 0x205f || u
        == 0x3000
}

/// `s` without its leading white space.
pub open spec fn trim_front(s: Seq<char>) -> Seq<char>
    decreases s.len(),
{
    if s.len() > 0 && is_white_space(s[0]) {
        trim_front(s.drop_first())
    } else {
        s
    }
}

/// `s` without its trailing white space.
pub open spec fn trim_back(s: Seq<char>) -> Seq<char>
    decreases s.len(),
{
    if s.len() > 0 && is_white_space(s.last()) {
        trim_back(s.drop_last())
    } else {
        s
    }
}

/// `s` without leading and trailing white space: what `str::trim` gives.
pub open spec fn trimmed(s: Seq<char>) -> Seq<char> {
    trim_back(trim_front(s))
}


proof fn lemma_trim_front_shape(s: Seq<char>)
    ensures
        trim_front(s) == s.subrange(s.len() - trim_front(s).len(), s.len() as int),
        trim_front(s).len() <= s.len(),
        trim_front(s).len() == 0 || !is_white_space(trim_front(s)[0]),
    decreases s.len(),
{
    if s.len() > 0 && is_white_space(s[0]) {
        lemma_trim_front_shape(s.drop_first());
        assert(s.drop_first().subrange(
            s.drop_first().len() - trim_front(s.drop_first()).len(),
            s.drop_first().len() as int,
        ) =~= s.subrange(s.len() - trim_front(s).len(), s.len() as int));
    } else {
        assert(s.subrange(0, s.len() as int) =~= s);
    }
}

proof fn lemma_trim_back_shape(s: Seq<char>)
    ensures
        trim_back(s) == s.subrange(0, trim_back(s).len() as int),
        trim_back(s).len() <= s.len(),
        trim_back(s).len() == 0 || !is_white_space(trim_back(s).last()),
    decreases s.len(),
{
    if s.len() > 0 && is_white_space(s.last()) {
        lemma_trim_back_shape(s.drop_last());
        assert(s.drop_last().subrange(0, trim_back(s.drop_last()).len() as int) =~= s.subrange(
            0,
            trim_back(s).len() as int,
        ));
    } else {
        assert(s.subrange(0, s.len() as int) =~= s);
    }
}

/// Whether `s` neither starts nor ends with white space.
pub open spec fn is_trimmed(s: Seq<char>) -> bool {
    s.len() == 0 || (!is_white_space(s[0]) && !is_white_space(s.last()))
}

/// The trimmed form of a text neither starts nor ends with white space, is part of the
/// text, and a text without surrounding white space is its own trimmed form.
pub proof fn lemma_trimmed(s: Seq<char>)
    ensures
        is_trimmed(trimmed(s)),
        trimmed(s).len() <= s.len(),
        is_trimmed(s) ==> trimmed(s) == s,
        trimmed(trimmed(s)) == trimmed(s),
{
    let f = trim_front(s);
    lemma_trim_front_shape(s);
    lemma_trim_back_shape(f);
    let t = trim_back(f);
    if t.len() > 0 {
        assert(t[0] == f[0]);
    }
    if is_trimmed(s) {
        assert(f == s);
        assert(t == s);
    }
    lemma_trimmed_fixed(t);
}

proof fn lemma_trimmed_fixed(t: Seq<char>)
    requires
        is_trimmed(t),
    ensures
        trimmed(t) == t,
{
    assert(trim_front(t) == t);
    assert(trim_back(t) == t);
}

/// Index of the first character that is not white space, from `i` on.
pub(crate) fn skip_white_space(s: &[char], i: usize) -> (j: usize)
    requires
        i <= s.len(),
    ensures
        i <= j <= s.len(),
        trim_front(s@.subrange(i as int, s.len() as int)) == s@.subrange(j as int, s.len() as int),
        j < s.len() ==> !is_white_space(s@[j as int]),
{
    let mut j = i;
    while j < s.len() && is_white_space_char(s[j])
        invariant
            i <= j <= s.len(),
            trim_front(s@.subrange(i as int, s.len() as int)) == trim_front(
                s@.subrange(j as int, s.len() as int),
            ),
        decreases s.len() - j,
    {
        assert(s@.subrange(j as int, s.len() as int).drop_first() =~= s@.subrange(
            j + 1,
            s.len() as int,
        ));
        j = j + 1;
    }
    j
}

/// The characters of `s` without leading and trailing white space.
pub fn trim_chars(s: &[char]) -> (r: Vec<char>)
    ensures
        r@ == trimmed(s@),
{
    let lo = skip_white_space(s, 0);
    assert(s@.subrange(0, s.len() as int) =~= s@);
    let mut hi = s.len();
    while hi > lo && is_white_space_char(s[hi - 1])
        invariant
            lo <= hi <= s.len(),
            trim_front(s@) == s@.subrange(lo as int, s.len() as int),
            trimmed(s@) == trim_back(s@.subrange(lo as int, hi as int)),
        decreases hi,
    {
        assert(s@.subrange(lo as int, hi as int).drop_last() =~= s@.subrange(
            lo as int,
            hi - 1,
        ));
        hi = hi - 1;
    }
    proof {
        let t = s@.subrange(lo as int, hi as int);
        if hi > lo {
            assert(t.last() == s@[hi - 1]);
        }
    }
    slice_range(s, lo, hi)
}

/// The characters of `s` without leading and trailing white space.
pub fn trim_str_chars(s: &str) -> (r: Vec<char>)
    ensures
        r@ == trimmed(s@),
{
    let v = str_chars(s);
    trim_chars(&v)
}

/// `s` without leading and trailing white space, as a `String`.
pub fn trim_string(s: &str) -> (r: String)
    ensures
        r@ == trimmed(s@),
{
    let v = trim_str_chars(s);
    string_from_chars(&v)
}

/// The ASCII lower-case form of a character: what `char::to_ascii_lowercase` gives.
pub open spec fn ascii_lower(c: char) -> char {
    if 'A' <= c && c <= 'Z' {
        ((c as u32) + 32) as char
    } else {
        c
    }
}

/// The ASCII upper-case form of a character: what `char::to_ascii_uppercase` gives.
pub open spec fn ascii_upper(c: char) -> char {
    if 'a' <= c && c <= 'z' {
        ((c as u32) - 32) as char
    } else {
        c
    }
}

/// Executable form of [`ascii_lower`].
pub fn ascii_lower_char(c: char) -> (r: char)
    ensures
        r == ascii_lower(c),
{
    if 'A' <= c && c <= 'Z' {
        ((c as u32) + 32) as u8 as char
    } else {
        c
    }
}

/// Executable form of [`ascii_upper`].
pub fn ascii_upper_char(c: char) -> (r: char)
    ensures
        r == ascii_upper(c),
{
    if 'a' <= c && c <= 'z' {
        ((c as u32) - 32) as u8 as char
    } else {
        c
    }
}

/// Every character of `s` in ASCII lower case: what `str::to_ascii_lowercase` gives.
pub open spec fn lower_seq(s: Seq<char>) -> Seq<char> {
    s.map_values(|c: char| ascii_lower(c))
}

/// Every character of `s` in ASCII upper case: what `str::to_ascii_uppercase` gives.
pub open spec fn upper_seq(s: Seq<char>) -> Seq<char> {
    s.map_values(|c: char| ascii_upper(c))
}

/// The characters of `s` in ASCII lower case.
pub fn lower_chars(s: &[char]) -> (r: Vec<char>)
    ensures
        r@ == lower_seq(s@),
{
    let mut r: Vec<char> = Vec::new();
    let mut i: usize = 0;
    while i < s.len()
        invariant
            i <= s.len(),
            r@ == lower_seq(s@.subrange(0, i as int)),
        decreases s.len() - i,
    {
        r.push(ascii_lower_char(s[i]));
        i = i + 1;
        assert(r@ =~= lower_seq(s@.subrange(0, i as int)));
    }
    assert(s@.subrange(0, s.len() as int) =~= s@);
    r
}

/// The characters of `s` in ASCII upper case.
pub fn upper_chars(s: &[char]) -> (r: Vec<char>)
    ensures
        r@ == upper_seq(s@),
{
    let mut r: Vec<char> = Vec::new();
    let mut i: usize = 0;
    while i < s.len()
        invariant
            i <= s.len(),
            r@ == upper_seq(s@.subrange(0, i as int)),
        decreases s.len() - i,
    {
        r.push(ascii_upper_char(s[i]));
        i = i + 1;
        assert(r@ =~= upper_seq(s@.subrange(0, i as int)));
    }
    assert(s@.subrange(0, s.len() as int) =~= s@);
    r
}

/// Whether `c` is an ASCII letter or digit: what `char::is_ascii_alphanumeric` gives.
pub open spec fn is_ascii_alnum(c: char) -> bool {
    ('a' <= c && c <= 'z') || ('A' <= c && c <= 'Z') || ('0' <= c && c <= '9')
}

/// Executable form of [`is_ascii_alnum`].
pub fn is_ascii_alnum_char(c: char) -> (b: bool)
    ensures
        b == is_ascii_alnum(c),
{
    ('a' <= c && c <= 'z') || ('A' <= c && c <= 'Z') || ('0' <= c && c <= '9')
}

/// Whether `c` is an ASCII decimal digit.
pub open spec fn is_digit(c: char) -> bool {
    '0' <= c && c <= '9'
}

/// The value of an ASCII decimal digit.
pub open spec fn digit_value(c: char) -> nat {
    ((c as u32) - ('0' as u32)) as nat
}

/// The character of a decimal digit `d < 10`.
pub open spec fn digit_char(d: nat) -> char {
    (('0' as u32) + d) as char
}

/// The decimal form of `n`, without sign or leading zeros: what `Display` writes for an integer.
pub open spec fn decimal(n: nat) -> Seq<char>
    decreases n,
{
    if n < 10 {
        seq![digit_char(n)]
    } else {
        decimal(n / 10).push(digit_char(n % 10))
    }
}

/// Appends the decimal form of `n` to `out`.
pub fn push_decimal(out: &mut Vec<char>, n: u128)
    ensures
        final(out)@ == old(out)@ + decimal(n as nat),
    decreases n,
{
    if n >= 10 {
        push_decimal(out, n / 10);
    }
    let d = (n % 10) as u32;
    assert(d < 10);
    let c = (48 + d) as u8 as char;
    assert(c == digit_char((n % 10) as nat));
    out.push(c);
    assert(out@ =~= old(out)@ + decimal(n as nat));
}

/// The decimal form of `n` as a `String`.
pub fn decimal_string(n: u128) -> (s: String)
    ensures
        s@ == decimal(n as nat),
{
    let mut v: Vec<char> = Vec::new();
    push_decimal(&mut v, n);
    assert(v@ =~= decimal(n as nat));
    string_from_chars(&v)
}

/// Whether every character of `s` is an ASCII decimal digit.
pub open spec fn all_digits(s: Seq<char>) -> bool {
    forall|i: int| 0 <= i < s.len() ==> is_digit(#[trigger] s[i])
}

/// The value of a string of decimal digits.
pub open spec fn digits_value(s: Seq<char>) -> nat
    decreases s.len(),
{
    if s.len() == 0 {
        0
    } else {
        digits_value(s.drop_last()) * 10 + digit_value(s.last())
    }
}

/// The digits of an unsigned integer as Rust's `FromStr` reads them: an optional `+`
/// and at least one decimal digit.
pub open spec fn unsigned_digits(s: Seq<char>) -> Option<Seq<char>> {
    if s.len() > 0 && s[0] == '+' {
        if s.len() > 1 && all_digits(s.drop_first()) {
            Some(s.drop_first())
        } else {
            None
        }
    } else if s.len() > 0 && all_digits(s) {
        Some(s)
    } else {
        None
    }
}

/// What `str::parse::<uN>()` gives for an unsigned type whose largest value is `max`.
pub open spec fn parse_unsigned(s: Seq<char>, max: nat) -> Option<nat> {
    match unsigned_digits(s) {
        Some(d) => if digits_value(d) <= max {
            Some(digits_value(d))
        } else {
            None
        },
        None => None,
    }
}

proof fn lemma_decimal_digits(n: nat)
    ensures
        decimal(n).len() > 0,
        all_digits(decimal(n)),
        digits_value(decimal(n)) == n,
    decreases n,
{
    if n < 10 {
        let c = digit_char(n);
        assert(c as u32 == 48 + n);
        assert(decimal(n).drop_last() =~= Seq::<char>::empty());
        assert(digit_value(c) == n);
        assert(digits_value(decimal(n)) == digits_value(Seq::<char>::empty()) * 10 + n);
    } else {
        lemma_decimal_digits(n / 10);
        let c = digit_char(n % 10);
        assert(c as u32 == 48 + n % 10);
        let d = decimal(n);
        assert(d.drop_last() =~= decimal(n / 10));
        assert(d.last() == c);
        assert(digit_value(c) == n % 10);
        assert(digits_value(d) == digits_value(decimal(n / 10)) * 10 + n % 10);
        assert((n / 10) * 10 + n % 10 == n);
        assert forall|i: int| 0 <= i < d.len() implies is_digit(#[trigger] d[i]) by {
            if i < d.len() - 1 {
                assert(d[i] == decimal(n / 10)[i]);
            }
        }
    }
}

/// The decimal form of a number reads back as that number, wherever the number is in
/// range.
pub proof fn decimal_reads_back(n: nat, max: nat)
    requires
        n <= max,
    ensures
        parse_unsigned(decimal(n), max) == Some(n),
{
    lemma_decimal_digits(n);
    assert(is_digit(decimal(n)[0]));
}

proof fn lemma_digits_value_prefix(s: Seq<char>, i: int)
    requires
        0 <= i <= s.len(),
        all_digits(s),
    ensures
        digits_value(s.subrange(0, i)) <= digits_value(s),
    decreases s.len() - i,
{
    if i < s.len() {
        lemma_digits_value_prefix(s, i + 1);
        let t = s.subrange(0, i + 1);
        assert(t.drop_last() =~= s.subrange(0, i));
    } else {
        assert(s.subrange(0, i) =~= s);
    }
}

/// Reads a string of decimal digits whose value is at most `max`.
fn read_digits(s: &[char], start: usize, max: u64) -> (r: Option<u64>)
    requires
        start <= s.len(),
    ensures
        all_digits(s@.subrange(start as int, s.len() as int)) && digits_value(
            s@.subrange(start as int, s.len() as int),
        ) <= max ==> r == Some(digits_value(s@.subrange(start as int, s.len() as int)) as u64),
        !(all_digits(s@.subrange(start as int, s.len() as int)) && digits_value(
            s@.subrange(start as int, s.len() as int),
        ) <= max) ==> r is None,
{
    let ghost t = s@.subrange(start as int, s.len() as int);
    let mut acc: u64 = 0;
    let mut i: usize = start;
    while i < s.len()
        invariant
            start <= i <= s.len(),
            t == s@.subrange(start as int, s.len() as int),
            all_digits(s@.subrange(start as int, i as int)),
            acc as nat == digits_value(s@.subrange(start as int, i as int)),
            acc <= max,
        decreases s.len() - i,
    {
        let c = s[i];
        let ghost p = s@.subrange(start as int, i as int);
        let ghost q = s@.subrange(start as int, i + 1);
        assert(q.drop_last() =~= p);
        assert(q.last() == c);
        if !('0' <= c && c <= '9') {
            assert(t[i - start] == c);
            return None;
        }
        let d = (c as u32 - 48) as u64;
        assert(d <= 9);
        assert(d == digit_value(c));
        if acc > max / 10 || d > max - acc * 10 {
            proof {
                assert(digits_value(q) == acc * 10 + d);
                if acc > max / 10 {
                    assert(acc * 10 > max) by (nonlinear_arith)
                        requires
                            acc > max / 10,
                    ;
                }
                assert(digits_value(q) > max);
                if all_digits(t) {
                    assert(q =~= t.subrange(0, i + 1 - start));
                    lemma_digits_value_prefix(t, i + 1 - start);
                }
            }
            return None;
        }
        proof {
            assert(acc * 10 <= max) by (nonlinear_arith)
                requires
                    acc <= max / 10,
            ;
        }
        acc = acc * 10 + d;
        i = i + 1;
        assert(all_digits(q));
    }
    assert(s@.subrange(start as int, i as int) =~= t);
    Some(acc)
}

/// Parses an unsigned decimal number no larger than `max`, as `str::parse` does for
/// unsigned integer types.
pub fn parse_unsigned_chars(s: &[char], max: u64) -> (r: Option<u64>)
    ensures
        r matches Some(v) ==> parse_unsigned(s@, max as nat) == Some(v as nat),
        r is None ==> parse_unsigned(s@, max as nat) is None,
{
    if s.len() == 0 {
        return None;
    }
    if s[0] == '+' {
        if s.len() == 1 {
            return None;
        }
        assert(s@.subrange(1, s.len() as int) =~= s@.drop_first());
        read_digits(s, 1, max)
    } else {
        assert(s@.subrange(0, s.len() as int) =~= s@);
        read_digits(s, 0, max)
    }
}

} // verus!
