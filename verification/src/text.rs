//! Small verified string helpers over the character view of `str` and `String`.

use vstd::prelude::*;
use vstd::string::StringExecFns;

verus! {

/// Appends one character to a string.
#[verifier::external_body]
pub(crate) fn push_char(s: &mut String, c: char)
    ensures
        final(s)@ == old(s)@.push(c),
{
    s.push(c);
}

/// The characters of a string slice, in order.
pub fn chars_of(s: &str) -> (r: Vec<char>)
    ensures
        r@ == s@,
{
    let mut r: Vec<char> = Vec::new();
    for c in it: s.chars()
        invariant
            it.seq() == s@,
            r@ == it.seq().take(it.index() as int),
    {
        assert(it.seq().take(it.index() as int).push(c) =~= it.seq().take(it.index() + 1));
        r.push(c);
    }
    assert(r@ =~= s@);
    r
}

} // verus!

verus! {

/// Appends a string slice to a string.
pub fn push_str(s: &mut String, t: &str)
    ensures
        final(s)@ == old(s)@ + t@,
{
    s.append(t);
}

/// Whether two string slices hold the same characters.
pub fn str_eq(a: &str, b: &str) -> (r: bool)
    ensures
        r == (a@ == b@),
{
    let x = chars_of(a);
    let y = chars_of(b);
    if x.len() != y.len() {
        return false;
    }
    for i in 0..x.len()
        invariant
            x@ == a@,
            y@ == b@,
            x@.len() == y@.len(),
            forall|j: int| 0 <= j < i ==> x@[j] == y@[j],
    {
        if x[i] != y[i] {
            return false;
        }
    }
    assert(x@ =~= y@);
    true
}

/// Whether `s` starts with `prefix`.
pub fn starts_with(s: &str, prefix: &str) -> (r: bool)
    ensures
        r == (prefix@.len() <= s@.len() && s@.subrange(0, prefix@.len() as int) == prefix@),
{
    let x = chars_of(s);
    let p = chars_of(prefix);
    if p.len() > x.len() {
        return false;
    }
    for i in 0..p.len()
        invariant
            x@ == s@,
            p@ == prefix@,
            p@.len() <= x@.len(),
            forall|j: int| 0 <= j < i ==> x@[j] == p@[j],
    {
        if x[i] != p[i] {
            assert(s@.subrange(0, prefix@.len() as int)[i as int] != prefix@[i as int]);
            return false;
        }
    }
    assert(s@.subrange(0, prefix@.len() as int) =~= prefix@);
    true
}

/// The string holding the given characters.
pub fn string_from_chars(cs: &[char]) -> (r: String)
    ensures
        r@ == cs@,
{
    let mut r = String::new();
    for i in 0..cs.len()
        invariant
            r@ == cs@.take(i as int),
    {
        push_char(&mut r, cs[i]);
        assert(cs@.take(i as int).push(cs@[i as int]) =~= cs@.take(i + 1));
    }
    assert(cs@.take(cs@.len() as int) =~= cs@);
    r
}

/// Characters with the Unicode `White_Space` property.
pub open spec fn is_white_space(c: char) -> bool {
    let u = c as u32;
    ||| (0x9 <= u && u <= 0xD)
    ||| u == 0x20
    ||| u == 0x85
    ||| u == 0xA0
    ||| u == 0x1680
    ||| (0x2000 <= u && u <= 0x200A)
    ||| u == 0x2028
    ||| u == 0x2029
    ||| u == 0x202F
    ||| u == 0x205F
    ||| u == 0x3000
}

/// Whether every character of a text has the `White_Space` property.
pub open spec fn all_white_space(s: Seq<char>) -> bool {
    forall|i: int| 0 <= i < s.len() ==> is_white_space(#[trigger] s[i])
}

/// Whether a character is whitespace, by `char::is_whitespace`, which is documented to test the
/// Unicode `White_Space` property.
#[verifier::external_body]
pub(crate) fn is_whitespace(c: char) -> (r: bool)
    ensures
        r == is_white_space(c),
{
    c.is_whitespace()
}

/// Whether a text is empty once leading (or trailing) whitespace is removed.
pub fn is_blank(s: &str) -> (r: bool)
    ensures
        r == all_white_space(s@),
{
    let cs = chars_of(s);
    for i in 0..cs.len()
        invariant
            cs@ == s@,
            forall|j: int| 0 <= j < i ==> is_white_space(#[trigger] cs@[j]),
    {
        if !is_whitespace(cs[i]) {
            return false;
        }
    }
    true
}

/// The characters of `s` from position `from` on.
pub fn suffix_from(s: &str, from: usize) -> (r: String)
    requires
        from <= s@.len(),
    ensures
        r@ == s@.skip(from as int),
{
    let cs = chars_of(s);
    let mut r = String::new();
    let mut i = from;
    while i < cs.len()
        invariant
            cs@ == s@,
            from <= i <= cs@.len(),
            r@ == s@.subrange(from as int, i as int),
        decreases cs@.len() - i,
    {
        push_char(&mut r, cs[i]);
        assert(s@.subrange(from as int, i as int).push(s@[i as int]) =~= s@.subrange(
            from as int,
            i + 1,
        ));
        i += 1;
    }
    assert(s@.subrange(from as int, cs@.len() as int) =~= s@.skip(from as int));
    r
}


/// The ASCII lower-case form of a character; other characters are kept.
pub open spec fn ascii_lower(c: char) -> char {
    if 'A' <= c && c <= 'Z' {
        ((c as int) + 32) as char
    } else {
        c
    }
}

/// Whether two texts are equal when ASCII letters are compared without regard to case.
pub open spec fn eq_ignoring_ascii_case(a: Seq<char>, b: Seq<char>) -> bool {
    a.len() == b.len() && forall|i: int| 0 <= i < a.len() ==> ascii_lower(#[trigger] a[i]) == ascii_lower(b[i])
}

fn lower_char(c: char) -> (r: char)
    ensures
        r == ascii_lower(c),
{
    if 'A' <= c && c <= 'Z' {
        let u: u32 = (c as u32) + 32;
        assert(0x61 <= u <= 0x7a);
        let r: char = char_from_ascii(u);
        r
    } else {
        c
    }
}

fn char_from_ascii(u: u32) -> (r: char)
    requires
        u < 128,
    ensures
        r as int == u as int,
{
    let b: u8 = u as u8;
    b as char
}

/// Whether two string slices are equal when ASCII letters are compared without regard to case.
pub fn eq_ignore_ascii_case(a: &str, b: &str) -> (r: bool)
    ensures
        r == eq_ignoring_ascii_case(a@, b@),
{
    let x = chars_of(a);
    let y = chars_of(b);
    if x.len() != y.len() {
        return false;
    }
    for i in 0..x.len()
        invariant
            x@ == a@,
            y@ == b@,
            x@.len() == y@.len(),
            forall|j: int| 0 <= j < i ==> ascii_lower(#[trigger] x@[j]) == ascii_lower(y@[j]),
    {
        if lower_char(x[i]) != lower_char(y[i]) {
            return false;
        }
    }
    true
}

/// The value of a decimal digit character.
pub open spec fn digit_value(c: char) -> int {
    (c as int) - ('0' as int)
}

pub open spec fn is_digit(c: char) -> bool {
    '0' <= c && c <= '9'
}

/// The value of a sequence of decimal digits.
pub open spec fn digits_value(s: Seq<char>) -> nat
    decreases s.len(),
{
    if s.len() == 0 {
        0
    } else {
        (digits_value(s.drop_last()) * 10 + digit_value(s.last())) as nat
    }
}

/// A text without its leading `+`, if it has one.
pub open spec fn without_plus(s: Seq<char>) -> Seq<char> {
    if s.len() > 0 && s[0] == '+' {
        s.skip(1)
    } else {
        s
    }
}

/// The digits of an unsigned decimal number, as `usize::from_str` reads it: an optional `+` sign,
/// then at least one digit.
pub open spec fn unsigned_digits(s: Seq<char>) -> Option<Seq<char>> {
    let d = without_plus(s);
    if d.len() > 0 && forall|i: int| 0 <= i < d.len() ==> is_digit(#[trigger] d[i]) {
        Some(d)
    } else {
        None
    }
}

/// The number that `usize::from_str` reads from a text, if it reads one: an optional `+` and
/// decimal digits whose value fits in a `usize`.
pub open spec fn parsed_usize(s: Seq<char>) -> Option<nat> {
    match unsigned_digits(s) {
        Some(d) => if digits_value(d) <= usize::MAX {
            Some(digits_value(d))
        } else {
            None
        },
        None => None,
    }
}

proof fn lemma_digits_value_grows(s: Seq<char>, i: int)
    requires
        0 <= i <= s.len(),
        forall|j: int| 0 <= j < s.len() ==> is_digit(#[trigger] s[j]),
    ensures
        digits_value(s.take(i)) <= digits_value(s),
    decreases s.len() - i,
{
    if i < s.len() {
        lemma_digits_value_grows(s, i + 1);
        assert(s.take(i + 1).drop_last() =~= s.take(i));
    } else {
        assert(s.take(i) =~= s);
    }
}

/// Reads an unsigned decimal number as `usize::from_str` does: `None` unless the text is an
/// optional `+` followed by digits whose value fits in a `usize`.
pub fn parse_usize(s: &str) -> (r: Option<usize>)
    ensures
        match r {
            Some(v) => parsed_usize(s@) == Some(v as nat),
            None => parsed_usize(s@) is None,
        },
{
    let cs = chars_of(s);
    let mut start: usize = 0;
    if cs.len() > 0 && cs[0] == '+' {
        start = 1;
    }
    let ghost d = without_plus(s@);
    assert(d =~= cs@.skip(start as int));
    if start >= cs.len() {
        return None;
    }
    let mut value: usize = 0;
    let mut i: usize = start;
    while i < cs.len()
        invariant
            cs@ == s@,
            d == cs@.skip(start as int),
            d == without_plus(s@),
            start <= i <= cs@.len(),
            start < cs@.len(),
            forall|j: int| start <= j < i ==> is_digit(#[trigger] cs@[j]),
            value as nat == digits_value(d.take(i - start)),
        decreases cs@.len() - i,
    {
        let c = cs[i];
        if !('0' <= c && c <= '9') {
            assert(!is_digit(d[i - start]));
            assert(unsigned_digits(s@) is None);
            return None;
        }
        let dv: u32 = (c as u32) - ('0' as u32);
        assert(d.take(i + 1 - start).drop_last() =~= d.take(i - start));
        assert(d.take(i + 1 - start).last() == c);
        let next = value.checked_mul(10);
        match next {
            Some(m) => {
                let sum = m.checked_add(dv as usize);
                match sum {
                    Some(v) => {
                        value = v;
                    },
                    None => {
                        proof {
                            assert(digits_value(d.take(i + 1 - start)) > usize::MAX);
                            if forall|k: int| 0 <= k < d.len() ==> is_digit(#[trigger] d[k]) {
                                lemma_digits_value_grows(d, i + 1 - start);
                            }
                            assert(parsed_usize(s@) is None);
                        }
                        return None;
                    },
                }
            },
            None => {
                proof {
                    assert(digits_value(d.take(i + 1 - start)) > usize::MAX) by (nonlinear_arith)
                        requires
                            digits_value(d.take(i + 1 - start)) == digits_value(d.take(i - start)) * 10 + digit_value(c),
                            value as nat == digits_value(d.take(i - start)),
                            value * 10 > usize::MAX,
                            digit_value(c) >= 0,
                    ;
                    if forall|k: int| 0 <= k < d.len() ==> is_digit(#[trigger] d[k]) {
                        lemma_digits_value_grows(d, i + 1 - start);
                    }
                    assert(parsed_usize(s@) is None);
                }
                return None;
            },
        }
        i += 1;
    }
    assert(d.take(d.len() as int) =~= d);
    assert(forall|j: int| 0 <= j < d.len() ==> is_digit(#[trigger] d[j])) by {
        assert forall|j: int| 0 <= j < d.len() implies is_digit(#[trigger] d[j]) by {
            assert(d[j] == cs@[j + start]);
        }
    }
    Some(value)
}

/// Whether `t` is `s` with its leading and trailing white space removed (`str::trim`).
pub open spec fn is_trimmed(t: Seq<char>, s: Seq<char>) -> bool {
    exists|a: int, b: int|
        #![trigger s.subrange(a, b)]
        0 <= a <= b <= s.len() && t == s.subrange(a, b) && (forall|i: int| 0 <= i < a ==> is_white_space(#[trigger] s[i]))
            && (forall|i: int| b <= i < s.len() ==> is_white_space(#[trigger] s[i])) && (a < b ==> !is_white_space(s[a])
            && !is_white_space(s[b - 1]))
}

/// A text with its leading and trailing white space removed.
pub fn trim(s: &str) -> (r: String)
    ensures
        is_trimmed(r@, s@),
{
    let cs = chars_of(s);
    let mut a: usize = 0;
    while a < cs.len() && is_whitespace(cs[a])
        invariant
            cs@ == s@,
            a <= cs@.len(),
            forall|i: int| 0 <= i < a ==> is_white_space(#[trigger] cs@[i]),
        decreases cs@.len() - a,
    {
        a += 1;
    }
    let mut b: usize = cs.len();
    while b > a && is_whitespace(cs[b - 1])
        invariant
            cs@ == s@,
            a <= b <= cs@.len(),
            forall|i: int| b <= i < cs@.len() ==> is_white_space(#[trigger] cs@[i]),
        decreases b,
    {
        b -= 1;
    }
    let mut r = String::new();
    let mut i = a;
    while i < b
        invariant
            cs@ == s@,
            a <= i <= b <= cs@.len(),
            r@ == s@.subrange(a as int, i as int),
        decreases b - i,
    {
        push_char(&mut r, cs[i]);
        assert(s@.subrange(a as int, i as int).push(s@[i as int]) =~= s@.subrange(a as int, i + 1));
        i += 1;
    }
    assert(r@ == s@.subrange(a as int, b as int));
    r
}

/// The decimal text of a number.
pub open spec fn decimal_text(n: nat) -> Seq<char>
    decreases n,
{
    if n < 10 {
        seq![((n + 0x30) as u32) as char]
    } else {
        decimal_text(n / 10) + seq![(((n % 10) + 0x30) as u32) as char]
    }
}

/// The decimal text of a signed number.
pub open spec fn signed_decimal_text(n: int) -> Seq<char> {
    if n < 0 {
        seq!['-'] + decimal_text((-n) as nat)
    } else {
        decimal_text(n as nat)
    }
}

/// Writes the decimal text of a number.
pub fn write_decimal(out: &mut String, n: u64)
    ensures
        final(out)@ == old(out)@ + decimal_text(n as nat),
    decreases n,
{
    if n >= 10 {
        write_decimal(out, n / 10);
    }
    let d: u8 = (n % 10) as u8;
    let c: char = (d + 48) as char;
    push_char(out, c);
}

/// Writes the decimal text of a signed 32-bit number.
pub fn write_signed_decimal(out: &mut String, n: i32)
    ensures
        final(out)@ == old(out)@ + signed_decimal_text(n as int),
{
    if n < 0 {
        push_char(out, '-');
        let m: i64 = -(n as i64);
        write_decimal(out, m as u64);
        assert(final(out)@ =~= old(out)@ + signed_decimal_text(n as int));
    } else {
        write_decimal(out, n as u64);
    }
}

} // verus!
