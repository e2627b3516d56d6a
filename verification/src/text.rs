//! Text as sequences of characters: white space, decimal numbers and the few
//! string operations that the rest of the library needs.
use vstd::prelude::*;

verus! {

/// Whether `c` has the Unicode property `White_Space`.
pub open spec fn is_white_space(c: char) -> bool {
    let v = c as u32;
    ||| 0x09 <= v <= 0x0d
    ||| v == 0x20
    ||| v == 0x85
    ||| v == 0xa0
    ||| v == 0x1680
    ||| 0x2000 <= v <= 0x200a
    ||| v == 0x2028
    ||| v == 0x2029
    ||| v == 0x202f
    ||| v == 0x205f
    ||| v == 0x3000
}

/// Whether every character of `s` is white space.
pub open spec fn all_white_space(s: Seq<char>) -> bool {
    forall|i: int| 0 <= i < s.len() ==> is_white_space(#[trigger] s[i])
}

/// Whether `s` neither begins nor ends with white space.
pub open spec fn is_trimmed(s: Seq<char>) -> bool {
    s.len() > 0 ==> !is_white_space(s[0]) && !is_white_space(s.last())
}

/// `s` without the white space at its two ends.
pub open spec fn trimmed(s: Seq<char>) -> Seq<char>
    decreases s.len(),
{
    if s.len() > 0 && is_white_space(s[0]) {
        trimmed(s.drop_first())
    } else if s.len() > 0 && is_white_space(s.last()) {
        trimmed(s.drop_last())
    } else {
        s
    }
}

/// Whether `c` is one of the ten ASCII digits.
pub open spec fn is_digit(c: char) -> bool {
    '0' <= c <= '9'
}

/// The value of an ASCII digit.
pub open spec fn digit_value(c: char) -> nat {
    (c as u32 - '0' as u32) as nat
}

/// Whether `s` is one or more ASCII digits.
pub open spec fn is_digits(s: Seq<char>) -> bool {
    s.len() > 0 && forall|i: int| 0 <= i < s.len() ==> is_digit(#[trigger] s[i])
}

/// The number that the digits of `s` write in decimal.
pub open spec fn digits_value(s: Seq<char>) -> nat
    decreases s.len(),
{
    if s.len() == 0 {
        0
    } else {
        digits_value(s.drop_last()) * 10 + digit_value(s.last())
    }
}

/// The digits of a number's text: what follows its sign, where it has one.
pub open spec fn unsigned_part(s: Seq<char>) -> Seq<char> {
    if s.len() > 0 && (s[0] == '+' || s[0] == '-') {
        s.drop_first()
    } else {
        s
    }
}

/// The `i32` that `s` writes in decimal with an optional sign, if it does.
pub open spec fn parsed_i32(s: Seq<char>) -> Option<i32> {
    let digits = unsigned_part(s);
    let value = if s.len() > 0 && s[0] == '-' {
        -digits_value(digits)
    } else {
        digits_value(digits) as int
    };
    if is_digits(digits) && i32::MIN <= value <= i32::MAX {
        Some(value as i32)
    } else {
        None
    }
}

/// The digit that writes `d`.
pub open spec fn digit_char(d: nat) -> char {
    (d + '0' as u32) as char
}

/// `n` in decimal, without leading zeros.
pub open spec fn decimal(n: nat) -> Seq<char>
    decreases n,
{
    if n < 10 {
        seq![digit_char(n)]
    } else {
        decimal(n / 10).push(digit_char(n % 10))
    }
}

/// `n` in decimal, with a sign where it is negative.
pub open spec fn signed_decimal(n: int) -> Seq<char> {
    if n < 0 {
        seq!['-'] + decimal((-n) as nat)
    } else {
        decimal(n as nat)
    }
}

/// The characters of `s`.
pub fn characters(s: &str) -> (r: Vec<char>)
    ensures
        r@ == s@,
{
    let mut r: Vec<char> = Vec::new();
    for c in it: s.chars()
        invariant
            it.seq() == s@,
            r@ == s@.take(it.index() as int),
    {
        r.push(c);
    }
    assert(s@.take(s@.len() as int) == s@);
    r
}

/// Whether two texts are the same.
pub fn same_text(a: &str, b: &str) -> (r: bool)
    ensures
        r == (a@ == b@),
{
    a.to_owned() == b.to_owned()
}

/// Whether `c` has the Unicode property `White_Space`.
pub fn white_space(c: char) -> (r: bool)
    ensures
        r == is_white_space(c),
{
    let v: u32 = c as u32;
    (0x09 <= v && v <= 0x0d) || v == 0x20 || v == 0x85 || v == 0xa0 || v == 0x1680 || (0x2000 <= v
        && v <= 0x200a) || v == 0x2028 || v == 0x2029 || v == 0x202f || v == 0x205f || v == 0x3000
}

/// The bounds of the part of `s` that is left when the white space at its two
/// ends is taken off.
fn trim_bounds(s: &Vec<char>) -> (r: (usize, usize))
    ensures
        r.0 <= r.1 <= s@.len(),
        s@.subrange(r.0 as int, r.1 as int) == trimmed(s@),
{
    let mut lo: usize = 0;
    let mut hi: usize = s.len();
    assert(s@.subrange(0, s@.len() as int) == s@);
    while lo < hi && white_space(s[lo])
        invariant
            lo <= hi == s@.len(),
            trimmed(s@.subrange(lo as int, hi as int)) == trimmed(s@),
        decreases hi - lo,
    {
        assert(s@.subrange(lo as int, hi as int).drop_first() == s@.subrange(lo + 1, hi as int));
        lo = lo + 1;
    }
    while lo < hi && white_space(s[hi - 1])
        invariant
            lo <= hi <= s@.len(),
            lo < hi ==> !is_white_space(s@[lo as int]),
            trimmed(s@.subrange(lo as int, hi as int)) == trimmed(s@),
        decreases hi - lo,
    {
        assert(s@.subrange(lo as int, hi as int).drop_last() == s@.subrange(lo as int, hi - 1));
        hi = hi - 1;
    }
    (lo, hi)
}

/// More digits write no smaller number.
proof fn lemma_value_of_prefix(s: Seq<char>, k: int)
    requires
        0 <= k <= s.len(),
    ensures
        digits_value(s.take(k)) <= digits_value(s),
    decreases s.len() - k,
{
    if k == s.len() {
        assert(s.take(k) == s);
    } else {
        assert(s.take(k + 1).drop_last() == s.take(k));
        lemma_value_of_prefix(s, k + 1);
    }
}

/// The number that `s[lo..hi]` writes in decimal, unless it is greater than `limit`.
fn bounded_value(s: &Vec<char>, lo: usize, hi: usize, limit: u64) -> (r: Option<u64>)
    requires
        lo <= hi <= s@.len(),
        limit <= 0xffff_ffff,
    ensures
        r == (if is_digits(s@.subrange(lo as int, hi as int)) && digits_value(
            s@.subrange(lo as int, hi as int),
        ) <= limit {
            Some(digits_value(s@.subrange(lo as int, hi as int)) as u64)
        } else {
            None
        }),
{
    let ghost digits = s@.subrange(lo as int, hi as int);
    if lo == hi {
        return None;
    }
    let mut value: u64 = 0;
    let mut i: usize = lo;
    while i < hi
        invariant
            lo <= i <= hi <= s@.len(),
            digits == s@.subrange(lo as int, hi as int),
            limit <= 0xffff_ffff,
            forall|j: int| 0 <= j < i - lo ==> is_digit(#[trigger] digits[j]),
            value == digits_value(digits.take(i - lo)),
            value <= limit,
        decreases hi - i,
    {
        let c = s[i];
        assert(digits[i - lo] == c);
        if c < '0' || '9' < c {
            return None;
        }
        proof {
            assert(digits.take(i - lo + 1).drop_last() == digits.take(i - lo));
            lemma_value_of_prefix(digits, i - lo + 1);
        }
        value = value * 10 + (c as u64 - '0' as u64);
        if value > limit {
            return None;
        }
        i = i + 1;
    }
    assert(digits.take(hi - lo) == digits);
    Some(value)
}

/// Reads an `i32` in decimal, with an optional sign, from a text that white
/// space may surround.
pub fn parse_i32(s: &str) -> (r: Option<i32>)
    ensures
        r == parsed_i32(trimmed(s@)),
{
    let chars = characters(s);
    let (lo, hi) = trim_bounds(&chars);
    let ghost number = trimmed(s@);
    if lo == hi {
        return None;
    }
    assert(number[0] == chars@[lo as int]);
    let first = chars[lo];
    if first == '-' {
        assert(number.drop_first() == chars@.subrange(lo + 1, hi as int));
        match bounded_value(&chars, lo + 1, hi, 0x8000_0000) {
            Some(value) => Some((-(value as i64)) as i32),
            None => None,
        }
    } else {
        let start: usize = if first == '+' {
            lo + 1
        } else {
            lo
        };
        assert(unsigned_part(number) == chars@.subrange(start as int, hi as int));
        match bounded_value(&chars, start, hi, 0x7fff_ffff) {
            Some(value) => Some(value as i32),
            None => None,
        }
    }
}

/// The text of one digit.
fn digit_text(d: u16) -> (r: &'static str)
    requires
        d < 10,
    ensures
        r@ == seq![digit_char(d as nat)],
{
    proof {
        reveal_strlit("0");
        reveal_strlit("1");
        reveal_strlit("2");
        reveal_strlit("3");
        reveal_strlit("4");
        reveal_strlit("5");
        reveal_strlit("6");
        reveal_strlit("7");
        reveal_strlit("8");
        reveal_strlit("9");
    }
    match d {
        0 => "0",
        1 => "1",
        2 => "2",
        3 => "3",
        4 => "4",
        5 => "5",
        6 => "6",
        7 => "7",
        8 => "8",
        _ => "9",
    }
}

/// Writes `n` in decimal at the end of `s`.
pub fn append_decimal(s: &mut String, n: u16)
    ensures
        final(s)@ == old(s)@ + decimal(n as nat),
    decreases n,
{
    if n >= 10 {
        append_decimal(s, n / 10);
    }
    s.append(digit_text(n % 10));
}

/// The decimal text of a number is made of digits and writes that number.
pub proof fn law_decimal_writes_its_number(n: nat)
    ensures
        is_digits(decimal(n)),
        digits_value(decimal(n)) == n,
    decreases n,
{
    if n < 10 {
        assert(decimal(n).drop_last() == Seq::<char>::empty());
        assert(digits_value(Seq::<char>::empty()) == 0);
    } else {
        law_decimal_writes_its_number(n / 10);
        assert(decimal(n).drop_last() == decimal(n / 10));
    }
}

/// Every `i32`, written in decimal, is read back.
pub proof fn law_parse_reads_what_decimal_writes(n: i32)
    ensures
        parsed_i32(signed_decimal(n as int)) == Some(n),
{
    let s = signed_decimal(n as int);
    if n < 0 {
        law_decimal_writes_its_number((-n) as nat);
        assert(s.drop_first() == decimal((-n) as nat));
    } else {
        law_decimal_writes_its_number(n as nat);
        assert(is_digit(s[0]));
    }
}

/// Trimming takes off the white space around a text that neither begins nor
/// ends with white space, and nothing else.
pub proof fn law_trimmed_takes_off_white_space(before: Seq<char>, s: Seq<char>, after: Seq<char>)
    requires
        all_white_space(before),
        is_trimmed(s),
        all_white_space(after),
    ensures
        trimmed(before + s + after) == s,
    decreases before.len() + after.len(),
{
    let whole = before + s + after;
    if before.len() > 0 {
        assert(whole[0] == before[0]);
        assert(whole.drop_first() == before.drop_first() + s + after);
        law_trimmed_takes_off_white_space(before.drop_first(), s, after);
    } else if after.len() > 0 {
        assert(whole.last() == after.last());
        if s.len() > 0 {
            assert(whole[0] == s[0]);
            assert(whole.drop_last() == before + s + after.drop_last());
            law_trimmed_takes_off_white_space(before, s, after.drop_last());
        } else {
            assert(whole == after);
            assert(whole[0] == after[0]);
            assert(whole.drop_first() == before + s + after.drop_first());
            law_trimmed_takes_off_white_space(before, s, after.drop_first());
        }
    } else {
        assert(whole == s);
    }
}

/// What trimming leaves neither begins nor ends with white space.
pub proof fn law_trimmed_is_trimmed(s: Seq<char>)
    ensures
        is_trimmed(trimmed(s)),
    decreases s.len(),
{
    if s.len() > 0 && is_white_space(s[0]) {
        law_trimmed_is_trimmed(s.drop_first());
    } else if s.len() > 0 && is_white_space(s.last()) {
        law_trimmed_is_trimmed(s.drop_last());
    }
}

/// A decimal text has no leading zero, but for that of zero itself.
pub proof fn law_decimal_has_no_leading_zero(n: nat)
    ensures
        decimal(n).len() > 0,
        decimal(n)[0] == '0' <==> n == 0,
        n == 0 ==> decimal(n).len() == 1,
    decreases n,
{
    if n >= 10 {
        law_decimal_has_no_leading_zero(n / 10);
    }
}

/// A text that reads as a number is one or more of the digits from 0 to 9, with at
/// most one sign before them.
pub proof fn law_numbers_are_digits(s: Seq<char>, i: int)
    requires
        parsed_i32(s) is Some,
    ensures
        s.len() > 0,
        s.len() == 1 ==> '0' <= s[0] <= '9',
        0 < i < s.len() ==> '0' <= s[i] <= '9',
        s[0] == '+' || s[0] == '-' || '0' <= s[0] <= '9',
{
    let digits = unsigned_part(s);
    if s[0] == '+' || s[0] == '-' {
        if 0 < i < s.len() {
            assert(digits[i - 1] == s[i]);
        }
    } else {
        assert(is_digit(digits[0]));
        if 0 < i < s.len() {
            assert(is_digit(digits[i]));
        }
    }
}

/// A single digit reads as its value.
pub proof fn law_digit_reads_as_its_value(c: char)
    requires
        '0' <= c <= '9',
    ensures
        parsed_i32(seq![c]) == Some((c as u32 - '0' as u32) as i32),
{
    assert(seq![c].drop_last() == Seq::<char>::empty());
    assert(digits_value(Seq::<char>::empty()) == 0);
    assert(digits_value(seq![c]) == digit_value(c));
    assert(is_digits(seq![c]));
}

/// A digit behind a number makes it ten times as large, and the digit more, as long
/// as an `i32` holds that; a number with a minus before it grows downwards.
pub proof fn law_digits_count_ten_times(s: Seq<char>, c: char, n: i32)
    requires
        parsed_i32(s) == Some(n),
        '0' <= c <= '9',
    ensures
        ({
            let more = if s[0] == '-' {
                n * 10 - (c as u32 - '0' as u32)
            } else {
                n * 10 + (c as u32 - '0' as u32)
            };
            parsed_i32(s.push(c)) == (if i32::MIN <= more <= i32::MAX {
                Some(more as i32)
            } else {
                None
            })
        }),
{
    let longer = unsigned_part(s.push(c));
    assert(longer == unsigned_part(s).push(c));
    assert(longer.drop_last() == unsigned_part(s));
    assert(is_digits(longer)) by {
        assert forall|i: int| 0 <= i < longer.len() implies is_digit(#[trigger] longer[i]) by {
            if i < unsigned_part(s).len() {
                assert(is_digit(unsigned_part(s)[i]));
            }
        }
    }
    assert(digits_value(longer) == digits_value(unsigned_part(s)) * 10 + digit_value(c));
}

/// A sign before a number of digits alone keeps its value, or turns it round.
pub proof fn law_signs_keep_or_turn(s: Seq<char>, n: i32)
    requires
        parsed_i32(s) == Some(n),
        '0' <= s[0] <= '9',
    ensures
        n >= 0,
        parsed_i32(seq!['+'] + s) == Some(n),
        parsed_i32(seq!['-'] + s) == Some((-n) as i32),
{
    assert((seq!['+'] + s).drop_first() == s);
    assert((seq!['-'] + s).drop_first() == s);
}

/// What is too large stays too large, however many digits follow, and a text with
/// anything but digits behind its sign is no number, whatever follows.
pub proof fn law_no_number_becomes_one(s: Seq<char>, c: char)
    requires
        parsed_i32(s) is None,
        s.len() > 1 || (s.len() == 1 && s[0] != '+' && s[0] != '-'),
    ensures
        parsed_i32(s.push(c)) is None,
{
    let digits = unsigned_part(s);
    let longer = unsigned_part(s.push(c));
    assert(longer == digits.push(c));
    assert(longer.drop_last() == digits);
    if is_digits(longer) {
        assert forall|i: int| 0 <= i < digits.len() implies is_digit(#[trigger] digits[i]) by {
            assert(is_digit(longer[i]));
        }
        assert(is_digits(digits));
        assert(digits_value(longer) >= digits_value(digits));
    }
}

/// Neither nothing nor a sign alone is a number.
pub proof fn law_signs_alone_are_no_numbers()
    ensures
        parsed_i32(Seq::empty()) is None,
        parsed_i32(seq!['+']) is None,
        parsed_i32(seq!['-']) is None,
{
}

} // verus!
