//! Numbers as text: the decimal and hexadecimal forms that identifiers and
//! versions are written in, and the readers that turn them back into numbers.

use vstd::prelude::*;

verus! {

broadcast use vstd::string::group_string_axioms;

// ---------------------------------------------------------------------------
// Decimal numerals
// ---------------------------------------------------------------------------

/// The decimal digit with value `d`.
pub open spec fn digit_char(d: int) -> char {
    (48 + d) as char
}

/// The value of a decimal digit.
pub open spec fn digit_value(c: char) -> int {
    (c as int) - 48
}

pub open spec fn is_digit(c: char) -> bool {
    48 <= (c as int) <= 57
}

/// The decimal numeral of `n`, without leading zeros.
pub open spec fn decimal(n: nat) -> Seq<char>
    decreases n,
{
    if n < 10 {
        seq![digit_char(n as int)]
    } else {
        decimal(n / 10).push(digit_char((n % 10) as int))
    }
}

/// The decimal numeral of `n`, with a minus sign in front of a negative one.
pub open spec fn signed_decimal(n: int) -> Seq<char> {
    if n < 0 {
        seq!['-'] + decimal((-n) as nat)
    } else {
        decimal(n as nat)
    }
}

/// A nonempty run of decimal digits.
pub open spec fn all_digits(s: Seq<char>) -> bool {
    s.len() > 0 && forall|i: int| 0 <= i < s.len() ==> is_digit(#[trigger] s[i])
}

/// The number that a run of digits stands for.
pub open spec fn digits_value(s: Seq<char>) -> int
    decreases s.len(),
{
    if s.len() == 0 {
        0
    } else {
        digits_value(s.drop_last()) * 10 + digit_value(s.last())
    }
}

/// What is left of a numeral behind its optional plus sign.
pub open spec fn without_plus(s: Seq<char>) -> Seq<char> {
    if s.len() > 0 && s[0] == '+' {
        s.skip(1)
    } else {
        s
    }
}

/// The number that `s` denotes as an unsigned numeral of at most `max`:
/// an optional plus sign and digits, nothing else.
pub open spec fn read_unsigned(s: Seq<char>, max: int) -> Option<int> {
    let d = without_plus(s);
    if all_digits(d) && digits_value(d) <= max {
        Some(digits_value(d))
    } else {
        None
    }
}

/// The number that `s` denotes as a signed 32-bit numeral: an optional sign
/// and digits, nothing else.
pub open spec fn read_i32(s: Seq<char>) -> Option<int> {
    if s.len() > 0 && s[0] == '-' {
        let d = s.skip(1);
        if all_digits(d) && digits_value(d) <= 0x8000_0000 {
            Some(-digits_value(d))
        } else {
            None
        }
    } else {
        read_unsigned(s, i32::MAX as int)
    }
}

/// One decimal digit as text.
fn digit_str(d: u64) -> (r: &'static str)
    requires
        d < 10,
    ensures
        r@ == seq![digit_char(d as int)],
{
    proof {
        reveal_strlit("0");
        reveal_strlit("1");
        reveal_strlit("2");
        reveal_strlit("3");
        reveal_strlit("4");
        reveal_strlit("5");
        reveal_strlit("6");
        reveal_strlit("7");
        reveal_strlit("8");
        reveal_strlit("9");
    }
    match d {
        0 => "0",
        1 => "1",
        2 => "2",
        3 => "3",
        4 => "4",
        5 => "5",
        6 => "6",
        7 => "7",
        8 => "8",
        _ => "9",
    }
}

/// Writes `n` in decimal.
pub fn u64_to_string(n: u64) -> (r: String)
    ensures
        r@ == decimal(n as nat),
    decreases n,
{
    if n < 10 {
        digit_str(n).to_owned()
    } else {
        let mut s = u64_to_string(n / 10);
        s.append(digit_str(n % 10));
        proof {
            assert(s@ =~= decimal(n as nat));
        }
        s
    }
}

/// Writes `n` in decimal, with a minus sign where it is negative.
pub fn i32_to_string(n: i32) -> (r: String)
    ensures
        r@ == signed_decimal(n as int),
{
    if n < 0 {
        let mut s = "-".to_owned();
        let magnitude: u64 = (-(n as i64)) as u64;
        let digits = u64_to_string(magnitude);
        s.append(digits.as_str());
        proof {
            reveal_strlit("-");
            assert(s@ =~= signed_decimal(n as int));
        }
        s
    } else {
        u64_to_string(n as u64)
    }
}

/// The characters of a text.
pub fn to_chars(s: &str) -> (r: Vec<char>)
    ensures
        r@ == s@,
{
    let mut r: Vec<char> = Vec::new();
    for c in it: s.chars()
        invariant
            r@ =~= s@.take(it.index() as int),
            it.seq() == s@,
    {
        r.push(c);
    }
    proof {
        assert(s@.take(s@.len() as int) =~= s@);
    }
    r
}

proof fn lemma_digits_value_grows(s: Seq<char>, i: int)
    requires
        0 <= i <= s.len(),
        forall|k: int| 0 <= k < s.len() ==> is_digit(#[trigger] s[k]),
    ensures
        0 <= digits_value(s.take(i)) <= digits_value(s),
    decreases s.len(),
{
    if s.len() == 0 {
        assert(s.take(i) =~= s);
    } else if i == s.len() {
        assert(s.take(i) =~= s);
        lemma_digits_value_grows(s.drop_last(), s.len() - 1);
        assert(s.drop_last().take(s.len() - 1) =~= s.drop_last());
        assert(is_digit(s[s.len() - 1]));
    } else {
        assert(s.drop_last().take(i) =~= s.take(i));
        lemma_digits_value_grows(s.drop_last(), i);
        assert(is_digit(s[s.len() - 1]));
    }
}

/// Reads the digits of `s` from `from` on, at most `max` in value.
fn read_digits(s: &Vec<char>, from: usize, max: u64) -> (r: Option<u64>)
    requires
        from <= s@.len(),
    ensures
        r is Some <==> all_digits(s@.skip(from as int)) && digits_value(s@.skip(from as int))
            <= max,
        r matches Some(v) ==> v == digits_value(s@.skip(from as int)),
{
    let ghost d = s@.skip(from as int);
    let n: usize = s.len();
    if from == n {
        return None;
    }
    let mut acc: u64 = 0;
    let mut i: usize = from;
    while i < n
        invariant
            n == s@.len(),
            from <= i <= n,
            from < n,
            d == s@.skip(from as int),
            acc <= max,
            forall|k: int| 0 <= k < i - from ==> is_digit(#[trigger] d[k]),
            acc == digits_value(d.take(i - from)),
        decreases n - i,
    {
        let c = s[i];
        proof {
            assert(d[i - from] == c);
            assert(d.take(i - from + 1).drop_last() =~= d.take(i - from));
        }
        if c < '0' || c > '9' {
            proof {
                assert(!is_digit(d[i - from]));
            }
            return None;
        }
        let v: u128 = (acc as u128) * 10 + ((c as u32) - 48) as u128;
        if v > max as u128 {
            proof {
                if all_digits(d) {
                    lemma_digits_value_grows(d, i - from + 1);
                }
            }
            return None;
        }
        acc = v as u64;
        i = i + 1;
    }
    proof {
        assert(d.take(n - from) =~= d);
    }
    Some(acc)
}

/// Reads an unsigned decimal numeral of at most `max`.
pub fn parse_unsigned(s: &str, max: u64) -> (r: Option<u64>)
    ensures
        r is Some <==> read_unsigned(s@, max as int) is Some,
        r matches Some(v) ==> read_unsigned(s@, max as int) == Some(v as int),
{
    let chars = to_chars(s);
    proof {
        assert(s@.skip(0) =~= s@);
    }
    if chars.len() > 0 && chars[0] == '+' {
        read_digits(&chars, 1, max)
    } else {
        read_digits(&chars, 0, max)
    }
}

/// Reads a signed decimal numeral that fits in 32 bits.
pub fn parse_i32(s: &str) -> (r: Option<i32>)
    ensures
        r is Some <==> read_i32(s@) is Some,
        r matches Some(v) ==> read_i32(s@) == Some(v as int),
{
    let chars = to_chars(s);
    if chars.len() > 0 && chars[0] == '-' {
        match read_digits(&chars, 1, 0x8000_0000) {
            Some(v) => Some((-(v as i64)) as i32),
            None => None,
        }
    } else {
        match parse_unsigned(s, i32::MAX as u64) {
            Some(v) => Some(v as i32),
            None => None,
        }
    }
}

// ---------------------------------------------------------------------------
// Hexadecimal bytes
// ---------------------------------------------------------------------------

/// The lower-case hexadecimal digit with value `d`.
pub open spec fn hex_char(d: int) -> char {
    if d < 10 {
        (48 + d) as char
    } else {
        (87 + d) as char
    }
}

/// The two lower-case hexadecimal digits of a byte.
pub open spec fn hex_byte(b: u8) -> Seq<char> {
    seq![hex_char(b as int / 16), hex_char(b as int % 16)]
}

/// One hexadecimal digit as text.
fn hex_digit_str(d: u8) -> (r: &'static str)
    requires
        d < 16,
    ensures
        r@ == seq![hex_char(d as int)],
{
    proof {
        reveal_strlit("a");
        reveal_strlit("b");
        reveal_strlit("c");
        reveal_strlit("d");
        reveal_strlit("e");
        reveal_strlit("f");
    }
    match d {
        10 => "a",
        11 => "b",
        12 => "c",
        13 => "d",
        14 => "e",
        15 => "f",
        _ => digit_str(d as u64),
    }
}

/// Writes a byte as two hexadecimal digits at the end of `out`.
pub fn push_hex_byte(out: &mut String, b: u8)
    ensures
        final(out)@ == old(out)@ + hex_byte(b),
{
    out.append(hex_digit_str(b / 16));
    out.append(hex_digit_str(b % 16));
    proof {
        assert(out@ =~= old(out)@ + hex_byte(b));
    }
}

// ---------------------------------------------------------------------------
// Prefixes
// ---------------------------------------------------------------------------

/// Whether `s` begins with `prefix`.
pub open spec fn begins_with(s: Seq<char>, prefix: Seq<char>) -> bool {
    prefix.len() <= s.len() && s.take(prefix.len() as int) == prefix
}

/// What stands behind `prefix` in `s`, where `s` begins with it.
pub open spec fn behind_prefix(s: Seq<char>, prefix: Seq<char>) -> Option<Seq<char>> {
    if begins_with(s, prefix) {
        Some(s.skip(prefix.len() as int))
    } else {
        None
    }
}

/// What stands behind `prefix` in `s`, where `s` begins with it.
pub fn strip_prefix<'a>(s: &'a str, prefix: &str) -> (r: Option<&'a str>)
    ensures
        r is Some <==> behind_prefix(s@, prefix@) is Some,
        r matches Some(rest) ==> behind_prefix(s@, prefix@) == Some(rest@),
{
    let n: usize = s.unicode_len();
    let m: usize = prefix.unicode_len();
    if m > n {
        return None;
    }
    let chars = to_chars(s);
    let wanted = to_chars(prefix);
    let mut i: usize = 0;
    while i < m
        invariant
            n == s@.len(),
            m == prefix@.len(),
            m <= n,
            i <= m,
            chars@ == s@,
            wanted@ == prefix@,
            forall|k: int| 0 <= k < i ==> s@[k] == prefix@[k],
        decreases m - i,
    {
        if chars[i] != wanted[i] {
            proof {
                assert(s@.take(m as int)[i as int] != prefix@[i as int]);
            }
            return None;
        }
        i = i + 1;
    }
    proof {
        assert(s@.take(m as int) =~= prefix@);
        assert(s@.skip(m as int) =~= s@.subrange(m as int, n as int));
    }
    Some(s.substring_char(m, n))
}

// ---------------------------------------------------------------------------
// Laws
// ---------------------------------------------------------------------------

/// A decimal numeral is a run of digits that denotes its number.
pub proof fn decimal_is_a_numeral(n: nat)
    ensures
        all_digits(decimal(n)),
        digits_value(decimal(n)) == n,
    decreases n,
{
    if n < 10 {
        let s = seq![digit_char(n as int)];
        assert(s.drop_last() =~= Seq::<char>::empty());
        assert(digits_value(Seq::<char>::empty()) == 0);
    } else {
        decimal_is_a_numeral(n / 10);
        let s = decimal(n / 10).push(digit_char((n % 10) as int));
        assert(s.drop_last() =~= decimal(n / 10));
        assert forall|i: int| 0 <= i < s.len() implies is_digit(#[trigger] s[i]) by {
            if i < decimal(n / 10).len() {
                assert(s[i] == decimal(n / 10)[i]);
            }
        }
    }
}

/// Reading a written number gives it back, within any bound it meets.
pub proof fn decimal_reads_back(n: nat, max: int)
    requires
        n <= max,
    ensures
        read_unsigned(decimal(n), max) == Some(n as int),
{
    decimal_is_a_numeral(n);
    assert(is_digit(decimal(n)[0]));
}

/// Reading a written 32-bit number gives it back.
pub proof fn signed_decimal_reads_back(n: i32)
    ensures
        read_i32(signed_decimal(n as int)) == Some(n as int),
{
    if n < 0 {
        decimal_is_a_numeral((-n) as nat);
        assert(signed_decimal(n as int).skip(1) =~= decimal((-n) as nat));
    } else {
        decimal_reads_back(n as nat, i32::MAX as int);
        decimal_is_a_numeral(n as nat);
        assert(is_digit(decimal(n as nat)[0]));
    }
}

/// Different numbers are written differently.
pub proof fn decimal_is_injective(a: nat, b: nat)
    requires
        decimal(a) == decimal(b),
    ensures
        a == b,
{
    decimal_is_a_numeral(a);
    decimal_is_a_numeral(b);
}

/// Different bytes have different hexadecimal digits.
pub proof fn hex_byte_is_injective(a: u8, b: u8)
    requires
        hex_byte(a) == hex_byte(b),
    ensures
        a == b,
{
    assert(hex_byte(a)[0] == hex_byte(b)[0]);
    assert(hex_byte(a)[1] == hex_byte(b)[1]);
}

/// The digits are the characters from zero to nine, with those values.
pub proof fn digits_are_zero_to_nine(c: char)
    ensures
        is_digit(c) <==> (c == '0' || c == '1' || c == '2' || c == '3' || c == '4' || c == '5' || c
            == '6' || c == '7' || c == '8' || c == '9'),
        c == '0' ==> digit_value(c) == 0,
        c == '1' ==> digit_value(c) == 1,
        c == '2' ==> digit_value(c) == 2,
        c == '3' ==> digit_value(c) == 3,
        c == '4' ==> digit_value(c) == 4,
        c == '5' ==> digit_value(c) == 5,
        c == '6' ==> digit_value(c) == 6,
        c == '7' ==> digit_value(c) == 7,
        c == '8' ==> digit_value(c) == 8,
        c == '9' ==> digit_value(c) == 9,
{
}

/// One more digit makes a run of digits stand for ten times its number and the
/// digit.
pub proof fn digits_count_in_tens(s: Seq<char>, c: char)
    ensures
        digits_value(Seq::<char>::empty()) == 0,
        digits_value(s.push(c)) == 10 * digits_value(s) + digit_value(c),
        all_digits(s) ==> (all_digits(s.push(c)) <==> is_digit(c)),
        all_digits(seq![c]) <==> is_digit(c),
        !all_digits(Seq::<char>::empty()),
{
    assert(s.push(c).drop_last() =~= s);
    assert(s.push(c)[s.len() as int] == c);
    assert(seq![c][0] == c);
    if is_digit(c) && all_digits(s) {
        assert forall|i: int| 0 <= i < s.push(c).len() implies is_digit(#[trigger] s.push(c)[i]) by {
            if i < s.len() {
                assert(s.push(c)[i] == s[i]);
            }
        }
    }
}

/// A decimal numeral begins with a zero only where it is the zero.
pub proof fn decimal_has_no_leading_zero(n: nat)
    ensures
        decimal(n)[0] == '0' ==> n == 0,
        decimal(0) == seq!['0'],
    decreases n,
{
    if n >= 10 {
        decimal_has_no_leading_zero(n / 10);
        decimal_is_a_numeral(n / 10);
        assert(decimal(n)[0] == decimal(n / 10)[0]);
    }
}

/// A negative number is written with a minus sign before its magnitude, another
/// one as its numeral.
pub proof fn signs_stand_in_front(n: nat)
    ensures
        signed_decimal(n as int) == decimal(n),
        n > 0 ==> signed_decimal(-n) == seq!['-'] + decimal(n),
{
}

/// What is read as an unsigned number is a run of digits, with or without a plus
/// sign, that stands for the number; every such text within the bound is read,
/// and no other.
pub proof fn unsigned_numbers_are_runs_of_digits(s: Seq<char>, max: int)
    ensures
        all_digits(s) ==> read_unsigned(s, max) == (if digits_value(s) <= max {
            Some(digits_value(s))
        } else {
            None
        }),
        all_digits(s) ==> read_unsigned(seq!['+'] + s, max) == read_unsigned(s, max),
        read_unsigned(s, max) matches Some(v) ==> v <= max && ((all_digits(s) && v == digits_value(
            s,
        )) || (s.len() > 0 && s[0] == '+' && all_digits(s.skip(1)) && v == digits_value(
            s.skip(1),
        ))),
{
    if all_digits(s) {
        assert(is_digit(s[0]));
        assert((seq!['+'] + s).skip(1) =~= s);
    }
}

/// A text with a minus sign is read as the negative of the digits behind it,
/// down to the least 32-bit number; any other as an unsigned one.
pub proof fn signed_numbers_are_read_by_their_sign(s: Seq<char>)
    ensures
        s.len() == 0 || s[0] != '-' ==> read_i32(s) == read_unsigned(s, 2147483647),
        all_digits(s) ==> read_i32(seq!['-'] + s) == (if digits_value(s) <= 2147483648 {
            Some(-digits_value(s))
        } else {
            None
        }),
        !all_digits(s) ==> read_i32(seq!['-'] + s) is None,
{
    assert((seq!['-'] + s).skip(1) =~= s);
}

/// A byte is written with the digit of its upper half and then that of its lower
/// half; the digits from ten on are the letters from a to f.
pub proof fn bytes_are_written_in_halves(high: int, low: int)
    requires
        0 <= high < 16,
        0 <= low < 16,
    ensures
        hex_byte((16 * high + low) as u8) == seq![hex_char(high), hex_char(low)],
        low < 10 ==> hex_char(low) == digit_char(low),
        low == 10 ==> hex_char(low) == 'a',
        low == 11 ==> hex_char(low) == 'b',
        low == 12 ==> hex_char(low) == 'c',
        low == 13 ==> hex_char(low) == 'd',
        low == 14 ==> hex_char(low) == 'e',
        low == 15 ==> hex_char(low) == 'f',
{
}

/// Behind a prefix stands what was put behind it, and only a text that begins
/// with the prefix has something behind it.
pub proof fn prefix_and_rest_make_the_text(prefix: Seq<char>, rest: Seq<char>, s: Seq<char>)
    ensures
        behind_prefix(prefix + rest, prefix) == Some(rest),
        behind_prefix(s, prefix) matches Some(behind) ==> s == prefix + behind,
{
    assert((prefix + rest).take(prefix.len() as int) =~= prefix);
    assert((prefix + rest).skip(prefix.len() as int) =~= rest);
    match behind_prefix(s, prefix) {
        Some(behind) => {
            assert(s =~= prefix + behind);
        },
        None => {},
    }
}

/// A run of digits stands for no negative number.
pub proof fn digits_are_no_negative_number(s: Seq<char>)
    ensures
        all_digits(s) ==> digits_value(s) >= 0,
    decreases s.len(),
{
    if all_digits(s) {
        let rest = s.drop_last();
        assert(is_digit(s[s.len() - 1]));
        if rest.len() > 0 {
            assert forall|i: int| 0 <= i < rest.len() implies is_digit(#[trigger] rest[i]) by {
                assert(rest[i] == s[i]);
            }
            digits_are_no_negative_number(rest);
        } else {
            assert(digits_value(rest) == 0);
        }
    }
}

} // verus!
