//! Decimal and hexadecimal numerals: writing them and reading them.

use vstd::prelude::*;

use crate::foreign::hex_encode;
use crate::text::chars_of;

verus! {

/// The character of the decimal digit `d`.
pub open spec fn digit_char(d: nat) -> char {
    (48 + d) as char
}

/// The decimal numeral of `n`, without leading zeros.
pub open spec fn decimal(n: nat) -> Seq<char>
    decreases n,
{
    if n < 10 {
        seq![digit_char(n)]
    } else {
        decimal(n / 10).push(digit_char(n % 10))
    }
}

/// The decimal numeral of `n`, with a minus sign where `n` is negative.
pub open spec fn signed_decimal(n: int) -> Seq<char> {
    if n < 0 {
        seq!['-'] + decimal((-n) as nat)
    } else {
        decimal(n as nat)
    }
}

/// Appends the decimal numeral of `n`.
fn push_decimal(n: u128, out: &mut String)
    ensures
        final(out)@ == old(out)@ + decimal(n as nat),
    decreases n,
{
    if n >= 10 {
        push_decimal(n / 10, out);
    }
    let d: u8 = (n % 10) as u8;
    out.push((48 + d) as char);
    assert(out@ =~= old(out)@ + decimal(n as nat));
}

/// Writes `n` as a decimal numeral.
pub fn decimal_text(n: u128) -> (r: String)
    ensures
        r@ == decimal(n as nat),
{
    let mut out = String::new();
    push_decimal(n, &mut out);
    assert(out@ =~= decimal(n as nat));
    out
}

/// Writes `n` as a decimal numeral, with a minus sign where it is negative.
pub fn signed_decimal_text(n: i64) -> (r: String)
    ensures
        r@ == signed_decimal(n as int),
{
    let mut out = String::new();
    if n < 0 {
        out.push('-');
        push_decimal((-(n as i128)) as u128, &mut out);
    } else {
        push_decimal(n as u128, &mut out);
    }
    assert(out@ =~= signed_decimal(n as int));
    out
}

/// `c` is a decimal digit.
pub open spec fn is_digit(c: char) -> bool {
    '0' <= c <= '9'
}

/// The number that the digits of `s` write, where `s` holds digits only.
pub open spec fn digits_value(s: Seq<char>) -> Option<nat>
    decreases s.len(),
{
    if s.len() == 0 {
        Some(0)
    } else {
        match digits_value(s.drop_last()) {
            Some(v) if is_digit(s.last()) => Some(10 * v + (s.last() as nat - 48) as nat),
            _ => None,
        }
    }
}

/// The number that `s` writes: at least one digit, after an optional plus sign.
pub open spec fn natural(s: Seq<char>) -> Option<nat> {
    let body = if s.len() > 0 && s[0] == '+' {
        s.drop_first()
    } else {
        s
    };
    if body.len() == 0 {
        None
    } else {
        digits_value(body)
    }
}

/// The number that `s` writes: at least one digit, after an optional sign.
pub open spec fn integer(s: Seq<char>) -> Option<int> {
    if s.len() > 1 && s[0] == '-' {
        match digits_value(s.drop_first()) {
            Some(v) => Some(-(v as int)),
            None => None,
        }
    } else {
        match natural(s) {
            Some(v) => Some(v as int),
            None => None,
        }
    }
}

/// A longer run of digits writes no smaller number.
proof fn lemma_digits_prefix(s: Seq<char>, i: int)
    requires
        0 <= i <= s.len(),
        digits_value(s) is Some,
    ensures
        digits_value(s.take(i)) is Some,
        digits_value(s.take(i))->0 <= digits_value(s)->0,
    decreases s.len() - i,
{
    if i == s.len() {
        assert(s.take(i) =~= s);
    } else {
        lemma_digits_prefix(s, i + 1);
        assert(s.take(i + 1).drop_last() =~= s.take(i));
    }
}

/// The number that the digits from `from` on write, where it is at most `max`.
fn read_digits(chars: &Vec<char>, from: usize, max: u128) -> (r: Option<u128>)
    requires
        from <= chars.len(),
        max <= u64::MAX,
    ensures
        r == (match digits_value(chars@.skip(from as int)) {
            Some(v) if v <= max => Some(v as u128),
            _ => None::<u128>,
        }),
{
    let ghost s = chars@.skip(from as int);
    let mut value: u128 = 0;
    let mut i: usize = from;
    assert(s.take(0) =~= Seq::<char>::empty());
    while i < chars.len()
        invariant
            from <= i <= chars.len(),
            s == chars@.skip(from as int),
            max <= u64::MAX,
            value <= max,
            digits_value(s.take(i - from)) == Some(value as nat),
        decreases chars.len() - i,
    {
        let c = chars[i];
        assert(s.take(i - from + 1).drop_last() =~= s.take(i - from));
        assert(s.take(i - from + 1).last() == c);
        if c < '0' || '9' < c {
            proof {
                if digits_value(s) is Some {
                    lemma_digits_prefix(s, i - from + 1);
                }
            }
            return None;
        }
        let next: u128 = 10 * value + (c as u32 - 48) as u128;
        if next > max {
            proof {
                if digits_value(s) is Some {
                    lemma_digits_prefix(s, i - from + 1);
                }
            }
            return None;
        }
        value = next;
        i = i + 1;
    }
    assert(s.take(i - from) =~= s);
    Some(value)
}

/// Reads a number of at most `max`.
pub fn read_natural(s: &str, max: u64) -> (r: Option<u64>)
    ensures
        r == (match natural(s@) {
            Some(v) if v <= max => Some(v as u64),
            _ => None::<u64>,
        }),
{
    let chars = chars_of(s);
    let from: usize = if chars.len() > 0 && chars[0] == '+' {
        1
    } else {
        0
    };
    assert(from == 1 ==> s@.skip(1) =~= s@.drop_first());
    assert(s@.skip(0) =~= s@);
    if from == chars.len() {
        return None;
    }
    match read_digits(&chars, from, max as u128) {
        Some(v) => Some(v as u64),
        None => None,
    }
}

/// Reads a number between `-min` and `max`.
fn read_integer(s: &str, min: u64, max: u64) -> (r: Option<i128>)
    ensures
        r == (match integer(s@) {
            Some(v) if -min <= v <= max => Some(v as i128),
            _ => None::<i128>,
        }),
{
    let chars = chars_of(s);
    if chars.len() > 1 && chars[0] == '-' {
        assert(s@.skip(1) =~= s@.drop_first());
        match read_digits(&chars, 1, min as u128) {
            Some(v) => Some(-(v as i128)),
            None => None,
        }
    } else {
        match read_natural(s, max) {
            Some(v) => Some(v as i128),
            None => None,
        }
    }
}

/// Reads an `i32`.
pub fn read_i32(s: &str) -> (r: Option<i32>)
    ensures
        r == (match integer(s@) {
            Some(v) if i32::MIN <= v <= i32::MAX => Some(v as i32),
            _ => None::<i32>,
        }),
{
    match read_integer(s, 0x8000_0000, 0x7fff_ffff) {
        Some(v) => Some(v as i32),
        None => None,
    }
}

/// Reads an `i64`.
pub fn read_i64(s: &str) -> (r: Option<i64>)
    ensures
        r == (match integer(s@) {
            Some(v) if i64::MIN <= v <= i64::MAX => Some(v as i64),
            _ => None::<i64>,
        }),
{
    match read_integer(s, 0x8000_0000_0000_0000, 0x7fff_ffff_ffff_ffff) {
        Some(v) => Some(v as i64),
        None => None,
    }
}

/// The character of the hexadecimal digit `d`, in lower case.
pub open spec fn hex_char(d: nat) -> char {
    if d < 10 {
        (48 + d) as char
    } else {
        (87 + d) as char
    }
}

/// Two lower-case hexadecimal digits for each byte, in order.
pub open spec fn hex_lower(bytes: Seq<u8>) -> Seq<char>
    decreases bytes.len(),
{
    if bytes.len() == 0 {
        Seq::empty()
    } else {
        hex_lower(bytes.drop_last()).push(hex_char((bytes.last() / 16) as nat)).push(
            hex_char((bytes.last() % 16) as nat),
        )
    }
}

/// `c` is a lower-case hexadecimal digit.
pub open spec fn is_hex_char(c: char) -> bool {
    '0' <= c <= '9' || 'a' <= c <= 'f'
}

/// Bytes are written in hexadecimal digits only, two for each.
pub proof fn lemma_hex_digits(bytes: Seq<u8>)
    ensures
        hex_lower(bytes).len() == 2 * bytes.len(),
        forall|i: int|
            0 <= i < hex_lower(bytes).len() ==> is_hex_char(#[trigger] hex_lower(bytes)[i]),
    decreases bytes.len(),
{
    if bytes.len() > 0 {
        lemma_hex_digits(bytes.drop_last());
    }
}

/// The number that bytes write in base 256, the most significant byte first.
pub open spec fn big_endian(bytes: Seq<u8>) -> nat
    decreases bytes.len(),
{
    if bytes.len() == 0 {
        0
    } else {
        256 * big_endian(bytes.drop_last()) + bytes.last() as nat
    }
}

/// The value of a lower-case hexadecimal digit.
pub open spec fn hex_digit(c: char) -> Option<nat> {
    if '0' <= c <= '9' {
        Some((c as nat - 48) as nat)
    } else if 'a' <= c <= 'f' {
        Some((c as nat - 87) as nat)
    } else {
        None
    }
}

/// The number that lower-case hexadecimal digits write, where `s` holds nothing else.
pub open spec fn hex_value(s: Seq<char>) -> Option<nat>
    decreases s.len(),
{
    if s.len() == 0 {
        Some(0)
    } else {
        match (hex_value(s.drop_last()), hex_digit(s.last())) {
            (Some(v), Some(d)) => Some(16 * v + d),
            _ => None,
        }
    }
}

/// The hexadecimal digits of bytes write the same number as the bytes.
proof fn lemma_hex_of_bytes(bytes: Seq<u8>)
    ensures
        hex_value(hex_lower(bytes)) == Some(big_endian(bytes)),
    decreases bytes.len(),
{
    if bytes.len() > 0 {
        let before = bytes.drop_last();
        let high = hex_char((bytes.last() / 16) as nat);
        let low = hex_char((bytes.last() % 16) as nat);
        lemma_hex_of_bytes(before);
        let first = hex_lower(before).push(high);
        assert(first.drop_last() =~= hex_lower(before));
        assert(hex_value(first) == Some(16 * big_endian(before) + (bytes.last() / 16) as nat));
        assert(first.push(low).drop_last() =~= first);
    }
}

/// A longer run of hexadecimal digits writes no smaller number.
proof fn lemma_hex_prefix(s: Seq<char>, i: int)
    requires
        0 <= i <= s.len(),
        hex_value(s) is Some,
    ensures
        hex_value(s.take(i)) is Some,
        hex_value(s.take(i))->0 <= hex_value(s)->0,
    decreases s.len() - i,
{
    if i == s.len() {
        assert(s.take(i) =~= s);
    } else {
        lemma_hex_prefix(s, i + 1);
        assert(s.take(i + 1).drop_last() =~= s.take(i));
    }
}

/// The value of a lower-case hexadecimal digit.
fn read_hex_digit(c: char) -> (r: Option<u128>)
    ensures
        match hex_digit(c) {
            Some(d) => r == Some(d as u128),
            None => r is None,
        },
{
    if '0' <= c && c <= '9' {
        Some((c as u32 - 48) as u128)
    } else if 'a' <= c && c <= 'f' {
        Some((c as u32 - 87) as u128)
    } else {
        None
    }
}

/// Reads a number that is written in lower-case hexadecimal digits and fits 128 bits.
fn read_hex(s: &str) -> (r: u128)
    requires
        hex_value(s@) is Some,
        hex_value(s@)->0 <= u128::MAX,
    ensures
        r == hex_value(s@)->0,
{
    let chars = chars_of(s);
    let mut value: u128 = 0;
    let mut i: usize = 0;
    assert(s@.take(0) =~= Seq::<char>::empty());
    while i < chars.len()
        invariant
            i <= chars.len(),
            chars@ == s@,
            hex_value(s@) is Some,
            hex_value(s@)->0 <= u128::MAX,
            hex_value(s@.take(i as int)) == Some(value as nat),
        decreases chars.len() - i,
    {
        proof {
            lemma_hex_prefix(s@, i + 1);
            assert(s@.take(i + 1).drop_last() =~= s@.take(i as int));
            assert(s@.take(i + 1).last() == s@[i as int]);
        }
        match read_hex_digit(chars[i]) {
            Some(d) => {
                value = 16 * value + d;
            },
            None => {},
        }
        i = i + 1;
    }
    assert(s@.take(i as int) =~= s@);
    value
}

/// 256 to the power of `n`.
pub open spec fn power_of_256(n: nat) -> nat
    decreases n,
{
    if n == 0 {
        1
    } else {
        256 * power_of_256((n - 1) as nat)
    }
}

/// What `n` bytes write is below 256 to the power of `n`.
proof fn lemma_big_endian_bound(bytes: Seq<u8>)
    ensures
        big_endian(bytes) < power_of_256(bytes.len()),
    decreases bytes.len(),
{
    if bytes.len() > 0 {
        lemma_big_endian_bound(bytes.drop_last());
    }
}

/// Sixteen bytes write a number of 128 bits.
pub proof fn lemma_sixteen_bytes(bytes: Seq<u8>)
    requires
        bytes.len() == 16,
    ensures
        big_endian(bytes) <= u128::MAX,
{
    lemma_big_endian_bound(bytes);
    reveal_with_fuel(power_of_256, 17);
}

/// Equally many bytes that write the same number are the same bytes.
pub proof fn lemma_big_endian_injective(a: Seq<u8>, b: Seq<u8>)
    requires
        a.len() == b.len(),
        big_endian(a) == big_endian(b),
    ensures
        a == b,
    decreases a.len(),
{
    if a.len() > 0 {
        lemma_big_endian_injective(a.drop_last(), b.drop_last());
        assert(a =~= a.drop_last().push(a.last()));
        assert(b =~= b.drop_last().push(b.last()));
    } else {
        assert(a =~= b);
    }
}

/// The number that sixteen bytes write, through their hexadecimal digits.
pub fn read_sixteen_bytes(bytes: &[u8]) -> (r: u128)
    requires
        bytes@.len() == 16,
    ensures
        r == big_endian(bytes@),
{
    let digits = hex_encode(bytes);
    proof {
        lemma_hex_of_bytes(bytes@);
        lemma_sixteen_bytes(bytes@);
    }
    read_hex(digits.as_str())
}

/// A decimal numeral is read back as the number that it was written for.
pub proof fn law_decimal_read_back(n: nat)
    ensures
        decimal(n).len() > 0,
        digits_value(decimal(n)) == Some(n),
    decreases n,
{
    if n < 10 {
        let s = seq![digit_char(n)];
        assert(s.drop_last() =~= Seq::<char>::empty());
        assert(digits_value(s.drop_last()) == Some(0nat));
    } else {
        law_decimal_read_back(n / 10);
        let s = decimal(n / 10).push(digit_char(n % 10));
        assert(s.drop_last() =~= decimal(n / 10));
    }
}

/// A text writes a number without a sign exactly where each of its characters is a digit, and a
/// digit behind it makes the number ten times as large and adds the digit.
pub proof fn law_digits(s: Seq<char>, d: nat)
    requires
        d < 10,
    ensures
        digits_value(s) is Some <==> forall|i: int| 0 <= i < s.len() ==> '0' <= #[trigger] s[i] <= '9',
        digits_value(s) matches Some(v) ==> digits_value(s.push((48 + d) as char)) == Some(
            (10 * v + d) as nat,
        ),
    decreases s.len(),
{
    let longer = s.push((48 + d) as char);
    assert(longer.drop_last() =~= s);
    if s.len() > 0 {
        law_digits(s.drop_last(), d);
        if forall|i: int| 0 <= i < s.len() ==> '0' <= #[trigger] s[i] <= '9' {
            assert('0' <= s[s.len() - 1] <= '9');
            assert forall|i: int| 0 <= i < s.drop_last().len() implies '0' <= #[trigger] s.drop_last()[i] <= '9' by {
                assert(s.drop_last()[i] == s[i]);
            }
        }
        if digits_value(s) is Some {
            assert forall|i: int| 0 <= i < s.len() implies '0' <= #[trigger] s[i] <= '9' by {
                if i < s.len() - 1 {
                    assert(s[i] == s.drop_last()[i]);
                }
            }
        }
    }
}

/// The numeral of a number is read back as that number, with and without a plus sign, and the
/// numeral of a negative number with its minus sign.
pub proof fn law_numerals_read_back(n: nat)
    ensures
        natural(decimal(n)) == Some(n),
        natural(seq!['+'] + decimal(n)) == Some(n),
        integer(signed_decimal(n as int)) == Some(n as int),
        integer(signed_decimal(-(n as int))) == Some(-(n as int)),
        integer(seq!['+'] + decimal(n)) == Some(n as int),
{
    law_decimal_read_back(n);
    law_digits(decimal(n), 0);
    assert('0' <= decimal(n)[0] <= '9');
    let plus = seq!['+'] + decimal(n);
    let minus = seq!['-'] + decimal(n);
    assert(plus.drop_first() =~= decimal(n));
    assert(minus.drop_first() =~= decimal(n));
}

/// A text is read as a number only where it is digits, at least one, behind at most one sign; a
/// number without a sign in front is never negative.
pub proof fn law_only_numerals_are_read(s: Seq<char>)
    ensures
        natural(s) is Some ==> s.len() > 0 && (s[0] == '+' || '0' <= s[0] <= '9') && '0' <= s.last()
            <= '9',
        natural(s) is Some ==> forall|i: int| 1 <= i < s.len() ==> '0' <= #[trigger] s[i] <= '9',
        integer(s) is Some ==> s.len() > 0 && (s[0] == '+' || s[0] == '-' || '0' <= s[0] <= '9')
            && '0' <= s.last() <= '9',
        integer(s) is Some ==> forall|i: int| 1 <= i < s.len() ==> '0' <= #[trigger] s[i] <= '9',
        integer(s) matches Some(v) ==> (v < 0 ==> s[0] == '-'),
{
    law_digits(s, 0);
    if s.len() > 0 {
        let rest = s.drop_first();
        law_digits(rest, 0);
        assert forall|i: int|
            1 <= i < s.len() && (natural(s) is Some || integer(s) is Some) implies '0'
            <= #[trigger] s[i] <= '9' by {
            assert(s[i] == rest[i - 1]);
        }
    }
}

/// The digits of bytes are those of the first bytes and then those of the others, and the two
/// digits of a byte write its value.
pub proof fn law_hex_digits_of_bytes(a: Seq<u8>, b: Seq<u8>)
    ensures
        hex_lower(a + b) == hex_lower(a) + hex_lower(b),
        a.len() == 1 ==> hex_lower(a).len() == 2 && hex_value(hex_lower(a)) == Some(a[0] as nat),
    decreases b.len(),
{
    if b.len() == 0 {
        assert(a + b =~= a);
        assert(hex_lower(a) + hex_lower(b) =~= hex_lower(a));
    } else {
        law_hex_digits_of_bytes(a, b.drop_last());
        assert((a + b).drop_last() =~= a + b.drop_last());
        assert((a + b).last() == b.last());
        assert(hex_lower(a + b) =~= hex_lower(a) + hex_lower(b));
    }
    if a.len() == 1 {
        lemma_hex_digits(a);
        lemma_hex_of_bytes(a);
        assert(a.drop_last() =~= Seq::<u8>::empty());
        assert(big_endian(a.drop_last()) == 0);
    }
}

/// What the most significant of some bytes adds to their number.
pub proof fn law_first_byte_weighs_most(first: u8, rest: Seq<u8>)
    ensures
        big_endian(seq![first] + rest) == first as nat * power_of_256(rest.len()) + big_endian(rest),
        big_endian(rest) < power_of_256(rest.len()),
    decreases rest.len(),
{
    lemma_big_endian_bound(rest);
    let all = seq![first] + rest;
    if rest.len() == 0 {
        assert(all.drop_last() =~= Seq::<u8>::empty());
        assert(big_endian(all.drop_last()) == 0);
        assert(all.last() == first);
        assert(first as nat * power_of_256(0) == first as nat) by (nonlinear_arith)
            requires
                power_of_256(0) == 1,
        ;
    } else {
        law_first_byte_weighs_most(first, rest.drop_last());
        assert(all.drop_last() =~= seq![first] + rest.drop_last());
        assert(all.last() == rest.last());
        let p = power_of_256((rest.len() - 1) as nat);
        assert(power_of_256(rest.len()) == 256 * p);
        assert(256 * (first as nat * p) == first as nat * (256 * p)) by (nonlinear_arith);
        let v = big_endian(rest.drop_last());
        assert(256 * (first as nat * p + v) == 256 * (first as nat * p) + 256 * v)
            by (nonlinear_arith);
    }
}

/// Bytes that are written in the same hexadecimal digits are the same.
pub proof fn law_hex_digits_tell_bytes_apart(a: Seq<u8>, b: Seq<u8>)
    requires
        hex_lower(a) == hex_lower(b),
    ensures
        a == b,
{
    lemma_hex_digits(a);
    lemma_hex_digits(b);
    lemma_hex_of_bytes(a);
    lemma_hex_of_bytes(b);
    lemma_big_endian_injective(a, b);
}

/// A numeral has no leading zero, but for the numeral of zero itself; so a number has one numeral.
pub proof fn law_no_leading_zero(n: nat)
    ensures
        decimal(n).len() > 0,
        n > 0 ==> decimal(n)[0] != '0',
        n == 0 ==> decimal(n) == seq!['0'],
        n > 0 ==> signed_decimal(-(n as int)) == seq!['-'] + decimal(n),
    decreases n,
{
    if n >= 10 {
        law_no_leading_zero(n / 10);
        assert(decimal(n)[0] == decimal(n / 10)[0]);
    }
}

} // verus!
