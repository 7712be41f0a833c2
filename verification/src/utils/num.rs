//! Decimal integers: parsing with the semantics of `str::parse` for `u32`
//! and `i32`, and decimal rendering with and without zero padding.

use vstd::prelude::*;

verus! {

/// Why a decimal integer could not be parsed (the kinds of `std::num::ParseIntError`
/// that a decimal parse of `u32` or `i32` can produce).
#[derive(Debug, Clone, Copy, PartialEq, Eq, Structural)]
pub enum IntErrorKind {
    Empty,
    InvalidDigit,
    PosOverflow,
    NegOverflow,
}

pub open spec fn is_ascii_digit(c: char) -> bool {
    '0' <= c && c <= '9'
}

pub open spec fn digit_value(c: char) -> int {
    c as int - '0' as int
}

/// Reads the digits `d[i..]` onto the magnitude `acc`, from left to right. At each
/// position a character that is not a digit gives `InvalidDigit`; otherwise a
/// magnitude beyond `bound` gives an overflow (`NegOverflow` when the number
/// carries a minus sign, else `PosOverflow`).
pub open spec fn scan_digits(d: Seq<char>, i: int, acc: int, bound: int, negative: bool) -> Result<
    int,
    IntErrorKind,
>
    decreases d.len() - i,
{
    if i >= d.len() {
        Ok(acc)
    } else if !is_ascii_digit(d[i]) {
        Err(IntErrorKind::InvalidDigit)
    } else if acc * 10 + digit_value(d[i]) > bound {
        Err(if negative { IntErrorKind::NegOverflow } else { IntErrorKind::PosOverflow })
    } else {
        scan_digits(d, i + 1, acc * 10 + digit_value(d[i]), bound, negative)
    }
}

/// The result of parsing `s` as a decimal integer in `[-max_neg, max_pos]`: an
/// optional `+` (or `-` when `signed`) followed by at least one digit.
pub open spec fn spec_parse_int(s: Seq<char>, signed: bool, max_pos: int, max_neg: int) -> Result<
    int,
    IntErrorKind,
> {
    if s.len() == 0 {
        Err(IntErrorKind::Empty)
    } else if (s[0] == '+' || s[0] == '-') && s.len() == 1 {
        Err(IntErrorKind::InvalidDigit)
    } else if s[0] == '+' {
        scan_digits(s, 1, 0, max_pos, false)
    } else if s[0] == '-' && signed {
        match scan_digits(s, 1, 0, max_neg, true) {
            Ok(m) => Ok(-m),
            Err(e) => Err(e),
        }
    } else {
        scan_digits(s, 0, 0, max_pos, false)
    }
}

/// What `s.parse::<u32>()` returns, with the error reduced to its kind.
pub open spec fn spec_parse_u32(s: Seq<char>) -> Result<int, IntErrorKind> {
    spec_parse_int(s, false, u32::MAX as int, 0)
}

/// What `s.parse::<i32>()` returns, with the error reduced to its kind.
pub open spec fn spec_parse_i32(s: Seq<char>) -> Result<int, IntErrorKind> {
    spec_parse_int(s, true, i32::MAX as int, 0x8000_0000)
}

/// The decimal digits of `n`, most significant first, without leading zeros.
pub open spec fn decimal(n: nat) -> Seq<char>
    decreases n,
{
    if n < 10 {
        seq![digit_char(n)]
    } else {
        decimal(n / 10).push(digit_char(n % 10))
    }
}

pub open spec fn digit_char(n: nat) -> char {
    (n + '0' as nat) as char
}

/// The decimal text of a signed integer, as `Display` prints it.
pub open spec fn signed_decimal(n: int) -> Seq<char> {
    if n < 0 {
        seq!['-'] + decimal((-n) as nat)
    } else {
        decimal(n as nat)
    }
}

/// `digits` left-padded with zeros to at least `width` characters (`{:0width$}`).
pub open spec fn zero_pad(digits: Seq<char>, width: nat) -> Seq<char> {
    if digits.len() >= width {
        digits
    } else {
        Seq::new((width - digits.len()) as nat, |i: int| '0') + digits
    }
}

/// The message of a `std::num::ParseIntError` of this kind.
pub open spec fn int_error_text(kind: IntErrorKind) -> Seq<char> {
    match kind {
        IntErrorKind::Empty => "cannot parse integer from empty string"@,
        IntErrorKind::InvalidDigit => "invalid digit found in string"@,
        IntErrorKind::PosOverflow => "number too large to fit in target type"@,
        IntErrorKind::NegOverflow => "number too small to fit in target type"@,
    }
}

/// Reads the digits `d[start..]` as a magnitude of at most `bound`, with the
/// error that `scan_digits` names.
fn scan_magnitude(d: &Vec<char>, start: usize, bound: u64, negative: bool) -> (r: Result<
    u64,
    IntErrorKind,
>)
    requires
        start <= d@.len(),
        bound <= 0x1_0000_0000,
    ensures
        match r {
            Ok(m) => scan_digits(d@, start as int, 0, bound as int, negative) == Ok::<
                int,
                IntErrorKind,
            >(m as int) && m <= bound,
            Err(e) => scan_digits(d@, start as int, 0, bound as int, negative) == Err::<
                int,
                IntErrorKind,
            >(e),
        },
{
    let mut i = start;
    let mut acc: u64 = 0;
    while i < d.len()
        invariant
            start <= i <= d@.len(),
            acc <= bound,
            bound <= 0x1_0000_0000,
            scan_digits(d@, start as int, 0, bound as int, negative) == scan_digits(
                d@,
                i as int,
                acc as int,
                bound as int,
                negative,
            ),
        decreases d@.len() - i,
    {
        let c = d[i];
        if !('0' <= c && c <= '9') {
            return Err(IntErrorKind::InvalidDigit);
        }
        let v = (c as u32 - '0' as u32) as u64;
        assert(v as int == digit_value(c));
        if acc * 10 + v > bound {
            return Err(if negative { IntErrorKind::NegOverflow } else { IntErrorKind::PosOverflow });
        }
        acc = acc * 10 + v;
        i = i + 1;
    }
    Ok(acc)
}

/// Parses `s` as `s.parse::<u32>()` does.
pub fn parse_u32(s: &str) -> (r: Result<u32, IntErrorKind>)
    ensures
        match r {
            Ok(n) => spec_parse_u32(s@) == Ok::<int, IntErrorKind>(n as int),
            Err(e) => spec_parse_u32(s@) == Err::<int, IntErrorKind>(e),
        },
{
    let d = crate::utils::chars::str_to_chars(s);
    if d.len() == 0 {
        return Err(IntErrorKind::Empty);
    }
    if (d[0] == '+' || d[0] == '-') && d.len() == 1 {
        return Err(IntErrorKind::InvalidDigit);
    }
    let start: usize = if d[0] == '+' { 1 } else { 0 };
    match scan_magnitude(&d, start, 0xffff_ffff, false) {
        Ok(m) => Ok(m as u32),
        Err(e) => Err(e),
    }
}

/// Parses `s` as `s.parse::<i32>()` does.
pub fn parse_i32(s: &str) -> (r: Result<i32, IntErrorKind>)
    ensures
        match r {
            Ok(n) => spec_parse_i32(s@) == Ok::<int, IntErrorKind>(n as int),
            Err(e) => spec_parse_i32(s@) == Err::<int, IntErrorKind>(e),
        },
{
    let d = crate::utils::chars::str_to_chars(s);
    if d.len() == 0 {
        return Err(IntErrorKind::Empty);
    }
    if (d[0] == '+' || d[0] == '-') && d.len() == 1 {
        return Err(IntErrorKind::InvalidDigit);
    }
    if d[0] == '-' {
        match scan_magnitude(&d, 1, 0x8000_0000, true) {
            Ok(m) => {
                let n: i64 = 0i64 - (m as i64);
                Ok(n as i32)
            },
            Err(e) => Err(e),
        }
    } else {
        let start: usize = if d[0] == '+' { 1 } else { 0 };
        match scan_magnitude(&d, start, 0x7fff_ffff, false) {
            Ok(m) => Ok(m as i32),
            Err(e) => Err(e),
        }
    }
}

/// The message that `ParseIntError`'s `Display` prints for this kind.
pub fn int_error_message(kind: IntErrorKind) -> (s: String)
    ensures
        s@ == int_error_text(kind),
{
    let text: &str = match kind {
        IntErrorKind::Empty => "cannot parse integer from empty string",
        IntErrorKind::InvalidDigit => "invalid digit found in string",
        IntErrorKind::PosOverflow => "number too large to fit in target type",
        IntErrorKind::NegOverflow => "number too small to fit in target type",
    };
    text.to_string()
}

/// Appends the decimal digits of `n` to `out`.
pub fn push_decimal(out: &mut Vec<char>, n: u64)
    ensures
        final(out)@ == old(out)@ + decimal(n as nat),
    decreases n,
{
    if n >= 10 {
        push_decimal(out, n / 10);
    }
    let c = ((n % 10) as u8 + 48u8) as char;
    assert(c == digit_char((n % 10) as nat));
    out.push(c);
    proof {
        if n >= 10 {
            assert(decimal(n as nat) == decimal((n / 10) as nat).push(digit_char((n % 10) as nat)));
        } else {
            assert(decimal(n as nat) == seq![digit_char(n as nat)]);
        }
    }
}

/// Appends the decimal digits of `n` to `out`, left-padded with zeros to `width`.
pub fn push_zero_padded(out: &mut Vec<char>, n: u64, width: usize)
    ensures
        final(out)@ == old(out)@ + zero_pad(decimal(n as nat), width as nat),
{
    let mut digits: Vec<char> = Vec::new();
    push_decimal(&mut digits, n);
    assert(digits@ =~= decimal(n as nat));
    let ghost start = out@;
    if digits.len() < width {
        let pad = width - digits.len();
        let mut i: usize = 0;
        while i < pad
            invariant
                i <= pad,
                out@ == start + Seq::new(i as nat, |k: int| '0'),
            decreases pad - i,
        {
            out.push('0');
            i = i + 1;
            assert(out@ =~= start + Seq::new(i as nat, |k: int| '0'));
        }
    }
    crate::utils::chars::push_chars(out, digits.as_slice());
    assert(out@ =~= start + zero_pad(decimal(n as nat), width as nat));
}

/// The decimal text of `n`, as `n.to_string()` gives it.
pub fn i64_to_decimal(n: i64) -> (s: String)
    ensures
        s@ == signed_decimal(n as int),
{
    let mut out: Vec<char> = Vec::new();
    if n < 0 {
        out.push('-');
        let m: u64 = if n == i64::MIN {
            0x8000_0000_0000_0000u64
        } else {
            (0i64 - n) as u64
        };
        push_decimal(&mut out, m);
    } else {
        push_decimal(&mut out, n as u64);
    }
    assert(out@ =~= signed_decimal(n as int));
    crate::utils::chars::chars_to_string(out.as_slice())
}

/// Every character of `s` is a decimal digit.
pub open spec fn all_digits(s: Seq<char>) -> bool {
    forall|i: int| 0 <= i < s.len() ==> is_ascii_digit(#[trigger] s[i])
}

/// The value of a sequence of decimal digits.
pub open spec fn digits_value(s: Seq<char>) -> int
    decreases s.len(),
{
    if s.len() == 0 {
        0
    } else {
        digits_value(s.drop_last()) * 10 + digit_value(s.last())
    }
}

proof fn lemma_digits_value_take(s: Seq<char>, i: int)
    requires
        0 <= i < s.len(),
    ensures
        digits_value(s.take(i + 1)) == digits_value(s.take(i)) * 10 + digit_value(s[i]),
{
    assert(s.take(i + 1).drop_last() =~= s.take(i));
}

proof fn lemma_digits_value_monotone(s: Seq<char>, i: int)
    requires
        all_digits(s),
        0 <= i <= s.len(),
    ensures
        0 <= digits_value(s.take(i)) <= digits_value(s),
    decreases s.len() - i,
{
    if i == s.len() {
        assert(s.take(i) =~= s);
        lemma_digits_value_nonnegative(s);
    } else {
        lemma_digits_value_take(s, i);
        lemma_digits_value_monotone(s, i + 1);
        lemma_digits_value_nonnegative(s.take(i));
    }
}

proof fn lemma_digits_value_nonnegative(s: Seq<char>)
    requires
        all_digits(s),
    ensures
        digits_value(s) >= 0,
    decreases s.len(),
{
    if s.len() > 0 {
        lemma_digits_value_nonnegative(s.drop_last());
    }
}

/// Scanning a digit sequence gives its value, or an overflow when the value
/// is beyond the bound.
proof fn lemma_scan_all_digits(s: Seq<char>, i: int, bound: int, negative: bool)
    requires
        all_digits(s),
        0 <= i <= s.len(),
        digits_value(s.take(i)) <= bound,
    ensures
        scan_digits(s, i, digits_value(s.take(i)), bound, negative) == (if digits_value(s) <= bound {
            Ok::<int, IntErrorKind>(digits_value(s))
        } else {
            Err(if negative { IntErrorKind::NegOverflow } else { IntErrorKind::PosOverflow })
        }),
    decreases s.len() - i,
{
    if i == s.len() {
        assert(s.take(i) =~= s);
    } else {
        lemma_digits_value_take(s, i);
        lemma_digits_value_monotone(s, i + 1);
        if digits_value(s.take(i + 1)) <= bound {
            lemma_scan_all_digits(s, i + 1, bound, negative);
        }
    }
}

proof fn lemma_decimal_digits(n: nat)
    ensures
        all_digits(decimal(n)),
        digits_value(decimal(n)) == n,
        decimal(n).len() >= 1,
    decreases n,
{
    if n >= 10 {
        lemma_decimal_digits(n / 10);
        let d = decimal(n);
        assert(d.drop_last() =~= decimal(n / 10));
        assert(d.last() == digit_char(n % 10));
        assert(digit_value(digit_char(n % 10)) == n % 10);
        assert(digits_value(d) == digits_value(d.drop_last()) * 10 + digit_value(d.last()));
        assert(digits_value(d.drop_last()) == n / 10);
        assert((n / 10) * 10 + n % 10 == n) by (nonlinear_arith);
    } else {
        let d = decimal(n);
        assert(d.drop_last() =~= Seq::<char>::empty());
        assert(digit_value(digit_char(n)) == n);
        assert(digits_value(d) == digits_value(d.drop_last()) * 10 + digit_value(d.last()));
    }
}

proof fn lemma_leading_zeros(k: nat, t: Seq<char>)
    ensures
        digits_value(Seq::new(k, |i: int| '0') + t) == digits_value(t),
    decreases t.len(), k,
{
    let z = Seq::new(k, |i: int| '0');
    if t.len() == 0 {
        assert(z + t =~= z);
        if k > 0 {
            assert(z.drop_last() =~= Seq::new((k - 1) as nat, |i: int| '0'));
            lemma_leading_zeros((k - 1) as nat, t);
            assert(Seq::new((k - 1) as nat, |i: int| '0') + t =~= Seq::new(
                (k - 1) as nat,
                |i: int| '0',
            ));
        }
    } else {
        assert((z + t).drop_last() =~= z + t.drop_last());
        assert((z + t).last() == t.last());
        lemma_leading_zeros(k, t.drop_last());
    }
}

/// The number of decimal digits of numbers below 10, 100, 1000 and 10000.
pub proof fn lemma_decimal_len(n: nat)
    ensures
        decimal(n).len() >= 1,
        n < 10 ==> decimal(n).len() == 1,
        n < 100 ==> decimal(n).len() <= 2,
        n < 1000 ==> decimal(n).len() <= 3,
        n < 10000 ==> decimal(n).len() <= 4,
    decreases n,
{
    if n >= 10 {
        lemma_decimal_len(n / 10);
    }
}

/// A number written in decimal and left-padded with zeros consists of digits only.
pub proof fn lemma_zero_padded_digits(n: nat, width: nat)
    ensures
        all_digits(zero_pad(decimal(n), width)),
{
    lemma_decimal_digits(n);
}

/// A number written in decimal, with any number of leading zeros, reads back
/// as itself when it fits a `u32`.
pub proof fn lemma_parse_u32_zero_padded(n: nat, width: nat)
    requires
        n <= u32::MAX,
    ensures
        spec_parse_u32(zero_pad(decimal(n), width)) == Ok::<int, IntErrorKind>(n as int),
{
    let d = decimal(n);
    lemma_decimal_digits(n);
    let s = zero_pad(d, width);
    if d.len() < width {
        lemma_leading_zeros((width - d.len()) as nat, d);
    }
    assert(all_digits(s));
    assert(digits_value(s) == n);
    assert(s.take(0) =~= Seq::<char>::empty());
    lemma_scan_all_digits(s, 0, u32::MAX as int, false);
    assert(is_ascii_digit(s[0]));
}

/// A signed number written in decimal reads back as itself when it fits an `i32`.
pub proof fn lemma_parse_i32_decimal(n: int)
    requires
        i32::MIN <= n <= i32::MAX,
    ensures
        spec_parse_i32(signed_decimal(n)) == Ok::<int, IntErrorKind>(n),
{
    if n < 0 {
        let m = (-n) as nat;
        let d = decimal(m);
        lemma_decimal_digits(m);
        let s = seq!['-'] + d;
        assert(signed_decimal(n) == s);
        let t = s;
        assert(forall|i: int| 1 <= i < t.len() ==> t[i] == d[i - 1]);
        // scanning from position 1 of `s` is scanning `d`
        lemma_scan_shift(d, 0, 0, 0x8000_0000, true);
        assert(d.take(0) =~= Seq::<char>::empty());
        lemma_scan_all_digits(d, 0, 0x8000_0000, true);
    } else {
        let d = decimal(n as nat);
        lemma_decimal_digits(n as nat);
        assert(d.take(0) =~= Seq::<char>::empty());
        lemma_scan_all_digits(d, 0, i32::MAX as int, false);
        assert(is_ascii_digit(d[0]));
    }
}

proof fn lemma_scan_shift(d: Seq<char>, i: int, acc: int, bound: int, negative: bool)
    requires
        0 <= i <= d.len(),
    ensures
        scan_digits(seq!['-'] + d, i + 1, acc, bound, negative) == scan_digits(d, i, acc, bound, negative),
    decreases d.len() - i,
{
    let s = seq!['-'] + d;
    if i < d.len() {
        assert(s[i + 1] == d[i]);
        lemma_scan_shift(d, i + 1, acc * 10 + digit_value(d[i]), bound, negative);
    }
}

} // verus!
