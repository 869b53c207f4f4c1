//! Decimal and hexadecimal numerals.

use vstd::prelude::*;

use crate::text;

verus! {

/// Why a numeral was refused.
#[derive(Debug, Clone, Copy, PartialEq, Eq, Structural)]
pub enum NumeralError {
    Empty,
    InvalidDigit,
    TooLarge,
    TooSmall,
}

impl NumeralError {
    /// What the error says.
    pub open spec fn text(self) -> Seq<char> {
        match self {
            NumeralError::Empty => "cannot parse integer from empty string"@,
            NumeralError::InvalidDigit => "invalid digit found in string"@,
            NumeralError::TooLarge => "number too large to fit in target type"@,
            NumeralError::TooSmall => "number too small to fit in target type"@,
        }
    }

    /// What the error says.
    pub fn message(&self) -> (r: String)
        ensures
            r@ == self.text(),
    {
        match self {
            NumeralError::Empty => "cannot parse integer from empty string".to_string(),
            NumeralError::InvalidDigit => "invalid digit found in string".to_string(),
            NumeralError::TooLarge => "number too large to fit in target type".to_string(),
            NumeralError::TooSmall => "number too small to fit in target type".to_string(),
        }
    }
}

/// The numeral of one decimal digit.
pub open spec fn digit_char(d: nat) -> char {
    (0x30 + d) as u32 as char
}

/// The decimal numeral of a natural number, without leading zeros.
pub open spec fn decimal(n: nat) -> Seq<char>
    decreases n,
{
    if n < 10 {
        seq![digit_char(n)]
    } else {
        decimal(n / 10).push(digit_char(n % 10))
    }
}

/// The decimal numeral of an integer.
pub open spec fn signed_decimal(n: int) -> Seq<char> {
    if n < 0 {
        seq!['-'] + decimal((-n) as nat)
    } else {
        decimal(n as nat)
    }
}

/// A decimal numeral of exactly three digits.
pub open spec fn three_digits(n: nat) -> Seq<char> {
    seq![digit_char(n / 100), digit_char(n / 10 % 10), digit_char(n % 10)]
}

fn digit(d: u64) -> (c: char)
    requires
        d < 10,
    ensures
        c == digit_char(d as nat),
{
    (0x30u8 + d as u8) as char
}

fn decimal_chars(n: u64) -> (r: Vec<char>)
    ensures
        r@ == decimal(n as nat),
    decreases n,
{
    if n < 10 {
        let mut out: Vec<char> = Vec::new();
        out.push(digit(n));
        assert(out@ =~= seq![digit_char(n as nat)]);
        out
    } else {
        let mut out = decimal_chars(n / 10);
        out.push(digit(n % 10));
        out
    }
}

/// The decimal numeral of `n`.
pub fn decimal_text(n: u64) -> (r: String)
    ensures
        r@ == decimal(n as nat),
{
    text::string_of(&decimal_chars(n))
}

/// The decimal numeral of `n`, with a sign where it is negative.
pub fn signed_decimal_text(n: i64) -> (r: String)
    ensures
        r@ == signed_decimal(n as int),
{
    if n < 0 {
        let magnitude: u64 = if n == i64::MIN {
            0x8000_0000_0000_0000u64
        } else {
            (-n) as u64
        };
        let mut out: Vec<char> = Vec::new();
        out.push('-');
        text::extend_chars(&mut out, &decimal_chars(magnitude));
        assert(out@ =~= seq!['-'] + decimal((-n) as nat));
        text::string_of(&out)
    } else {
        decimal_text(n as u64)
    }
}

/// The numeral of `n` with three digits.
pub fn three_digit_text(n: u64) -> (r: String)
    requires
        n < 1000,
    ensures
        r@ == three_digits(n as nat),
{
    let mut out: Vec<char> = Vec::new();
    out.push(digit(n / 100));
    out.push(digit(n / 10 % 10));
    out.push(digit(n % 10));
    assert(out@ =~= three_digits(n as nat));
    text::string_of(&out)
}

/// A decimal digit.
pub open spec fn is_digit(c: char) -> bool {
    '0' <= c <= '9'
}

/// The value of a decimal digit.
pub open spec fn digit_value(c: char) -> nat {
    (c as u32 - 0x30) as nat
}

/// Reads digits from the left onto `acc`; the first digit that is none or that leads past `max` decides.
pub open spec fn scan_digits(s: Seq<char>, acc: nat, max: nat, over: NumeralError) -> Result<
    nat,
    NumeralError,
>
    decreases s.len(),
{
    if s.len() == 0 {
        Ok(acc)
    } else if !is_digit(s[0]) {
        Err(NumeralError::InvalidDigit)
    } else if acc * 10 + digit_value(s[0]) > max {
        Err(over)
    } else {
        scan_digits(s.skip(1), acc * 10 + digit_value(s[0]), max, over)
    }
}

/// The natural number up to `max` that a numeral stands for; one leading `+` is allowed.
pub open spec fn unsigned_value(s: Seq<char>, max: nat) -> Result<nat, NumeralError> {
    if s.len() == 0 {
        Err(NumeralError::Empty)
    } else if s[0] == '+' && s.len() > 1 {
        scan_digits(s.skip(1), 0, max, NumeralError::TooLarge)
    } else {
        scan_digits(s, 0, max, NumeralError::TooLarge)
    }
}

/// The integer between `min` and `max` that a numeral stands for; one leading sign is allowed.
pub open spec fn signed_value(s: Seq<char>, min: int, max: int) -> Result<int, NumeralError> {
    if s.len() == 0 {
        Err(NumeralError::Empty)
    } else if s[0] == '-' && s.len() > 1 {
        match scan_digits(s.skip(1), 0, (-min) as nat, NumeralError::TooSmall) {
            Ok(v) => Ok(-(v as int)),
            Err(e) => Err(e),
        }
    } else if s[0] == '+' && s.len() > 1 {
        match scan_digits(s.skip(1), 0, max as nat, NumeralError::TooLarge) {
            Ok(v) => Ok(v as int),
            Err(e) => Err(e),
        }
    } else {
        match scan_digits(s, 0, max as nat, NumeralError::TooLarge) {
            Ok(v) => Ok(v as int),
            Err(e) => Err(e),
        }
    }
}

fn scan(chars: &Vec<char>, from: usize, max: u64, over: NumeralError) -> (r: Result<
    u64,
    NumeralError,
>)
    requires
        from <= chars.len(),
    ensures
        match r {
            Ok(v) => scan_digits(chars@.skip(from as int), 0, max as nat, over) == Ok::<
                nat,
                NumeralError,
            >(v as nat),
            Err(e) => scan_digits(chars@.skip(from as int), 0, max as nat, over) == Err::<
                nat,
                NumeralError,
            >(e),
        },
{
    let mut acc: u64 = 0;
    let mut i: usize = from;
    while i < chars.len()
        invariant
            from <= i <= chars.len(),
            scan_digits(chars@.skip(from as int), 0, max as nat, over) == scan_digits(
                chars@.skip(i as int),
                acc as nat,
                max as nat,
                over,
            ),
        decreases chars.len() - i,
    {
        let c = chars[i];
        let ghost rest = chars@.skip(i as int);
        assert(rest[0] == c);
        if !('0' <= c && c <= '9') {
            return Err(NumeralError::InvalidDigit);
        }
        let value: u128 = (acc as u128) * 10 + ((c as u32 - 0x30) as u128);
        if value > max as u128 {
            return Err(over);
        }
        acc = value as u64;
        i = i + 1;
        assert(rest.skip(1) =~= chars@.skip(i as int));
    }
    Ok(acc)
}

/// Reads an unsigned numeral of at most `max`.
pub fn parse_unsigned(s: &str, max: u64) -> (r: Result<u64, NumeralError>)
    ensures
        match r {
            Ok(v) => unsigned_value(s@, max as nat) == Ok::<nat, NumeralError>(v as nat),
            Err(e) => unsigned_value(s@, max as nat) == Err::<nat, NumeralError>(e),
        },
        r matches Ok(v) ==> v <= max,
{
    let chars = text::chars_of(s);
    if chars.len() == 0 {
        return Err(NumeralError::Empty);
    }
    let from: usize = if chars[0] == '+' && chars.len() > 1 {
        1
    } else {
        0
    };
    assert(chars@.skip(0) =~= chars@);
    proof {
        lemma_scan_bound(chars@.skip(from as int), 0, max as nat, NumeralError::TooLarge);
    }
    scan(&chars, from, max, NumeralError::TooLarge)
}

proof fn lemma_scan_bound(s: Seq<char>, acc: nat, max: nat, over: NumeralError)
    requires
        acc <= max,
    ensures
        scan_digits(s, acc, max, over) matches Ok(v) ==> v <= max,
    decreases s.len(),
{
    if s.len() > 0 && is_digit(s[0]) && acc * 10 + digit_value(s[0]) <= max {
        lemma_scan_bound(s.skip(1), acc * 10 + digit_value(s[0]), max, over);
    }
}

/// Reads a signed 32-bit numeral.
pub fn parse_i32(s: &str) -> (r: Result<i32, NumeralError>)
    ensures
        match r {
            Ok(v) => signed_value(s@, i32::MIN as int, i32::MAX as int) == Ok::<int, NumeralError>(
                v as int,
            ),
            Err(e) => signed_value(s@, i32::MIN as int, i32::MAX as int) == Err::<
                int,
                NumeralError,
            >(e),
        },
{
    let chars = text::chars_of(s);
    if chars.len() == 0 {
        return Err(NumeralError::Empty);
    }
    assert(chars@.skip(0) =~= chars@);
    if chars[0] == '-' && chars.len() > 1 {
        proof {
            lemma_scan_bound(chars@.skip(1), 0, 0x8000_0000, NumeralError::TooSmall);
        }
        match scan(&chars, 1, 0x8000_0000, NumeralError::TooSmall) {
            Ok(v) => Ok((-(v as i64)) as i32),
            Err(e) => Err(e),
        }
    } else {
        let from: usize = if chars[0] == '+' && chars.len() > 1 {
            1
        } else {
            0
        };
        proof {
            lemma_scan_bound(chars@.skip(from as int), 0, 0x7fff_ffff, NumeralError::TooLarge);
        }
        match scan(&chars, from, 0x7fff_ffff, NumeralError::TooLarge) {
            Ok(v) => Ok(v as i32),
            Err(e) => Err(e),
        }
    }
}

proof fn lemma_decimal_digits(n: nat)
    ensures
        decimal(n).len() > 0,
        forall|i: int| 0 <= i < decimal(n).len() ==> is_digit(#[trigger] decimal(n)[i]),
    decreases n,
{
    if n >= 10 {
        lemma_decimal_digits(n / 10);
    }
}

proof fn lemma_scan_push(s: Seq<char>, c: char, acc: nat, max: nat, over: NumeralError)
    requires
        scan_digits(s, acc, max, over) is Ok,
        is_digit(c),
        scan_digits(s, acc, max, over)->Ok_0 * 10 + digit_value(c) <= max,
    ensures
        scan_digits(s.push(c), acc, max, over) == Ok::<nat, NumeralError>(
            scan_digits(s, acc, max, over)->Ok_0 * 10 + digit_value(c),
        ),
    decreases s.len(),
{
    reveal_with_fuel(scan_digits, 2);
    if s.len() == 0 {
        assert(s.push(c).skip(1) =~= Seq::<char>::empty());
    } else {
        assert(s.push(c).skip(1) =~= s.skip(1).push(c));
        lemma_scan_push(s.skip(1), c, acc * 10 + digit_value(s[0]), max, over);
    }
}

proof fn lemma_scan_decimal(n: nat, max: nat, over: NumeralError)
    requires
        n <= max,
    ensures
        scan_digits(decimal(n), 0, max, over) == Ok::<nat, NumeralError>(n),
    decreases n,
{
    if n < 10 {
        let one = Seq::<char>::empty().push(digit_char(n));
        lemma_scan_push(Seq::empty(), digit_char(n), 0, max, over);
        assert(one =~= decimal(n));
    } else {
        lemma_scan_decimal(n / 10, max, over);
        lemma_scan_push(decimal(n / 10), digit_char(n % 10), 0, max, over);
    }
}

/// Reading back a written numeral gives the number that was written.
pub proof fn law_decimal_round_trip(n: nat, max: nat)
    requires
        n <= max,
    ensures
        unsigned_value(decimal(n), max) == Ok::<nat, NumeralError>(n),
{
    lemma_decimal_digits(n);
    lemma_scan_decimal(n, max, NumeralError::TooLarge);
}

/// The numeral of one hexadecimal digit, in lower case.
pub open spec fn hex_char(d: nat) -> char {
    if d < 10 {
        (0x30 + d) as u32 as char
    } else {
        (0x57 + d) as u32 as char
    }
}

/// Two lower-case hexadecimal digits for each byte.
pub open spec fn hex_of(bytes: Seq<u8>) -> Seq<char> {
    Seq::new(
        2 * bytes.len(),
        |i: int|
            if i % 2 == 0 {
                hex_char((bytes[i / 2] / 16) as nat)
            } else {
                hex_char((bytes[i / 2] % 16) as nat)
            },
    )
}

/// The lower-case hexadecimal numeral of a digit.
pub fn hex_digit(d: u8) -> (c: char)
    requires
        d < 16,
    ensures
        c == hex_char(d as nat),
{
    if d < 10 {
        (0x30u8 + d) as char
    } else {
        (0x57u8 + d) as char
    }
}

} // verus!
