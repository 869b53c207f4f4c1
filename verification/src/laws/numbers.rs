//! What holds of numerals.

use vstd::prelude::*;
use vstd::string::*;

use crate::channel::weixin::crypto;
use crate::number;
use crate::number::NumeralError;
use crate::tools;

verus! {

/// Whether a text is made of decimal digits.
pub open spec fn all_digits(s: Seq<char>) -> bool {
    forall|i: int| 0 <= i < s.len() ==> '0' <= #[trigger] s[i] <= '9'
}

/// The number that decimal digits stand for, each ten times the next.
pub open spec fn value_of(s: Seq<char>) -> int
    decreases s.len(),
{
    if s.len() == 0 {
        0
    } else {
        value_of(s.drop_last()) * 10 + (s.last() as int - '0' as int)
    }
}

proof fn lemma_decimal(n: nat)
    ensures
        all_digits(number::decimal(n)),
        number::decimal(n).len() > 0,
        value_of(number::decimal(n)) == n,
        number::decimal(n).len() > 1 ==> number::decimal(n)[0] != '0',
        n > 0 ==> number::decimal(n)[0] != '0',
    decreases n,
{
    let s = number::decimal(n);
    if n < 10 {
        assert(s.drop_last() =~= Seq::empty());
        assert(value_of(s.drop_last()) == 0);
    } else {
        lemma_decimal(n / 10);
        assert(s.drop_last() =~= number::decimal(n / 10));
        assert(s[0] == number::decimal(n / 10)[0]);
    }
}

/// A number is written in decimal digits that stand for it, without leading zeros.
pub proof fn law_numeral_stands_for_the_number(n: u64, r: String)
    requires
        call_ensures(number::decimal_text, (n,), r),
    ensures
        all_digits(r@),
        value_of(r@) == n,
        r@.len() > 0,
        r@.len() > 1 ==> r@[0] != '0',
        r@ == number::decimal(n as nat),
{
    lemma_decimal(n as nat);
}

/// A negative number is written with a minus in front of the numeral of its size.
pub proof fn law_signed_numeral_stands_for_the_number(n: i64, r: String)
    requires
        call_ensures(number::signed_decimal_text, (n,), r),
    ensures
        n >= 0 ==> all_digits(r@) && value_of(r@) == n,
        n < 0 ==> r@.len() > 1 && r@[0] == '-' && all_digits(r@.skip(1)) && value_of(r@.skip(1))
            == -n,
        r@ == number::signed_decimal(n as int),
{
    if n < 0 {
        lemma_decimal((-n) as nat);
        assert(r@.skip(1) =~= number::decimal((-n) as nat));
    } else {
        lemma_decimal(n as nat);
    }
}

/// A time is written as its seconds, a point, three digits of milliseconds and a `Z`.
pub proof fn law_time_is_written_in_seconds(unix_ms: u64, r: String)
    requires
        call_ensures(tools::format_unix_ms, (unix_ms,), r),
    ensures
        r@.len() > 5,
        ({
            let n = r@.len() as int;
            &&& r@[n - 1] == 'Z'
            &&& r@[n - 5] == '.'
            &&& all_digits(r@.take(n - 5))
            &&& all_digits(r@.subrange(n - 4, n - 1))
            &&& value_of(r@.take(n - 5)) * 1000 + value_of(r@.subrange(n - 4, n - 1)) == unix_ms
        }),
{
    reveal_strlit(".");
    reveal_strlit("Z");
    let seconds = (unix_ms / 1000) as nat;
    let millis = (unix_ms % 1000) as nat;
    lemma_decimal(seconds);
    let n = r@.len() as int;
    assert(r@.take(n - 5) =~= number::decimal(seconds));
    let three = number::three_digits(millis);
    assert(r@.subrange(n - 4, n - 1) =~= three);
    assert(three.drop_last().drop_last().drop_last() =~= Seq::empty());
    reveal_with_fuel(value_of, 4);
    assert(value_of(three) == millis);
}

proof fn lemma_digits_scanned(s: Seq<char>, acc: nat, max: nat, over: NumeralError)
    requires
        all_digits(s),
    ensures
        ({
            let whole = value_from(s, acc as int);
            &&& whole <= max ==> number::scan_digits(s, acc, max, over) == Ok::<nat, NumeralError>(
                whole as nat,
            )
            &&& whole > max && s.len() > 0 ==> number::scan_digits(s, acc, max, over) == Err::<
                nat,
                NumeralError,
            >(over)
            &&& whole >= acc
        }),
    decreases s.len(),
{
    if s.len() > 0 {
        let d = number::digit_value(s[0]);
        assert('0' <= s[0] <= '9');
        assert forall|i: int| 0 <= i < s.skip(1).len() implies '0' <= #[trigger] s.skip(1)[i]
            <= '9' by {
            assert(s.skip(1)[i] == s[i + 1]);
        }
        lemma_digits_scanned(s.skip(1), acc * 10 + d, max, over);
    }
}

/// The number that digits stand for behind those already read.
pub open spec fn value_from(s: Seq<char>, acc: int) -> int
    decreases s.len(),
{
    if s.len() == 0 {
        acc
    } else {
        value_from(s.skip(1), acc * 10 + (s[0] as int - '0' as int))
    }
}

proof fn lemma_value_push(s: Seq<char>, c: char, acc: int)
    ensures
        value_from(s.push(c), acc) == value_from(s, acc) * 10 + (c as int - '0' as int),
    decreases s.len(),
{
    if s.len() == 0 {
        assert(s.push(c).skip(1) =~= Seq::empty());
        reveal_with_fuel(value_from, 2);
    } else {
        assert(s.push(c).skip(1) =~= s.skip(1).push(c));
        lemma_value_push(s.skip(1), c, acc * 10 + (s[0] as int - '0' as int));
    }
}

proof fn lemma_values_agree(s: Seq<char>)
    ensures
        value_from(s, 0) == value_of(s),
    decreases s.len(),
{
    if s.len() > 0 {
        lemma_values_agree(s.drop_last());
        lemma_value_push(s.drop_last(), s.last(), 0);
        assert(s.drop_last().push(s.last()) =~= s);
    }
}

/// A numeral is read as the number that its digits stand for, with or without a plus in front; one
/// that is past the bound is too large, and an empty text is none.
pub proof fn law_numeral_is_read(s: &str, max: u64, r: Result<u64, NumeralError>)
    requires
        call_ensures(number::parse_unsigned, (s, max), r),
    ensures
        s@.len() == 0 ==> r == Err::<u64, NumeralError>(NumeralError::Empty),
        s@.len() > 0 && all_digits(s@) ==> r == if value_of(s@) <= max {
            Ok::<u64, NumeralError>(value_of(s@) as u64)
        } else {
            Err(NumeralError::TooLarge)
        },
        s@.len() > 1 && s@[0] == '+' && all_digits(s@.skip(1)) ==> r == if value_of(s@.skip(1))
            <= max {
            Ok::<u64, NumeralError>(value_of(s@.skip(1)) as u64)
        } else {
            Err(NumeralError::TooLarge)
        },
{
    if s@.len() > 0 && all_digits(s@) {
        assert('0' <= s@[0] <= '9');
        lemma_digits_scanned(s@, 0, max as nat, NumeralError::TooLarge);
        lemma_values_agree(s@);
    }
    if s@.len() > 1 && s@[0] == '+' && all_digits(s@.skip(1)) {
        lemma_digits_scanned(s@.skip(1), 0, max as nat, NumeralError::TooLarge);
        lemma_values_agree(s@.skip(1));
    }
}

proof fn lemma_bad_digit(s: Seq<char>, k: int, acc: nat, max: nat, over: NumeralError)
    requires
        0 <= k < s.len(),
        all_digits(s.take(k)),
        !('0' <= s[k] <= '9'),
    ensures
        number::scan_digits(s, acc, max, over) is Err,
        value_from(s.take(k), acc as int) <= max ==> number::scan_digits(s, acc, max, over) == Err::<
            nat,
            NumeralError,
        >(NumeralError::InvalidDigit),
        value_from(s.take(k), acc as int) >= acc,
    decreases s.len(),
{
    if k > 0 {
        assert(s.take(k)[0] == s[0]);
        assert('0' <= s[0] <= '9');
        assert(s.take(k).skip(1) =~= s.skip(1).take(k - 1));
        assert forall|i: int| 0 <= i < k - 1 implies '0' <= #[trigger] s.skip(1).take(k - 1)[i]
            <= '9' by {
            assert(s.skip(1).take(k - 1)[i] == s.take(k)[i + 1]);
        }
        lemma_bad_digit(s.skip(1), k - 1, acc * 10 + number::digit_value(s[0]), max, over);
    }
}

/// A text with anything but digits behind an optional plus is no numeral.
pub proof fn law_other_texts_are_no_numerals(
    s: &str,
    max: u64,
    k: int,
    r: Result<u64, NumeralError>,
)
    requires
        call_ensures(number::parse_unsigned, (s, max), r),
        0 <= k < s@.len(),
        !('0' <= s@[k] <= '9'),
        k == 0 ==> s@[0] != '+' || s@.len() == 1,
        k > 0 ==> all_digits(s@.take(k)),
    ensures
        r is Err,
        value_of(s@.take(k)) <= max ==> r == Err::<u64, NumeralError>(NumeralError::InvalidDigit),
{
    assert(all_digits(s@.take(k)));
    if k > 0 {
        assert(s@.take(k)[0] == s@[0]);
    }
    lemma_bad_digit(s@, k, 0, max as nat, NumeralError::TooLarge);
    lemma_values_agree(s@.take(k));
}

/// A signed numeral of 32 bits is read as the number that it stands for.
pub proof fn law_signed_numeral_is_read(s: &str, r: Result<i32, NumeralError>)
    requires
        call_ensures(number::parse_i32, (s,), r),
    ensures
        s@.len() == 0 ==> r == Err::<i32, NumeralError>(NumeralError::Empty),
        s@.len() > 0 && all_digits(s@) && value_of(s@) <= 0x7fff_ffff ==> r == Ok::<
            i32,
            NumeralError,
        >(value_of(s@) as i32),
        s@.len() > 0 && all_digits(s@) && value_of(s@) > 0x7fff_ffff ==> r == Err::<
            i32,
            NumeralError,
        >(NumeralError::TooLarge),
        s@.len() > 1 && s@[0] == '-' && all_digits(s@.skip(1)) && value_of(s@.skip(1))
            <= 0x8000_0000 ==> (r matches Ok(v) && v == -value_of(s@.skip(1))),
        s@.len() > 1 && s@[0] == '-' && all_digits(s@.skip(1)) && value_of(s@.skip(1))
            > 0x8000_0000 ==> r == Err::<i32, NumeralError>(NumeralError::TooSmall),
        s@.len() > 1 && s@[0] == '+' && all_digits(s@.skip(1)) && value_of(s@.skip(1))
            <= 0x7fff_ffff ==> (r matches Ok(v) && v == value_of(s@.skip(1))),
{
    if s@.len() > 0 && all_digits(s@) {
        assert('0' <= s@[0] <= '9');
        lemma_digits_scanned(s@, 0, 0x7fff_ffff, NumeralError::TooLarge);
        lemma_values_agree(s@);
    }
    if s@.len() > 1 && all_digits(s@.skip(1)) {
        lemma_digits_scanned(s@.skip(1), 0, 0x7fff_ffff, NumeralError::TooLarge);
        lemma_digits_scanned(s@.skip(1), 0, 0x8000_0000, NumeralError::TooSmall);
        lemma_values_agree(s@.skip(1));
    }
}

/// What is wrong with a numeral is told in words.
pub proof fn law_numeral_errors_are_told(e: NumeralError, r: String)
    requires
        call_ensures(NumeralError::message, (&e,), r),
    ensures
        e is Empty ==> r@ == "cannot parse integer from empty string"@,
        e is InvalidDigit ==> r@ == "invalid digit found in string"@,
        e is TooLarge ==> r@ == "number too large to fit in target type"@,
        e is TooSmall ==> r@ == "number too small to fit in target type"@,
        r@ == e.text(),
{
}

/// The value of a hexadecimal digit in lower case.
pub open spec fn is_hex_digit_of(c: char, d: int) -> bool {
    if d < 10 {
        c as int == '0' as int + d
    } else {
        c as int == 'a' as int + d - 10
    }
}

/// Each byte is written as two hexadecimal digits in lower case, the higher half first.
pub proof fn law_bytes_are_written_as_digits(bytes: &[u8], r: String)
    requires
        call_ensures(crypto::hex_lower, (bytes,), r),
    ensures
        r@.len() == 2 * bytes@.len(),
        forall|i: int|
            0 <= i < bytes@.len() ==> is_hex_digit_of(r@[2 * i], (#[trigger] bytes@[i]) as int / 16)
                && is_hex_digit_of(r@[2 * i + 1], bytes@[i] as int % 16),
        r@ == number::hex_of(bytes@),
{
    assert forall|i: int| 0 <= i < bytes@.len() implies is_hex_digit_of(
        r@[2 * i],
        (#[trigger] bytes@[i]) as int / 16,
    ) && is_hex_digit_of(r@[2 * i + 1], bytes@[i] as int % 16) by {
        assert((2 * i) / 2 == i && (2 * i) % 2 == 0);
        assert((2 * i + 1) / 2 == i && (2 * i + 1) % 2 == 1);
    }
}

} // verus!
