//! ASCII decimal numbers, as the device writes them in payloads.
use vstd::prelude::*;
use vstd::string::StringSliceAdditionalSpecFns;

verus! {

pub open spec fn is_digit(b: u8) -> bool {
    0x30 <= b <= 0x39
}

pub open spec fn all_digits(s: Seq<u8>) -> bool {
    forall|i: int| 0 <= i < s.len() ==> #[trigger] is_digit(s[i])
}

/// The value of a string of digits, most significant first.
pub open spec fn digits_value(s: Seq<u8>) -> nat
    decreases s.len(),
{
    if s.len() == 0 {
        0
    } else {
        digits_value(s.drop_last()) * 10 + (s.last() - 0x30) as nat
    }
}

/// The digits of a number: an optional leading `+` is not part of them.
pub open spec fn digit_part(s: Seq<u8>) -> Seq<u8> {
    if s.len() > 0 && s[0] == 0x2b {
        s.subrange(1, s.len() as int)
    } else {
        s
    }
}

/// An unsigned decimal number: one or more digits, optionally after a `+`.
pub open spec fn is_decimal(s: Seq<u8>) -> bool {
    digit_part(s).len() > 0 && all_digits(digit_part(s))
}

pub open spec fn decimal_value(s: Seq<u8>) -> nat {
    digits_value(digit_part(s))
}

/// The number that `s` spells, where it is a decimal number no larger than `max`.
pub open spec fn spec_parse_decimal(s: Seq<u8>, max: u64) -> Option<u64> {
    if is_decimal(s) && decimal_value(s) <= max {
        Some(decimal_value(s) as u64)
    } else {
        None
    }
}

proof fn lemma_digits_value_grows(s: Seq<u8>, k: int)
    requires
        0 <= k <= s.len(),
        all_digits(s),
    ensures
        digits_value(s.subrange(0, k)) <= digits_value(s),
    decreases s.len() - k,
{
    if k < s.len() {
        lemma_digits_value_grows(s, k + 1);
        assert(s.subrange(0, k + 1).drop_last() =~= s.subrange(0, k));
        assert(is_digit(s[k]));
    } else {
        assert(s.subrange(0, k) =~= s);
    }
}

/// Reads an unsigned decimal number no larger than `max`.
pub fn parse_decimal(s: &[u8], max: u64) -> (r: Option<u64>)
    ensures
        r == spec_parse_decimal(s@, max),
{
    let len = s.len();
    let start: usize = if len > 0 && s[0] == 0x2b { 1 } else { 0 };
    if start >= len {
        return None;
    }
    let ghost d = digit_part(s@);
    assert(d =~= s@.subrange(start as int, len as int));
    let mut acc: u64 = 0;
    let mut i: usize = start;
    while i < len
        invariant
            start <= i <= len,
            len == s@.len(),
            d == s@.subrange(start as int, len as int),
            d == digit_part(s@),
            all_digits(d.subrange(0, i - start)),
            acc as nat == digits_value(d.subrange(0, i - start)),
            acc <= max,
        decreases len - i,
    {
        let b = s[i];
        let ghost prefix = d.subrange(0, i + 1 - start);
        assert(prefix.drop_last() =~= d.subrange(0, i - start));
        assert(prefix.last() == b);
        assert(d[i - start] == b);
        if b < 0x30 || b > 0x39 {
            assert(!is_digit(d[i - start]));
            assert(!is_decimal(s@));
            return None;
        }
        let digit: u64 = (b - 0x30) as u64;
        if digit > max || acc > (max - digit) / 10 {
            proof {
                assert(acc * 10 + digit > max) by (nonlinear_arith)
                    requires
                        digit > max || acc > (max - digit) / 10,
                        digit <= max ==> acc > (max - digit) / 10,
                ;
                assert(all_digits(prefix));
                assert(digits_value(prefix) == acc * 10 + digit);
                if all_digits(d) {
                    lemma_digits_value_grows(d, i + 1 - start);
                }
            }
            return None;
        }
        assert(acc * 10 + digit <= max) by (nonlinear_arith)
            requires
                acc <= (max - digit) / 10,
                digit <= max,
        ;
        acc = acc * 10 + digit;
        i = i + 1;
        assert(all_digits(d.subrange(0, i - start)));
    }
    assert(d.subrange(0, len - start) =~= d);
    Some(acc)
}

/// Reads a whole number of seconds, as given for a timeout or an interval.
pub fn parse_duration_in_seconds(arg: &str) -> (r: Option<u64>)
    ensures
        r == spec_parse_decimal(arg.spec_bytes(), u64::MAX),
{
    parse_decimal(arg.as_bytes(), u64::MAX)
}

} // verus!
