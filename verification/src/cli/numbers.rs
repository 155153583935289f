use crate::crontab::text::{decimal, digit_char};
use vstd::prelude::*;

verus! {

/// The value of the digit `c` in base 10 or 16, if it is one.
pub open spec fn digit_value(c: char, radix: nat) -> Option<nat> {
    let code = c as u32;
    if '0' as u32 <= code <= '9' as u32 {
        Some((code - '0' as u32) as nat)
    } else if radix == 16 && 'a' as u32 <= code <= 'f' as u32 {
        Some((code - 'a' as u32 + 10) as nat)
    } else if radix == 16 && 'A' as u32 <= code <= 'F' as u32 {
        Some((code - 'A' as u32 + 10) as nat)
    } else {
        None
    }
}

/// The number that the digits `s` write, if all of them are digits.
pub open spec fn digits_value(s: Seq<char>, radix: nat) -> Option<nat>
    decreases s.len(),
{
    if s.len() == 0 {
        Some(0)
    } else {
        match (digits_value(s.drop_last(), radix), digit_value(s.last(), radix)) {
            (Some(front), Some(digit)) => Some(front * radix + digit),
            _ => None,
        }
    }
}

/// The number that `s` writes: digits, at least one, after at most one
/// `+`, for a number that is not above `max`.
pub open spec fn unsigned_of(s: Seq<char>, radix: nat, max: nat) -> Option<nat> {
    let digits = if s.len() > 0 && s.first() == '+' {
        s.drop_first()
    } else {
        s
    };
    if digits.len() == 0 {
        None
    } else {
        match digits_value(digits, radix) {
            Some(value) => if value <= max {
                Some(value)
            } else {
                None
            },
            None => None,
        }
    }
}

/// Digits that write a number begin with digits that write a number, and
/// not a greater one.
proof fn lemma_front_digits(s: Seq<char>, radix: nat, n: int)
    requires
        0 <= n <= s.len(),
        radix >= 1,
        digits_value(s, radix) is Some,
    ensures
        digits_value(s.take(n), radix) is Some,
        digits_value(s.take(n), radix)->0 <= digits_value(s, radix)->0,
    decreases s.len(),
{
    if n == s.len() {
        assert(s.take(n) =~= s);
    } else {
        let front = s.drop_last();
        assert(front.take(n) =~= s.take(n));
        lemma_front_digits(front, radix, n);
        let value = digits_value(front, radix)->0;
        assert(value <= value * radix) by (nonlinear_arith)
            requires
                radix >= 1,
                value >= 0,
        ;
    }
}

/// A number in decimal is made of digits, at least one.
pub proof fn lemma_decimal_is_digits(n: nat)
    ensures
        decimal(n).len() >= 1,
        forall|i: int|
            0 <= i < decimal(n).len() ==> '0' as u32 <= (#[trigger] decimal(n)[i]) as u32 <= '9' as u32,
    decreases n,
{
    if n >= 10 {
        lemma_decimal_is_digits(n / 10);
    }
}

/// Reading what was written gives the number back: `decimal` writes each
/// number in one way, which `unsigned_of` reads as that number.
pub proof fn lemma_decimal_is_read_back(n: nat)
    ensures
        digits_value(decimal(n), 10) == Some(n),
        forall|max: nat| n <= max ==> #[trigger] unsigned_of(decimal(n), 10, max) == Some(n),
    decreases n,
{
    lemma_decimal_is_digits(n);
    if n < 10 {
        let written = decimal(n);
        assert(written.drop_last() =~= Seq::<char>::empty());
        assert(digit_value(digit_char(n), 10) == Some(n));
    } else {
        lemma_decimal_is_read_back(n / 10);
        let written = decimal(n);
        assert(written.drop_last() =~= decimal(n / 10));
        assert(digit_value(digit_char(n % 10), 10) == Some(n % 10));
    }
    assert(decimal(n)[0] != '+');
}

fn digit_of(c: char, radix: u64) -> (digit: Option<u64>)
    requires
        radix == 10 || radix == 16,
    ensures
        digit is Some <==> digit_value(c, radix as nat) is Some,
        digit is Some ==> digit->0 == digit_value(c, radix as nat)->0 && digit->0 < radix,
{
    let code: u32 = c as u32;
    if 48 <= code && code <= 57 {
        Some((code - 48) as u64)
    } else if radix == 16 && 97 <= code && code <= 102 {
        Some((code - 97 + 10) as u64)
    } else if radix == 16 && 65 <= code && code <= 70 {
        Some((code - 65 + 10) as u64)
    } else {
        None
    }
}

/// Reads an unsigned number in base 10 or 16 that is not above `max`.
pub(crate) fn parse_unsigned(s: &[char], radix: u64, max: u64) -> (value: Option<u64>)
    requires
        radix == 10 || radix == 16,
    ensures
        value is Some <==> unsigned_of(s@, radix as nat, max as nat) is Some,
        value is Some ==> value->0 == unsigned_of(s@, radix as nat, max as nat)->0,
{
    let start: usize = if s.len() > 0 && s[0] == '+' {
        1
    } else {
        0
    };
    let digits = &s[start..s.len()];
    proof {
        if start == 1 {
            assert(digits@ =~= s@.drop_first());
        } else {
            assert(digits@ =~= s@);
        }
    }
    if digits.len() == 0 {
        return None;
    }
    let mut value: u64 = 0;
    let mut i: usize = 0;
    proof {
        assert(digits@.take(0) =~= Seq::<char>::empty());
    }
    while i < digits.len()
        invariant
            radix == 10 || radix == 16,
            unsigned_of(s@, radix as nat, max as nat) == match digits_value(
                digits@,
                radix as nat,
            ) {
                Some(value) => if value <= max {
                    Some(value)
                } else {
                    None
                },
                None => None,
            },
            i <= digits@.len(),
            value <= max,
            digits_value(digits@.take(i as int), radix as nat) == Some(value as nat),
        decreases digits@.len() - i,
    {
        let ghost head = digits@.take(i + 1);
        proof {
            assert(head.drop_last() =~= digits@.take(i as int));
            assert(head.last() == digits@[i as int]);
            if digits_value(digits@, radix as nat) is Some {
                lemma_front_digits(digits@, radix as nat, i + 1);
            }
        }
        let digit = match digit_of(digits[i], radix) {
            Some(digit) => digit,
            None => {
                proof {
                    assert(digits_value(head, radix as nat) is None);
                }
                return None;
            },
        };
        if digit > max || value > (max - digit) / radix {
            proof {
                assert(value * radix + digit > max) by (nonlinear_arith)
                    requires
                        digit > max || value > (max - digit) / (radix as int),
                        radix >= 1,
                        value >= 0,
                        digit >= 0,
                ;
                assert(digits_value(head, radix as nat) == Some((value * radix + digit) as nat));
            }
            return None;
        }
        proof {
            assert(value * radix + digit <= max) by (nonlinear_arith)
                requires
                    value <= (max - digit) / (radix as int),
                    digit <= max,
                    radix >= 1,
            ;
        }
        value = value * radix + digit;
        i += 1;
    }
    proof {
        assert(digits@.take(i as int) =~= digits@);
    }
    Some(value)
}

} // verus!
