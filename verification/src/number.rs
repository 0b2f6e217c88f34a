//! Reading numbers from text.

use vstd::prelude::*;

use crate::text::{chars_of, dec, digit, hex, hex_digits, repeated, Chars};

verus! {

/// What the character `c` is worth as a digit in base ten or sixteen.
pub open spec fn digit_worth(c: char, hex: bool) -> Option<nat> {
    if '0' <= c <= '9' {
        Some((c as int - '0' as int) as nat)
    } else if hex && 'a' <= c <= 'f' {
        Some((c as int - 'a' as int + 10) as nat)
    } else if hex && 'A' <= c <= 'F' {
        Some((c as int - 'A' as int + 10) as nat)
    } else {
        None
    }
}

/// The base that `hex` selects.
pub open spec fn base(hex: bool) -> nat {
    if hex {
        16
    } else {
        10
    }
}

/// What a run of digits is worth, or nothing if a character is no digit.
pub open spec fn digits_worth(s: Chars, hex: bool) -> Option<nat>
    decreases s.len(),
{
    if s.len() == 0 {
        Some(0)
    } else {
        match (digits_worth(s.drop_last(), hex), digit_worth(s.last(), hex)) {
            (Some(v), Some(d)) => Some(v * base(hex) + d),
            _ => None,
        }
    }
}

/// The number that `s` writes: one or more digits after an optional plus sign,
/// worth at most `max`.
pub open spec fn unsigned(s: Chars, hex: bool, max: nat) -> Option<nat> {
    let digits = if s.len() > 0 && s[0] == '+' {
        s.skip(1)
    } else {
        s
    };
    if digits.len() == 0 {
        None
    } else {
        match digits_worth(digits, hex) {
            Some(v) if v <= max => Some(v),
            _ => None,
        }
    }
}

/// The signed 64-bit decimal number that `s` writes: one or more digits after
/// an optional sign.
pub open spec fn signed(s: Chars) -> Option<int> {
    if s.len() > 0 && s[0] == '-' {
        let digits = s.skip(1);
        if digits.len() == 0 {
            None
        } else {
            match digits_worth(digits, false) {
                Some(v) if v <= 0x8000_0000_0000_0000 => Some(-(v as int)),
                _ => None,
            }
        }
    } else {
        match unsigned(s, false, i64::MAX as nat) {
            Some(v) => Some(v as int),
            None => None,
        }
    }
}

/// A text with a character that is no digit is no run of digits.
pub proof fn lemma_bad_digit(s: Chars, hex: bool, i: int)
    requires
        0 <= i < s.len(),
        digit_worth(s[i], hex) is None,
    ensures
        digits_worth(s, hex) is None,
{
    assert(s.take(i + 1).last() == s[i]);
    lemma_bad_prefix(s, hex, i + 1);
}

proof fn lemma_bad_prefix(s: Chars, hex: bool, k: int)
    requires
        0 <= k <= s.len(),
        digits_worth(s.take(k), hex) is None,
    ensures
        digits_worth(s, hex) is None,
    decreases s.len(),
{
    if k == s.len() {
        assert(s.take(k) =~= s);
    } else {
        assert(s.drop_last().take(k) =~= s.take(k));
        lemma_bad_prefix(s.drop_last(), hex, k);
    }
}

/// Every character of a text is a digit.
pub open spec fn all_digits(s: Chars, hex: bool) -> bool {
    forall|i: int| 0 <= i < s.len() ==> (#[trigger] digit_worth(s[i], hex)) is Some
}

proof fn lemma_digit(d: int)
    requires
        0 <= d < 16,
    ensures
        digit_worth(digit(d), true) == Some(d as nat),
        d < 10 ==> digit_worth(digit(d), false) == Some(d as nat),
        d != 0 ==> digit(d) != '0',
{
}

/// A number in decimal reads back, and has no leading zero.
pub proof fn lemma_dec_reads_back(n: nat)
    ensures
        dec(n).len() >= 1,
        n < 10 ==> dec(n).len() == 1,
        n >= 10 ==> dec(n).len() == dec(n / 10).len() + 1,
        n != 0 ==> dec(n)[0] != '0',
        all_digits(dec(n), false),
        digits_worth(dec(n), false) == Some(n),
    decreases n,
{
    if n < 10 {
        lemma_digit(n as int);
        assert(dec(n).drop_last() =~= seq![]);
        assert(digits_worth(seq![], false) == Some(0nat));
    } else {
        let head = dec(n / 10);
        lemma_dec_reads_back(n / 10);
        lemma_digit((n % 10) as int);
        assert(dec(n).drop_last() =~= head);
        assert(dec(n)[0] == head[0]);
        assert forall|i: int| 0 <= i < dec(n).len() implies (#[trigger] digit_worth(
            dec(n)[i],
            false,
        )) is Some by {
            if i < head.len() {
                assert(dec(n)[i] == head[i]);
            }
        }
    }
}

proof fn lemma_hex_digits(n: nat)
    ensures
        hex_digits(n).len() >= 1,
        all_digits(hex_digits(n), true),
        digits_worth(hex_digits(n), true) == Some(n),
    decreases n,
{
    if n < 16 {
        lemma_digit(n as int);
        assert(hex_digits(n).drop_last() =~= seq![]);
        assert(digits_worth(seq![], true) == Some(0nat));
    } else {
        let head = hex_digits(n / 16);
        lemma_hex_digits(n / 16);
        lemma_digit((n % 16) as int);
        assert(hex_digits(n).drop_last() =~= head);
        assert forall|i: int| 0 <= i < hex_digits(n).len() implies (#[trigger] digit_worth(
            hex_digits(n)[i],
            true,
        )) is Some by {
            if i < head.len() {
                assert(hex_digits(n)[i] == head[i]);
            }
        }
    }
}

proof fn lemma_leading_zero(s: Chars, k: nat, hex: bool)
    ensures
        digits_worth(repeated('0', k as int) + s, hex) == digits_worth(s, hex),
    decreases k + s.len(),
{
    let zeros = repeated('0', k as int);
    let all = zeros + s;
    if s.len() > 0 {
        assert(all.drop_last() =~= zeros + s.drop_last());
        lemma_leading_zero(s.drop_last(), k, hex);
    } else if k > 0 {
        let fewer = repeated('0', k - 1);
        assert(all.drop_last() =~= fewer + s);
        lemma_leading_zero(s, (k - 1) as nat, hex);
    } else {
        assert(all =~= s);
    }
}

/// A number in hexadecimal reads back, however it is padded.
pub proof fn lemma_hex_reads_back(n: nat, width: nat)
    ensures
        hex(n, width).len() >= 1,
        all_digits(hex(n, width), true),
        digits_worth(hex(n, width), true) == Some(n),
{
    let digits = hex_digits(n);
    let zeros = repeated('0', width - digits.len());
    lemma_hex_digits(n);
    lemma_leading_zero(digits, zeros.len(), true);
    assert(zeros =~= repeated('0', zeros.len() as int));
    assert forall|i: int| 0 <= i < hex(n, width).len() implies (#[trigger] digit_worth(
        hex(n, width)[i],
        true,
    )) is Some by {
        if i >= zeros.len() {
            assert(hex(n, width)[i] == digits[i - zeros.len()]);
        }
    }
}

/// What the character `c` is worth as a digit.
fn digit_of(c: char, hex: bool) -> (r: Option<u64>)
    ensures
        match r {
            Some(d) => digit_worth(c, hex) == Some(d as nat) && d < base(hex),
            None => digit_worth(c, hex) is None,
        },
{
    if '0' <= c && c <= '9' {
        Some((c as u64) - 48)
    } else if hex && 'a' <= c && c <= 'f' {
        Some((c as u64) - 87)
    } else if hex && 'A' <= c && c <= 'F' {
        Some((c as u64) - 55)
    } else {
        None
    }
}

/// What the digits of `s` from `from` on are worth, if at most `max`.
fn digits_value(s: &Vec<char>, from: usize, hex: bool, max: u64) -> (r: Option<u64>)
    requires
        from <= s@.len(),
    ensures
        match r {
            Some(v) => digits_worth(s@.skip(from as int), hex) == Some(v as nat) && v <= max,
            None => match digits_worth(s@.skip(from as int), hex) {
                Some(v) => v > max,
                None => true,
            },
        },
{
    let ghost all = s@.skip(from as int);
    let mut value: u128 = 0;
    let mut over: bool = false;
    let mut i: usize = from;
    proof {
        assert(all.take(0) =~= seq![]);
    }
    while i < s.len()
        invariant
            from <= i <= s.len(),
            all == s@.skip(from as int),
            digits_worth(all.take(i - from), hex) is Some,
            over ==> digits_worth(all.take(i - from), hex)->0 > max,
            !over ==> digits_worth(all.take(i - from), hex)->0 == value && value <= max,
        decreases s.len() - i,
    {
        let ghost longer = all.take(i - from + 1);
        proof {
            assert(longer.drop_last() =~= all.take(i - from));
            assert(longer.last() == s@[i as int]);
        }
        match digit_of(s[i], hex) {
            None => {
                proof {
                    lemma_bad_prefix(all, hex, i - from + 1);
                }
                return None;
            }
            Some(d) => {
                if !over {
                    let next: u128 = if hex { value * 16 + d as u128 } else { value * 10 + d as u128 };
                    if next > max as u128 {
                        over = true;
                    } else {
                        value = next;
                    }
                } else {
                    proof {
                        let v = digits_worth(all.take(i - from), hex)->0;
                        assert(v * base(hex) >= v) by (nonlinear_arith)
                            requires
                                base(hex) >= 1,
                        ;
                    }
                }
            }
        }
        i = i + 1;
    }
    proof {
        assert(all.take(s@.len() - from) =~= all);
    }
    if over {
        None
    } else {
        Some(value as u64)
    }
}

/// Reads an unsigned number in base ten or sixteen that is at most `max`.
pub fn parse_unsigned(s: &str, hex: bool, max: u64) -> (r: Option<u64>)
    ensures
        match r {
            Some(v) => unsigned(s@, hex, max as nat) == Some(v as nat) && v <= max,
            None => unsigned(s@, hex, max as nat) is None,
        },
{
    let chars = chars_of(s);
    let from: usize = if chars.len() > 0 && chars[0] == '+' {
        1
    } else {
        0
    };
    proof {
        assert(s@.skip(0) =~= s@);
    }
    if from == chars.len() {
        return None;
    }
    digits_value(&chars, from, hex, max)
}

/// Reads a signed 64-bit decimal number.
pub fn parse_i64(s: &str) -> (r: Option<i64>)
    ensures
        match r {
            Some(v) => signed(s@) == Some(v as int),
            None => signed(s@) is None,
        },
{
    let chars = chars_of(s);
    if chars.len() > 0 && chars[0] == '-' {
        if chars.len() == 1 {
            return None;
        }
        match digits_value(&chars, 1, false, 0x8000_0000_0000_0000) {
            None => None,
            Some(v) => {
                if v == 0x8000_0000_0000_0000 {
                    Some(i64::MIN)
                } else {
                    Some(-(v as i64))
                }
            }
        }
    } else {
        match parse_unsigned(s, false, 0x7FFF_FFFF_FFFF_FFFF) {
            None => None,
            Some(v) => Some(v as i64),
        }
    }
}

} // verus!
