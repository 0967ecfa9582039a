//! Decimal text to `u64` (an optional `+`, then one or more ASCII digits,
//! with no value above `u64::MAX`) and `u64` to decimal text.

use vstd::prelude::*;
use vstd::string::*;

verus! {

/// Whether `c` is one of `0` to `9`.
pub open spec fn is_digit(c: char) -> bool {
    '0' <= c <= '9'
}

/// The number that a sequence of digits writes, the empty sequence writing 0;
/// `None` where a character is no digit.
pub open spec fn digits_value(s: Seq<char>) -> Option<nat>
    decreases s.len(),
{
    if s.len() == 0 {
        Some(0)
    } else if !is_digit(s.last()) {
        None
    } else {
        match digits_value(s.drop_last()) {
            Some(high) => Some(10 * high + (s.last() as nat - 48) as nat),
            None => None,
        }
    }
}

/// What follows an optional leading `+`.
pub open spec fn unsigned_part(s: Seq<char>) -> Seq<char> {
    if s.len() > 0 && s[0] == '+' {
        s.skip(1)
    } else {
        s
    }
}

/// The `u64` that `s` writes in decimal: an optional `+`, then at least one
/// digit and nothing else, the value being at most `u64::MAX`.
pub open spec fn decimal_u64(s: Seq<char>) -> Option<u64> {
    let digits = unsigned_part(s);
    if digits.len() == 0 {
        None
    } else {
        match digits_value(digits) {
            Some(n) => if n <= u64::MAX {
                Some(n as u64)
            } else {
                None
            },
            None => None,
        }
    }
}

/// A sequence with a character that is no digit writes no number.
pub proof fn lemma_non_digit(s: Seq<char>, at: int)
    requires
        0 <= at < s.len(),
        !is_digit(s[at]),
    ensures
        digits_value(s) is None,
    decreases s.len(),
{
    if at < s.len() - 1 {
        lemma_non_digit(s.drop_last(), at);
    }
}

/// The number that a sequence of digits writes is at least the number that a
/// prefix of it writes, and the prefix writes one.
pub proof fn lemma_prefix_value(s: Seq<char>, len: int)
    requires
        0 <= len <= s.len(),
        digits_value(s) is Some,
    ensures
        digits_value(s.take(len)) is Some,
        digits_value(s.take(len))->Some_0 <= digits_value(s)->Some_0,
    decreases s.len(),
{
    if len == s.len() {
        assert(s.take(len) =~= s);
    } else {
        lemma_prefix_value(s.drop_last(), len);
        assert(s.drop_last().take(len) =~= s.take(len));
    }
}

/// The character that writes a digit.
pub open spec fn digit_char(d: nat) -> char {
    if d == 0 {
        '0'
    } else if d == 1 {
        '1'
    } else if d == 2 {
        '2'
    } else if d == 3 {
        '3'
    } else if d == 4 {
        '4'
    } else if d == 5 {
        '5'
    } else if d == 6 {
        '6'
    } else if d == 7 {
        '7'
    } else if d == 8 {
        '8'
    } else {
        '9'
    }
}

/// A number written in decimal, without a sign and without leading zeros.
pub open spec fn decimal_text(n: nat) -> Seq<char>
    decreases n,
{
    if n < 10 {
        seq![digit_char(n)]
    } else {
        decimal_text(n / 10).push(digit_char(n % 10))
    }
}

/// The digits that write a number are digits, and write that number.
pub proof fn lemma_digits_of_text(n: nat)
    ensures
        decimal_text(n).len() > 0,
        decimal_text(n)[0] != '+',
        digits_value(decimal_text(n)) == Some(n),
    decreases n,
{
    let text = decimal_text(n);
    if n < 10 {
        assert(text.drop_last() =~= Seq::<char>::empty());
        assert(digits_value(text.drop_last()) == Some(0nat));
    } else {
        lemma_digits_of_text(n / 10);
        assert(text.drop_last() =~= decimal_text(n / 10));
        assert(text[0] == decimal_text(n / 10)[0]);
    }
}

/// Reading back what was written gives the number that was written.
pub proof fn lemma_text_reads_back(n: u64)
    ensures
        decimal_u64(decimal_text(n as nat)) == Some(n),
{
    lemma_digits_of_text(n as nat);
}

/// The text of one digit.
pub fn digit_text(d: u64) -> (r: &'static str)
    requires
        d < 10,
    ensures
        r@ == seq![digit_char(d as nat)],
{
    proof {
        reveal_strlit("0");
        reveal_strlit("1");
        reveal_strlit("2");
        reveal_strlit("3");
        reveal_strlit("4");
        reveal_strlit("5");
        reveal_strlit("6");
        reveal_strlit("7");
        reveal_strlit("8");
        reveal_strlit("9");
    }
    let r = if d == 0 {
        "0"
    } else if d == 1 {
        "1"
    } else if d == 2 {
        "2"
    } else if d == 3 {
        "3"
    } else if d == 4 {
        "4"
    } else if d == 5 {
        "5"
    } else if d == 6 {
        "6"
    } else if d == 7 {
        "7"
    } else if d == 8 {
        "8"
    } else {
        "9"
    };
    assert(r@ =~= seq![digit_char(d as nat)]);
    r
}

/// Writes a `u64` in decimal.
pub fn u64_text(n: u64) -> (r: String)
    ensures
        r@ == decimal_text(n as nat),
{
    let mut text = digit_text(n % 10).to_owned();
    let mut rest: u64 = n / 10;
    while rest > 0
        invariant
            decimal_text(n as nat) == (if rest > 0 {
                decimal_text(rest as nat) + text@
            } else {
                text@
            }),
        decreases rest,
    {
        let ghost shorter = text@;
        let mut longer = digit_text(rest % 10).to_owned();
        longer.append(text.as_str());
        text = longer;
        proof {
            let d = seq![digit_char((rest % 10) as nat)];
            assert(text@ == d + shorter);
            if rest >= 10 {
                assert(decimal_text(rest as nat) == decimal_text((rest / 10) as nat) + d);
                assert((decimal_text((rest / 10) as nat) + d) + shorter =~= decimal_text(
                    (rest / 10) as nat,
                ) + (d + shorter));
            } else {
                assert(decimal_text(rest as nat) =~= d);
            }
        }
        rest = rest / 10;
    }
    text
}

/// Reads a `u64` written in decimal.
pub fn parse_u64(s: &str) -> (r: Option<u64>)
    ensures
        r == decimal_u64(s@),
{
    if !s.is_ascii() {
        proof {
            let at = choose|i: int| 0 <= i < s@.len() && !('\0' <= #[trigger] s@[i] <= '\u{7f}');
            let digits = unsigned_part(s@);
            if digits.len() > 0 {
                if s@[0] == '+' {
                    lemma_non_digit(digits, at - 1);
                } else {
                    lemma_non_digit(digits, at);
                }
            }
        }
        return None;
    }
    let bytes = s.as_bytes();
    proof {
        is_ascii_spec_bytes(s);
    }
    let n = bytes.len();
    assert(forall|k: int| 0 <= k < n ==> (#[trigger] bytes@[k]) == s@[k] as u8);
    if n == 0 {
        return None;
    }
    let start: usize = if bytes[0] == 0x2b {
        1
    } else {
        0
    };
    assert(s@[0] as nat == bytes@[0] as nat);
    assert((s@[0] == '+') == (bytes@[0] == 0x2b));
    let ghost digits = unsigned_part(s@);
    if start == n {
        return None;
    }
    let mut acc: u64 = 0;
    let mut i: usize = start;
    while i < n
        invariant
            start <= i <= n,
            n == s@.len(),
            n == bytes@.len(),
            digits == s@.skip(start as int),
            digits == unsigned_part(s@),
            forall|k: int| 0 <= k < n ==> (#[trigger] bytes@[k]) == s@[k] as u8,
            forall|k: int| 0 <= k < n ==> '\0' <= #[trigger] s@[k] <= '\u{7f}',
            digits_value(digits.take(i - start)) == Some(acc as nat),
        decreases n - i,
    {
        let b = bytes[i];
        if b < 0x30 || b > 0x39 {
            proof {
                lemma_non_digit(digits, i - start);
            }
            return None;
        }
        let d: u64 = (b - 0x30) as u64;
        let ghost longer = digits.take(i - start + 1);
        proof {
            assert(longer.drop_last() =~= digits.take(i - start));
        }
        if acc > (u64::MAX - d) / 10 {
            proof {
                if digits_value(digits) is Some {
                    lemma_prefix_value(digits, i - start + 1);
                }
            }
            return None;
        }
        acc = acc * 10 + d;
        i = i + 1;
    }
    proof {
        assert(digits.take(n - start) =~= digits);
    }
    Some(acc)
}

} // verus!
