//! Rendering of integers as text, digit by digit.

use vstd::prelude::*;
use vstd::string::StringExecFns;

verus! {

/// The character that stands for the digit `d` in bases up to sixteen
/// (lower case above nine).
pub open spec fn digit_char(d: int) -> char {
    if d == 0 {
        '0'
    } else if d == 1 {
        '1'
    } else if d == 2 {
        '2'
    } else if d == 3 {
        '3'
    } else if d == 4 {
        '4'
    } else if d == 5 {
        '5'
    } else if d == 6 {
        '6'
    } else if d == 7 {
        '7'
    } else if d == 8 {
        '8'
    } else if d == 9 {
        '9'
    } else if d == 10 {
        'a'
    } else if d == 11 {
        'b'
    } else if d == 12 {
        'c'
    } else if d == 13 {
        'd'
    } else if d == 14 {
        'e'
    } else {
        'f'
    }
}

/// The digits of `n` in the given base, most significant first, without
/// leading zeros; zero is the single digit `0`.
pub open spec fn digits(n: nat, base: nat) -> Seq<char>
    recommends
        2 <= base <= 16,
    decreases n,
{
    if base < 2 || n < base {
        seq![digit_char(n as int)]
    } else {
        proof {
            assert(n / base < n) by (nonlinear_arith)
                requires
                    base >= 2,
                    n >= base,
            ;
        }
        digits(n / base, base).push(digit_char((n % base) as int))
    }
}

/// The decimal representation of an integer: a minus sign for a negative
/// number, then its digits.
pub open spec fn decimal(n: int) -> Seq<char> {
    if n < 0 {
        seq!['-'] + digits((-n) as nat, 10)
    } else {
        digits(n as nat, 10)
    }
}

/// The value that a 64-bit signed integer has when its bits are read as an
/// unsigned number.
pub open spec fn unsigned_bits(n: int) -> nat {
    if n < 0 {
        (n + 0x1_0000_0000_0000_0000) as nat
    } else {
        n as nat
    }
}

/// The hexadecimal representation of a 64-bit signed integer with its radix
/// prefix: `0x`, then the lower-case digits of its bits read as unsigned.
pub open spec fn prefixed_hex(n: int) -> Seq<char> {
    seq!['0', 'x'] + digits(unsigned_bits(n), 16)
}

fn digit_str(d: u64) -> (s: &'static str)
    requires
        d < 16,
    ensures
        s@ == seq![digit_char(d as int)],
{
    proof {
        reveal_strlit("0");
        reveal_strlit("1");
        reveal_strlit("2");
        reveal_strlit("3");
        reveal_strlit("4");
        reveal_strlit("5");
        reveal_strlit("6");
        reveal_strlit("7");
        reveal_strlit("8");
        reveal_strlit("9");
        reveal_strlit("a");
        reveal_strlit("b");
        reveal_strlit("c");
        reveal_strlit("d");
        reveal_strlit("e");
        reveal_strlit("f");
    }
    let s = if d == 0 {
        "0"
    } else if d == 1 {
        "1"
    } else if d == 2 {
        "2"
    } else if d == 3 {
        "3"
    } else if d == 4 {
        "4"
    } else if d == 5 {
        "5"
    } else if d == 6 {
        "6"
    } else if d == 7 {
        "7"
    } else if d == 8 {
        "8"
    } else if d == 9 {
        "9"
    } else if d == 10 {
        "a"
    } else if d == 11 {
        "b"
    } else if d == 12 {
        "c"
    } else if d == 13 {
        "d"
    } else if d == 14 {
        "e"
    } else {
        "f"
    };
    assert(s@ =~= seq![digit_char(d as int)]);
    s
}

/// The characters of the digits in `low`, the last one first.
spec fn reversed(low: Seq<u64>) -> Seq<char> {
    Seq::new(low.len(), |i: int| digit_char(low[low.len() - 1 - i] as int))
}

/// Appends the digits of `n` in the given base to `out`.
fn push_digits(out: &mut String, n: u64, base: u64)
    requires
        2 <= base <= 16,
    ensures
        final(out)@ == old(out)@ + digits(n as nat, base as nat),
{
    // The digits below the leading one, least significant first.
    let mut low: Vec<u64> = Vec::new();
    let mut rest: u64 = n;
    while rest >= base
        invariant
            2 <= base <= 16,
            forall|i: int| 0 <= i < low.len() ==> low[i] < base,
            digits(n as nat, base as nat) == digits(rest as nat, base as nat) + reversed(low@),
        decreases rest,
    {
        let ghost tail = reversed(low@);
        low.push(rest % base);
        proof {
            assert(reversed(low@) =~= seq![digit_char((rest % base) as int)] + tail);
            assert(digits(rest as nat, base as nat) + tail =~= digits(
                (rest / base) as nat,
                base as nat,
            ) + reversed(low@));
        }
        rest = rest / base;
    }
    let ghost start = out@;
    let ghost tail = reversed(low@);
    out.append(digit_str(rest));
    let mut left: usize = low.len();
    while left > 0
        invariant
            left <= low.len(),
            rest < base <= 16,
            forall|i: int| 0 <= i < low.len() ==> low[i] < base,
            tail == reversed(low@),
            out@ == start + digits(rest as nat, base as nat) + tail.subrange(
                0,
                low.len() - left,
            ),
        decreases left,
    {
        left = left - 1;
        out.append(digit_str(low[left]));
        proof {
            let k = low.len() - left - 1;
            assert(tail.subrange(0, k + 1) =~= tail.subrange(0, k).push(tail[k]));
            assert(out@ =~= start + digits(rest as nat, base as nat) + tail.subrange(0, k + 1));
        }
    }
    proof {
        assert(tail.subrange(0, low.len() as int) =~= tail);
        assert(out@ =~= start + digits(n as nat, base as nat));
    }
}

/// The decimal representation of `n`.
pub fn decimal_string(n: i64) -> (s: String)
    ensures
        s@ == decimal(n as int),
{
    let mut out = String::new();
    if n < 0 {
        proof {
            reveal_strlit("-");
        }
        out.append("-");
        let magnitude: u64 = (-(n + 1)) as u64 + 1;
        push_digits(&mut out, magnitude, 10);
        assert(out@ =~= decimal(n as int));
    } else {
        push_digits(&mut out, n as u64, 10);
        assert(out@ =~= decimal(n as int));
    }
    out
}

/// The hexadecimal representation of `n`, with the prefix `0x`; a negative
/// number is shown by its bits, as two's complement.
pub fn prefixed_hex_string(n: i64) -> (s: String)
    ensures
        s@ == prefixed_hex(n as int),
{
    proof {
        reveal_strlit("0x");
    }
    let mut out = String::from_str("0x");
    let bits: u64 = if n < 0 {
        u64::MAX - ((-(n + 1)) as u64)
    } else {
        n as u64
    };
    push_digits(&mut out, bits, 16);
    assert(out@ =~= prefixed_hex(n as int));
    out
}

} // verus!
