//! Writing numbers as text: decimal, and lower-case hexadecimal.

use vstd::prelude::*;

verus! {

/// The character of a digit value below 16 (lower-case for 10 and up).
pub open spec fn digit_char(d: int) -> char {
    if d == 0 {
        '0'
    } else if d == 1 {
        '1'
    } else if d == 2 {
        '2'
    } else if d == 3 {
        '3'
    } else if d == 4 {
        '4'
    } else if d == 5 {
        '5'
    } else if d == 6 {
        '6'
    } else if d == 7 {
        '7'
    } else if d == 8 {
        '8'
    } else if d == 9 {
        '9'
    } else if d == 10 {
        'a'
    } else if d == 11 {
        'b'
    } else if d == 12 {
        'c'
    } else if d == 13 {
        'd'
    } else if d == 14 {
        'e'
    } else {
        'f'
    }
}

/// `n` in base `b` (2 to 16) with no leading zeros; zero is `0`.
pub open spec fn digits(n: nat, b: nat) -> Seq<char>
    decreases n,
{
    if b < 2 || n < b {
        seq![digit_char(n as int)]
    } else {
        proof {
            assert(n / b < n) by (nonlinear_arith)
                requires
                    n >= b,
                    b >= 2,
            ;
        }
        digits(n / b, b).push(digit_char((n % b) as int))
    }
}

/// `n` in decimal.
pub open spec fn decimal(n: nat) -> Seq<char> {
    digits(n, 10)
}

/// `n` in lower-case hexadecimal, padded with zeros to at least `width`
/// digits.
pub open spec fn hex_padded(n: nat, width: nat) -> Seq<char> {
    let d = digits(n, 16);
    if d.len() >= width {
        d
    } else {
        Seq::new((width - d.len()) as nat, |i: int| '0') + d
    }
}

fn append_digit(s: &mut String, d: u64)
    requires
        d < 16,
    ensures
        final(s)@ == old(s)@.push(digit_char(d as int)),
{
    let t = if d == 0 {
        "0"
    } else if d == 1 {
        "1"
    } else if d == 2 {
        "2"
    } else if d == 3 {
        "3"
    } else if d == 4 {
        "4"
    } else if d == 5 {
        "5"
    } else if d == 6 {
        "6"
    } else if d == 7 {
        "7"
    } else if d == 8 {
        "8"
    } else if d == 9 {
        "9"
    } else if d == 10 {
        "a"
    } else if d == 11 {
        "b"
    } else if d == 12 {
        "c"
    } else if d == 13 {
        "d"
    } else if d == 14 {
        "e"
    } else {
        "f"
    };
    proof {
        reveal_strlit("0");
        reveal_strlit("1");
        reveal_strlit("2");
        reveal_strlit("3");
        reveal_strlit("4");
        reveal_strlit("5");
        reveal_strlit("6");
        reveal_strlit("7");
        reveal_strlit("8");
        reveal_strlit("9");
        reveal_strlit("a");
        reveal_strlit("b");
        reveal_strlit("c");
        reveal_strlit("d");
        reveal_strlit("e");
        reveal_strlit("f");
    }
    s.append(t);
    assert(t@ =~= seq![digit_char(d as int)]);
    assert(s@ =~= old(s)@.push(digit_char(d as int)));
}

/// Append `n` written in base `b`.
pub fn append_digits(s: &mut String, n: u64, b: u64)
    requires
        2 <= b <= 16,
    ensures
        final(s)@ == old(s)@ + digits(n as nat, b as nat),
    decreases n,
{
    if n >= b {
        assert(n / b < n) by (nonlinear_arith)
            requires
                n >= b,
                b >= 2,
        ;
        append_digits(s, n / b, b);
        append_digit(s, n % b);
        assert(digits(n as nat, b as nat) == digits((n / b) as nat, b as nat).push(
            digit_char((n % b) as int),
        ));
        assert(s@ =~= old(s)@ + digits(n as nat, b as nat));
    } else {
        append_digit(s, n);
        assert(s@ =~= old(s)@ + digits(n as nat, b as nat));
    }
}

/// Append `n` in decimal.
pub fn append_decimal(s: &mut String, n: u64)
    ensures
        final(s)@ == old(s)@ + decimal(n as nat),
{
    append_digits(s, n, 10)
}

proof fn lemma_digits_len(n: nat, b: nat)
    requires
        2 <= b,
    ensures
        digits(n, b).len() >= 1,
        n < b ==> digits(n, b).len() == 1,
    decreases n,
{
    if n >= b {
        assert(n / b < n) by (nonlinear_arith)
            requires n >= b, b >= 2;
        lemma_digits_len(n / b, b);
    }
}

/// Append `n` in lower-case hexadecimal, padded with zeros to at least
/// `width` digits.
pub fn append_hex_padded(s: &mut String, n: u64, width: usize)
    ensures
        final(s)@ == old(s)@ + hex_padded(n as nat, width as nat),
{
    let mut len: usize = 1;
    let mut m = n;
    proof {
        lemma_digits_len(n as nat, 16);
    }
    while m >= 16
        invariant
            1 <= len <= 16,
            digits(n as nat, 16).len() == len - 1 + digits(m as nat, 16).len(),
        decreases m,
    {
        proof {
            lemma_digits_len((m / 16) as nat, 16);
            assert(digits(m as nat, 16).len() == digits((m / 16) as nat, 16).len() + 1);
            assert(m as nat / 16 < m) by (nonlinear_arith)
                requires m >= 16;
            assert(len < 16) by {
                assert(digits(n as nat, 16).len() <= 16) by {
                    lemma_hex_len_bound(n);
                }
            }
        }
        m = m / 16;
        len = len + 1;
    }
    proof {
        lemma_digits_len(m as nat, 16);
    }
    let ghost before = s@;
    let mut pad: usize = len;
    while pad < width
        invariant
            len <= pad,
            pad <= width || pad == len,
            s@ == before + Seq::new((pad - len) as nat, |i: int| '0'),
        decreases width - pad,
    {
        append_digit(s, 0);
        pad = pad + 1;
        assert(s@ =~= before + Seq::new((pad - len) as nat, |i: int| '0'));
    }
    append_digits(s, n, 16);
    assert(len == digits(n as nat, 16).len());
    if len >= width {
        assert(pad == len);
        assert(s@ =~= before + hex_padded(n as nat, width as nat));
    } else {
        assert(pad == width);
        assert(s@ =~= before + hex_padded(n as nat, width as nat));
    }
}

spec fn power(b: nat, k: nat) -> nat
    decreases k,
{
    if k == 0 {
        1
    } else {
        b * power(b, (k - 1) as nat)
    }
}

proof fn lemma_hex_len_bound(n: u64)
    ensures
        digits(n as nat, 16).len() <= 16,
{
    reveal_with_fuel(power, 17);
    assert(power(16, 16) == 0x1_0000_0000_0000_0000nat);
    lemma_digits_len_le(n as nat, 16, 16);
}

proof fn lemma_digits_len_le(n: nat, b: nat, k: nat)
    requires
        2 <= b,
        n < power(b, k),
        k >= 1,
    ensures
        digits(n, b).len() <= k,
    decreases k,
{
    if n >= b {
        let p = power(b, (k - 1) as nat);
        assert(k >= 2) by {
            if k == 1 {
                assert(power(b, 0) == 1);
                assert(power(b, 1) == b * power(b, 0));
                assert(b * 1 == b) by (nonlinear_arith);
                assert(power(b, k) == b);
            }
        }
        assert(n / b < p) by (nonlinear_arith)
            requires
                n < b * p,
                b >= 2,
        ;
        lemma_digits_len_le(n / b, b, (k - 1) as nat);
    } else {
        lemma_digits_len(n, b);
    }
}

} // verus!
