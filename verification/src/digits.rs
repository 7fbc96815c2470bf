//! Decimal digit strings: specification-level digit sequences for natural
//! numbers and verified renderers used by the exact currency conversion.

use vstd::prelude::*;

use vstd::arithmetic::div_mod::{lemma_fundamental_div_mod, lemma_mod_division_less_than_divisor};

verus! {

/// 10 raised to `e`, over the naturals.
pub open spec fn pow10(e: nat) -> nat
    decreases e,
{
    if e == 0 {
        1
    } else {
        10 * pow10((e - 1) as nat)
    }
}

pub proof fn lemma_pow10_pos(e: nat)
    ensures
        pow10(e) >= 1,
    decreases e,
{
    if e > 0 {
        lemma_pow10_pos((e - 1) as nat);
    }
}

pub proof fn lemma_pow10_add(a: nat, b: nat)
    ensures
        pow10(a + b) == pow10(a) * pow10(b),
    decreases a,
{
    if a == 0 {
        assert(pow10(0 + b) == 1 * pow10(b));
    } else {
        lemma_pow10_add((a - 1) as nat, b);
        assert(pow10((a + b - 1) as nat) == pow10((a - 1) as nat) * pow10(b));
        assert(pow10(a + b) == 10 * ((pow10((a - 1) as nat) * pow10(b))));
        assert(10 * (pow10((a - 1) as nat) * pow10(b)) == (10 * pow10((a - 1) as nat)) * pow10(b))
            by (nonlinear_arith);
    }
}

/// The character standing for one decimal digit.
pub open spec fn digit_char(d: nat) -> char {
    if d == 0 {
        '0'
    } else if d == 1 {
        '1'
    } else if d == 2 {
        '2'
    } else if d == 3 {
        '3'
    } else if d == 4 {
        '4'
    } else if d == 5 {
        '5'
    } else if d == 6 {
        '6'
    } else if d == 7 {
        '7'
    } else if d == 8 {
        '8'
    } else {
        '9'
    }
}

/// Decimal digit string of `n`, most significant digit first, no leading
/// zeros (a single `'0'` for zero).
pub open spec fn dec_digits(n: nat) -> Seq<char>
    decreases n,
{
    if n < 10 {
        seq![digit_char(n)]
    } else {
        dec_digits(n / 10) + seq![digit_char(n % 10)]
    }
}

/// Decimal rendering of `n mod 10^w` zero-padded to exactly `w` digits.
pub open spec fn pad_digits(n: nat, w: nat) -> Seq<char>
    decreases w,
{
    if w == 0 {
        Seq::empty()
    } else {
        pad_digits(n / 10, (w - 1) as nat) + seq![digit_char(n % 10)]
    }
}

/// `c` is an ASCII decimal digit.
pub open spec fn is_digit_char(c: char) -> bool {
    48 <= c as u32 && c as u32 <= 57
}

/// Numeric value of a digit character.
pub open spec fn digit_val(c: char) -> nat {
    (c as u32 - 48) as nat
}

/// Every character of `s` is a decimal digit.
pub open spec fn all_digits(s: Seq<char>) -> bool {
    forall|i: int| 0 <= i < s.len() ==> is_digit_char(s[i])
}

/// The number written by a digit string, most significant digit first; an
/// empty string stands for zero.
pub open spec fn digits_val(s: Seq<char>) -> nat
    decreases s.len(),
{
    if s.len() == 0 {
        0
    } else {
        digits_val(s.drop_last()) * 10 + digit_val(s.last())
    }
}

pub proof fn lemma_digits_val_push(s: Seq<char>, c: char)
    ensures
        digits_val(s.push(c)) == digits_val(s) * 10 + digit_val(c),
{
    assert(s.push(c).drop_last() =~= s);
    assert(s.push(c).last() == c);
}

/// Extending a digit string on the right never lowers its value.
pub proof fn lemma_digits_val_append_ge(s1: Seq<char>, s2: Seq<char>)
    ensures
        digits_val(s1 + s2) >= digits_val(s1),
    decreases s2.len(),
{
    if s2.len() == 0 {
        assert(s1 + s2 =~= s1);
    } else {
        assert(s1 + s2 =~= (s1 + s2.drop_last()).push(s2.last()));
        lemma_digits_val_append_ge(s1, s2.drop_last());
        lemma_digits_val_push(s1 + s2.drop_last(), s2.last());
        let v = digits_val(s1 + s2.drop_last());
        assert(v * 10 >= v) by (nonlinear_arith);
    }
}

pub proof fn lemma_digit_char_val(d: nat)
    requires
        d < 10,
    ensures
        digit_val(digit_char(d)) == d,
        is_digit_char(digit_char(d)),
        digit_char(d) != '.',
        digit_char(d) != '+',
        digit_char(d) != '-',
{
}

/// Reading the digits of `n` gives `n` back.
pub proof fn lemma_dec_digits_val(n: nat)
    ensures
        digits_val(dec_digits(n)) == n,
        all_digits(dec_digits(n)),
        dec_digits(n).len() >= 1,
    decreases n,
{
    if n < 10 {
        lemma_digit_char_val(n);
        let t = dec_digits(n);
        assert(t.len() == 1);
        assert(t.last() == digit_char(n));
        assert(t.drop_last() =~= Seq::<char>::empty());
        assert(digits_val(t.drop_last()) == 0);
        assert(digits_val(t) == 0 * 10 + digit_val(digit_char(n)));
        assert(forall|i: int| 0 <= i < t.len() ==> is_digit_char(#[trigger] t[i])) by {
            assert(t[0] == digit_char(n));
        }
    } else {
        lemma_dec_digits_val(n / 10);
        lemma_digit_char_val(n % 10);
        let head = dec_digits(n / 10);
        let c = digit_char(n % 10);
        assert(head + seq![c] =~= head.push(c));
        lemma_digits_val_push(head, c);
        assert((n / 10) * 10 + n % 10 == n) by (nonlinear_arith);
        assert forall|i: int| 0 <= i < dec_digits(n).len() implies is_digit_char(
            #[trigger] dec_digits(n)[i],
        ) by {
            if i < head.len() {
                assert(dec_digits(n)[i] == head[i]);
            } else {
                assert(dec_digits(n)[i] == c);
            }
        }
    }
}

/// Reading a zero-padded rendering gives the number modulo `10^w`.
pub proof fn lemma_pad_digits_val(n: nat, w: nat)
    ensures
        digits_val(pad_digits(n, w)) == n % pow10(w),
        all_digits(pad_digits(n, w)),
        pad_digits(n, w).len() == w,
    decreases w,
{
    if w == 0 {
        assert(pow10(0) == 1);
        assert(n % 1 == 0) by (nonlinear_arith);
    } else {
        lemma_pad_digits_val(n / 10, (w - 1) as nat);
        lemma_digit_char_val(n % 10);
        let head = pad_digits(n / 10, (w - 1) as nat);
        let c = digit_char(n % 10);
        assert(head + seq![c] =~= head.push(c));
        lemma_digits_val_push(head, c);
        lemma_pow10_pos((w - 1) as nat);
        lemma_mod_mul10(n, pow10((w - 1) as nat));
        assert(pow10(w) == 10 * pow10((w - 1) as nat));
        assert(pow10((w - 1) as nat) * 10 == 10 * pow10((w - 1) as nat)) by (nonlinear_arith);
        assert forall|i: int| 0 <= i < pad_digits(n, w).len() implies is_digit_char(
            #[trigger] pad_digits(n, w)[i],
        ) by {
            if i < head.len() {
                assert(pad_digits(n, w)[i] == head[i]);
            } else {
                assert(pad_digits(n, w)[i] == c);
            }
        }
    }
}

/// Peeling the last decimal digit under a modulus that is a multiple of
/// ten.
pub proof fn lemma_mod_mul10(n: nat, p: nat)
    requires
        p >= 1,
    ensures
        n % (p * 10) == ((n / 10) % p) * 10 + n % 10,
{
    let q = n / 10;
    let r0 = n % 10;
    let b = q % p;
    let a = q / p;
    lemma_fundamental_div_mod(n as int, 10);
    assert(n == q * 10 + r0) by (nonlinear_arith)
        requires n == 10 * (n as int / 10) + n as int % 10, q == n / 10, r0 == n % 10;
    lemma_fundamental_div_mod(q as int, p as int);
    assert(q == a * p + b) by (nonlinear_arith)
        requires q == p * (q as int / p as int) + q as int % p as int, a == q / p, b == q % p;
    lemma_mod_division_less_than_divisor(q as int, p as int);
    assert(b < p && r0 < 10);
    assert(n == a * (p * 10) + (b * 10 + r0)) by (nonlinear_arith)
        requires n == q * 10 + r0, q == a * p + b;
    assert(b * 10 + r0 < p * 10) by (nonlinear_arith)
        requires b < p, r0 < 10;
    assert(n % (p * 10) == b * 10 + r0) by (nonlinear_arith)
        requires n == a * (p * 10) + (b * 10 + r0), b * 10 + r0 < p * 10, p >= 1;
}

/// Concatenating digit strings: the left part is shifted by the length of
/// the right.
pub proof fn lemma_digits_val_append(a: Seq<char>, b: Seq<char>)
    ensures
        digits_val(a + b) == digits_val(a) * pow10(b.len()) + digits_val(b),
    decreases b.len(),
{
    if b.len() == 0 {
        assert(a + b =~= a);
        assert(digits_val(a) * 1 == digits_val(a)) by (nonlinear_arith);
    } else {
        lemma_digits_val_append(a, b.drop_last());
        assert(a + b =~= (a + b.drop_last()).push(b.last()));
        lemma_digits_val_push(a + b.drop_last(), b.last());
        let va = digits_val(a);
        let pl = pow10((b.len() - 1) as nat);
        assert(pow10(b.len()) == 10 * pl);
        assert((va * pl + digits_val(b.drop_last())) * 10 + digit_val(b.last()) == va * (10 * pl)
            + (digits_val(b.drop_last()) * 10 + digit_val(b.last()))) by (nonlinear_arith);
    }
}

/// A run of `e` zero characters.
pub open spec fn zeros(e: nat) -> Seq<char> {
    Seq::new(e, |i: int| '0')
}

/// Appending a zero digit is the same as multiplying by ten.
pub proof fn lemma_dec_digits_mul10(n: nat)
    requires
        n >= 1,
    ensures
        dec_digits(n * 10) == dec_digits(n) + seq!['0'],
{
    assert(n * 10 >= 10) by (nonlinear_arith)
        requires n >= 1;
    assert((n * 10) / 10 == n) by (nonlinear_arith);
    assert((n * 10) % 10 == 0) by (nonlinear_arith);
}

/// Multiplying by `10^e` appends `e` zero digits.
pub proof fn lemma_dec_digits_mul_pow10(n: nat, e: nat)
    requires
        n >= 1,
    ensures
        dec_digits(n * pow10(e)) == dec_digits(n) + zeros(e),
    decreases e,
{
    if e == 0 {
        assert(n * pow10(0) == n) by (nonlinear_arith);
        assert(dec_digits(n) + zeros(0) =~= dec_digits(n));
    } else {
        lemma_dec_digits_mul_pow10(n, (e - 1) as nat);
        lemma_pow10_pos((e - 1) as nat);
        assert(n * pow10((e - 1) as nat) >= 1) by (nonlinear_arith)
            requires n >= 1, pow10((e - 1) as nat) >= 1;
        lemma_dec_digits_mul10(n * pow10((e - 1) as nat));
        assert(n * pow10(e) == (n * pow10((e - 1) as nat)) * 10) by (nonlinear_arith)
            requires pow10(e) == 10 * pow10((e - 1) as nat);
        assert(dec_digits(n) + zeros((e - 1) as nat) + seq!['0'] =~= dec_digits(n) + zeros(e));
    }
}

fn digit_string(d: u8) -> (r: String)
    requires
        d < 10,
    ensures
        r@ == seq![digit_char(d as nat)],
{
    proof {
        reveal_strlit("0");
        reveal_strlit("1");
        reveal_strlit("2");
        reveal_strlit("3");
        reveal_strlit("4");
        reveal_strlit("5");
        reveal_strlit("6");
        reveal_strlit("7");
        reveal_strlit("8");
        reveal_strlit("9");
    }
    let s = match d {
        0 => "0",
        1 => "1",
        2 => "2",
        3 => "3",
        4 => "4",
        5 => "5",
        6 => "6",
        7 => "7",
        8 => "8",
        _ => "9",
    };
    proof {
        assert(s@ =~= seq![digit_char(d as nat)]);
    }
    String::from_str(s)
}

/// Renders `n` in decimal, most significant digit first.
pub fn u128_to_string(n: u128) -> (r: String)
    ensures
        r@ == dec_digits(n as nat),
    decreases n,
{
    if n < 10 {
        digit_string(n as u8)
    } else {
        let mut s = u128_to_string(n / 10);
        let d = digit_string((n % 10) as u8);
        s.append(d.as_str());
        s
    }
}

/// Renders `n` in decimal.
pub fn u64_to_string(n: u64) -> (r: String)
    ensures
        r@ == dec_digits(n as nat),
{
    u128_to_string(n as u128)
}

/// Renders `n mod 10^w` zero-padded to exactly `w` digits.
pub fn padded_to_string(n: u128, w: u32) -> (r: String)
    ensures
        r@ == pad_digits(n as nat, w as nat),
    decreases w,
{
    if w == 0 {
        let r = String::new();
        proof {
            assert(r@ =~= pad_digits(n as nat, 0));
        }
        r
    } else {
        let mut s = padded_to_string(n / 10, w - 1);
        let d = digit_string((n % 10) as u8);
        s.append(d.as_str());
        s
    }
}

/// Computes 10^e without overflow.
pub fn pow10_u128(e: u32) -> (r: u128)
    requires
        e <= 28,
    ensures
        r == pow10(e as nat),
{
    proof {
        lemma_pow10_le_28();
    }
    let mut r: u128 = 1;
    let mut i: u32 = 0;
    while i < e
        invariant
            i <= e,
            e <= 28,
            r == pow10(i as nat),
            pow10(28) < u128::MAX,
        decreases e - i,
    {
        proof {
            lemma_pow10_mono(i as nat + 1, 28);
        }
        r = r * 10;
        i = i + 1;
    }
    r
}

pub proof fn lemma_pow10_mono(a: nat, b: nat)
    requires
        a <= b,
    ensures
        pow10(a) <= pow10(b),
    decreases b,
{
    if a < b {
        lemma_pow10_mono(a, (b - 1) as nat);
        lemma_pow10_pos((b - 1) as nat);
    }
}

pub proof fn lemma_pow10_le_28()
    ensures
        pow10(28) == 0x204fce5e3e25026110000000,
{
    reveal_with_fuel(pow10, 29);
    assert(pow10(28) == 0x204fce5e3e25026110000000);
}

} // verus!
