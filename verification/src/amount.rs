//! Exact decimal currency amounts.
//!
//! An [`Amount`] is a sign, a mantissa and a scale: its value is
//! `mantissa / 10^scale`, negated when the sign is set.  The mantissa is
//! bounded by `2^96 - 1` and the scale by 28, so every amount a configuration
//! can express is carried exactly; no floating point is involved anywhere.

use vstd::prelude::*;

use crate::digits::{
    dec_digits, lemma_dec_digits_mul_pow10, lemma_pow10_add, lemma_pow10_pos, pad_digits, pow10,
    pow10_u128, padded_to_string, u128_to_string, zeros,
};

verus! {

/// Largest mantissa an [`Amount`] may carry: `2^96 - 1`.
pub const MAX_MANTISSA: u128 = 79228162514264337593543950335;

/// Largest scale (number of fractional digits) an [`Amount`] may carry.
pub const MAX_SCALE: u32 = 28;

/// A decimal number `(-1)^negative * mantissa / 10^scale`.
#[derive(Clone, Copy, Debug, PartialEq, Eq, Structural)]
pub struct Amount {
    pub negative: bool,
    pub mantissa: u128,
    pub scale: u32,
}

impl Amount {
    /// The representation bounds every amount keeps.
    pub open spec fn wf(self) -> bool {
        self.mantissa <= MAX_MANTISSA && self.scale <= MAX_SCALE
    }

    /// The value is strictly below zero.
    pub open spec fn spec_is_negative(self) -> bool {
        self.negative && self.mantissa > 0
    }

    /// Builds an amount from its parts.
    pub fn new(negative: bool, mantissa: u128, scale: u32) -> (r: Amount)
        requires
            mantissa <= MAX_MANTISSA,
            scale <= MAX_SCALE,
        ensures
            r == (Amount { negative, mantissa, scale }),
            r.wf(),
    {
        Amount { negative, mantissa, scale }
    }

    /// The value is strictly below zero.
    pub fn is_negative(&self) -> (r: bool)
        ensures
            r == self.spec_is_negative(),
    {
        self.negative && self.mantissa > 0
    }
}

/// Mantissa of `mantissa/10^scale` with trailing fractional zeros removed.
pub open spec fn norm_mant(m: nat, s: nat) -> nat
    decreases s,
{
    if s > 0 && m % 10 == 0 {
        norm_mant(m / 10, (s - 1) as nat)
    } else {
        m
    }
}

/// Scale of `mantissa/10^scale` with trailing fractional zeros removed.
pub open spec fn norm_scale(m: nat, s: nat) -> nat
    decreases s,
{
    if s > 0 && m % 10 == 0 {
        norm_scale(m / 10, (s - 1) as nat)
    } else {
        s
    }
}

/// Decimal rendering of the non-negative number `m / 10^s`, `m` already in
/// normalized form: all digits of `m / 10^s`, a dot before the last `s` of
/// them when `s > 0`.
pub open spec fn render_scaled(m: nat, s: nat) -> Seq<char> {
    if s == 0 {
        dec_digits(m)
    } else {
        dec_digits(m / pow10(s)) + seq!['.'] + pad_digits(m % pow10(s), s)
    }
}

/// The exact decimal rendering of `(m / 10^s) * 10^d`, normalized: no
/// trailing fractional zeros and no trailing dot.
pub open spec fn base_units_seq(m: nat, s: nat, d: nat) -> Seq<char> {
    render_scaled(norm_mant(m * pow10(d), s), norm_scale(m * pow10(d), s))
}

/// The rendering produced by [`amount_to_smallest_unit`]: the sign, then the
/// normalized rendering of `|a| * 10^d`.
pub open spec fn spec_base_units(a: Amount, d: nat) -> Seq<char> {
    if a.spec_is_negative() {
        seq!['-'] + base_units_seq(a.mantissa as nat, a.scale as nat, d)
    } else {
        base_units_seq(a.mantissa as nat, a.scale as nat, d)
    }
}

/// Normalization preserves the represented value:
/// `norm_mant(m,s) * 10^s == m * 10^norm_scale(m,s)`.
pub proof fn lemma_norm_value(m: nat, s: nat)
    ensures
        norm_mant(m, s) * pow10(s) == m * pow10(norm_scale(m, s)),
        norm_scale(m, s) <= s,
        norm_mant(m, s) <= m,
    decreases s,
{
    if s > 0 && m % 10 == 0 {
        lemma_norm_value(m / 10, (s - 1) as nat);
        let nm = norm_mant(m, s);
        let ns = norm_scale(m, s);
        assert(nm * pow10((s - 1) as nat) == (m / 10) * pow10(ns));
        assert(m == (m / 10) * 10) by (nonlinear_arith)
            requires m % 10 == 0;
        assert(pow10(s) == 10 * pow10((s - 1) as nat));
        assert(nm * pow10(s) == 10 * (nm * pow10((s - 1) as nat))) by (nonlinear_arith)
            requires pow10(s) == 10 * pow10((s - 1) as nat);
        assert(10 * ((m / 10) * pow10(ns)) == ((m / 10) * 10) * pow10(ns)) by (nonlinear_arith);
        assert(m / 10 <= m);
    }
}

/// Normalizing `m * 10^e` at scale `s <= e` strips the whole scale.
pub proof fn lemma_norm_shift_out(m: nat, e: nat, s: nat)
    requires
        s <= e,
    ensures
        norm_mant(m * pow10(e), s) == m * pow10((e - s) as nat),
        norm_scale(m * pow10(e), s) == 0,
    decreases s,
{
    if s == 0 {
        assert((e - 0) as nat == e);
    } else {
        let em1 = (e - 1) as nat;
        assert(pow10(e) == 10 * pow10(em1));
        assert(m * pow10(e) == (m * pow10(em1)) * 10) by (nonlinear_arith)
            requires pow10(e) == 10 * pow10(em1);
        let big = m * pow10(e);
        assert(big % 10 == 0 && big / 10 == m * pow10(em1)) by (nonlinear_arith)
            requires big == (m * pow10(em1)) * 10;
        lemma_norm_shift_out(m, em1, (s - 1) as nat);
    }
}

/// Normalizing `m * 10^d` at scale `s >= d` is normalizing `m` at `s - d`.
pub proof fn lemma_norm_shift_in(m: nat, d: nat, s: nat)
    requires
        d <= s,
    ensures
        norm_mant(m * pow10(d), s) == norm_mant(m, (s - d) as nat),
        norm_scale(m * pow10(d), s) == norm_scale(m, (s - d) as nat),
    decreases d,
{
    if d > 0 {
        let dm1 = (d - 1) as nat;
        assert(pow10(d) == 10 * pow10(dm1));
        assert(m * pow10(d) == (m * pow10(dm1)) * 10) by (nonlinear_arith)
            requires pow10(d) == 10 * pow10(dm1);
        let big = m * pow10(d);
        assert(big % 10 == 0 && big / 10 == m * pow10(dm1)) by (nonlinear_arith)
            requires big == (m * pow10(dm1)) * 10;
        assert(s > 0);
        lemma_norm_shift_in(m, dm1, (s - 1) as nat);
        assert(norm_mant(big, s) == norm_mant(big / 10, (s - 1) as nat));
        assert(norm_scale(big, s) == norm_scale(big / 10, (s - 1) as nat));
        assert(norm_mant(m * pow10(dm1), (s - 1) as nat) == norm_mant(
            m,
            ((s - 1) as nat - dm1) as nat,
        ));
        assert(((s - 1) as nat - dm1) as nat == (s - d) as nat);
    } else {
        assert(pow10(0) == 1);
        assert(m * 1 == m) by (nonlinear_arith);
        assert((s - 0) as nat == s);
    }
}

/// Zero normalizes to mantissa zero at scale zero.
pub proof fn lemma_norm_zero(s: nat)
    ensures
        norm_mant(0, s) == 0,
        norm_scale(0, s) == 0,
    decreases s,
{
    if s > 0 {
        lemma_norm_zero((s - 1) as nat);
    }
}

/// Law: the base-unit conversion is exact.  What
/// [`amount_to_smallest_unit`] renders is the normalized pair
/// `(norm_mant, norm_scale)` of `mantissa * 10^d` at the amount's scale;
/// this pair reads back to exactly `amount * 10^d`: multiplying it out and
/// dividing by `10^d` again recovers the amount, with no rounding error,
/// for every amount with at most 18 fractional digits and every target
/// precision up to 28 decimals.  As an equation over the values, with
/// `M = mantissa * 10^d`:
/// `norm_mant(M, scale) * 10^scale == mantissa * 10^(d + norm_scale(M, scale))`.
pub proof fn lemma_base_units_round_trip(a: Amount, d: nat)
    requires
        a.wf(),
        a.scale <= 18,
        d <= 28,
    ensures
        norm_mant(a.mantissa as nat * pow10(d), a.scale as nat) * pow10(a.scale as nat)
            == a.mantissa as nat * pow10(d + norm_scale(a.mantissa as nat * pow10(d), a.scale as nat)),
{
    let m = a.mantissa as nat;
    let s = a.scale as nat;
    let big = m * pow10(d);
    lemma_norm_value(big, s);
    let ns = norm_scale(big, s);
    assert(norm_mant(big, s) * pow10(s) == big * pow10(ns));
    lemma_pow10_add(d, ns);
    assert((m * pow10(d)) * pow10(ns) == m * (pow10(d) * pow10(ns))) by (nonlinear_arith);
}

/// Law: rendering then re-parsing loses nothing.  For a non-negative
/// amount, the base-units rendering of `amount * 10^d` parses back through
/// the same decimal grammar to exactly the normalized mantissa and scale of
/// `mantissa * 10^d`, whenever that mantissa fits the representation.
/// Together with [`lemma_base_units_round_trip`] this shows the conversion
/// is exact end to end: dividing the parsed value by `10^d` recovers the
/// amount with no rounding error.
pub proof fn lemma_base_units_parse_round_trip(a: Amount, d: nat)
    requires
        a.wf(),
        !a.spec_is_negative(),
        d <= MAX_SCALE,
        norm_mant(a.mantissa as nat * pow10(d), a.scale as nat) <= MAX_MANTISSA,
    ensures
        spec_parse_decimal(spec_base_units(a, d)) == Some(
            Amount {
                negative: false,
                mantissa: norm_mant(a.mantissa as nat * pow10(d), a.scale as nat) as u128,
                scale: norm_scale(a.mantissa as nat * pow10(d), a.scale as nat) as u32,
            },
        ),
{
    let m = a.mantissa as nat;
    let s = a.scale as nat;
    let big = m * pow10(d);
    let nm = norm_mant(big, s);
    let ns = norm_scale(big, s);
    lemma_norm_value(big, s);
    let t = spec_base_units(a, d);
    assert(t == render_scaled(nm, ns));
    if ns == 0 {
        assert(t == crate::digits::dec_digits(nm));
        crate::digits::lemma_dec_digits_val(nm);
        assert(crate::digits::is_digit_char(t[0]));
        assert(t[0] != '+' && t[0] != '-' && !seq_neg(t));
        assert(strip_sign(t) == t);
        assert(forall|j: int| 0 <= j < t.len() ==> t[j] != '.') by {
            assert(forall|j: int|
                0 <= j < t.len() ==> crate::digits::is_digit_char(#[trigger] t[j]));
        }
        crate::strutil::lemma_index_of_first_none(t, '.');
        assert(int_part(t) == t);
        assert(frac_part(t) == Seq::<char>::empty());
        assert(int_part(t) + frac_part(t) =~= t);
        assert(crate::digits::all_digits(frac_part(t)));
        assert(decimal_grammar_ok(t));
        assert(crate::digits::digits_val(int_part(t) + frac_part(t)) == nm);
    } else {
        let p = pow10(ns);
        lemma_pow10_pos(ns);
        let ip = crate::digits::dec_digits(nm / p);
        let fp = pad_digits(nm % p, ns);
        assert(t == ip + seq!['.'] + fp);
        crate::digits::lemma_dec_digits_val(nm / p);
        crate::digits::lemma_pad_digits_val(nm % p, ns);
        let k = ip.len() as int;
        assert(t.len() == k + 1 + ns);
        assert(forall|j: int| 0 <= j < k ==> t[j] == ip[j]);
        assert(t[k] == '.');
        assert(forall|j: int| 0 <= j < ns ==> t[k + 1 + j] == fp[j]);
        assert(crate::digits::is_digit_char(t[0]));
        assert(t[0] != '+' && t[0] != '-' && !seq_neg(t));
        assert(strip_sign(t) == t);
        assert(forall|j: int| 0 <= j < k ==> t[j] != '.') by {
            assert(forall|j: int| 0 <= j < k ==> crate::digits::is_digit_char(#[trigger] t[j]));
        }
        crate::strutil::lemma_index_of_first_is(t, '.', k);
        assert(int_part(t) =~= ip);
        assert(frac_part(t) =~= fp);
        assert(decimal_grammar_ok(t));
        crate::digits::lemma_digits_val_append(ip, fp);
        vstd::arithmetic::div_mod::lemma_small_mod(nm % p, p);
        assert(crate::digits::digits_val(fp) == nm % p);
        vstd::arithmetic::div_mod::lemma_fundamental_div_mod(nm as int, p as int);
        assert((nm / p) * p + nm % p == nm) by (nonlinear_arith)
            requires nm == p * (nm as int / p as int) + nm as int % p as int;
        assert(crate::digits::digits_val(ip + fp) == nm);
        assert(frac_part(t).len() == ns);
    }
}

/// Converts an amount to the asset's smallest unit: the exact decimal
/// rendering of `amount * 10^decimals`.  The result has no trailing
/// fractional zeros; it is an integer string whenever the amount has no more
/// than `decimals` fractional digits.
pub fn amount_to_smallest_unit(a: &Amount, decimals: u8) -> (r: String)
    requires
        a.wf(),
        decimals <= MAX_SCALE,
    ensures
        r@ == spec_base_units(*a, decimals as nat),
{
    let d: u32 = decimals as u32;
    let m: u128 = a.mantissa;
    let s: u32 = a.scale;
    let ghost gm = m as nat;
    let ghost gs = s as nat;
    let ghost gd = d as nat;
    let mut out = String::new();
    if a.negative && m > 0 {
        proof {
            reveal_strlit("-");
        }
        out.append("-");
        proof {
            assert(out@ =~= seq!['-']);
        }
    }
    if m == 0 {
        proof {
            assert(0 * pow10(gd) == 0) by (nonlinear_arith);
            lemma_norm_zero(gs);
            reveal_strlit("0");
        }
        out.append("0");
        proof {
            assert(out@ =~= spec_base_units(*a, gd));
        }
        return out;
    }
    if d >= s {
        // No fractional digits remain: append d - s zeros to the mantissa.
        let e = d - s;
        proof {
            lemma_norm_shift_out(gm, gd, gs);
            lemma_dec_digits_mul_pow10(gm, (gd - gs) as nat);
        }
        let digs = u128_to_string(m);
        out.append(digs.as_str());
        let mut i: u32 = 0;
        let ghost base = out@;
        while i < e
            invariant
                0 <= i <= e,
                out@ =~= base + zeros(i as nat),
            decreases e - i,
        {
            proof {
                reveal_strlit("0");
            }
            out.append("0");
            proof {
                assert(out@ =~= base + zeros((i + 1) as nat));
            }
            i = i + 1;
        }
        proof {
            assert(out@ =~= spec_base_units(*a, gd));
        }
        out
    } else {
        // d < s: strip what normalization strips, then place the dot.
        let k = s - d;
        proof {
            lemma_norm_shift_in(gm, gd, gs);
        }
        let mut mm: u128 = m;
        let mut ss: u32 = k;
        while ss > 0 && mm % 10 == 0
            invariant
                mm <= m,
                ss <= k,
                k <= MAX_SCALE,
                norm_mant(mm as nat, ss as nat) == norm_mant(gm, (gs - gd) as nat),
                norm_scale(mm as nat, ss as nat) == norm_scale(gm, (gs - gd) as nat),
            decreases ss,
        {
            mm = mm / 10;
            ss = ss - 1;
        }
        proof {
            assert(norm_mant(mm as nat, ss as nat) == mm as nat);
            assert(norm_scale(mm as nat, ss as nat) == ss as nat);
        }
        if ss == 0 {
            let digs = u128_to_string(mm);
            out.append(digs.as_str());
            proof {
                assert(out@ =~= spec_base_units(*a, gd));
            }
            out
        } else {
            let p = pow10_u128(ss);
            proof {
                lemma_pow10_pos(ss as nat);
            }
            let ipart = mm / p;
            let fpart = mm % p;
            let digs = u128_to_string(ipart);
            out.append(digs.as_str());
            proof {
                reveal_strlit(".");
            }
            out.append(".");
            let frac = padded_to_string(fpart, ss);
            out.append(frac.as_str());
            proof {
                assert(out@ =~= spec_base_units(*a, gd));
            }
            out
        }
    }
}

} // verus!

// Decimal parsing: the textual grammar a configured or dynamic amount must
// match, and a verified parser for it.

verus! {

/// The input without one leading `+` or `-`.
pub open spec fn strip_sign(s: Seq<char>) -> Seq<char> {
    if s.len() > 0 && (s[0] == '+' || s[0] == '-') {
        s.skip(1)
    } else {
        s
    }
}

/// The input carries a leading minus sign.
pub open spec fn seq_neg(s: Seq<char>) -> bool {
    s.len() > 0 && s[0] == '-'
}

/// The digits before the first dot (all of the input when it has no dot).
pub open spec fn int_part(t: Seq<char>) -> Seq<char> {
    match t.index_of_first('.') {
        Some(i) => t.take(i),
        None => t,
    }
}

/// The digits after the first dot (empty when the input has no dot).
pub open spec fn frac_part(t: Seq<char>) -> Seq<char> {
    match t.index_of_first('.') {
        Some(i) => t.skip(i + 1),
        None => Seq::empty(),
    }
}

/// After the sign, the input is digits with at most one dot between them,
/// and holds at least one digit.
pub open spec fn decimal_grammar_ok(t: Seq<char>) -> bool {
    &&& crate::digits::all_digits(int_part(t))
    &&& crate::digits::all_digits(frac_part(t))
    &&& int_part(t).len() + frac_part(t).len() >= 1
}

/// What [`parse_decimal`] accepts and returns: the grammar must match, the
/// fractional digits fit the scale bound and the digits fit the mantissa
/// bound; the mantissa reads all digits with the dot removed, the scale is
/// the number of fractional digits.
pub open spec fn spec_parse_decimal(s: Seq<char>) -> Option<Amount> {
    let t = strip_sign(s);
    let ip = int_part(t);
    let fp = frac_part(t);
    if decimal_grammar_ok(t) && fp.len() <= MAX_SCALE && crate::digits::digits_val(ip + fp)
        <= MAX_MANTISSA {
        Some(
            Amount {
                negative: seq_neg(s),
                mantissa: crate::digits::digits_val(ip + fp) as u128,
                scale: fp.len() as u32,
            },
        )
    } else {
        None
    }
}

/// The digits consumed so far: everything between `a` and `i`, the dot at
/// `p` left out once seen.
spec fn consumed_digits(u: Seq<char>, a: int, i: int, has_dot: bool, p: int) -> Seq<char> {
    if has_dot {
        u.subrange(a, p) + u.subrange(p + 1, i)
    } else {
        u.subrange(a, i)
    }
}

/// Parses a decimal literal: an optional sign, digits, at most one dot.
/// Returns `None` exactly when the grammar does not match or the number
/// needs more than [`MAX_MANTISSA`] mantissa or [`MAX_SCALE`] fractional
/// digits.
#[verifier::rlimit(100)]
pub fn parse_decimal(s: &str) -> (r: Option<Amount>)
    ensures
        r == spec_parse_decimal(s@),
        r is Some ==> r.unwrap().wf(),
{
    let n = s.unicode_len();
    let mut idx0: usize = 0;
    let mut negative: bool = false;
    if n > 0 {
        let c0 = s.get_char(0);
        if c0 == '-' {
            negative = true;
            idx0 = 1;
        } else if c0 == '+' {
            idx0 = 1;
        }
    }
    let ghost t = strip_sign(s@);
    proof {
        assert(t =~= s@.skip(idx0 as int));
        assert(seq_neg(s@) == negative);
    }
    let mut i: usize = idx0;
    let mut m: u128 = 0;
    let mut has_dot: bool = false;
    let mut dotpos: usize = 0;
    while i < n
        invariant
            idx0 <= i <= n,
            idx0 <= 1,
            n == s@.len(),
            t == s@.skip(idx0 as int),
            t == strip_sign(s@),
            negative == seq_neg(s@),
            !has_dot ==> forall|j: int| idx0 <= j < i ==> crate::digits::is_digit_char(s@[j]),
            has_dot ==> idx0 <= dotpos < i,
            has_dot ==> s@[dotpos as int] == '.',
            has_dot ==> forall|j: int|
                idx0 <= j < i && j != dotpos ==> crate::digits::is_digit_char(s@[j]),
            m <= MAX_MANTISSA,
            m as nat == crate::digits::digits_val(
                consumed_digits(s@, idx0 as int, i as int, has_dot, dotpos as int),
            ),
        decreases n - i,
    {
        let c = s.get_char(i);
        let cu = c as u32;
        let ghost cons = consumed_digits(s@, idx0 as int, i as int, has_dot, dotpos as int);
        if c == '.' {
            if has_dot {
                // A second dot: the fractional part holds a non-digit.
                proof {
                    let pd = dotpos - idx0;
                    assert(forall|j: int| 0 <= j < pd ==> t[j] != '.') by {
                        assert(forall|j: int|
                            idx0 <= j < dotpos ==> crate::digits::is_digit_char(s@[j]));
                    }
                    crate::strutil::lemma_index_of_first_is(t, '.', pd);
                    let fp = frac_part(t);
                    assert(fp[i - dotpos - 1] == '.');
                    assert(!crate::digits::all_digits(fp));
                }
                return None;
            }
            has_dot = true;
            dotpos = i;
            proof {
                assert(consumed_digits(s@, idx0 as int, i as int + 1, true, i as int) =~= cons + s@
                    .subrange(i as int + 1, i as int + 1));
                assert(cons + s@.subrange(i as int + 1, i as int + 1) =~= cons);
            }
        } else if 48 <= cu && cu <= 57 {
            let dv: u128 = (cu - 48) as u128;
            if m > (MAX_MANTISSA - dv) / 10 {
                // Too many digits for the mantissa: whatever follows, the
                // full digit string reads a larger number still.
                proof {
                    crate::digits::lemma_digits_val_push(cons, c);
                    assert(crate::digits::digit_val(c) == dv as nat);
                    assert(m * 10 + dv > MAX_MANTISSA) by (nonlinear_arith)
                        requires
                            m > (MAX_MANTISSA - dv) / 10,
                            0 <= dv <= 9,
                    ;
                    let ip = int_part(t);
                    let fp = frac_part(t);
                    if has_dot {
                        let pd = dotpos - idx0;
                        assert(forall|j: int| 0 <= j < pd ==> t[j] != '.') by {
                            assert(forall|j: int|
                                idx0 <= j < dotpos ==> crate::digits::is_digit_char(s@[j]));
                        }
                        crate::strutil::lemma_index_of_first_is(t, '.', pd);
                        assert(ip + fp =~= (cons.push(c)) + s@.subrange(i as int + 1, n as int));
                        crate::digits::lemma_digits_val_append_ge(
                            cons.push(c),
                            s@.subrange(i as int + 1, n as int),
                        );
                    } else {
                        t.index_of_first_ensures('.');
                        match t.index_of_first('.') {
                            None => {
                                assert(ip + fp =~= (cons.push(c)) + s@.subrange(
                                    i as int + 1,
                                    n as int,
                                ));
                                crate::digits::lemma_digits_val_append_ge(
                                    cons.push(c),
                                    s@.subrange(i as int + 1, n as int),
                                );
                            },
                            Some(q) => {
                                assert(q > i - idx0) by {
                                    assert(forall|j: int|
                                        idx0 <= j < i ==> crate::digits::is_digit_char(s@[j]));
                                    assert(t[q] == '.');
                                    assert(crate::digits::is_digit_char('.') == false);
                                }
                                assert(ip =~= (cons.push(c)) + t.subrange(i - idx0 + 1, q));
                                crate::digits::lemma_digits_val_append_ge(
                                    cons.push(c),
                                    t.subrange(i - idx0 + 1, q),
                                );
                                crate::digits::lemma_digits_val_append_ge(ip, fp);
                            },
                        }
                    }
                    assert(crate::digits::digits_val(ip + fp) > MAX_MANTISSA);
                }
                return None;
            }
            proof {
                assert(m * 10 + dv <= MAX_MANTISSA) by (nonlinear_arith)
                    requires
                        m <= (MAX_MANTISSA - dv) / 10,
                        0 <= dv <= 9,
                ;
                crate::digits::lemma_digits_val_push(cons, c);
                if has_dot {
                    assert(consumed_digits(s@, idx0 as int, i as int + 1, true, dotpos as int)
                        =~= cons.push(c));
                } else {
                    assert(consumed_digits(s@, idx0 as int, i as int + 1, false, dotpos as int)
                        =~= cons.push(c));
                }
            }
            m = m * 10 + dv;
        } else {
            // Not a digit and not a dot: the grammar cannot match.
            proof {
                assert(!crate::digits::is_digit_char(c));
                assert(c != '.');
                if has_dot {
                    let pd = dotpos - idx0;
                    assert(forall|j: int| 0 <= j < pd ==> t[j] != '.') by {
                        assert(forall|j: int|
                            idx0 <= j < dotpos ==> crate::digits::is_digit_char(s@[j]));
                    }
                    crate::strutil::lemma_index_of_first_is(t, '.', pd);
                    let fp = frac_part(t);
                    assert(fp[i - dotpos - 1] == c);
                    assert(!crate::digits::all_digits(fp));
                } else {
                    t.index_of_first_ensures('.');
                    match t.index_of_first('.') {
                        None => {
                            assert(int_part(t)[i - idx0] == c);
                            assert(!crate::digits::all_digits(int_part(t)));
                        },
                        Some(q) => {
                            assert(q > i - idx0) by {
                                assert(forall|j: int|
                                    idx0 <= j < i ==> crate::digits::is_digit_char(s@[j]));
                                assert(t[q] == '.');
                                assert(t[i - idx0] == c);
                            }
                            assert(int_part(t)[i - idx0] == c);
                            assert(!crate::digits::all_digits(int_part(t)));
                        },
                    }
                }
            }
            return None;
        }
        i = i + 1;
    }
    let ndigits: usize = if has_dot {
        n - idx0 - 1
    } else {
        n - idx0
    };
    proof {
        if has_dot {
            let pd = dotpos - idx0;
            assert(forall|j: int| 0 <= j < pd ==> t[j] != '.') by {
                assert(forall|j: int| idx0 <= j < dotpos ==> crate::digits::is_digit_char(s@[j]));
            }
            crate::strutil::lemma_index_of_first_is(t, '.', pd);
        } else {
            assert(forall|j: int| 0 <= j < t.len() ==> t[j] != '.') by {
                assert(forall|j: int| idx0 <= j < n ==> crate::digits::is_digit_char(s@[j]));
            }
            crate::strutil::lemma_index_of_first_none(t, '.');
        }
        assert(int_part(t) + frac_part(t) =~= consumed_digits(
            s@,
            idx0 as int,
            n as int,
            has_dot,
            dotpos as int,
        ));
        assert(int_part(t).len() + frac_part(t).len() == ndigits);
    }
    if ndigits == 0 {
        return None;
    }
    let scale_len: usize = if has_dot {
        n - dotpos - 1
    } else {
        0
    };
    proof {
        assert(frac_part(t).len() == scale_len);
    }
    if scale_len > 28 {
        return None;
    }
    proof {
        assert(crate::digits::all_digits(int_part(t))) by {
            if has_dot {
                assert(forall|j: int|
                    0 <= j < int_part(t).len() ==> crate::digits::is_digit_char(
                        #[trigger] int_part(t)[j],
                    )) by {
                    assert(forall|j: int|
                        idx0 <= j < n && j != dotpos ==> crate::digits::is_digit_char(s@[j]));
                }
            } else {
                assert(forall|j: int|
                    0 <= j < int_part(t).len() ==> crate::digits::is_digit_char(
                        #[trigger] int_part(t)[j],
                    )) by {
                    assert(forall|j: int| idx0 <= j < n ==> crate::digits::is_digit_char(s@[j]));
                }
            }
        }
        assert(crate::digits::all_digits(frac_part(t))) by {
            assert(forall|j: int|
                0 <= j < frac_part(t).len() ==> crate::digits::is_digit_char(
                    #[trigger] frac_part(t)[j],
                )) by {
                if has_dot {
                    assert(forall|j: int|
                        idx0 <= j < n && j != dotpos ==> crate::digits::is_digit_char(s@[j]));
                }
            }
        }
        assert(decimal_grammar_ok(t));
    }
    Some(Amount { negative, mantissa: m, scale: scale_len as u32 })
}

} // verus!
