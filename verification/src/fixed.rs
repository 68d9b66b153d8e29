//! Fixed-point decimal amounts.
//!
//! Every quantity in the library (asset prices, exchange rates, provider
//! factors, entered amounts, computed quotes) is a non-negative fixed-point
//! decimal scaled by `SCALE`: the stored integer counts hundred-millionths,
//! so eight fractional digits are representable. Amounts entered by the user
//! are parsed from decimal strings; values below the resolution of one
//! hundred-millionth parse to zero and are treated as non-positive.

use crate::text::string_push;
use vstd::prelude::*;

verus! {

/// One whole unit, in fixed-point steps: eight fractional digits.
pub const SCALE: u64 = 100_000_000;

/// Number of fractional digits carried by a fixed-point value.
pub const FRAC_DIGITS: u64 = 8;

/// Largest accepted whole part of an entered amount (one hundred million).
pub const WHOLE_MAX: u64 = 100_000_000;

/// Largest accepted entered amount, scaled: `WHOLE_MAX` whole units.
pub const AMOUNT_MAX: u64 = 10_000_000_000_000_000;

/// Largest exchange rate a catalog may hold, scaled (one hundred thousand).
pub const RATE_MAX: u64 = 10_000_000_000_000;

/// Largest provider adjustment factor, scaled (a factor of ten).
pub const FACTOR_MAX: u64 = 1_000_000_000;

/// Whether `c` is a decimal digit.
pub open spec fn spec_is_digit(c: char) -> bool {
    '0' <= c && c <= '9'
}

/// The numeric value of the digit `c`.
pub open spec fn spec_digit_val(c: char) -> int {
    c as int - '0' as int
}

/// Whether every character of `s` is a decimal digit.
pub open spec fn all_digits(s: Seq<char>) -> bool {
    forall|i: int| 0 <= i < s.len() ==> spec_is_digit(#[trigger] s[i])
}

/// The value of a digit string read in base ten; the empty string reads as zero.
pub open spec fn digits_val(s: Seq<char>) -> int
    decreases s.len(),
{
    if s.len() == 0 {
        0
    } else {
        digits_val(s.drop_last()) * 10 + spec_digit_val(s.last())
    }
}

/// Ten to the power `e`.
pub open spec fn pow10(e: nat) -> int
    decreases e,
{
    if e == 0 {
        1
    } else {
        10 * pow10((e - 1) as nat)
    }
}

/// Index of the first `'.'` in `s`, or `s.len()` if there is none.
pub open spec fn dot_pos(s: Seq<char>) -> int {
    match s.index_of_first('.') {
        Some(i) => i,
        None => s.len() as int,
    }
}

/// The digits before the first `'.'` of `s` (all of `s` if there is none).
pub open spec fn whole_part(s: Seq<char>) -> Seq<char> {
    s.subrange(0, dot_pos(s))
}

/// The digits after the first `'.'` of `s` (empty if there is none).
pub open spec fn frac_part(s: Seq<char>) -> Seq<char> {
    if dot_pos(s) == s.len() {
        Seq::empty()
    } else {
        s.subrange(dot_pos(s) + 1, s.len() as int)
    }
}

/// The scaled value that the amount string `s` denotes.
pub open spec fn amount_val(s: Seq<char>) -> int {
    digits_val(whole_part(s)) * SCALE + digits_val(frac_part(s)) * pow10(
        (FRAC_DIGITS - frac_part(s).len()) as nat,
    )
}

/// Whether `s` is a well-formed amount string: digits with at most one
/// decimal point, at least one digit, at most `FRAC_DIGITS` fractional
/// digits, and a denoted value of at most `AMOUNT_MAX`.
pub open spec fn amount_wf(s: Seq<char>) -> bool {
    &&& all_digits(whole_part(s))
    &&& all_digits(frac_part(s))
    &&& whole_part(s).len() + frac_part(s).len() >= 1
    &&& frac_part(s).len() <= FRAC_DIGITS
    &&& 0 <= amount_val(s) <= AMOUNT_MAX
}

pub proof fn lemma_pow10_pos(e: nat)
    ensures
        pow10(e) >= 1,
    decreases e,
{
    if e > 0 {
        lemma_pow10_pos((e - 1) as nat);
    }
}

pub proof fn lemma_pow10_adds(a: nat, b: nat)
    ensures
        pow10(a + b) == pow10(a) * pow10(b),
    decreases a,
{
    if a == 0 {
    } else {
        lemma_pow10_adds((a - 1) as nat, b);
        assert(pow10(a + b) == 10 * pow10((a + b - 1) as nat));
        assert(10 * (pow10((a - 1) as nat) * pow10(b)) == (10 * pow10((a - 1) as nat)) * pow10(b))
            by (nonlinear_arith);
    }
}

/// The first few powers of ten, spelled out for the solver.
pub proof fn lemma_pow10_small()
    ensures
        pow10(0nat) == 1,
        pow10(1nat) == 10,
        pow10(2nat) == 100,
        pow10(3nat) == 1_000,
        pow10(4nat) == 10_000,
        pow10(5nat) == 100_000,
        pow10(6nat) == 1_000_000,
        pow10(7nat) == 10_000_000,
        pow10(8nat) == 100_000_000,
{
    assert(pow10(0nat) == 1);
    assert(pow10(1nat) == 10);
    assert(pow10(2nat) == 100);
    assert(pow10(3nat) == 1_000);
    assert(pow10(4nat) == 10_000);
    assert(pow10(5nat) == 100_000);
    assert(pow10(6nat) == 1_000_000);
    assert(pow10(7nat) == 10_000_000);
    assert(pow10(8nat) == 100_000_000);
}

/// A digit string is non-negative and bounded by ten to its length.
pub proof fn lemma_digits_val_bounds(s: Seq<char>)
    requires
        all_digits(s),
    ensures
        0 <= digits_val(s) < pow10(s.len()),
    decreases s.len(),
{
    if s.len() == 0 {
    } else {
        lemma_digits_val_bounds(s.drop_last());
        assert(spec_is_digit(s[s.len() - 1]));
        assert(digits_val(s.drop_last()) <= pow10((s.len() - 1) as nat) - 1);
        assert(digits_val(s.drop_last()) * 10 <= (pow10((s.len() - 1) as nat) - 1) * 10)
            by (nonlinear_arith)
            requires
                digits_val(s.drop_last()) <= pow10((s.len() - 1) as nat) - 1,
        ;
    }
}

/// Extending a digit string cannot decrease its value.
pub proof fn lemma_digits_val_prefix(s: Seq<char>, i: int)
    requires
        all_digits(s),
        0 <= i <= s.len(),
    ensures
        digits_val(s.subrange(0, i)) <= digits_val(s),
    decreases s.len() - i,
{
    if i == s.len() {
        assert(s.subrange(0, i) =~= s);
    } else {
        lemma_digits_val_prefix(s, i + 1);
        let p = s.subrange(0, i + 1);
        assert(p.drop_last() =~= s.subrange(0, i));
        assert(spec_is_digit(p.last()));
        lemma_digits_val_bounds(s.subrange(0, i));
        assert(digits_val(s.subrange(0, i)) <= digits_val(s.subrange(0, i)) * 10 + spec_digit_val(
            p.last(),
        )) by (nonlinear_arith)
            requires
                digits_val(s.subrange(0, i)) >= 0,
                spec_digit_val(p.last()) >= 0,
        ;
    }
}

/// Whether `c` is a decimal digit.
pub fn is_digit(c: char) -> (r: bool)
    ensures
        r == spec_is_digit(c),
{
    '0' <= c && c <= '9'
}

/// The numeric value of the digit `c`.
pub fn digit_val(c: char) -> (r: u64)
    requires
        spec_is_digit(c),
    ensures
        r == spec_digit_val(c),
{
    (c as u32 - '0' as u32) as u64
}

/// Ten to the power `e`, as a machine integer.
pub fn pow10_u64(e: u64) -> (r: u64)
    requires
        e <= FRAC_DIGITS,
    ensures
        r == pow10(e as nat),
{
    let mut r: u64 = 1;
    let mut i: u64 = 0;
    while i < e
        invariant
            i <= e,
            e <= FRAC_DIGITS,
            r == pow10(i as nat),
        decreases e - i,
    {
        proof {
            lemma_pow10_pos(i as nat);
            lemma_pow10_adds(i as nat, (FRAC_DIGITS - i) as nat);
            lemma_pow10_pos((FRAC_DIGITS - i) as nat);
            assert(pow10(i as nat) * 1 <= pow10(i as nat) * pow10((FRAC_DIGITS - i) as nat))
                by (nonlinear_arith)
                requires
                    pow10(i as nat) >= 1,
                    pow10((FRAC_DIGITS - i) as nat) >= 1,
            ;
            lemma_pow10_small();
        }
        r = r * 10;
        i = i + 1;
    }
    r
}

/// Parses an amount string into its scaled value. Returns the denoted value
/// exactly when the string is well-formed (`amount_wf`), and nothing
/// otherwise: on a stray character, more than one decimal point, no digit at
/// all, more than `FRAC_DIGITS` fractional digits, or a value above
/// `AMOUNT_MAX`.
pub fn parse_amount(s: &str) -> (r: Option<u64>)
    ensures
        amount_wf(s@) ==> r == Some(amount_val(s@) as u64),
        !amount_wf(s@) ==> r is None,
{
    proof {
        s@.index_of_first_ensures('.');
    }
    let n = s.unicode_len();
    // Locate the first decimal point.
    let mut dot: usize = 0;
    while dot < n && s.get_char(dot) != '.'
        invariant
            0 <= dot <= n,
            n == s@.len(),
            forall|j: int| 0 <= j < dot ==> s@[j] != '.',
        decreases n - dot,
    {
        dot = dot + 1;
    }
    proof {
        assert(dot == dot_pos(s@));
    }
    let frac_len: usize = if dot < n {
        n - dot - 1
    } else {
        0
    };
    proof {
        assert(frac_len == frac_part(s@).len());
        assert(dot == whole_part(s@).len());
    }
    if frac_len > 8 {
        return None;
    }
    if dot == 0 && frac_len == 0 {
        // No digit at all: the string is empty or a lone decimal point.
        return None;
    }
    // Read the whole part, rejecting values that cannot stay under the cap.
    let mut whole: u64 = 0;
    let mut j: usize = 0;
    while j < dot
        invariant
            0 <= j <= dot,
            dot <= n,
            n == s@.len(),
            dot == dot_pos(s@),
            whole == digits_val(s@.subrange(0, j as int)),
            whole <= WHOLE_MAX,
            forall|k: int| 0 <= k < j ==> spec_is_digit(#[trigger] s@[k]),
        decreases dot - j,
    {
        let c = s.get_char(j);
        if !is_digit(c) {
            proof {
                assert(whole_part(s@)[j as int] == c);
            }
            return None;
        }
        let d = digit_val(c);
        proof {
            let p = s@.subrange(0, j + 1);
            assert(p.drop_last() =~= s@.subrange(0, j as int));
        }
        if whole > (WHOLE_MAX - d) / 10 {
            // The whole part already exceeds the cap; the amount cannot be valid.
            proof {
                let p = s@.subrange(0, j + 1);
                assert(digits_val(p) == whole * 10 + d > WHOLE_MAX);
                if amount_wf(s@) {
                    assert(whole_part(s@).subrange(0, j + 1) =~= p);
                    lemma_digits_val_prefix(whole_part(s@), j + 1);
                    lemma_digits_val_bounds(frac_part(s@));
                    lemma_pow10_pos((FRAC_DIGITS - frac_part(s@).len()) as nat);
                    assert(digits_val(whole_part(s@)) >= WHOLE_MAX + 1);
                    assert(digits_val(whole_part(s@)) * SCALE >= (WHOLE_MAX + 1) * SCALE)
                        by (nonlinear_arith)
                        requires
                            digits_val(whole_part(s@)) >= WHOLE_MAX + 1,
                    ;
                    assert(digits_val(frac_part(s@)) * pow10(
                        (FRAC_DIGITS - frac_part(s@).len()) as nat,
                    ) >= 0) by (nonlinear_arith)
                        requires
                            digits_val(frac_part(s@)) >= 0,
                            pow10((FRAC_DIGITS - frac_part(s@).len()) as nat) >= 1,
                    ;
                    assert(amount_val(s@) > AMOUNT_MAX);
                }
            }
            return None;
        }
        whole = whole * 10 + d;
        j = j + 1;
    }
    proof {
        assert(s@.subrange(0, dot as int) =~= whole_part(s@));
    }
    // Read the fractional part.
    let mut frac: u64 = 0;
    if dot < n {
        let mut k: usize = dot + 1;
        while k < n
            invariant
                dot + 1 <= k <= n,
                n == s@.len(),
                dot == dot_pos(s@),
                dot < n,
                n - dot - 1 <= 8,
                frac == digits_val(s@.subrange(dot + 1, k as int)),
                0 <= frac < pow10((k - dot - 1) as nat),
                forall|m: int| dot + 1 <= m < k ==> spec_is_digit(#[trigger] s@[m]),
            decreases n - k,
        {
            let c = s.get_char(k);
            if !is_digit(c) {
                proof {
                    assert(frac_part(s@)[k - dot - 1] == c);
                }
                return None;
            }
            let d = digit_val(c);
            proof {
                let p = s@.subrange(dot + 1, k + 1);
                assert(p.drop_last() =~= s@.subrange(dot + 1, k as int));
                lemma_pow10_adds((k - dot - 1) as nat, 1nat);
                lemma_pow10_pos((k - dot - 1) as nat);
                assert(pow10((k - dot - 1) as nat) <= pow10(8nat)) by {
                    lemma_pow10_adds((k - dot - 1) as nat, (8 - (k - dot - 1)) as nat);
                    lemma_pow10_pos((8 - (k - dot - 1)) as nat);
                    assert(pow10((k - dot - 1) as nat) * 1 <= pow10((k - dot - 1) as nat) * pow10(
                        (8 - (k - dot - 1)) as nat,
                    )) by (nonlinear_arith)
                        requires
                            pow10((k - dot - 1) as nat) >= 1,
                            pow10((8 - (k - dot - 1)) as nat) >= 1,
                    ;
                }
                lemma_pow10_small();
                assert(frac * 10 + d < pow10((k - dot) as nat)) by (nonlinear_arith)
                    requires
                        frac < pow10((k - dot - 1) as nat),
                        d <= 9,
                        pow10((k - dot) as nat) == pow10((k - dot - 1) as nat) * 10,
                ;
                assert(pow10((k - dot) as nat) <= pow10(8nat)) by {
                    lemma_pow10_adds((k - dot) as nat, (8 - (k - dot)) as nat);
                    lemma_pow10_pos((8 - (k - dot)) as nat);
                    assert(pow10((k - dot) as nat) * 1 <= pow10((k - dot) as nat) * pow10(
                        (8 - (k - dot)) as nat,
                    )) by (nonlinear_arith)
                        requires
                            pow10((k - dot) as nat) >= 1,
                            pow10((8 - (k - dot)) as nat) >= 1,
                    ;
                }
            }
            frac = frac * 10 + d;
            k = k + 1;
        }
        proof {
            assert(s@.subrange(dot + 1, n as int) =~= frac_part(s@));
        }
    }
    // Scale the fractional digits out to eight places and combine.
    let fscale = pow10_u64(8 - frac_len as u64);
    proof {
        lemma_pow10_adds(frac_len as nat, (8 - frac_len) as nat);
        lemma_pow10_small();
        lemma_digits_val_bounds(frac_part(s@));
        assert(frac * fscale < pow10(frac_len as nat) * pow10((8 - frac_len) as nat))
            by (nonlinear_arith)
            requires
                0 <= frac < pow10(frac_len as nat),
                fscale == pow10((8 - frac_len) as nat),
                fscale >= 1,
        ;
        lemma_pow10_pos((8 - frac_len) as nat);
    }
    let value = whole * SCALE + frac * fscale;
    if value > AMOUNT_MAX {
        proof {
            assert(amount_val(s@) == value);
        }
        return None;
    }
    proof {
        assert(amount_wf(s@));
        assert(amount_val(s@) == value);
    }
    Some(value)
}

/// The character for the decimal digit `d`.
pub open spec fn spec_char_of_digit(d: int) -> char {
    if d == 0 {
        '0'
    } else if d == 1 {
        '1'
    } else if d == 2 {
        '2'
    } else if d == 3 {
        '3'
    } else if d == 4 {
        '4'
    } else if d == 5 {
        '5'
    } else if d == 6 {
        '6'
    } else if d == 7 {
        '7'
    } else if d == 8 {
        '8'
    } else {
        '9'
    }
}

/// The character for the hexadecimal digit `d`, lower case.
pub open spec fn spec_char_of_hex(d: int) -> char {
    if d < 10 {
        spec_char_of_digit(d)
    } else if d == 10 {
        'a'
    } else if d == 11 {
        'b'
    } else if d == 12 {
        'c'
    } else if d == 13 {
        'd'
    } else if d == 14 {
        'e'
    } else {
        'f'
    }
}

/// The decimal digits of the non-negative number `n`, most significant first.
pub open spec fn dec_chars(n: int) -> Seq<char>
    recommends
        n >= 0,
    decreases n,
{
    if n < 10 {
        seq![spec_char_of_digit(n)]
    } else {
        dec_chars(n / 10).push(spec_char_of_digit(n % 10))
    }
}

/// The last `w` decimal digits of `n`, zero-padded to exactly `w` characters.
pub open spec fn dec_chars_padded(n: int, w: nat) -> Seq<char>
    decreases w,
{
    if w == 0 {
        Seq::empty()
    } else {
        dec_chars_padded(n / 10, (w - 1) as nat).push(spec_char_of_digit(n % 10))
    }
}

/// The hexadecimal digits of the non-negative number `n`, most significant
/// first, lower case, without leading zeros.
pub open spec fn hex_chars(n: int) -> Seq<char>
    recommends
        n >= 0,
    decreases n,
{
    if n < 16 {
        seq![spec_char_of_hex(n)]
    } else {
        hex_chars(n / 16).push(spec_char_of_hex(n % 16))
    }
}

/// A fixed-point value rendered in decimal: the whole part, a point, and all
/// eight fractional digits.
pub open spec fn fixed_chars(v: int) -> Seq<char> {
    dec_chars(v / (SCALE as int)) + seq!['.'] + dec_chars_padded(v % (SCALE as int), 8nat)
}

/// The character for the decimal digit `d`.
pub fn char_of_digit(d: u64) -> (c: char)
    requires
        d < 10,
    ensures
        c == spec_char_of_digit(d as int),
{
    if d == 0 {
        '0'
    } else if d == 1 {
        '1'
    } else if d == 2 {
        '2'
    } else if d == 3 {
        '3'
    } else if d == 4 {
        '4'
    } else if d == 5 {
        '5'
    } else if d == 6 {
        '6'
    } else if d == 7 {
        '7'
    } else if d == 8 {
        '8'
    } else {
        '9'
    }
}

/// The character for the hexadecimal digit `d`, lower case.
pub fn char_of_hex(d: u64) -> (c: char)
    requires
        d < 16,
    ensures
        c == spec_char_of_hex(d as int),
{
    if d < 10 {
        char_of_digit(d)
    } else if d == 10 {
        'a'
    } else if d == 11 {
        'b'
    } else if d == 12 {
        'c'
    } else if d == 13 {
        'd'
    } else if d == 14 {
        'e'
    } else {
        'f'
    }
}

/// Appends the decimal rendering of `n` to `out`.
pub fn push_dec(out: &mut String, n: u128)
    ensures
        final(out)@ == old(out)@ + dec_chars(n as int),
    decreases n,
{
    if n >= 10 {
        push_dec(out, n / 10);
    }
    let d = (n % 10) as u64;
    string_push(out, char_of_digit(d));
    proof {
        if n < 10 {
            assert(old(out)@.push(spec_char_of_digit(n as int)) =~= old(out)@ + dec_chars(
                n as int,
            ));
        } else {
            assert((old(out)@ + dec_chars(n as int / 10)).push(spec_char_of_digit(n as int % 10))
                =~= old(out)@ + dec_chars(n as int));
        }
    }
}

/// Appends exactly `w` decimal digits of `n` to `out`, zero-padded.
pub fn push_dec_padded(out: &mut String, n: u64, w: u64)
    ensures
        final(out)@ == old(out)@ + dec_chars_padded(n as int, w as nat),
    decreases w,
{
    if w > 0 {
        push_dec_padded(out, n / 10, w - 1);
        let d = n % 10;
        string_push(out, char_of_digit(d));
        proof {
            assert((old(out)@ + dec_chars_padded(n as int / 10, (w - 1) as nat)).push(
                spec_char_of_digit(n as int % 10),
            ) =~= old(out)@ + dec_chars_padded(n as int, w as nat));
        }
    } else {
        proof {
            assert(old(out)@ + dec_chars_padded(n as int, 0nat) =~= old(out)@);
        }
    }
}

/// Appends the hexadecimal rendering of `n` to `out`.
pub fn push_hex(out: &mut String, n: u128)
    ensures
        final(out)@ == old(out)@ + hex_chars(n as int),
    decreases n,
{
    if n >= 16 {
        push_hex(out, n / 16);
    }
    let d = (n % 16) as u64;
    string_push(out, char_of_hex(d));
    proof {
        if n < 16 {
            assert(old(out)@.push(spec_char_of_hex(n as int)) =~= old(out)@ + hex_chars(n as int));
        } else {
            assert((old(out)@ + hex_chars(n as int / 16)).push(spec_char_of_hex(n as int % 16))
                =~= old(out)@ + hex_chars(n as int));
        }
    }
}

/// Renders a fixed-point value in decimal, with the full eight fractional
/// digits.
pub fn format_fixed(v: u128) -> (r: String)
    ensures
        r@ == fixed_chars(v as int),
{
    let mut out = String::new();
    push_dec(&mut out, v / (SCALE as u128));
    string_push(&mut out, '.');
    let frac = (v % (SCALE as u128)) as u64;
    push_dec_padded(&mut out, frac, 8);
    proof {
        assert(out@ =~= fixed_chars(v as int));
    }
    out
}

} // verus!
