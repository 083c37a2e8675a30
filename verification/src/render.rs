//! Decimal rendering of the report's numbers.
//!
//! Durations are printed in the largest fitting unit (`s`, `ms`, `µs`, `ns`)
//! with exactly two fractional digits, rounding half up. Peak memory is
//! printed in megabytes with two fractional digits, rounding half to even,
//! which is how a binary fraction of a mebibyte comes out of standard
//! floating-point display.

use vstd::prelude::*;
use vstd::arithmetic::div_mod::*;
use crate::duration::Duration;

verus! {

/// The character for one decimal digit.
pub open spec fn digit_char(d: nat) -> char {
    if d == 0 {
        '0'
    } else if d == 1 {
        '1'
    } else if d == 2 {
        '2'
    } else if d == 3 {
        '3'
    } else if d == 4 {
        '4'
    } else if d == 5 {
        '5'
    } else if d == 6 {
        '6'
    } else if d == 7 {
        '7'
    } else if d == 8 {
        '8'
    } else {
        '9'
    }
}

/// The decimal digits of `n`, most significant first, with no leading zeros
/// (a single `'0'` for zero).
pub open spec fn dec_digits(n: nat) -> Seq<char>
    decreases n,
{
    if n < 10 {
        seq![digit_char(n)]
    } else {
        dec_digits(n / 10) + seq![digit_char(n % 10)]
    }
}

/// The decimal digits of a signed value: a minus sign before the magnitude.
pub open spec fn dec_digits_signed(n: int) -> Seq<char> {
    if n < 0 {
        seq!['-'] + dec_digits((-n) as nat)
    } else {
        dec_digits(n as nat)
    }
}

/// Exactly two digits, for a value of hundredths below one hundred.
pub open spec fn two_frac_digits(h: nat) -> Seq<char>
    recommends
        h < 100,
{
    seq![digit_char(h / 10), digit_char(h % 10)]
}

/// `frac / denom` scaled to hundredths and rounded half up.
pub open spec fn round_hundredths_up(frac: nat, denom: nat) -> nat
    recommends
        1 <= denom,
        frac < denom,
{
    (frac * 100 + denom / 2) / denom
}

/// A value of `ip + frac / denom` units, shown with two fractional digits,
/// rounded half up; rounding may carry into the integer part.
pub open spec fn spec_fmt_unit(ip: nat, frac: nat, denom: nat, unit: Seq<char>) -> Seq<char>
    recommends
        1 <= denom,
        frac < denom,
{
    let h = round_hundredths_up(frac, denom);
    if h >= 100 {
        dec_digits(ip + 1) + seq!['.'] + two_frac_digits(0) + unit
    } else {
        dec_digits(ip) + seq!['.'] + two_frac_digits(h) + unit
    }
}

/// A duration of `secs` seconds and `nanos` extra nanoseconds, in the largest
/// unit whose value reaches one, with two fractional digits.
pub open spec fn spec_fmt_duration_parts(secs: nat, nanos: nat) -> Seq<char>
    recommends
        nanos < 1_000_000_000,
{
    if secs > 0 {
        spec_fmt_unit(secs, nanos, 1_000_000_000, "s"@)
    } else if nanos >= 1_000_000 {
        spec_fmt_unit(nanos / 1_000_000, nanos % 1_000_000, 1_000_000, "ms"@)
    } else if nanos >= 1_000 {
        spec_fmt_unit(nanos / 1_000, nanos % 1_000, 1_000, "µs"@)
    } else {
        spec_fmt_unit(nanos, 0, 1, "ns"@)
    }
}

/// A duration given as a count of nanoseconds.
pub open spec fn spec_fmt_duration(n: nat) -> Seq<char> {
    spec_fmt_duration_parts(n / 1_000_000_000, n % 1_000_000_000)
}

/// `bytes` as hundredths of a megabyte (2^20 bytes), rounded half to even.
pub open spec fn rss_hundredths(bytes: nat) -> nat {
    let q = bytes * 100 / 1048576;
    let r = bytes * 100 % 1048576;
    if r > 524288 || (r == 524288 && q % 2 == 1) {
        q + 1
    } else {
        q
    }
}

/// `bytes` in megabytes with two fractional digits, as the report shows it.
pub open spec fn spec_fmt_rss_mb(bytes: nat) -> Seq<char> {
    let h = rss_hundredths(bytes);
    dec_digits(h / 100) + seq!['.'] + two_frac_digits(h % 100)
}

/// The one-character string for a decimal digit.
fn digit_str(d: u64) -> (r: &'static str)
    requires
        d < 10,
    ensures
        r@ == seq![digit_char(d as nat)],
{
    proof {
        reveal_strlit("0");
        reveal_strlit("1");
        reveal_strlit("2");
        reveal_strlit("3");
        reveal_strlit("4");
        reveal_strlit("5");
        reveal_strlit("6");
        reveal_strlit("7");
        reveal_strlit("8");
        reveal_strlit("9");
        assert("0"@ =~= seq!['0']);
        assert("1"@ =~= seq!['1']);
        assert("2"@ =~= seq!['2']);
        assert("3"@ =~= seq!['3']);
        assert("4"@ =~= seq!['4']);
        assert("5"@ =~= seq!['5']);
        assert("6"@ =~= seq!['6']);
        assert("7"@ =~= seq!['7']);
        assert("8"@ =~= seq!['8']);
        assert("9"@ =~= seq!['9']);
    }
    match d {
        0 => "0",
        1 => "1",
        2 => "2",
        3 => "3",
        4 => "4",
        5 => "5",
        6 => "6",
        7 => "7",
        8 => "8",
        _ => "9",
    }
}

/// Appends the decimal digits of `n` to `s`.
pub fn push_dec_digits(s: &mut String, n: u128)
    ensures
        final(s)@ == old(s)@ + dec_digits(n as nat),
    decreases n,
{
    if n >= 10 {
        proof {
            assert(n / 10 < n) by (nonlinear_arith)
                requires
                    n >= 10,
            ;
        }
        push_dec_digits(s, n / 10);
        s.append(digit_str((n % 10) as u64));
        proof {
            assert(s@ =~= old(s)@ + dec_digits(n as nat));
        }
    } else {
        s.append(digit_str(n as u64));
        proof {
            assert(s@ =~= old(s)@ + dec_digits(n as nat));
        }
    }
}

/// Appends the decimal digits of a signed value, minus sign included.
pub fn push_dec_digits_signed(s: &mut String, n: i64)
    ensures
        final(s)@ == old(s)@ + dec_digits_signed(n as int),
{
    if n < 0 {
        proof {
            reveal_strlit("-");
            assert("-"@ =~= seq!['-']);
        }
        s.append("-");
        let m: u128 = (-(n as i128)) as u128;
        push_dec_digits(s, m);
        proof {
            assert(s@ =~= old(s)@ + dec_digits_signed(n as int));
        }
    } else {
        push_dec_digits(s, n as u128);
    }
}

/// Appends exactly two digits for a count of hundredths.
fn push_two_frac_digits(s: &mut String, h: u64)
    requires
        h < 100,
    ensures
        final(s)@ == old(s)@ + two_frac_digits(h as nat),
{
    s.append(digit_str(h / 10));
    s.append(digit_str(h % 10));
    proof {
        assert(s@ =~= old(s)@ + two_frac_digits(h as nat));
    }
}

/// Appends `ip + frac / denom` units with two fractional digits, rounded
/// half up, then the unit's name.
fn push_unit_value(s: &mut String, ip: u64, frac: u64, denom: u64, unit: &str)
    requires
        1 <= denom <= 1_000_000_000,
        frac < denom,
    ensures
        final(s)@ == old(s)@ + spec_fmt_unit(ip as nat, frac as nat, denom as nat, unit@),
{
    proof {
        reveal_strlit(".");
        assert("."@ =~= seq!['.']);
        assert(frac as int * 100 + denom as int / 2 < 101 * denom as int) by (nonlinear_arith)
            requires
                1 <= denom,
                frac < denom,
        ;
        assert((frac as int * 100 + denom as int / 2) / (denom as int) < 101) by (nonlinear_arith)
            requires
                1 <= denom as int,
                frac as int * 100 + denom as int / 2 < 101 * denom as int,
        ;
    }
    let h: u64 = (frac * 100 + denom / 2) / denom;
    if h >= 100 {
        push_dec_digits(s, ip as u128 + 1);
        s.append(".");
        push_two_frac_digits(s, 0);
        s.append(unit);
    } else {
        push_dec_digits(s, ip as u128);
        s.append(".");
        push_two_frac_digits(s, h);
        s.append(unit);
    }
    proof {
        assert(s@ =~= old(s)@ + spec_fmt_unit(ip as nat, frac as nat, denom as nat, unit@));
    }
}

/// Renders a duration: largest fitting unit, two fractional digits.
pub fn format_duration(d: &Duration) -> (s: String)
    requires
        d.wf(),
    ensures
        s@ == spec_fmt_duration(d.as_nanos()),
{
    proof {
        lemma_fundamental_div_mod_converse(
            d.as_nanos() as int,
            1_000_000_000,
            d.secs as int,
            d.nanos as int,
        );
    }
    let mut s = String::new();
    if d.secs > 0 {
        push_unit_value(&mut s, d.secs, d.nanos as u64, 1_000_000_000, "s");
    } else if d.nanos >= 1_000_000 {
        push_unit_value(
            &mut s,
            (d.nanos / 1_000_000) as u64,
            (d.nanos % 1_000_000) as u64,
            1_000_000,
            "ms",
        );
    } else if d.nanos >= 1_000 {
        push_unit_value(&mut s, (d.nanos / 1_000) as u64, (d.nanos % 1_000) as u64, 1_000, "µs");
    } else {
        push_unit_value(&mut s, d.nanos as u64, 0, 1, "ns");
    }
    s
}

/// Renders a byte count as megabytes with two fractional digits, rounded
/// half to even.
pub fn format_rss_mb(bytes: u64) -> (s: String)
    ensures
        s@ == spec_fmt_rss_mb(bytes as nat),
{
    proof {
        reveal_strlit(".");
        assert("."@ =~= seq!['.']);
    }
    let scaled: u128 = bytes as u128 * 100;
    let q: u128 = scaled / 1048576;
    let r: u128 = scaled % 1048576;
    let h: u128 = if r > 524288 || (r == 524288 && q % 2 == 1) {
        q + 1
    } else {
        q
    };
    proof {
        assert(h == rss_hundredths(bytes as nat));
    }
    let mut s = String::new();
    push_dec_digits(&mut s, h / 100);
    s.append(".");
    push_two_frac_digits(&mut s, (h % 100) as u64);
    proof {
        assert(s@ =~= spec_fmt_rss_mb(bytes as nat));
    }
    s
}

} // verus!
