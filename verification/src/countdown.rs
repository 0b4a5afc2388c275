//! The remaining time of the subathon as it is shown on stream:
//! `[days:]hours:minutes:seconds`, minutes and seconds on two digits.

use vstd::prelude::*;
use chrono::TimeDelta;

verus! {

#[verifier::external_type_specification]
#[verifier::external_body]
pub struct ExTimeDelta(TimeDelta);

/// The whole seconds of a duration, as `chrono::TimeDelta::num_seconds`
/// gives them (rounded toward zero); it depends on the duration alone.
pub uninterp spec fn whole_seconds(duration: TimeDelta) -> i64;

/// `chrono::TimeDelta::num_seconds`: the whole seconds of the duration
/// (rounded toward zero), named [`whole_seconds`].  How they follow from the
/// duration's inner seconds and nanoseconds is not stated: the duration is
/// opaque here.
#[verifier::external_body]
fn num_seconds(duration: &TimeDelta) -> (s: i64)
    ensures
        s == whole_seconds(*duration),
{
    duration.num_seconds()
}

/// Division rounding toward zero, as Rust's `/` on integers does (`d > 0`).
pub open spec fn div_toward_zero(a: int, d: int) -> int {
    if a >= 0 {
        a / d
    } else {
        -((-a) / d)
    }
}

/// The remainder that goes with [`div_toward_zero`], as Rust's `%` (it has the sign of `a`).
pub open spec fn rem_toward_zero(a: int, d: int) -> int {
    a - d * div_toward_zero(a, d)
}

/// The character of the decimal digit `d` (`d < 10`).
pub open spec fn digit_char(d: nat) -> char {
    if d == 0 {
        '0'
    } else if d == 1 {
        '1'
    } else if d == 2 {
        '2'
    } else if d == 3 {
        '3'
    } else if d == 4 {
        '4'
    } else if d == 5 {
        '5'
    } else if d == 6 {
        '6'
    } else if d == 7 {
        '7'
    } else if d == 8 {
        '8'
    } else {
        '9'
    }
}

/// The decimal digits of `n`, most significant first, without leading zeros.
pub open spec fn digits(n: nat) -> Seq<char>
    decreases n,
{
    if n < 10 {
        seq![digit_char(n)]
    } else {
        digits(n / 10).push(digit_char(n % 10))
    }
}

/// The decimal text of `n`, with a `-` in front when it is negative.
pub open spec fn decimal(n: int) -> Seq<char> {
    if n < 0 {
        seq!['-'] + digits((-n) as nat)
    } else {
        digits(n as nat)
    }
}

/// The text shown for a duration of `s` whole seconds: the days and a colon
/// when there is at least one day, then the hours of the day, the minutes
/// of the hour and the seconds of the minute, separated by colons, a `0` in
/// front of minutes and seconds below ten.  Each part is the whole count
/// (rounded toward zero) less the whole count of the next larger unit, so
/// that a negative duration has negative parts.
pub open spec fn spec_format(s: int) -> Seq<char> {
    let days = div_toward_zero(s, 86400);
    let hours = rem_toward_zero(div_toward_zero(s, 3600), 24);
    let minutes = rem_toward_zero(div_toward_zero(s, 60), 60);
    let seconds = rem_toward_zero(s, 60);
    (if days > 0 {
        decimal(days) + ":"@
    } else {
        Seq::<char>::empty()
    }) + decimal(hours) + ":"@ + (if minutes < 10 {
        "0"@
    } else {
        Seq::<char>::empty()
    }) + decimal(minutes) + ":"@ + (if seconds < 10 {
        "0"@
    } else {
        Seq::<char>::empty()
    }) + decimal(seconds)
}

/// Whether `c` is a decimal digit.
pub open spec fn is_digit(c: char) -> bool {
    c == '0' || c == '1' || c == '2' || c == '3' || c == '4' || c == '5' || c == '6' || c == '7'
        || c == '8' || c == '9'
}

/// The value of the decimal digit `c`.
pub open spec fn digit_value(c: char) -> nat {
    if c == '1' {
        1
    } else if c == '2' {
        2
    } else if c == '3' {
        3
    } else if c == '4' {
        4
    } else if c == '5' {
        5
    } else if c == '6' {
        6
    } else if c == '7' {
        7
    } else if c == '8' {
        8
    } else if c == '9' {
        9
    } else {
        0
    }
}

/// The number that the decimal digits `s` read as (leading zeros allowed).
pub open spec fn read_decimal(s: Seq<char>) -> nat
    decreases s.len(),
{
    if s.len() == 0 {
        0
    } else {
        read_decimal(s.drop_last()) * 10 + digit_value(s.last())
    }
}

/// The fields `f` written one after the other, separated by colons.
pub open spec fn colon_join(f: Seq<Seq<char>>) -> Seq<char>
    decreases f.len(),
{
    if f.len() == 0 {
        Seq::empty()
    } else if f.len() == 1 {
        f[0]
    } else {
        colon_join(f.drop_last()) + ":"@ + f.last()
    }
}

/// The decimal digits of `n`, with a `0` in front when `n` is below ten.
pub open spec fn two_digits(n: nat) -> Seq<char> {
    if n < 10 {
        "0"@ + digits(n)
    } else {
        digits(n)
    }
}

/// The fields of the text shown for `s >= 0` seconds: the days when there
/// is at least one, then the hours, minutes and seconds.
pub open spec fn countdown_fields(s: nat) -> Seq<Seq<char>> {
    let days = s / 86400;
    let hours = (s / 3600) % 24;
    let minutes = (s / 60) % 60;
    let seconds = s % 60;
    if days > 0 {
        seq![digits(days), digits(hours), two_digits(minutes), two_digits(seconds)]
    } else {
        seq![digits(hours), two_digits(minutes), two_digits(seconds)]
    }
}

proof fn lemma_digits(n: nat)
    ensures
        digits(n).len() > 0,
        forall|i: int| 0 <= i < digits(n).len() ==> is_digit(#[trigger] digits(n)[i]),
        read_decimal(digits(n)) == n,
    decreases n,
{
    let d = (n % 10) as nat;
    assert(digit_value(digit_char(d)) == d && is_digit(digit_char(d)));
    if n >= 10 {
        lemma_digits(n / 10);
        assert(digits(n).drop_last() =~= digits(n / 10));
        assert(digits(n).last() == digit_char(d));
        assert(n == (n / 10) * 10 + d);
        assert(read_decimal(digits(n)) == read_decimal(digits(n / 10)) * 10 + digit_value(digit_char(d)));
    } else {
        assert(digits(n).drop_last() =~= Seq::<char>::empty());
        assert(d == n);
        assert(read_decimal(digits(n)) == read_decimal(Seq::<char>::empty()) * 10 + digit_value(digit_char(d)));
    }
}

proof fn lemma_leading_zero(t: Seq<char>)
    ensures
        read_decimal(seq!['0'] + t) == read_decimal(t),
    decreases t.len(),
{
    if t.len() > 0 {
        assert((seq!['0'] + t).drop_last() =~= seq!['0'] + t.drop_last());
        assert((seq!['0'] + t).last() == t.last());
        lemma_leading_zero(t.drop_last());
    } else {
        assert((seq!['0'] + t).drop_last() =~= Seq::<char>::empty());
        assert((seq!['0'] + t).last() == '0');
        assert(t =~= Seq::<char>::empty());
    }
}

proof fn lemma_two_digits(n: nat)
    ensures
        two_digits(n).len() > 0,
        forall|i: int| 0 <= i < two_digits(n).len() ==> is_digit(#[trigger] two_digits(n)[i]),
        read_decimal(two_digits(n)) == n,
{
    reveal_strlit("0");
    lemma_digits(n);
    if n < 10 {
        assert("0"@ =~= seq!['0']);
        lemma_leading_zero(digits(n));
        assert forall|i: int| 0 <= i < two_digits(n).len() implies is_digit(#[trigger] two_digits(n)[i]) by {
            if i > 0 {
                assert(two_digits(n)[i] == digits(n)[i - 1]);
            }
        }
    }
}

/// The text of `s >= 0` seconds, part by part.
pub open spec fn countdown_text(s: nat) -> Seq<char> {
    let days = s / 86400;
    let hours = (s / 3600) % 24;
    let minutes = (s / 60) % 60;
    let seconds = s % 60;
    (if days > 0 {
        digits(days) + ":"@
    } else {
        Seq::<char>::empty()
    }) + digits(hours) + ":"@ + two_digits(minutes) + ":"@ + two_digits(seconds)
}

proof fn lemma_format_nonnegative(s: nat)
    ensures
        spec_format(s as int) == countdown_text(s),
{
    let si = s as int;
    let hours = (s / 3600) % 24;
    let minutes = (s / 60) % 60;
    let seconds = s % 60;
    assert(rem_toward_zero(si, 60) == seconds) by {
        vstd::arithmetic::div_mod::lemma_fundamental_div_mod(si, 60);
    }
    assert(rem_toward_zero((s / 3600) as int, 24) == hours) by {
        vstd::arithmetic::div_mod::lemma_fundamental_div_mod((s / 3600) as int, 24);
    }
    assert(rem_toward_zero((s / 60) as int, 60) == minutes) by {
        vstd::arithmetic::div_mod::lemma_fundamental_div_mod((s / 60) as int, 60);
    }
    reveal_strlit("0");
    assert(spec_format(si) =~= countdown_text(s));
}

proof fn lemma_text_is_joined_fields(s: nat)
    ensures
        countdown_text(s) == colon_join(countdown_fields(s)),
{
    let days = s / 86400;
    let hours = (s / 3600) % 24;
    let minutes = (s / 60) % 60;
    let seconds = s % 60;
    let f = countdown_fields(s);
    if days > 0 {
        let f1 = seq![digits(days)];
        let f2 = seq![digits(days), digits(hours)];
        let f3 = seq![digits(days), digits(hours), two_digits(minutes)];
        assert(f.drop_last() =~= f3);
        assert(f3.drop_last() =~= f2);
        assert(f2.drop_last() =~= f1);
        assert(colon_join(f1) == digits(days));
        assert(colon_join(f2) == digits(days) + ":"@ + digits(hours));
        assert(colon_join(f3) == digits(days) + ":"@ + digits(hours) + ":"@ + two_digits(minutes));
        assert(colon_join(f) == colon_join(f3) + ":"@ + two_digits(seconds));
        assert(countdown_text(s) =~= colon_join(f));
    } else {
        let f1 = seq![digits(hours)];
        let f2 = seq![digits(hours), two_digits(minutes)];
        assert(f.drop_last() =~= f2);
        assert(f2.drop_last() =~= f1);
        assert(colon_join(f1) == digits(hours));
        assert(colon_join(f2) == digits(hours) + ":"@ + two_digits(minutes));
        assert(colon_join(f) == colon_join(f2) + ":"@ + two_digits(seconds));
        assert(countdown_text(s) =~= colon_join(f));
    }
}

proof fn lemma_parts_add_up(s: nat)
    ensures
        (s / 3600) % 24 < 24,
        (s / 60) % 60 < 60,
        s % 60 < 60,
        (((s / 86400) * 24 + (s / 3600) % 24) * 60 + (s / 60) % 60) * 60 + s % 60 == s,
        s / 86400 == 0 ==> ((s / 3600) % 24 * 60 + (s / 60) % 60) * 60 + s % 60 == s,
{
    let si = s as int;
    let di = (s / 86400) as int;
    let hi = ((s / 3600) % 24) as int;
    let mi = ((s / 60) % 60) as int;
    let ti = (s % 60) as int;
    let a = si / 60;
    let b = si / 3600;
    vstd::arithmetic::div_mod::lemma_div_denominator(si, 60, 60);
    vstd::arithmetic::div_mod::lemma_div_denominator(si, 3600, 24);
    vstd::arithmetic::div_mod::lemma_fundamental_div_mod(si, 60);
    vstd::arithmetic::div_mod::lemma_fundamental_div_mod(a, 60);
    vstd::arithmetic::div_mod::lemma_fundamental_div_mod(b, 24);
    assert(si == 60 * a + ti);
    assert(a == 60 * b + mi);
    assert(b == 24 * di + hi);
    assert(((di * 24 + hi) * 60 + mi) * 60 + ti == si) by (nonlinear_arith)
        requires
            si == 60 * a + ti,
            a == 60 * b + mi,
            b == 24 * di + hi,
    ;
}

/// The countdown text of a non-negative duration reads back as that
/// duration: it is its fields joined by colons, each field a non-empty run
/// of decimal digits (so the colons separate them unambiguously), the hours
/// below 24 when days are shown, the minutes and seconds below 60, and the
/// fields, read as numbers, add back up to the whole seconds.
pub proof fn lemma_countdown_reads_back(s: nat)
    ensures
        spec_format(s as int) == colon_join(countdown_fields(s)),
        countdown_fields(s).len() == 3 || countdown_fields(s).len() == 4,
        forall|i: int, j: int|
            0 <= i < countdown_fields(s).len() && 0 <= j < countdown_fields(s)[i].len()
                ==> is_digit(#[trigger] countdown_fields(s)[i][j]),
        forall|i: int| 0 <= i < countdown_fields(s).len() ==> #[trigger] countdown_fields(s)[i].len() > 0,
        countdown_fields(s).len() == 4 ==> {
            let f = countdown_fields(s);
            &&& read_decimal(f[1]) < 24
            &&& read_decimal(f[2]) < 60
            &&& read_decimal(f[3]) < 60
            &&& ((read_decimal(f[0]) * 24 + read_decimal(f[1])) * 60 + read_decimal(f[2])) * 60
                + read_decimal(f[3]) == s
        },
        countdown_fields(s).len() == 3 ==> {
            let f = countdown_fields(s);
            &&& read_decimal(f[1]) < 60
            &&& read_decimal(f[2]) < 60
            &&& (read_decimal(f[0]) * 60 + read_decimal(f[1])) * 60 + read_decimal(f[2]) == s
        },
{
    lemma_format_nonnegative(s);
    lemma_text_is_joined_fields(s);
    lemma_parts_add_up(s);
    lemma_digits(s / 86400);
    lemma_digits((s / 3600) % 24);
    lemma_two_digits((s / 60) % 60);
    lemma_two_digits(s % 60);
}

/// The text of the digit `d`.
fn digit_text(d: u64) -> (t: &'static str)
    requires
        d < 10,
    ensures
        t@ == seq![digit_char(d as nat)],
{
    proof {
        reveal_strlit("0");
        reveal_strlit("1");
        reveal_strlit("2");
        reveal_strlit("3");
        reveal_strlit("4");
        reveal_strlit("5");
        reveal_strlit("6");
        reveal_strlit("7");
        reveal_strlit("8");
        reveal_strlit("9");
    }
    match d {
        0 => "0",
        1 => "1",
        2 => "2",
        3 => "3",
        4 => "4",
        5 => "5",
        6 => "6",
        7 => "7",
        8 => "8",
        _ => "9",
    }
}

/// Appends the decimal digits of `n` to `out`.
fn push_digits(out: &mut String, n: u64)
    ensures
        final(out)@ == old(out)@ + digits(n as nat),
    decreases n,
{
    if n >= 10 {
        push_digits(out, n / 10);
        out.append(digit_text(n % 10));
        assert(digits(n as nat) == digits((n / 10) as nat).push(digit_char((n % 10) as nat)));
    } else {
        out.append(digit_text(n));
    }
}

/// Appends the decimal text of `n` to `out`.
fn push_decimal(out: &mut String, n: i64)
    ensures
        final(out)@ == old(out)@ + decimal(n as int),
{
    if n < 0 {
        proof {
            reveal_strlit("-");
        }
        out.append("-");
        let magnitude: u64 = (0i128 - n as i128) as u64;
        push_digits(out, magnitude);
    } else {
        push_digits(out, n as u64);
    }
}

/// `a / d` rounded toward zero.
fn div_tz(a: i64, d: i64) -> (q: i64)
    requires
        d > 0,
    ensures
        q == div_toward_zero(a as int, d as int),
{
    if a >= 0 {
        let q: u64 = (a as u64) / (d as u64);
        q as i64
    } else {
        let m: u64 = (0i128 - a as i128) as u64;
        let q: u64 = m / (d as u64);
        (0i128 - q as i128) as i64
    }
}

/// `a % d` with the sign of `a`.
fn rem_tz(a: i64, d: i64) -> (r: i64)
    requires
        d > 0,
    ensures
        r == rem_toward_zero(a as int, d as int),
        -d < r < d,
{
    let m: u64 = if a >= 0 {
        a as u64
    } else {
        (0i128 - a as i128) as u64
    };
    let r: u64 = m % (d as u64);
    proof {
        let mi = m as int;
        let di = d as int;
        assert(mi % di == mi - di * (mi / di) && 0 <= mi % di < di) by (nonlinear_arith)
            requires
                mi >= 0,
                di > 0,
        ;
        if a < 0 {
            assert(di * (-(mi / di)) == -(di * (mi / di))) by (nonlinear_arith);
        }
    }
    if a >= 0 {
        r as i64
    } else {
        (0i128 - r as i128) as i64
    }
}

/// The text shown for a duration of `seconds` whole seconds.
pub fn format_seconds(seconds: i64) -> (text: String)
    ensures
        text@ == spec_format(seconds as int),
{
    let days = div_tz(seconds, 86400);
    let hours = rem_tz(div_tz(seconds, 3600), 24);
    let minutes = rem_tz(div_tz(seconds, 60), 60);
    let secs = rem_tz(seconds, 60);
    let mut result = String::new();
    if days > 0 {
        push_decimal(&mut result, days);
        result.append(":");
    }
    push_decimal(&mut result, hours);
    result.append(":");
    if minutes < 10 {
        result.append("0");
    }
    push_decimal(&mut result, minutes);
    result.append(":");
    if secs < 10 {
        result.append("0");
    }
    push_decimal(&mut result, secs);
    assert(result@ =~= spec_format(seconds as int));
    result
}

/// The text shown for the remaining time `duration`: that of its whole seconds.
pub fn format(duration: TimeDelta) -> (text: String)
    ensures
        text@ == spec_format(whole_seconds(duration) as int),
{
    let s = num_seconds(&duration);
    format_seconds(s)
}

} // verus!
