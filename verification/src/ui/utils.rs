//! Amounts and rates as text, and labelled lines.

use crate::text::{decimal, digit_char, push_decimal};
use crate::ui::style::{colored_span, raw_span, Rgb, SpanView, StyledLine, StyledSpan};
use vstd::prelude::*;
use vstd::string::StringExecFns;

verus! {

pub const KILO: u128 = 1_000;

pub const MEGA: u128 = 1_000_000;

pub const GIGA: u128 = 1_000_000_000;

pub const TERA: u128 = 1_000_000_000_000;

/// `value / unit` in hundredths, rounded to the nearest on the exact
/// quotient; a quotient that lies halfway between two hundredths goes up.
pub open spec fn hundredths(value: nat, unit: nat) -> nat
    recommends
        unit > 0,
{
    (value * 100 + unit / 2) / unit
}

/// `n` below a hundred as two decimal digits.
pub open spec fn two_digits(n: nat) -> Seq<char>
    recommends
        n < 100,
{
    seq![digit_char(n / 10), digit_char(n % 10)]
}

/// `value / unit` with two decimals: the whole part, a point, and the
/// hundredths.
pub open spec fn scaled_text(value: nat, unit: nat) -> Seq<char>
    recommends
        unit > 0,
{
    let h = hundredths(value, unit);
    decimal(h / 100) + seq!['.'] + two_digits(h % 100)
}

/// Splitting `value` by `unit` first gives the same hundredths, without the
/// large product.
proof fn lemma_hundredths_split(value: nat, unit: nat)
    requires
        unit > 0,
    ensures
        hundredths(value, unit) == (value / unit) * 100 + ((value % unit) * 100 + unit / 2) / unit,
{
    let q = value / unit;
    let r = value % unit;
    let rest = r * 100 + unit / 2;
    assert(value == q * unit + r) by {
        vstd::arithmetic::div_mod::lemma_fundamental_div_mod(value as int, unit as int);
    }
    assert(value * 100 + unit / 2 == (q * 100) * unit + rest) by (nonlinear_arith)
        requires
            value == q * unit + r,
            rest == r * 100 + unit / 2,
    ;
    vstd::arithmetic::div_mod::lemma_div_multiples_vanish_fancy(
        (q * 100) as int,
        0,
        unit as int,
    );
    vstd::arithmetic::div_mod::lemma_fundamental_div_mod(rest as int, unit as int);
    let rq = rest / unit;
    let rr = rest % unit;
    assert((q * 100) * unit + rest == (q * 100 + rq) * unit + rr) by (nonlinear_arith)
        requires
            rest == unit * rq + rr,
    ;
    vstd::arithmetic::div_mod::lemma_fundamental_div_mod_converse(
        ((q * 100) * unit + rest) as int,
        unit as int,
        (q * 100 + rq) as int,
        rr as int,
    );
}

/// Appends `value / unit` with two decimals to `out`.
fn push_scaled(out: &mut String, value: u128, unit: u128)
    requires
        KILO <= unit <= TERA,
    ensures
        final(out)@ == old(out)@ + scaled_text(value as nat, unit as nat),
{
    let whole: u128 = value / unit;
    let rest: u128 = value % unit;
    let extra: u128 = (rest * 100 + unit / 2) / unit;
    proof {
        lemma_hundredths_split(value as nat, unit as nat);
        assert(whole <= u128::MAX / 1000) by (nonlinear_arith)
            requires
                whole == value / unit,
                unit >= 1000,
                value <= u128::MAX,
        ;
        assert(extra <= 100) by (nonlinear_arith)
            requires
                extra == (rest * 100 + unit / 2) / (unit as int),
                rest < unit,
                unit > 0,
        ;
    }
    let h: u128 = whole * 100 + extra;
    push_decimal(out, h / 100);
    out.append(".");
    let frac: u8 = (h % 100) as u8;
    crate::text::push_digit(out, frac / 10);
    crate::text::push_digit(out, frac % 10);
    proof {
        reveal_strlit(".");
    }
}

/// A rate of `rate` bytes per second as text: with two decimals in the
/// largest of GB/s, MB/s and KB/s that it reaches, else in whole B/s.
pub open spec fn rate_text(rate: nat) -> Seq<char> {
    if rate >= GIGA {
        scaled_text(rate, GIGA as nat) + " GB/s"@
    } else if rate >= MEGA {
        scaled_text(rate, MEGA as nat) + " MB/s"@
    } else if rate >= KILO {
        scaled_text(rate, KILO as nat) + " KB/s"@
    } else {
        decimal(rate) + " B/s"@
    }
}

/// An amount of `bytes` bytes as text: with two decimals in the largest of
/// TB, GB, MB and KB that it reaches, else in whole B.
pub open spec fn total_text(bytes: nat) -> Seq<char> {
    if bytes >= TERA {
        scaled_text(bytes, TERA as nat) + " TB"@
    } else if bytes >= GIGA {
        scaled_text(bytes, GIGA as nat) + " GB"@
    } else if bytes >= MEGA {
        scaled_text(bytes, MEGA as nat) + " MB"@
    } else if bytes >= KILO {
        scaled_text(bytes, KILO as nat) + " KB"@
    } else {
        decimal(bytes) + " B"@
    }
}

/// A transfer rate in bytes per second, as it is shown: from a thousand
/// bytes per second on with two decimals in the largest unit reached,
/// rounded to the nearest hundredth of that unit, a half going up (1005
/// is `1.01 KB/s`, 1004 is `1.00 KB/s`).
pub fn format_network_rate(rate: u128) -> (text: String)
    ensures
        text@ == rate_text(rate as nat),
{
    let mut text = String::new();
    if rate >= GIGA {
        push_scaled(&mut text, rate, GIGA);
        text.append(" GB/s");
    } else if rate >= MEGA {
        push_scaled(&mut text, rate, MEGA);
        text.append(" MB/s");
    } else if rate >= KILO {
        push_scaled(&mut text, rate, KILO);
        text.append(" KB/s");
    } else {
        push_decimal(&mut text, rate);
        text.append(" B/s");
    }
    text
}

/// A cumulative amount of bytes, as it is shown: from a thousand bytes on
/// with two decimals in the largest unit reached, rounded to the nearest
/// hundredth of that unit, a half going up (1005 is `1.01 KB`, 1125 is
/// `1.13 KB`, 1004 is `1.00 KB`).
pub fn format_network_total(bytes: u64) -> (text: String)
    ensures
        text@ == total_text(bytes as nat),
{
    let amount: u128 = bytes as u128;
    let mut text = String::new();
    if amount >= TERA {
        push_scaled(&mut text, amount, TERA);
        text.append(" TB");
    } else if amount >= GIGA {
        push_scaled(&mut text, amount, GIGA);
        text.append(" GB");
    } else if amount >= MEGA {
        push_scaled(&mut text, amount, MEGA);
        text.append(" MB");
    } else if amount >= KILO {
        push_scaled(&mut text, amount, KILO);
        text.append(" KB");
    } else {
        push_decimal(&mut text, amount);
        text.append(" B");
    }
    text
}

/// What every labelled line begins with.
pub open spec fn line_lead() -> Seq<char> {
    seq!['\u{e2}', '\u{201d}', '\u{201a}', ' ']
}

/// A labelled line: the lead-in, then the label with a colon in the label
/// colour, then the value in `color`; label and value in bold.
pub open spec fn info_line_spans(label: Seq<char>, value: Seq<char>, color: Rgb) -> Seq<SpanView> {
    seq![
        raw_span(line_lead()),
        colored_span(label + ": "@, Rgb::slate(), true),
        colored_span(value, color, true),
    ]
}

/// The line that shows `value` under `label`.
pub fn info_line(label: &str, value: &str, color: Rgb) -> (line: StyledLine)
    ensures
        line.deep_view() == info_line_spans(label@, value@, color),
{
    let lead = "\u{e2}\u{201d}\u{201a} ";
    proof {
        reveal_strlit("\u{e2}\u{201d}\u{201a} ");
        assert(lead@ =~= line_lead());
    }
    let mut spans: Vec<StyledSpan> = Vec::new();
    spans.push(StyledSpan::raw(lead.to_owned()));
    let mut name = label.to_owned();
    name.append(": ");
    spans.push(StyledSpan::colored(name, Rgb::slate(), true));
    spans.push(StyledSpan::colored(value.to_owned(), color, true));
    StyledLine { spans }
}

} // verus!
