//! Small verified helpers on strings.

use vstd::prelude::*;
use vstd::std_specs::iter::IteratorSpec;

verus! {

/// Whether `c` occurs in `s`.
pub fn contains_char(s: &str, c: char) -> (found: bool)
    ensures
        found == s@.contains(c),
{
    broadcast use vstd::string::group_string_axioms;

    let mut rest = s.chars();
    let ghost mut seen: int = 0;
    loop
        invariant
            0 <= seen <= s@.len(),
            rest.remaining() == s@.skip(seen),
            forall|i: int| 0 <= i < seen ==> s@[i] != c,
        decreases s@.len() - seen,
    {
        match rest.next() {
            Some(d) => {
                if d == c {
                    return true;
                }
                proof {
                    seen = seen + 1;
                }
            },
            None => {
                return false;
            },
        }
    }
}

/// Whether `s` begins with `prefix`.
pub fn starts_with(s: &str, prefix: &str) -> (found: bool)
    ensures
        found == prefix@.is_prefix_of(s@),
{
    broadcast use vstd::string::group_string_axioms;

    let mut rest = s.chars();
    let mut wanted = prefix.chars();
    let ghost mut matched: int = 0;
    loop
        invariant
            0 <= matched <= s@.len(),
            matched <= prefix@.len(),
            rest.remaining() == s@.skip(matched),
            wanted.remaining() == prefix@.skip(matched),
            forall|i: int| 0 <= i < matched ==> s@[i] == prefix@[i],
        decreases prefix@.len() - matched,
    {
        match wanted.next() {
            None => {
                return true;
            },
            Some(p) => {
                match rest.next() {
                    None => {
                        return false;
                    },
                    Some(d) => {
                        if d != p {
                            assert(prefix@.len() <= s@.len() ==> s@.subrange(
                                0,
                                prefix@.len() as int,
                            )[matched] != prefix@[matched]);
                            return false;
                        }
                        proof {
                            assert(prefix@.skip(matched).drop_first() =~= prefix@.skip(
                                matched + 1,
                            ));
                            matched = matched + 1;
                        }
                    },
                }
            },
        }
    }
}

/// The character that writes the decimal digit `d`.
pub open spec fn digit_char(d: nat) -> char
    recommends
        d < 10,
{
    (('0' as u8) + d) as u8 as char
}

/// The decimal numeral of `n`, without leading zeros.
pub open spec fn decimal(n: nat) -> Seq<char>
    decreases n,
{
    if n < 10 {
        seq![digit_char(n)]
    } else {
        decimal(n / 10).push(digit_char(n % 10))
    }
}

/// Appends one character to a string, as `String::push` of the standard
/// library does: the string afterwards is the string before followed by `c`.
#[verifier::external_body]
fn push_char(s: &mut String, c: char)
    ensures
        final(s)@ == old(s)@.push(c),
{
    s.push(c)
}

/// Appends the decimal digit `d` to `out`.
pub fn push_digit(out: &mut String, d: u8)
    requires
        d < 10,
    ensures
        final(out)@ == old(out)@.push(digit_char(d as nat)),
{
    push_char(out, (('0' as u8) + d) as char);
}

/// Appends the decimal numeral of `n` to `out`.
pub fn push_decimal(out: &mut String, n: u128)
    ensures
        final(out)@ == old(out)@ + decimal(n as nat),
    decreases n,
{
    if n >= 10 {
        push_decimal(out, n / 10);
    }
    push_digit(out, (n % 10) as u8);
    proof {
        if n >= 10 {
            assert(old(out)@ + decimal(n as nat) =~= (old(out)@ + decimal((n / 10) as nat)).push(
                digit_char((n % 10) as nat),
            ));
        }
    }
}

} // verus!
