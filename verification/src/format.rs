//! Duration formatting: an elapsed time in nanoseconds is rendered with the
//! coarsest unit that keeps the magnitude readable, using integer arithmetic
//! only.

use vstd::prelude::*;

verus! {

/// The decimal digit character for a value below ten.
pub open spec fn digit_char(d: nat) -> char {
    if d == 0 {
        '0'
    } else if d == 1 {
        '1'
    } else if d == 2 {
        '2'
    } else if d == 3 {
        '3'
    } else if d == 4 {
        '4'
    } else if d == 5 {
        '5'
    } else if d == 6 {
        '6'
    } else if d == 7 {
        '7'
    } else if d == 8 {
        '8'
    } else {
        '9'
    }
}

/// The decimal rendering of `n`, most significant digit first, with no
/// leading zeros (a lone `0` for zero itself).
pub open spec fn dec_str(n: nat) -> Seq<char>
    decreases n,
{
    if n < 10 {
        seq![digit_char(n)]
    } else {
        dec_str(n / 10) + seq![digit_char(n % 10)]
    }
}

/// `n / d` rounded to the nearest integer, halves rounding up.
pub open spec fn rounded_div(n: nat, d: nat) -> nat {
    n / d + if n % d >= d / 2 {
        1nat
    } else {
        0nat
    }
}

/// What the formatter prints for an elapsed time of `ns` nanoseconds:
/// at least ten seconds, seconds with one decimal; at least one second,
/// seconds with two decimals; at least ten milliseconds, whole milliseconds;
/// at least a hundred microseconds, whole microseconds; otherwise whole
/// nanoseconds. The sub-second digits in the two seconds forms are rounded
/// to nearest (halves up); the coarser integer forms truncate.
pub open spec fn pretty_spec(ns: nat) -> Seq<char> {
    if ns >= 10_000_000_000 {
        let t = rounded_div(ns, 100_000_000);
        dec_str(t / 10) + seq!['.', digit_char(t % 10)] + seq![' ', 's']
    } else if ns >= 1_000_000_000 {
        let h = rounded_div(ns, 10_000_000);
        dec_str(h / 100) + seq!['.', digit_char((h / 10) % 10), digit_char(h % 10)] + seq![
            ' ',
            's',
        ]
    } else if ns >= 10_000_000 {
        dec_str(ns / 1_000_000) + seq![' ', 'm', 's']
    } else if ns >= 100_000 {
        dec_str(ns / 1_000) + seq![' ', 'μ', 's']
    } else {
        dec_str(ns) + seq![' ', 'n', 's']
    }
}

/// Append the single digit character for `d` to `s`.
fn push_digit(s: &mut String, d: u128)
    requires
        d < 10,
    ensures
        final(s)@ == old(s)@ + seq![digit_char(d as nat)],
{
    if d == 0 {
        s.append("0");
        proof {
            reveal_strlit("0");
            assert(s@ =~= old(s)@ + seq![digit_char(d as nat)]);
        }
    } else if d == 1 {
        s.append("1");
        proof {
            reveal_strlit("1");
            assert(s@ =~= old(s)@ + seq![digit_char(d as nat)]);
        }
    } else if d == 2 {
        s.append("2");
        proof {
            reveal_strlit("2");
            assert(s@ =~= old(s)@ + seq![digit_char(d as nat)]);
        }
    } else if d == 3 {
        s.append("3");
        proof {
            reveal_strlit("3");
            assert(s@ =~= old(s)@ + seq![digit_char(d as nat)]);
        }
    } else if d == 4 {
        s.append("4");
        proof {
            reveal_strlit("4");
            assert(s@ =~= old(s)@ + seq![digit_char(d as nat)]);
        }
    } else if d == 5 {
        s.append("5");
        proof {
            reveal_strlit("5");
            assert(s@ =~= old(s)@ + seq![digit_char(d as nat)]);
        }
    } else if d == 6 {
        s.append("6");
        proof {
            reveal_strlit("6");
            assert(s@ =~= old(s)@ + seq![digit_char(d as nat)]);
        }
    } else if d == 7 {
        s.append("7");
        proof {
            reveal_strlit("7");
            assert(s@ =~= old(s)@ + seq![digit_char(d as nat)]);
        }
    } else if d == 8 {
        s.append("8");
        proof {
            reveal_strlit("8");
            assert(s@ =~= old(s)@ + seq![digit_char(d as nat)]);
        }
    } else {
        s.append("9");
        proof {
            reveal_strlit("9");
            assert(s@ =~= old(s)@ + seq![digit_char(d as nat)]);
        }
    }
}

/// Append the decimal rendering of `n` to `s`.
fn push_decimal(s: &mut String, n: u128)
    ensures
        final(s)@ == old(s)@ + dec_str(n as nat),
    decreases n,
{
    if n < 10 {
        push_digit(s, n);
    } else {
        push_decimal(s, n / 10);
        push_digit(s, n % 10);
        proof {
            assert(s@ =~= old(s)@ + dec_str(n as nat));
        }
    }
}

/// The decimal rendering of `n` as a fresh string.
pub fn to_decimal(n: u128) -> (r: String)
    ensures
        r@ == dec_str(n as nat),
{
    let mut s = String::new();
    push_decimal(&mut s, n);
    proof {
        assert(s@ =~= dec_str(n as nat));
    }
    s
}

/// Format an elapsed time of `ns` nanoseconds as `pretty_spec` describes.
pub fn pretty_time(ns: u128) -> (r: String)
    ensures
        r@ == pretty_spec(ns as nat),
{
    if ns >= 10_000_000_000 {
        let t: u128 = rounded_div_exec(ns, 100_000_000);
        let mut s = to_decimal(t / 10);
        s.append(".");
        push_digit(&mut s, t % 10);
        s.append(" s");
        proof {
            reveal_strlit(".");
            reveal_strlit(" s");
            assert(s@ =~= pretty_spec(ns as nat));
        }
        s
    } else if ns >= 1_000_000_000 {
        let h: u128 = rounded_div_exec(ns, 10_000_000);
        let mut s = to_decimal(h / 100);
        s.append(".");
        push_digit(&mut s, (h / 10) % 10);
        push_digit(&mut s, h % 10);
        s.append(" s");
        proof {
            reveal_strlit(".");
            reveal_strlit(" s");
            assert(s@ =~= pretty_spec(ns as nat));
        }
        s
    } else if ns >= 10_000_000 {
        let mut s = to_decimal(ns / 1_000_000);
        s.append(" ms");
        proof {
            reveal_strlit(" ms");
            assert(s@ =~= pretty_spec(ns as nat));
        }
        s
    } else if ns >= 100_000 {
        let mut s = to_decimal(ns / 1_000);
        s.append(" μs");
        proof {
            reveal_strlit(" μs");
            assert(s@ =~= pretty_spec(ns as nat));
        }
        s
    } else {
        let mut s = to_decimal(ns);
        s.append(" ns");
        proof {
            reveal_strlit(" ns");
            assert(s@ =~= pretty_spec(ns as nat));
        }
        s
    }
}

/// `n / d` rounded to the nearest integer, halves up.
fn rounded_div_exec(n: u128, d: u128) -> (r: u128)
    requires
        d > 0,
        n / d < u128::MAX,
    ensures
        r == rounded_div(n as nat, d as nat),
{
    let q: u128 = n / d;
    let rem: u128 = n % d;
    if rem >= d / 2 {
        q + 1
    } else {
        q
    }
}

/// The success report line: the access count, then the formatted duration.
pub fn report_line(samples: u64, formatted: &str) -> (r: String)
    ensures
        r@ == dec_str(samples as nat) + " accesses done in "@ + formatted@,
{
    let mut s = to_decimal(samples as u128);
    s.append(" accesses done in ");
    s.append(formatted);
    proof {
        assert(s@ =~= dec_str(samples as nat) + " accesses done in "@ + formatted@);
    }
    s
}

} // verus!
