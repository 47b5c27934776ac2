//! Human-readable durations.

use vstd::prelude::*;
use crate::text::string_of_chars;

verus! {

/// The decimal digit for `d < 10`.
pub open spec fn digit(d: nat) -> char {
    if d == 0 {
        '0'
    } else if d == 1 {
        '1'
    } else if d == 2 {
        '2'
    } else if d == 3 {
        '3'
    } else if d == 4 {
        '4'
    } else if d == 5 {
        '5'
    } else if d == 6 {
        '6'
    } else if d == 7 {
        '7'
    } else if d == 8 {
        '8'
    } else {
        '9'
    }
}

/// `n` in decimal, without leading zeros.
pub open spec fn decimal(n: nat) -> Seq<char>
    decreases n,
{
    if n < 10 {
        seq![digit(n)]
    } else {
        decimal(n / 10) + seq![digit(n % 10)]
    }
}

/// `n` in decimal, padded with a zero to at least two digits.
pub open spec fn two_digits(n: nat) -> Seq<char> {
    if n < 10 {
        seq!['0'] + decimal(n)
    } else {
        decimal(n)
    }
}

/// The length in seconds of the units year, day, hour, minute and second.
pub open spec fn unit_secs(i: nat) -> nat {
    if i == 0 {
        31536000
    } else if i == 1 {
        86400
    } else if i == 2 {
        3600
    } else if i == 3 {
        60
    } else {
        1
    }
}

/// What follows the count of each unit.
pub open spec fn unit_suffix(i: nat) -> Seq<char> {
    if i == 0 {
        seq!['y', ' ']
    } else if i == 1 {
        seq!['d', ' ']
    } else if i == 2 || i == 3 {
        seq![':']
    } else {
        Seq::empty()
    }
}

/// The text for units `i` onwards of `rem` seconds: each unit that `rem`
/// reaches, as a two-digit count and its suffix.
pub open spec fn unit_fields(rem: nat, i: nat) -> Seq<char>
    decreases 5 - i,
{
    if i >= 5 {
        Seq::empty()
    } else if rem >= unit_secs(i) {
        two_digits(rem / unit_secs(i)) + unit_suffix(i) + unit_fields(rem % unit_secs(i), i + 1)
    } else {
        unit_fields(rem, i + 1)
    }
}

/// The last unit from `i` on that `rem` reaches, or `prev` if none does.
pub open spec fn last_unit(rem: nat, i: nat, prev: nat) -> nat
    decreases 5 - i,
{
    if i >= 5 {
        prev
    } else if rem >= unit_secs(i) {
        last_unit(rem % unit_secs(i), i + 1, i)
    } else {
        last_unit(rem, i + 1, prev)
    }
}

/// Zero counts for units `from` onwards.
pub open spec fn zero_fields(from: nat) -> Seq<char>
    decreases 5 - from,
{
    if from >= 5 {
        Seq::empty()
    } else {
        seq!['0', '0'] + unit_suffix(from) + zero_fields(from + 1)
    }
}

/// `seconds` as `YYy DDd HH:MM:SS`, leaving out the leading units it does
/// not reach; once hours or a smaller unit appear, the units after the last
/// one reached are written as `00`. No time at all is `00:00:00`.
pub open spec fn seconds_text(seconds: nat) -> Seq<char> {
    if seconds == 0 {
        seq!['0', '0', ':', '0', '0', ':', '0', '0']
    } else {
        let end = last_unit(seconds, 0, 0);
        unit_fields(seconds, 0) + if end > 1 {
            zero_fields(end + 1)
        } else {
            Seq::empty()
        }
    }
}

fn digit_char(d: u64) -> (c: char)
    requires
        d < 10,
    ensures
        c == digit(d as nat),
{
    if d == 0 {
        '0'
    } else if d == 1 {
        '1'
    } else if d == 2 {
        '2'
    } else if d == 3 {
        '3'
    } else if d == 4 {
        '4'
    } else if d == 5 {
        '5'
    } else if d == 6 {
        '6'
    } else if d == 7 {
        '7'
    } else if d == 8 {
        '8'
    } else {
        '9'
    }
}

pub(crate) fn push_decimal(out: &mut Vec<char>, n: u64)
    ensures
        final(out)@ == old(out)@ + decimal(n as nat),
    decreases n,
{
    if n >= 10 {
        push_decimal(out, n / 10);
    }
    out.push(digit_char(n % 10));
    proof {
        if n < 10 {
            assert(out@ =~= old(out)@ + decimal(n as nat));
        } else {
            assert(out@ =~= old(out)@ + decimal(n as nat));
        }
    }
}

fn push_two_digits(out: &mut Vec<char>, n: u64)
    ensures
        final(out)@ == old(out)@ + two_digits(n as nat),
{
    if n < 10 {
        out.push('0');
    }
    push_decimal(out, n);
    proof {
        assert(out@ =~= old(out)@ + two_digits(n as nat));
    }
}

fn push_suffix(out: &mut Vec<char>, i: usize)
    requires
        i < 5,
    ensures
        final(out)@ == old(out)@ + unit_suffix(i as nat),
{
    if i == 0 {
        out.push('y');
        out.push(' ');
    } else if i == 1 {
        out.push('d');
        out.push(' ');
    } else if i == 2 || i == 3 {
        out.push(':');
    }
    assert(out@ =~= old(out)@ + unit_suffix(i as nat));
}

fn unit_secs_of(i: usize) -> (r: u64)
    requires
        i < 5,
    ensures
        r == unit_secs(i as nat),
{
    if i == 0 {
        31536000
    } else if i == 1 {
        86400
    } else if i == 2 {
        3600
    } else if i == 3 {
        60
    } else {
        1
    }
}

pub fn convert_seconds(seconds: u64) -> (r: String)
    ensures
        r@ == seconds_text(seconds as nat),
{
    if seconds == 0 {
        let v: Vec<char> = vec!['0', '0', ':', '0', '0', ':', '0', '0'];
        return string_of_chars(&v);
    }
    let mut remaining: u64 = seconds;
    let mut out: Vec<char> = Vec::new();
    let mut end: usize = 0;
    let mut i: usize = 0;
    while i < 5
        invariant
            i <= 5,
            end < 5,
            out@ + unit_fields(remaining as nat, i as nat) == unit_fields(seconds as nat, 0),
            last_unit(remaining as nat, i as nat, end as nat) == last_unit(seconds as nat, 0, 0),
        decreases 5 - i,
    {
        let d = unit_secs_of(i);
        if remaining >= d {
            let count = remaining / d;
            let ghost before = out@;
            push_two_digits(&mut out, count);
            push_suffix(&mut out, i);
            proof {
                assert(out@ + unit_fields((remaining % d) as nat, (i + 1) as nat) =~= before
                    + unit_fields(remaining as nat, i as nat));
            }
            remaining = remaining % d;
            end = i;
        }
        i = i + 1;
    }
    if end > 1 {
        let mut j: usize = end + 1;
        let ghost base = out@;
        while j < 5
            invariant
                end + 1 <= j <= 5,
                out@ + zero_fields(j as nat) == base + zero_fields((end + 1) as nat),
            decreases 5 - j,
        {
            let ghost before = out@;
            out.push('0');
            out.push('0');
            push_suffix(&mut out, j);
            proof {
                assert(out@ + zero_fields((j + 1) as nat) =~= before + zero_fields(j as nat));
            }
            j = j + 1;
        }
        proof {
            assert(out@ =~= out@ + zero_fields(j as nat));
        }
    } else {
        proof {
            assert(out@ =~= out@ + unit_fields(remaining as nat, i as nat));
        }
    }
    proof {
        assert(out@ + unit_fields(remaining as nat, 5) =~= out@);
    }
    string_of_chars(&out)
}

} // verus!
