//! Conversions between strings and character vectors.

use vstd::prelude::*;
use vstd::string::*;

verus! {

/// Relies on std's `FromIterator<char>` for `String`: the string made of
/// exactly these characters, in order.
#[verifier::external_body]
pub(crate) fn string_of_chars(v: &Vec<char>) -> (r: String)
    ensures
        r@ == v@,
{
    v.iter().collect()
}

/// The characters of `s`, in order.
pub(crate) fn chars_of(s: &str) -> (r: Vec<char>)
    ensures
        r@ == s@,
{
    proof {
        broadcast use vstd::string::axiom_spec_iter;
    }
    let mut r: Vec<char> = Vec::new();
    for c in it: s.chars()
        invariant
            it.seq() == s@,
            r@ == it.seq().take(it.index() as int),
    {
        r.push(c);
        assert(r@ =~= it.seq().take(it.index() + 1));
    }
    assert(r@ =~= s@);
    r
}

/// Whether `s` begins with the characters of `p`.
pub(crate) fn starts_with(s: &Vec<char>, p: &str) -> (r: bool)
    ensures
        r == p@.is_prefix_of(s@),
{
    let n = p.unicode_len();
    if n > s.len() {
        return false;
    }
    let mut i: usize = 0;
    while i < n
        invariant
            i <= n,
            n == p@.len(),
            n <= s@.len(),
            forall|k: int| 0 <= k < i ==> s@[k] == p@[k],
        decreases n - i,
    {
        if s[i] != p.get_char(i) {
            return false;
        }
        i = i + 1;
    }
    true
}

/// Whether `p` occurs in `s` as a contiguous run.
pub open spec fn occurs_in(p: Seq<char>, s: Seq<char>) -> bool {
    exists|i: int| 0 <= i && i + p.len() <= s.len() && #[trigger] s.subrange(i, i + p.len()) == p
}

/// Whether `p` occurs in `s`.
pub(crate) fn contains_chars(s: &Vec<char>, p: &Vec<char>) -> (r: bool)
    ensures
        r == occurs_in(p@, s@),
{
    let n = s.len();
    let m = p.len();
    if m > n {
        proof {
            assert forall|i: int| 0 <= i && i + m <= n implies #[trigger] s@.subrange(i, i + m) != p@ by {}
        }
        return false;
    }
    let mut i: usize = 0;
    while i <= n - m
        invariant
            m <= n,
            n == s@.len(),
            m == p@.len(),
            forall|k: int| 0 <= k < i ==> #[trigger] s@.subrange(k, k + m) != p@,
        decreases n - m + 1 - i,
    {
        let mut j: usize = 0;
        let mut same = true;
        while j < m
            invariant
                j <= m,
                i + m <= n,
                n == s@.len(),
                m == p@.len(),
                same == (forall|k: int| 0 <= k < j ==> s@[i + k] == p@[k]),
            decreases m - j,
        {
            if s[i + j] != p[j] {
                same = false;
            }
            j = j + 1;
        }
        if same {
            assert(s@.subrange(i as int, i + m) =~= p@);
            return true;
        }
        assert(s@.subrange(i as int, i + m) != p@) by {
            let k = choose|k: int| 0 <= k < m && s@[i + k] != p@[k];
            assert(s@.subrange(i as int, i + m)[k] != p@[k]);
        }
        i = i + 1;
    }
    proof {
        assert forall|i: int| 0 <= i && i + m <= n implies #[trigger] s@.subrange(i, i + m) != p@ by {
            assert(i < n - m + 1);
        }
    }
    false
}

/// The first position at or after `i` where `sep` occurs in `s`.
pub open spec fn find_from(s: Seq<char>, sep: Seq<char>, i: nat) -> Option<nat>
    decreases s.len() + 1 - i,
{
    if i + sep.len() > s.len() {
        None
    } else if s.subrange(i as int, (i + sep.len()) as int) == sep {
        Some(i)
    } else {
        find_from(s, sep, i + 1)
    }
}

pub proof fn lemma_find_from_bound(s: Seq<char>, sep: Seq<char>, i: nat)
    ensures
        find_from(s, sep, i) matches Some(k) ==> i <= k && k + sep.len() <= s.len(),
    decreases s.len() + 1 - i,
{
    if i + sep.len() <= s.len() && s.subrange(i as int, (i + sep.len()) as int) != sep {
        lemma_find_from_bound(s, sep, i + 1);
    }
}

/// The part of `s` before the first `sep` (all of `s` when there is none).
pub open spec fn head(s: Seq<char>, sep: Seq<char>) -> Seq<char> {
    match find_from(s, sep, 0) {
        Some(k) => s.take(k as int),
        None => s,
    }
}

/// The part of `s` after the first `sep`, if there is one.
pub open spec fn tail(s: Seq<char>, sep: Seq<char>) -> Option<Seq<char>> {
    match find_from(s, sep, 0) {
        Some(k) => Some(s.skip((k + sep.len()) as int)),
        None => None,
    }
}

/// Splits `s` at the first `sep`: what comes before it, and what comes
/// after it if it occurs.
pub(crate) fn split_first(s: &Vec<char>, sep: &str) -> (r: (Vec<char>, Option<Vec<char>>))
    requires
        sep@.len() > 0,
    ensures
        r.0@ == head(s@, sep@),
        match (r.1, tail(s@, sep@)) {
            (Some(a), Some(b)) => a@ == b,
            (None, None) => true,
            _ => false,
        },
{
    let m = sep.unicode_len();
    let mut i: usize = 0;
    let mut found: Option<usize> = None;
    while m <= s.len() && i <= s.len() - m
        invariant_except_break
            found is None,
        invariant
            m == sep@.len(),
            m > 0,
            find_from(s@, sep@, 0) == find_from(s@, sep@, i as nat),
        ensures
            match found {
                Some(k) => find_from(s@, sep@, 0) == Some(k as nat) && k + m <= s.len(),
                None => find_from(s@, sep@, 0) is None,
            },
        decreases s.len() - i,
    {
        let mut j: usize = 0;
        let mut same = true;
        while j < m
            invariant
                j <= m,
                i + m <= s.len(),
                m == sep@.len(),
                same == (forall|k: int| 0 <= k < j ==> s@[i + k] == sep@[k]),
            decreases m - j,
        {
            if s[i + j] != sep.get_char(j) {
                same = false;
            }
            j = j + 1;
        }
        if same {
            assert(s@.subrange(i as int, i + m) =~= sep@);
            found = Some(i);
            break;
        }
        assert(s@.subrange(i as int, i + m) != sep@) by {
            let k = choose|k: int| 0 <= k < m && s@[i + k] != sep@[k];
            assert(s@.subrange(i as int, i + m)[k] != sep@[k]);
        }
        i = i + 1;
    }
    match found {
        Some(k) => {
            let mut a: Vec<char> = Vec::new();
            let mut x: usize = 0;
            while x < k
                invariant
                    x <= k,
                    k <= s.len(),
                    a@ == s@.take(x as int),
                decreases k - x,
            {
                a.push(s[x]);
                x = x + 1;
                assert(a@ =~= s@.take(x as int));
            }
            let mut b: Vec<char> = Vec::new();
            let mut y: usize = k + m;
            while y < s.len()
                invariant
                    k + m <= y <= s.len(),
                    b@ == s@.subrange(k + m, y as int),
                decreases s.len() - y,
            {
                b.push(s[y]);
                y = y + 1;
                assert(b@ =~= s@.subrange(k + m, y as int));
            }
            assert(b@ =~= s@.skip(k + m));
            (a, Some(b))
        },
        None => {
            let mut a: Vec<char> = Vec::new();
            let mut x: usize = 0;
            while x < s.len()
                invariant
                    x <= s.len(),
                    a@ == s@.take(x as int),
                decreases s.len() - x,
            {
                a.push(s[x]);
                x = x + 1;
                assert(a@ =~= s@.take(x as int));
            }
            assert(a@ =~= s@);
            (a, None)
        },
    }
}

/// ASCII whitespace: space, tab, line feed, vertical tab, form feed and
/// carriage return.
pub open spec fn is_space(c: char) -> bool {
    c == ' ' || c == '\t' || c == '\n' || c == '\x0B' || c == '\x0C' || c == '\r'
}

/// The number of leading whitespace characters of `s` from `i` on.
pub open spec fn leading_spaces(s: Seq<char>, i: nat) -> nat
    decreases s.len() - i,
{
    if i < s.len() && is_space(s[i as int]) {
        leading_spaces(s, i + 1)
    } else {
        i
    }
}

/// `s` without its leading whitespace.
pub open spec fn trim_start(s: Seq<char>) -> Seq<char> {
    s.skip(leading_spaces(s, 0) as int)
}

pub(crate) fn trim_start_chars(s: &Vec<char>) -> (r: Vec<char>)
    ensures
        r@ == trim_start(s@),
{
    let mut i: usize = 0;
    while i < s.len() && (s[i] == ' ' || s[i] == '\t' || s[i] == '\n' || s[i] == '\x0B' || s[i] == '\x0C'
        || s[i] == '\r')
        invariant
            i <= s.len(),
            leading_spaces(s@, 0) == leading_spaces(s@, i as nat),
        decreases s.len() - i,
    {
        i = i + 1;
    }
    let mut r: Vec<char> = Vec::new();
    let start = i;
    while i < s.len()
        invariant
            start <= i <= s.len(),
            leading_spaces(s@, 0) == start,
            r@ == s@.subrange(start as int, i as int),
        decreases s.len() - i,
    {
        r.push(s[i]);
        i = i + 1;
        assert(r@ =~= s@.subrange(start as int, i as int));
    }
    assert(r@ =~= trim_start(s@));
    r
}

/// The value of a hexadecimal digit.
pub open spec fn hex_digit(c: char) -> Option<nat> {
    if '0' <= c && c <= '9' {
        Some((c as u32 - '0' as u32) as nat)
    } else if 'a' <= c && c <= 'f' {
        Some((c as u32 - 'a' as u32 + 10) as nat)
    } else if 'A' <= c && c <= 'F' {
        Some((c as u32 - 'A' as u32 + 10) as nat)
    } else {
        None
    }
}

/// The value of a run of hexadecimal digits.
pub open spec fn hex_digits(s: Seq<char>) -> Option<nat>
    decreases s.len(),
{
    if s.len() == 0 {
        Some(0)
    } else {
        match (hex_digits(s.drop_last()), hex_digit(s.last())) {
            (Some(a), Some(d)) => Some(a * 16 + d),
            _ => None,
        }
    }
}

/// A 16-bit number in hexadecimal, as `u16::from_str_radix(s, 16)` reads
/// it: an optional `+`, then at least one digit, and no overflow.
pub open spec fn hex_u16(s: Seq<char>) -> Option<u16> {
    let d = if s.len() > 0 && s[0] == '+' { s.drop_first() } else { s };
    if d.len() == 0 {
        None
    } else {
        match hex_digits(d) {
            Some(v) => if v < 0x10000 { Some(v as u16) } else { None },
            None => None,
        }
    }
}

pub(crate) fn parse_hex_u16(s: &Vec<char>) -> (r: Option<u16>)
    ensures
        r == hex_u16(s@),
{
    let start: usize = if s.len() > 0 && s[0] == '+' { 1 } else { 0 };
    let ghost d = if s@.len() > 0 && s@[0] == '+' { s@.drop_first() } else { s@ };
    assert(d =~= s@.skip(start as int));
    if start >= s.len() {
        return None;
    }
    let mut acc: u32 = 0;
    let mut big = false;
    let mut i: usize = start;
    while i < s.len()
        invariant
            start <= i <= s.len(),
            d == s@.skip(start as int),
            !big ==> hex_digits(s@.subrange(start as int, i as int)) == Some(acc as nat) && acc < 0x10000,
            big ==> match hex_digits(s@.subrange(start as int, i as int)) {
                Some(v) => v >= 0x10000,
                None => true,
            },
        decreases s.len() - i,
    {
        let c = s[i];
        let ghost pre = s@.subrange(start as int, i as int);
        let ghost cur = s@.subrange(start as int, i + 1);
        assert(cur.drop_last() =~= pre);
        assert(cur.last() == c);
        let dv: Option<u32> = if '0' <= c && c <= '9' {
            Some(c as u32 - '0' as u32)
        } else if 'a' <= c && c <= 'f' {
            Some(c as u32 - 'a' as u32 + 10)
        } else if 'A' <= c && c <= 'F' {
            Some(c as u32 - 'A' as u32 + 10)
        } else {
            None
        };
        match dv {
            None => {
                big = true;
            },
            Some(x) => {
                if !big {
                    let next = acc * 16 + x;
                    if next >= 0x10000 {
                        big = true;
                    } else {
                        acc = next;
                    }
                } else {
                    proof {
                        match hex_digits(pre) {
                            Some(v) => {
                                assert(v * 16 + x >= v) by (nonlinear_arith)
                                    requires
                                        v >= 0,
                                        x >= 0,
                                ;
                            },
                            None => {},
                        }
                    }
                }
            },
        }
        i = i + 1;
    }
    assert(s@.subrange(start as int, s.len() as int) =~= d);
    if big {
        None
    } else {
        Some(acc as u16)
    }
}

/// Whether `s` is exactly the characters of `p`.
pub(crate) fn equals(s: &Vec<char>, p: &str) -> (r: bool)
    ensures
        r == (s@ == p@),
{
    let same = starts_with(s, p) && s.len() == p.unicode_len();
    if same {
        assert(s@ =~= p@);
    }
    same
}

/// `c` with ASCII capitals made small, as `char::to_ascii_lowercase` does.
pub open spec fn ascii_lower(c: char) -> char {
    if 'A' <= c && c <= 'Z' {
        (((c as u8) + 32) as u8) as char
    } else {
        c
    }
}

pub open spec fn ascii_lowercase(s: Seq<char>) -> Seq<char> {
    s.map_values(|c: char| ascii_lower(c))
}

/// The characters of `s` with ASCII capitals made small.
pub(crate) fn lowercase_chars(s: &str) -> (r: Vec<char>)
    ensures
        r@ == ascii_lowercase(s@),
{
    let v = chars_of(s);
    let mut r: Vec<char> = Vec::new();
    let mut i: usize = 0;
    while i < v.len()
        invariant
            i <= v.len(),
            v@ == s@,
            r@ == v@.take(i as int).map_values(|c: char| ascii_lower(c)),
        decreases v.len() - i,
    {
        let c = v[i];
        let l = if 'A' <= c && c <= 'Z' {
            (((c as u8) + 32) as u8) as char
        } else {
            c
        };
        r.push(l);
        i = i + 1;
        assert(r@ =~= v@.take(i as int).map_values(|c: char| ascii_lower(c)));
    }
    assert(v@.take(i as int) =~= v@);
    r
}

/// The value of a run of decimal digits.
pub open spec fn dec_digits(s: Seq<char>) -> Option<nat>
    decreases s.len(),
{
    if s.len() == 0 {
        Some(0)
    } else {
        match dec_digits(s.drop_last()) {
            Some(a) => if '0' <= s.last() && s.last() <= '9' {
                Some((a * 10 + (s.last() as u32 - '0' as u32)) as nat)
            } else {
                None
            },
            None => None,
        }
    }
}

/// A number in decimal as `str::parse::<u64>` reads it: an optional `+`,
/// then at least one digit, and no overflow.
pub open spec fn dec_u64(s: Seq<char>) -> Option<u64> {
    let d = if s.len() > 0 && s[0] == '+' { s.drop_first() } else { s };
    if d.len() == 0 {
        None
    } else {
        match dec_digits(d) {
            Some(v) => if v <= u64::MAX { Some(v as u64) } else { None },
            None => None,
        }
    }
}

pub(crate) fn parse_dec_u64(s: &Vec<char>) -> (r: Option<u64>)
    ensures
        r == dec_u64(s@),
{
    let start: usize = if s.len() > 0 && s[0] == '+' { 1 } else { 0 };
    let ghost d = if s@.len() > 0 && s@[0] == '+' { s@.drop_first() } else { s@ };
    assert(d =~= s@.skip(start as int));
    if start >= s.len() {
        return None;
    }
    let mut acc: u64 = 0;
    let mut bad = false;
    let mut i: usize = start;
    while i < s.len()
        invariant
            start <= i <= s.len(),
            d == s@.skip(start as int),
            !bad ==> dec_digits(s@.subrange(start as int, i as int)) == Some(acc as nat),
            bad ==> match dec_digits(s@.subrange(start as int, i as int)) {
                Some(v) => v > u64::MAX,
                None => true,
            },
        decreases s.len() - i,
    {
        let c = s[i];
        let ghost pre = s@.subrange(start as int, i as int);
        let ghost cur = s@.subrange(start as int, i + 1);
        assert(cur.drop_last() =~= pre);
        assert(cur.last() == c);
        if '0' <= c && c <= '9' {
            let x: u64 = (c as u32 - '0' as u32) as u64;
            if !bad {
                if acc > (u64::MAX - x) / 10 {
                    bad = true;
                    assert(acc * 10 + x > u64::MAX) by (nonlinear_arith)
                        requires
                            acc > (u64::MAX - x) / 10,
                            x <= 9,
                    ;
                } else {
                    assert(acc * 10 + x <= u64::MAX) by (nonlinear_arith)
                        requires
                            acc <= (u64::MAX - x) / 10,
                            x <= 9,
                    ;
                    acc = acc * 10 + x;
                }
            } else {
                proof {
                    match dec_digits(pre) {
                        Some(v) => {
                            assert(v * 10 + x >= v) by (nonlinear_arith)
                                requires
                                    v >= 0,
                                    x >= 0,
                            ;
                        },
                        None => {},
                    }
                }
            }
        } else {
            bad = true;
        }
        i = i + 1;
    }
    assert(s@.subrange(start as int, s.len() as int) =~= d);
    if bad {
        None
    } else {
        Some(acc)
    }
}

/// The pieces of `s` between the occurrences of `sep`, as `str::split`
/// yields them.
pub open spec fn split_all(s: Seq<char>, sep: Seq<char>) -> Seq<Seq<char>>
    decreases s.len(),
{
    match find_from(s, sep, 0) {
        Some(k) => if sep.len() > 0 && k + sep.len() <= s.len() {
            seq![s.take(k as int)] + split_all(s.skip((k + sep.len()) as int), sep)
        } else {
            seq![s]
        },
        None => seq![s],
    }
}

} // verus!
