//! Decimal rendering of integers: plain digits, thousands grouping,
//! zero-padded fractions, and trailing-zero trimming. These back the
//! human-readable usage, price and duration strings.
use vstd::prelude::*;

use crate::text::{string_from_chars, sub_chars};

verus! {

/// The decimal digit character for `d` (0 through 9).
pub open spec fn digit_char(d: nat) -> char {
    if d == 0 {
        '0'
    } else if d == 1 {
        '1'
    } else if d == 2 {
        '2'
    } else if d == 3 {
        '3'
    } else if d == 4 {
        '4'
    } else if d == 5 {
        '5'
    } else if d == 6 {
        '6'
    } else if d == 7 {
        '7'
    } else if d == 8 {
        '8'
    } else {
        '9'
    }
}

/// The decimal digits of `n`, least significant first.
pub open spec fn rev_digits(n: nat) -> Seq<char>
    decreases n,
{
    if n < 10 {
        seq![digit_char(n)]
    } else {
        seq![digit_char(n % 10)] + rev_digits(n / 10)
    }
}

/// The decimal digits of `n`, most significant first, no leading zeros
/// (a single `'0'` for zero).
pub open spec fn spec_digits(n: nat) -> Seq<char> {
    rev_digits(n).reverse()
}

/// Digit text with a comma before every group of three digits counted
/// from the right.
pub open spec fn spec_grouped(s: Seq<char>) -> Seq<char>
    decreases s.len(),
{
    if s.len() <= 3 {
        s
    } else {
        spec_grouped(s.take(s.len() - 3)) + seq![','] + s.skip(s.len() - 3)
    }
}

/// Rendering of a signed count with thousands separators.
pub open spec fn spec_format_num(n: int) -> Seq<char> {
    if n < 0 {
        seq!['-'] + spec_grouped(spec_digits((-n) as nat))
    } else {
        spec_grouped(spec_digits(n as nat))
    }
}

/// The digits of `n` left-padded with zeros to at least `width` characters.
pub open spec fn spec_padded_digits(n: nat, width: nat) -> Seq<char> {
    if spec_digits(n).len() >= width {
        spec_digits(n)
    } else {
        Seq::new((width - spec_digits(n).len()) as nat, |i: int| '0') + spec_digits(n)
    }
}

/// The text with trailing `'0'` characters removed.
pub open spec fn spec_trim_zeros(s: Seq<char>) -> Seq<char>
    decreases s.len(),
{
    if s.len() > 0 && s[s.len() - 1] == '0' {
        spec_trim_zeros(s.drop_last())
    } else {
        s
    }
}

fn digit_to_char(d: u64) -> (c: char)
    requires
        d < 10,
    ensures
        c == digit_char(d as nat),
{
    if d == 0 {
        '0'
    } else if d == 1 {
        '1'
    } else if d == 2 {
        '2'
    } else if d == 3 {
        '3'
    } else if d == 4 {
        '4'
    } else if d == 5 {
        '5'
    } else if d == 6 {
        '6'
    } else if d == 7 {
        '7'
    } else if d == 8 {
        '8'
    } else {
        '9'
    }
}

fn u64_rev_digits(n: u64) -> (v: Vec<char>)
    ensures
        v@ == rev_digits(n as nat),
    decreases n,
{
    if n < 10 {
        let mut v: Vec<char> = Vec::new();
        v.push(digit_to_char(n));
        proof {
            assert(v@ =~= rev_digits(n as nat));
        }
        v
    } else {
        let mut v: Vec<char> = Vec::new();
        v.push(digit_to_char(n % 10));
        let mut rest = u64_rev_digits(n / 10);
        v.append(&mut rest);
        proof {
            assert(v@ =~= seq![digit_char((n % 10) as nat)] + rev_digits((n / 10) as nat));
        }
        v
    }
}

fn reverse_chars(v: &Vec<char>) -> (r: Vec<char>)
    ensures
        r@ == v@.reverse(),
{
    let mut r: Vec<char> = Vec::new();
    let mut i: usize = v.len();
    while i > 0
        invariant
            0 <= i <= v@.len(),
            r@.len() == v@.len() - i,
            forall|k: int| 0 <= k < r@.len() ==> r@[k] == v@[v@.len() - 1 - k],
        decreases i,
    {
        i = i - 1;
        r.push(v[i]);
    }
    proof {
        assert(r@ =~= v@.reverse());
    }
    r
}

/// The decimal digits of `n`, most significant first.
pub fn u64_digits(n: u64) -> (v: Vec<char>)
    ensures
        v@ == spec_digits(n as nat),
{
    let rev = u64_rev_digits(n);
    reverse_chars(&rev)
}

fn grouped_digits(v: &Vec<char>, end: usize) -> (r: Vec<char>)
    requires
        end <= v@.len(),
    ensures
        r@ == spec_grouped(v@.take(end as int)),
    decreases end,
{
    if end <= 3 {
        let r = sub_chars(v.as_slice(), 0, end);
        proof {
            assert(v@.subrange(0, end as int) =~= v@.take(end as int));
        }
        r
    } else {
        let mut r = grouped_digits(v, end - 3);
        r.push(',');
        r.push(v[end - 3]);
        r.push(v[end - 2]);
        r.push(v[end - 1]);
        proof {
            let t = v@.take(end as int);
            assert(t.take(t.len() - 3) =~= v@.take(end - 3));
            assert(r@ =~= spec_grouped(t.take(t.len() - 3)) + seq![','] + t.skip(t.len() - 3));
        }
        r
    }
}

/// Renders a count with commas every three digits (`1234567` as
/// `1,234,567`).
pub fn format_num(n: i64) -> (r: String)
    ensures
        r@ == spec_format_num(n as int),
{
    if n >= 0 {
        let d = u64_digits(n as u64);
        let g = grouped_digits(&d, d.len());
        proof {
            assert(d@.take(d@.len() as int) =~= d@);
        }
        string_from_chars(g.as_slice())
    } else {
        let m: u64 = (-(n as i128)) as u64;
        let d = u64_digits(m);
        let g = grouped_digits(&d, d.len());
        let mut out: Vec<char> = Vec::new();
        out.push('-');
        let mut tail = g;
        out.append(&mut tail);
        proof {
            assert(d@.take(d@.len() as int) =~= d@);
            assert(out@ =~= spec_format_num(n as int));
        }
        string_from_chars(out.as_slice())
    }
}

/// The digits of `n`, left-padded with zeros to at least `width` characters.
pub fn padded_digits(n: u64, width: usize) -> (v: Vec<char>)
    ensures
        v@ == spec_padded_digits(n as nat, width as nat),
{
    let d = u64_digits(n);
    if d.len() >= width {
        d
    } else {
        let mut v: Vec<char> = Vec::new();
        let pad = width - d.len();
        let mut i: usize = 0;
        while i < pad
            invariant
                0 <= i <= pad,
                v@ =~= Seq::new(i as nat, |k: int| '0'),
            decreases pad - i,
        {
            v.push('0');
            proof {
                assert(v@ =~= Seq::new((i + 1) as nat, |k: int| '0'));
            }
            i = i + 1;
        }
        let mut tail = d;
        v.append(&mut tail);
        proof {
            assert(v@ =~= spec_padded_digits(n as nat, width as nat));
        }
        v
    }
}

/// Removes trailing zero characters.
pub fn trim_zeros(v: Vec<char>) -> (r: Vec<char>)
    ensures
        r@ == spec_trim_zeros(v@),
{
    let mut j: usize = v.len();
    proof {
        assert(v@.take(j as int) =~= v@);
    }
    while j > 0 && v[j - 1] == '0'
        invariant
            0 <= j <= v@.len(),
            spec_trim_zeros(v@) == spec_trim_zeros(v@.take(j as int)),
        decreases j,
    {
        proof {
            assert(v@.take(j as int).drop_last() =~= v@.take(j - 1));
        }
        j = j - 1;
    }
    proof {
        if j > 0 {
            assert(spec_trim_zeros(v@.take(j as int)) == v@.take(j as int));
        } else {
            assert(v@.take(0) =~= Seq::<char>::empty());
        }
    }
    let r = sub_chars(v.as_slice(), 0, j);
    proof {
        assert(v@.subrange(0, j as int) =~= v@.take(j as int));
    }
    r
}

} // verus!
