//! Small verified text-building helpers: appending decimal numbers and
//! digit runs to a growing string.

use vstd::prelude::*;
use vstd::string::StringExecFns;

verus! {

/// The character of one decimal digit.
pub open spec fn spec_digit(d: nat) -> char {
    if d == 0 {
        '0'
    } else if d == 1 {
        '1'
    } else if d == 2 {
        '2'
    } else if d == 3 {
        '3'
    } else if d == 4 {
        '4'
    } else if d == 5 {
        '5'
    } else if d == 6 {
        '6'
    } else if d == 7 {
        '7'
    } else if d == 8 {
        '8'
    } else {
        '9'
    }
}

/// The decimal text of `n`, most significant digit first.
pub open spec fn spec_dec(n: nat) -> Seq<char>
    decreases n,
{
    if n < 10 {
        seq![spec_digit(n)]
    } else {
        spec_dec(n / 10).push(spec_digit(n % 10))
    }
}

/// The last `scale` decimal digits of `mant`, zero-padded at the front.
pub open spec fn spec_frac(mant: nat, scale: nat) -> Seq<char>
    decreases scale,
{
    if scale == 0 {
        Seq::empty()
    } else {
        spec_frac(mant / 10, (scale - 1) as nat).push(spec_digit(mant % 10))
    }
}

/// Append one decimal digit.
pub fn push_digit(s: &mut String, d: u64)
    requires
        d < 10,
    ensures
        final(s)@ == old(s)@.push(spec_digit(d as nat)),
{
    let ghost pre = s@;
    if d == 0 {
        s.append("0");
        proof {
            reveal_strlit("0");
            assert(s@ =~= pre.push(spec_digit(d as nat)));
        }
    } else if d == 1 {
        s.append("1");
        proof {
            reveal_strlit("1");
            assert(s@ =~= pre.push(spec_digit(d as nat)));
        }
    } else if d == 2 {
        s.append("2");
        proof {
            reveal_strlit("2");
            assert(s@ =~= pre.push(spec_digit(d as nat)));
        }
    } else if d == 3 {
        s.append("3");
        proof {
            reveal_strlit("3");
            assert(s@ =~= pre.push(spec_digit(d as nat)));
        }
    } else if d == 4 {
        s.append("4");
        proof {
            reveal_strlit("4");
            assert(s@ =~= pre.push(spec_digit(d as nat)));
        }
    } else if d == 5 {
        s.append("5");
        proof {
            reveal_strlit("5");
            assert(s@ =~= pre.push(spec_digit(d as nat)));
        }
    } else if d == 6 {
        s.append("6");
        proof {
            reveal_strlit("6");
            assert(s@ =~= pre.push(spec_digit(d as nat)));
        }
    } else if d == 7 {
        s.append("7");
        proof {
            reveal_strlit("7");
            assert(s@ =~= pre.push(spec_digit(d as nat)));
        }
    } else if d == 8 {
        s.append("8");
        proof {
            reveal_strlit("8");
            assert(s@ =~= pre.push(spec_digit(d as nat)));
        }
    } else {
        s.append("9");
        proof {
            reveal_strlit("9");
            assert(s@ =~= pre.push(spec_digit(d as nat)));
        }
    }
}

/// Append the decimal text of `n`.
pub fn push_dec(s: &mut String, n: u64)
    ensures
        final(s)@ == old(s)@ + spec_dec(n as nat),
    decreases n,
{
    let ghost pre = s@;
    if n < 10 {
        push_digit(s, n);
        proof {
            assert(s@ =~= pre + spec_dec(n as nat));
        }
    } else {
        push_dec(s, n / 10);
        push_digit(s, n % 10);
        proof {
            assert(s@ =~= pre + spec_dec(n as nat));
        }
    }
}

/// Append the last `scale` decimal digits of `mant`, zero-padded.
pub fn push_frac(s: &mut String, mant: u64, scale: u32)
    ensures
        final(s)@ == old(s)@ + spec_frac(mant as nat, scale as nat),
    decreases scale,
{
    let ghost pre = s@;
    if scale == 0 {
        proof {
            assert(s@ =~= pre + spec_frac(mant as nat, 0));
        }
    } else {
        push_frac(s, mant / 10, scale - 1);
        push_digit(s, mant % 10);
        proof {
            assert(s@ =~= pre + spec_frac(mant as nat, scale as nat));
        }
    }
}

/// A fresh string `purpose` followed by the decimal text of `n`: the label
/// of a newly created block.
pub fn make_label(purpose: &str, n: u64) -> (r: String)
    ensures
        r@ == purpose@ + spec_dec(n as nat),
{
    let mut s = String::from_str(purpose);
    push_dec(&mut s, n);
    s
}

} // verus!
