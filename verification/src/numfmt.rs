//! Decimal rendering of numbers for the status line, specified against
//! the digit sequence of the number.

use vstd::prelude::*;
use crate::filedata::chars_to_string;

verus! {

/// The character for one decimal digit.
pub open spec fn digit_char(d: nat) -> char {
    ((d + 48) as u8) as char
}

/// The decimal digit characters of `n`, most significant first.
pub open spec fn dec_digits(n: nat) -> Seq<char>
    decreases n,
{
    if n < 10 {
        seq![digit_char(n)]
    } else {
        dec_digits(n / 10).push(digit_char(n % 10))
    }
}

/// The decimal rendering of `n`.
pub fn fmt_u128(n: u128) -> (r: String)
    ensures
        r@ == dec_digits(n as nat),
{
    let mut rev: Vec<char> = Vec::new();
    let mut m: u128 = n;
    while m >= 10
        invariant
            dec_digits(n as nat) == dec_digits(m as nat) + rev@.reverse(),
        decreases m,
    {
        let d: u8 = (m % 10) as u8 + 48;
        rev.push(d as char);
        m = m / 10;
        proof {
            assert(rev@.reverse() =~= seq![d as char] + rev@.drop_last().reverse());
            assert(dec_digits(n as nat) =~= dec_digits(m as nat) + rev@.reverse());
        }
    }
    let d: u8 = (m % 10) as u8 + 48;
    rev.push(d as char);
    proof {
        assert(m % 10 == m as nat);
        assert(rev@.reverse() =~= seq![d as char] + rev@.drop_last().reverse());
        assert(dec_digits(n as nat) =~= rev@.reverse());
    }
    let mut out: Vec<char> = Vec::new();
    let mut j: usize = rev.len();
    while j > 0
        invariant
            j <= rev@.len(),
            out@ == rev@.subrange(j as int, rev@.len() as int).reverse(),
        decreases j,
    {
        j = j - 1;
        out.push(rev[j]);
        proof {
            assert(rev@.subrange(j as int, rev@.len() as int).reverse() =~= rev@.subrange(
                j + 1,
                rev@.len() as int,
            ).reverse().push(rev@[j as int]));
        }
    }
    proof {
        assert(out@ =~= rev@.reverse());
    }
    chars_to_string(&out)
}

} // verus!
