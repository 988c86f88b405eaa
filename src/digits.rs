//! Decimal rendering of integers for diagnostics, without formatting
//! machinery.

use vstd::prelude::*;

verus! {

/// The ASCII decimal digits of `n`, without leading zeros ("0" for zero).
pub open spec fn decimal(n: nat) -> Seq<u8>
    decreases n,
{
    if n < 10 {
        seq![(48 + n) as u8]
    } else {
        decimal(n / 10).push((48 + n % 10) as u8)
    }
}

fn push_decimal(x: u32, out: &mut Vec<u8>)
    ensures
        final(out)@ == old(out)@ + decimal(x as nat),
    decreases x,
{
    if x >= 10 {
        push_decimal(x / 10, out);
    }
    out.push(48u8 + (x % 10) as u8);
    proof {
        if x >= 10 {
            assert(decimal(x as nat) == decimal((x / 10) as nat).push((48 + x % 10) as u8));
        }
        assert(out@ =~= old(out)@ + decimal(x as nat));
    }
}

/// The ASCII decimal digits of `x`, as written in diagnostics.
pub fn decimal_digits(x: u32) -> (r: Vec<u8>)
    ensures
        r@ == decimal(x as nat),
{
    let mut r: Vec<u8> = Vec::new();
    push_decimal(x, &mut r);
    proof {
        assert(r@ =~= decimal(x as nat));
    }
    r
}

} // verus!
