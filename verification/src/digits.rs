//! Decimal rendering of unsigned integers as ASCII bytes.

use vstd::prelude::*;

verus! {

/// The decimal digits of `n` as ASCII bytes, most significant first, with
/// no sign, padding, or leading zeros (`0` itself is the single byte `b'0'`).
pub open spec fn dec_bytes(n: nat) -> Seq<u8>
    decreases n,
{
    if n < 10 {
        seq![(48 + n) as u8]
    } else {
        dec_bytes(n / 10).push((48 + n % 10) as u8)
    }
}

/// A decimal rendering always holds at least one digit.
pub proof fn lemma_dec_bytes_nonempty(n: nat)
    ensures
        dec_bytes(n).len() >= 1,
{
    if n < 10 {
        assert(dec_bytes(n).len() == 1);
    } else {
        assert(dec_bytes(n).len() == dec_bytes(n / 10).len() + 1);
    }
}

/// Every byte of a decimal rendering is an ASCII digit.
pub proof fn lemma_dec_bytes_are_digits(n: nat)
    ensures
        forall|i: int| 0 <= i < dec_bytes(n).len() ==> 48 <= #[trigger] dec_bytes(n)[i] <= 57,
    decreases n,
{
    if n >= 10 {
        lemma_dec_bytes_are_digits(n / 10);
        assert forall|i: int| 0 <= i < dec_bytes(n).len() implies 48 <= #[trigger] dec_bytes(
            n,
        )[i] <= 57 by {
            if i < dec_bytes(n).len() - 1 {
                assert(dec_bytes(n)[i] == dec_bytes(n / 10)[i]);
            } else {
                assert(dec_bytes(n)[i] == (48 + n % 10) as u8);
            }
        }
    } else {
        assert(dec_bytes(n)[0] == (48 + n) as u8);
    }
}

/// Distinct numbers have distinct decimal renderings.
pub proof fn lemma_dec_bytes_injective(a: nat, b: nat)
    requires
        dec_bytes(a) == dec_bytes(b),
    ensures
        a == b,
    decreases a,
{
    if a < 10 && b < 10 {
        assert(dec_bytes(a)[0] == (48 + a) as u8);
        assert(dec_bytes(b)[0] == (48 + b) as u8);
    } else if a < 10 {
        lemma_dec_bytes_nonempty(b / 10);
        assert(dec_bytes(b).len() == dec_bytes(b / 10).len() + 1);
    } else if b < 10 {
        lemma_dec_bytes_nonempty(a / 10);
        assert(dec_bytes(a).len() == dec_bytes(a / 10).len() + 1);
    } else {
        assert(dec_bytes(a) == dec_bytes(a / 10).push((48 + a % 10) as u8));
        assert(dec_bytes(b) == dec_bytes(b / 10).push((48 + b % 10) as u8));
        assert(dec_bytes(a).last() == (48 + a % 10) as u8);
        assert(dec_bytes(b).last() == (48 + b % 10) as u8);
        assert(a % 10 == b % 10);
        assert(dec_bytes(a / 10).push((48 + a % 10) as u8).drop_last() =~= dec_bytes(a / 10));
        assert(dec_bytes(b / 10).push((48 + b % 10) as u8).drop_last() =~= dec_bytes(b / 10));
        assert(dec_bytes(a / 10) == dec_bytes(b / 10));
        lemma_dec_bytes_injective(a / 10, b / 10);
        assert(a == 10 * (a / 10) + a % 10);
        assert(b == 10 * (b / 10) + b % 10);
    }
}

/// Append the decimal digits of `n` to `out`.
pub fn push_dec(out: &mut Vec<u8>, n: u64)
    ensures
        final(out)@ == old(out)@ + dec_bytes(n as nat),
    decreases n,
{
    if n >= 10 {
        push_dec(out, n / 10);
    }
    out.push((n % 10) as u8 + 48);
    proof {
        let d: u8 = (48 + (n as nat) % 10) as u8;
        if n < 10 {
            assert(old(out)@.push(d) =~= old(out)@ + dec_bytes(n as nat));
        } else {
            assert((old(out)@ + dec_bytes((n as nat) / 10)).push(d) =~= old(out)@ + dec_bytes(
                n as nat,
            ));
        }
    }
}

} // verus!
