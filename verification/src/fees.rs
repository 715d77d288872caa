use vstd::prelude::*;

verus! {

/// The portion of `x` at `bps` basis points, rounded down: 10000 bps is the
/// whole of `x`. Every fee and every split leg in the engine is an instance
/// of this one definition.
pub open spec fn bps_portion(x: int, bps: int) -> int {
    x * bps / 10000
}

/// The fee taken from `amount` at `bps` basis points.
pub open spec fn spec_fee(amount: u64, bps: u16) -> int {
    bps_portion(amount as int, bps as int)
}

/// A portion at no more than 10000 bps never exceeds the base and is never
/// negative.
pub proof fn lemma_bps_portion_bounds(x: int, bps: int)
    requires
        0 <= x,
        0 <= bps <= 10000,
    ensures
        0 <= bps_portion(x, bps) <= x,
{
    assert(0 <= x * bps / 10000 <= x) by (nonlinear_arith)
        requires
            0 <= x,
            0 <= bps <= 10000,
    {
    }
}

/// Two fees of at most 500 bps each leave a non-negative remainder: their
/// sum never exceeds the amount they are taken from.
pub proof fn lemma_fee_pair_bound(amount: u64, protocol_bps: u16, arbitrator_bps: u16)
    requires
        protocol_bps <= 500,
        arbitrator_bps <= 500,
    ensures
        0 <= spec_fee(amount, protocol_bps) + spec_fee(amount, arbitrator_bps) <= amount,
{
    let a = amount as int;
    let p = protocol_bps as int;
    let q = arbitrator_bps as int;
    assert(0 <= a * p / 10000 + a * q / 10000 <= a) by (nonlinear_arith)
        requires
            0 <= a,
            0 <= p <= 500,
            0 <= q <= 500,
    {
    }
}

/// The portion of `x` at `bps` basis points, computed with a widened
/// intermediate so the multiply cannot overflow.
pub fn bps_amount(x: u64, bps: u16) -> (r: u64)
    requires
        bps <= 10000,
    ensures
        r == bps_portion(x as int, bps as int),
        r <= x,
{
    proof {
        lemma_bps_portion_bounds(x as int, bps as int);
    }
    (((x as u128) * (bps as u128)) / 10000) as u64
}

} // verus!
