use vstd::prelude::*;

verus! {

/// Basis points in a whole: 10000 basis points are 100%.
pub const BPS_DENOMINATOR: u64 = 10000;

/// The fee on `amount` at `bps` basis points, rounded down, and never more
/// than `max_fee`.
pub open spec fn fee_for(amount: u64, bps: u16, max_fee: u64) -> int {
    let raw = amount * bps / BPS_DENOMINATOR as int;
    if raw > max_fee {
        max_fee as int
    } else {
        raw
    }
}

/// Computes `fee_for(amount, bps, max_fee)`, multiplying in 128 bits so that
/// no product overflows.
pub fn calculate_fee(amount: u64, basis_points: u16, max_fee: u64) -> (r: u64)
    ensures
        r == fee_for(amount, basis_points, max_fee),
{
    if basis_points == 0 || amount == 0 {
        proof {
            assert(amount * basis_points == 0) by (nonlinear_arith)
                requires
                    amount == 0 || basis_points == 0,
            ;
        }
        return 0;
    }
    let a = amount as u128;
    let b = basis_points as u128;
    proof {
        assert(a * b <= 0xffff_ffff_ffff_ffffu128 * 0xffffu128) by (nonlinear_arith)
            requires
                a <= 0xffff_ffff_ffff_ffffu128,
                b <= 0xffffu128,
        ;
    }
    let raw = a * b / (BPS_DENOMINATOR as u128);
    if raw > max_fee as u128 {
        max_fee
    } else {
        raw as u64
    }
}

/// The fee never exceeds the amount while the rate is at most 100%.
pub proof fn lemma_fee_within_amount(amount: u64, bps: u16, max_fee: u64)
    requires
        bps <= BPS_DENOMINATOR,
    ensures
        0 <= fee_for(amount, bps, max_fee) <= amount,
{
    assert(amount * bps / 10000 <= amount) by (nonlinear_arith)
        requires
            bps <= 10000,
            0 <= amount,
    ;
    assert(amount * bps / 10000 >= 0) by (nonlinear_arith)
        requires
            0 <= bps,
            0 <= amount,
    ;
}

} // verus!
