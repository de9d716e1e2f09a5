use vstd::prelude::*;

verus! {

/// Commission rates carry six implied decimal places: `RATE_SCALE` is 100%.
pub const RATE_SCALE: u128 = 1_000_000;

/// The rate used when an auction is created without one: 0.1%.
pub const DEFAULT_COMMISSION: u128 = 1000;

/// The commission taken from a gross bid: `gross * rate / 10^6`, rounded down.
pub open spec fn commission_of(gross: nat, rate: nat) -> nat {
    gross * rate / (RATE_SCALE as nat)
}

/// What remains of a gross bid once the commission is taken.
pub open spec fn net_of(gross: nat, rate: nat) -> int {
    gross - commission_of(gross, rate)
}

/// A commission never exceeds the bid it is taken from when the rate is at most 100%.
pub proof fn lemma_commission_bounded(gross: nat, rate: nat)
    requires
        rate <= RATE_SCALE,
    ensures
        commission_of(gross, rate) <= gross,
{
    assert(gross * rate <= gross * 1_000_000) by (nonlinear_arith)
        requires
            rate <= 1_000_000,
    ;
    assert(gross * rate / 1_000_000 <= gross) by (nonlinear_arith)
        requires
            gross * rate <= gross * 1_000_000,
    ;
}

/// Relies on cosmwasm_std::Uint128::multiply_ratio: `a * num / den` rounded down,
/// the product taken in 256 bits; it panics only on a zero denominator or a
/// quotient that does not fit in 128 bits.
#[verifier::external_body]
fn multiply_ratio(a: u128, num: u128, den: u128) -> (r: u128)
    requires
        den > 0,
        (a as int) * (num as int) / (den as int) <= u128::MAX,
    ensures
        r == (a as int) * (num as int) / (den as int),
{
    cosmwasm_std::Uint128::new(a).multiply_ratio(num, den).u128()
}

/// Splits a gross bid into `(commission, net)` at the given rate.
pub fn commission(gross: u128, rate: u128) -> (r: (u128, u128))
    requires
        rate <= RATE_SCALE,
    ensures
        r.0 == commission_of(gross as nat, rate as nat),
        r.1 == net_of(gross as nat, rate as nat),
{
    proof {
        lemma_commission_bounded(gross as nat, rate as nat);
    }
    let fee = multiply_ratio(gross, rate, RATE_SCALE);
    (fee, gross - fee)
}

} // verus!
