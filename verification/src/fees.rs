//! Fee accounting of one transaction: what is withdrawn from the sender up
//! front, what the coinbase earns, and what goes back to the sender.

use vstd::prelude::*;
use crate::primitives::{u256_limit, U256};

verus! {

/// The fee reserved before execution: the whole gas limit at the gas price.
pub open spec fn spec_total_fee(gas_price: nat, gas_limit: nat) -> nat {
    gas_price * gas_limit
}

/// The fee earned by the coinbase: the gas that was used, at the gas price.
pub open spec fn spec_actual_fee(gas_price: nat, used_gas: nat) -> nat {
    used_gas * gas_price
}

/// What the sender gets back: the reserved fee less the earned fee.
pub open spec fn spec_refund(total_fee: nat, gas_price: nat, used_gas: nat) -> int {
    total_fee - spec_actual_fee(gas_price, used_gas)
}

/// How the reserved fee is split after execution.
#[derive(Clone, Copy, Debug, PartialEq, Eq)]
pub struct FeeSettlement {
    /// Deposited to the block's beneficiary.
    pub coinbase_deposit: U256,
    /// Deposited back to the sender.
    pub sender_refund: U256,
}

/// The fee to withdraw from the sender before execution, or `None` when it
/// does not fit in 256 bits.
pub fn total_fee(gas_price: U256, gas_limit: u64) -> (r: Option<U256>)
    ensures
        r is Some <==> spec_total_fee(gas_price@, gas_limit as nat) < u256_limit(),
        r is Some ==> r.unwrap()@ == spec_total_fee(gas_price@, gas_limit as nat),
{
    gas_price.checked_mul(U256::from_u64(gas_limit))
}

/// Splits the reserved fee between coinbase and sender, given the gas that
/// execution used. `None` when the earned fee exceeds what was reserved.
pub fn settle(total_fee: U256, gas_price: U256, used_gas: u64) -> (r: Option<FeeSettlement>)
    ensures
        r is Some <==> spec_actual_fee(gas_price@, used_gas as nat) <= total_fee@,
        r is Some ==> r.unwrap().coinbase_deposit@ == spec_actual_fee(gas_price@, used_gas as nat),
        r is Some ==> r.unwrap().sender_refund@ == spec_refund(
            total_fee@,
            gas_price@,
            used_gas as nat,
        ),
{
    match U256::from_u64(used_gas).checked_mul(gas_price) {
        None => None,
        Some(actual) => match total_fee.checked_sub(actual) {
            None => None,
            Some(refund) => Some(FeeSettlement { coinbase_deposit: actual, sender_refund: refund }),
        },
    }
}

/// Fee settlement neither creates nor destroys value: whenever the earned
/// fee is within the reserved fee, the coinbase deposit and the sender's
/// refund add up to exactly the reserved fee.
pub proof fn lemma_settlement_conserves_fee(total_fee: nat, gas_price: nat, used_gas: nat)
    requires
        spec_actual_fee(gas_price, used_gas) <= total_fee,
    ensures
        spec_refund(total_fee, gas_price, used_gas) >= 0,
        spec_actual_fee(gas_price, used_gas) + spec_refund(total_fee, gas_price, used_gas)
            == total_fee,
{
}

/// Gas use within the gas limit never earns more than was reserved, so the
/// settlement of such a run always exists and its two parts add up to
/// `gas_price * gas_limit`.
pub proof fn lemma_used_within_limit_settles(gas_price: nat, gas_limit: nat, used_gas: nat)
    requires
        used_gas <= gas_limit,
    ensures
        spec_actual_fee(gas_price, used_gas) <= spec_total_fee(gas_price, gas_limit),
        spec_actual_fee(gas_price, used_gas) + spec_refund(
            spec_total_fee(gas_price, gas_limit),
            gas_price,
            used_gas,
        ) == gas_price * gas_limit,
{
    assert(used_gas * gas_price <= gas_price * gas_limit) by (nonlinear_arith)
        requires
            used_gas <= gas_limit,
    ;
}

} // verus!
