use jsontests::fees::{settle, total_fee};
use jsontests::primitives::U256;

#[test]
fn total_fee_is_price_times_limit() {
    let fee = total_fee(U256::from_u64(3), 21000).unwrap();
    assert_eq!(fee, U256::from_u64(63000));
    assert_eq!(total_fee(U256::zero(), u64::MAX), Some(U256::zero()));
    assert_eq!(total_fee(U256::from_u64(5), 0), Some(U256::zero()));
}

#[test]
fn total_fee_beyond_256_bits_is_none() {
    let price = U256 { limbs: [0, 0, 0, 1] };
    assert_eq!(total_fee(price, 1 << 63), Some(U256 { limbs: [0, 0, 0, 1 << 63] }));
    let price = U256 { limbs: [0, 0, 0, 2] };
    assert_eq!(total_fee(price, 1 << 63), None);
}

#[test]
fn settlement_parts_add_up() {
    let price = U256::from_u64(7);
    let total = total_fee(price, 100).unwrap();
    let s = settle(total, price, 40).unwrap();
    assert_eq!(s.coinbase_deposit, U256::from_u64(280));
    assert_eq!(s.sender_refund, U256::from_u64(420));
    let sum = s.coinbase_deposit.limbs[0] + s.sender_refund.limbs[0];
    assert_eq!(sum, total.limbs[0]);
}

#[test]
fn settlement_of_all_gas_refunds_nothing() {
    let price = U256::from_u64(9);
    let total = total_fee(price, 50).unwrap();
    let s = settle(total, price, 50).unwrap();
    assert_eq!(s.coinbase_deposit, total);
    assert_eq!(s.sender_refund, U256::zero());
}

#[test]
fn settlement_of_no_gas_refunds_everything() {
    let price = U256::from_u64(9);
    let total = total_fee(price, 50).unwrap();
    let s = settle(total, price, 0).unwrap();
    assert_eq!(s.coinbase_deposit, U256::zero());
    assert_eq!(s.sender_refund, total);
}

#[test]
fn settlement_beyond_reserve_is_none() {
    let price = U256::from_u64(9);
    let total = total_fee(price, 50).unwrap();
    assert_eq!(settle(total, price, 51), None);
    let huge = U256 { limbs: [0, 0, 0, 1 << 63] };
    assert_eq!(settle(huge, huge, 2), None);
}
