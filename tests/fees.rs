use relay::fees::{bump_transaction, increase_by_minimum, replacement_gas_values};
use relay::request::TxIntent;

#[test]
fn increase_by_minimum_adds_a_tenth_and_one() {
    assert_eq!(increase_by_minimum(0), Some(1));
    assert_eq!(increase_by_minimum(9), Some(10));
    assert_eq!(increase_by_minimum(10), Some(12));
    assert_eq!(increase_by_minimum(100), Some(111));
    assert_eq!(increase_by_minimum(1_000_000_007), Some(1_100_000_008));
}

#[test]
fn increase_by_minimum_overflow_is_none() {
    assert_eq!(increase_by_minimum(u128::MAX), None);
    assert_eq!(increase_by_minimum(u128::MAX - 5), None);
    assert_eq!(increase_by_minimum(1u128 << 120), Some((1u128 << 120) + (1u128 << 120) / 10 + 1));
}

#[test]
fn replacement_uses_minimum_bump_when_estimate_is_lower() {
    // prev: max 150, priority 50 (base 100); estimate: max 60, priority 10 (base 50)
    assert_eq!(replacement_gas_values(150, 50, 60, 10), Some((111 + 56, 56)));
}

#[test]
fn replacement_follows_estimate_when_it_is_higher() {
    // estimate priority 100 > 56; estimate base 1000 > 111
    assert_eq!(replacement_gas_values(150, 50, 1100, 100), Some((1100, 100)));
}

#[test]
fn replacement_with_zero_previous_fees() {
    assert_eq!(replacement_gas_values(0, 0, 0, 0), Some((2, 1)));
    assert_eq!(replacement_gas_values(0, 0, 70, 20), Some((70, 20)));
}

#[test]
fn replacement_overflow_is_none() {
    assert_eq!(replacement_gas_values(u128::MAX, 0, 0, 0), None);
    assert_eq!(replacement_gas_values(0, 0, u128::MAX, 0), None);
    assert_eq!(replacement_gas_values(0, 0, u128::MAX, 1), Some((u128::MAX, 1)));
}

#[test]
fn replacement_raises_both_components_by_ten_percent() {
    let cases: Vec<(u128, u128, u128, u128)> = vec![
        (150, 50, 60, 10),
        (3_000_000_000, 1_000_000_000, 2_000_000_000, 1_500_000_000),
        (7, 7, 0, 0),
        (1_000, 0, 900, 900),
        (123_456_789, 1, 5, 4),
    ];
    for (pm, pp, em, ep) in cases {
        let (nf, np) = replacement_gas_values(pm, pp, em, ep).unwrap();
        assert!(nf >= np);
        assert!(np >= pp * 110 / 100 + 1);
        assert!(nf - np >= (pm - pp) * 110 / 100 + 1);
        assert!(np >= ep);
        assert!(nf - np >= em - ep);
    }
}

#[test]
fn repeated_bumps_keep_growing() {
    let mut tx = TxIntent::new();
    tx.max_fee_per_gas = Some(150);
    tx.max_priority_fee_per_gas = Some(50);
    let mut prev = (150u128, 50u128);
    for _ in 0..20 {
        assert!(bump_transaction(&mut tx, 60, 10));
        let nf = tx.max_fee_per_gas.unwrap();
        let np = tx.max_priority_fee_per_gas.unwrap();
        assert!(np >= prev.1 * 110 / 100 + 1);
        assert!(nf - np >= (prev.0 - prev.1) * 110 / 100 + 1);
        prev = (nf, np);
    }
}

#[test]
fn bump_transaction_sets_both_fees() {
    let mut tx = TxIntent::new();
    tx.value = Some(1);
    tx.nonce = Some(4);
    tx.max_fee_per_gas = Some(150);
    tx.max_priority_fee_per_gas = Some(50);
    assert!(bump_transaction(&mut tx, 60, 10));
    assert_eq!(tx.max_fee_per_gas, Some(167));
    assert_eq!(tx.max_priority_fee_per_gas, Some(56));
    assert_eq!(tx.value, Some(1));
    assert_eq!(tx.nonce, Some(4));
}

#[test]
fn bump_transaction_reads_absent_fees_as_the_estimate() {
    let mut tx = TxIntent::new();
    assert!(bump_transaction(&mut tx, 200, 100));
    // priority: max(100, 111) = 111; base: max(100, 111) = 111
    assert_eq!(tx.max_priority_fee_per_gas, Some(111));
    assert_eq!(tx.max_fee_per_gas, Some(222));
}

#[test]
fn bump_transaction_overflow_leaves_request() {
    let mut tx = TxIntent::new();
    tx.max_fee_per_gas = Some(u128::MAX);
    tx.max_priority_fee_per_gas = Some(0);
    assert!(!bump_transaction(&mut tx, 0, 0));
    assert_eq!(tx.max_fee_per_gas, Some(u128::MAX));
    assert_eq!(tx.max_priority_fee_per_gas, Some(0));
}
