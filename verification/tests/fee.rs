use spool_amm::fee::deduct_fee;

#[test]
fn fee_zero_input_zero_net() {
    assert_eq!(deduct_fee(0), 0);
}

#[test]
fn fee_exact_rate_on_round_amounts() {
    assert_eq!(deduct_fee(1000), 970);
    assert_eq!(deduct_fee(2000), 1940);
    assert_eq!(deduct_fee(10_000), 9700);
}

#[test]
fn fee_rounds_down_in_the_pool_favor() {
    // 1234 * 30 / 1000 = 37.02, so 37 is kept as fee.
    assert_eq!(deduct_fee(1234), 1234 - 37);
    // Inputs too small to reach one fee unit pay no fee at all.
    assert_eq!(deduct_fee(33), 33);
    assert_eq!(deduct_fee(34), 33);
}

#[test]
fn fee_never_exceeds_input() {
    for amount in [1u64, 2, 33, 34, 999, 1000, 1001, 123_456_789] {
        let net = deduct_fee(amount);
        let fee = amount - net;
        assert!(fee <= amount);
        assert_eq!(fee as u128, (amount as u128) * 30 / 1000);
    }
}

#[test]
fn fee_at_largest_input() {
    let net = deduct_fee(u64::MAX);
    assert_eq!(net, 17_893_341_751_498_265_067);
}
