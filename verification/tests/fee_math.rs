use vault_mvp::math::{bps_fee, pow10, pro_rata_fee, proceeds_for_shares, shares_for_deposit};

#[test]
fn bps_fee_exact_values() {
    assert_eq!(bps_fee(1_000_000_000, 25), 2_500_000);
    assert_eq!(bps_fee(997_500_000, 25), 2_493_750);
    assert_eq!(bps_fee(1_000_000, 7_000), 700_000);
    assert_eq!(bps_fee(0, 10_000), 0);
    assert_eq!(bps_fee(u64::MAX, 10_000), u64::MAX);
    assert_eq!(bps_fee(u64::MAX, 0), 0);
}

#[test]
fn bps_fee_rounds_down() {
    // 9999 * 1 / 10000 truncates to zero: fees round in the protocol's favor.
    assert_eq!(bps_fee(9_999, 1), 0);
    assert_eq!(bps_fee(10_001, 1), 1);
    assert_eq!(bps_fee(19_999, 1), 1);
}

#[test]
fn bps_fee_split_conserves_value() {
    // Fee plus remainder always reassemble the amount exactly.
    let cases: Vec<(u64, u16)> = vec![
        (0, 0),
        (1, 10_000),
        (1_000_000_000, 25),
        (987_654_321, 137),
        (u64::MAX, 9_999),
    ];
    for (amount, bps) in cases {
        let fee = bps_fee(amount, bps);
        assert!(fee <= amount);
        assert_eq!(fee + (amount - fee), amount);
    }
}

#[test]
fn pro_rata_fee_one_year_is_exact() {
    // One percent of one trillion over exactly one year.
    assert_eq!(
        pro_rata_fee(1_000_000_000_000, 100, 31_536_000),
        Some(10_000_000_000)
    );
}

#[test]
fn pro_rata_fee_fast_paths_return_zero() {
    assert_eq!(pro_rata_fee(1_000_000, 100, 0), Some(0));
    assert_eq!(pro_rata_fee(1_000_000, 100, -5), Some(0));
    assert_eq!(pro_rata_fee(1_000_000, 0, 31_536_000), Some(0));
    assert_eq!(pro_rata_fee(0, 100, 31_536_000), Some(0));
}

#[test]
fn pro_rata_fee_partial_year() {
    // Half a year at 200 bps on 1,000,000,000,000 equals one year at 100 bps.
    assert_eq!(
        pro_rata_fee(1_000_000_000_000, 200, 15_768_000),
        Some(10_000_000_000)
    );
    // A single second accrues the floor of the tiny pro-rata slice.
    assert_eq!(pro_rata_fee(1_000_000_000_000, 100, 1), Some(317));
}

#[test]
fn pro_rata_fee_monotone_in_each_input() {
    let base = pro_rata_fee(1_000_000_000, 100, 1_000_000).unwrap();
    assert!(pro_rata_fee(2_000_000_000, 100, 1_000_000).unwrap() >= base);
    assert!(pro_rata_fee(1_000_000_000, 200, 1_000_000).unwrap() >= base);
    assert!(pro_rata_fee(1_000_000_000, 100, 2_000_000).unwrap() >= base);
}

#[test]
fn pro_rata_fee_overflow_fails_closed() {
    assert_eq!(pro_rata_fee(u64::MAX, u16::MAX, i64::MAX), None);
}

#[test]
fn shares_for_deposit_exact_and_fallback() {
    // 1:1 at a price of one whole settlement unit per share, six decimals.
    assert_eq!(
        shares_for_deposit(997_500_000, 1_000_000, 1_000_000),
        Some(997_500_000)
    );
    // Twice the price mints half the shares.
    assert_eq!(
        shares_for_deposit(997_500_000, 2_000_000, 1_000_000),
        Some(498_750_000)
    );
    // Zero price falls back to the net amount unscaled.
    assert_eq!(shares_for_deposit(123_456, 0, 1_000_000), Some(123_456));
    // Division truncates toward zero.
    assert_eq!(shares_for_deposit(10, 3, 1), Some(3));
}

#[test]
fn shares_for_deposit_overflow_fails_closed() {
    assert_eq!(shares_for_deposit(u64::MAX, 2, u128::MAX), None);
    assert_eq!(shares_for_deposit(u64::MAX, 1, 1 << 70), None);
}

#[test]
fn proceeds_for_shares_exact() {
    assert_eq!(
        proceeds_for_shares(997_500_000, 1_000_000, 1_000_000),
        Some(997_500_000)
    );
    assert_eq!(proceeds_for_shares(3, 3, 2), Some(4));
    assert_eq!(proceeds_for_shares(0, u64::MAX, 1), Some(0));
    assert_eq!(proceeds_for_shares(5, 0, 1_000_000), Some(0));
}

#[test]
fn proceeds_for_shares_overflow_fails_closed() {
    assert_eq!(proceeds_for_shares(u64::MAX, u64::MAX, 1), None);
}

#[test]
fn round_trip_never_gains_value() {
    // Depositing then immediately redeeming at the same price loses only the
    // two fees and the truncation.
    let cases: Vec<(u64, u64, u128)> = vec![
        (1_000_000_000, 1_000_000, 1_000_000),
        (999_999_937, 777_777, 1_000_000),
        (12_345, 0, 1_000_000),
        (1, 3, 1_000),
    ];
    for (amount, price, scale) in cases {
        let entry_fee = bps_fee(amount, 25);
        let net = amount - entry_fee;
        let shares = shares_for_deposit(net, price, scale).unwrap();
        let gross = proceeds_for_shares(shares, price, scale).unwrap();
        let exit_fee = bps_fee(gross, 25);
        let net_to_user = gross - exit_fee;
        assert!(net_to_user <= amount - entry_fee - exit_fee);
    }
}

#[test]
fn pow10_exact_and_bounded() {
    assert_eq!(pow10(0), Some(1));
    assert_eq!(pow10(6), Some(1_000_000));
    assert_eq!(pow10(9), Some(1_000_000_000));
    assert_eq!(pow10(38), Some(100_000_000_000_000_000_000_000_000_000_000_000_000));
    assert_eq!(pow10(39), None);
    assert_eq!(pow10(255), None);
}
