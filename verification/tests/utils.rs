use amm::utils::{
    add_decimals, calc_dy, calc_raito, checked_add_decimals, checked_calc_dy, checked_calc_ratio,
    checked_pow10, checked_swap_output, remove_decimals,
};

#[test]
fn test_add_decimals() {
    let decimals = add_decimals(86, 3);
    assert_eq!(decimals, 86_000);
}

#[test]
fn test_remove_decimals() {
    let decimals = remove_decimals(25400, 3);
    assert_eq!(decimals, 25);
}

#[test]
fn check_calculator() {
    let x = 10;
    let y = 20;
    let dy = calc_dy(x, y, 2);
    assert_eq!(dy, 4);

    let x = 10_000;
    let y = 20_0;
    let y = add_decimals(y, 2);
    let dy = calc_dy(x, y, 2_000);
    assert_eq!(remove_decimals(dy, 2), 3_3);

    let x = 860_000_000_000_0;
    let y = 270_000_000_000_0;
    let dy = calc_dy(x, y, 1000_000_000);
    assert_eq!(remove_decimals(dy, 1), 0_313_916_98);
}

#[test]
fn test_calc_ratio_with_two_decimal() {
    let x = 4_000;
    let y = 8_000;
    assert_eq!(0_50, calc_raito(x, y, 2));

    let x = 8_000;
    let y = 4_000;
    assert_eq!(2_00, calc_raito(x, y, 2));
}

#[test]
fn powers_of_ten_up_to_the_last_that_fits() {
    assert_eq!(checked_pow10(0), Some(1));
    assert_eq!(checked_pow10(1), Some(10));
    assert_eq!(checked_pow10(24), Some(1_000_000_000_000_000_000_000_000));
    assert_eq!(checked_pow10(38), Some(100_000_000_000_000_000_000_000_000_000_000_000_000));
    assert_eq!(checked_pow10(39), None);
    assert_eq!(checked_pow10(255), None);
}

#[test]
fn scaling_up_is_exact_or_refused() {
    assert_eq!(add_decimals(0, 0), 0);
    assert_eq!(add_decimals(7, 0), 7);
    assert_eq!(add_decimals(0, 255), 0);
    assert_eq!(add_decimals(3, 38), 300_000_000_000_000_000_000_000_000_000_000_000_000);
    assert_eq!(add_decimals(u128::MAX, 0), u128::MAX);
    assert_eq!(checked_add_decimals(86, 3), Some(86_000));
    assert_eq!(checked_add_decimals(0, 200), Some(0));
    assert_eq!(checked_add_decimals(4, 38), None);
    assert_eq!(checked_add_decimals(1, 39), None);
    assert_eq!(checked_add_decimals(u128::MAX, 1), None);
    assert_eq!(
        checked_add_decimals(34_028_236_692_093_846_346_337_460_743_176_821_145, 1),
        Some(340_282_366_920_938_463_463_374_607_431_768_211_450)
    );
    assert_eq!(checked_add_decimals(34_028_236_692_093_846_346_337_460_743_176_821_146, 1), None);
}

#[test]
fn scaling_down_rounds_down() {
    assert_eq!(remove_decimals(25_999, 3), 25);
    assert_eq!(remove_decimals(999, 3), 0);
    assert_eq!(remove_decimals(1_000, 3), 1);
    assert_eq!(remove_decimals(42, 0), 42);
    assert_eq!(remove_decimals(u128::MAX, 38), 3);
    assert_eq!(remove_decimals(u128::MAX, 39), 0);
    assert_eq!(remove_decimals(u128::MAX, 255), 0);
    assert_eq!(remove_decimals(0, 255), 0);
}

#[test]
fn the_curve_keeps_the_quotient_rounded_down() {
    // 10.000 - 50.000 * 10.000 / 60.000 = 10.000 - 8.333
    assert_eq!(calc_dy(50_000, 10_000, 10_000), 1_667);
    assert_eq!(checked_calc_dy(50_000, 10_000, 10_000), Some(1_667));
    assert_eq!(calc_dy(50_000, 10_000, 0), 0);
    assert_eq!(calc_dy(0, 10_000, 1), 10_000);
    assert_eq!(calc_dy(50_000, 0, 1), 0);
    assert_eq!(calc_dy(1, 1, 1), 1);
    assert_eq!(calc_dy(2, 2, 2), 1);
    assert_eq!(calc_dy(u128::MAX, 1, 0), 0);
    assert_eq!(checked_calc_dy(0, 10, 0), None);
    assert_eq!(checked_calc_dy(u128::MAX, 1, 1), None);
    assert_eq!(checked_calc_dy(u128::MAX, 2, 0), None);
    assert_eq!(checked_calc_dy(1 << 64, 1 << 64, 1), None);
    // (2^128 - 2^64) / (2^64 + 1) = 2^64 - 2
    assert_eq!(checked_calc_dy(1 << 64, (1 << 64) - 1, 1), Some(1));
    // Selling more never buys less, and never the whole reserve while the
    // product covers the reserve after the trade.
    let mut before = 0;
    for amount in 0..2_000u128 {
        let dy = calc_dy(500, 100, amount);
        assert!(dy >= before);
        assert!(dy <= 100);
        assert_eq!(dy < 100, 500 * 100 >= 500 + amount);
        // The product of the reserves after the trade.
        let product = (500 + amount) * (100 - dy);
        assert!(product <= 500 * 100);
        assert!(500 * 100 < product + 500 + amount);
        before = dy;
    }
}

#[test]
fn the_ratio_is_cut_to_its_decimals() {
    assert_eq!(calc_raito(1, 3, 2), 33);
    assert_eq!(calc_raito(2, 3, 2), 66);
    assert_eq!(calc_raito(2, 3, 0), 0);
    assert_eq!(calc_raito(7, 2, 0), 3);
    assert_eq!(calc_raito(0, 5, 4), 0);
    assert_eq!(checked_calc_ratio(8_000, 4_000, 2), Some(200));
    assert_eq!(checked_calc_ratio(8_000, 0, 2), None);
    assert_eq!(checked_calc_ratio(1, 1, 255), None);
    assert_eq!(checked_calc_ratio(1, 1, 38), None);
    assert_eq!(checked_calc_ratio(1, 1, 37), Some(10u128.pow(37)));
    assert_eq!(checked_calc_ratio(u128::MAX / 1_000 + 1, 1, 2), None);
    assert_eq!(
        checked_calc_ratio(u128::MAX / 1_000, 7, 2),
        Some(u128::MAX / 1_000 * 1_000 / 7 / 10)
    );
}

#[test]
fn a_trade_is_priced_at_the_common_scale() {
    assert_eq!(checked_swap_output(50_000, 10_000, 3, 3, 10_000), Some(1_667));
    assert_eq!(checked_swap_output(50_000, 10_000, 0, 0, 10_000), Some(1_667));
    assert_eq!(checked_swap_output(5_000, 100_000, 1, 3, 1_000), Some(16_667));
    assert_eq!(checked_swap_output(83_333, 6_000, 3, 1, 16_667), Some(1_000));
    assert_eq!(checked_swap_output(83_333, 6_000, 3, 1, 0), Some(0));
    assert_eq!(checked_swap_output(0, 0, 3, 1, 0), None);
    assert_eq!(checked_swap_output(4, 10, 0, 38, 1), None);
    assert_eq!(checked_swap_output(3, 10, 0, 38, 4), None);
    assert_eq!(checked_swap_output(1, 10, 38, 0, 1), None);
    assert_eq!(checked_swap_output(1, 1, 0, 38, 1), Some(1));
    assert_eq!(checked_swap_output(3, 1, 0, 38, 0), Some(0));
    assert_eq!(checked_swap_output(1, 1, 0, 255, 1), None);
    assert_eq!(checked_swap_output(0, 7, 0, 255, 0), None);
    assert_eq!(checked_swap_output(0, 7, 200, 200, 1), Some(7));
    assert_eq!(checked_swap_output(u128::MAX, 1, 9, 9, 1), None);
}
