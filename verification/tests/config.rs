use blinky::clock::compute_sysclk;
use blinky::flash::{required_wait_states, VoltageRange};
use blinky::timer::{prescaler_for, reload_for, tick_frequency};

#[test]
fn pll_formula_for_blink_target() {
    // 16 MHz / 16 * 336 / 4 = 84 MHz, the rated maximum.
    assert_eq!(compute_sysclk(336, 4, 2), Some(84_000_000));
}

#[test]
fn pll_formula_alternative_combination() {
    // 16 MHz / 16 * 168 / 2 = 84 MHz with the same bus prescaler.
    assert_eq!(compute_sysclk(168, 2, 2), Some(84_000_000));
}

#[test]
fn pll_formula_slow_combination() {
    // 16 MHz / 16 * 50 / 8 = 6.25 MHz; an undivided bus stays within rating.
    assert_eq!(compute_sysclk(50, 8, 1), Some(6_250_000));
}

#[test]
fn pll_multiplier_out_of_range_rejected() {
    assert_eq!(compute_sysclk(49, 4, 2), None);
    assert_eq!(compute_sysclk(433, 4, 2), None);
}

#[test]
fn pll_output_divider_out_of_range_rejected() {
    assert_eq!(compute_sysclk(336, 3, 2), None);
    assert_eq!(compute_sysclk(336, 0, 2), None);
}

#[test]
fn apb1_prescaler_out_of_range_rejected() {
    assert_eq!(compute_sysclk(336, 4, 3), None);
    assert_eq!(compute_sysclk(336, 4, 0), None);
}

#[test]
fn sysclk_over_rated_maximum_rejected() {
    // 16 MHz / 16 * 432 / 2 = 216 MHz: legal fields, core rating exceeded.
    assert_eq!(compute_sysclk(432, 2, 1), None);
}

#[test]
fn bus_clock_over_rated_maximum_rejected() {
    // 84 MHz core with an undivided bus puts 84 MHz on a 42 MHz bus.
    assert_eq!(compute_sysclk(336, 4, 1), None);
}

#[test]
fn wait_states_at_blink_frequency() {
    assert_eq!(required_wait_states(84_000_000, VoltageRange::V2p7To3p6), 2);
}

#[test]
fn wait_states_boundaries_high_voltage() {
    assert_eq!(required_wait_states(30_000_000, VoltageRange::V2p7To3p6), 0);
    assert_eq!(required_wait_states(30_000_001, VoltageRange::V2p7To3p6), 1);
    assert_eq!(required_wait_states(60_000_000, VoltageRange::V2p7To3p6), 1);
    assert_eq!(required_wait_states(60_000_001, VoltageRange::V2p7To3p6), 2);
}

#[test]
fn wait_states_lower_voltage_bands_need_more() {
    assert_eq!(required_wait_states(84_000_000, VoltageRange::V2p4To2p7), 3);
    assert_eq!(required_wait_states(84_000_000, VoltageRange::V2p1To2p4), 4);
    assert_eq!(required_wait_states(84_000_000, VoltageRange::V1p71To2p1), 5);
    assert_eq!(required_wait_states(16_000_000, VoltageRange::V1p71To2p1), 0);
}

#[test]
fn tick_frequency_of_blink_prescaler() {
    // 84 MHz through a prescaler register value of 83: exactly 1 MHz.
    assert_eq!(tick_frequency(84_000_000, 83), 1_000_000);
}

#[test]
fn prescaler_for_blink_tick() {
    assert_eq!(prescaler_for(84_000_000, 1_000_000), Some(83));
}

#[test]
fn prescaler_for_identity_and_rejections() {
    assert_eq!(prescaler_for(84_000_000, 84_000_000), Some(0));
    // A rate of zero, one above the bus clock, or one that does not divide
    // the bus clock evenly cannot be derived exactly.
    assert_eq!(prescaler_for(84_000_000, 0), None);
    assert_eq!(prescaler_for(1_000, 2_000), None);
    assert_eq!(prescaler_for(84_000_000, 9_999), None);
}

#[test]
fn reload_for_one_second_period() {
    // 1 MHz tick, one second: 999,999, i.e. the counter counts exactly
    // 1,000,000 ticks per update event — a period of 1.000000 s exactly.
    let arr = reload_for(1_000_000, 1).unwrap();
    assert_eq!(arr, 999_999);
    assert_eq!((arr as u64) + 1, 1_000_000u64 * 1);
}

#[test]
fn reload_for_rejections_and_large_values() {
    assert_eq!(reload_for(1_000_000, 0), None);
    assert_eq!(reload_for(u32::MAX, 2), None);
    assert_eq!(reload_for(2_000_000, 2_000), Some(3_999_999_999));
}
