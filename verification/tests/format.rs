use hostmon::ui::utils::{format_network_rate, format_network_total};

#[test]
fn totals_below_a_kilobyte_are_whole_bytes() {
    assert_eq!(format_network_total(0), "0 B");
    assert_eq!(format_network_total(1), "1 B");
    assert_eq!(format_network_total(999), "999 B");
}

#[test]
fn totals_pick_the_largest_unit_reached() {
    assert_eq!(format_network_total(1_000), "1.00 KB");
    assert_eq!(format_network_total(1_500), "1.50 KB");
    assert_eq!(format_network_total(999_994), "999.99 KB");
    assert_eq!(format_network_total(1_000_000), "1.00 MB");
    assert_eq!(format_network_total(12_345_678), "12.35 MB");
    assert_eq!(format_network_total(1_000_000_000), "1.00 GB");
    assert_eq!(format_network_total(2_500_000_000), "2.50 GB");
    assert_eq!(format_network_total(1_000_000_000_000), "1.00 TB");
    assert_eq!(format_network_total(3_141_592_653_589), "3.14 TB");
}

#[test]
fn totals_round_to_the_nearest_hundredth_halves_up() {
    assert_eq!(format_network_total(1_004), "1.00 KB");
    assert_eq!(format_network_total(1_005), "1.01 KB");
    assert_eq!(format_network_total(1_014), "1.01 KB");
    assert_eq!(format_network_total(1_015), "1.02 KB");
    assert_eq!(format_network_total(1_099), "1.10 KB");
    assert_eq!(format_network_total(1_124), "1.12 KB");
    assert_eq!(format_network_total(1_125), "1.13 KB");
    assert_eq!(format_network_total(1_135), "1.14 KB");
    assert_eq!(format_network_total(1_995), "2.00 KB");
    assert_eq!(format_network_total(999_995), "1000.00 KB");
    assert_eq!(format_network_total(999_999), "1000.00 KB");
    assert_eq!(format_network_total(999_999_999_999), "1000.00 GB");
}

#[test]
fn largest_total_is_shown_in_terabytes() {
    assert_eq!(format_network_total(u64::MAX), "18446744.07 TB");
}

#[test]
fn rates_below_a_kilobyte_are_whole_bytes_per_second() {
    assert_eq!(format_network_rate(0), "0 B/s");
    assert_eq!(format_network_rate(42), "42 B/s");
    assert_eq!(format_network_rate(999), "999 B/s");
}

#[test]
fn rates_pick_the_largest_unit_reached() {
    assert_eq!(format_network_rate(1_000), "1.00 KB/s");
    assert_eq!(format_network_rate(2_000), "2.00 KB/s");
    assert_eq!(format_network_rate(1_234), "1.23 KB/s");
    assert_eq!(format_network_rate(1_235), "1.24 KB/s");
    assert_eq!(format_network_rate(1_005), "1.01 KB/s");
    assert_eq!(format_network_rate(1_125), "1.13 KB/s");
    assert_eq!(format_network_rate(999_999), "1000.00 KB/s");
    assert_eq!(format_network_rate(1_000_000), "1.00 MB/s");
    assert_eq!(format_network_rate(125_000_000), "125.00 MB/s");
    assert_eq!(format_network_rate(1_000_000_000), "1.00 GB/s");
    assert_eq!(format_network_rate(1_000_000_000_000), "1000.00 GB/s");
    assert_eq!(format_network_rate(10 * (u64::MAX as u128)), "184467440737.10 GB/s");
}

#[test]
fn largest_rate_value_does_not_overflow() {
    assert_eq!(format_network_rate(u128::MAX), "340282366920938463463374607431.77 GB/s");
}
