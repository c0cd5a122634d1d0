//! Classifying the HX711 output rate from the gaps between readings.

use doser_core::selfcheck::classify_hx711_rate;

#[test]
fn fast_gaps_mean_eighty_samples_per_second() {
    assert_eq!(classify_hx711_rate(&vec![12_500, 12_400, 12_600]), (12_500, 80));
}

#[test]
fn slow_gaps_mean_ten_samples_per_second() {
    assert_eq!(classify_hx711_rate(&vec![100_000, 99_000, 101_000, 100_500]), (100_500, 10));
}

#[test]
fn the_median_ignores_outliers_and_order() {
    // Sorted: 10, 12, 13, 900_000, 1_000_000 -> median 13.
    assert_eq!(classify_hx711_rate(&vec![1_000_000, 13, 900_000, 10, 12]), (13, 80));
}

#[test]
fn no_gaps_classify_as_fast() {
    assert_eq!(classify_hx711_rate(&vec![]), (0, 80));
}

#[test]
fn the_boundary_is_fifty_milliseconds() {
    assert_eq!(classify_hx711_rate(&vec![49_999]).1, 80);
    assert_eq!(classify_hx711_rate(&vec![50_000]).1, 10);
}
