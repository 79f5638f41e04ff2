use metric_history::decimal::{dec_half_string, dec_string, dec_tenths_string, rounded_tenths_string};
use metric_history::labeler::{select_tier, ScaleLabeler, UnitTier};
use metric_history::labeler::{GIGA_THRESHOLD, MEGA_THRESHOLD, TERA_THRESHOLD};

#[test]
fn decimal_rendering() {
    assert_eq!(dec_string(0), "0");
    assert_eq!(dec_string(7), "7");
    assert_eq!(dec_string(1_536), "1536");
    assert_eq!(dec_tenths_string(0), "0.0");
    assert_eq!(dec_tenths_string(185), "18.5");
    assert_eq!(dec_tenths_string(1_000), "100.0");
}

#[test]
fn rounding_is_to_nearest_tenth_with_ties_to_even() {
    assert_eq!(rounded_tenths_string(100_000, 1_024), "97.7");
    assert_eq!(rounded_tenths_string(100_000, 2_048), "48.8");
    assert_eq!(rounded_tenths_string(256, 1_024), "0.2");
    assert_eq!(rounded_tenths_string(768, 1_024), "0.8");
    assert_eq!(rounded_tenths_string(204_800, 1_024), "200.0");
}

#[test]
fn half_rendering_drops_whole_decimals() {
    assert_eq!(dec_half_string(100), "50");
    assert_eq!(dec_half_string(37), "18.5");
    assert_eq!(dec_half_string(0), "0");
    assert_eq!(dec_half_string(1), "0.5");
}

#[test]
fn tier_boundaries_select_the_higher_tier() {
    assert_eq!(select_tier(0), UnitTier::Kilo);
    assert_eq!(select_tier(MEGA_THRESHOLD - 1), UnitTier::Kilo);
    assert_eq!(select_tier(MEGA_THRESHOLD), UnitTier::Mega);
    assert_eq!(select_tier(GIGA_THRESHOLD - 1), UnitTier::Mega);
    assert_eq!(select_tier(GIGA_THRESHOLD), UnitTier::Giga);
    assert_eq!(select_tier(TERA_THRESHOLD - 1), UnitTier::Giga);
    assert_eq!(select_tier(TERA_THRESHOLD), UnitTier::Tera);
    assert_eq!(select_tier(u64::MAX), UnitTier::Tera);
}

#[test]
fn percent_labels_are_fixed_scale() {
    for v in [0u64, 37, 100, 12_345_678] {
        let labels = ScaleLabeler::Percent.label(v);
        assert_eq!(labels.top, "100");
        assert_eq!(labels.mid, "50");
        assert_eq!(labels.bottom, "0");
        assert_eq!(labels.unit, "%");
    }
}

#[test]
fn byte_labels_kilo_tier() {
    let labels = ScaleLabeler::Bytes.label(37);
    assert_eq!(labels.top, "37");
    assert_eq!(labels.mid, "18.5");
    assert_eq!(labels.bottom, "0");
    assert_eq!(labels.unit, "kB");
}

#[test]
fn byte_labels_kilo_tier_whole_mid() {
    let labels = ScaleLabeler::Bytes.label(100);
    assert_eq!(labels.top, "100");
    assert_eq!(labels.mid, "50");
    assert_eq!(labels.bottom, "0");
    assert_eq!(labels.unit, "kB");
}

#[test]
fn byte_labels_at_the_mega_boundary() {
    let labels = ScaleLabeler::Bytes.label(100_000);
    assert_eq!(labels.top, "97.7");
    assert_eq!(labels.mid, "48.8");
    assert_eq!(labels.bottom, "0");
    assert_eq!(labels.unit, "MB");
}

#[test]
fn byte_labels_at_the_giga_boundary() {
    let labels = ScaleLabeler::Bytes.label(10_000_000);
    assert_eq!(labels.top, "9.5");
    assert_eq!(labels.mid, "4.8");
    assert_eq!(labels.unit, "GB");
}

#[test]
fn byte_labels_at_the_tera_boundary() {
    let labels = ScaleLabeler::Bytes.label(10_000_000_000);
    assert_eq!(labels.top, "9.3");
    assert_eq!(labels.mid, "9.3");
    assert_eq!(labels.unit, "TB");
}

#[test]
fn byte_labels_mega_tier() {
    let labels = ScaleLabeler::Bytes.label(204_800);
    assert_eq!(labels.top, "200.0");
    assert_eq!(labels.mid, "100.0");
    assert_eq!(labels.bottom, "0");
    assert_eq!(labels.unit, "MB");
}

#[test]
fn byte_labels_giga_tier() {
    let labels = ScaleLabeler::Bytes.label(10_485_760);
    assert_eq!(labels.top, "10.0");
    assert_eq!(labels.mid, "5.0");
    assert_eq!(labels.bottom, "0");
    assert_eq!(labels.unit, "GB");
}

#[test]
fn byte_labels_tera_tier_top_equals_mid() {
    let labels = ScaleLabeler::Bytes.label(10_737_418_240);
    assert_eq!(labels.top, "10.0");
    assert_eq!(labels.mid, labels.top);
    assert_eq!(labels.bottom, "0");
    assert_eq!(labels.unit, "TB");
}
