//! Unit scaling: turning a representative magnitude into the four axis label
//! strings a renderer draws (top, mid, bottom, unit).
//!
//! Byte magnitudes pick a unit tier by thresholds; the tier boundaries are
//! tested strictly with `<`, so a value exactly on a boundary selects the
//! higher tier. Percent magnitudes use one fixed scale. Both labelers are
//! pure: the same input always yields the same four strings.

use vstd::prelude::*;

use crate::decimal::{
    dec_half_seq, dec_half_string, dec_seq, dec_string, dec_tenths_seq, rounded_tenths,
    rounded_tenths_string,
};

verus! {

/// Magnitudes below this are labeled in kB.
pub const MEGA_THRESHOLD: u64 = 100_000;

/// Magnitudes below this (and at least `MEGA_THRESHOLD`) are labeled in MB.
pub const GIGA_THRESHOLD: u64 = 10_000_000;

/// Magnitudes at or above this are labeled in TB; below (and at least
/// `GIGA_THRESHOLD`), in GB.
pub const TERA_THRESHOLD: u64 = 10_000_000_000;

/// The unit tier a byte magnitude falls in.
#[derive(Clone, Copy, Debug, PartialEq, Eq, Structural)]
pub enum UnitTier {
    Kilo,
    Mega,
    Giga,
    Tera,
}

/// The tier of a magnitude: boundaries are tested strictly with `<`, so a
/// boundary value belongs to the higher tier.
pub open spec fn tier_of(v: u64) -> UnitTier {
    if v < MEGA_THRESHOLD {
        UnitTier::Kilo
    } else if v < GIGA_THRESHOLD {
        UnitTier::Mega
    } else if v < TERA_THRESHOLD {
        UnitTier::Giga
    } else {
        UnitTier::Tera
    }
}

/// Unit selection is a total, non-overlapping partition of the magnitudes:
/// each tier holds on exactly the stated range, so for every value exactly
/// one tier applies, and each threshold itself already selects the higher
/// tier.
pub proof fn lemma_tier_partition(v: u64)
    ensures
        tier_of(v) == UnitTier::Kilo <==> v < MEGA_THRESHOLD,
        tier_of(v) == UnitTier::Mega <==> MEGA_THRESHOLD <= v < GIGA_THRESHOLD,
        tier_of(v) == UnitTier::Giga <==> GIGA_THRESHOLD <= v < TERA_THRESHOLD,
        tier_of(v) == UnitTier::Tera <==> TERA_THRESHOLD <= v,
        tier_of(MEGA_THRESHOLD) == UnitTier::Mega,
        tier_of(GIGA_THRESHOLD) == UnitTier::Giga,
        tier_of(TERA_THRESHOLD) == UnitTier::Tera,
{
}

/// The percent labeler is fixed-scale: its four labels do not depend on the
/// representative magnitude at all.
pub proof fn lemma_percent_labels_fixed(u: u64, v: u64)
    ensures
        axis_top(ScaleLabeler::Percent, u) == axis_top(ScaleLabeler::Percent, v),
        axis_mid(ScaleLabeler::Percent, u) == axis_mid(ScaleLabeler::Percent, v),
        axis_bottom(ScaleLabeler::Percent, u) == axis_bottom(ScaleLabeler::Percent, v),
        axis_unit(ScaleLabeler::Percent, u) == axis_unit(ScaleLabeler::Percent, v),
{
}

/// The four axis label strings, top to bottom, and the unit they are in.
pub struct AxisLabels {
    pub top: String,
    pub mid: String,
    pub bottom: String,
    pub unit: String,
}

/// A pure axis labeler. `Percent` is the fixed-scale variant used where the
/// ceiling is always one hundred; `Bytes` picks a unit tier from the
/// magnitude itself.
#[derive(Clone, Copy, Debug, PartialEq, Eq, Structural)]
pub enum ScaleLabeler {
    Percent,
    Bytes,
}

/// The top label: the magnitude itself, expressed in the tier's unit with,
/// above the kB tier, one digit after the point, rounded to the nearest
/// tenth with ties to even.
pub open spec fn axis_top(labeler: ScaleLabeler, v: u64) -> Seq<char> {
    match labeler {
        ScaleLabeler::Percent => "100"@,
        ScaleLabeler::Bytes => match tier_of(v) {
            UnitTier::Kilo => dec_seq(v as int),
            UnitTier::Mega => dec_tenths_seq(rounded_tenths(v as int, 1_024)),
            UnitTier::Giga => dec_tenths_seq(rounded_tenths(v as int, 1_048_576)),
            UnitTier::Tera => dec_tenths_seq(rounded_tenths(v as int, 1_073_741_824)),
        },
    }
}

/// The mid label: half the magnitude, except in the TB tier, where it equals
/// the top label (the degenerate top == mid labeling is kept deliberately).
/// In the kB tier the half is rendered plainly — no decimal part for a whole
/// half, the exact ".5" otherwise; the other tiers round to the nearest
/// tenth with ties to even, as the top label does.
pub open spec fn axis_mid(labeler: ScaleLabeler, v: u64) -> Seq<char> {
    match labeler {
        ScaleLabeler::Percent => "50"@,
        ScaleLabeler::Bytes => match tier_of(v) {
            UnitTier::Kilo => dec_half_seq(v as int),
            UnitTier::Mega => dec_tenths_seq(rounded_tenths(v as int, 2_048)),
            UnitTier::Giga => dec_tenths_seq(rounded_tenths(v as int, 2_097_152)),
            UnitTier::Tera => dec_tenths_seq(rounded_tenths(v as int, 1_073_741_824)),
        },
    }
}

/// The bottom label is always zero.
pub open spec fn axis_bottom(labeler: ScaleLabeler, v: u64) -> Seq<char> {
    "0"@
}

/// The unit label of the selected tier.
pub open spec fn axis_unit(labeler: ScaleLabeler, v: u64) -> Seq<char> {
    match labeler {
        ScaleLabeler::Percent => "%"@,
        ScaleLabeler::Bytes => match tier_of(v) {
            UnitTier::Kilo => "kB"@,
            UnitTier::Mega => "MB"@,
            UnitTier::Giga => "GB"@,
            UnitTier::Tera => "TB"@,
        },
    }
}

/// The tier the byte labeler would use for `v`.
pub fn select_tier(v: u64) -> (tier: UnitTier)
    ensures
        tier == tier_of(v),
{
    if v < MEGA_THRESHOLD {
        UnitTier::Kilo
    } else if v < GIGA_THRESHOLD {
        UnitTier::Mega
    } else if v < TERA_THRESHOLD {
        UnitTier::Giga
    } else {
        UnitTier::Tera
    }
}

impl ScaleLabeler {
    /// The four axis labels for a representative magnitude: each of the four
    /// strings is pinned down exactly, so the output is reproducible bit for
    /// bit.
    pub fn label(&self, v: u64) -> (labels: AxisLabels)
        ensures
            labels.top@ == axis_top(*self, v),
            labels.mid@ == axis_mid(*self, v),
            labels.bottom@ == axis_bottom(*self, v),
            labels.unit@ == axis_unit(*self, v),
    {
        match self {
            ScaleLabeler::Percent => AxisLabels {
                top: "100".to_owned(),
                mid: "50".to_owned(),
                bottom: "0".to_owned(),
                unit: "%".to_owned(),
            },
            ScaleLabeler::Bytes => {
                if v < MEGA_THRESHOLD {
                    AxisLabels {
                        top: dec_string(v as u128),
                        mid: dec_half_string(v),
                        bottom: "0".to_owned(),
                        unit: "kB".to_owned(),
                    }
                } else if v < GIGA_THRESHOLD {
                    AxisLabels {
                        top: rounded_tenths_string(v, 1_024),
                        mid: rounded_tenths_string(v, 2_048),
                        bottom: "0".to_owned(),
                        unit: "MB".to_owned(),
                    }
                } else if v < TERA_THRESHOLD {
                    AxisLabels {
                        top: rounded_tenths_string(v, 1_048_576),
                        mid: rounded_tenths_string(v, 2_097_152),
                        bottom: "0".to_owned(),
                        unit: "GB".to_owned(),
                    }
                } else {
                    AxisLabels {
                        top: rounded_tenths_string(v, 1_073_741_824),
                        mid: rounded_tenths_string(v, 1_073_741_824),
                        bottom: "0".to_owned(),
                        unit: "TB".to_owned(),
                    }
                }
            },
        }
    }
}

} // verus!
