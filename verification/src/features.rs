//! The feature vector's layout: the name of each coordinate, in order.
use vstd::prelude::*;

verus! {

pub const FEATURE_NAMES: [&'static str; 18] = [
    "log10_period_days",
    "log10_rp_earth",
    "depth_ppm_log10",
    "impact_b",
    "duration_hr",
    "ttv_rms_min",
    "tdv_rms_min",
    "eta",
    "log10_hek_maxdev_min",
    "d_hill",
    "dyn_stable_prograde",
    "ttv_alias_risk",
    "long_cadence_smear",
    "forecaster_terran",
    "forecaster_neptunian",
    "forecaster_jovian",
    "photometry_only",
    "mass_is_extrapolated",
];

pub open spec fn feature_names() -> Seq<Seq<char>> {
    Seq::new(18, |i: int| FEATURE_NAMES[i]@)
}

} // verus!
