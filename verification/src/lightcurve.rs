//! Cached MAST Kepler / K2 / TESS light-curve extracts: which target, file
//! and archive URL each planet's extract comes from, and the mid-window cut
//! applied to large files.
//!
//! Confirmed-planet light curves are training hosts, not moons.
//! Kepler-1625 / 1708 / 167 are holdout hosts: photometry flags only.
//! Sibling planets reuse the same host extract with their own epochs.
use crate::error::ExoError;
use crate::fits_llc::{is_parse_error, llc_spec, parse_llc_fits, LlcRow};
use vstd::prelude::*;

verus! {

/// TESS TIME is BTJD (BJD - 2457000); BKJD is BJD - 2454833, so a TESS time
/// becomes BKJD by adding this many whole days.
pub const TESS_BTJD_TO_BKJD_DAYS: i64 = 2457000 - 2454833;

#[derive(Debug, Clone, Copy)]
pub struct LightCurveSpec {
    pub name: &'static str,
    /// KIC / EPIC / TIC numeric id (see `id_kind`).
    pub target_id: u64,
    pub id_kind: &'static str,
    pub mission: &'static str,
    pub cadence: &'static str,
    pub cache_csv: &'static str,
    pub source_url: &'static str,
    pub note: &'static str,
    /// Whole days added to TIME after the FITS parse (TESS BTJD to BKJD).
    /// Cached CSVs already include it.
    pub time_offset_days: i64,
    /// Keep this many points from the middle of a large FITS file.
    pub extract_mid_points: Option<usize>,
}

/// The rules every cached extract follows: TESS extracts are shifted from
/// BTJD to BKJD and cut to their middle 2500 points; no other extract is
/// shifted or cut.
pub open spec fn spec_rules(s: LightCurveSpec) -> bool {
    &&& (s.mission@ == "TESS"@) == (s.time_offset_days == 2167)
    &&& (s.mission@ == "TESS"@) == (s.extract_mid_points == Some(2500usize))
    &&& s.mission@ != "TESS"@ ==> s.time_offset_days == 0 && s.extract_mid_points is None
}

#[derive(Debug, Clone, Copy, PartialEq, Eq, Structural)]
pub enum Mission {
    /// Kepler long-cadence (LLC) extract of a KIC target.
    Kepler,
    /// K2 long-cadence extract of an EPIC target.
    K2,
    /// TESS SPOC 2-min extract of a TIC target.
    Tess,
}

/// One cached extract: planet, target id, mission, cache CSV, archive FITS
/// URL, note.
pub type ExtractRow = (&'static str, u64, Mission, &'static str, &'static str, &'static str);

/// The spec of an extract. The mission fixes the id kind and cadence; TESS
/// times are shifted from BTJD to BKJD and the middle 2500 points kept.
pub open spec fn extract_spec(e: ExtractRow) -> LightCurveSpec {
    match e.2 {
        Mission::Kepler => LightCurveSpec {
            name: e.0,
            target_id: e.1,
            id_kind: "KIC",
            mission: "Kepler",
            cadence: "long",
            cache_csv: e.3,
            source_url: e.4,
            note: e.5,
            time_offset_days: 0,
            extract_mid_points: None,
        },
        Mission::K2 => LightCurveSpec {
            name: e.0,
            target_id: e.1,
            id_kind: "EPIC",
            mission: "K2",
            cadence: "long",
            cache_csv: e.3,
            source_url: e.4,
            note: e.5,
            time_offset_days: 0,
            extract_mid_points: None,
        },
        Mission::Tess => LightCurveSpec {
            name: e.0,
            target_id: e.1,
            id_kind: "TIC",
            mission: "TESS",
            cadence: "2-min",
            cache_csv: e.3,
            source_url: e.4,
            note: e.5,
            time_offset_days: TESS_BTJD_TO_BKJD_DAYS,
            extract_mid_points: Some(2500),
        },
    }
}

/// Every extract spec follows the mission rules.
pub proof fn extracts_follow_rules(e: ExtractRow)
    ensures
        spec_rules(extract_spec(e)),
{
    reveal_strlit("TESS");
    reveal_strlit("Kepler");
    reveal_strlit("K2");
    assert("Kepler"@.len() != "TESS"@.len());
    assert("K2"@.len() != "TESS"@.len());
}

/// `extract_spec` computed.
pub fn extract(e: ExtractRow) -> (s: LightCurveSpec)
    ensures
        s == extract_spec(e),
{
    match e.2 {
        Mission::Kepler => LightCurveSpec {
            name: e.0,
            target_id: e.1,
            id_kind: "KIC",
            mission: "Kepler",
            cadence: "long",
            cache_csv: e.3,
            source_url: e.4,
            note: e.5,
            time_offset_days: 0,
            extract_mid_points: None,
        },
        Mission::K2 => LightCurveSpec {
            name: e.0,
            target_id: e.1,
            id_kind: "EPIC",
            mission: "K2",
            cadence: "long",
            cache_csv: e.3,
            source_url: e.4,
            note: e.5,
            time_offset_days: 0,
            extract_mid_points: None,
        },
        Mission::Tess => LightCurveSpec {
            name: e.0,
            target_id: e.1,
            id_kind: "TIC",
            mission: "TESS",
            cadence: "2-min",
            cache_csv: e.3,
            source_url: e.4,
            note: e.5,
            time_offset_days: TESS_BTJD_TO_BKJD_DAYS,
            extract_mid_points: Some(2500),
        },
    }
}

/// The cached extracts, in order, as the cache's `lightcurves/SOURCE.md`
/// lists them. Confirmed-planet LCs (Kepler and K2) are training hosts, not
/// moons. Kepler-1625 / 1708 / 167 are holdout hosts: photometry flags only.
/// Sibling planets reuse the same host extract with their own catalog
/// epochs.
pub const CACHED_EXTRACTS: [ExtractRow; 217] = [
    (
        "Kepler-10 b",
        11_904_151,
        Mission::Kepler,
        "lightcurves/kepler10b_kic11904151_q1_llc.csv",
        "https://archive.stsci.edu/pub/kepler/lightcurves/0119/011904151/kplr011904151-2009166043257_llc.fits",
        "Q1 LLC. Confirmed planet. Not a moon host in this crate.",
    ),
    (
        "Kepler-11 b",
        6_541_920,
        Mission::Kepler,
        "lightcurves/kepler11b_kic6541920_q1_llc.csv",
        "https://archive.stsci.edu/pub/kepler/lightcurves/0065/006541920/kplr006541920-2009166043257_llc.fits",
        "Q1 LLC. Confirmed planet. Catalog epoch t0≈138.50 BKJD falls in this quarter — not invented. Not a moon host in this crate.",
    ),
    (
        "Kepler-11 c",
        6_541_920,
        Mission::Kepler,
        "lightcurves/kepler11b_kic6541920_q1_llc.csv",
        "https://archive.stsci.edu/pub/kepler/lightcurves/0065/006541920/kplr006541920-2009166043257_llc.fits",
        "Same Q1 LLC as Kepler-11 b (KIC 6541920). Catalog epoch t0≈138.18 BKJD falls in this quarter — not invented. Not a moon.",
    ),
    (
        "Kepler-11 d",
        6_541_920,
        Mission::Kepler,
        "lightcurves/kepler11b_kic6541920_q1_llc.csv",
        "https://archive.stsci.edu/pub/kepler/lightcurves/0065/006541920/kplr006541920-2009166043257_llc.fits",
        "Same Q1 LLC as Kepler-11 b (KIC 6541920). Catalog epoch t0≈148.46 BKJD falls in this quarter — not invented. Not a moon.",
    ),
    (
        "Kepler-11 e",
        6_541_920,
        Mission::Kepler,
        "lightcurves/kepler11b_kic6541920_q1_llc.csv",
        "https://archive.stsci.edu/pub/kepler/lightcurves/0065/006541920/kplr006541920-2009166043257_llc.fits",
        "Same Q1 LLC as Kepler-11 b (KIC 6541920). Catalog epoch t0≈154.16 BKJD falls in this quarter — not invented. Kepler-11 f/g catalog epochs do not fall in Q1; they are not added. Not a moon.",
    ),
    (
        "Kepler-2 b",
        10_666_592,
        Mission::Kepler,
        "lightcurves/kepler2b_kic10666592_q1_llc.csv",
        "https://archive.stsci.edu/pub/kepler/lightcurves/0106/010666592/kplr010666592-2009166043257_llc.fits",
        "Q1 LLC (HAT-P-7b). Confirmed planet (P≈2.20 d, t0≈121.36 BKJD). Catalog transits fall in this quarter — not invented. Not a moon host in this crate.",
    ),
    (
        "Kepler-3 b",
        10_748_390,
        Mission::Kepler,
        "lightcurves/kepler3b_kic10748390_q1_llc.csv",
        "https://archive.stsci.edu/pub/kepler/lightcurves/0107/010748390/kplr010748390-2009166043257_llc.fits",
        "Q1 LLC (HAT-P-11b). Confirmed planet (P≈4.89 d, t0≈124.81 BKJD). Catalog transits fall in this quarter — not invented. Not a moon.",
    ),
    (
        "Kepler-18 b",
        8_644_288,
        Mission::Kepler,
        "lightcurves/kepler18b_kic8644288_q1_llc.csv",
        "https://archive.stsci.edu/pub/kepler/lightcurves/0086/008644288/kplr008644288-2009166043257_llc.fits",
        "Q1 LLC. Confirmed planet (P≈3.50 d, t0≈133.51 BKJD). Catalog transit falls in this quarter — not invented. Not a moon.",
    ),
    (
        "Kepler-18 c",
        8_644_288,
        Mission::Kepler,
        "lightcurves/kepler18b_kic8644288_q1_llc.csv",
        "https://archive.stsci.edu/pub/kepler/lightcurves/0086/008644288/kplr008644288-2009166043257_llc.fits",
        "Same Q1 LLC as Kepler-18 b. Catalog epoch t0≈135.41 BKJD falls in this quarter — not invented. Not a moon.",
    ),
    (
        "Kepler-18 d",
        8_644_288,
        Mission::Kepler,
        "lightcurves/kepler18b_kic8644288_q1_llc.csv",
        "https://archive.stsci.edu/pub/kepler/lightcurves/0086/008644288/kplr008644288-2009166043257_llc.fits",
        "Same Q1 LLC as Kepler-18 b. Catalog t0≈128.15; next epoch ≈143.01 falls in Q1 — not invented. Not a moon.",
    ),
    (
        "Kepler-19 b",
        2_571_238,
        Mission::Kepler,
        "lightcurves/kepler19b_kic2571238_q1_llc.csv",
        "https://archive.stsci.edu/pub/kepler/lightcurves/0025/002571238/kplr002571238-2009166043257_llc.fits",
        "Q1 LLC. Confirmed planet (P≈9.29 d, t0≈135.99 BKJD). Catalog transit falls in this quarter — not invented. Not a moon.",
    ),
    (
        "Kepler-20 b",
        6_850_504,
        Mission::Kepler,
        "lightcurves/kepler20b_kic6850504_q1_llc.csv",
        "https://archive.stsci.edu/pub/kepler/lightcurves/0068/006850504/kplr006850504-2009166043257_llc.fits",
        "Q1 LLC. Confirmed planet (P≈3.70 d, t0≈134.50 BKJD). Catalog transit falls in this quarter — not invented. Not a moon.",
    ),
    (
        "Kepler-20 c",
        6_850_504,
        Mission::Kepler,
        "lightcurves/kepler20b_kic6850504_q1_llc.csv",
        "https://archive.stsci.edu/pub/kepler/lightcurves/0068/006850504/kplr006850504-2009166043257_llc.fits",
        "Same Q1 LLC as Kepler-20 b. Catalog epoch t0≈138.61 BKJD falls in this quarter — not invented. Not a moon.",
    ),
    (
        "Kepler-20 d",
        6_850_504,
        Mission::Kepler,
        "lightcurves/kepler20b_kic6850504_q1_llc.csv",
        "https://archive.stsci.edu/pub/kepler/lightcurves/0068/006850504/kplr006850504-2009166043257_llc.fits",
        "Same Q1 LLC as Kepler-20 b. Catalog epoch t0≈164.73 BKJD falls in this quarter — not invented. Not a moon.",
    ),
    (
        "Kepler-20 e",
        6_850_504,
        Mission::Kepler,
        "lightcurves/kepler20b_kic6850504_q1_llc.csv",
        "https://archive.stsci.edu/pub/kepler/lightcurves/0068/006850504/kplr006850504-2009166043257_llc.fits",
        "Same Q1 LLC as Kepler-20 b. Catalog epoch t0≈135.93 BKJD falls in this quarter — not invented. Not a moon.",
    ),
    (
        "Kepler-20 f",
        6_850_504,
        Mission::Kepler,
        "lightcurves/kepler20b_kic6850504_q1_llc.csv",
        "https://archive.stsci.edu/pub/kepler/lightcurves/0068/006850504/kplr006850504-2009166043257_llc.fits",
        "Same Q1 LLC as Kepler-20 b. Catalog epoch t0≈135.20 BKJD falls in this quarter — not invented. Not a moon.",
    ),
    (
        "Kepler-21 b",
        3_632_418,
        Mission::Kepler,
        "lightcurves/kepler21b_kic3632418_q1_llc.csv",
        "https://archive.stsci.edu/pub/kepler/lightcurves/0036/003632418/kplr003632418-2009166043257_llc.fits",
        "Q1 LLC. Confirmed planet (P≈2.79 d, catalog t0≈260.84 BKJD). Folded catalog transits fall in Q1 — not invented. Not a moon.",
    ),
    (
        "Kepler-30 b",
        3_832_474,
        Mission::Kepler,
        "lightcurves/kepler30b_kic3832474_q1_llc.csv",
        "https://archive.stsci.edu/pub/kepler/lightcurves/0038/003832474/kplr003832474-2009166043257_llc.fits",
        "Q1 LLC. Confirmed planet (P≈29.16 d, t0≈150.70 BKJD). Catalog transit falls in this quarter — not invented. Not a moon.",
    ),
    (
        "Kepler-30 d",
        3_832_474,
        Mission::Kepler,
        "lightcurves/kepler30b_kic3832474_q1_llc.csv",
        "https://archive.stsci.edu/pub/kepler/lightcurves/0038/003832474/kplr003832474-2009166043257_llc.fits",
        "Same Q1 LLC as Kepler-30 b. Catalog epoch t0≈154.24 BKJD falls in this quarter — not invented. Kepler-30 c misses Q1. Not a moon.",
    ),
    (
        "Kepler-36 b",
        11_401_755,
        Mission::Kepler,
        "lightcurves/kepler36b_kic11401755_q1_llc.csv",
        "https://archive.stsci.edu/pub/kepler/lightcurves/0114/011401755/kplr011401755-2009166043257_llc.fits",
        "Q1 LLC. Confirmed planet (P≈13.85 d, t0≈141.65 BKJD). Catalog transit falls in this quarter — not invented. Not a moon.",
    ),
    (
        "Kepler-36 c",
        11_401_755,
        Mission::Kepler,
        "lightcurves/kepler36b_kic11401755_q1_llc.csv",
        "https://archive.stsci.edu/pub/kepler/lightcurves/0114/011401755/kplr011401755-2009166043257_llc.fits",
        "Same Q1 LLC as Kepler-36 b. Catalog t0≈171.68; previous epoch ≈155.45 falls in Q1 — not invented. Not a moon.",
    ),
    (
        "Kepler-48 b",
        5_735_762,
        Mission::Kepler,
        "lightcurves/kepler48b_kic5735762_q1_llc.csv",
        "https://archive.stsci.edu/pub/kepler/lightcurves/0057/005735762/kplr005735762-2009166043257_llc.fits",
        "Q1 LLC. Confirmed planet (P≈4.78 d, t0≈124.06 BKJD). Catalog transits fall in this quarter — not invented. Not a moon.",
    ),
    (
        "Kepler-48 c",
        5_735_762,
        Mission::Kepler,
        "lightcurves/kepler48b_kic5735762_q1_llc.csv",
        "https://archive.stsci.edu/pub/kepler/lightcurves/0057/005735762/kplr005735762-2009166043257_llc.fits",
        "Same Q1 LLC as Kepler-48 b. Catalog t0≈125.34; next epoch ≈135.01 falls in Q1 — not invented. Not a moon.",
    ),
    (
        "Kepler-48 d",
        5_735_762,
        Mission::Kepler,
        "lightcurves/kepler48b_kic5735762_q1_llc.csv",
        "https://archive.stsci.edu/pub/kepler/lightcurves/0057/005735762/kplr005735762-2009166043257_llc.fits",
        "Same Q1 LLC as Kepler-48 b. Catalog epoch t0≈146.06 BKJD falls in this quarter — not invented. Not a moon.",
    ),
    (
        "Kepler-51 b",
        11_773_022,
        Mission::Kepler,
        "lightcurves/kepler51b_kic11773022_q1_llc.csv",
        "https://archive.stsci.edu/pub/kepler/lightcurves/0117/011773022/kplr011773022-2009166043257_llc.fits",
        "Q1 LLC. Confirmed planet (P≈45.16 d, t0≈159.11 BKJD). Catalog transit falls in this quarter — not invented. Not a moon.",
    ),
    (
        "Kepler-79 b",
        8_394_721,
        Mission::Kepler,
        "lightcurves/kepler79b_kic8394721_q1_llc.csv",
        "https://archive.stsci.edu/pub/kepler/lightcurves/0083/008394721/kplr008394721-2009166043257_llc.fits",
        "Q1 LLC. Confirmed planet (P≈13.48 d, t0≈136.62 BKJD). Catalog transit falls in this quarter — not invented. Not a moon.",
    ),
    (
        "Kepler-79 c",
        8_394_721,
        Mission::Kepler,
        "lightcurves/kepler79b_kic8394721_q1_llc.csv",
        "https://archive.stsci.edu/pub/kepler/lightcurves/0083/008394721/kplr008394721-2009166043257_llc.fits",
        "Same Q1 LLC as Kepler-79 b. Catalog epoch t0≈133.63 BKJD falls in this quarter — not invented. Not a moon.",
    ),
    (
        "Kepler-79 d",
        8_394_721,
        Mission::Kepler,
        "lightcurves/kepler79b_kic8394721_q1_llc.csv",
        "https://archive.stsci.edu/pub/kepler/lightcurves/0083/008394721/kplr008394721-2009166043257_llc.fits",
        "Same Q1 LLC as Kepler-79 b. Catalog epoch t0≈158.74 BKJD falls in this quarter — not invented. Not a moon.",
    ),
    (
        "Kepler-79 e",
        8_394_721,
        Mission::Kepler,
        "lightcurves/kepler79b_kic8394721_q1_llc.csv",
        "https://archive.stsci.edu/pub/kepler/lightcurves/0083/008394721/kplr008394721-2009166043257_llc.fits",
        "Same Q1 LLC as Kepler-79 b. Catalog epoch t0≈139.53 BKJD falls in this quarter — not invented. Not a moon.",
    ),
    (
        "Kepler-68 c",
        11_295_426,
        Mission::Kepler,
        "lightcurves/kepler68c_kic11295426_q1_llc.csv",
        "https://archive.stsci.edu/pub/kepler/lightcurves/0112/011295426/kplr011295426-2009166043257_llc.fits",
        "Q1 LLC. Confirmed planet (P≈9.61 d, t0≈136.38 BKJD). Catalog transit falls in this quarter — not invented. Kepler-68 b misses Q1. Not a moon.",
    ),
    (
        "Kepler-89 b",
        6_462_863,
        Mission::Kepler,
        "lightcurves/kepler89b_kic6462863_q1_llc.csv",
        "https://archive.stsci.edu/pub/kepler/lightcurves/0064/006462863/kplr006462863-2009166043257_llc.fits",
        "Q1 LLC. Confirmed planet (P≈3.74 d, t0≈131.62 BKJD). Catalog transit falls in this quarter — not invented. Not a moon.",
    ),
    (
        "Kepler-89 c",
        6_462_863,
        Mission::Kepler,
        "lightcurves/kepler89b_kic6462863_q1_llc.csv",
        "https://archive.stsci.edu/pub/kepler/lightcurves/0064/006462863/kplr006462863-2009166043257_llc.fits",
        "Same Q1 LLC as Kepler-89 b. Catalog epoch t0≈138.01 BKJD falls in this quarter — not invented. Not a moon.",
    ),
    (
        "Kepler-89 d",
        6_462_863,
        Mission::Kepler,
        "lightcurves/kepler89b_kic6462863_q1_llc.csv",
        "https://archive.stsci.edu/pub/kepler/lightcurves/0064/006462863/kplr006462863-2009166043257_llc.fits",
        "Same Q1 LLC as Kepler-89 b. Catalog epoch t0≈132.74 BKJD falls in this quarter — not invented. Not a moon.",
    ),
    (
        "Kepler-89 e",
        6_462_863,
        Mission::Kepler,
        "lightcurves/kepler89b_kic6462863_q1_llc.csv",
        "https://archive.stsci.edu/pub/kepler/lightcurves/0064/006462863/kplr006462863-2009166043257_llc.fits",
        "Same Q1 LLC as Kepler-89 b. Catalog epoch t0≈161.24 BKJD falls in this quarter — not invented. Not a moon.",
    ),
    (
        "Kepler-102 b",
        10_187_017,
        Mission::Kepler,
        "lightcurves/kepler102b_kic10187017_q1_llc.csv",
        "https://archive.stsci.edu/pub/kepler/lightcurves/0101/010187017/kplr010187017-2009166043257_llc.fits",
        "Q1 LLC. Confirmed planet (P≈5.29 d, t0≈135.85 BKJD). Catalog transit falls in this quarter — not invented. Not a moon.",
    ),
    (
        "Kepler-102 c",
        10_187_017,
        Mission::Kepler,
        "lightcurves/kepler102b_kic10187017_q1_llc.csv",
        "https://archive.stsci.edu/pub/kepler/lightcurves/0101/010187017/kplr010187017-2009166043257_llc.fits",
        "Same Q1 LLC as Kepler-102 b. Catalog epoch t0≈139.99 BKJD falls in this quarter — not invented. Not a moon.",
    ),
    (
        "Kepler-102 d",
        10_187_017,
        Mission::Kepler,
        "lightcurves/kepler102b_kic10187017_q1_llc.csv",
        "https://archive.stsci.edu/pub/kepler/lightcurves/0101/010187017/kplr010187017-2009166043257_llc.fits",
        "Same Q1 LLC as Kepler-102 b. Catalog epoch t0≈134.08 BKJD falls in this quarter — not invented. Not a moon.",
    ),
    (
        "Kepler-102 e",
        10_187_017,
        Mission::Kepler,
        "lightcurves/kepler102b_kic10187017_q1_llc.csv",
        "https://archive.stsci.edu/pub/kepler/lightcurves/0101/010187017/kplr010187017-2009166043257_llc.fits",
        "Same Q1 LLC as Kepler-102 b. Catalog epoch t0≈134.75 BKJD falls in this quarter — not invented. Not a moon.",
    ),
    (
        "Kepler-102 f",
        10_187_017,
        Mission::Kepler,
        "lightcurves/kepler102b_kic10187017_q1_llc.csv",
        "https://archive.stsci.edu/pub/kepler/lightcurves/0101/010187017/kplr010187017-2009166043257_llc.fits",
        "Same Q1 LLC as Kepler-102 b. Catalog epoch t0≈145.03 BKJD falls in this quarter — not invented. Not a moon.",
    ),
    (
        "Kepler-62 c",
        9_002_278,
        Mission::Kepler,
        "lightcurves/kepler62c_kic9002278_q1_llc.csv",
        "https://archive.stsci.edu/pub/kepler/lightcurves/0090/009002278/kplr009002278-2009166043257_llc.fits",
        "Q1 LLC. Confirmed planet (P≈12.44 d, t0≈134.65 BKJD). Catalog transit falls in this quarter — not invented. Kepler-62 b misses Q1. Not a moon.",
    ),
    (
        "Kepler-62 d",
        9_002_278,
        Mission::Kepler,
        "lightcurves/kepler62c_kic9002278_q1_llc.csv",
        "https://archive.stsci.edu/pub/kepler/lightcurves/0090/009002278/kplr009002278-2009166043257_llc.fits",
        "Same Q1 LLC as Kepler-62 c. Catalog t0≈180.81; previous epoch ≈162.65 falls in Q1 — not invented. Kepler-62 b misses Q1. Not a moon.",
    ),
    (
        "Kepler-62 e",
        9_002_278,
        Mission::Kepler,
        "lightcurves/kepler62c_kic9002278_q1_llc.csv",
        "https://archive.stsci.edu/pub/kepler/lightcurves/0090/009002278/kplr009002278-2009166043257_llc.fits",
        "Same Q1 LLC as Kepler-62 c. Catalog epoch t0≈150.41 BKJD falls in this quarter — not invented. Kepler-62 b and 62 f miss Q1. Not a moon.",
    ),
    (
        "Kepler-37 b",
        8_478_994,
        Mission::Kepler,
        "lightcurves/kepler37b_kic8478994_q1_llc.csv",
        "https://archive.stsci.edu/pub/kepler/lightcurves/0084/008478994/kplr008478994-2009166043257_llc.fits",
        "Q1 LLC. Confirmed planet (P≈13.37 d, catalog t0≈184.07 BKJD). Previous catalog epochs ≈143.97 / ≈157.34 fall in Q1 — not invented. Not a moon.",
    ),
    (
        "Kepler-37 c",
        8_478_994,
        Mission::Kepler,
        "lightcurves/kepler37b_kic8478994_q1_llc.csv",
        "https://archive.stsci.edu/pub/kepler/lightcurves/0084/008478994/kplr008478994-2009166043257_llc.fits",
        "Same Q1 LLC as Kepler-37 b. Catalog t0≈191.84; previous epoch ≈149.24 falls in Q1 — not invented. Not a moon.",
    ),
    (
        "Kepler-37 d",
        8_478_994,
        Mission::Kepler,
        "lightcurves/kepler37b_kic8478994_q1_llc.csv",
        "https://archive.stsci.edu/pub/kepler/lightcurves/0084/008478994/kplr008478994-2009166043257_llc.fits",
        "Same Q1 LLC as Kepler-37 b. Catalog t0≈175.25; previous epoch ≈135.46 falls in Q1 — not invented. Not a moon.",
    ),
    (
        "Kepler-444 b",
        6_278_762,
        Mission::Kepler,
        "lightcurves/kepler444b_kic6278762_q1_llc.csv",
        "https://archive.stsci.edu/pub/kepler/lightcurves/0062/006278762/kplr006278762-2009166043257_llc.fits",
        "Q1 LLC. Confirmed planet (P≈3.60 d, t0≈133.26 BKJD). Catalog transit falls in this quarter — not invented. Not a moon.",
    ),
    (
        "Kepler-444 c",
        6_278_762,
        Mission::Kepler,
        "lightcurves/kepler444b_kic6278762_q1_llc.csv",
        "https://archive.stsci.edu/pub/kepler/lightcurves/0062/006278762/kplr006278762-2009166043257_llc.fits",
        "Same Q1 LLC as Kepler-444 b. Catalog epoch t0≈131.52 BKJD falls in this quarter — not invented. Not a moon.",
    ),
    (
        "Kepler-444 d",
        6_278_762,
        Mission::Kepler,
        "lightcurves/kepler444b_kic6278762_q1_llc.csv",
        "https://archive.stsci.edu/pub/kepler/lightcurves/0062/006278762/kplr006278762-2009166043257_llc.fits",
        "Same Q1 LLC as Kepler-444 b. Catalog epoch t0≈134.78 BKJD falls in this quarter — not invented. Not a moon.",
    ),
    (
        "Kepler-444 e",
        6_278_762,
        Mission::Kepler,
        "lightcurves/kepler444b_kic6278762_q1_llc.csv",
        "https://archive.stsci.edu/pub/kepler/lightcurves/0062/006278762/kplr006278762-2009166043257_llc.fits",
        "Same Q1 LLC as Kepler-444 b. Catalog epoch t0≈135.09 BKJD falls in this quarter — not invented. Not a moon.",
    ),
    (
        "Kepler-444 f",
        6_278_762,
        Mission::Kepler,
        "lightcurves/kepler444b_kic6278762_q1_llc.csv",
        "https://archive.stsci.edu/pub/kepler/lightcurves/0062/006278762/kplr006278762-2009166043257_llc.fits",
        "Same Q1 LLC as Kepler-444 b. Catalog epoch t0≈134.88 BKJD falls in this quarter — not invented. Not a moon.",
    ),
    (
        "Kepler-42 b",
        8_561_063,
        Mission::Kepler,
        "lightcurves/kepler42b_kic8561063_q1_llc.csv",
        "https://archive.stsci.edu/pub/kepler/lightcurves/0085/008561063/kplr008561063-2009166043257_llc.fits",
        "Q1 LLC. Confirmed planet (P≈1.21 d, catalog t0≈170.48 BKJD). Folded catalog transits fall in Q1 — not invented. Not a moon.",
    ),
    (
        "Kepler-42 c",
        8_561_063,
        Mission::Kepler,
        "lightcurves/kepler42b_kic8561063_q1_llc.csv",
        "https://archive.stsci.edu/pub/kepler/lightcurves/0085/008561063/kplr008561063-2009166043257_llc.fits",
        "Same Q1 LLC as Kepler-42 b. Catalog epoch t0≈133.87 BKJD falls in this quarter — not invented. Not a moon.",
    ),
    (
        "Kepler-42 d",
        8_561_063,
        Mission::Kepler,
        "lightcurves/kepler42b_kic8561063_q1_llc.csv",
        "https://archive.stsci.edu/pub/kepler/lightcurves/0085/008561063/kplr008561063-2009166043257_llc.fits",
        "Same Q1 LLC as Kepler-42 b. Catalog epoch t0≈133.79 BKJD falls in this quarter — not invented. Not a moon.",
    ),
    (
        "Kepler-138 b",
        7_603_200,
        Mission::Kepler,
        "lightcurves/kepler138b_kic7603200_q1_llc.csv",
        "https://archive.stsci.edu/pub/kepler/lightcurves/0076/007603200/kplr007603200-2009166043257_llc.fits",
        "Q1 LLC. Confirmed planet (P≈10.31 d, t0≈133.54 BKJD). Catalog transit falls in this quarter — not invented. Not a moon.",
    ),
    (
        "Kepler-138 c",
        7_603_200,
        Mission::Kepler,
        "lightcurves/kepler138b_kic7603200_q1_llc.csv",
        "https://archive.stsci.edu/pub/kepler/lightcurves/0076/007603200/kplr007603200-2009166043257_llc.fits",
        "Same Q1 LLC as Kepler-138 b. Catalog t0≈177.85; previous epochs ≈136.51 / ≈150.29 fall in Q1 — not invented. Not a moon.",
    ),
    (
        "Kepler-138 d",
        7_603_200,
        Mission::Kepler,
        "lightcurves/kepler138b_kic7603200_q1_llc.csv",
        "https://archive.stsci.edu/pub/kepler/lightcurves/0076/007603200/kplr007603200-2009166043257_llc.fits",
        "Same Q1 LLC as Kepler-138 b. Catalog t0≈171.01; previous epoch ≈147.92 falls in Q1 — not invented. Not a moon.",
    ),
    (
        "Kepler-65 b",
        5_866_724,
        Mission::Kepler,
        "lightcurves/kepler65b_kic5866724_q1_llc.csv",
        "https://archive.stsci.edu/pub/kepler/lightcurves/0058/005866724/kplr005866724-2009166043257_llc.fits",
        "Q1 LLC. Confirmed planet (P≈2.15 d, t0≈133.50 BKJD). Catalog transits fall in this quarter — not invented. Not a moon.",
    ),
    (
        "Kepler-65 c",
        5_866_724,
        Mission::Kepler,
        "lightcurves/kepler65b_kic5866724_q1_llc.csv",
        "https://archive.stsci.edu/pub/kepler/lightcurves/0058/005866724/kplr005866724-2009166043257_llc.fits",
        "Same Q1 LLC as Kepler-65 b. Catalog epoch t0≈132.04 BKJD falls in this quarter — not invented. Not a moon.",
    ),
    (
        "Kepler-65 d",
        5_866_724,
        Mission::Kepler,
        "lightcurves/kepler65b_kic5866724_q1_llc.csv",
        "https://archive.stsci.edu/pub/kepler/lightcurves/0058/005866724/kplr005866724-2009166043257_llc.fits",
        "Same Q1 LLC as Kepler-65 b. Catalog epoch t0≈137.99 BKJD falls in this quarter — not invented. Not a moon.",
    ),
    (
        "Kepler-8 b",
        6_922_244,
        Mission::Kepler,
        "lightcurves/kepler8b_kic6922244_q1_llc.csv",
        "https://archive.stsci.edu/pub/kepler/lightcurves/0069/006922244/kplr006922244-2009166043257_llc.fits",
        "Q1 LLC. Confirmed planet (P≈3.52 d, t0≈121.12 BKJD). Catalog transits fall in this quarter — not invented. Not a moon host in this crate.",
    ),
    (
        "Kepler-9 b",
        3_323_887,
        Mission::Kepler,
        "lightcurves/kepler9b_kic3323887_q1_llc.csv",
        "https://archive.stsci.edu/pub/kepler/lightcurves/0033/003323887/kplr003323887-2009166043257_llc.fits",
        "Q1 LLC. Confirmed planet (P≈19.27 d, catalog t0≈182.54 BKJD). The previous catalog epoch (≈163.27) falls in Q1 — not invented. Not a moon host in this crate.",
    ),
    (
        "Kepler-9 c",
        3_323_887,
        Mission::Kepler,
        "lightcurves/kepler9b_kic3323887_q1_llc.csv",
        "https://archive.stsci.edu/pub/kepler/lightcurves/0033/003323887/kplr003323887-2009166043257_llc.fits",
        "Same Q1 LLC as Kepler-9 b (KIC 3323887). Catalog t0≈175.43; previous epoch ≈136.52 falls in Q1 — not invented. Not a moon.",
    ),
    (
        "Kepler-4 b",
        11_853_905,
        Mission::Kepler,
        "lightcurves/kepler4b_kic11853905_q1_llc.csv",
        "https://archive.stsci.edu/pub/kepler/lightcurves/0118/011853905/kplr011853905-2009166043257_llc.fits",
        "Q1 LLC. Confirmed planet (P≈3.21 d, t0≈123.61 BKJD). Catalog transits fall in this quarter — not invented. Not a moon.",
    ),
    (
        "Kepler-5 b",
        8_191_672,
        Mission::Kepler,
        "lightcurves/kepler5b_kic8191672_q1_llc.csv",
        "https://archive.stsci.edu/pub/kepler/lightcurves/0081/008191672/kplr008191672-2009166043257_llc.fits",
        "Q1 LLC. Confirmed planet (P≈3.55 d, t0≈122.90 BKJD). Catalog transits fall in this quarter — not invented. Not a moon.",
    ),
    (
        "Kepler-6 b",
        10_874_614,
        Mission::Kepler,
        "lightcurves/kepler6b_kic10874614_q1_llc.csv",
        "https://archive.stsci.edu/pub/kepler/lightcurves/0108/010874614/kplr010874614-2009166043257_llc.fits",
        "Q1 LLC. Confirmed planet (P≈3.23 d, t0≈121.49 BKJD). Catalog transits fall in this quarter — not invented. Not a moon.",
    ),
    (
        "Kepler-7 b",
        5_780_885,
        Mission::Kepler,
        "lightcurves/kepler7b_kic5780885_q1_llc.csv",
        "https://archive.stsci.edu/pub/kepler/lightcurves/0057/005780885/kplr005780885-2009166043257_llc.fits",
        "Q1 LLC. Confirmed planet (P≈4.89 d, t0≈134.28 BKJD). Catalog transit falls in this quarter — not invented. Not a moon.",
    ),
    (
        "Kepler-22 b",
        10_593_626,
        Mission::Kepler,
        "lightcurves/kepler22b_kic10593626_q1_llc.csv",
        "https://archive.stsci.edu/pub/kepler/lightcurves/0105/010593626/kplr010593626-2009166043257_llc.fits",
        "Q1 LLC. Confirmed planet (P≈290 d, t0≈133.70 BKJD). Catalog transit falls in this quarter — not invented. Not a moon host in this crate.",
    ),
    (
        "Kepler-1 b",
        11_446_443,
        Mission::Kepler,
        "lightcurves/kepler1b_kic11446443_q1_llc.csv",
        "https://archive.stsci.edu/pub/kepler/lightcurves/0114/011446443/kplr011446443-2009166043257_llc.fits",
        "Q1 LLC (TrES-2b). Confirmed planet. Not a moon host in this crate.",
    ),
    (
        "Kepler-1625 b",
        4_760_478,
        Mission::Kepler,
        "lightcurves/kepler1625b_kic4760478_q8_llc.csv",
        "https://archive.stsci.edu/pub/kepler/lightcurves/0047/004760478/kplr004760478-2011073133259_llc.fits",
        "Q8 LLC. Holdout host. This quarter does not cover a catalog transit of Kepler-1625 b (P≈287 d, t0≈348.83 BKJD). Photometry flags only. Moon stays CANDIDATE.",
    ),
    (
        "Kepler-1708 b",
        7_906_827,
        Mission::Kepler,
        "lightcurves/kepler1708b_kic7906827_q1_llc.csv",
        "https://archive.stsci.edu/pub/kepler/lightcurves/0079/007906827/kplr007906827-2009166043257_llc.fits",
        "Q1 LLC. Holdout host. P≈737 d — this quarter does not cover a catalog transit. Do not invent one. Moon stays CANDIDATE.",
    ),
    (
        "Kepler-167 e",
        3_239_945,
        Mission::Kepler,
        "lightcurves/kepler167e_kic3239945_q1_llc.csv",
        "https://archive.stsci.edu/pub/kepler/lightcurves/0032/003239945/kplr003239945-2009166043257_llc.fits",
        "Q1 LLC. Holdout host. P≈1071 d, t0≈420.29 BKJD — this quarter does not cover a catalog transit. Do not invent one. Status stays SEARCH.",
    ),
    (
        "Kepler-10 b",
        377_780_790,
        Mission::Tess,
        "lightcurves/kepler10b_tic377780790_tess_s14_pdcsap.csv",
        "https://archive.stsci.edu/missions/tess/tid/s0014/0000/0003/7778/0790/tess2019198215352-s0014-0000000377780790-0150-s_lc.fits",
        "TESS S14 SPOC 2-min PDCSAP (mid 2500 points). TIME converted BTJD→BKJD (+2167). Confirmed planet. Not a moon.",
    ),
    (
        "K2-3 b",
        201_367_065,
        Mission::K2,
        "lightcurves/k2_3_epic201367065_c01_llc.csv",
        "https://archive.stsci.edu/pub/k2/lightcurves/c1/201300000/67000/ktwo201367065-c01_llc.fits",
        "K2 Campaign 1 LLC. Confirmed planet. Cached PS row has no transit epoch; extra-dip is unwindowed. Not a moon.",
    ),
    (
        "K2-3 c",
        201_367_065,
        Mission::K2,
        "lightcurves/k2_3_epic201367065_c01_llc.csv",
        "https://archive.stsci.edu/pub/k2/lightcurves/c1/201300000/67000/ktwo201367065-c01_llc.fits",
        "Same K2 C1 LLC as K2-3 b. Cached PS row has no transit epoch; extra-dip is unwindowed. Do not invent one. Not a moon.",
    ),
    (
        "K2-18 b",
        201_912_552,
        Mission::K2,
        "lightcurves/k2_18_epic201912552_c01_llc.csv",
        "https://archive.stsci.edu/pub/k2/lightcurves/c1/201900000/12000/ktwo201912552-c01_llc.fits",
        "K2 Campaign 1 LLC. Confirmed planet. Cached PS row has no transit epoch; extra-dip is unwindowed. Not a moon.",
    ),
    (
        "Kepler-32 b",
        9_787_239,
        Mission::Kepler,
        "lightcurves/kepler32b_kic9787239_q1_llc.csv",
        "https://archive.stsci.edu/pub/kepler/lightcurves/0097/009787239/kplr009787239-2009166043257_llc.fits",
        "Q1 LLC. Confirmed planet. Not a moon host in this crate.",
    ),
    (
        "Kepler-32 c",
        9_787_239,
        Mission::Kepler,
        "lightcurves/kepler32b_kic9787239_q1_llc.csv",
        "https://archive.stsci.edu/pub/kepler/lightcurves/0097/009787239/kplr009787239-2009166043257_llc.fits",
        "Same Q1 LLC as Kepler-32 b (KIC 9787239). Not a moon.",
    ),
    (
        "Kepler-32 d",
        9_787_239,
        Mission::Kepler,
        "lightcurves/kepler32b_kic9787239_q1_llc.csv",
        "https://archive.stsci.edu/pub/kepler/lightcurves/0097/009787239/kplr009787239-2009166043257_llc.fits",
        "Same Q1 LLC as Kepler-32 b (KIC 9787239). Not a moon.",
    ),
    (
        "Kepler-32 e",
        9_787_239,
        Mission::Kepler,
        "lightcurves/kepler32b_kic9787239_q1_llc.csv",
        "https://archive.stsci.edu/pub/kepler/lightcurves/0097/009787239/kplr009787239-2009166043257_llc.fits",
        "Same Q1 LLC as Kepler-32 b (KIC 9787239). Not a moon.",
    ),
    (
        "Kepler-32 f",
        9_787_239,
        Mission::Kepler,
        "lightcurves/kepler32b_kic9787239_q1_llc.csv",
        "https://archive.stsci.edu/pub/kepler/lightcurves/0097/009787239/kplr009787239-2009166043257_llc.fits",
        "Same Q1 LLC as Kepler-32 b (KIC 9787239). Not a moon.",
    ),
    (
        "Kepler-33 b",
        9_458_613,
        Mission::Kepler,
        "lightcurves/kepler33b_kic9458613_q1_llc.csv",
        "https://archive.stsci.edu/pub/kepler/lightcurves/0094/009458613/kplr009458613-2009166043257_llc.fits",
        "Q1 LLC. Confirmed planet. Not a moon host in this crate.",
    ),
    (
        "Kepler-33 c",
        9_458_613,
        Mission::Kepler,
        "lightcurves/kepler33b_kic9458613_q1_llc.csv",
        "https://archive.stsci.edu/pub/kepler/lightcurves/0094/009458613/kplr009458613-2009166043257_llc.fits",
        "Same Q1 LLC as Kepler-33 b (KIC 9458613). Not a moon.",
    ),
    (
        "Kepler-33 d",
        9_458_613,
        Mission::Kepler,
        "lightcurves/kepler33b_kic9458613_q1_llc.csv",
        "https://archive.stsci.edu/pub/kepler/lightcurves/0094/009458613/kplr009458613-2009166043257_llc.fits",
        "Same Q1 LLC as Kepler-33 b (KIC 9458613). Not a moon.",
    ),
    (
        "Kepler-33 e",
        9_458_613,
        Mission::Kepler,
        "lightcurves/kepler33b_kic9458613_q1_llc.csv",
        "https://archive.stsci.edu/pub/kepler/lightcurves/0094/009458613/kplr009458613-2009166043257_llc.fits",
        "Same Q1 LLC as Kepler-33 b (KIC 9458613). Not a moon.",
    ),
    (
        "Kepler-33 f",
        9_458_613,
        Mission::Kepler,
        "lightcurves/kepler33b_kic9458613_q1_llc.csv",
        "https://archive.stsci.edu/pub/kepler/lightcurves/0094/009458613/kplr009458613-2009166043257_llc.fits",
        "Same Q1 LLC as Kepler-33 b (KIC 9458613). Not a moon.",
    ),
    (
        "Kepler-26 b",
        9_757_613,
        Mission::Kepler,
        "lightcurves/kepler26b_kic9757613_q1_llc.csv",
        "https://archive.stsci.edu/pub/kepler/lightcurves/0097/009757613/kplr009757613-2009166043257_llc.fits",
        "Q1 LLC. Confirmed planet. Not a moon host in this crate.",
    ),
    (
        "Kepler-26 c",
        9_757_613,
        Mission::Kepler,
        "lightcurves/kepler26b_kic9757613_q1_llc.csv",
        "https://archive.stsci.edu/pub/kepler/lightcurves/0097/009757613/kplr009757613-2009166043257_llc.fits",
        "Same Q1 LLC as Kepler-26 b (KIC 9757613). Not a moon.",
    ),
    (
        "Kepler-26 d",
        9_757_613,
        Mission::Kepler,
        "lightcurves/kepler26b_kic9757613_q1_llc.csv",
        "https://archive.stsci.edu/pub/kepler/lightcurves/0097/009757613/kplr009757613-2009166043257_llc.fits",
        "Same Q1 LLC as Kepler-26 b (KIC 9757613). Not a moon.",
    ),
    (
        "Kepler-186 b",
        8_120_608,
        Mission::Kepler,
        "lightcurves/kepler186b_kic8120608_q1_llc.csv",
        "https://archive.stsci.edu/pub/kepler/lightcurves/0081/008120608/kplr008120608-2009166043257_llc.fits",
        "Q1 LLC. Confirmed planet. Not a moon host in this crate.",
    ),
    (
        "Kepler-186 c",
        8_120_608,
        Mission::Kepler,
        "lightcurves/kepler186b_kic8120608_q1_llc.csv",
        "https://archive.stsci.edu/pub/kepler/lightcurves/0081/008120608/kplr008120608-2009166043257_llc.fits",
        "Same Q1 LLC as Kepler-186 b (KIC 8120608). Not a moon.",
    ),
    (
        "Kepler-186 d",
        8_120_608,
        Mission::Kepler,
        "lightcurves/kepler186b_kic8120608_q1_llc.csv",
        "https://archive.stsci.edu/pub/kepler/lightcurves/0081/008120608/kplr008120608-2009166043257_llc.fits",
        "Same Q1 LLC as Kepler-186 b (KIC 8120608). Not a moon.",
    ),
    (
        "Kepler-186 e",
        8_120_608,
        Mission::Kepler,
        "lightcurves/kepler186b_kic8120608_q1_llc.csv",
        "https://archive.stsci.edu/pub/kepler/lightcurves/0081/008120608/kplr008120608-2009166043257_llc.fits",
        "Same Q1 LLC as Kepler-186 b (KIC 8120608). Not a moon.",
    ),
    (
        "Kepler-80 c",
        4_852_528,
        Mission::Kepler,
        "lightcurves/kepler80d_kic4852528_q1_llc.csv",
        "https://archive.stsci.edu/pub/kepler/lightcurves/0048/004852528/kplr004852528-2009166043257_llc.fits",
        "Same Q1 LLC as Kepler-80 d (KIC 4852528). Not a moon.",
    ),
    (
        "Kepler-80 d",
        4_852_528,
        Mission::Kepler,
        "lightcurves/kepler80d_kic4852528_q1_llc.csv",
        "https://archive.stsci.edu/pub/kepler/lightcurves/0048/004852528/kplr004852528-2009166043257_llc.fits",
        "Q1 LLC. Confirmed planet. Not a moon host in this crate.",
    ),
    (
        "Kepler-80 e",
        4_852_528,
        Mission::Kepler,
        "lightcurves/kepler80d_kic4852528_q1_llc.csv",
        "https://archive.stsci.edu/pub/kepler/lightcurves/0048/004852528/kplr004852528-2009166043257_llc.fits",
        "Same Q1 LLC as Kepler-80 d (KIC 4852528). Not a moon.",
    ),
    (
        "Kepler-80 f",
        4_852_528,
        Mission::Kepler,
        "lightcurves/kepler80d_kic4852528_q1_llc.csv",
        "https://archive.stsci.edu/pub/kepler/lightcurves/0048/004852528/kplr004852528-2009166043257_llc.fits",
        "Same Q1 LLC as Kepler-80 d (KIC 4852528). Not a moon.",
    ),
    (
        "Kepler-29 b",
        10_358_759,
        Mission::Kepler,
        "lightcurves/kepler29b_kic10358759_q1_llc.csv",
        "https://archive.stsci.edu/pub/kepler/lightcurves/0103/010358759/kplr010358759-2009166043257_llc.fits",
        "Q1 LLC. Confirmed planet. Not a moon host in this crate.",
    ),
    (
        "Kepler-29 c",
        10_358_759,
        Mission::Kepler,
        "lightcurves/kepler29b_kic10358759_q1_llc.csv",
        "https://archive.stsci.edu/pub/kepler/lightcurves/0103/010358759/kplr010358759-2009166043257_llc.fits",
        "Same Q1 LLC as Kepler-29 b (KIC 10358759). Not a moon.",
    ),
    (
        "Kepler-93 b",
        3_544_595,
        Mission::Kepler,
        "lightcurves/kepler93b_kic3544595_q1_llc.csv",
        "https://archive.stsci.edu/pub/kepler/lightcurves/0035/003544595/kplr003544595-2009166043257_llc.fits",
        "Q1 LLC. Confirmed planet. Not a moon host in this crate.",
    ),
    (
        "Kepler-100 b",
        6_521_045,
        Mission::Kepler,
        "lightcurves/kepler100b_kic6521045_q1_llc.csv",
        "https://archive.stsci.edu/pub/kepler/lightcurves/0065/006521045/kplr006521045-2009166043257_llc.fits",
        "Q1 LLC. Confirmed planet. Not a moon host in this crate.",
    ),
    (
        "Kepler-100 c",
        6_521_045,
        Mission::Kepler,
        "lightcurves/kepler100b_kic6521045_q1_llc.csv",
        "https://archive.stsci.edu/pub/kepler/lightcurves/0065/006521045/kplr006521045-2009166043257_llc.fits",
        "Same Q1 LLC as Kepler-100 b (KIC 6521045). Not a moon.",
    ),
    (
        "Kepler-100 d",
        6_521_045,
        Mission::Kepler,
        "lightcurves/kepler100b_kic6521045_q1_llc.csv",
        "https://archive.stsci.edu/pub/kepler/lightcurves/0065/006521045/kplr006521045-2009166043257_llc.fits",
        "Same Q1 LLC as Kepler-100 b (KIC 6521045). Not a moon.",
    ),
    (
        "Kepler-88 b",
        5_446_285,
        Mission::Kepler,
        "lightcurves/kepler88b_kic5446285_q1_llc.csv",
        "https://archive.stsci.edu/pub/kepler/lightcurves/0054/005446285/kplr005446285-2009166043257_llc.fits",
        "Q1 LLC. Confirmed planet. Not a moon host in this crate.",
    ),
    (
        "Kepler-23 b",
        11_512_246,
        Mission::Kepler,
        "lightcurves/kepler23b_kic11512246_q1_llc.csv",
        "https://archive.stsci.edu/pub/kepler/lightcurves/0115/011512246/kplr011512246-2009166043257_llc.fits",
        "Q1 LLC. Confirmed planet. Not a moon host in this crate.",
    ),
    (
        "Kepler-23 c",
        11_512_246,
        Mission::Kepler,
        "lightcurves/kepler23b_kic11512246_q1_llc.csv",
        "https://archive.stsci.edu/pub/kepler/lightcurves/0115/011512246/kplr011512246-2009166043257_llc.fits",
        "Same Q1 LLC as Kepler-23 b (KIC 11512246). Not a moon.",
    ),
    (
        "Kepler-24 b",
        3_231_341,
        Mission::Kepler,
        "lightcurves/kepler24b_kic3231341_q1_llc.csv",
        "https://archive.stsci.edu/pub/kepler/lightcurves/0032/003231341/kplr003231341-2009166043257_llc.fits",
        "Q1 LLC. Confirmed planet. Not a moon host in this crate.",
    ),
    (
        "Kepler-24 c",
        3_231_341,
        Mission::Kepler,
        "lightcurves/kepler24b_kic3231341_q1_llc.csv",
        "https://archive.stsci.edu/pub/kepler/lightcurves/0032/003231341/kplr003231341-2009166043257_llc.fits",
        "Same Q1 LLC as Kepler-24 b (KIC 3231341). Not a moon.",
    ),
    (
        "Kepler-27 b",
        5_792_202,
        Mission::Kepler,
        "lightcurves/kepler27b_kic5792202_q1_llc.csv",
        "https://archive.stsci.edu/pub/kepler/lightcurves/0057/005792202/kplr005792202-2009166043257_llc.fits",
        "Q1 LLC. Confirmed planet. Not a moon host in this crate.",
    ),
    (
        "Kepler-27 c",
        5_792_202,
        Mission::Kepler,
        "lightcurves/kepler27b_kic5792202_q1_llc.csv",
        "https://archive.stsci.edu/pub/kepler/lightcurves/0057/005792202/kplr005792202-2009166043257_llc.fits",
        "Same Q1 LLC as Kepler-27 b (KIC 5792202). Not a moon.",
    ),
    (
        "Kepler-28 b",
        6_949_607,
        Mission::Kepler,
        "lightcurves/kepler28b_kic6949607_q1_llc.csv",
        "https://archive.stsci.edu/pub/kepler/lightcurves/0069/006949607/kplr006949607-2009166043257_llc.fits",
        "Q1 LLC. Confirmed planet. Not a moon host in this crate.",
    ),
    (
        "Kepler-28 c",
        6_949_607,
        Mission::Kepler,
        "lightcurves/kepler28b_kic6949607_q1_llc.csv",
        "https://archive.stsci.edu/pub/kepler/lightcurves/0069/006949607/kplr006949607-2009166043257_llc.fits",
        "Same Q1 LLC as Kepler-28 b (KIC 6949607). Not a moon.",
    ),
    (
        "Kepler-41 b",
        9_410_930,
        Mission::Kepler,
        "lightcurves/kepler41b_kic9410930_q1_llc.csv",
        "https://archive.stsci.edu/pub/kepler/lightcurves/0094/009410930/kplr009410930-2009166043257_llc.fits",
        "Q1 LLC. Confirmed planet. Not a moon host in this crate.",
    ),
    (
        "Kepler-56 b",
        6_448_890,
        Mission::Kepler,
        "lightcurves/kepler56b_kic6448890_q1_llc.csv",
        "https://archive.stsci.edu/pub/kepler/lightcurves/0064/006448890/kplr006448890-2009166043257_llc.fits",
        "Q1 LLC. Confirmed planet. Not a moon host in this crate.",
    ),
    (
        "Kepler-56 c",
        6_448_890,
        Mission::Kepler,
        "lightcurves/kepler56b_kic6448890_q1_llc.csv",
        "https://archive.stsci.edu/pub/kepler/lightcurves/0064/006448890/kplr006448890-2009166043257_llc.fits",
        "Same Q1 LLC as Kepler-56 b (KIC 6448890). Not a moon.",
    ),
    (
        "Kepler-57 b",
        8_564_587,
        Mission::Kepler,
        "lightcurves/kepler57b_kic8564587_q1_llc.csv",
        "https://archive.stsci.edu/pub/kepler/lightcurves/0085/008564587/kplr008564587-2009166043257_llc.fits",
        "Q1 LLC. Confirmed planet. Not a moon host in this crate.",
    ),
    (
        "Kepler-57 c",
        8_564_587,
        Mission::Kepler,
        "lightcurves/kepler57b_kic8564587_q1_llc.csv",
        "https://archive.stsci.edu/pub/kepler/lightcurves/0085/008564587/kplr008564587-2009166043257_llc.fits",
        "Same Q1 LLC as Kepler-57 b (KIC 8564587). Not a moon.",
    ),
    (
        "Kepler-69 b",
        8_692_861,
        Mission::Kepler,
        "lightcurves/kepler69b_kic8692861_q1_llc.csv",
        "https://archive.stsci.edu/pub/kepler/lightcurves/0086/008692861/kplr008692861-2009166043257_llc.fits",
        "Q1 LLC. Confirmed planet. Not a moon host in this crate.",
    ),
    (
        "Kepler-76 b",
        4_570_949,
        Mission::Kepler,
        "lightcurves/kepler76b_kic4570949_q1_llc.csv",
        "https://archive.stsci.edu/pub/kepler/lightcurves/0045/004570949/kplr004570949-2009166043257_llc.fits",
        "Q1 LLC. Confirmed planet. Not a moon host in this crate.",
    ),
    (
        "Kepler-58 b",
        4_077_526,
        Mission::Kepler,
        "lightcurves/kepler58b_kic4077526_q1_llc.csv",
        "https://archive.stsci.edu/pub/kepler/lightcurves/0040/004077526/kplr004077526-2009166043257_llc.fits",
        "Q1 LLC. Confirmed planet. Not a moon host in this crate.",
    ),
    (
        "Kepler-58 c",
        4_077_526,
        Mission::Kepler,
        "lightcurves/kepler58b_kic4077526_q1_llc.csv",
        "https://archive.stsci.edu/pub/kepler/lightcurves/0040/004077526/kplr004077526-2009166043257_llc.fits",
        "Same Q1 LLC as Kepler-58 b (KIC 4077526). Not a moon.",
    ),
    (
        "Kepler-58 d",
        4_077_526,
        Mission::Kepler,
        "lightcurves/kepler58b_kic4077526_q1_llc.csv",
        "https://archive.stsci.edu/pub/kepler/lightcurves/0040/004077526/kplr004077526-2009166043257_llc.fits",
        "Same Q1 LLC as Kepler-58 b (KIC 4077526). Not a moon.",
    ),
    (
        "Kepler-59 b",
        9_821_454,
        Mission::Kepler,
        "lightcurves/kepler59b_kic9821454_q1_llc.csv",
        "https://archive.stsci.edu/pub/kepler/lightcurves/0098/009821454/kplr009821454-2009166043257_llc.fits",
        "Q1 LLC. Confirmed planet. Not a moon host in this crate.",
    ),
    (
        "Kepler-59 c",
        9_821_454,
        Mission::Kepler,
        "lightcurves/kepler59b_kic9821454_q1_llc.csv",
        "https://archive.stsci.edu/pub/kepler/lightcurves/0098/009821454/kplr009821454-2009166043257_llc.fits",
        "Same Q1 LLC as Kepler-59 b (KIC 9821454). Not a moon.",
    ),
    (
        "Kepler-60 b",
        6_768_394,
        Mission::Kepler,
        "lightcurves/kepler60b_kic6768394_q1_llc.csv",
        "https://archive.stsci.edu/pub/kepler/lightcurves/0067/006768394/kplr006768394-2009166043257_llc.fits",
        "Q1 LLC. Confirmed planet. Not a moon host in this crate.",
    ),
    (
        "Kepler-60 c",
        6_768_394,
        Mission::Kepler,
        "lightcurves/kepler60b_kic6768394_q1_llc.csv",
        "https://archive.stsci.edu/pub/kepler/lightcurves/0067/006768394/kplr006768394-2009166043257_llc.fits",
        "Same Q1 LLC as Kepler-60 b (KIC 6768394). Not a moon.",
    ),
    (
        "Kepler-60 d",
        6_768_394,
        Mission::Kepler,
        "lightcurves/kepler60b_kic6768394_q1_llc.csv",
        "https://archive.stsci.edu/pub/kepler/lightcurves/0067/006768394/kplr006768394-2009166043257_llc.fits",
        "Same Q1 LLC as Kepler-60 b (KIC 6768394). Not a moon.",
    ),
    (
        "Kepler-84 b",
        5_301_750,
        Mission::Kepler,
        "lightcurves/kepler84b_kic5301750_q1_llc.csv",
        "https://archive.stsci.edu/pub/kepler/lightcurves/0053/005301750/kplr005301750-2009166043257_llc.fits",
        "Q1 LLC. Confirmed planet. Not a moon host in this crate.",
    ),
    (
        "Kepler-84 c",
        5_301_750,
        Mission::Kepler,
        "lightcurves/kepler84b_kic5301750_q1_llc.csv",
        "https://archive.stsci.edu/pub/kepler/lightcurves/0053/005301750/kplr005301750-2009166043257_llc.fits",
        "Same Q1 LLC as Kepler-84 b (KIC 5301750). Not a moon.",
    ),
    (
        "Kepler-84 d",
        5_301_750,
        Mission::Kepler,
        "lightcurves/kepler84b_kic5301750_q1_llc.csv",
        "https://archive.stsci.edu/pub/kepler/lightcurves/0053/005301750/kplr005301750-2009166043257_llc.fits",
        "Same Q1 LLC as Kepler-84 b (KIC 5301750). Not a moon.",
    ),
    (
        "Kepler-84 e",
        5_301_750,
        Mission::Kepler,
        "lightcurves/kepler84b_kic5301750_q1_llc.csv",
        "https://archive.stsci.edu/pub/kepler/lightcurves/0053/005301750/kplr005301750-2009166043257_llc.fits",
        "Same Q1 LLC as Kepler-84 b (KIC 5301750). Not a moon.",
    ),
    (
        "Kepler-85 b",
        8_950_568,
        Mission::Kepler,
        "lightcurves/kepler85b_kic8950568_q1_llc.csv",
        "https://archive.stsci.edu/pub/kepler/lightcurves/0089/008950568/kplr008950568-2009166043257_llc.fits",
        "Q1 LLC. Confirmed planet. Not a moon host in this crate.",
    ),
    (
        "Kepler-85 c",
        8_950_568,
        Mission::Kepler,
        "lightcurves/kepler85b_kic8950568_q1_llc.csv",
        "https://archive.stsci.edu/pub/kepler/lightcurves/0089/008950568/kplr008950568-2009166043257_llc.fits",
        "Same Q1 LLC as Kepler-85 b (KIC 8950568). Not a moon.",
    ),
    (
        "Kepler-85 d",
        8_950_568,
        Mission::Kepler,
        "lightcurves/kepler85b_kic8950568_q1_llc.csv",
        "https://archive.stsci.edu/pub/kepler/lightcurves/0089/008950568/kplr008950568-2009166043257_llc.fits",
        "Same Q1 LLC as Kepler-85 b (KIC 8950568). Not a moon.",
    ),
    (
        "Kepler-85 e",
        8_950_568,
        Mission::Kepler,
        "lightcurves/kepler85b_kic8950568_q1_llc.csv",
        "https://archive.stsci.edu/pub/kepler/lightcurves/0089/008950568/kplr008950568-2009166043257_llc.fits",
        "Same Q1 LLC as Kepler-85 b (KIC 8950568). Not a moon.",
    ),
    (
        "Kepler-54 b",
        7_455_287,
        Mission::Kepler,
        "lightcurves/kepler54b_kic7455287_q1_llc.csv",
        "https://archive.stsci.edu/pub/kepler/lightcurves/0074/007455287/kplr007455287-2009166043257_llc.fits",
        "Q1 LLC. Confirmed planet. Not a moon host in this crate.",
    ),
    (
        "Kepler-54 c",
        7_455_287,
        Mission::Kepler,
        "lightcurves/kepler54b_kic7455287_q1_llc.csv",
        "https://archive.stsci.edu/pub/kepler/lightcurves/0074/007455287/kplr007455287-2009166043257_llc.fits",
        "Same Q1 LLC as Kepler-54 b (KIC 7455287). Not a moon.",
    ),
    (
        "Kepler-54 d",
        7_455_287,
        Mission::Kepler,
        "lightcurves/kepler54b_kic7455287_q1_llc.csv",
        "https://archive.stsci.edu/pub/kepler/lightcurves/0074/007455287/kplr007455287-2009166043257_llc.fits",
        "Same Q1 LLC as Kepler-54 b (KIC 7455287). Not a moon.",
    ),
    (
        "Kepler-55 b",
        8_150_320,
        Mission::Kepler,
        "lightcurves/kepler55b_kic8150320_q1_llc.csv",
        "https://archive.stsci.edu/pub/kepler/lightcurves/0081/008150320/kplr008150320-2009166043257_llc.fits",
        "Q1 LLC. Confirmed planet. Not a moon host in this crate.",
    ),
    (
        "Kepler-55 c",
        8_150_320,
        Mission::Kepler,
        "lightcurves/kepler55b_kic8150320_q1_llc.csv",
        "https://archive.stsci.edu/pub/kepler/lightcurves/0081/008150320/kplr008150320-2009166043257_llc.fits",
        "Same Q1 LLC as Kepler-55 b (KIC 8150320). Not a moon.",
    ),
    (
        "Kepler-55 d",
        8_150_320,
        Mission::Kepler,
        "lightcurves/kepler55b_kic8150320_q1_llc.csv",
        "https://archive.stsci.edu/pub/kepler/lightcurves/0081/008150320/kplr008150320-2009166043257_llc.fits",
        "Same Q1 LLC as Kepler-55 b (KIC 8150320). Not a moon.",
    ),
    (
        "Kepler-55 e",
        8_150_320,
        Mission::Kepler,
        "lightcurves/kepler55b_kic8150320_q1_llc.csv",
        "https://archive.stsci.edu/pub/kepler/lightcurves/0081/008150320/kplr008150320-2009166043257_llc.fits",
        "Same Q1 LLC as Kepler-55 b (KIC 8150320). Not a moon.",
    ),
    (
        "Kepler-52 b",
        11_754_553,
        Mission::Kepler,
        "lightcurves/kepler52b_kic11754553_q1_llc.csv",
        "https://archive.stsci.edu/pub/kepler/lightcurves/0117/011754553/kplr011754553-2009166043257_llc.fits",
        "Q1 LLC. Confirmed planet. Not a moon host in this crate.",
    ),
    (
        "Kepler-52 c",
        11_754_553,
        Mission::Kepler,
        "lightcurves/kepler52b_kic11754553_q1_llc.csv",
        "https://archive.stsci.edu/pub/kepler/lightcurves/0117/011754553/kplr011754553-2009166043257_llc.fits",
        "Same Q1 LLC as Kepler-52 b (KIC 11754553). Not a moon.",
    ),
    (
        "Kepler-52 d",
        11_754_553,
        Mission::Kepler,
        "lightcurves/kepler52b_kic11754553_q1_llc.csv",
        "https://archive.stsci.edu/pub/kepler/lightcurves/0117/011754553/kplr011754553-2009166043257_llc.fits",
        "Same Q1 LLC as Kepler-52 b (KIC 11754553). Not a moon.",
    ),
    (
        "Kepler-53 b",
        5_358_241,
        Mission::Kepler,
        "lightcurves/kepler53b_kic5358241_q1_llc.csv",
        "https://archive.stsci.edu/pub/kepler/lightcurves/0053/005358241/kplr005358241-2009166043257_llc.fits",
        "Q1 LLC. Confirmed planet. Not a moon host in this crate.",
    ),
    (
        "Kepler-53 c",
        5_358_241,
        Mission::Kepler,
        "lightcurves/kepler53b_kic5358241_q1_llc.csv",
        "https://archive.stsci.edu/pub/kepler/lightcurves/0053/005358241/kplr005358241-2009166043257_llc.fits",
        "Same Q1 LLC as Kepler-53 b (KIC 5358241). Not a moon.",
    ),
    (
        "Kepler-31 b",
        9_347_899,
        Mission::Kepler,
        "lightcurves/kepler31b_kic9347899_q1_llc.csv",
        "https://archive.stsci.edu/pub/kepler/lightcurves/0093/009347899/kplr009347899-2009166043257_llc.fits",
        "Q1 LLC. Confirmed planet. Not a moon host in this crate.",
    ),
    (
        "Kepler-31 c",
        9_347_899,
        Mission::Kepler,
        "lightcurves/kepler31b_kic9347899_q1_llc.csv",
        "https://archive.stsci.edu/pub/kepler/lightcurves/0093/009347899/kplr009347899-2009166043257_llc.fits",
        "Same Q1 LLC as Kepler-31 b (KIC 9347899). Not a moon.",
    ),
    (
        "Kepler-50 b",
        11_807_274,
        Mission::Kepler,
        "lightcurves/kepler50b_kic11807274_q1_llc.csv",
        "https://archive.stsci.edu/pub/kepler/lightcurves/0118/011807274/kplr011807274-2009166043257_llc.fits",
        "Q1 LLC. Confirmed planet. Not a moon host in this crate.",
    ),
    (
        "Kepler-50 c",
        11_807_274,
        Mission::Kepler,
        "lightcurves/kepler50b_kic11807274_q1_llc.csv",
        "https://archive.stsci.edu/pub/kepler/lightcurves/0118/011807274/kplr011807274-2009166043257_llc.fits",
        "Same Q1 LLC as Kepler-50 b (KIC 11807274). Not a moon.",
    ),
    (
        "Kepler-81 b",
        7_287_995,
        Mission::Kepler,
        "lightcurves/kepler81b_kic7287995_q1_llc.csv",
        "https://archive.stsci.edu/pub/kepler/lightcurves/0072/007287995/kplr007287995-2009166043257_llc.fits",
        "Q1 LLC. Confirmed planet. Not a moon host in this crate.",
    ),
    (
        "Kepler-81 c",
        7_287_995,
        Mission::Kepler,
        "lightcurves/kepler81b_kic7287995_q1_llc.csv",
        "https://archive.stsci.edu/pub/kepler/lightcurves/0072/007287995/kplr007287995-2009166043257_llc.fits",
        "Same Q1 LLC as Kepler-81 b (KIC 7287995). Not a moon.",
    ),
    (
        "Kepler-81 d",
        7_287_995,
        Mission::Kepler,
        "lightcurves/kepler81b_kic7287995_q1_llc.csv",
        "https://archive.stsci.edu/pub/kepler/lightcurves/0072/007287995/kplr007287995-2009166043257_llc.fits",
        "Same Q1 LLC as Kepler-81 b (KIC 7287995). Not a moon.",
    ),
    (
        "Kepler-94 b",
        10_318_874,
        Mission::Kepler,
        "lightcurves/kepler94b_kic10318874_q1_llc.csv",
        "https://archive.stsci.edu/pub/kepler/lightcurves/0103/010318874/kplr010318874-2009166043257_llc.fits",
        "Q1 LLC. Confirmed planet. Not a moon host in this crate.",
    ),
    (
        "Kepler-95 b",
        8_349_582,
        Mission::Kepler,
        "lightcurves/kepler95b_kic8349582_q1_llc.csv",
        "https://archive.stsci.edu/pub/kepler/lightcurves/0083/008349582/kplr008349582-2009166043257_llc.fits",
        "Q1 LLC. Confirmed planet. Not a moon host in this crate.",
    ),
    (
        "Kepler-61 b",
        6_960_913,
        Mission::Kepler,
        "lightcurves/kepler61b_kic6960913_q1_llc.csv",
        "https://archive.stsci.edu/pub/kepler/lightcurves/0069/006960913/kplr006960913-2009166043257_llc.fits",
        "Q1 LLC. Confirmed planet. Not a moon host in this crate.",
    ),
    (
        "Kepler-66 b",
        9_836_149,
        Mission::Kepler,
        "lightcurves/kepler66b_kic9836149_q1_llc.csv",
        "https://archive.stsci.edu/pub/kepler/lightcurves/0098/009836149/kplr009836149-2009166043257_llc.fits",
        "Q1 LLC. Confirmed planet. Not a moon host in this crate.",
    ),
    (
        "Kepler-74 b",
        6_046_540,
        Mission::Kepler,
        "lightcurves/kepler74b_kic6046540_q1_llc.csv",
        "https://archive.stsci.edu/pub/kepler/lightcurves/0060/006046540/kplr006046540-2009166043257_llc.fits",
        "Q1 LLC. Confirmed planet. Not a moon host in this crate.",
    ),
    (
        "Kepler-43 b",
        9_818_381,
        Mission::Kepler,
        "lightcurves/kepler43b_kic9818381_q1_llc.csv",
        "https://archive.stsci.edu/pub/kepler/lightcurves/0098/009818381/kplr009818381-2009166043257_llc.fits",
        "Q1 LLC. Confirmed planet. Not a moon host in this crate.",
    ),
    (
        "Kepler-44 b",
        9_305_831,
        Mission::Kepler,
        "lightcurves/kepler44b_kic9305831_q1_llc.csv",
        "https://archive.stsci.edu/pub/kepler/lightcurves/0093/009305831/kplr009305831-2009166043257_llc.fits",
        "Q1 LLC. Confirmed planet. Not a moon host in this crate.",
    ),
    (
        "Kepler-92 b",
        6_196_457,
        Mission::Kepler,
        "lightcurves/kepler92b_kic6196457_q1_llc.csv",
        "https://archive.stsci.edu/pub/kepler/lightcurves/0061/006196457/kplr006196457-2009166043257_llc.fits",
        "Q1 LLC. Confirmed planet. Not a moon host in this crate.",
    ),
    (
        "Kepler-92 c",
        6_196_457,
        Mission::Kepler,
        "lightcurves/kepler92b_kic6196457_q1_llc.csv",
        "https://archive.stsci.edu/pub/kepler/lightcurves/0061/006196457/kplr006196457-2009166043257_llc.fits",
        "Same Q1 LLC as Kepler-92 b (KIC 6196457). Not a moon.",
    ),
    (
        "Kepler-92 d",
        6_196_457,
        Mission::Kepler,
        "lightcurves/kepler92b_kic6196457_q1_llc.csv",
        "https://archive.stsci.edu/pub/kepler/lightcurves/0061/006196457/kplr006196457-2009166043257_llc.fits",
        "Same Q1 LLC as Kepler-92 b (KIC 6196457). Not a moon.",
    ),
    (
        "Kepler-49 b",
        5_364_071,
        Mission::Kepler,
        "lightcurves/kepler49b_kic5364071_q1_llc.csv",
        "https://archive.stsci.edu/pub/kepler/lightcurves/0053/005364071/kplr005364071-2009166043257_llc.fits",
        "Q1 LLC. Confirmed planet. Not a moon host in this crate.",
    ),
    (
        "Kepler-49 c",
        5_364_071,
        Mission::Kepler,
        "lightcurves/kepler49b_kic5364071_q1_llc.csv",
        "https://archive.stsci.edu/pub/kepler/lightcurves/0053/005364071/kplr005364071-2009166043257_llc.fits",
        "Same Q1 LLC as Kepler-49 b (KIC 5364071). Not a moon.",
    ),
    (
        "Kepler-75 b",
        757_450,
        Mission::Kepler,
        "lightcurves/kepler75b_kic757450_q1_llc.csv",
        "https://archive.stsci.edu/pub/kepler/lightcurves/0007/000757450/kplr000757450-2009166043257_llc.fits",
        "Q1 LLC. Confirmed planet. Not a moon host in this crate.",
    ),
    (
        "Kepler-83 b",
        7_870_390,
        Mission::Kepler,
        "lightcurves/kepler83b_kic7870390_q1_llc.csv",
        "https://archive.stsci.edu/pub/kepler/lightcurves/0078/007870390/kplr007870390-2009166043257_llc.fits",
        "Q1 LLC. Confirmed planet. Not a moon host in this crate.",
    ),
    (
        "Kepler-83 c",
        7_870_390,
        Mission::Kepler,
        "lightcurves/kepler83b_kic7870390_q1_llc.csv",
        "https://archive.stsci.edu/pub/kepler/lightcurves/0078/007870390/kplr007870390-2009166043257_llc.fits",
        "Same Q1 LLC as Kepler-83 b (KIC 7870390). Not a moon.",
    ),
    (
        "Kepler-83 d",
        7_870_390,
        Mission::Kepler,
        "lightcurves/kepler83b_kic7870390_q1_llc.csv",
        "https://archive.stsci.edu/pub/kepler/lightcurves/0078/007870390/kplr007870390-2009166043257_llc.fits",
        "Same Q1 LLC as Kepler-83 b (KIC 7870390). Not a moon.",
    ),
    (
        "Kepler-39 b",
        9_478_990,
        Mission::Kepler,
        "lightcurves/kepler39b_kic9478990_q1_llc.csv",
        "https://archive.stsci.edu/pub/kepler/lightcurves/0094/009478990/kplr009478990-2009166043257_llc.fits",
        "Q1 LLC. Confirmed planet. Not a moon host in this crate.",
    ),
    (
        "Kepler-40 b",
        10_418_224,
        Mission::Kepler,
        "lightcurves/kepler40b_kic10418224_q1_llc.csv",
        "https://archive.stsci.edu/pub/kepler/lightcurves/0104/010418224/kplr010418224-2009166043257_llc.fits",
        "Q1 LLC. Confirmed planet. Not a moon host in this crate.",
    ),
    (
        "Kepler-45 b",
        5_794_240,
        Mission::Kepler,
        "lightcurves/kepler45b_kic5794240_q1_llc.csv",
        "https://archive.stsci.edu/pub/kepler/lightcurves/0057/005794240/kplr005794240-2009166043257_llc.fits",
        "Q1 LLC. Confirmed planet. Not a moon host in this crate.",
    ),
    (
        "Kepler-46 b",
        7_109_675,
        Mission::Kepler,
        "lightcurves/kepler46b_kic7109675_q1_llc.csv",
        "https://archive.stsci.edu/pub/kepler/lightcurves/0071/007109675/kplr007109675-2009166043257_llc.fits",
        "Q1 LLC. Confirmed planet. Not a moon host in this crate.",
    ),
    (
        "Kepler-63 b",
        11_554_435,
        Mission::Kepler,
        "lightcurves/kepler63b_kic11554435_q1_llc.csv",
        "https://archive.stsci.edu/pub/kepler/lightcurves/0115/011554435/kplr011554435-2009166043257_llc.fits",
        "Q1 LLC. Confirmed planet. Not a moon host in this crate.",
    ),
    (
        "Kepler-82 b",
        7_366_258,
        Mission::Kepler,
        "lightcurves/kepler82b_kic7366258_q1_llc.csv",
        "https://archive.stsci.edu/pub/kepler/lightcurves/0073/007366258/kplr007366258-2009166043257_llc.fits",
        "Q1 LLC. Confirmed planet. Not a moon host in this crate.",
    ),
    (
        "Kepler-82 d",
        7_366_258,
        Mission::Kepler,
        "lightcurves/kepler82b_kic7366258_q1_llc.csv",
        "https://archive.stsci.edu/pub/kepler/lightcurves/0073/007366258/kplr007366258-2009166043257_llc.fits",
        "Same Q1 LLC as Kepler-82 b (KIC 7366258). Not a moon.",
    ),
    (
        "Kepler-82 e",
        7_366_258,
        Mission::Kepler,
        "lightcurves/kepler82b_kic7366258_q1_llc.csv",
        "https://archive.stsci.edu/pub/kepler/lightcurves/0073/007366258/kplr007366258-2009166043257_llc.fits",
        "Same Q1 LLC as Kepler-82 b (KIC 7366258). Not a moon.",
    ),
    (
        "Kepler-91 b",
        8_219_268,
        Mission::Kepler,
        "lightcurves/kepler91b_kic8219268_q1_llc.csv",
        "https://archive.stsci.edu/pub/kepler/lightcurves/0082/008219268/kplr008219268-2009166043257_llc.fits",
        "Q1 LLC. Confirmed planet. Not a moon host in this crate.",
    ),
    (
        "Kepler-96 b",
        5_383_248,
        Mission::Kepler,
        "lightcurves/kepler96b_kic5383248_q1_llc.csv",
        "https://archive.stsci.edu/pub/kepler/lightcurves/0053/005383248/kplr005383248-2009166043257_llc.fits",
        "Q1 LLC. Confirmed planet. Not a moon host in this crate.",
    ),
    (
        "Kepler-97 b",
        11_075_737,
        Mission::Kepler,
        "lightcurves/kepler97b_kic11075737_q1_llc.csv",
        "https://archive.stsci.edu/pub/kepler/lightcurves/0110/011075737/kplr011075737-2009166043257_llc.fits",
        "Q1 LLC. Confirmed planet. Not a moon host in this crate.",
    ),
    (
        "Kepler-98 b",
        2_692_377,
        Mission::Kepler,
        "lightcurves/kepler98b_kic2692377_q1_llc.csv",
        "https://archive.stsci.edu/pub/kepler/lightcurves/0026/002692377/kplr002692377-2009166043257_llc.fits",
        "Q1 LLC. Confirmed planet. Not a moon host in this crate.",
    ),
    (
        "Kepler-99 b",
        6_063_220,
        Mission::Kepler,
        "lightcurves/kepler99b_kic6063220_q1_llc.csv",
        "https://archive.stsci.edu/pub/kepler/lightcurves/0060/006063220/kplr006063220-2009166043257_llc.fits",
        "Q1 LLC. Confirmed planet. Not a moon host in this crate.",
    ),
    (
        "Kepler-101 b",
        10_905_239,
        Mission::Kepler,
        "lightcurves/kepler101b_kic10905239_q1_llc.csv",
        "https://archive.stsci.edu/pub/kepler/lightcurves/0109/010905239/kplr010905239-2009166043257_llc.fits",
        "Q1 LLC. Confirmed planet. Not a moon host in this crate.",
    ),
    (
        "Kepler-101 c",
        10_905_239,
        Mission::Kepler,
        "lightcurves/kepler101b_kic10905239_q1_llc.csv",
        "https://archive.stsci.edu/pub/kepler/lightcurves/0109/010905239/kplr010905239-2009166043257_llc.fits",
        "Same Q1 LLC as Kepler-101 b (KIC 10905239). Not a moon.",
    ),
    (
        "Kepler-103 b",
        4_914_423,
        Mission::Kepler,
        "lightcurves/kepler103b_kic4914423_q1_llc.csv",
        "https://archive.stsci.edu/pub/kepler/lightcurves/0049/004914423/kplr004914423-2009166043257_llc.fits",
        "Q1 LLC. Confirmed planet. Not a moon host in this crate.",
    ),
    (
        "Kepler-104 b",
        6_678_383,
        Mission::Kepler,
        "lightcurves/kepler104b_kic6678383_q1_llc.csv",
        "https://archive.stsci.edu/pub/kepler/lightcurves/0066/006678383/kplr006678383-2009166043257_llc.fits",
        "Q1 LLC. Confirmed planet. Not a moon host in this crate.",
    ),
    (
        "Kepler-104 c",
        6_678_383,
        Mission::Kepler,
        "lightcurves/kepler104b_kic6678383_q1_llc.csv",
        "https://archive.stsci.edu/pub/kepler/lightcurves/0066/006678383/kplr006678383-2009166043257_llc.fits",
        "Same Q1 LLC as Kepler-104 b (KIC 6678383). Not a moon.",
    ),
    (
        "Kepler-105 b",
        9_579_641,
        Mission::Kepler,
        "lightcurves/kepler105b_kic9579641_q1_llc.csv",
        "https://archive.stsci.edu/pub/kepler/lightcurves/0095/009579641/kplr009579641-2009166043257_llc.fits",
        "Q1 LLC. Confirmed planet. Not a moon host in this crate.",
    ),
    (
        "Kepler-105 c",
        9_579_641,
        Mission::Kepler,
        "lightcurves/kepler105b_kic9579641_q1_llc.csv",
        "https://archive.stsci.edu/pub/kepler/lightcurves/0095/009579641/kplr009579641-2009166043257_llc.fits",
        "Same Q1 LLC as Kepler-105 b (KIC 9579641). Not a moon.",
    ),
    (
        "Kepler-106 b",
        8_395_660,
        Mission::Kepler,
        "lightcurves/kepler106b_kic8395660_q1_llc.csv",
        "https://archive.stsci.edu/pub/kepler/lightcurves/0083/008395660/kplr008395660-2009166043257_llc.fits",
        "Q1 LLC. Confirmed planet. Not a moon host in this crate.",
    ),
    (
        "Kepler-106 c",
        8_395_660,
        Mission::Kepler,
        "lightcurves/kepler106b_kic8395660_q1_llc.csv",
        "https://archive.stsci.edu/pub/kepler/lightcurves/0083/008395660/kplr008395660-2009166043257_llc.fits",
        "Same Q1 LLC as Kepler-106 b (KIC 8395660). Not a moon.",
    ),
    (
        "Kepler-106 d",
        8_395_660,
        Mission::Kepler,
        "lightcurves/kepler106b_kic8395660_q1_llc.csv",
        "https://archive.stsci.edu/pub/kepler/lightcurves/0083/008395660/kplr008395660-2009166043257_llc.fits",
        "Same Q1 LLC as Kepler-106 b (KIC 8395660). Not a moon.",
    ),
    (
        "Kepler-106 e",
        8_395_660,
        Mission::Kepler,
        "lightcurves/kepler106b_kic8395660_q1_llc.csv",
        "https://archive.stsci.edu/pub/kepler/lightcurves/0083/008395660/kplr008395660-2009166043257_llc.fits",
        "Same Q1 LLC as Kepler-106 b (KIC 8395660). Not a moon.",
    ),
    (
        "Kepler-107 b",
        10_875_245,
        Mission::Kepler,
        "lightcurves/kepler107b_kic10875245_q1_llc.csv",
        "https://archive.stsci.edu/pub/kepler/lightcurves/0108/010875245/kplr010875245-2009166043257_llc.fits",
        "Q1 LLC. Confirmed planet. Not a moon host in this crate.",
    ),
    (
        "Kepler-107 c",
        10_875_245,
        Mission::Kepler,
        "lightcurves/kepler107b_kic10875245_q1_llc.csv",
        "https://archive.stsci.edu/pub/kepler/lightcurves/0108/010875245/kplr010875245-2009166043257_llc.fits",
        "Same Q1 LLC as Kepler-107 b (KIC 10875245). Not a moon.",
    ),
    (
        "Kepler-107 d",
        10_875_245,
        Mission::Kepler,
        "lightcurves/kepler107b_kic10875245_q1_llc.csv",
        "https://archive.stsci.edu/pub/kepler/lightcurves/0108/010875245/kplr010875245-2009166043257_llc.fits",
        "Same Q1 LLC as Kepler-107 b (KIC 10875245). Not a moon.",
    ),
    (
        "Kepler-107 e",
        10_875_245,
        Mission::Kepler,
        "lightcurves/kepler107b_kic10875245_q1_llc.csv",
        "https://archive.stsci.edu/pub/kepler/lightcurves/0108/010875245/kplr010875245-2009166043257_llc.fits",
        "Same Q1 LLC as Kepler-107 b (KIC 10875245). Not a moon.",
    ),
    (
        "Kepler-13 b",
        9_941_662,
        Mission::Kepler,
        "lightcurves/kepler13b_kic9941662_q1_llc.csv",
        "https://archive.stsci.edu/pub/kepler/lightcurves/0099/009941662/kplr009941662-2009166043257_llc.fits",
        "Q1 LLC. Confirmed planet. Not a moon host in this crate.",
    ),
    (
        "Kepler-14 b",
        10_264_660,
        Mission::Kepler,
        "lightcurves/kepler14b_kic10264660_q1_llc.csv",
        "https://archive.stsci.edu/pub/kepler/lightcurves/0102/010264660/kplr010264660-2009166043257_llc.fits",
        "Q1 LLC. Confirmed planet. Not a moon host in this crate.",
    ),
    (
        "Kepler-15 b",
        11_359_879,
        Mission::Kepler,
        "lightcurves/kepler15b_kic11359879_q1_llc.csv",
        "https://archive.stsci.edu/pub/kepler/lightcurves/0113/011359879/kplr011359879-2009166043257_llc.fits",
        "Q1 LLC. Confirmed planet. Not a moon host in this crate.",
    ),
    (
        "Kepler-17 b",
        10_619_192,
        Mission::Kepler,
        "lightcurves/kepler17b_kic10619192_q1_llc.csv",
        "https://archive.stsci.edu/pub/kepler/lightcurves/0106/010619192/kplr010619192-2009166043257_llc.fits",
        "Q1 LLC. Confirmed planet. Not a moon host in this crate.",
    ),
    (
        "Kepler-71 b",
        9_595_827,
        Mission::Kepler,
        "lightcurves/kepler71b_kic9595827_q1_llc.csv",
        "https://archive.stsci.edu/pub/kepler/lightcurves/0095/009595827/kplr009595827-2009166043257_llc.fits",
        "Q1 LLC. Confirmed planet. Not a moon host in this crate.",
    ),
    (
        "Kepler-77 b",
        8_359_498,
        Mission::Kepler,
        "lightcurves/kepler77b_kic8359498_q1_llc.csv",
        "https://archive.stsci.edu/pub/kepler/lightcurves/0083/008359498/kplr008359498-2009166043257_llc.fits",
        "Q1 LLC. Confirmed planet. Not a moon host in this crate.",
    ),
    (
        "Kepler-108 b",
        9_471_974,
        Mission::Kepler,
        "lightcurves/kepler108b_kic9471974_q1_llc.csv",
        "https://archive.stsci.edu/pub/kepler/lightcurves/0094/009471974/kplr009471974-2009166043257_llc.fits",
        "Q1 LLC. Confirmed planet. Not a moon host in this crate.",
    ),
    (
        "Kepler-109 b",
        5_094_751,
        Mission::Kepler,
        "lightcurves/kepler109b_kic5094751_q1_llc.csv",
        "https://archive.stsci.edu/pub/kepler/lightcurves/0050/005094751/kplr005094751-2009166043257_llc.fits",
        "Q1 LLC. Confirmed planet. Not a moon host in this crate.",
    ),
    (
        "Kepler-110 b",
        11_086_270,
        Mission::Kepler,
        "lightcurves/kepler110b_kic11086270_q1_llc.csv",
        "https://archive.stsci.edu/pub/kepler/lightcurves/0110/011086270/kplr011086270-2009166043257_llc.fits",
        "Q1 LLC. Confirmed planet. Not a moon host in this crate.",
    ),
    (
        "Kepler-111 b",
        8_559_644,
        Mission::Kepler,
        "lightcurves/kepler111b_kic8559644_q1_llc.csv",
        "https://archive.stsci.edu/pub/kepler/lightcurves/0085/008559644/kplr008559644-2009166043257_llc.fits",
        "Q1 LLC. Confirmed planet. Not a moon host in this crate.",
    ),
    (
        "Kepler-112 b",
        7_626_506,
        Mission::Kepler,
        "lightcurves/kepler112b_kic7626506_q1_llc.csv",
        "https://archive.stsci.edu/pub/kepler/lightcurves/0076/007626506/kplr007626506-2009166043257_llc.fits",
        "Q1 LLC. Confirmed planet. Not a moon host in this crate.",
    ),
    (
        "Kepler-113 b",
        12_252_424,
        Mission::Kepler,
        "lightcurves/kepler113b_kic12252424_q1_llc.csv",
        "https://archive.stsci.edu/pub/kepler/lightcurves/0122/012252424/kplr012252424-2009166043257_llc.fits",
        "Q1 LLC. Confirmed planet. Not a moon host in this crate.",
    ),
    (
        "Kepler-114 b",
        10_925_104,
        Mission::Kepler,
        "lightcurves/kepler114b_kic10925104_q1_llc.csv",
        "https://archive.stsci.edu/pub/kepler/lightcurves/0109/010925104/kplr010925104-2009166043257_llc.fits",
        "Q1 LLC. Confirmed planet. Not a moon host in this crate.",
    ),
    (
        "Kepler-114 c",
        10_925_104,
        Mission::Kepler,
        "lightcurves/kepler114b_kic10925104_q1_llc.csv",
        "https://archive.stsci.edu/pub/kepler/lightcurves/0109/010925104/kplr010925104-2009166043257_llc.fits",
        "Same Q1 LLC as Kepler-114 b (KIC 10925104). Not a moon.",
    ),
    (
        "Kepler-115 b",
        8_972_058,
        Mission::Kepler,
        "lightcurves/kepler115b_kic8972058_q1_llc.csv",
        "https://archive.stsci.edu/pub/kepler/lightcurves/0089/008972058/kplr008972058-2009166043257_llc.fits",
        "Q1 LLC. Confirmed planet. Not a moon host in this crate.",
    ),
    (
        "Kepler-115 c",
        8_972_058,
        Mission::Kepler,
        "lightcurves/kepler115b_kic8972058_q1_llc.csv",
        "https://archive.stsci.edu/pub/kepler/lightcurves/0089/008972058/kplr008972058-2009166043257_llc.fits",
        "Same Q1 LLC as Kepler-115 b (KIC 8972058). Not a moon.",
    ),
    (
        "Kepler-116 b",
        7_831_264,
        Mission::Kepler,
        "lightcurves/kepler116b_kic7831264_q1_llc.csv",
        "https://archive.stsci.edu/pub/kepler/lightcurves/0078/007831264/kplr007831264-2009166043257_llc.fits",
        "Q1 LLC. Confirmed planet. Not a moon host in this crate.",
    ),
    (
        "Kepler-116 c",
        7_831_264,
        Mission::Kepler,
        "lightcurves/kepler116b_kic7831264_q1_llc.csv",
        "https://archive.stsci.edu/pub/kepler/lightcurves/0078/007831264/kplr007831264-2009166043257_llc.fits",
        "Same Q1 LLC as Kepler-116 b (KIC 7831264). Not a moon.",
    ),
    (
        "Kepler-117 b",
        10_723_750,
        Mission::Kepler,
        "lightcurves/kepler117b_kic10723750_q1_llc.csv",
        "https://archive.stsci.edu/pub/kepler/lightcurves/0107/010723750/kplr010723750-2009166043257_llc.fits",
        "Q1 LLC. Confirmed planet. Not a moon host in this crate.",
    ),
    (
        "Kepler-117 c",
        10_723_750,
        Mission::Kepler,
        "lightcurves/kepler117b_kic10723750_q1_llc.csv",
        "https://archive.stsci.edu/pub/kepler/lightcurves/0107/010723750/kplr010723750-2009166043257_llc.fits",
        "Same Q1 LLC as Kepler-117 b (KIC 10723750). Not a moon.",
    ),
];

/// The spec of every cached extract, in order.
pub fn cached_specs() -> (r: Vec<LightCurveSpec>)
    ensures
        r@.len() == 217,
        forall|i: int| 0 <= i < 217 ==> #[trigger] r@[i] == extract_spec(CACHED_EXTRACTS[i]),
        forall|i: int| 0 <= i < r@.len() ==> spec_rules(#[trigger] r@[i]),
{
    let mut r: Vec<LightCurveSpec> = Vec::new();
    let mut i: usize = 0;
    while i < 217
        invariant
            i <= 217,
            r@.len() == i,
            forall|j: int| 0 <= j < i ==> #[trigger] r@[j] == extract_spec(CACHED_EXTRACTS[j]),
            forall|j: int| 0 <= j < i ==> spec_rules(#[trigger] r@[j]),
        decreases 217 - i,
    {
        let s = extract(CACHED_EXTRACTS[i]);
        proof {
            extracts_follow_rules(CACHED_EXTRACTS[i as int]);
        }
        r.push(s);
        i = i + 1;
    }
    r
}

/// The middle `n` items when there are more than `n`, else all of them.
pub open spec fn mid_window<T>(rows: Seq<T>, n: Option<usize>) -> Seq<T> {
    match n {
        Some(k) => if rows.len() > k {
            let start = (rows.len() - k) / 2;
            rows.subrange(start, start + k)
        } else {
            rows
        },
        None => rows,
    }
}

/// The extract of a file longer than `k` rows is `k` consecutive rows from
/// its middle: as many rows are dropped before the window as after it, or
/// one fewer. A file of at most `k` rows, or a spec without a cut, is kept
/// whole.
pub proof fn mid_window_is_centred<T>(rows: Seq<T>, n: Option<usize>)
    ensures
        n is None ==> mid_window(rows, n) == rows,
        n is Some && rows.len() <= n->Some_0 ==> mid_window(rows, n) == rows,
        n is Some && rows.len() > n->Some_0 ==> mid_window(rows, n).len() == n->Some_0 && exists|
            before: int,
        |
            {
                let after = rows.len() - n->Some_0 - before;
                &&& 0 <= before <= after <= before + 1
                &&& mid_window(rows, n) == #[trigger] rows.subrange(before, before + n->Some_0)
            },
{
    if n is Some && rows.len() > n->Some_0 {
        let k = n->Some_0;
        let s = (rows.len() - k) / 2;
        assert(0 <= s <= rows.len() - k - s <= s + 1);
        assert(mid_window(rows, n) == rows.subrange(s, s + k));
    }
}

/// Keep the middle `n` rows of a large extract.
pub fn extract_mid_points<T: Copy>(rows: Vec<T>, n: Option<usize>) -> (r: Vec<T>)
    ensures
        r@ == mid_window(rows@, n),
{
    match n {
        Some(k) => {
            if rows.len() > k {
                let start = (rows.len() - k) / 2;
                let mut out: Vec<T> = Vec::new();
                let mut i = start;
                while i < start + k
                    invariant
                        start + k <= rows.len(),
                        start <= i <= start + k,
                        out@ == rows@.subrange(start as int, i as int),
                    decreases start + k - i,
                {
                    out.push(rows[i]);
                    assert(rows@.subrange(start as int, i + 1) == rows@.subrange(start as int, i as int).push(rows@[i as int]));
                    i = i + 1;
                }
                out
            } else {
                rows
            }
        },
        None => rows,
    }
}

/// The rows a downloaded FITS file gives the extract of `spec`: its finite
/// samples with positive flux, cut to the middle window that `spec` keeps.
/// TIME is left as the file has it; the caller adds `spec.time_offset_days`.
pub fn spec_rows(data: &[u8], spec: &LightCurveSpec) -> (r: Result<Vec<LlcRow>, ExoError>)
    ensures
        match llc_spec(data@) {
            Ok(rows) => r matches Ok(v) && v@ == mid_window(rows, spec.extract_mid_points),
            Err(m) => r matches Err(e) && is_parse_error(e, m),
        },
{
    let rows = parse_llc_fits(data)?;
    Ok(extract_mid_points(rows, spec.extract_mid_points))
}

} // verus!
