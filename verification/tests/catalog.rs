use exo_planets::holdout::find_host_planet;
use exo_planets::catalog::{
    keeps_unmatched_ps, merge_ps_onto_koi, Catalog, CatalogPlanet, CatalogSource, KOI_CACHE_FILES,
    PS_CACHE_FILES,
};

fn planet(name: &str, source: CatalogSource, period: f64) -> CatalogPlanet<f64> {
    CatalogPlanet {
        id: name.to_string(),
        name: name.to_string(),
        source,
        period_days: period,
        rp_earth: None,
        mp_earth: None,
        mp_is_upper_limit: false,
        a_au: None,
        impact_b: None,
        duration_hr: None,
        depth_ppm: None,
        incl_deg: None,
        rstar_rsun: None,
        mstar_msun: None,
        teff_k: None,
        disposition: None,
        kepid: None,
        epoch_bkjd: None,
    }
}

fn period_key(p: f64) -> u64 {
    let b = p.to_bits();
    if b >> 63 == 1 {
        !b
    } else {
        b | (1 << 63)
    }
}

#[test]
fn merge_fills_only_empty_fields() {
    let mut koi = planet("Kepler-10 b", CatalogSource::KoiCumulative, 0.837);
    koi.a_au = Some(0.0169);
    let mut ps = planet("Kepler-10 b", CatalogSource::PlanetarySystems, 0.8375);
    ps.a_au = Some(0.02);
    ps.mp_earth = Some(3.26);
    ps.mp_is_upper_limit = true;
    ps.incl_deg = Some(85.0);
    ps.rp_earth = Some(1.47);
    ps.kepid = Some(11904151);
    merge_ps_onto_koi(&mut koi, &ps);
    assert_eq!(koi.a_au, Some(0.0169));
    assert_eq!(koi.mp_earth, Some(3.26));
    assert!(koi.mp_is_upper_limit);
    assert_eq!(koi.incl_deg, Some(85.0));
    assert_eq!(koi.kepid, Some(11904151));
    assert_eq!(koi.rp_earth, None);
    assert_eq!(koi.period_days, 0.837);
    assert_eq!(koi.source, CatalogSource::KoiCumulative);
}

#[test]
fn mass_limit_flag_travels_with_the_mass() {
    let mut koi = planet("Kepler-1708 b", CatalogSource::KoiCumulative, 737.1);
    koi.mp_earth = Some(4.6);
    let mut ps = planet("Kepler-1708 b", CatalogSource::PlanetarySystems, 737.1);
    ps.mp_earth = Some(1000.0);
    ps.mp_is_upper_limit = true;
    merge_ps_onto_koi(&mut koi, &ps);
    assert_eq!(koi.mp_earth, Some(4.6));
    assert!(!koi.mp_is_upper_limit);
}

#[test]
fn first_koi_row_of_a_name_wins() {
    let mut cat: Catalog<f64> = Catalog::new();
    cat.add_koi(planet("Kepler-22 b", CatalogSource::KoiCumulative, 289.86));
    cat.add_koi(planet("Kepler-22 b", CatalogSource::KoiCumulative, 1.0));
    assert_eq!(cat.planets().len(), 1);
    assert_eq!(cat.planets()[0].period_days, 289.86);
    assert_eq!(cat.index_of("Kepler-22 b"), Some(0));
    assert_eq!(cat.index_of("Kepler-22 c"), None);
}

#[test]
fn ps_rows_merge_join_or_drop() {
    let mut cat: Catalog<f64> = Catalog::new();
    cat.add_koi(planet("Kepler-10 b", CatalogSource::KoiCumulative, 0.837));
    let mut ps = planet("Kepler-10 b", CatalogSource::PlanetarySystems, 0.8375);
    ps.mp_earth = Some(3.26);
    cat.add_ps(ps, false);
    assert_eq!(cat.planets().len(), 1);
    assert_eq!(cat.planets()[0].mp_earth, Some(3.26));
    assert_eq!(cat.planets()[0].source, CatalogSource::KoiCumulative);
    cat.add_ps(planet("Kepler-99 b", CatalogSource::PlanetarySystems, 4.6), false);
    assert_eq!(cat.planets().len(), 1);
    cat.add_ps(planet("K2-3 b", CatalogSource::PlanetarySystems, 10.05), true);
    assert_eq!(cat.planets().len(), 2);
    cat.add_ps(planet("Kepler-1708 b", CatalogSource::PlanetarySystems, 737.1), false);
    assert_eq!(cat.planets().len(), 3);
    assert_eq!(cat.index_of("Kepler-1708 b"), Some(2));
}

#[test]
fn unmatched_ps_rows_kept_for_named_and_k2_files() {
    assert!(keeps_unmatched_ps(PS_CACHE_FILES[0]));
    assert!(!keeps_unmatched_ps(PS_CACHE_FILES[1]));
    assert!(keeps_unmatched_ps(PS_CACHE_FILES[2]));
    assert_eq!(KOI_CACHE_FILES.len(), 4);
    assert_eq!(KOI_CACHE_FILES[0], "nasa_koi_confirmed_geometry_sample.csv");
}

#[test]
fn sorted_by_period_then_name() {
    let mut cat: Catalog<f64> = Catalog::new();
    cat.add_koi(planet("c", CatalogSource::KoiCumulative, 10.0));
    cat.add_koi(planet("b", CatalogSource::KoiCumulative, 2.5));
    cat.add_koi(planet("a", CatalogSource::KoiCumulative, 10.0));
    cat.add_koi(planet("d", CatalogSource::KoiCumulative, 0.5));
    let keys: Vec<u64> = cat.planets().iter().map(|p| period_key(p.period_days)).collect();
    let sorted = cat.into_sorted(&keys);
    let names: Vec<&str> = sorted.iter().map(|p| p.name.as_str()).collect();
    assert_eq!(names, vec!["d", "b", "a", "c"]);
}

#[test]
fn holdout_host_method_trims_and_ignores_case() {
    assert!(planet(" kepler-167 E ", CatalogSource::KoiCumulative, 1.0).is_holdout_host());
    assert!(!planet("Kepler-167 f", CatalogSource::KoiCumulative, 1.0).is_holdout_host());
}

#[test]
fn host_lookup_ignores_ascii_case_and_takes_the_first() {
    let planets = vec![
        planet("Kepler-10 b", CatalogSource::KoiCumulative, 0.8),
        planet("KEPLER-1625 B", CatalogSource::KoiCumulative, 287.4),
        planet("Kepler-1625 b", CatalogSource::PlanetarySystems, 287.4),
    ];
    assert_eq!(find_host_planet(&planets, "Kepler-1625 b"), Some(1));
    assert_eq!(find_host_planet(&planets, "kepler-10 B"), Some(0));
    assert_eq!(find_host_planet(&planets, " Kepler-10 b"), None);
    assert_eq!(find_host_planet(&planets, "Kepler-90 g"), None);
}
