use exo_planets::lightcurve::{
    cached_specs, extract_mid_points, Mission, CACHED_EXTRACTS, TESS_BTJD_TO_BKJD_DAYS,
};

#[test]
fn tess_btjd_to_bkjd_offset_is_2167() {
    assert!((TESS_BTJD_TO_BKJD_DAYS as f64 - 2167.0).abs() < 1e-9);
}

#[test]
fn cached_specs_follow_mission_rules() {
    let specs = cached_specs();
    assert_eq!(specs.len(), 217);
    for s in &specs {
        if s.mission == "TESS" {
            assert_eq!(s.time_offset_days, 2167);
            assert_eq!(s.extract_mid_points, Some(2500));
        } else {
            assert_eq!(s.time_offset_days, 0);
            assert_eq!(s.extract_mid_points, None);
        }
    }
    assert!(specs.iter().any(|s| s.name == "Kepler-10 b" && s.mission == "TESS"));
    assert!(specs.iter().any(|s| s.name == "K2-18 b" && s.mission == "K2"));
}

#[test]
fn mid_window_keeps_the_middle() {
    let rows: Vec<u32> = (0..10).collect();
    assert_eq!(extract_mid_points(rows.clone(), Some(4)), vec![3, 4, 5, 6]);
    assert_eq!(extract_mid_points(rows.clone(), Some(3)), vec![3, 4, 5]);
    assert_eq!(extract_mid_points(rows.clone(), Some(10)), rows);
    assert_eq!(extract_mid_points(rows.clone(), Some(20)), rows);
    assert_eq!(extract_mid_points(rows.clone(), None), rows);
    assert_eq!(extract_mid_points(rows.clone(), Some(0)), Vec::<u32>::new());
}

#[test]
fn cached_specs_follow_the_table() {
    let specs = cached_specs();
    for (s, e) in specs.iter().zip(CACHED_EXTRACTS.iter()) {
        assert_eq!(s.name, e.0);
        assert_eq!(s.target_id, e.1);
        assert_eq!(s.cache_csv, e.3);
        assert_eq!(s.source_url, e.4);
        assert_eq!(s.note, e.5);
        let (kind, mission, cadence) = match e.2 {
            Mission::Kepler => ("KIC", "Kepler", "long"),
            Mission::K2 => ("EPIC", "K2", "long"),
            Mission::Tess => ("TIC", "TESS", "2-min"),
        };
        assert_eq!((s.id_kind, s.mission, s.cadence), (kind, mission, cadence));
    }
    assert_eq!(specs[0].name, "Kepler-10 b");
    assert_eq!(specs[0].target_id, 11_904_151);
    assert!(specs.iter().all(|s| s.source_url.starts_with("https://archive.stsci.edu/")));
    assert!(specs.iter().all(|s| s.cache_csv.starts_with("lightcurves/")));
}

#[test]
fn source_listed_q1_extracts_are_cached() {
    let specs = cached_specs();
    for name in [
        "Kepler-26 b", "Kepler-26 c", "Kepler-26 d", "Kepler-32 b", "Kepler-32 f", "Kepler-33 b",
        "Kepler-33 f", "Kepler-186 b", "Kepler-186 e", "Kepler-80 c", "Kepler-117 c",
    ] {
        let s = specs.iter().find(|s| s.name == name).unwrap_or_else(|| panic!("missing {name}"));
        assert_eq!(s.mission, "Kepler");
        assert!(s.source_url.ends_with("-2009166043257_llc.fits"), "{name} is a Q1 file");
    }
    let k26c = specs.iter().find(|s| s.name == "Kepler-26 c").unwrap();
    assert_eq!(k26c.cache_csv, "lightcurves/kepler26b_kic9757613_q1_llc.csv");
    assert_eq!(k26c.target_id, 9_757_613);
    let k80e = specs.iter().find(|s| s.name == "Kepler-80 e").unwrap();
    assert_eq!(k80e.cache_csv, "lightcurves/kepler80d_kic4852528_q1_llc.csv");
}
