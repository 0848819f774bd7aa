use exo_planets::columbia1625::{columbia_1625_skip, COLUMBIA_DOI};
use exo_planets::error::ExoError;
use exo_planets::holdout::locked_cards;
use exo_planets::jwst_search::{
    caom_json_has_kepler167, check_fixture_writable, check_mast_answer, check_search_fixture, is_search_status,
    mast_caom_request, GO6491_DOI,
};

#[test]
fn columbia_1625_skipped_candidate_unconfirmed() {
    let skip = columbia_1625_skip();
    assert!(!skip.cached);
    assert_eq!(skip.status, "CANDIDATE");
    assert_eq!(skip.object_id, "Kepler-1625b-i");
    assert!(skip.note.contains("unconfirmed"));
    assert!(skip.note.contains("CANDIDATE"));
    assert!(skip.http_notes.iter().any(|n| n.contains("404")));
    assert!(skip.http_notes.iter().any(|n| n.contains("Anubis")));
}

#[test]
fn columbia_skip_names_its_doi_and_download_attempt() {
    let skip = columbia_1625_skip();
    assert_eq!(skip.doi, COLUMBIA_DOI);
    assert_eq!(skip.host_planet, "Kepler-1625 b");
    assert_eq!(skip.http_notes.len(), 3);
    assert_eq!(
        skip.http_notes[2],
        "https://academiccommons.columbia.edu/doi/10.7916/D8795NHS/download \u{2192} HTTP 404"
    );
}

#[test]
fn locked_cards_expose_product_honesty() {
    let cards = locked_cards();
    let jwst = cards.iter().find(|c| c.object_id.contains("6491")).unwrap();
    assert!(!jwst.jwst_photometry_cached);
    assert_eq!(jwst.jwst_doi.as_deref(), Some("10.17909/e50n-4y96"));
    let k1625 = cards
        .iter()
        .find(|c| c.object_id == "Kepler-1625b-i")
        .unwrap();
    assert!(!k1625.columbia_product_cached);
}

#[test]
fn search_status_ignores_ascii_case_only() {
    assert!(is_search_status("SEARCH"));
    assert!(is_search_status("search"));
    assert!(is_search_status("SeArCh"));
    assert!(!is_search_status(" SEARCH"));
    assert!(!is_search_status("SEARCHING"));
    assert!(!is_search_status("CANDIDATE"));
}

#[test]
fn fixture_checks_refuse_photometry_and_other_statuses() {
    assert!(check_search_fixture(false, "SEARCH").is_ok());
    match check_search_fixture(true, "SEARCH") {
        Err(ExoError::Parse(m)) => assert_eq!(m, "GO 6491 fixture must not cache JWST photometry"),
        other => panic!("unexpected {:?}", other),
    }
    match check_search_fixture(false, "CANDIDATE") {
        Err(ExoError::Parse(m)) => assert_eq!(m, "GO 6491 fixture status must stay SEARCH"),
        other => panic!("unexpected {:?}", other),
    }
    assert!(check_fixture_writable(false, "search").is_ok());
    for (cached, status) in [(true, "SEARCH"), (false, "DETECTION")] {
        match check_fixture_writable(cached, status) {
            Err(ExoError::Parse(m)) => assert_eq!(
                m,
                "refusing to write a GO 6491 fixture that is not SEARCH / photometry-free"
            ),
            other => panic!("unexpected {:?}", other),
        }
    }
}

#[test]
fn caom_request_and_answer_check() {
    let req = mast_caom_request();
    assert!(req.starts_with("{\"service\":\"Mast.Caom.Filtered\""));
    assert!(req.contains("\"values\":[\"6491\"]"));
    assert!(req.ends_with("\"pagesize\":20}"));
    assert!(caom_json_has_kepler167("{\"target_name\":\"Kepler-167\",\"proposal_id\":\"6491\"}"));
    assert!(!caom_json_has_kepler167("{\"target_name\":\"Kepler-167\"}"));
    assert!(!caom_json_has_kepler167("{\"proposal_id\":\"6491\"}"));
    assert_eq!(GO6491_DOI, "10.17909/e50n-4y96");
}

#[test]
fn mast_answer_must_name_kepler167() {
    assert!(check_mast_answer("{\"data\":[{\"target_name\":\"Kepler-167\"}]}").is_ok());
    match check_mast_answer("{\"data\":[]}") {
        Err(ExoError::Http(m)) => {
            assert_eq!(m, "MAST GO 6491 response missing Kepler-167 (cache kept)")
        }
        other => panic!("unexpected {:?}", other),
    }
}
