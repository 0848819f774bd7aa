use exo_planets::holdout::{feature_index, holdout_scoring, locked_cards, ScoreInput};
use exo_planets::labels::{
    is_holdout_host, locked_holdout_status, row_target, ExampleKind, HoldoutStatus, Split, TrainTarget,
    HOLDOUT_HOSTS, HOLDOUT_OBJECTS,
};

#[test]
fn locked_scorecards_do_not_upgrade() {
    let cards = locked_cards();
    assert_eq!(cards.len(), 4);
    assert_eq!(
        cards
            .iter()
            .find(|c| c.object_id == "Kepler-1625b-i")
            .unwrap()
            .status,
        HoldoutStatus::Candidate
    );
    assert_eq!(
        cards
            .iter()
            .find(|c| c.object_id == "Kepler-1708 b-i")
            .unwrap()
            .status,
        HoldoutStatus::Candidate
    );
    assert_eq!(
        cards
            .iter()
            .find(|c| c.object_id == "Kepler-90g moon")
            .unwrap()
            .status,
        HoldoutStatus::FalsePositive
    );
    assert_eq!(
        cards
            .iter()
            .find(|c| c.object_id.contains("167"))
            .unwrap()
            .status,
        HoldoutStatus::Search
    );
}

#[test]
fn every_card_status_matches_the_locked_table() {
    let cards = locked_cards();
    for (i, c) in cards.iter().enumerate() {
        assert_eq!(c.object_id, HOLDOUT_OBJECTS[i]);
        assert_eq!(c.host_planet, HOLDOUT_HOSTS[i]);
        assert_eq!(locked_holdout_status(&c.object_id), Some(c.status));
        assert_eq!(c.status_text, c.status.as_str());
        assert!(is_holdout_host(&c.host_planet));
    }
}

#[test]
fn locked_status_of_unknown_object_is_none() {
    assert_eq!(locked_holdout_status("Kepler-10 b"), None);
    assert_eq!(locked_holdout_status("kepler-1625b-i"), None);
    assert_eq!(
        locked_holdout_status("JWST Kepler-167e (GO 6491)"),
        Some(HoldoutStatus::Search)
    );
}

#[test]
fn status_texts() {
    assert_eq!(HoldoutStatus::Candidate.as_str(), "CANDIDATE");
    assert_eq!(HoldoutStatus::FalsePositive.as_str(), "FALSE POSITIVE");
    assert_eq!(HoldoutStatus::Search.as_str(), "SEARCH");
}

#[test]
fn holdout_host_match_trims_and_ignores_ascii_case() {
    assert!(is_holdout_host("Kepler-1625 b"));
    assert!(is_holdout_host("  kepler-1708 B \t"));
    assert!(is_holdout_host("KEPLER-90 G"));
    assert!(is_holdout_host("Kepler-167 e\n"));
    assert!(!is_holdout_host("Kepler-10 b"));
    assert!(!is_holdout_host("Kepler-1625b"));
    assert!(!is_holdout_host(""));
}

#[test]
fn holdouts_have_no_training_target() {
    assert_eq!(TrainTarget::from_kind(ExampleKind::Holdout), None);
    assert_eq!(
        TrainTarget::from_kind(ExampleKind::Injected),
        Some(TrainTarget::MoonLikeTiming)
    );
    assert_eq!(
        TrainTarget::from_kind(ExampleKind::PlanetOnly),
        Some(TrainTarget::PlanetOnly)
    );
    assert!(TrainTarget::MoonLikeTiming.as_bool());
    assert!(!TrainTarget::PlanetOnly.as_bool());
}

#[test]
fn scoring_inputs_follow_the_locked_cards() {
    let (s, note) = holdout_scoring("Kepler-1708 b-i", false);
    assert_eq!(s, ScoreInput::PredictedTtvGeometricMid);
    assert!(note.contains("*prediction* (not data)"));
    assert!(!note.contains("Q1"));
    let (s, note) = holdout_scoring("Kepler-1708 b-i", true);
    assert_eq!(s, ScoreInput::PredictedTtvGeometricMid);
    assert!(note.ends_with("Moon stays CANDIDATE."));
    let (s, note) = holdout_scoring("JWST Kepler-167e (GO 6491)", true);
    assert_eq!(s, ScoreInput::ResidualMidpoint);
    assert!(note.ends_with("Status stays SEARCH."));
    let (s, note) = holdout_scoring("Kepler-1625b-i", false);
    assert_eq!(s, ScoreInput::NullTiming);
    assert!(note.contains("No TTV invented"));
    let (s, note) = holdout_scoring("Kepler-90g moon", true);
    assert_eq!(s, ScoreInput::NullTiming);
    assert!(note.contains("FALSE POSITIVE"));
    let (s, note) = holdout_scoring("something else", true);
    assert_eq!(s, ScoreInput::NullTiming);
    assert_eq!(note, "catalog features + synthetic-null timing");
}

#[test]
fn feature_index_finds_names() {
    assert_eq!(feature_index("log10_period_days"), Some(0));
    assert_eq!(feature_index("ttv_rms_min"), Some(5));
    assert_eq!(feature_index("tdv_rms_min"), Some(6));
    assert_eq!(feature_index("no_such_feature"), None);
    assert_eq!(feature_index(""), None);
}

#[test]
fn row_targets_never_train_holdouts() {

    for kind in [ExampleKind::PlanetOnly, ExampleKind::Injected, ExampleKind::Holdout] {
        assert_eq!(row_target(Split::Holdout, kind), None);
        assert_eq!(row_target(Split::Train, kind), TrainTarget::from_kind(kind));
    }
    assert_eq!(
        row_target(Split::Train, ExampleKind::Injected),
        Some(TrainTarget::MoonLikeTiming)
    );
}

#[test]
fn locked_cards_start_unattached() {
    for c in locked_cards() {
        assert!(!c.catalog_found);
        assert!(c.model_input.is_none());
        assert!(!c.mp_is_upper_limit);
        assert!(c.forecaster_class.is_none());
        assert!(c.forecaster_extrapolated.is_none());
        assert!(!c.lc_available);
        assert!(!c.photometry_only_would_flag);
        assert!(!c.overlapping_disc_flag);
    }
}
