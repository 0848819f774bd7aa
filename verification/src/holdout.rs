//! Locked holdout score cards. Candidates stay candidates.
//!
//! - Kepler-1625b-i: CANDIDATE (Hubble dip model-dependent; unconfirmed)
//! - Kepler-1708 b-i: CANDIDATE (planet validated; moon not; 2 transits;
//!   predicted TTV 1.2-77 min 95%)
//! - Kepler-90g moon: FALSE POSITIVE (SPSD / pixel-centroid)
//! - JWST Kepler-167e (GO 6491): SEARCH (residual 7-17 min after linear
//!   ephemeris). Do not promote a moon.
//!
//! This module holds the locked part of each card and decides how each
//! card is scored; the numeric fields are filled by the caller.
use crate::catalog::CatalogPlanet;
use crate::features::{feature_names, FEATURE_NAMES};
use crate::labels::{
    holdout_hosts, holdout_objects, is_holdout_host_spec, locked_status, status_text, HoldoutStatus,
};
use crate::text::{chars_of, eq_ignore_ascii_case, owned, str_eq, str_eq_ignore_ascii_case, trim};
use vstd::prelude::*;

verus! {

/// The non-numeric part of a holdout score card, as it is locked before any
/// catalog row or model is attached.
pub struct LockedCard {
    pub object_id: String,
    pub host_planet: String,
    pub status: HoldoutStatus,
    pub status_text: String,
    pub locked_note: String,
    pub published_timing: Option<String>,
    /// Whether the host's catalog row was found; not yet, on a locked card.
    pub catalog_found: bool,
    /// The note on the score input; none yet, on a locked card.
    pub model_input: Option<String>,
    pub mp_is_upper_limit: bool,
    pub forecaster_class: Option<String>,
    pub forecaster_extrapolated: Option<bool>,
    pub photometry_only_caution: bool,
    pub lc_available: bool,
    pub photometry_only_would_flag: bool,
    pub overlapping_disc_flag: bool,
    pub jwst_doi: Option<String>,
    /// JWST photometry is never cached for a locked card.
    pub jwst_photometry_cached: bool,
    /// No Columbia Academic Commons product is cached for a locked card.
    pub columbia_product_cached: bool,
    pub published_product_note: Option<String>,
    pub do_not: String,
}

pub open spec fn opt_view(o: Option<String>) -> Option<Seq<char>> {
    match o {
        Some(s) => Some(s@),
        None => None,
    }
}

/// Card `i` of the locked list, field by field.
pub open spec fn is_locked_card(c: LockedCard, i: int) -> bool {
    &&& c.object_id@ == holdout_objects()[i]
    &&& c.host_planet@ == holdout_hosts()[i]
    &&& c.status_text@ == status_text(c.status)
    &&& !c.jwst_photometry_cached
    &&& !c.columbia_product_cached
    &&& !c.catalog_found
    &&& opt_view(c.model_input) == None::<Seq<char>>
    &&& !c.mp_is_upper_limit
    &&& opt_view(c.forecaster_class) == None::<Seq<char>>
    &&& c.forecaster_extrapolated == None::<bool>
    &&& !c.lc_available
    &&& !c.photometry_only_would_flag
    &&& !c.overlapping_disc_flag
    &&& if i == 0 {
        &&& c.status == HoldoutStatus::Candidate
        &&& c.locked_note@ == "Hubble dip is model-dependent. Authors call the moon unconfirmed."@
        &&& opt_view(c.published_timing) == None::<Seq<char>>
        &&& c.photometry_only_caution
        &&& opt_view(c.jwst_doi) == None::<Seq<char>>
        &&& opt_view(c.published_product_note) == Some(
            "Columbia Academic Commons DOI 10.7916/D8795NHS: Anubis bot-wall; /download 404. No product cached. Hubble-dependent, unconfirmed. Stays CANDIDATE."@,
        )
        &&& c.do_not@ == "Do not train as a confirmed moon. Do not invent a TTV. Do not confirm."@
    } else if i == 1 {
        &&& c.status == HoldoutStatus::Candidate
        &&& c.locked_note@ == "Planet validated; moon not. Only two Kepler transits."@
        &&& opt_view(c.published_timing) == Some(
            "Predicted TTV 1.2\u{2013}77 min (95%). Not a detection."@,
        )
        &&& !c.photometry_only_caution
        &&& opt_view(c.jwst_doi) == None::<Seq<char>>
        &&& opt_view(c.published_product_note) == None::<Seq<char>>
        &&& c.do_not@
            == "Do not train as a confirmed moon. Predicted TTV range is not a measurement."@
    } else if i == 2 {
        &&& c.status == HoldoutStatus::FalsePositive
        &&& c.locked_note@
            == "SPSD / pixel-centroid false positive. HEK-family lesson: photometry can lie."@
        &&& opt_view(c.published_timing) == None::<Seq<char>>
        &&& c.photometry_only_caution
        &&& opt_view(c.jwst_doi) == None::<Seq<char>>
        &&& opt_view(c.published_product_note) == None::<Seq<char>>
        &&& c.do_not@ == "Status is FALSE POSITIVE regardless of any model score."@
    } else {
        &&& c.status == HoldoutStatus::Search
        &&& c.locked_note@ == "JWST GO 6491 is a search, not a detection."@
        &&& opt_view(c.published_timing) == Some(
            "Residual timing 7\u{2013}17 min after linear ephemeris. Do not promote a moon."@,
        )
        &&& !c.photometry_only_caution
        &&& opt_view(c.jwst_doi) == Some("10.17909/e50n-4y96"@)
        &&& opt_view(c.published_product_note) == Some(
            "MAST/DOI metadata only (GO 6491 NIRSpec CAOM). Time series not cached. Residual 7\u{2013}17 min is lock text, not a moon."@,
        )
        &&& c.do_not@ == "Do not promote a moon from a 7\u{2013}17 min residual."@
    }
}

fn some_string(s: &str) -> (r: Option<String>)
    ensures
        opt_view(r) == Some(s@),
{
    Some(owned(s))
}

fn card(
    i: usize,
    status: HoldoutStatus,
    locked_note: &str,
    published_timing: Option<String>,
    photometry_only_caution: bool,
    jwst_doi: Option<String>,
    published_product_note: Option<String>,
    do_not: &str,
) -> (c: LockedCard)
    requires
        i < 4,
    ensures
        c.object_id@ == holdout_objects()[i as int],
        c.host_planet@ == holdout_hosts()[i as int],
        c.status == status,
        c.status_text@ == status_text(status),
        c.locked_note@ == locked_note@,
        c.published_timing == published_timing,
        c.photometry_only_caution == photometry_only_caution,
        c.jwst_doi == jwst_doi,
        !c.jwst_photometry_cached,
        !c.columbia_product_cached,
        !c.catalog_found,
        c.model_input == None::<String>,
        !c.mp_is_upper_limit,
        c.forecaster_class == None::<String>,
        c.forecaster_extrapolated == None::<bool>,
        !c.lc_available,
        !c.photometry_only_would_flag,
        !c.overlapping_disc_flag,
        c.published_product_note == published_product_note,
        c.do_not@ == do_not@,
{
    assert(crate::labels::HOLDOUT_OBJECTS[i as int]@ == holdout_objects()[i as int]);
    assert(crate::labels::HOLDOUT_HOSTS[i as int]@ == holdout_hosts()[i as int]);
    LockedCard {
        object_id: owned(crate::labels::HOLDOUT_OBJECTS[i]),
        host_planet: owned(crate::labels::HOLDOUT_HOSTS[i]),
        status,
        status_text: owned(status.as_str()),
        locked_note: owned(locked_note),
        published_timing,
        catalog_found: false,
        model_input: None,
        mp_is_upper_limit: false,
        forecaster_class: None,
        forecaster_extrapolated: None,
        photometry_only_caution,
        lc_available: false,
        photometry_only_would_flag: false,
        overlapping_disc_flag: false,
        jwst_doi,
        jwst_photometry_cached: false,
        columbia_product_cached: false,
        published_product_note,
        do_not: owned(do_not),
    }
}

/// The four locked cards, in the order of the holdout hosts.
pub fn locked_cards() -> (r: Vec<LockedCard>)
    ensures
        r@.len() == 4,
        forall|i: int| 0 <= i < 4 ==> is_locked_card(#[trigger] r@[i], i),
{
    let c0 = card(
        0,
        HoldoutStatus::Candidate,
        "Hubble dip is model-dependent. Authors call the moon unconfirmed.",
        None,
        true,
        None,
        some_string(
            "Columbia Academic Commons DOI 10.7916/D8795NHS: Anubis bot-wall; /download 404. No product cached. Hubble-dependent, unconfirmed. Stays CANDIDATE.",
        ),
        "Do not train as a confirmed moon. Do not invent a TTV. Do not confirm.",
    );
    let c1 = card(
        1,
        HoldoutStatus::Candidate,
        "Planet validated; moon not. Only two Kepler transits.",
        some_string("Predicted TTV 1.2\u{2013}77 min (95%). Not a detection."),
        false,
        None,
        None,
        "Do not train as a confirmed moon. Predicted TTV range is not a measurement.",
    );
    let c2 = card(
        2,
        HoldoutStatus::FalsePositive,
        "SPSD / pixel-centroid false positive. HEK-family lesson: photometry can lie.",
        None,
        true,
        None,
        None,
        "Status is FALSE POSITIVE regardless of any model score.",
    );
    let c3 = card(
        3,
        HoldoutStatus::Search,
        "JWST GO 6491 is a search, not a detection.",
        some_string("Residual timing 7\u{2013}17 min after linear ephemeris. Do not promote a moon."),
        false,
        some_string("10.17909/e50n-4y96"),
        some_string(
            "MAST/DOI metadata only (GO 6491 NIRSpec CAOM). Time series not cached. Residual 7\u{2013}17 min is lock text, not a moon.",
        ),
        "Do not promote a moon from a 7\u{2013}17 min residual.",
    );
    let r = vec![c0, c1, c2, c3];
    r
}

/// No card is upgraded: every locked card's status is the locked status of
/// its object, and every card's host is a holdout host.
pub proof fn locked_cards_keep_locked_statuses(cards: Seq<LockedCard>)
    requires
        cards.len() == 4,
        forall|i: int| 0 <= i < 4 ==> is_locked_card(#[trigger] cards[i], i),
    ensures
        forall|i: int|
            0 <= i < 4 ==> locked_status((#[trigger] cards[i]).object_id@) == Some(cards[i].status),
        forall|i: int| 0 <= i < 4 ==> is_holdout_host_spec((#[trigger] cards[i]).host_planet@),
{
    reveal_strlit("Kepler-1625b-i");
    reveal_strlit("Kepler-1708 b-i");
    reveal_strlit("Kepler-90g moon");
    reveal_strlit("JWST Kepler-167e (GO 6491)");
    assert forall|i: int| 0 <= i < 4 implies locked_status((#[trigger] cards[i]).object_id@) == Some(
        cards[i].status,
    ) by {
        assert(cards[i].object_id@ == holdout_objects()[i]);
        if i == 1 {
            assert("Kepler-1708 b-i"@ != "Kepler-1625b-i"@) by {
                assert("Kepler-1708 b-i"@[8] != "Kepler-1625b-i"@[8]);
            }
        }
        if i == 2 {
            assert("Kepler-90g moon"@.len() != "Kepler-1625b-i"@.len());
            assert("Kepler-90g moon"@[7] != "Kepler-1708 b-i"@[7]);
        }
        if i == 3 {
            assert("JWST Kepler-167e (GO 6491)"@[0] != "Kepler-1625b-i"@[0]);
            assert("JWST Kepler-167e (GO 6491)"@[0] != "Kepler-1708 b-i"@[0]);
            assert("JWST Kepler-167e (GO 6491)"@[0] != "Kepler-90g moon"@[0]);
        }
    }
    assert forall|i: int| 0 <= i < 4 implies is_holdout_host_spec((#[trigger] cards[i]).host_planet@) by {
        let h = holdout_hosts()[i];
        lemma_trim_host(i);
        assert(eq_ignore_ascii_case(holdout_hosts()[i], trim(h)));
    }
}

proof fn lemma_trim_host(i: int)
    requires
        0 <= i < 4,
    ensures
        trim(holdout_hosts()[i]) == holdout_hosts()[i],
{
    let h = holdout_hosts()[i];
    reveal_strlit("Kepler-1625 b");
    reveal_strlit("Kepler-1708 b");
    reveal_strlit("Kepler-90 g");
    reveal_strlit("Kepler-167 e");
    assert(crate::text::trim_start(h) == h);
    assert(crate::text::trim_end(h) == h);
}

/// How a holdout card is scored: on its catalog row with synthetic null
/// timing, or with the row's TTV feature replaced by a locked timing scale.
#[derive(Debug, Clone, Copy, PartialEq, Eq, Structural)]
pub enum ScoreInput {
    /// The row as it is.
    NullTiming,
    /// TTV set to the geometric mid of the locked 1.2-77 min prediction.
    PredictedTtvGeometricMid,
    /// TTV set to the midpoint of the locked 7-17 min residual.
    ResidualMidpoint,
}

/// The score input and the note on it, for a card and whether a light
/// curve is cached for its host.
pub open spec fn scoring_spec(id: Seq<char>, lc_available: bool) -> (ScoreInput, Seq<char>) {
    if id == "Kepler-1708 b-i"@ {
        (
            ScoreInput::PredictedTtvGeometricMid,
            if lc_available {
                "catalog features + geometric-mid of locked 1.2\u{2013}77 min TTV *prediction* (not data); cached Q1 Kepler LC flags (no catalog transit in that window). Moon stays CANDIDATE."@
            } else {
                "catalog features + geometric-mid of locked 1.2\u{2013}77 min TTV *prediction* (not data)"@
            },
        )
    } else if id == "JWST Kepler-167e (GO 6491)"@ {
        (
            ScoreInput::ResidualMidpoint,
            if lc_available {
                "catalog features + midpoint of locked 7\u{2013}17 min residual (search, not moon); cached Q1 Kepler LC flags (no catalog transit in that window). Status stays SEARCH."@
            } else {
                "catalog features + midpoint of locked 7\u{2013}17 min residual (search, not moon)"@
            },
        )
    } else if id == "Kepler-1625b-i"@ {
        (
            ScoreInput::NullTiming,
            "catalog geometry + synthetic-null timing + cached Q8 Kepler LC flags (no catalog transit in that window). No TTV invented. Moon stays CANDIDATE. Photometry-only caution applies."@,
        )
    } else if id == "Kepler-90g moon"@ {
        (
            ScoreInput::NullTiming,
            "catalog geometry + synthetic-null timing. Status remains FALSE POSITIVE even if the model is confused."@,
        )
    } else {
        (ScoreInput::NullTiming, "catalog features + synthetic-null timing"@)
    }
}

/// Only two cards are scored on a locked timing scale, whether or not a light
/// curve is cached: the Kepler-1708 b-i card on the geometric mid of its TTV
/// prediction, the JWST Kepler-167e card on the midpoint of its residual; every
/// other card is scored on its row with null timing, no TTV invented.
pub proof fn only_two_cards_use_a_timing_scale(id: Seq<char>, lc_available: bool)
    ensures
        (scoring_spec(id, lc_available).0 == ScoreInput::PredictedTtvGeometricMid) <==> id
            == "Kepler-1708 b-i"@,
        (scoring_spec(id, lc_available).0 == ScoreInput::ResidualMidpoint) <==> id
            == "JWST Kepler-167e (GO 6491)"@,
        (scoring_spec(id, lc_available).0 == ScoreInput::NullTiming) <==> (id != "Kepler-1708 b-i"@
            && id != "JWST Kepler-167e (GO 6491)"@),
{
    reveal_strlit("Kepler-1708 b-i");
    reveal_strlit("JWST Kepler-167e (GO 6491)");
    assert("Kepler-1708 b-i"@.len() != "JWST Kepler-167e (GO 6491)"@.len());
}

/// How a locked card is scored, and the note that says so.
pub fn holdout_scoring(object_id: &str, lc_available: bool) -> (r: (ScoreInput, String))
    ensures
        (r.0, r.1@) == scoring_spec(object_id@, lc_available),
{
    if str_eq(object_id, "Kepler-1708 b-i") {
        (
            ScoreInput::PredictedTtvGeometricMid,
            if lc_available {
                owned(
                    "catalog features + geometric-mid of locked 1.2\u{2013}77 min TTV *prediction* (not data); cached Q1 Kepler LC flags (no catalog transit in that window). Moon stays CANDIDATE.",
                )
            } else {
                owned(
                    "catalog features + geometric-mid of locked 1.2\u{2013}77 min TTV *prediction* (not data)",
                )
            },
        )
    } else if str_eq(object_id, "JWST Kepler-167e (GO 6491)") {
        (
            ScoreInput::ResidualMidpoint,
            if lc_available {
                owned(
                    "catalog features + midpoint of locked 7\u{2013}17 min residual (search, not moon); cached Q1 Kepler LC flags (no catalog transit in that window). Status stays SEARCH.",
                )
            } else {
                owned(
                    "catalog features + midpoint of locked 7\u{2013}17 min residual (search, not moon)",
                )
            },
        )
    } else if str_eq(object_id, "Kepler-1625b-i") {
        (
            ScoreInput::NullTiming,
            owned(
                "catalog geometry + synthetic-null timing + cached Q8 Kepler LC flags (no catalog transit in that window). No TTV invented. Moon stays CANDIDATE. Photometry-only caution applies.",
            ),
        )
    } else if str_eq(object_id, "Kepler-90g moon") {
        (
            ScoreInput::NullTiming,
            owned(
                "catalog geometry + synthetic-null timing. Status remains FALSE POSITIVE even if the model is confused.",
            ),
        )
    } else {
        (ScoreInput::NullTiming, owned("catalog features + synthetic-null timing"))
    }
}

/// The position of `name` among the feature names (its first occurrence).
pub fn feature_index(name: &str) -> (r: Option<usize>)
    ensures
        match r {
            Some(i) => i < 18 && feature_names()[i as int] == name@ && forall|j: int|
                0 <= j < i ==> feature_names()[j] != name@,
            None => forall|j: int| 0 <= j < 18 ==> feature_names()[j] != name@,
        },
{
    let mut i: usize = 0;
    while i < 18
        invariant
            i <= 18,
            forall|j: int| 0 <= j < i ==> feature_names()[j] != name@,
        decreases 18 - i,
    {
        assert(feature_names()[i as int] == FEATURE_NAMES[i as int]@);
        if str_eq(FEATURE_NAMES[i], name) {
            return Some(i);
        }
        i = i + 1;
    }
    None
}

/// The first catalog planet whose name equals `host` up to ASCII case: the
/// catalog row a score card is attached to.
pub fn find_host_planet<F>(planets: &Vec<CatalogPlanet<F>>, host: &str) -> (r: Option<usize>)
    ensures
        match r {
            Some(i) => i < planets@.len() && eq_ignore_ascii_case(planets@[i as int].name@, host@)
                && forall|j: int|
                0 <= j < i ==> !eq_ignore_ascii_case(#[trigger] planets@[j].name@, host@),
            None => forall|j: int|
                0 <= j < planets@.len() ==> !eq_ignore_ascii_case(#[trigger] planets@[j].name@, host@),
        },
{
    let mut i: usize = 0;
    while i < planets.len()
        invariant
            i <= planets@.len(),
            forall|j: int| 0 <= j < i ==> !eq_ignore_ascii_case(#[trigger] planets@[j].name@, host@),
        decreases planets@.len() - i,
    {
        if str_eq_ignore_ascii_case(planets[i].name.as_str(), host) {
            return Some(i);
        }
        i = i + 1;
    }
    None
}

} // verus!
