//! Columbia Academic Commons 1625 products (Teachey & Kipping 2018).
//!
//! The landing DOI resolves, but the page is a bot challenge and the
//! download link answers HTTP 404. No file is cached. Kepler-1625b-i stays
//! CANDIDATE (Hubble-dependent, unconfirmed).
use crate::text::{owned, push_all};
use vstd::prelude::*;

verus! {

pub const COLUMBIA_DOI: &'static str = "10.7916/D8795NHS";
pub const COLUMBIA_DOI_URL: &'static str = "https://doi.org/10.7916/D8795NHS";
pub const COLUMBIA_LANDING: &'static str = "https://academiccommons.columbia.edu/doi/10.7916/D8795NHS";
pub const COLUMBIA_DOWNLOAD_TRIED: &'static str = "https://academiccommons.columbia.edu/doi/10.7916/D8795NHS/download";

pub struct Columbia1625Skip {
    pub object_id: String,
    pub host_planet: String,
    pub status: String,
    pub doi: String,
    pub cached: bool,
    pub http_notes: Vec<String>,
    pub note: String,
}

pub open spec fn skip_note() -> Seq<char> {
    "No Columbia Academic Commons product cached. Hubble dip remains model-dependent; authors call the moon unconfirmed. Status stays CANDIDATE."@
}

pub open spec fn skip_http_notes() -> Seq<Seq<char>> {
    seq![
        "doi.org resolves to academiccommons.columbia.edu (200 HTML)"@,
        "page body is Anubis 1.21.3 bot-challenge; no asset URLs in HTML"@,
        COLUMBIA_DOWNLOAD_TRIED@ + " \u{2192} HTTP 404"@,
    ]
}

/// The record of the skipped Columbia product: nothing cached, status
/// CANDIDATE.
pub fn columbia_1625_skip() -> (r: Columbia1625Skip)
    ensures
        r.object_id@ == "Kepler-1625b-i"@,
        r.host_planet@ == "Kepler-1625 b"@,
        r.status@ == "CANDIDATE"@,
        r.doi@ == COLUMBIA_DOI@,
        !r.cached,
        r.http_notes@.map_values(|s: String| s@) == skip_http_notes(),
        r.note@ == skip_note(),
{
    let mut tried = owned(COLUMBIA_DOWNLOAD_TRIED);
    push_all(&mut tried, " \u{2192} HTTP 404");
    let notes = vec![
        owned("doi.org resolves to academiccommons.columbia.edu (200 HTML)"),
        owned("page body is Anubis 1.21.3 bot-challenge; no asset URLs in HTML"),
        tried,
    ];
    let r = Columbia1625Skip {
        object_id: owned("Kepler-1625b-i"),
        host_planet: owned("Kepler-1625 b"),
        status: owned("CANDIDATE"),
        doi: owned(COLUMBIA_DOI),
        cached: false,
        http_notes: notes,
        note: owned(
            "No Columbia Academic Commons product cached. Hubble dip remains model-dependent; authors call the moon unconfirmed. Status stays CANDIDATE.",
        ),
    };
    assert(r.http_notes@.map_values(|s: String| s@) =~= skip_http_notes());
    r
}

} // verus!
