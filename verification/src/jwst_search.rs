//! JWST GO 6491 public metadata (Kepler-167 e).
//!
//! MAST DOI 10.17909/e50n-4y96 and CAOM rows are cached; the NIRSpec time
//! series is not. The status stays SEARCH, and a fixture that claims cached
//! photometry or another status is refused.
use crate::error::ExoError;
use crate::text::{contains, eq_ignore_ascii_case, owned, str_contains, str_eq_ignore_ascii_case};
use vstd::prelude::*;

verus! {

pub const GO6491_SEARCH_JSON: &'static str = "jwst_go6491_search.json";
pub const GO6491_CAOM_CSV: &'static str = "jwst_go6491_mast_caom.csv";
pub const GO6491_DOI: &'static str = "10.17909/e50n-4y96";
pub const GO6491_DOI_URL: &'static str = "https://archive.stsci.edu/doi/resolve/resolve.html?doi=10.17909/e50n-4y96";
pub const GO6491_PROGRAM_PDF: &'static str = "https://www.stsci.edu/jwst-program-info/download/jwst/pdf/6491/";
pub const MAST_INVOKE: &'static str = "https://mast.stsci.edu/api/v0/invoke";

/// A status reads SEARCH, up to ASCII case.
pub fn is_search_status(status: &str) -> (r: bool)
    ensures
        r == eq_ignore_ascii_case(status@, "SEARCH"@),
{
    str_eq_ignore_ascii_case(status, "SEARCH")
}

/// The checks a loaded GO 6491 fixture must pass: no cached photometry, and
/// status SEARCH.
pub fn check_search_fixture(photometry_cached: bool, status: &str) -> (r: Result<(), ExoError>)
    ensures
        r is Ok <==> !photometry_cached && eq_ignore_ascii_case(status@, "SEARCH"@),
        r matches Err(e) ==> e matches ExoError::Parse(m) && m@ == if photometry_cached {
            "GO 6491 fixture must not cache JWST photometry"@
        } else {
            "GO 6491 fixture status must stay SEARCH"@
        },
{
    if photometry_cached {
        return Err(ExoError::Parse(owned("GO 6491 fixture must not cache JWST photometry")));
    }
    if !is_search_status(status) {
        return Err(ExoError::Parse(owned("GO 6491 fixture status must stay SEARCH")));
    }
    Ok(())
}

/// The check before a GO 6491 fixture is written: the same rule, one
/// message.
pub fn check_fixture_writable(photometry_cached: bool, status: &str) -> (r: Result<(), ExoError>)
    ensures
        r is Ok <==> !photometry_cached && eq_ignore_ascii_case(status@, "SEARCH"@),
        r matches Err(e) ==> e matches ExoError::Parse(m) && m@
            == "refusing to write a GO 6491 fixture that is not SEARCH / photometry-free"@,
{
    if photometry_cached || !is_search_status(status) {
        return Err(
            ExoError::Parse(
                owned("refusing to write a GO 6491 fixture that is not SEARCH / photometry-free"),
            ),
        );
    }
    Ok(())
}

pub open spec fn caom_request() -> Seq<char> {
    "{\"service\":\"Mast.Caom.Filtered\",\"params\":{\"columns\":\"obsid,obs_id,target_name,instrument_name,proposal_id,t_exptime,dataURL,s_ra,s_dec,t_min,t_max,calib_level,intentType,filters\",\"filters\":[{\"paramName\":\"proposal_id\",\"values\":[\"6491\"]},{\"paramName\":\"obs_collection\",\"values\":[\"JWST\"]},{\"paramName\":\"calib_level\",\"values\":[3]},{\"paramName\":\"intentType\",\"values\":[\"science\"]}]},\"format\":\"json\",\"pagesize\":20}"@
}

/// The MAST CAOM query for the GO 6491 science products.
pub fn mast_caom_request() -> (r: String)
    ensures
        r@ == caom_request(),
{
    owned(
        "{\"service\":\"Mast.Caom.Filtered\",\"params\":{\"columns\":\"obsid,obs_id,target_name,instrument_name,proposal_id,t_exptime,dataURL,s_ra,s_dec,t_min,t_max,calib_level,intentType,filters\",\"filters\":[{\"paramName\":\"proposal_id\",\"values\":[\"6491\"]},{\"paramName\":\"obs_collection\",\"values\":[\"JWST\"]},{\"paramName\":\"calib_level\",\"values\":[3]},{\"paramName\":\"intentType\",\"values\":[\"science\"]}]},\"format\":\"json\",\"pagesize\":20}",
    )
}

/// A MAST answer names Kepler-167 and program 6491.
pub fn caom_json_has_kepler167(body: &str) -> (r: bool)
    ensures
        r == (contains(body@, "Kepler-167"@) && contains(body@, "6491"@)),
{
    str_contains(body, "Kepler-167") && str_contains(body, "6491")
}

/// A MAST answer is taken as a refresh only when it names Kepler-167.
pub fn check_mast_answer(body: &str) -> (r: Result<(), ExoError>)
    ensures
        r is Ok <==> contains(body@, "Kepler-167"@),
        r matches Err(e) ==> e matches ExoError::Http(m) && m@
            == "MAST GO 6491 response missing Kepler-167 (cache kept)"@,
{
    if str_contains(body, "Kepler-167") {
        Ok(())
    } else {
        Err(ExoError::Http(owned("MAST GO 6491 response missing Kepler-167 (cache kept)")))
    }
}

} // verus!
