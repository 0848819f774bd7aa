//! NASA Exoplanet Archive TAP ingest: the cached queries, their URLs, and
//! the reading of TAP CSV rows (public HTTP, no secrets).
//!
//! Primary tables: `cumulative` (KOI) and `ps` (Planetary Systems). Empty
//! archive fields stay empty; nothing is filled in.
pub use crate::catalog::{merge_ps_onto_koi, CatalogPlanet, CatalogSource};
use crate::error::ExoError;
use crate::text::{
    chars_of, contains, owned, push_all, push_char, str_contains, strip_char, strip_char_string, trim,
    trimmed,
};
use vstd::prelude::*;
use vstd::string::StringSliceAdditionalSpecFns;

verus! {

pub const TAP_SYNC: &'static str = "https://exoplanetarchive.ipac.caltech.edu/TAP/sync";

pub const Q_KOI_CONFIRMED_GEOMETRY: &'static str = "SELECT TOP 60 kepoi_name,kepid,kepler_name,koi_disposition,koi_pdisposition,koi_score,koi_period,koi_time0bk,koi_impact,koi_duration,koi_depth,koi_prad,koi_sma,koi_incl,koi_steff,koi_slogg,koi_srad,koi_smass FROM cumulative WHERE koi_disposition='CONFIRMED' AND koi_period IS NOT NULL AND koi_prad IS NOT NULL AND koi_impact IS NOT NULL AND koi_duration IS NOT NULL AND koi_depth IS NOT NULL AND koi_srad IS NOT NULL AND koi_smass IS NOT NULL AND koi_sma IS NOT NULL ORDER BY koi_period";

pub const Q_KOI_LONG_PERIOD: &'static str = "SELECT TOP 25 kepoi_name,kepid,kepler_name,koi_disposition,koi_pdisposition,koi_score,koi_period,koi_time0bk,koi_impact,koi_duration,koi_depth,koi_prad,koi_sma,koi_incl,koi_steff,koi_slogg,koi_srad,koi_smass FROM cumulative WHERE koi_disposition='CONFIRMED' AND koi_period>100 AND koi_period IS NOT NULL AND koi_prad IS NOT NULL AND koi_impact IS NOT NULL AND koi_duration IS NOT NULL AND koi_depth IS NOT NULL AND koi_srad IS NOT NULL AND koi_smass IS NOT NULL AND koi_sma IS NOT NULL ORDER BY koi_period";

pub const Q_KOI_NAMED: &'static str = "SELECT kepoi_name,kepid,kepler_name,koi_disposition,koi_pdisposition,koi_score,koi_period,koi_time0bk,koi_impact,koi_duration,koi_depth,koi_prad,koi_sma,koi_incl,koi_steff,koi_slogg,koi_srad,koi_smass FROM cumulative WHERE kepler_name IN ('Kepler-1625 b','Kepler-1708 b','Kepler-90 g','Kepler-167 e','Kepler-22 b','Kepler-10 b')";

/// Confirmed LC-backed planets (epochs from KOI, not invented).
pub const Q_KOI_LC_HOSTS: &'static str = "SELECT kepoi_name,kepid,kepler_name,koi_disposition,koi_pdisposition,koi_score,koi_period,koi_time0bk,koi_impact,koi_duration,koi_depth,koi_prad,koi_sma,koi_incl,koi_steff,koi_slogg,koi_srad,koi_smass FROM cumulative WHERE kepler_name IN ('Kepler-11 b','Kepler-11 c','Kepler-11 d','Kepler-11 e','Kepler-9 b','Kepler-9 c','Kepler-2 b','Kepler-8 b','Kepler-4 b','Kepler-5 b','Kepler-6 b','Kepler-7 b','Kepler-3 b','Kepler-18 b','Kepler-18 c','Kepler-18 d','Kepler-19 b','Kepler-20 b','Kepler-20 c','Kepler-20 d','Kepler-20 e','Kepler-20 f','Kepler-21 b','Kepler-30 b','Kepler-30 d','Kepler-36 b','Kepler-36 c','Kepler-48 b','Kepler-48 c','Kepler-48 d','Kepler-51 b','Kepler-79 b','Kepler-79 c','Kepler-79 d','Kepler-79 e','Kepler-68 c','Kepler-89 b','Kepler-89 c','Kepler-89 d','Kepler-89 e','Kepler-102 b','Kepler-102 c','Kepler-102 d','Kepler-102 e','Kepler-102 f','Kepler-62 c','Kepler-62 d','Kepler-62 e','Kepler-37 b','Kepler-37 c','Kepler-37 d','Kepler-444 b','Kepler-444 c','Kepler-444 d','Kepler-444 e','Kepler-444 f','Kepler-42 b','Kepler-42 c','Kepler-42 d','Kepler-138 b','Kepler-138 c','Kepler-138 d','Kepler-65 b','Kepler-65 c','Kepler-65 d','Kepler-32 b','Kepler-32 c','Kepler-32 d','Kepler-32 e','Kepler-32 f','Kepler-33 b','Kepler-33 c','Kepler-33 d','Kepler-33 e','Kepler-33 f','Kepler-186 b','Kepler-186 c','Kepler-186 d','Kepler-186 e','Kepler-26 b','Kepler-26 c','Kepler-26 d','Kepler-80 c','Kepler-80 d','Kepler-80 e','Kepler-80 f','Kepler-29 b','Kepler-29 c','Kepler-93 b','Kepler-100 b','Kepler-100 c','Kepler-100 d','Kepler-88 b','Kepler-23 b','Kepler-23 c','Kepler-24 b','Kepler-24 c','Kepler-27 b','Kepler-27 c','Kepler-28 b','Kepler-28 c','Kepler-41 b','Kepler-56 b','Kepler-56 c','Kepler-57 b','Kepler-57 c','Kepler-69 b','Kepler-76 b','Kepler-58 b','Kepler-58 c','Kepler-58 d','Kepler-59 b','Kepler-59 c','Kepler-60 b','Kepler-60 c','Kepler-60 d','Kepler-84 b','Kepler-84 c','Kepler-84 d','Kepler-84 e','Kepler-85 b','Kepler-85 c','Kepler-85 d','Kepler-85 e','Kepler-54 b','Kepler-54 c','Kepler-54 d','Kepler-55 b','Kepler-55 c','Kepler-55 d','Kepler-55 e','Kepler-52 b','Kepler-52 c','Kepler-52 d','Kepler-53 b','Kepler-53 c','Kepler-31 b','Kepler-31 c','Kepler-50 b','Kepler-50 c','Kepler-81 b','Kepler-81 c','Kepler-81 d','Kepler-94 b','Kepler-95 b','Kepler-61 b','Kepler-66 b','Kepler-74 b','Kepler-43 b','Kepler-44 b','Kepler-92 b','Kepler-92 c','Kepler-92 d','Kepler-49 b','Kepler-49 c','Kepler-75 b','Kepler-83 b','Kepler-83 c','Kepler-83 d','Kepler-39 b','Kepler-40 b','Kepler-45 b','Kepler-46 b','Kepler-63 b','Kepler-82 b','Kepler-82 d','Kepler-82 e','Kepler-91 b','Kepler-96 b','Kepler-97 b','Kepler-98 b','Kepler-99 b','Kepler-101 b','Kepler-101 c','Kepler-103 b','Kepler-104 b','Kepler-104 c','Kepler-105 b','Kepler-105 c','Kepler-106 b','Kepler-106 c','Kepler-106 d','Kepler-106 e','Kepler-107 b','Kepler-107 c','Kepler-107 d','Kepler-107 e')";

pub const Q_PS_KEPLER_SAMPLE: &'static str = "SELECT TOP 80 pl_name,hostname,pl_letter,sy_pnum,discoverymethod,disc_year,disc_facility,pl_orbper,pl_orbsmax,pl_rade,pl_radj,pl_bmasse,pl_bmassj,pl_orbeccen,pl_orbincl,pl_imppar,pl_trandep,pl_trandur,st_teff,st_rad,st_mass,default_flag,tran_flag FROM ps WHERE default_flag=1 AND tran_flag=1 AND disc_facility LIKE '%Kepler%' AND pl_orbper IS NOT NULL AND pl_rade IS NOT NULL AND st_rad IS NOT NULL AND st_mass IS NOT NULL ORDER BY pl_orbper";

pub const Q_PS_NAMED: &'static str = "SELECT pl_name,hostname,pl_letter,sy_pnum,discoverymethod,disc_year,disc_facility,pl_orbper,pl_orbsmax,pl_rade,pl_radj,pl_bmasse,pl_bmassj,pl_bmasselim,pl_orbeccen,pl_orbincl,pl_imppar,pl_trandep,pl_trandur,st_teff,st_rad,st_mass,default_flag,tran_flag FROM ps WHERE default_flag=1 AND pl_name IN ('Kepler-1625 b','Kepler-1708 b','Kepler-90 g','Kepler-167 e','Kepler-22 b','Kepler-10 b','Kepler-11 b','Kepler-16 b','Kepler-51 d','Kepler-79 d','Kepler-9 b','Kepler-9 c')";

/// Confirmed K2 hosts used only as LC-backed **planets** (not moons).
pub const Q_PS_K2_HOSTS: &'static str = "SELECT pl_name,hostname,pl_letter,sy_pnum,discoverymethod,disc_year,disc_facility,pl_orbper,pl_orbsmax,pl_rade,pl_radj,pl_bmasse,pl_bmassj,pl_bmasselim,pl_orbeccen,pl_orbincl,pl_imppar,pl_trandep,pl_trandur,st_teff,st_rad,st_mass,default_flag,tran_flag FROM ps WHERE default_flag=1 AND pl_name IN ('K2-3 b','K2-3 c','K2-18 b','K2-18 c')";

pub struct FetchSpec {
    pub filename: &'static str,
    pub query: &'static str,
}

/// The cache files and the queries that fill them, in fetch order.
pub open spec fn fetch_table() -> Seq<(Seq<char>, Seq<char>)> {
    seq![
        ("nasa_koi_confirmed_geometry_sample.csv"@, Q_KOI_CONFIRMED_GEOMETRY@),
        ("nasa_koi_long_period_sample.csv"@, Q_KOI_LONG_PERIOD@),
        ("nasa_koi_named_systems.csv"@, Q_KOI_NAMED@),
        ("nasa_koi_lc_hosts.csv"@, Q_KOI_LC_HOSTS@),
        ("nasa_ps_kepler_transiting_sample.csv"@, Q_PS_KEPLER_SAMPLE@),
        ("nasa_ps_named_systems.csv"@, Q_PS_NAMED@),
        ("nasa_ps_k2_hosts.csv"@, Q_PS_K2_HOSTS@),
    ]
}

/// Each cache file is fetched once, with its own query: the confirmed
/// geometry sample, the long-period sample, the named systems and the
/// light-curve hosts from the KOI table, and the Kepler transiting sample,
/// the named systems and the K2 hosts from the Planetary Systems table.
pub proof fn each_cache_file_gets_its_own_query()
    ensures
        fetch_table().len() == 7,
        forall|i: int|
            0 <= i < 7 && (#[trigger] fetch_table()[i]).0 == "nasa_koi_confirmed_geometry_sample.csv"@ ==> fetch_table()[i].1
                == Q_KOI_CONFIRMED_GEOMETRY@,
        forall|i: int|
            0 <= i < 7 && (#[trigger] fetch_table()[i]).0 == "nasa_koi_long_period_sample.csv"@ ==> fetch_table()[i].1
                == Q_KOI_LONG_PERIOD@,
        forall|i: int|
            0 <= i < 7 && (#[trigger] fetch_table()[i]).0 == "nasa_koi_named_systems.csv"@ ==> fetch_table()[i].1
                == Q_KOI_NAMED@,
        forall|i: int|
            0 <= i < 7 && (#[trigger] fetch_table()[i]).0 == "nasa_koi_lc_hosts.csv"@ ==> fetch_table()[i].1
                == Q_KOI_LC_HOSTS@,
        forall|i: int|
            0 <= i < 7 && (#[trigger] fetch_table()[i]).0 == "nasa_ps_kepler_transiting_sample.csv"@ ==> fetch_table()[i].1
                == Q_PS_KEPLER_SAMPLE@,
        forall|i: int|
            0 <= i < 7 && (#[trigger] fetch_table()[i]).0 == "nasa_ps_named_systems.csv"@ ==> fetch_table()[i].1
                == Q_PS_NAMED@,
        forall|i: int|
            0 <= i < 7 && (#[trigger] fetch_table()[i]).0 == "nasa_ps_k2_hosts.csv"@ ==> fetch_table()[i].1
                == Q_PS_K2_HOSTS@,
        forall|i: int, j: int|
            0 <= i < j < 7 ==> (#[trigger] fetch_table()[i]).0 != (#[trigger] fetch_table()[j]).0,
{
    reveal_strlit("nasa_koi_confirmed_geometry_sample.csv");
    reveal_strlit("nasa_koi_long_period_sample.csv");
    reveal_strlit("nasa_koi_named_systems.csv");
    reveal_strlit("nasa_koi_lc_hosts.csv");
    reveal_strlit("nasa_ps_kepler_transiting_sample.csv");
    reveal_strlit("nasa_ps_named_systems.csv");
    reveal_strlit("nasa_ps_k2_hosts.csv");
    let t = fetch_table();
    assert(t[0].0 == "nasa_koi_confirmed_geometry_sample.csv"@ && t[0].1 == Q_KOI_CONFIRMED_GEOMETRY@ && t[0].0.len() == 38);
    assert(t[1].0 == "nasa_koi_long_period_sample.csv"@ && t[1].1 == Q_KOI_LONG_PERIOD@ && t[1].0.len() == 31);
    assert(t[2].0 == "nasa_koi_named_systems.csv"@ && t[2].1 == Q_KOI_NAMED@ && t[2].0.len() == 26);
    assert(t[3].0 == "nasa_koi_lc_hosts.csv"@ && t[3].1 == Q_KOI_LC_HOSTS@ && t[3].0.len() == 21);
    assert(t[4].0 == "nasa_ps_kepler_transiting_sample.csv"@ && t[4].1 == Q_PS_KEPLER_SAMPLE@ && t[4].0.len() == 36);
    assert(t[5].0 == "nasa_ps_named_systems.csv"@ && t[5].1 == Q_PS_NAMED@ && t[5].0.len() == 25);
    assert(t[6].0 == "nasa_ps_k2_hosts.csv"@ && t[6].1 == Q_PS_K2_HOSTS@ && t[6].0.len() == 20);
    assert forall|i: int| 0 <= i < 7 implies (t[i].0 == "nasa_koi_confirmed_geometry_sample.csv"@ ==> t[i].1 == Q_KOI_CONFIRMED_GEOMETRY@) && (t[i].0 == "nasa_koi_long_period_sample.csv"@ ==> t[i].1 == Q_KOI_LONG_PERIOD@) && (t[i].0 == "nasa_koi_named_systems.csv"@ ==> t[i].1 == Q_KOI_NAMED@) && (t[i].0 == "nasa_koi_lc_hosts.csv"@ ==> t[i].1 == Q_KOI_LC_HOSTS@) && (t[i].0 == "nasa_ps_kepler_transiting_sample.csv"@ ==> t[i].1 == Q_PS_KEPLER_SAMPLE@) && (t[i].0 == "nasa_ps_named_systems.csv"@ ==> t[i].1 == Q_PS_NAMED@) && (t[i].0 == "nasa_ps_k2_hosts.csv"@ ==> t[i].1 == Q_PS_K2_HOSTS@) by {
        assert(i == 0 || i == 1 || i == 2 || i == 3 || i == 4 || i == 5 || i == 6);
    }
    assert forall|i: int, j: int| 0 <= i < j < 7 implies t[i].0.len() != t[j].0.len() by {
        assert(i == 0 || i == 1 || i == 2 || i == 3 || i == 4 || i == 5 || i == 6);
        assert(j == 0 || j == 1 || j == 2 || j == 3 || j == 4 || j == 5 || j == 6);
    }
}

/// The cache files and their queries, in fetch order.
pub fn fetch_specs() -> (r: Vec<FetchSpec>)
    ensures
        r@.len() == fetch_table().len(),
        forall|i: int|
            0 <= i < r@.len() ==> (#[trigger] r@[i]).filename@ == fetch_table()[i].0 && r@[i].query@
                == fetch_table()[i].1,
{
    let r = vec![
        FetchSpec { filename: "nasa_koi_confirmed_geometry_sample.csv", query: Q_KOI_CONFIRMED_GEOMETRY },
        FetchSpec { filename: "nasa_koi_long_period_sample.csv", query: Q_KOI_LONG_PERIOD },
        FetchSpec { filename: "nasa_koi_named_systems.csv", query: Q_KOI_NAMED },
        FetchSpec { filename: "nasa_koi_lc_hosts.csv", query: Q_KOI_LC_HOSTS },
        FetchSpec { filename: "nasa_ps_kepler_transiting_sample.csv", query: Q_PS_KEPLER_SAMPLE },
        FetchSpec { filename: "nasa_ps_named_systems.csv", query: Q_PS_NAMED },
        FetchSpec { filename: "nasa_ps_k2_hosts.csv", query: Q_PS_K2_HOSTS },
    ];
    r
}

/// A byte that `application/x-www-form-urlencoded` keeps as it is.
pub open spec fn is_unreserved(b: u8) -> bool {
    (65 <= b <= 90) || (97 <= b <= 122) || (48 <= b <= 57) || b == 45 || b == 95 || b == 46
        || b == 126
}

/// The upper-case hexadecimal digit of `n < 16`.
pub open spec fn hex_digit(n: u8) -> char {
    (if n < 10 {
        48 + n
    } else {
        55 + n
    }) as u8 as char
}

/// The encoding of one byte: itself, `+` for a space, else `%XX`.
pub open spec fn encode_byte(b: u8) -> Seq<char> {
    if is_unreserved(b) {
        seq![b as char]
    } else if b == 32 {
        seq!['+']
    } else {
        seq!['%', hex_digit(b / 16), hex_digit(b % 16)]
    }
}

/// `application/x-www-form-urlencoded` encoding of `s`, byte by byte.
pub open spec fn form_encode(s: Seq<u8>) -> Seq<char>
    decreases s.len(),
{
    if s.len() == 0 {
        seq![]
    } else {
        encode_byte(s[0]) + form_encode(s.drop_first())
    }
}

/// The value of a hexadecimal digit.
pub open spec fn hex_value(c: char) -> int {
    if '0' <= c <= '9' {
        c as int - 48
    } else if 'A' <= c <= 'F' {
        c as int - 55
    } else {
        c as int - 87
    }
}

/// Form decoding: `+` is a space, `%XX` a byte, any other character itself.
pub open spec fn form_decode(s: Seq<char>) -> Seq<u8>
    decreases s.len(),
{
    if s.len() == 0 {
        seq![]
    } else if s[0] == '%' && s.len() >= 3 {
        seq![(hex_value(s[1]) * 16 + hex_value(s[2])) as u8] + form_decode(s.skip(3))
    } else if s[0] == '+' {
        seq![32u8] + form_decode(s.drop_first())
    } else {
        seq![s[0] as u8] + form_decode(s.drop_first())
    }
}

proof fn lemma_form_encode_push(s: Seq<u8>, b: u8)
    ensures
        form_encode(s.push(b)) == form_encode(s) + encode_byte(b),
    decreases s.len(),
{
    if s.len() == 0 {
        assert(s.push(b).drop_first() == s);
        assert(encode_byte(b) + Seq::<char>::empty() == encode_byte(b));
    } else {
        lemma_form_encode_push(s.drop_first(), b);
        assert(s.push(b).drop_first() == s.drop_first().push(b));
    }
}

/// Decoding undoes the encoding: the query that `tap_url` sends is exactly
/// the bytes of the query it was given.
pub proof fn form_decode_undoes_encode(s: Seq<u8>)
    ensures
        form_decode(form_encode(s)) == s,
    decreases s.len(),
{
    if s.len() > 0 {
        let b = s[0];
        let rest = form_encode(s.drop_first());
        form_decode_undoes_encode(s.drop_first());
        let e = encode_byte(b) + rest;
        if is_unreserved(b) {
            assert(e.drop_first() == rest);
        } else if b == 32 {
            assert(e.drop_first() == rest);
        } else {
            assert(e.skip(3) == rest);
            assert(hex_value(hex_digit(b / 16)) == b / 16);
            assert(hex_value(hex_digit(b % 16)) == b % 16);
        }
        assert(seq![b] + s.drop_first() == s);
    }
}

/// An upper-case hexadecimal digit.
pub open spec fn is_upper_hex(c: char) -> bool {
    ('0' <= c <= '9') || ('A' <= c <= 'F')
}

/// A character the encoding may emit: an unreserved one, `+`, or `%`.
pub open spec fn is_form_char(c: char) -> bool {
    ||| 'A' <= c <= 'Z'
    ||| 'a' <= c <= 'z'
    ||| '0' <= c <= '9'
    ||| c == '-' || c == '_' || c == '.' || c == '~'
    ||| c == '+' || c == '%'
}

/// How many bytes of `s` the encoding escapes as `%XX`.
pub open spec fn escaped_count(s: Seq<u8>) -> nat
    decreases s.len(),
{
    if s.len() == 0 {
        0
    } else {
        (if is_unreserved(s[0]) || s[0] == 32 {
            0nat
        } else {
            1nat
        }) + escaped_count(s.drop_first())
    }
}

proof fn lemma_encode_byte_shape(b: u8)
    ensures
        forall|i: int| 0 <= i < encode_byte(b).len() ==> is_form_char(#[trigger] encode_byte(b)[i]),
        forall|i: int|
            0 <= i < encode_byte(b).len() && #[trigger] encode_byte(b)[i] == '%' ==> i == 0
                && encode_byte(b).len() == 3 && is_upper_hex(encode_byte(b)[1]) && is_upper_hex(
                encode_byte(b)[2],
            ),
        encode_byte(b).len() == if is_unreserved(b) || b == 32 {
            1int
        } else {
            3int
        },
{
    let e = encode_byte(b);
    if is_unreserved(b) {
        assert((b as char) as u32 == b as u32);
    } else if b != 32 {
        let hi = b / 16;
        let lo = b % 16;
        assert(hex_digit(hi) as u32 == (if hi < 10 { 48 + hi } else { 55 + hi }));
        assert(hex_digit(lo) as u32 == (if lo < 10 { 48 + lo } else { 55 + lo }));
    }
}

/// The shape of the encoding: only unreserved characters, `+` and `%`
/// appear; every `%` starts a `%XX` with two upper-case hexadecimal digits;
/// and the text is as long as the input plus two for every escaped byte.
pub proof fn form_encode_shape(s: Seq<u8>)
    ensures
        forall|i: int| 0 <= i < form_encode(s).len() ==> is_form_char(#[trigger] form_encode(s)[i]),
        forall|i: int|
            0 <= i < form_encode(s).len() && #[trigger] form_encode(s)[i] == '%' ==> i + 2
                < form_encode(s).len() && is_upper_hex(form_encode(s)[i + 1]) && is_upper_hex(
                form_encode(s)[i + 2],
            ),
        form_encode(s).len() == s.len() + 2 * escaped_count(s),
    decreases s.len(),
{
    if s.len() > 0 {
        let e = encode_byte(s[0]);
        let rest = form_encode(s.drop_first());
        let r = form_encode(s);
        form_encode_shape(s.drop_first());
        lemma_encode_byte_shape(s[0]);
        assert(r == e + rest);
        assert forall|i: int| 0 <= i < r.len() implies is_form_char(#[trigger] r[i]) by {
            if i < e.len() {
                assert(r[i] == e[i]);
            } else {
                assert(r[i] == rest[i - e.len()]);
            }
        }
        assert forall|i: int| 0 <= i < r.len() && #[trigger] r[i] == '%' implies i + 2 < r.len()
            && is_upper_hex(r[i + 1]) && is_upper_hex(r[i + 2]) by {
            if i < e.len() {
                assert(r[i] == e[i]);
                assert(r[i + 1] == e[i + 1] && r[i + 2] == e[i + 2]);
            } else {
                let k = i - e.len();
                assert(r[i] == rest[k]);
                assert(r[i + 1] == rest[k + 1] && r[i + 2] == rest[k + 2]);
            }
        }
    }
}

/// `hex_digit` computed.
fn hex_char(n: u8) -> (c: char)
    requires
        n < 16,
    ensures
        c == hex_digit(n),
{
    if n < 10 {
        (48 + n) as char
    } else {
        (55 + n) as char
    }
}

/// Minimal `application/x-www-form-urlencoded` encoder.
fn urlencoding_lite(s: &str) -> (out: String)
    ensures
        out@ == form_encode(s.spec_bytes()),
{
    let bytes = s.as_bytes();
    let mut out = String::new();
    let mut i: usize = 0;
    while i < bytes.len()
        invariant
            i <= bytes.len(),
            bytes@ == s.spec_bytes(),
            out@ == form_encode(bytes@.take(i as int)),
        decreases bytes.len() - i,
    {
        let b = bytes[i];
        proof {
            lemma_form_encode_push(bytes@.take(i as int), b);
            assert(bytes@.take(i + 1) == bytes@.take(i as int).push(b));
        }
        if (65 <= b && b <= 90) || (97 <= b && b <= 122) || (48 <= b && b <= 57) || b == 45 || b
            == 95 || b == 46 || b == 126 {
            push_char(&mut out, b as char);
        } else if b == 32 {
            push_char(&mut out, '+');
        } else {
            push_char(&mut out, '%');
            push_char(&mut out, hex_char(b / 16));
            push_char(&mut out, hex_char(b % 16));
        }
        assert(out@ == form_encode(bytes@.take(i + 1)));
        i = i + 1;
    }
    assert(bytes@.take(bytes.len() as int) == bytes@);
    out
}

/// The TAP URL that runs `query` and answers in CSV.
pub fn tap_url(query: &str) -> (url: String)
    ensures
        url@ == TAP_SYNC@ + "?query="@ + form_encode(query.spec_bytes()) + "&format=csv"@,
{
    let encoded = urlencoding_lite(query);
    let mut url = owned(TAP_SYNC);
    push_all(&mut url, "?query=");
    push_all(&mut url, encoded.as_str());
    push_all(&mut url, "&format=csv");
    url
}

/// A cell as the archive CSV gives it: trimmed, then stripped of quotes.
pub open spec fn clean_cell(s: Seq<char>) -> Seq<char> {
    strip_char(trim(s), '"')
}

/// A CSV cell as text: trimmed, then stripped of quotes.
pub fn parse_string(s: &str) -> (r: String)
    ensures
        r@ == clean_cell(s@),
{
    let t = trimmed(s);
    strip_char_string(&t, '"')
}

/// One CSV row: its `(header, value)` pairs in column order.
pub type CsvRow = Vec<(String, String)>;

pub open spec fn row_view(row: Seq<(String, String)>) -> Seq<(Seq<char>, Seq<char>)> {
    row.map_values(|p: (String, String)| (p.0@, p.1@))
}

/// The value under `key`: that of its last column (a repeated header keeps
/// its last value).
pub open spec fn row_lookup(row: Seq<(Seq<char>, Seq<char>)>, key: Seq<char>) -> Option<Seq<char>>
    decreases row.len(),
{
    if row.len() == 0 {
        None
    } else if row.last().0 == key {
        Some(row.last().1)
    } else {
        row_lookup(row.drop_last(), key)
    }
}

/// The value under `key`, or `""` when the row has no such column.
pub fn get<'a>(row: &'a CsvRow, key: &str) -> (r: &'a str)
    ensures
        r@ == match row_lookup(row_view(row@), key@) {
            Some(v) => v,
            None => Seq::<char>::empty(),
        },
{
    let mut i: usize = row.len();
    assert(row_view(row@).take(row.len() as int) =~= row_view(row@));
    while i > 0
        invariant
            i <= row.len(),
            row_lookup(row_view(row@), key@) == row_lookup(row_view(row@).take(i as int), key@),
        decreases i,
    {
        let ghost t = row_view(row@).take(i as int);
        assert(t.drop_last() == row_view(row@).take(i - 1));
        assert(t.last() == (row@[i - 1].0@, row@[i - 1].1@));
        if crate::text::str_eq(row[i - 1].0.as_str(), key) {
            return row[i - 1].1.as_str();
        }
        i = i - 1;
    }
    proof {
        reveal_strlit("");
    }
    ""
}

/// What a flexible CSV reader makes of `bytes`: the header record and the
/// data records, each a list of fields; `None` when it reports an error.
pub uninterp spec fn csv_table(bytes: Seq<u8>) -> Option<(Seq<Seq<char>>, Seq<Seq<Seq<char>>>)>;

pub open spec fn strings_view(v: Seq<String>) -> Seq<Seq<char>> {
    v.map_values(|s: String| s@)
}

pub open spec fn records_view(v: Seq<Vec<String>>) -> Seq<Seq<Seq<char>>> {
    v.map_values(|r: Vec<String>| strings_view(r@))
}

/// `csv::ReaderBuilder::new().flexible(true)` over `bytes`: the header
/// record and every data record. The result is named `csv_table(bytes)`;
/// an error comes exactly when `csv_table(bytes)` is `None`.
#[verifier::external_body]
fn csv_records(bytes: &[u8]) -> (r: Result<(Vec<String>, Vec<Vec<String>>), csv::Error>)
    ensures
        match r {
            Ok((h, recs)) => csv_table(bytes@) == Some((strings_view(h@), records_view(recs@))),
            Err(_) => csv_table(bytes@).is_none(),
        },
{
    let mut rdr = csv::ReaderBuilder::new().flexible(true).from_reader(bytes);
    let headers: Vec<String> = rdr.headers()?.iter().map(|f| f.to_string()).collect();
    let mut recs: Vec<Vec<String>> = Vec::new();
    for rec in rdr.records() {
        recs.push(rec?.iter().map(|f| f.to_string()).collect());
    }
    Ok((headers, recs))
}

/// The row a record makes under `headers`: header `j` paired with field `j`,
/// as far as both go.
pub open spec fn csv_row(headers: Seq<Seq<char>>, rec: Seq<Seq<char>>) -> Seq<(Seq<char>, Seq<char>)> {
    let n = if headers.len() < rec.len() {
        headers.len()
    } else {
        rec.len()
    };
    Seq::new(n, |j: int| (headers[j], rec[j]))
}

/// The header record and the data records of a CSV text, as a flexible
/// reader gives them (the records keep every field, however many the header
/// has).
pub fn csv_table_records(bytes: &[u8]) -> (r: Result<(Vec<String>, Vec<Vec<String>>), ExoError>)
    ensures
        match r {
            Ok((h, recs)) => csv_table(bytes@) == Some((strings_view(h@), records_view(recs@))),
            Err(e) => csv_table(bytes@).is_none() && e is Csv,
        },
{
    match csv_records(bytes) {
        Ok(x) => Ok(x),
        Err(e) => Err(ExoError::Csv(e)),
    }
}

/// The rows of a header record and data records: header `j` paired with
/// field `j`, as far as both go.
pub fn rows_from_records(headers: &Vec<String>, recs: &Vec<Vec<String>>) -> (r: Vec<CsvRow>)
    ensures
        r@.len() == recs@.len(),
        forall|i: int|
            0 <= i < recs@.len() ==> row_view(#[trigger] r@[i]@) == csv_row(
                strings_view(headers@),
                records_view(recs@)[i],
            ),
{
    let ghost h = strings_view(headers@);
    let mut rows: Vec<CsvRow> = Vec::new();
    let mut i: usize = 0;
    while i < recs.len()
        invariant
            i <= recs.len(),
            h == strings_view(headers@),
            rows@.len() == i,
            forall|k: int|
                0 <= k < i ==> row_view(#[trigger] rows@[k]@) == csv_row(h, records_view(recs@)[k]),
        decreases recs.len() - i,
    {
        let rec = &recs[i];
        let n = if headers.len() < rec.len() {
            headers.len()
        } else {
            rec.len()
        };
        let mut row: CsvRow = Vec::new();
        let mut j: usize = 0;
        while j < n
            invariant
                j <= n,
                n <= headers.len(),
                n <= rec.len(),
                row@.len() == j,
                forall|m: int|
                    0 <= m < j ==> (#[trigger] row@[m]).0@ == headers@[m]@ && row@[m].1@ == rec@[m]@,
            decreases n - j,
        {
            row.push((headers[j].clone(), rec[j].clone()));
            j = j + 1;
        }
        assert(row_view(row@) =~= csv_row(h, records_view(recs@)[i as int]));
        rows.push(row);
        i = i + 1;
    }
    rows
}

/// The rows of a CSV text whose first record is the header.
pub fn csv_rows(bytes: &[u8]) -> (r: Result<Vec<CsvRow>, ExoError>)
    ensures
        match r {
            Ok(rows) => csv_table(bytes@) matches Some((h, recs)) && rows@.len() == recs.len() && forall|i: int|
                0 <= i < recs.len() ==> row_view(#[trigger] rows@[i]@) == csv_row(h, recs[i]),
            Err(e) => csv_table(bytes@).is_none() && e is Csv,
        },
{
    match csv_table_records(bytes) {
        Err(e) => Err(e),
        Ok((headers, recs)) => Ok(rows_from_records(&headers, &recs)),
    }
}

/// A TAP answer is kept only when it looks like CSV: it holds a comma.
pub fn check_tap_csv(filename: &str, body: &str) -> (r: Result<(), ExoError>)
    ensures
        r is Ok <==> contains(body@, ","@),
        r matches Err(e) ==> e matches ExoError::Http(m) && m@ == "TAP response for "@ + filename@
            + " did not look like CSV"@,
{
    if str_contains(body, ",") {
        Ok(())
    } else {
        let mut m = owned("TAP response for ");
        push_all(&mut m, filename);
        push_all(&mut m, " did not look like CSV");
        Err(ExoError::Http(m))
    }
}

} // verus!
