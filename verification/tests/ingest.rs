use exo_planets::error::ExoError;
use exo_planets::ingest::{check_tap_csv, csv_rows, rows_from_records, fetch_specs, get, parse_string, tap_url, Q_KOI_NAMED, TAP_SYNC};

#[test]
fn tap_url_form_encodes_the_query() {
    assert_eq!(
        tap_url("SELECT a FROM t WHERE x='1'"),
        format!("{TAP_SYNC}?query=SELECT+a+FROM+t+WHERE+x%3D%271%27&format=csv")
    );
    assert_eq!(tap_url(""), format!("{TAP_SYNC}?query=&format=csv"));
    assert_eq!(tap_url("a-b_c.d~e,f"), format!("{TAP_SYNC}?query=a-b_c.d~e%2Cf&format=csv"));
    assert_eq!(tap_url("\u{e9}"), format!("{TAP_SYNC}?query=%C3%A9&format=csv"));
}

#[test]
fn fetch_specs_list_seven_files() {
    let specs = fetch_specs();
    assert_eq!(specs.len(), 7);
    assert_eq!(specs[0].filename, "nasa_koi_confirmed_geometry_sample.csv");
    assert_eq!(specs[2].query, Q_KOI_NAMED);
    assert_eq!(specs[6].filename, "nasa_ps_k2_hosts.csv");
}

#[test]
fn parse_string_trims_and_strips_quotes() {
    assert_eq!(parse_string("  \"Kepler-10 b\"  "), "Kepler-10 b");
    assert_eq!(parse_string("plain"), "plain");
    assert_eq!(parse_string("\"\""), "");
    assert_eq!(parse_string("   "), "");
}

#[test]
fn csv_rows_pair_headers_with_fields() {
    let rows = csv_rows(b"kepler_name,koi_period\nKepler-10 b,0.837\nKepler-22 b\n").unwrap();
    assert_eq!(rows.len(), 2);
    assert_eq!(get(&rows[0], "kepler_name"), "Kepler-10 b");
    assert_eq!(get(&rows[0], "koi_period"), "0.837");
    assert_eq!(get(&rows[1], "kepler_name"), "Kepler-22 b");
    assert_eq!(get(&rows[1], "koi_period"), "");
    assert_eq!(get(&rows[0], "missing"), "");
}

#[test]
fn csv_rows_repeated_header_keeps_last() {
    let rows = csv_rows(b"a,a\n1,2\n").unwrap();
    assert_eq!(rows[0].len(), 2);
    assert_eq!(get(&rows[0], "a"), "2");
}

#[test]
fn csv_rows_header_only_is_empty() {
    assert_eq!(csv_rows(b"a,b\n").unwrap().len(), 0);
}

#[test]
fn csv_rows_reports_invalid_utf8() {
    match csv_rows(b"a,b\n\xff,1\n") {
        Err(ExoError::Csv(_)) => {}
        other => panic!("unexpected {:?}", other.map(|r| r.len())),
    }
}

#[test]
fn tap_answer_must_look_like_csv() {
    assert!(check_tap_csv("nasa_ps_k2_hosts.csv", "pl_name,hostname\nK2-3 b,K2-3\n").is_ok());
    match check_tap_csv("nasa_ps_k2_hosts.csv", "<html>503</html>") {
        Err(ExoError::Http(m)) => {
            assert_eq!(m, "TAP response for nasa_ps_k2_hosts.csv did not look like CSV")
        }
        other => panic!("unexpected {:?}", other),
    }
}

#[test]
fn rows_pair_headers_with_fields_as_far_as_both_go() {
    let headers = vec!["a".to_string(), "b".to_string()];
    let recs = vec![
        vec!["1".to_string(), "2".to_string(), "3".to_string()],
        vec!["4".to_string()],
        vec![],
    ];
    let rows = rows_from_records(&headers, &recs);
    assert_eq!(rows.len(), 3);
    assert_eq!(
        rows[0],
        vec![("a".to_string(), "1".to_string()), ("b".to_string(), "2".to_string())]
    );
    assert_eq!(rows[1], vec![("a".to_string(), "4".to_string())]);
    assert!(rows[2].is_empty());
}

#[test]
fn tap_url_query_decodes_back_to_the_query() {
    for q in [Q_KOI_NAMED, "SELECT a FROM t WHERE x='1' AND y<2", "\u{e9}~+%&=", ""] {
        let url = tap_url(q);
        let parsed = ureq::get(&url).request_url().unwrap();
        let pairs = parsed.query_pairs();
        assert_eq!(pairs, vec![("query", q), ("format", "csv")]);
    }
}

#[test]
fn encoded_query_uses_form_characters_and_grows_by_escapes() {
    for q in [Q_KOI_NAMED, "a b", "\u{e9}%+", "plain-_.~"] {
        let url = tap_url(q);
        let enc = &url[TAP_SYNC.len() + "?query=".len()..url.len() - "&format=csv".len()];
        let escaped = q
            .bytes()
            .filter(|b| !(b.is_ascii_alphanumeric() || b"-_.~ ".contains(b)))
            .count();
        assert_eq!(enc.len(), q.len() + 2 * escaped);
        assert!(enc.chars().all(|c| c.is_ascii_alphanumeric() || "-_.~+%".contains(c)));
        for (i, c) in enc.char_indices() {
            if c == '%' {
                assert!(enc[i + 1..i + 3].chars().all(|h| h.is_ascii_digit() || ('A'..='F').contains(&h)));
            }
        }
    }
}
