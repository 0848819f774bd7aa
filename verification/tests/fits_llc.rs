use exo_planets::lossy::lossy_string;
use exo_planets::lightcurve::{spec_rows, LightCurveSpec};
use exo_planets::error::ExoError;
use exo_planets::fits_llc::{parse_llc_fits, LlcRow, RawReal};

fn card(s: &str) -> String {
    let mut c = s.to_string();
    while c.len() < 80 {
        c.push(' ');
    }
    c.truncate(80);
    c
}

fn header_block(cards: &[&str]) -> Vec<u8> {
    let mut v = Vec::new();
    for c in cards {
        v.extend(card(c).into_bytes());
    }
    v.extend(card("END").into_bytes());
    while v.len() % 2880 != 0 {
        v.push(b' ');
    }
    v
}

fn value(r: RawReal) -> f64 {
    match r {
        RawReal::Binary64(b) => f64::from_bits(b),
        RawReal::Binary32(b) => f32::from_bits(b) as f64,
    }
}

fn primary() -> Vec<u8> {
    header_block(&[
        "SIMPLE  =                    T",
        "BITPIX  =                    8",
        "NAXIS   =                    0",
    ])
}

fn table_header(nrows: usize) -> Vec<u8> {
    let n2 = format!("NAXIS2  = {:>20}", nrows);
    header_block(&[
        "XTENSION= 'BINTABLE'",
        "BITPIX  =                    8",
        "NAXIS   =                    2",
        "NAXIS1  =                   24",
        n2.as_str(),
        "PCOUNT  =                    0",
        "GCOUNT  =                    1",
        "TFIELDS =                    4",
        "TTYPE1  = 'TIME    '",
        "TFORM1  = 'D       '",
        "TTYPE2  = 'PDCSAP_FLUX'",
        "TFORM2  = 'E       '",
        "TTYPE3  = 'PDCSAP_FLUX_ERR'",
        "TFORM3  = 'E       '",
        "TTYPE4  = 'SAP_QUALITY'",
        "TFORM4  = 'J       '",
    ])
}

fn rows_block(rows: &[(f64, f32, f32, i32)]) -> Vec<u8> {
    let mut data = Vec::new();
    for (t, f, e, q) in rows {
        data.extend(t.to_be_bytes());
        data.extend(f.to_be_bytes());
        data.extend(e.to_be_bytes());
        data.extend(q.to_be_bytes());
        data.extend([0u8; 4]);
    }
    while data.len() % 2880 != 0 {
        data.push(0);
    }
    data
}

fn parse_message(r: Result<Vec<LlcRow>, ExoError>) -> String {
    match r {
        Err(ExoError::Parse(m)) => m,
        other => panic!("expected a parse error, got {:?}", other),
    }
}

#[test]
fn parse_synthetic_llc_bintable() {
    let mut fits = header_block(&[
        "SIMPLE  =                    T",
        "BITPIX  =                    8",
        "NAXIS   =                    0",
    ]);
    let ext = header_block(&[
        "XTENSION= 'BINTABLE'",
        "BITPIX  =                    8",
        "NAXIS   =                    2",
        "NAXIS1  =                   24",
        "NAXIS2  =                    2",
        "PCOUNT  =                    0",
        "GCOUNT  =                    1",
        "TFIELDS =                    4",
        "TTYPE1  = 'TIME    '",
        "TFORM1  = 'D       '",
        "TTYPE2  = 'PDCSAP_FLUX'",
        "TFORM2  = 'E       '",
        "TTYPE3  = 'PDCSAP_FLUX_ERR'",
        "TFORM3  = 'E       '",
        "TTYPE4  = 'SAP_QUALITY'",
        "TFORM4  = 'J       '",
    ]);
    fits.extend(ext);
    // row: D + E + E + J = 8+4+4+4 = 20 — pad to NAXIS1=24
    let mut data = Vec::new();
    for (t, f) in [(131.5_f64, 1000.0_f32), (131.52, 999.5)] {
        data.extend(t.to_be_bytes());
        data.extend(f.to_be_bytes());
        data.extend(1.0_f32.to_be_bytes());
        data.extend(0_i32.to_be_bytes());
        data.extend([0u8; 4]);
    }
    while data.len() % 2880 != 0 {
        data.push(0);
    }
    fits.extend(data);
    let rows = parse_llc_fits(&fits).unwrap();
    assert_eq!(rows.len(), 2);
    assert!((value(rows[0].time_bkjd) - 131.5).abs() < 1e-9);
    assert!((value(rows[0].flux) - 1000.0).abs() < 1e-3);
}

#[test]
fn samples_keep_bits_error_and_quality() {
    let mut fits = primary();
    fits.extend(table_header(1));
    fits.extend(rows_block(&[(200.25, 12.5, 0.75, -3)]));
    let rows = parse_llc_fits(&fits).unwrap();
    assert_eq!(rows.len(), 1);
    assert_eq!(rows[0].time_bkjd, RawReal::Binary64(200.25_f64.to_bits()));
    assert_eq!(rows[0].flux, RawReal::Binary32(12.5_f32.to_bits()));
    assert_eq!(rows[0].flux_err, Some(RawReal::Binary32(0.75_f32.to_bits())));
    assert_eq!(rows[0].quality, -3);
}

#[test]
fn non_finite_or_non_positive_flux_rows_are_dropped() {
    let mut fits = primary();
    fits.extend(table_header(5));
    fits.extend(rows_block(&[
        (1.0, 0.0, 1.0, 0),
        (2.0, -5.0, 1.0, 0),
        (3.0, f32::NAN, 1.0, 0),
        (f64::INFINITY, 10.0, 1.0, 0),
        (5.0, 7.0, f32::NAN, 1),
    ]));
    let rows = parse_llc_fits(&fits).unwrap();
    assert_eq!(rows.len(), 1);
    assert_eq!(value(rows[0].time_bkjd), 5.0);
    // A non-finite error reads as no error.
    assert_eq!(rows[0].flux_err, None);
    assert_eq!(rows[0].quality, 1);
}

#[test]
fn all_rows_dropped_is_an_error() {
    let mut fits = primary();
    fits.extend(table_header(1));
    fits.extend(rows_block(&[(1.0, 0.0, 1.0, 0)]));
    assert_eq!(parse_message(parse_llc_fits(&fits)), "no finite PDCSAP samples");
}

#[test]
fn empty_or_truncated_input_is_a_header_error() {
    assert_eq!(parse_message(parse_llc_fits(&[])), "truncated FITS header");
    let mut no_end = Vec::new();
    for _ in 0..36 {
        no_end.extend(card("COMMENT nothing here").into_bytes());
    }
    assert_eq!(parse_message(parse_llc_fits(&no_end)), "truncated FITS header");
    // Primary header fine, no extension.
    assert_eq!(parse_message(parse_llc_fits(&primary())), "truncated FITS header");
}

#[test]
fn extension_must_be_a_bintable() {
    let mut fits = primary();
    fits.extend(header_block(&["XTENSION= 'IMAGE   '", "NAXIS   =                    0"]));
    assert_eq!(parse_message(parse_llc_fits(&fits)), "expected BINTABLE, got IMAGE");
}

#[test]
fn empty_table_is_an_error() {
    let mut fits = primary();
    fits.extend(table_header(0));
    assert_eq!(parse_message(parse_llc_fits(&fits)), "empty BINTABLE");
}

#[test]
fn unknown_form_and_missing_columns() {
    let mut fits = primary();
    fits.extend(header_block(&[
        "XTENSION= 'BINTABLE'",
        "NAXIS1  =                    8",
        "NAXIS2  =                    1",
        "TFIELDS =                    1",
        "TTYPE1  = 'TIME    '",
        "TFORM1  = 'Q'",
    ]));
    assert_eq!(parse_message(parse_llc_fits(&fits)), "unsupported TFORM Q");

    let mut fits = primary();
    fits.extend(header_block(&[
        "XTENSION= 'BINTABLE'",
        "NAXIS1  =                    8",
        "NAXIS2  =                    1",
        "TFIELDS =                    1",
        "TTYPE1  = 'FLUX    '",
    ]));
    assert_eq!(parse_message(parse_llc_fits(&fits)), "TIME column missing");

    let mut fits = primary();
    fits.extend(header_block(&[
        "XTENSION= 'BINTABLE'",
        "NAXIS1  =                    8",
        "NAXIS2  =                    1",
        "TFIELDS =                    1",
        "TTYPE1  = 'TIME    '",
    ]));
    assert_eq!(parse_message(parse_llc_fits(&fits)), "PDCSAP_FLUX column missing");
}

#[test]
fn table_longer_than_the_file_is_truncated() {
    let mut fits = primary();
    fits.extend(table_header(1000));
    fits.extend(rows_block(&[(1.0, 2.0, 1.0, 0)]));
    assert_eq!(parse_message(parse_llc_fits(&fits)), "truncated BINTABLE data");
}

#[test]
fn column_past_the_row_is_an_error() {
    let mut fits = primary();
    fits.extend(header_block(&[
        "XTENSION= 'BINTABLE'",
        "NAXIS1  =                    8",
        "NAXIS2  =                    1",
        "TFIELDS =                    2",
        "TTYPE1  = 'TIME    '",
        "TFORM1  = 'D'",
        "TTYPE2  = 'PDCSAP_FLUX'",
        "TFORM2  = 'E'",
    ]));
    let mut data = 1.0_f64.to_be_bytes().to_vec();
    while data.len() % 2880 != 0 {
        data.push(0);
    }
    fits.extend(data);
    assert_eq!(parse_message(parse_llc_fits(&fits)), "column outside its row");
}

#[test]
fn primary_data_is_skipped_by_its_padded_length() {
    // A primary HDU with 10 bytes of data occupies one 2880-byte block.
    let mut fits = header_block(&[
        "SIMPLE  =                    T",
        "BITPIX  =                    8",
        "NAXIS   =                    1",
        "NAXIS1  =                   10",
    ]);
    fits.extend(vec![0u8; 2880]);
    fits.extend(table_header(1));
    fits.extend(rows_block(&[(42.0, 3.0, 1.0, 0)]));
    let rows = parse_llc_fits(&fits).unwrap();
    assert_eq!(rows.len(), 1);
    assert_eq!(value(rows[0].time_bkjd), 42.0);
}

#[test]
fn later_card_overrides_and_unquoted_values_parse() {
    let mut fits = primary();
    fits.extend(header_block(&[
        "XTENSION= 'BINTABLE'           / binary table",
        "NAXIS1  =                   99",
        "NAXIS1  =                   24 / the real row length",
        "NAXIS2  =                    1",
        "TFIELDS =                    2",
        "TTYPE1  = 'TIME    '",
        "TFORM1  = '1D      '",
        "TTYPE2  = 'PDCSAP_FLUX'",
        "TFORM2  = '1E'",
        "HISTORY TFORM2 = 'Q'",
    ]));
    fits.extend(rows_block(&[(7.5, 2.5, 1.0, 0)]));
    let rows = parse_llc_fits(&fits).unwrap();
    assert_eq!(rows.len(), 1);
    assert_eq!(value(rows[0].flux), 2.5);
    assert_eq!(rows[0].flux_err, None);
    assert_eq!(rows[0].quality, 0);
}

#[test]
fn spec_rows_keep_the_middle_window() {
    let mut fits = primary();
    fits.extend(table_header(5));
    fits.extend(rows_block(&[
        (1.0, 10.0, 0.1, 0),
        (2.0, 11.0, 0.1, 0),
        (3.0, 12.0, 0.1, 0),
        (4.0, 13.0, 0.1, 0),
        (5.0, 14.0, 0.1, 0),
    ]));
    let spec = LightCurveSpec {
        name: "test",
        target_id: 1,
        id_kind: "TIC",
        mission: "TESS",
        cadence: "2-min",
        cache_csv: "x.csv",
        source_url: "https://example.invalid/x.fits",
        note: "",
        time_offset_days: 2167,
        extract_mid_points: Some(3),
    };
    let rows = spec_rows(&fits, &spec).unwrap();
    let times: Vec<f64> = rows.iter().map(|r| value(r.time_bkjd)).collect();
    assert_eq!(times, vec![2.0, 3.0, 4.0]);
    let all = LightCurveSpec { extract_mid_points: None, ..spec };
    assert_eq!(spec_rows(&fits, &all).unwrap().len(), 5);
    assert_eq!(parse_message(spec_rows(&fits[..100], &all)), "truncated FITS header");
}

#[test]
fn header_values_trim_unicode_whitespace() {
    let mut fits = primary();
    fits.extend(header_block(&[
        "XTENSION= 'BINTABLE'",
        "BITPIX  =                    8",
        "NAXIS   =                    2",
        "NAXIS1  =                   24",
        "NAXIS2  =                    1",
        "PCOUNT  =                    0",
        "GCOUNT  =                    1",
        "TFIELDS =                    4",
        "TTYPE1  = 'TIME\u{a0}'",
        "TFORM1  = 'D       '",
        "TTYPE2  = '\u{2003}PDCSAP_FLUX'",
        "TFORM2  = 'E       '",
        "TTYPE3  = 'PDCSAP_FLUX_ERR'",
        "TFORM3  = 'E       '",
        "TTYPE4  = 'SAP_QUALITY'",
        "TFORM4  = 'J       '",
    ]));
    fits.extend(rows_block(&[(200.25, 12.5, 0.75, 0)]));
    let rows = parse_llc_fits(&fits).unwrap();
    assert_eq!(rows.len(), 1);
    assert_eq!(rows[0].time_bkjd, RawReal::Binary64(200.25_f64.to_bits()));
}

#[test]
fn error_values_are_decoded_lossily() {
    let mut fits = primary();
    fits.extend(header_block(&[
        "XTENSION= 'BINTABLE'",
        "NAXIS1  =                    8",
        "NAXIS2  =                    1",
        "TFIELDS =                    1",
        "TTYPE1  = 'TIME    '",
        "TFORM1  = 'D\u{e9}'",
    ]));
    assert_eq!(parse_message(parse_llc_fits(&fits)), "unsupported TFORM D\u{e9}");

    let mut fits = primary();
    let mut ext = header_block(&[
        "XTENSION= 'BINTABLE'",
        "NAXIS1  =                    8",
        "NAXIS2  =                    1",
        "TFIELDS =                    1",
        "TTYPE1  = 'TIME    '",
        "TFORM1  = 'D@@'",
    ]);
    let at = ext.windows(2).position(|w| w == b"@@").unwrap();
    ext[at] = 0xe2;
    ext[at + 1] = 0x80;
    fits.extend(ext);
    assert_eq!(parse_message(parse_llc_fits(&fits)), "unsupported TFORM D\u{fffd}");
}

#[test]
fn lossy_decoding_matches_std() {
    let cases: Vec<Vec<u8>> = vec![
        b"plain".to_vec(),
        "\u{e9}\u{20ac}\u{1f600}".as_bytes().to_vec(),
        vec![0xff, 0x41, 0xc3],
        vec![0xe2, 0x80, 0x41, 0xf0, 0x9f, 0x98],
        vec![0xed, 0xa0, 0x80, 0xe0, 0x80, 0x80, 0xf4, 0x90, 0x80, 0x80],
        vec![0xc0, 0xc1, 0xf5, 0x80, 0xbf, 0xc2, 0xa0, 0xef, 0xbf, 0xbd],
        (0u8..=255).collect(),
    ];
    for b in cases {
        assert_eq!(lossy_string("x:", &b), format!("x:{}", String::from_utf8_lossy(&b)), "{b:?}");
    }
}
