use exo_planets::ttv_catalog::{koi_number_text, table4_fields};

#[test]
fn koi_number_text_strips_k_prefix() {
    assert_eq!(koi_number_text("K00072.01"), "00072.01");
    assert_eq!(koi_number_text("  k0072.01 "), "0072.01");
    assert_eq!(koi_number_text("KK1.01"), "1.01");
    assert_eq!(koi_number_text("5084.01"), "5084.01");
    assert_eq!(koi_number_text("Kepler-10 b"), "epler-10 b");
    assert_eq!(koi_number_text(""), "");
}

fn line(koi: f64, sig: f64, soc: f64, pval: &str) -> String {
    format!("{:>7.2} {:>6.2} {:>7.2}  {:>5}", koi, sig, soc, pval)
}

#[test]
fn table4_fixed_width_fields() {
    let dat = format!(
        "{}\n{}\r\nshort line\n{}",
        line(1.01, 0.12, 0.30, "0.5"),
        line(72.01, 1.5, 3.25, "1e-3"),
        line(5084.01, 10.0, 100.5, "")
    );
    let rows = table4_fields(&dat);
    assert_eq!(rows.len(), 3);
    assert_eq!(rows[0].koi, "1.01");
    assert_eq!(rows[0].sig_tt, "0.12");
    assert_eq!(rows[0].s_oc, "0.30");
    assert_eq!(rows[0].pval, "0.5");
    assert_eq!(rows[1].koi, "72.01");
    assert_eq!(rows[1].s_oc, "3.25");
    assert_eq!(rows[1].pval, "1e-3");
    assert_eq!(rows[2].koi, "5084.01");
    assert_eq!(rows[2].s_oc, "100.50");
    assert_eq!(rows[2].pval, "");
}

#[test]
fn table4_short_rows_and_missing_pvalue() {
    let exactly_22 = "   1.01   0.12    0.30";
    assert_eq!(exactly_22.len(), 22);
    let rows = table4_fields(&format!("{exactly_22}\n\n{}\n", &exactly_22[..21]));
    assert_eq!(rows.len(), 1);
    assert_eq!(rows[0].koi, "1.01");
    assert_eq!(rows[0].pval, "");
    assert!(table4_fields("").is_empty());
}

#[test]
fn table4_field_off_char_boundary_is_empty() {
    // 'é' is two bytes: byte 7 falls inside it, so the KOI field is empty.
    let l = "   1.0\u{e9}  0.12    0.30  0.5";
    let rows = table4_fields(l);
    assert_eq!(rows.len(), 1);
    assert_eq!(rows[0].koi, "");
    assert_eq!(rows[0].sig_tt, "0.12");
}

#[test]
fn table4_bare_cr_stays_in_the_last_line() {
    let l = format!("{}\r", line(2.01, 1.0, 2.0, "0.25"));
    let rows = table4_fields(&l);
    assert_eq!(rows[0].pval, "0.25");
}
