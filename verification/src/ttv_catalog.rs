//! Published TTV catalog: Holczer et al. 2016 (VizieR J/ApJS/225/9 table4).
//!
//! NASA TAP has `ttv_flag` on PS, not a TTV time series. This cache is the
//! Holczer O-C scatter (minutes): planet-only timing, often planet-planet
//! interactions. Not moons. Holdout KOIs 351.02 / 490.02 / 5084.01 are
//! absent from this 2016 table.
//!
//! Here: the text of a KOI number, and the fixed-width fields of
//! `table4.dat` as its ReadMe lays them out (KOI in bytes 1-7, sigma_TT in
//! 9-14, S(O-C) in 16-22, p-value in 25-29).
use crate::text::{string_from, trim, trimmed};
use vstd::prelude::*;
use vstd::string::StringSliceAdditionalSpecFns;
use vstd::utf8::{
    decode_utf8, encode_utf8, encode_utf8_decode_utf8, encode_utf8_valid_utf8,
    is_char_boundary, is_char_boundary_iff_not_is_continuation_byte,
    is_char_boundary_start_end_of_seq, valid_utf8, valid_utf8_split,
};

verus! {

pub const HOLCZER_CACHE: &'static str = "holczer2016_table4_oc_scatter.csv";

pub const HOLCZER_SOURCE: &'static str = "Holczer+2016 ApJS 225, 9; VizieR J/ApJS/225/9 table4";

/// VizieR TAP (table4): often 503; CDS HTTP `/ftp/` is the cache source.
pub const HOLCZER_VIZIER_TAP: &'static str = "https://tapvizier.cds.unistra.fr/TAPVizieR/tap/sync";

pub const HOLCZER_TABLE4_DAT: &'static str = "https://cdsarc.cds.unistra.fr/ftp/J/ApJS/225/9/table4.dat";

pub const HOLCZER_README: &'static str = "https://cdsarc.cds.unistra.fr/ftp/J/ApJS/225/9/ReadMe";

/// `s` without its leading `K` / `k` characters.
pub open spec fn strip_leading_k(s: Seq<char>) -> Seq<char>
    decreases s.len(),
{
    if s.len() > 0 && (s[0] == 'K' || s[0] == 'k') {
        strip_leading_k(s.drop_first())
    } else {
        s
    }
}

/// The number part of a `kepoi_name` (`K00072.01` gives `00072.01`): the
/// name trimmed, then stripped of its leading `K` / `k` characters.
pub fn koi_number_text(kepoi: &str) -> (r: String)
    ensures
        r@ == strip_leading_k(trim(kepoi@)),
{
    let t = trimmed(kepoi);
    let mut i: usize = 0;
    assert(t@.skip(0) =~= t@);
    while i < t.len() && (t[i] == 'K' || t[i] == 'k')
        invariant
            i <= t@.len(),
            strip_leading_k(t@) == strip_leading_k(t@.skip(i as int)),
        decreases t@.len() - i,
    {
        assert(t@.skip(i as int).drop_first() =~= t@.skip(i + 1));
        i = i + 1;
    }
    assert(t@.skip(i as int) =~= t@.subrange(i as int, t@.len() as int));
    string_from(&t, i, t.len())
}

/// The first `\n` at or after byte `pos`, or the text's length.
pub open spec fn next_newline(b: Seq<u8>, pos: int) -> int
    decreases b.len() - pos,
{
    if pos >= b.len() {
        b.len() as int
    } else if b[pos] == 10 {
        pos
    } else {
        next_newline(b, pos + 1)
    }
}

pub proof fn lemma_next_newline(b: Seq<u8>, pos: int)
    requires
        0 <= pos,
    ensures
        pos <= next_newline(b, pos) || pos > b.len(),
        next_newline(b, pos) <= b.len(),
        next_newline(b, pos) < b.len() ==> b[next_newline(b, pos)] == 10,
        forall|t: int| pos <= t < next_newline(b, pos) ==> b[t] != 10,
    decreases b.len() - pos,
{
    if pos < b.len() && b[pos] != 10 {
        lemma_next_newline(b, pos + 1);
    }
}

/// The lines from byte `pos` on, as `(start, length)` byte spans, cut as
/// `str::lines` cuts them: a line ends before a `\n`, and before a `\r`
/// that precedes that `\n`; the end of the text closes the last line, and
/// nothing follows a final `\n`.
pub open spec fn line_spans(b: Seq<u8>, pos: int) -> Seq<(int, int)>
    decreases b.len() + 1 - pos,
{
    if pos < 0 || pos >= b.len() {
        seq![]
    } else {
        proof {
            lemma_next_newline(b, pos);
        }
        let e = next_newline(b, pos);
        let len = if e < b.len() && e > pos && b[e - 1] == 13 {
            e - 1 - pos
        } else {
            e - pos
        };
        seq![(pos, len)] + line_spans(b, e + 1)
    }
}

/// `line.get(lo..hi)` trimmed, for the line spanning `span` in the text
/// `b`; empty when the range leaves the line or does not fall on character
/// boundaries.
pub open spec fn fixed_field(b: Seq<u8>, span: (int, int), lo: int, hi: int) -> Seq<char> {
    if hi <= span.1 && is_char_boundary(b, span.0 + lo) && is_char_boundary(b, span.0 + hi) {
        trim(decode_utf8(b.subrange(span.0 + lo, span.0 + hi)))
    } else {
        seq![]
    }
}

/// The fields of one `table4.dat` row, each trimmed.
pub struct Table4Fields {
    pub koi: String,
    pub sig_tt: String,
    pub s_oc: String,
    pub pval: String,
}

pub open spec fn fields_view(f: Table4Fields) -> (Seq<char>, Seq<char>, Seq<char>, Seq<char>) {
    (f.koi@, f.sig_tt@, f.s_oc@, f.pval@)
}

/// The rows of the lines in `spans`: lines under 22 bytes are skipped; of
/// the others the KOI (bytes 0..7), sigma_TT (8..14), S(O-C) (15..22) and
/// p-value (24..29) fields.
pub open spec fn table4_rows(b: Seq<u8>, spans: Seq<(int, int)>) -> Seq<
    (Seq<char>, Seq<char>, Seq<char>, Seq<char>),
>
    decreases spans.len(),
{
    if spans.len() == 0 {
        seq![]
    } else {
        let rest = table4_rows(b, spans.drop_first());
        let sp = spans[0];
        if sp.1 < 22 {
            rest
        } else {
            seq![
                (
                    fixed_field(b, sp, 0, 7),
                    fixed_field(b, sp, 8, 14),
                    fixed_field(b, sp, 15, 22),
                    fixed_field(b, sp, 24, 29),
                ),
            ] + rest
        }
    }
}

/// A boundary of a text stays a boundary of any prefix that ends on a
/// boundary at or after it.
proof fn lemma_prefix_boundary(b: Seq<u8>, i: int, j: int)
    requires
        valid_utf8(b),
        0 <= i <= j <= b.len(),
        is_char_boundary(b, i),
        is_char_boundary(b, j),
    ensures
        valid_utf8(b.subrange(0, j)),
        is_char_boundary(b.subrange(0, j), i),
{
    valid_utf8_split(b, j);
    let p = b.subrange(0, j);
    if i == j {
        is_char_boundary_start_end_of_seq(p);
    } else if i > 0 {
        is_char_boundary_iff_not_is_continuation_byte(b, i);
        is_char_boundary_iff_not_is_continuation_byte(p, i);
    }
}

/// `line.get(lo..hi).unwrap_or("").trim()` for the line of `len` bytes
/// starting at byte `start` of `dat`.
fn fixed_field_text(dat: &str, start: usize, len: usize, lo: usize, hi: usize) -> (r: String)
    requires
        start + len <= dat.spec_bytes().len(),
        lo <= hi,
    ensures
        r@ == fixed_field(dat.spec_bytes(), (start as int, len as int), lo as int, hi as int),
{
    let ghost b = dat.spec_bytes();
    let n = dat.as_bytes().len();
    if hi > len {
        return String::new();
    }
    if !dat.is_char_boundary(start + lo) || !dat.is_char_boundary(start + hi) {
        return String::new();
    }
    proof {
        encode_utf8_valid_utf8(dat@);
        lemma_prefix_boundary(b, start + lo, start + hi);
    }
    let (head, _) = dat.split_at(start + hi);
    let (_, f) = head.split_at(start + lo);
    proof {
        assert(f.spec_bytes() =~= b.subrange(start + lo, start + hi));
        encode_utf8_decode_utf8(f@);
    }
    let t = trimmed(f);
    string_from(&t, 0, t.len())
}

/// The fixed-width fields of every `table4.dat` line of at least 22 bytes,
/// in order.
pub fn table4_fields(dat: &str) -> (r: Vec<Table4Fields>)
    ensures
        r@.map_values(|f: Table4Fields| fields_view(f)) == table4_rows(
            dat.spec_bytes(),
            line_spans(dat.spec_bytes(), 0),
        ),
{
    let bytes = dat.as_bytes();
    let ghost b = dat.spec_bytes();
    let n = bytes.len();
    let mut out: Vec<Table4Fields> = Vec::new();
    let mut pos: usize = 0;
    while pos < n
        invariant
            bytes@ == b,
            b == dat.spec_bytes(),
            n == b.len(),
            pos <= n,
            out@.map_values(|f: Table4Fields| fields_view(f)) + table4_rows(b, line_spans(b, pos as int))
                == table4_rows(b, line_spans(b, 0)),
        decreases n - pos,
    {
        let mut e = pos;
        while e < n && bytes[e] != 10
            invariant
                bytes@ == b,
                n == b.len(),
                pos <= e <= n,
                next_newline(b, pos as int) == next_newline(b, e as int),
            decreases n - e,
        {
            e = e + 1;
        }
        let len = if e < n && e > pos && bytes[e - 1] == 13 {
            e - 1 - pos
        } else {
            e - pos
        };
        let ghost spans = line_spans(b, pos as int);
        let ghost before = out@;
        proof {
            lemma_next_newline(b, pos as int);
            assert(spans == seq![(pos as int, len as int)] + line_spans(b, e + 1));
            assert(spans[0] == (pos as int, len as int));
            assert(spans.drop_first() =~= line_spans(b, e + 1));
        }
        if len >= 22 {
            let row = Table4Fields {
                koi: fixed_field_text(dat, pos, len, 0, 7),
                sig_tt: fixed_field_text(dat, pos, len, 8, 14),
                s_oc: fixed_field_text(dat, pos, len, 15, 22),
                pval: fixed_field_text(dat, pos, len, 24, 29),
            };
            out.push(row);
            assert(out@.map_values(|f: Table4Fields| fields_view(f)) =~= before.map_values(
                |f: Table4Fields| fields_view(f),
            ).push(fields_view(row)));
        }
        if e == n {
            assert(line_spans(b, e + 1) =~= Seq::<(int, int)>::empty());
            assert(table4_rows(b, line_spans(b, e + 1)) =~= Seq::empty());
            assert(line_spans(b, n as int) =~= Seq::<(int, int)>::empty());
            pos = n;
        } else {
            pos = e + 1;
        }
    }
    assert(line_spans(b, pos as int) =~= Seq::<(int, int)>::empty());
    assert(out@.map_values(|f: Table4Fields| fields_view(f)) + Seq::empty() =~= out@.map_values(
        |f: Table4Fields| fields_view(f),
    ));
    out
}

} // verus!
