//! CSV exports read into plain strings, and the check of their header row.

use vstd::prelude::*;
use crate::utils::chars::{chars_to_string, push_str};
use crate::utils::num::{decimal, push_decimal};

verus! {

/// A CSV file read with its first row as the header: the header fields, the
/// records read before the first error (or all of them), and that error.
#[derive(Debug)]
pub struct CsvContent {
    pub headers: Vec<String>,
    pub records: Vec<Vec<String>>,
    pub error: Option<csv::Error>,
}

pub open spec fn strings_view(v: Seq<String>) -> Seq<Seq<char>> {
    v.map_values(|s: String| s@)
}

pub open spec fn records_view(v: Seq<Vec<String>>) -> Seq<Seq<Seq<char>>> {
    v.map_values(|r: Vec<String>| strings_view(r@))
}

/// The content of a `CsvContent`: header fields, records, and whether
/// reading stopped on an error.
pub open spec fn content_view(c: CsvContent) -> (Seq<Seq<char>>, Seq<Seq<Seq<char>>>, bool) {
    (strings_view(c.headers@), records_view(c.records@), c.error is Some)
}

/// What `Reader::headers` gives for a reader built by
/// `csv::ReaderBuilder::new().has_headers(true)` over `bytes`: the fields of
/// the first row, or `None` where it cannot be read.
pub uninterp spec fn csv_header_fields(bytes: Seq<u8>) -> Option<Seq<Seq<char>>>;

/// What `Reader::records` yields, item by item, for such a reader over
/// `bytes`: the fields of each record after the header row, or `None` for
/// an item that is an error.
pub uninterp spec fn csv_record_rows(bytes: Seq<u8>) -> Seq<Option<Seq<Seq<char>>>>;

/// The UTF-8 bytes that `encoding_rs_io` gives for `bytes` read as
/// Shift_JIS (with an explicit encoding no byte order mark is looked for).
pub uninterp spec fn shift_jis_decoded(bytes: Seq<u8>) -> Seq<u8>;

/// Every record has as many fields as the header row.
pub open spec fn records_match_header(c: (Seq<Seq<char>>, Seq<Seq<Seq<char>>>, bool)) -> bool {
    forall|i: int| 0 <= i < c.1.len() ==> #[trigger] c.1[i].len() == c.0.len()
}

pub open spec fn row_fields(o: Option<Seq<Seq<char>>>) -> Seq<Seq<char>> {
    match o {
        Some(r) => r,
        None => Seq::<Seq<char>>::empty(),
    }
}

/// The records before the first error.
pub open spec fn rows_before_error(rows: Seq<Option<Seq<Seq<char>>>>) -> Seq<Seq<Seq<char>>>
    decreases rows.len(),
{
    if rows.len() == 0 {
        Seq::<Seq<Seq<char>>>::empty()
    } else if rows[0] is None {
        Seq::<Seq<Seq<char>>>::empty()
    } else {
        seq![row_fields(rows[0])] + rows_before_error(rows.drop_first())
    }
}

pub open spec fn has_error(rows: Seq<Option<Seq<Seq<char>>>>) -> bool {
    exists|i: int| 0 <= i < rows.len() && rows[i] is None
}

/// What reading `bytes` (UTF-8 CSV, first row as header) gives: `None` where
/// the header row cannot be read, else the header, the records before the
/// first error, and whether there was one.
pub open spec fn csv_content(bytes: Seq<u8>) -> Option<(Seq<Seq<char>>, Seq<Seq<Seq<char>>>, bool)> {
    match csv_header_fields(bytes) {
        None => None,
        Some(h) => Some((h, rows_before_error(csv_record_rows(bytes)), has_error(csv_record_rows(bytes)))),
    }
}

/// The header row of `bytes`, read by `csv::Reader::headers` (whose error is
/// returned). The result is the name applied to the bytes.
#[verifier::external_body]
fn csv_headers(bytes: &[u8]) -> (r: Result<Vec<String>, csv::Error>)
    ensures
        r is Err <==> csv_header_fields(bytes@) is None,
        r matches Ok(h) ==> csv_header_fields(bytes@) == Some(strings_view(h@)),
{
    let mut rdr = csv::ReaderBuilder::new().has_headers(true).from_reader(bytes);
    Ok(rdr.headers()?.iter().map(String::from).collect())
}

/// Every item of `csv::Reader::records` over `bytes`, each record's fields
/// as strings. Besides the name, the contract states what the reader's
/// source shows: a reader that is not flexible takes the header row's
/// length as the length of every record and returns an error
/// (`UnequalLengths`) for a record of another length.
#[verifier::external_body]
fn csv_records(bytes: &[u8]) -> (r: Vec<Result<Vec<String>, csv::Error>>)
    ensures
        r@.len() == csv_record_rows(bytes@).len(),
        forall|i: int| 0 <= i < r@.len() ==> (#[trigger] r@[i] is Ok <==> csv_record_rows(bytes@)[i] is Some),
        forall|i: int| 0 <= i < r@.len() ==> (#[trigger] r@[i] matches Ok(v) ==> csv_record_rows(bytes@)[i] == Some(strings_view(v@))),
        forall|i: int| 0 <= i < r@.len() ==> (#[trigger] r@[i] matches Ok(v) ==> (csv_header_fields(bytes@) matches Some(h) ==> v@.len() == h.len())),
{
    let mut rdr = csv::ReaderBuilder::new().has_headers(true).from_reader(bytes);
    rdr.records().map(|rec| rec.map(|r| r.iter().map(String::from).collect())).collect()
}

/// `bytes` decoded from Shift_JIS to UTF-8 by
/// `encoding_rs_io::DecodeReaderBytesBuilder` (with `encoding_rs::SHIFT_JIS`),
/// read to the end. The decoder's errors come only from the reader it wraps,
/// and reading a byte slice does not fail, so the result is always `Ok`.
#[verifier::external_body]
fn decode_shift_jis(bytes: &[u8]) -> (r: Result<Vec<u8>, std::io::Error>)
    ensures
        r is Ok,
        r matches Ok(v) ==> v@ == shift_jis_decoded(bytes@),
{
    let mut decoded: Vec<u8> = Vec::new();
    let mut rdr = encoding_rs_io::DecodeReaderBytesBuilder::new().encoding(Some(encoding_rs::SHIFT_JIS)).build(bytes);
    std::io::Read::read_to_end(&mut rdr, &mut decoded)?;
    Ok(decoded)
}

pub open spec fn result_rows(v: Seq<Result<Vec<String>, csv::Error>>) -> Seq<Option<Seq<Seq<char>>>> {
    v.map_values(|x: Result<Vec<String>, csv::Error>| match x {
        Ok(r) => Some(strings_view(r@)),
        Err(_) => None,
    })
}

proof fn lemma_rows_before_error_split(rows: Seq<Option<Seq<Seq<char>>>>, k: int)
    requires
        0 <= k <= rows.len(),
        forall|i: int| 0 <= i < k ==> #[trigger] rows[i] is Some,
    ensures
        rows_before_error(rows) == rows.take(k).map_values(|o: Option<Seq<Seq<char>>>| row_fields(o))
            + rows_before_error(rows.skip(k)),
    decreases k,
{
    if k > 0 {
        let t = rows.drop_first();
        assert forall|i: int| 0 <= i < k - 1 implies #[trigger] t[i] is Some by {
            assert(t[i] == rows[i + 1]);
        }
        lemma_rows_before_error_split(t, k - 1);
        assert(t.skip(k - 1) =~= rows.skip(k));
        assert(rows.take(k).map_values(|o: Option<Seq<Seq<char>>>| row_fields(o)) =~= seq![
            row_fields(rows[0]),
        ] + t.take(k - 1).map_values(|o: Option<Seq<Seq<char>>>| row_fields(o)));
    } else {
        assert(rows.skip(0) =~= rows);
    }
}

/// Reads UTF-8 CSV `bytes` with the first row as header: the header row
/// (its error is returned), then the records up to the first error, which
/// is kept with them.
pub fn read_csv_utf8(bytes: &[u8]) -> (r: Result<CsvContent, csv::Error>)
    ensures
        r is Err <==> csv_content(bytes@) is None,
        r matches Ok(c) ==> csv_content(bytes@) == Some(content_view(c)) && records_match_header(
            content_view(c),
        ),
{
    let headers = csv_headers(bytes)?;
    let results = csv_records(bytes);
    let ghost rows = csv_record_rows(bytes@);
    let ghost h = strings_view(headers@);
    proof {
        assert(result_rows(results@) =~= rows);
    }
    let mut records: Vec<Vec<String>> = Vec::new();
    let mut error: Option<csv::Error> = None;
    let ghost mut seen: int = 0;
    for item in it: results.into_iter()
        invariant
            it.seq() == results@,
            seen == it.index(),
            rows == result_rows(results@),
            rows.len() == results@.len(),
            h.len() >= 0,
            csv_header_fields(bytes@) == Some(h),
            forall|i: int| 0 <= i < results@.len() ==> (#[trigger] results@[i] matches Ok(v) ==> v@.len() == h.len()),
            forall|i: int| 0 <= i < records@.len() ==> #[trigger] records@[i]@.len() == h.len(),
            error is None ==> (forall|i: int| 0 <= i < seen ==> #[trigger] rows[i] is Some)
                && records_view(records@) == rows.take(seen).map_values(
                |o: Option<Seq<Seq<char>>>| row_fields(o),
            ),
            error is Some ==> records_view(records@) == rows_before_error(rows) && has_error(rows),
    {
        let ghost k = seen;
        assert(results@[k] == item);
        assert(rows[k] == result_rows(results@)[k]);
        match item {
            Ok(fields) => {
                if error.is_none() {
                    let ghost before = records@;
                    records.push(fields);
                    assert(rows.take(k + 1).map_values(|o: Option<Seq<Seq<char>>>| row_fields(o))
                        =~= rows.take(k).map_values(|o: Option<Seq<Seq<char>>>| row_fields(o)).push(
                        row_fields(rows[k]),
                    ));
                    assert(records_view(records@) =~= records_view(before).push(strings_view(fields@)));
                }
            },
            Err(e) => {
                if error.is_none() {
                    proof {
                        lemma_rows_before_error_split(rows, k);
                        assert(rows.skip(k)[0] is None);
                        assert(rows_before_error(rows.skip(k)) =~= Seq::<Seq<Seq<char>>>::empty());
                    }
                    error = Some(e);
                }
            },
        }
        proof {
            seen = seen + 1;
        }
    }
    proof {
        if error is None {
            assert(rows.take(rows.len() as int) =~= rows);
            lemma_rows_before_error_split(rows, rows.len() as int);
            assert(rows.skip(rows.len() as int) =~= Seq::<Option<Seq<Seq<char>>>>::empty());
            assert(rows_before_error(rows) =~= records_view(records@));
        }
    }
    let c = CsvContent { headers, records, error };
    assert(records_match_header(content_view(c)));
    Ok(c)
}

/// Reads Shift_JIS CSV `bytes`: decodes them to UTF-8, then reads them as
/// `read_csv_utf8` does.
pub fn read_csv_shift_jis(bytes: &[u8]) -> (r: Result<CsvContent, csv::Error>)
    ensures
        r is Err <==> csv_content(shift_jis_decoded(bytes@)) is None,
        r matches Ok(c) ==> csv_content(shift_jis_decoded(bytes@)) == Some(content_view(c))
            && records_match_header(content_view(c)),
{
    let decoded = match decode_shift_jis(bytes) {
        Ok(d) => d,
        Err(_) => {
            proof {
                assert(false);
            }
            Vec::new()
        },
    };
    read_csv_utf8(decoded.as_slice())
}

/// The outcome of comparing a header row with the expected names.
#[derive(Debug, Clone, Copy, PartialEq, Eq, Structural)]
pub enum HeaderCheck {
    /// Every expected name is where it should be.
    Pass,
    /// The first column whose name differs.
    Mismatch(usize),
    /// The header row ends before an expected name that is reached.
    TooShort,
}

/// Compares `headers` with `expected` from column `i` on; an empty expected
/// name matches anything and is not looked up.
pub open spec fn header_scan(headers: Seq<Seq<char>>, expected: Seq<Seq<char>>, i: int) -> HeaderCheck
    decreases expected.len() - i,
{
    if i >= expected.len() {
        HeaderCheck::Pass
    } else if expected[i].len() == 0 {
        header_scan(headers, expected, i + 1)
    } else if i >= headers.len() {
        HeaderCheck::TooShort
    } else if headers[i] != expected[i] {
        HeaderCheck::Mismatch(i as usize)
    } else {
        header_scan(headers, expected, i + 1)
    }
}

pub proof fn lemma_header_scan(headers: Seq<Seq<char>>, expected: Seq<Seq<char>>, i: int)
    requires
        0 <= i,
        expected.len() < usize::MAX,
    ensures
        header_scan(headers, expected, i) matches HeaderCheck::Mismatch(k) ==> i <= k
            < expected.len() && k < headers.len() && headers[k as int] != expected[k as int],
        header_scan(headers, expected, i) is Pass ==> forall|k: int|
            i <= k < expected.len() && expected[k].len() > 0 ==> k < headers.len() && headers[k]
                == expected[k],
    decreases expected.len() - i,
{
    if i < expected.len() {
        lemma_header_scan(headers, expected, i + 1);
    }
}

/// The message for a header row whose column `i` is `actual` where
/// `expected` was wanted.
pub open spec fn header_mismatch_text(i: nat, expected: Seq<char>, actual: Seq<char>) -> Seq<char> {
    "Column index: "@ + decimal(i) + ", Expected header: "@ + expected + ", actual header: "@ + actual
}

/// Compares `headers` with `expected`, column by column.
pub fn check_headers(headers: &Vec<String>, expected: &Vec<String>) -> (r: HeaderCheck)
    ensures
        r == header_scan(strings_view(headers@), strings_view(expected@), 0),
{
    let ghost h = strings_view(headers@);
    let ghost x = strings_view(expected@);
    let mut i: usize = 0;
    while i < expected.len()
        invariant
            i <= expected@.len(),
            h == strings_view(headers@),
            x == strings_view(expected@),
            header_scan(h, x, 0) == header_scan(h, x, i as int),
        decreases expected@.len() - i,
    {
        assert(x[i as int] == expected@[i as int]@);
        if expected[i].as_str().is_empty() {
            i = i + 1;
        } else if i >= headers.len() {
            return HeaderCheck::TooShort;
        } else {
            assert(h[i as int] == headers@[i as int]@);
            if headers[i] != expected[i] {
                return HeaderCheck::Mismatch(i);
            }
            i = i + 1;
        }
    }
    HeaderCheck::Pass
}

/// The message for a header row whose column `i` is `actual` where
/// `expected` was wanted.
pub fn header_mismatch_message(i: usize, expected: &String, actual: &String) -> (s: String)
    ensures
        s@ == header_mismatch_text(i as nat, expected@, actual@),
{
    let mut out: Vec<char> = Vec::new();
    push_str(&mut out, "Column index: ");
    push_decimal(&mut out, i as u64);
    push_str(&mut out, ", Expected header: ");
    push_str(&mut out, expected.as_str());
    push_str(&mut out, ", actual header: ");
    push_str(&mut out, actual.as_str());
    chars_to_string(out.as_slice())
}

} // verus!
