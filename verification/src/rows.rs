//! The delimited-row reader.  Splitting the raw text into records is the
//! one step the crate leaves to the `csv` crate; everything downstream
//! works on the resulting rows.

use vstd::prelude::*;

verus! {

/// One record of the delimited input: its column values, or the reader's
/// message when the record could not be read (wrong field count, broken
/// quoting, invalid encoding).
pub enum RawRow {
    Fields(Vec<String>),
    Malformed(String),
}

impl View for RawRow {
    type V = Result<Seq<Seq<char>>, Seq<char>>;

    open spec fn view(&self) -> Result<Seq<Seq<char>>, Seq<char>> {
        match self {
            RawRow::Fields(cols) => Ok(Seq::new(cols@.len(), |i: int| cols@[i]@)),
            RawRow::Malformed(msg) => Err(msg@),
        }
    }
}

/// The views of a run of rows.
pub open spec fn rows_view(rows: Seq<RawRow>) -> Seq<Result<Seq<Seq<char>>, Seq<char>>> {
    Seq::new(rows.len(), |i: int| rows[i]@)
}

/// The records that the `csv` crate's reader yields for `s`, in order:
/// for each record either its fields or the error it was reported with.
pub uninterp spec fn csv_rows_of(s: Seq<char>) -> Seq<Result<Seq<Seq<char>>, Seq<char>>>;

/// Relies on `csv::ReaderBuilder` and `csv::Reader` with
/// `has_headers(false)`: the reader splits the text into records
/// deterministically (empty lines are skipped, and a record whose field
/// count differs from the first record's is reported as an error), and
/// each record yields its fields in order.
#[verifier::external_body]
pub fn read_csv_rows(text: &str) -> (rows: Vec<RawRow>)
    ensures
        rows_view(rows@) == csv_rows_of(text@),
{
    let mut rdr = csv::ReaderBuilder::new().has_headers(false).from_reader(text.as_bytes());
    let mut out = Vec::new();
    for rec in rdr.records() {
        out.push(match rec {
            Ok(r) => RawRow::Fields(r.iter().map(|f| f.to_string()).collect()),
            Err(e) => RawRow::Malformed(e.to_string()),
        });
    }
    out
}

} // verus!
