//! Tables as text: comma-separated records, cut into fields by the `csv` crate.

use vstd::prelude::*;

verus! {

/// One record of a table, as the decoder hands it out: its fields, or the
/// message of the defect that the decoder found in its place.
pub type Record = Result<Vec<String>, String>;

/// What a [`Record`] holds, as mathematical values.
pub type RecordModel = Result<Seq<Seq<char>>, Seq<char>>;

/// The models of the records of `records`, in order.
pub open spec fn records_model(records: Seq<Record>) -> Seq<RecordModel> {
    Seq::new(
        records.len(),
        |i: int|
            match records[i] {
                Ok(fields) => Ok(fields.deep_view()),
                Err(message) => Err(message@),
            },
    )
}

/// The records that the `csv` crate decodes from the text `text`, the header
/// among them as the first: for each record its fields, or the message of the
/// defect found in its place.
pub uninterp spec fn csv_records(text: Seq<char>) -> Seq<RecordModel>;

/// Reads all records of `text` with a `csv::Reader` made by
/// `csv::Reader::from_string`, set to hand out the first record like the
/// others, and walked by `csv::Reader::records`. Fields are separated by
/// commas and may be quoted. Trusted: what the reader hands out depends on
/// `text` alone; it is named [`csv_records`]. An error of the reader is kept
/// as the message it displays.
#[verifier::external_body]
fn decode(text: &str) -> (records: Vec<Record>)
    ensures
        records_model(records@) == csv_records(text@),
{
    let mut reader = csv::Reader::from_string(text).has_headers(false);
    reader.records().map(|record| record.map_err(|e| e.to_string())).collect()
}

/// The records of the table written in `text`, the header among them as the
/// first. A defect of the text stands in the place of the record where the
/// decoder found it.
pub fn read_records(text: &str) -> (records: Vec<Record>)
    ensures
        records_model(records@) == csv_records(text@),
{
    decode(text)
}

} // verus!
