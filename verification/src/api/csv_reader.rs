//! Reading one record with the `csv` crate.

use vstd::prelude::*;

use crate::text::strings_view;

verus! {

/// The fields of the first record that the `csv` crate's reader (no
/// header row, default settings) reads from `data`; `None` where it reads
/// no record or reports an error.
pub uninterp spec fn csv_first_record(data: Seq<u8>) -> Option<Seq<Seq<char>>>;

/// Reads the first record of `data` with `csv::ReaderBuilder` (no header
/// row) and returns its fields. The contract claims only that the result
/// is a function of the bytes: `csv_first_record`, with `None` for both
/// "no record" and "error".
#[verifier::external_body]
pub(crate) fn read_csv_record(data: &[u8]) -> (r: Option<Vec<String>>)
    ensures
        match r {
            Some(v) => csv_first_record(data@) == Some(strings_view(v@)),
            None => csv_first_record(data@) is None,
        },
{
    let mut rdr = csv::ReaderBuilder::new().has_headers(false).from_reader(data);
    match rdr.records().next() {
        Some(Ok(record)) => Some(record.iter().map(|s| s.to_string()).collect()),
        Some(Err(_)) => None,
        None => None,
    }
}

} // verus!
