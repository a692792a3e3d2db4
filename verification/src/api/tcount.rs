//! Title count record (`TCOUNT:<count>`).

use vstd::prelude::*;
use vstd::utf8::{decode_utf8, valid_utf8};

use crate::text::{parse_uint, spec_parse_uint, utf8_str};

verus! {

/// `TCOUNT` data that `parse_title_count_data` accepts: a number.
pub open spec fn tcount_valid(data: Seq<u8>) -> bool {
    valid_utf8(data) && spec_parse_uint(decode_utf8(data), usize::MAX as nat) is Some
}

/// Parses the data of a `TCOUNT` record: the number of titles.
pub fn parse_title_count_data(data: &[u8]) -> (r: usize)
    requires
        tcount_valid(data@),
    ensures
        r as nat == spec_parse_uint(decode_utf8(data@), usize::MAX as nat).unwrap(),
{
    let s = utf8_str(data).unwrap();
    parse_uint(s, usize::MAX as u64).unwrap() as usize
}

/// Whether `parse_title_count_data` accepts the data.
pub fn is_valid_title_count_data(data: &[u8]) -> (r: bool)
    ensures
        r == tcount_valid(data@),
{
    match utf8_str(data) {
        Some(s) => parse_uint(s, usize::MAX as u64).is_some(),
        None => false,
    }
}

} // verus!
