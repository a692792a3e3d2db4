//! Title info record (`TINFO:<title id>,<attr>,<code>,"<value>"`).

use vstd::prelude::*;
use vstd::utf8::valid_utf8;

use crate::api::info::{InfoRecord, InfoRecordView, info_view};
use crate::api::line_parser::{check_u32_field, check_usize_field, field_string, field_u32, field_usize, is_uint_field, line_fields, parse_line, uint_field};
use crate::text::{strings_view, utf8_str};
use vstd::utf8::decode_utf8;

verus! {

/// `TINFO` data that `parse_tinfo_data` accepts.
pub open spec fn tinfo_valid(data: Seq<u8>) -> bool {
    let f = line_fields(data);
    &&& valid_utf8(data)
    &&& f.len() >= 4
    &&& is_uint_field(f, 0, usize::MAX as nat)
    &&& is_uint_field(f, 1, u32::MAX as nat)
    &&& is_uint_field(f, 2, u32::MAX as nat)
}

/// The title id and record of `TINFO` data.
pub open spec fn spec_tinfo(data: Seq<u8>) -> (usize, InfoRecordView) {
    let f = line_fields(data);
    (
        uint_field(f, 0, usize::MAX as nat) as usize,
        info_view(uint_field(f, 1, u32::MAX as nat) as u32, uint_field(f, 2, u32::MAX as nat) as u32, f[3]),
    )
}

/// Parses the data of a `TINFO` record: the title id and the attribute.
pub fn parse_tinfo_data(data: &[u8]) -> (r: (usize, InfoRecord))
    requires
        tinfo_valid(data@),
    ensures
        (r.0, r.1@) == spec_tinfo(data@),
{
    let fields = parse_line(data);
    let tid = field_usize(&fields, 0);
    let attr = field_u32(&fields, 1);
    let code = field_u32(&fields, 2);
    let value = field_string(&fields, 3);
    (tid, InfoRecord::new(attr, code, value.as_str()))
}

/// Whether `parse_tinfo_data` accepts the data.
pub fn is_valid_tinfo_data(data: &[u8]) -> (r: bool)
    ensures
        r == tinfo_valid(data@),
{
    if utf8_str(data).is_none() {
        return false;
    }
    let fields = parse_line(data);
    fields.len() >= 4 && check_usize_field(&fields, 0) && check_u32_field(&fields, 1)
        && check_u32_field(&fields, 2)
}

} // verus!
