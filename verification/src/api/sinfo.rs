//! Stream info record (`SINFO:<title id>,<stream id>,<attr>,<code>,"<value>"`).

use vstd::prelude::*;
use vstd::utf8::valid_utf8;

use crate::api::info::{InfoRecord, InfoRecordView, info_view};
use crate::api::line_parser::{check_u32_field, check_usize_field, field_string, field_u32, field_usize, is_uint_field, line_fields, parse_line, uint_field};
use crate::text::utf8_str;

verus! {

/// `SINFO` data that `parse_sinfo_data` accepts.
pub open spec fn sinfo_valid(data: Seq<u8>) -> bool {
    let f = line_fields(data);
    &&& valid_utf8(data)
    &&& f.len() >= 5
    &&& is_uint_field(f, 0, usize::MAX as nat)
    &&& is_uint_field(f, 1, usize::MAX as nat)
    &&& is_uint_field(f, 2, u32::MAX as nat)
    &&& is_uint_field(f, 3, u32::MAX as nat)
}

/// The title id, stream id and record of `SINFO` data.
pub open spec fn spec_sinfo(data: Seq<u8>) -> (usize, usize, InfoRecordView) {
    let f = line_fields(data);
    (
        uint_field(f, 0, usize::MAX as nat) as usize,
        uint_field(f, 1, usize::MAX as nat) as usize,
        info_view(uint_field(f, 2, u32::MAX as nat) as u32, uint_field(f, 3, u32::MAX as nat) as u32, f[4]),
    )
}

/// Parses the data of a `SINFO` record: title id, stream id and attribute.
pub fn parse_sinfo_data(data: &[u8]) -> (r: (usize, usize, InfoRecord))
    requires
        sinfo_valid(data@),
    ensures
        (r.0, r.1, r.2@) == spec_sinfo(data@),
{
    let fields = parse_line(data);
    let tid = field_usize(&fields, 0);
    let sid = field_usize(&fields, 1);
    let attr = field_u32(&fields, 2);
    let code = field_u32(&fields, 3);
    let value = field_string(&fields, 4);
    (tid, sid, InfoRecord::new(attr, code, value.as_str()))
}

/// Whether `parse_sinfo_data` accepts the data.
pub fn is_valid_sinfo_data(data: &[u8]) -> (r: bool)
    ensures
        r == sinfo_valid(data@),
{
    if utf8_str(data).is_none() {
        return false;
    }
    let fields = parse_line(data);
    fields.len() >= 5 && check_usize_field(&fields, 0) && check_usize_field(&fields, 1)
        && check_u32_field(&fields, 2) && check_u32_field(&fields, 3)
}

} // verus!
