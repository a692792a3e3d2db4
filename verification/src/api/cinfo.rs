//! Content info record (`CINFO:<attr>,<code>,"<value>"`).

use vstd::prelude::*;
use vstd::utf8::valid_utf8;

use crate::api::csv_reader::{csv_first_record, read_csv_record};
use crate::api::info::{InfoRecord, info_view, InfoRecordView};
use crate::api::line_parser::{field_string, field_u32, is_uint_field, line_fields, parse_line, uint_field};
use crate::text::strings_view;

verus! {

/// The fields of a `CINFO` record hold an attribute id and code.
pub open spec fn info_fields_valid(f: Seq<Seq<char>>) -> bool {
    &&& f.len() >= 3
    &&& is_uint_field(f, 0, u32::MAX as nat)
    &&& is_uint_field(f, 1, u32::MAX as nat)
}

/// The record that the fields of a `CINFO` record describe.
pub open spec fn info_from_fields(f: Seq<Seq<char>>) -> InfoRecordView {
    info_view(
        uint_field(f, 0, u32::MAX as nat) as u32,
        uint_field(f, 1, u32::MAX as nat) as u32,
        f[2],
    )
}

/// `CINFO` data that `parse_cinfo_data` accepts.
pub open spec fn cinfo_valid(data: Seq<u8>) -> bool {
    valid_utf8(data) && info_fields_valid(line_fields(data))
}

/// Parses the data of a `CINFO` record with the line parser.
pub fn parse_cinfo_data(data: &[u8]) -> (r: InfoRecord)
    requires
        cinfo_valid(data@),
    ensures
        r@ == info_from_fields(line_fields(data@)),
{
    let fields = parse_line(data);
    let attr = field_u32(&fields, 0);
    let code = field_u32(&fields, 1);
    let value = field_string(&fields, 2);
    InfoRecord::new(attr, code, value.as_str())
}

/// Builds the record that the CSV fields of a `CINFO` record describe,
/// or `None` where they do not describe one.
pub fn content_info_from_fields(fields: &Vec<String>) -> (r: Option<InfoRecord>)
    ensures
        match r {
            Some(x) => info_fields_valid(strings_view(fields@)) && x@ == info_from_fields(
                strings_view(fields@),
            ),
            None => !info_fields_valid(strings_view(fields@)),
        },
{
    if fields.len() < 3 || !crate::api::line_parser::check_u32_field(fields, 0)
        || !crate::api::line_parser::check_u32_field(fields, 1) {
        return None;
    }
    let attr = field_u32(fields, 0);
    let code = field_u32(fields, 1);
    let value = field_string(fields, 2);
    Some(InfoRecord::new(attr, code, value.as_str()))
}

/// `CINFO` data that `parse_content_info_data` accepts: a CSV record
/// whose fields hold an attribute id and code.
pub open spec fn content_info_valid(data: Seq<u8>) -> bool {
    csv_first_record(data) matches Some(f) && info_fields_valid(f)
}

/// Parses the data of a `CINFO` record with the CSV reader.
pub fn parse_content_info_data(data: &[u8]) -> (r: InfoRecord)
    requires
        content_info_valid(data@),
    ensures
        r@ == info_from_fields(csv_first_record(data@).unwrap()),
{
    let fields = read_csv_record(data).unwrap();
    content_info_from_fields(&fields).unwrap()
}

/// Parses the data of a `CINFO` record with the CSV reader; `None` where
/// `parse_content_info_data` does not accept it.
pub fn try_parse_content_info_data(data: &[u8]) -> (r: Option<InfoRecord>)
    ensures
        r is Some <==> content_info_valid(data@),
        r matches Some(x) ==> x@ == info_from_fields(csv_first_record(data@).unwrap()),
{
    match read_csv_record(data) {
        Some(fields) => {
            if content_info_from_fields(&fields).is_some() {
                Some(parse_content_info_data(data))
            } else {
                None
            }
        },
        None => None,
    }
}

} // verus!
