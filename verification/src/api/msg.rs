//! Message record (`MSG:<code>,<flags>,<count>,"<message>","<format>",<params>...`).

use vstd::prelude::*;

use crate::api::csv_reader::{csv_first_record, read_csv_record};
use crate::api::line_parser::{check_u32_field, field_u32, is_uint_field, uint_field};
use crate::text::strings_view;

verus! {

/// A message of `makemkvcon`: its code, its text, the format string and
/// the parameters that were filled into it.
#[derive(Debug, PartialEq)]
pub struct MessageRecord {
    pub code: u32,
    pub flags: u32,
    pub count: u32,
    pub message: String,
    pub format: String,
    pub params: Vec<String>,
}

/// The mathematical content of a [`MessageRecord`].
pub struct MessageRecordView {
    pub code: u32,
    pub flags: u32,
    pub count: u32,
    pub message: Seq<char>,
    pub format: Seq<char>,
    pub params: Seq<Seq<char>>,
}

impl View for MessageRecord {
    type V = MessageRecordView;

    open spec fn view(&self) -> MessageRecordView {
        MessageRecordView {
            code: self.code,
            flags: self.flags,
            count: self.count,
            message: self.message@,
            format: self.format@,
            params: strings_view(self.params@),
        }
    }
}

/// The fields of a `MSG` record hold three numbers, the message and the
/// format.
pub open spec fn message_fields_valid(f: Seq<Seq<char>>) -> bool {
    &&& f.len() >= 5
    &&& is_uint_field(f, 0, u32::MAX as nat)
    &&& is_uint_field(f, 1, u32::MAX as nat)
    &&& is_uint_field(f, 2, u32::MAX as nat)
}

/// The message that the fields of a `MSG` record describe: every field
/// after the format is a parameter.
pub open spec fn message_from_fields(f: Seq<Seq<char>>) -> MessageRecordView {
    MessageRecordView {
        code: uint_field(f, 0, u32::MAX as nat) as u32,
        flags: uint_field(f, 1, u32::MAX as nat) as u32,
        count: uint_field(f, 2, u32::MAX as nat) as u32,
        message: f[3],
        format: f[4],
        params: f.subrange(5, f.len() as int),
    }
}

/// Builds the message that the CSV fields of a `MSG` record describe, or
/// `None` where they do not describe one.
pub fn message_record_from_fields(fields: &Vec<String>) -> (r: Option<MessageRecord>)
    ensures
        match r {
            Some(x) => message_fields_valid(strings_view(fields@)) && x@ == message_from_fields(
                strings_view(fields@),
            ),
            None => !message_fields_valid(strings_view(fields@)),
        },
{
    if fields.len() < 5 || !check_u32_field(fields, 0) || !check_u32_field(fields, 1)
        || !check_u32_field(fields, 2) {
        return None;
    }
    let code = field_u32(fields, 0);
    let flags = field_u32(fields, 1);
    let count = field_u32(fields, 2);
    let ghost f = strings_view(fields@);
    let mut params: Vec<String> = Vec::new();
    let mut i: usize = 5;
    while i < fields.len()
        invariant
            5 <= i <= fields@.len(),
            f == strings_view(fields@),
            strings_view(params@) == f.subrange(5, i as int),
        decreases fields@.len() - i,
    {
        let ghost before = strings_view(params@);
        params.push(fields[i].clone());
        assert(strings_view(params@) == before.push(fields@[i as int]@));
        assert(f.subrange(5, i + 1) == f.subrange(5, i as int).push(f[i as int]));
        i = i + 1;
    }
    Some(
        MessageRecord {
            code,
            flags,
            count,
            message: fields[3].clone(),
            format: fields[4].clone(),
            params,
        },
    )
}

/// `MSG` data that `parse_msg_data` accepts.
pub open spec fn msg_valid(data: Seq<u8>) -> bool {
    csv_first_record(data) matches Some(f) && message_fields_valid(f)
}

/// Parses the data of a `MSG` record with the CSV reader.
pub fn parse_msg_data(data: &[u8]) -> (r: MessageRecord)
    requires
        msg_valid(data@),
    ensures
        r@ == message_from_fields(csv_first_record(data@).unwrap()),
{
    let fields = read_csv_record(data).unwrap();
    message_record_from_fields(&fields).unwrap()
}

/// Parses the data of a `MSG` record; `None` where `parse_msg_data` does
/// not accept it.
pub fn try_parse_msg_data(data: &[u8]) -> (r: Option<MessageRecord>)
    ensures
        r is Some <==> msg_valid(data@),
        r matches Some(x) ==> x@ == message_from_fields(csv_first_record(data@).unwrap()),
{
    match read_csv_record(data) {
        Some(fields) => {
            if message_record_from_fields(&fields).is_some() {
                Some(parse_msg_data(data))
            } else {
                None
            }
        },
        None => None,
    }
}

} // verus!
