//! Drive record (`DRV:<index>,<visible>,<enabled>,<flags>,"<drive name>","<disc name>","<device name>"`).
//!
//! MakeMKV encodes the content type as an integer whose bits stand for the
//! kinds of files found on the medium (`AP_DskFsFlag...FilesPresent` in
//! `apdefs.h`):
//!
//! | bit  | files   |
//! |------|---------|
//! | `1`  | DVD     |
//! | `2`  | HD-DVD  |
//! | `4`  | Blu-ray |
//! | `8`  | AACS    |
//! | `16` | BD+     |

use vstd::prelude::*;

use crate::apdefs::DriveStatus;
use crate::api::csv_reader::{csv_first_record, read_csv_record};
use crate::api::line_parser::{check_u32_field, check_u8_field, field_string, field_u32, field_u8, is_uint_field, uint_field};
use crate::text::strings_view;

verus! {

/// The kinds of files found on a medium.
#[derive(Clone, Copy, Debug, PartialEq, Eq, Structural)]
pub struct ContentType {
    pub has_dvd_files: bool,
    pub has_hddvd_files: bool,
    pub has_bluray_files: bool,
    pub has_aacs_files: bool,
    pub has_bdsvm_files: bool,
}

/// The content type that the flags `value` stand for.
pub open spec fn spec_content_type(value: u8) -> ContentType {
    ContentType {
        has_dvd_files: value & 1u8 != 0,
        has_hddvd_files: value & 2u8 != 0,
        has_bluray_files: value & 4u8 != 0,
        has_aacs_files: value & 8u8 != 0,
        has_bdsvm_files: value & 16u8 != 0,
    }
}

/// Decodes the content type flags of a drive record.
pub fn parse_content_type_value(value: u8) -> (r: ContentType)
    ensures
        r == spec_content_type(value),
{
    ContentType {
        has_dvd_files: value & 1u8 != 0,
        has_hddvd_files: value & 2u8 != 0,
        has_bluray_files: value & 4u8 != 0,
        has_aacs_files: value & 8u8 != 0,
        has_bdsvm_files: value & 16u8 != 0,
    }
}

/// An optical drive as `makemkvcon` reports it.
#[derive(Clone, Debug, PartialEq)]
pub struct DriveRecord {
    pub index: u8,
    /// 'visible': the drive's state as a number
    pub drive_status_num: u32,
    /// the drive's state, where the number is a known one
    pub drive_status: Option<DriveStatus>,
    /// 'enabled' (documented as 0 or 1, typically 999)
    pub is_enabled: u32,
    /// 'flags': the content type as a number
    pub content_type_num: u8,
    pub content_type: ContentType,
    pub drive_name: String,
    pub disc_name: String,
    pub device_name: String,
}

/// The mathematical content of a [`DriveRecord`].
pub struct DriveRecordView {
    pub index: u8,
    pub drive_status_num: u32,
    pub drive_status: Option<DriveStatus>,
    pub is_enabled: u32,
    pub content_type_num: u8,
    pub content_type: ContentType,
    pub drive_name: Seq<char>,
    pub disc_name: Seq<char>,
    pub device_name: Seq<char>,
}

impl View for DriveRecord {
    type V = DriveRecordView;

    open spec fn view(&self) -> DriveRecordView {
        DriveRecordView {
            index: self.index,
            drive_status_num: self.drive_status_num,
            drive_status: self.drive_status,
            is_enabled: self.is_enabled,
            content_type_num: self.content_type_num,
            content_type: self.content_type,
            drive_name: self.drive_name@,
            disc_name: self.disc_name@,
            device_name: self.device_name@,
        }
    }
}

/// The fields of a `DRV` record hold its numbers and three names.
pub open spec fn drive_fields_valid(f: Seq<Seq<char>>) -> bool {
    &&& f.len() >= 7
    &&& is_uint_field(f, 0, u8::MAX as nat)
    &&& is_uint_field(f, 1, u32::MAX as nat)
    &&& is_uint_field(f, 2, u32::MAX as nat)
    &&& is_uint_field(f, 3, u8::MAX as nat)
}

/// The drive record that the fields of a `DRV` record describe.
pub open spec fn drive_from_fields(f: Seq<Seq<char>>) -> DriveRecordView {
    let status = uint_field(f, 1, u32::MAX as nat) as u32;
    let flags = uint_field(f, 3, u8::MAX as nat) as u8;
    DriveRecordView {
        index: uint_field(f, 0, u8::MAX as nat) as u8,
        drive_status_num: status,
        drive_status: DriveStatus::of_value(status),
        is_enabled: uint_field(f, 2, u32::MAX as nat) as u32,
        content_type_num: flags,
        content_type: spec_content_type(flags),
        drive_name: f[4],
        disc_name: f[5],
        device_name: f[6],
    }
}

/// Builds the drive record that the CSV fields of a `DRV` record
/// describe, or `None` where they do not describe one.
pub fn drive_record_from_fields(fields: &Vec<String>) -> (r: Option<DriveRecord>)
    ensures
        match r {
            Some(x) => drive_fields_valid(strings_view(fields@)) && x@ == drive_from_fields(
                strings_view(fields@),
            ),
            None => !drive_fields_valid(strings_view(fields@)),
        },
{
    if fields.len() < 7 || !check_u8_field(fields, 0) || !check_u32_field(fields, 1)
        || !check_u32_field(fields, 2) || !check_u8_field(fields, 3) {
        return None;
    }
    let index = field_u8(fields, 0);
    let status = field_u32(fields, 1);
    let enabled = field_u32(fields, 2);
    let flags = field_u8(fields, 3);
    Some(
        DriveRecord {
            index,
            drive_status_num: status,
            drive_status: DriveStatus::from_u32(status),
            is_enabled: enabled,
            content_type_num: flags,
            content_type: parse_content_type_value(flags),
            drive_name: field_string(fields, 4),
            disc_name: field_string(fields, 5),
            device_name: field_string(fields, 6),
        },
    )
}

/// `DRV` data that `parse_drive_record_data` accepts.
pub open spec fn drive_record_valid(data: Seq<u8>) -> bool {
    csv_first_record(data) matches Some(f) && drive_fields_valid(f)
}

/// Parses the data of a `DRV` record with the CSV reader.
pub fn parse_drive_record_data(data: &[u8]) -> (r: DriveRecord)
    requires
        drive_record_valid(data@),
    ensures
        r@ == drive_from_fields(csv_first_record(data@).unwrap()),
{
    let fields = read_csv_record(data).unwrap();
    drive_record_from_fields(&fields).unwrap()
}

/// Parses the data of a `DRV` record; `None` where
/// `parse_drive_record_data` does not accept it.
pub fn try_parse_drive_record_data(data: &[u8]) -> (r: Option<DriveRecord>)
    ensures
        r is Some <==> drive_record_valid(data@),
        r matches Some(x) ==> x@ == drive_from_fields(csv_first_record(data@).unwrap()),
{
    match read_csv_record(data) {
        Some(fields) => {
            if drive_record_from_fields(&fields).is_some() {
                Some(parse_drive_record_data(data))
            } else {
                None
            }
        },
        None => None,
    }
}

} // verus!
