//! Progress records: `PRGC` (current task), `PRGT` (total, the stage) and
//! `PRGV` (progress values).
//!
//! ```text
//! PRGC:<code>,<id>,<name>
//! PRGT:<code>,<id>,<name>
//! PRGV:<current>,<total>,<max>
//! ```

use vstd::prelude::*;
use vstd::utf8::valid_utf8;

use crate::api::line_parser::{check_u32_field, field_string, field_u32, is_uint_field, line_fields, parse_line, uint_field};
use crate::text::{owned, utf8_str};

verus! {

/// Title progress (current task) of one source.
#[derive(Debug, PartialEq)]
pub struct ProgressCurrentRecord {
    pub source: String,
    pub code: u32,
    pub id: u32,
    pub name: String,
}

impl ProgressCurrentRecord {
    pub fn new(source: &str, code: u32, id: u32, name: String) -> (r: Self)
        ensures
            r.source@ == source@,
            r.code == code,
            r.id == id,
            r.name == name,
    {
        Self { source: owned(source), code, id, name }
    }
}

/// Title progress (total, the stage).
#[derive(Debug, PartialEq)]
pub struct ProgressTotalRecord {
    pub code: u32,
    pub id: u32,
    pub name: String,
}

impl ProgressTotalRecord {
    pub fn new(code: u32, id: u32, name: &str) -> (r: Self)
        ensures
            r.code == code,
            r.id == id,
            r.name@ == name@,
    {
        Self { code, id, name: owned(name) }
    }
}

/// Progress bar values: current, total and the maximum of a bar.
#[derive(Clone, Copy, Debug, PartialEq, Eq, Structural)]
pub struct ProgressValueRecord {
    pub current: u32,
    pub total: u32,
    pub maximum: u32,
}

/// `PRGC` or `PRGT` data that the parsers accept: code and id are numbers
/// and a name follows.
pub open spec fn progress_title_valid(data: Seq<u8>) -> bool {
    let f = line_fields(data);
    &&& valid_utf8(data)
    &&& f.len() >= 3
    &&& is_uint_field(f, 0, u32::MAX as nat)
    &&& is_uint_field(f, 1, u32::MAX as nat)
}

/// The code, id and name of `PRGC` or `PRGT` data.
pub open spec fn spec_progress_title(data: Seq<u8>) -> (u32, u32, Seq<char>) {
    let f = line_fields(data);
    (uint_field(f, 0, u32::MAX as nat) as u32, uint_field(f, 1, u32::MAX as nat) as u32, f[2])
}

fn parse_progress_title(data: &[u8]) -> (r: (u32, u32, String))
    requires
        progress_title_valid(data@),
    ensures
        (r.0, r.1, r.2@) == spec_progress_title(data@),
{
    let fields = parse_line(data);
    let code = field_u32(&fields, 0);
    let id = field_u32(&fields, 1);
    let name = field_string(&fields, 2);
    (code, id, name)
}

/// Parses the data of a `PRGC` record: code, id and name.
pub fn parse_prgc_data(data: &[u8]) -> (r: (u32, u32, String))
    requires
        progress_title_valid(data@),
    ensures
        (r.0, r.1, r.2@) == spec_progress_title(data@),
{
    parse_progress_title(data)
}

/// Parses the data of a `PRGT` record: code, id and name.
pub fn parse_prgt_data(data: &[u8]) -> (r: (u32, u32, String))
    requires
        progress_title_valid(data@),
    ensures
        (r.0, r.1, r.2@) == spec_progress_title(data@),
{
    parse_progress_title(data)
}

/// `PRGV` data that `parse_prgv_data` accepts: three numbers.
pub open spec fn prgv_valid(data: Seq<u8>) -> bool {
    let f = line_fields(data);
    &&& valid_utf8(data)
    &&& is_uint_field(f, 0, u32::MAX as nat)
    &&& is_uint_field(f, 1, u32::MAX as nat)
    &&& is_uint_field(f, 2, u32::MAX as nat)
}

/// The current, total and maximum values of `PRGV` data.
pub open spec fn spec_prgv(data: Seq<u8>) -> (u32, u32, u32) {
    let f = line_fields(data);
    (
        uint_field(f, 0, u32::MAX as nat) as u32,
        uint_field(f, 1, u32::MAX as nat) as u32,
        uint_field(f, 2, u32::MAX as nat) as u32,
    )
}

/// Parses the data of a `PRGV` record: current, total and maximum.
pub fn parse_prgv_data(data: &[u8]) -> (r: (u32, u32, u32))
    requires
        prgv_valid(data@),
    ensures
        r == spec_prgv(data@),
{
    let fields = parse_line(data);
    let current = field_u32(&fields, 0);
    let total = field_u32(&fields, 1);
    let maximum = field_u32(&fields, 2);
    (current, total, maximum)
}


/// Whether `parse_prgc_data` and `parse_prgt_data` accept the data.
pub fn is_valid_progress_title(data: &[u8]) -> (r: bool)
    ensures
        r == progress_title_valid(data@),
{
    if utf8_str(data).is_none() {
        return false;
    }
    let fields = parse_line(data);
    fields.len() >= 3 && check_u32_field(&fields, 0) && check_u32_field(&fields, 1)
}

/// Whether `parse_prgv_data` accepts the data.
pub fn is_valid_prgv_data(data: &[u8]) -> (r: bool)
    ensures
        r == prgv_valid(data@),
{
    if utf8_str(data).is_none() {
        return false;
    }
    let fields = parse_line(data);
    check_u32_field(&fields, 0) && check_u32_field(&fields, 1) && check_u32_field(&fields, 2)
}
} // verus!
