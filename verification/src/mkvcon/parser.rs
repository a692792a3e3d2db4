//! Output parser for `makemkvcon --robot`.
//!
//! The output follows this structure:
//!
//! ```text
//! DRV     drives
//! TCOUNT  number of titles
//! CINFO   attributes of the disc
//! TINFO   attributes of title #0
//! SINFO   attributes of the streams of title #0
//! TINFO   attributes of title #1
//! ...
//! ```

use vstd::prelude::*;
use vstd::std_specs::hash::*;

use crate::api::cinfo::{content_info_valid, info_from_fields, parse_content_info_data};
use crate::api::csv_reader::csv_first_record;
use crate::api::drive::{DriveRecord, DriveRecordView, drive_from_fields, drive_record_valid, parse_drive_record_data};
use crate::api::info::{InfoRecord, InfoRecordView};
use crate::api::msg::{MessageRecord, MessageRecordView, message_from_fields, msg_valid, parse_msg_data};
use crate::api::record::{RecordKind, has_colon, record_data, record_id, record_kind, spec_record_kind, split_record};
use crate::api::sinfo::{parse_sinfo_data, sinfo_valid, spec_sinfo};
use crate::api::tcount::{parse_title_count_data, tcount_valid};
use crate::api::tinfo::{parse_tinfo_data, spec_tinfo, tinfo_valid};
use crate::apdefs::ItemAttributeId;
use crate::mkvcon::attribute_map::{AttributeMap, InfoRecordOut, InfoRecordOutView};
use crate::text::{append_str, decimal_string, owned, spec_decimal, spec_parse_uint, strings_view};
use std::collections::HashMap;
use vstd::utf8::{decode_utf8, encode_utf8};

verus! {

broadcast use vstd::std_specs::hash::group_hash_axioms;

/// One parsed line of output.
#[allow(non_camel_case_types)]
#[derive(Debug, PartialEq)]
pub enum ParsedOutputLine {
    DRV(DriveRecord),
    MSG(MessageRecord),
    CINFO(InfoRecord),
    TINFO((usize, InfoRecord)),
    SINFO((usize, usize, InfoRecord)),
    TCOUNT(usize),
}

/// The mathematical content of a [`ParsedOutputLine`].
#[allow(non_camel_case_types)]
pub enum ParsedLineView {
    DRV(DriveRecordView),
    MSG(MessageRecordView),
    CINFO(InfoRecordView),
    TINFO(usize, InfoRecordView),
    SINFO(usize, usize, InfoRecordView),
    TCOUNT(usize),
}

impl View for ParsedOutputLine {
    type V = ParsedLineView;

    open spec fn view(&self) -> ParsedLineView {
        match self {
            ParsedOutputLine::DRV(d) => ParsedLineView::DRV(d@),
            ParsedOutputLine::MSG(m) => ParsedLineView::MSG(m@),
            ParsedOutputLine::CINFO(i) => ParsedLineView::CINFO(i@),
            ParsedOutputLine::TINFO((t, i)) => ParsedLineView::TINFO(*t, i@),
            ParsedOutputLine::SINFO((t, s, i)) => ParsedLineView::SINFO(*t, *s, i@),
            ParsedOutputLine::TCOUNT(c) => ParsedLineView::TCOUNT(*c),
        }
    }
}

/// A line that `parse_output_line` accepts: `<ID>:<data>` with one of the
/// ids `MSG`, `DRV`, `TCOUNT`, `TINFO`, `CINFO`, `SINFO` and data that the
/// record's parser accepts.
pub open spec fn output_line_valid(line: Seq<u8>) -> bool {
    let data = record_data(line);
    has_colon(line) && match spec_record_kind(record_id(line)) {
        Some(RecordKind::Msg) => msg_valid(data),
        Some(RecordKind::Drv) => drive_record_valid(data),
        Some(RecordKind::Tcount) => tcount_valid(data),
        Some(RecordKind::Tinfo) => tinfo_valid(data),
        Some(RecordKind::Cinfo) => content_info_valid(data),
        Some(RecordKind::Sinfo) => sinfo_valid(data),
        _ => false,
    }
}

/// What a valid line parses to.
pub open spec fn spec_output_line(line: Seq<u8>) -> ParsedLineView {
    let data = record_data(line);
    match spec_record_kind(record_id(line)) {
        Some(RecordKind::Msg) => ParsedLineView::MSG(message_from_fields(csv_first_record(data).unwrap())),
        Some(RecordKind::Drv) => ParsedLineView::DRV(drive_from_fields(csv_first_record(data).unwrap())),
        Some(RecordKind::Tcount) => ParsedLineView::TCOUNT(
            spec_parse_uint(decode_utf8(data), usize::MAX as nat).unwrap() as usize,
        ),
        Some(RecordKind::Tinfo) => ParsedLineView::TINFO(spec_tinfo(data).0, spec_tinfo(data).1),
        Some(RecordKind::Cinfo) => ParsedLineView::CINFO(info_from_fields(csv_first_record(data).unwrap())),
        _ => ParsedLineView::SINFO(spec_sinfo(data).0, spec_sinfo(data).1, spec_sinfo(data).2),
    }
}

/// Parses one line of output.
pub fn parse_output_line(line: &[u8]) -> (r: ParsedOutputLine)
    requires
        output_line_valid(line@),
    ensures
        r@ == spec_output_line(line@),
{
    let (id, data) = split_record(line).unwrap();
    match record_kind(id) {
        Some(RecordKind::Msg) => ParsedOutputLine::MSG(parse_msg_data(data)),
        Some(RecordKind::Drv) => ParsedOutputLine::DRV(parse_drive_record_data(data)),
        Some(RecordKind::Tcount) => ParsedOutputLine::TCOUNT(parse_title_count_data(data)),
        Some(RecordKind::Tinfo) => ParsedOutputLine::TINFO(parse_tinfo_data(data)),
        Some(RecordKind::Cinfo) => ParsedOutputLine::CINFO(parse_content_info_data(data)),
        _ => ParsedOutputLine::SINFO(parse_sinfo_data(data)),
    }
}

/// Whether `parse_output_line` accepts a line.
pub fn is_valid_output_line(line: &[u8]) -> (r: bool)
    ensures
        r == output_line_valid(line@),
{
    let (id, data) = match split_record(line) {
        Some(x) => x,
        None => return false,
    };
    match record_kind(id) {
        Some(RecordKind::Msg) => crate::api::msg::try_parse_msg_data(data).is_some(),
        Some(RecordKind::Drv) => crate::api::drive::try_parse_drive_record_data(data).is_some(),
        Some(RecordKind::Tcount) => crate::api::tcount::is_valid_title_count_data(data),
        Some(RecordKind::Tinfo) => crate::api::tinfo::is_valid_tinfo_data(data),
        Some(RecordKind::Cinfo) => crate::api::cinfo::try_parse_content_info_data(data).is_some(),
        Some(RecordKind::Sinfo) => crate::api::sinfo::is_valid_sinfo_data(data),
        _ => false,
    }
}

/// Parses one line of output; `None` where `parse_output_line` does not
/// accept it.
pub fn try_parse_output_line(line: &[u8]) -> (r: Option<ParsedOutputLine>)
    ensures
        r is Some <==> output_line_valid(line@),
        r matches Some(x) ==> x@ == spec_output_line(line@),
{
    if is_valid_output_line(line) {
        Some(parse_output_line(line))
    } else {
        None
    }
}


/// The disc-related content of `makemkvcon`'s output, record by record.
#[allow(non_camel_case_types)]
#[derive(Debug, PartialEq)]
pub enum DiscContent {
    VERSION(String),
    CINFO(InfoRecord),
    DRV(DriveRecord),
    SINFO((usize, usize, InfoRecord)),
    TCOUNT(usize),
    TINFO((usize, InfoRecord)),
}

/// The mathematical content of a [`DiscContent`] record.
#[allow(non_camel_case_types)]
pub enum DiscContentView {
    VERSION(Seq<char>),
    CINFO(InfoRecordView),
    DRV(DriveRecordView),
    SINFO(usize, usize, InfoRecordView),
    TCOUNT(usize),
    TINFO(usize, InfoRecordView),
}

impl View for DiscContent {
    type V = DiscContentView;

    open spec fn view(&self) -> DiscContentView {
        match self {
            DiscContent::VERSION(v) => DiscContentView::VERSION(v@),
            DiscContent::CINFO(i) => DiscContentView::CINFO(i@),
            DiscContent::DRV(d) => DiscContentView::DRV(d@),
            DiscContent::SINFO((t, s, i)) => DiscContentView::SINFO(*t, *s, i@),
            DiscContent::TCOUNT(c) => DiscContentView::TCOUNT(*c),
            DiscContent::TINFO((t, i)) => DiscContentView::TINFO(*t, i@),
        }
    }
}

/// The records and the issue count that the remaining `lines` add to
/// `records` and `issues`; `started` tells whether `TCOUNT` was seen. A
/// message after `TCOUNT` counts as an issue; messages are not records.
pub open spec fn canned_from(
    lines: Seq<Seq<u8>>,
    started: bool,
    records: Seq<DiscContentView>,
    issues: nat,
) -> (Seq<DiscContentView>, nat)
    decreases lines.len(),
{
    if lines.len() == 0 {
        (records, issues)
    } else {
        let rest = lines.drop_first();
        match spec_output_line(lines[0]) {
            ParsedLineView::MSG(_) => canned_from(
                rest,
                started,
                records,
                if started { issues + 1 } else { issues },
            ),
            ParsedLineView::TCOUNT(t) => canned_from(rest, true, records.push(DiscContentView::TCOUNT(t)), issues),
            ParsedLineView::DRV(d) => canned_from(rest, started, records.push(DiscContentView::DRV(d)), issues),
            ParsedLineView::CINFO(i) => canned_from(rest, started, records.push(DiscContentView::CINFO(i)), issues),
            ParsedLineView::SINFO(t, sid, i) => canned_from(
                rest,
                started,
                records.push(DiscContentView::SINFO(t, sid, i)),
                issues,
            ),
            ParsedLineView::TINFO(t, i) => canned_from(rest, started, records.push(DiscContentView::TINFO(t, i)), issues),
        }
    }
}

/// The views of a sequence of records.
pub open spec fn disc_content_views(v: Seq<DiscContent>) -> Seq<DiscContentView> {
    v.map_values(|d: DiscContent| d@)
}

/// The byte views of a sequence of lines.
pub open spec fn lines_view(v: Seq<&[u8]>) -> Seq<Seq<u8>> {
    v.map_values(|l: &[u8]| l@)
}

/// What one parsed line adds to parsed output: whether `TCOUNT` has been
/// seen after it, its record (none for a message), and whether it is an
/// issue (a message after `TCOUNT`).
pub open spec fn spec_canned_step(started: bool, l: ParsedLineView) -> (bool, Option<DiscContentView>, bool) {
    match l {
        ParsedLineView::MSG(_) => (started, None, started),
        ParsedLineView::TCOUNT(t) => (true, Some(DiscContentView::TCOUNT(t)), false),
        ParsedLineView::DRV(d) => (started, Some(DiscContentView::DRV(d)), false),
        ParsedLineView::CINFO(i) => (started, Some(DiscContentView::CINFO(i)), false),
        ParsedLineView::SINFO(t, sid, i) => (started, Some(DiscContentView::SINFO(t, sid, i)), false),
        ParsedLineView::TINFO(t, i) => (started, Some(DiscContentView::TINFO(t, i)), false),
    }
}

/// The view of an optional record.
pub open spec fn opt_content_view(c: Option<DiscContent>) -> Option<DiscContentView> {
    match c {
        Some(x) => Some(x@),
        None => None,
    }
}

/// Takes one parsed line of output as it comes: whether `TCOUNT` has been
/// seen after it, its record, and whether it is an issue.
pub fn canned_step(started: bool, line: ParsedOutputLine) -> (r: (bool, Option<DiscContent>, bool))
    ensures
        (r.0, opt_content_view(r.1), r.2) == spec_canned_step(started, line@),
{
    match line {
        ParsedOutputLine::MSG(_) => (started, None, started),
        ParsedOutputLine::TCOUNT(t) => (true, Some(DiscContent::TCOUNT(t)), false),
        ParsedOutputLine::DRV(x) => (started, Some(DiscContent::DRV(x)), false),
        ParsedOutputLine::CINFO(x) => (started, Some(DiscContent::CINFO(x)), false),
        ParsedOutputLine::SINFO(x) => (started, Some(DiscContent::SINFO(x)), false),
        ParsedOutputLine::TINFO(x) => (started, Some(DiscContent::TINFO(x)), false),
    }
}

/// Parsing output as it comes, line by line with `canned_step`, gives what
/// parsing it all at once gives: the records of a line are appended and
/// its issue counted before the rest is taken.
pub proof fn law_canned_output_by_steps(
    lines: Seq<Seq<u8>>,
    started: bool,
    records: Seq<DiscContentView>,
    issues: nat,
)
    requires
        lines.len() > 0,
    ensures
        ({
            let (s2, rec, issue) = spec_canned_step(started, spec_output_line(lines[0]));
            canned_from(lines, started, records, issues) == canned_from(
                lines.drop_first(),
                s2,
                match rec {
                    Some(x) => records.push(x),
                    None => records,
                },
                if issue { issues + 1 } else { issues },
            )
        }),
{
}

/// Parses output that was already produced: every record but the
/// messages, and the number of messages that came after `TCOUNT`.
pub fn parse_canned_output(output: &Vec<&[u8]>) -> (r: (Vec<DiscContent>, u32))
    requires
        output@.len() <= u32::MAX,
        forall|i: int| 0 <= i < output@.len() ==> output_line_valid(#[trigger] output@[i]@),
    ensures
        (disc_content_views(r.0@), r.1 as nat) == canned_from(lines_view(output@), false, seq![], 0),
{
    let ghost all = lines_view(output@);
    let mut parse_started = false;
    let mut issues: u32 = 0;
    let mut records: Vec<DiscContent> = Vec::new();
    let mut i: usize = 0;
    assert(all.subrange(0, all.len() as int) == all);
    assert(disc_content_views(records@) == Seq::<DiscContentView>::empty());
    while i < output.len()
        invariant
            all == lines_view(output@),
            output@.len() <= u32::MAX,
            forall|j: int| 0 <= j < output@.len() ==> output_line_valid(#[trigger] output@[j]@),
            i <= output@.len(),
            issues <= i,
            canned_from(all.subrange(i as int, all.len() as int), parse_started, disc_content_views(records@), issues as nat)
                == canned_from(all, false, seq![], 0),
        decreases output@.len() - i,
    {
        let line = output[i];
        assert(all[i as int] == line@);
        let ghost rest = all.subrange(i as int, all.len() as int);
        assert(rest[0] == line@);
        assert(rest.drop_first() == all.subrange(i + 1, all.len() as int));
        let ghost before = disc_content_views(records@);
        let parsed = parse_output_line(line);
        match parsed {
            ParsedOutputLine::MSG(_) => {
                if parse_started {
                    issues = issues + 1;
                }
            },
            ParsedOutputLine::TCOUNT(t) => {
                parse_started = true;
                records.push(DiscContent::TCOUNT(t));
            },
            ParsedOutputLine::DRV(x) => {
                records.push(DiscContent::DRV(x));
            },
            ParsedOutputLine::CINFO(x) => {
                records.push(DiscContent::CINFO(x));
            },
            ParsedOutputLine::SINFO(x) => {
                records.push(DiscContent::SINFO(x));
            },
            ParsedOutputLine::TINFO(x) => {
                records.push(DiscContent::TINFO(x));
            },
        }
        assert(disc_content_views(records@) == before || disc_content_views(records@) == before.push(
            records@.last()@,
        ));
        i = i + 1;
    }
    (records, issues)
}

/// Parses output that was already produced; `None` where
/// `parse_canned_output` does not accept it (a line it cannot parse, or
/// more lines than a `u32` counts).
pub fn try_parse_canned_output(output: &Vec<&[u8]>) -> (r: Option<(Vec<DiscContent>, u32)>)
    ensures
        r is Some <==> (output@.len() <= u32::MAX && forall|i: int|
            0 <= i < output@.len() ==> output_line_valid(#[trigger] output@[i]@)),
        r matches Some(x) ==> (disc_content_views(x.0@), x.1 as nat) == canned_from(
            lines_view(output@),
            false,
            seq![],
            0,
        ),
{
    if output.len() > u32::MAX as usize {
        return None;
    }
    let mut i: usize = 0;
    while i < output.len()
        invariant
            i <= output@.len(),
            forall|j: int| 0 <= j < i ==> output_line_valid(#[trigger] output@[j]@),
        decreases output@.len() - i,
    {
        if !is_valid_output_line(output[i]) {
            return None;
        }
        i = i + 1;
    }
    Some(parse_canned_output(output))
}


/// The text `Unknown (<n>)` for a number without a name.
pub open spec fn unknown_name(n: u32) -> Seq<char> {
    "Unknown ("@ + spec_decimal(n as nat) + ")"@
}

/// The name under which an attribute is kept: the attribute id's name, or
/// `Unknown (<n>)` for an unknown id.
pub open spec fn info_key(v: InfoRecordView) -> Seq<char> {
    match v.attr_val {
        Some(x) => x.name(),
        None => unknown_name(v.attr_num),
    }
}

/// The attribute record kept for an info record: the code's name (or
/// `Unknown (<n>)`) and the value.
pub open spec fn info_out(v: InfoRecordView) -> InfoRecordOutView {
    InfoRecordOutView {
        code: match v.code_val {
            Some(x) => x.name(),
            None => unknown_name(v.code_num),
        },
        value: v.value,
    }
}

fn unknown_text(n: u32) -> (r: String)
    ensures
        r@ == unknown_name(n),
{
    let mut r = owned("Unknown (");
    let digits = decimal_string(n as u64);
    append_str(&mut r, digits.as_str());
    append_str(&mut r, ")");
    r
}

/// Converts an info record into its name and its attribute record.
pub fn convert_info_record(info: InfoRecord) -> (r: (String, InfoRecordOut))
    ensures
        r.0@ == info_key(info@),
        r.1@ == info_out(info@),
{
    let attr_str = match info.attr_val {
        Some(x) => x.to_string(),
        None => unknown_text(info.attr_num),
    };
    let code_str = match info.code_val {
        Some(x) => x.to_string(),
        None => unknown_text(info.code_num),
    };
    (attr_str, InfoRecordOut { code: code_str, value: info.value })
}

/// The attributes of one stream.
#[derive(Debug)]
pub struct StreamRecord {
    pub attributes: AttributeMap,
}

impl StreamRecord {
    pub fn new() -> (r: Self)
        ensures
            r.attributes@ == Map::<Seq<char>, InfoRecordOutView>::empty(),
    {
        Self { attributes: AttributeMap::new() }
    }
}

/// The attributes of one title and its streams.
#[derive(Debug)]
pub struct TitleRecord {
    pub attributes: AttributeMap,
    pub streams: HashMap<usize, StreamRecord>,
}

impl TitleRecord {
    pub fn new() -> (r: Self)
        ensures
            r@ == empty_title(),
    {
        let r = Self { attributes: AttributeMap::new(), streams: HashMap::new() };
        assert(streams_view(r.streams@) =~= Map::<usize, Map<Seq<char>, InfoRecordOutView>>::empty());
        r
    }
}

/// The mathematical content of a [`TitleRecord`].
pub struct TitleRecordView {
    pub attributes: Map<Seq<char>, InfoRecordOutView>,
    pub streams: Map<usize, Map<Seq<char>, InfoRecordOutView>>,
}

/// A title without attributes and streams.
pub open spec fn empty_title() -> TitleRecordView {
    TitleRecordView { attributes: Map::empty(), streams: Map::empty() }
}

/// The attribute maps of streams.
pub open spec fn streams_view(m: Map<usize, StreamRecord>) -> Map<usize, Map<Seq<char>, InfoRecordOutView>> {
    Map::new(|k: usize| m.contains_key(k), |k: usize| m[k].attributes@)
}

impl View for TitleRecord {
    type V = TitleRecordView;

    open spec fn view(&self) -> TitleRecordView {
        TitleRecordView { attributes: self.attributes@, streams: streams_view(self.streams@) }
    }
}

/// The views of titles.
pub open spec fn titles_view(m: Map<usize, TitleRecord>) -> Map<usize, TitleRecordView> {
    Map::new(|k: usize| m.contains_key(k), |k: usize| m[k]@)
}

/// Configuration that `makemkvcon` ran with.
#[derive(Debug, PartialEq)]
pub struct MakeMkvConfig {
    pub min_length: usize,
}

/// The version of `makemkvcon` and its configuration.
#[derive(Debug, PartialEq)]
pub struct MakeMkvRecord {
    pub version: String,
    pub config: MakeMkvConfig,
}

/// The disc's attributes and its titles.
#[derive(Debug)]
pub struct ContentRecord {
    pub info: AttributeMap,
    pub titles: HashMap<usize, TitleRecord>,
}

/// Everything that the output holds, with counts of issues and errors.
#[derive(Debug)]
pub struct ParsedOutput {
    pub drives: Vec<DriveRecord>,
    pub content: ContentRecord,
    pub makemkv: MakeMkvRecord,
    pub issues: usize,
    pub errors: usize,
}

/// The mathematical content of a [`ParsedOutput`].
pub struct ParsedOutputView {
    pub drives: Seq<DriveRecordView>,
    pub info: Map<Seq<char>, InfoRecordOutView>,
    pub titles: Map<usize, TitleRecordView>,
    pub version: Seq<char>,
    pub min_length: usize,
    pub issues: nat,
    pub errors: nat,
}

/// The views of drive records.
pub open spec fn drives_view(v: Seq<DriveRecord>) -> Seq<DriveRecordView> {
    v.map_values(|d: DriveRecord| d@)
}

impl View for ParsedOutput {
    type V = ParsedOutputView;

    open spec fn view(&self) -> ParsedOutputView {
        ParsedOutputView {
            drives: drives_view(self.drives@),
            info: self.content.info@,
            titles: titles_view(self.content.titles@),
            version: self.makemkv.version@,
            min_length: self.makemkv.config.min_length,
            issues: self.issues as nat,
            errors: self.errors as nat,
        }
    }
}

/// How a message code is to be treated.
#[derive(Clone, Copy, Debug, PartialEq, Eq, Structural)]
pub enum SeverityLevel {
    Debug,
    Error,
    Info,
    Warning,
}

/// The parse state: what was gathered so far and the announced number of
/// titles.
pub struct OutputModel {
    pub out: ParsedOutputView,
    pub tc_want: nat,
}

/// The state before the first line.
pub open spec fn initial_model(min_length: usize) -> OutputModel {
    OutputModel {
        out: ParsedOutputView {
            drives: seq![],
            info: Map::empty(),
            titles: Map::empty(),
            version: "<n/a>"@,
            min_length,
            issues: 0,
            errors: 0,
        },
        tc_want: 0,
    }
}

/// A message is an issue when its code is unknown or marked a warning.
pub open spec fn is_issue(sev: Map<u32, SeverityLevel>, code: u32) -> bool {
    !sev.contains_key(code) || sev[code] == SeverityLevel::Warning
}

/// A message is an error when its code is marked an error.
pub open spec fn is_error(sev: Map<u32, SeverityLevel>, code: u32) -> bool {
    sev.contains_key(code) && sev[code] == SeverityLevel::Error
}

/// The state after one more line; `None` where processing stops (a
/// version message without parameter, or a stream of an unseen title).
pub open spec fn output_step(st: OutputModel, l: ParsedLineView, sev: Map<u32, SeverityLevel>) -> Option<OutputModel> {
    let out = st.out;
    match l {
        ParsedLineView::MSG(m) => {
            if m.code == 1005 && m.params.len() == 0 {
                None
            } else {
                Some(OutputModel {
                    out: ParsedOutputView {
                        issues: if is_issue(sev, m.code) { out.issues + 1 } else { out.issues },
                        errors: if is_error(sev, m.code) { out.errors + 1 } else { out.errors },
                        version: if m.code == 1005 { m.params[0] } else { out.version },
                        ..out
                    },
                    ..st
                })
            }
        },
        ParsedLineView::DRV(d) => Some(OutputModel {
            out: ParsedOutputView {
                drives: if d.drive_status_num != 256 { out.drives.push(d) } else { out.drives },
                ..out
            },
            ..st
        }),
        ParsedLineView::TCOUNT(tc) => Some(OutputModel { tc_want: tc as nat, ..st }),
        ParsedLineView::CINFO(ir) => Some(OutputModel {
            out: ParsedOutputView { info: out.info.insert(info_key(ir), info_out(ir)), ..out },
            ..st
        }),
        ParsedLineView::TINFO(tid, ir) => {
            let t = if out.titles.contains_key(tid) { out.titles[tid] } else { empty_title() };
            let t2 = TitleRecordView { attributes: t.attributes.insert(info_key(ir), info_out(ir)), ..t };
            Some(OutputModel { out: ParsedOutputView { titles: out.titles.insert(tid, t2), ..out }, ..st })
        },
        ParsedLineView::SINFO(tid, sid, ir) => {
            if !out.titles.contains_key(tid) {
                None
            } else {
                let t = out.titles[tid];
                let sm = if t.streams.contains_key(sid) { t.streams[sid] } else { Map::empty() };
                let t2 = TitleRecordView {
                    streams: t.streams.insert(sid, sm.insert(info_key(ir), info_out(ir))),
                    ..t
                };
                Some(OutputModel { out: ParsedOutputView { titles: out.titles.insert(tid, t2), ..out }, ..st })
            }
        },
    }
}

/// The state after the remaining `lines`; `None` where a line cannot be
/// parsed or processing stops.
pub open spec fn output_from(lines: Seq<Seq<char>>, st: OutputModel, sev: Map<u32, SeverityLevel>) -> Option<OutputModel>
    decreases lines.len(),
{
    if lines.len() == 0 {
        Some(st)
    } else {
        let bytes = encode_utf8(lines[0]);
        if !output_line_valid(bytes) {
            None
        } else {
            match output_step(st, spec_output_line(bytes), sev) {
                None => None,
                Some(st2) => output_from(lines.drop_first(), st2, sev),
            }
        }
    }
}

/// What `process_output` gives for `lines`: the gathered content, with one
/// more error where the number of titles differs from `TCOUNT`.
pub open spec fn spec_process_output(lines: Seq<Seq<char>>, min_length: usize, sev: Map<u32, SeverityLevel>) -> Option<ParsedOutputView> {
    match output_from(lines, initial_model(min_length), sev) {
        None => None,
        Some(m) => Some(
            ParsedOutputView {
                errors: if m.out.titles.dom().len() != m.tc_want { m.out.errors + 1 } else { m.out.errors },
                ..m.out
            },
        ),
    }
}


/// The parse state that the gathered output and announced count stand for.
pub open spec fn model_of(out: ParsedOutputView, tc_want: usize) -> OutputModel {
    OutputModel { out, tc_want: tc_want as nat }
}

/// Adds one parsed line to the gathered output; `false`, with the output
/// in no particular state, where processing stops at this line.
fn apply_line(
    po: &mut ParsedOutput,
    tc_want: &mut usize,
    parsed: ParsedOutputLine,
    severity_map: &HashMap<u32, SeverityLevel>,
) -> (r: bool)
    requires
        old(po).issues < usize::MAX,
        old(po).errors < usize::MAX,
    ensures
        r == output_step(model_of(old(po)@, *old(tc_want)), parsed@, severity_map@) is Some,
        r ==> model_of(final(po)@, *final(tc_want)) == output_step(
            model_of(old(po)@, *old(tc_want)),
            parsed@,
            severity_map@,
        ).unwrap(),
        r ==> final(po).issues <= old(po).issues + 1,
        r ==> final(po).errors <= old(po).errors + 1,
{
    match parsed {
        ParsedOutputLine::MSG(m) => {
            if m.code == 1005 && m.params.len() == 0 {
                return false;
            }
            match severity_map.get(&m.code) {
                Some(SeverityLevel::Warning) | None => {
                    po.issues = po.issues + 1;
                },
                Some(SeverityLevel::Error) => {
                    po.errors = po.errors + 1;
                },
                _ => {},
            }
            if m.code == 1005 {
                po.makemkv.version = m.params[0].clone();
            }
        },
        ParsedOutputLine::DRV(d) => {
            if d.drive_status_num != 256 {
                let ghost before = po.drives@;
                po.drives.push(d);
                assert(drives_view(po.drives@) =~= drives_view(before).push(d@));
            }
        },
        ParsedOutputLine::TCOUNT(tc) => {
            *tc_want = tc;
        },
        ParsedOutputLine::CINFO(ir) => {
            let (k, v) = convert_info_record(ir);
            po.content.info.insert(k, v);
        },
        ParsedOutputLine::TINFO((tid, ir)) => {
            let (attr, iro) = convert_info_record(ir);
            let ghost before = po.content.titles@;
            let mut tr = match po.content.titles.remove(&tid) {
                Some(x) => x,
                None => TitleRecord::new(),
            };
            tr.attributes.insert(attr, iro);
            po.content.titles.insert(tid, tr);
            assert(titles_view(po.content.titles@) =~= titles_view(before).insert(tid, tr@));
        },
        ParsedOutputLine::SINFO((tid, sid, ir)) => {
            let (attr, iro) = convert_info_record(ir);
            let ghost before = po.content.titles@;
            let mut tr = match po.content.titles.remove(&tid) {
                Some(x) => x,
                None => return false,
            };
            let ghost tbefore = tr.streams@;
            let mut sr = match tr.streams.remove(&sid) {
                Some(x) => x,
                None => StreamRecord::new(),
            };
            sr.attributes.insert(attr, iro);
            tr.streams.insert(sid, sr);
            assert(streams_view(tr.streams@) =~= streams_view(tbefore).insert(sid, sr.attributes@));
            po.content.titles.insert(tid, tr);
            assert(titles_view(po.content.titles@) =~= titles_view(before).insert(tid, tr@));
        },
    }
    true
}

/// Gathers the output as `process_output` does; `None` where it would not
/// accept the lines: a line it cannot parse, a version message without
/// parameter, a stream of a title not seen before, or more lines than the
/// counts can hold.
pub fn try_process_output(lines: &Vec<String>, min_length: usize, severity_map: &HashMap<u32, SeverityLevel>) -> (r: Option<ParsedOutput>)
    ensures
        r is Some <==> (lines@.len() < usize::MAX && spec_process_output(strings_view(lines@), min_length, severity_map@) is Some),
        r matches Some(x) ==> x@ == spec_process_output(strings_view(lines@), min_length, severity_map@).unwrap(),
{
    if lines.len() == usize::MAX {
        return None;
    }
    let ghost all = strings_view(lines@);
    let ghost sev = severity_map@;
    let mut po = ParsedOutput {
        drives: Vec::new(),
        content: ContentRecord { info: AttributeMap::new(), titles: HashMap::new() },
        makemkv: MakeMkvRecord { version: owned("<n/a>"), config: MakeMkvConfig { min_length } },
        issues: 0,
        errors: 0,
    };
    let mut tc_want: usize = 0;
    proof {
        reveal_strlit("<n/a>");
        assert(drives_view(po.drives@) =~= Seq::<DriveRecordView>::empty());
        assert(titles_view(po.content.titles@) =~= Map::<usize, TitleRecordView>::empty());
        assert(model_of(po@, tc_want) == initial_model(min_length));
        assert(all.subrange(0, all.len() as int) == all);
    }
    let mut i: usize = 0;
    while i < lines.len()
        invariant
            all == strings_view(lines@),
            sev == severity_map@,
            lines@.len() < usize::MAX,
            i <= lines@.len(),
            po.issues <= i,
            po.errors <= i,
            output_from(all.subrange(i as int, all.len() as int), model_of(po@, tc_want), sev)
                == output_from(all, initial_model(min_length), sev),
        decreases lines@.len() - i,
    {
        let bytes = lines[i].as_str().as_bytes();
        let ghost rest = all.subrange(i as int, all.len() as int);
        proof {
            assert(rest[0] == lines@[i as int]@);
            assert(rest.drop_first() == all.subrange(i + 1, all.len() as int));
        }
        let parsed = match try_parse_output_line(bytes) {
            Some(p) => p,
            None => return None,
        };
        if !apply_line(&mut po, &mut tc_want, parsed, severity_map) {
            return None;
        }
        i = i + 1;
    }
    proof {
        assert(all.subrange(i as int, all.len() as int).len() == 0);
    }
    if po.content.titles.len() != tc_want {
        po.errors = po.errors + 1;
    }
    proof {
        assert(titles_view(po.content.titles@).dom() =~= po.content.titles@.dom());
    }
    Some(po)
}

/// Gathers the drives, the disc's and titles' attributes, the version and
/// the counts of issues and errors from the lines of `makemkvcon --robot`
/// output. A message is an issue when its code is marked a warning or is
/// unknown, and an error when marked an error; a `TCOUNT` that differs
/// from the number of titles adds one error.
pub fn process_output(lines: &Vec<String>, min_length: usize, severity_map: &HashMap<u32, SeverityLevel>) -> (r: ParsedOutput)
    requires
        lines@.len() < usize::MAX,
        spec_process_output(strings_view(lines@), min_length, severity_map@) is Some,
    ensures
        r@ == spec_process_output(strings_view(lines@), min_length, severity_map@).unwrap(),
{
    try_process_output(lines, min_length, severity_map).unwrap()
}

/// The drive records among the lines, in order.
pub open spec fn drive_records(lines: Seq<Seq<char>>) -> Seq<DriveRecordView>
    decreases lines.len(),
{
    if lines.len() == 0 {
        seq![]
    } else {
        match spec_output_line(encode_utf8(lines[0])) {
            ParsedLineView::DRV(d) => seq![d] + drive_records(lines.drop_first()),
            _ => drive_records(lines.drop_first()),
        }
    }
}

proof fn lemma_drives_gathered(lines: Seq<Seq<char>>, st: OutputModel, sev: Map<u32, SeverityLevel>)
    ensures
        output_from(lines, st, sev) matches Some(m) ==> m.out.drives == st.out.drives + drive_records(lines).filter(
            |d: DriveRecordView| d.drive_status_num != 256,
        ),
    decreases lines.len(),
{
    let keep = |d: DriveRecordView| d.drive_status_num != 256;
    if lines.len() == 0 {
        assert(drive_records(lines).filter(keep) =~= Seq::<DriveRecordView>::empty()) by {
            reveal(Seq::filter);
        }
        assert(st.out.drives + Seq::<DriveRecordView>::empty() =~= st.out.drives);
    } else {
        let bytes = encode_utf8(lines[0]);
        if output_line_valid(bytes) {
            if let Some(st2) = output_step(st, spec_output_line(bytes), sev) {
                lemma_drives_gathered(lines.drop_first(), st2, sev);
                let rest = drive_records(lines.drop_first());
                match spec_output_line(bytes) {
                    ParsedLineView::DRV(d) => {
                        Seq::filter_distributes_over_add(seq![d], rest, keep);
                        Seq::<DriveRecordView>::empty().lemma_filter_push(d, keep);
                        assert(seq![d] =~= Seq::<DriveRecordView>::empty().push(d));
                        assert(Seq::<DriveRecordView>::empty().filter(keep) =~= Seq::<DriveRecordView>::empty()) by {
                            reveal(Seq::filter);
                        }
                        if d.drive_status_num != 256 {
                            assert(st2.out.drives == st.out.drives.push(d));
                            assert(st.out.drives.push(d) + rest.filter(keep) =~= st.out.drives + (seq![d]
                                + rest.filter(keep)));
                        } else {
                            assert(seq![d].filter(keep) =~= Seq::<DriveRecordView>::empty());
                            assert(seq![d].filter(keep) + rest.filter(keep) =~= rest.filter(keep));
                        }
                    },
                    _ => {},
                }
            }
        }
    }
}

/// Every drive record of the output whose status is not `256` (no drive in
/// the slot) is gathered, in the order of the lines; only empty slots are
/// left out.
pub proof fn law_drives_gathered(lines: Seq<Seq<char>>, min_length: usize, sev: Map<u32, SeverityLevel>)
    ensures
        spec_process_output(lines, min_length, sev) matches Some(out) ==> out.drives == drive_records(lines).filter(
            |d: DriveRecordView| d.drive_status_num != 256,
        ),
{
    lemma_drives_gathered(lines, initial_model(min_length), sev);
    let keep = |d: DriveRecordView| d.drive_status_num != 256;
    assert(Seq::<DriveRecordView>::empty() + drive_records(lines).filter(keep) =~= drive_records(lines).filter(keep));
}

} // verus!
