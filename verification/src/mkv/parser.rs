//! Parser for the output of `makemkvcon --robot`, gathering typed records.
//!
//! The output follows this structure:
//!
//! ```text
//! DRV     drives
//! TCOUNT  number of titles
//! CINFO   attributes of the disc
//! TINFO   attributes of title #0
//! SINFO   attributes of the streams of title #0
//! TINFO   attributes of title #1
//! ...
//! ```

use vstd::prelude::*;
use vstd::std_specs::btree::*;
use vstd::std_specs::hash::*;

use crate::api::cinfo::{content_info_valid, info_from_fields, parse_content_info_data};
use crate::api::csv_reader::csv_first_record;
use crate::api::drive::{DriveRecord, DriveRecordView, drive_from_fields, drive_record_valid, parse_drive_record_data};
use crate::api::info::{InfoRecord, InfoRecordView};
use crate::api::msg::{MessageRecord, MessageRecordView, message_from_fields, msg_valid, parse_msg_data};
use crate::api::progress::{
    is_valid_prgv_data, is_valid_progress_title, parse_prgc_data, parse_prgt_data, parse_prgv_data, prgv_valid,
    progress_title_valid, spec_prgv, spec_progress_title,
};
use crate::api::record::{RecordKind, has_colon, record_data, record_id, record_kind, spec_record_kind, split_record};
use crate::api::sinfo::{parse_sinfo_data, sinfo_valid, spec_sinfo};
use crate::api::tcount::{parse_title_count_data, tcount_valid};
use crate::api::tinfo::{parse_tinfo_data, spec_tinfo, tinfo_valid};
use crate::mkv::disc_content::{
    is_title_record_applicable,
    ContentAttributes, ContentAttributesView, TitleAttributes, TitleAttributesView, content_attributes_default,
    content_update, title_attributes_default, title_record_applicable, title_update, update_content_info,
    update_title_info,
};
use crate::mkv::stream_cache::{StreamCache, StreamsByTitle, cache_insert, has_stream};
use crate::mkvcon::streams::id_map_view;
use crate::mkv::streams::{
    Stream, StreamView, VideoStream, VideoStreamView, parse_stream_record, spec_stream_record, stream_record_readable,
};
use crate::mkvcon::parser::{MakeMkvConfig, MakeMkvRecord, SeverityLevel, drives_view, is_error, is_issue};
use crate::mkvcon::streams::{
    AudioStream, AudioStreamView, SubtitleStream, SubtitleStreamView, stream_values_valid, values_by_id,
};
use crate::text::{owned, spec_parse_uint, strings_view};
use std::collections::{BTreeMap, HashMap};
use vstd::utf8::{decode_utf8, encode_utf8};

pub use crate::mkvcon::attribute_map::InfoRecordOut;
pub use crate::mkvcon::parser::convert_info_record;

verus! {

broadcast use {
    vstd::std_specs::btree::group_btree_axioms,
    vstd::std_specs::hash::group_hash_axioms,
    vstd::laws_cmp::group_laws_cmp,
};

/// One parsed line of output.
#[allow(non_camel_case_types)]
#[derive(Debug, PartialEq)]
pub enum ParsedOutputLine {
    DRV(DriveRecord),
    MSG(MessageRecord),
    CINFO(InfoRecord),
    TINFO((usize, InfoRecord)),
    SINFO((usize, usize, InfoRecord)),
    TCOUNT(usize),
    PRGC((u32, u32, String)),
    PRGT((u32, u32, String)),
    PRGV((u32, u32, u32)),
}

/// The mathematical content of a [`ParsedOutputLine`].
#[allow(non_camel_case_types)]
pub enum ParsedLineView {
    DRV(DriveRecordView),
    MSG(MessageRecordView),
    CINFO(InfoRecordView),
    TINFO(usize, InfoRecordView),
    SINFO(usize, usize, InfoRecordView),
    TCOUNT(usize),
    PRGC(u32, u32, Seq<char>),
    PRGT(u32, u32, Seq<char>),
    PRGV(u32, u32, u32),
}

impl View for ParsedOutputLine {
    type V = ParsedLineView;

    open spec fn view(&self) -> ParsedLineView {
        match self {
            ParsedOutputLine::DRV(d) => ParsedLineView::DRV(d@),
            ParsedOutputLine::MSG(m) => ParsedLineView::MSG(m@),
            ParsedOutputLine::CINFO(i) => ParsedLineView::CINFO(i@),
            ParsedOutputLine::TINFO((t, i)) => ParsedLineView::TINFO(*t, i@),
            ParsedOutputLine::SINFO((t, s, i)) => ParsedLineView::SINFO(*t, *s, i@),
            ParsedOutputLine::TCOUNT(c) => ParsedLineView::TCOUNT(*c),
            ParsedOutputLine::PRGC((c, i, n)) => ParsedLineView::PRGC(*c, *i, n@),
            ParsedOutputLine::PRGT((c, i, n)) => ParsedLineView::PRGT(*c, *i, n@),
            ParsedOutputLine::PRGV((c, t, m)) => ParsedLineView::PRGV(*c, *t, *m),
        }
    }
}

/// A line that `parse_output_line` accepts: `<ID>:<data>` with one of the
/// ids `MSG`, `DRV`, `TCOUNT`, `TINFO`, `CINFO`, `SINFO`, `PRGC`, `PRGT`,
/// `PRGV` and data that the record's parser accepts.
pub open spec fn output_line_valid(line: Seq<u8>) -> bool {
    let data = record_data(line);
    has_colon(line) && match spec_record_kind(record_id(line)) {
        Some(RecordKind::Msg) => msg_valid(data),
        Some(RecordKind::Drv) => drive_record_valid(data),
        Some(RecordKind::Tcount) => tcount_valid(data),
        Some(RecordKind::Tinfo) => tinfo_valid(data),
        Some(RecordKind::Cinfo) => content_info_valid(data),
        Some(RecordKind::Sinfo) => sinfo_valid(data),
        Some(RecordKind::Prgc) => progress_title_valid(data),
        Some(RecordKind::Prgt) => progress_title_valid(data),
        Some(RecordKind::Prgv) => prgv_valid(data),
        None => false,
    }
}

/// What a valid line parses to.
pub open spec fn spec_output_line(line: Seq<u8>) -> ParsedLineView {
    let data = record_data(line);
    match spec_record_kind(record_id(line)) {
        Some(RecordKind::Msg) => ParsedLineView::MSG(message_from_fields(csv_first_record(data).unwrap())),
        Some(RecordKind::Drv) => ParsedLineView::DRV(drive_from_fields(csv_first_record(data).unwrap())),
        Some(RecordKind::Tcount) => ParsedLineView::TCOUNT(
            spec_parse_uint(decode_utf8(data), usize::MAX as nat).unwrap() as usize,
        ),
        Some(RecordKind::Tinfo) => ParsedLineView::TINFO(spec_tinfo(data).0, spec_tinfo(data).1),
        Some(RecordKind::Cinfo) => ParsedLineView::CINFO(info_from_fields(csv_first_record(data).unwrap())),
        Some(RecordKind::Sinfo) => ParsedLineView::SINFO(spec_sinfo(data).0, spec_sinfo(data).1, spec_sinfo(data).2),
        Some(RecordKind::Prgc) => ParsedLineView::PRGC(
            spec_progress_title(data).0,
            spec_progress_title(data).1,
            spec_progress_title(data).2,
        ),
        Some(RecordKind::Prgt) => ParsedLineView::PRGT(
            spec_progress_title(data).0,
            spec_progress_title(data).1,
            spec_progress_title(data).2,
        ),
        _ => ParsedLineView::PRGV(spec_prgv(data).0, spec_prgv(data).1, spec_prgv(data).2),
    }
}

/// Parses one line of output.
pub fn parse_output_line(line: &[u8]) -> (r: ParsedOutputLine)
    requires
        output_line_valid(line@),
    ensures
        r@ == spec_output_line(line@),
{
    let (id, data) = split_record(line).unwrap();
    match record_kind(id) {
        Some(RecordKind::Msg) => ParsedOutputLine::MSG(parse_msg_data(data)),
        Some(RecordKind::Drv) => ParsedOutputLine::DRV(parse_drive_record_data(data)),
        Some(RecordKind::Tcount) => ParsedOutputLine::TCOUNT(parse_title_count_data(data)),
        Some(RecordKind::Tinfo) => ParsedOutputLine::TINFO(parse_tinfo_data(data)),
        Some(RecordKind::Cinfo) => ParsedOutputLine::CINFO(parse_content_info_data(data)),
        Some(RecordKind::Sinfo) => ParsedOutputLine::SINFO(parse_sinfo_data(data)),
        Some(RecordKind::Prgc) => ParsedOutputLine::PRGC(parse_prgc_data(data)),
        Some(RecordKind::Prgt) => ParsedOutputLine::PRGT(parse_prgt_data(data)),
        _ => ParsedOutputLine::PRGV(parse_prgv_data(data)),
    }
}

/// Whether `parse_output_line` accepts a line.
pub fn is_valid_output_line(line: &[u8]) -> (r: bool)
    ensures
        r == output_line_valid(line@),
{
    let (id, data) = match split_record(line) {
        Some(x) => x,
        None => return false,
    };
    match record_kind(id) {
        Some(RecordKind::Msg) => crate::api::msg::try_parse_msg_data(data).is_some(),
        Some(RecordKind::Drv) => crate::api::drive::try_parse_drive_record_data(data).is_some(),
        Some(RecordKind::Tcount) => crate::api::tcount::is_valid_title_count_data(data),
        Some(RecordKind::Tinfo) => crate::api::tinfo::is_valid_tinfo_data(data),
        Some(RecordKind::Cinfo) => crate::api::cinfo::try_parse_content_info_data(data).is_some(),
        Some(RecordKind::Sinfo) => crate::api::sinfo::is_valid_sinfo_data(data),
        Some(RecordKind::Prgc) => is_valid_progress_title(data),
        Some(RecordKind::Prgt) => is_valid_progress_title(data),
        Some(RecordKind::Prgv) => is_valid_prgv_data(data),
        None => false,
    }
}

/// Parses one line of output; `None` where `parse_output_line` does not
/// accept it.
pub fn try_parse_output_line(line: &[u8]) -> (r: Option<ParsedOutputLine>)
    ensures
        r is Some <==> output_line_valid(line@),
        r matches Some(x) ==> x@ == spec_output_line(line@),
{
    if is_valid_output_line(line) {
        Some(parse_output_line(line))
    } else {
        None
    }
}


/// A stream's attributes by name (`SINFO`).
#[derive(Debug, PartialEq)]
pub struct StreamAttributes {
    pub audio_channel_layout_name: Option<String>,
    pub audio_channels_count: Option<usize>,
    pub audio_sample_rate: Option<usize>,
    pub audio_sample_size: Option<String>,
    pub bitrate: Option<String>,
    pub codec_id: Option<String>,
    pub codec_long: Option<String>,
    pub codec_short: Option<String>,
    pub language_code: Option<String>,
    pub language_name: Option<String>,
    pub metadata_language_code: Option<String>,
    pub metadata_language_name: Option<String>,
    pub mkv_flags_text: Option<String>,
    pub mkv_flags: Option<String>,
    pub name: Option<String>,
    pub offset_sequence_id: Option<String>,
    pub order_weight: Option<usize>,
    pub output_codec_short: Option<String>,
    pub output_conversion_type: Option<String>,
    pub output_format: Option<String>,
    pub output_format_description: Option<String>,
    pub panel_title: Option<String>,
    pub stream_flags: Option<usize>,
    pub stream_type: Option<String>,
    pub tree_info: Option<String>,
    pub video_aspect_ratio: Option<String>,
    pub video_frame_rate: Option<String>,
    pub video_size: Option<String>,
}

/// A title's streams by kind, each by stream number.
#[derive(Debug)]
pub struct StreamsRecord {
    pub audio: BTreeMap<usize, AudioStream>,
    pub subtitles: BTreeMap<usize, SubtitleStream>,
    pub video: BTreeMap<usize, VideoStream>,
}

/// A title: its attributes and its streams.
#[derive(Debug)]
pub struct TitleRecord {
    pub info: TitleAttributes,
    pub streams: StreamsRecord,
}

/// The mathematical content of a [`TitleRecord`].
pub struct TitleRecordView {
    pub info: TitleAttributesView,
    pub audio: Map<usize, AudioStreamView>,
    pub subtitles: Map<usize, SubtitleStreamView>,
    pub video: Map<usize, VideoStreamView>,
}

/// The views of audio streams.
pub open spec fn audio_view(m: Map<usize, AudioStream>) -> Map<usize, AudioStreamView> {
    Map::new(|k: usize| m.contains_key(k), |k: usize| m[k]@)
}

/// The views of subtitle streams.
pub open spec fn subtitles_view(m: Map<usize, SubtitleStream>) -> Map<usize, SubtitleStreamView> {
    Map::new(|k: usize| m.contains_key(k), |k: usize| m[k]@)
}

/// The views of video streams.
pub open spec fn video_view(m: Map<usize, VideoStream>) -> Map<usize, VideoStreamView> {
    Map::new(|k: usize| m.contains_key(k), |k: usize| m[k]@)
}

impl View for TitleRecord {
    type V = TitleRecordView;

    open spec fn view(&self) -> TitleRecordView {
        TitleRecordView {
            info: self.info@,
            audio: audio_view(self.streams.audio@),
            subtitles: subtitles_view(self.streams.subtitles@),
            video: video_view(self.streams.video@),
        }
    }
}

/// A title without attributes and streams.
pub open spec fn empty_title() -> TitleRecordView {
    TitleRecordView {
        info: title_attributes_default(),
        audio: Map::empty(),
        subtitles: Map::empty(),
        video: Map::empty(),
    }
}

impl TitleRecord {
    /// A title without attributes and streams.
    pub fn new() -> (r: Self)
        ensures
            r@ == empty_title(),
    {
        let r = TitleRecord {
            info: TitleAttributes::new(),
            streams: StreamsRecord { audio: BTreeMap::new(), subtitles: BTreeMap::new(), video: BTreeMap::new() },
        };
        assert(audio_view(r.streams.audio@) =~= Map::<usize, AudioStreamView>::empty());
        assert(subtitles_view(r.streams.subtitles@) =~= Map::<usize, SubtitleStreamView>::empty());
        assert(video_view(r.streams.video@) =~= Map::<usize, VideoStreamView>::empty());
        r
    }
}

/// The disc's attributes and its titles.
#[derive(Debug)]
pub struct ContentRecord {
    pub info: ContentAttributes,
    pub titles: BTreeMap<usize, TitleRecord>,
}

/// Everything that the output holds, with counts of issues and errors.
#[derive(Debug)]
pub struct ParsedOutput {
    pub drives: Vec<DriveRecord>,
    pub content: ContentRecord,
    pub makemkv: MakeMkvRecord,
    pub issues: usize,
    pub errors: usize,
}

/// The views of titles.
pub open spec fn titles_view(m: Map<usize, TitleRecord>) -> Map<usize, TitleRecordView> {
    Map::new(|k: usize| m.contains_key(k), |k: usize| m[k]@)
}

/// The mathematical content of a [`ParsedOutput`].
pub struct ParsedOutputView {
    pub drives: Seq<DriveRecordView>,
    pub info: ContentAttributesView,
    pub titles: Map<usize, TitleRecordView>,
    pub version: Seq<char>,
    pub min_length: usize,
    pub issues: nat,
    pub errors: nat,
}

impl View for ParsedOutput {
    type V = ParsedOutputView;

    open spec fn view(&self) -> ParsedOutputView {
        ParsedOutputView {
            drives: drives_view(self.drives@),
            info: self.content.info@,
            titles: titles_view(self.content.titles@),
            version: self.makemkv.version@,
            min_length: self.makemkv.config.min_length,
            issues: self.issues as nat,
            errors: self.errors as nat,
        }
    }
}

/// The parse state: what was gathered so far, the attributes of the
/// titles, the attributes of the streams and the announced number of
/// titles.
pub struct OutputModel {
    pub drives: Seq<DriveRecordView>,
    pub info: ContentAttributesView,
    pub titles: Map<usize, TitleAttributesView>,
    pub streams: StreamsByTitle,
    pub version: Seq<char>,
    pub issues: nat,
    pub errors: nat,
    pub tc_want: nat,
}

/// The state before the first line.
pub open spec fn initial_model() -> OutputModel {
    OutputModel {
        drives: seq![],
        info: content_attributes_default(),
        titles: Map::empty(),
        streams: Map::empty(),
        version: "<n/a>"@,
        issues: 0,
        errors: 0,
        tc_want: 0,
    }
}

/// The attributes of a title, or none set where the title is new.
pub open spec fn title_info_or_default(titles: Map<usize, TitleAttributesView>, tid: usize) -> TitleAttributesView {
    if titles.contains_key(tid) {
        titles[tid]
    } else {
        title_attributes_default()
    }
}

/// The state after one more line; `None` where processing stops: a
/// version message without parameter, an attribute that cannot be
/// applied, or a progress record.
pub open spec fn output_step(st: OutputModel, l: ParsedLineView, sev: Map<u32, SeverityLevel>) -> Option<OutputModel> {
    match l {
        ParsedLineView::MSG(m) => {
            if m.code == 1005 && m.params.len() == 0 {
                None
            } else {
                Some(OutputModel {
                    issues: if is_issue(sev, m.code) { st.issues + 1 } else { st.issues },
                    errors: if is_error(sev, m.code) { st.errors + 1 } else { st.errors },
                    version: if m.code == 1005 { m.params[0] } else { st.version },
                    ..st
                })
            }
        },
        ParsedLineView::DRV(d) => Some(OutputModel {
            drives: if d.drive_status_num != 256 { st.drives.push(d) } else { st.drives },
            ..st
        }),
        ParsedLineView::TCOUNT(tc) => Some(OutputModel { tc_want: tc as nat, ..st }),
        ParsedLineView::CINFO(ir) => match content_update(st.info, ir) {
            Ok(x) => Some(OutputModel { info: x, ..st }),
            Err(_) => None,
        },
        ParsedLineView::TINFO(tid, ir) => {
            if !title_record_applicable(ir) {
                None
            } else {
                match title_update(title_info_or_default(st.titles, tid), ir) {
                    Ok(x) => Some(OutputModel { titles: st.titles.insert(tid, x), ..st }),
                    Err(_) => None,
                }
            }
        },
        ParsedLineView::SINFO(tid, sid, ir) => Some(OutputModel {
            streams: cache_insert(st.streams, tid, sid, ir.attr_num, ir.value),
            ..st
        }),
        _ => None,
    }
}

/// The state after the remaining `lines`; `None` where a line cannot be
/// parsed or processing stops.
pub open spec fn output_from(lines: Seq<Seq<char>>, st: OutputModel, sev: Map<u32, SeverityLevel>) -> Option<OutputModel>
    decreases lines.len(),
{
    if lines.len() == 0 {
        Some(st)
    } else {
        let bytes = encode_utf8(lines[0]);
        if !output_line_valid(bytes) {
            None
        } else {
            match output_step(st, spec_output_line(bytes), sev) {
                None => None,
                Some(st2) => output_from(lines.drop_first(), st2, sev),
            }
        }
    }
}

/// The stream that the gathered attributes of a stream describe.
pub open spec fn stream_of(streams: StreamsByTitle, tid: usize, sid: usize) -> StreamView {
    spec_stream_record(streams[tid][sid]).unwrap()
}

/// Every gathered stream can be read and is of a known type.
pub open spec fn streams_readable(streams: StreamsByTitle) -> bool {
    forall|tid: usize, sid: usize|
        #[trigger] has_stream(streams, tid, sid) ==> {
            &&& stream_values_valid(values_by_id(streams[tid][sid]))
            &&& spec_stream_record(streams[tid][sid]) is Some
        }
}

/// Title `tid` with the streams of `done` added to its attributes.
pub open spec fn title_with_streams(
    titles: Map<usize, TitleAttributesView>,
    streams: StreamsByTitle,
    done: Set<(usize, usize)>,
    tid: usize,
) -> TitleRecordView {
    TitleRecordView {
        info: title_info_or_default(titles, tid),
        audio: Map::new(
            |sid: usize| done.contains((tid, sid)) && stream_of(streams, tid, sid) is Audio,
            |sid: usize| stream_of(streams, tid, sid)->Audio_0,
        ),
        subtitles: Map::new(
            |sid: usize| done.contains((tid, sid)) && stream_of(streams, tid, sid) is Subtitle,
            |sid: usize| stream_of(streams, tid, sid)->Subtitle_0,
        ),
        video: Map::new(
            |sid: usize| done.contains((tid, sid)) && stream_of(streams, tid, sid) is Video,
            |sid: usize| stream_of(streams, tid, sid)->Video_0,
        ),
    }
}

/// The titles with the attributes and the streams of `done`: every title
/// with attributes or with a stream in `done`.
pub open spec fn titles_with_streams(
    titles: Map<usize, TitleAttributesView>,
    streams: StreamsByTitle,
    done: Set<(usize, usize)>,
) -> Map<usize, TitleRecordView> {
    Map::new(
        |tid: usize| titles.contains_key(tid) || exists|sid: usize| #[trigger] done.contains((tid, sid)),
        |tid: usize| title_with_streams(titles, streams, done, tid),
    )
}

/// Every gathered stream.
pub open spec fn all_streams(streams: StreamsByTitle) -> Set<(usize, usize)> {
    Set::new(|p: (usize, usize)| has_stream(streams, p.0, p.1))
}

/// What `process_output` gives for `lines`: the gathered content, every
/// stream in its title (a title that only streams mention too), with one
/// more error where the number of titles differs from `TCOUNT`. `None`
/// where a line cannot be processed or a stream cannot be read.
pub open spec fn spec_process_output(lines: Seq<Seq<char>>, min_length: usize, sev: Map<u32, SeverityLevel>) -> Option<ParsedOutputView> {
    match output_from(lines, initial_model(), sev) {
        None => None,
        Some(m) => {
            if !streams_readable(m.streams) {
                None
            } else {
                let titles = titles_with_streams(m.titles, m.streams, all_streams(m.streams));
                Some(ParsedOutputView {
                    drives: m.drives,
                    info: m.info,
                    titles,
                    version: m.version,
                    min_length,
                    issues: m.issues,
                    errors: if titles.dom().len() != m.tc_want { m.errors + 1 } else { m.errors },
                })
            }
        },
    }
}

/// The parse state that the gathered output, the gathered stream
/// attributes and the announced count stand for.
pub open spec fn model_of(out: ParsedOutputView, streams: StreamsByTitle, tc_want: usize) -> OutputModel {
    OutputModel {
        drives: out.drives,
        info: out.info,
        titles: Map::new(|k: usize| out.titles.contains_key(k), |k: usize| out.titles[k].info),
        streams,
        version: out.version,
        issues: out.issues,
        errors: out.errors,
        tc_want: tc_want as nat,
    }
}

/// No title has streams yet.
pub open spec fn without_streams(titles: Map<usize, TitleRecordView>) -> bool {
    forall|k: usize| #[trigger] titles.contains_key(k) ==> {
        &&& titles[k].audio == Map::<usize, AudioStreamView>::empty()
        &&& titles[k].subtitles == Map::<usize, SubtitleStreamView>::empty()
        &&& titles[k].video == Map::<usize, VideoStreamView>::empty()
    }
}

/// Adds one parsed line to the gathered output; `false`, with the output
/// in no particular state, where processing stops at this line.
fn apply_line(
    po: &mut ParsedOutput,
    tc_want: &mut usize,
    cache: &mut StreamCache,
    parsed: ParsedOutputLine,
    severity_map: &HashMap<u32, SeverityLevel>,
) -> (r: bool)
    requires
        old(po).issues < usize::MAX,
        old(po).errors < usize::MAX,
        old(cache).well_formed(),
        without_streams(old(po)@.titles),
    ensures
        r == output_step(model_of(old(po)@, old(cache)@, *old(tc_want)), parsed@, severity_map@) is Some,
        r ==> model_of(final(po)@, final(cache)@, *final(tc_want)) == output_step(
            model_of(old(po)@, old(cache)@, *old(tc_want)),
            parsed@,
            severity_map@,
        ).unwrap(),
        r ==> final(po).issues <= old(po).issues + 1,
        r ==> final(po).errors <= old(po).errors + 1,
        r ==> final(po)@.min_length == old(po)@.min_length,
        r ==> final(cache).well_formed(),
        r ==> without_streams(final(po)@.titles),
{
    let ghost m0 = model_of(po@, cache@, *tc_want);
    match parsed {
        ParsedOutputLine::MSG(m) => {
            if m.code == 1005 && m.params.len() == 0 {
                return false;
            }
            match severity_map.get(&m.code) {
                Some(SeverityLevel::Warning) | None => {
                    po.issues = po.issues + 1;
                },
                Some(SeverityLevel::Error) => {
                    po.errors = po.errors + 1;
                },
                _ => {},
            }
            if m.code == 1005 {
                po.makemkv.version = m.params[0].clone();
            }
            assert(model_of(po@, cache@, *tc_want).titles =~= m0.titles);
        },
        ParsedOutputLine::DRV(d) => {
            if d.drive_status_num != 256 {
                let ghost before = po.drives@;
                po.drives.push(d);
                assert(drives_view(po.drives@) =~= drives_view(before).push(d@));
            }
            assert(model_of(po@, cache@, *tc_want).titles =~= m0.titles);
        },
        ParsedOutputLine::TCOUNT(tc) => {
            *tc_want = tc;
            assert(model_of(po@, cache@, *tc_want).titles =~= m0.titles);
        },
        ParsedOutputLine::CINFO(ir) => {
            if update_content_info(&mut po.content.info, &ir).is_err() {
                return false;
            }
            assert(model_of(po@, cache@, *tc_want).titles =~= m0.titles);
        },
        ParsedOutputLine::TINFO((tid, ir)) => {
            if !is_title_record_applicable(&ir) {
                return false;
            }
            let ghost before = po.content.titles@;
            let mut tr = match po.content.titles.remove(&tid) {
                Some(x) => x,
                None => TitleRecord::new(),
            };
            assert(tr@.info == title_info_or_default(m0.titles, tid));
            if update_title_info(&mut tr.info, &ir).is_err() {
                return false;
            }
            po.content.titles.insert(tid, tr);
            assert(titles_view(po.content.titles@) =~= titles_view(before).insert(tid, tr@));
            assert(model_of(po@, cache@, *tc_want).titles =~= m0.titles.insert(tid, tr@.info));
        },
        ParsedOutputLine::SINFO((tid, sid, ir)) => {
            cache.insert(tid, sid, ir.attr_num, ir.value);
            assert(model_of(po@, cache@, *tc_want).titles =~= m0.titles);
        },
        _ => {
            return false;
        },
    }
    true
}

/// The streams that the first `k` entries of an order name.
pub open spec fn done_set(order: Seq<(usize, usize)>, k: int) -> Set<(usize, usize)> {
    Set::new(|p: (usize, usize)| exists|j: int| 0 <= j < k && order[j] == p)
}

/// A title with one more stream.
pub open spec fn add_stream(t: TitleRecordView, sid: usize, s: StreamView) -> TitleRecordView {
    match s {
        StreamView::Audio(a) => TitleRecordView { audio: t.audio.insert(sid, a), ..t },
        StreamView::Subtitle(x) => TitleRecordView { subtitles: t.subtitles.insert(sid, x), ..t },
        StreamView::Video(v) => TitleRecordView { video: t.video.insert(sid, v), ..t },
    }
}

proof fn lemma_titles_without_streams(out: Map<usize, TitleRecordView>, streams: StreamsByTitle)
    requires
        without_streams(out),
    ensures
        titles_with_streams(
            Map::new(|k: usize| out.contains_key(k), |k: usize| out[k].info),
            streams,
            Set::empty(),
        ) == out,
{
    let titles = Map::new(|k: usize| out.contains_key(k), |k: usize| out[k].info);
    let t = titles_with_streams(titles, streams, Set::empty());
    assert forall|k: usize| #[trigger] t.contains_key(k) implies t[k] == out[k] by {
        assert(t[k].audio =~= out[k].audio);
        assert(t[k].subtitles =~= out[k].subtitles);
        assert(t[k].video =~= out[k].video);
    }
    assert(t =~= out);
}

proof fn lemma_titles_step(
    titles: Map<usize, TitleAttributesView>,
    streams: StreamsByTitle,
    done: Set<(usize, usize)>,
    t: usize,
    s: usize,
)
    requires
        spec_stream_record(streams[t][s]) is Some,
    ensures
        titles_with_streams(titles, streams, done.insert((t, s))) == titles_with_streams(titles, streams, done).insert(
            t,
            add_stream(title_with_streams(titles, streams, done, t), s, stream_of(streams, t, s)),
        ),
        !titles_with_streams(titles, streams, done).contains_key(t) ==> title_with_streams(titles, streams, done, t)
            == empty_title(),
{
    let d2 = done.insert((t, s));
    let a = titles_with_streams(titles, streams, d2);
    let b = titles_with_streams(titles, streams, done).insert(
        t,
        add_stream(title_with_streams(titles, streams, done, t), s, stream_of(streams, t, s)),
    );
    assert(d2.contains((t, s)));
    assert forall|k: usize| #[trigger] a.contains_key(k) == b.contains_key(k) by {
        if k == t {
            assert(d2.contains((t, s)));
        } else {
            if exists|sid: usize| #[trigger] d2.contains((k, sid)) {
                let sid = choose|sid: usize| #[trigger] d2.contains((k, sid));
                assert(done.contains((k, sid)));
            }
            if exists|sid: usize| #[trigger] done.contains((k, sid)) {
                let sid = choose|sid: usize| #[trigger] done.contains((k, sid));
                assert(d2.contains((k, sid)));
            }
        }
    }
    assert forall|k: usize| #[trigger] a.contains_key(k) implies a[k] == b[k] by {
        let old_t = title_with_streams(titles, streams, done, k);
        let new_t = title_with_streams(titles, streams, d2, k);
        if k == t {
            let added = add_stream(old_t, s, stream_of(streams, t, s));
            assert(new_t.audio =~= added.audio);
            assert(new_t.subtitles =~= added.subtitles);
            assert(new_t.video =~= added.video);
        } else {
            assert(new_t.audio =~= old_t.audio);
            assert(new_t.subtitles =~= old_t.subtitles);
            assert(new_t.video =~= old_t.video);
        }
    }
    assert(a =~= b);
    if !titles_with_streams(titles, streams, done).contains_key(t) {
        let e = title_with_streams(titles, streams, done, t);
        assert forall|sid: usize| !done.contains((t, sid)) by {
            if done.contains((t, sid)) {
                assert(titles_with_streams(titles, streams, done).contains_key(t));
            }
        }
        assert(e.audio =~= Map::<usize, AudioStreamView>::empty());
        assert(e.subtitles =~= Map::<usize, SubtitleStreamView>::empty());
        assert(e.video =~= Map::<usize, VideoStreamView>::empty());
    }
}

/// Gathers the output as `process_output` does; `None` where it would not
/// accept the lines: a line it cannot parse, a version message without
/// parameter, an attribute it cannot apply, a progress record, a stream
/// it cannot read, or more lines than the counts can hold.
pub fn try_process_output(lines: &Vec<String>, min_length: usize, severity_map: &HashMap<u32, SeverityLevel>) -> (r: Option<ParsedOutput>)
    ensures
        r is Some <==> (lines@.len() < usize::MAX && spec_process_output(strings_view(lines@), min_length, severity_map@) is Some),
        r matches Some(x) ==> x@ == spec_process_output(strings_view(lines@), min_length, severity_map@).unwrap(),
{
    if lines.len() == usize::MAX {
        return None;
    }
    let ghost all = strings_view(lines@);
    let ghost sev = severity_map@;
    let mut po = ParsedOutput {
        drives: Vec::new(),
        content: ContentRecord { info: ContentAttributes::new(), titles: BTreeMap::new() },
        makemkv: MakeMkvRecord { version: owned("<n/a>"), config: MakeMkvConfig { min_length } },
        issues: 0,
        errors: 0,
    };
    let mut cache = StreamCache::new();
    let mut tc_want: usize = 0;
    proof {
        reveal_strlit("<n/a>");
        assert(drives_view(po.drives@) =~= Seq::<DriveRecordView>::empty());
        assert(titles_view(po.content.titles@) =~= Map::<usize, TitleRecordView>::empty());
        assert(model_of(po@, cache@, tc_want).titles =~= Map::<usize, TitleAttributesView>::empty());
        assert(model_of(po@, cache@, tc_want) == initial_model());
        assert(all.subrange(0, all.len() as int) == all);
    }
    let mut i: usize = 0;
    while i < lines.len()
        invariant
            all == strings_view(lines@),
            sev == severity_map@,
            lines@.len() < usize::MAX,
            i <= lines@.len(),
            po.issues <= i,
            po.errors <= i,
            po@.min_length == min_length,
            cache.well_formed(),
            without_streams(po@.titles),
            output_from(all.subrange(i as int, all.len() as int), model_of(po@, cache@, tc_want), sev)
                == output_from(all, initial_model(), sev),
        decreases lines@.len() - i,
    {
        let bytes = lines[i].as_str().as_bytes();
        let ghost rest = all.subrange(i as int, all.len() as int);
        proof {
            assert(rest[0] == lines@[i as int]@);
            assert(rest.drop_first() == all.subrange(i + 1, all.len() as int));
        }
        let parsed = match try_parse_output_line(bytes) {
            Some(p) => p,
            None => return None,
        };
        if !apply_line(&mut po, &mut tc_want, &mut cache, parsed, severity_map) {
            return None;
        }
        i = i + 1;
    }
    let ghost m = model_of(po@, cache@, tc_want);
    proof {
        assert(all.subrange(i as int, all.len() as int).len() == 0);
        assert(output_from(all, initial_model(), sev) == Some(m));
    }
    // every stream must be readable
    let n = cache.len();
    let mut k: usize = 0;
    while k < n
        invariant
            n == cache.order().len(),
            k <= n,
            cache.well_formed(),
            cache@ == m.streams,
            all == strings_view(lines@),
            sev == severity_map@,
            output_from(all, initial_model(), sev) == Some(m),
            forall|j: int| 0 <= j < k ==> {
                let p = #[trigger] cache.order()[j];
                &&& stream_values_valid(values_by_id(cache@[p.0][p.1]))
                &&& spec_stream_record(cache@[p.0][p.1]) is Some
            },
        decreases n - k,
    {
        let (tid, sid) = cache.key(k);
        if !stream_record_readable(cache.attributes_of(tid, sid)) {
            proof {
                assert(cache.order()[k as int] == (tid, sid));
                assert(has_stream(cache@, cache.order()[k as int].0, cache.order()[k as int].1));
                assert(has_stream(m.streams, tid, sid));
                assert(!streams_readable(m.streams));
            }
            return None;
        }
        k = k + 1;
    }
    proof {
        assert forall|tid: usize, sid: usize| #[trigger] has_stream(m.streams, tid, sid) implies {
            &&& stream_values_valid(values_by_id(m.streams[tid][sid]))
            &&& spec_stream_record(m.streams[tid][sid]) is Some
        } by {
            assert(cache.order().contains((tid, sid)));
            let j = choose|j: int| 0 <= j < cache.order().len() && cache.order()[j] == (tid, sid);
            assert(cache.order()[j] == (tid, sid));
        }
        assert(streams_readable(m.streams));
        lemma_titles_without_streams(po@.titles, m.streams);
        assert(done_set(cache.order(), 0) =~= Set::<(usize, usize)>::empty());
    }
    // move every stream into its title
    let mut k: usize = 0;
    while k < n
        invariant
            n == cache.order().len(),
            k <= n,
            cache.well_formed(),
            cache@ == m.streams,
            streams_readable(m.streams),
            po.errors == m.errors,
            po@.drives == m.drives,
            po@.info == m.info,
            po@.version == m.version,
            po@.issues == m.issues,
            po@.min_length == min_length,
            po.errors <= lines@.len(),
            lines@.len() < usize::MAX,
            po@.titles == titles_with_streams(m.titles, m.streams, done_set(cache.order(), k as int)),
        decreases n - k,
    {
        let (tid, sid) = cache.key(k);
        let ghost done = done_set(cache.order(), k as int);
        proof {
            assert(cache.order()[k as int] == (tid, sid));
            assert(has_stream(m.streams, tid, sid));
            assert(done_set(cache.order(), k + 1) =~= done.insert((tid, sid)));
            lemma_titles_step(m.titles, m.streams, done, tid, sid);
        }
        let attrs = cache.attributes_of(tid, sid);
        let stream = parse_stream_record(attrs).unwrap();
        let ghost before = po.content.titles@;
        let mut tr = match po.content.titles.remove(&tid) {
            Some(x) => {
                assert(titles_view(before).contains_key(tid));
                assert(x@ == titles_view(before)[tid]);
                x
            },
            None => {
                assert(!titles_view(before).contains_key(tid));
                TitleRecord::new()
            },
        };
        assert(tr@ == title_with_streams(m.titles, m.streams, done, tid));
        let ghost tb = tr@;
        match stream {
            Stream::Audio(a) => {
                let ghost ab = tr.streams.audio@;
                tr.streams.audio.insert(sid, a);
                assert(audio_view(tr.streams.audio@) =~= audio_view(ab).insert(sid, a@));
            },
            Stream::Subtitle(x) => {
                let ghost xb = tr.streams.subtitles@;
                tr.streams.subtitles.insert(sid, x);
                assert(subtitles_view(tr.streams.subtitles@) =~= subtitles_view(xb).insert(sid, x@));
            },
            Stream::Video(v) => {
                let ghost vb = tr.streams.video@;
                tr.streams.video.insert(sid, v);
                assert(video_view(tr.streams.video@) =~= video_view(vb).insert(sid, v@));
            },
        }
        assert(tr@ == add_stream(tb, sid, stream_of(m.streams, tid, sid)));
        po.content.titles.insert(tid, tr);
        assert(titles_view(po.content.titles@) =~= titles_view(before).insert(tid, tr@));
        k = k + 1;
    }
    proof {
        assert(done_set(cache.order(), n as int) =~= all_streams(m.streams)) by {
            assert forall|p: (usize, usize)| #[trigger] all_streams(m.streams).contains(p) implies done_set(
                cache.order(),
                n as int,
            ).contains(p) by {
                assert(cache.order().contains((p.0, p.1)));
            }
            assert forall|p: (usize, usize)| #[trigger] done_set(cache.order(), n as int).contains(p) implies all_streams(
                m.streams,
            ).contains(p) by {
                let j = choose|j: int| 0 <= j < n && cache.order()[j] == p;
                assert(has_stream(cache@, cache.order()[j].0, cache.order()[j].1));
            }
        }
    }
    if po.content.titles.len() != tc_want {
        po.errors = po.errors + 1;
    }
    proof {
        assert(titles_view(po.content.titles@).dom() =~= po.content.titles@.dom());
    }
    Some(po)
}

/// Gathers the drives, the disc's attributes, the titles with their
/// streams, the version and the counts of issues and errors from the lines
/// of `makemkvcon --robot` output. A message is an issue when its code is
/// marked a warning or is unknown, and an error when marked an error; a
/// `TCOUNT` that differs from the number of titles adds one error.
pub fn process_output(lines: &Vec<String>, min_length: usize, severity_map: &HashMap<u32, SeverityLevel>) -> (r: ParsedOutput)
    requires
        lines@.len() < usize::MAX,
        spec_process_output(strings_view(lines@), min_length, severity_map@) is Some,
    ensures
        r@ == spec_process_output(strings_view(lines@), min_length, severity_map@).unwrap(),
{
    try_process_output(lines, min_length, severity_map).unwrap()
}
} // verus!
