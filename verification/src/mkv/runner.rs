//! The decisions taken while `makemkvcon` runs: which events each line of
//! its output raises, how the disc's content grows, and what is reported
//! once it has finished. Running the program and delivering the events is
//! left to the caller.

use vstd::prelude::*;
use vstd::std_specs::btree::*;

use crate::apdefs::DriveStatus;
use crate::api::drive::{DriveRecord, DriveRecordView};
use crate::api::msg::{MessageRecord, MessageRecordView};
use crate::api::progress::{ProgressCurrentRecord, ProgressTotalRecord, ProgressValueRecord};
use crate::mkv::disc_content::{
    ContentAttributesView, DiscContent, TitleRecordView, UpdateError, content_attributes_default,
    content_update, is_title_record_applicable, title_or_empty, title_record_applicable, title_update,
};
use crate::mkv::parser::{
    ParsedLineView, ParsedOutputLine, done_set, output_line_valid, spec_output_line, stream_of, streams_readable,
    try_parse_output_line, all_streams,
};
use crate::mkv::stream_cache::{StreamCache, StreamsByTitle, cache_insert, has_stream};
use crate::mkv::streams::{StreamView, parse_stream_record, spec_stream_record, stream_record_readable};
use crate::mkvcon::streams::{stream_values_valid, values_by_id};
use crate::text::owned;
use vstd::utf8::encode_utf8;

verus! {

broadcast use {vstd::std_specs::btree::group_btree_axioms, vstd::laws_cmp::group_laws_cmp};

/// Where `makemkvcon`'s own output goes.
#[derive(Clone, Debug, PartialEq)]
pub enum OutputType {
    StdOut,
    StdErr,
    Silent,
    File(String),
}

/// Whether `makemkvcon` reads the drive with direct I/O.
#[derive(Clone, Debug, PartialEq)]
pub enum DirectIO {
    Enabled,
    Disabled,
}

/// What a line of `makemkvcon`'s output reports to the caller.
#[allow(non_camel_case_types)]
#[derive(Debug)]
pub enum MakeMkvEvent {
    DRV(DriveRecord),
    MSG(MessageRecord),
    TCOUNT(usize),
    CINFO(String),
    TINFO(String),
    SINFO(String),
    PRGC(ProgressCurrentRecord),
    PRGT(ProgressTotalRecord),
    PRGV(ProgressValueRecord),
}

/// The mathematical content of a [`MakeMkvEvent`].
#[allow(non_camel_case_types)]
pub enum MakeMkvEventView {
    DRV(DriveRecordView),
    MSG(MessageRecordView),
    TCOUNT(usize),
    CINFO(Seq<char>),
    TINFO(Seq<char>),
    SINFO(Seq<char>),
    /// source, code, id, name
    PRGC(Seq<char>, u32, u32, Seq<char>),
    /// code, id, name
    PRGT(u32, u32, Seq<char>),
    PRGV(ProgressValueRecord),
}

impl View for MakeMkvEvent {
    type V = MakeMkvEventView;

    open spec fn view(&self) -> MakeMkvEventView {
        match self {
            MakeMkvEvent::DRV(d) => MakeMkvEventView::DRV(d@),
            MakeMkvEvent::MSG(m) => MakeMkvEventView::MSG(m@),
            MakeMkvEvent::TCOUNT(c) => MakeMkvEventView::TCOUNT(*c),
            MakeMkvEvent::CINFO(s) => MakeMkvEventView::CINFO(s@),
            MakeMkvEvent::TINFO(s) => MakeMkvEventView::TINFO(s@),
            MakeMkvEvent::SINFO(s) => MakeMkvEventView::SINFO(s@),
            MakeMkvEvent::PRGC(p) => MakeMkvEventView::PRGC(p.source@, p.code, p.id, p.name@),
            MakeMkvEvent::PRGT(p) => MakeMkvEventView::PRGT(p.code, p.id, p.name@),
            MakeMkvEvent::PRGV(p) => MakeMkvEventView::PRGV(*p),
        }
    }
}

/// The views of a sequence of events.
pub open spec fn events_view(v: Seq<MakeMkvEvent>) -> Seq<MakeMkvEventView> {
    v.map_values(|e: MakeMkvEvent| e@)
}

/// Why the content of a disc could not be gathered.
#[derive(Debug)]
pub enum MakeMkvError {
    DataError(String),
}

/// The state kept while `makemkvcon` runs: the disc's content so far, the
/// attributes of its streams, the announced number of titles and the last
/// progress values.
#[derive(Debug)]
pub struct ParserContext {
    sac: StreamCache,
    dc: DiscContent,
    source: String,
    title_count: usize,
    prgt_last: u32,
    prgc_last: u32,
    prg_max: u32,
}

/// The mathematical content of a [`ParserContext`].
pub struct ContextView {
    pub info: ContentAttributesView,
    pub titles: Map<usize, TitleRecordView>,
    pub streams: StreamsByTitle,
    pub source: Seq<char>,
    pub title_count: usize,
    pub prgt_last: u32,
    pub prgc_last: u32,
    pub prg_max: u32,
}

impl View for ParserContext {
    type V = ContextView;

    closed spec fn view(&self) -> ContextView {
        ContextView {
            info: self.dc@.info,
            titles: self.dc@.titles,
            streams: self.sac@,
            source: self.source@,
            title_count: self.title_count,
            prgt_last: self.prgt_last,
            prgc_last: self.prgc_last,
            prg_max: self.prg_max,
        }
    }
}

/// No title has streams yet: they are gathered apart until the end.
pub open spec fn titles_without_streams(titles: Map<usize, TitleRecordView>) -> bool {
    forall|k: usize| #[trigger] titles.contains_key(k) ==> titles[k].streams == Map::<usize, StreamView>::empty()
}

/// The state before the first line.
pub open spec fn initial_context(source: Seq<char>) -> ContextView {
    ContextView {
        info: content_attributes_default(),
        titles: Map::empty(),
        streams: Map::empty(),
        source,
        title_count: 0,
        prgt_last: 0,
        prgc_last: 0,
        prg_max: 0,
    }
}

/// A progress value record.
pub open spec fn progress(current: u32, total: u32, maximum: u32) -> ProgressValueRecord {
    ProgressValueRecord { current, total, maximum }
}

/// A line that the context can take: a `CINFO` or `TINFO` record must
/// name an attribute that it holds (and the numbers of a title must be
/// numbers).
pub open spec fn line_accepted(c: ContextView, l: ParsedLineView) -> bool {
    match l {
        ParsedLineView::CINFO(ir) => content_update(c.info, ir) is Ok,
        ParsedLineView::TINFO(tid, ir) => title_record_applicable(ir) && title_update(
            title_or_empty(c.titles, tid).info,
            ir,
        ) is Ok,
        _ => true,
    }
}

/// The state after a line, and the events that it raises, in order:
/// messages and drives (but for empty slots) and the title count pass on;
/// attributes of the disc and its titles update the content; attributes of
/// streams are gathered. A new stage (`PRGT`) or task (`PRGC`) first
/// completes the previous progress bar to its maximum where it stopped
/// short, then resets the progress; the first progress value above zero
/// of a task is preceded by a zero value.
pub open spec fn context_step(c: ContextView, l: ParsedLineView) -> (ContextView, Seq<MakeMkvEventView>) {
    match l {
        ParsedLineView::MSG(m) => (c, seq![MakeMkvEventView::MSG(m)]),
        ParsedLineView::DRV(d) => (
            c,
            if d.drive_status != Some(DriveStatus::NoDrive) {
                seq![MakeMkvEventView::DRV(d)]
            } else {
                seq![]
            },
        ),
        ParsedLineView::TCOUNT(v) => (ContextView { title_count: v, ..c }, seq![MakeMkvEventView::TCOUNT(v)]),
        ParsedLineView::CINFO(ir) => (
            ContextView {
                info: match content_update(c.info, ir) {
                    Ok(x) => x,
                    Err(_) => c.info,
                },
                ..c
            },
            seq![],
        ),
        ParsedLineView::TINFO(tid, ir) => {
            let t = title_or_empty(c.titles, tid);
            (
                ContextView {
                    titles: c.titles.insert(
                        tid,
                        TitleRecordView {
                            info: match title_update(t.info, ir) {
                                Ok(x) => x,
                                Err(_) => t.info,
                            },
                            ..t
                        },
                    ),
                    ..c
                },
                seq![],
            )
        },
        ParsedLineView::SINFO(tid, sid, ir) => (
            ContextView { streams: cache_insert(c.streams, tid, sid, ir.attr_num, ir.value), ..c },
            seq![],
        ),
        ParsedLineView::PRGT(code, id, name) => (
            ContextView { prgc_last: 0, prgt_last: 0, prg_max: 0, ..c },
            (if c.prgc_last < c.prg_max {
                seq![MakeMkvEventView::PRGV(progress(c.prg_max, c.prg_max, c.prg_max))]
            } else {
                seq![]
            }) + seq![MakeMkvEventView::PRGT(code, id, name)],
        ),
        ParsedLineView::PRGC(code, id, name) => (
            ContextView { prgc_last: 0, ..c },
            (if c.prgc_last < c.prg_max {
                seq![MakeMkvEventView::PRGV(progress(c.prg_max, c.prgt_last, c.prg_max))]
            } else {
                seq![]
            }) + seq![MakeMkvEventView::PRGC(c.source, code, id, name)],
        ),
        ParsedLineView::PRGV(current, total, maximum) => (
            ContextView { prgc_last: current, prgt_last: total, prg_max: maximum, ..c },
            (if c.prgc_last == 0 && current > 0 {
                seq![MakeMkvEventView::PRGV(progress(0, total, maximum))]
            } else {
                seq![]
            }) + seq![MakeMkvEventView::PRGV(progress(current, total, maximum))],
        ),
    }
}

impl ParserContext {
    /// The stream attributes are in order and no title has streams yet.
    pub closed spec fn well_formed(&self) -> bool {
        self.sac.well_formed() && titles_without_streams(self.dc@.titles)
    }

    /// The state before the first line of `makemkvcon`'s output about
    /// `source`.
    pub fn new(source: &str) -> (r: Self)
        ensures
            r.well_formed(),
            r@ == initial_context(source@),
    {
        let r = ParserContext {
            sac: StreamCache::new(),
            dc: DiscContent::new(),
            source: owned(source),
            title_count: 0,
            prgt_last: 0,
            prgc_last: 0,
            prg_max: 0,
        };
        r
    }

    /// Whether `process_output` takes a line: one that parses, and whose
    /// attribute, for a `CINFO` or `TINFO` record, the content holds.
    pub fn accepts_line(&self, line: &str) -> (r: bool)
        ensures
            r == (output_line_valid(encode_utf8(line@)) && line_accepted(
                self@,
                spec_output_line(encode_utf8(line@)),
            )),
    {
        let parsed = match try_parse_output_line(line.as_bytes()) {
            Some(p) => p,
            None => return false,
        };
        match parsed {
            ParsedOutputLine::CINFO(ir) => {
                let mut info = self.dc.info.duplicate();
                crate::mkv::disc_content::update_content_info(&mut info, &ir).is_ok()
            },
            ParsedOutputLine::TINFO((tid, ir)) => {
                if !is_title_record_applicable(&ir) {
                    return false;
                }
                let mut dc = self.dc.duplicate();
                dc.update_title_attribute(tid, &ir).is_ok()
            },
            _ => true,
        }
    }

    /// Takes one line of `makemkvcon`'s output and returns the events that
    /// it raises, in the order in which they are to be delivered.
    pub fn process_output(&mut self, line: &str) -> (r: Vec<MakeMkvEvent>)
        requires
            old(self).well_formed(),
            output_line_valid(encode_utf8(line@)),
            line_accepted(old(self)@, spec_output_line(encode_utf8(line@))),
        ensures
            final(self).well_formed(),
            (final(self)@, events_view(r@)) == context_step(old(self)@, spec_output_line(encode_utf8(line@))),
    {
        let parsed = crate::mkv::parser::parse_output_line(line.as_bytes());
        let mut events: Vec<MakeMkvEvent> = Vec::new();
        let ghost c0 = self@;
        match parsed {
            ParsedOutputLine::MSG(msg) => {
                events.push(MakeMkvEvent::MSG(msg));
            },
            ParsedOutputLine::DRV(drv) => {
                let no_drive = match drv.drive_status {
                    Some(DriveStatus::NoDrive) => true,
                    _ => false,
                };
                if !no_drive {
                    events.push(MakeMkvEvent::DRV(drv));
                }
            },
            ParsedOutputLine::TCOUNT(value) => {
                self.title_count = value;
                events.push(MakeMkvEvent::TCOUNT(value));
            },
            ParsedOutputLine::CINFO(ir) => {
                let _ = self.dc.update_disc_attribute(&ir);
            },
            ParsedOutputLine::TINFO((tid, ir)) => {
                let _ = self.dc.update_title_attribute(tid, &ir);
            },
            ParsedOutputLine::SINFO((tid, sid, ir)) => {
                self.sac.insert(tid, sid, ir.attr_num, ir.value);
            },
            ParsedOutputLine::PRGT((code, id, name)) => {
                if self.prgc_last < self.prg_max {
                    events.push(
                        MakeMkvEvent::PRGV(
                            ProgressValueRecord { current: self.prg_max, total: self.prg_max, maximum: self.prg_max },
                        ),
                    );
                }
                events.push(MakeMkvEvent::PRGT(ProgressTotalRecord::new(code, id, name.as_str())));
                self.prgc_last = 0;
                self.prgt_last = 0;
                self.prg_max = 0;
            },
            ParsedOutputLine::PRGC((code, id, name)) => {
                if self.prgc_last < self.prg_max {
                    events.push(
                        MakeMkvEvent::PRGV(
                            ProgressValueRecord { current: self.prg_max, total: self.prgt_last, maximum: self.prg_max },
                        ),
                    );
                }
                events.push(MakeMkvEvent::PRGC(ProgressCurrentRecord::new(self.source.as_str(), code, id, name)));
                self.prgc_last = 0;
            },
            ParsedOutputLine::PRGV((current, total, maximum)) => {
                if self.prgc_last == 0 && current > 0 {
                    events.push(MakeMkvEvent::PRGV(ProgressValueRecord { current: 0, total, maximum }));
                }
                events.push(MakeMkvEvent::PRGV(ProgressValueRecord { current, total, maximum }));
                self.prgc_last = current;
                self.prgt_last = total;
                self.prg_max = maximum;
            },
        }
        proof {
            let (c1, ev) = context_step(c0, spec_output_line(encode_utf8(line@)));
            assert(events_view(events@) =~= ev);
            assert(self@.titles =~= c1.titles);
        }
        events
    }

    /// A copy of the disc's content so far.
    pub fn get_dc(&self) -> (r: DiscContent)
        ensures
            r@.info == self@.info,
            r@.titles == self@.titles,
    {
        self.dc.duplicate()
    }

    /// The last progress values.
    pub fn get_prgv(&self) -> (r: ProgressValueRecord)
        ensures
            r == progress(self@.prgc_last, self@.prgt_last, self@.prg_max),
    {
        ProgressValueRecord { current: self.prgc_last, total: self.prgt_last, maximum: self.prg_max }
    }

    /// A copy of the gathered stream attributes.
    pub fn get_sac(&self) -> (r: StreamCache)
        requires
            self.well_formed(),
        ensures
            r.well_formed(),
            r@ == self@.streams,
    {
        self.sac.duplicate()
    }

    /// The announced number of titles.
    pub fn get_title_count(&self) -> (r: usize)
        ensures
            r == self@.title_count,
    {
        self.title_count
    }
}


/// The titles with the streams of `done` added: every title of `titles`
/// and every title with a stream in `done`.
pub open spec fn titles_with_streams(
    titles: Map<usize, TitleRecordView>,
    streams: StreamsByTitle,
    done: Set<(usize, usize)>,
) -> Map<usize, TitleRecordView> {
    Map::new(
        |tid: usize| titles.contains_key(tid) || exists|sid: usize| #[trigger] done.contains((tid, sid)),
        |tid: usize|
            TitleRecordView {
                info: title_or_empty(titles, tid).info,
                streams: Map::new(|sid: usize| done.contains((tid, sid)), |sid: usize| stream_of(streams, tid, sid)),
            },
    )
}

/// The progress value that completes the last progress bar, where it
/// stopped short of its maximum.
pub open spec fn final_progress(c: ContextView) -> Option<ProgressValueRecord> {
    if c.prgc_last < c.prg_max {
        Some(progress(c.prg_max, c.prgt_last, c.prg_max))
    } else {
        None
    }
}

proof fn lemma_titles_step(
    titles: Map<usize, TitleRecordView>,
    streams: StreamsByTitle,
    done: Set<(usize, usize)>,
    t: usize,
    s: usize,
)
    ensures
        ({
            let before = titles_with_streams(titles, streams, done);
            let tr = title_or_empty(before, t);
            titles_with_streams(titles, streams, done.insert((t, s))) == before.insert(
                t,
                TitleRecordView { streams: tr.streams.insert(s, stream_of(streams, t, s)), ..tr },
            )
        }),
{
    let d2 = done.insert((t, s));
    let before = titles_with_streams(titles, streams, done);
    let tr = title_or_empty(before, t);
    let a = titles_with_streams(titles, streams, d2);
    let b = before.insert(t, TitleRecordView { streams: tr.streams.insert(s, stream_of(streams, t, s)), ..tr });
    assert forall|k: usize| #[trigger] a.contains_key(k) == b.contains_key(k) by {
        if k == t {
            assert(d2.contains((t, s)));
        } else {
            if exists|sid: usize| #[trigger] d2.contains((k, sid)) {
                let sid = choose|sid: usize| #[trigger] d2.contains((k, sid));
                assert(done.contains((k, sid)));
            }
            if exists|sid: usize| #[trigger] done.contains((k, sid)) {
                let sid = choose|sid: usize| #[trigger] done.contains((k, sid));
                assert(d2.contains((k, sid)));
            }
        }
    }
    assert forall|k: usize| #[trigger] a.contains_key(k) implies a[k] == b[k] by {
        if k == t {
            if !before.contains_key(t) {
                assert forall|sid: usize| !done.contains((t, sid)) by {
                    if done.contains((t, sid)) {
                        assert(before.contains_key(t));
                    }
                }
                assert(tr.streams =~= Map::<usize, StreamView>::empty());
                assert(title_or_empty(titles, t) == tr);
            }
            assert(a[k].streams =~= b[k].streams);
        } else {
            assert(a[k].streams =~= b[k].streams);
        }
    }
    assert(a =~= b);
}

impl ParserContext {
    /// Whether every gathered stream can be read and is of a known type.
    pub fn streams_ready(&self) -> (r: bool)
        requires
            self.well_formed(),
        ensures
            r == streams_readable(self@.streams),
    {
        let n = self.sac.len();
        let mut k: usize = 0;
        while k < n
            invariant
                n == self.sac.order().len(),
                k <= n,
                self.sac.well_formed(),
                forall|j: int| 0 <= j < k ==> {
                    let p = #[trigger] self.sac.order()[j];
                    &&& stream_values_valid(values_by_id(self.sac@[p.0][p.1]))
                    &&& spec_stream_record(self.sac@[p.0][p.1]) is Some
                },
            decreases n - k,
        {
            let (tid, sid) = self.sac.key(k);
            if !stream_record_readable(self.sac.attributes_of(tid, sid)) {
                proof {
                    assert(self.sac.order()[k as int] == (tid, sid));
                    assert(has_stream(self.sac@, self.sac.order()[k as int].0, self.sac.order()[k as int].1));
                    assert(has_stream(self@.streams, tid, sid));
                }
                return false;
            }
            k = k + 1;
        }
        proof {
            assert forall|tid: usize, sid: usize| #[trigger] has_stream(self@.streams, tid, sid) implies {
                &&& stream_values_valid(values_by_id(self@.streams[tid][sid]))
                &&& spec_stream_record(self@.streams[tid][sid]) is Some
            } by {
                assert(self.sac.order().contains((tid, sid)));
                let j = choose|j: int| 0 <= j < self.sac.order().len() && self.sac.order()[j] == (tid, sid);
                assert(self.sac.order()[j] == (tid, sid));
            }
        }
        true
    }

    /// What is reported once `makemkvcon` has finished: the progress value
    /// that completes the last progress bar (where it stopped short), and
    /// the disc's content with every stream in its title, or an error
    /// where the number of titles differs from the announced one.
    pub fn finish(&self) -> (r: (Option<ProgressValueRecord>, Result<DiscContent, MakeMkvError>))
        requires
            self.well_formed(),
            streams_readable(self@.streams),
        ensures
            r.0 == final_progress(self@),
            ({
                let titles = titles_with_streams(self@.titles, self@.streams, all_streams(self@.streams));
                match r.1 {
                    Ok(dc) => titles.dom().len() == self@.title_count && dc@.info == self@.info && dc@.titles
                        == titles,
                    Err(MakeMkvError::DataError(msg)) => titles.dom().len() != self@.title_count && msg@
                        == "Found content but didn't see TCOUNT in output!"@,
                }
            }),
    {
        let prgv = self.get_prgv();
        let last = if prgv.current < prgv.maximum {
            Some(ProgressValueRecord { current: prgv.maximum, total: prgv.total, maximum: prgv.maximum })
        } else {
            None
        };
        let mut dc = self.get_dc();
        let sac = self.get_sac();
        let ghost c = self@;
        proof {
            assert(done_set(sac.order(), 0) =~= Set::<(usize, usize)>::empty());
            let t0 = titles_with_streams(c.titles, c.streams, Set::empty());
            assert forall|k: usize| #[trigger] t0.contains_key(k) implies t0[k] == c.titles[k] by {
                assert(t0[k].streams =~= c.titles[k].streams);
            }
            assert(t0 =~= c.titles);
        }
        let n = sac.len();
        let mut k: usize = 0;
        while k < n
            invariant
                n == sac.order().len(),
                k <= n,
                sac.well_formed(),
                sac@ == c.streams,
                streams_readable(c.streams),
                dc@.info == c.info,
                dc@.titles == titles_with_streams(c.titles, c.streams, done_set(sac.order(), k as int)),
            decreases n - k,
        {
            let (tid, sid) = sac.key(k);
            let ghost done = done_set(sac.order(), k as int);
            proof {
                assert(sac.order()[k as int] == (tid, sid));
                assert(has_stream(sac@, sac.order()[k as int].0, sac.order()[k as int].1));
                assert(has_stream(c.streams, tid, sid));
                assert(done_set(sac.order(), k + 1) =~= done.insert((tid, sid)));
                lemma_titles_step(c.titles, c.streams, done, tid, sid);
            }
            let stream = parse_stream_record(sac.attributes_of(tid, sid)).unwrap();
            let _ = dc.insert_stream_record(tid, sid, &stream);
            k = k + 1;
        }
        proof {
            assert(done_set(sac.order(), n as int) =~= all_streams(c.streams)) by {
                assert forall|p: (usize, usize)| #[trigger] all_streams(c.streams).contains(p) implies done_set(
                    sac.order(),
                    n as int,
                ).contains(p) by {
                    assert(sac.order().contains((p.0, p.1)));
                }
                assert forall|p: (usize, usize)| #[trigger] done_set(sac.order(), n as int).contains(p) implies all_streams(
                    c.streams,
                ).contains(p) by {
                    let j = choose|j: int| 0 <= j < n && sac.order()[j] == p;
                    assert(has_stream(sac@, sac.order()[j].0, sac.order()[j].1));
                }
            }
            assert(dc.titles@.dom() =~= dc@.titles.dom());
        }
        if dc.titles.len() != self.title_count {
            return (last, Err(MakeMkvError::DataError(owned("Found content but didn't see TCOUNT in output!"))));
        }
        (last, Ok(dc))
    }
}

/// The state of a replay of logged output: the content gathered as while
/// running, the last progress values and whether a task has just begun.
pub struct MockView {
    pub ctx: ContextView,
    pub prgv_last: ProgressValueRecord,
    pub new_stage: bool,
}

/// The state and events after a line of logged output. Progress is
/// reported as it was logged: a new stage or task first completes the
/// last progress bar where it stopped short; the first value of a task
/// that is above zero is reported twice. Every other line is taken as
/// while running.
pub open spec fn mock_step(m: MockView, l: ParsedLineView) -> (MockView, Seq<MakeMkvEventView>) {
    let short = m.prgv_last.current < m.prgv_last.maximum;
    let completed = if short {
        progress(m.prgv_last.maximum, m.prgv_last.total, m.prgv_last.maximum)
    } else {
        m.prgv_last
    };
    let completion = if short { seq![MakeMkvEventView::PRGV(completed)] } else { seq![] };
    match l {
        ParsedLineView::PRGT(code, id, name) => (
            MockView { prgv_last: completed, ..m },
            completion + seq![MakeMkvEventView::PRGT(code, id, name)],
        ),
        ParsedLineView::PRGC(code, id, name) => (
            MockView { prgv_last: completed, new_stage: true, ..m },
            completion + seq![MakeMkvEventView::PRGC(Seq::empty(), code, id, name)],
        ),
        ParsedLineView::PRGV(current, total, maximum) => (
            MockView { prgv_last: progress(current, total, maximum), new_stage: false, ..m },
            (if m.new_stage && current > 0 {
                seq![MakeMkvEventView::PRGV(progress(current, total, maximum))]
            } else {
                seq![]
            }) + seq![MakeMkvEventView::PRGV(progress(current, total, maximum))],
        ),
        _ => {
            let (c2, ev) = context_step(m.ctx, l);
            (MockView { ctx: c2, ..m }, ev)
        },
    }
}

/// The state before the first logged line.
pub open spec fn initial_mock() -> MockView {
    MockView { ctx: initial_context(Seq::empty()), prgv_last: progress(0, 0, 0), new_stage: false }
}

/// The state and the events after the remaining logged `lines`; `None`
/// where a line cannot be parsed or taken.
pub open spec fn mock_from(lines: Seq<Seq<char>>, m: MockView, events: Seq<MakeMkvEventView>) -> Option<
    (MockView, Seq<MakeMkvEventView>),
>
    decreases lines.len(),
{
    if lines.len() == 0 {
        Some((m, events))
    } else {
        let bytes = encode_utf8(lines[0]);
        if !output_line_valid(bytes) || !line_accepted(m.ctx, spec_output_line(bytes)) {
            None
        } else {
            let (m2, ev) = mock_step(m, spec_output_line(bytes));
            mock_from(lines.drop_first(), m2, events + ev)
        }
    }
}

/// A stand-in for `makemkvcon` that replays logged output.
impl crate::mkv::config::MakeMkvMock {
    /// Replays the logged `lines` as `makemkvcon` would have printed them:
    /// the events in order, closed by the completion of the last progress
    /// bar where it stopped short, and the disc's content with every
    /// stream in its title (an error where the number of titles differs
    /// from the announced one). `None` where a line cannot be parsed or
    /// taken, or a stream cannot be read.
    pub fn replay(&self, lines: &Vec<String>) -> (r: Option<(Vec<MakeMkvEvent>, Result<DiscContent, MakeMkvError>)>)
        ensures
            match mock_from(crate::text::strings_view(lines@), initial_mock(), Seq::empty()) {
                None => r is None,
                Some((m, ev)) => if !streams_readable(m.ctx.streams) {
                    r is None
                } else {
                    &&& r matches Some((evs, content))
                    &&& events_view(evs@) == ev + match final_mock_progress(m) {
                        Some(p) => seq![MakeMkvEventView::PRGV(p)],
                        None => Seq::empty(),
                    }
                    &&& ({
                        let titles = titles_with_streams(m.ctx.titles, m.ctx.streams, all_streams(m.ctx.streams));
                        match content {
                            Ok(dc) => titles.dom().len() == m.ctx.title_count && dc@.info == m.ctx.info
                                && dc@.titles == titles,
                            Err(MakeMkvError::DataError(msg)) => titles.dom().len() != m.ctx.title_count && msg@
                                == "Found content but didn't see TCOUNT in output!"@,
                        }
                    })
                },
            },
    {
        let ghost all = crate::text::strings_view(lines@);
        let mut ctx = ParserContext::new("");
        let mut prgv_last = ProgressValueRecord { current: 0, total: 0, maximum: 0 };
        let mut new_stage = false;
        let mut events: Vec<MakeMkvEvent> = Vec::new();
        proof {
            assert(all.subrange(0, all.len() as int) == all);
            reveal_strlit("");
            assert(""@ =~= Seq::<char>::empty());
            assert(ctx@ == initial_context(Seq::empty()));
            assert(events_view(events@) =~= Seq::<MakeMkvEventView>::empty());
        }
        let mut i: usize = 0;
        while i < lines.len()
            invariant
                all == crate::text::strings_view(lines@),
                i <= lines@.len(),
                ctx.well_formed(),
                mock_from(
                    all.subrange(i as int, all.len() as int),
                    MockView { ctx: ctx@, prgv_last, new_stage },
                    events_view(events@),
                ) == mock_from(all, initial_mock(), Seq::empty()),
            decreases lines@.len() - i,
        {
            let ghost rest = all.subrange(i as int, all.len() as int);
            let ghost m0 = MockView { ctx: ctx@, prgv_last, new_stage };
            let ghost ev0 = events_view(events@);
            proof {
                assert(rest[0] == lines@[i as int]@);
                assert(rest.drop_first() == all.subrange(i + 1, all.len() as int));
            }
            let line = lines[i].as_str();
            if !ctx.accepts_line(line) {
                return None;
            }
            let parsed = crate::mkv::parser::parse_output_line(line.as_bytes());
            let ghost l = spec_output_line(encode_utf8(line@));
            let short = prgv_last.current < prgv_last.maximum;
            match parsed {
                ParsedOutputLine::PRGT((code, id, name)) => {
                    if short {
                        prgv_last = ProgressValueRecord {
                            current: prgv_last.maximum,
                            total: prgv_last.total,
                            maximum: prgv_last.maximum,
                        };
                        events.push(MakeMkvEvent::PRGV(prgv_last));
                    }
                    events.push(MakeMkvEvent::PRGT(ProgressTotalRecord::new(code, id, name.as_str())));
                },
                ParsedOutputLine::PRGC((code, id, name)) => {
                    if short {
                        prgv_last = ProgressValueRecord {
                            current: prgv_last.maximum,
                            total: prgv_last.total,
                            maximum: prgv_last.maximum,
                        };
                        events.push(MakeMkvEvent::PRGV(prgv_last));
                    }
                    events.push(MakeMkvEvent::PRGC(ProgressCurrentRecord::new("", code, id, name)));
                    new_stage = true;
                },
                ParsedOutputLine::PRGV((current, total, maximum)) => {
                    let prgv = ProgressValueRecord { current, total, maximum };
                    if new_stage {
                        if current > 0 {
                            events.push(MakeMkvEvent::PRGV(prgv));
                        }
                        new_stage = false;
                    }
                    events.push(MakeMkvEvent::PRGV(prgv));
                    prgv_last = prgv;
                },
                _ => {
                    let mut more = ctx.process_output(line);
                    let ghost mv = more@;
                    events.append(&mut more);
                    assert(events_view(events@) =~= ev0 + events_view(mv));
                },
            }
            proof {
                reveal_strlit("");
                assert(""@ =~= Seq::<char>::empty());
                let (m1, ev) = mock_step(m0, l);
                assert(events_view(events@) =~= ev0 + ev);
            }
            i = i + 1;
        }
        let ghost m = MockView { ctx: ctx@, prgv_last, new_stage };
        proof {
            assert(all.subrange(i as int, all.len() as int).len() == 0);
        }
        if !ctx.streams_ready() {
            return None;
        }
        let ghost ev0 = events_view(events@);
        if prgv_last.current < prgv_last.maximum {
            events.push(
                MakeMkvEvent::PRGV(
                    ProgressValueRecord {
                        current: prgv_last.maximum,
                        total: prgv_last.total,
                        maximum: prgv_last.maximum,
                    },
                ),
            );
        }
        proof {
            assert(events_view(events@) =~= ev0 + match final_mock_progress(m) {
                Some(p) => seq![MakeMkvEventView::PRGV(p)],
                None => Seq::<MakeMkvEventView>::empty(),
            });
        }
        let (_, content) = ctx.finish();
        Some((events, content))
    }
}

/// The progress value that completes the last progress bar of a replay,
/// where it stopped short of its maximum.
pub open spec fn final_mock_progress(m: MockView) -> Option<ProgressValueRecord> {
    if m.prgv_last.current < m.prgv_last.maximum {
        Some(progress(m.prgv_last.maximum, m.prgv_last.total, m.prgv_last.maximum))
    } else {
        None
    }
}
/// A new stage (`PRGT`) first completes the previous one where its
/// progress stopped short of the maximum: the event puts the task and the
/// stage bars both at the maximum (100%). Then the new stage is announced,
/// and its progress starts from zero.
pub proof fn law_new_stage_completes_previous(c: ContextView, code: u32, id: u32, name: Seq<char>)
    ensures
        ({
            let (c2, ev) = context_step(c, ParsedLineView::PRGT(code, id, name));
            &&& c.prgc_last < c.prg_max ==> ev.len() == 2 && (ev[0] matches MakeMkvEventView::PRGV(p) && p.current
                == c.prg_max && p.total == c.prg_max && p.maximum == c.prg_max)
            &&& c.prgc_last >= c.prg_max ==> ev.len() == 1
            &&& ev.last() == MakeMkvEventView::PRGT(code, id, name)
            &&& c2.prgc_last == 0 && c2.prgt_last == 0 && c2.prg_max == 0
        }),
{
}

} // verus!
