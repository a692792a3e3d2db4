//! What a scan of a disc with `makemkvcon info` yields per title, and the
//! severities with which the commands of `makemkvcon` read its messages.

use vstd::prelude::*;
use vstd::std_specs::hash::*;

use crate::api::drive::DriveRecord;
use crate::mkvcon::attribute_map::AttributeMap;
use crate::mkvcon::parser::{ContentRecord, MakeMkvRecord, SeverityLevel};
use crate::mkvcon::source::Source;
use crate::mkvcon::attribute_map::InfoRecordOutView;
use crate::mkvcon::parser::{StreamRecord, TitleRecord, TitleRecordView, streams_view, titles_view};
use crate::mkvcon::streams::{
    AudioStream, AudioStreamView, Stream, StreamView, SubtitleStream, SubtitleStreamView, VideoStream, VideoStreamView,
    number_of, parse_as_usize, parse_stream_record, spec_stream, stream_values_by_name, stream_values_valid, value_of,
    values_by_name,
};
use crate::text::{append_str, chars_of, opt_string_view, owned, push_char, spec_trim, str_eq, strings_view, trim};
use vstd::utf8::encode_utf8;
use std::collections::HashMap;

verus! {

broadcast use vstd::std_specs::hash::group_hash_axioms;

/// The attributes of a title that an extraction needs.
#[derive(Clone, Debug, PartialEq)]
pub struct Attributes {
    pub chapters: usize,
    pub duration: String,
    pub filename: String,
    pub filesize: usize,
    pub segments: Vec<String>,
}

/// The mathematical content of [`Attributes`].
pub struct AttributesView {
    pub chapters: usize,
    pub duration: Seq<char>,
    pub filename: Seq<char>,
    pub filesize: usize,
    pub segments: Seq<Seq<char>>,
}

impl View for Attributes {
    type V = AttributesView;

    open spec fn view(&self) -> AttributesView {
        AttributesView {
            chapters: self.chapters,
            duration: self.duration@,
            filename: self.filename@,
            filesize: self.filesize,
            segments: strings_view(self.segments@),
        }
    }
}

/// The attributes of a title as its attribute records give them: chapter
/// count, duration, output file name, size in bytes, and the segments of
/// its segment map (none without one).
pub open spec fn attributes_of(m: Map<Seq<char>, InfoRecordOutView>) -> AttributesView {
    AttributesView {
        chapters: number_of(value_of(m, "ChapterCount"@)).unwrap(),
        duration: value_of(m, "Duration"@).unwrap(),
        filename: value_of(m, "OutputFileName"@).unwrap(),
        filesize: number_of(value_of(m, "DiskSizeBytes"@)).unwrap(),
        segments: match value_of(m, "SegmentsMap"@) {
            Some(map) => segments_of(map),
            None => Seq::empty(),
        },
    }
}

/// The pieces of `s` between commas (`str::split(',')`): one more than
/// there are commas, empty ones included.
pub open spec fn split_commas(s: Seq<char>) -> Seq<Seq<char>> {
    split_commas_from(s, Seq::empty(), Seq::empty())
}

/// The pieces of `s` after the finished pieces `done` and the piece
/// `current` that `s` continues.
pub open spec fn split_commas_from(s: Seq<char>, current: Seq<char>, done: Seq<Seq<char>>) -> Seq<Seq<char>>
    decreases s.len(),
{
    if s.len() == 0 {
        done.push(current)
    } else if s[0] == ',' {
        split_commas_from(s.drop_first(), Seq::empty(), done.push(current))
    } else {
        split_commas_from(s.drop_first(), current.push(s[0]), done)
    }
}

/// The segments of a segment map: the comma-separated pieces, trimmed,
/// without the empty ones.
pub open spec fn segments_of(map: Seq<char>) -> Seq<Seq<char>> {
    split_commas(map).map_values(|p: Seq<char>| spec_trim(p)).filter(|p: Seq<char>| p.len() > 0)
}

/// The segments of a segment map.
pub fn split_segments(map: &str) -> (r: Vec<String>)
    ensures
        strings_view(r@) == segments_of(map@),
{
    let chars = chars_of(map);
    let mut pieces: Vec<String> = Vec::new();
    let mut current = String::new();
    let mut i: usize = 0;
    assert(map@.subrange(0, map@.len() as int) =~= map@);
    assert(strings_view(pieces@) =~= Seq::<Seq<char>>::empty());
    assert(current@ =~= Seq::<char>::empty());
    while i < chars.len()
        invariant
            chars@ == map@,
            i <= chars@.len(),
            split_commas_from(map@.subrange(i as int, map@.len() as int), current@, strings_view(pieces@))
                == split_commas(map@),
        decreases chars@.len() - i,
    {
        let ghost rest = map@.subrange(i as int, map@.len() as int);
        assert(rest[0] == chars@[i as int]);
        assert(rest.drop_first() =~= map@.subrange(i + 1, map@.len() as int));
        if chars[i] == ',' {
            let ghost before = strings_view(pieces@);
            let piece = current;
            current = String::new();
            pieces.push(piece);
            assert(strings_view(pieces@) =~= before.push(piece@));
        } else {
            push_char(&mut current, chars[i]);
        }
        i = i + 1;
    }
    let ghost before = strings_view(pieces@);
    pieces.push(current);
    assert(strings_view(pieces@) =~= before.push(current@));
    assert(map@.subrange(i as int, map@.len() as int) =~= Seq::<char>::empty());
    let ghost all = split_commas(map@);
    let ghost f = |p: Seq<char>| spec_trim(p);
    let ghost keep = |p: Seq<char>| p.len() > 0;
    let mut r: Vec<String> = Vec::new();
    let mut k: usize = 0;
    assert(all.take(0).map_values(f).filter(keep) =~= Seq::<Seq<char>>::empty()) by {
        reveal(Seq::filter);
    }
    while k < pieces.len()
        invariant
            strings_view(pieces@) == all,
            k <= pieces@.len(),
            strings_view(r@) == all.take(k as int).map_values(f).filter(keep),
            f == (|p: Seq<char>| spec_trim(p)),
            keep == (|p: Seq<char>| p.len() > 0),
        decreases pieces@.len() - k,
    {
        let t = trim(pieces[k].as_str());
        proof {
            assert(all[k as int] == pieces@[k as int]@);
            assert(all.take(k + 1).map_values(f) =~= all.take(k as int).map_values(f).push(t@));
            all.take(k as int).map_values(f).lemma_filter_push(t@, keep);
        }
        if t.as_str().unicode_len() > 0 {
            let ghost before = strings_view(r@);
            r.push(t);
            assert(strings_view(r@) =~= before.push(t@));
        }
        k = k + 1;
    }
    assert(all.take(pieces@.len() as int) =~= all);
    r
}

/// A title's attributes can be read: the chapter count, duration, output
/// file name and size in bytes are given (the counts as numbers), and
/// where a segment count and a segment map are both given, the map holds
/// that many segments.
pub open spec fn attributes_readable(m: Map<Seq<char>, crate::mkvcon::attribute_map::InfoRecordOutView>) -> bool {
    &&& number_of(value_of(m, "ChapterCount"@)) is Some
    &&& value_of(m, "Duration"@) is Some
    &&& value_of(m, "OutputFileName"@) is Some
    &&& number_of(value_of(m, "DiskSizeBytes"@)) is Some
    &&& (value_of(m, "SegmentsMap"@) is Some && number_of(value_of(m, "SegmentsCount"@)) is Some) ==> segments_of(
        value_of(m, "SegmentsMap"@).unwrap(),
    ).len() == number_of(value_of(m, "SegmentsCount"@)).unwrap()
}

fn number_attribute(attributes: &AttributeMap, name: &str) -> (r: Option<usize>)
    ensures
        r == number_of(value_of(attributes@, name@)),
{
    match attributes.get(name) {
        Some(x) => parse_as_usize(x.value.as_str()),
        None => None,
    }
}

fn text_attribute(attributes: &AttributeMap, name: &str) -> (r: Option<String>)
    ensures
        opt_string_view(r) == value_of(attributes@, name@),
{
    match attributes.get(name) {
        Some(x) => Some(x.value.clone()),
        None => None,
    }
}

/// Whether a title's attribute records can be read.
pub fn is_attributes_readable(attributes: &AttributeMap) -> (r: bool)
    ensures
        r == attributes_readable(attributes@),
{
    let chapters = number_attribute(attributes, "ChapterCount");
    let size = number_attribute(attributes, "DiskSizeBytes");
    let duration = text_attribute(attributes, "Duration");
    let filename = text_attribute(attributes, "OutputFileName");
    if chapters.is_none() || size.is_none() || duration.is_none() || filename.is_none() {
        return false;
    }
    let map = text_attribute(attributes, "SegmentsMap");
    let count = number_attribute(attributes, "SegmentsCount");
    match (map, count) {
        (Some(map), Some(count)) => split_segments(map.as_str()).len() == count,
        _ => true,
    }
}

/// Reads the attributes of a title: chapters, duration, file name, size in
/// bytes, and the segments of its segment map (none without one).
pub fn parse_attributes(attributes: AttributeMap) -> (r: Option<Attributes>)
    requires
        attributes_readable(attributes@),
    ensures
        r is Some,
        r->0@ == attributes_of(attributes@),
{
    let chapter_count = number_attribute(&attributes, "ChapterCount");
    let disk_size_bytes = number_attribute(&attributes, "DiskSizeBytes");
    let duration = text_attribute(&attributes, "Duration");
    let filename = text_attribute(&attributes, "OutputFileName");
    let segments = match text_attribute(&attributes, "SegmentsMap") {
        Some(map) => split_segments(map.as_str()),
        None => {
            let v: Vec<String> = Vec::new();
            assert(strings_view(v@) =~= Seq::<Seq<char>>::empty());
            v
        },
    };
    Some(
        Attributes {
            chapters: chapter_count.unwrap(),
            duration: duration.unwrap(),
            filename: filename.unwrap(),
            filesize: disk_size_bytes.unwrap(),
            segments,
        },
    )
}

/// The streams of a title by kind, each by stream number.
#[derive(Clone, Debug, PartialEq)]
pub struct Streams {
    pub audio: HashMap<usize, AudioStream>,
    pub video: HashMap<usize, VideoStream>,
    pub subtitle: HashMap<usize, SubtitleStream>,
}

/// The mathematical content of [`Streams`].
pub struct StreamsView {
    pub audio: Map<usize, AudioStreamView>,
    pub video: Map<usize, VideoStreamView>,
    pub subtitle: Map<usize, SubtitleStreamView>,
}

impl View for Streams {
    type V = StreamsView;

    open spec fn view(&self) -> StreamsView {
        StreamsView {
            audio: Map::new(|k: usize| self.audio@.contains_key(k), |k: usize| self.audio@[k]@),
            video: Map::new(|k: usize| self.video@.contains_key(k), |k: usize| self.video@[k]@),
            subtitle: Map::new(|k: usize| self.subtitle@.contains_key(k), |k: usize| self.subtitle@[k]@),
        }
    }
}

/// No streams.
pub open spec fn no_streams() -> StreamsView {
    StreamsView { audio: Map::empty(), video: Map::empty(), subtitle: Map::empty() }
}

/// `v` with stream `s` filed as number `sid` under its kind.
pub open spec fn with_stream(v: StreamsView, sid: usize, s: StreamView) -> StreamsView {
    match s {
        StreamView::Audio(a) => StreamsView { audio: v.audio.insert(sid, a), video: v.video, subtitle: v.subtitle },
        StreamView::Video(x) => StreamsView { audio: v.audio, video: v.video.insert(sid, x), subtitle: v.subtitle },
        StreamView::Subtitle(x) => StreamsView { audio: v.audio, video: v.video, subtitle: v.subtitle.insert(sid, x) },
    }
}

impl Streams {
    /// No streams.
    pub fn new() -> (r: Self)
        ensures
            r@ == no_streams(),
    {
        let r = Streams { audio: HashMap::new(), video: HashMap::new(), subtitle: HashMap::new() };
        assert(r@.audio =~= Map::empty());
        assert(r@.video =~= Map::empty());
        assert(r@.subtitle =~= Map::empty());
        r
    }

    /// Files stream `sid` under its kind.
    pub fn insert(&mut self, sid: usize, stream: Stream)
        ensures
            final(self)@ == with_stream(old(self)@, sid, stream@),
    {
        let ghost before = self@;
        match stream {
            Stream::Audio(a) => {
                self.audio.insert(sid, a);
                assert(self@.audio =~= before.audio.insert(sid, a@));
                assert(self@.video =~= before.video);
                assert(self@.subtitle =~= before.subtitle);
            },
            Stream::Video(v) => {
                self.video.insert(sid, v);
                assert(self@.video =~= before.video.insert(sid, v@));
                assert(self@.audio =~= before.audio);
                assert(self@.subtitle =~= before.subtitle);
            },
            Stream::Subtitle(x) => {
                self.subtitle.insert(sid, x);
                assert(self@.subtitle =~= before.subtitle.insert(sid, x@));
                assert(self@.audio =~= before.audio);
                assert(self@.video =~= before.video);
            },
        }
    }
}

/// The stream that a stream's attribute records describe.
pub open spec fn stream_of(attributes: Map<Seq<char>, InfoRecordOutView>) -> StreamView {
    spec_stream(values_by_name(attributes)).unwrap()
}

/// A stream's attribute records can be read: its values are well formed
/// and its type is one of the three kinds.
pub open spec fn stream_readable(attributes: Map<Seq<char>, InfoRecordOutView>) -> bool {
    &&& stream_values_valid(values_by_name(attributes))
    &&& spec_stream(values_by_name(attributes)) is Some
}

/// The streams of a title by kind, each read from its attribute records.
pub open spec fn streams_of(m: Map<usize, Map<Seq<char>, InfoRecordOutView>>) -> StreamsView {
    StreamsView {
        audio: Map::new(
            |k: usize| m.contains_key(k) && stream_of(m[k]) is Audio,
            |k: usize| stream_of(m[k])->Audio_0,
        ),
        video: Map::new(
            |k: usize| m.contains_key(k) && stream_of(m[k]) is Video,
            |k: usize| stream_of(m[k])->Video_0,
        ),
        subtitle: Map::new(
            |k: usize| m.contains_key(k) && stream_of(m[k]) is Subtitle,
            |k: usize| stream_of(m[k])->Subtitle_0,
        ),
    }
}

/// Reading one more stream files it under its kind.
proof fn lemma_streams_of_insert(m: Map<usize, Map<Seq<char>, InfoRecordOutView>>, k: usize, a: Map<Seq<char>, InfoRecordOutView>)
    requires
        m.contains_key(k) ==> m[k] == a,
    ensures
        streams_of(m.insert(k, a)) == with_stream(streams_of(m), k, stream_of(a)),
{
    let l = streams_of(m.insert(k, a));
    let r = with_stream(streams_of(m), k, stream_of(a));
    assert(l.audio =~= r.audio);
    assert(l.video =~= r.video);
    assert(l.subtitle =~= r.subtitle);
}

fn is_number(v: &Option<String>) -> (r: bool)
    ensures
        r == (number_of(opt_string_view(*v)) is Some),
{
    match v {
        Some(s) => parse_as_usize(s.as_str()).is_some(),
        None => false,
    }
}

/// Whether a stream's attribute records can be read.
pub fn is_stream_readable(attributes: &AttributeMap) -> (r: bool)
    ensures
        r == stream_readable(attributes@),
{
    let v = stream_values_by_name(attributes);
    let t = match &v.stream_type {
        Some(t) => t,
        None => {
            return false;
        },
    };
    if !is_number(&v.stream_flags) || !is_number(&v.order_weight) {
        return false;
    }
    let audio = str_eq(t.as_str(), "Audio");
    if audio && (!is_number(&v.audio_channels_count) || !is_number(&v.audio_sample_rate)) {
        return false;
    }
    audio || str_eq(t.as_str(), "Subtitles") || str_eq(t.as_str(), "Video")
}

/// Reads the streams of a title, each by its number.
pub fn extract_streams(streams: &HashMap<usize, StreamRecord>) -> (r: Streams)
    requires
        forall|k: usize| #[trigger] streams@.contains_key(k) ==> stream_readable(streams@[k].attributes@),
    ensures
        r@ == streams_of(streams_view(streams@)),
{
    let ghost all = streams_view(streams@);
    let mut acc = Streams::new();
    let ghost mut seen: Map<usize, Map<Seq<char>, InfoRecordOutView>> = Map::empty();
    assert(streams_of(seen) == no_streams()) by {
        assert(streams_of(seen).audio =~= Map::empty());
        assert(streams_of(seen).video =~= Map::empty());
        assert(streams_of(seen).subtitle =~= Map::empty());
    }
    for entry in it: streams.iter()
        invariant
            all == streams_view(streams@),
            forall|k: usize| #[trigger] streams@.contains_key(k) ==> stream_readable(streams@[k].attributes@),
            forall|k: usize| #[trigger] seen.contains_key(k) ==> all.contains_key(k) && seen[k] == all[k],
            acc@ == streams_of(seen),
            forall|j: int| 0 <= j < it.index() ==> seen.contains_key(*(#[trigger] it.seq()[j]).0),
    {
        let (sid, rec) = entry;
        assert(streams@.contains_key(*sid) && streams@[*sid] == *rec);
        let stream = parse_stream_record(rec.attributes.duplicate());
        proof {
            lemma_streams_of_insert(seen, *sid, rec.attributes@);
        }
        acc.insert(*sid, stream);
        proof {
            seen = seen.insert(*sid, rec.attributes@);
        }
    }
    assert(seen =~= all) by {
        assert forall|k: usize| #[trigger] all.contains_key(k) implies seen.contains_key(k) by {
            assert(streams@.contains_key(k));
        }
    }
    acc
}

/// A title of a scan: its attributes and its streams.
#[derive(Clone, Debug, PartialEq)]
pub struct Title {
    pub attributes: Attributes,
    pub streams: Streams,
}

/// The mathematical content of a [`Title`].
pub struct TitleView {
    pub attributes: AttributesView,
    pub streams: StreamsView,
}

impl View for Title {
    type V = TitleView;

    open spec fn view(&self) -> TitleView {
        TitleView { attributes: self.attributes@, streams: self.streams@ }
    }
}

/// A title's records can be read: its attributes and each of its streams.
pub open spec fn title_readable(t: TitleRecordView) -> bool {
    &&& attributes_readable(t.attributes)
    &&& forall|k: usize| #[trigger] t.streams.contains_key(k) ==> stream_readable(t.streams[k])
}

/// The title that a title's records describe.
pub open spec fn title_of(t: TitleRecordView) -> TitleView {
    TitleView { attributes: attributes_of(t.attributes), streams: streams_of(t.streams) }
}

/// The titles to extract: each title of the scan, by its number, read
/// from its records.
pub open spec fn extract_of(titles: Map<usize, TitleRecordView>) -> Map<usize, TitleView> {
    Map::new(|k: usize| titles.contains_key(k), |k: usize| title_of(titles[k]))
}

/// The views of the titles to extract.
pub open spec fn extract_view(m: Map<usize, Title>) -> Map<usize, TitleView> {
    Map::new(|k: usize| m.contains_key(k), |k: usize| m[k]@)
}

/// Reads the attributes and streams of every title of a scan.
pub fn extract_titles(titles: &HashMap<usize, TitleRecord>) -> (r: HashMap<usize, Title>)
    requires
        forall|k: usize| #[trigger] titles@.contains_key(k) ==> title_readable(titles@[k]@),
    ensures
        extract_view(r@) == extract_of(titles_view(titles@)),
{
    let ghost all = titles_view(titles@);
    let mut acc: HashMap<usize, Title> = HashMap::new();
    assert(extract_view(acc@) =~= Map::empty());
    for entry in it: titles.iter()
        invariant
            all == titles_view(titles@),
            forall|k: usize| #[trigger] titles@.contains_key(k) ==> title_readable(titles@[k]@),
            forall|k: usize| #[trigger] acc@.contains_key(k) ==> all.contains_key(k) && acc@[k]@ == title_of(all[k]),
            forall|j: int| 0 <= j < it.index() ==> acc@.contains_key(*(#[trigger] it.seq()[j]).0),
    {
        let (tid, rec) = entry;
        assert(titles@.contains_key(*tid) && titles@[*tid] == *rec);
        let attributes = parse_attributes(rec.attributes.duplicate()).unwrap();
        assert forall|k: usize| #[trigger] rec.streams@.contains_key(k) implies stream_readable(
            rec.streams@[k].attributes@,
        ) by {
            assert(rec@.streams.contains_key(k));
        }
        let streams = extract_streams(&rec.streams);
        let title = Title { attributes, streams };
        assert(title@ == title_of(all[*tid as usize]));
        acc.insert(*tid, title);
    }
    assert(extract_view(acc@) =~= extract_of(all)) by {
        assert forall|k: usize| #[trigger] all.contains_key(k) implies acc@.contains_key(k) by {
            assert(titles@.contains_key(k));
        }
    }
    acc
}

/// Whether a title's records can be read: its attributes and each of its
/// streams.
pub fn is_title_readable(title: &TitleRecord) -> (r: bool)
    ensures
        r == title_readable(title@),
{
    if !is_attributes_readable(&title.attributes) {
        return false;
    }
    for entry in it: title.streams.iter()
        invariant
            attributes_readable(title.attributes@),
            forall|j: int| 0 <= j < it.index() ==> stream_readable((#[trigger] it.seq()[j]).1.attributes@),
    {
        let (sid, rec) = entry;
        if !is_stream_readable(&rec.attributes) {
            assert(title.streams@.contains_key(*sid) && title.streams@[*sid] == *rec);
            assert(title@.streams.contains_key(*sid));
            return false;
        }
    }
    assert forall|k: usize| #[trigger] title@.streams.contains_key(k) implies stream_readable(title@.streams[k]) by {
        assert(title.streams@.contains_key(k));
    }
    true
}

/// Whether every title of a scan can be read.
pub fn titles_readable(titles: &HashMap<usize, TitleRecord>) -> (r: bool)
    ensures
        r == (forall|k: usize| #[trigger] titles@.contains_key(k) ==> title_readable(titles@[k]@)),
{
    for entry in it: titles.iter()
        invariant
            forall|j: int| 0 <= j < it.index() ==> title_readable((#[trigger] it.seq()[j]).1@),
    {
        let (tid, rec) = entry;
        if !is_title_readable(rec) {
            assert(titles@.contains_key(*tid) && titles@[*tid] == *rec);
            return false;
        }
    }
    assert forall|k: usize| #[trigger] titles@.contains_key(k) implies title_readable(titles@[k]@) by {
        assert(titles@.contains_key(k));
    }
    true
}

/// A scan's content, the titles to extract, and the program's version.
#[derive(Debug)]
pub struct ParsedOutput {
    pub content: ContentRecord,
    pub extract: HashMap<usize, Title>,
    pub makemkv: MakeMkvRecord,
}

/// The result of a scan: what it found, the drives, and the counts of
/// issues and errors.
#[derive(Debug)]
pub struct ScanResult {
    pub parsed: Option<ParsedOutput>,
    pub drives: Vec<DriveRecord>,
    pub issues: usize,
    pub errors: usize,
}

/// The result of a scan from the parsed output of `makemkvcon info`: the
/// content, every title read for extraction, the program's version, the
/// drives, and the counts of issues and errors.
pub fn scan_result(output: crate::mkvcon::parser::ParsedOutput) -> (r: ScanResult)
    requires
        forall|k: usize| #[trigger]
            output.content.titles@.contains_key(k) ==> title_readable(output.content.titles@[k]@),
    ensures
        r.parsed is Some,
        extract_view(r.parsed->0.extract@) == extract_of(titles_view(output.content.titles@)),
        r.parsed->0.content == output.content,
        r.parsed->0.makemkv == output.makemkv,
        r.drives == output.drives,
        r.issues == output.issues,
        r.errors == output.errors,
{
    let extract = extract_titles(&output.content.titles);
    ScanResult {
        parsed: Some(ParsedOutput { content: output.content, extract, makemkv: output.makemkv }),
        drives: output.drives,
        issues: output.issues,
        errors: output.errors,
    }
}

/// What `speedate::Time::parse_str` reads from a text, as whole seconds
/// (`Time::total_seconds`); `None` where it reads no time of day.
pub uninterp spec fn time_seconds(text: Seq<char>) -> Option<u32>;

/// Parses a time of day with `speedate::Time::parse_str` (default
/// settings) and takes its `Time::total_seconds`. The contract claims
/// only that the result is a function of the text; which texts are times
/// is left to `speedate`.
#[verifier::external_body]
fn parse_time_seconds(text: &str) -> (r: Option<u32>)
    ensures
        r == time_seconds(text@),
{
    match speedate::Time::parse_str(text) {
        Ok(t) => Some(t.total_seconds()),
        Err(_) => None,
    }
}

/// What is missing of an audio stream's language, or why it could not be
/// told.
#[derive(Clone, Copy, Debug, PartialEq, Eq, Structural)]
pub enum LanguageWarning {
    /// Neither a language code nor a language name is given.
    NoCodeOrName,
    /// No language code is given.
    NoCode,
    /// No language name is given.
    NoName,
    /// The title's duration cannot be read as a time of day.
    BadDuration,
}

/// A duration as it is read as a time: `H:MM:SS` (seven bytes) gets a
/// leading zero.
pub open spec fn padded_duration(d: Seq<char>) -> Seq<char> {
    if encode_utf8(d).len() == 7 {
        seq!['0'] + d
    } else {
        d
    }
}

/// What an audio stream lacks of its language (`<unknown>` stands for a
/// value that was not given).
pub open spec fn language_gap(a: AudioStreamView) -> Option<LanguageWarning> {
    let no_code = a.lang_code == "<unknown>"@;
    let no_name = a.lang_name == "<unknown>"@;
    if no_code && no_name {
        Some(LanguageWarning::NoCodeOrName)
    } else if no_code {
        Some(LanguageWarning::NoCode)
    } else if no_name {
        Some(LanguageWarning::NoName)
    } else {
        None
    }
}

/// The warning about an audio stream of a title of `duration`: titles of
/// two minutes or less are menus or legal notes and are not checked.
pub open spec fn audio_warning(duration: Seq<char>, a: AudioStreamView) -> Option<LanguageWarning> {
    match time_seconds(padded_duration(duration)) {
        None => Some(LanguageWarning::BadDuration),
        Some(secs) => if secs > 120 {
            language_gap(a)
        } else {
            None
        },
    }
}

/// The warning about audio stream `s` of title `t`, where there is one.
pub open spec fn warning_at(extract: Map<usize, TitleView>, t: usize, s: usize) -> Option<LanguageWarning> {
    if extract.contains_key(t) && extract[t].streams.audio.contains_key(s) {
        audio_warning(extract[t].attributes.duration, extract[t].streams.audio[s])
    } else {
        None
    }
}

/// The titles that a scan read for extraction (none without content).
pub open spec fn scan_extract(r: ScanResult) -> Map<usize, TitleView> {
    match r.parsed {
        Some(p) => extract_view(p.extract@),
        None => Map::empty(),
    }
}

fn language_gap_of(a: &AudioStream) -> (r: Option<LanguageWarning>)
    ensures
        r == language_gap(a@),
{
    let no_code = str_eq(a.lang_code.as_str(), "<unknown>");
    let no_name = str_eq(a.lang_name.as_str(), "<unknown>");
    if no_code && no_name {
        Some(LanguageWarning::NoCodeOrName)
    } else if no_code {
        Some(LanguageWarning::NoCode)
    } else if no_name {
        Some(LanguageWarning::NoName)
    } else {
        None
    }
}

fn audio_warning_of(duration: &str, a: &AudioStream) -> (r: Option<LanguageWarning>)
    ensures
        r == audio_warning(duration@, a@),
{
    let padded = if duration.as_bytes().len() == 7 {
        let mut p = owned("0");
        append_str(&mut p, duration);
        proof {
            reveal_strlit("0");
            assert("0"@ =~= seq!['0']);
        }
        p
    } else {
        owned(duration)
    };
    match parse_time_seconds(padded.as_str()) {
        None => Some(LanguageWarning::BadDuration),
        Some(secs) => if secs > 120 {
            language_gap_of(a)
        } else {
            None
        },
    }
}

/// The warnings about the languages of the audio streams of a scan, each
/// as title, stream and warning, each once (in no particular order).
pub fn missing_languages(result: &ScanResult) -> (r: Vec<(usize, usize, LanguageWarning)>)
    ensures
        forall|t: usize, s: usize, w: LanguageWarning|
            #[trigger] r@.contains((t, s, w)) <==> warning_at(scan_extract(*result), t, s) == Some(w),
        r@.no_duplicates(),
{
    let ghost v = scan_extract(*result);
    let mut r: Vec<(usize, usize, LanguageWarning)> = Vec::new();
    let parsed = match &result.parsed {
        Some(p) => p,
        None => {
            return r;
        },
    };
    let extract = &parsed.extract;
    let ghost mut done: Set<usize> = Set::empty();
    for t in it: extract.keys()
        invariant
            v == extract_view(extract@),
            forall|x: (usize, usize, LanguageWarning)|
                #[trigger] r@.contains(x) <==> done.contains(x.0) && warning_at(v, x.0, x.1) == Some(x.2),
            r@.no_duplicates(),
            forall|j: int| 0 <= j < it.index() ==> done.contains(*(#[trigger] it.seq()[j])),
            forall|k: usize| #[trigger]
                done.contains(k) ==> exists|j: int| 0 <= j < it.index() && *it.seq()[j] == k,
    {
        let tid: usize = *t;
        assert(!done.contains(tid)) by {
            if done.contains(tid) {
                let j = choose|j: int| 0 <= j < it.index() && *it.seq()[j] == tid;
                assert(it.seq()[j] == it.seq()[it.index()]);
            }
        }
        let title = extract.get(t).unwrap();
        assert(v.contains_key(tid) && v[tid] == title@);
        let audio = &title.streams.audio;
        let ghost mut sdone: Set<usize> = Set::empty();
        for sid in is: audio.keys()
            invariant
                v == extract_view(extract@),
                v.contains_key(tid) && v[tid] == title@,
                *audio == title.streams.audio,
                !done.contains(tid),
                forall|x: (usize, usize, LanguageWarning)|
                    #[trigger] r@.contains(x) <==> (done.contains(x.0) && warning_at(v, x.0, x.1) == Some(x.2)) || (
                    x.0 == tid && sdone.contains(x.1) && warning_at(v, tid, x.1) == Some(x.2)),
                r@.no_duplicates(),
                forall|j: int| 0 <= j < is.index() ==> sdone.contains(*(#[trigger] is.seq()[j])),
                forall|k: usize| #[trigger]
                    sdone.contains(k) ==> exists|j: int| 0 <= j < is.index() && *is.seq()[j] == k,
        {
            let s: usize = *sid;
            assert(!sdone.contains(s)) by {
                if sdone.contains(s) {
                    let j = choose|j: int| 0 <= j < is.index() && *is.seq()[j] == s;
                    assert(is.seq()[j] == is.seq()[is.index()]);
                }
            }
            let stream = audio.get(sid).unwrap();
            assert(audio@.contains_key(s));
            assert(audio@[s] == *stream);
            assert(title@.streams.audio.contains_key(s) && title@.streams.audio[s] == stream@);
            let w = audio_warning_of(title.attributes.duration.as_str(), stream);
            assert(w == warning_at(v, tid, s));
            if let Some(w) = w {
                let ghost before = r@;
                r.push((tid, s, w));
                proof {
                    assert(!before.contains((tid, s, w)));
                    assert forall|i: int, j: int| 0 <= i < j < r@.len() implies r@[i] != r@[j] by {
                        if j == r@.len() - 1 {
                            assert(before.contains(r@[i]));
                        } else {
                            assert(before[i] == r@[i] && before[j] == r@[j]);
                        }
                    }
                    assert forall|x: (usize, usize, LanguageWarning)| #[trigger] r@.contains(x) == (before.contains(x)
                        || x == (tid, s, w)) by {
                        if r@.contains(x) && x != (tid, s, w) {
                            let i = choose|i: int| 0 <= i < r@.len() && r@[i] == x;
                            assert(before[i] == x);
                        }
                        if before.contains(x) {
                            let i = choose|i: int| 0 <= i < before.len() && before[i] == x;
                            assert(r@[i] == x);
                        }
                        if x == (tid, s, w) {
                            assert(r@[r@.len() - 1] == x);
                        }
                    }
                }
            }
            proof {
                sdone = sdone.insert(s);
            }
        }
        assert forall|k: usize| #[trigger] title@.streams.audio.contains_key(k) implies sdone.contains(k) by {
            assert(audio@.contains_key(k));
        }
        proof {
            done = done.insert(tid);
        }
    }
    assert forall|x: (usize, usize, LanguageWarning)| warning_at(v, x.0, x.1) == Some(x.2) implies done.contains(
        x.0,
    ) by {
        assert(extract@.contains_key(x.0));
    }
    r
}

/// The rate at which `bytes_written` were written in `seconds`: zero
/// where no whole second has passed.
pub fn calculate_write_rate(bytes_written: u64, seconds: u64) -> (r: u64)
    ensures
        seconds == 0 ==> r == 0,
        seconds > 0 ==> r == bytes_written / seconds,
{
    match bytes_written.checked_div(seconds) {
        Some(x) => x,
        None => 0,
    }
}

/// The severities for listing the drives: the version message, the disc
/// that cannot be opened and the lack of drives are merely debug output.
pub open spec fn drives_severities() -> Map<u32, SeverityLevel> {
    map![1005u32 => SeverityLevel::Debug, 5010u32 => SeverityLevel::Debug, 5042u32 => SeverityLevel::Debug]
}

/// The severities for listing the drives.
pub fn drives_severity_map() -> (r: HashMap<u32, SeverityLevel>)
    ensures
        r@ == drives_severities(),
{
    let mut m: HashMap<u32, SeverityLevel> = HashMap::new();
    m.insert(1005, SeverityLevel::Debug);
    m.insert(5010, SeverityLevel::Debug);
    m.insert(5042, SeverityLevel::Debug);
    assert(m@ =~= drives_severities());
    m
}

/// The severities for a backup: the messages without a full stop (`5069`,
/// `5070`) are hidden, a failed backup and the lack of drives are errors.
pub open spec fn backup_severities() -> Map<u32, SeverityLevel> {
    map![
        1005u32 => SeverityLevel::Info,
        1011u32 => SeverityLevel::Info,
        5042u32 => SeverityLevel::Error,
        5069u32 => SeverityLevel::Debug,
        5070u32 => SeverityLevel::Debug,
        5072u32 => SeverityLevel::Debug,
        5080u32 => SeverityLevel::Error,
        5081u32 => SeverityLevel::Info,
        5085u32 => SeverityLevel::Info
    ]
}

/// The severities for a backup.
pub fn backup_severity_map() -> (r: HashMap<u32, SeverityLevel>)
    ensures
        r@ == backup_severities(),
{
    let mut m: HashMap<u32, SeverityLevel> = HashMap::new();
    m.insert(1005, SeverityLevel::Info);
    m.insert(1011, SeverityLevel::Info);
    m.insert(5042, SeverityLevel::Error);
    m.insert(5069, SeverityLevel::Debug);
    m.insert(5070, SeverityLevel::Debug);
    m.insert(5072, SeverityLevel::Debug);
    m.insert(5080, SeverityLevel::Error);
    m.insert(5081, SeverityLevel::Info);
    m.insert(5085, SeverityLevel::Info);
    assert(m@ =~= backup_severities());
    m
}

/// The severity of the lack of optical drives (`5042`): debug output where
/// the source is a directory or an image file, an error where it is a
/// drive.
pub open spec fn no_drive_severity(source: Source) -> SeverityLevel {
    match source {
        Source::Directory(_) | Source::IsoFile(_) => SeverityLevel::Debug,
        _ => SeverityLevel::Error,
    }
}

fn no_drive_level(source: &Source) -> (r: SeverityLevel)
    ensures
        r == no_drive_severity(*source),
{
    match source {
        Source::Directory(_) | Source::IsoFile(_) => SeverityLevel::Debug,
        _ => SeverityLevel::Error,
    }
}

/// The severities for a scan of `source`.
pub open spec fn scan_severities(source: Source) -> Map<u32, SeverityLevel> {
    map![
        1005u32 => SeverityLevel::Info,
        1011u32 => SeverityLevel::Info,
        2019u32 => SeverityLevel::Error,
        2024u32 => SeverityLevel::Error,
        3007u32 => SeverityLevel::Info,
        3025u32 => SeverityLevel::Info,
        3028u32 => SeverityLevel::Info,
        3038u32 => SeverityLevel::Info,
        5003u32 => SeverityLevel::Error,
        5004u32 => SeverityLevel::Error,
        5010u32 => SeverityLevel::Error,
        5011u32 => SeverityLevel::Info,
        5014u32 => SeverityLevel::Info,
        5037u32 => SeverityLevel::Info
    ].insert(5042, no_drive_severity(source))
}

/// The severities for a scan of `source` (`makemkvcon info`).
pub fn scan_severity_map(source: &Source) -> (r: HashMap<u32, SeverityLevel>)
    ensures
        r@ == scan_severities(*source),
{
    let mut m: HashMap<u32, SeverityLevel> = HashMap::new();
    m.insert(1005, SeverityLevel::Info);
    m.insert(1011, SeverityLevel::Info);
    m.insert(2019, SeverityLevel::Error);
    m.insert(2024, SeverityLevel::Error);
    m.insert(3007, SeverityLevel::Info);
    m.insert(3025, SeverityLevel::Info);
    m.insert(3028, SeverityLevel::Info);
    m.insert(3038, SeverityLevel::Info);
    m.insert(5003, SeverityLevel::Error);
    m.insert(5004, SeverityLevel::Error);
    m.insert(5010, SeverityLevel::Error);
    m.insert(5011, SeverityLevel::Info);
    m.insert(5014, SeverityLevel::Info);
    m.insert(5037, SeverityLevel::Info);
    m.insert(5042, no_drive_level(source));
    assert(m@ =~= scan_severities(*source));
    m
}

/// The severities for extracting titles from `source` (`makemkvcon
/// mkv`).
pub open spec fn mkv_severities(source: Source) -> Map<u32, SeverityLevel> {
    map![
        1005u32 => SeverityLevel::Debug,
        2019u32 => SeverityLevel::Error,
        3007u32 => SeverityLevel::Debug,
        3025u32 => SeverityLevel::Debug,
        3028u32 => SeverityLevel::Debug,
        3038u32 => SeverityLevel::Debug,
        5001u32 => SeverityLevel::Warning,
        5003u32 => SeverityLevel::Error,
        5004u32 => SeverityLevel::Error,
        5005u32 => SeverityLevel::Debug,
        5011u32 => SeverityLevel::Debug,
        5014u32 => SeverityLevel::Debug,
        5036u32 => SeverityLevel::Debug,
        5037u32 => SeverityLevel::Error
    ].insert(5042, no_drive_severity(source))
}

/// The severities for extracting titles from `source`.
pub fn mkv_severity_map(source: &Source) -> (r: HashMap<u32, SeverityLevel>)
    ensures
        r@ == mkv_severities(*source),
{
    let mut m: HashMap<u32, SeverityLevel> = HashMap::new();
    m.insert(1005, SeverityLevel::Debug);
    m.insert(2019, SeverityLevel::Error);
    m.insert(3007, SeverityLevel::Debug);
    m.insert(3025, SeverityLevel::Debug);
    m.insert(3028, SeverityLevel::Debug);
    m.insert(3038, SeverityLevel::Debug);
    m.insert(5001, SeverityLevel::Warning);
    m.insert(5003, SeverityLevel::Error);
    m.insert(5004, SeverityLevel::Error);
    m.insert(5005, SeverityLevel::Debug);
    m.insert(5011, SeverityLevel::Debug);
    m.insert(5014, SeverityLevel::Debug);
    m.insert(5036, SeverityLevel::Debug);
    m.insert(5037, SeverityLevel::Error);
    m.insert(5042, no_drive_level(source));
    assert(m@ =~= mkv_severities(*source));
    m
}

/// In a title longer than two minutes an audio stream is reported exactly
/// when its language code or its language name is unknown, as missing
/// both, the code or the name; shorter titles are not checked, and a
/// duration that is no time of day is reported.
pub proof fn law_audio_without_language_is_reported(duration: Seq<char>, secs: u32, a: AudioStreamView)
    ensures
        time_seconds(padded_duration(duration)) == Some(secs) && secs > 120 ==> {
            &&& audio_warning(duration, a) is Some <==> (a.lang_code == "<unknown>"@ || a.lang_name == "<unknown>"@)
            &&& a.lang_code == "<unknown>"@ && a.lang_name == "<unknown>"@ ==> audio_warning(duration, a) == Some(
                LanguageWarning::NoCodeOrName,
            )
            &&& a.lang_code == "<unknown>"@ && a.lang_name != "<unknown>"@ ==> audio_warning(duration, a) == Some(
                LanguageWarning::NoCode,
            )
            &&& a.lang_code != "<unknown>"@ && a.lang_name == "<unknown>"@ ==> audio_warning(duration, a) == Some(
                LanguageWarning::NoName,
            )
        },
        time_seconds(padded_duration(duration)) == Some(secs) && secs <= 120 ==> audio_warning(duration, a) is None,
        time_seconds(padded_duration(duration)) is None ==> audio_warning(duration, a) == Some(
            LanguageWarning::BadDuration,
        ),
{
}

} // verus!
