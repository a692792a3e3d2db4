//! Audio, subtitle and video streams, built from a stream's attributes.

use vstd::prelude::*;
use vstd::std_specs::hash::*;

use crate::mkvcon::attribute_map::{AttributeMap, InfoRecordOutView};
use crate::text::{opt_string_view, owned, parse_usize, spec_parse_usize, spec_trim_start, str_eq, trim_start};
use std::collections::HashMap;

verus! {

broadcast use vstd::std_specs::hash::group_hash_axioms;

/// An audio stream.
#[derive(Clone, Debug, PartialEq)]
pub struct AudioStream {
    pub audio_channel_layout_name: String,
    pub audio_channels_count: usize,
    pub audio_sample_rate: usize,
    pub bitrate: String,
    pub codec_id: String,
    pub codec_long: String,
    pub codec_short: String,
    pub lang_code: String,
    pub lang_name: String,
    pub metadata_language_code: String,
    pub metadata_language_name: String,
    pub mkv_flags: String,
    pub mkv_flags_text: String,
    pub name: String,
    pub order_weight: usize,
    pub output_conversion_type: String,
    pub panel_title: String,
    pub stream_flags: usize,
    pub stream_type: String,
    pub tree_info: String,
}

/// The mathematical content of a [`AudioStream`].
pub struct AudioStreamView {
    pub audio_channel_layout_name: Seq<char>,
    pub audio_channels_count: usize,
    pub audio_sample_rate: usize,
    pub bitrate: Seq<char>,
    pub codec_id: Seq<char>,
    pub codec_long: Seq<char>,
    pub codec_short: Seq<char>,
    pub lang_code: Seq<char>,
    pub lang_name: Seq<char>,
    pub metadata_language_code: Seq<char>,
    pub metadata_language_name: Seq<char>,
    pub mkv_flags: Seq<char>,
    pub mkv_flags_text: Seq<char>,
    pub name: Seq<char>,
    pub order_weight: usize,
    pub output_conversion_type: Seq<char>,
    pub panel_title: Seq<char>,
    pub stream_flags: usize,
    pub stream_type: Seq<char>,
    pub tree_info: Seq<char>,
}

impl View for AudioStream {
    type V = AudioStreamView;

    open spec fn view(&self) -> AudioStreamView {
        AudioStreamView {
            audio_channel_layout_name: self.audio_channel_layout_name@,
            audio_channels_count: self.audio_channels_count,
            audio_sample_rate: self.audio_sample_rate,
            bitrate: self.bitrate@,
            codec_id: self.codec_id@,
            codec_long: self.codec_long@,
            codec_short: self.codec_short@,
            lang_code: self.lang_code@,
            lang_name: self.lang_name@,
            metadata_language_code: self.metadata_language_code@,
            metadata_language_name: self.metadata_language_name@,
            mkv_flags: self.mkv_flags@,
            mkv_flags_text: self.mkv_flags_text@,
            name: self.name@,
            order_weight: self.order_weight,
            output_conversion_type: self.output_conversion_type@,
            panel_title: self.panel_title@,
            stream_flags: self.stream_flags,
            stream_type: self.stream_type@,
            tree_info: self.tree_info@,
        }
    }
}

impl AudioStream {
    /// A copy with the same content.
    pub fn duplicate(&self) -> (r: Self)
        ensures
            r@ == self@,
    {
        AudioStream {
            audio_channel_layout_name: self.audio_channel_layout_name.clone(),
            audio_channels_count: self.audio_channels_count,
            audio_sample_rate: self.audio_sample_rate,
            bitrate: self.bitrate.clone(),
            codec_id: self.codec_id.clone(),
            codec_long: self.codec_long.clone(),
            codec_short: self.codec_short.clone(),
            lang_code: self.lang_code.clone(),
            lang_name: self.lang_name.clone(),
            metadata_language_code: self.metadata_language_code.clone(),
            metadata_language_name: self.metadata_language_name.clone(),
            mkv_flags: self.mkv_flags.clone(),
            mkv_flags_text: self.mkv_flags_text.clone(),
            name: self.name.clone(),
            order_weight: self.order_weight,
            output_conversion_type: self.output_conversion_type.clone(),
            panel_title: self.panel_title.clone(),
            stream_flags: self.stream_flags,
            stream_type: self.stream_type.clone(),
            tree_info: self.tree_info.clone(),
        }
    }
}

/// A subtitle stream.
#[derive(Clone, Debug, PartialEq)]
pub struct SubtitleStream {
    pub codec_id: String,
    pub codec_long: String,
    pub codec_short: String,
    pub lang_code: String,
    pub lang_name: String,
    pub metadata_language_code: String,
    pub metadata_language_name: String,
    pub mkv_flags: String,
    pub mkv_flags_text: String,
    pub order_weight: usize,
    pub output_conversion_type: String,
    pub panel_title: String,
    pub stream_flags: usize,
    pub stream_type: String,
    pub tree_info: String,
}

/// The mathematical content of a [`SubtitleStream`].
pub struct SubtitleStreamView {
    pub codec_id: Seq<char>,
    pub codec_long: Seq<char>,
    pub codec_short: Seq<char>,
    pub lang_code: Seq<char>,
    pub lang_name: Seq<char>,
    pub metadata_language_code: Seq<char>,
    pub metadata_language_name: Seq<char>,
    pub mkv_flags: Seq<char>,
    pub mkv_flags_text: Seq<char>,
    pub order_weight: usize,
    pub output_conversion_type: Seq<char>,
    pub panel_title: Seq<char>,
    pub stream_flags: usize,
    pub stream_type: Seq<char>,
    pub tree_info: Seq<char>,
}

impl View for SubtitleStream {
    type V = SubtitleStreamView;

    open spec fn view(&self) -> SubtitleStreamView {
        SubtitleStreamView {
            codec_id: self.codec_id@,
            codec_long: self.codec_long@,
            codec_short: self.codec_short@,
            lang_code: self.lang_code@,
            lang_name: self.lang_name@,
            metadata_language_code: self.metadata_language_code@,
            metadata_language_name: self.metadata_language_name@,
            mkv_flags: self.mkv_flags@,
            mkv_flags_text: self.mkv_flags_text@,
            order_weight: self.order_weight,
            output_conversion_type: self.output_conversion_type@,
            panel_title: self.panel_title@,
            stream_flags: self.stream_flags,
            stream_type: self.stream_type@,
            tree_info: self.tree_info@,
        }
    }
}

impl SubtitleStream {
    /// A copy with the same content.
    pub fn duplicate(&self) -> (r: Self)
        ensures
            r@ == self@,
    {
        SubtitleStream {
            codec_id: self.codec_id.clone(),
            codec_long: self.codec_long.clone(),
            codec_short: self.codec_short.clone(),
            lang_code: self.lang_code.clone(),
            lang_name: self.lang_name.clone(),
            metadata_language_code: self.metadata_language_code.clone(),
            metadata_language_name: self.metadata_language_name.clone(),
            mkv_flags: self.mkv_flags.clone(),
            mkv_flags_text: self.mkv_flags_text.clone(),
            order_weight: self.order_weight,
            output_conversion_type: self.output_conversion_type.clone(),
            panel_title: self.panel_title.clone(),
            stream_flags: self.stream_flags,
            stream_type: self.stream_type.clone(),
            tree_info: self.tree_info.clone(),
        }
    }
}

/// A video stream.
#[derive(Clone, Debug, PartialEq)]
pub struct VideoStream {
    pub bitrate: String,
    pub codec_id: String,
    pub codec_long: String,
    pub codec_short: String,
    pub metadata_language_code: String,
    pub metadata_language_name: String,
    pub mkv_flags: String,
    pub order_weight: usize,
    pub output_conversion_type: String,
    pub panel_title: String,
    pub stream_flags: usize,
    pub stream_type: String,
    pub tree_info: String,
    pub video_aspect_ratio: String,
    pub video_framerate: String,
    pub video_size: String,
}

/// The mathematical content of a [`VideoStream`].
pub struct VideoStreamView {
    pub bitrate: Seq<char>,
    pub codec_id: Seq<char>,
    pub codec_long: Seq<char>,
    pub codec_short: Seq<char>,
    pub metadata_language_code: Seq<char>,
    pub metadata_language_name: Seq<char>,
    pub mkv_flags: Seq<char>,
    pub order_weight: usize,
    pub output_conversion_type: Seq<char>,
    pub panel_title: Seq<char>,
    pub stream_flags: usize,
    pub stream_type: Seq<char>,
    pub tree_info: Seq<char>,
    pub video_aspect_ratio: Seq<char>,
    pub video_framerate: Seq<char>,
    pub video_size: Seq<char>,
}

impl View for VideoStream {
    type V = VideoStreamView;

    open spec fn view(&self) -> VideoStreamView {
        VideoStreamView {
            bitrate: self.bitrate@,
            codec_id: self.codec_id@,
            codec_long: self.codec_long@,
            codec_short: self.codec_short@,
            metadata_language_code: self.metadata_language_code@,
            metadata_language_name: self.metadata_language_name@,
            mkv_flags: self.mkv_flags@,
            order_weight: self.order_weight,
            output_conversion_type: self.output_conversion_type@,
            panel_title: self.panel_title@,
            stream_flags: self.stream_flags,
            stream_type: self.stream_type@,
            tree_info: self.tree_info@,
            video_aspect_ratio: self.video_aspect_ratio@,
            video_framerate: self.video_framerate@,
            video_size: self.video_size@,
        }
    }
}

impl VideoStream {
    /// A copy with the same content.
    pub fn duplicate(&self) -> (r: Self)
        ensures
            r@ == self@,
    {
        VideoStream {
            bitrate: self.bitrate.clone(),
            codec_id: self.codec_id.clone(),
            codec_long: self.codec_long.clone(),
            codec_short: self.codec_short.clone(),
            metadata_language_code: self.metadata_language_code.clone(),
            metadata_language_name: self.metadata_language_name.clone(),
            mkv_flags: self.mkv_flags.clone(),
            order_weight: self.order_weight,
            output_conversion_type: self.output_conversion_type.clone(),
            panel_title: self.panel_title.clone(),
            stream_flags: self.stream_flags,
            stream_type: self.stream_type.clone(),
            tree_info: self.tree_info.clone(),
            video_aspect_ratio: self.video_aspect_ratio.clone(),
            video_framerate: self.video_framerate.clone(),
            video_size: self.video_size.clone(),
        }
    }
}

/// A stream of one of the three kinds.
#[derive(Debug, PartialEq)]
pub enum Stream {
    Audio(AudioStream),
    Subtitle(SubtitleStream),
    Video(VideoStream),
}

/// The mathematical content of a [`Stream`].
pub enum StreamView {
    Audio(AudioStreamView),
    Subtitle(SubtitleStreamView),
    Video(VideoStreamView),
}

impl View for Stream {
    type V = StreamView;

    open spec fn view(&self) -> StreamView {
        match self {
            Stream::Audio(a) => StreamView::Audio(a@),
            Stream::Subtitle(s) => StreamView::Subtitle(s@),
            Stream::Video(v) => StreamView::Video(v@),
        }
    }
}

impl Stream {
    /// A copy with the same content.
    pub fn duplicate(&self) -> (r: Self)
        ensures
            r@ == self@,
    {
        match self {
            Stream::Audio(a) => Stream::Audio(a.duplicate()),
            Stream::Subtitle(s) => Stream::Subtitle(s.duplicate()),
            Stream::Video(v) => Stream::Video(v.duplicate()),
        }
    }
}

/// The view of an optional stream.
pub open spec fn opt_stream_view(s: Option<Stream>) -> Option<StreamView> {
    match s {
        Some(x) => Some(x@),
        None => None,
    }
}

/// The raw values of the attributes that make up a stream, each where the
/// stream gave it.
#[derive(Debug)]
pub struct StreamValues {
    pub stream_type: Option<String>,
    pub name: Option<String>,
    pub lang_code: Option<String>,
    pub lang_name: Option<String>,
    pub codec_id: Option<String>,
    pub codec_short: Option<String>,
    pub codec_long: Option<String>,
    pub bitrate: Option<String>,
    pub audio_channels_count: Option<String>,
    pub audio_sample_rate: Option<String>,
    pub video_size: Option<String>,
    pub video_aspect_ratio: Option<String>,
    pub video_frame_rate: Option<String>,
    pub stream_flags: Option<String>,
    pub metadata_language_code: Option<String>,
    pub metadata_language_name: Option<String>,
    pub tree_info: Option<String>,
    pub panel_title: Option<String>,
    pub order_weight: Option<String>,
    pub mkv_flags: Option<String>,
    pub mkv_flags_text: Option<String>,
    pub audio_channel_layout_name: Option<String>,
    pub output_conversion_type: Option<String>,
}

/// The mathematical content of [`StreamValues`].
pub struct StreamValuesView {
    pub stream_type: Option<Seq<char>>,
    pub name: Option<Seq<char>>,
    pub lang_code: Option<Seq<char>>,
    pub lang_name: Option<Seq<char>>,
    pub codec_id: Option<Seq<char>>,
    pub codec_short: Option<Seq<char>>,
    pub codec_long: Option<Seq<char>>,
    pub bitrate: Option<Seq<char>>,
    pub audio_channels_count: Option<Seq<char>>,
    pub audio_sample_rate: Option<Seq<char>>,
    pub video_size: Option<Seq<char>>,
    pub video_aspect_ratio: Option<Seq<char>>,
    pub video_frame_rate: Option<Seq<char>>,
    pub stream_flags: Option<Seq<char>>,
    pub metadata_language_code: Option<Seq<char>>,
    pub metadata_language_name: Option<Seq<char>>,
    pub tree_info: Option<Seq<char>>,
    pub panel_title: Option<Seq<char>>,
    pub order_weight: Option<Seq<char>>,
    pub mkv_flags: Option<Seq<char>>,
    pub mkv_flags_text: Option<Seq<char>>,
    pub audio_channel_layout_name: Option<Seq<char>>,
    pub output_conversion_type: Option<Seq<char>>,
}

impl View for StreamValues {
    type V = StreamValuesView;

    open spec fn view(&self) -> StreamValuesView {
        StreamValuesView {
            stream_type: opt_string_view(self.stream_type),
            name: opt_string_view(self.name),
            lang_code: opt_string_view(self.lang_code),
            lang_name: opt_string_view(self.lang_name),
            codec_id: opt_string_view(self.codec_id),
            codec_short: opt_string_view(self.codec_short),
            codec_long: opt_string_view(self.codec_long),
            bitrate: opt_string_view(self.bitrate),
            audio_channels_count: opt_string_view(self.audio_channels_count),
            audio_sample_rate: opt_string_view(self.audio_sample_rate),
            video_size: opt_string_view(self.video_size),
            video_aspect_ratio: opt_string_view(self.video_aspect_ratio),
            video_frame_rate: opt_string_view(self.video_frame_rate),
            stream_flags: opt_string_view(self.stream_flags),
            metadata_language_code: opt_string_view(self.metadata_language_code),
            metadata_language_name: opt_string_view(self.metadata_language_name),
            tree_info: opt_string_view(self.tree_info),
            panel_title: opt_string_view(self.panel_title),
            order_weight: opt_string_view(self.order_weight),
            mkv_flags: opt_string_view(self.mkv_flags),
            mkv_flags_text: opt_string_view(self.mkv_flags_text),
            audio_channel_layout_name: opt_string_view(self.audio_channel_layout_name),
            output_conversion_type: opt_string_view(self.output_conversion_type),
        }
    }
}

/// A value, or `<unknown>` where there is none.
pub open spec fn or_unknown(v: Option<Seq<char>>) -> Seq<char> {
    match v {
        Some(s) => s,
        None => "<unknown>"@,
    }
}

/// A value, or the empty text where there is none.
pub open spec fn or_empty(v: Option<Seq<char>>) -> Seq<char> {
    match v {
        Some(s) => s,
        None => Seq::empty(),
    }
}

/// The number that a value holds, where it is given and is one.
pub open spec fn number_of(v: Option<Seq<char>>) -> Option<usize> {
    match v {
        Some(s) => spec_parse_usize(s),
        None => None,
    }
}

/// A stream's values can be read: the type is given, the flags and the
/// order weight are numbers, and so are the channel count and the sample
/// rate of an audio stream.
pub open spec fn stream_values_valid(v: StreamValuesView) -> bool {
    &&& v.stream_type is Some
    &&& number_of(v.stream_flags) is Some
    &&& number_of(v.order_weight) is Some
    &&& v.stream_type == Some("Audio"@) ==> {
        &&& number_of(v.audio_channels_count) is Some
        &&& number_of(v.audio_sample_rate) is Some
    }
}

/// The stream that the values describe: an audio stream for type `Audio`,
/// a subtitle stream for `Subtitles`, a video stream for `Video`, and none
/// for any other type. A missing value reads `<unknown>` (the MKV flag
/// text reads empty), and the tree info loses its leading whitespace.
pub open spec fn spec_stream(v: StreamValuesView) -> Option<StreamView> {
    let t = v.stream_type.unwrap();
    if t == "Audio"@ {
        Some(StreamView::Audio(AudioStreamView {
            audio_channel_layout_name: or_unknown(v.audio_channel_layout_name),
            audio_channels_count: number_of(v.audio_channels_count).unwrap(),
            audio_sample_rate: number_of(v.audio_sample_rate).unwrap(),
            bitrate: or_unknown(v.bitrate),
            codec_id: or_unknown(v.codec_id),
            codec_long: or_unknown(v.codec_long),
            codec_short: or_unknown(v.codec_short),
            lang_code: or_unknown(v.lang_code),
            lang_name: or_unknown(v.lang_name),
            metadata_language_code: or_unknown(v.metadata_language_code),
            metadata_language_name: or_unknown(v.metadata_language_name),
            mkv_flags: or_unknown(v.mkv_flags),
            mkv_flags_text: or_empty(v.mkv_flags_text),
            name: or_unknown(v.name),
            order_weight: number_of(v.order_weight).unwrap(),
            output_conversion_type: or_unknown(v.output_conversion_type),
            panel_title: or_unknown(v.panel_title),
            stream_flags: number_of(v.stream_flags).unwrap(),
            stream_type: t,
            tree_info: spec_trim_start(or_unknown(v.tree_info)),
        }))
    } else if t == "Subtitles"@ {
        Some(StreamView::Subtitle(SubtitleStreamView {
            codec_id: or_unknown(v.codec_id),
            codec_long: or_unknown(v.codec_long),
            codec_short: or_unknown(v.codec_short),
            lang_code: or_unknown(v.lang_code),
            lang_name: or_unknown(v.lang_name),
            metadata_language_code: or_unknown(v.metadata_language_code),
            metadata_language_name: or_unknown(v.metadata_language_name),
            mkv_flags: or_unknown(v.mkv_flags),
            mkv_flags_text: or_empty(v.mkv_flags_text),
            order_weight: number_of(v.order_weight).unwrap(),
            output_conversion_type: or_unknown(v.output_conversion_type),
            panel_title: or_unknown(v.panel_title),
            stream_flags: number_of(v.stream_flags).unwrap(),
            stream_type: t,
            tree_info: spec_trim_start(or_unknown(v.tree_info)),
        }))
    } else if t == "Video"@ {
        Some(StreamView::Video(VideoStreamView {
            bitrate: or_unknown(v.bitrate),
            codec_id: or_unknown(v.codec_id),
            codec_long: or_unknown(v.codec_long),
            codec_short: or_unknown(v.codec_short),
            metadata_language_code: or_unknown(v.metadata_language_code),
            metadata_language_name: or_unknown(v.metadata_language_name),
            mkv_flags: or_unknown(v.mkv_flags),
            order_weight: number_of(v.order_weight).unwrap(),
            output_conversion_type: or_unknown(v.output_conversion_type),
            panel_title: or_unknown(v.panel_title),
            stream_flags: number_of(v.stream_flags).unwrap(),
            stream_type: t,
            tree_info: spec_trim_start(or_unknown(v.tree_info)),
            video_aspect_ratio: or_unknown(v.video_aspect_ratio),
            video_framerate: or_unknown(v.video_frame_rate),
            video_size: or_unknown(v.video_size),
        }))
    } else {
        None
    }
}

fn or_unknown_string(v: Option<String>) -> (r: String)
    ensures
        r@ == or_unknown(opt_string_view(v)),
{
    match v {
        Some(s) => s,
        None => owned("<unknown>"),
    }
}

fn or_empty_string(v: Option<String>) -> (r: String)
    ensures
        r@ == or_empty(opt_string_view(v)),
{
    match v {
        Some(s) => s,
        None => String::new(),
    }
}

/// Parses a value as a `usize`, as `str::parse::<usize>` does.
pub fn parse_as_usize(value: &str) -> (r: Option<usize>)
    ensures
        r == spec_parse_usize(value@),
{
    parse_usize(value)
}

fn number_value(v: &Option<String>) -> (r: usize)
    requires
        number_of(opt_string_view(*v)) is Some,
    ensures
        r == number_of(opt_string_view(*v)).unwrap(),
{
    match v {
        Some(s) => parse_as_usize(s.as_str()).unwrap(),
        None => 0,
    }
}

/// Builds the stream that the values describe; `None` for a type other
/// than `Audio`, `Subtitles` and `Video`.
pub fn stream_from_values(v: StreamValues) -> (r: Option<Stream>)
    requires
        stream_values_valid(v@),
    ensures
        opt_stream_view(r) == spec_stream(v@),
{
    let ghost vv = v@;
    let order_weight = number_value(&v.order_weight);
    let stream_flags = number_value(&v.stream_flags);
    let tree_info = trim_start(or_unknown_string(v.tree_info).as_str());
    let stream_type = v.stream_type.unwrap();
    if str_eq(stream_type.as_str(), "Audio") {
        let audio_channels_count = number_value(&v.audio_channels_count);
        let audio_sample_rate = number_value(&v.audio_sample_rate);
        let r = AudioStream {
            audio_channel_layout_name: or_unknown_string(v.audio_channel_layout_name),
            audio_channels_count: audio_channels_count,
            audio_sample_rate: audio_sample_rate,
            bitrate: or_unknown_string(v.bitrate),
            codec_id: or_unknown_string(v.codec_id),
            codec_long: or_unknown_string(v.codec_long),
            codec_short: or_unknown_string(v.codec_short),
            lang_code: or_unknown_string(v.lang_code),
            lang_name: or_unknown_string(v.lang_name),
            metadata_language_code: or_unknown_string(v.metadata_language_code),
            metadata_language_name: or_unknown_string(v.metadata_language_name),
            mkv_flags: or_unknown_string(v.mkv_flags),
            mkv_flags_text: or_empty_string(v.mkv_flags_text),
            name: or_unknown_string(v.name),
            order_weight: order_weight,
            output_conversion_type: or_unknown_string(v.output_conversion_type),
            panel_title: or_unknown_string(v.panel_title),
            stream_flags: stream_flags,
            stream_type: stream_type,
            tree_info: tree_info,
        };
        Some(Stream::Audio(r))
    } else if str_eq(stream_type.as_str(), "Subtitles") {
        let r = SubtitleStream {
            codec_id: or_unknown_string(v.codec_id),
            codec_long: or_unknown_string(v.codec_long),
            codec_short: or_unknown_string(v.codec_short),
            lang_code: or_unknown_string(v.lang_code),
            lang_name: or_unknown_string(v.lang_name),
            metadata_language_code: or_unknown_string(v.metadata_language_code),
            metadata_language_name: or_unknown_string(v.metadata_language_name),
            mkv_flags: or_unknown_string(v.mkv_flags),
            mkv_flags_text: or_empty_string(v.mkv_flags_text),
            order_weight: order_weight,
            output_conversion_type: or_unknown_string(v.output_conversion_type),
            panel_title: or_unknown_string(v.panel_title),
            stream_flags: stream_flags,
            stream_type: stream_type,
            tree_info: tree_info,
        };
        Some(Stream::Subtitle(r))
    } else if str_eq(stream_type.as_str(), "Video") {
        let r = VideoStream {
            bitrate: or_unknown_string(v.bitrate),
            codec_id: or_unknown_string(v.codec_id),
            codec_long: or_unknown_string(v.codec_long),
            codec_short: or_unknown_string(v.codec_short),
            metadata_language_code: or_unknown_string(v.metadata_language_code),
            metadata_language_name: or_unknown_string(v.metadata_language_name),
            mkv_flags: or_unknown_string(v.mkv_flags),
            order_weight: order_weight,
            output_conversion_type: or_unknown_string(v.output_conversion_type),
            panel_title: or_unknown_string(v.panel_title),
            stream_flags: stream_flags,
            stream_type: stream_type,
            tree_info: tree_info,
            video_aspect_ratio: or_unknown_string(v.video_aspect_ratio),
            video_framerate: or_unknown_string(v.video_frame_rate),
            video_size: or_unknown_string(v.video_size),
        };
        Some(Stream::Video(r))
    } else {
        None
    }
}

/// The value of a named attribute, where the map has it.
pub open spec fn value_of(m: Map<Seq<char>, InfoRecordOutView>, name: Seq<char>) -> Option<Seq<char>> {
    if m.contains_key(name) {
        Some(m[name].value)
    } else {
        None
    }
}

fn attribute_value(attributes: &AttributeMap, name: &str) -> (r: Option<String>)
    ensures
        opt_string_view(r) == value_of(attributes@, name@),
{
    match attributes.get(name) {
        Some(x) => Some(x.value.clone()),
        None => None,
    }
}

/// The character views of the values of numbered attributes.
pub open spec fn id_map_view(m: Map<u32, String>) -> Map<u32, Seq<char>> {
    Map::new(|k: u32| m.contains_key(k), |k: u32| m[k]@)
}

/// The value of a numbered attribute, where the map has it.
pub open spec fn id_value(m: Map<u32, Seq<char>>, id: u32) -> Option<Seq<char>> {
    if m.contains_key(id) {
        Some(m[id])
    } else {
        None
    }
}

fn numbered_value(attributes: &HashMap<u32, String>, id: u32) -> (r: Option<String>)
    ensures
        opt_string_view(r) == id_value(id_map_view(attributes@), id),
{
    match attributes.get(&id) {
        Some(x) => Some(x.clone()),
        None => None,
    }
}

/// The values that a map of named attributes gives a stream.
pub open spec fn values_by_name(m: Map<Seq<char>, InfoRecordOutView>) -> StreamValuesView {
    StreamValuesView {
        stream_type: value_of(m, "Type"@),
        name: value_of(m, "Name"@),
        lang_code: value_of(m, "LangCode"@),
        lang_name: value_of(m, "LangName"@),
        codec_id: value_of(m, "CodecId"@),
        codec_short: value_of(m, "CodecShort"@),
        codec_long: value_of(m, "CodecLong"@),
        bitrate: value_of(m, "Bitrate"@),
        audio_channels_count: value_of(m, "AudioChannelsCount"@),
        audio_sample_rate: value_of(m, "AudioSampleRate"@),
        video_size: value_of(m, "VideoSize"@),
        video_aspect_ratio: value_of(m, "VideoAspectRatio"@),
        video_frame_rate: value_of(m, "VideoFrameRate"@),
        stream_flags: value_of(m, "StreamFlags"@),
        metadata_language_code: value_of(m, "MetadataLanguageCode"@),
        metadata_language_name: value_of(m, "MetadataLanguageName"@),
        tree_info: value_of(m, "TreeInfo"@),
        panel_title: value_of(m, "PanelTitle"@),
        order_weight: value_of(m, "OrderWeight"@),
        mkv_flags: value_of(m, "MkvFlags"@),
        mkv_flags_text: value_of(m, "MkvFlagsText"@),
        audio_channel_layout_name: value_of(m, "AudioChannelLayoutName"@),
        output_conversion_type: value_of(m, "OutputConversionType"@),
    }
}

/// Reads the values of a stream's attributes from a map of named
/// attributes.
pub fn stream_values_by_name(attributes: &AttributeMap) -> (r: StreamValues)
    ensures
        r@ == values_by_name(attributes@),
{
    StreamValues {
        stream_type: attribute_value(attributes, "Type"),
        name: attribute_value(attributes, "Name"),
        lang_code: attribute_value(attributes, "LangCode"),
        lang_name: attribute_value(attributes, "LangName"),
        codec_id: attribute_value(attributes, "CodecId"),
        codec_short: attribute_value(attributes, "CodecShort"),
        codec_long: attribute_value(attributes, "CodecLong"),
        bitrate: attribute_value(attributes, "Bitrate"),
        audio_channels_count: attribute_value(attributes, "AudioChannelsCount"),
        audio_sample_rate: attribute_value(attributes, "AudioSampleRate"),
        video_size: attribute_value(attributes, "VideoSize"),
        video_aspect_ratio: attribute_value(attributes, "VideoAspectRatio"),
        video_frame_rate: attribute_value(attributes, "VideoFrameRate"),
        stream_flags: attribute_value(attributes, "StreamFlags"),
        metadata_language_code: attribute_value(attributes, "MetadataLanguageCode"),
        metadata_language_name: attribute_value(attributes, "MetadataLanguageName"),
        tree_info: attribute_value(attributes, "TreeInfo"),
        panel_title: attribute_value(attributes, "PanelTitle"),
        order_weight: attribute_value(attributes, "OrderWeight"),
        mkv_flags: attribute_value(attributes, "MkvFlags"),
        mkv_flags_text: attribute_value(attributes, "MkvFlagsText"),
        audio_channel_layout_name: attribute_value(attributes, "AudioChannelLayoutName"),
        output_conversion_type: attribute_value(attributes, "OutputConversionType"),
    }
}

/// The values that a map of numbered attributes gives a stream.
pub open spec fn values_by_id(m: Map<u32, Seq<char>>) -> StreamValuesView {
    StreamValuesView {
        stream_type: id_value(m, 1),
        name: id_value(m, 2),
        lang_code: id_value(m, 3),
        lang_name: id_value(m, 4),
        codec_id: id_value(m, 5),
        codec_short: id_value(m, 6),
        codec_long: id_value(m, 7),
        bitrate: id_value(m, 13),
        audio_channels_count: id_value(m, 14),
        audio_sample_rate: id_value(m, 17),
        video_size: id_value(m, 19),
        video_aspect_ratio: id_value(m, 20),
        video_frame_rate: id_value(m, 21),
        stream_flags: id_value(m, 22),
        metadata_language_code: id_value(m, 28),
        metadata_language_name: id_value(m, 29),
        tree_info: id_value(m, 30),
        panel_title: id_value(m, 31),
        order_weight: id_value(m, 33),
        mkv_flags: id_value(m, 38),
        mkv_flags_text: id_value(m, 39),
        audio_channel_layout_name: id_value(m, 40),
        output_conversion_type: id_value(m, 42),
    }
}

/// Reads the values of a stream's attributes from a map of numbered
/// attributes.
pub fn stream_values_by_id(attributes: &HashMap<u32, String>) -> (r: StreamValues)
    ensures
        r@ == values_by_id(id_map_view(attributes@)),
{
    StreamValues {
        stream_type: numbered_value(attributes, 1),
        name: numbered_value(attributes, 2),
        lang_code: numbered_value(attributes, 3),
        lang_name: numbered_value(attributes, 4),
        codec_id: numbered_value(attributes, 5),
        codec_short: numbered_value(attributes, 6),
        codec_long: numbered_value(attributes, 7),
        bitrate: numbered_value(attributes, 13),
        audio_channels_count: numbered_value(attributes, 14),
        audio_sample_rate: numbered_value(attributes, 17),
        video_size: numbered_value(attributes, 19),
        video_aspect_ratio: numbered_value(attributes, 20),
        video_frame_rate: numbered_value(attributes, 21),
        stream_flags: numbered_value(attributes, 22),
        metadata_language_code: numbered_value(attributes, 28),
        metadata_language_name: numbered_value(attributes, 29),
        tree_info: numbered_value(attributes, 30),
        panel_title: numbered_value(attributes, 31),
        order_weight: numbered_value(attributes, 33),
        mkv_flags: numbered_value(attributes, 38),
        mkv_flags_text: numbered_value(attributes, 39),
        audio_channel_layout_name: numbered_value(attributes, 40),
        output_conversion_type: numbered_value(attributes, 42),
    }
}

/// Builds the stream that a map of named attributes describes. The type
/// must be `Audio`, `Subtitles` or `Video`.
pub fn parse_stream_record(attributes: AttributeMap) -> (r: Stream)
    requires
        stream_values_valid(values_by_name(attributes@)),
        spec_stream(values_by_name(attributes@)) is Some,
    ensures
        r@ == spec_stream(values_by_name(attributes@)).unwrap(),
{
    let v = stream_values_by_name(&attributes);
    stream_from_values(v).unwrap()
}

} // verus!
