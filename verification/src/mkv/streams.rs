//! Streams as the disc reports them: audio, subtitle and video.

use vstd::prelude::*;

use crate::mkvcon::streams::{
    number_of,
    AudioStreamView, StreamView as RecordView, SubtitleStreamView, VideoStream as RecordVideo,
    VideoStreamView as RecordVideoView, spec_stream, stream_from_values, stream_values_by_id,
    stream_values_valid, values_by_id, id_map_view,
};
use crate::text::str_eq;
use std::collections::HashMap;

pub use crate::mkvcon::streams::{
    AudioStream, SubtitleStream, parse_as_usize};

verus! {

/// A video stream.
#[derive(Clone, Debug, PartialEq)]
pub struct VideoStream {
    pub bitrate: String,
    pub codec_id: String,
    pub codec_long: String,
    pub codec_short: String,
    pub metadata_language_code: String,
    pub metadata_language_name: String,
    pub mkv_flags: String,
    pub order_weight: usize,
    pub output_conversion_type: String,
    pub panel_title: String,
    pub stream_flags: usize,
    pub stream_type: String,
    pub tree_info: String,
    pub video_aspect_ratio: String,
    pub video_frame_rate: String,
    pub video_size: String,
}

/// The mathematical content of a [`VideoStream`].
pub struct VideoStreamView {
    pub bitrate: Seq<char>,
    pub codec_id: Seq<char>,
    pub codec_long: Seq<char>,
    pub codec_short: Seq<char>,
    pub metadata_language_code: Seq<char>,
    pub metadata_language_name: Seq<char>,
    pub mkv_flags: Seq<char>,
    pub order_weight: usize,
    pub output_conversion_type: Seq<char>,
    pub panel_title: Seq<char>,
    pub stream_flags: usize,
    pub stream_type: Seq<char>,
    pub tree_info: Seq<char>,
    pub video_aspect_ratio: Seq<char>,
    pub video_frame_rate: Seq<char>,
    pub video_size: Seq<char>,
}

impl View for VideoStream {
    type V = VideoStreamView;

    open spec fn view(&self) -> VideoStreamView {
        VideoStreamView {
            bitrate: self.bitrate@,
            codec_id: self.codec_id@,
            codec_long: self.codec_long@,
            codec_short: self.codec_short@,
            metadata_language_code: self.metadata_language_code@,
            metadata_language_name: self.metadata_language_name@,
            mkv_flags: self.mkv_flags@,
            order_weight: self.order_weight,
            output_conversion_type: self.output_conversion_type@,
            panel_title: self.panel_title@,
            stream_flags: self.stream_flags,
            stream_type: self.stream_type@,
            tree_info: self.tree_info@,
            video_aspect_ratio: self.video_aspect_ratio@,
            video_frame_rate: self.video_frame_rate@,
            video_size: self.video_size@,
        }
    }
}

impl VideoStream {
    /// A copy with the same content.
    pub fn duplicate(&self) -> (r: Self)
        ensures
            r@ == self@,
    {
        VideoStream {
            bitrate: self.bitrate.clone(),
            codec_id: self.codec_id.clone(),
            codec_long: self.codec_long.clone(),
            codec_short: self.codec_short.clone(),
            metadata_language_code: self.metadata_language_code.clone(),
            metadata_language_name: self.metadata_language_name.clone(),
            mkv_flags: self.mkv_flags.clone(),
            order_weight: self.order_weight,
            output_conversion_type: self.output_conversion_type.clone(),
            panel_title: self.panel_title.clone(),
            stream_flags: self.stream_flags,
            stream_type: self.stream_type.clone(),
            tree_info: self.tree_info.clone(),
            video_aspect_ratio: self.video_aspect_ratio.clone(),
            video_frame_rate: self.video_frame_rate.clone(),
            video_size: self.video_size.clone(),
        }
    }
}

/// A stream of one of the three kinds.
#[derive(Clone, Debug, PartialEq)]
pub enum Stream {
    Audio(AudioStream),
    Subtitle(SubtitleStream),
    Video(VideoStream),
}

/// The mathematical content of a [`Stream`].
pub enum StreamView {
    Audio(AudioStreamView),
    Subtitle(SubtitleStreamView),
    Video(VideoStreamView),
}

impl View for Stream {
    type V = StreamView;

    open spec fn view(&self) -> StreamView {
        match self {
            Stream::Audio(a) => StreamView::Audio(a@),
            Stream::Subtitle(s) => StreamView::Subtitle(s@),
            Stream::Video(v) => StreamView::Video(v@),
        }
    }
}

impl Stream {
    /// A copy with the same content.
    pub fn duplicate(&self) -> (r: Self)
        ensures
            r@ == self@,
    {
        match self {
            Stream::Audio(a) => Stream::Audio(a.duplicate()),
            Stream::Subtitle(s) => Stream::Subtitle(s.duplicate()),
            Stream::Video(v) => Stream::Video(v.duplicate()),
        }
    }
}

/// The same video stream, with its frame rate under this module's name.
pub open spec fn video_view(v: RecordVideoView) -> VideoStreamView {
    VideoStreamView {
        bitrate: v.bitrate,
        codec_id: v.codec_id,
        codec_long: v.codec_long,
        codec_short: v.codec_short,
        metadata_language_code: v.metadata_language_code,
        metadata_language_name: v.metadata_language_name,
        mkv_flags: v.mkv_flags,
        order_weight: v.order_weight,
        output_conversion_type: v.output_conversion_type,
        panel_title: v.panel_title,
        stream_flags: v.stream_flags,
        stream_type: v.stream_type,
        tree_info: v.tree_info,
        video_aspect_ratio: v.video_aspect_ratio,
        video_frame_rate: v.video_framerate,
        video_size: v.video_size,
    }
}

/// The same stream in this module's types.
pub open spec fn stream_view(s: RecordView) -> StreamView {
    match s {
        RecordView::Audio(a) => StreamView::Audio(a),
        RecordView::Subtitle(x) => StreamView::Subtitle(x),
        RecordView::Video(v) => StreamView::Video(video_view(v)),
    }
}

/// The stream, if any, that a map of numbered attributes describes: the
/// numbers are those of `ItemAttributeId` (1 the type, 22 the flags, 33
/// the order weight, ...).
pub open spec fn spec_stream_record(m: Map<u32, Seq<char>>) -> Option<StreamView> {
    match spec_stream(values_by_id(m)) {
        Some(s) => Some(stream_view(s)),
        None => None,
    }
}

/// The view of an optional stream.
pub open spec fn opt_stream_view(s: Option<Stream>) -> Option<StreamView> {
    match s {
        Some(x) => Some(x@),
        None => None,
    }
}

fn video_from(v: RecordVideo) -> (r: VideoStream)
    ensures
        r@ == video_view(v@),
{
    VideoStream {
        bitrate: v.bitrate,
        codec_id: v.codec_id,
        codec_long: v.codec_long,
        codec_short: v.codec_short,
        metadata_language_code: v.metadata_language_code,
        metadata_language_name: v.metadata_language_name,
        mkv_flags: v.mkv_flags,
        order_weight: v.order_weight,
        output_conversion_type: v.output_conversion_type,
        panel_title: v.panel_title,
        stream_flags: v.stream_flags,
        stream_type: v.stream_type,
        tree_info: v.tree_info,
        video_aspect_ratio: v.video_aspect_ratio,
        video_frame_rate: v.video_framerate,
        video_size: v.video_size,
    }
}

/// Builds the stream that a map of numbered attributes describes; `None`
/// for a type other than `Audio`, `Subtitles` and `Video`. The type must
/// be given, the flags (22) and order weight (33) must be numbers, and so
/// must the channel count (14) and sample rate (17) of an audio stream.
pub fn parse_stream_record(attributes: &HashMap<u32, String>) -> (r: Option<Stream>)
    requires
        stream_values_valid(values_by_id(id_map_view(attributes@))),
    ensures
        opt_stream_view(r) == spec_stream_record(id_map_view(attributes@)),
{
    let v = stream_values_by_id(attributes);
    match stream_from_values(v) {
        Some(crate::mkvcon::streams::Stream::Audio(a)) => Some(Stream::Audio(a)),
        Some(crate::mkvcon::streams::Stream::Subtitle(s)) => Some(Stream::Subtitle(s)),
        Some(crate::mkvcon::streams::Stream::Video(v)) => Some(Stream::Video(video_from(v))),
        None => None,
    }
}

/// Whether `parse_stream_record` can read a map of numbered attributes
/// and finds a stream of a known type in it.
pub fn stream_record_readable(attributes: &HashMap<u32, String>) -> (r: bool)
    ensures
        r == (stream_values_valid(values_by_id(id_map_view(attributes@))) && spec_stream_record(
            id_map_view(attributes@),
        ) is Some),
{
    let v = stream_values_by_id(attributes);
    let t = match &v.stream_type {
        Some(t) => t,
        None => return false,
    };
    let flags_ok = match &v.stream_flags {
        Some(x) => parse_as_usize(x.as_str()).is_some(),
        None => false,
    };
    let weight_ok = match &v.order_weight {
        Some(x) => parse_as_usize(x.as_str()).is_some(),
        None => false,
    };
    if !flags_ok || !weight_ok {
        return false;
    }
    if str_eq(t.as_str(), "Audio") {
        let channels_ok = match &v.audio_channels_count {
            Some(x) => parse_as_usize(x.as_str()).is_some(),
            None => false,
        };
        let rate_ok = match &v.audio_sample_rate {
            Some(x) => parse_as_usize(x.as_str()).is_some(),
            None => false,
        };
        channels_ok && rate_ok
    } else {
        str_eq(t.as_str(), "Subtitles") || str_eq(t.as_str(), "Video")
    }
}

} // verus!
