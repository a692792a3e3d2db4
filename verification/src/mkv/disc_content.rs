//! The content of a disc, organised by title: the disc's attributes, each
//! title's attributes and its streams.

use vstd::prelude::*;
use vstd::std_specs::btree::*;

use crate::apdefs::ItemAttributeId;
use crate::api::info::{InfoRecord, InfoRecordView};
use crate::mkv::streams::{Stream, StreamView, parse_as_usize};
use crate::text::{clone_opt_string, opt_string_view, spec_parse_usize};
use std::collections::BTreeMap;

verus! {

broadcast use {vstd::std_specs::btree::group_btree_axioms, vstd::laws_cmp::group_laws_cmp};

/// Why an attribute could not be applied.
#[derive(Clone, Copy, Debug, PartialEq, Eq, Structural)]
pub enum UpdateError {
    /// The record's attribute id has no name.
    InternalError,
    /// The stream is of no known type.
    UnknownStreamType,
    /// The attribute is not one that the record holds.
    UnknownValue,
}

/// The disc's attributes (`CINFO`).
#[derive(Clone, Debug, PartialEq)]
pub struct ContentAttributes {
    pub comment: Option<String>,
    pub content_type: Option<String>,
    pub metadata_language_code: Option<String>,
    pub metadata_language_name: Option<String>,
    pub name: Option<String>,
    pub order_weight: Option<usize>,
    pub panel_title: Option<String>,
    pub tree_info: Option<String>,
    pub volume_name: Option<String>,
}

/// The mathematical content of [`ContentAttributes`].
pub struct ContentAttributesView {
    pub comment: Option<Seq<char>>,
    pub content_type: Option<Seq<char>>,
    pub metadata_language_code: Option<Seq<char>>,
    pub metadata_language_name: Option<Seq<char>>,
    pub name: Option<Seq<char>>,
    pub order_weight: Option<usize>,
    pub panel_title: Option<Seq<char>>,
    pub tree_info: Option<Seq<char>>,
    pub volume_name: Option<Seq<char>>,
}

impl View for ContentAttributes {
    type V = ContentAttributesView;

    open spec fn view(&self) -> ContentAttributesView {
        ContentAttributesView {
            comment: opt_string_view(self.comment),
            content_type: opt_string_view(self.content_type),
            metadata_language_code: opt_string_view(self.metadata_language_code),
            metadata_language_name: opt_string_view(self.metadata_language_name),
            name: opt_string_view(self.name),
            order_weight: self.order_weight,
            panel_title: opt_string_view(self.panel_title),
            tree_info: opt_string_view(self.tree_info),
            volume_name: opt_string_view(self.volume_name),
        }
    }
}

impl ContentAttributes {
    /// Every attribute unset.
    pub fn new() -> (r: Self)
        ensures
            r@ == content_attributes_default(),
    {
        ContentAttributes {
            comment: None,
            content_type: None,
            metadata_language_code: None,
            metadata_language_name: None,
            name: None,
            order_weight: None,
            panel_title: None,
            tree_info: None,
            volume_name: None,
        }
    }

    /// A copy with the same content.
    pub fn duplicate(&self) -> (r: Self)
        ensures
            r@ == self@,
    {
        ContentAttributes {
            comment: clone_opt_string(&self.comment),
            content_type: clone_opt_string(&self.content_type),
            metadata_language_code: clone_opt_string(&self.metadata_language_code),
            metadata_language_name: clone_opt_string(&self.metadata_language_name),
            name: clone_opt_string(&self.name),
            order_weight: self.order_weight,
            panel_title: clone_opt_string(&self.panel_title),
            tree_info: clone_opt_string(&self.tree_info),
            volume_name: clone_opt_string(&self.volume_name),
        }
    }
}

/// Every attribute unset (numbers zero).
pub open spec fn content_attributes_default() -> ContentAttributesView {
    ContentAttributesView {
        comment: None,
        content_type: None,
        metadata_language_code: None,
        metadata_language_name: None,
        name: None,
        order_weight: None,
        panel_title: None,
        tree_info: None,
        volume_name: None,
    }
}

/// A title's attributes (`TINFO`).
#[derive(Clone, Debug, PartialEq)]
pub struct TitleAttributes {
    pub angle_info: Option<String>,
    pub chapter_count: usize,
    pub comment: Option<String>,
    pub disk_size: Option<String>,
    pub disk_size_bytes: usize,
    pub duration: Option<String>,
    pub metadata_language_code: Option<String>,
    pub metadata_language_name: Option<String>,
    pub name: Option<String>,
    pub order_weight: usize,
    pub original_title_id: Option<String>,
    pub output_file_name: Option<String>,
    pub panel_title: Option<String>,
    pub segments_count: usize,
    pub segments_map: Option<String>,
    pub source_file_name: Option<String>,
    pub tree_info: Option<String>,
}

/// The mathematical content of [`TitleAttributes`].
pub struct TitleAttributesView {
    pub angle_info: Option<Seq<char>>,
    pub chapter_count: usize,
    pub comment: Option<Seq<char>>,
    pub disk_size: Option<Seq<char>>,
    pub disk_size_bytes: usize,
    pub duration: Option<Seq<char>>,
    pub metadata_language_code: Option<Seq<char>>,
    pub metadata_language_name: Option<Seq<char>>,
    pub name: Option<Seq<char>>,
    pub order_weight: usize,
    pub original_title_id: Option<Seq<char>>,
    pub output_file_name: Option<Seq<char>>,
    pub panel_title: Option<Seq<char>>,
    pub segments_count: usize,
    pub segments_map: Option<Seq<char>>,
    pub source_file_name: Option<Seq<char>>,
    pub tree_info: Option<Seq<char>>,
}

impl View for TitleAttributes {
    type V = TitleAttributesView;

    open spec fn view(&self) -> TitleAttributesView {
        TitleAttributesView {
            angle_info: opt_string_view(self.angle_info),
            chapter_count: self.chapter_count,
            comment: opt_string_view(self.comment),
            disk_size: opt_string_view(self.disk_size),
            disk_size_bytes: self.disk_size_bytes,
            duration: opt_string_view(self.duration),
            metadata_language_code: opt_string_view(self.metadata_language_code),
            metadata_language_name: opt_string_view(self.metadata_language_name),
            name: opt_string_view(self.name),
            order_weight: self.order_weight,
            original_title_id: opt_string_view(self.original_title_id),
            output_file_name: opt_string_view(self.output_file_name),
            panel_title: opt_string_view(self.panel_title),
            segments_count: self.segments_count,
            segments_map: opt_string_view(self.segments_map),
            source_file_name: opt_string_view(self.source_file_name),
            tree_info: opt_string_view(self.tree_info),
        }
    }
}

impl TitleAttributes {
    /// Every attribute unset.
    pub fn new() -> (r: Self)
        ensures
            r@ == title_attributes_default(),
    {
        TitleAttributes {
            angle_info: None,
            chapter_count: 0,
            comment: None,
            disk_size: None,
            disk_size_bytes: 0,
            duration: None,
            metadata_language_code: None,
            metadata_language_name: None,
            name: None,
            order_weight: 0,
            original_title_id: None,
            output_file_name: None,
            panel_title: None,
            segments_count: 0,
            segments_map: None,
            source_file_name: None,
            tree_info: None,
        }
    }

    /// A copy with the same content.
    pub fn duplicate(&self) -> (r: Self)
        ensures
            r@ == self@,
    {
        TitleAttributes {
            angle_info: clone_opt_string(&self.angle_info),
            chapter_count: self.chapter_count,
            comment: clone_opt_string(&self.comment),
            disk_size: clone_opt_string(&self.disk_size),
            disk_size_bytes: self.disk_size_bytes,
            duration: clone_opt_string(&self.duration),
            metadata_language_code: clone_opt_string(&self.metadata_language_code),
            metadata_language_name: clone_opt_string(&self.metadata_language_name),
            name: clone_opt_string(&self.name),
            order_weight: self.order_weight,
            original_title_id: clone_opt_string(&self.original_title_id),
            output_file_name: clone_opt_string(&self.output_file_name),
            panel_title: clone_opt_string(&self.panel_title),
            segments_count: self.segments_count,
            segments_map: clone_opt_string(&self.segments_map),
            source_file_name: clone_opt_string(&self.source_file_name),
            tree_info: clone_opt_string(&self.tree_info),
        }
    }
}

/// Every attribute unset (numbers zero).
pub open spec fn title_attributes_default() -> TitleAttributesView {
    TitleAttributesView {
        angle_info: None,
        chapter_count: 0,
        comment: None,
        disk_size: None,
        disk_size_bytes: 0,
        duration: None,
        metadata_language_code: None,
        metadata_language_name: None,
        name: None,
        order_weight: 0,
        original_title_id: None,
        output_file_name: None,
        panel_title: None,
        segments_count: 0,
        segments_map: None,
        source_file_name: None,
        tree_info: None,
    }
}

/// The disc's attributes after a `CINFO` record: the named attribute takes
/// the value (the order weight where it is a number); an id without a
/// name is an internal error and any other attribute an unknown value.
pub open spec fn content_update(a: ContentAttributesView, ir: InfoRecordView) -> Result<ContentAttributesView, UpdateError> {
    let v = ir.value;
    match ir.attr_val {
        Some(ItemAttributeId::Comment) => Ok(ContentAttributesView { comment: Some(v), ..a }),
        Some(ItemAttributeId::Type) => Ok(ContentAttributesView { content_type: Some(v), ..a }),
        Some(ItemAttributeId::MetadataLanguageCode) => Ok(ContentAttributesView { metadata_language_code: Some(v), ..a }),
        Some(ItemAttributeId::MetadataLanguageName) => Ok(ContentAttributesView { metadata_language_name: Some(v), ..a }),
        Some(ItemAttributeId::Name) => Ok(ContentAttributesView { name: Some(v), ..a }),
        Some(ItemAttributeId::OrderWeight) => Ok(ContentAttributesView { order_weight: spec_parse_usize(v), ..a }),
        Some(ItemAttributeId::PanelTitle) => Ok(ContentAttributesView { panel_title: Some(v), ..a }),
        Some(ItemAttributeId::TreeInfo) => Ok(ContentAttributesView { tree_info: Some(v), ..a }),
        Some(ItemAttributeId::VolumeName) => Ok(ContentAttributesView { volume_name: Some(v), ..a }),
        None => Err(UpdateError::InternalError),
        _ => Err(UpdateError::UnknownValue),
    }
}

/// A title's attributes after a `TINFO` record: the named attribute takes
/// the value (parsed, for the counts, sizes and order weight); an id
/// without a name is an internal error and any other attribute an unknown
/// value.
pub open spec fn title_update(a: TitleAttributesView, ir: InfoRecordView) -> Result<TitleAttributesView, UpdateError> {
    let v = ir.value;
    match ir.attr_val {
        Some(ItemAttributeId::AngleInfo) => Ok(TitleAttributesView { angle_info: Some(v), ..a }),
        Some(ItemAttributeId::ChapterCount) => Ok(TitleAttributesView { chapter_count: spec_parse_usize(v).unwrap(), ..a }),
        Some(ItemAttributeId::Comment) => Ok(TitleAttributesView { comment: Some(v), ..a }),
        Some(ItemAttributeId::DiskSize) => Ok(TitleAttributesView { disk_size: Some(v), ..a }),
        Some(ItemAttributeId::DiskSizeBytes) => Ok(TitleAttributesView { disk_size_bytes: spec_parse_usize(v).unwrap(), ..a }),
        Some(ItemAttributeId::Duration) => Ok(TitleAttributesView { duration: Some(v), ..a }),
        Some(ItemAttributeId::MetadataLanguageCode) => Ok(TitleAttributesView { metadata_language_code: Some(v), ..a }),
        Some(ItemAttributeId::MetadataLanguageName) => Ok(TitleAttributesView { metadata_language_name: Some(v), ..a }),
        Some(ItemAttributeId::Name) => Ok(TitleAttributesView { name: Some(v), ..a }),
        Some(ItemAttributeId::OrderWeight) => Ok(TitleAttributesView { order_weight: spec_parse_usize(v).unwrap(), ..a }),
        Some(ItemAttributeId::OriginalTitleId) => Ok(TitleAttributesView { original_title_id: Some(v), ..a }),
        Some(ItemAttributeId::OutputFileName) => Ok(TitleAttributesView { output_file_name: Some(v), ..a }),
        Some(ItemAttributeId::PanelTitle) => Ok(TitleAttributesView { panel_title: Some(v), ..a }),
        Some(ItemAttributeId::SegmentsCount) => Ok(TitleAttributesView { segments_count: spec_parse_usize(v).unwrap(), ..a }),
        Some(ItemAttributeId::SegmentsMap) => Ok(TitleAttributesView { segments_map: Some(v), ..a }),
        Some(ItemAttributeId::SourceFileName) => Ok(TitleAttributesView { source_file_name: Some(v), ..a }),
        Some(ItemAttributeId::TreeInfo) => Ok(TitleAttributesView { tree_info: Some(v), ..a }),
        None => Err(UpdateError::InternalError),
        _ => Err(UpdateError::UnknownValue),
    }
}

/// A `TINFO` record that `update_title_info` can apply: the chapter count,
/// disk size in bytes, order weight and segment count are numbers.
pub open spec fn title_record_applicable(ir: InfoRecordView) -> bool {
    match ir.attr_val {
        Some(ItemAttributeId::ChapterCount) => spec_parse_usize(ir.value) is Some,
        Some(ItemAttributeId::DiskSizeBytes) => spec_parse_usize(ir.value) is Some,
        Some(ItemAttributeId::OrderWeight) => spec_parse_usize(ir.value) is Some,
        Some(ItemAttributeId::SegmentsCount) => spec_parse_usize(ir.value) is Some,
        _ => true,
    }
}

/// Applies a `CINFO` record to the disc's attributes.
pub fn update_content_info(a: &mut ContentAttributes, ir: &InfoRecord) -> (r: Result<(), UpdateError>)
    ensures
        match content_update(old(a)@, ir@) {
            Ok(x) => r is Ok && final(a)@ == x,
            Err(e) => r == Err::<(), UpdateError>(e) && final(a)@ == old(a)@,
        },
{
    match ir.attr_val {
        Some(ItemAttributeId::Comment) => {
            a.comment = Some(ir.value.clone());
        },
        Some(ItemAttributeId::Type) => {
            a.content_type = Some(ir.value.clone());
        },
        Some(ItemAttributeId::MetadataLanguageCode) => {
            a.metadata_language_code = Some(ir.value.clone());
        },
        Some(ItemAttributeId::MetadataLanguageName) => {
            a.metadata_language_name = Some(ir.value.clone());
        },
        Some(ItemAttributeId::Name) => {
            a.name = Some(ir.value.clone());
        },
        Some(ItemAttributeId::OrderWeight) => {
            a.order_weight = parse_as_usize(ir.value.as_str());
        },
        Some(ItemAttributeId::PanelTitle) => {
            a.panel_title = Some(ir.value.clone());
        },
        Some(ItemAttributeId::TreeInfo) => {
            a.tree_info = Some(ir.value.clone());
        },
        Some(ItemAttributeId::VolumeName) => {
            a.volume_name = Some(ir.value.clone());
        },
        None => {
            return Err(UpdateError::InternalError);
        },
        _ => {
            return Err(UpdateError::UnknownValue);
        },
    }
    Ok(())
}

/// Applies a `TINFO` record to a title's attributes.
pub fn update_title_info(a: &mut TitleAttributes, ir: &InfoRecord) -> (r: Result<(), UpdateError>)
    requires
        title_record_applicable(ir@),
    ensures
        match title_update(old(a)@, ir@) {
            Ok(x) => r is Ok && final(a)@ == x,
            Err(e) => r == Err::<(), UpdateError>(e) && final(a)@ == old(a)@,
        },
{
    match ir.attr_val {
        Some(ItemAttributeId::AngleInfo) => {
            a.angle_info = Some(ir.value.clone());
        },
        Some(ItemAttributeId::ChapterCount) => {
            a.chapter_count = parse_as_usize(ir.value.as_str()).unwrap();
        },
        Some(ItemAttributeId::Comment) => {
            a.comment = Some(ir.value.clone());
        },
        Some(ItemAttributeId::DiskSize) => {
            a.disk_size = Some(ir.value.clone());
        },
        Some(ItemAttributeId::DiskSizeBytes) => {
            a.disk_size_bytes = parse_as_usize(ir.value.as_str()).unwrap();
        },
        Some(ItemAttributeId::Duration) => {
            a.duration = Some(ir.value.clone());
        },
        Some(ItemAttributeId::MetadataLanguageCode) => {
            a.metadata_language_code = Some(ir.value.clone());
        },
        Some(ItemAttributeId::MetadataLanguageName) => {
            a.metadata_language_name = Some(ir.value.clone());
        },
        Some(ItemAttributeId::Name) => {
            a.name = Some(ir.value.clone());
        },
        Some(ItemAttributeId::OrderWeight) => {
            a.order_weight = parse_as_usize(ir.value.as_str()).unwrap();
        },
        Some(ItemAttributeId::OriginalTitleId) => {
            a.original_title_id = Some(ir.value.clone());
        },
        Some(ItemAttributeId::OutputFileName) => {
            a.output_file_name = Some(ir.value.clone());
        },
        Some(ItemAttributeId::PanelTitle) => {
            a.panel_title = Some(ir.value.clone());
        },
        Some(ItemAttributeId::SegmentsCount) => {
            a.segments_count = parse_as_usize(ir.value.as_str()).unwrap();
        },
        Some(ItemAttributeId::SegmentsMap) => {
            a.segments_map = Some(ir.value.clone());
        },
        Some(ItemAttributeId::SourceFileName) => {
            a.source_file_name = Some(ir.value.clone());
        },
        Some(ItemAttributeId::TreeInfo) => {
            a.tree_info = Some(ir.value.clone());
        },
        None => {
            return Err(UpdateError::InternalError);
        },
        _ => {
            return Err(UpdateError::UnknownValue);
        },
    }
    Ok(())
}


/// Whether `update_title_info` can apply a record.
pub fn is_title_record_applicable(ir: &InfoRecord) -> (r: bool)
    ensures
        r == title_record_applicable(ir@),
{
    match ir.attr_val {
        Some(ItemAttributeId::ChapterCount) => parse_as_usize(ir.value.as_str()).is_some(),
        Some(ItemAttributeId::DiskSizeBytes) => parse_as_usize(ir.value.as_str()).is_some(),
        Some(ItemAttributeId::OrderWeight) => parse_as_usize(ir.value.as_str()).is_some(),
        Some(ItemAttributeId::SegmentsCount) => parse_as_usize(ir.value.as_str()).is_some(),
        _ => true,
    }
}

/// A title: its attributes and its streams by number.
#[derive(Clone, Debug)]
pub struct TitleRecord {
    pub info: TitleAttributes,
    pub streams: BTreeMap<usize, Stream>,
}

/// The mathematical content of a [`TitleRecord`].
pub struct TitleRecordView {
    pub info: TitleAttributesView,
    pub streams: Map<usize, StreamView>,
}

/// The views of streams.
pub open spec fn streams_view(m: Map<usize, Stream>) -> Map<usize, StreamView> {
    Map::new(|k: usize| m.contains_key(k), |k: usize| m[k]@)
}

impl View for TitleRecord {
    type V = TitleRecordView;

    open spec fn view(&self) -> TitleRecordView {
        TitleRecordView { info: self.info@, streams: streams_view(self.streams@) }
    }
}

/// A title without attributes and streams.
pub open spec fn empty_title() -> TitleRecordView {
    TitleRecordView { info: title_attributes_default(), streams: Map::empty() }
}

impl TitleRecord {
    /// A title without attributes and streams.
    pub fn new() -> (r: Self)
        ensures
            r@ == empty_title(),
    {
        let r = TitleRecord { info: TitleAttributes::new(), streams: BTreeMap::new() };
        assert(streams_view(r.streams@) =~= Map::<usize, StreamView>::empty());
        r
    }
}

/// The disc's attributes and its titles by number.
#[derive(Debug)]
pub struct DiscContent {
    pub info: ContentAttributes,
    pub titles: BTreeMap<usize, TitleRecord>,
}

/// The mathematical content of a [`DiscContent`].
pub struct DiscContentView {
    pub info: ContentAttributesView,
    pub titles: Map<usize, TitleRecordView>,
}

/// The views of titles.
pub open spec fn titles_view(m: Map<usize, TitleRecord>) -> Map<usize, TitleRecordView> {
    Map::new(|k: usize| m.contains_key(k), |k: usize| m[k]@)
}

impl View for DiscContent {
    type V = DiscContentView;

    open spec fn view(&self) -> DiscContentView {
        DiscContentView { info: self.info@, titles: titles_view(self.titles@) }
    }
}

/// A title of the content, or an empty one where it has none.
pub open spec fn title_or_empty(titles: Map<usize, TitleRecordView>, tid: usize) -> TitleRecordView {
    if titles.contains_key(tid) {
        titles[tid]
    } else {
        empty_title()
    }
}

impl DiscContent {
    /// Content without attributes and titles.
    pub fn new() -> (r: Self)
        ensures
            r@.info == content_attributes_default(),
            r@.titles == Map::<usize, TitleRecordView>::empty(),
    {
        let r = DiscContent { info: ContentAttributes::new(), titles: BTreeMap::new() };
        assert(titles_view(r.titles@) =~= Map::<usize, TitleRecordView>::empty());
        r
    }

    /// A copy with the same content.
    pub fn duplicate(&self) -> (r: Self)
        ensures
            r@ == self@,
    {
        let r = DiscContent { info: self.info.duplicate(), titles: self.titles.clone() };
        assert(titles_view(r.titles@) =~= titles_view(self.titles@));
        r
    }

    /// Applies a `CINFO` record to the disc's attributes; on an error the
    /// content is unchanged.
    pub fn update_disc_attribute(&mut self, ir: &InfoRecord) -> (r: Result<(), UpdateError>)
        ensures
            final(self)@.titles == old(self)@.titles,
            match content_update(old(self)@.info, ir@) {
                Ok(x) => r is Ok && final(self)@.info == x,
                Err(e) => r == Err::<(), UpdateError>(e) && final(self)@.info == old(self)@.info,
            },
    {
        update_content_info(&mut self.info, ir)
    }

    /// Applies a `TINFO` record to the attributes of title `tid`. The title
    /// is created (empty) first where it is new, also when the record
    /// cannot be applied.
    pub fn update_title_attribute(&mut self, tid: usize, ir: &InfoRecord) -> (r: Result<(), UpdateError>)
        requires
            title_record_applicable(ir@),
        ensures
            final(self)@.info == old(self)@.info,
            ({
                let t = title_or_empty(old(self)@.titles, tid);
                match title_update(t.info, ir@) {
                    Ok(x) => r is Ok && final(self)@.titles == old(self)@.titles.insert(
                        tid,
                        TitleRecordView { info: x, ..t },
                    ),
                    Err(e) => r == Err::<(), UpdateError>(e) && final(self)@.titles
                        == old(self)@.titles.insert(tid, t),
                }
            }),
    {
        let ghost before = self.titles@;
        let mut tr = match self.titles.remove(&tid) {
            Some(x) => x,
            None => TitleRecord::new(),
        };
        let r = update_title_info(&mut tr.info, ir);
        self.titles.insert(tid, tr);
        assert(titles_view(self.titles@) =~= titles_view(before).insert(tid, tr@));
        r
    }

    /// Adds stream `sid` to title `tid`, creating the title where it is
    /// new.
    pub fn insert_stream_record(&mut self, tid: usize, sid: usize, sr: &Stream) -> (r: Result<(), UpdateError>)
        ensures
            r is Ok,
            final(self)@.info == old(self)@.info,
            ({
                let t = title_or_empty(old(self)@.titles, tid);
                final(self)@.titles == old(self)@.titles.insert(
                    tid,
                    TitleRecordView { streams: t.streams.insert(sid, sr@), ..t },
                )
            }),
    {
        let ghost before = self.titles@;
        let mut tr = match self.titles.remove(&tid) {
            Some(x) => x,
            None => TitleRecord::new(),
        };
        let ghost sbefore = tr.streams@;
        tr.streams.insert(sid, sr.duplicate());
        assert(streams_view(tr.streams@) =~= streams_view(sbefore).insert(sid, sr@));
        self.titles.insert(tid, tr);
        assert(titles_view(self.titles@) =~= titles_view(before).insert(tid, tr@));
        Ok(())
    }
}
} // verus!
