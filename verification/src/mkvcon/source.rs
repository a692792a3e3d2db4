//! The source that `makemkvcon` reads from: a drive id, a drive letter, a
//! device name, a disc image or a directory.

use vstd::prelude::*;

use crate::mkv::source::PathKind;
use crate::pattern::{regex_is_match, regex_match};
use crate::text::{append_str, decimal_string, owned, parse_uint, spec_decimal, spec_parse_uint};

verus! {

/// A source of `makemkvcon`.
#[derive(Clone, Debug, PartialEq)]
pub enum Source {
    DriveId(u8),
    DriveLetter(String),
    DeviceName(String),
    IsoFile(String),
    Directory(String),
}

/// The mathematical content of a [`Source`].
pub enum SourceView {
    DriveId(u8),
    DriveLetter(Seq<char>),
    DeviceName(Seq<char>),
    IsoFile(Seq<char>),
    Directory(Seq<char>),
}

impl View for Source {
    type V = SourceView;

    open spec fn view(&self) -> SourceView {
        match self {
            Source::DriveId(id) => SourceView::DriveId(*id),
            Source::DriveLetter(s) => SourceView::DriveLetter(s@),
            Source::DeviceName(s) => SourceView::DeviceName(s@),
            Source::IsoFile(s) => SourceView::IsoFile(s@),
            Source::Directory(s) => SourceView::Directory(s@),
        }
    }
}

/// The view of an optional source.
pub open spec fn opt_source_view(s: Option<Source>) -> Option<SourceView> {
    match s {
        Some(x) => Some(x@),
        None => None,
    }
}

/// A drive id: one digit.
pub const DRIVE_ID_PATTERN: &'static str = r"^(\d)$";

/// An upper-case drive letter, with or without a trailing backslash.
pub const DRIVE_LETTER_PATTERN: &'static str = r"^[A-Z]:\\?$";

/// A device name.
pub const DEVICE_NAME_PATTERN: &'static str = r"^(/dev/.*)$";

/// The source that `s` names, given whether the drive id, drive letter and
/// device name patterns match it (each `None` where the pattern does not
/// compile). The first that matches decides: a drive id, a drive letter
/// (kept as given), a device name; else `kind` tells whether `s` is a
/// directory or an existing file (taken for a disc image). `None` where
/// none applies, or where a pattern that was needed did not compile.
pub open spec fn spec_classify_source(
    s: Seq<char>,
    drive_id: Option<bool>,
    drive_letter: Option<bool>,
    device_name: Option<bool>,
    kind: PathKind,
) -> Option<SourceView> {
    match drive_id {
        None => None,
        Some(true) => Some(SourceView::DriveId(spec_parse_uint(s, u8::MAX as nat).unwrap() as u8)),
        Some(false) => match drive_letter {
            None => None,
            Some(true) => Some(SourceView::DriveLetter(s)),
            Some(false) => match device_name {
                None => None,
                Some(true) => Some(SourceView::DeviceName(s)),
                Some(false) => match kind {
                    PathKind::Directory => Some(SourceView::Directory(s)),
                    PathKind::File => Some(SourceView::IsoFile(s)),
                    PathKind::Missing => None,
                },
            },
        },
    }
}

/// The source that `s` names, where `kind` tells where `s` leads as a
/// path.
pub open spec fn spec_parse_source(s: Seq<char>, kind: PathKind) -> Option<SourceView> {
    spec_classify_source(
        s,
        regex_match(DRIVE_ID_PATTERN@, s),
        regex_match(DRIVE_LETTER_PATTERN@, s),
        regex_match(DEVICE_NAME_PATTERN@, s),
        kind,
    )
}

/// A text that the drive id pattern matches reads as a number that fits a
/// `u8` (a digit of another script would not).
pub open spec fn drive_id_readable(s: Seq<char>) -> bool {
    regex_match(DRIVE_ID_PATTERN@, s) == Some(true) ==> spec_parse_uint(s, u8::MAX as nat) is Some
}

/// Decides which source `source` names from what the patterns found in
/// it (see [`spec_classify_source`]).
pub fn classify_source(
    source: &str,
    drive_id: Option<bool>,
    drive_letter: Option<bool>,
    device_name: Option<bool>,
    path_kind: PathKind,
) -> (r: Option<Source>)
    requires
        drive_id == Some(true) ==> spec_parse_uint(source@, u8::MAX as nat) is Some,
    ensures
        opt_source_view(r) == spec_classify_source(source@, drive_id, drive_letter, device_name, path_kind),
{
    match drive_id {
        None => return None,
        Some(true) => {
            let id = parse_uint(source, u8::MAX as u64).unwrap();
            return Some(Source::DriveId(id as u8));
        },
        Some(false) => {},
    }
    match drive_letter {
        None => return None,
        Some(true) => return Some(Source::DriveLetter(owned(source))),
        Some(false) => {},
    }
    match device_name {
        None => None,
        Some(true) => Some(Source::DeviceName(owned(source))),
        Some(false) => match path_kind {
            PathKind::Directory => Some(Source::Directory(owned(source))),
            PathKind::File => Some(Source::IsoFile(owned(source))),
            PathKind::Missing => None,
        },
    }
}

/// Detects the kind of source that `source` names; `path_kind` tells
/// where `source` leads as a path.
pub fn parse_source(source: &str, path_kind: PathKind) -> (r: Option<Source>)
    requires
        drive_id_readable(source@),
    ensures
        opt_source_view(r) == spec_parse_source(source@, path_kind),
{
    let drive_id = regex_is_match(DRIVE_ID_PATTERN, source);
    let drive_letter = regex_is_match(DRIVE_LETTER_PATTERN, source);
    let device_name = regex_is_match(DEVICE_NAME_PATTERN, source);
    classify_source(source, drive_id, drive_letter, device_name, path_kind)
}

/// Detects the kind of source as `parse_source` does; `None` where the
/// drive id pattern matches a text that does not read as a `u8`.
pub fn try_parse_source(source: &str, path_kind: PathKind) -> (r: Option<Option<Source>>)
    ensures
        r is Some <==> drive_id_readable(source@),
        r matches Some(x) ==> opt_source_view(x) == spec_parse_source(source@, path_kind),
{
    if regex_is_match(DRIVE_ID_PATTERN, source) == Some(true) && parse_uint(source, u8::MAX as u64).is_none() {
        return None;
    }
    Some(parse_source(source, path_kind))
}

/// How `makemkvcon` names a source: `disc:<id>`, `dev:<letter or
/// device>`, `iso:<file>` or `file:<directory>`.
pub open spec fn source_text(s: SourceView) -> Seq<char> {
    match s {
        SourceView::DriveId(id) => "disc:"@ + spec_decimal(id as nat),
        SourceView::DriveLetter(x) => "dev:"@ + x,
        SourceView::DeviceName(x) => "dev:"@ + x,
        SourceView::IsoFile(x) => "iso:"@ + x,
        SourceView::Directory(x) => "file:"@ + x,
    }
}

impl Source {
    /// The name under which `makemkvcon` takes the source.
    pub fn to_string(&self) -> (r: String)
        ensures
            r@ == source_text(self@),
    {
        let (prefix, rest) = match self {
            Source::DriveId(id) => ("disc:", decimal_string(*id as u64)),
            Source::DriveLetter(x) => ("dev:", x.clone()),
            Source::DeviceName(x) => ("dev:", x.clone()),
            Source::IsoFile(x) => ("iso:", x.clone()),
            Source::Directory(x) => ("file:", x.clone()),
        };
        let mut r = owned(prefix);
        append_str(&mut r, rest.as_str());
        r
    }
}

} // verus!
