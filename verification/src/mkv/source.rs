//! The source that `makemkvcon` reads from:
//!
//! - `iso:<FileName>`: a disc image (ISO file)
//! - `file:<FolderName>`: a directory
//! - `disc:<DiscId>`: the disc with that id
//! - `dev:<DeviceName>`: a device name or drive letter

use vstd::prelude::*;

use crate::pattern::{regex_capture, regex_group, regex_is_match, regex_match};
use crate::text::{append_str, decimal_string, owned, spec_decimal, spec_parse_uint, to_upper_case, upper_case, parse_uint};

verus! {

/// Where a path leads: to a directory, to a file, or nowhere.
#[derive(Clone, Copy, Debug, PartialEq, Eq, Structural)]
pub enum PathKind {
    Directory,
    File,
    Missing,
}

/// A source of `makemkvcon`.
#[derive(Clone, Debug, PartialEq)]
pub enum Source {
    DiscId(u8),
    /// Windows
    DriveLetter(String),
    /// Linux, macOS
    DeviceName(String),
    IsoFile(String),
    Directory(String),
}

/// The mathematical content of a [`Source`].
pub enum SourceView {
    DiscId(u8),
    DriveLetter(Seq<char>),
    DeviceName(Seq<char>),
    IsoFile(Seq<char>),
    Directory(Seq<char>),
}

impl View for Source {
    type V = SourceView;

    open spec fn view(&self) -> SourceView {
        match self {
            Source::DiscId(id) => SourceView::DiscId(*id),
            Source::DriveLetter(s) => SourceView::DriveLetter(s@),
            Source::DeviceName(s) => SourceView::DeviceName(s@),
            Source::IsoFile(s) => SourceView::IsoFile(s@),
            Source::Directory(s) => SourceView::Directory(s@),
        }
    }
}

/// The view of an optional source.
pub open spec fn opt_source_view(s: Option<Source>) -> Option<SourceView> {
    match s {
        Some(x) => Some(x@),
        None => None,
    }
}

/// A disc id: one digit, or 10 to 15.
pub const DISC_ID_PATTERN: &'static str = r"^(\d|1[0-5])$";

/// A drive letter, with or without a trailing backslash.
pub const DRIVE_LETTER_PATTERN: &'static str = r"^([A-Za-z]:)\\?$";

/// A device name.
pub const DEVICE_NAME_PATTERN: &'static str = r"^(/dev/.*)$";

/// The source that `s` names, given what the three patterns found in it:
/// `disc_id` whether the disc id pattern matches, `drive_letter` the
/// upper-cased drive letter that the drive letter pattern captures, and
/// `device_name` whether the device name pattern matches (each `None`
/// where the pattern does not compile). The first that applies decides: a
/// disc id, a drive letter, a device name; else `kind` tells whether `s`
/// is a directory or an existing file (taken for a disc image). `None`
/// where none applies, or where a pattern that was needed did not compile.
pub open spec fn spec_classify_source(
    s: Seq<char>,
    disc_id: Option<bool>,
    drive_letter: Option<Option<Seq<char>>>,
    device_name: Option<bool>,
    kind: PathKind,
) -> Option<SourceView> {
    match disc_id {
        None => None,
        Some(true) => Some(SourceView::DiscId(spec_parse_uint(s, u8::MAX as nat).unwrap() as u8)),
        Some(false) => match drive_letter {
            None => None,
            Some(Some(letter)) => Some(SourceView::DriveLetter(letter)),
            Some(None) => match device_name {
                None => None,
                Some(true) => Some(SourceView::DeviceName(s)),
                Some(false) => match kind {
                    PathKind::Directory => Some(SourceView::Directory(s)),
                    PathKind::File => Some(SourceView::IsoFile(s)),
                    PathKind::Missing => None,
                },
            },
        },
    }
}

/// The drive letter that the drive letter pattern captures in `s`, in
/// upper case.
pub open spec fn spec_drive_letter(s: Seq<char>) -> Option<Option<Seq<char>>> {
    match regex_group(DRIVE_LETTER_PATTERN@, s, 1) {
        None => None,
        Some(None) => Some(None),
        Some(Some(letter)) => Some(Some(upper_case(letter))),
    }
}

/// The source that `s` names, where `kind` tells where `s` leads as a
/// path.
pub open spec fn spec_parse_source(s: Seq<char>, kind: PathKind) -> Option<SourceView> {
    spec_classify_source(
        s,
        regex_match(DISC_ID_PATTERN@, s),
        spec_drive_letter(s),
        regex_match(DEVICE_NAME_PATTERN@, s),
        kind,
    )
}

/// A text that the disc id pattern matches reads as a number that fits a
/// `u8` (a digit of another script would not).
pub open spec fn disc_id_readable(s: Seq<char>) -> bool {
    regex_match(DISC_ID_PATTERN@, s) == Some(true) ==> spec_parse_uint(s, u8::MAX as nat) is Some
}

/// The view of a drive letter found by a pattern.
pub open spec fn found_view(f: Option<Option<String>>) -> Option<Option<Seq<char>>> {
    match f {
        None => None,
        Some(None) => Some(None),
        Some(Some(x)) => Some(Some(x@)),
    }
}

/// Decides which source `source` names from what the patterns found in
/// it (see [`spec_classify_source`]).
pub fn classify_source(
    source: &str,
    disc_id: Option<bool>,
    drive_letter: Option<Option<String>>,
    device_name: Option<bool>,
    path_kind: PathKind,
) -> (r: Option<Source>)
    requires
        disc_id == Some(true) ==> spec_parse_uint(source@, u8::MAX as nat) is Some,
    ensures
        opt_source_view(r) == spec_classify_source(source@, disc_id, found_view(drive_letter), device_name, path_kind),
{
    match disc_id {
        None => return None,
        Some(true) => {
            let id = parse_uint(source, u8::MAX as u64).unwrap();
            return Some(Source::DiscId(id as u8));
        },
        Some(false) => {},
    }
    match drive_letter {
        None => return None,
        Some(Some(letter)) => return Some(Source::DriveLetter(letter)),
        Some(None) => {},
    }
    match device_name {
        None => None,
        Some(true) => Some(Source::DeviceName(owned(source))),
        Some(false) => match path_kind {
            PathKind::Directory => Some(Source::Directory(owned(source))),
            PathKind::File => Some(Source::IsoFile(owned(source))),
            PathKind::Missing => None,
        },
    }
}

fn find_drive_letter(source: &str) -> (r: Option<Option<String>>)
    ensures
        found_view(r) == spec_drive_letter(source@),
{
    match regex_capture(DRIVE_LETTER_PATTERN, source, 1) {
        None => None,
        Some(None) => Some(None),
        Some(Some(letter)) => Some(Some(to_upper_case(letter.as_str()))),
    }
}

/// Detects the kind of source that `source` names; `path_kind` tells
/// where `source` leads as a path.
pub fn parse_source(source: &str, path_kind: PathKind) -> (r: Option<Source>)
    requires
        disc_id_readable(source@),
    ensures
        opt_source_view(r) == spec_parse_source(source@, path_kind),
{
    let disc_id = regex_is_match(DISC_ID_PATTERN, source);
    let drive_letter = find_drive_letter(source);
    let device_name = regex_is_match(DEVICE_NAME_PATTERN, source);
    classify_source(source, disc_id, drive_letter, device_name, path_kind)
}

/// Detects the kind of source as `parse_source` does; `None` where the
/// disc id pattern matches a text that does not read as a `u8`.
pub fn try_parse_source(source: &str, path_kind: PathKind) -> (r: Option<Option<Source>>)
    ensures
        r is Some <==> disc_id_readable(source@),
        r matches Some(x) ==> opt_source_view(x) == spec_parse_source(source@, path_kind),
{
    if regex_is_match(DISC_ID_PATTERN, source) == Some(true) && parse_uint(source, u8::MAX as u64).is_none() {
        return None;
    }
    Some(parse_source(source, path_kind))
}

/// How `makemkvcon` names a source: `disc:<id>`, `dev:<letter or
/// device>`, `iso:<file>` or `file:<directory>`.
pub open spec fn source_text(s: SourceView) -> Seq<char> {
    match s {
        SourceView::DiscId(id) => "disc:"@ + spec_decimal(id as nat),
        SourceView::DriveLetter(x) => "dev:"@ + x,
        SourceView::DeviceName(x) => "dev:"@ + x,
        SourceView::IsoFile(x) => "iso:"@ + x,
        SourceView::Directory(x) => "file:"@ + x,
    }
}

impl Source {
    /// The name under which `makemkvcon` takes the source.
    pub fn to_string(&self) -> (r: String)
        ensures
            r@ == source_text(self@),
    {
        let (prefix, rest) = match self {
            Source::DiscId(id) => ("disc:", decimal_string(*id as u64)),
            Source::DriveLetter(x) => ("dev:", x.clone()),
            Source::DeviceName(x) => ("dev:", x.clone()),
            Source::IsoFile(x) => ("iso:", x.clone()),
            Source::Directory(x) => ("file:", x.clone()),
        };
        let mut r = owned(prefix);
        append_str(&mut r, rest.as_str());
        r
    }
}

} // verus!
