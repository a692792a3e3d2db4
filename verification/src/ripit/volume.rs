//! A name for a disc that is unique enough to tell discs apart: generic
//! volume names such as "DVDVolume" or "LOGICAL_VOLUME_ID" gain an id of
//! the disc, e.g. "DVDVolume_29615A81".

use vstd::prelude::*;

use crate::text::{append_str, chars_of, owned, parse_usize, push_char, spec_parse_usize, str_eq, string_from_chars};

verus! {

/// What Windows reports of a volume (`GetVolumeInformationW`).
#[derive(Clone, Debug, PartialEq)]
pub struct VolumeInfo {
    pub volume_name: String,
    /// the serial number in upper-case hexadecimal
    pub volume_serial: String,
    pub max_component_length: u32,
    pub filesystem_flags: u32,
    pub filesystem_name: String,
}

/// What Linux reports of a block device (`blkid --output=export`).
#[derive(Clone, Debug, PartialEq)]
pub struct BlockId {
    /// e.g. /dev/sr0
    pub dev_name: String,
    /// e.g. bf457f1a20202020
    pub uuid: String,
    /// e.g. DVDVolume
    pub label: String,
    /// e.g. 2048
    pub block_size: usize,
    /// e.g. udf
    pub fs_type: String,
}

/// What the operating system reported of the volume in a drive.
#[derive(Clone, Debug, PartialEq)]
pub enum VolumeProbe {
    Linux(Option<BlockId>),
    Windows(Option<VolumeInfo>),
    /// a system without a way to ask
    Other,
}

/// The id of a volume: `<label>_<uuid>` on Linux, `<name>_<serial>` on
/// Windows; none where the system reported nothing.
pub open spec fn spec_volume_id(probe: VolumeProbe) -> Option<Seq<char>> {
    match probe {
        VolumeProbe::Linux(Some(b)) => Some(b.label@ + "_"@ + b.uuid@),
        VolumeProbe::Windows(Some(v)) => Some(v.volume_name@ + "_"@ + v.volume_serial@),
        _ => None,
    }
}

/// The id of the volume that `probe` describes.
pub fn get_volume_id(probe: &VolumeProbe) -> (r: Option<String>)
    ensures
        match r {
            Some(s) => spec_volume_id(*probe) == Some(s@),
            None => spec_volume_id(*probe) is None,
        },
{
    let (name, id) = match probe {
        VolumeProbe::Linux(Some(b)) => (&b.label, &b.uuid),
        VolumeProbe::Windows(Some(v)) => (&v.volume_name, &v.volume_serial),
        _ => return None,
    };
    let mut r = owned(name.as_str());
    append_str(&mut r, "_");
    append_str(&mut r, id.as_str());
    Some(r)
}


/// The lines of a text as `str::lines` gives them: split at `\n`, each
/// without one trailing `\r`, and without the empty remainder after a
/// final `\n`.
pub open spec fn text_lines(s: Seq<char>) -> Seq<Seq<char>> {
    lines_from(s, Seq::empty(), Seq::empty())
}

/// A line without one trailing `\r`.
pub open spec fn strip_cr(l: Seq<char>) -> Seq<char> {
    if l.len() > 0 && l.last() == '\r' {
        l.drop_last()
    } else {
        l
    }
}

/// The lines of `s` after the finished lines `done` and the line
/// `current` that `s` continues.
pub open spec fn lines_from(s: Seq<char>, current: Seq<char>, done: Seq<Seq<char>>) -> Seq<Seq<char>>
    decreases s.len(),
{
    if s.len() == 0 {
        if current.len() == 0 {
            done
        } else {
            done.push(strip_cr(current))
        }
    } else if s[0] == '\n' {
        lines_from(s.drop_first(), Seq::empty(), done.push(strip_cr(current)))
    } else {
        lines_from(s.drop_first(), current.push(s[0]), done)
    }
}

/// The fields of `blkid --output=export` found so far.
pub struct BlkidFields {
    pub dev_name: Option<Seq<char>>,
    pub uuid: Option<Seq<char>>,
    pub label: Option<Seq<char>>,
    pub block_size: Option<usize>,
    pub fs_type: Option<Seq<char>>,
}

/// `s` with every `\ ` (an escaped space) replaced by a space.
pub open spec fn unescape_spaces(s: Seq<char>) -> Seq<char>
    decreases s.len(),
{
    if s.len() >= 2 && s[0] == '\\' && s[1] == ' ' {
        seq![' '] + unescape_spaces(s.subrange(2, s.len() as int))
    } else if s.len() > 0 {
        seq![s[0]] + unescape_spaces(s.drop_first())
    } else {
        s
    }
}

/// The position of the first `=` in a line, if any.
pub open spec fn first_equals(l: Seq<char>) -> Option<int> {
    if exists|i: int| 0 <= i < l.len() && l[i] == '=' {
        Some(choose|i: int| 0 <= i < l.len() && l[i] == '=' && forall|j: int| 0 <= j < i ==> l[j] != '=')
    } else {
        None
    }
}

/// The fields after one more line `KEY=value` (split at the first `=`):
/// `DEVNAME`, `UUID`, `LABEL` (with escaped spaces restored), `BLOCK_SIZE`
/// (a number, else unset) and `TYPE` take the value; other lines change
/// nothing.
pub open spec fn blkid_line(f: BlkidFields, l: Seq<char>) -> BlkidFields {
    match first_equals(l) {
        None => f,
        Some(i) => {
            let key = l.subrange(0, i);
            let value = l.subrange(i + 1, l.len() as int);
            if key == "DEVNAME"@ {
                BlkidFields { dev_name: Some(value), ..f }
            } else if key == "UUID"@ {
                BlkidFields { uuid: Some(value), ..f }
            } else if key == "LABEL"@ {
                BlkidFields { label: Some(unescape_spaces(value)), ..f }
            } else if key == "BLOCK_SIZE"@ {
                BlkidFields { block_size: spec_parse_usize(value), ..f }
            } else if key == "TYPE"@ {
                BlkidFields { fs_type: Some(value), ..f }
            } else {
                f
            }
        },
    }
}

/// The fields after the remaining `lines`.
pub open spec fn blkid_fields(lines: Seq<Seq<char>>, f: BlkidFields) -> BlkidFields
    decreases lines.len(),
{
    if lines.len() == 0 {
        f
    } else {
        blkid_fields(lines.drop_first(), blkid_line(f, lines[0]))
    }
}

/// No field set.
pub open spec fn no_blkid_fields() -> BlkidFields {
    BlkidFields { dev_name: None, uuid: None, label: None, block_size: None, fs_type: None }
}

/// The block device that `blkid --output=export` describes: every field
/// must be given, the last line of a key counting.
pub open spec fn spec_parse_blkid(s: Seq<char>) -> Option<(Seq<char>, Seq<char>, Seq<char>, usize, Seq<char>)> {
    let f = blkid_fields(text_lines(s), no_blkid_fields());
    if f.dev_name is Some && f.uuid is Some && f.label is Some && f.block_size is Some && f.fs_type is Some {
        Some((f.dev_name.unwrap(), f.uuid.unwrap(), f.label.unwrap(), f.block_size.unwrap(), f.fs_type.unwrap()))
    } else {
        None
    }
}

fn text_lines_of(s: &str) -> (r: Vec<Vec<char>>)
    ensures
        r@.map_values(|l: Vec<char>| l@) == text_lines(s@),
{
    let chars = chars_of(s);
    let mut done: Vec<Vec<char>> = Vec::new();
    let mut current: Vec<char> = Vec::new();
    let mut i: usize = 0;
    assert(s@.subrange(0, s@.len() as int) =~= s@);
    assert(done@.map_values(|l: Vec<char>| l@) =~= Seq::<Seq<char>>::empty());
    while i < chars.len()
        invariant
            chars@ == s@,
            i <= chars@.len(),
            lines_from(s@.subrange(i as int, s@.len() as int), current@, done@.map_values(|l: Vec<char>| l@))
                == text_lines(s@),
        decreases chars@.len() - i,
    {
        let ghost rest = s@.subrange(i as int, s@.len() as int);
        assert(rest[0] == chars@[i as int]);
        assert(rest.drop_first() =~= s@.subrange(i + 1, s@.len() as int));
        if chars[i] == '\n' {
            let ghost before = done@.map_values(|l: Vec<char>| l@);
            let line = strip_cr_of(current);
            current = Vec::new();
            done.push(line);
            assert(done@.map_values(|l: Vec<char>| l@) =~= before.push(line@));
        } else {
            current.push(chars[i]);
        }
        i = i + 1;
    }
    assert(s@.subrange(i as int, s@.len() as int) =~= Seq::<char>::empty());
    if current.len() > 0 {
        let ghost before = done@.map_values(|l: Vec<char>| l@);
        let line = strip_cr_of(current);
        done.push(line);
        assert(done@.map_values(|l: Vec<char>| l@) =~= before.push(line@));
    }
    done
}

fn strip_cr_of(l: Vec<char>) -> (r: Vec<char>)
    ensures
        r@ == strip_cr(l@),
{
    let mut l = l;
    if l.len() > 0 && l[l.len() - 1] == '\r' {
        l.pop();
    }
    l
}

fn unescape_spaces_of(v: &[char]) -> (r: String)
    ensures
        r@ == unescape_spaces(v@),
{
    let mut r = String::new();
    let mut i: usize = 0;
    assert(v@.subrange(0, v@.len() as int) =~= v@);
    assert(r@ + unescape_spaces(v@) =~= unescape_spaces(v@));
    while i < v.len()
        invariant
            i <= v@.len(),
            r@ + unescape_spaces(v@.subrange(i as int, v@.len() as int)) == unescape_spaces(v@),
        decreases v@.len() - i,
    {
        let ghost rest = v@.subrange(i as int, v@.len() as int);
        if i + 1 < v.len() && v[i] == '\\' && v[i + 1] == ' ' {
            assert(rest.subrange(2, rest.len() as int) =~= v@.subrange(i + 2, v@.len() as int));
            push_char(&mut r, ' ');
            i = i + 2;
        } else {
            assert(rest.drop_first() =~= v@.subrange(i + 1, v@.len() as int));
            push_char(&mut r, v[i]);
            i = i + 1;
        }
    }
    assert(unescape_spaces(v@.subrange(i as int, v@.len() as int)) =~= Seq::<char>::empty());
    r
}

/// The fields found so far, as owned values.
struct Fields {
    dev_name: Option<String>,
    uuid: Option<String>,
    label: Option<String>,
    block_size: Option<usize>,
    fs_type: Option<String>,
}

spec fn fields_view(f: Fields) -> BlkidFields {
    BlkidFields {
        dev_name: crate::text::opt_string_view(f.dev_name),
        uuid: crate::text::opt_string_view(f.uuid),
        label: crate::text::opt_string_view(f.label),
        block_size: f.block_size,
        fs_type: crate::text::opt_string_view(f.fs_type),
    }
}

fn apply_blkid_line(f: &mut Fields, l: &Vec<char>)
    ensures
        fields_view(*final(f)) == blkid_line(fields_view(*old(f)), l@),
{
    let mut i: usize = 0;
    while i < l.len() && l[i] != '='
        invariant
            i <= l@.len(),
            forall|j: int| 0 <= j < i ==> l@[j] != '=',
        decreases l@.len() - i,
    {
        i = i + 1;
    }
    if i == l.len() {
        assert(first_equals(l@) is None);
        return;
    }
    proof {
        let k = choose|k: int| 0 <= k < l@.len() && l@[k] == '=' && forall|j: int| 0 <= j < k ==> l@[j] != '=';
        assert(l@[i as int] == '=');
        if k < i {
            assert(l@[k] != '=');
        }
        if k > i {
            assert(l@[i as int] != '=');
        }
        assert(first_equals(l@) == Some(i as int));
    }
    let key = string_from_chars(vstd::slice::slice_subrange(l.as_slice(), 0, i));
    let value_chars = vstd::slice::slice_subrange(l.as_slice(), i + 1, l.len());
    let value = string_from_chars(value_chars);
    if str_eq(key.as_str(), "DEVNAME") {
        f.dev_name = Some(value);
    } else if str_eq(key.as_str(), "UUID") {
        f.uuid = Some(value);
    } else if str_eq(key.as_str(), "LABEL") {
        f.label = Some(unescape_spaces_of(value_chars));
    } else if str_eq(key.as_str(), "BLOCK_SIZE") {
        f.block_size = parse_usize(value.as_str());
    } else if str_eq(key.as_str(), "TYPE") {
        f.fs_type = Some(value);
    }
}

/// Reads the output of `blkid --output=export`: the device name, UUID,
/// label, block size and file system type, each required.
pub fn parse_blkid_output(output: &str) -> (r: Option<BlockId>)
    ensures
        match r {
            Some(b) => spec_parse_blkid(output@) == Some(
                (b.dev_name@, b.uuid@, b.label@, b.block_size, b.fs_type@),
            ),
            None => spec_parse_blkid(output@) is None,
        },
{
    let lines = text_lines_of(output);
    let ghost all = lines@.map_values(|l: Vec<char>| l@);
    let mut f = Fields { dev_name: None, uuid: None, label: None, block_size: None, fs_type: None };
    let mut i: usize = 0;
    assert(all.subrange(0, all.len() as int) =~= all);
    while i < lines.len()
        invariant
            all == lines@.map_values(|l: Vec<char>| l@),
            all == text_lines(output@),
            i <= lines@.len(),
            blkid_fields(all.subrange(i as int, all.len() as int), fields_view(f)) == blkid_fields(
                all,
                no_blkid_fields(),
            ),
        decreases lines@.len() - i,
    {
        let ghost rest = all.subrange(i as int, all.len() as int);
        assert(rest[0] == lines@[i as int]@);
        assert(rest.drop_first() =~= all.subrange(i + 1, all.len() as int));
        apply_blkid_line(&mut f, &lines[i]);
        i = i + 1;
    }
    assert(all.subrange(i as int, all.len() as int) =~= Seq::<Seq<char>>::empty());
    match (f.dev_name, f.uuid, f.label, f.block_size, f.fs_type) {
        (Some(dev_name), Some(uuid), Some(label), Some(block_size), Some(fs_type)) => Some(
            BlockId { dev_name, uuid, label, block_size, fs_type },
        ),
        _ => None,
    }
}
} // verus!
