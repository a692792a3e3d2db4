//! Helpers of the command line program: formatting durations, shortening
//! texts, tidying paths, and choosing which log records to show.

use vstd::prelude::*;
use vstd::string::*;
use vstd::utf8::{decode_utf8, encode_utf8, is_char_boundary};

use crate::text::{
    append_str, chars_of, decimal_string, has_prefix, owned, push_char, spec_decimal, starts_with, string_from_chars,
    strings_view,
};

verus! {

/// A number with at least two digits: a leading zero below ten.
pub open spec fn two_digits(n: nat) -> Seq<char> {
    if n < 10 {
        "0"@ + spec_decimal(n)
    } else {
        spec_decimal(n)
    }
}

fn push_two_digits(s: &mut String, n: u64)
    ensures
        final(s)@ == old(s)@ + two_digits(n as nat),
{
    if n < 10 {
        append_str(s, "0");
    }
    let d = decimal_string(n);
    append_str(s, d.as_str());
}

/// A time given in seconds as `HH:MM:SS`: hours, minutes and seconds of
/// at least two digits each.
pub open spec fn spec_format_time(secs: nat) -> Seq<char> {
    two_digits(secs / 3600) + ":"@ + two_digits((secs % 3600) / 60) + ":"@ + two_digits(secs % 60)
}

/// Formats a time given in seconds as `HH:MM:SS`.
pub fn format_time(secs: u64) -> (r: String)
    ensures
        r@ == spec_format_time(secs as nat),
{
    let mut r = String::new();
    push_two_digits(&mut r, secs / 3600);
    append_str(&mut r, ":");
    push_two_digits(&mut r, (secs % 3600) / 60);
    append_str(&mut r, ":");
    push_two_digits(&mut r, secs % 60);
    r
}

/// A time given in seconds with units: `1h 2m 3s` from an hour on,
/// `1m 5s` from a minute on, else `4s`.
pub open spec fn spec_format_time_with_units(secs: nat) -> Seq<char> {
    if secs >= 3600 {
        spec_decimal(secs / 3600) + "h "@ + spec_decimal((secs % 3600) / 60) + "m "@ + spec_decimal(secs % 60) + "s"@
    } else if secs >= 60 {
        spec_decimal(secs / 60) + "m "@ + spec_decimal(secs % 60) + "s"@
    } else {
        spec_decimal(secs) + "s"@
    }
}

/// Formats a time given in seconds with units.
pub fn format_time_with_units(secs: u64) -> (r: String)
    ensures
        r@ == spec_format_time_with_units(secs as nat),
{
    let mut r = String::new();
    if secs >= 3600 {
        append_str(&mut r, decimal_string(secs / 3600).as_str());
        append_str(&mut r, "h ");
        append_str(&mut r, decimal_string((secs % 3600) / 60).as_str());
        append_str(&mut r, "m ");
        append_str(&mut r, decimal_string(secs % 60).as_str());
        append_str(&mut r, "s");
    } else if secs >= 60 {
        append_str(&mut r, decimal_string(secs / 60).as_str());
        append_str(&mut r, "m ");
        append_str(&mut r, decimal_string(secs % 60).as_str());
        append_str(&mut r, "s");
    } else {
        append_str(&mut r, decimal_string(secs).as_str());
        append_str(&mut r, "s");
    }
    r
}

/// `truncate_string` cuts a long text at a character boundary: where the
/// text is longer than `max_len` bytes (and `max_len` leaves room for the
/// ellipsis), its first `max_len - 1` bytes end a character.
pub open spec fn truncation_at_boundary(s: Seq<char>, max_len: usize) -> bool {
    max_len >= 2 && encode_utf8(s).len() > max_len ==> is_char_boundary(encode_utf8(s), max_len - 1)
}

/// Shortens a text to at most `max_len` bytes with an ellipsis: below two
/// the first `max_len` characters; a text longer than `max_len` bytes
/// keeps its first `max_len - 1` bytes and gains `…`; a shorter one stays
/// as it is.
pub fn truncate_string(s: &str, max_len: usize) -> (r: String)
    requires
        truncation_at_boundary(s@, max_len),
    ensures
        max_len < 2 ==> r@ == s@.take(if max_len <= s@.len() { max_len as int } else { s@.len() as int }),
        max_len >= 2 && encode_utf8(s@).len() > max_len ==> r@ == decode_utf8(
            encode_utf8(s@).subrange(0, max_len - 1),
        ) + "…"@,
        max_len >= 2 && encode_utf8(s@).len() <= max_len ==> r@ == s@,
{
    if max_len < 2 {
        let chars = chars_of(s);
        let n = if max_len <= chars.len() { max_len } else { chars.len() };
        let head = vstd::slice::slice_subrange(chars.as_slice(), 0, n);
        let r = string_from_chars(head);
        assert(r@ =~= s@.take(n as int));
        r
    } else if s.as_bytes().len() > max_len {
        let (head, _) = s.split_at(max_len - 1);
        let mut r = owned(head);
        append_str(&mut r, "…");
        proof {
            assert(encode_utf8(head@) =~= encode_utf8(s@).subrange(0, max_len - 1));
            vstd::utf8::encode_utf8_decode_utf8(head@);
            assert(decode_utf8(encode_utf8(s@).subrange(0, max_len - 1)) == head@);
        }
        assert(r@ == head@ + "…"@);
        assert(r@ == decode_utf8(encode_utf8(s@).subrange(0, max_len - 1)) + "…"@);
        r
    } else {
        owned(s)
    }
}

/// Whether a path character separates components (`/` or `\`).
pub open spec fn is_separator(c: char) -> bool {
    c == '/' || c == '\\'
}

/// The number of characters of `s` before its trailing separators.
pub open spec fn trimmed_len(s: Seq<char>) -> nat
    decreases s.len(),
{
    if s.len() > 0 && is_separator(s.last()) {
        trimmed_len(s.drop_last())
    } else {
        s.len()
    }
}

/// A path without its trailing separators.
pub fn normalize_path(value: &str) -> (r: String)
    ensures
        r@ == value@.take(trimmed_len(value@) as int),
{
    let chars = chars_of(value);
    let mut n = chars.len();
    assert(value@.take(n as int) =~= value@);
    while n > 0 && (chars[n - 1] == '/' || chars[n - 1] == '\\')
        invariant
            n <= chars@.len(),
            chars@ == value@,
            trimmed_len(value@) == trimmed_len(value@.take(n as int)),
        decreases n,
    {
        assert(value@.take(n as int).drop_last() =~= value@.take(n - 1));
        n = n - 1;
    }
    proof {
        if n > 0 {
            assert(value@.take(n as int).last() == chars@[n - 1]);
        }
    }
    let head = vstd::slice::slice_subrange(chars.as_slice(), 0, n);
    let r = string_from_chars(head);
    assert(r@ =~= value@.take(n as int));
    r
}

/// The level of a log record, from the most severe.
#[derive(Clone, Copy, Debug, PartialEq, Eq, Structural)]
pub enum Level {
    Error,
    Warn,
    Info,
    Debug,
    Trace,
}

/// A module of this program: the command line program (`ripit_cli`), its
/// backup command (`cmd_unshackle`) or the `ripit` library.
pub open spec fn program_module(module: Seq<char>) -> bool {
    has_prefix(module, "ripit_cli"@) || has_prefix(module, "cmd_unshackle"@) || has_prefix(module, "ripit"@)
}

/// Whether a log record of `module` at `level` is shown by default: the
/// modules of this program show information, warnings and errors; every
/// other module shows warnings and errors only.
pub fn should_show_message(module: &str, level: Level) -> (r: bool)
    ensures
        r == (level == Level::Error || level == Level::Warn || (level == Level::Info && program_module(module@))),
{
    match level {
        Level::Error | Level::Warn => true,
        Level::Info => starts_with(module, "ripit_cli") || starts_with(module, "cmd_unshackle") || starts_with(
            module,
            "ripit",
        ),
        _ => false,
    }
}

/// What becomes of a target directory that exists already.
#[derive(Clone, Copy, Debug, PartialEq, Eq, Structural)]
pub enum DirectoryVerdict {
    /// The path is not a directory: it is left alone.
    NotADirectory,
    /// Some entries cannot be read: the directory is left alone.
    Refuse,
    /// It holds more than MKV files: it is deleted only with consent.
    Confirm,
    /// It holds MKV files only, or nothing: it is deleted.
    Delete,
}

/// Decides what becomes of an existing target from whether it is a
/// directory, how many of its entries are not MKV files (`other`) and
/// how many cannot be read (`unreadable`).
pub fn directory_verdict(is_dir: bool, other: usize, unreadable: usize) -> (r: DirectoryVerdict)
    ensures
        !is_dir ==> r == DirectoryVerdict::NotADirectory,
        is_dir && unreadable > 0 ==> r == DirectoryVerdict::Refuse,
        is_dir && unreadable == 0 && other > 0 ==> r == DirectoryVerdict::Confirm,
        is_dir && unreadable == 0 && other == 0 ==> r == DirectoryVerdict::Delete,
{
    if !is_dir {
        DirectoryVerdict::NotADirectory
    } else if unreadable > 0 {
        DirectoryVerdict::Refuse
    } else if other > 0 {
        DirectoryVerdict::Confirm
    } else {
        DirectoryVerdict::Delete
    }
}

/// The titles to extract, as `makemkvcon mkv` names them: each selected
/// title by its number, or `all` where none is selected.
pub open spec fn spec_title_names(titles: Seq<usize>) -> Seq<Seq<char>> {
    if titles.len() == 0 {
        seq!["all"@]
    } else {
        titles.map_values(|t: usize| spec_decimal(t as nat))
    }
}

/// Names the titles to extract.
pub fn title_names(titles: &Vec<usize>) -> (r: Vec<String>)
    ensures
        strings_view(r@) == spec_title_names(titles@),
{
    let mut r: Vec<String> = Vec::new();
    if titles.len() == 0 {
        r.push(owned("all"));
        assert(strings_view(r@) =~= seq!["all"@]);
        return r;
    }
    let mut i: usize = 0;
    while i < titles.len()
        invariant
            i <= titles@.len(),
            strings_view(r@) == titles@.take(i as int).map_values(|t: usize| spec_decimal(t as nat)),
        decreases titles@.len() - i,
    {
        let ghost before = strings_view(r@);
        r.push(decimal_string(titles[i] as u64));
        assert(titles@.take(i + 1).map_values(|t: usize| spec_decimal(t as nat)) =~= before.push(
            spec_decimal(titles@[i as int] as nat),
        ));
        assert(strings_view(r@) =~= before.push(spec_decimal(titles@[i as int] as nat)));
        i = i + 1;
    }
    assert(titles@.take(i as int) =~= titles@);
    r
}

/// The parts joined with commas in between.
pub open spec fn spec_join_commas(parts: Seq<Seq<char>>) -> Seq<char>
    decreases parts.len(),
{
    if parts.len() == 0 {
        Seq::empty()
    } else if parts.len() == 1 {
        parts[0]
    } else {
        spec_join_commas(parts.drop_last()) + seq![','] + parts.last()
    }
}

/// Joins the parts with commas in between.
pub fn join_commas(parts: &Vec<String>) -> (r: String)
    ensures
        r@ == spec_join_commas(strings_view(parts@)),
{
    let ghost all = strings_view(parts@);
    let mut r = String::new();
    let mut i: usize = 0;
    while i < parts.len()
        invariant
            all == strings_view(parts@),
            i <= parts@.len(),
            r@ == spec_join_commas(all.take(i as int)),
        decreases parts@.len() - i,
    {
        let ghost before = r@;
        if i > 0 {
            push_char(&mut r, ',');
        }
        append_str(&mut r, parts[i].as_str());
        proof {
            assert(all.take(i + 1).drop_last() =~= all.take(i as int));
            assert(all.take(i + 1).last() == parts@[i as int]@);
            if i == 0 {
                assert(r@ =~= parts@[0]@);
            } else {
                assert(r@ =~= before + seq![','] + parts@[i as int]@);
            }
        }
        i = i + 1;
    }
    assert(all.take(i as int) =~= all);
    r
}

} // verus!
