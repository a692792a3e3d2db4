//! Line parser for MakeMKV output.
//!
//! Fields are separated by commas and may be quoted with double quotes.
//! Inside quotes a backslash escapes the next character: `\"` gives `"`,
//! `\\` gives `\`, `\n` a newline and `\t` a tab; any other backslash is
//! kept as it is. Outside quotes every character but `,` and `"` is taken
//! literally.

use vstd::prelude::*;
use vstd::utf8::{decode_utf8, valid_utf8};

use crate::text::{chars_of, parse_uint, push_char, spec_parse_uint, strings_view, utf8_str};

verus! {

/// A character that forms an escape sequence after a backslash.
pub open spec fn is_escapable(c: char) -> bool {
    c == '"' || c == '\\' || c == 'n' || c == 't'
}

/// The character that an escape sequence `\c` stands for.
pub open spec fn unescape(c: char) -> char {
    if c == 'n' {
        '\n'
    } else if c == 't' {
        '\t'
    } else {
        c
    }
}

/// The fields of the rest `s` of a line, given the fields completed so
/// far (`done`), the current field's characters (`cur`) and whether the
/// parser is inside quotes.
pub open spec fn fields_from(s: Seq<char>, done: Seq<Seq<char>>, cur: Seq<char>, quoted: bool) -> Seq<
    Seq<char>,
>
    decreases s.len(),
{
    if s.len() == 0 {
        done.push(cur)
    } else if s[0] == '"' {
        fields_from(s.drop_first(), done, cur, !quoted)
    } else if s[0] == '\\' && quoted {
        if s.len() > 1 && is_escapable(s[1]) {
            fields_from(s.subrange(2, s.len() as int), done, cur.push(unescape(s[1])), quoted)
        } else {
            fields_from(s.drop_first(), done, cur.push('\\'), quoted)
        }
    } else if s[0] == ',' && !quoted {
        fields_from(s.drop_first(), done.push(cur), seq![], quoted)
    } else {
        fields_from(s.drop_first(), done, cur.push(s[0]), quoted)
    }
}

/// The fields of a line of MakeMKV output, with escapes processed.
pub open spec fn spec_parse_line(s: Seq<char>) -> Seq<Seq<char>> {
    fields_from(s, seq![], seq![], false)
}

/// Parses a single line of MakeMKV output: the comma-separated fields,
/// with quotes removed and escapes processed. The line must be valid
/// UTF-8.
pub fn parse_line(line: &[u8]) -> (fields: Vec<String>)
    requires
        valid_utf8(line@),
    ensures
        strings_view(fields@) == spec_parse_line(decode_utf8(line@)),
{
    let s = match utf8_str(line) {
        Some(s) => s,
        None => {
            assert(false);
            return Vec::new();
        },
    };
    let chars = chars_of(s);
    let n = chars.len();
    let ghost all = chars@;
    let mut fields: Vec<String> = Vec::new();
    let mut current = String::new();
    let mut in_quotes = false;
    let mut i: usize = 0;
    assert(all.subrange(0, n as int) == all);
    assert(strings_view(fields@) == Seq::<Seq<char>>::empty());
    while i < n
        invariant
            n == chars@.len(),
            all == chars@,
            i <= n,
            fields_from(all.subrange(i as int, n as int), strings_view(fields@), current@, in_quotes)
                == spec_parse_line(all),
        decreases n - i,
    {
        let ghost rest = all.subrange(i as int, n as int);
        let ch = chars[i];
        assert(rest[0] == ch);
        if ch == '"' {
            assert(rest.drop_first() == all.subrange(i + 1, n as int));
            in_quotes = !in_quotes;
            i = i + 1;
        } else if ch == '\\' && in_quotes {
            if i + 1 < n && (chars[i + 1] == '"' || chars[i + 1] == '\\' || chars[i + 1] == 'n'
                || chars[i + 1] == 't') {
                let next = chars[i + 1];
                assert(rest[1] == next);
                assert(rest.subrange(2, rest.len() as int) == all.subrange(i + 2, n as int));
                if next == 'n' {
                    push_char(&mut current, '\n');
                } else if next == 't' {
                    push_char(&mut current, '\t');
                } else {
                    push_char(&mut current, next);
                }
                i = i + 2;
            } else {
                assert(rest.drop_first() == all.subrange(i + 1, n as int));
                push_char(&mut current, ch);
                i = i + 1;
            }
        } else if ch == ',' && !in_quotes {
            assert(rest.drop_first() == all.subrange(i + 1, n as int));
            let ghost before = strings_view(fields@);
            fields.push(current.clone());
            assert(strings_view(fields@) == before.push(current@));
            current = String::new();
            i = i + 1;
        } else {
            assert(rest.drop_first() == all.subrange(i + 1, n as int));
            push_char(&mut current, ch);
            i = i + 1;
        }
    }
    let ghost before = strings_view(fields@);
    assert(all.subrange(n as int, n as int).len() == 0);
    fields.push(current);
    assert(strings_view(fields@) == before.push(current@));
    fields
}


/// A character as it is written inside a quoted field: `"` and `\` get a
/// backslash in front.
pub open spec fn escape_char(c: char) -> Seq<char> {
    if c == '"' || c == '\\' {
        seq!['\\', c]
    } else {
        seq![c]
    }
}

/// A field's characters as they are written inside quotes.
pub open spec fn escape_field(f: Seq<char>) -> Seq<char>
    decreases f.len(),
{
    if f.len() == 0 {
        seq![]
    } else {
        escape_char(f[0]) + escape_field(f.drop_first())
    }
}

/// A field written in quotes, with its quotes and backslashes escaped.
pub open spec fn quote_field(f: Seq<char>) -> Seq<char> {
    seq!['"'] + escape_field(f) + seq!['"']
}

/// Fields written as a line: each quoted, separated by commas.
pub open spec fn join_quoted(fs: Seq<Seq<char>>) -> Seq<char>
    decreases fs.len(),
{
    if fs.len() <= 1 {
        if fs.len() == 0 {
            seq![]
        } else {
            quote_field(fs[0])
        }
    } else {
        quote_field(fs[0]) + seq![','] + join_quoted(fs.drop_first())
    }
}

/// Inside quotes, an escaped field followed by a closing quote adds the
/// field's characters to the current field and leaves the quotes.
pub proof fn lemma_escaped_field(f: Seq<char>, t: Seq<char>, done: Seq<Seq<char>>, cur: Seq<char>)
    ensures
        fields_from(escape_field(f) + seq!['"'] + t, done, cur, true) == fields_from(
            t,
            done,
            cur + f,
            false,
        ),
    decreases f.len(),
{
    let s = escape_field(f) + seq!['"'] + t;
    if f.len() == 0 {
        assert(escape_field(f) == Seq::<char>::empty());
        assert(s.drop_first() == t);
        assert(cur + f == cur);
    } else {
        let c = f[0];
        let rest = f.drop_first();
        lemma_escaped_field(rest, t, done, cur.push(c));
        assert(cur.push(c) + rest == cur + f);
        assert(escape_field(f) == escape_char(c) + escape_field(rest));
        if c == '"' || c == '\\' {
            assert(s == seq!['\\', c] + (escape_field(rest) + seq!['"'] + t));
            assert(s.subrange(2, s.len() as int) == escape_field(rest) + seq!['"'] + t);
        } else {
            assert(s == seq![c] + (escape_field(rest) + seq!['"'] + t));
            assert(s.drop_first() == escape_field(rest) + seq!['"'] + t);
        }
    }
}

/// Quoted fields separated by commas parse back, field by field.
pub proof fn lemma_join_quoted(fs: Seq<Seq<char>>, done: Seq<Seq<char>>)
    requires
        fs.len() >= 1,
    ensures
        fields_from(join_quoted(fs), done, seq![], false) == done + fs,
    decreases fs.len(),
{
    let f = fs[0];
    if fs.len() == 1 {
        let s = quote_field(f);
        lemma_escaped_field(f, seq![], done, seq![]);
        assert(s.drop_first() == escape_field(f) + seq!['"'] + Seq::<char>::empty());
        assert(Seq::<char>::empty() + f == f);
        assert(done.push(f) == done + fs);
    } else {
        let rest = fs.drop_first();
        let t = seq![','] + join_quoted(rest);
        let s = join_quoted(fs);
        assert(s == seq!['"'] + (escape_field(f) + seq!['"'] + t));
        assert(s.drop_first() == escape_field(f) + seq!['"'] + t);
        lemma_escaped_field(f, t, done, seq![]);
        assert(Seq::<char>::empty() + f == f);
        assert(t.drop_first() == join_quoted(rest));
        lemma_join_quoted(rest, done.push(f));
        assert(done.push(f) + rest == done + fs);
    }
}

/// Writing fields in quotes, escaping `"` and `\`, and separating them
/// with commas gives a line that the parser reads back as the same
/// fields.
pub proof fn law_quoted_fields_round_trip(fs: Seq<Seq<char>>)
    requires
        fs.len() >= 1,
    ensures
        spec_parse_line(join_quoted(fs)) == fs,
{
    lemma_join_quoted(fs, seq![]);
    assert(Seq::<Seq<char>>::empty() + fs == fs);
}


/// A field that can be written without quotes: it holds no comma and no
/// double quote.
pub open spec fn is_plain_field(f: Seq<char>) -> bool {
    forall|i: int| 0 <= i < f.len() ==> #[trigger] f[i] != ',' && f[i] != '"'
}

/// Fields written as they are, separated by commas.
pub open spec fn join_plain(fs: Seq<Seq<char>>) -> Seq<char>
    decreases fs.len(),
{
    if fs.len() <= 1 {
        if fs.len() == 0 {
            seq![]
        } else {
            fs[0]
        }
    } else {
        fs[0] + seq![','] + join_plain(fs.drop_first())
    }
}

/// Outside quotes, a plain field's characters are taken as they are.
pub proof fn lemma_plain_field(f: Seq<char>, t: Seq<char>, done: Seq<Seq<char>>, cur: Seq<char>)
    requires
        is_plain_field(f),
    ensures
        fields_from(f + t, done, cur, false) == fields_from(t, done, cur + f, false),
    decreases f.len(),
{
    if f.len() == 0 {
        assert(f + t == t);
        assert(cur + f == cur);
    } else {
        let rest = f.drop_first();
        assert(f[0] != ',' && f[0] != '"');
        assert(is_plain_field(rest)) by {
            assert forall|i: int| 0 <= i < rest.len() implies #[trigger] rest[i] != ',' && rest[i]
                != '"' by {
                assert(rest[i] == f[i + 1]);
            }
        }
        lemma_plain_field(rest, t, done, cur.push(f[0]));
        assert((f + t).drop_first() == rest + t);
        assert(cur.push(f[0]) + rest == cur + f);
    }
}

/// Plain fields separated by commas parse back, field by field.
pub proof fn lemma_join_plain(fs: Seq<Seq<char>>, done: Seq<Seq<char>>)
    requires
        fs.len() >= 1,
        forall|k: int| 0 <= k < fs.len() ==> is_plain_field(#[trigger] fs[k]),
    ensures
        fields_from(join_plain(fs), done, seq![], false) == done + fs,
    decreases fs.len(),
{
    let f = fs[0];
    assert(is_plain_field(fs[0]));
    if fs.len() == 1 {
        lemma_plain_field(f, seq![], done, seq![]);
        assert(f + Seq::<char>::empty() == f);
        assert(Seq::<char>::empty() + f == f);
        assert(done.push(f) == done + fs);
    } else {
        let rest = fs.drop_first();
        let t = seq![','] + join_plain(rest);
        assert(join_plain(fs) == f + t);
        lemma_plain_field(f, t, done, seq![]);
        assert(Seq::<char>::empty() + f == f);
        assert(t.drop_first() == join_plain(rest));
        assert forall|k: int| 0 <= k < rest.len() implies is_plain_field(#[trigger] rest[k]) by {
            assert(rest[k] == fs[k + 1]);
        }
        lemma_join_plain(rest, done.push(f));
        assert(done.push(f) + rest == done + fs);
    }
}

/// Fields without commas and double quotes, written as they are and
/// separated by commas, parse back as the same fields (a backslash outside
/// quotes is an ordinary character).
pub proof fn law_plain_fields_round_trip(fs: Seq<Seq<char>>)
    requires
        fs.len() >= 1,
        forall|k: int| 0 <= k < fs.len() ==> is_plain_field(#[trigger] fs[k]),
    ensures
        spec_parse_line(join_plain(fs)) == fs,
{
    lemma_join_plain(fs, seq![]);
    assert(Seq::<Seq<char>>::empty() + fs == fs);
}


/// The fields of a record's data, as `parse_line` reads them.
pub open spec fn line_fields(data: Seq<u8>) -> Seq<Seq<char>> {
    spec_parse_line(decode_utf8(data))
}

/// Field `i` exists and reads as an unsigned number no larger than `max`.
pub open spec fn is_uint_field(f: Seq<Seq<char>>, i: int, max: nat) -> bool {
    0 <= i < f.len() && spec_parse_uint(f[i], max) is Some
}

/// The number in field `i` (meaningful where `is_uint_field` holds).
pub open spec fn uint_field(f: Seq<Seq<char>>, i: int, max: nat) -> nat {
    spec_parse_uint(f[i], max).unwrap()
}

/// Reads field `i` as a `u32` (`str::parse::<u32>`).
pub fn field_u32(fields: &Vec<String>, i: usize) -> (r: u32)
    requires
        is_uint_field(strings_view(fields@), i as int, u32::MAX as nat),
    ensures
        r as nat == uint_field(strings_view(fields@), i as int, u32::MAX as nat),
{
    assert(strings_view(fields@)[i as int] == fields@[i as int]@);
    parse_uint(fields[i].as_str(), u32::MAX as u64).unwrap() as u32
}

/// Reads field `i` as a `usize` (`str::parse::<usize>`).
pub fn field_usize(fields: &Vec<String>, i: usize) -> (r: usize)
    requires
        is_uint_field(strings_view(fields@), i as int, usize::MAX as nat),
    ensures
        r as nat == uint_field(strings_view(fields@), i as int, usize::MAX as nat),
{
    assert(strings_view(fields@)[i as int] == fields@[i as int]@);
    parse_uint(fields[i].as_str(), usize::MAX as u64).unwrap() as usize
}

/// Reads field `i` as a `u8` (`str::parse::<u8>`).
pub fn field_u8(fields: &Vec<String>, i: usize) -> (r: u8)
    requires
        is_uint_field(strings_view(fields@), i as int, u8::MAX as nat),
    ensures
        r as nat == uint_field(strings_view(fields@), i as int, u8::MAX as nat),
{
    assert(strings_view(fields@)[i as int] == fields@[i as int]@);
    parse_uint(fields[i].as_str(), u8::MAX as u64).unwrap() as u8
}

/// Whether field `i` exists and reads as a `u32`.
pub fn check_u32_field(fields: &Vec<String>, i: usize) -> (r: bool)
    ensures
        r == is_uint_field(strings_view(fields@), i as int, u32::MAX as nat),
{
    if i >= fields.len() {
        return false;
    }
    assert(strings_view(fields@)[i as int] == fields@[i as int]@);
    parse_uint(fields[i].as_str(), u32::MAX as u64).is_some()
}

/// Whether field `i` exists and reads as a `usize`.
pub fn check_usize_field(fields: &Vec<String>, i: usize) -> (r: bool)
    ensures
        r == is_uint_field(strings_view(fields@), i as int, usize::MAX as nat),
{
    if i >= fields.len() {
        return false;
    }
    assert(strings_view(fields@)[i as int] == fields@[i as int]@);
    parse_uint(fields[i].as_str(), usize::MAX as u64).is_some()
}

/// Whether field `i` exists and reads as a `u8`.
pub fn check_u8_field(fields: &Vec<String>, i: usize) -> (r: bool)
    ensures
        r == is_uint_field(strings_view(fields@), i as int, u8::MAX as nat),
{
    if i >= fields.len() {
        return false;
    }
    assert(strings_view(fields@)[i as int] == fields@[i as int]@);
    parse_uint(fields[i].as_str(), u8::MAX as u64).is_some()
}

/// A copy of field `i`.
pub fn field_string(fields: &Vec<String>, i: usize) -> (r: String)
    requires
        i < fields@.len(),
    ensures
        r@ == strings_view(fields@)[i as int],
{
    fields[i].clone()
}

} // verus!
