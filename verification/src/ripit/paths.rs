//! Paths of devices, compared the way paths are: component by component,
//! with the separators and drive prefixes of the operating system.

use vstd::prelude::*;

use crate::ripit::drives::{lemma_text_asymmetric, lemma_text_irreflexive, lemma_text_total, lemma_text_transitive, str_less, text_less};
use crate::ripit::optical_drive::OperatingSystem;
use crate::text::{chars_of, push_char, split_char, split_char_spec, str_eq, strings_view};

verus! {

/// A component of a path (`std::path::Component`), a drive prefix by the
/// code of its upper-case letter.
pub enum PathComponentView {
    Prefix(u32),
    RootDir,
    CurDir,
    ParentDir,
    Normal(Seq<char>),
}

/// A component of a path.
#[derive(Debug)]
pub enum PathPart {
    Prefix(u32),
    RootDir,
    CurDir,
    ParentDir,
    Normal(String),
}

impl View for PathPart {
    type V = PathComponentView;

    open spec fn view(&self) -> PathComponentView {
        match self {
            PathPart::Prefix(c) => PathComponentView::Prefix(*c),
            PathPart::RootDir => PathComponentView::RootDir,
            PathPart::CurDir => PathComponentView::CurDir,
            PathPart::ParentDir => PathComponentView::ParentDir,
            PathPart::Normal(s) => PathComponentView::Normal(s@),
        }
    }
}

/// The views of a sequence of components.
pub open spec fn parts_view(v: Seq<PathPart>) -> Seq<PathComponentView> {
    v.map_values(|p: PathPart| p@)
}

/// A separator of paths: `/`, and on Windows `\` too.
pub open spec fn is_path_separator(os: OperatingSystem, c: char) -> bool {
    c == '/' || (os == OperatingSystem::Windows && c == '\\')
}

/// An ASCII letter.
pub open spec fn is_ascii_letter(c: char) -> bool {
    ('a' <= c && c <= 'z') || ('A' <= c && c <= 'Z')
}

/// The code of a drive letter in upper case.
pub open spec fn drive_letter_code(c: char) -> u32 {
    if 'a' <= c && c <= 'z' {
        (c as u32 - 32) as u32
    } else {
        c as u32
    }
}

/// On Windows a path that begins with a letter and a colon has a drive
/// prefix.
pub open spec fn has_disk_prefix(os: OperatingSystem, s: Seq<char>) -> bool {
    os == OperatingSystem::Windows && s.len() >= 2 && is_ascii_letter(s[0]) && s[1] == ':'
}

/// The path after its drive prefix.
pub open spec fn path_rest(os: OperatingSystem, s: Seq<char>) -> Seq<char> {
    if has_disk_prefix(os, s) {
        s.skip(2)
    } else {
        s
    }
}

/// `s` with every separator written `/`.
pub open spec fn unify_separators(os: OperatingSystem, s: Seq<char>) -> Seq<char> {
    s.map_values(|c: char| if is_path_separator(os, c) { '/' } else { c })
}

/// A piece between separators that names something: neither empty nor
/// `.`.
pub open spec fn named_piece(p: Seq<char>) -> bool {
    p.len() > 0 && p != seq!['.']
}

/// The component that a named piece is: `..` is the parent directory.
pub open spec fn piece_component(p: Seq<char>) -> PathComponentView {
    if p == seq!['.', '.'] {
        PathComponentView::ParentDir
    } else {
        PathComponentView::Normal(p)
    }
}

/// The component that the first piece of a path without root is, if any:
/// a leading `.` is the current directory.
pub open spec fn first_components(p: Seq<char>) -> Seq<PathComponentView> {
    if p == seq!['.'] {
        seq![PathComponentView::CurDir]
    } else if p.len() > 0 {
        seq![piece_component(p)]
    } else {
        seq![]
    }
}

/// The components of a path as `Path::components` gives them on `os`: the
/// drive prefix (Windows), the root, a leading `.`, then every piece
/// between separators that names something, `..` as the parent directory.
/// Windows paths that begin with two backslashes (verbatim, device and UNC
/// prefixes) are not told apart here.
pub open spec fn path_components(os: OperatingSystem, s: Seq<char>) -> Seq<PathComponentView> {
    let rest = path_rest(os, s);
    let p = split_char_spec(unify_separators(os, rest), '/');
    (if has_disk_prefix(os, s) {
        seq![PathComponentView::Prefix(drive_letter_code(s[0]))]
    } else {
        seq![]
    }) + (if rest.len() > 0 && is_path_separator(os, rest[0]) {
        seq![PathComponentView::RootDir]
    } else {
        seq![]
    }) + first_components(p[0]) + p.drop_first().filter(|x: Seq<char>| named_piece(x)).map_values(
        |x: Seq<char>| piece_component(x),
    )
}

/// Two paths are equal as paths are compared: the same components.
pub open spec fn same_path(os: OperatingSystem, a: Seq<char>, b: Seq<char>) -> bool {
    path_components(os, a) == path_components(os, b)
}

proof fn lemma_split_first(s: Seq<char>, sep: char, current: Seq<char>, done: Seq<Seq<char>>)
    ensures
        crate::text::split_char_from(s, sep, current, done).len() > done.len(),
        done.len() > 0 ==> crate::text::split_char_from(s, sep, current, done)[0] == done[0],
        done.len() == 0 && s.len() > 0 && s[0] == sep ==> crate::text::split_char_from(s, sep, current, done)[0]
            == current,
    decreases s.len(),
{
    if s.len() > 0 {
        if s[0] == sep {
            lemma_split_first(s.drop_first(), sep, Seq::empty(), done.push(current));
        } else {
            lemma_split_first(s.drop_first(), sep, current.push(s[0]), done);
        }
    }
}

fn piece_part(p: &str) -> (r: PathPart)
    ensures
        r@ == piece_component(p@),
{
    proof {
        reveal_strlit("..");
        assert(".."@ =~= seq!['.', '.']);
    }
    if str_eq(p, "..") {
        PathPart::ParentDir
    } else {
        PathPart::Normal(p.to_string())
    }
}

/// The components of path `s` on `os`.
pub fn path_components_of(s: &str, os: OperatingSystem) -> (r: Vec<PathPart>)
    ensures
        parts_view(r@) == path_components(os, s@),
{
    let chars = chars_of(s);
    let windows = match os {
        OperatingSystem::Windows => true,
        _ => false,
    };
    let prefix = windows && chars.len() >= 2 && (('a' <= chars[0] && chars[0] <= 'z') || ('A' <= chars[0]
        && chars[0] <= 'Z')) && chars[1] == ':';
    assert(prefix == has_disk_prefix(os, s@));
    let start: usize = if prefix { 2 } else { 0 };
    let ghost rest = path_rest(os, s@);
    assert(rest =~= s@.subrange(start as int, s@.len() as int));
    let mut unified = String::new();
    let mut i: usize = start;
    while i < chars.len()
        invariant
            chars@ == s@,
            start <= i <= chars@.len(),
            rest == s@.subrange(start as int, s@.len() as int),
            windows == (os == OperatingSystem::Windows),
            unified@ == unify_separators(os, rest.subrange(0, i - start)),
        decreases chars@.len() - i,
    {
        let c = chars[i];
        let sep = c == '/' || (windows && c == '\\');
        push_char(&mut unified, if sep { '/' } else { c });
        assert(unify_separators(os, rest.subrange(0, i + 1 - start)) =~= unify_separators(
            os,
            rest.subrange(0, i - start),
        ).push(if sep { '/' } else { c }));
        i = i + 1;
    }
    assert(rest.subrange(0, i - start) =~= rest);
    let pieces = split_char(unified.as_str(), '/');
    let ghost all = strings_view(pieces@);
    proof {
        lemma_split_first(unified@, '/', Seq::empty(), Seq::empty());
    }
    let mut out: Vec<PathPart> = Vec::new();
    if prefix {
        let c = chars[0];
        let code: u32 = if 'a' <= c && c <= 'z' { (c as u32) - 32 } else { c as u32 };
        out.push(PathPart::Prefix(code));
    }
    let rooted = start < chars.len() && (chars[start] == '/' || (windows && chars[start] == '\\'));
    assert(rooted == (rest.len() > 0 && is_path_separator(os, rest[0])));
    if rooted {
        out.push(PathPart::RootDir);
    }
    let first = pieces[0].as_str();
    proof {
        reveal_strlit(".");
        assert("."@ =~= seq!['.']);
        if rooted {
            assert(unified@[0] == '/');
            assert(all[0] =~= Seq::<char>::empty());
        }
    }
    if str_eq(first, ".") {
        out.push(PathPart::CurDir);
    } else if first.unicode_len() > 0 {
        out.push(piece_part(first));
    }
    let ghost head = parts_view(out@);
    assert(head =~= (if has_disk_prefix(os, s@) {
        seq![PathComponentView::Prefix(drive_letter_code(s@[0]))]
    } else {
        Seq::<PathComponentView>::empty()
    }) + (if rest.len() > 0 && is_path_separator(os, rest[0]) {
        seq![PathComponentView::RootDir]
    } else {
        Seq::<PathComponentView>::empty()
    }) + first_components(all[0]));
    let ghost keep = |x: Seq<char>| named_piece(x);
    let ghost f = |x: Seq<char>| piece_component(x);
    assert(all.subrange(1, 1).filter(keep) =~= Seq::<Seq<char>>::empty()) by {
        reveal(Seq::filter);
    }
    assert(parts_view(out@) =~= head + all.subrange(1, 1).filter(keep).map_values(f));
    let mut k: usize = 1;
    while k < pieces.len()
        invariant
            all == strings_view(pieces@),
            1 <= k <= pieces@.len(),
            keep == (|x: Seq<char>| named_piece(x)),
            f == (|x: Seq<char>| piece_component(x)),
            parts_view(out@) == head + all.subrange(1, k as int).filter(keep).map_values(f),
        decreases pieces@.len() - k,
    {
        let t = pieces[k].as_str();
        proof {
            assert(all[k as int] == t@);
            assert(all.subrange(1, k + 1) =~= all.subrange(1, k as int).push(t@));
            all.subrange(1, k as int).lemma_filter_push(t@, keep);
            reveal_strlit(".");
            assert("."@ =~= seq!['.']);
        }
        if t.unicode_len() > 0 && !str_eq(t, ".") {
            let ghost before = parts_view(out@);
            let part = piece_part(t);
            out.push(part);
            assert(all.subrange(1, k as int).filter(keep).push(t@).map_values(f) =~= all.subrange(
                1,
                k as int,
            ).filter(keep).map_values(f).push(f(t@)));
            assert(parts_view(out@) =~= before.push(part@));
        } else {
            proof {
                if t@.len() > 0 {
                    assert(t@ =~= seq!['.']);
                }
            }
        }
        k = k + 1;
    }
    assert(all.subrange(1, all.len() as int) =~= all.drop_first());
    out
}

/// The rank of a component's kind in the order of components: prefix,
/// root, `.`, `..`, names.
pub open spec fn component_rank(c: PathComponentView) -> int {
    match c {
        PathComponentView::Prefix(_) => 0,
        PathComponentView::RootDir => 1,
        PathComponentView::CurDir => 2,
        PathComponentView::ParentDir => 3,
        PathComponentView::Normal(_) => 4,
    }
}

/// `a` comes before `b` in the order of `Component`: by kind, then
/// prefixes by letter and names by text.
pub open spec fn component_less(a: PathComponentView, b: PathComponentView) -> bool {
    if component_rank(a) != component_rank(b) {
        component_rank(a) < component_rank(b)
    } else {
        match (a, b) {
            (PathComponentView::Prefix(x), PathComponentView::Prefix(y)) => x < y,
            (PathComponentView::Normal(x), PathComponentView::Normal(y)) => text_less(x, y),
            _ => false,
        }
    }
}

/// `a` comes before `b` in the order of paths (`Path::cmp`): component by
/// component, the shorter first where one begins the other.
pub open spec fn components_less(a: Seq<PathComponentView>, b: Seq<PathComponentView>) -> bool
    decreases a.len(),
{
    if a.len() == 0 {
        b.len() > 0
    } else if b.len() == 0 {
        false
    } else if a[0] != b[0] {
        component_less(a[0], b[0])
    } else {
        components_less(a.drop_first(), b.drop_first())
    }
}

/// Path `a` comes before path `b` on `os`.
pub open spec fn path_less(os: OperatingSystem, a: Seq<char>, b: Seq<char>) -> bool {
    components_less(path_components(os, a), path_components(os, b))
}

proof fn lemma_component_order(a: PathComponentView, b: PathComponentView, c: PathComponentView)
    ensures
        !component_less(a, a),
        !(component_less(a, b) && component_less(b, a)),
        component_less(a, b) && component_less(b, c) ==> component_less(a, c),
        a != b ==> component_less(a, b) || component_less(b, a),
{
    match a {
        PathComponentView::Normal(x) => lemma_text_irreflexive(x),
        _ => {},
    }
    match (a, b) {
        (PathComponentView::Normal(x), PathComponentView::Normal(y)) => {
            lemma_text_asymmetric(x, y);
            lemma_text_total(x, y);
        },
        _ => {},
    }
    match (a, b, c) {
        (PathComponentView::Normal(x), PathComponentView::Normal(y), PathComponentView::Normal(z)) => {
            if text_less(x, y) && text_less(y, z) {
                lemma_text_transitive(x, y, z);
            }
        },
        _ => {},
    }
}

/// No path comes before itself.
pub proof fn lemma_components_irreflexive(a: Seq<PathComponentView>)
    ensures
        !components_less(a, a),
    decreases a.len(),
{
    if a.len() > 0 {
        lemma_components_irreflexive(a.drop_first());
    }
}

/// Of two paths at most one comes before the other.
pub proof fn lemma_components_asymmetric(a: Seq<PathComponentView>, b: Seq<PathComponentView>)
    ensures
        !(components_less(a, b) && components_less(b, a)),
    decreases a.len(),
{
    if a.len() > 0 && b.len() > 0 {
        if a[0] == b[0] {
            lemma_components_asymmetric(a.drop_first(), b.drop_first());
        } else {
            lemma_component_order(a[0], b[0], b[0]);
        }
    }
}

/// The order of paths is transitive.
pub proof fn lemma_components_transitive(
    a: Seq<PathComponentView>,
    b: Seq<PathComponentView>,
    c: Seq<PathComponentView>,
)
    requires
        components_less(a, b),
        components_less(b, c),
    ensures
        components_less(a, c),
    decreases a.len(),
{
    if a.len() > 0 && b.len() > 0 && c.len() > 0 {
        lemma_component_order(a[0], b[0], c[0]);
        lemma_component_order(a[0], c[0], b[0]);
        lemma_component_order(b[0], a[0], c[0]);
        if a[0] == b[0] && b[0] == c[0] {
            lemma_components_transitive(a.drop_first(), b.drop_first(), c.drop_first());
        }
    }
}

/// Of two different paths one comes before the other.
pub proof fn lemma_components_total(a: Seq<PathComponentView>, b: Seq<PathComponentView>)
    ensures
        a != b ==> components_less(a, b) || components_less(b, a),
    decreases a.len(),
{
    if a.len() > 0 && b.len() > 0 {
        if a[0] == b[0] {
            lemma_components_total(a.drop_first(), b.drop_first());
            if a.drop_first() == b.drop_first() {
                assert(a =~= seq![a[0]] + a.drop_first());
                assert(b =~= seq![b[0]] + b.drop_first());
            }
        } else {
            lemma_component_order(a[0], b[0], b[0]);
        }
    } else if a.len() == 0 && b.len() == 0 {
        assert(a =~= b);
    }
}

fn part_equal(a: &PathPart, b: &PathPart) -> (r: bool)
    ensures
        r == (a@ == b@),
{
    match (a, b) {
        (PathPart::Prefix(x), PathPart::Prefix(y)) => *x == *y,
        (PathPart::RootDir, PathPart::RootDir) => true,
        (PathPart::CurDir, PathPart::CurDir) => true,
        (PathPart::ParentDir, PathPart::ParentDir) => true,
        (PathPart::Normal(x), PathPart::Normal(y)) => str_eq(x.as_str(), y.as_str()),
        _ => false,
    }
}

fn rank_of(a: &PathPart) -> (r: u8)
    ensures
        r as int == component_rank(a@),
{
    match a {
        PathPart::Prefix(_) => 0,
        PathPart::RootDir => 1,
        PathPart::CurDir => 2,
        PathPart::ParentDir => 3,
        PathPart::Normal(_) => 4,
    }
}

fn part_less(a: &PathPart, b: &PathPart) -> (r: bool)
    ensures
        r == component_less(a@, b@),
{
    let ra = rank_of(a);
    let rb = rank_of(b);
    if ra != rb {
        return ra < rb;
    }
    match (a, b) {
        (PathPart::Prefix(x), PathPart::Prefix(y)) => *x < *y,
        (PathPart::Normal(x), PathPart::Normal(y)) => str_less(x.as_str(), y.as_str()),
        _ => false,
    }
}

/// Whether two paths are equal on `os` as paths are compared.
pub fn is_same_path(a: &str, b: &str, os: OperatingSystem) -> (r: bool)
    ensures
        r == same_path(os, a@, b@),
{
    let pa = path_components_of(a, os);
    let pb = path_components_of(b, os);
    if pa.len() != pb.len() {
        assert(parts_view(pa@).len() != parts_view(pb@).len());
        return false;
    }
    let mut i: usize = 0;
    while i < pa.len()
        invariant
            parts_view(pa@) == path_components(os, a@),
            parts_view(pb@) == path_components(os, b@),
            pa@.len() == pb@.len(),
            i <= pa@.len(),
            forall|j: int| 0 <= j < i ==> pa@[j]@ == pb@[j]@,
        decreases pa@.len() - i,
    {
        if !part_equal(&pa[i], &pb[i]) {
            assert(parts_view(pa@)[i as int] == pa@[i as int]@);
            assert(parts_view(pb@)[i as int] == pb@[i as int]@);
            assert(parts_view(pa@)[i as int] != parts_view(pb@)[i as int]);
            return false;
        }
        i = i + 1;
    }
    assert(parts_view(pa@) =~= parts_view(pb@));
    true
}

/// Whether path `a` comes before path `b` on `os` (`Path::cmp`).
pub fn is_path_less(a: &str, b: &str, os: OperatingSystem) -> (r: bool)
    ensures
        r == path_less(os, a@, b@),
{
    let pa = path_components_of(a, os);
    let pb = path_components_of(b, os);
    let ghost va = parts_view(pa@);
    let ghost vb = parts_view(pb@);
    let n = pa.len();
    let m = pb.len();
    let mut i: usize = 0;
    assert(va.subrange(0, n as int) =~= va && vb.subrange(0, m as int) =~= vb);
    while i < n && i < m
        invariant
            n == pa@.len(),
            m == pb@.len(),
            va == parts_view(pa@),
            vb == parts_view(pb@),
            va == path_components(os, a@),
            vb == path_components(os, b@),
            i <= n,
            i <= m,
            components_less(va, vb) == components_less(va.subrange(i as int, n as int), vb.subrange(i as int, m as int)),
        decreases n - i,
    {
        let ghost sa = va.subrange(i as int, n as int);
        let ghost sb = vb.subrange(i as int, m as int);
        assert(va[i as int] == pa@[i as int]@ && vb[i as int] == pb@[i as int]@);
        assert(sa[0] == pa@[i as int]@ && sb[0] == pb@[i as int]@);
        if !part_equal(&pa[i], &pb[i]) {
            let r = part_less(&pa[i], &pb[i]);
            assert(sa.len() > 0 && sb.len() > 0 && sa[0] != sb[0]);
            assert(components_less(sa, sb) == component_less(sa[0], sb[0]));
            return r;
        }
        assert(sa.drop_first() =~= va.subrange(i + 1, n as int));
        assert(sb.drop_first() =~= vb.subrange(i + 1, m as int));
        i = i + 1;
    }
    i == n && i < m
}

} // verus!
