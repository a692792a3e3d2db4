//! Choosing drives among those that MakeMKV found.

use vstd::prelude::*;

use crate::ripit::optical_drive::{OperatingSystem, OpticalDrive, OpticalDriveView};
use crate::ripit::paths::{
    PathComponentView, components_less, is_path_less, is_same_path, lemma_components_irreflexive,
    lemma_components_total, lemma_components_transitive, path_components, path_less, same_path,
};
use crate::text::{owned, str_eq, strings_view};

verus! {

/// `a` comes before `b` in the order of `String` (by code point, the
/// shorter first where one begins the other).
pub open spec fn text_less(a: Seq<char>, b: Seq<char>) -> bool
    decreases a.len(),
{
    if a.len() == 0 {
        b.len() > 0
    } else if b.len() == 0 {
        false
    } else if a[0] != b[0] {
        a[0] < b[0]
    } else {
        text_less(a.drop_first(), b.drop_first())
    }
}

/// How a run of `makemkvcon info` that lists the drives ended.
#[derive(Clone, Copy, Debug, PartialEq, Eq)]
pub enum InfoOutcome {
    /// It finished normally.
    Finished,
    /// It failed on the data it read.
    DataError,
    /// The task that ran it did not complete.
    Aborted,
}

/// The result of listing the drives: the drives that were reported where
/// the run finished normally, else the name of the failure.
pub fn find_drives_result(outcome: InfoOutcome, drives: Vec<OpticalDrive>) -> (r: Result<Vec<OpticalDrive>, String>)
    ensures
        outcome == InfoOutcome::Finished ==> r == Ok::<Vec<OpticalDrive>, String>(drives),
        outcome == InfoOutcome::DataError ==> r is Err && r->Err_0@ == "DataError"@,
        outcome == InfoOutcome::Aborted ==> r is Err && r->Err_0@ == "GenericError"@,
{
    match outcome {
        InfoOutcome::Finished => Ok(drives),
        InfoOutcome::DataError => Err(owned("DataError")),
        InfoOutcome::Aborted => Err(owned("GenericError")),
    }
}

/// No text comes before itself.
pub proof fn lemma_text_irreflexive(a: Seq<char>)
    ensures
        !text_less(a, a),
    decreases a.len(),
{
    if a.len() > 0 {
        lemma_text_irreflexive(a.drop_first());
    }
}

/// Of two texts at most one comes before the other.
pub proof fn lemma_text_asymmetric(a: Seq<char>, b: Seq<char>)
    ensures
        !(text_less(a, b) && text_less(b, a)),
    decreases a.len(),
{
    if a.len() > 0 && b.len() > 0 && a[0] == b[0] {
        lemma_text_asymmetric(a.drop_first(), b.drop_first());
    }
}

/// The order of texts is transitive.
pub proof fn lemma_text_transitive(a: Seq<char>, b: Seq<char>, c: Seq<char>)
    requires
        text_less(a, b),
        text_less(b, c),
    ensures
        text_less(a, c),
    decreases a.len(),
{
    if a.len() > 0 && a[0] == b[0] && b[0] == c[0] {
        lemma_text_transitive(a.drop_first(), b.drop_first(), c.drop_first());
    }
}

/// Of two different texts one comes before the other.
pub proof fn lemma_text_total(a: Seq<char>, b: Seq<char>)
    ensures
        a != b ==> text_less(a, b) || text_less(b, a),
    decreases a.len(),
{
    if a.len() > 0 && b.len() > 0 && a[0] == b[0] {
        lemma_text_total(a.drop_first(), b.drop_first());
        if a.drop_first() == b.drop_first() {
            assert(a =~= seq![a[0]] + a.drop_first());
            assert(b =~= seq![b[0]] + b.drop_first());
        }
    } else if a.len() == 0 && b.len() == 0 {
        assert(a =~= b);
    } else if a.len() > 0 && b.len() > 0 {
        assert(a[0] != b[0]);
    }
}

/// Whether `a` comes before `b` in the order of `String`.
pub fn str_less(a: &str, b: &str) -> (r: bool)
    ensures
        r == text_less(a@, b@),
{
    let n = a.unicode_len();
    let m = b.unicode_len();
    let mut i: usize = 0;
    assert(a@.subrange(0, n as int) =~= a@ && b@.subrange(0, m as int) =~= b@);
    while i < n && i < m
        invariant
            n == a@.len(),
            m == b@.len(),
            i <= n,
            i <= m,
            text_less(a@, b@) == text_less(a@.subrange(i as int, n as int), b@.subrange(i as int, m as int)),
        decreases n - i,
    {
        let x = a.get_char(i);
        let y = b.get_char(i);
        let ghost sa = a@.subrange(i as int, n as int);
        let ghost sb = b@.subrange(i as int, m as int);
        assert(sa[0] == x && sb[0] == y);
        if x != y {
            return x < y;
        }
        assert(sa.drop_first() =~= a@.subrange(i + 1, n as int));
        assert(sb.drop_first() =~= b@.subrange(i + 1, m as int));
        i = i + 1;
    }
    i == n && i < m
}

/// The views of a sequence of drives.
pub open spec fn drives_view(v: Seq<OpticalDrive>) -> Seq<OpticalDriveView> {
    v.map_values(|d: OpticalDrive| d@)
}

/// The first drive whose device is the path `drive_want` on `os`, if any.
pub fn find_matching_drive(drives_have: &[OpticalDrive], drive_want: &str, os: OperatingSystem) -> (r: Option<
    OpticalDrive,
>)
    ensures
        match r {
            Some(d) => exists|i: int|
                0 <= i < drives_have@.len() && same_path(os, drives_have@[i].device@, drive_want@) && d@
                    == drives_have@[i]@ && forall|j: int|
                    0 <= j < i ==> !same_path(os, drives_have@[j].device@, drive_want@),
            None => forall|i: int|
                0 <= i < drives_have@.len() ==> !same_path(os, drives_have@[i].device@, drive_want@),
        },
{
    let mut i: usize = 0;
    while i < drives_have.len()
        invariant
            i <= drives_have@.len(),
            forall|j: int| 0 <= j < i ==> !same_path(os, drives_have@[j].device@, drive_want@),
        decreases drives_have@.len() - i,
    {
        if is_same_path(drives_have[i].device.as_str(), drive_want, os) {
            return Some(drives_have[i].duplicate());
        }
        i = i + 1;
    }
    None
}

/// The drives are in descending order of their devices as paths on `os`.
pub open spec fn sorted_by_device_desc(os: OperatingSystem, v: Seq<OpticalDriveView>) -> bool {
    forall|i: int, j: int|
        0 <= i < j < v.len() ==> !path_less(os, #[trigger] v[i].device, #[trigger] v[j].device)
}

/// `drives_want` names the path `device` on `os`.
pub open spec fn wants(os: OperatingSystem, drives_want: Seq<Seq<char>>, device: Seq<char>) -> bool {
    exists|i: int| 0 <= i < drives_want.len() && same_path(os, #[trigger] drives_want[i], device)
}

/// The drives whose device is a path that `drives_want` names (all drives
/// where it names none), in their order.
pub open spec fn selected_drives(
    os: OperatingSystem,
    drives_have: Seq<OpticalDriveView>,
    drives_want: Seq<Seq<char>>,
) -> Seq<OpticalDriveView> {
    drives_have.filter(|d: OpticalDriveView| drives_want.len() == 0 || wants(os, drives_want, d.device))
}

/// The drives whose device has the path components `c` on `os`, in their
/// order.
pub open spec fn with_path(os: OperatingSystem, v: Seq<OpticalDriveView>, c: Seq<PathComponentView>) -> Seq<
    OpticalDriveView,
> {
    v.filter(|d: OpticalDriveView| path_components(os, d.device) == c)
}

fn wanted(drives_want: &[String], device: &str, os: OperatingSystem) -> (r: bool)
    ensures
        r == wants(os, strings_view(drives_want@), device@),
{
    let mut i: usize = 0;
    while i < drives_want.len()
        invariant
            i <= drives_want@.len(),
            forall|j: int| 0 <= j < i ==> !same_path(os, drives_want@[j]@, device@),
        decreases drives_want@.len() - i,
    {
        if is_same_path(drives_want[i].as_str(), device, os) {
            assert(strings_view(drives_want@)[i as int] == drives_want@[i as int]@);
            return true;
        }
        i = i + 1;
    }
    assert forall|j: int| 0 <= j < strings_view(drives_want@).len() implies !same_path(
        os,
        #[trigger] strings_view(drives_want@)[j],
        device@,
    ) by {
        assert(strings_view(drives_want@)[j] == drives_want@[j]@);
    }
    false
}

proof fn lemma_filter_none<A>(s: Seq<A>, pred: spec_fn(A) -> bool)
    requires
        forall|i: int| 0 <= i < s.len() ==> !pred(s[i]),
    ensures
        s.filter(pred) == Seq::<A>::empty(),
    decreases s.len(),
{
    if s.len() > 0 {
        lemma_filter_none(s.drop_last(), pred);
        s.drop_last().lemma_filter_push(s.last(), pred);
        assert(s.drop_last().push(s.last()) =~= s);
    } else {
        s.filter_lemma(pred);
        assert(s.filter(pred) =~= Seq::<A>::empty());
    }
}

fn insert_sorted(out: &mut Vec<OpticalDrive>, d: OpticalDrive, os: OperatingSystem)
    requires
        sorted_by_device_desc(os, drives_view(old(out)@)),
    ensures
        sorted_by_device_desc(os, drives_view(final(out)@)),
        drives_view(final(out)@).to_multiset() == drives_view(old(out)@).to_multiset().insert(d@),
        forall|c: Seq<PathComponentView>|
            #[trigger] with_path(os, drives_view(final(out)@), c) == if path_components(os, d@.device) == c {
                with_path(os, drives_view(old(out)@), c).push(d@)
            } else {
                with_path(os, drives_view(old(out)@), c)
            },
{
    let ghost before = drives_view(out@);
    let mut p: usize = 0;
    while p < out.len() && !is_path_less(out[p].device.as_str(), d.device.as_str(), os)
        invariant
            p <= out@.len(),
            before == drives_view(out@),
            forall|j: int| 0 <= j < p ==> !path_less(os, #[trigger] before[j].device, d@.device),
        decreases out@.len() - p,
    {
        p = p + 1;
    }
    let ghost dv = d@;
    let ghost dc = path_components(os, dv.device);
    out.insert(p, d);
    proof {
        let after = drives_view(out@);
        assert(after =~= before.insert(p as int, dv));
        vstd::seq_lib::to_multiset_insert(before, p as int, dv);
        assert forall|i: int, j: int| 0 <= i < j < after.len() implies !path_less(
            os,
            #[trigger] after[i].device,
            #[trigger] after[j].device,
        ) by {
            if j < p {
                assert(after[i] == before[i] && after[j] == before[j]);
            } else if j == p {
                assert(after[i] == before[i]);
            } else if i > p {
                assert(after[i] == before[i - 1] && after[j] == before[j - 1]);
            } else if i == p {
                let bj = path_components(os, before[j - 1].device);
                let bp = path_components(os, before[p as int].device);
                assert(after[j] == before[j - 1]);
                assert(components_less(bp, dc));
                if j - 1 > p {
                    assert(!path_less(os, before[p as int].device, before[j - 1].device));
                }
                lemma_components_total(bp, bj);
                if components_less(dc, bj) {
                    if bj == bp {
                        crate::ripit::paths::lemma_components_asymmetric(dc, bp);
                    } else {
                        lemma_components_transitive(dc, bj, bp);
                        crate::ripit::paths::lemma_components_asymmetric(dc, bp);
                    }
                }
            } else {
                assert(after[i] == before[i] && after[j] == before[j - 1]);
            }
        }
        assert forall|c: Seq<PathComponentView>| #[trigger] with_path(os, after, c) == if dc == c {
            with_path(os, before, c).push(dv)
        } else {
            with_path(os, before, c)
        } by {
            let pred = |e: OpticalDriveView| path_components(os, e.device) == c;
            let lo = before.subrange(0, p as int);
            let hi = before.subrange(p as int, before.len() as int);
            assert(before =~= lo + hi);
            assert(after =~= lo.push(dv) + hi);
            Seq::filter_distributes_over_add(lo, hi, pred);
            Seq::filter_distributes_over_add(lo.push(dv), hi, pred);
            lo.lemma_filter_push(dv, pred);
            if dc == c {
                assert forall|k: int| 0 <= k < hi.len() implies !pred(hi[k]) by {
                    let bk = path_components(os, before[p + k].device);
                    let bp = path_components(os, before[p as int].device);
                    assert(components_less(bp, dc));
                    if k > 0 {
                        assert(!path_less(os, before[p as int].device, before[p + k].device));
                        lemma_components_total(bp, bk);
                        if bk != bp {
                            lemma_components_transitive(bk, bp, dc);
                        }
                    }
                    lemma_components_irreflexive(dc);
                }
                lemma_filter_none(hi, pred);
                assert(with_path(os, after, c) =~= with_path(os, before, c).push(dv));
            } else {
                assert(with_path(os, after, c) =~= with_path(os, before, c));
            }
        }
    }
}

/// The drives whose device is a path that `drives_want` names on `os`, or
/// all drives where it names none, in descending order of their devices as
/// paths (drives with equal paths keep their order).
pub fn find_matching_drives(drives_have: &[OpticalDrive], drives_want: &[String], os: OperatingSystem) -> (r: Vec<
    OpticalDrive,
>)
    ensures
        sorted_by_device_desc(os, drives_view(r@)),
        drives_view(r@).to_multiset() == selected_drives(
            os,
            drives_view(drives_have@),
            strings_view(drives_want@),
        ).to_multiset(),
        forall|c: Seq<PathComponentView>|
            #[trigger] with_path(os, drives_view(r@), c) == with_path(
                os,
                selected_drives(os, drives_view(drives_have@), strings_view(drives_want@)),
                c,
            ),
{
    let ghost have = drives_view(drives_have@);
    let ghost want = strings_view(drives_want@);
    let ghost pred = |d: OpticalDriveView| want.len() == 0 || wants(os, want, d.device);
    let mut out: Vec<OpticalDrive> = Vec::new();
    let mut i: usize = 0;
    proof {
        assert(have.subrange(0, 0).filter(pred) =~= Seq::<OpticalDriveView>::empty());
        assert(drives_view(out@) =~= Seq::<OpticalDriveView>::empty());
    }
    while i < drives_have.len()
        invariant
            i <= drives_have@.len(),
            have == drives_view(drives_have@),
            want == strings_view(drives_want@),
            pred == (|d: OpticalDriveView| want.len() == 0 || wants(os, want, d.device)),
            sorted_by_device_desc(os, drives_view(out@)),
            drives_view(out@).to_multiset() == have.subrange(0, i as int).filter(pred).to_multiset(),
            forall|c: Seq<PathComponentView>|
                #[trigger] with_path(os, drives_view(out@), c) == with_path(
                    os,
                    have.subrange(0, i as int).filter(pred),
                    c,
                ),
        decreases drives_have@.len() - i,
    {
        let ghost prefix = have.subrange(0, i as int);
        proof {
            assert(have.subrange(0, i + 1) =~= prefix.push(have[i as int]));
            prefix.lemma_filter_push(have[i as int], pred);
        }
        let keep = drives_want.len() == 0 || wanted(drives_want, drives_have[i].device.as_str(), os);
        assert(keep == pred(have[i as int]));
        if keep {
            let d = drives_have[i].duplicate();
            let ghost before = drives_view(out@);
            insert_sorted(&mut out, d, os);
            proof {
                vstd::seq_lib::to_multiset_build(prefix.filter(pred), have[i as int]);
                assert forall|c: Seq<PathComponentView>| #[trigger]
                    with_path(os, drives_view(out@), c) == with_path(
                        os,
                        have.subrange(0, i + 1).filter(pred),
                        c,
                    ) by {
                    prefix.filter(pred).lemma_filter_push(
                        have[i as int],
                        |e: OpticalDriveView| path_components(os, e.device) == c,
                    );
                    assert(with_path(os, before, c) == with_path(os, prefix.filter(pred), c));
                }
            }
        }
        i = i + 1;
    }
    proof {
        assert(have.subrange(0, have.len() as int) =~= have);
    }
    out
}

} // verus!
