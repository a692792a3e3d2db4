//! The frame of an output line: `<ID>:<data>`.

use vstd::prelude::*;
use vstd::slice::slice_subrange;

verus! {

/// The index of the first `:` in `s`, or its length where it has none.
pub open spec fn colon_index(s: Seq<u8>) -> int
    decreases s.len(),
{
    if s.len() == 0 {
        0
    } else if s[0] == 58u8 {
        0
    } else {
        1 + colon_index(s.drop_first())
    }
}

/// The line has a `:`.
pub open spec fn has_colon(s: Seq<u8>) -> bool {
    colon_index(s) < s.len()
}

/// The record id: what stands before the first `:`.
pub open spec fn record_id(s: Seq<u8>) -> Seq<u8> {
    s.subrange(0, colon_index(s))
}

/// The record data: what follows the first `:`.
pub open spec fn record_data(s: Seq<u8>) -> Seq<u8> {
    s.subrange(colon_index(s) + 1, s.len() as int)
}

/// `colon_index` is the first index that holds a `:`.
pub proof fn lemma_colon_index(s: Seq<u8>)
    ensures
        0 <= colon_index(s) <= s.len(),
        forall|j: int| 0 <= j < colon_index(s) ==> s[j] != 58u8,
        colon_index(s) < s.len() ==> s[colon_index(s)] == 58u8,
    decreases s.len(),
{
    if s.len() > 0 && s[0] != 58u8 {
        lemma_colon_index(s.drop_first());
        assert forall|j: int| 0 <= j < colon_index(s) implies s[j] != 58u8 by {
            if j > 0 {
                assert(s[j] == s.drop_first()[j - 1]);
            }
        }
    }
}

/// A line splits at its first `:` into id and data.
pub fn split_record(line: &[u8]) -> (r: Option<(&[u8], &[u8])>)
    ensures
        match r {
            Some((id, data)) => has_colon(line@) && id@ == record_id(line@) && data@ == record_data(line@),
            None => !has_colon(line@),
        },
{
    proof {
        lemma_colon_index(line@);
    }
    let mut i: usize = 0;
    while i < line.len()
        invariant
            i <= line@.len(),
            forall|j: int| 0 <= j < i ==> line@[j] != 58u8,
            0 <= colon_index(line@) <= line@.len(),
            forall|j: int| 0 <= j < colon_index(line@) ==> line@[j] != 58u8,
            colon_index(line@) < line@.len() ==> line@[colon_index(line@)] == 58u8,
        decreases line@.len() - i,
    {
        if line[i] == 58u8 {
            assert(colon_index(line@) == i as int);
            let id = slice_subrange(line, 0, i);
            let data = slice_subrange(line, i + 1, line.len());
            return Some((id, data));
        }
        i = i + 1;
    }
    assert(colon_index(line@) == line@.len());
    None
}

/// The kinds of records in `makemkvcon`'s output.
#[derive(Clone, Copy, Debug, PartialEq, Eq, Structural)]
pub enum RecordKind {

    /// `MSG`
    Msg,
    /// `DRV`
    Drv,
    /// `TCOUNT`
    Tcount,
    /// `TINFO`
    Tinfo,
    /// `CINFO`
    Cinfo,
    /// `SINFO`
    Sinfo,
    /// `PRGC`
    Prgc,
    /// `PRGT`
    Prgt,
    /// `PRGV`
    Prgv,
}

/// The kind of record that an id names.
pub open spec fn spec_record_kind(id: Seq<u8>) -> Option<RecordKind> {
    if id == seq![77u8, 83u8, 71u8] {
        Some(RecordKind::Msg)
    } else if id == seq![68u8, 82u8, 86u8] {
        Some(RecordKind::Drv)
    } else if id == seq![84u8, 67u8, 79u8, 85u8, 78u8, 84u8] {
        Some(RecordKind::Tcount)
    } else if id == seq![84u8, 73u8, 78u8, 70u8, 79u8] {
        Some(RecordKind::Tinfo)
    } else if id == seq![67u8, 73u8, 78u8, 70u8, 79u8] {
        Some(RecordKind::Cinfo)
    } else if id == seq![83u8, 73u8, 78u8, 70u8, 79u8] {
        Some(RecordKind::Sinfo)
    } else if id == seq![80u8, 82u8, 71u8, 67u8] {
        Some(RecordKind::Prgc)
    } else if id == seq![80u8, 82u8, 71u8, 84u8] {
        Some(RecordKind::Prgt)
    } else if id == seq![80u8, 82u8, 71u8, 86u8] {
        Some(RecordKind::Prgv)
    } else {
        None
    }
}

fn bytes_are(id: &[u8], expected: &[u8]) -> (r: bool)
    ensures
        r == (id@ == expected@),
{
    if id.len() != expected.len() {
        return false;
    }
    let mut i: usize = 0;
    while i < id.len()
        invariant
            id@.len() == expected@.len(),
            i <= id@.len(),
            forall|j: int| 0 <= j < i ==> id@[j] == expected@[j],
        decreases id@.len() - i,
    {
        if id[i] != expected[i] {
            return false;
        }
        i = i + 1;
    }
    assert(id@ =~= expected@);
    true
}

/// The kind of record that an id names, if it names one.
pub fn record_kind(id: &[u8]) -> (r: Option<RecordKind>)
    ensures
        r == spec_record_kind(id@),
{
    let expected: [u8; 3] = [77u8, 83u8, 71u8];
    proof { assert(expected@ =~= seq![77u8, 83u8, 71u8]); }
    if bytes_are(id, &expected) {
        return Some(RecordKind::Msg);
    }
    let expected: [u8; 3] = [68u8, 82u8, 86u8];
    proof { assert(expected@ =~= seq![68u8, 82u8, 86u8]); }
    if bytes_are(id, &expected) {
        return Some(RecordKind::Drv);
    }
    let expected: [u8; 6] = [84u8, 67u8, 79u8, 85u8, 78u8, 84u8];
    proof { assert(expected@ =~= seq![84u8, 67u8, 79u8, 85u8, 78u8, 84u8]); }
    if bytes_are(id, &expected) {
        return Some(RecordKind::Tcount);
    }
    let expected: [u8; 5] = [84u8, 73u8, 78u8, 70u8, 79u8];
    proof { assert(expected@ =~= seq![84u8, 73u8, 78u8, 70u8, 79u8]); }
    if bytes_are(id, &expected) {
        return Some(RecordKind::Tinfo);
    }
    let expected: [u8; 5] = [67u8, 73u8, 78u8, 70u8, 79u8];
    proof { assert(expected@ =~= seq![67u8, 73u8, 78u8, 70u8, 79u8]); }
    if bytes_are(id, &expected) {
        return Some(RecordKind::Cinfo);
    }
    let expected: [u8; 5] = [83u8, 73u8, 78u8, 70u8, 79u8];
    proof { assert(expected@ =~= seq![83u8, 73u8, 78u8, 70u8, 79u8]); }
    if bytes_are(id, &expected) {
        return Some(RecordKind::Sinfo);
    }
    let expected: [u8; 4] = [80u8, 82u8, 71u8, 67u8];
    proof { assert(expected@ =~= seq![80u8, 82u8, 71u8, 67u8]); }
    if bytes_are(id, &expected) {
        return Some(RecordKind::Prgc);
    }
    let expected: [u8; 4] = [80u8, 82u8, 71u8, 84u8];
    proof { assert(expected@ =~= seq![80u8, 82u8, 71u8, 84u8]); }
    if bytes_are(id, &expected) {
        return Some(RecordKind::Prgt);
    }
    let expected: [u8; 4] = [80u8, 82u8, 71u8, 86u8];
    proof { assert(expected@ =~= seq![80u8, 82u8, 71u8, 86u8]); }
    if bytes_are(id, &expected) {
        return Some(RecordKind::Prgv);
    }
    None
}

} // verus!
