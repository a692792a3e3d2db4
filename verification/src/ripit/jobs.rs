//! The choices made while backing up or extracting a disc: what
//! `makemkvcon` is asked for, how each message is classed, and what the
//! messages and the program's result amount to. Running `makemkvcon` and
//! delivering the events is left to the caller.

use vstd::prelude::*;

use crate::api::msg::MessageRecord;
use crate::ripit::optical_disc::{BluRay, Dvd, OpticalDisc, OpticalDiscView};
use crate::ripit::optical_drive::OpticalDrive;
use crate::ripit::severities::{Severity, default_severities, default_severity_map};
use crate::text::{append_str, decimal_string, owned, spec_decimal};
use std::collections::HashMap;

verus! {

broadcast use vstd::std_specs::hash::group_hash_axioms;

/// A message of a backup, with the drive and the disc it concerns.
#[derive(Debug)]
pub struct UnshackleMessage {
    pub device: String,
    pub disc: OpticalDisc,
    pub message: MessageRecord,
}

/// What a finished backup took: its duration and the size of its files.
#[derive(Debug)]
pub struct UnshackleResult {
    pub elapsed_secs: u64,
    pub fs_size: u64,
}

/// Why a backup failed.
#[derive(Clone, Copy, Debug, PartialEq, Eq, Structural)]
pub enum UnshackleErrorReason {
    /// no disc inserted or unable to read it
    NoDisc,
    /// disc is present but couldn't be read
    ReadError,
    /// `makemkvcon backup` failed with error
    BackupFailed,
    /// unable to tell if the backup succeeded or failed
    UnknownResult,
    /// `makemkvcon backup` failed in an unexpected way
    InternalError,
}

/// A failed backup: why, and after how long.
#[derive(Debug)]
pub struct UnshackleError {
    pub reason: UnshackleErrorReason,
    pub elapsed_secs: u64,
}

/// What the messages of a backup have said so far.
#[derive(Clone, Copy, Debug, PartialEq, Eq, Structural)]
pub enum BackupState {
    Running,
    Success,
    Failure,
    Unknown,
}

/// The state after message `code`: `5010` (the disc cannot be opened)
/// means failure; `5070` and `5081` (backup done) mean success, and
/// `5069` and `5080` (backup failed) failure, but either after the other
/// leaves the result unknown; other messages change nothing.
pub open spec fn spec_next_backup_state(state: BackupState, code: u32) -> BackupState {
    if code == 5010 {
        BackupState::Failure
    } else if code == 5070 || code == 5081 {
        if state == BackupState::Failure {
            BackupState::Unknown
        } else {
            BackupState::Success
        }
    } else if code == 5069 || code == 5080 {
        if state == BackupState::Success {
            BackupState::Unknown
        } else {
            BackupState::Failure
        }
    } else {
        state
    }
}

/// The state of a backup after message `code`.
pub fn next_backup_state(state: BackupState, code: u32) -> (r: BackupState)
    ensures
        r == spec_next_backup_state(state, code),
{
    if code == 5010 {
        BackupState::Failure
    } else if code == 5070 || code == 5081 {
        if state == BackupState::Failure {
            BackupState::Unknown
        } else {
            BackupState::Success
        }
    } else if code == 5069 || code == 5080 {
        if state == BackupState::Success {
            BackupState::Unknown
        } else {
            BackupState::Failure
        }
    } else {
        state
    }
}

/// A backup that reported success and then failure, or failure and then
/// success, has an unknown result; the disc that cannot be opened fails
/// it whatever came before.
pub proof fn law_conflicting_reports(state: BackupState, done: u32, failed: u32)
    requires
        done == 5070 || done == 5081,
        failed == 5069 || failed == 5080,
        state != BackupState::Failure,
        state != BackupState::Success,
    ensures
        spec_next_backup_state(spec_next_backup_state(state, done), failed) == BackupState::Unknown,
        spec_next_backup_state(spec_next_backup_state(state, failed), done) == BackupState::Unknown,
        spec_next_backup_state(state, 5010) == BackupState::Failure,
{
}

/// What a backup amounts to once `makemkvcon` has returned normally:
/// success only where the messages said so.
pub open spec fn spec_backup_outcome(state: BackupState) -> Result<(), UnshackleErrorReason> {
    match state {
        BackupState::Success => Ok(()),
        BackupState::Unknown => Err(UnshackleErrorReason::UnknownResult),
        _ => Err(UnshackleErrorReason::BackupFailed),
    }
}

/// The result of a backup from the state its messages left; where
/// `makemkvcon` did not return normally the error is an internal one.
pub fn backup_outcome(state: BackupState, returned_normally: bool) -> (r: Result<(), UnshackleErrorReason>)
    ensures
        returned_normally ==> r == spec_backup_outcome(state),
        !returned_normally ==> r == Err::<(), UnshackleErrorReason>(UnshackleErrorReason::InternalError),
{
    if !returned_normally {
        return Err(UnshackleErrorReason::InternalError);
    }
    match state {
        BackupState::Success => Ok(()),
        BackupState::Unknown => Err(UnshackleErrorReason::UnknownResult),
        _ => Err(UnshackleErrorReason::BackupFailed),
    }
}

/// The class of a message: the one its code is given, a warning where the
/// code is unknown.
pub open spec fn spec_message_class(severities: Map<u32, Severity>, code: u32) -> Severity {
    if severities.contains_key(code) {
        severities[code]
    } else {
        Severity::Warn
    }
}

/// What becomes of a warning of an extraction, with the count of read
/// issues so far: message `4004` (a read issue to verify) is counted and
/// not shown; every other warning is shown and counts nothing.
pub fn note_warning(read_issues: usize, code: u32) -> (r: (usize, bool))
    requires
        code == 4004 ==> read_issues < usize::MAX,
    ensures
        code == 4004 ==> r.0 == read_issues + 1 && !r.1,
        code != 4004 ==> r.0 == read_issues && r.1,
{
    if code == 4004 {
        (read_issues + 1, false)
    } else {
        (read_issues, true)
    }
}

/// Classes a message by its code.
pub fn message_class(severity_map: &HashMap<u32, Severity>, code: u32) -> (r: Severity)
    ensures
        r == spec_message_class(severity_map@, code),
{
    match severity_map.get(&code) {
        Some(s) => *s,
        None => Severity::Warn,
    }
}

/// The name of the backup of a disc: `<name>_<uid>.iso` for a DVD or an
/// HD-DVD (one image file), `<name>_<uid>` for a Blu-ray (a directory).
pub open spec fn spec_backup_name(d: OpticalDiscView) -> Seq<char> {
    match d {
        OpticalDiscView::Dvd { name, uid } => name + "_"@ + uid + ".iso"@,
        OpticalDiscView::HdDvd { name, uid } => name + "_"@ + uid + ".iso"@,
        OpticalDiscView::BluRay { name, uid, .. } => name + "_"@ + uid,
    }
}

/// The name of the backup of a disc.
pub fn backup_name(disc: &OpticalDisc) -> (r: String)
    ensures
        r@ == spec_backup_name(disc@),
{
    let (name, uid, iso) = match disc {
        OpticalDisc::Dvd(x) => (&x.name, &x.uid, true),
        OpticalDisc::HdDvd(x) => (&x.name, &x.uid, true),
        OpticalDisc::BluRay(x) => (&x.name, &x.uid, false),
    };
    let mut r = owned(name.as_str());
    append_str(&mut r, "_");
    append_str(&mut r, uid.as_str());
    if iso {
        append_str(&mut r, ".iso");
    }
    r
}

/// What a backup of the disc in `drive` asks of `makemkvcon`: the source
/// `disc:<index>` and the name of the backup; an error without a disc.
pub fn unshackle_plan(drive: &OpticalDrive) -> (r: Result<(String, String), UnshackleError>)
    ensures
        match r {
            Ok((source, name)) => drive@.disc is Some && source@ == "disc:"@ + spec_decimal(drive.index as nat)
                && name@ == spec_backup_name(drive@.disc.unwrap()),
            Err(e) => drive@.disc is None && e.reason == UnshackleErrorReason::NoDisc && e.elapsed_secs == 0,
        },
{
    match &drive.disc {
        None => Err(UnshackleError { reason: UnshackleErrorReason::NoDisc, elapsed_secs: 0 }),
        Some(disc) => {
            let mut source = owned("disc:");
            append_str(&mut source, decimal_string(drive.index as u64).as_str());
            Ok((source, backup_name(disc)))
        },
    }
}

/// A message of an extraction, with its source and target.
#[derive(Debug)]
pub struct ExtractMessage {
    pub source: String,
    pub target: String,
    pub message: MessageRecord,
}

/// What a finished extraction took.
#[derive(Debug)]
pub struct ExtractResult {
    pub source: String,
    pub elapsed_secs: u64,
    pub fs_size: u64,
    pub title_count: usize,
}

/// Why an extraction failed.
#[derive(Clone, Copy, Debug, PartialEq, Eq, Structural)]
pub enum ExtractErrorReason {
    NoDisc,
    FilesystemIssue,
    ExtractFailed,
    TitleMismatch,
}

/// A failed extraction: why, and after how long.
#[derive(Debug)]
pub struct ExtractError {
    pub reason: ExtractErrorReason,
    pub elapsed_secs: u64,
}

/// The source that an extraction from the disc in `drive` reads:
/// `dev:<device>`; an error without a disc.
pub fn drive_source(drive: &OpticalDrive) -> (r: Result<String, ExtractError>)
    ensures
        match r {
            Ok(source) => drive@.disc is Some && source@ == "dev:"@ + drive@.device,
            Err(e) => drive@.disc is None && e.reason == ExtractErrorReason::NoDisc && e.elapsed_secs == 0,
        },
{
    match &drive.disc {
        None => Err(ExtractError { reason: ExtractErrorReason::NoDisc, elapsed_secs: 0 }),
        Some(_) => {
            let mut source = owned("dev:");
            append_str(&mut source, drive.device.as_str());
            Ok(source)
        },
    }
}

/// The source that an extraction from a disc image reads: `file:<path>`
/// for a directory, `iso:<path>` for a file.
pub fn image_source(path: &str, is_dir: bool) -> (r: String)
    ensures
        r@ == (if is_dir { "file:"@ } else { "iso:"@ }) + path@,
{
    let mut source = if is_dir { owned("file:") } else { owned("iso:") };
    append_str(&mut source, path);
    source
}

/// The disc that an image stands for, named `stem`: a DVD for an image
/// file, a Blu-ray for a directory, none where the path is neither.
pub fn image_disc(stem: &str, is_file: bool, is_dir: bool) -> (r: Result<OpticalDisc, ExtractError>)
    ensures
        is_file ==> r is Ok && r->Ok_0@ == (OpticalDiscView::Dvd { name: stem@, uid: "deadbeef"@ }),
        !is_file && is_dir ==> r is Ok && r->Ok_0@ == (OpticalDiscView::BluRay {
            name: stem@,
            uid: "deadbeef"@,
            has_aacs: false,
            has_bdsvm: false,
        }),
        !is_file && !is_dir ==> (r matches Err(e) && e.reason == ExtractErrorReason::NoDisc && e.elapsed_secs == 0),
{
    if is_file {
        Ok(OpticalDisc::Dvd(Dvd { name: owned(stem), uid: owned("deadbeef") }))
    } else if is_dir {
        Ok(
            OpticalDisc::BluRay(
                BluRay { name: owned(stem), uid: owned("deadbeef"), has_aacs: false, has_bdsvm: false },
            ),
        )
    } else {
        Err(ExtractError { reason: ExtractErrorReason::NoDisc, elapsed_secs: 0 })
    }
}

/// The severities for an extraction from an image: the default ones, with
/// slow writing (`2008`) and the lack of optical drives (`5042`) merely
/// informational, since no drive is read.
pub fn image_severity_map() -> (r: HashMap<u32, Severity>)
    ensures
        r@ == default_severities().insert(2008, Severity::Info).insert(5042, Severity::Info),
{
    let mut m = default_severity_map();
    m.insert(2008, Severity::Info);
    m.insert(5042, Severity::Info);
    m
}

/// What an extraction amounts to once `makemkvcon` has finished: the
/// number of titles where it returned normally and the count of extracted
/// titles (`have`) is the announced one (`want`); else why it failed.
pub fn extract_outcome(returned_normally: bool, have: usize, want: usize) -> (r: Result<usize, ExtractErrorReason>)
    ensures
        !returned_normally ==> r == Err::<usize, ExtractErrorReason>(ExtractErrorReason::ExtractFailed),
        returned_normally && have == want ==> r == Ok::<usize, ExtractErrorReason>(have),
        returned_normally && have != want ==> r == Err::<usize, ExtractErrorReason>(ExtractErrorReason::TitleMismatch),
{
    if !returned_normally {
        Err(ExtractErrorReason::ExtractFailed)
    } else if have == want {
        Ok(have)
    } else {
        Err(ExtractErrorReason::TitleMismatch)
    }
}

/// A DVD and an HD-DVD back up to one image file, named as a Blu-ray of the
/// same name and id backs up to a directory, with `.iso` added; the
/// protection of a Blu-ray does not change its backup's name.
pub proof fn law_image_backups_end_in_iso(name: Seq<char>, uid: Seq<char>, aacs: bool, bdsvm: bool)
    ensures
        spec_backup_name(OpticalDiscView::Dvd { name, uid }) == spec_backup_name(
            OpticalDiscView::BluRay { name, uid, has_aacs: aacs, has_bdsvm: bdsvm },
        ) + ".iso"@,
        spec_backup_name(OpticalDiscView::HdDvd { name, uid }) == spec_backup_name(
            OpticalDiscView::BluRay { name, uid, has_aacs: aacs, has_bdsvm: bdsvm },
        ) + ".iso"@,
        spec_backup_name(OpticalDiscView::BluRay { name, uid, has_aacs: aacs, has_bdsvm: bdsvm }) == spec_backup_name(
            OpticalDiscView::BluRay { name, uid, has_aacs: false, has_bdsvm: false },
        ),
        spec_backup_name(OpticalDiscView::BluRay { name, uid, has_aacs: aacs, has_bdsvm: bdsvm }).len() == name.len()
            + 1 + uid.len(),
{
    reveal_strlit("_");
    reveal_strlit(".iso");
}

} // verus!
