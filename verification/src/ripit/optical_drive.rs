//! Optical drives as MakeMKV reports them, and the disc that each holds.

use vstd::prelude::*;

use crate::api::drive::{ContentType, DriveRecord};
use crate::pattern::{regex_is_match, regex_match};
use crate::ripit::optical_disc::{BluRay, Dvd, HdDvd, OpticalDisc, OpticalDiscView, disc_name, disc_type};
use crate::text::{append_str, owned};

verus! {

/// An optical drive and the disc in it.
#[derive(Clone, Debug, PartialEq, Eq, Hash)]
pub struct OpticalDrive {
    /// the device index that `makemkvcon` uses
    pub index: u8,
    /// the model, e.g. "BD-RE ASUS BW-16D1HT 3.10 KL1OBDB4635"
    pub model: String,
    /// the device name, e.g. "E:" or "/dev/sr0"
    pub device: String,
    /// as `makemkvcon` reports it (its meaning is unclear)
    pub is_enabled: u32,
    /// the inserted disc
    pub disc: Option<OpticalDisc>,
}

/// The mathematical content of an [`OpticalDrive`].
pub struct OpticalDriveView {
    pub index: u8,
    pub model: Seq<char>,
    pub device: Seq<char>,
    pub is_enabled: u32,
    pub disc: Option<OpticalDiscView>,
}

impl View for OpticalDrive {
    type V = OpticalDriveView;

    open spec fn view(&self) -> OpticalDriveView {
        OpticalDriveView {
            index: self.index,
            model: self.model@,
            device: self.device@,
            is_enabled: self.is_enabled,
            disc: match self.disc {
                Some(d) => Some(d@),
                None => None,
            },
        }
    }
}

/// The operating system that a command is meant for.
#[derive(Clone, Copy, Debug, PartialEq, Eq, Structural)]
pub enum OperatingSystem {
    Linux,
    Windows,
    Other,
}

/// A program to run, with its arguments.
#[derive(Clone, Debug, PartialEq)]
pub struct Command {
    pub program: String,
    pub args: Vec<String>,
}

/// A device name on Linux.
pub const DEVICE_PATTERN: &'static str = r"^/dev/";

/// A drive letter on Windows. A: and B: belong to floppy drives and C: to
/// the first hard disk, but any letter is taken.
pub const DRIVE_LETTER_PATTERN: &'static str = r"^[A-Z]:$";

/// The PowerShell script that ejects the medium of a drive.
pub open spec fn eject_script(drive: Seq<char>) -> Seq<char> {
    "$driveEject = New-Object -comObject Shell.Application; $driveEject.Namespace(17).ParseName(\""@ + drive
        + "\").InvokeVerb(\"Eject\")"@
}

/// The command that ejects the medium of `source`: `eject <device>` for a
/// device name on Linux, a PowerShell script for a drive letter on
/// Windows; none where `source` is neither, on another system, or where a
/// pattern does not compile.
pub open spec fn eject_plan(source: Seq<char>, os: OperatingSystem) -> Option<(Seq<char>, Seq<Seq<char>>)> {
    match os {
        OperatingSystem::Linux => if regex_match(DEVICE_PATTERN@, source) == Some(true) {
            Some(("eject"@, seq![source]))
        } else {
            None
        },
        OperatingSystem::Windows => if regex_match(DRIVE_LETTER_PATTERN@, source) == Some(true) {
            Some(("powershell.exe"@, seq!["-NoProfile"@, "-Command"@, eject_script(source)]))
        } else {
            None
        },
        OperatingSystem::Other => None,
    }
}

/// The view of a command.
pub open spec fn command_view(c: Option<Command>) -> Option<(Seq<char>, Seq<Seq<char>>)> {
    match c {
        Some(c) => Some((c.program@, crate::text::strings_view(c.args@))),
        None => None,
    }
}

/// Decides how to eject the medium of `source` on `os` (see
/// [`eject_plan`]); running the command is left to the caller.
pub fn eject_medium(source: &str, os: OperatingSystem) -> (r: Option<Command>)
    ensures
        command_view(r) == eject_plan(source@, os),
{
    match os {
        OperatingSystem::Linux => {
            if regex_is_match(DEVICE_PATTERN, source) == Some(true) {
                let mut args: Vec<String> = Vec::new();
                args.push(owned(source));
                assert(crate::text::strings_view(args@) =~= seq![source@]);
                Some(Command { program: owned("eject"), args })
            } else {
                None
            }
        },
        OperatingSystem::Windows => {
            if regex_is_match(DRIVE_LETTER_PATTERN, source) == Some(true) {
                let mut script = owned(
                    "$driveEject = New-Object -comObject Shell.Application; $driveEject.Namespace(17).ParseName(\"",
                );
                append_str(&mut script, source);
                append_str(&mut script, "\").InvokeVerb(\"Eject\")");
                let mut args: Vec<String> = Vec::new();
                args.push(owned("-NoProfile"));
                args.push(owned("-Command"));
                args.push(script);
                assert(crate::text::strings_view(args@) =~= seq!["-NoProfile"@, "-Command"@, eject_script(source@)]);
                Some(Command { program: owned("powershell.exe"), args })
            } else {
                None
            }
        },
        OperatingSystem::Other => None,
    }
}

/// The disc that a drive's content type describes, named `name` with id
/// `uid`: a DVD, else an HD-DVD, else a Blu-ray; none without such files.
pub open spec fn spec_disc_type(name: Seq<char>, uid: Seq<char>, ct: ContentType) -> Option<OpticalDiscView> {
    if ct.has_dvd_files {
        Some(OpticalDiscView::Dvd { name, uid })
    } else if ct.has_hddvd_files {
        Some(OpticalDiscView::HdDvd { name, uid })
    } else if ct.has_bluray_files {
        Some(OpticalDiscView::BluRay { name, uid, has_aacs: ct.has_aacs_files, has_bdsvm: ct.has_bdsvm_files })
    } else {
        None
    }
}

/// The view of an optional disc.
pub open spec fn opt_disc_view(d: Option<OpticalDisc>) -> Option<OpticalDiscView> {
    match d {
        Some(x) => Some(x@),
        None => None,
    }
}

/// Determines the disc from a drive's content type.
pub fn parse_disc_type(name: &str, uid: &str, content_type: &ContentType) -> (r: Option<OpticalDisc>)
    ensures
        opt_disc_view(r) == spec_disc_type(name@, uid@, *content_type),
{
    if content_type.has_dvd_files {
        Some(OpticalDisc::Dvd(Dvd { name: owned(name), uid: owned(uid) }))
    } else if content_type.has_hddvd_files {
        Some(OpticalDisc::HdDvd(HdDvd { name: owned(name), uid: owned(uid) }))
    } else if content_type.has_bluray_files {
        Some(
            OpticalDisc::BluRay(
                BluRay {
                    name: owned(name),
                    uid: owned(uid),
                    has_aacs: content_type.has_aacs_files,
                    has_bdsvm: content_type.has_bdsvm_files,
                },
            ),
        )
    } else {
        None
    }
}

impl OpticalDrive {
    /// The drive that a `DRV` record describes, where `volume_id` is the
    /// id that the operating system gives the disc in it (none where it
    /// gave none, and then the drive counts as empty).
    pub fn from_drive_record(dr: &DriveRecord, volume_id: Option<String>) -> (r: Self)
        ensures
            r@.index == dr.index,
            r@.model == dr.drive_name@,
            r@.device == dr.device_name@,
            r@.is_enabled == dr.is_enabled,
            r@.disc == match volume_id {
                Some(uid) => spec_disc_type(dr.disc_name@, uid@, dr.content_type),
                None => None,
            },
    {
        let disc = match volume_id {
            Some(uid) => parse_disc_type(dr.disc_name.as_str(), uid.as_str(), &dr.content_type),
            None => None,
        };
        OpticalDrive {
            index: dr.index,
            model: dr.drive_name.clone(),
            device: dr.device_name.clone(),
            is_enabled: dr.is_enabled,
            disc,
        }
    }

    /// The drive holds no disc.
    pub fn is_empty(&self) -> (r: bool)
        ensures
            r == (self.disc is None),
    {
        self.disc.is_none()
    }

    /// The drive holds a disc.
    pub fn has_disc(&self) -> (r: bool)
        ensures
            r == (self.disc is Some),
    {
        self.disc.is_some()
    }

    /// The volume name of the disc, if there is one.
    pub fn get_disc_name(&self) -> (r: Option<&str>)
        ensures
            match r {
                Some(n) => self@.disc is Some && n@ == disc_name(self@.disc.unwrap()),
                None => self@.disc is None,
            },
    {
        match &self.disc {
            Some(disc) => Some(disc.get_name()),
            None => None,
        }
    }

    /// The kind of the disc, if there is one.
    pub fn get_disc_type(&self) -> (r: Option<&str>)
        ensures
            match r {
                Some(t) => self@.disc is Some && t@ == disc_type(self@.disc.unwrap()),
                None => self@.disc is None,
            },
    {
        match &self.disc {
            Some(disc) => Some(disc.get_type()),
            None => None,
        }
    }

    /// How to open the tray and eject the disc on `os` (see
    /// [`eject_plan`]).
    pub fn eject_disc(&self, os: OperatingSystem) -> (r: Option<Command>)
        ensures
            command_view(r) == eject_plan(self.device@, os),
    {
        eject_medium(self.device.as_str(), os)
    }

    /// A copy with the same content.
    pub fn duplicate(&self) -> (r: Self)
        ensures
            r@ == self@,
    {
        OpticalDrive {
            index: self.index,
            model: self.model.clone(),
            device: self.device.clone(),
            is_enabled: self.is_enabled,
            disc: match &self.disc {
                Some(d) => Some(d.duplicate()),
                None => None,
            },
        }
    }
}

/// The kind of the disc in a drive follows the files found on it: DVD
/// files make a DVD, else HD-DVD files an HD-DVD, else Blu-ray files a
/// Blu-ray (with its protections); without such files there is no disc.
/// The disc keeps the volume name.
pub proof fn law_disc_kind_follows_files(name: Seq<char>, uid: Seq<char>, ct: ContentType)
    ensures
        ct.has_dvd_files ==> (spec_disc_type(name, uid, ct) matches Some(d) && disc_type(d) == "DVD"@),
        !ct.has_dvd_files && ct.has_hddvd_files ==> (spec_disc_type(name, uid, ct) matches Some(d) && disc_type(d)
            == "HD-DVD"@),
        !ct.has_dvd_files && !ct.has_hddvd_files && ct.has_bluray_files ==> (spec_disc_type(name, uid, ct) matches Some(
            d,
        ) && disc_type(d) == "Blu-Ray"@ && (d matches OpticalDiscView::BluRay { has_aacs, has_bdsvm, .. } && has_aacs
            == ct.has_aacs_files && has_bdsvm == ct.has_bdsvm_files)),
        !ct.has_dvd_files && !ct.has_hddvd_files && !ct.has_bluray_files ==> spec_disc_type(name, uid, ct) is None,
        spec_disc_type(name, uid, ct) matches Some(d) ==> disc_name(d) == name,
{
}

} // verus!
