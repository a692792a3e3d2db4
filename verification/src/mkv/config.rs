//! How `makemkvcon` is called: its configuration, and the arguments of its
//! commands.

use vstd::prelude::*;

use crate::mkv::runner::{DirectIO, OutputType};
use crate::text::{append_str, concat, decimal_string, owned, spec_decimal, strings_view};

verus! {

/// Whether `makemkvcon` scans the discs in the drives (`--noscan` turns
/// the scan off). Scanning only the drives is the faster choice where the
/// kind of disc does not matter.
#[derive(Clone, Copy, Debug, PartialEq, Eq, Structural)]
pub enum ScanMode {
    DriveOnly,
    DriveAndDisc,
}

impl Default for ScanMode {
    fn default() -> (r: Self)
        ensures
            r == ScanMode::DriveAndDisc,
    {
        ScanMode::DriveAndDisc
    }
}

/// How severe a message is.
#[derive(Clone, Copy, Debug, PartialEq, Eq, Structural)]
pub enum Severity {
    Error,
    Warning,
    Info,
    Debug,
    Noise,
    Unknown,
}

/// A message of `makemkvcon` with its severity.
#[derive(Clone, Debug, PartialEq)]
pub struct Message {
    pub code: u32,
    pub flags: u32,
    pub count: u32,
    pub message: String,
    pub format: String,
    pub params: Vec<String>,
    pub severity: Severity,
}

/// The settings common to all commands.
#[derive(Clone, Debug)]
pub struct MakeMkvConfig {
    /// `--robot`
    pub enable_robot: bool,
    /// `--debug`
    pub debug: bool,
    /// `--directio=...`
    pub directio: DirectIO,
    /// `--messages=...`
    pub messages: OutputType,
    /// `--progress=...`
    pub progress: OutputType,
    /// `--minlength=...`
    pub min_length: usize,
}

/// The program and its configuration.
#[derive(Clone, Debug)]
pub struct MakeMkv {
    pub binary: String,
    pub config: MakeMkvConfig,
}

/// A stand-in for the program that replays the output kept in a log file.
#[derive(Clone, Debug)]
pub struct MakeMkvMock {
    pub log_file: String,
}

/// The view of an output destination.
pub enum OutputTypeView {
    StdOut,
    StdErr,
    Silent,
    File(Seq<char>),
}

/// The view of an output destination.
pub open spec fn output_view(o: OutputType) -> OutputTypeView {
    match o {
        OutputType::StdOut => OutputTypeView::StdOut,
        OutputType::StdErr => OutputTypeView::StdErr,
        OutputType::Silent => OutputTypeView::Silent,
        OutputType::File(f) => OutputTypeView::File(f@),
    }
}

impl MakeMkv {
    /// The program at `binary` with the default settings: no robot mode
    /// or debug output, direct I/O, messages and progress silent, titles of
    /// at least 120 seconds.
    pub fn defaults(binary: String) -> (r: Self)
        ensures
            r.binary == binary,
            !r.config.enable_robot,
            !r.config.debug,
            r.config.directio == DirectIO::Enabled,
            r.config.messages == OutputType::Silent,
            r.config.progress == OutputType::Silent,
            r.config.min_length == 120,
    {
        MakeMkv {
            binary,
            config: MakeMkvConfig {
                enable_robot: false,
                debug: false,
                directio: DirectIO::Enabled,
                messages: OutputType::Silent,
                progress: OutputType::Silent,
                min_length: 120,
            },
        }
    }
}

/// `--robot` where robot mode is on.
pub open spec fn robot_part(enable_robot: bool) -> Seq<Seq<char>> {
    if enable_robot { seq!["--robot"@] } else { seq![] }
}

/// Where messages go; standard output is the default.
pub open spec fn messages_part(messages: OutputTypeView) -> Seq<Seq<char>> {
    match messages {
        OutputTypeView::StdOut => seq![],
        OutputTypeView::StdErr => seq!["--messages=-stderr"@],
        OutputTypeView::Silent => seq!["--messages=-none"@],
        OutputTypeView::File(f) => seq!["--messages="@ + f],
    }
}

/// Where progress goes; silence is the default.
pub open spec fn progress_part(progress: OutputTypeView) -> Seq<Seq<char>> {
    match progress {
        OutputTypeView::StdOut => seq!["--progress=-stdout"@],
        OutputTypeView::StdErr => seq!["--progress=-stderr"@],
        OutputTypeView::Silent => seq![],
        OutputTypeView::File(f) => seq!["--progress="@ + f],
    }
}

/// `--debug` where debug output is on.
pub open spec fn debug_part(debug: bool) -> Seq<Seq<char>> {
    if debug { seq!["--debug"@] } else { seq![] }
}

/// `--directio=false` where direct I/O is off; on is the default.
pub open spec fn directio_part(directio: DirectIO) -> Seq<Seq<char>> {
    match directio {
        DirectIO::Enabled => seq![],
        DirectIO::Disabled => seq!["--directio=false"@],
    }
}

/// The arguments of a configuration, in order: robot mode, messages,
/// progress, debug output, direct I/O, and the minimum title length.
pub open spec fn spec_config_args(cfg: MakeMkvConfig) -> Seq<Seq<char>> {
    robot_part(cfg.enable_robot) + messages_part(output_view(cfg.messages)) + progress_part(
        output_view(cfg.progress),
    ) + debug_part(cfg.debug) + directio_part(cfg.directio) + seq![
        "--minlength="@ + spec_decimal(cfg.min_length as nat),
    ]
}

/// Appends a string to a list of strings.
pub fn push_string(out: &mut Vec<String>, s: String)
    ensures
        strings_view(final(out)@) == strings_view(old(out)@).push(s@),
{
    let ghost before = out@;
    out.push(s);
    assert(strings_view(out@) =~= strings_view(before).push(s@));
}

fn push_messages(out: &mut Vec<String>, messages: &OutputType)
    ensures
        strings_view(final(out)@) == strings_view(old(out)@) + messages_part(output_view(*messages)),
{
    let ghost before = strings_view(out@);
    match messages {
        OutputType::StdOut => {},
        OutputType::StdErr => push_string(out, owned("--messages=-stderr")),
        OutputType::Silent => push_string(out, owned("--messages=-none")),
        OutputType::File(f) => push_string(out, concat("--messages=", f.as_str())),
    }
    assert(strings_view(out@) =~= before + messages_part(output_view(*messages)));
}

fn push_progress(out: &mut Vec<String>, progress: &OutputType)
    ensures
        strings_view(final(out)@) == strings_view(old(out)@) + progress_part(output_view(*progress)),
{
    let ghost before = strings_view(out@);
    match progress {
        OutputType::StdOut => push_string(out, owned("--progress=-stdout")),
        OutputType::StdErr => push_string(out, owned("--progress=-stderr")),
        OutputType::Silent => {},
        OutputType::File(f) => push_string(out, concat("--progress=", f.as_str())),
    }
    assert(strings_view(out@) =~= before + progress_part(output_view(*progress)));
}

fn push_flags(out: &mut Vec<String>, enable_robot: bool, debug: bool, directio: &DirectIO)
    ensures
        strings_view(final(out)@) == strings_view(old(out)@) + robot_part(enable_robot) + debug_part(debug)
            + directio_part(*directio),
{
    let ghost before = strings_view(out@);
    if enable_robot {
        push_string(out, owned("--robot"));
    }
    let ghost b1 = strings_view(out@);
    assert(b1 =~= before + robot_part(enable_robot));
    if debug {
        push_string(out, owned("--debug"));
    }
    let ghost b2 = strings_view(out@);
    assert(b2 =~= b1 + debug_part(debug));
    match directio {
        DirectIO::Enabled => {},
        DirectIO::Disabled => push_string(out, owned("--directio=false")),
    }
    assert(strings_view(out@) =~= b2 + directio_part(*directio));
}

/// Builds the full argument list: the configuration's arguments, then the
/// command's own, which are moved out of `args`.
pub fn create_args(cfg: &MakeMkvConfig, args: &mut Vec<String>) -> (r: Vec<String>)
    ensures
        strings_view(r@) == spec_config_args(*cfg) + strings_view(old(args)@),
        final(args)@.len() == 0,
{
    let mut robot: Vec<String> = Vec::new();
    push_flags(&mut robot, cfg.enable_robot, false, &DirectIO::Enabled);
    let mut out: Vec<String> = Vec::new();
    out.append(&mut robot);
    assert(strings_view(out@) =~= robot_part(cfg.enable_robot)) by {
        assert(debug_part(false) =~= Seq::<Seq<char>>::empty());
        assert(directio_part(DirectIO::Enabled) =~= Seq::<Seq<char>>::empty());
        assert(strings_view(Seq::<String>::empty()) =~= Seq::<Seq<char>>::empty());
    }
    push_messages(&mut out, &cfg.messages);
    push_progress(&mut out, &cfg.progress);
    let ghost b3 = strings_view(out@);
    let mut tail: Vec<String> = Vec::new();
    push_flags(&mut tail, false, cfg.debug, &cfg.directio);
    let ghost t = strings_view(tail@);
    assert(t =~= debug_part(cfg.debug) + directio_part(cfg.directio)) by {
        assert(robot_part(false) =~= Seq::<Seq<char>>::empty());
        assert(strings_view(Seq::<String>::empty()) =~= Seq::<Seq<char>>::empty());
    }
    let ghost tv = tail@;
    out.append(&mut tail);
    assert(strings_view(out@) =~= b3 + t) by {
        assert(out@ =~= out@.subrange(0, out@.len() as int));
    }
    let mut min = owned("--minlength=");
    let digits = decimal_string(cfg.min_length as u64);
    append_str(&mut min, digits.as_str());
    push_string(&mut out, min);
    let ghost a6 = strings_view(out@);
    let ghost rest = strings_view(args@);
    out.append(args);
    proof {
        assert(strings_view(out@) =~= a6 + rest);
        assert(a6 =~= spec_config_args(*cfg));
    }
    out
}

/// `--noscan` where only the drives are scanned.
pub open spec fn scan_part(scan_mode: ScanMode) -> Seq<Seq<char>> {
    match scan_mode {
        ScanMode::DriveOnly => seq!["--noscan"@],
        ScanMode::DriveAndDisc => seq![],
    }
}

fn scan_args(scan_mode: ScanMode) -> (r: Vec<String>)
    ensures
        strings_view(r@) == scan_part(scan_mode),
{
    let mut r: Vec<String> = Vec::new();
    match scan_mode {
        ScanMode::DriveOnly => push_string(&mut r, owned("--noscan")),
        ScanMode::DriveAndDisc => {},
    }
    assert(strings_view(r@) =~= scan_part(scan_mode));
    r
}

/// The arguments of `makemkvcon [--noscan] backup <source> <target>`.
pub fn backup_args(source: String, target: String, scan_mode: ScanMode) -> (r: Vec<String>)
    ensures
        strings_view(r@) == scan_part(scan_mode) + seq!["backup"@, source@, target@],
{
    let mut r = scan_args(scan_mode);
    push_string(&mut r, owned("backup"));
    push_string(&mut r, source);
    push_string(&mut r, target);
    r
}

/// The arguments of `makemkvcon [--noscan] info <source>`.
pub fn info_args(source: String, scan_mode: ScanMode) -> (r: Vec<String>)
    ensures
        strings_view(r@) == scan_part(scan_mode) + seq!["info"@, source@],
{
    let mut r = scan_args(scan_mode);
    push_string(&mut r, owned("info"));
    push_string(&mut r, source);
    r
}

/// The arguments of `makemkvcon [--noscan] mkv <source> <titles>
/// <target>`; `titles` is a title, a range of titles (`1-3`) or `all`.
pub fn mkv_args(source: String, titles: String, target: String, scan_mode: ScanMode) -> (r: Vec<String>)
    ensures
        strings_view(r@) == scan_part(scan_mode) + seq!["mkv"@, source@, titles@, target@],
{
    let mut r = scan_args(scan_mode);
    push_string(&mut r, owned("mkv"));
    push_string(&mut r, source);
    push_string(&mut r, titles);
    push_string(&mut r, target);
    r
}

/// The arguments of `makemkvcon [--noscan] f --all-yes -d <drive> rawflash
/// -i <file>`, which flashes a drive's firmware.
pub fn f_args(drive: String, filename: String, scan_mode: ScanMode) -> (r: Vec<String>)
    ensures
        strings_view(r@) == scan_part(scan_mode) + seq![
            "f"@,
            "--all-yes"@,
            "-d"@,
            drive@,
            "rawflash"@,
            "-i"@,
            filename@,
        ],
{
    let mut r = scan_args(scan_mode);
    push_string(&mut r, owned("f"));
    push_string(&mut r, owned("--all-yes"));
    push_string(&mut r, owned("-d"));
    push_string(&mut r, drive);
    push_string(&mut r, owned("rawflash"));
    push_string(&mut r, owned("-i"));
    push_string(&mut r, filename);
    r
}

/// The arguments of `makemkvcon [--noscan] --robot reg <key>`, which
/// enters a registration key.
pub fn reg_args(license_key: String, scan_mode: ScanMode) -> (r: Vec<String>)
    ensures
        strings_view(r@) == scan_part(scan_mode) + seq!["--robot"@, "reg"@, license_key@],
{
    let mut r = scan_args(scan_mode);
    push_string(&mut r, owned("--robot"));
    push_string(&mut r, owned("reg"));
    push_string(&mut r, license_key);
    r
}

} // verus!
