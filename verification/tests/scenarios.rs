use ripit::cli::{
    DirectoryVerdict, Level, directory_verdict, join_commas, normalize_path, should_show_message, title_names,
};
use ripit::mkv::config::{MakeMkv, ScanMode, backup_args, create_args, info_args, mkv_args};
use ripit::mkv::runner::{MakeMkvError, MakeMkvEvent, ParserContext};
use ripit::mkvcon::parser::{
    SeverityLevel, canned_step, parse_output_line, try_parse_canned_output, try_process_output,
};
use ripit::mkvcon::scan::{
    LanguageWarning, calculate_write_rate, drives_severity_map, is_attributes_readable, missing_languages, scan_result,
    scan_severity_map, split_segments, titles_readable,
};
use ripit::mkvcon::source::Source as ConSource;
use ripit::ripit::drives::{InfoOutcome, find_drives_result, find_matching_drive, find_matching_drives, str_less};
use ripit::ripit::paths::{is_path_less, is_same_path};
use ripit::ripit::jobs::{
    BackupState, ExtractErrorReason, UnshackleErrorReason, backup_name, backup_outcome, drive_source, extract_outcome,
    image_disc, image_source, message_class, next_backup_state, note_warning, unshackle_plan,
};
use ripit::ripit::optical_disc::{BluRay, Dvd, OpticalDisc};
use ripit::ripit::optical_drive::{OperatingSystem, OpticalDrive, eject_medium};
use ripit::ripit::severities::{Severity, default_severity_map};
use ripit::ripit::volume::{BlockId, VolumeInfo, VolumeProbe, get_volume_id, parse_blkid_output};
use std::collections::HashMap;

fn lines(v: &[&str]) -> Vec<String> {
    v.iter().map(|s| s.to_string()).collect()
}

fn drive(index: u8, device: &str, disc: Option<OpticalDisc>) -> OpticalDrive {
    OpticalDrive { index, model: "BD-RE DRIVE".to_string(), device: device.to_string(), is_enabled: 1, disc }
}

fn dvd(name: &str, uid: &str) -> OpticalDisc {
    OpticalDisc::Dvd(Dvd { name: name.to_string(), uid: uid.to_string() })
}

const SCAN: &[&str] = &[
    "MSG:1005,0,1,\"MakeMKV v1.18.1 linux(x64-release) started\",\"%1 started\",\"MakeMKV v1.18.1 linux(x64-release)\"",
    "DRV:0,2,999,1,\"BD-RE DRIVE\",\"ELVES\",\"/dev/sr0\"",
    "TCOUNT:1",
    "CINFO:2,0,\"Those Who Hunt Elves 1\"",
    "TINFO:0,8,0,\"5\"",
    "TINFO:0,9,0,\"0:23:34\"",
    "TINFO:0,11,0,\"1223931904\"",
    "TINFO:0,25,0,\"2\"",
    "TINFO:0,26,0,\"1-5, 7\"",
    "TINFO:0,27,0,\"Elves-B1_t00.mkv\"",
    "SINFO:0,0,1,6201,\"Video\"",
    "SINFO:0,0,22,0,\"0\"",
    "SINFO:0,0,33,0,\"0\"",
    "SINFO:0,0,19,0,\"720x480\"",
    "SINFO:0,1,1,6202,\"Audio\"",
    "SINFO:0,1,14,0,\"2\"",
    "SINFO:0,1,17,0,\"48000\"",
    "SINFO:0,1,22,0,\"0\"",
    "SINFO:0,1,33,0,\"0\"",
    "SINFO:0,1,3,0,\"eng\"",
];

#[test]
fn scan_reads_titles_and_streams() {
    let source = ConSource::DeviceName("/dev/sr0".to_string());
    let severities = scan_severity_map(&source);
    let parsed = try_process_output(&lines(SCAN), 0, &severities).expect("the output parses");
    assert_eq!(parsed.makemkv.version, "MakeMKV v1.18.1 linux(x64-release)");
    assert_eq!(parsed.drives.len(), 1);
    assert_eq!(parsed.errors, 0);
    assert!(titles_readable(&parsed.content.titles));
    let result = scan_result(parsed);
    let extract = result.parsed.expect("a scan has content").extract;
    assert_eq!(extract.len(), 1);
    let title = &extract[&0];
    assert_eq!(title.attributes.chapters, 5);
    assert_eq!(title.attributes.duration, "0:23:34");
    assert_eq!(title.attributes.filename, "Elves-B1_t00.mkv");
    assert_eq!(title.attributes.filesize, 1223931904);
    assert_eq!(title.attributes.segments, vec!["1-5".to_string(), "7".to_string()]);
    assert_eq!(title.streams.video.len(), 1);
    assert_eq!(title.streams.video[&0].video_size, "720x480");
    assert_eq!(title.streams.audio.len(), 1);
    assert_eq!(title.streams.audio[&1].audio_channels_count, 2);
    assert_eq!(title.streams.audio[&1].audio_sample_rate, 48000);
    assert_eq!(title.streams.audio[&1].lang_code, "eng");
    assert_eq!(title.streams.audio[&1].lang_name, "<unknown>");
    assert!(title.streams.subtitle.is_empty());
    assert_eq!(result.drives.len(), 1);
    assert_eq!(result.errors, 0);
}

#[test]
fn scan_counts_a_missing_title_as_error() {
    let mut output = lines(SCAN);
    output[2] = "TCOUNT:2".to_string();
    let severities = scan_severity_map(&ConSource::DeviceName("/dev/sr0".to_string()));
    let parsed = try_process_output(&output, 0, &severities).unwrap();
    assert_eq!(parsed.errors, 1);
}

#[test]
fn scan_refuses_a_line_that_does_not_parse() {
    let mut output = lines(SCAN);
    output.push("garbage".to_string());
    assert!(try_process_output(&output, 0, &HashMap::new()).is_none());
}

#[test]
fn scan_counts_unknown_messages_as_issues() {
    let output = lines(&["MSG:4242,0,0,\"Something odd\",\"Something odd\""]);
    let parsed = try_process_output(&output, 0, &HashMap::new()).unwrap();
    assert_eq!(parsed.issues, 1);
    assert_eq!(parsed.errors, 0);
    let mut sev = HashMap::new();
    sev.insert(4242, SeverityLevel::Error);
    let parsed = try_process_output(&output, 0, &sev).unwrap();
    assert_eq!(parsed.errors, 1);
}

#[test]
fn title_without_duration_is_not_readable() {
    let output = lines(&["TCOUNT:1", "TINFO:0,8,0,\"5\"", "TINFO:0,11,0,\"10\"", "TINFO:0,27,0,\"a.mkv\""]);
    let parsed = try_process_output(&output, 0, &HashMap::new()).unwrap();
    assert!(!titles_readable(&parsed.content.titles));
    assert!(!is_attributes_readable(&parsed.content.titles[&0].attributes));
}

#[test]
fn segment_count_must_match_segment_map() {
    let mut output = lines(SCAN);
    output[7] = "TINFO:0,25,0,\"3\"".to_string();
    let parsed = try_process_output(&output, 0, &HashMap::new()).unwrap();
    assert!(!titles_readable(&parsed.content.titles));
}

#[test]
fn segments_are_trimmed_and_empty_ones_dropped() {
    assert_eq!(split_segments(" 1-10 ,, 11-13 ,"), vec!["1-10".to_string(), "11-13".to_string()]);
    assert!(split_segments("").is_empty());
}

#[test]
fn write_rate_is_bytes_per_second() {
    assert_eq!(calculate_write_rate(1000, 10), 100);
    assert_eq!(calculate_write_rate(1001, 10), 100);
    assert_eq!(calculate_write_rate(1000, 0), 0);
}

#[test]
fn drive_listing_silences_its_own_failure() {
    let m = drives_severity_map();
    assert_eq!(m.get(&5010), Some(&SeverityLevel::Debug));
    assert_eq!(m.get(&5042), Some(&SeverityLevel::Debug));
    assert_eq!(m.len(), 3);
}

#[test]
fn scan_of_a_file_silences_the_missing_drive() {
    let file = scan_severity_map(&ConSource::IsoFile("a.iso".to_string()));
    assert_eq!(file.get(&5042), Some(&SeverityLevel::Debug));
    let dev = scan_severity_map(&ConSource::DeviceName("/dev/sr0".to_string()));
    assert_eq!(dev.get(&5042), Some(&SeverityLevel::Error));
}

const RUN: &[&str] = &[
    "MSG:1005,0,1,\"MakeMKV v1.18.1 linux(x64-release) started\",\"%1 started\",\"MakeMKV v1.18.1 linux(x64-release)\"",
    "DRV:0,2,999,1,\"BD-RE DRIVE\",\"ELVES\",\"/dev/sr0\"",
    "DRV:1,256,999,0,\"\",\"\",\"\"",
    "PRGT:5018,0,\"Scanning CD-ROM devices\"",
    "PRGC:5018,0,\"Scanning CD-ROM devices\"",
    "PRGV:100,200,65536",
    "TCOUNT:1",
    "CINFO:2,0,\"Those Who Hunt Elves 1\"",
    "TINFO:0,8,0,\"5\"",
    "TINFO:0,11,0,\"1223931904\"",
    "SINFO:0,0,1,6201,\"Video\"",
    "SINFO:0,0,22,0,\"0\"",
    "SINFO:0,0,33,0,\"0\"",
];

#[test]
fn runner_reports_events_and_content() {
    let mut ctx = ParserContext::new("disc:0");
    let mut events = Vec::new();
    for line in RUN {
        assert!(ctx.accepts_line(line));
        events.extend(ctx.process_output(line));
    }
    // the empty drive slot raises no event
    assert_eq!(events.len(), 7);
    assert!(matches!(events[0], MakeMkvEvent::MSG(_)));
    assert!(matches!(events[1], MakeMkvEvent::DRV(_)));
    assert!(matches!(events[2], MakeMkvEvent::PRGT(_)));
    match &events[3] {
        MakeMkvEvent::PRGC(p) => assert_eq!(p.source, "disc:0"),
        _ => panic!("expected a PRGC event"),
    }
    // a progress bar that starts above zero is first shown at zero
    match (&events[4], &events[5]) {
        (MakeMkvEvent::PRGV(a), MakeMkvEvent::PRGV(b)) => {
            assert_eq!((a.current, a.total, a.maximum), (0, 200, 65536));
            assert_eq!((b.current, b.total, b.maximum), (100, 200, 65536));
        },
        _ => panic!("expected two PRGV events"),
    }
    assert!(matches!(events[6], MakeMkvEvent::TCOUNT(1)));
    assert!(ctx.streams_ready());
    let (last, content) = ctx.finish();
    // the progress bar that stopped short is completed
    let last = last.expect("progress stopped short");
    assert_eq!((last.current, last.total, last.maximum), (65536, 200, 65536));
    let content = content.expect("the title count matches");
    assert_eq!(content.info.name.as_deref(), Some("Those Who Hunt Elves 1"));
    assert_eq!(content.titles.len(), 1);
    assert_eq!(content.titles[&0].info.chapter_count, 5);
    assert_eq!(content.titles[&0].info.disk_size_bytes, 1223931904);
    assert_eq!(content.titles[&0].streams.len(), 1);
}

#[test]
fn runner_fails_on_a_title_count_mismatch() {
    let mut ctx = ParserContext::new("disc:0");
    for line in ["TCOUNT:2", "TINFO:0,8,0,\"5\""] {
        assert!(ctx.accepts_line(line));
        ctx.process_output(line);
    }
    let (last, content) = ctx.finish();
    assert!(last.is_none());
    match content {
        Err(MakeMkvError::DataError(msg)) => assert_eq!(msg, "Found content but didn't see TCOUNT in output!"),
        Ok(_) => panic!("expected an error"),
    }
}

#[test]
fn runner_refuses_unparsable_lines() {
    let ctx = ParserContext::new("disc:0");
    assert!(!ctx.accepts_line("NOPE:1"));
    assert!(!ctx.accepts_line("TCOUNT:x"));
}

#[test]
fn config_arguments_come_first() {
    let mm = MakeMkv::defaults("makemkvcon".to_string());
    let mut args = vec!["info".to_string(), "disc:0".to_string()];
    let all = create_args(&mm.config, &mut args);
    assert!(args.is_empty());
    assert_eq!(all.last().unwrap(), "disc:0");
    assert!(all.contains(&"--minlength=120".to_string()));
    let pos_min = all.iter().position(|a| a == "--minlength=120").unwrap();
    let pos_info = all.iter().position(|a| a == "info").unwrap();
    assert!(pos_min < pos_info);
}

#[test]
fn command_arguments() {
    assert_eq!(
        backup_args("disc:0".to_string(), "out.iso".to_string(), ScanMode::DriveOnly),
        vec!["--noscan", "backup", "disc:0", "out.iso"]
    );
    assert_eq!(info_args("disc:-1".to_string(), ScanMode::DriveAndDisc), vec!["info", "disc:-1"]);
    assert_eq!(
        mkv_args("dev:/dev/sr0".to_string(), "all".to_string(), "out".to_string(), ScanMode::DriveAndDisc),
        vec!["mkv", "dev:/dev/sr0", "all", "out"]
    );
}

#[test]
fn backup_state_follows_messages() {
    let mut s = BackupState::Running;
    s = next_backup_state(s, 1005);
    assert_eq!(s, BackupState::Running);
    s = next_backup_state(s, 5070);
    assert_eq!(s, BackupState::Success);
    assert_eq!(backup_outcome(s, true), Ok(()));
}

#[test]
fn conflicting_backup_reports_are_unknown() {
    let s = next_backup_state(next_backup_state(BackupState::Running, 5081), 5080);
    assert_eq!(s, BackupState::Unknown);
    assert_eq!(backup_outcome(s, true), Err(UnshackleErrorReason::UnknownResult));
    let s = next_backup_state(next_backup_state(BackupState::Running, 5069), 5070);
    assert_eq!(s, BackupState::Unknown);
    assert_eq!(next_backup_state(BackupState::Success, 5010), BackupState::Failure);
    assert_eq!(backup_outcome(BackupState::Failure, true), Err(UnshackleErrorReason::BackupFailed));
    assert_eq!(backup_outcome(BackupState::Success, false), Err(UnshackleErrorReason::InternalError));
}

#[test]
fn unknown_message_codes_are_warnings() {
    let m = default_severity_map();
    assert_eq!(message_class(&m, 5010), Severity::Fail);
    assert_eq!(message_class(&m, 1005), Severity::Info);
    assert_eq!(message_class(&m, 9999), Severity::Warn);
}

#[test]
fn backup_names() {
    assert_eq!(backup_name(&dvd("ELVES", "3b97")), "ELVES_3b97.iso");
    let bd = OpticalDisc::BluRay(BluRay {
        name: "JUMANJI".to_string(),
        uid: "8d7a".to_string(),
        has_aacs: true,
        has_bdsvm: false,
    });
    assert_eq!(backup_name(&bd), "JUMANJI_8d7a");
}

#[test]
fn unshackle_needs_a_disc() {
    let (source, name) = unshackle_plan(&drive(2, "/dev/sr2", Some(dvd("ELVES", "3b97")))).unwrap();
    assert_eq!(source, "disc:2");
    assert_eq!(name, "ELVES_3b97.iso");
    let err = unshackle_plan(&drive(2, "/dev/sr2", None)).unwrap_err();
    assert_eq!(err.reason, UnshackleErrorReason::NoDisc);
    assert_eq!(err.elapsed_secs, 0);
}

#[test]
fn extraction_sources() {
    assert_eq!(drive_source(&drive(0, "/dev/sr0", Some(dvd("A", "b")))).unwrap(), "dev:/dev/sr0");
    assert_eq!(drive_source(&drive(0, "/dev/sr0", None)).unwrap_err().reason, ExtractErrorReason::NoDisc);
    assert_eq!(image_source("/tmp/a.iso", false), "iso:/tmp/a.iso");
    assert_eq!(image_source("/tmp/bd", true), "file:/tmp/bd");
    assert_eq!(image_disc("a", true, false).unwrap(), dvd("a", "deadbeef"));
    assert!(matches!(image_disc("bd", false, true).unwrap(), OpticalDisc::BluRay(_)));
    assert_eq!(image_disc("x", false, false).unwrap_err().reason, ExtractErrorReason::NoDisc);
}

#[test]
fn extraction_outcome() {
    assert_eq!(extract_outcome(true, 3, 3), Ok(3));
    assert_eq!(extract_outcome(true, 2, 3), Err(ExtractErrorReason::TitleMismatch));
    assert_eq!(extract_outcome(false, 3, 3), Err(ExtractErrorReason::ExtractFailed));
}

#[test]
fn matching_drives_are_sorted_by_device_descending() {
    let have = vec![drive(0, "/dev/sr0", None), drive(2, "/dev/sr2", None), drive(1, "/dev/sr1", None)];
    let all = find_matching_drives(&have, &[], OperatingSystem::Linux);
    let devices: Vec<&str> = all.iter().map(|d| d.device.as_str()).collect();
    assert_eq!(devices, vec!["/dev/sr2", "/dev/sr1", "/dev/sr0"]);
    let some = find_matching_drives(&have, &["/dev/sr0".to_string(), "/dev/sr9".to_string()], OperatingSystem::Linux);
    assert_eq!(some.len(), 1);
    assert_eq!(some[0].device, "/dev/sr0");
}

#[test]
fn text_order_is_code_point_order() {
    assert!(str_less("/dev/sr0", "/dev/sr1"));
    assert!(!str_less("/dev/sr1", "/dev/sr1"));
    assert!(str_less("D:", "D:\\"));
    assert!(!str_less("b", "a"));
}

#[test]
fn drive_listing_result() {
    let drives = vec![drive(0, "/dev/sr0", None)];
    assert_eq!(find_drives_result(InfoOutcome::Finished, drives).unwrap().len(), 1);
    assert_eq!(find_drives_result(InfoOutcome::DataError, vec![]).unwrap_err(), "DataError");
    assert_eq!(find_drives_result(InfoOutcome::Aborted, vec![]).unwrap_err(), "GenericError");
}

#[test]
fn eject_commands() {
    let linux = eject_medium("/dev/sr0", OperatingSystem::Linux).unwrap();
    assert_eq!(linux.program, "eject");
    assert_eq!(linux.args, vec!["/dev/sr0".to_string()]);
    assert!(eject_medium("D:", OperatingSystem::Linux).is_none());
    let win = eject_medium("D:", OperatingSystem::Windows).unwrap();
    assert_eq!(win.program, "powershell.exe");
    assert_eq!(win.args.len(), 3);
    assert!(win.args[2].contains("ParseName(\"D:\")"));
    assert!(eject_medium("/dev/sr0", OperatingSystem::Windows).is_none());
    assert!(eject_medium("/dev/sr0", OperatingSystem::Other).is_none());
}

#[test]
fn blkid_output_is_read() {
    let out = "DEVNAME=/dev/sr0\nUUID=3b97e7f85f5f5f4d\nLABEL=THOSE\\ WHO\nBLOCK_SIZE=2048\nTYPE=udf\n";
    let b = parse_blkid_output(out).unwrap();
    assert_eq!(b.dev_name, "/dev/sr0");
    assert_eq!(b.uuid, "3b97e7f85f5f5f4d");
    assert_eq!(b.label, "THOSE WHO");
    assert_eq!(b.block_size, 2048);
    assert_eq!(b.fs_type, "udf");
    assert!(parse_blkid_output("DEVNAME=/dev/sr0\nUUID=x\n").is_none());
}

#[test]
fn volume_ids() {
    let b = BlockId {
        dev_name: "/dev/sr0".to_string(),
        uuid: "3b97".to_string(),
        label: "ELVES".to_string(),
        block_size: 2048,
        fs_type: "udf".to_string(),
    };
    assert_eq!(get_volume_id(&VolumeProbe::Linux(Some(b))), Some("ELVES_3b97".to_string()));
    let v = VolumeInfo {
        volume_name: "JUMANJI".to_string(),
        volume_serial: "1234".to_string(),
        max_component_length: 255,
        filesystem_flags: 0,
        filesystem_name: "UDF".to_string(),
    };
    assert_eq!(get_volume_id(&VolumeProbe::Windows(Some(v))), Some("JUMANJI_1234".to_string()));
    assert_eq!(get_volume_id(&VolumeProbe::Linux(None)), None);
    assert_eq!(get_volume_id(&VolumeProbe::Other), None);
}

#[test]
fn paths_lose_trailing_separators() {
    assert_eq!(normalize_path("/media/image/"), "/media/image");
    assert_eq!(normalize_path("C:\\dumped\\\\"), "C:\\dumped");
    assert_eq!(normalize_path("/"), "");
    assert_eq!(normalize_path("plain"), "plain");
}

#[test]
fn other_modules_show_only_warnings_and_errors() {
    assert!(should_show_message("ripit", Level::Error));
    assert!(should_show_message("makemkv", Level::Warn));
    assert!(!should_show_message("ripit", Level::Debug));
    assert!(!should_show_message("tokio::runtime", Level::Info));
    assert!(!should_show_message("makemkv::runner", Level::Info));
}

#[test]
fn replay_of_logged_output() {
    let mock = ripit::mkv::config::MakeMkvMock { log_file: "disc.log".to_string() };
    let (events, content) = mock.replay(&lines(RUN)).expect("the log replays");
    assert!(matches!(events[0], MakeMkvEvent::MSG(_)));
    let content = content.expect("the title count matches");
    assert_eq!(content.titles.len(), 1);
    assert_eq!(content.titles[&0].streams.len(), 1);
}

#[test]
fn existing_targets_are_deleted_only_when_safe() {
    assert_eq!(directory_verdict(false, 0, 0), DirectoryVerdict::NotADirectory);
    assert_eq!(directory_verdict(true, 3, 1), DirectoryVerdict::Refuse);
    assert_eq!(directory_verdict(true, 2, 0), DirectoryVerdict::Confirm);
    assert_eq!(directory_verdict(true, 0, 0), DirectoryVerdict::Delete);
}

#[test]
fn output_parsed_line_by_line_matches_parsing_it_at_once() {
    let data: Vec<&[u8]> = vec![
        b"MSG:1005,0,1,\"MakeMKV v1.17.9 linux(x64-release) started\",\"%1 started\",\"MakeMKV v1.17.9 linux(x64-release)\"",
        b"TCOUNT:1",
        b"MSG:9999,0,0,\"message\",\"message\"",
        b"TINFO:0,9,0,\"0:23:39\"",
    ];
    let (records, issues) = try_parse_canned_output(&data).unwrap();
    let mut started = false;
    let mut stepped = Vec::new();
    let mut stepped_issues = 0;
    for line in &data {
        let (s, record, issue) = canned_step(started, parse_output_line(line));
        started = s;
        if issue {
            stepped_issues += 1;
        }
        stepped.extend(record);
    }
    assert_eq!(records, stepped);
    assert_eq!(issues, stepped_issues);
    assert_eq!(issues, 1);
    assert_eq!(records.len(), 2);
}

#[test]
fn stream_of_unknown_type_is_not_readable() {
    let mut output = lines(SCAN);
    output[10] = "SINFO:0,0,1,6201,\"Data\"".to_string();
    let parsed = try_process_output(&output, 0, &HashMap::new()).unwrap();
    assert!(!titles_readable(&parsed.content.titles));
}

#[test]
fn titles_to_extract() {
    assert_eq!(title_names(&vec![]), vec!["all".to_string()]);
    assert_eq!(title_names(&vec![0, 12]), vec!["0".to_string(), "12".to_string()]);
    assert_eq!(join_commas(&title_names(&vec![0, 12, 3])), "0,12,3");
    assert_eq!(join_commas(&vec![]), "");
    assert_eq!(join_commas(&vec!["all".to_string()]), "all");
}

#[test]
fn program_modules_show_information() {
    assert!(should_show_message("ripit_cli::cmd_scan", Level::Info));
    assert!(should_show_message("ripit_cli", Level::Info));
    assert!(should_show_message("cmd_unshackle", Level::Info));
    assert!(should_show_message("ripit::unshackle", Level::Info));
    assert!(!should_show_message("ripit_cli::cmd_scan", Level::Debug));
}

#[test]
fn paths_are_compared_by_components() {
    assert!(is_same_path("/dev/sr0", "/dev/sr0/", OperatingSystem::Linux));
    assert!(is_same_path("//dev//sr0", "/dev/sr0", OperatingSystem::Linux));
    assert!(is_same_path("/dev/./sr0", "/dev/sr0", OperatingSystem::Linux));
    assert!(is_same_path("./sr0", "./sr0/", OperatingSystem::Linux));
    assert!(!is_same_path("./sr0", "sr0", OperatingSystem::Linux));
    assert!(!is_same_path("dev/sr0", "/dev/sr0", OperatingSystem::Linux));
    assert!(!is_same_path("/dev/sr0", "/dev/sr1", OperatingSystem::Linux));
    let have = vec![drive(0, "/dev/sr0", None), drive(1, "/dev/sr1", None)];
    assert_eq!(find_matching_drive(&have, "/dev/sr1/", OperatingSystem::Linux).unwrap().index, 1);
    assert!(find_matching_drive(&have, "/dev/sr2", OperatingSystem::Linux).is_none());
    let some = find_matching_drives(&have, &["/dev//sr0/".to_string()], OperatingSystem::Linux);
    assert_eq!(some.len(), 1);
    assert_eq!(some[0].device, "/dev/sr0");
}

#[test]
fn drives_with_equal_devices_keep_their_order() {
    let have = vec![drive(0, "/dev/sr0", None), drive(1, "/dev/sr1", None), drive(2, "/dev/sr0", None)];
    let all = find_matching_drives(&have, &[], OperatingSystem::Linux);
    let order: Vec<u8> = all.iter().map(|d| d.index).collect();
    assert_eq!(order, vec![1, 0, 2]);
}

fn scan_with_duration(duration: &str) -> ripit::mkvcon::scan::ScanResult {
    let mut output = lines(SCAN);
    output[5] = format!("TINFO:0,9,0,\"{}\"", duration);
    let parsed = try_process_output(&output, 0, &HashMap::new()).unwrap();
    scan_result(parsed)
}

#[test]
fn audio_streams_without_language_are_reported() {
    // the audio stream (number 1) has a language code but no name
    assert_eq!(missing_languages(&scan_with_duration("0:23:34")), vec![(0, 1, LanguageWarning::NoName)]);
    // titles of two minutes or less are not checked
    assert!(missing_languages(&scan_with_duration("0:01:00")).is_empty());
    assert_eq!(missing_languages(&scan_with_duration("1:47:58")), vec![(0, 1, LanguageWarning::NoName)]);
    // a duration that is no time of day is reported per audio stream
    assert_eq!(missing_languages(&scan_with_duration("soon")), vec![(0, 1, LanguageWarning::BadDuration)]);
}

#[test]
fn paths_follow_the_platform() {
    let w = OperatingSystem::Windows;
    assert!(is_same_path("E:\\x\\", "E:\\x", w));
    assert!(is_same_path("E:/x", "E:\\x", w));
    assert!(is_same_path("e:", "E:", w));
    assert!(!is_same_path("E:", "E:\\", w));
    // on Linux a backslash is part of a name
    assert!(!is_same_path("E:\\x\\", "E:\\x", OperatingSystem::Linux));
    assert!(is_same_path("/x/", "\\x", OperatingSystem::Windows));
}

#[test]
fn drives_are_ordered_as_paths() {
    // by components "/a/b" comes before "/a-b", by text after it
    assert!(is_path_less("/a/b", "/a-b", OperatingSystem::Linux));
    assert!(str_less("/a-b", "/a/b"));
    // the root comes before names
    assert!(is_path_less("/x", "x", OperatingSystem::Linux));
    assert!(!is_path_less("x", "/x", OperatingSystem::Linux));
    let have = vec![drive(0, "/a/b", None), drive(1, "/a-b", None)];
    let order: Vec<u8> = find_matching_drives(&have, &[], OperatingSystem::Linux).iter().map(|d| d.index).collect();
    assert_eq!(order, vec![1, 0]);
}

#[test]
fn read_issues_are_counted_not_shown() {
    assert_eq!(note_warning(0, 4004), (1, false));
    assert_eq!(note_warning(1, 4004), (2, false));
    assert_eq!(note_warning(2, 5001), (2, true));
}
