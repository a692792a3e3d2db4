use ripit::mkv::source::{PathKind, Source, parse_source};
use ripit::mkvcon::source::{Source as ConSource, parse_source as con_parse_source};

fn path_kind(s: &str) -> PathKind {
    let p = std::path::Path::new(s);
    if p.is_dir() {
        PathKind::Directory
    } else if p.is_file() {
        PathKind::File
    } else {
        PathKind::Missing
    }
}

#[test]
fn test_format_disc_id() {
    // ----------------------------------------------------------------
    let computed = Source::DiscId(0).to_string();
    let expected = "disc:0".to_string();
    // ----------------------------------------------------------------
    assert_eq!(computed, expected);
}

#[test]
fn test_format_drive_letter_1() {
    // ----------------------------------------------------------------
    let computed = Source::DriveLetter("E:".to_string()).to_string();
    let expected = "dev:E:".to_string();
    // ----------------------------------------------------------------
    assert_eq!(computed, expected);
}

#[test]
fn test_format_drive_letter_2() {
    // ----------------------------------------------------------------
    let computed = Source::DriveLetter(r"E:\".to_string()).to_string();
    let expected = r"dev:E:\".to_string();
    // ----------------------------------------------------------------
    assert_eq!(computed, expected);
}

#[test]
fn mod_test_format_device_name() {
    // ----------------------------------------------------------------
    let computed = Source::DeviceName("/dev/sr0".to_string()).to_string();
    let expected = "dev:/dev/sr0".to_string();
    // ----------------------------------------------------------------
    assert_eq!(computed, expected);
}

#[test]
fn mod_test_format_iso_file() {
    // ----------------------------------------------------------------
    let computed = Source::IsoFile("/home/user/dvd.iso".to_string()).to_string();
    let expected = "iso:/home/user/dvd.iso".to_string();
    // ----------------------------------------------------------------
    assert_eq!(computed, expected);
}

#[test]
fn mod_test_format_directory() {
    // ----------------------------------------------------------------
    let computed = Source::Directory("/home/user/dvd_folder".to_string()).to_string();
    let expected = "file:/home/user/dvd_folder".to_string();
    // ----------------------------------------------------------------
    assert_eq!(computed, expected);
}

#[test]
fn test_parse_source_as_disc_1() {
    // ----------------------------------------------------------------
    let computed = parse_source("0", path_kind("0")).unwrap();
    let expected = Source::DiscId(0);
    // ----------------------------------------------------------------
    assert_eq!(computed, expected);
}

#[test]
fn test_parse_source_as_disc_2() {
    // ----------------------------------------------------------------
    let computed = parse_source("15", path_kind("15")).unwrap();
    let expected = Source::DiscId(15);
    // ----------------------------------------------------------------
    assert_eq!(computed, expected);
}

#[test]
fn test_parse_source_as_disc_oor() {
    // ----------------------------------------------------------------
    let computed = parse_source("16", path_kind("16"));
    let expected = None;
    // ----------------------------------------------------------------
    assert_eq!(computed, expected);
}

#[test]
fn test_parse_source_as_drive_letter_lc1() {
    // ----------------------------------------------------------------
    let computed = parse_source(r"a:", path_kind(r"a:")).unwrap();
    let expected = Source::DriveLetter("A:".to_string());
    // ----------------------------------------------------------------
    assert_eq!(computed, expected);
}

#[test]
fn test_parse_source_as_drive_letter_lc2() {
    // ----------------------------------------------------------------
    let computed = parse_source(r"z:\", path_kind(r"z:\")).unwrap();
    let expected = Source::DriveLetter("Z:".to_string());
    // ----------------------------------------------------------------
    assert_eq!(computed, expected);
}

#[test]
fn test_parse_source_as_drive_letter_uc1() {
    // ----------------------------------------------------------------
    let computed = parse_source(r"A:", path_kind(r"A:")).unwrap();
    let expected = Source::DriveLetter("A:".to_string());
    // ----------------------------------------------------------------
    assert_eq!(computed, expected);
}

#[test]
fn test_parse_source_as_drive_letter_uc2() {
    // ----------------------------------------------------------------
    let computed = parse_source(r"Z:\", path_kind(r"Z:\")).unwrap();
    let expected = Source::DriveLetter("Z:".to_string());
    // ----------------------------------------------------------------
    assert_eq!(computed, expected);
}

#[test]
fn mod_test_parse_source_as_device_name() {
    // ----------------------------------------------------------------
    let computed = parse_source("/dev/sr1", path_kind("/dev/sr1")).unwrap();
    let expected = Source::DeviceName("/dev/sr1".to_string());
    // ----------------------------------------------------------------
    assert_eq!(computed, expected);
}

#[test]
fn test_parse_source_as_device_name_alias1() {
    // ----------------------------------------------------------------
    let computed = parse_source("/dev/cdrom", path_kind("/dev/cdrom")).unwrap();
    let expected = Source::DeviceName("/dev/cdrom".to_string());
    // ----------------------------------------------------------------
    assert_eq!(computed, expected);
}

#[test]
fn test_parse_source_as_device_name_alias2() {
    // ----------------------------------------------------------------
    let computed = parse_source("/dev/dvd", path_kind("/dev/dvd")).unwrap();
    let expected = Source::DeviceName("/dev/dvd".to_string());
    // ----------------------------------------------------------------
    assert_eq!(computed, expected);
}

#[test]
fn mod_test_parse_source_as_directory() {
    // ----------------------------------------------------------------
    let computed = parse_source(".", path_kind(".")).unwrap();
    let expected = Source::Directory(".".to_string());
    // ----------------------------------------------------------------
    assert_eq!(computed, expected);
}

#[test]
fn mod_test_parse_source_as_iso_file() {
    // ----------------------------------------------------------------
    // the file must exist, does not verify if the file is an actual
    // ISO file
    let computed = parse_source("src/lib.rs", path_kind("src/lib.rs")).unwrap();
    let expected = Source::IsoFile("src/lib.rs".to_string());
    // ----------------------------------------------------------------
    assert_eq!(computed, expected);
}

#[test]
fn test_fail_to_parse_empty_source() {
    // ----------------------------------------------------------------
    let computed = parse_source("", path_kind(""));
    let expected = None;
    // ----------------------------------------------------------------
    assert_eq!(computed, expected);
}

#[test]
fn test_fail_to_parse_missing_file() {
    // ----------------------------------------------------------------
    let computed = parse_source("does_not_exist.iso", path_kind("does_not_exist.iso"));
    let expected = None;
    // ----------------------------------------------------------------
    assert_eq!(computed, expected);
}

#[test]
fn test_fail_to_parse_leading_whitespace() {
    // ----------------------------------------------------------------
    let computed = parse_source(" E:", path_kind(" E:"));
    let expected = None;
    // ----------------------------------------------------------------
    assert_eq!(computed, expected);
}

#[test]
fn test_fail_to_parse_trailing_whitespace() {
    // ----------------------------------------------------------------
    let computed = parse_source("E: ", path_kind("E: "));
    let expected = None;
    // ----------------------------------------------------------------
    assert_eq!(computed, expected);
}

#[test]
fn test_format_drive_id() {
    // ----------------------------------------------------------------
    let computed = ConSource::DriveId(0).to_string();
    let expected = "disc:0".to_string();
    // ----------------------------------------------------------------
    assert_eq!(computed, expected);
}

#[test]
fn test_format_drive_letter1() {
    // ----------------------------------------------------------------
    let computed = ConSource::DriveLetter("E:".to_string()).to_string();
    let expected = "dev:E:".to_string();
    // ----------------------------------------------------------------
    assert_eq!(computed, expected);
}

#[test]
fn test_format_drive_letter2() {
    // ----------------------------------------------------------------
    let computed = ConSource::DriveLetter(r"E:\".to_string()).to_string();
    let expected = r"dev:E:\".to_string();
    // ----------------------------------------------------------------
    assert_eq!(computed, expected);
}

#[test]
fn source_test_format_device_name() {
    // ----------------------------------------------------------------
    let computed = ConSource::DeviceName("/dev/sr0".to_string()).to_string();
    let expected = "dev:/dev/sr0".to_string();
    // ----------------------------------------------------------------
    assert_eq!(computed, expected);
}

#[test]
fn source_test_format_iso_file() {
    // ----------------------------------------------------------------
    let computed = ConSource::IsoFile("/home/user/dvd.iso".to_string()).to_string();
    let expected = "iso:/home/user/dvd.iso".to_string();
    // ----------------------------------------------------------------
    assert_eq!(computed, expected);
}

#[test]
fn source_test_format_directory() {
    // ----------------------------------------------------------------
    let computed = ConSource::Directory("/home/user/dvd_folder".to_string()).to_string();
    let expected = "file:/home/user/dvd_folder".to_string();
    // ----------------------------------------------------------------
    assert_eq!(computed, expected);
}

#[test]
fn test_parse_source_as_disc() {
    // ----------------------------------------------------------------
    let computed = con_parse_source("1", path_kind("1")).unwrap();
    let expected = ConSource::DriveId(1);
    // ----------------------------------------------------------------
    assert_eq!(computed, expected);
}

#[test]
fn test_parse_source_as_drive_letter() {
    // ----------------------------------------------------------------
    let computed = con_parse_source("E:", path_kind("E:")).unwrap();
    let expected = ConSource::DriveLetter("E:".to_string());
    // ----------------------------------------------------------------
    assert_eq!(computed, expected);
}

#[test]
fn source_test_parse_source_as_device_name() {
    // ----------------------------------------------------------------
    let computed = con_parse_source("/dev/sr1", path_kind("/dev/sr1")).unwrap();
    let expected = ConSource::DeviceName("/dev/sr1".to_string());
    // ----------------------------------------------------------------
    assert_eq!(computed, expected);
}

#[test]
fn source_test_parse_source_as_directory() {
    // ----------------------------------------------------------------
    let computed = con_parse_source(".", path_kind(".")).unwrap();
    let expected = ConSource::Directory(".".to_string());
    // ----------------------------------------------------------------
    assert_eq!(computed, expected);
}

#[test]
fn source_test_parse_source_as_iso_file() {
    // ----------------------------------------------------------------
    // the file must exist, does not verify if the file is an actual
    // ISO file
    let computed = con_parse_source("src/lib.rs", path_kind("src/lib.rs")).unwrap();
    let expected = ConSource::IsoFile("src/lib.rs".to_string());
    // ----------------------------------------------------------------
    assert_eq!(computed, expected);
}

#[test]
fn test_parse_source_failure() {
    // ----------------------------------------------------------------
    let computed = con_parse_source("does_not_exist.iso", path_kind("does_not_exist.iso"));
    let expected = None;
    // ----------------------------------------------------------------
    assert_eq!(computed, expected);
}
