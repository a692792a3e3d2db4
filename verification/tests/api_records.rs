use ripit::apdefs::{DriveStatus, ItemAttributeCode, ItemAttributeId};
use ripit::api::cinfo::{parse_cinfo_data, parse_content_info_data};
use ripit::api::drive::{ContentType, DriveRecord, parse_content_type_value, parse_drive_record_data};
use ripit::api::info::InfoRecord;
use ripit::api::line_parser::parse_line;
use ripit::api::msg::{MessageRecord, parse_msg_data};
use ripit::api::progress::{ProgressCurrentRecord, ProgressTotalRecord};
use ripit::api::sinfo::parse_sinfo_data;
use ripit::api::tcount::parse_title_count_data;
use ripit::api::tinfo::parse_tinfo_data;

#[test]
fn mod_parse_cinfo_type() {
    let data = b"1,6206,\"DVD disc\"";
    // ----------------------------------------------------------------
    let computed = parse_cinfo_data(data);
    let expected = InfoRecord::new(1, 6206, "DVD disc");
    // ----------------------------------------------------------------
    assert_eq!(computed, expected);
    let data2 = b"1,6206,\"DVD disc\"";
    // ----------------------------------------------------------------
    let computed2 = parse_content_info_data(data2);
    let expected2 = InfoRecord::new(1, 6206, "DVD disc");
    // ----------------------------------------------------------------
    assert_eq!(computed2, expected2);
}

#[test]
fn mod_parse_cinfo_name() {
    let data = b"2,0,\"Disc 1\"";
    // ----------------------------------------------------------------
    let computed = parse_cinfo_data(data);
    let expected = InfoRecord::new(2, 0, "Disc 1");
    // ----------------------------------------------------------------
    assert_eq!(computed, expected);
    let data2 = b"2,0,\"Disc 1\"";
    // ----------------------------------------------------------------
    let computed2 = parse_content_info_data(data2);
    let expected2 = InfoRecord::new(2, 0, "Disc 1");
    // ----------------------------------------------------------------
    assert_eq!(computed2, expected2);
}

#[test]
fn mod_parse_cinfo_panel_title() {
    let data = b"31,6119,\"<b>Source information</b><br>\"";
    // ----------------------------------------------------------------
    let computed = parse_cinfo_data(data);
    let expected = InfoRecord::new(31, 6119, "<b>Source information</b><br>");
    // ----------------------------------------------------------------
    assert_eq!(computed, expected);
    let data2 = b"31,6119,\"<b>Source information</b><br>\"";
    // ----------------------------------------------------------------
    let computed2 = parse_content_info_data(data2);
    let expected2 = InfoRecord::new(31, 6119, "<b>Source information</b><br>");
    // ----------------------------------------------------------------
    assert_eq!(computed2, expected2);
}

#[test]
fn parse_simple_fields() {
    let line = b"3007,0,0,\"message\",\"format\"";
    let fields = parse_line(line);
    assert_eq!(fields.len(), 5);
    assert_eq!(fields[0], "3007");
    assert_eq!(fields[1], "0");
    assert_eq!(fields[3], "message");
}

#[test]
fn parse_escaped_quotes() {
    let line = b"5072,131072,1,\"Backing up disc into folder \\\"file:///path\\\"\",\"format\"";
    let fields = parse_line(line);
    assert_eq!(fields[3], "Backing up disc into folder \"file:///path\"");
}

#[test]
fn parse_escaped_backslashes() {
    let line = b"100,0,0,\"path\\\\to\\\\file\",\"format\"";
    let fields = parse_line(line);
    assert_eq!(fields[3], "path\\to\\file");
}

#[test]
fn parse_mixed_escapes() {
    let line = b"100,0,2,\"Quote: \\\"value\\\"\",\"Back: \\\\\",\"other\"";
    let fields = parse_line(line);
    assert_eq!(fields[3], "Quote: \"value\"");
    assert_eq!(fields[4], "Back: \\");
}

#[test]
fn test_progress_current_new() {
    let source = "source_name".to_string();
    let name = "Scanning contents".to_string();
    // ----------------------------------------------------------------
    let computed = ProgressCurrentRecord::new(&source, 3120, 1, name.clone());
    let expected = ProgressCurrentRecord {
        source,
        code: 3120,
        id: 1,
        name,
    };
    // ----------------------------------------------------------------
    assert_eq!(computed, expected);
}

#[test]
fn test_progress_total_new() {
    // ----------------------------------------------------------------
    let computed = ProgressTotalRecord::new(5018, 0, "Scanning CD-ROM devices");
    let expected = ProgressTotalRecord {
        code: 5018,
        id: 0,
        name: "Scanning CD-ROM devices".to_string(),
    };
    // ----------------------------------------------------------------
    assert_eq!(computed, expected);
}

#[test]
fn parse_sinfo_tid() {
    let data = b"2,0,1,6201,\"Video\"";
    // ----------------------------------------------------------------
    let computed = parse_sinfo_data(data).0;
    let expected = 2;
    // ----------------------------------------------------------------
    assert_eq!(computed, expected);
}

#[test]
fn parse_sinfo_sid() {
    let data = b"2,0,1,6201,\"Video\"";
    // ----------------------------------------------------------------
    let computed = parse_sinfo_data(data).1;
    let expected = 0;
    // ----------------------------------------------------------------
    assert_eq!(computed, expected);
}

#[test]
fn parse_sinfo_info() {
    let data = b"2,0,1,6201,\"Video\"";
    // ----------------------------------------------------------------
    let computed = parse_sinfo_data(data).2;
    let expected = InfoRecord::new(1, 6201, "Video");
    // ----------------------------------------------------------------
    assert_eq!(computed, expected);
}

#[test]
fn parse_tinfo_tid() {
    let data = b"2,8,0,\"1\"";
    // ----------------------------------------------------------------
    let computed = parse_tinfo_data(data).0;
    let expected = 2;
    // ----------------------------------------------------------------
    assert_eq!(computed, expected);
}

#[test]
fn parse_tinfo_record() {
    let data = b"0,31,6120,\"<b>Title information</b><br>\"";
    // ----------------------------------------------------------------
    let computed = parse_tinfo_data(data).1;
    let expected = InfoRecord::new(31, 6120, "<b>Title information</b><br>");
    // ----------------------------------------------------------------
    assert_eq!(computed, expected);
}

#[test]
fn test_attr_code_to_string() {
    let data = ItemAttributeCode::AppDumpDonePartial;
    // ----------------------------------------------------------------
    let computed = data.to_string();
    let expected = "AppDumpDonePartial".to_string();
    // ----------------------------------------------------------------
    assert_eq!(computed, expected);
}

#[test]
fn test_attr_id_to_string() {
    let data = ItemAttributeId::Bitrate;
    // ----------------------------------------------------------------
    let computed = data.to_string();
    let expected = "Bitrate".to_string();
    // ----------------------------------------------------------------
    assert_eq!(computed, expected);
}

#[test]
fn parse_no_disc() {
    let data: u8 = 0;
    // ----------------------------------------------------------------
    let computed = parse_content_type_value(data);
    let expected = ContentType {
        has_dvd_files: false,
        has_hddvd_files: false,
        has_bluray_files: false,
        has_aacs_files: false,
        has_bdsvm_files: false,
    };
    // ----------------------------------------------------------------
    assert_eq!(computed, expected);
}

#[test]
fn parse_dvd() {
    let data: u8 = 1;
    // ----------------------------------------------------------------
    let computed = parse_content_type_value(data);
    let expected = ContentType {
        has_dvd_files: true,
        has_hddvd_files: false,
        has_bluray_files: false,
        has_aacs_files: false,
        has_bdsvm_files: false,
    };
    // ----------------------------------------------------------------
    assert_eq!(computed, expected);
}

#[test]
fn parse_hd_dvd() {
    let data: u8 = 2;
    // ----------------------------------------------------------------
    let computed = parse_content_type_value(data);
    let expected = ContentType {
        has_dvd_files: false,
        has_hddvd_files: true,
        has_bluray_files: false,
        has_aacs_files: false,
        has_bdsvm_files: false,
    };
    // ----------------------------------------------------------------
    assert_eq!(computed, expected);
}

#[test]
fn parse_bluray() {
    let data: u8 = 12; // BluRay (4) + AACS (12)
    // ----------------------------------------------------------------
    let computed = parse_content_type_value(data);
    let expected = ContentType {
        has_dvd_files: false,
        has_hddvd_files: false,
        has_bluray_files: true,
        has_aacs_files: true,
        has_bdsvm_files: false,
    };
    // ----------------------------------------------------------------
    assert_eq!(computed, expected);
}

#[test]
fn parse_empty_closed() {
    let data = b"0,0,999,0,\"DVD+R-DL PLDS DVD-RW DH16AFSH DL31 8SSDX0F17036L1CB5800MGJ\",\"\",\"/dev/sr1\"";
    // ----------------------------------------------------------------
    let computed = parse_drive_record_data(data);
    let expected = DriveRecord {
        index: 0,
        drive_status_num: 0,
        drive_status: Some(DriveStatus::EmptyClosed),
        is_enabled: 999,
        content_type_num: 0,
        content_type: ContentType {
            has_dvd_files: false,
            has_hddvd_files: false,
            has_bluray_files: false,
            has_aacs_files: false,
            has_bdsvm_files: false,
        },
        drive_name: "DVD+R-DL PLDS DVD-RW DH16AFSH DL31 8SSDX0F17036L1CB5800MGJ".to_string(),
        disc_name: "".to_string(),
        device_name: "/dev/sr1".to_string(),
    };
    // ----------------------------------------------------------------
    assert_eq!(computed, expected);
}

#[test]
fn parse_empty_open() {
    let data = b"0,1,999,0,\"BD-RE ASUS BW-16D1HT 3.10 KL1OBDB4635\",\"\",\"/dev/sr0\"";
    // ----------------------------------------------------------------
    let computed = parse_drive_record_data(data);
    let expected = DriveRecord {
        index: 0,
        drive_status_num: 1,
        drive_status: Some(DriveStatus::EmptyOpen),
        is_enabled: 999,
        content_type_num: 0,
        content_type: ContentType {
            has_dvd_files: false,
            has_hddvd_files: false,
            has_bluray_files: false,
            has_aacs_files: false,
            has_bdsvm_files: false,
        },
        drive_name: "BD-RE ASUS BW-16D1HT 3.10 KL1OBDB4635".to_string(),
        disc_name: "".to_string(),
        device_name: "/dev/sr0".to_string(),
    };
    // ----------------------------------------------------------------
    assert_eq!(computed, expected);
}

#[test]
fn parse_dvd_present_linux() {
    let data = b"0,2,999,1,\"BD-RE ASUS BW-16D1HT 3.10 KL1OBDB4635\",\"Nekomonogatari White\",\"/dev/sr0\"";
    // ----------------------------------------------------------------
    let computed = parse_drive_record_data(data);
    let expected = DriveRecord {
        index: 0,
        drive_status_num: 2,
        drive_status: Some(DriveStatus::DiscInserted),
        is_enabled: 999,
        content_type_num: 1,
        content_type: ContentType {
            has_dvd_files: true,
            has_hddvd_files: false,
            has_bluray_files: false,
            has_aacs_files: false,
            has_bdsvm_files: false,
        },
        drive_name: "BD-RE ASUS BW-16D1HT 3.10 KL1OBDB4635".to_string(),
        disc_name: "Nekomonogatari White".to_string(),
        device_name: "/dev/sr0".to_string(),
    };
    // ----------------------------------------------------------------
    assert_eq!(computed, expected);
}

#[test]
fn parse_dvd_present_windows() {
    let data = b"0,2,999,1,\"BD-RE ASUS SBW-06D5H-U E101 AFDL222859WL\",\"COWBOY_BEBOP_V4\",\"E:\"";
    // ----------------------------------------------------------------
    let computed = parse_drive_record_data(data);
    let expected = DriveRecord {
        index: 0,
        drive_status_num: 2,
        drive_status: Some(DriveStatus::DiscInserted),
        is_enabled: 999,
        content_type_num: 1,
        content_type: ContentType {
            has_dvd_files: true,
            has_hddvd_files: false,
            has_bluray_files: false,
            has_aacs_files: false,
            has_bdsvm_files: false,
        },
        drive_name: "BD-RE ASUS SBW-06D5H-U E101 AFDL222859WL".to_string(),
        disc_name: "COWBOY_BEBOP_V4".to_string(),
        device_name: "E:".to_string(),
    };
    // ----------------------------------------------------------------
    assert_eq!(computed, expected);
}

#[test]
fn parse_bluray_present() {
    let data = b"0,2,999,12,\"BD-RE ASUS BW-16D1HT 3.10 KL1OBDB4635\",\"NIKITA\",\"/dev/sr0\"";
    // ----------------------------------------------------------------
    let computed = parse_drive_record_data(data);
    let expected = DriveRecord {
        index: 0,
        drive_status_num: 2,
        drive_status: Some(DriveStatus::DiscInserted),
        is_enabled: 999,
        content_type_num: 12,
        content_type: ContentType {
            has_dvd_files: false,
            has_hddvd_files: false,
            has_bluray_files: true,
            has_aacs_files: true,
            has_bdsvm_files: false,
        },
        drive_name: "BD-RE ASUS BW-16D1HT 3.10 KL1OBDB4635".to_string(),
        disc_name: "NIKITA".to_string(),
        device_name: "/dev/sr0".to_string(),
    };
    // ----------------------------------------------------------------
    assert_eq!(computed, expected);
}

#[test]
fn parse_drive_not_present() {
    let data = b"15,256,999,0,\"\",\"\",\"\"";
    // ----------------------------------------------------------------
    let computed = parse_drive_record_data(data);
    let expected = DriveRecord {
        index: 15,
        drive_status_num: 256,
        drive_status: Some(DriveStatus::NoDrive),
        is_enabled: 999,
        content_type_num: 0,
        content_type: ContentType {
            has_dvd_files: false,
            has_hddvd_files: false,
            has_bluray_files: false,
            has_aacs_files: false,
            has_bdsvm_files: false,
        },
        drive_name: "".to_string(),
        disc_name: "".to_string(),
        device_name: "".to_string(),
    };
    // ----------------------------------------------------------------
    assert_eq!(computed, expected);
}

#[test]
fn parse_info_all_known() {
    // ----------------------------------------------------------------
    let computed = InfoRecord::new(1,6206, "DVD disc");
    let expected = InfoRecord{
        attr_num: 1,
        attr_val: Some(ItemAttributeId::Type),
        code_num: 6206,
        code_val: Some(ItemAttributeCode::DvdTypeDisk),
        value: "DVD disc".to_string(),
    };
    // ----------------------------------------------------------------
    assert_eq!(computed, expected);
}

#[test]
fn parse_info_unknown_attribute() {
    // ----------------------------------------------------------------
    let computed = InfoRecord::new(99, 6206, "Disc 1");
    let expected = InfoRecord{
        attr_num: 99,
        attr_val: None,
        code_num: 6206,
        code_val: Some(ItemAttributeCode::DvdTypeDisk),
        value: "Disc 1".to_string(),
    };
    // ----------------------------------------------------------------
    assert_eq!(computed, expected);
}

#[test]
fn parse_info_unknown_code() {
    // ----------------------------------------------------------------
    let computed = InfoRecord::new(2,0, "Disc 1");
    let expected = InfoRecord{
        attr_num: 2,
        attr_val: Some(ItemAttributeId::Name),
        code_num: 0,
        code_val: None,
        value: "Disc 1".to_string(),
    };
    // ----------------------------------------------------------------
    assert_eq!(computed, expected);
}

#[test]
fn parse_message_without_value() {
    let data = b"3007,0,0,\"Using direct disc access mode\",\"Using direct disc access mode\"";
    // ----------------------------------------------------------------
    let computed = parse_msg_data(data);
    let expected = MessageRecord {
        code: 3007,
        flags: 0,
        count: 0,
        message: "Using direct disc access mode".to_string(),
        format: "Using direct disc access mode".to_string(),
        params: Vec::from([]),
    };
    // ----------------------------------------------------------------
    assert_eq!(computed, expected);
}

#[test]
fn parse_message_with_single_value() {
    let data = b"1005,0,1,\"MakeMKV v1.17.9 linux(x64-release) started\",\"%1 started\",\"MakeMKV v1.17.9 linux(x64-release)\"";
    // ----------------------------------------------------------------
    let computed = parse_msg_data(data);
    let expected = MessageRecord {
        code: 1005,
        flags: 0,
        count: 1,
        message: "MakeMKV v1.17.9 linux(x64-release) started".to_string(),
        format: "%1 started".to_string(),
        params: Vec::from([
            "MakeMKV v1.17.9 linux(x64-release)".to_string(),
        ]),
    };
    // ----------------------------------------------------------------
    assert_eq!(computed, expected);
}

#[test]
fn parse_message_with_multiple_values() {
    let data = b"3028,0,3,\"Title #1 was added (1 cell(s), 0:23:39)\",\"Title #%1 was added (%2 cell(s), %3)\",\"1\",\"1\",\"0:23:39\"";
    // ----------------------------------------------------------------
    let computed = parse_msg_data(data);
    let expected = MessageRecord {
        code: 3028,
        flags: 0,
        count: 3,
        message: "Title #1 was added (1 cell(s), 0:23:39)".to_string(),
        format: "Title #%1 was added (%2 cell(s), %3)".to_string(),
        params: Vec::from([
            "1".to_string(),
            "1".to_string(),
            "0:23:39".to_string(),
        ]),
    };
    // ----------------------------------------------------------------
    assert_eq!(computed, expected);
}

#[test]
fn parse_title_count() {
    let data = b"12";
    // ----------------------------------------------------------------
    let computed = parse_title_count_data(data);
    let expected = 12;
    // ----------------------------------------------------------------
    assert_eq!(computed, expected);
}
