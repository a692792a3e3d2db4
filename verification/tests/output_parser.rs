use ripit::apdefs::DriveStatus;
use ripit::api::drive::{ContentType, DriveRecord};
use ripit::api::info::InfoRecord;
use ripit::mkv::disc_content::{ContentAttributes, DiscContent};
use ripit::mkv::parser::ParsedOutputLine as MkvLine;
use ripit::mkvcon::attribute_map::{AttributeMap, InfoRecordOut};
use ripit::mkvcon::parser::{DiscContent as CannedRecord, ParsedOutputLine, parse_canned_output};
use ripit::mkvcon::streams::{AudioStream, Stream, SubtitleStream, VideoStream};
use std::collections::HashMap;

#[test]
fn mod_test_parse_msg_record() {
    let data = b"MSG:1005,0,1,\"MakeMKV v1.17.9 linux(x64-release) started\",\"%1 started\",\"MakeMKV v1.17.9 linux(x64-release)\"";
    // ----------------------------------------------------------------
    assert!(matches!(ripit::mkvcon::parser::parse_output_line(data), ParsedOutputLine::MSG(_)));
    assert!(matches!(
        ripit::mkv::parser::parse_output_line(data),
        MkvLine::MSG(_)
    ));
}

#[test]
fn mod_test_parse_drv_record() {
    let data = b"DRV:0,0,999,0,\"DVD+R-DL PLDS DVD-RW DH16AFSH DL31 8SSDX0F17036L1CB5800MGJ\",\"\",\"/dev/sr1\"";
    // ----------------------------------------------------------------
    assert!(matches!(ripit::mkvcon::parser::parse_output_line(data), ParsedOutputLine::DRV(_)));
    assert!(matches!(
        ripit::mkv::parser::parse_output_line(data),
        MkvLine::DRV(_)
    ));
}

#[test]
fn mod_test_parse_tcount_record() {
    let data = b"TCOUNT:12";
    // ----------------------------------------------------------------
    assert!(matches!(
        ripit::mkvcon::parser::parse_output_line(data),
        ParsedOutputLine::TCOUNT(_)
    ));
    assert!(matches!(
        ripit::mkv::parser::parse_output_line(data),
        MkvLine::TCOUNT(_)
    ));
}

#[test]
fn mod_test_parse_tinfo_record() {
    let data = b"TINFO:2,9,0,\"0:23:39\"";
    // ----------------------------------------------------------------
    assert!(matches!(
        ripit::mkvcon::parser::parse_output_line(data),
        ParsedOutputLine::TINFO(_)
    ));
    assert!(matches!(
        ripit::mkv::parser::parse_output_line(data),
        MkvLine::TINFO(_)
    ));
}

#[test]
fn mod_test_parse_cinfo_record() {
    let data = b"CINFO:1,6206,\"DVD disc\"";
    // ----------------------------------------------------------------
    assert!(matches!(
        ripit::mkvcon::parser::parse_output_line(data),
        ParsedOutputLine::CINFO(_)
    ));
    assert!(matches!(
        ripit::mkv::parser::parse_output_line(data),
        MkvLine::CINFO(_)
    ));
}

#[test]
fn mod_test_parse_sinfo_record() {
    let data = b"SINFO:2,0,1,6201,\"Video\"";
    // ----------------------------------------------------------------
    assert!(matches!(
        ripit::mkvcon::parser::parse_output_line(data),
        ParsedOutputLine::SINFO(_)
    ));
    assert!(matches!(
        ripit::mkv::parser::parse_output_line(data),
        MkvLine::SINFO(_)
    ));
}

#[test]
fn test_parse_canned_output() {
    let data: Vec<&[u8]> = vec![
        b"MSG:1005,0,1,\"MakeMKV v1.17.9 linux(x64-release) started\",\"%1 started\",\"MakeMKV v1.17.9 linux(x64-release)\"",
        b"DRV:0,2,999,1,\"DVD+R-DL PLDS DVD-RW DH16AFSH DL31 8SSDX0F17036L1CB5800MGJ\",\"Disc 1\",\"/dev/sr0\"",
        b"TCOUNT:13",
    ];
    // ----------------------------------------------------------------
    let computed = parse_canned_output(&data).0;
    let expected = vec![
        CannedRecord::DRV(DriveRecord {
            index: 0,
            drive_status_num: 2,
            drive_status: Some(DriveStatus::DiscInserted),
            is_enabled: 999,
            content_type_num: 1,
            content_type: ContentType {
                has_dvd_files: true,
                has_hddvd_files: false,
                has_bluray_files: false,
                has_aacs_files: false,
                has_bdsvm_files: false,
            },
            drive_name: "DVD+R-DL PLDS DVD-RW DH16AFSH DL31 8SSDX0F17036L1CB5800MGJ"
                .to_string(),
            disc_name: "Disc 1".to_string(),
            device_name: "/dev/sr0".to_string(),
        }),
        CannedRecord::TCOUNT(13),
    ];
    // ----------------------------------------------------------------
    assert_eq!(computed, expected);
}

#[test]
fn test_parse_canned_output_with_errors() {
    // MSG after TCOUNT indicates an issue
    let data: Vec<&[u8]> = vec![
        b"MSG:1005,0,1,\"MakeMKV v1.17.9 linux(x64-release) started\",\"%1 started\",\"MakeMKV v1.17.9 linux(x64-release)\"",
        b"TCOUNT:13",
        b"MSG:9999,0,0,\"message\",\"message\"",
    ];
    // ----------------------------------------------------------------
    let computed = parse_canned_output(&data).1;
    let expected = 1;
    // ----------------------------------------------------------------
    assert_eq!(computed, expected);
}

#[test]
fn test_update_disc_attributes() {
    let mut dc = DiscContent::new();
    let _ = dc.update_disc_attribute(&InfoRecord::new(1, 6206, "DVD disc"));
    let _ = dc.update_disc_attribute(&InfoRecord::new(2, 0, "Disc 1"));
    // ----------------------------------------------------------------
    let computed = dc.info;
    let expected = ContentAttributes {
        comment: None,
        content_type: Some("DVD disc".to_string()),
        metadata_language_code: None,
        metadata_language_name: None,
        name: Some("Disc 1".to_string()),
        order_weight: None,
        panel_title: None,
        tree_info: None,
        volume_name: None,
    };
    // ----------------------------------------------------------------
    assert_eq!(computed, expected);
}

#[test]
fn mod_test_parse_audio_stream_minimal() {
    let data = AttributeMap::from_pairs(vec![
        (
            "AudioChannelLayoutName".to_string(),
            InfoRecordOut::from("Unknown (0)", "stereo"),
        ),
        (
            "AudioChannelsCount".to_string(),
            InfoRecordOut::from("Unknown (0)", "2"),
        ),
        (
            "AudioSampleRate".to_string(),
            InfoRecordOut::from("Unknown (0)", "48000"),
        ),
        (
            "Bitrate".to_string(),
            InfoRecordOut::from("Unknown (0)", "224 Kb/s"),
        ),
        (
            "CodecId".to_string(),
            InfoRecordOut::from("Unknown (0)", "A_AC3"),
        ),
        (
            "CodecLong".to_string(),
            InfoRecordOut::from("Unknown (0)", "Dolby Digital"),
        ),
        (
            "CodecShort".to_string(),
            InfoRecordOut::from("Unknown (0)", "DD"),
        ),
        (
            "MkvFlags".to_string(),
            InfoRecordOut::from("Unknown (0)", "d"),
        ),
        (
            "MkvFlagsText".to_string(),
            InfoRecordOut::from("Unknown (0)", "Default"),
        ),
        (
            "Name".to_string(),
            InfoRecordOut::from("Unknown (5091)", "Stereo"),
        ),
        (
            "OrderWeight".to_string(),
            InfoRecordOut::from("Unknown (0)", "90"),
        ),
        (
            "OutputConversionType".to_string(),
            InfoRecordOut::from("Unknown (5088)", "( Lossless conversion )"),
        ),
        (
            "PanelTitle".to_string(),
            InfoRecordOut::from("AppInterfaceItemInfoTRACK", "<b>Track information</b><br>"),
        ),
        (
            "StreamFlags".to_string(),
            InfoRecordOut::from("Unknown (0)", "0"),
        ),
        (
            "TreeInfo".to_string(),
            InfoRecordOut::from("Unknown (0)", "DD Stereo English"),
        ),
        (
            "Type".to_string(),
            InfoRecordOut::from("AppTitleTreeAudio", "Audio"),
        ),
    ]);
    // ----------------------------------------------------------------
    let computed = match ripit::mkvcon::streams::parse_stream_record(data) {
        Stream::Audio(x) => x,
        _ => panic!("Not an audio stream!"),
    };
    let expected = AudioStream {
        audio_channel_layout_name: "stereo".to_string(),
        audio_channels_count: 2,
        audio_sample_rate: 48000,
        bitrate: "224 Kb/s".to_string(),
        codec_id: "A_AC3".to_string(),
        codec_long: "Dolby Digital".to_string(),
        codec_short: "DD".to_string(),
        lang_code: "<unknown>".to_string(),
        lang_name: "<unknown>".to_string(),
        metadata_language_code: "<unknown>".to_string(),
        metadata_language_name: "<unknown>".to_string(),
        mkv_flags: "d".to_string(),
        mkv_flags_text: "Default".to_string(),
        name: "Stereo".to_string(),
        order_weight: 90,
        output_conversion_type: "( Lossless conversion )".to_string(),
        panel_title: "<b>Track information</b><br>".to_string(),
        stream_flags: 0,
        stream_type: "Audio".to_string(),
        tree_info: "DD Stereo English".to_string(),
    };
    // ----------------------------------------------------------------
    assert_eq!(computed, expected);
    let data2 = HashMap::<u32, String>::from([
        // SINFO:0,1,1,6202,"Audio"
        (1, "Audio".to_string()),
        // SINFO:0,1,2,0,"Surround 5.1"
        (2, "Surround 5.1".to_string()),
        // SINFO:0,1,5,0,"A_DTS"
        (5, "A_AC3".to_string()),
        // SINFO:0,1,6,0,"DTS"
        (6, "DD".to_string()),
        // SINFO:0,1,7,0,"DTS"
        (7, "Dolby Digital".to_string()),
        // SINFO:0,1,13,0,"768 Kb/s"
        (13, "768 Kb/s".to_string()),
        // SINFO:0,1,14,0,"6"
        (14, "6".to_string()),
        // SINFO:0,1,17,0,"48000"
        (17, "48000".to_string()),
        // SINFO:0,1,22,0,"0"
        (22, "0".to_string()),
        // SINFO:0,1,30,0,"DTS Surround 5.1 Japanese"
        (30, "DD Stereo English".to_string()),
        // SINFO:0,1,31,6121,"<b>Track information</b><br>"
        (31, "<b>Track information</b><br>".to_string()),
        // SINFO:0,1,33,0,"90"
        (33, "90".to_string()),
        // SINFO:0,1,38,0,"d"
        (38, "d".to_string()),
        // SINFO:0,1,39,0,"Default"
        (39, "Default".to_string()),
        // SINFO:0,1,40,0,"5.1(side)"
        (40, "5.1(side)".to_string()),
        // SINFO:0,1,42,5088,"( Lossless conversion )"
        (42, "( Lossless conversion )".to_string()),
    ]);
    // ----------------------------------------------------------------
    let computed2 = match ripit::mkv::streams::parse_stream_record(&data2) {
        Some(ripit::mkv::streams::Stream::Audio(x)) => x,
        _ => panic!("Not an audio stream!"),
    };
    let expected2 = AudioStream {
        audio_channel_layout_name: "5.1(side)".to_string(),
        audio_channels_count: 6,
        audio_sample_rate: 48000,
        bitrate: "768 Kb/s".to_string(),
        codec_id: "A_AC3".to_string(),
        codec_long: "Dolby Digital".to_string(),
        codec_short: "DD".to_string(),
        lang_code: "<unknown>".to_string(),
        lang_name: "<unknown>".to_string(),
        metadata_language_code: "<unknown>".to_string(),
        metadata_language_name: "<unknown>".to_string(),
        mkv_flags: "d".to_string(),
        mkv_flags_text: "Default".to_string(),
        name: "Surround 5.1".to_string(),
        order_weight: 90,
        output_conversion_type: "( Lossless conversion )".to_string(),
        panel_title: "<b>Track information</b><br>".to_string(),
        stream_flags: 0,
        stream_type: "Audio".to_string(),
        tree_info: "DD Stereo English".to_string(),
    };
    // ----------------------------------------------------------------
    assert_eq!(computed2, expected2);
}

#[test]
fn mod_test_parse_audio_stream_with_lang() {
    let data = AttributeMap::from_pairs(vec![
        (
            "AudioChannelLayoutName".to_string(),
            InfoRecordOut::from("Unknown (0)", "stereo"),
        ),
        (
            "AudioChannelsCount".to_string(),
            InfoRecordOut::from("Unknown (0)", "2"),
        ),
        (
            "AudioSampleRate".to_string(),
            InfoRecordOut::from("Unknown (0)", "48000"),
        ),
        (
            "Bitrate".to_string(),
            InfoRecordOut::from("Unknown (0)", "224 Kb/s"),
        ),
        (
            "CodecId".to_string(),
            InfoRecordOut::from("Unknown (0)", "A_AC3"),
        ),
        (
            "CodecLong".to_string(),
            InfoRecordOut::from("Unknown (0)", "Dolby Digital"),
        ),
        (
            "CodecShort".to_string(),
            InfoRecordOut::from("Unknown (0)", "DD"),
        ),
        (
            "LangCode".to_string(),
            InfoRecordOut::from("Unknown (0)", "eng"),
        ),
        (
            "LangName".to_string(),
            InfoRecordOut::from("Unknown (0)", "English"),
        ),
        (
            "MkvFlags".to_string(),
            InfoRecordOut::from("Unknown (0)", "d"),
        ),
        (
            "MkvFlagsText".to_string(),
            InfoRecordOut::from("Unknown (0)", "Default"),
        ),
        (
            "Name".to_string(),
            InfoRecordOut::from("Unknown (5091)", "Stereo"),
        ),
        (
            "OrderWeight".to_string(),
            InfoRecordOut::from("Unknown (0)", "90"),
        ),
        (
            "OutputConversionType".to_string(),
            InfoRecordOut::from("Unknown (5088)", "( Lossless conversion )"),
        ),
        (
            "PanelTitle".to_string(),
            InfoRecordOut::from("AppInterfaceItemInfoTRACK", "<b>Track information</b><br>"),
        ),
        (
            "StreamFlags".to_string(),
            InfoRecordOut::from("Unknown (0)", "0"),
        ),
        (
            "TreeInfo".to_string(),
            InfoRecordOut::from("Unknown (0)", "DD Stereo English"),
        ),
        (
            "Type".to_string(),
            InfoRecordOut::from("AppTitleTreeAudio", "Audio"),
        ),
    ]);
    // ----------------------------------------------------------------
    let computed = match ripit::mkvcon::streams::parse_stream_record(data) {
        Stream::Audio(x) => x,
        _ => panic!("Not an audio stream!"),
    };
    let expected = AudioStream {
        audio_channel_layout_name: "stereo".to_string(),
        audio_channels_count: 2,
        audio_sample_rate: 48000,
        bitrate: "224 Kb/s".to_string(),
        codec_id: "A_AC3".to_string(),
        codec_long: "Dolby Digital".to_string(),
        codec_short: "DD".to_string(),
        lang_code: "eng".to_string(),
        lang_name: "English".to_string(),
        metadata_language_code: "<unknown>".to_string(),
        metadata_language_name: "<unknown>".to_string(),
        mkv_flags: "d".to_string(),
        mkv_flags_text: "Default".to_string(),
        name: "Stereo".to_string(),
        order_weight: 90,
        output_conversion_type: "( Lossless conversion )".to_string(),
        panel_title: "<b>Track information</b><br>".to_string(),
        stream_flags: 0,
        stream_type: "Audio".to_string(),
        tree_info: "DD Stereo English".to_string(),
    };
    // ----------------------------------------------------------------
    assert_eq!(computed, expected);
    let data2 = HashMap::<u32, String>::from([
        // SINFO:0,1,1,6202,"Audio"
        (1, "Audio".to_string()),
        // SINFO:0,1,2,5091,"Stereo"
        (2, "Stereo".to_string()),
        // SINFO:0,1,3,0,"eng"
        (3, "eng".to_string()),
        // SINFO:0,1,4,0,"English"
        (4, "English".to_string()),
        // SINFO:0,1,5,0,"A_AC3"
        (5, "A_AC3".to_string()),
        // SINFO:0,1,6,0,"DD"
        (6, "DD".to_string()),
        // SINFO:0,1,7,0,"Dolby Digital"
        (7, "Dolby Digital".to_string()),
        // SINFO:0,1,13,0,"224 Kb/s"
        (13, "224 Kb/s".to_string()),
        // SINFO:0,1,14,0,"2"
        (14, "2".to_string()),
        // SINFO:0,1,17,0,"48000"
        (17, "48000".to_string()),
        // SINFO:0,1,22,0,"0"
        (22, "0".to_string()),
        // SINFO:0,1,30,0,"DD Stereo English"
        (30, "DD Stereo English".to_string()),
        // SINFO:0,1,31,6121,"<b>Track information</b><br>"
        (31, "<b>Track information</b><br>".to_string()),
        // SINFO:0,1,33,0,"90"
        (33, "90".to_string()),
        // SINFO:0,1,38,0,"d"
        (38, "d".to_string()),
        // SINFO:0,1,39,0,"Default"
        (39, "Default".to_string()),
        // SINFO:0,1,40,0,"stereo"
        (40, "stereo".to_string()),
        // SINFO:0,1,42,5088,"( Lossless conversion )"
        (42, "( Lossless conversion )".to_string()),
    ]);
    // ----------------------------------------------------------------
    let computed2 = match ripit::mkv::streams::parse_stream_record(&data2) {
        Some(ripit::mkv::streams::Stream::Audio(x)) => x,
        _ => panic!("Not an audio stream!"),
    };
    let expected2 = AudioStream {
        audio_channel_layout_name: "stereo".to_string(),
        audio_channels_count: 2,
        audio_sample_rate: 48000,
        bitrate: "224 Kb/s".to_string(),
        codec_id: "A_AC3".to_string(),
        codec_long: "Dolby Digital".to_string(),
        codec_short: "DD".to_string(),
        lang_code: "eng".to_string(),
        lang_name: "English".to_string(),
        metadata_language_code: "<unknown>".to_string(),
        metadata_language_name: "<unknown>".to_string(),
        mkv_flags: "d".to_string(),
        mkv_flags_text: "Default".to_string(),
        name: "Stereo".to_string(),
        order_weight: 90,
        output_conversion_type: "( Lossless conversion )".to_string(),
        panel_title: "<b>Track information</b><br>".to_string(),
        stream_flags: 0,
        stream_type: "Audio".to_string(),
        tree_info: "DD Stereo English".to_string(),
    };
    // ----------------------------------------------------------------
    assert_eq!(computed2, expected2);
}

#[test]
fn mod_test_parse_audio_stream_with_meta_lang() {
    let data = AttributeMap::from_pairs(vec![
        (
            "AudioChannelLayoutName".to_string(),
            InfoRecordOut::from("Unknown (0)", "stereo"),
        ),
        (
            "AudioChannelsCount".to_string(),
            InfoRecordOut::from("Unknown (0)", "2"),
        ),
        (
            "AudioSampleRate".to_string(),
            InfoRecordOut::from("Unknown (0)", "48000"),
        ),
        (
            "Bitrate".to_string(),
            InfoRecordOut::from("Unknown (0)", "224 Kb/s"),
        ),
        (
            "CodecId".to_string(),
            InfoRecordOut::from("Unknown (0)", "A_AC3"),
        ),
        (
            "CodecLong".to_string(),
            InfoRecordOut::from("Unknown (0)", "Dolby Digital"),
        ),
        (
            "CodecShort".to_string(),
            InfoRecordOut::from("Unknown (0)", "DD"),
        ),
        (
            "MetadataLanguageCode".to_string(),
            InfoRecordOut::from("Unknown (0)", "eng"),
        ),
        (
            "MetadataLanguageName".to_string(),
            InfoRecordOut::from("Unknown (0)", "English"),
        ),
        (
            "MkvFlags".to_string(),
            InfoRecordOut::from("Unknown (0)", "d"),
        ),
        (
            "MkvFlagsText".to_string(),
            InfoRecordOut::from("Unknown (0)", "Default"),
        ),
        (
            "Name".to_string(),
            InfoRecordOut::from("Unknown (5091)", "Stereo"),
        ),
        (
            "OrderWeight".to_string(),
            InfoRecordOut::from("Unknown (0)", "90"),
        ),
        (
            "OutputConversionType".to_string(),
            InfoRecordOut::from("Unknown (5088)", "( Lossless conversion )"),
        ),
        (
            "PanelTitle".to_string(),
            InfoRecordOut::from("AppInterfaceItemInfoTRACK", "<b>Track information</b><br>"),
        ),
        (
            "StreamFlags".to_string(),
            InfoRecordOut::from("Unknown (0)", "0"),
        ),
        (
            "TreeInfo".to_string(),
            InfoRecordOut::from("Unknown (0)", "DD Stereo English"),
        ),
        (
            "Type".to_string(),
            InfoRecordOut::from("AppTitleTreeAudio", "Audio"),
        ),
    ]);
    // ----------------------------------------------------------------
    let computed = match ripit::mkvcon::streams::parse_stream_record(data) {
        Stream::Audio(x) => x,
        _ => panic!("Not an audio stream!"),
    };
    let expected = AudioStream {
        audio_channel_layout_name: "stereo".to_string(),
        audio_channels_count: 2,
        audio_sample_rate: 48000,
        bitrate: "224 Kb/s".to_string(),
        codec_id: "A_AC3".to_string(),
        codec_long: "Dolby Digital".to_string(),
        codec_short: "DD".to_string(),
        lang_code: "<unknown>".to_string(),
        lang_name: "<unknown>".to_string(),
        metadata_language_code: "eng".to_string(),
        metadata_language_name: "English".to_string(),
        mkv_flags: "d".to_string(),
        mkv_flags_text: "Default".to_string(),
        name: "Stereo".to_string(),
        order_weight: 90,
        output_conversion_type: "( Lossless conversion )".to_string(),
        panel_title: "<b>Track information</b><br>".to_string(),
        stream_flags: 0,
        stream_type: "Audio".to_string(),
        tree_info: "DD Stereo English".to_string(),
    };
    // ----------------------------------------------------------------
    assert_eq!(computed, expected);
    let data2 = HashMap::<u32, String>::from([
        // SINFO:0,1,1,6202,"Audio"
        (1, "Audio".to_string()),
        // SINFO:0,1,2,0,"Surround 5.1"
        (2, "Surround 5.1".to_string()),
        // SINFO:0,1,5,0,"A_DTS"
        (5, "A_AC3".to_string()),
        // SINFO:0,1,6,0,"DTS"
        (6, "DD".to_string()),
        // SINFO:0,1,7,0,"DTS"
        (7, "Dolby Digital".to_string()),
        // SINFO:0,1,13,0,"768 Kb/s"
        (13, "768 Kb/s".to_string()),
        // SINFO:0,1,14,0,"6"
        (14, "6".to_string()),
        // SINFO:0,1,17,0,"48000"
        (17, "48000".to_string()),
        // SINFO:0,1,22,0,"0"
        (22, "0".to_string()),
        // SINFO:0,1,28,0,"eng"
        (28, "eng".to_string()),
        // SINFO:0,1,29,0,"English"
        (29, "English".to_string()),
        // SINFO:0,1,30,0,"DTS Surround 5.1 Japanese"
        (30, "DD Stereo English".to_string()),
        // SINFO:0,1,31,6121,"<b>Track information</b><br>"
        (31, "<b>Track information</b><br>".to_string()),
        // SINFO:0,1,33,0,"90"
        (33, "90".to_string()),
        // SINFO:0,1,38,0,"d"
        (38, "d".to_string()),
        // SINFO:0,1,39,0,"Default"
        (39, "Default".to_string()),
        // SINFO:0,1,40,0,"5.1(side)"
        (40, "5.1(side)".to_string()),
        // SINFO:0,1,42,5088,"( Lossless conversion )"
        (42, "( Lossless conversion )".to_string()),
    ]);
    // ----------------------------------------------------------------
    let computed2 = match ripit::mkv::streams::parse_stream_record(&data2) {
        Some(ripit::mkv::streams::Stream::Audio(x)) => x,
        _ => panic!("Not an audio stream!"),
    };
    let expected2 = AudioStream {
        audio_channel_layout_name: "5.1(side)".to_string(),
        audio_channels_count: 6,
        audio_sample_rate: 48000,
        bitrate: "768 Kb/s".to_string(),
        codec_id: "A_AC3".to_string(),
        codec_long: "Dolby Digital".to_string(),
        codec_short: "DD".to_string(),
        lang_code: "<unknown>".to_string(),
        lang_name: "<unknown>".to_string(),
        metadata_language_code: "eng".to_string(),
        metadata_language_name: "English".to_string(),
        mkv_flags: "d".to_string(),
        mkv_flags_text: "Default".to_string(),
        name: "Surround 5.1".to_string(),
        order_weight: 90,
        output_conversion_type: "( Lossless conversion )".to_string(),
        panel_title: "<b>Track information</b><br>".to_string(),
        stream_flags: 0,
        stream_type: "Audio".to_string(),
        tree_info: "DD Stereo English".to_string(),
    };
    // ----------------------------------------------------------------
    assert_eq!(computed2, expected2);
}

#[test]
fn test_parse_subtitle_stream_minimal() {
    let data = AttributeMap::from_pairs(vec![
        (
            "CodecId".to_string(),
            InfoRecordOut::from("Unknown (0)", "S_VOBSUB"),
        ),
        (
            "CodecLong".to_string(),
            InfoRecordOut::from("Unknown (0)", "Dvd Subtitles"),
        ),
        (
            "CodecShort".to_string(),
            InfoRecordOut::from("Unknown (0)", ""),
        ),
        (
            "MkvFlags".to_string(),
            InfoRecordOut::from("Unknown (0)", "d"),
        ),
        (
            "MkvFlagsText".to_string(),
            InfoRecordOut::from("Unknown (0)", "Default"),
        ),
        (
            "OrderWeight".to_string(),
            InfoRecordOut::from("Unknown (0)", "90"),
        ),
        (
            "OutputConversionType".to_string(),
            InfoRecordOut::from("Unknown (5088)", "( Lossless conversion )"),
        ),
        (
            "PanelTitle".to_string(),
            InfoRecordOut::from("AppInterfaceItemInfoTRACK", "<b>Track information</b><br>"),
        ),
        (
            "StreamFlags".to_string(),
            InfoRecordOut::from("Unknown (0)", "0"),
        ),
        (
            "TreeInfo".to_string(),
            InfoRecordOut::from("Unknown (0)", "English"),
        ),
        (
            "Type".to_string(),
            InfoRecordOut::from("AppTitleTreeSubPicture", "Subtitles"),
        ),
    ]);
    // ----------------------------------------------------------------
    let computed = match ripit::mkvcon::streams::parse_stream_record(data) {
        Stream::Subtitle(x) => x,
        _ => panic!("Not an audio stream!"),
    };
    let expected = SubtitleStream {
        codec_id: "S_VOBSUB".to_string(),
        codec_long: "Dvd Subtitles".to_string(),
        codec_short: "".to_string(),
        lang_code: "<unknown>".to_string(),
        lang_name: "<unknown>".to_string(),
        metadata_language_code: "<unknown>".to_string(),
        metadata_language_name: "<unknown>".to_string(),
        mkv_flags: "d".to_string(),
        mkv_flags_text: "Default".to_string(),
        order_weight: 90,
        output_conversion_type: "( Lossless conversion )".to_string(),
        panel_title: "<b>Track information</b><br>".to_string(),
        stream_flags: 0,
        stream_type: "Subtitles".to_string(),
        tree_info: "English".to_string(),
    };
    // ----------------------------------------------------------------
    assert_eq!(computed, expected);
}

#[test]
fn test_parse_subtitle_stream_with_lang() {
    let data = AttributeMap::from_pairs(vec![
        (
            "CodecId".to_string(),
            InfoRecordOut::from("Unknown (0)", "S_VOBSUB"),
        ),
        (
            "CodecLong".to_string(),
            InfoRecordOut::from("Unknown (0)", "Dvd Subtitles"),
        ),
        (
            "CodecShort".to_string(),
            InfoRecordOut::from("Unknown (0)", ""),
        ),
        (
            "LangCode".to_string(),
            InfoRecordOut::from("Unknown (0)", "eng"),
        ),
        (
            "LangName".to_string(),
            InfoRecordOut::from("Unknown (0)", "English"),
        ),
        (
            "MkvFlags".to_string(),
            InfoRecordOut::from("Unknown (0)", "d"),
        ),
        (
            "MkvFlagsText".to_string(),
            InfoRecordOut::from("Unknown (0)", "Default"),
        ),
        (
            "OrderWeight".to_string(),
            InfoRecordOut::from("Unknown (0)", "90"),
        ),
        (
            "OutputConversionType".to_string(),
            InfoRecordOut::from("Unknown (5088)", "( Lossless conversion )"),
        ),
        (
            "PanelTitle".to_string(),
            InfoRecordOut::from("AppInterfaceItemInfoTRACK", "<b>Track information</b><br>"),
        ),
        (
            "StreamFlags".to_string(),
            InfoRecordOut::from("Unknown (0)", "0"),
        ),
        (
            "TreeInfo".to_string(),
            InfoRecordOut::from("Unknown (0)", "English"),
        ),
        (
            "Type".to_string(),
            InfoRecordOut::from("AppTitleTreeSubPicture", "Subtitles"),
        ),
    ]);
    // ----------------------------------------------------------------
    let computed = match ripit::mkvcon::streams::parse_stream_record(data) {
        Stream::Subtitle(x) => x,
        _ => panic!("Not an audio stream!"),
    };
    let expected = SubtitleStream {
        codec_id: "S_VOBSUB".to_string(),
        codec_long: "Dvd Subtitles".to_string(),
        codec_short: "".to_string(),
        lang_code: "eng".to_string(),
        lang_name: "English".to_string(),
        metadata_language_code: "<unknown>".to_string(),
        metadata_language_name: "<unknown>".to_string(),
        mkv_flags: "d".to_string(),
        mkv_flags_text: "Default".to_string(),
        order_weight: 90,
        output_conversion_type: "( Lossless conversion )".to_string(),
        panel_title: "<b>Track information</b><br>".to_string(),
        stream_flags: 0,
        stream_type: "Subtitles".to_string(),
        tree_info: "English".to_string(),
    };
    // ----------------------------------------------------------------
    assert_eq!(computed, expected);
}

#[test]
fn test_parse_subtitle_stream_with_meta_lang() {
    let data = AttributeMap::from_pairs(vec![
        (
            "CodecId".to_string(),
            InfoRecordOut::from("Unknown (0)", "S_VOBSUB"),
        ),
        (
            "CodecLong".to_string(),
            InfoRecordOut::from("Unknown (0)", "Dvd Subtitles"),
        ),
        (
            "CodecShort".to_string(),
            InfoRecordOut::from("Unknown (0)", ""),
        ),
        (
            "MetadataLanguageCode".to_string(),
            InfoRecordOut::from("Unknown (0)", "eng"),
        ),
        (
            "MetadataLanguageName".to_string(),
            InfoRecordOut::from("Unknown (0)", "English"),
        ),
        (
            "MkvFlags".to_string(),
            InfoRecordOut::from("Unknown (0)", "d"),
        ),
        (
            "MkvFlagsText".to_string(),
            InfoRecordOut::from("Unknown (0)", "Default"),
        ),
        (
            "OrderWeight".to_string(),
            InfoRecordOut::from("Unknown (0)", "90"),
        ),
        (
            "OutputConversionType".to_string(),
            InfoRecordOut::from("Unknown (5088)", "( Lossless conversion )"),
        ),
        (
            "PanelTitle".to_string(),
            InfoRecordOut::from("AppInterfaceItemInfoTRACK", "<b>Track information</b><br>"),
        ),
        (
            "StreamFlags".to_string(),
            InfoRecordOut::from("Unknown (0)", "0"),
        ),
        (
            "TreeInfo".to_string(),
            InfoRecordOut::from("Unknown (0)", "English"),
        ),
        (
            "Type".to_string(),
            InfoRecordOut::from("AppTitleTreeSubPicture", "Subtitles"),
        ),
    ]);
    // ----------------------------------------------------------------
    let computed = match ripit::mkvcon::streams::parse_stream_record(data) {
        Stream::Subtitle(x) => x,
        _ => panic!("Not an audio stream!"),
    };
    let expected = SubtitleStream {
        codec_id: "S_VOBSUB".to_string(),
        codec_long: "Dvd Subtitles".to_string(),
        codec_short: "".to_string(),
        lang_code: "<unknown>".to_string(),
        lang_name: "<unknown>".to_string(),
        metadata_language_code: "eng".to_string(),
        metadata_language_name: "English".to_string(),
        mkv_flags: "d".to_string(),
        mkv_flags_text: "Default".to_string(),
        order_weight: 90,
        output_conversion_type: "( Lossless conversion )".to_string(),
        panel_title: "<b>Track information</b><br>".to_string(),
        stream_flags: 0,
        stream_type: "Subtitles".to_string(),
        tree_info: "English".to_string(),
    };
    // ----------------------------------------------------------------
    assert_eq!(computed, expected);
}

#[test]
fn test_parse_video_stream_minimal() {
    let data = AttributeMap::from_pairs(vec![
        (
            "Bitrate".to_string(),
            InfoRecordOut::from("Unknown (0)", "6 Mb/s"),
        ),
        (
            "CodecId".to_string(),
            InfoRecordOut::from("Unknown (0)", "V_MPEG2"),
        ),
        (
            "CodecLong".to_string(),
            InfoRecordOut::from("Unknown (0)", "Mpeg2"),
        ),
        (
            "CodecShort".to_string(),
            InfoRecordOut::from("Unknown (0)", "Mpeg2"),
        ),
        (
            "MkvFlags".to_string(),
            InfoRecordOut::from("Unknown (0)", ""),
        ),
        (
            "OrderWeight".to_string(),
            InfoRecordOut::from("Unknown (0)", "0"),
        ),
        (
            "OutputConversionType".to_string(),
            InfoRecordOut::from("Unknown (5088)", "( Lossless conversion )"),
        ),
        (
            "PanelTitle".to_string(),
            InfoRecordOut::from("AppInterfaceItemInfoTRACK", "<b>Track information</b><br>"),
        ),
        (
            "StreamFlags".to_string(),
            InfoRecordOut::from("Unknown (0)", "0"),
        ),
        (
            "TreeInfo".to_string(),
            InfoRecordOut::from("Unknown (0)", "Mpeg2"),
        ),
        (
            "Type".to_string(),
            InfoRecordOut::from("AppTitleTreeVideo", "Video"),
        ),
        (
            "VideoAspectRatio".to_string(),
            InfoRecordOut::from("Unknown (0)", "4:3"),
        ),
        (
            "VideoFrameRate".to_string(),
            InfoRecordOut::from("Unknown (0)", "29.97 (30000/1001)"),
        ),
        (
            "VideoSize".to_string(),
            InfoRecordOut::from("Unknown (0)", "720x480"),
        ),
    ]);
    // ----------------------------------------------------------------
    let computed = match ripit::mkvcon::streams::parse_stream_record(data) {
        Stream::Video(x) => x,
        _ => panic!("Not an audio stream!"),
    };
    let expected = VideoStream {
        bitrate: "6 Mb/s".to_string(),
        codec_id: "V_MPEG2".to_string(),
        codec_long: "Mpeg2".to_string(),
        codec_short: "Mpeg2".to_string(),
        metadata_language_code: "<unknown>".to_string(),
        metadata_language_name: "<unknown>".to_string(),
        mkv_flags: "".to_string(),
        order_weight: 0,
        output_conversion_type: "( Lossless conversion )".to_string(),
        panel_title: "<b>Track information</b><br>".to_string(),
        stream_flags: 0,
        stream_type: "Video".to_string(),
        tree_info: "Mpeg2".to_string(),
        video_aspect_ratio: "4:3".to_string(),
        video_framerate: "29.97 (30000/1001)".to_string(),
        video_size: "720x480".to_string(),
    };
    // ----------------------------------------------------------------
    assert_eq!(computed, expected);
}

#[test]
fn test_parse_video_stream_with_meta_lang() {
    let data = AttributeMap::from_pairs(vec![
        (
            "Bitrate".to_string(),
            InfoRecordOut::from("Unknown (0)", "6 Mb/s"),
        ),
        (
            "CodecId".to_string(),
            InfoRecordOut::from("Unknown (0)", "V_MPEG2"),
        ),
        (
            "CodecLong".to_string(),
            InfoRecordOut::from("Unknown (0)", "Mpeg2"),
        ),
        (
            "CodecShort".to_string(),
            InfoRecordOut::from("Unknown (0)", "Mpeg2"),
        ),
        (
            "MetadataLanguageCode".to_string(),
            InfoRecordOut::from("Unknown (0)", "eng"),
        ),
        (
            "MetadataLanguageName".to_string(),
            InfoRecordOut::from("Unknown (0)", "English"),
        ),
        (
            "MkvFlags".to_string(),
            InfoRecordOut::from("Unknown (0)", ""),
        ),
        (
            "OrderWeight".to_string(),
            InfoRecordOut::from("Unknown (0)", "0"),
        ),
        (
            "OutputConversionType".to_string(),
            InfoRecordOut::from("Unknown (5088)", "( Lossless conversion )"),
        ),
        (
            "PanelTitle".to_string(),
            InfoRecordOut::from("AppInterfaceItemInfoTRACK", "<b>Track information</b><br>"),
        ),
        (
            "StreamFlags".to_string(),
            InfoRecordOut::from("Unknown (0)", "0"),
        ),
        (
            "TreeInfo".to_string(),
            InfoRecordOut::from("Unknown (0)", "Mpeg2"),
        ),
        (
            "Type".to_string(),
            InfoRecordOut::from("AppTitleTreeVideo", "Video"),
        ),
        (
            "VideoAspectRatio".to_string(),
            InfoRecordOut::from("Unknown (0)", "4:3"),
        ),
        (
            "VideoFrameRate".to_string(),
            InfoRecordOut::from("Unknown (0)", "29.97 (30000/1001)"),
        ),
        (
            "VideoSize".to_string(),
            InfoRecordOut::from("Unknown (0)", "720x480"),
        ),
    ]);
    // ----------------------------------------------------------------
    let computed = match ripit::mkvcon::streams::parse_stream_record(data) {
        Stream::Video(x) => x,
        _ => panic!("Not an audio stream!"),
    };
    let expected = VideoStream {
        bitrate: "6 Mb/s".to_string(),
        codec_id: "V_MPEG2".to_string(),
        codec_long: "Mpeg2".to_string(),
        codec_short: "Mpeg2".to_string(),
        metadata_language_code: "eng".to_string(),
        metadata_language_name: "English".to_string(),
        mkv_flags: "".to_string(),
        order_weight: 0,
        output_conversion_type: "( Lossless conversion )".to_string(),
        panel_title: "<b>Track information</b><br>".to_string(),
        stream_flags: 0,
        stream_type: "Video".to_string(),
        tree_info: "Mpeg2".to_string(),
        video_aspect_ratio: "4:3".to_string(),
        video_framerate: "29.97 (30000/1001)".to_string(),
        video_size: "720x480".to_string(),
    };
    // ----------------------------------------------------------------
    assert_eq!(computed, expected);
}
