use ripit::api::drive::parse_drive_record_data;
use ripit::ripit::optical_disc::{BluRay, Dvd, HdDvd, OpticalDisc};
use ripit::ripit::optical_drive::OpticalDrive;

#[test]
fn test_init_from_drv_record_empty() {
    let data = b"DRV:0,0,999,0,\"DVD+R-DL PLDS DVD-RW DH16AFSH DL31 8SSDX0F17036L1CB5800MGJ\",\"\",\"/dev/sr0\"";
    let dr = parse_drive_record_data(&data[4..]); // skip 'DRV:'
    // ----------------------------------------------------------------
    let computed = OpticalDrive::from_drive_record(&dr, None);
    let expected = OpticalDrive {
        index: 0,
        model: "DVD+R-DL PLDS DVD-RW DH16AFSH DL31 8SSDX0F17036L1CB5800MGJ".to_string(),
        device: "/dev/sr0".to_string(),
        is_enabled: 999,
        disc: None,
    };
    // ----------------------------------------------------------------
    assert_eq!(computed, expected);
}

#[test]
fn test_init_from_drv_record_dvd() {
    let data = b"DRV:0,2,999,1,\"DVD+R-DL PLDS DVD-RW DH16AFSH DL31 8SSDX0F17036L1CB5800MGJ\",\"OTAKU_NO_VIDEO\",\"/dev/sr1\"";
    let dr = parse_drive_record_data(&data[4..]); // skip 'DRV:'
    // ----------------------------------------------------------------
    let computed = OpticalDrive::from_drive_record(&dr, Some("3ed3dd1f5f5f5f4d".to_string()));
    let expected = OpticalDrive {
        index: 0,
        model: "DVD+R-DL PLDS DVD-RW DH16AFSH DL31 8SSDX0F17036L1CB5800MGJ".to_string(),
        device: "/dev/sr1".to_string(),
        is_enabled: 999,
        disc: Some(
            OpticalDisc::Dvd(
                Dvd {
                    name: "OTAKU_NO_VIDEO".to_string(),
                    uid: "3ed3dd1f5f5f5f4d".to_string(),
                }
            )
        ),
    };
    // ----------------------------------------------------------------
    assert_eq!(computed, expected);
}

#[test]
fn test_init_from_drv_record_bluray() {
    let data = b"DRV:2,2,999,12,\"BD-RE ASUS BW-16D1HT 3.10 KL1OBDB4635\",\"LOGICAL_VOLUME_ID\",\"/dev/sr0\"";
    let dr = parse_drive_record_data(&data[4..]); // skip 'DRV:'
    // ----------------------------------------------------------------
    let computed = OpticalDrive::from_drive_record(&dr, Some("091716445f464557".to_string()));
    let expected = OpticalDrive {
        index: 2,
        model: "BD-RE ASUS BW-16D1HT 3.10 KL1OBDB4635".to_string(),
        device: "/dev/sr0".to_string(),
        is_enabled: 999,
        disc: Some(
            OpticalDisc::BluRay(
                BluRay {
                    name: "LOGICAL_VOLUME_ID".to_string(),
                    uid: "091716445f464557".to_string(),
                    has_aacs: true,
                    has_bdsvm: false,
                }
            )
        ),
    };
    // ----------------------------------------------------------------
    assert_eq!(computed, expected);
}

#[test]
fn test_init_from_owned_object() {
    let data = b"DRV:0,0,999,0,\"DVD+R-DL PLDS DVD-RW DH16AFSH DL31 8SSDX0F17036L1CB5800MGJ\",\"\",\"/dev/sr0\"";
    let dr = parse_drive_record_data(&data[4..]); // skip 'DRV:'
    // ----------------------------------------------------------------
    let computed = OpticalDrive::from_drive_record(&dr.clone(), None);
    let expected = OpticalDrive::from_drive_record(&dr, None);
    // ----------------------------------------------------------------
    assert_eq!(computed, expected);
}

#[test]
fn test_format_dvd() {
    let disc = OpticalDisc::Dvd(Dvd{
        name: "DVDVolume".to_string(),
        uid: "deadbeef".to_string(),
    });
    // ----------------------------------------------------------------
    let computed = disc.to_string();
    let expected = "DVDVolume (DVD)".to_string();
    // ----------------------------------------------------------------
    assert_eq!(computed, expected);
}

#[test]
fn test_format_hd_dvd() {
    let disc = OpticalDisc::HdDvd(HdDvd{
        name: "Wrong Horse".to_string(),
        uid: "cafebabe".to_string(),
    });
    // ----------------------------------------------------------------
    let computed = disc.to_string();
    let expected = "Wrong Horse (HD-DVD)".to_string();
    // ----------------------------------------------------------------
    assert_eq!(computed, expected);
}

#[test]
fn test_format_bluray() {
    let disc = OpticalDisc::BluRay(BluRay{
        name: "Locked Down".to_string(),
        uid: "facefeed".to_string(),
        has_aacs: true,
        has_bdsvm: true,
    });
    // ----------------------------------------------------------------
    let computed = disc.to_string();
    let expected = "Locked Down (Blu-Ray)".to_string();
    // ----------------------------------------------------------------
    assert_eq!(computed, expected);
}
