//! Enumerations of `apdefs.h` from MakeMKV's open-source part: drive
//! states, item attribute ids and item attribute codes, each with its
//! numeric value.

use vstd::prelude::*;

use crate::text::owned;

verus! {

/// The state of an optical drive (`AP_DriveState...`).
#[derive(Clone, Copy, Debug, PartialEq, Eq, Structural)]
pub enum DriveStatus {
    /// `AP_DriveStateEmptyClosed`
    EmptyClosed,
    /// `AP_DriveStateEmptyOpen`
    EmptyOpen,
    /// `AP_DriveStateInserted`
    DiscInserted,
    /// `AP_DriveStateLoading`
    DiscLoading,
    /// `AP_DriveStateNoDrive`
    NoDrive,
    /// `AP_DriveStateUnmounting`
    Unmounting,
}

impl DriveStatus {
    /// The numeric value used in `DRV` records.
    pub open spec fn value(self) -> u32 {
        match self {
            DriveStatus::EmptyClosed => 0,
            DriveStatus::EmptyOpen => 1,
            DriveStatus::DiscInserted => 2,
            DriveStatus::DiscLoading => 3,
            DriveStatus::NoDrive => 256,
            DriveStatus::Unmounting => 257,
        }
    }

    /// The variant's name, as its `Debug` form prints it.
    pub open spec fn name(self) -> Seq<char> {
        match self {
            DriveStatus::EmptyClosed => "EmptyClosed"@,
            DriveStatus::EmptyOpen => "EmptyOpen"@,
            DriveStatus::DiscInserted => "DiscInserted"@,
            DriveStatus::DiscLoading => "DiscLoading"@,
            DriveStatus::NoDrive => "NoDrive"@,
            DriveStatus::Unmounting => "Unmounting"@,
        }
    }

    /// The variant with the given numeric value, if there is one.
    pub open spec fn of_value(v: u32) -> Option<DriveStatus> {
        if exists|x: DriveStatus| x.value() == v {
            Some(choose|x: DriveStatus| x.value() == v)
        } else {
            None
        }
    }

    /// The variant with the given numeric value, if there is one.
    pub fn from_u32(value: u32) -> (r: Option<DriveStatus>)
        ensures
            r == DriveStatus::of_value(value),
    {
        let r = Self::lookup(value);
        proof {
            if let Some(x) = r {
                let y = choose|y: DriveStatus| y.value() == value;
                lemma_drive_status_injective(x, y);
            }
        }
        r
    }

    fn lookup(value: u32) -> (r: Option<DriveStatus>)
        ensures
            match r {
                Some(x) => x.value() == value,
                None => forall|x: DriveStatus| x.value() != value,
            },
    {
        match value {
            0 => Some(DriveStatus::EmptyClosed),
            1 => Some(DriveStatus::EmptyOpen),
            2 => Some(DriveStatus::DiscInserted),
            3 => Some(DriveStatus::DiscLoading),
            256 => Some(DriveStatus::NoDrive),
            257 => Some(DriveStatus::Unmounting),
            _ => None,
        }
    }

    /// The variant's name (what `Display` prints).
    pub fn to_string(&self) -> (r: String)
        ensures
            r@ == self.name(),
    {
        match self {
            DriveStatus::EmptyClosed => owned("EmptyClosed"),
            DriveStatus::EmptyOpen => owned("EmptyOpen"),
            DriveStatus::DiscInserted => owned("DiscInserted"),
            DriveStatus::DiscLoading => owned("DiscLoading"),
            DriveStatus::NoDrive => owned("NoDrive"),
            DriveStatus::Unmounting => owned("Unmounting"),
        }
    }
}

/// Item attribute id (enum `_AP_ItemAttributeId`).
#[derive(Clone, Copy, Debug, PartialEq, Eq, Structural)]
pub enum ItemAttributeId {
    /// `ap_iaUnknown`
    Unknown,
    /// `ap_iaType`
    Type,
    /// `ap_iaName`
    Name,
    /// `ap_iaLangCode`
    LangCode,
    /// `ap_iaLangName`
    LangName,
    /// `ap_iaCodecId`
    CodecId,
    /// `ap_iaCodecShort`
    CodecShort,
    /// `ap_iaCodecLong`
    CodecLong,
    /// `ap_iaChapterCount`
    ChapterCount,
    /// `ap_iaDuration`
    Duration,
    /// `ap_iaDiskSize`
    DiskSize,
    /// `ap_iaDiskSizeBytes`
    DiskSizeBytes,
    /// `ap_iaStreamTypeExtension`
    StreamTypeExtension,
    /// `ap_iaBitrate`
    Bitrate,
    /// `ap_iaAudioChannelsCount`
    AudioChannelsCount,
    /// `ap_iaAngleInfo`
    AngleInfo,
    /// `ap_iaSourceFileName`
    SourceFileName,
    /// `ap_iaAudioSampleRate`
    AudioSampleRate,
    /// `ap_iaAudioSampleSize`
    AudioSampleSize,
    /// `ap_iaVideoSize`
    VideoSize,
    /// `ap_iaVideoAspectRatio`
    VideoAspectRatio,
    /// `ap_iaVideoFrameRate`
    VideoFrameRate,
    /// `ap_iaStreamFlags`
    StreamFlags,
    /// `ap_iaDateTime`
    DateTime,
    /// `ap_iaOriginalTitleId`
    OriginalTitleId,
    /// `ap_iaSegmentsCount`
    SegmentsCount,
    /// `ap_iaSegmentsMap`
    SegmentsMap,
    /// `ap_iaOutputFileName`
    OutputFileName,
    /// `ap_iaMetadataLanguageCode`
    MetadataLanguageCode,
    /// `ap_iaMetadataLanguageName`
    MetadataLanguageName,
    /// `ap_iaTreeInfo`
    TreeInfo,
    /// `ap_iaPanelTitle`
    PanelTitle,
    /// `ap_iaVolumeName`
    VolumeName,
    /// `ap_iaOrderWeight`
    OrderWeight,
    /// `ap_iaOutputFormat`
    OutputFormat,
    /// `ap_iaOutputFormatDescription`
    OutputFormatDescription,
    /// `ap_iaSeamlessInfo`
    SeamlessInfo,
    /// `ap_iaPanelText`
    PanelText,
    /// `ap_iaMkvFlags`
    MkvFlags,
    /// `ap_iaMkvFlagsText`
    MkvFlagsText,
    /// `ap_iaAudioChannelLayoutName`
    AudioChannelLayoutName,
    /// `ap_iaOutputCodecShort`
    OutputCodecShort,
    /// `ap_iaOutputConversionType`
    OutputConversionType,
    /// `ap_iaOutputAudioSampleRate`
    OutputAudioSampleRate,
    /// `ap_iaOutputAudioSampleSize`
    OutputAudioSampleSize,
    /// `ap_iaOutputAudioChannelsCount`
    OutputAudioChannelsCount,
    /// `ap_iaOutputAudioChannelLayoutName`
    OutputAudioChannelLayoutName,
    /// `ap_iaOutputAudioChannelLayout`
    OutputAudioChannelLayout,
    /// `ap_iaOutputAudioMixDescription`
    OutputAudioMixDescription,
    /// `ap_iaComment`
    Comment,
    /// `ap_iaOffsetSequenceId`
    OffsetSequenceId,
}

impl ItemAttributeId {
    /// The numeric attribute id used in `CINFO`, `TINFO` and `SINFO` records.
    pub open spec fn value(self) -> u32 {
        match self {
            ItemAttributeId::Unknown => 0,
            ItemAttributeId::Type => 1,
            ItemAttributeId::Name => 2,
            ItemAttributeId::LangCode => 3,
            ItemAttributeId::LangName => 4,
            ItemAttributeId::CodecId => 5,
            ItemAttributeId::CodecShort => 6,
            ItemAttributeId::CodecLong => 7,
            ItemAttributeId::ChapterCount => 8,
            ItemAttributeId::Duration => 9,
            ItemAttributeId::DiskSize => 10,
            ItemAttributeId::DiskSizeBytes => 11,
            ItemAttributeId::StreamTypeExtension => 12,
            ItemAttributeId::Bitrate => 13,
            ItemAttributeId::AudioChannelsCount => 14,
            ItemAttributeId::AngleInfo => 15,
            ItemAttributeId::SourceFileName => 16,
            ItemAttributeId::AudioSampleRate => 17,
            ItemAttributeId::AudioSampleSize => 18,
            ItemAttributeId::VideoSize => 19,
            ItemAttributeId::VideoAspectRatio => 20,
            ItemAttributeId::VideoFrameRate => 21,
            ItemAttributeId::StreamFlags => 22,
            ItemAttributeId::DateTime => 23,
            ItemAttributeId::OriginalTitleId => 24,
            ItemAttributeId::SegmentsCount => 25,
            ItemAttributeId::SegmentsMap => 26,
            ItemAttributeId::OutputFileName => 27,
            ItemAttributeId::MetadataLanguageCode => 28,
            ItemAttributeId::MetadataLanguageName => 29,
            ItemAttributeId::TreeInfo => 30,
            ItemAttributeId::PanelTitle => 31,
            ItemAttributeId::VolumeName => 32,
            ItemAttributeId::OrderWeight => 33,
            ItemAttributeId::OutputFormat => 34,
            ItemAttributeId::OutputFormatDescription => 35,
            ItemAttributeId::SeamlessInfo => 36,
            ItemAttributeId::PanelText => 37,
            ItemAttributeId::MkvFlags => 38,
            ItemAttributeId::MkvFlagsText => 39,
            ItemAttributeId::AudioChannelLayoutName => 40,
            ItemAttributeId::OutputCodecShort => 41,
            ItemAttributeId::OutputConversionType => 42,
            ItemAttributeId::OutputAudioSampleRate => 43,
            ItemAttributeId::OutputAudioSampleSize => 44,
            ItemAttributeId::OutputAudioChannelsCount => 45,
            ItemAttributeId::OutputAudioChannelLayoutName => 46,
            ItemAttributeId::OutputAudioChannelLayout => 47,
            ItemAttributeId::OutputAudioMixDescription => 48,
            ItemAttributeId::Comment => 49,
            ItemAttributeId::OffsetSequenceId => 50,
        }
    }

    /// The variant's name, as its `Debug` form prints it.
    pub open spec fn name(self) -> Seq<char> {
        match self {
            ItemAttributeId::Unknown => "Unknown"@,
            ItemAttributeId::Type => "Type"@,
            ItemAttributeId::Name => "Name"@,
            ItemAttributeId::LangCode => "LangCode"@,
            ItemAttributeId::LangName => "LangName"@,
            ItemAttributeId::CodecId => "CodecId"@,
            ItemAttributeId::CodecShort => "CodecShort"@,
            ItemAttributeId::CodecLong => "CodecLong"@,
            ItemAttributeId::ChapterCount => "ChapterCount"@,
            ItemAttributeId::Duration => "Duration"@,
            ItemAttributeId::DiskSize => "DiskSize"@,
            ItemAttributeId::DiskSizeBytes => "DiskSizeBytes"@,
            ItemAttributeId::StreamTypeExtension => "StreamTypeExtension"@,
            ItemAttributeId::Bitrate => "Bitrate"@,
            ItemAttributeId::AudioChannelsCount => "AudioChannelsCount"@,
            ItemAttributeId::AngleInfo => "AngleInfo"@,
            ItemAttributeId::SourceFileName => "SourceFileName"@,
            ItemAttributeId::AudioSampleRate => "AudioSampleRate"@,
            ItemAttributeId::AudioSampleSize => "AudioSampleSize"@,
            ItemAttributeId::VideoSize => "VideoSize"@,
            ItemAttributeId::VideoAspectRatio => "VideoAspectRatio"@,
            ItemAttributeId::VideoFrameRate => "VideoFrameRate"@,
            ItemAttributeId::StreamFlags => "StreamFlags"@,
            ItemAttributeId::DateTime => "DateTime"@,
            ItemAttributeId::OriginalTitleId => "OriginalTitleId"@,
            ItemAttributeId::SegmentsCount => "SegmentsCount"@,
            ItemAttributeId::SegmentsMap => "SegmentsMap"@,
            ItemAttributeId::OutputFileName => "OutputFileName"@,
            ItemAttributeId::MetadataLanguageCode => "MetadataLanguageCode"@,
            ItemAttributeId::MetadataLanguageName => "MetadataLanguageName"@,
            ItemAttributeId::TreeInfo => "TreeInfo"@,
            ItemAttributeId::PanelTitle => "PanelTitle"@,
            ItemAttributeId::VolumeName => "VolumeName"@,
            ItemAttributeId::OrderWeight => "OrderWeight"@,
            ItemAttributeId::OutputFormat => "OutputFormat"@,
            ItemAttributeId::OutputFormatDescription => "OutputFormatDescription"@,
            ItemAttributeId::SeamlessInfo => "SeamlessInfo"@,
            ItemAttributeId::PanelText => "PanelText"@,
            ItemAttributeId::MkvFlags => "MkvFlags"@,
            ItemAttributeId::MkvFlagsText => "MkvFlagsText"@,
            ItemAttributeId::AudioChannelLayoutName => "AudioChannelLayoutName"@,
            ItemAttributeId::OutputCodecShort => "OutputCodecShort"@,
            ItemAttributeId::OutputConversionType => "OutputConversionType"@,
            ItemAttributeId::OutputAudioSampleRate => "OutputAudioSampleRate"@,
            ItemAttributeId::OutputAudioSampleSize => "OutputAudioSampleSize"@,
            ItemAttributeId::OutputAudioChannelsCount => "OutputAudioChannelsCount"@,
            ItemAttributeId::OutputAudioChannelLayoutName => "OutputAudioChannelLayoutName"@,
            ItemAttributeId::OutputAudioChannelLayout => "OutputAudioChannelLayout"@,
            ItemAttributeId::OutputAudioMixDescription => "OutputAudioMixDescription"@,
            ItemAttributeId::Comment => "Comment"@,
            ItemAttributeId::OffsetSequenceId => "OffsetSequenceId"@,
        }
    }

    /// The variant with the given numeric value, if there is one.
    pub open spec fn of_value(v: u32) -> Option<ItemAttributeId> {
        if exists|x: ItemAttributeId| x.value() == v {
            Some(choose|x: ItemAttributeId| x.value() == v)
        } else {
            None
        }
    }

    /// The variant with the given numeric value, if there is one.
    pub fn from_u32(value: u32) -> (r: Option<ItemAttributeId>)
        ensures
            r == ItemAttributeId::of_value(value),
    {
        let r = Self::lookup(value);
        proof {
            if let Some(x) = r {
                let y = choose|y: ItemAttributeId| y.value() == value;
                lemma_attribute_id_injective(x, y);
            }
        }
        r
    }

    fn lookup(value: u32) -> (r: Option<ItemAttributeId>)
        ensures
            match r {
                Some(x) => x.value() == value,
                None => forall|x: ItemAttributeId| x.value() != value,
            },
    {
        match value {
            0 => Some(ItemAttributeId::Unknown),
            1 => Some(ItemAttributeId::Type),
            2 => Some(ItemAttributeId::Name),
            3 => Some(ItemAttributeId::LangCode),
            4 => Some(ItemAttributeId::LangName),
            5 => Some(ItemAttributeId::CodecId),
            6 => Some(ItemAttributeId::CodecShort),
            7 => Some(ItemAttributeId::CodecLong),
            8 => Some(ItemAttributeId::ChapterCount),
            9 => Some(ItemAttributeId::Duration),
            10 => Some(ItemAttributeId::DiskSize),
            11 => Some(ItemAttributeId::DiskSizeBytes),
            12 => Some(ItemAttributeId::StreamTypeExtension),
            13 => Some(ItemAttributeId::Bitrate),
            14 => Some(ItemAttributeId::AudioChannelsCount),
            15 => Some(ItemAttributeId::AngleInfo),
            16 => Some(ItemAttributeId::SourceFileName),
            17 => Some(ItemAttributeId::AudioSampleRate),
            18 => Some(ItemAttributeId::AudioSampleSize),
            19 => Some(ItemAttributeId::VideoSize),
            20 => Some(ItemAttributeId::VideoAspectRatio),
            21 => Some(ItemAttributeId::VideoFrameRate),
            22 => Some(ItemAttributeId::StreamFlags),
            23 => Some(ItemAttributeId::DateTime),
            24 => Some(ItemAttributeId::OriginalTitleId),
            25 => Some(ItemAttributeId::SegmentsCount),
            26 => Some(ItemAttributeId::SegmentsMap),
            27 => Some(ItemAttributeId::OutputFileName),
            28 => Some(ItemAttributeId::MetadataLanguageCode),
            29 => Some(ItemAttributeId::MetadataLanguageName),
            30 => Some(ItemAttributeId::TreeInfo),
            31 => Some(ItemAttributeId::PanelTitle),
            32 => Some(ItemAttributeId::VolumeName),
            33 => Some(ItemAttributeId::OrderWeight),
            34 => Some(ItemAttributeId::OutputFormat),
            35 => Some(ItemAttributeId::OutputFormatDescription),
            36 => Some(ItemAttributeId::SeamlessInfo),
            37 => Some(ItemAttributeId::PanelText),
            38 => Some(ItemAttributeId::MkvFlags),
            39 => Some(ItemAttributeId::MkvFlagsText),
            40 => Some(ItemAttributeId::AudioChannelLayoutName),
            41 => Some(ItemAttributeId::OutputCodecShort),
            42 => Some(ItemAttributeId::OutputConversionType),
            43 => Some(ItemAttributeId::OutputAudioSampleRate),
            44 => Some(ItemAttributeId::OutputAudioSampleSize),
            45 => Some(ItemAttributeId::OutputAudioChannelsCount),
            46 => Some(ItemAttributeId::OutputAudioChannelLayoutName),
            47 => Some(ItemAttributeId::OutputAudioChannelLayout),
            48 => Some(ItemAttributeId::OutputAudioMixDescription),
            49 => Some(ItemAttributeId::Comment),
            50 => Some(ItemAttributeId::OffsetSequenceId),
            _ => None,
        }
    }

    /// The variant's name (what `Display` prints).
    pub fn to_string(&self) -> (r: String)
        ensures
            r@ == self.name(),
    {
        match self {
            ItemAttributeId::Unknown => owned("Unknown"),
            ItemAttributeId::Type => owned("Type"),
            ItemAttributeId::Name => owned("Name"),
            ItemAttributeId::LangCode => owned("LangCode"),
            ItemAttributeId::LangName => owned("LangName"),
            ItemAttributeId::CodecId => owned("CodecId"),
            ItemAttributeId::CodecShort => owned("CodecShort"),
            ItemAttributeId::CodecLong => owned("CodecLong"),
            ItemAttributeId::ChapterCount => owned("ChapterCount"),
            ItemAttributeId::Duration => owned("Duration"),
            ItemAttributeId::DiskSize => owned("DiskSize"),
            ItemAttributeId::DiskSizeBytes => owned("DiskSizeBytes"),
            ItemAttributeId::StreamTypeExtension => owned("StreamTypeExtension"),
            ItemAttributeId::Bitrate => owned("Bitrate"),
            ItemAttributeId::AudioChannelsCount => owned("AudioChannelsCount"),
            ItemAttributeId::AngleInfo => owned("AngleInfo"),
            ItemAttributeId::SourceFileName => owned("SourceFileName"),
            ItemAttributeId::AudioSampleRate => owned("AudioSampleRate"),
            ItemAttributeId::AudioSampleSize => owned("AudioSampleSize"),
            ItemAttributeId::VideoSize => owned("VideoSize"),
            ItemAttributeId::VideoAspectRatio => owned("VideoAspectRatio"),
            ItemAttributeId::VideoFrameRate => owned("VideoFrameRate"),
            ItemAttributeId::StreamFlags => owned("StreamFlags"),
            ItemAttributeId::DateTime => owned("DateTime"),
            ItemAttributeId::OriginalTitleId => owned("OriginalTitleId"),
            ItemAttributeId::SegmentsCount => owned("SegmentsCount"),
            ItemAttributeId::SegmentsMap => owned("SegmentsMap"),
            ItemAttributeId::OutputFileName => owned("OutputFileName"),
            ItemAttributeId::MetadataLanguageCode => owned("MetadataLanguageCode"),
            ItemAttributeId::MetadataLanguageName => owned("MetadataLanguageName"),
            ItemAttributeId::TreeInfo => owned("TreeInfo"),
            ItemAttributeId::PanelTitle => owned("PanelTitle"),
            ItemAttributeId::VolumeName => owned("VolumeName"),
            ItemAttributeId::OrderWeight => owned("OrderWeight"),
            ItemAttributeId::OutputFormat => owned("OutputFormat"),
            ItemAttributeId::OutputFormatDescription => owned("OutputFormatDescription"),
            ItemAttributeId::SeamlessInfo => owned("SeamlessInfo"),
            ItemAttributeId::PanelText => owned("PanelText"),
            ItemAttributeId::MkvFlags => owned("MkvFlags"),
            ItemAttributeId::MkvFlagsText => owned("MkvFlagsText"),
            ItemAttributeId::AudioChannelLayoutName => owned("AudioChannelLayoutName"),
            ItemAttributeId::OutputCodecShort => owned("OutputCodecShort"),
            ItemAttributeId::OutputConversionType => owned("OutputConversionType"),
            ItemAttributeId::OutputAudioSampleRate => owned("OutputAudioSampleRate"),
            ItemAttributeId::OutputAudioSampleSize => owned("OutputAudioSampleSize"),
            ItemAttributeId::OutputAudioChannelsCount => owned("OutputAudioChannelsCount"),
            ItemAttributeId::OutputAudioChannelLayoutName => owned("OutputAudioChannelLayoutName"),
            ItemAttributeId::OutputAudioChannelLayout => owned("OutputAudioChannelLayout"),
            ItemAttributeId::OutputAudioMixDescription => owned("OutputAudioMixDescription"),
            ItemAttributeId::Comment => owned("Comment"),
            ItemAttributeId::OffsetSequenceId => owned("OffsetSequenceId"),
        }
    }
}

/// Item attribute code: the message code attached to an attribute value.
#[derive(Clone, Copy, Debug, PartialEq, Eq, Structural)]
pub enum ItemAttributeCode {
    /// `APP_DUMP_DONE_PARTIAL`
    AppDumpDonePartial,
    /// `APP_DUMP_DONE`
    AppDumpDone,
    /// `APP_INIT_FAILED`
    AppInitFailed,
    /// `APP_ASK_FOLDER_CREATE`
    AppAskFolderCreate,
    /// `APP_FOLDER_INVALID`
    AppFolderInvalid,
    /// `PROGRESS_APP_SAVE_MKV_FREE_SPACE`
    ProgressAppSaveMkvFreeSpace,
    /// `PROT_DEMO_KEY_EXPIRED`
    ProtDemoKeyExpired,
    /// `APP_KEYTYPE_INVALID`
    AppKeyTypeInvalid,
    /// `APP_EVAL_TIME_NEVER`
    AppEvalTimeNever,
    /// `APP_BACKUP_FAILED`
    AppBackupFailed,
    /// `APP_BACKUP_COMPLETED`
    AppBackupCompleted,
    /// `APP_BACKUP_COMPLETED_HASHFAIL`
    AppBackupCompletedHashFail,
    /// `PROFILE_NAME_DEFAULT`
    ProfileNameDefault,
    /// `VITEM_NAME`
    VItemName,
    /// `VITEM_TIMESTAMP`
    VItemTimestamp,
    /// `APP_IFACE_TITLE`
    AppInterfaceTitle,
    /// `APP_CAPTION_MSG`
    AppCaptionMsg,
    /// `APP_ABOUTBOX_TITLE`
    AppAboutBoxTitle,
    /// `APP_IFACE_OPENFILE_TITLE`
    AppInterfaceOpenFileTitle,
    /// `APP_SETTINGDLG_TITLE`
    AppSettingDialogTitle,
    /// `APP_BACKUPDLG_TITLE`
    AppBackupDialogTitle,
    /// `APP_IFACE_OPENFILE_FILTER_TEMPLATE1`
    AppInterfaceOpenFileFilterTemplate1,
    /// `APP_IFACE_OPENFILE_FILTER_TEMPLATE2`
    AppInterfaceOpenFileFilterTemplate2,
    /// `APP_IFACE_OPENFOLDER_TITLE`
    AppInterfaceOpenFolderTitle,
    /// `APP_IFACE_OPENFOLDER_INFO_TITLE`
    AppInterfaceOpenFolderInfoTitle,
    /// `APP_IFACE_PROGRESS_TITLE`
    AppInterfaceProgressTitle,
    /// `APP_IFACE_PROGRESS_ELAPSED_ONLY`
    AppInterfaceProgressElapsedOnly,
    /// `APP_IFACE_PROGRESS_ELAPSED_ETA`
    AppInterfaceProgressElapsedEta,
    /// `APP_IFACE_ACT_OPENFILES_NAME`
    AppInterfaceActOpenFilesNAME,
    /// `APP_IFACE_ACT_OPENFILES_SKEY`
    AppInterfaceActOpenFilesSKEY,
    /// `APP_IFACE_ACT_OPENFILES_STIP`
    AppInterfaceActOpenFilesSTIP,
    /// `APP_IFACE_ACT_OPENFILES_DVD_NAME`
    AppInterfaceActOpenFilesDvdName,
    /// `APP_IFACE_ACT_OPENFILES_DVD_STIP`
    AppInterfaceActOpenFilesDvdSTIP,
    /// `APP_IFACE_ACT_CLOSEDISK_NAME`
    AppInterfaceActCloseDiskName,
    /// `APP_IFACE_ACT_CLOSEDISK_STIP`
    AppInterfaceActCloseDiskSTIP,
    /// `APP_IFACE_ACT_SETFOLDER_NAME`
    AppInterfaceActSetFolderName,
    /// `APP_IFACE_ACT_SETFOLDER_STIP`
    AppInterfaceActSetFolderSTIP,
    /// `APP_IFACE_ACT_SAVEALLMKV_NAME`
    AppInterfaceActSaveAllMkvName,
    /// `APP_IFACE_ACT_SAVEALLMKV_STIP`
    AppInterfaceActSaveAllMkvSTIP,
    /// `APP_IFACE_ACT_CANCEL_NAME`
    AppInterfaceActCancelName,
    /// `APP_IFACE_ACT_CANCEL_STIP`
    AppInterfaceActCancelSTIP,
    /// `APP_IFACE_ACT_STREAMING_NAME`
    AppInterfaceActStreamingName,
    /// `APP_IFACE_ACT_STREAMING_STIP`
    AppInterfaceActStreamingSTIP,
    /// `APP_IFACE_ACT_BACKUP_NAME`
    AppInterfaceActBackupName,
    /// `APP_IFACE_ACT_BACKUP_STIP`
    AppInterfaceActBackupSTIP,
    /// `APP_IFACE_ACT_QUIT_NAME`
    AppInterfaceActQuitName,
    /// `APP_IFACE_ACT_QUIT_SKEY`
    AppInterfaceActQuitSKey,
    /// `APP_IFACE_ACT_QUIT_STIP`
    AppInterfaceActQuitSTIP,
    /// `APP_IFACE_ACT_ABOUT_NAME`
    AppInterfaceActAboutName,
    /// `APP_IFACE_ACT_ABOUT_STIP`
    AppInterfaceActAboutSTIP,
    /// `APP_IFACE_ACT_SETTINGS_NAME`
    AppInterfaceActSettingsName,
    /// `APP_IFACE_ACT_SETTINGS_STIP`
    AppInterfaceActSettingsSTIP,
    /// `APP_IFACE_ACT_HELPPAGE_NAME`
    AppInterfaceActHelpPageName,
    /// `APP_IFACE_ACT_HELPPAGE_STIP`
    AppInterfaceActHelpPageSTIP,
    /// `APP_IFACE_ACT_REGISTER_NAME`
    AppInterfaceActRegisterName,
    /// `APP_IFACE_ACT_REGISTER_STIP`
    AppInterfaceActRegisterSTIP,
    /// `APP_IFACE_ACT_PURCHASE_NAME`
    AppInterfaceActPurchaseNAME,
    /// `APP_IFACE_ACT_PURCHASE_STIP`
    AppInterfaceActPurchaseSTIP,
    /// `APP_IFACE_ACT_CLEARLOG_NAME`
    AppInterfaceActClearLogName,
    /// `APP_IFACE_ACT_CLEARLOG_STIP`
    AppInterfaceActClearLogSTIP,
    /// `APP_IFACE_ACT_EJECT_NAME`
    AppInterfaceActEjectName,
    /// `APP_IFACE_ACT_EJECT_STIP`
    AppInterfaceActEjectSTIP,
    /// `APP_IFACE_ACT_REVERT_NAME`
    AppInterfaceActRevertNAME,
    /// `APP_IFACE_ACT_REVERT_STIP`
    AppInterfaceActRevertSTIP,
    /// `APP_IFACE_ACT_NEWINSTANCE_NAME`
    AppInterfaceActNewInstanceName,
    /// `APP_IFACE_ACT_NEWINSTANCE_STIP`
    AppInterfaceActNewInstanceSTIP,
    /// `APP_IFACE_ACT_OPENDISC_DVD`
    AppInterfaceActOpenDiscDvd,
    /// `APP_IFACE_ACT_OPENDISC_HDDVD`
    AppInterfaceActOpenDiscHdDvd,
    /// `APP_IFACE_ACT_OPENDISC_BRAY`
    AppInterfaceActOpenDiscBluRay,
    /// `APP_IFACE_ACT_OPENDISC_LOADING`
    AppInterfaceActOpenDiscLoading,
    /// `APP_IFACE_ACT_OPENDISC_UNKNOWN`
    AppInterfaceActOpenDiscUnknown,
    /// `APP_IFACE_ACT_OPENDISC_NODISC`
    AppInterfaceActOpenDiscNoDisc,
    /// `APP_IFACE_ACT_TTREE_TOGGLE`
    AppInterfaceActTitleTreeToggle,
    /// `APP_IFACE_ACT_TTREE_SELECT_ALL`
    AppInterfaceActTitleTreeSelectAll,
    /// `APP_IFACE_ACT_TTREE_UNSELECT_ALL`
    AppInterfaceActTitleTreeUnselectAll,
    /// `APP_IFACE_MENU_FILE`
    AppInterfaceMenuFile,
    /// `APP_IFACE_MENU_VIEW`
    AppInterfaceMenuView,
    /// `APP_IFACE_MENU_HELP`
    AppInterfaceMenuHelp,
    /// `APP_IFACE_MENU_TOOLBAR`
    AppInterfaceMenuToolbar,
    /// `APP_IFACE_MENU_SETTINGS`
    AppInterfaceMenuSettings,
    /// `APP_IFACE_MENU_DRIVES`
    AppInterfaceMenuDRIVES,
    /// `APP_IFACE_CANCEL_CONFIRM`
    AppInterfaceCancelCONFIRM,
    /// `APP_IFACE_FATAL_COMM`
    AppInterfaceFatalCOMM,
    /// `APP_IFACE_FATAL_MEM`
    AppInterfaceFatalMEM,
    /// `APP_IFACE_GUI_VERSION`
    AppInterfaceGuiVERSION,
    /// `APP_IFACE_LATEST_VERSION`
    AppInterfaceLatestVERSION,
    /// `APP_IFACE_LICENSE_TYPE`
    AppInterfaceLicenseTYPE,
    /// `APP_IFACE_EVAL_STATE`
    AppInterfaceEvalSTATE,
    /// `APP_IFACE_EVAL_EXPIRATION`
    AppInterfaceEvalEXPIRATION,
    /// `APP_IFACE_PROG_EXPIRATION`
    AppInterfaceProgEXPIRATION,
    /// `APP_IFACE_WEBSITE_URL`
    AppInterfaceWebsiteURL,
    /// `APP_IFACE_VIDEO_FOLDER_NAME_WIN`
    AppInterfaceVideoFolderNameWin,
    /// `APP_IFACE_VIDEO_FOLDER_NAME_MAC`
    AppInterfaceVideoFolderNameMac,
    /// `APP_IFACE_VIDEO_FOLDER_NAME_LINUX`
    AppInterfaceVideoFolderNameLinux,
    /// `APP_IFACE_DEFAULT_FOLDER_NAME`
    AppInterfaceDefaultFolderName,
    /// `APP_IFACE_MAIN_FRAME_INFO`
    AppInterfaceMainFrameInfo,
    /// `APP_IFACE_MAIN_FRAME_MAKE_MKV`
    AppInterfaceMainFrameMakeMkv,
    /// `APP_IFACE_MAIN_FRAME_PROFILE`
    AppInterfaceMainFrameProfile,
    /// `APP_IFACE_MAIN_FRAME_PROPERTIES`
    AppInterfaceMainFrameProperties,
    /// `APP_IFACE_EMPTY_FRAME_INFO`
    AppInterfaceEmptyFrameInfo,
    /// `APP_IFACE_EMPTY_FRAME_SOURCE`
    AppInterfaceEmptyFrameSource,
    /// `APP_IFACE_EMPTY_FRAME_TYPE`
    AppInterfaceEmptyFrameType,
    /// `APP_IFACE_EMPTY_FRAME_LABEL`
    AppInterfaceEmptyFrameLabel,
    /// `APP_IFACE_EMPTY_FRAME_PROTECTION`
    AppInterfaceEmptyFrameProtection,
    /// `APP_IFACE_EMPTY_FRAME_DVD_MANUAL`
    AppInterfaceEmptyFrameDvdManual,
    /// `APP_IFACE_REGISTER_TEXT`
    AppInterfaceRegisterTEXT,
    /// `APP_IFACE_REGISTER_CODE_INCORRECT`
    AppInterfaceRegisterCodeIncorrect,
    /// `APP_IFACE_REGISTER_CODE_NOT_SAVED`
    AppInterfaceRegisterCodeNotSaved,
    /// `APP_IFACE_REGISTER_CODE_SAVED`
    AppInterfaceRegisterCodeSaved,
    /// `APP_IFACE_SETTINGS_IO_OPTIONS`
    AppInterfaceSettingsIoOptions,
    /// `APP_IFACE_SETTINGS_IO_AUTO`
    AppInterfaceSettingsIoAuto,
    /// `APP_IFACE_SETTINGS_IO_READ_RETRY`
    AppInterfaceSettingsIoReadRetry,
    /// `APP_IFACE_SETTINGS_IO_READ_BUFFER`
    AppInterfaceSettingsIoReadBuffer,
    /// `APP_IFACE_SETTINGS_IO_NO_DIRECT_ACCESS`
    AppInterfaceSettingsIoNoDirectAccess,
    /// `APP_IFACE_SETTINGS_IO_DARWIN_K2_WORKAROUND`
    AppInterfaceSettingsIoDarwinK2Workaround,
    /// `APP_IFACE_SETTINGS_IO_SINGLE_DRIVE`
    AppInterfaceSettingsIoSingleDrive,
    /// `APP_IFACE_SETTINGS_DVD_AUTO`
    AppInterfaceSettingsDvdAuto,
    /// `APP_IFACE_SETTINGS_DVD_MIN_LENGTH`
    AppInterfaceSettingsDvdMinLength,
    /// `APP_IFACE_SETTINGS_DVD_SP_REMOVE`
    AppInterfaceSettingsDvdSpRemove,
    /// `APP_IFACE_SETTINGS_AACS_KEY_DIR`
    AppInterfaceSettingsAacsKeyDir,
    /// `APP_IFACE_SETTINGS_BDP_MISC`
    AppInterfaceSettingsBdpMISC,
    /// `APP_IFACE_SETTINGS_BDP_DUMP_ALWAYS`
    AppInterfaceSettingsBdpDumpAlways,
    /// `APP_IFACE_SETTINGS_DEST_TYPE_NONE`
    AppInterfaceSettingsDestTypeNone,
    /// `APP_IFACE_SETTINGS_DEST_TYPE_AUTO`
    AppInterfaceSettingsDestTypeAuto,
    /// `APP_IFACE_SETTINGS_DEST_TYPE_SEMIAUTO`
    AppInterfaceSettingsDestTypeSemiAuto,
    /// `APP_IFACE_SETTINGS_DEST_TYPE_CUSTOM`
    AppInterfaceSettingsDestTypeCustom,
    /// `APP_IFACE_SETTINGS_DESTDIR`
    AppInterfaceSettingsDestDir,
    /// `APP_IFACE_SETTINGS_GENERAL_MISC`
    AppInterfaceSettingsGeneralMisc,
    /// `APP_IFACE_SETTINGS_LOG_DEBUG_MSG`
    AppInterfaceSettingsLogDebugMsg,
    /// `APP_IFACE_SETTINGS_DATA_DIR`
    AppInterfaceSettingsDataDir,
    /// `APP_IFACE_SETTINGS_EXPERT_MODE`
    AppInterfaceSettingsExpertMode,
    /// `APP_IFACE_SETTINGS_SHOW_AVSYNC`
    AppInterfaceSettingsShowAvSync,
    /// `APP_IFACE_SETTINGS_GENERAL_ONLINE_UPDATES`
    AppInterfaceSettingsGeneralOnlineUpdates,
    /// `APP_IFACE_SETTINGS_ENABLE_INTERNET_ACCESS`
    AppInterfaceSettingsEnableInternetAccess,
    /// `APP_IFACE_SETTINGS_PROXY_SERVER`
    AppInterfaceSettingsProxyServer,
    /// `APP_IFACE_SETTINGS_TAB_GENERAL`
    AppInterfaceSettingsTabGeneral,
    /// `APP_IFACE_SETTINGS_MSG_FAILED`
    AppInterfaceSettingsMsgFailed,
    /// `APP_IFACE_SETTINGS_MSG_RESTART`
    AppInterfaceSettingsMsgRestart,
    /// `APP_IFACE_SETTINGS_TAB_LANGUAGE`
    AppInterfaceSettingsTabLanguage,
    /// `APP_IFACE_SETTINGS_LANG_INTERFACE`
    AppInterfaceSettingsLangInterface,
    /// `APP_IFACE_SETTINGS_LANG_PREFERRED`
    AppInterfaceSettingsLangPreferred,
    /// `APP_IFACE_SETTINGS_LANGUAGE_AUTO`
    AppInterfaceSettingsLanguageAuto,
    /// `APP_IFACE_SETTINGS_LANGUAGE_NONE`
    AppInterfaceSettingsLanguageNone,
    /// `APP_IFACE_SETTINGS_TAB_IO`
    AppInterfaceSettingsTabIo,
    /// `APP_IFACE_SETTINGS_TAB_STREAMING`
    AppInterfaceSettingsTabStreaming,
    /// `APP_IFACE_SETTINGS_TAB_PROT`
    AppInterfaceSettingsTabProt,
    /// `APP_IFACE_SETTINGS_TAB_ADVANCED`
    AppInterfaceSettingsTabAdvanced,
    /// `APP_IFACE_SETTINGS_ADV_DEFAULT_PROFILE`
    AppInterfaceSettingsAdvDefaultProfile,
    /// `APP_IFACE_SETTINGS_ADV_DEFAULT_SELECTION`
    AppInterfaceSettingsAdvDefaultSelection,
    /// `APP_IFACE_SETTINGS_ADV_EXTERN_EXEC_PATH`
    AppInterfaceSettingsAdvExternExecPath,
    /// `APP_IFACE_SETTINGS_PROT_JAVA_PATH`
    AppInterfaceSettingsProtJavaPath,
    /// `APP_IFACE_SETTINGS_ADV_OUTPUT_FILE_NAME_TEMPLATE`
    AppInterfaceSettingsAdvOutputFileNameTemplate,
    /// `APP_IFACE_SETTINGS_TAB_INTEGRATION`
    AppInterfaceSettingsTabIntegration,
    /// `APP_IFACE_SETTINGS_INT_TEXT`
    AppInterfaceSettingsIntText,
    /// `APP_IFACE_SETTINGS_INT_HDR_PATH`
    AppInterfaceSettingsIntHdrPath,
    /// `APP_IFACE_KEY_TEXT`
    AppInterfaceKeyText,
    /// `APP_IFACE_KEY_NAME`
    AppInterfaceKeyName,
    /// `APP_IFACE_KEY_TYPE`
    AppInterfaceKeyType,
    /// `APP_IFACE_KEY_DATE`
    AppInterfaceKeyDate,
    /// `APP_IFACE_BACKUPDLG_TEXT_CAPTION`
    AppInterfaceBackupDlgTextCaption,
    /// `APP_IFACE_BACKUPDLG_TEXT`
    AppInterfaceBackupDlgText,
    /// `APP_IFACE_BACKUPDLG_FOLDER`
    AppInterfaceBackupDlgFolder,
    /// `APP_IFACE_BACKUPDLG_OPTIONS`
    AppInterfaceBackupDlgOptions,
    /// `APP_IFACE_BACKUPDLG_DECRYPT`
    AppInterfaceBackupDlgDecrypt,
    /// `APP_IFACE_DRIVEINFO_LOADING`
    AppInterfaceDriveInfoLoading,
    /// `APP_IFACE_DRIVEINFO_UNMOUNTING`
    AppInterfaceDriveInfoUnmounting,
    /// `APP_IFACE_DRIVEINFO_WAIT`
    AppInterfaceDriveInfoWait,
    /// `APP_IFACE_DRIVEINFO_NODISC`
    AppInterfaceDriveInfoNoDisc,
    /// `APP_IFACE_DRIVEINFO_DATADISC`
    AppInterfaceDriveInfoDataDisc,
    /// `APP_IFACE_DRIVEINFO_NONE`
    AppInterfaceDriveInfoNone,
    /// `APP_IFACE_FLAGS_DIRECTORS_COMMENTS`
    AppInterfaceFlagsDirectorsComments,
    /// `APP_IFACE_FLAGS_ALT_DIRECTORS_COMMENTS`
    AppInterfaceFlagsAltDirectorsComments,
    /// `APP_IFACE_FLAGS_SECONDARY_AUDIO`
    AppInterfaceFlagsSecondaryAudio,
    /// `APP_IFACE_FLAGS_FOR_VISUALLY_IMPAIRED`
    AppInterfaceFlagsForVisuallyImpaired,
    /// `APP_IFACE_FLAGS_CORE_AUDIO`
    AppInterfaceFlagsCoreAUDIO,
    /// `APP_IFACE_FLAGS_FORCED_SUBTITLES`
    AppInterfaceFlagsForcedSUBTITLES,
    /// `APP_IFACE_FLAGS_PROFILE_SECONDARY_STREAM`
    AppInterfaceFlagsProfileSecondaryStream,
    /// `APP_IFACE_ITEMINFO_SOURCE`
    AppInterfaceItemInfoSource,
    /// `APP_IFACE_ITEMINFO_TITLE`
    AppInterfaceItemInfoTitle,
    /// `APP_IFACE_ITEMINFO_TRACK`
    AppInterfaceItemInfoTRACK,
    /// `APP_IFACE_ITEMINFO_ATTACHMENT`
    AppInterfaceItemInfoATTACHMENT,
    /// `APP_IFACE_ITEMINFO_CHAPTER`
    AppInterfaceItemInfoCHAPTER,
    /// `APP_IFACE_ITEMINFO_CHAPTERS`
    AppInterfaceItemInfoCHAPTERS,
    /// `APP_TTREE_TITLE`
    AppTitleTreeTitle,
    /// `APP_TTREE_VIDEO`
    AppTitleTreeVideo,
    /// `APP_TTREE_AUDIO`
    AppTitleTreeAudio,
    /// `APP_TTREE_SUBPICTURE`
    AppTitleTreeSubPicture,
    /// `APP_TTREE_ATTACHMENT`
    AppTitleTreeAttachment,
    /// `APP_TTREE_CHAPTERS`
    AppTitleTreeChapters,
    /// `APP_TTREE_CHAPTER`
    AppTitleTreeChapter,
    /// `APP_TTREE_FORCED_SUBTITLES`
    AppTitleTreeForcedSubtitles,
    /// `APP_TTREE_HDR_TYPE`
    AppTitleTreeHdrType,
    /// `APP_TTREE_HDR_DESC`
    AppTitleTreeHdrDESC,
    /// `DVD_TYPE_DISK`
    DvdTypeDisk,
    /// `BRAY_TYPE_DISK`
    BluRayTypeDisk,
    /// `HDDVD_TYPE_DISK`
    HdDvdTypeDisk,
    /// `MKV_TYPE_FILE`
    MkvTypeFile,
    /// `APP_TTREE_CHAP_DESC`
    AppTitleTreeChapDESC,
    /// `APP_TTREE_ANGLE_DESC`
    AppTitleTreeAngleDESC,
    /// `APP_DVD_MANUAL_TITLE`
    AppDvdManualTitle,
    /// `APP_DVD_MANUAL_TEXT`
    AppDvdManualText,
    /// `APP_DVD_TITLES_COUNT`
    AppDvdTitlesCount,
    /// `APP_DVD_COUNT_CELLS`
    AppDvdCountCells,
    /// `APP_DVD_COUNT_PGC`
    AppDvdCountPgc,
    /// `APP_DVD_BROKEN_TITLE_ENTRY`
    AppDvdBrokenTitleEntry,
    /// `APP_SINGLE_DRIVE_TITLE`
    AppSingleDriveTitle,
    /// `APP_SINGLE_DRIVE_TEXT`
    AppSingleDriveText,
    /// `APP_SINGLE_DRIVE_ALL`
    AppSingleDriveAll,
    /// `APP_SINGLE_DRIVE_CAPTION`
    AppSingleDriveCaption,
    /// `APP_SiDRIVEINFO`
    AppSiDriveInfo,
    /// `APP_SiPROFILE`
    AppSiProfile,
    /// `APP_SiMANUFACTURER`
    AppSiManufacturer,
    /// `APP_SiPRODUCT`
    AppSiProduct,
    /// `APP_SiREVISION`
    AppSiRevision,
    /// `APP_SiSERIAL`
    AppSiSerial,
    /// `APP_SiFIRMWARE`
    AppSiFirmware,
    /// `APP_SiFIRDATE`
    AppSiFirDate,
    /// `APP_SiBECFLAGS`
    AppSiBecFlags,
    /// `APP_SiHIGHEST_AACS`
    AppSiHighestAacs,
    /// `APP_SiDISCINFO`
    AppSiDiscInfo,
    /// `APP_SiNODISC`
    AppSiNoDisc,
    /// `APP_SiDISCLOAD`
    AppSiDiscLoad,
    /// `APP_SiCAPACITY`
    AppSiCapacity,
    /// `APP_SiDISCTYPE`
    AppSiDiscType,
    /// `APP_SiDISCSIZE`
    AppSiDiscSize,
    /// `APP_SiDISCRATE`
    AppSiDiscRate,
    /// `APP_SiDISCLAYERS`
    AppSiDiscLayers,
    /// `APP_SiDISCCBL`
    AppSiDiscCbl,
    /// `APP_SiDISCCBL25`
    AppSiDiscCbl25,
    /// `APP_SiDISCCBL27`
    AppSiDiscCbl27,
    /// `APP_SiDEVICE`
    AppSiDevice,
}

impl ItemAttributeCode {
    /// The numeric code used in `CINFO`, `TINFO` and `SINFO` records.
    pub open spec fn value(self) -> u32 {
        match self {
            ItemAttributeCode::AppDumpDonePartial => 5004,
            ItemAttributeCode::AppDumpDone => 5005,
            ItemAttributeCode::AppInitFailed => 5009,
            ItemAttributeCode::AppAskFolderCreate => 5013,
            ItemAttributeCode::AppFolderInvalid => 5016,
            ItemAttributeCode::ProgressAppSaveMkvFreeSpace => 5033,
            ItemAttributeCode::ProtDemoKeyExpired => 5021,
            ItemAttributeCode::AppKeyTypeInvalid => 5095,
            ItemAttributeCode::AppEvalTimeNever => 5067,
            ItemAttributeCode::AppBackupFailed => 5069,
            ItemAttributeCode::AppBackupCompleted => 5070,
            ItemAttributeCode::AppBackupCompletedHashFail => 5079,
            ItemAttributeCode::ProfileNameDefault => 5086,
            ItemAttributeCode::VItemName => 5202,
            ItemAttributeCode::VItemTimestamp => 5223,
            ItemAttributeCode::AppInterfaceTitle => 6000,
            ItemAttributeCode::AppCaptionMsg => 6001,
            ItemAttributeCode::AppAboutBoxTitle => 6002,
            ItemAttributeCode::AppInterfaceOpenFileTitle => 6003,
            ItemAttributeCode::AppSettingDialogTitle => 6135,
            ItemAttributeCode::AppBackupDialogTitle => 6136,
            ItemAttributeCode::AppInterfaceOpenFileFilterTemplate1 => 6007,
            ItemAttributeCode::AppInterfaceOpenFileFilterTemplate2 => 6008,
            ItemAttributeCode::AppInterfaceOpenFolderTitle => 6005,
            ItemAttributeCode::AppInterfaceOpenFolderInfoTitle => 6006,
            ItemAttributeCode::AppInterfaceProgressTitle => 6038,
            ItemAttributeCode::AppInterfaceProgressElapsedOnly => 6039,
            ItemAttributeCode::AppInterfaceProgressElapsedEta => 6040,
            ItemAttributeCode::AppInterfaceActOpenFilesNAME => 6010,
            ItemAttributeCode::AppInterfaceActOpenFilesSKEY => 6011,
            ItemAttributeCode::AppInterfaceActOpenFilesSTIP => 6012,
            ItemAttributeCode::AppInterfaceActOpenFilesDvdName => 6024,
            ItemAttributeCode::AppInterfaceActOpenFilesDvdSTIP => 6026,
            ItemAttributeCode::AppInterfaceActCloseDiskName => 6013,
            ItemAttributeCode::AppInterfaceActCloseDiskSTIP => 6014,
            ItemAttributeCode::AppInterfaceActSetFolderName => 6015,
            ItemAttributeCode::AppInterfaceActSetFolderSTIP => 6016,
            ItemAttributeCode::AppInterfaceActSaveAllMkvName => 6017,
            ItemAttributeCode::AppInterfaceActSaveAllMkvSTIP => 6018,
            ItemAttributeCode::AppInterfaceActCancelName => 6036,
            ItemAttributeCode::AppInterfaceActCancelSTIP => 6037,
            ItemAttributeCode::AppInterfaceActStreamingName => 6131,
            ItemAttributeCode::AppInterfaceActStreamingSTIP => 6132,
            ItemAttributeCode::AppInterfaceActBackupName => 6133,
            ItemAttributeCode::AppInterfaceActBackupSTIP => 6134,
            ItemAttributeCode::AppInterfaceActQuitName => 6019,
            ItemAttributeCode::AppInterfaceActQuitSKey => 6020,
            ItemAttributeCode::AppInterfaceActQuitSTIP => 6021,
            ItemAttributeCode::AppInterfaceActAboutName => 6022,
            ItemAttributeCode::AppInterfaceActAboutSTIP => 6023,
            ItemAttributeCode::AppInterfaceActSettingsName => 6042,
            ItemAttributeCode::AppInterfaceActSettingsSTIP => 6043,
            ItemAttributeCode::AppInterfaceActHelpPageName => 6045,
            ItemAttributeCode::AppInterfaceActHelpPageSTIP => 6046,
            ItemAttributeCode::AppInterfaceActRegisterName => 6047,
            ItemAttributeCode::AppInterfaceActRegisterSTIP => 6048,
            ItemAttributeCode::AppInterfaceActPurchaseNAME => 6145,
            ItemAttributeCode::AppInterfaceActPurchaseSTIP => 6146,
            ItemAttributeCode::AppInterfaceActClearLogName => 6110,
            ItemAttributeCode::AppInterfaceActClearLogSTIP => 6111,
            ItemAttributeCode::AppInterfaceActEjectName => 6052,
            ItemAttributeCode::AppInterfaceActEjectSTIP => 6053,
            ItemAttributeCode::AppInterfaceActRevertNAME => 6105,
            ItemAttributeCode::AppInterfaceActRevertSTIP => 6106,
            ItemAttributeCode::AppInterfaceActNewInstanceName => 6107,
            ItemAttributeCode::AppInterfaceActNewInstanceSTIP => 6108,
            ItemAttributeCode::AppInterfaceActOpenDiscDvd => 6062,
            ItemAttributeCode::AppInterfaceActOpenDiscHdDvd => 6063,
            ItemAttributeCode::AppInterfaceActOpenDiscBluRay => 6064,
            ItemAttributeCode::AppInterfaceActOpenDiscLoading => 6065,
            ItemAttributeCode::AppInterfaceActOpenDiscUnknown => 6099,
            ItemAttributeCode::AppInterfaceActOpenDiscNoDisc => 6109,
            ItemAttributeCode::AppInterfaceActTitleTreeToggle => 6066,
            ItemAttributeCode::AppInterfaceActTitleTreeSelectAll => 6067,
            ItemAttributeCode::AppInterfaceActTitleTreeUnselectAll => 6068,
            ItemAttributeCode::AppInterfaceMenuFile => 6030,
            ItemAttributeCode::AppInterfaceMenuView => 6031,
            ItemAttributeCode::AppInterfaceMenuHelp => 6032,
            ItemAttributeCode::AppInterfaceMenuToolbar => 6034,
            ItemAttributeCode::AppInterfaceMenuSettings => 6044,
            ItemAttributeCode::AppInterfaceMenuDRIVES => 6035,
            ItemAttributeCode::AppInterfaceCancelCONFIRM => 6041,
            ItemAttributeCode::AppInterfaceFatalCOMM => 6050,
            ItemAttributeCode::AppInterfaceFatalMEM => 6051,
            ItemAttributeCode::AppInterfaceGuiVERSION => 6054,
            ItemAttributeCode::AppInterfaceLatestVERSION => 6158,
            ItemAttributeCode::AppInterfaceLicenseTYPE => 6055,
            ItemAttributeCode::AppInterfaceEvalSTATE => 6056,
            ItemAttributeCode::AppInterfaceEvalEXPIRATION => 6057,
            ItemAttributeCode::AppInterfaceProgEXPIRATION => 6142,
            ItemAttributeCode::AppInterfaceWebsiteURL => 6159,
            ItemAttributeCode::AppInterfaceVideoFolderNameWin => 6058,
            ItemAttributeCode::AppInterfaceVideoFolderNameMac => 6059,
            ItemAttributeCode::AppInterfaceVideoFolderNameLinux => 6060,
            ItemAttributeCode::AppInterfaceDefaultFolderName => 6061,
            ItemAttributeCode::AppInterfaceMainFrameInfo => 6069,
            ItemAttributeCode::AppInterfaceMainFrameMakeMkv => 6070,
            ItemAttributeCode::AppInterfaceMainFrameProfile => 6180,
            ItemAttributeCode::AppInterfaceMainFrameProperties => 6181,
            ItemAttributeCode::AppInterfaceEmptyFrameInfo => 6075,
            ItemAttributeCode::AppInterfaceEmptyFrameSource => 6071,
            ItemAttributeCode::AppInterfaceEmptyFrameType => 6072,
            ItemAttributeCode::AppInterfaceEmptyFrameLabel => 6073,
            ItemAttributeCode::AppInterfaceEmptyFrameProtection => 6074,
            ItemAttributeCode::AppInterfaceEmptyFrameDvdManual => 6084,
            ItemAttributeCode::AppInterfaceRegisterTEXT => 6076,
            ItemAttributeCode::AppInterfaceRegisterCodeIncorrect => 6077,
            ItemAttributeCode::AppInterfaceRegisterCodeNotSaved => 6078,
            ItemAttributeCode::AppInterfaceRegisterCodeSaved => 6079,
            ItemAttributeCode::AppInterfaceSettingsIoOptions => 6080,
            ItemAttributeCode::AppInterfaceSettingsIoAuto => 6081,
            ItemAttributeCode::AppInterfaceSettingsIoReadRetry => 6082,
            ItemAttributeCode::AppInterfaceSettingsIoReadBuffer => 6083,
            ItemAttributeCode::AppInterfaceSettingsIoNoDirectAccess => 6150,
            ItemAttributeCode::AppInterfaceSettingsIoDarwinK2Workaround => 6151,
            ItemAttributeCode::AppInterfaceSettingsIoSingleDrive => 6168,
            ItemAttributeCode::AppInterfaceSettingsDvdAuto => 6085,
            ItemAttributeCode::AppInterfaceSettingsDvdMinLength => 6086,
            ItemAttributeCode::AppInterfaceSettingsDvdSpRemove => 6087,
            ItemAttributeCode::AppInterfaceSettingsAacsKeyDir => 6088,
            ItemAttributeCode::AppInterfaceSettingsBdpMISC => 6129,
            ItemAttributeCode::AppInterfaceSettingsBdpDumpAlways => 6130,
            ItemAttributeCode::AppInterfaceSettingsDestTypeNone => 6089,
            ItemAttributeCode::AppInterfaceSettingsDestTypeAuto => 6090,
            ItemAttributeCode::AppInterfaceSettingsDestTypeSemiAuto => 6091,
            ItemAttributeCode::AppInterfaceSettingsDestTypeCustom => 6092,
            ItemAttributeCode::AppInterfaceSettingsDestDir => 6093,
            ItemAttributeCode::AppInterfaceSettingsGeneralMisc => 6094,
            ItemAttributeCode::AppInterfaceSettingsLogDebugMsg => 6095,
            ItemAttributeCode::AppInterfaceSettingsDataDir => 6167,
            ItemAttributeCode::AppInterfaceSettingsExpertMode => 6169,
            ItemAttributeCode::AppInterfaceSettingsShowAvSync => 6170,
            ItemAttributeCode::AppInterfaceSettingsGeneralOnlineUpdates => 6188,
            ItemAttributeCode::AppInterfaceSettingsEnableInternetAccess => 6187,
            ItemAttributeCode::AppInterfaceSettingsProxyServer => 6189,
            ItemAttributeCode::AppInterfaceSettingsTabGeneral => 6096,
            ItemAttributeCode::AppInterfaceSettingsMsgFailed => 6097,
            ItemAttributeCode::AppInterfaceSettingsMsgRestart => 6098,
            ItemAttributeCode::AppInterfaceSettingsTabLanguage => 6152,
            ItemAttributeCode::AppInterfaceSettingsLangInterface => 6153,
            ItemAttributeCode::AppInterfaceSettingsLangPreferred => 6154,
            ItemAttributeCode::AppInterfaceSettingsLanguageAuto => 6156,
            ItemAttributeCode::AppInterfaceSettingsLanguageNone => 6157,
            ItemAttributeCode::AppInterfaceSettingsTabIo => 6164,
            ItemAttributeCode::AppInterfaceSettingsTabStreaming => 6165,
            ItemAttributeCode::AppInterfaceSettingsTabProt => 6166,
            ItemAttributeCode::AppInterfaceSettingsTabAdvanced => 6172,
            ItemAttributeCode::AppInterfaceSettingsAdvDefaultProfile => 6173,
            ItemAttributeCode::AppInterfaceSettingsAdvDefaultSelection => 6174,
            ItemAttributeCode::AppInterfaceSettingsAdvExternExecPath => 6175,
            ItemAttributeCode::AppInterfaceSettingsProtJavaPath => 6177,
            ItemAttributeCode::AppInterfaceSettingsAdvOutputFileNameTemplate => 6178,
            ItemAttributeCode::AppInterfaceSettingsTabIntegration => 6190,
            ItemAttributeCode::AppInterfaceSettingsIntText => 6191,
            ItemAttributeCode::AppInterfaceSettingsIntHdrPath => 6192,
            ItemAttributeCode::AppInterfaceKeyText => 6179,
            ItemAttributeCode::AppInterfaceKeyName => 6182,
            ItemAttributeCode::AppInterfaceKeyType => 6183,
            ItemAttributeCode::AppInterfaceKeyDate => 6184,
            ItemAttributeCode::AppInterfaceBackupDlgTextCaption => 6137,
            ItemAttributeCode::AppInterfaceBackupDlgText => 6138,
            ItemAttributeCode::AppInterfaceBackupDlgFolder => 6139,
            ItemAttributeCode::AppInterfaceBackupDlgOptions => 6147,
            ItemAttributeCode::AppInterfaceBackupDlgDecrypt => 6148,
            ItemAttributeCode::AppInterfaceDriveInfoLoading => 6100,
            ItemAttributeCode::AppInterfaceDriveInfoUnmounting => 6112,
            ItemAttributeCode::AppInterfaceDriveInfoWait => 6101,
            ItemAttributeCode::AppInterfaceDriveInfoNoDisc => 6102,
            ItemAttributeCode::AppInterfaceDriveInfoDataDisc => 6103,
            ItemAttributeCode::AppInterfaceDriveInfoNone => 6104,
            ItemAttributeCode::AppInterfaceFlagsDirectorsComments => 6125,
            ItemAttributeCode::AppInterfaceFlagsAltDirectorsComments => 6126,
            ItemAttributeCode::AppInterfaceFlagsSecondaryAudio => 6127,
            ItemAttributeCode::AppInterfaceFlagsForVisuallyImpaired => 6128,
            ItemAttributeCode::AppInterfaceFlagsCoreAUDIO => 6143,
            ItemAttributeCode::AppInterfaceFlagsForcedSUBTITLES => 6144,
            ItemAttributeCode::AppInterfaceFlagsProfileSecondaryStream => 6171,
            ItemAttributeCode::AppInterfaceItemInfoSource => 6119,
            ItemAttributeCode::AppInterfaceItemInfoTitle => 6120,
            ItemAttributeCode::AppInterfaceItemInfoTRACK => 6121,
            ItemAttributeCode::AppInterfaceItemInfoATTACHMENT => 6122,
            ItemAttributeCode::AppInterfaceItemInfoCHAPTER => 6123,
            ItemAttributeCode::AppInterfaceItemInfoCHAPTERS => 6124,
            ItemAttributeCode::AppTitleTreeTitle => 6200,
            ItemAttributeCode::AppTitleTreeVideo => 6201,
            ItemAttributeCode::AppTitleTreeAudio => 6202,
            ItemAttributeCode::AppTitleTreeSubPicture => 6203,
            ItemAttributeCode::AppTitleTreeAttachment => 6214,
            ItemAttributeCode::AppTitleTreeChapters => 6215,
            ItemAttributeCode::AppTitleTreeChapter => 6216,
            ItemAttributeCode::AppTitleTreeForcedSubtitles => 6211,
            ItemAttributeCode::AppTitleTreeHdrType => 6204,
            ItemAttributeCode::AppTitleTreeHdrDESC => 6205,
            ItemAttributeCode::DvdTypeDisk => 6206,
            ItemAttributeCode::BluRayTypeDisk => 6209,
            ItemAttributeCode::HdDvdTypeDisk => 6212,
            ItemAttributeCode::MkvTypeFile => 6213,
            ItemAttributeCode::AppTitleTreeChapDESC => 6207,
            ItemAttributeCode::AppTitleTreeAngleDESC => 6210,
            ItemAttributeCode::AppDvdManualTitle => 6220,
            ItemAttributeCode::AppDvdManualText => 6225,
            ItemAttributeCode::AppDvdTitlesCount => 6221,
            ItemAttributeCode::AppDvdCountCells => 6222,
            ItemAttributeCode::AppDvdCountPgc => 6223,
            ItemAttributeCode::AppDvdBrokenTitleEntry => 6224,
            ItemAttributeCode::AppSingleDriveTitle => 6226,
            ItemAttributeCode::AppSingleDriveText => 6227,
            ItemAttributeCode::AppSingleDriveAll => 6228,
            ItemAttributeCode::AppSingleDriveCaption => 6229,
            ItemAttributeCode::AppSiDriveInfo => 6300,
            ItemAttributeCode::AppSiProfile => 6301,
            ItemAttributeCode::AppSiManufacturer => 6302,
            ItemAttributeCode::AppSiProduct => 6303,
            ItemAttributeCode::AppSiRevision => 6304,
            ItemAttributeCode::AppSiSerial => 6305,
            ItemAttributeCode::AppSiFirmware => 6306,
            ItemAttributeCode::AppSiFirDate => 6307,
            ItemAttributeCode::AppSiBecFlags => 6308,
            ItemAttributeCode::AppSiHighestAacs => 6309,
            ItemAttributeCode::AppSiDiscInfo => 6320,
            ItemAttributeCode::AppSiNoDisc => 6321,
            ItemAttributeCode::AppSiDiscLoad => 6322,
            ItemAttributeCode::AppSiCapacity => 6323,
            ItemAttributeCode::AppSiDiscType => 6324,
            ItemAttributeCode::AppSiDiscSize => 6325,
            ItemAttributeCode::AppSiDiscRate => 6326,
            ItemAttributeCode::AppSiDiscLayers => 6327,
            ItemAttributeCode::AppSiDiscCbl => 6329,
            ItemAttributeCode::AppSiDiscCbl25 => 6330,
            ItemAttributeCode::AppSiDiscCbl27 => 6331,
            ItemAttributeCode::AppSiDevice => 6332,
        }
    }

    /// The variant's name, as its `Debug` form prints it.
    pub open spec fn name(self) -> Seq<char> {
        match self {
            ItemAttributeCode::AppDumpDonePartial => "AppDumpDonePartial"@,
            ItemAttributeCode::AppDumpDone => "AppDumpDone"@,
            ItemAttributeCode::AppInitFailed => "AppInitFailed"@,
            ItemAttributeCode::AppAskFolderCreate => "AppAskFolderCreate"@,
            ItemAttributeCode::AppFolderInvalid => "AppFolderInvalid"@,
            ItemAttributeCode::ProgressAppSaveMkvFreeSpace => "ProgressAppSaveMkvFreeSpace"@,
            ItemAttributeCode::ProtDemoKeyExpired => "ProtDemoKeyExpired"@,
            ItemAttributeCode::AppKeyTypeInvalid => "AppKeyTypeInvalid"@,
            ItemAttributeCode::AppEvalTimeNever => "AppEvalTimeNever"@,
            ItemAttributeCode::AppBackupFailed => "AppBackupFailed"@,
            ItemAttributeCode::AppBackupCompleted => "AppBackupCompleted"@,
            ItemAttributeCode::AppBackupCompletedHashFail => "AppBackupCompletedHashFail"@,
            ItemAttributeCode::ProfileNameDefault => "ProfileNameDefault"@,
            ItemAttributeCode::VItemName => "VItemName"@,
            ItemAttributeCode::VItemTimestamp => "VItemTimestamp"@,
            ItemAttributeCode::AppInterfaceTitle => "AppInterfaceTitle"@,
            ItemAttributeCode::AppCaptionMsg => "AppCaptionMsg"@,
            ItemAttributeCode::AppAboutBoxTitle => "AppAboutBoxTitle"@,
            ItemAttributeCode::AppInterfaceOpenFileTitle => "AppInterfaceOpenFileTitle"@,
            ItemAttributeCode::AppSettingDialogTitle => "AppSettingDialogTitle"@,
            ItemAttributeCode::AppBackupDialogTitle => "AppBackupDialogTitle"@,
            ItemAttributeCode::AppInterfaceOpenFileFilterTemplate1 => "AppInterfaceOpenFileFilterTemplate1"@,
            ItemAttributeCode::AppInterfaceOpenFileFilterTemplate2 => "AppInterfaceOpenFileFilterTemplate2"@,
            ItemAttributeCode::AppInterfaceOpenFolderTitle => "AppInterfaceOpenFolderTitle"@,
            ItemAttributeCode::AppInterfaceOpenFolderInfoTitle => "AppInterfaceOpenFolderInfoTitle"@,
            ItemAttributeCode::AppInterfaceProgressTitle => "AppInterfaceProgressTitle"@,
            ItemAttributeCode::AppInterfaceProgressElapsedOnly => "AppInterfaceProgressElapsedOnly"@,
            ItemAttributeCode::AppInterfaceProgressElapsedEta => "AppInterfaceProgressElapsedEta"@,
            ItemAttributeCode::AppInterfaceActOpenFilesNAME => "AppInterfaceActOpenFilesNAME"@,
            ItemAttributeCode::AppInterfaceActOpenFilesSKEY => "AppInterfaceActOpenFilesSKEY"@,
            ItemAttributeCode::AppInterfaceActOpenFilesSTIP => "AppInterfaceActOpenFilesSTIP"@,
            ItemAttributeCode::AppInterfaceActOpenFilesDvdName => "AppInterfaceActOpenFilesDvdName"@,
            ItemAttributeCode::AppInterfaceActOpenFilesDvdSTIP => "AppInterfaceActOpenFilesDvdSTIP"@,
            ItemAttributeCode::AppInterfaceActCloseDiskName => "AppInterfaceActCloseDiskName"@,
            ItemAttributeCode::AppInterfaceActCloseDiskSTIP => "AppInterfaceActCloseDiskSTIP"@,
            ItemAttributeCode::AppInterfaceActSetFolderName => "AppInterfaceActSetFolderName"@,
            ItemAttributeCode::AppInterfaceActSetFolderSTIP => "AppInterfaceActSetFolderSTIP"@,
            ItemAttributeCode::AppInterfaceActSaveAllMkvName => "AppInterfaceActSaveAllMkvName"@,
            ItemAttributeCode::AppInterfaceActSaveAllMkvSTIP => "AppInterfaceActSaveAllMkvSTIP"@,
            ItemAttributeCode::AppInterfaceActCancelName => "AppInterfaceActCancelName"@,
            ItemAttributeCode::AppInterfaceActCancelSTIP => "AppInterfaceActCancelSTIP"@,
            ItemAttributeCode::AppInterfaceActStreamingName => "AppInterfaceActStreamingName"@,
            ItemAttributeCode::AppInterfaceActStreamingSTIP => "AppInterfaceActStreamingSTIP"@,
            ItemAttributeCode::AppInterfaceActBackupName => "AppInterfaceActBackupName"@,
            ItemAttributeCode::AppInterfaceActBackupSTIP => "AppInterfaceActBackupSTIP"@,
            ItemAttributeCode::AppInterfaceActQuitName => "AppInterfaceActQuitName"@,
            ItemAttributeCode::AppInterfaceActQuitSKey => "AppInterfaceActQuitSKey"@,
            ItemAttributeCode::AppInterfaceActQuitSTIP => "AppInterfaceActQuitSTIP"@,
            ItemAttributeCode::AppInterfaceActAboutName => "AppInterfaceActAboutName"@,
            ItemAttributeCode::AppInterfaceActAboutSTIP => "AppInterfaceActAboutSTIP"@,
            ItemAttributeCode::AppInterfaceActSettingsName => "AppInterfaceActSettingsName"@,
            ItemAttributeCode::AppInterfaceActSettingsSTIP => "AppInterfaceActSettingsSTIP"@,
            ItemAttributeCode::AppInterfaceActHelpPageName => "AppInterfaceActHelpPageName"@,
            ItemAttributeCode::AppInterfaceActHelpPageSTIP => "AppInterfaceActHelpPageSTIP"@,
            ItemAttributeCode::AppInterfaceActRegisterName => "AppInterfaceActRegisterName"@,
            ItemAttributeCode::AppInterfaceActRegisterSTIP => "AppInterfaceActRegisterSTIP"@,
            ItemAttributeCode::AppInterfaceActPurchaseNAME => "AppInterfaceActPurchaseNAME"@,
            ItemAttributeCode::AppInterfaceActPurchaseSTIP => "AppInterfaceActPurchaseSTIP"@,
            ItemAttributeCode::AppInterfaceActClearLogName => "AppInterfaceActClearLogName"@,
            ItemAttributeCode::AppInterfaceActClearLogSTIP => "AppInterfaceActClearLogSTIP"@,
            ItemAttributeCode::AppInterfaceActEjectName => "AppInterfaceActEjectName"@,
            ItemAttributeCode::AppInterfaceActEjectSTIP => "AppInterfaceActEjectSTIP"@,
            ItemAttributeCode::AppInterfaceActRevertNAME => "AppInterfaceActRevertNAME"@,
            ItemAttributeCode::AppInterfaceActRevertSTIP => "AppInterfaceActRevertSTIP"@,
            ItemAttributeCode::AppInterfaceActNewInstanceName => "AppInterfaceActNewInstanceName"@,
            ItemAttributeCode::AppInterfaceActNewInstanceSTIP => "AppInterfaceActNewInstanceSTIP"@,
            ItemAttributeCode::AppInterfaceActOpenDiscDvd => "AppInterfaceActOpenDiscDvd"@,
            ItemAttributeCode::AppInterfaceActOpenDiscHdDvd => "AppInterfaceActOpenDiscHdDvd"@,
            ItemAttributeCode::AppInterfaceActOpenDiscBluRay => "AppInterfaceActOpenDiscBluRay"@,
            ItemAttributeCode::AppInterfaceActOpenDiscLoading => "AppInterfaceActOpenDiscLoading"@,
            ItemAttributeCode::AppInterfaceActOpenDiscUnknown => "AppInterfaceActOpenDiscUnknown"@,
            ItemAttributeCode::AppInterfaceActOpenDiscNoDisc => "AppInterfaceActOpenDiscNoDisc"@,
            ItemAttributeCode::AppInterfaceActTitleTreeToggle => "AppInterfaceActTitleTreeToggle"@,
            ItemAttributeCode::AppInterfaceActTitleTreeSelectAll => "AppInterfaceActTitleTreeSelectAll"@,
            ItemAttributeCode::AppInterfaceActTitleTreeUnselectAll => "AppInterfaceActTitleTreeUnselectAll"@,
            ItemAttributeCode::AppInterfaceMenuFile => "AppInterfaceMenuFile"@,
            ItemAttributeCode::AppInterfaceMenuView => "AppInterfaceMenuView"@,
            ItemAttributeCode::AppInterfaceMenuHelp => "AppInterfaceMenuHelp"@,
            ItemAttributeCode::AppInterfaceMenuToolbar => "AppInterfaceMenuToolbar"@,
            ItemAttributeCode::AppInterfaceMenuSettings => "AppInterfaceMenuSettings"@,
            ItemAttributeCode::AppInterfaceMenuDRIVES => "AppInterfaceMenuDRIVES"@,
            ItemAttributeCode::AppInterfaceCancelCONFIRM => "AppInterfaceCancelCONFIRM"@,
            ItemAttributeCode::AppInterfaceFatalCOMM => "AppInterfaceFatalCOMM"@,
            ItemAttributeCode::AppInterfaceFatalMEM => "AppInterfaceFatalMEM"@,
            ItemAttributeCode::AppInterfaceGuiVERSION => "AppInterfaceGuiVERSION"@,
            ItemAttributeCode::AppInterfaceLatestVERSION => "AppInterfaceLatestVERSION"@,
            ItemAttributeCode::AppInterfaceLicenseTYPE => "AppInterfaceLicenseTYPE"@,
            ItemAttributeCode::AppInterfaceEvalSTATE => "AppInterfaceEvalSTATE"@,
            ItemAttributeCode::AppInterfaceEvalEXPIRATION => "AppInterfaceEvalEXPIRATION"@,
            ItemAttributeCode::AppInterfaceProgEXPIRATION => "AppInterfaceProgEXPIRATION"@,
            ItemAttributeCode::AppInterfaceWebsiteURL => "AppInterfaceWebsiteURL"@,
            ItemAttributeCode::AppInterfaceVideoFolderNameWin => "AppInterfaceVideoFolderNameWin"@,
            ItemAttributeCode::AppInterfaceVideoFolderNameMac => "AppInterfaceVideoFolderNameMac"@,
            ItemAttributeCode::AppInterfaceVideoFolderNameLinux => "AppInterfaceVideoFolderNameLinux"@,
            ItemAttributeCode::AppInterfaceDefaultFolderName => "AppInterfaceDefaultFolderName"@,
            ItemAttributeCode::AppInterfaceMainFrameInfo => "AppInterfaceMainFrameInfo"@,
            ItemAttributeCode::AppInterfaceMainFrameMakeMkv => "AppInterfaceMainFrameMakeMkv"@,
            ItemAttributeCode::AppInterfaceMainFrameProfile => "AppInterfaceMainFrameProfile"@,
            ItemAttributeCode::AppInterfaceMainFrameProperties => "AppInterfaceMainFrameProperties"@,
            ItemAttributeCode::AppInterfaceEmptyFrameInfo => "AppInterfaceEmptyFrameInfo"@,
            ItemAttributeCode::AppInterfaceEmptyFrameSource => "AppInterfaceEmptyFrameSource"@,
            ItemAttributeCode::AppInterfaceEmptyFrameType => "AppInterfaceEmptyFrameType"@,
            ItemAttributeCode::AppInterfaceEmptyFrameLabel => "AppInterfaceEmptyFrameLabel"@,
            ItemAttributeCode::AppInterfaceEmptyFrameProtection => "AppInterfaceEmptyFrameProtection"@,
            ItemAttributeCode::AppInterfaceEmptyFrameDvdManual => "AppInterfaceEmptyFrameDvdManual"@,
            ItemAttributeCode::AppInterfaceRegisterTEXT => "AppInterfaceRegisterTEXT"@,
            ItemAttributeCode::AppInterfaceRegisterCodeIncorrect => "AppInterfaceRegisterCodeIncorrect"@,
            ItemAttributeCode::AppInterfaceRegisterCodeNotSaved => "AppInterfaceRegisterCodeNotSaved"@,
            ItemAttributeCode::AppInterfaceRegisterCodeSaved => "AppInterfaceRegisterCodeSaved"@,
            ItemAttributeCode::AppInterfaceSettingsIoOptions => "AppInterfaceSettingsIoOptions"@,
            ItemAttributeCode::AppInterfaceSettingsIoAuto => "AppInterfaceSettingsIoAuto"@,
            ItemAttributeCode::AppInterfaceSettingsIoReadRetry => "AppInterfaceSettingsIoReadRetry"@,
            ItemAttributeCode::AppInterfaceSettingsIoReadBuffer => "AppInterfaceSettingsIoReadBuffer"@,
            ItemAttributeCode::AppInterfaceSettingsIoNoDirectAccess => "AppInterfaceSettingsIoNoDirectAccess"@,
            ItemAttributeCode::AppInterfaceSettingsIoDarwinK2Workaround => "AppInterfaceSettingsIoDarwinK2Workaround"@,
            ItemAttributeCode::AppInterfaceSettingsIoSingleDrive => "AppInterfaceSettingsIoSingleDrive"@,
            ItemAttributeCode::AppInterfaceSettingsDvdAuto => "AppInterfaceSettingsDvdAuto"@,
            ItemAttributeCode::AppInterfaceSettingsDvdMinLength => "AppInterfaceSettingsDvdMinLength"@,
            ItemAttributeCode::AppInterfaceSettingsDvdSpRemove => "AppInterfaceSettingsDvdSpRemove"@,
            ItemAttributeCode::AppInterfaceSettingsAacsKeyDir => "AppInterfaceSettingsAacsKeyDir"@,
            ItemAttributeCode::AppInterfaceSettingsBdpMISC => "AppInterfaceSettingsBdpMISC"@,
            ItemAttributeCode::AppInterfaceSettingsBdpDumpAlways => "AppInterfaceSettingsBdpDumpAlways"@,
            ItemAttributeCode::AppInterfaceSettingsDestTypeNone => "AppInterfaceSettingsDestTypeNone"@,
            ItemAttributeCode::AppInterfaceSettingsDestTypeAuto => "AppInterfaceSettingsDestTypeAuto"@,
            ItemAttributeCode::AppInterfaceSettingsDestTypeSemiAuto => "AppInterfaceSettingsDestTypeSemiAuto"@,
            ItemAttributeCode::AppInterfaceSettingsDestTypeCustom => "AppInterfaceSettingsDestTypeCustom"@,
            ItemAttributeCode::AppInterfaceSettingsDestDir => "AppInterfaceSettingsDestDir"@,
            ItemAttributeCode::AppInterfaceSettingsGeneralMisc => "AppInterfaceSettingsGeneralMisc"@,
            ItemAttributeCode::AppInterfaceSettingsLogDebugMsg => "AppInterfaceSettingsLogDebugMsg"@,
            ItemAttributeCode::AppInterfaceSettingsDataDir => "AppInterfaceSettingsDataDir"@,
            ItemAttributeCode::AppInterfaceSettingsExpertMode => "AppInterfaceSettingsExpertMode"@,
            ItemAttributeCode::AppInterfaceSettingsShowAvSync => "AppInterfaceSettingsShowAvSync"@,
            ItemAttributeCode::AppInterfaceSettingsGeneralOnlineUpdates => "AppInterfaceSettingsGeneralOnlineUpdates"@,
            ItemAttributeCode::AppInterfaceSettingsEnableInternetAccess => "AppInterfaceSettingsEnableInternetAccess"@,
            ItemAttributeCode::AppInterfaceSettingsProxyServer => "AppInterfaceSettingsProxyServer"@,
            ItemAttributeCode::AppInterfaceSettingsTabGeneral => "AppInterfaceSettingsTabGeneral"@,
            ItemAttributeCode::AppInterfaceSettingsMsgFailed => "AppInterfaceSettingsMsgFailed"@,
            ItemAttributeCode::AppInterfaceSettingsMsgRestart => "AppInterfaceSettingsMsgRestart"@,
            ItemAttributeCode::AppInterfaceSettingsTabLanguage => "AppInterfaceSettingsTabLanguage"@,
            ItemAttributeCode::AppInterfaceSettingsLangInterface => "AppInterfaceSettingsLangInterface"@,
            ItemAttributeCode::AppInterfaceSettingsLangPreferred => "AppInterfaceSettingsLangPreferred"@,
            ItemAttributeCode::AppInterfaceSettingsLanguageAuto => "AppInterfaceSettingsLanguageAuto"@,
            ItemAttributeCode::AppInterfaceSettingsLanguageNone => "AppInterfaceSettingsLanguageNone"@,
            ItemAttributeCode::AppInterfaceSettingsTabIo => "AppInterfaceSettingsTabIo"@,
            ItemAttributeCode::AppInterfaceSettingsTabStreaming => "AppInterfaceSettingsTabStreaming"@,
            ItemAttributeCode::AppInterfaceSettingsTabProt => "AppInterfaceSettingsTabProt"@,
            ItemAttributeCode::AppInterfaceSettingsTabAdvanced => "AppInterfaceSettingsTabAdvanced"@,
            ItemAttributeCode::AppInterfaceSettingsAdvDefaultProfile => "AppInterfaceSettingsAdvDefaultProfile"@,
            ItemAttributeCode::AppInterfaceSettingsAdvDefaultSelection => "AppInterfaceSettingsAdvDefaultSelection"@,
            ItemAttributeCode::AppInterfaceSettingsAdvExternExecPath => "AppInterfaceSettingsAdvExternExecPath"@,
            ItemAttributeCode::AppInterfaceSettingsProtJavaPath => "AppInterfaceSettingsProtJavaPath"@,
            ItemAttributeCode::AppInterfaceSettingsAdvOutputFileNameTemplate => "AppInterfaceSettingsAdvOutputFileNameTemplate"@,
            ItemAttributeCode::AppInterfaceSettingsTabIntegration => "AppInterfaceSettingsTabIntegration"@,
            ItemAttributeCode::AppInterfaceSettingsIntText => "AppInterfaceSettingsIntText"@,
            ItemAttributeCode::AppInterfaceSettingsIntHdrPath => "AppInterfaceSettingsIntHdrPath"@,
            ItemAttributeCode::AppInterfaceKeyText => "AppInterfaceKeyText"@,
            ItemAttributeCode::AppInterfaceKeyName => "AppInterfaceKeyName"@,
            ItemAttributeCode::AppInterfaceKeyType => "AppInterfaceKeyType"@,
            ItemAttributeCode::AppInterfaceKeyDate => "AppInterfaceKeyDate"@,
            ItemAttributeCode::AppInterfaceBackupDlgTextCaption => "AppInterfaceBackupDlgTextCaption"@,
            ItemAttributeCode::AppInterfaceBackupDlgText => "AppInterfaceBackupDlgText"@,
            ItemAttributeCode::AppInterfaceBackupDlgFolder => "AppInterfaceBackupDlgFolder"@,
            ItemAttributeCode::AppInterfaceBackupDlgOptions => "AppInterfaceBackupDlgOptions"@,
            ItemAttributeCode::AppInterfaceBackupDlgDecrypt => "AppInterfaceBackupDlgDecrypt"@,
            ItemAttributeCode::AppInterfaceDriveInfoLoading => "AppInterfaceDriveInfoLoading"@,
            ItemAttributeCode::AppInterfaceDriveInfoUnmounting => "AppInterfaceDriveInfoUnmounting"@,
            ItemAttributeCode::AppInterfaceDriveInfoWait => "AppInterfaceDriveInfoWait"@,
            ItemAttributeCode::AppInterfaceDriveInfoNoDisc => "AppInterfaceDriveInfoNoDisc"@,
            ItemAttributeCode::AppInterfaceDriveInfoDataDisc => "AppInterfaceDriveInfoDataDisc"@,
            ItemAttributeCode::AppInterfaceDriveInfoNone => "AppInterfaceDriveInfoNone"@,
            ItemAttributeCode::AppInterfaceFlagsDirectorsComments => "AppInterfaceFlagsDirectorsComments"@,
            ItemAttributeCode::AppInterfaceFlagsAltDirectorsComments => "AppInterfaceFlagsAltDirectorsComments"@,
            ItemAttributeCode::AppInterfaceFlagsSecondaryAudio => "AppInterfaceFlagsSecondaryAudio"@,
            ItemAttributeCode::AppInterfaceFlagsForVisuallyImpaired => "AppInterfaceFlagsForVisuallyImpaired"@,
            ItemAttributeCode::AppInterfaceFlagsCoreAUDIO => "AppInterfaceFlagsCoreAUDIO"@,
            ItemAttributeCode::AppInterfaceFlagsForcedSUBTITLES => "AppInterfaceFlagsForcedSUBTITLES"@,
            ItemAttributeCode::AppInterfaceFlagsProfileSecondaryStream => "AppInterfaceFlagsProfileSecondaryStream"@,
            ItemAttributeCode::AppInterfaceItemInfoSource => "AppInterfaceItemInfoSource"@,
            ItemAttributeCode::AppInterfaceItemInfoTitle => "AppInterfaceItemInfoTitle"@,
            ItemAttributeCode::AppInterfaceItemInfoTRACK => "AppInterfaceItemInfoTRACK"@,
            ItemAttributeCode::AppInterfaceItemInfoATTACHMENT => "AppInterfaceItemInfoATTACHMENT"@,
            ItemAttributeCode::AppInterfaceItemInfoCHAPTER => "AppInterfaceItemInfoCHAPTER"@,
            ItemAttributeCode::AppInterfaceItemInfoCHAPTERS => "AppInterfaceItemInfoCHAPTERS"@,
            ItemAttributeCode::AppTitleTreeTitle => "AppTitleTreeTitle"@,
            ItemAttributeCode::AppTitleTreeVideo => "AppTitleTreeVideo"@,
            ItemAttributeCode::AppTitleTreeAudio => "AppTitleTreeAudio"@,
            ItemAttributeCode::AppTitleTreeSubPicture => "AppTitleTreeSubPicture"@,
            ItemAttributeCode::AppTitleTreeAttachment => "AppTitleTreeAttachment"@,
            ItemAttributeCode::AppTitleTreeChapters => "AppTitleTreeChapters"@,
            ItemAttributeCode::AppTitleTreeChapter => "AppTitleTreeChapter"@,
            ItemAttributeCode::AppTitleTreeForcedSubtitles => "AppTitleTreeForcedSubtitles"@,
            ItemAttributeCode::AppTitleTreeHdrType => "AppTitleTreeHdrType"@,
            ItemAttributeCode::AppTitleTreeHdrDESC => "AppTitleTreeHdrDESC"@,
            ItemAttributeCode::DvdTypeDisk => "DvdTypeDisk"@,
            ItemAttributeCode::BluRayTypeDisk => "BluRayTypeDisk"@,
            ItemAttributeCode::HdDvdTypeDisk => "HdDvdTypeDisk"@,
            ItemAttributeCode::MkvTypeFile => "MkvTypeFile"@,
            ItemAttributeCode::AppTitleTreeChapDESC => "AppTitleTreeChapDESC"@,
            ItemAttributeCode::AppTitleTreeAngleDESC => "AppTitleTreeAngleDESC"@,
            ItemAttributeCode::AppDvdManualTitle => "AppDvdManualTitle"@,
            ItemAttributeCode::AppDvdManualText => "AppDvdManualText"@,
            ItemAttributeCode::AppDvdTitlesCount => "AppDvdTitlesCount"@,
            ItemAttributeCode::AppDvdCountCells => "AppDvdCountCells"@,
            ItemAttributeCode::AppDvdCountPgc => "AppDvdCountPgc"@,
            ItemAttributeCode::AppDvdBrokenTitleEntry => "AppDvdBrokenTitleEntry"@,
            ItemAttributeCode::AppSingleDriveTitle => "AppSingleDriveTitle"@,
            ItemAttributeCode::AppSingleDriveText => "AppSingleDriveText"@,
            ItemAttributeCode::AppSingleDriveAll => "AppSingleDriveAll"@,
            ItemAttributeCode::AppSingleDriveCaption => "AppSingleDriveCaption"@,
            ItemAttributeCode::AppSiDriveInfo => "AppSiDriveInfo"@,
            ItemAttributeCode::AppSiProfile => "AppSiProfile"@,
            ItemAttributeCode::AppSiManufacturer => "AppSiManufacturer"@,
            ItemAttributeCode::AppSiProduct => "AppSiProduct"@,
            ItemAttributeCode::AppSiRevision => "AppSiRevision"@,
            ItemAttributeCode::AppSiSerial => "AppSiSerial"@,
            ItemAttributeCode::AppSiFirmware => "AppSiFirmware"@,
            ItemAttributeCode::AppSiFirDate => "AppSiFirDate"@,
            ItemAttributeCode::AppSiBecFlags => "AppSiBecFlags"@,
            ItemAttributeCode::AppSiHighestAacs => "AppSiHighestAacs"@,
            ItemAttributeCode::AppSiDiscInfo => "AppSiDiscInfo"@,
            ItemAttributeCode::AppSiNoDisc => "AppSiNoDisc"@,
            ItemAttributeCode::AppSiDiscLoad => "AppSiDiscLoad"@,
            ItemAttributeCode::AppSiCapacity => "AppSiCapacity"@,
            ItemAttributeCode::AppSiDiscType => "AppSiDiscType"@,
            ItemAttributeCode::AppSiDiscSize => "AppSiDiscSize"@,
            ItemAttributeCode::AppSiDiscRate => "AppSiDiscRate"@,
            ItemAttributeCode::AppSiDiscLayers => "AppSiDiscLayers"@,
            ItemAttributeCode::AppSiDiscCbl => "AppSiDiscCbl"@,
            ItemAttributeCode::AppSiDiscCbl25 => "AppSiDiscCbl25"@,
            ItemAttributeCode::AppSiDiscCbl27 => "AppSiDiscCbl27"@,
            ItemAttributeCode::AppSiDevice => "AppSiDevice"@,
        }
    }

    /// The variant with the given numeric value, if there is one.
    pub open spec fn of_value(v: u32) -> Option<ItemAttributeCode> {
        if exists|x: ItemAttributeCode| x.value() == v {
            Some(choose|x: ItemAttributeCode| x.value() == v)
        } else {
            None
        }
    }

    /// The variant with the given numeric value, if there is one.
    pub fn from_u32(value: u32) -> (r: Option<ItemAttributeCode>)
        ensures
            r == ItemAttributeCode::of_value(value),
    {
        let r = Self::lookup(value);
        proof {
            if let Some(x) = r {
                let y = choose|y: ItemAttributeCode| y.value() == value;
                lemma_attribute_code_injective(x, y);
            }
        }
        r
    }

    fn lookup(value: u32) -> (r: Option<ItemAttributeCode>)
        ensures
            match r {
                Some(x) => x.value() == value,
                None => forall|x: ItemAttributeCode| x.value() != value,
            },
    {
        match value {
            5004 => Some(ItemAttributeCode::AppDumpDonePartial),
            5005 => Some(ItemAttributeCode::AppDumpDone),
            5009 => Some(ItemAttributeCode::AppInitFailed),
            5013 => Some(ItemAttributeCode::AppAskFolderCreate),
            5016 => Some(ItemAttributeCode::AppFolderInvalid),
            5033 => Some(ItemAttributeCode::ProgressAppSaveMkvFreeSpace),
            5021 => Some(ItemAttributeCode::ProtDemoKeyExpired),
            5095 => Some(ItemAttributeCode::AppKeyTypeInvalid),
            5067 => Some(ItemAttributeCode::AppEvalTimeNever),
            5069 => Some(ItemAttributeCode::AppBackupFailed),
            5070 => Some(ItemAttributeCode::AppBackupCompleted),
            5079 => Some(ItemAttributeCode::AppBackupCompletedHashFail),
            5086 => Some(ItemAttributeCode::ProfileNameDefault),
            5202 => Some(ItemAttributeCode::VItemName),
            5223 => Some(ItemAttributeCode::VItemTimestamp),
            6000 => Some(ItemAttributeCode::AppInterfaceTitle),
            6001 => Some(ItemAttributeCode::AppCaptionMsg),
            6002 => Some(ItemAttributeCode::AppAboutBoxTitle),
            6003 => Some(ItemAttributeCode::AppInterfaceOpenFileTitle),
            6135 => Some(ItemAttributeCode::AppSettingDialogTitle),
            6136 => Some(ItemAttributeCode::AppBackupDialogTitle),
            6007 => Some(ItemAttributeCode::AppInterfaceOpenFileFilterTemplate1),
            6008 => Some(ItemAttributeCode::AppInterfaceOpenFileFilterTemplate2),
            6005 => Some(ItemAttributeCode::AppInterfaceOpenFolderTitle),
            6006 => Some(ItemAttributeCode::AppInterfaceOpenFolderInfoTitle),
            6038 => Some(ItemAttributeCode::AppInterfaceProgressTitle),
            6039 => Some(ItemAttributeCode::AppInterfaceProgressElapsedOnly),
            6040 => Some(ItemAttributeCode::AppInterfaceProgressElapsedEta),
            6010 => Some(ItemAttributeCode::AppInterfaceActOpenFilesNAME),
            6011 => Some(ItemAttributeCode::AppInterfaceActOpenFilesSKEY),
            6012 => Some(ItemAttributeCode::AppInterfaceActOpenFilesSTIP),
            6024 => Some(ItemAttributeCode::AppInterfaceActOpenFilesDvdName),
            6026 => Some(ItemAttributeCode::AppInterfaceActOpenFilesDvdSTIP),
            6013 => Some(ItemAttributeCode::AppInterfaceActCloseDiskName),
            6014 => Some(ItemAttributeCode::AppInterfaceActCloseDiskSTIP),
            6015 => Some(ItemAttributeCode::AppInterfaceActSetFolderName),
            6016 => Some(ItemAttributeCode::AppInterfaceActSetFolderSTIP),
            6017 => Some(ItemAttributeCode::AppInterfaceActSaveAllMkvName),
            6018 => Some(ItemAttributeCode::AppInterfaceActSaveAllMkvSTIP),
            6036 => Some(ItemAttributeCode::AppInterfaceActCancelName),
            6037 => Some(ItemAttributeCode::AppInterfaceActCancelSTIP),
            6131 => Some(ItemAttributeCode::AppInterfaceActStreamingName),
            6132 => Some(ItemAttributeCode::AppInterfaceActStreamingSTIP),
            6133 => Some(ItemAttributeCode::AppInterfaceActBackupName),
            6134 => Some(ItemAttributeCode::AppInterfaceActBackupSTIP),
            6019 => Some(ItemAttributeCode::AppInterfaceActQuitName),
            6020 => Some(ItemAttributeCode::AppInterfaceActQuitSKey),
            6021 => Some(ItemAttributeCode::AppInterfaceActQuitSTIP),
            6022 => Some(ItemAttributeCode::AppInterfaceActAboutName),
            6023 => Some(ItemAttributeCode::AppInterfaceActAboutSTIP),
            6042 => Some(ItemAttributeCode::AppInterfaceActSettingsName),
            6043 => Some(ItemAttributeCode::AppInterfaceActSettingsSTIP),
            6045 => Some(ItemAttributeCode::AppInterfaceActHelpPageName),
            6046 => Some(ItemAttributeCode::AppInterfaceActHelpPageSTIP),
            6047 => Some(ItemAttributeCode::AppInterfaceActRegisterName),
            6048 => Some(ItemAttributeCode::AppInterfaceActRegisterSTIP),
            6145 => Some(ItemAttributeCode::AppInterfaceActPurchaseNAME),
            6146 => Some(ItemAttributeCode::AppInterfaceActPurchaseSTIP),
            6110 => Some(ItemAttributeCode::AppInterfaceActClearLogName),
            6111 => Some(ItemAttributeCode::AppInterfaceActClearLogSTIP),
            6052 => Some(ItemAttributeCode::AppInterfaceActEjectName),
            6053 => Some(ItemAttributeCode::AppInterfaceActEjectSTIP),
            6105 => Some(ItemAttributeCode::AppInterfaceActRevertNAME),
            6106 => Some(ItemAttributeCode::AppInterfaceActRevertSTIP),
            6107 => Some(ItemAttributeCode::AppInterfaceActNewInstanceName),
            6108 => Some(ItemAttributeCode::AppInterfaceActNewInstanceSTIP),
            6062 => Some(ItemAttributeCode::AppInterfaceActOpenDiscDvd),
            6063 => Some(ItemAttributeCode::AppInterfaceActOpenDiscHdDvd),
            6064 => Some(ItemAttributeCode::AppInterfaceActOpenDiscBluRay),
            6065 => Some(ItemAttributeCode::AppInterfaceActOpenDiscLoading),
            6099 => Some(ItemAttributeCode::AppInterfaceActOpenDiscUnknown),
            6109 => Some(ItemAttributeCode::AppInterfaceActOpenDiscNoDisc),
            6066 => Some(ItemAttributeCode::AppInterfaceActTitleTreeToggle),
            6067 => Some(ItemAttributeCode::AppInterfaceActTitleTreeSelectAll),
            6068 => Some(ItemAttributeCode::AppInterfaceActTitleTreeUnselectAll),
            6030 => Some(ItemAttributeCode::AppInterfaceMenuFile),
            6031 => Some(ItemAttributeCode::AppInterfaceMenuView),
            6032 => Some(ItemAttributeCode::AppInterfaceMenuHelp),
            6034 => Some(ItemAttributeCode::AppInterfaceMenuToolbar),
            6044 => Some(ItemAttributeCode::AppInterfaceMenuSettings),
            6035 => Some(ItemAttributeCode::AppInterfaceMenuDRIVES),
            6041 => Some(ItemAttributeCode::AppInterfaceCancelCONFIRM),
            6050 => Some(ItemAttributeCode::AppInterfaceFatalCOMM),
            6051 => Some(ItemAttributeCode::AppInterfaceFatalMEM),
            6054 => Some(ItemAttributeCode::AppInterfaceGuiVERSION),
            6158 => Some(ItemAttributeCode::AppInterfaceLatestVERSION),
            6055 => Some(ItemAttributeCode::AppInterfaceLicenseTYPE),
            6056 => Some(ItemAttributeCode::AppInterfaceEvalSTATE),
            6057 => Some(ItemAttributeCode::AppInterfaceEvalEXPIRATION),
            6142 => Some(ItemAttributeCode::AppInterfaceProgEXPIRATION),
            6159 => Some(ItemAttributeCode::AppInterfaceWebsiteURL),
            6058 => Some(ItemAttributeCode::AppInterfaceVideoFolderNameWin),
            6059 => Some(ItemAttributeCode::AppInterfaceVideoFolderNameMac),
            6060 => Some(ItemAttributeCode::AppInterfaceVideoFolderNameLinux),
            6061 => Some(ItemAttributeCode::AppInterfaceDefaultFolderName),
            6069 => Some(ItemAttributeCode::AppInterfaceMainFrameInfo),
            6070 => Some(ItemAttributeCode::AppInterfaceMainFrameMakeMkv),
            6180 => Some(ItemAttributeCode::AppInterfaceMainFrameProfile),
            6181 => Some(ItemAttributeCode::AppInterfaceMainFrameProperties),
            6075 => Some(ItemAttributeCode::AppInterfaceEmptyFrameInfo),
            6071 => Some(ItemAttributeCode::AppInterfaceEmptyFrameSource),
            6072 => Some(ItemAttributeCode::AppInterfaceEmptyFrameType),
            6073 => Some(ItemAttributeCode::AppInterfaceEmptyFrameLabel),
            6074 => Some(ItemAttributeCode::AppInterfaceEmptyFrameProtection),
            6084 => Some(ItemAttributeCode::AppInterfaceEmptyFrameDvdManual),
            6076 => Some(ItemAttributeCode::AppInterfaceRegisterTEXT),
            6077 => Some(ItemAttributeCode::AppInterfaceRegisterCodeIncorrect),
            6078 => Some(ItemAttributeCode::AppInterfaceRegisterCodeNotSaved),
            6079 => Some(ItemAttributeCode::AppInterfaceRegisterCodeSaved),
            6080 => Some(ItemAttributeCode::AppInterfaceSettingsIoOptions),
            6081 => Some(ItemAttributeCode::AppInterfaceSettingsIoAuto),
            6082 => Some(ItemAttributeCode::AppInterfaceSettingsIoReadRetry),
            6083 => Some(ItemAttributeCode::AppInterfaceSettingsIoReadBuffer),
            6150 => Some(ItemAttributeCode::AppInterfaceSettingsIoNoDirectAccess),
            6151 => Some(ItemAttributeCode::AppInterfaceSettingsIoDarwinK2Workaround),
            6168 => Some(ItemAttributeCode::AppInterfaceSettingsIoSingleDrive),
            6085 => Some(ItemAttributeCode::AppInterfaceSettingsDvdAuto),
            6086 => Some(ItemAttributeCode::AppInterfaceSettingsDvdMinLength),
            6087 => Some(ItemAttributeCode::AppInterfaceSettingsDvdSpRemove),
            6088 => Some(ItemAttributeCode::AppInterfaceSettingsAacsKeyDir),
            6129 => Some(ItemAttributeCode::AppInterfaceSettingsBdpMISC),
            6130 => Some(ItemAttributeCode::AppInterfaceSettingsBdpDumpAlways),
            6089 => Some(ItemAttributeCode::AppInterfaceSettingsDestTypeNone),
            6090 => Some(ItemAttributeCode::AppInterfaceSettingsDestTypeAuto),
            6091 => Some(ItemAttributeCode::AppInterfaceSettingsDestTypeSemiAuto),
            6092 => Some(ItemAttributeCode::AppInterfaceSettingsDestTypeCustom),
            6093 => Some(ItemAttributeCode::AppInterfaceSettingsDestDir),
            6094 => Some(ItemAttributeCode::AppInterfaceSettingsGeneralMisc),
            6095 => Some(ItemAttributeCode::AppInterfaceSettingsLogDebugMsg),
            6167 => Some(ItemAttributeCode::AppInterfaceSettingsDataDir),
            6169 => Some(ItemAttributeCode::AppInterfaceSettingsExpertMode),
            6170 => Some(ItemAttributeCode::AppInterfaceSettingsShowAvSync),
            6188 => Some(ItemAttributeCode::AppInterfaceSettingsGeneralOnlineUpdates),
            6187 => Some(ItemAttributeCode::AppInterfaceSettingsEnableInternetAccess),
            6189 => Some(ItemAttributeCode::AppInterfaceSettingsProxyServer),
            6096 => Some(ItemAttributeCode::AppInterfaceSettingsTabGeneral),
            6097 => Some(ItemAttributeCode::AppInterfaceSettingsMsgFailed),
            6098 => Some(ItemAttributeCode::AppInterfaceSettingsMsgRestart),
            6152 => Some(ItemAttributeCode::AppInterfaceSettingsTabLanguage),
            6153 => Some(ItemAttributeCode::AppInterfaceSettingsLangInterface),
            6154 => Some(ItemAttributeCode::AppInterfaceSettingsLangPreferred),
            6156 => Some(ItemAttributeCode::AppInterfaceSettingsLanguageAuto),
            6157 => Some(ItemAttributeCode::AppInterfaceSettingsLanguageNone),
            6164 => Some(ItemAttributeCode::AppInterfaceSettingsTabIo),
            6165 => Some(ItemAttributeCode::AppInterfaceSettingsTabStreaming),
            6166 => Some(ItemAttributeCode::AppInterfaceSettingsTabProt),
            6172 => Some(ItemAttributeCode::AppInterfaceSettingsTabAdvanced),
            6173 => Some(ItemAttributeCode::AppInterfaceSettingsAdvDefaultProfile),
            6174 => Some(ItemAttributeCode::AppInterfaceSettingsAdvDefaultSelection),
            6175 => Some(ItemAttributeCode::AppInterfaceSettingsAdvExternExecPath),
            6177 => Some(ItemAttributeCode::AppInterfaceSettingsProtJavaPath),
            6178 => Some(ItemAttributeCode::AppInterfaceSettingsAdvOutputFileNameTemplate),
            6190 => Some(ItemAttributeCode::AppInterfaceSettingsTabIntegration),
            6191 => Some(ItemAttributeCode::AppInterfaceSettingsIntText),
            6192 => Some(ItemAttributeCode::AppInterfaceSettingsIntHdrPath),
            6179 => Some(ItemAttributeCode::AppInterfaceKeyText),
            6182 => Some(ItemAttributeCode::AppInterfaceKeyName),
            6183 => Some(ItemAttributeCode::AppInterfaceKeyType),
            6184 => Some(ItemAttributeCode::AppInterfaceKeyDate),
            6137 => Some(ItemAttributeCode::AppInterfaceBackupDlgTextCaption),
            6138 => Some(ItemAttributeCode::AppInterfaceBackupDlgText),
            6139 => Some(ItemAttributeCode::AppInterfaceBackupDlgFolder),
            6147 => Some(ItemAttributeCode::AppInterfaceBackupDlgOptions),
            6148 => Some(ItemAttributeCode::AppInterfaceBackupDlgDecrypt),
            6100 => Some(ItemAttributeCode::AppInterfaceDriveInfoLoading),
            6112 => Some(ItemAttributeCode::AppInterfaceDriveInfoUnmounting),
            6101 => Some(ItemAttributeCode::AppInterfaceDriveInfoWait),
            6102 => Some(ItemAttributeCode::AppInterfaceDriveInfoNoDisc),
            6103 => Some(ItemAttributeCode::AppInterfaceDriveInfoDataDisc),
            6104 => Some(ItemAttributeCode::AppInterfaceDriveInfoNone),
            6125 => Some(ItemAttributeCode::AppInterfaceFlagsDirectorsComments),
            6126 => Some(ItemAttributeCode::AppInterfaceFlagsAltDirectorsComments),
            6127 => Some(ItemAttributeCode::AppInterfaceFlagsSecondaryAudio),
            6128 => Some(ItemAttributeCode::AppInterfaceFlagsForVisuallyImpaired),
            6143 => Some(ItemAttributeCode::AppInterfaceFlagsCoreAUDIO),
            6144 => Some(ItemAttributeCode::AppInterfaceFlagsForcedSUBTITLES),
            6171 => Some(ItemAttributeCode::AppInterfaceFlagsProfileSecondaryStream),
            6119 => Some(ItemAttributeCode::AppInterfaceItemInfoSource),
            6120 => Some(ItemAttributeCode::AppInterfaceItemInfoTitle),
            6121 => Some(ItemAttributeCode::AppInterfaceItemInfoTRACK),
            6122 => Some(ItemAttributeCode::AppInterfaceItemInfoATTACHMENT),
            6123 => Some(ItemAttributeCode::AppInterfaceItemInfoCHAPTER),
            6124 => Some(ItemAttributeCode::AppInterfaceItemInfoCHAPTERS),
            6200 => Some(ItemAttributeCode::AppTitleTreeTitle),
            6201 => Some(ItemAttributeCode::AppTitleTreeVideo),
            6202 => Some(ItemAttributeCode::AppTitleTreeAudio),
            6203 => Some(ItemAttributeCode::AppTitleTreeSubPicture),
            6214 => Some(ItemAttributeCode::AppTitleTreeAttachment),
            6215 => Some(ItemAttributeCode::AppTitleTreeChapters),
            6216 => Some(ItemAttributeCode::AppTitleTreeChapter),
            6211 => Some(ItemAttributeCode::AppTitleTreeForcedSubtitles),
            6204 => Some(ItemAttributeCode::AppTitleTreeHdrType),
            6205 => Some(ItemAttributeCode::AppTitleTreeHdrDESC),
            6206 => Some(ItemAttributeCode::DvdTypeDisk),
            6209 => Some(ItemAttributeCode::BluRayTypeDisk),
            6212 => Some(ItemAttributeCode::HdDvdTypeDisk),
            6213 => Some(ItemAttributeCode::MkvTypeFile),
            6207 => Some(ItemAttributeCode::AppTitleTreeChapDESC),
            6210 => Some(ItemAttributeCode::AppTitleTreeAngleDESC),
            6220 => Some(ItemAttributeCode::AppDvdManualTitle),
            6225 => Some(ItemAttributeCode::AppDvdManualText),
            6221 => Some(ItemAttributeCode::AppDvdTitlesCount),
            6222 => Some(ItemAttributeCode::AppDvdCountCells),
            6223 => Some(ItemAttributeCode::AppDvdCountPgc),
            6224 => Some(ItemAttributeCode::AppDvdBrokenTitleEntry),
            6226 => Some(ItemAttributeCode::AppSingleDriveTitle),
            6227 => Some(ItemAttributeCode::AppSingleDriveText),
            6228 => Some(ItemAttributeCode::AppSingleDriveAll),
            6229 => Some(ItemAttributeCode::AppSingleDriveCaption),
            6300 => Some(ItemAttributeCode::AppSiDriveInfo),
            6301 => Some(ItemAttributeCode::AppSiProfile),
            6302 => Some(ItemAttributeCode::AppSiManufacturer),
            6303 => Some(ItemAttributeCode::AppSiProduct),
            6304 => Some(ItemAttributeCode::AppSiRevision),
            6305 => Some(ItemAttributeCode::AppSiSerial),
            6306 => Some(ItemAttributeCode::AppSiFirmware),
            6307 => Some(ItemAttributeCode::AppSiFirDate),
            6308 => Some(ItemAttributeCode::AppSiBecFlags),
            6309 => Some(ItemAttributeCode::AppSiHighestAacs),
            6320 => Some(ItemAttributeCode::AppSiDiscInfo),
            6321 => Some(ItemAttributeCode::AppSiNoDisc),
            6322 => Some(ItemAttributeCode::AppSiDiscLoad),
            6323 => Some(ItemAttributeCode::AppSiCapacity),
            6324 => Some(ItemAttributeCode::AppSiDiscType),
            6325 => Some(ItemAttributeCode::AppSiDiscSize),
            6326 => Some(ItemAttributeCode::AppSiDiscRate),
            6327 => Some(ItemAttributeCode::AppSiDiscLayers),
            6329 => Some(ItemAttributeCode::AppSiDiscCbl),
            6330 => Some(ItemAttributeCode::AppSiDiscCbl25),
            6331 => Some(ItemAttributeCode::AppSiDiscCbl27),
            6332 => Some(ItemAttributeCode::AppSiDevice),
            _ => None,
        }
    }

    /// The variant's name (what `Display` prints).
    pub fn to_string(&self) -> (r: String)
        ensures
            r@ == self.name(),
    {
        match self {
            ItemAttributeCode::AppDumpDonePartial => owned("AppDumpDonePartial"),
            ItemAttributeCode::AppDumpDone => owned("AppDumpDone"),
            ItemAttributeCode::AppInitFailed => owned("AppInitFailed"),
            ItemAttributeCode::AppAskFolderCreate => owned("AppAskFolderCreate"),
            ItemAttributeCode::AppFolderInvalid => owned("AppFolderInvalid"),
            ItemAttributeCode::ProgressAppSaveMkvFreeSpace => owned("ProgressAppSaveMkvFreeSpace"),
            ItemAttributeCode::ProtDemoKeyExpired => owned("ProtDemoKeyExpired"),
            ItemAttributeCode::AppKeyTypeInvalid => owned("AppKeyTypeInvalid"),
            ItemAttributeCode::AppEvalTimeNever => owned("AppEvalTimeNever"),
            ItemAttributeCode::AppBackupFailed => owned("AppBackupFailed"),
            ItemAttributeCode::AppBackupCompleted => owned("AppBackupCompleted"),
            ItemAttributeCode::AppBackupCompletedHashFail => owned("AppBackupCompletedHashFail"),
            ItemAttributeCode::ProfileNameDefault => owned("ProfileNameDefault"),
            ItemAttributeCode::VItemName => owned("VItemName"),
            ItemAttributeCode::VItemTimestamp => owned("VItemTimestamp"),
            ItemAttributeCode::AppInterfaceTitle => owned("AppInterfaceTitle"),
            ItemAttributeCode::AppCaptionMsg => owned("AppCaptionMsg"),
            ItemAttributeCode::AppAboutBoxTitle => owned("AppAboutBoxTitle"),
            ItemAttributeCode::AppInterfaceOpenFileTitle => owned("AppInterfaceOpenFileTitle"),
            ItemAttributeCode::AppSettingDialogTitle => owned("AppSettingDialogTitle"),
            ItemAttributeCode::AppBackupDialogTitle => owned("AppBackupDialogTitle"),
            ItemAttributeCode::AppInterfaceOpenFileFilterTemplate1 => owned("AppInterfaceOpenFileFilterTemplate1"),
            ItemAttributeCode::AppInterfaceOpenFileFilterTemplate2 => owned("AppInterfaceOpenFileFilterTemplate2"),
            ItemAttributeCode::AppInterfaceOpenFolderTitle => owned("AppInterfaceOpenFolderTitle"),
            ItemAttributeCode::AppInterfaceOpenFolderInfoTitle => owned("AppInterfaceOpenFolderInfoTitle"),
            ItemAttributeCode::AppInterfaceProgressTitle => owned("AppInterfaceProgressTitle"),
            ItemAttributeCode::AppInterfaceProgressElapsedOnly => owned("AppInterfaceProgressElapsedOnly"),
            ItemAttributeCode::AppInterfaceProgressElapsedEta => owned("AppInterfaceProgressElapsedEta"),
            ItemAttributeCode::AppInterfaceActOpenFilesNAME => owned("AppInterfaceActOpenFilesNAME"),
            ItemAttributeCode::AppInterfaceActOpenFilesSKEY => owned("AppInterfaceActOpenFilesSKEY"),
            ItemAttributeCode::AppInterfaceActOpenFilesSTIP => owned("AppInterfaceActOpenFilesSTIP"),
            ItemAttributeCode::AppInterfaceActOpenFilesDvdName => owned("AppInterfaceActOpenFilesDvdName"),
            ItemAttributeCode::AppInterfaceActOpenFilesDvdSTIP => owned("AppInterfaceActOpenFilesDvdSTIP"),
            ItemAttributeCode::AppInterfaceActCloseDiskName => owned("AppInterfaceActCloseDiskName"),
            ItemAttributeCode::AppInterfaceActCloseDiskSTIP => owned("AppInterfaceActCloseDiskSTIP"),
            ItemAttributeCode::AppInterfaceActSetFolderName => owned("AppInterfaceActSetFolderName"),
            ItemAttributeCode::AppInterfaceActSetFolderSTIP => owned("AppInterfaceActSetFolderSTIP"),
            ItemAttributeCode::AppInterfaceActSaveAllMkvName => owned("AppInterfaceActSaveAllMkvName"),
            ItemAttributeCode::AppInterfaceActSaveAllMkvSTIP => owned("AppInterfaceActSaveAllMkvSTIP"),
            ItemAttributeCode::AppInterfaceActCancelName => owned("AppInterfaceActCancelName"),
            ItemAttributeCode::AppInterfaceActCancelSTIP => owned("AppInterfaceActCancelSTIP"),
            ItemAttributeCode::AppInterfaceActStreamingName => owned("AppInterfaceActStreamingName"),
            ItemAttributeCode::AppInterfaceActStreamingSTIP => owned("AppInterfaceActStreamingSTIP"),
            ItemAttributeCode::AppInterfaceActBackupName => owned("AppInterfaceActBackupName"),
            ItemAttributeCode::AppInterfaceActBackupSTIP => owned("AppInterfaceActBackupSTIP"),
            ItemAttributeCode::AppInterfaceActQuitName => owned("AppInterfaceActQuitName"),
            ItemAttributeCode::AppInterfaceActQuitSKey => owned("AppInterfaceActQuitSKey"),
            ItemAttributeCode::AppInterfaceActQuitSTIP => owned("AppInterfaceActQuitSTIP"),
            ItemAttributeCode::AppInterfaceActAboutName => owned("AppInterfaceActAboutName"),
            ItemAttributeCode::AppInterfaceActAboutSTIP => owned("AppInterfaceActAboutSTIP"),
            ItemAttributeCode::AppInterfaceActSettingsName => owned("AppInterfaceActSettingsName"),
            ItemAttributeCode::AppInterfaceActSettingsSTIP => owned("AppInterfaceActSettingsSTIP"),
            ItemAttributeCode::AppInterfaceActHelpPageName => owned("AppInterfaceActHelpPageName"),
            ItemAttributeCode::AppInterfaceActHelpPageSTIP => owned("AppInterfaceActHelpPageSTIP"),
            ItemAttributeCode::AppInterfaceActRegisterName => owned("AppInterfaceActRegisterName"),
            ItemAttributeCode::AppInterfaceActRegisterSTIP => owned("AppInterfaceActRegisterSTIP"),
            ItemAttributeCode::AppInterfaceActPurchaseNAME => owned("AppInterfaceActPurchaseNAME"),
            ItemAttributeCode::AppInterfaceActPurchaseSTIP => owned("AppInterfaceActPurchaseSTIP"),
            ItemAttributeCode::AppInterfaceActClearLogName => owned("AppInterfaceActClearLogName"),
            ItemAttributeCode::AppInterfaceActClearLogSTIP => owned("AppInterfaceActClearLogSTIP"),
            ItemAttributeCode::AppInterfaceActEjectName => owned("AppInterfaceActEjectName"),
            ItemAttributeCode::AppInterfaceActEjectSTIP => owned("AppInterfaceActEjectSTIP"),
            ItemAttributeCode::AppInterfaceActRevertNAME => owned("AppInterfaceActRevertNAME"),
            ItemAttributeCode::AppInterfaceActRevertSTIP => owned("AppInterfaceActRevertSTIP"),
            ItemAttributeCode::AppInterfaceActNewInstanceName => owned("AppInterfaceActNewInstanceName"),
            ItemAttributeCode::AppInterfaceActNewInstanceSTIP => owned("AppInterfaceActNewInstanceSTIP"),
            ItemAttributeCode::AppInterfaceActOpenDiscDvd => owned("AppInterfaceActOpenDiscDvd"),
            ItemAttributeCode::AppInterfaceActOpenDiscHdDvd => owned("AppInterfaceActOpenDiscHdDvd"),
            ItemAttributeCode::AppInterfaceActOpenDiscBluRay => owned("AppInterfaceActOpenDiscBluRay"),
            ItemAttributeCode::AppInterfaceActOpenDiscLoading => owned("AppInterfaceActOpenDiscLoading"),
            ItemAttributeCode::AppInterfaceActOpenDiscUnknown => owned("AppInterfaceActOpenDiscUnknown"),
            ItemAttributeCode::AppInterfaceActOpenDiscNoDisc => owned("AppInterfaceActOpenDiscNoDisc"),
            ItemAttributeCode::AppInterfaceActTitleTreeToggle => owned("AppInterfaceActTitleTreeToggle"),
            ItemAttributeCode::AppInterfaceActTitleTreeSelectAll => owned("AppInterfaceActTitleTreeSelectAll"),
            ItemAttributeCode::AppInterfaceActTitleTreeUnselectAll => owned("AppInterfaceActTitleTreeUnselectAll"),
            ItemAttributeCode::AppInterfaceMenuFile => owned("AppInterfaceMenuFile"),
            ItemAttributeCode::AppInterfaceMenuView => owned("AppInterfaceMenuView"),
            ItemAttributeCode::AppInterfaceMenuHelp => owned("AppInterfaceMenuHelp"),
            ItemAttributeCode::AppInterfaceMenuToolbar => owned("AppInterfaceMenuToolbar"),
            ItemAttributeCode::AppInterfaceMenuSettings => owned("AppInterfaceMenuSettings"),
            ItemAttributeCode::AppInterfaceMenuDRIVES => owned("AppInterfaceMenuDRIVES"),
            ItemAttributeCode::AppInterfaceCancelCONFIRM => owned("AppInterfaceCancelCONFIRM"),
            ItemAttributeCode::AppInterfaceFatalCOMM => owned("AppInterfaceFatalCOMM"),
            ItemAttributeCode::AppInterfaceFatalMEM => owned("AppInterfaceFatalMEM"),
            ItemAttributeCode::AppInterfaceGuiVERSION => owned("AppInterfaceGuiVERSION"),
            ItemAttributeCode::AppInterfaceLatestVERSION => owned("AppInterfaceLatestVERSION"),
            ItemAttributeCode::AppInterfaceLicenseTYPE => owned("AppInterfaceLicenseTYPE"),
            ItemAttributeCode::AppInterfaceEvalSTATE => owned("AppInterfaceEvalSTATE"),
            ItemAttributeCode::AppInterfaceEvalEXPIRATION => owned("AppInterfaceEvalEXPIRATION"),
            ItemAttributeCode::AppInterfaceProgEXPIRATION => owned("AppInterfaceProgEXPIRATION"),
            ItemAttributeCode::AppInterfaceWebsiteURL => owned("AppInterfaceWebsiteURL"),
            ItemAttributeCode::AppInterfaceVideoFolderNameWin => owned("AppInterfaceVideoFolderNameWin"),
            ItemAttributeCode::AppInterfaceVideoFolderNameMac => owned("AppInterfaceVideoFolderNameMac"),
            ItemAttributeCode::AppInterfaceVideoFolderNameLinux => owned("AppInterfaceVideoFolderNameLinux"),
            ItemAttributeCode::AppInterfaceDefaultFolderName => owned("AppInterfaceDefaultFolderName"),
            ItemAttributeCode::AppInterfaceMainFrameInfo => owned("AppInterfaceMainFrameInfo"),
            ItemAttributeCode::AppInterfaceMainFrameMakeMkv => owned("AppInterfaceMainFrameMakeMkv"),
            ItemAttributeCode::AppInterfaceMainFrameProfile => owned("AppInterfaceMainFrameProfile"),
            ItemAttributeCode::AppInterfaceMainFrameProperties => owned("AppInterfaceMainFrameProperties"),
            ItemAttributeCode::AppInterfaceEmptyFrameInfo => owned("AppInterfaceEmptyFrameInfo"),
            ItemAttributeCode::AppInterfaceEmptyFrameSource => owned("AppInterfaceEmptyFrameSource"),
            ItemAttributeCode::AppInterfaceEmptyFrameType => owned("AppInterfaceEmptyFrameType"),
            ItemAttributeCode::AppInterfaceEmptyFrameLabel => owned("AppInterfaceEmptyFrameLabel"),
            ItemAttributeCode::AppInterfaceEmptyFrameProtection => owned("AppInterfaceEmptyFrameProtection"),
            ItemAttributeCode::AppInterfaceEmptyFrameDvdManual => owned("AppInterfaceEmptyFrameDvdManual"),
            ItemAttributeCode::AppInterfaceRegisterTEXT => owned("AppInterfaceRegisterTEXT"),
            ItemAttributeCode::AppInterfaceRegisterCodeIncorrect => owned("AppInterfaceRegisterCodeIncorrect"),
            ItemAttributeCode::AppInterfaceRegisterCodeNotSaved => owned("AppInterfaceRegisterCodeNotSaved"),
            ItemAttributeCode::AppInterfaceRegisterCodeSaved => owned("AppInterfaceRegisterCodeSaved"),
            ItemAttributeCode::AppInterfaceSettingsIoOptions => owned("AppInterfaceSettingsIoOptions"),
            ItemAttributeCode::AppInterfaceSettingsIoAuto => owned("AppInterfaceSettingsIoAuto"),
            ItemAttributeCode::AppInterfaceSettingsIoReadRetry => owned("AppInterfaceSettingsIoReadRetry"),
            ItemAttributeCode::AppInterfaceSettingsIoReadBuffer => owned("AppInterfaceSettingsIoReadBuffer"),
            ItemAttributeCode::AppInterfaceSettingsIoNoDirectAccess => owned("AppInterfaceSettingsIoNoDirectAccess"),
            ItemAttributeCode::AppInterfaceSettingsIoDarwinK2Workaround => owned("AppInterfaceSettingsIoDarwinK2Workaround"),
            ItemAttributeCode::AppInterfaceSettingsIoSingleDrive => owned("AppInterfaceSettingsIoSingleDrive"),
            ItemAttributeCode::AppInterfaceSettingsDvdAuto => owned("AppInterfaceSettingsDvdAuto"),
            ItemAttributeCode::AppInterfaceSettingsDvdMinLength => owned("AppInterfaceSettingsDvdMinLength"),
            ItemAttributeCode::AppInterfaceSettingsDvdSpRemove => owned("AppInterfaceSettingsDvdSpRemove"),
            ItemAttributeCode::AppInterfaceSettingsAacsKeyDir => owned("AppInterfaceSettingsAacsKeyDir"),
            ItemAttributeCode::AppInterfaceSettingsBdpMISC => owned("AppInterfaceSettingsBdpMISC"),
            ItemAttributeCode::AppInterfaceSettingsBdpDumpAlways => owned("AppInterfaceSettingsBdpDumpAlways"),
            ItemAttributeCode::AppInterfaceSettingsDestTypeNone => owned("AppInterfaceSettingsDestTypeNone"),
            ItemAttributeCode::AppInterfaceSettingsDestTypeAuto => owned("AppInterfaceSettingsDestTypeAuto"),
            ItemAttributeCode::AppInterfaceSettingsDestTypeSemiAuto => owned("AppInterfaceSettingsDestTypeSemiAuto"),
            ItemAttributeCode::AppInterfaceSettingsDestTypeCustom => owned("AppInterfaceSettingsDestTypeCustom"),
            ItemAttributeCode::AppInterfaceSettingsDestDir => owned("AppInterfaceSettingsDestDir"),
            ItemAttributeCode::AppInterfaceSettingsGeneralMisc => owned("AppInterfaceSettingsGeneralMisc"),
            ItemAttributeCode::AppInterfaceSettingsLogDebugMsg => owned("AppInterfaceSettingsLogDebugMsg"),
            ItemAttributeCode::AppInterfaceSettingsDataDir => owned("AppInterfaceSettingsDataDir"),
            ItemAttributeCode::AppInterfaceSettingsExpertMode => owned("AppInterfaceSettingsExpertMode"),
            ItemAttributeCode::AppInterfaceSettingsShowAvSync => owned("AppInterfaceSettingsShowAvSync"),
            ItemAttributeCode::AppInterfaceSettingsGeneralOnlineUpdates => owned("AppInterfaceSettingsGeneralOnlineUpdates"),
            ItemAttributeCode::AppInterfaceSettingsEnableInternetAccess => owned("AppInterfaceSettingsEnableInternetAccess"),
            ItemAttributeCode::AppInterfaceSettingsProxyServer => owned("AppInterfaceSettingsProxyServer"),
            ItemAttributeCode::AppInterfaceSettingsTabGeneral => owned("AppInterfaceSettingsTabGeneral"),
            ItemAttributeCode::AppInterfaceSettingsMsgFailed => owned("AppInterfaceSettingsMsgFailed"),
            ItemAttributeCode::AppInterfaceSettingsMsgRestart => owned("AppInterfaceSettingsMsgRestart"),
            ItemAttributeCode::AppInterfaceSettingsTabLanguage => owned("AppInterfaceSettingsTabLanguage"),
            ItemAttributeCode::AppInterfaceSettingsLangInterface => owned("AppInterfaceSettingsLangInterface"),
            ItemAttributeCode::AppInterfaceSettingsLangPreferred => owned("AppInterfaceSettingsLangPreferred"),
            ItemAttributeCode::AppInterfaceSettingsLanguageAuto => owned("AppInterfaceSettingsLanguageAuto"),
            ItemAttributeCode::AppInterfaceSettingsLanguageNone => owned("AppInterfaceSettingsLanguageNone"),
            ItemAttributeCode::AppInterfaceSettingsTabIo => owned("AppInterfaceSettingsTabIo"),
            ItemAttributeCode::AppInterfaceSettingsTabStreaming => owned("AppInterfaceSettingsTabStreaming"),
            ItemAttributeCode::AppInterfaceSettingsTabProt => owned("AppInterfaceSettingsTabProt"),
            ItemAttributeCode::AppInterfaceSettingsTabAdvanced => owned("AppInterfaceSettingsTabAdvanced"),
            ItemAttributeCode::AppInterfaceSettingsAdvDefaultProfile => owned("AppInterfaceSettingsAdvDefaultProfile"),
            ItemAttributeCode::AppInterfaceSettingsAdvDefaultSelection => owned("AppInterfaceSettingsAdvDefaultSelection"),
            ItemAttributeCode::AppInterfaceSettingsAdvExternExecPath => owned("AppInterfaceSettingsAdvExternExecPath"),
            ItemAttributeCode::AppInterfaceSettingsProtJavaPath => owned("AppInterfaceSettingsProtJavaPath"),
            ItemAttributeCode::AppInterfaceSettingsAdvOutputFileNameTemplate => owned("AppInterfaceSettingsAdvOutputFileNameTemplate"),
            ItemAttributeCode::AppInterfaceSettingsTabIntegration => owned("AppInterfaceSettingsTabIntegration"),
            ItemAttributeCode::AppInterfaceSettingsIntText => owned("AppInterfaceSettingsIntText"),
            ItemAttributeCode::AppInterfaceSettingsIntHdrPath => owned("AppInterfaceSettingsIntHdrPath"),
            ItemAttributeCode::AppInterfaceKeyText => owned("AppInterfaceKeyText"),
            ItemAttributeCode::AppInterfaceKeyName => owned("AppInterfaceKeyName"),
            ItemAttributeCode::AppInterfaceKeyType => owned("AppInterfaceKeyType"),
            ItemAttributeCode::AppInterfaceKeyDate => owned("AppInterfaceKeyDate"),
            ItemAttributeCode::AppInterfaceBackupDlgTextCaption => owned("AppInterfaceBackupDlgTextCaption"),
            ItemAttributeCode::AppInterfaceBackupDlgText => owned("AppInterfaceBackupDlgText"),
            ItemAttributeCode::AppInterfaceBackupDlgFolder => owned("AppInterfaceBackupDlgFolder"),
            ItemAttributeCode::AppInterfaceBackupDlgOptions => owned("AppInterfaceBackupDlgOptions"),
            ItemAttributeCode::AppInterfaceBackupDlgDecrypt => owned("AppInterfaceBackupDlgDecrypt"),
            ItemAttributeCode::AppInterfaceDriveInfoLoading => owned("AppInterfaceDriveInfoLoading"),
            ItemAttributeCode::AppInterfaceDriveInfoUnmounting => owned("AppInterfaceDriveInfoUnmounting"),
            ItemAttributeCode::AppInterfaceDriveInfoWait => owned("AppInterfaceDriveInfoWait"),
            ItemAttributeCode::AppInterfaceDriveInfoNoDisc => owned("AppInterfaceDriveInfoNoDisc"),
            ItemAttributeCode::AppInterfaceDriveInfoDataDisc => owned("AppInterfaceDriveInfoDataDisc"),
            ItemAttributeCode::AppInterfaceDriveInfoNone => owned("AppInterfaceDriveInfoNone"),
            ItemAttributeCode::AppInterfaceFlagsDirectorsComments => owned("AppInterfaceFlagsDirectorsComments"),
            ItemAttributeCode::AppInterfaceFlagsAltDirectorsComments => owned("AppInterfaceFlagsAltDirectorsComments"),
            ItemAttributeCode::AppInterfaceFlagsSecondaryAudio => owned("AppInterfaceFlagsSecondaryAudio"),
            ItemAttributeCode::AppInterfaceFlagsForVisuallyImpaired => owned("AppInterfaceFlagsForVisuallyImpaired"),
            ItemAttributeCode::AppInterfaceFlagsCoreAUDIO => owned("AppInterfaceFlagsCoreAUDIO"),
            ItemAttributeCode::AppInterfaceFlagsForcedSUBTITLES => owned("AppInterfaceFlagsForcedSUBTITLES"),
            ItemAttributeCode::AppInterfaceFlagsProfileSecondaryStream => owned("AppInterfaceFlagsProfileSecondaryStream"),
            ItemAttributeCode::AppInterfaceItemInfoSource => owned("AppInterfaceItemInfoSource"),
            ItemAttributeCode::AppInterfaceItemInfoTitle => owned("AppInterfaceItemInfoTitle"),
            ItemAttributeCode::AppInterfaceItemInfoTRACK => owned("AppInterfaceItemInfoTRACK"),
            ItemAttributeCode::AppInterfaceItemInfoATTACHMENT => owned("AppInterfaceItemInfoATTACHMENT"),
            ItemAttributeCode::AppInterfaceItemInfoCHAPTER => owned("AppInterfaceItemInfoCHAPTER"),
            ItemAttributeCode::AppInterfaceItemInfoCHAPTERS => owned("AppInterfaceItemInfoCHAPTERS"),
            ItemAttributeCode::AppTitleTreeTitle => owned("AppTitleTreeTitle"),
            ItemAttributeCode::AppTitleTreeVideo => owned("AppTitleTreeVideo"),
            ItemAttributeCode::AppTitleTreeAudio => owned("AppTitleTreeAudio"),
            ItemAttributeCode::AppTitleTreeSubPicture => owned("AppTitleTreeSubPicture"),
            ItemAttributeCode::AppTitleTreeAttachment => owned("AppTitleTreeAttachment"),
            ItemAttributeCode::AppTitleTreeChapters => owned("AppTitleTreeChapters"),
            ItemAttributeCode::AppTitleTreeChapter => owned("AppTitleTreeChapter"),
            ItemAttributeCode::AppTitleTreeForcedSubtitles => owned("AppTitleTreeForcedSubtitles"),
            ItemAttributeCode::AppTitleTreeHdrType => owned("AppTitleTreeHdrType"),
            ItemAttributeCode::AppTitleTreeHdrDESC => owned("AppTitleTreeHdrDESC"),
            ItemAttributeCode::DvdTypeDisk => owned("DvdTypeDisk"),
            ItemAttributeCode::BluRayTypeDisk => owned("BluRayTypeDisk"),
            ItemAttributeCode::HdDvdTypeDisk => owned("HdDvdTypeDisk"),
            ItemAttributeCode::MkvTypeFile => owned("MkvTypeFile"),
            ItemAttributeCode::AppTitleTreeChapDESC => owned("AppTitleTreeChapDESC"),
            ItemAttributeCode::AppTitleTreeAngleDESC => owned("AppTitleTreeAngleDESC"),
            ItemAttributeCode::AppDvdManualTitle => owned("AppDvdManualTitle"),
            ItemAttributeCode::AppDvdManualText => owned("AppDvdManualText"),
            ItemAttributeCode::AppDvdTitlesCount => owned("AppDvdTitlesCount"),
            ItemAttributeCode::AppDvdCountCells => owned("AppDvdCountCells"),
            ItemAttributeCode::AppDvdCountPgc => owned("AppDvdCountPgc"),
            ItemAttributeCode::AppDvdBrokenTitleEntry => owned("AppDvdBrokenTitleEntry"),
            ItemAttributeCode::AppSingleDriveTitle => owned("AppSingleDriveTitle"),
            ItemAttributeCode::AppSingleDriveText => owned("AppSingleDriveText"),
            ItemAttributeCode::AppSingleDriveAll => owned("AppSingleDriveAll"),
            ItemAttributeCode::AppSingleDriveCaption => owned("AppSingleDriveCaption"),
            ItemAttributeCode::AppSiDriveInfo => owned("AppSiDriveInfo"),
            ItemAttributeCode::AppSiProfile => owned("AppSiProfile"),
            ItemAttributeCode::AppSiManufacturer => owned("AppSiManufacturer"),
            ItemAttributeCode::AppSiProduct => owned("AppSiProduct"),
            ItemAttributeCode::AppSiRevision => owned("AppSiRevision"),
            ItemAttributeCode::AppSiSerial => owned("AppSiSerial"),
            ItemAttributeCode::AppSiFirmware => owned("AppSiFirmware"),
            ItemAttributeCode::AppSiFirDate => owned("AppSiFirDate"),
            ItemAttributeCode::AppSiBecFlags => owned("AppSiBecFlags"),
            ItemAttributeCode::AppSiHighestAacs => owned("AppSiHighestAacs"),
            ItemAttributeCode::AppSiDiscInfo => owned("AppSiDiscInfo"),
            ItemAttributeCode::AppSiNoDisc => owned("AppSiNoDisc"),
            ItemAttributeCode::AppSiDiscLoad => owned("AppSiDiscLoad"),
            ItemAttributeCode::AppSiCapacity => owned("AppSiCapacity"),
            ItemAttributeCode::AppSiDiscType => owned("AppSiDiscType"),
            ItemAttributeCode::AppSiDiscSize => owned("AppSiDiscSize"),
            ItemAttributeCode::AppSiDiscRate => owned("AppSiDiscRate"),
            ItemAttributeCode::AppSiDiscLayers => owned("AppSiDiscLayers"),
            ItemAttributeCode::AppSiDiscCbl => owned("AppSiDiscCbl"),
            ItemAttributeCode::AppSiDiscCbl25 => owned("AppSiDiscCbl25"),
            ItemAttributeCode::AppSiDiscCbl27 => owned("AppSiDiscCbl27"),
            ItemAttributeCode::AppSiDevice => owned("AppSiDevice"),
        }
    }
}

/// The attribute id with the given numeric value, if there is one.
pub fn parse_item_attribute_id(value: u32) -> (r: Option<ItemAttributeId>)
    ensures
        r == ItemAttributeId::of_value(value),
{
    ItemAttributeId::from_u32(value)
}

/// The attribute code with the given numeric value, if there is one.
pub fn parse_item_attribute_code(value: u32) -> (r: Option<ItemAttributeCode>)
    ensures
        r == ItemAttributeCode::of_value(value),
{
    ItemAttributeCode::from_u32(value)
}


/// Distinct attribute ids have distinct numeric values.
pub proof fn lemma_attribute_id_injective(a: ItemAttributeId, b: ItemAttributeId)
    requires
        a.value() == b.value(),
    ensures
        a == b,
{

}

/// Distinct attribute codes have distinct numeric values.
pub proof fn lemma_attribute_code_injective(a: ItemAttributeCode, b: ItemAttributeCode)
    requires
        a.value() == b.value(),
    ensures
        a == b,
{
}


/// Distinct drive states have distinct numeric values.
pub proof fn lemma_drive_status_injective(a: DriveStatus, b: DriveStatus)
    requires
        a.value() == b.value(),
    ensures
        a == b,
{
}

/// Looking up an attribute id by its numeric value gives the id back.
pub proof fn law_attribute_id_round_trip(x: ItemAttributeId)
    ensures
        ItemAttributeId::of_value(x.value()) == Some(x),
{
    let y = choose|y: ItemAttributeId| y.value() == x.value();
    lemma_attribute_id_injective(x, y);
}

/// Looking up an attribute code by its numeric value gives the code back.
pub proof fn law_attribute_code_round_trip(x: ItemAttributeCode)
    ensures
        ItemAttributeCode::of_value(x.value()) == Some(x),
{
    let y = choose|y: ItemAttributeCode| y.value() == x.value();
    lemma_attribute_code_injective(x, y);
}

/// Looking up a drive state by its numeric value gives the state back.
pub proof fn law_drive_status_round_trip(x: DriveStatus)
    ensures
        DriveStatus::of_value(x.value()) == Some(x),
{
    let y = choose|y: DriveStatus| y.value() == x.value();
    lemma_drive_status_injective(x, y);
}

} // verus!
