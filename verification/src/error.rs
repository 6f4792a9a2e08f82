//! The status translator: every status code of the host's virtual-disk
//! service that this library distinguishes, as one error variant each, plus
//! the library's own two failure kinds (an extension no format is known
//! for, and an attach whose new volume could not be discovered).

use vstd::prelude::*;

verus! {

/// Errors returned by this library: one variant per recognized host status
/// code, a catch-all that carries an unrecognized raw code, and the two
/// domain failures that no host status stands for.
#[derive(Debug, Clone, Copy, PartialEq, Eq, Structural)]
pub enum Error {
    /// The attach succeeded but no new volume identifier was observed.
    MountDriveDetection,
    /// No disk format was forced and the file extension matches none.
    UnknownFileExtension,
    /// A host status code outside the table below, carried raw.
    UnknownWindowsError(u32),
    UnsupportedCompression,
    FileEncrypted,
    FileSystemLimitation,
    FileCorrupt,
    InvalidFunction,
    FileNotFound,
    PathNotFound,
    TooManyOpenFiles,
    AccessDenied,
    InvalidHandle,
    ArenaTrashed,
    NotEnoughMemory,
    InvalidBlock,
    BadEnvironment,
    BadFormat,
    InvalidAccess,
    InvalidData,
    Outofmemory,
    InvalidDrive,
    CurrentDirectory,
    NotSameDevice,
    NoMoreFiles,
    WriteProtect,
    BadUnit,
    NotReady,
    BadCommand,
    Crc,
    BadLength,
    Seek,
    NotDosDisk,
    SectorNotFound,
    OutOfPaper,
    WriteFault,
    ReadFault,
    GenFailure,
    SharingViolation,
    LockViolation,
    WrongDisk,
    SharingBufferExceeded,
    HandleEof,
    HandleDiskFull,
    NotSupported,
    RemNotList,
    DupName,
    BadNetpath,
    NetworkBusy,
    DevNotExist,
    TooManyCmds,
    AdapHdwErr,
    BadNetResp,
    UnexpNetErr,
    BadRemAdap,
    PrintqFull,
    NoSpoolSpace,
    PrintCancelled,
    NetnameDeleted,
    NetworkAccessDenied,
    BadDevType,
    BadNetName,
    TooManyNames,
    TooManySess,
    SharingPaused,
    ReqNotAccep,
    RedirPaused,
    FileExists,
    CannotMake,
    FailI24,
    OutOfStructures,
    AlreadyAssigned,
    InvalidPassword,
    InvalidParameter,
    NetWriteFault,
    NoProcSlots,
    TooManySemaphores,
    ExclSemAlreadyOwned,
    SemIsSet,
    TooManySemRequests,
    InvalidAtInterruptTime,
    SemOwnerDied,
    SemUserLimit,
    DiskChange,
    DriveLocked,
    BrokenPipe,
    OpenFailed,
    BufferOverflow,
    DiskFull,
    NoMoreSearchHandles,
    InvalidTargetHandle,
    InvalidCategory,
    InvalidVerifySwitch,
    BadDriverLevel,
    CallNotImplemented,
    SemTimeout,
    InsufficientBuffer,
    InvalidName,
    InvalidLevel,
    NoVolumeLabel,
    ModNotFound,
    ProcNotFound,
    WaitNoChildren,
    ChildNotComplete,
    DirectAccessHandle,
    NegativeSeek,
    SeekOnDevice,
    IsJoinTarget,
    IsJoined,
    IsSubsted,
    NotJoined,
    NotSubsted,
    JoinToJoin,
    SubstToSubst,
    JoinToSubst,
    SubstToJoin,
    BusyDrive,
    SameDrive,
    DirNotRoot,
    DirNotEmpty,
    IsSubstPath,
    IsJoinPath,
    PathBusy,
    IsSubstTarget,
    SystemTrace,
    InvalidEventCount,
    TooManyMuxwaiters,
    InvalidListFormat,
    LabelTooLong,
    TooManyTcbs,
    SignalRefused,
    Discarded,
    NotLocked,
    BadThreadidAddr,
    BadArguments,
    BadPathname,
    SignalPending,
    MaxThrdsReached,
    LockFailed,
    Busy,
    DeviceSupportInProgress,
    CancelViolation,
    AtomicLocksNotSupported,
    InvalidSegmentNumber,
    InvalidOrdinal,
    AlreadyExists,
    InvalidFlagNumber,
    SemNotFound,
    InvalidStartingCodeseg,
    InvalidStackseg,
    InvalidModuletype,
    InvalidExeSignature,
    ExeMarkedInvalid,
    BadExeFormat,
    IteratedDataExceeds64k,
    InvalidMinallocsize,
    DynlinkFromInvalidRing,
    IoplNotEnabled,
    InvalidSegdpl,
    AutodatasegExceeds64k,
    Ring2segMustBeMovable,
    RelocChainXeedsSeglim,
    InfloopInRelocChain,
    EnvvarNotFound,
    NoSignalSent,
    FilenameExcedRange,
    Ring2StackInUse,
    MetaExpansionTooLong,
    InvalidSignalNumber,
    Thread1Inactive,
    Locked,
    TooManyModules,
    NestingNotAllowed,
    ExeMachineTypeMismatch,
    ExeCannotModifySignedBinary,
    ExeCannotModifyStrongSignedBinary,
    FileCheckedOut,
    CheckoutRequired,
    BadFileType,
    FileTooLarge,
    FormsAuthRequired,
    VirusInfected,
    VirusDeleted,
    PipeLocal,
    BadPipe,
    PipeBusy,
    NoData,
    PipeNotConnected,
    MoreData,
    VcDisconnected,
    InvalidEaName,
    EaListInconsistent,
    WaitTimeout,
    NoMoreItems,
    CannotCopy,
    Directory,
    EasDidntFit,
    EaFileCorrupt,
    EaTableFull,
    InvalidEaHandle,
    EasNotSupported,
    NotOwner,
    TooManyPosts,
    PartialCopy,
    OplockNotGranted,
    InvalidOplockProtocol,
    DiskTooFragmented,
    DeletePending,
    IncompatibleWithGlobalShortNameRegistrySetting,
    ShortNamesNotEnabledOnVolume,
    SecurityStreamIsInconsistent,
    InvalidLockRange,
    ImageSubsystemNotPresent,
    NotificationGuidAlreadyDefined,
    InvalidExceptionHandler,
    DuplicatePrivileges,
    NoRangesProcessed,
    NotAllowedOnSystemFile,
    DiskResourcesExhausted,
    InvalidToken,
    DeviceFeatureNotSupported,
    MrMidNotFound,
    ScopeNotFound,
    UndefinedScope,
    InvalidCap,
    DeviceUnreachable,
    DeviceNoResources,
    DataChecksumError,
    IntermixedKernelEaOperation,
    FileLevelTrimNotSupported,
    OffsetAlignmentViolation,
    InvalidFieldInParameterList,
    OperationInProgress,
    BadDevicePath,
    TooManyDescriptors,
    ScrubDataDisabled,
    NotRedundantStorage,
    ResidentFileNotSupported,
    CompressedFileNotSupported,
    DirectoryNotSupported,
    NotReadFromCopy,
    FailNoactionReboot,
    FailShutdown,
    FailRestart,
    MaxSessionsReached,
    ThreadModeAlreadyBackground,
    ThreadModeNotBackground,
    ProcessModeAlreadyBackground,
    ProcessModeNotBackground,
    InvalidAddress,
}

/// The translation table: which error each host status code stands for.
/// Codes absent from the table translate to `UnknownWindowsError`.
pub open spec fn status_error(code: u32) -> Error {
    match code {
        1u32 => Error::InvalidFunction,
        2u32 => Error::FileNotFound,
        3u32 => Error::PathNotFound,
        4u32 => Error::TooManyOpenFiles,
        5u32 => Error::AccessDenied,
        6u32 => Error::InvalidHandle,
        7u32 => Error::ArenaTrashed,
        8u32 => Error::NotEnoughMemory,
        9u32 => Error::InvalidBlock,
        10u32 => Error::BadEnvironment,
        11u32 => Error::BadFormat,
        12u32 => Error::InvalidAccess,
        13u32 => Error::InvalidData,
        14u32 => Error::Outofmemory,
        15u32 => Error::InvalidDrive,
        16u32 => Error::CurrentDirectory,
        17u32 => Error::NotSameDevice,
        18u32 => Error::NoMoreFiles,
        19u32 => Error::WriteProtect,
        20u32 => Error::BadUnit,
        21u32 => Error::NotReady,
        22u32 => Error::BadCommand,
        23u32 => Error::Crc,
        24u32 => Error::BadLength,
        25u32 => Error::Seek,
        26u32 => Error::NotDosDisk,
        27u32 => Error::SectorNotFound,
        28u32 => Error::OutOfPaper,
        29u32 => Error::WriteFault,
        30u32 => Error::ReadFault,
        31u32 => Error::GenFailure,
        32u32 => Error::SharingViolation,
        33u32 => Error::LockViolation,
        34u32 => Error::WrongDisk,
        36u32 => Error::SharingBufferExceeded,
        38u32 => Error::HandleEof,
        39u32 => Error::HandleDiskFull,
        50u32 => Error::NotSupported,
        51u32 => Error::RemNotList,
        52u32 => Error::DupName,
        53u32 => Error::BadNetpath,
        54u32 => Error::NetworkBusy,
        55u32 => Error::DevNotExist,
        56u32 => Error::TooManyCmds,
        57u32 => Error::AdapHdwErr,
        58u32 => Error::BadNetResp,
        59u32 => Error::UnexpNetErr,
        60u32 => Error::BadRemAdap,
        61u32 => Error::PrintqFull,
        62u32 => Error::NoSpoolSpace,
        63u32 => Error::PrintCancelled,
        64u32 => Error::NetnameDeleted,
        65u32 => Error::NetworkAccessDenied,
        66u32 => Error::BadDevType,
        67u32 => Error::BadNetName,
        68u32 => Error::TooManyNames,
        69u32 => Error::TooManySess,
        70u32 => Error::SharingPaused,
        71u32 => Error::ReqNotAccep,
        72u32 => Error::RedirPaused,
        80u32 => Error::FileExists,
        82u32 => Error::CannotMake,
        83u32 => Error::FailI24,
        84u32 => Error::OutOfStructures,
        85u32 => Error::AlreadyAssigned,
        86u32 => Error::InvalidPassword,
        87u32 => Error::InvalidParameter,
        88u32 => Error::NetWriteFault,
        89u32 => Error::NoProcSlots,
        100u32 => Error::TooManySemaphores,
        101u32 => Error::ExclSemAlreadyOwned,
        102u32 => Error::SemIsSet,
        103u32 => Error::TooManySemRequests,
        104u32 => Error::InvalidAtInterruptTime,
        105u32 => Error::SemOwnerDied,
        106u32 => Error::SemUserLimit,
        107u32 => Error::DiskChange,
        108u32 => Error::DriveLocked,
        109u32 => Error::BrokenPipe,
        110u32 => Error::OpenFailed,
        111u32 => Error::BufferOverflow,
        112u32 => Error::DiskFull,
        113u32 => Error::NoMoreSearchHandles,
        114u32 => Error::InvalidTargetHandle,
        117u32 => Error::InvalidCategory,
        118u32 => Error::InvalidVerifySwitch,
        119u32 => Error::BadDriverLevel,
        120u32 => Error::CallNotImplemented,
        121u32 => Error::SemTimeout,
        122u32 => Error::InsufficientBuffer,
        123u32 => Error::InvalidName,
        124u32 => Error::InvalidLevel,
        125u32 => Error::NoVolumeLabel,
        126u32 => Error::ModNotFound,
        127u32 => Error::ProcNotFound,
        128u32 => Error::WaitNoChildren,
        129u32 => Error::ChildNotComplete,
        130u32 => Error::DirectAccessHandle,
        131u32 => Error::NegativeSeek,
        132u32 => Error::SeekOnDevice,
        133u32 => Error::IsJoinTarget,
        134u32 => Error::IsJoined,
        135u32 => Error::IsSubsted,
        136u32 => Error::NotJoined,
        137u32 => Error::NotSubsted,
        138u32 => Error::JoinToJoin,
        139u32 => Error::SubstToSubst,
        140u32 => Error::JoinToSubst,
        141u32 => Error::SubstToJoin,
        142u32 => Error::BusyDrive,
        143u32 => Error::SameDrive,
        144u32 => Error::DirNotRoot,
        145u32 => Error::DirNotEmpty,
        146u32 => Error::IsSubstPath,
        147u32 => Error::IsJoinPath,
        148u32 => Error::PathBusy,
        149u32 => Error::IsSubstTarget,
        150u32 => Error::SystemTrace,
        151u32 => Error::InvalidEventCount,
        152u32 => Error::TooManyMuxwaiters,
        153u32 => Error::InvalidListFormat,
        154u32 => Error::LabelTooLong,
        155u32 => Error::TooManyTcbs,
        156u32 => Error::SignalRefused,
        157u32 => Error::Discarded,
        158u32 => Error::NotLocked,
        159u32 => Error::BadThreadidAddr,
        160u32 => Error::BadArguments,
        161u32 => Error::BadPathname,
        162u32 => Error::SignalPending,
        164u32 => Error::MaxThrdsReached,
        167u32 => Error::LockFailed,
        170u32 => Error::Busy,
        171u32 => Error::DeviceSupportInProgress,
        173u32 => Error::CancelViolation,
        174u32 => Error::AtomicLocksNotSupported,
        180u32 => Error::InvalidSegmentNumber,
        182u32 => Error::InvalidOrdinal,
        183u32 => Error::AlreadyExists,
        186u32 => Error::InvalidFlagNumber,
        187u32 => Error::SemNotFound,
        188u32 => Error::InvalidStartingCodeseg,
        189u32 => Error::InvalidStackseg,
        190u32 => Error::InvalidModuletype,
        191u32 => Error::InvalidExeSignature,
        192u32 => Error::ExeMarkedInvalid,
        193u32 => Error::BadExeFormat,
        194u32 => Error::IteratedDataExceeds64k,
        195u32 => Error::InvalidMinallocsize,
        196u32 => Error::DynlinkFromInvalidRing,
        197u32 => Error::IoplNotEnabled,
        198u32 => Error::InvalidSegdpl,
        199u32 => Error::AutodatasegExceeds64k,
        200u32 => Error::Ring2segMustBeMovable,
        201u32 => Error::RelocChainXeedsSeglim,
        202u32 => Error::InfloopInRelocChain,
        203u32 => Error::EnvvarNotFound,
        205u32 => Error::NoSignalSent,
        206u32 => Error::FilenameExcedRange,
        207u32 => Error::Ring2StackInUse,
        208u32 => Error::MetaExpansionTooLong,
        209u32 => Error::InvalidSignalNumber,
        210u32 => Error::Thread1Inactive,
        212u32 => Error::Locked,
        214u32 => Error::TooManyModules,
        215u32 => Error::NestingNotAllowed,
        216u32 => Error::ExeMachineTypeMismatch,
        217u32 => Error::ExeCannotModifySignedBinary,
        218u32 => Error::ExeCannotModifyStrongSignedBinary,
        220u32 => Error::FileCheckedOut,
        221u32 => Error::CheckoutRequired,
        222u32 => Error::BadFileType,
        223u32 => Error::FileTooLarge,
        224u32 => Error::FormsAuthRequired,
        225u32 => Error::VirusInfected,
        226u32 => Error::VirusDeleted,
        229u32 => Error::PipeLocal,
        230u32 => Error::BadPipe,
        231u32 => Error::PipeBusy,
        232u32 => Error::NoData,
        233u32 => Error::PipeNotConnected,
        234u32 => Error::MoreData,
        240u32 => Error::VcDisconnected,
        254u32 => Error::InvalidEaName,
        255u32 => Error::EaListInconsistent,
        258u32 => Error::WaitTimeout,
        259u32 => Error::NoMoreItems,
        266u32 => Error::CannotCopy,
        267u32 => Error::Directory,
        275u32 => Error::EasDidntFit,
        276u32 => Error::EaFileCorrupt,
        277u32 => Error::EaTableFull,
        278u32 => Error::InvalidEaHandle,
        282u32 => Error::EasNotSupported,
        288u32 => Error::NotOwner,
        298u32 => Error::TooManyPosts,
        299u32 => Error::PartialCopy,
        300u32 => Error::OplockNotGranted,
        301u32 => Error::InvalidOplockProtocol,
        302u32 => Error::DiskTooFragmented,
        303u32 => Error::DeletePending,
        304u32 => Error::IncompatibleWithGlobalShortNameRegistrySetting,
        305u32 => Error::ShortNamesNotEnabledOnVolume,
        306u32 => Error::SecurityStreamIsInconsistent,
        307u32 => Error::InvalidLockRange,
        308u32 => Error::ImageSubsystemNotPresent,
        309u32 => Error::NotificationGuidAlreadyDefined,
        310u32 => Error::InvalidExceptionHandler,
        311u32 => Error::DuplicatePrivileges,
        312u32 => Error::NoRangesProcessed,
        313u32 => Error::NotAllowedOnSystemFile,
        314u32 => Error::DiskResourcesExhausted,
        315u32 => Error::InvalidToken,
        316u32 => Error::DeviceFeatureNotSupported,
        317u32 => Error::MrMidNotFound,
        318u32 => Error::ScopeNotFound,
        319u32 => Error::UndefinedScope,
        320u32 => Error::InvalidCap,
        321u32 => Error::DeviceUnreachable,
        322u32 => Error::DeviceNoResources,
        323u32 => Error::DataChecksumError,
        324u32 => Error::IntermixedKernelEaOperation,
        326u32 => Error::FileLevelTrimNotSupported,
        327u32 => Error::OffsetAlignmentViolation,
        328u32 => Error::InvalidFieldInParameterList,
        329u32 => Error::OperationInProgress,
        330u32 => Error::BadDevicePath,
        331u32 => Error::TooManyDescriptors,
        332u32 => Error::ScrubDataDisabled,
        333u32 => Error::NotRedundantStorage,
        334u32 => Error::ResidentFileNotSupported,
        335u32 => Error::CompressedFileNotSupported,
        336u32 => Error::DirectoryNotSupported,
        337u32 => Error::NotReadFromCopy,
        350u32 => Error::FailNoactionReboot,
        351u32 => Error::FailShutdown,
        352u32 => Error::FailRestart,
        353u32 => Error::MaxSessionsReached,
        400u32 => Error::ThreadModeAlreadyBackground,
        401u32 => Error::ThreadModeNotBackground,
        402u32 => Error::ProcessModeAlreadyBackground,
        403u32 => Error::ProcessModeNotBackground,
        487u32 => Error::InvalidAddress,
        618u32 => Error::UnsupportedCompression,
        6002u32 => Error::FileEncrypted,
        665u32 => Error::FileSystemLimitation,
        1392u32 => Error::FileCorrupt,
        _ => Error::UnknownWindowsError(code),
    }
}

impl Error {
    /// Translate a host status code into the error it stands for.
    pub fn from_code(code: u32) -> (r: Error)
        ensures
            r == status_error(code),
    {
        match code {
            1 => Error::InvalidFunction,
            2 => Error::FileNotFound,
            3 => Error::PathNotFound,
            4 => Error::TooManyOpenFiles,
            5 => Error::AccessDenied,
            6 => Error::InvalidHandle,
            7 => Error::ArenaTrashed,
            8 => Error::NotEnoughMemory,
            9 => Error::InvalidBlock,
            10 => Error::BadEnvironment,
            11 => Error::BadFormat,
            12 => Error::InvalidAccess,
            13 => Error::InvalidData,
            14 => Error::Outofmemory,
            15 => Error::InvalidDrive,
            16 => Error::CurrentDirectory,
            17 => Error::NotSameDevice,
            18 => Error::NoMoreFiles,
            19 => Error::WriteProtect,
            20 => Error::BadUnit,
            21 => Error::NotReady,
            22 => Error::BadCommand,
            23 => Error::Crc,
            24 => Error::BadLength,
            25 => Error::Seek,
            26 => Error::NotDosDisk,
            27 => Error::SectorNotFound,
            28 => Error::OutOfPaper,
            29 => Error::WriteFault,
            30 => Error::ReadFault,
            31 => Error::GenFailure,
            32 => Error::SharingViolation,
            33 => Error::LockViolation,
            34 => Error::WrongDisk,
            36 => Error::SharingBufferExceeded,
            38 => Error::HandleEof,
            39 => Error::HandleDiskFull,
            50 => Error::NotSupported,
            51 => Error::RemNotList,
            52 => Error::DupName,
            53 => Error::BadNetpath,
            54 => Error::NetworkBusy,
            55 => Error::DevNotExist,
            56 => Error::TooManyCmds,
            57 => Error::AdapHdwErr,
            58 => Error::BadNetResp,
            59 => Error::UnexpNetErr,
            60 => Error::BadRemAdap,
            61 => Error::PrintqFull,
            62 => Error::NoSpoolSpace,
            63 => Error::PrintCancelled,
            64 => Error::NetnameDeleted,
            65 => Error::NetworkAccessDenied,
            66 => Error::BadDevType,
            67 => Error::BadNetName,
            68 => Error::TooManyNames,
            69 => Error::TooManySess,
            70 => Error::SharingPaused,
            71 => Error::ReqNotAccep,
            72 => Error::RedirPaused,
            80 => Error::FileExists,
            82 => Error::CannotMake,
            83 => Error::FailI24,
            84 => Error::OutOfStructures,
            85 => Error::AlreadyAssigned,
            86 => Error::InvalidPassword,
            87 => Error::InvalidParameter,
            88 => Error::NetWriteFault,
            89 => Error::NoProcSlots,
            100 => Error::TooManySemaphores,
            101 => Error::ExclSemAlreadyOwned,
            102 => Error::SemIsSet,
            103 => Error::TooManySemRequests,
            104 => Error::InvalidAtInterruptTime,
            105 => Error::SemOwnerDied,
            106 => Error::SemUserLimit,
            107 => Error::DiskChange,
            108 => Error::DriveLocked,
            109 => Error::BrokenPipe,
            110 => Error::OpenFailed,
            111 => Error::BufferOverflow,
            112 => Error::DiskFull,
            113 => Error::NoMoreSearchHandles,
            114 => Error::InvalidTargetHandle,
            117 => Error::InvalidCategory,
            118 => Error::InvalidVerifySwitch,
            119 => Error::BadDriverLevel,
            120 => Error::CallNotImplemented,
            121 => Error::SemTimeout,
            122 => Error::InsufficientBuffer,
            123 => Error::InvalidName,
            124 => Error::InvalidLevel,
            125 => Error::NoVolumeLabel,
            126 => Error::ModNotFound,
            127 => Error::ProcNotFound,
            128 => Error::WaitNoChildren,
            129 => Error::ChildNotComplete,
            130 => Error::DirectAccessHandle,
            131 => Error::NegativeSeek,
            132 => Error::SeekOnDevice,
            133 => Error::IsJoinTarget,
            134 => Error::IsJoined,
            135 => Error::IsSubsted,
            136 => Error::NotJoined,
            137 => Error::NotSubsted,
            138 => Error::JoinToJoin,
            139 => Error::SubstToSubst,
            140 => Error::JoinToSubst,
            141 => Error::SubstToJoin,
            142 => Error::BusyDrive,
            143 => Error::SameDrive,
            144 => Error::DirNotRoot,
            145 => Error::DirNotEmpty,
            146 => Error::IsSubstPath,
            147 => Error::IsJoinPath,
            148 => Error::PathBusy,
            149 => Error::IsSubstTarget,
            150 => Error::SystemTrace,
            151 => Error::InvalidEventCount,
            152 => Error::TooManyMuxwaiters,
            153 => Error::InvalidListFormat,
            154 => Error::LabelTooLong,
            155 => Error::TooManyTcbs,
            156 => Error::SignalRefused,
            157 => Error::Discarded,
            158 => Error::NotLocked,
            159 => Error::BadThreadidAddr,
            160 => Error::BadArguments,
            161 => Error::BadPathname,
            162 => Error::SignalPending,
            164 => Error::MaxThrdsReached,
            167 => Error::LockFailed,
            170 => Error::Busy,
            171 => Error::DeviceSupportInProgress,
            173 => Error::CancelViolation,
            174 => Error::AtomicLocksNotSupported,
            180 => Error::InvalidSegmentNumber,
            182 => Error::InvalidOrdinal,
            183 => Error::AlreadyExists,
            186 => Error::InvalidFlagNumber,
            187 => Error::SemNotFound,
            188 => Error::InvalidStartingCodeseg,
            189 => Error::InvalidStackseg,
            190 => Error::InvalidModuletype,
            191 => Error::InvalidExeSignature,
            192 => Error::ExeMarkedInvalid,
            193 => Error::BadExeFormat,
            194 => Error::IteratedDataExceeds64k,
            195 => Error::InvalidMinallocsize,
            196 => Error::DynlinkFromInvalidRing,
            197 => Error::IoplNotEnabled,
            198 => Error::InvalidSegdpl,
            199 => Error::AutodatasegExceeds64k,
            200 => Error::Ring2segMustBeMovable,
            201 => Error::RelocChainXeedsSeglim,
            202 => Error::InfloopInRelocChain,
            203 => Error::EnvvarNotFound,
            205 => Error::NoSignalSent,
            206 => Error::FilenameExcedRange,
            207 => Error::Ring2StackInUse,
            208 => Error::MetaExpansionTooLong,
            209 => Error::InvalidSignalNumber,
            210 => Error::Thread1Inactive,
            212 => Error::Locked,
            214 => Error::TooManyModules,
            215 => Error::NestingNotAllowed,
            216 => Error::ExeMachineTypeMismatch,
            217 => Error::ExeCannotModifySignedBinary,
            218 => Error::ExeCannotModifyStrongSignedBinary,
            220 => Error::FileCheckedOut,
            221 => Error::CheckoutRequired,
            222 => Error::BadFileType,
            223 => Error::FileTooLarge,
            224 => Error::FormsAuthRequired,
            225 => Error::VirusInfected,
            226 => Error::VirusDeleted,
            229 => Error::PipeLocal,
            230 => Error::BadPipe,
            231 => Error::PipeBusy,
            232 => Error::NoData,
            233 => Error::PipeNotConnected,
            234 => Error::MoreData,
            240 => Error::VcDisconnected,
            254 => Error::InvalidEaName,
            255 => Error::EaListInconsistent,
            258 => Error::WaitTimeout,
            259 => Error::NoMoreItems,
            266 => Error::CannotCopy,
            267 => Error::Directory,
            275 => Error::EasDidntFit,
            276 => Error::EaFileCorrupt,
            277 => Error::EaTableFull,
            278 => Error::InvalidEaHandle,
            282 => Error::EasNotSupported,
            288 => Error::NotOwner,
            298 => Error::TooManyPosts,
            299 => Error::PartialCopy,
            300 => Error::OplockNotGranted,
            301 => Error::InvalidOplockProtocol,
            302 => Error::DiskTooFragmented,
            303 => Error::DeletePending,
            304 => Error::IncompatibleWithGlobalShortNameRegistrySetting,
            305 => Error::ShortNamesNotEnabledOnVolume,
            306 => Error::SecurityStreamIsInconsistent,
            307 => Error::InvalidLockRange,
            308 => Error::ImageSubsystemNotPresent,
            309 => Error::NotificationGuidAlreadyDefined,
            310 => Error::InvalidExceptionHandler,
            311 => Error::DuplicatePrivileges,
            312 => Error::NoRangesProcessed,
            313 => Error::NotAllowedOnSystemFile,
            314 => Error::DiskResourcesExhausted,
            315 => Error::InvalidToken,
            316 => Error::DeviceFeatureNotSupported,
            317 => Error::MrMidNotFound,
            318 => Error::ScopeNotFound,
            319 => Error::UndefinedScope,
            320 => Error::InvalidCap,
            321 => Error::DeviceUnreachable,
            322 => Error::DeviceNoResources,
            323 => Error::DataChecksumError,
            324 => Error::IntermixedKernelEaOperation,
            326 => Error::FileLevelTrimNotSupported,
            327 => Error::OffsetAlignmentViolation,
            328 => Error::InvalidFieldInParameterList,
            329 => Error::OperationInProgress,
            330 => Error::BadDevicePath,
            331 => Error::TooManyDescriptors,
            332 => Error::ScrubDataDisabled,
            333 => Error::NotRedundantStorage,
            334 => Error::ResidentFileNotSupported,
            335 => Error::CompressedFileNotSupported,
            336 => Error::DirectoryNotSupported,
            337 => Error::NotReadFromCopy,
            350 => Error::FailNoactionReboot,
            351 => Error::FailShutdown,
            352 => Error::FailRestart,
            353 => Error::MaxSessionsReached,
            400 => Error::ThreadModeAlreadyBackground,
            401 => Error::ThreadModeNotBackground,
            402 => Error::ProcessModeAlreadyBackground,
            403 => Error::ProcessModeNotBackground,
            487 => Error::InvalidAddress,
            618 => Error::UnsupportedCompression,
            6002 => Error::FileEncrypted,
            665 => Error::FileSystemLimitation,
            1392 => Error::FileCorrupt,
            _ => Error::UnknownWindowsError(code),
        }
    }

    /// The fixed description of each error.
    pub open spec fn spec_message(&self) -> Seq<char> {
        match *self {
            Error::MountDriveDetection => "Failed to detect the mount drive."@,
            Error::UnknownFileExtension => "Failed to detect file extension."@,
            Error::UnknownWindowsError(_) => "Failed to attach virtual disk: the host reported a status code unknown to this library."@,
            Error::UnsupportedCompression => "The specified compression format is unsupported."@,
            Error::FileEncrypted => "The specified file is encrypted and the user does not have the ability to decrypt it."@,
            Error::FileSystemLimitation => "The requested operation could not be completed due to a file system limitation."@,
            Error::FileCorrupt => "The file or directory is corrupted and unreadable."@,
            Error::InvalidFunction => "Incorrect function."@,
            Error::FileNotFound => "The system cannot find the file specified."@,
            Error::PathNotFound => "The system cannot find the path specified."@,
            Error::TooManyOpenFiles => "The system cannot open the file."@,
            Error::AccessDenied => "Access is denied."@,
            Error::InvalidHandle => "The handle is invalid."@,
            Error::ArenaTrashed => "The storage control blocks were destroyed."@,
            Error::NotEnoughMemory => "Not enough memory resources are available to process this command."@,
            Error::InvalidBlock => "The storage control block address is invalid."@,
            Error::BadEnvironment => "The environment is incorrect."@,
            Error::BadFormat => "An attempt was made to load a program with an incorrect format."@,
            Error::InvalidAccess => "The access code is invalid."@,
            Error::InvalidData => "The data is invalid."@,
            Error::Outofmemory => "Not enough storage is available to complete this operation."@,
            Error::InvalidDrive => "The system cannot find the drive specified."@,
            Error::CurrentDirectory => "The directory cannot be removed."@,
            Error::NotSameDevice => "The system cannot move the file to a different disk drive."@,
            Error::NoMoreFiles => "There are no more files."@,
            Error::WriteProtect => "The media is write protected."@,
            Error::BadUnit => "The system cannot find the device specified."@,
            Error::NotReady => "The device is not ready."@,
            Error::BadCommand => "The device does not recognize the command."@,
            Error::Crc => "Data error (cyclic redundancy check)."@,
            Error::BadLength => "The program issued a command but the command length is incorrect."@,
            Error::Seek => "The drive cannot locate a specific area or track on the disk."@,
            Error::NotDosDisk => "The specified disk or diskette cannot be accessed."@,
            Error::SectorNotFound => "The drive cannot find the sector requested."@,
            Error::OutOfPaper => "The printer is out of paper."@,
            Error::WriteFault => "The system cannot write to the specified device."@,
            Error::ReadFault => "The system cannot read from the specified device."@,
            Error::GenFailure => "A device attached to the system is not functioning."@,
            Error::SharingViolation => "The process cannot access the file because it is being used by another process."@,
            Error::LockViolation => "The process cannot access the file because another process has locked a portion of the file."@,
            Error::WrongDisk => "The wrong diskette is in the drive. Insert %2 (Volume Serial Number: %3) into drive %1."@,
            Error::SharingBufferExceeded => "Too many files opened for sharing."@,
            Error::HandleEof => "Reached the end of the file."@,
            Error::HandleDiskFull => "The disk is full."@,
            Error::NotSupported => "The request is not supported."@,
            Error::RemNotList => "Windows cannot find the network path. Verify that the network path is correct and the destination computer is not busy or turned off. If Windows still cannot find the network path, contact your network administrator."@,
            Error::DupName => "You were not connected because a duplicate name exists on the network. If joining a domain, go to System in Control Panel to change the computer name and try again. If joining a workgroup, choose another workgroup name."@,
            Error::BadNetpath => "The network path was not found."@,
            Error::NetworkBusy => "The network is busy."@,
            Error::DevNotExist => "The specified network resource or device is no longer available."@,
            Error::TooManyCmds => "The network BIOS command limit has been reached."@,
            Error::AdapHdwErr => "A network adapter hardware error occurred."@,
            Error::BadNetResp => "The specified server cannot perform the requested operation."@,
            Error::UnexpNetErr => "An unexpected network error occurred."@,
            Error::BadRemAdap => "The remote adapter is not compatible."@,
            Error::PrintqFull => "The printer queue is full."@,
            Error::NoSpoolSpace => "Space to store the file waiting to be printed is not available on the server."@,
            Error::PrintCancelled => "Your file waiting to be printed was deleted."@,
            Error::NetnameDeleted => "The specified network name is no longer available."@,
            Error::NetworkAccessDenied => "Network access is denied."@,
            Error::BadDevType => "The network resource type is not correct."@,
            Error::BadNetName => "The network name cannot be found."@,
            Error::TooManyNames => "The name limit for the local computer network adapter card was exceeded."@,
            Error::TooManySess => "The network BIOS session limit was exceeded."@,
            Error::SharingPaused => "The remote server has been paused or is in the process of being started."@,
            Error::ReqNotAccep => "No more connections can be made to this remote computer at this time because there are already as many connections as the computer can accept."@,
            Error::RedirPaused => "The specified printer or disk device has been paused."@,
            Error::FileExists => "The file exists."@,
            Error::CannotMake => "The directory or file cannot be created."@,
            Error::FailI24 => "Fail on INT 24."@,
            Error::OutOfStructures => "Storage to process this request is not available."@,
            Error::AlreadyAssigned => "The local device name is already in use."@,
            Error::InvalidPassword => "The specified network password is not correct."@,
            Error::InvalidParameter => "The parameter is incorrect."@,
            Error::NetWriteFault => "A write fault occurred on the network."@,
            Error::NoProcSlots => "The system cannot start another process at this time."@,
            Error::TooManySemaphores => "Cannot create another system semaphore."@,
            Error::ExclSemAlreadyOwned => "The exclusive semaphore is owned by another process."@,
            Error::SemIsSet => "The semaphore is set and cannot be closed."@,
            Error::TooManySemRequests => "The semaphore cannot be set again."@,
            Error::InvalidAtInterruptTime => "Cannot request exclusive semaphores at interrupt time."@,
            Error::SemOwnerDied => "The previous ownership of this semaphore has ended."@,
            Error::SemUserLimit => "Insert the diskette for drive %1."@,
            Error::DiskChange => "The program stopped because an alternate diskette was not inserted."@,
            Error::DriveLocked => "The disk is in use or locked by another process."@,
            Error::BrokenPipe => "The pipe has been ended."@,
            Error::OpenFailed => "The system cannot open the device or file specified."@,
            Error::BufferOverflow => "The file name is too long."@,
            Error::DiskFull => "There is not enough space on the disk."@,
            Error::NoMoreSearchHandles => "No more internal file identifiers available."@,
            Error::InvalidTargetHandle => "The target internal file identifier is incorrect."@,
            Error::InvalidCategory => "The IOCTL call made by the application program is not correct."@,
            Error::InvalidVerifySwitch => "The verify-on-write switch parameter value is not correct."@,
            Error::BadDriverLevel => "The system does not support the command requested."@,
            Error::CallNotImplemented => "This function is not supported on this system."@,
            Error::SemTimeout => "The semaphore timeout period has expired."@,
            Error::InsufficientBuffer => "The data area passed to a system call is too small."@,
            Error::InvalidName => "The filename, directory name, or volume label syntax is incorrect."@,
            Error::InvalidLevel => "The system call level is not correct."@,
            Error::NoVolumeLabel => "The disk has no volume label."@,
            Error::ModNotFound => "The specified module could not be found."@,
            Error::ProcNotFound => "The specified procedure could not be found."@,
            Error::WaitNoChildren => "There are no child processes to wait for."@,
            Error::ChildNotComplete => "The %1 application cannot be run in Win32 mode."@,
            Error::DirectAccessHandle => "Attempt to use a file handle to an open disk partition for an operation other than raw disk I/O."@,
            Error::NegativeSeek => "An attempt was made to move the file pointer before the beginning of the file."@,
            Error::SeekOnDevice => "The file pointer cannot be set on the specified device or file."@,
            Error::IsJoinTarget => "A JOIN or SUBST command cannot be used for a drive that contains previously joined drives."@,
            Error::IsJoined => "An attempt was made to use a JOIN or SUBST command on a drive that has already been joined."@,
            Error::IsSubsted => "An attempt was made to use a JOIN or SUBST command on a drive that has already been substituted."@,
            Error::NotJoined => "The system tried to delete the JOIN of a drive that is not joined."@,
            Error::NotSubsted => "The system tried to delete the substitution of a drive that is not substituted."@,
            Error::JoinToJoin => "The system tried to join a drive to a directory on a joined drive."@,
            Error::SubstToSubst => "The system tried to substitute a drive to a directory on a substituted drive."@,
            Error::JoinToSubst => "The system tried to join a drive to a directory on a substituted drive."@,
            Error::SubstToJoin => "The system tried to SUBST a drive to a directory on a joined drive."@,
            Error::BusyDrive => "The system cannot perform a JOIN or SUBST at this time."@,
            Error::SameDrive => "The system cannot join or substitute a drive to or for a directory on the same drive."@,
            Error::DirNotRoot => "The directory is not a subdirectory of the root directory."@,
            Error::DirNotEmpty => "The directory is not empty."@,
            Error::IsSubstPath => "The path specified is being used in a substitute."@,
            Error::IsJoinPath => "Not enough resources are available to process this command."@,
            Error::PathBusy => "The path specified cannot be used at this time."@,
            Error::IsSubstTarget => "An attempt was made to join or substitute a drive for which a directory on the drive is the target of a previous substitute."@,
            Error::SystemTrace => "System trace information was not specified in your CONFIG.SYS file, or tracing is disallowed."@,
            Error::InvalidEventCount => "The number of specified semaphore events for DosMuxSemWait is not correct."@,
            Error::TooManyMuxwaiters => "DosMuxSemWait did not execute; too many semaphores are already set."@,
            Error::InvalidListFormat => "The DosMuxSemWait list is not correct."@,
            Error::LabelTooLong => "The volume label you entered exceeds the label character limit of the target file system."@,
            Error::TooManyTcbs => "Cannot create another thread."@,
            Error::SignalRefused => "The recipient process has refused the signal."@,
            Error::Discarded => "The segment is already discarded and cannot be locked."@,
            Error::NotLocked => "The segment is already unlocked."@,
            Error::BadThreadidAddr => "The address for the thread ID is not correct."@,
            Error::BadArguments => "One or more arguments are not correct."@,
            Error::BadPathname => "The specified path is invalid."@,
            Error::SignalPending => "A signal is already pending."@,
            Error::MaxThrdsReached => "No more threads can be created in the system."@,
            Error::LockFailed => "Unable to lock a region of a file."@,
            Error::Busy => "The requested resource is in use."@,
            Error::DeviceSupportInProgress => "Device's command support detection is in progress."@,
            Error::CancelViolation => "A lock request was not outstanding for the supplied cancel region."@,
            Error::AtomicLocksNotSupported => "The file system does not support atomic changes to the lock type."@,
            Error::InvalidSegmentNumber => "The system detected a segment number that was not correct."@,
            Error::InvalidOrdinal => "The operating system cannot run %1."@,
            Error::AlreadyExists => "Cannot create a file when that file already exists."@,
            Error::InvalidFlagNumber => "The flag passed is not correct."@,
            Error::SemNotFound => "The specified system semaphore name was not found."@,
            Error::InvalidStartingCodeseg => "The operating system cannot run %1."@,
            Error::InvalidStackseg => "The operating system cannot run %1."@,
            Error::InvalidModuletype => "The operating system cannot run %1."@,
            Error::InvalidExeSignature => "Cannot run %1 in Win32 mode."@,
            Error::ExeMarkedInvalid => "The operating system cannot run %1."@,
            Error::BadExeFormat => "%1 is not a valid Win32 application."@,
            Error::IteratedDataExceeds64k => "The operating system cannot run %1."@,
            Error::InvalidMinallocsize => "The operating system cannot run %1."@,
            Error::DynlinkFromInvalidRing => "The operating system cannot run this application program."@,
            Error::IoplNotEnabled => "The operating system is not presently configured to run this application."@,
            Error::InvalidSegdpl => "The operating system cannot run %1."@,
            Error::AutodatasegExceeds64k => "The operating system cannot run this application program."@,
            Error::Ring2segMustBeMovable => "The code segment cannot be greater than or equal to 64K."@,
            Error::RelocChainXeedsSeglim => "The operating system cannot run %1."@,
            Error::InfloopInRelocChain => "The operating system cannot run %1."@,
            Error::EnvvarNotFound => "The system could not find the environment option that was entered."@,
            Error::NoSignalSent => "No process in the command subtree has a signal handler."@,
            Error::FilenameExcedRange => "The filename or extension is too long."@,
            Error::Ring2StackInUse => "The ring 2 stack is in use."@,
            Error::MetaExpansionTooLong => "The global filename characters, * or ?, are entered incorrectly or too many global filename characters are specified."@,
            Error::InvalidSignalNumber => "The signal being posted is not correct."@,
            Error::Thread1Inactive => "The signal handler cannot be set."@,
            Error::Locked => "The segment is locked and cannot be reallocated."@,
            Error::TooManyModules => "Too many dynamic-link modules are attached to this program or dynamic-link module."@,
            Error::NestingNotAllowed => "Cannot nest calls to LoadModule."@,
            Error::ExeMachineTypeMismatch => "This version of %1 is not compatible with the version of Windows you're running. Check your computer's system information and then contact the software publisher."@,
            Error::ExeCannotModifySignedBinary => "The image file %1 is signed, unable to modify."@,
            Error::ExeCannotModifyStrongSignedBinary => "The image file %1 is strong signed, unable to modify."@,
            Error::FileCheckedOut => "This file is checked out or locked for editing by another user."@,
            Error::CheckoutRequired => "The file must be checked out before saving changes."@,
            Error::BadFileType => "The file type being saved or retrieved has been blocked."@,
            Error::FileTooLarge => "The file size exceeds the limit allowed and cannot be saved."@,
            Error::FormsAuthRequired => "Access Denied. Before opening files in this location, you must first add the web site to your trusted sites list, browse to the web site, and select the option to login automatically."@,
            Error::VirusInfected => "Operation did not complete successfully because the file contains a virus or potentially unwanted software."@,
            Error::VirusDeleted => "This file contains a virus or potentially unwanted software and cannot be opened. Due to the nature of this virus or potentially unwanted software, the file has been removed from this location."@,
            Error::PipeLocal => "The pipe is local."@,
            Error::BadPipe => "The pipe state is invalid."@,
            Error::PipeBusy => "All pipe instances are busy."@,
            Error::NoData => "The pipe is being closed."@,
            Error::PipeNotConnected => "No process is on the other end of the pipe."@,
            Error::MoreData => "More data is available."@,
            Error::VcDisconnected => "The session was canceled."@,
            Error::InvalidEaName => "The specified extended attribute name was invalid."@,
            Error::EaListInconsistent => "The extended attributes are inconsistent."@,
            Error::WaitTimeout => "The wait operation timed out."@,
            Error::NoMoreItems => "No more data is available."@,
            Error::CannotCopy => "The copy functions cannot be used."@,
            Error::Directory => "The directory name is invalid."@,
            Error::EasDidntFit => "The extended attributes did not fit in the buffer."@,
            Error::EaFileCorrupt => "The extended attribute file on the mounted file system is corrupt."@,
            Error::EaTableFull => "The extended attribute table file is full."@,
            Error::InvalidEaHandle => "The specified extended attribute handle is invalid."@,
            Error::EasNotSupported => "The mounted file system does not support extended attributes."@,
            Error::NotOwner => "Attempt to release mutex not owned by caller."@,
            Error::TooManyPosts => "Too many posts were made to a semaphore."@,
            Error::PartialCopy => "Only part of a ReadProcessMemory or WriteProcessMemory request was completed."@,
            Error::OplockNotGranted => "The oplock request is denied."@,
            Error::InvalidOplockProtocol => "An invalid oplock acknowledgment was received by the system."@,
            Error::DiskTooFragmented => "The volume is too fragmented to complete this operation."@,
            Error::DeletePending => "The file cannot be opened because it is in the process of being deleted."@,
            Error::IncompatibleWithGlobalShortNameRegistrySetting => "Short name settings may not be changed on this volume due to the global registry setting."@,
            Error::ShortNamesNotEnabledOnVolume => "Short names are not enabled on this volume."@,
            Error::SecurityStreamIsInconsistent => "The security stream for the given volume is in an inconsistent state. Please run CHKDSK on the volume."@,
            Error::InvalidLockRange => "A requested file lock operation cannot be processed due to an invalid byte range."@,
            Error::ImageSubsystemNotPresent => "The subsystem needed to support the image type is not present."@,
            Error::NotificationGuidAlreadyDefined => "The specified file already has a notification GUID associated with it."@,
            Error::InvalidExceptionHandler => "An invalid exception handler routine has been detected."@,
            Error::DuplicatePrivileges => "Duplicate privileges were specified for the token."@,
            Error::NoRangesProcessed => "No ranges for the specified operation were able to be processed."@,
            Error::NotAllowedOnSystemFile => "Operation is not allowed on a file system internal file."@,
            Error::DiskResourcesExhausted => "The physical resources of this disk have been exhausted."@,
            Error::InvalidToken => "The token representing the data is invalid."@,
            Error::DeviceFeatureNotSupported => "The device does not support the command feature."@,
            Error::MrMidNotFound => "The system cannot find message text for message number 0x%1 in the message file for %2."@,
            Error::ScopeNotFound => "The scope specified was not found."@,
            Error::UndefinedScope => "The Central Access Policy specified is not defined on the target machine."@,
            Error::InvalidCap => "The Central Access Policy obtained from Active Directory is invalid."@,
            Error::DeviceUnreachable => "The device is unreachable."@,
            Error::DeviceNoResources => "The target device has insufficient resources to complete the operation."@,
            Error::DataChecksumError => "A data integrity checksum error occurred. Data in the file stream is corrupt."@,
            Error::IntermixedKernelEaOperation => "An attempt was made to modify both a KERNEL and normal Extended Attribute (EA) in the same operation."@,
            Error::FileLevelTrimNotSupported => "Device does not support file-level TRIM."@,
            Error::OffsetAlignmentViolation => "The command specified a data offset that does not align to the device's granularity/alignment."@,
            Error::InvalidFieldInParameterList => "The command specified an invalid field in its parameter list."@,
            Error::OperationInProgress => "An operation is currently in progress with the device."@,
            Error::BadDevicePath => "An attempt was made to send down the command via an invalid path to the target device."@,
            Error::TooManyDescriptors => "The command specified a number of descriptors that exceeded the maximum supported by the device."@,
            Error::ScrubDataDisabled => "Scrub is disabled on the specified file."@,
            Error::NotRedundantStorage => "The storage device does not provide redundancy."@,
            Error::ResidentFileNotSupported => "An operation is not supported on a resident file."@,
            Error::CompressedFileNotSupported => "An operation is not supported on a compressed file."@,
            Error::DirectoryNotSupported => "An operation is not supported on a directory."@,
            Error::NotReadFromCopy => "The specified copy of the requested data could not be read."@,
            Error::FailNoactionReboot => "No action was taken as a system reboot is required."@,
            Error::FailShutdown => "The shutdown operation failed."@,
            Error::FailRestart => "The restart operation failed."@,
            Error::MaxSessionsReached => "The maximum number of sessions has been reached."@,
            Error::ThreadModeAlreadyBackground => "The thread is already in background processing mode."@,
            Error::ThreadModeNotBackground => "The thread is not in background processing mode."@,
            Error::ProcessModeAlreadyBackground => "The process is already in background processing mode."@,
            Error::ProcessModeNotBackground => "The process is not in background processing mode."@,
            Error::InvalidAddress => "Attempt to access invalid address."@,
        }
    }

    /// A human-readable description of the error. For the catch-all variant
    /// the raw code is carried by the variant itself.
    pub fn message(&self) -> (r: &'static str)
        ensures
            r@ == self.spec_message(),
    {
        match *self {
            Error::MountDriveDetection => "Failed to detect the mount drive.",
            Error::UnknownFileExtension => "Failed to detect file extension.",
            Error::UnknownWindowsError(_) => "Failed to attach virtual disk: the host reported a status code unknown to this library.",
            Error::UnsupportedCompression => "The specified compression format is unsupported.",
            Error::FileEncrypted => "The specified file is encrypted and the user does not have the ability to decrypt it.",
            Error::FileSystemLimitation => "The requested operation could not be completed due to a file system limitation.",
            Error::FileCorrupt => "The file or directory is corrupted and unreadable.",
            Error::InvalidFunction => "Incorrect function.",
            Error::FileNotFound => "The system cannot find the file specified.",
            Error::PathNotFound => "The system cannot find the path specified.",
            Error::TooManyOpenFiles => "The system cannot open the file.",
            Error::AccessDenied => "Access is denied.",
            Error::InvalidHandle => "The handle is invalid.",
            Error::ArenaTrashed => "The storage control blocks were destroyed.",
            Error::NotEnoughMemory => "Not enough memory resources are available to process this command.",
            Error::InvalidBlock => "The storage control block address is invalid.",
            Error::BadEnvironment => "The environment is incorrect.",
            Error::BadFormat => "An attempt was made to load a program with an incorrect format.",
            Error::InvalidAccess => "The access code is invalid.",
            Error::InvalidData => "The data is invalid.",
            Error::Outofmemory => "Not enough storage is available to complete this operation.",
            Error::InvalidDrive => "The system cannot find the drive specified.",
            Error::CurrentDirectory => "The directory cannot be removed.",
            Error::NotSameDevice => "The system cannot move the file to a different disk drive.",
            Error::NoMoreFiles => "There are no more files.",
            Error::WriteProtect => "The media is write protected.",
            Error::BadUnit => "The system cannot find the device specified.",
            Error::NotReady => "The device is not ready.",
            Error::BadCommand => "The device does not recognize the command.",
            Error::Crc => "Data error (cyclic redundancy check).",
            Error::BadLength => "The program issued a command but the command length is incorrect.",
            Error::Seek => "The drive cannot locate a specific area or track on the disk.",
            Error::NotDosDisk => "The specified disk or diskette cannot be accessed.",
            Error::SectorNotFound => "The drive cannot find the sector requested.",
            Error::OutOfPaper => "The printer is out of paper.",
            Error::WriteFault => "The system cannot write to the specified device.",
            Error::ReadFault => "The system cannot read from the specified device.",
            Error::GenFailure => "A device attached to the system is not functioning.",
            Error::SharingViolation => "The process cannot access the file because it is being used by another process.",
            Error::LockViolation => "The process cannot access the file because another process has locked a portion of the file.",
            Error::WrongDisk => "The wrong diskette is in the drive. Insert %2 (Volume Serial Number: %3) into drive %1.",
            Error::SharingBufferExceeded => "Too many files opened for sharing.",
            Error::HandleEof => "Reached the end of the file.",
            Error::HandleDiskFull => "The disk is full.",
            Error::NotSupported => "The request is not supported.",
            Error::RemNotList => "Windows cannot find the network path. Verify that the network path is correct and the destination computer is not busy or turned off. If Windows still cannot find the network path, contact your network administrator.",
            Error::DupName => "You were not connected because a duplicate name exists on the network. If joining a domain, go to System in Control Panel to change the computer name and try again. If joining a workgroup, choose another workgroup name.",
            Error::BadNetpath => "The network path was not found.",
            Error::NetworkBusy => "The network is busy.",
            Error::DevNotExist => "The specified network resource or device is no longer available.",
            Error::TooManyCmds => "The network BIOS command limit has been reached.",
            Error::AdapHdwErr => "A network adapter hardware error occurred.",
            Error::BadNetResp => "The specified server cannot perform the requested operation.",
            Error::UnexpNetErr => "An unexpected network error occurred.",
            Error::BadRemAdap => "The remote adapter is not compatible.",
            Error::PrintqFull => "The printer queue is full.",
            Error::NoSpoolSpace => "Space to store the file waiting to be printed is not available on the server.",
            Error::PrintCancelled => "Your file waiting to be printed was deleted.",
            Error::NetnameDeleted => "The specified network name is no longer available.",
            Error::NetworkAccessDenied => "Network access is denied.",
            Error::BadDevType => "The network resource type is not correct.",
            Error::BadNetName => "The network name cannot be found.",
            Error::TooManyNames => "The name limit for the local computer network adapter card was exceeded.",
            Error::TooManySess => "The network BIOS session limit was exceeded.",
            Error::SharingPaused => "The remote server has been paused or is in the process of being started.",
            Error::ReqNotAccep => "No more connections can be made to this remote computer at this time because there are already as many connections as the computer can accept.",
            Error::RedirPaused => "The specified printer or disk device has been paused.",
            Error::FileExists => "The file exists.",
            Error::CannotMake => "The directory or file cannot be created.",
            Error::FailI24 => "Fail on INT 24.",
            Error::OutOfStructures => "Storage to process this request is not available.",
            Error::AlreadyAssigned => "The local device name is already in use.",
            Error::InvalidPassword => "The specified network password is not correct.",
            Error::InvalidParameter => "The parameter is incorrect.",
            Error::NetWriteFault => "A write fault occurred on the network.",
            Error::NoProcSlots => "The system cannot start another process at this time.",
            Error::TooManySemaphores => "Cannot create another system semaphore.",
            Error::ExclSemAlreadyOwned => "The exclusive semaphore is owned by another process.",
            Error::SemIsSet => "The semaphore is set and cannot be closed.",
            Error::TooManySemRequests => "The semaphore cannot be set again.",
            Error::InvalidAtInterruptTime => "Cannot request exclusive semaphores at interrupt time.",
            Error::SemOwnerDied => "The previous ownership of this semaphore has ended.",
            Error::SemUserLimit => "Insert the diskette for drive %1.",
            Error::DiskChange => "The program stopped because an alternate diskette was not inserted.",
            Error::DriveLocked => "The disk is in use or locked by another process.",
            Error::BrokenPipe => "The pipe has been ended.",
            Error::OpenFailed => "The system cannot open the device or file specified.",
            Error::BufferOverflow => "The file name is too long.",
            Error::DiskFull => "There is not enough space on the disk.",
            Error::NoMoreSearchHandles => "No more internal file identifiers available.",
            Error::InvalidTargetHandle => "The target internal file identifier is incorrect.",
            Error::InvalidCategory => "The IOCTL call made by the application program is not correct.",
            Error::InvalidVerifySwitch => "The verify-on-write switch parameter value is not correct.",
            Error::BadDriverLevel => "The system does not support the command requested.",
            Error::CallNotImplemented => "This function is not supported on this system.",
            Error::SemTimeout => "The semaphore timeout period has expired.",
            Error::InsufficientBuffer => "The data area passed to a system call is too small.",
            Error::InvalidName => "The filename, directory name, or volume label syntax is incorrect.",
            Error::InvalidLevel => "The system call level is not correct.",
            Error::NoVolumeLabel => "The disk has no volume label.",
            Error::ModNotFound => "The specified module could not be found.",
            Error::ProcNotFound => "The specified procedure could not be found.",
            Error::WaitNoChildren => "There are no child processes to wait for.",
            Error::ChildNotComplete => "The %1 application cannot be run in Win32 mode.",
            Error::DirectAccessHandle => "Attempt to use a file handle to an open disk partition for an operation other than raw disk I/O.",
            Error::NegativeSeek => "An attempt was made to move the file pointer before the beginning of the file.",
            Error::SeekOnDevice => "The file pointer cannot be set on the specified device or file.",
            Error::IsJoinTarget => "A JOIN or SUBST command cannot be used for a drive that contains previously joined drives.",
            Error::IsJoined => "An attempt was made to use a JOIN or SUBST command on a drive that has already been joined.",
            Error::IsSubsted => "An attempt was made to use a JOIN or SUBST command on a drive that has already been substituted.",
            Error::NotJoined => "The system tried to delete the JOIN of a drive that is not joined.",
            Error::NotSubsted => "The system tried to delete the substitution of a drive that is not substituted.",
            Error::JoinToJoin => "The system tried to join a drive to a directory on a joined drive.",
            Error::SubstToSubst => "The system tried to substitute a drive to a directory on a substituted drive.",
            Error::JoinToSubst => "The system tried to join a drive to a directory on a substituted drive.",
            Error::SubstToJoin => "The system tried to SUBST a drive to a directory on a joined drive.",
            Error::BusyDrive => "The system cannot perform a JOIN or SUBST at this time.",
            Error::SameDrive => "The system cannot join or substitute a drive to or for a directory on the same drive.",
            Error::DirNotRoot => "The directory is not a subdirectory of the root directory.",
            Error::DirNotEmpty => "The directory is not empty.",
            Error::IsSubstPath => "The path specified is being used in a substitute.",
            Error::IsJoinPath => "Not enough resources are available to process this command.",
            Error::PathBusy => "The path specified cannot be used at this time.",
            Error::IsSubstTarget => "An attempt was made to join or substitute a drive for which a directory on the drive is the target of a previous substitute.",
            Error::SystemTrace => "System trace information was not specified in your CONFIG.SYS file, or tracing is disallowed.",
            Error::InvalidEventCount => "The number of specified semaphore events for DosMuxSemWait is not correct.",
            Error::TooManyMuxwaiters => "DosMuxSemWait did not execute; too many semaphores are already set.",
            Error::InvalidListFormat => "The DosMuxSemWait list is not correct.",
            Error::LabelTooLong => "The volume label you entered exceeds the label character limit of the target file system.",
            Error::TooManyTcbs => "Cannot create another thread.",
            Error::SignalRefused => "The recipient process has refused the signal.",
            Error::Discarded => "The segment is already discarded and cannot be locked.",
            Error::NotLocked => "The segment is already unlocked.",
            Error::BadThreadidAddr => "The address for the thread ID is not correct.",
            Error::BadArguments => "One or more arguments are not correct.",
            Error::BadPathname => "The specified path is invalid.",
            Error::SignalPending => "A signal is already pending.",
            Error::MaxThrdsReached => "No more threads can be created in the system.",
            Error::LockFailed => "Unable to lock a region of a file.",
            Error::Busy => "The requested resource is in use.",
            Error::DeviceSupportInProgress => "Device's command support detection is in progress.",
            Error::CancelViolation => "A lock request was not outstanding for the supplied cancel region.",
            Error::AtomicLocksNotSupported => "The file system does not support atomic changes to the lock type.",
            Error::InvalidSegmentNumber => "The system detected a segment number that was not correct.",
            Error::InvalidOrdinal => "The operating system cannot run %1.",
            Error::AlreadyExists => "Cannot create a file when that file already exists.",
            Error::InvalidFlagNumber => "The flag passed is not correct.",
            Error::SemNotFound => "The specified system semaphore name was not found.",
            Error::InvalidStartingCodeseg => "The operating system cannot run %1.",
            Error::InvalidStackseg => "The operating system cannot run %1.",
            Error::InvalidModuletype => "The operating system cannot run %1.",
            Error::InvalidExeSignature => "Cannot run %1 in Win32 mode.",
            Error::ExeMarkedInvalid => "The operating system cannot run %1.",
            Error::BadExeFormat => "%1 is not a valid Win32 application.",
            Error::IteratedDataExceeds64k => "The operating system cannot run %1.",
            Error::InvalidMinallocsize => "The operating system cannot run %1.",
            Error::DynlinkFromInvalidRing => "The operating system cannot run this application program.",
            Error::IoplNotEnabled => "The operating system is not presently configured to run this application.",
            Error::InvalidSegdpl => "The operating system cannot run %1.",
            Error::AutodatasegExceeds64k => "The operating system cannot run this application program.",
            Error::Ring2segMustBeMovable => "The code segment cannot be greater than or equal to 64K.",
            Error::RelocChainXeedsSeglim => "The operating system cannot run %1.",
            Error::InfloopInRelocChain => "The operating system cannot run %1.",
            Error::EnvvarNotFound => "The system could not find the environment option that was entered.",
            Error::NoSignalSent => "No process in the command subtree has a signal handler.",
            Error::FilenameExcedRange => "The filename or extension is too long.",
            Error::Ring2StackInUse => "The ring 2 stack is in use.",
            Error::MetaExpansionTooLong => "The global filename characters, * or ?, are entered incorrectly or too many global filename characters are specified.",
            Error::InvalidSignalNumber => "The signal being posted is not correct.",
            Error::Thread1Inactive => "The signal handler cannot be set.",
            Error::Locked => "The segment is locked and cannot be reallocated.",
            Error::TooManyModules => "Too many dynamic-link modules are attached to this program or dynamic-link module.",
            Error::NestingNotAllowed => "Cannot nest calls to LoadModule.",
            Error::ExeMachineTypeMismatch => "This version of %1 is not compatible with the version of Windows you're running. Check your computer's system information and then contact the software publisher.",
            Error::ExeCannotModifySignedBinary => "The image file %1 is signed, unable to modify.",
            Error::ExeCannotModifyStrongSignedBinary => "The image file %1 is strong signed, unable to modify.",
            Error::FileCheckedOut => "This file is checked out or locked for editing by another user.",
            Error::CheckoutRequired => "The file must be checked out before saving changes.",
            Error::BadFileType => "The file type being saved or retrieved has been blocked.",
            Error::FileTooLarge => "The file size exceeds the limit allowed and cannot be saved.",
            Error::FormsAuthRequired => "Access Denied. Before opening files in this location, you must first add the web site to your trusted sites list, browse to the web site, and select the option to login automatically.",
            Error::VirusInfected => "Operation did not complete successfully because the file contains a virus or potentially unwanted software.",
            Error::VirusDeleted => "This file contains a virus or potentially unwanted software and cannot be opened. Due to the nature of this virus or potentially unwanted software, the file has been removed from this location.",
            Error::PipeLocal => "The pipe is local.",
            Error::BadPipe => "The pipe state is invalid.",
            Error::PipeBusy => "All pipe instances are busy.",
            Error::NoData => "The pipe is being closed.",
            Error::PipeNotConnected => "No process is on the other end of the pipe.",
            Error::MoreData => "More data is available.",
            Error::VcDisconnected => "The session was canceled.",
            Error::InvalidEaName => "The specified extended attribute name was invalid.",
            Error::EaListInconsistent => "The extended attributes are inconsistent.",
            Error::WaitTimeout => "The wait operation timed out.",
            Error::NoMoreItems => "No more data is available.",
            Error::CannotCopy => "The copy functions cannot be used.",
            Error::Directory => "The directory name is invalid.",
            Error::EasDidntFit => "The extended attributes did not fit in the buffer.",
            Error::EaFileCorrupt => "The extended attribute file on the mounted file system is corrupt.",
            Error::EaTableFull => "The extended attribute table file is full.",
            Error::InvalidEaHandle => "The specified extended attribute handle is invalid.",
            Error::EasNotSupported => "The mounted file system does not support extended attributes.",
            Error::NotOwner => "Attempt to release mutex not owned by caller.",
            Error::TooManyPosts => "Too many posts were made to a semaphore.",
            Error::PartialCopy => "Only part of a ReadProcessMemory or WriteProcessMemory request was completed.",
            Error::OplockNotGranted => "The oplock request is denied.",
            Error::InvalidOplockProtocol => "An invalid oplock acknowledgment was received by the system.",
            Error::DiskTooFragmented => "The volume is too fragmented to complete this operation.",
            Error::DeletePending => "The file cannot be opened because it is in the process of being deleted.",
            Error::IncompatibleWithGlobalShortNameRegistrySetting => "Short name settings may not be changed on this volume due to the global registry setting.",
            Error::ShortNamesNotEnabledOnVolume => "Short names are not enabled on this volume.",
            Error::SecurityStreamIsInconsistent => "The security stream for the given volume is in an inconsistent state. Please run CHKDSK on the volume.",
            Error::InvalidLockRange => "A requested file lock operation cannot be processed due to an invalid byte range.",
            Error::ImageSubsystemNotPresent => "The subsystem needed to support the image type is not present.",
            Error::NotificationGuidAlreadyDefined => "The specified file already has a notification GUID associated with it.",
            Error::InvalidExceptionHandler => "An invalid exception handler routine has been detected.",
            Error::DuplicatePrivileges => "Duplicate privileges were specified for the token.",
            Error::NoRangesProcessed => "No ranges for the specified operation were able to be processed.",
            Error::NotAllowedOnSystemFile => "Operation is not allowed on a file system internal file.",
            Error::DiskResourcesExhausted => "The physical resources of this disk have been exhausted.",
            Error::InvalidToken => "The token representing the data is invalid.",
            Error::DeviceFeatureNotSupported => "The device does not support the command feature.",
            Error::MrMidNotFound => "The system cannot find message text for message number 0x%1 in the message file for %2.",
            Error::ScopeNotFound => "The scope specified was not found.",
            Error::UndefinedScope => "The Central Access Policy specified is not defined on the target machine.",
            Error::InvalidCap => "The Central Access Policy obtained from Active Directory is invalid.",
            Error::DeviceUnreachable => "The device is unreachable.",
            Error::DeviceNoResources => "The target device has insufficient resources to complete the operation.",
            Error::DataChecksumError => "A data integrity checksum error occurred. Data in the file stream is corrupt.",
            Error::IntermixedKernelEaOperation => "An attempt was made to modify both a KERNEL and normal Extended Attribute (EA) in the same operation.",
            Error::FileLevelTrimNotSupported => "Device does not support file-level TRIM.",
            Error::OffsetAlignmentViolation => "The command specified a data offset that does not align to the device's granularity/alignment.",
            Error::InvalidFieldInParameterList => "The command specified an invalid field in its parameter list.",
            Error::OperationInProgress => "An operation is currently in progress with the device.",
            Error::BadDevicePath => "An attempt was made to send down the command via an invalid path to the target device.",
            Error::TooManyDescriptors => "The command specified a number of descriptors that exceeded the maximum supported by the device.",
            Error::ScrubDataDisabled => "Scrub is disabled on the specified file.",
            Error::NotRedundantStorage => "The storage device does not provide redundancy.",
            Error::ResidentFileNotSupported => "An operation is not supported on a resident file.",
            Error::CompressedFileNotSupported => "An operation is not supported on a compressed file.",
            Error::DirectoryNotSupported => "An operation is not supported on a directory.",
            Error::NotReadFromCopy => "The specified copy of the requested data could not be read.",
            Error::FailNoactionReboot => "No action was taken as a system reboot is required.",
            Error::FailShutdown => "The shutdown operation failed.",
            Error::FailRestart => "The restart operation failed.",
            Error::MaxSessionsReached => "The maximum number of sessions has been reached.",
            Error::ThreadModeAlreadyBackground => "The thread is already in background processing mode.",
            Error::ThreadModeNotBackground => "The thread is not in background processing mode.",
            Error::ProcessModeAlreadyBackground => "The process is already in background processing mode.",
            Error::ProcessModeNotBackground => "The process is not in background processing mode.",
            Error::InvalidAddress => "Attempt to access invalid address.",
        }
    }
}

} // verus!
