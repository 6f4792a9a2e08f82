//! Every status code of the translation table maps to its own variant,
//! and codes outside the table are carried raw.

use vhd::Error;

#[test]
fn translates_codes_1_to_30() {
    assert_eq!(Error::from_code(1), Error::InvalidFunction);
    assert_eq!(Error::from_code(2), Error::FileNotFound);
    assert_eq!(Error::from_code(3), Error::PathNotFound);
    assert_eq!(Error::from_code(4), Error::TooManyOpenFiles);
    assert_eq!(Error::from_code(5), Error::AccessDenied);
    assert_eq!(Error::from_code(6), Error::InvalidHandle);
    assert_eq!(Error::from_code(7), Error::ArenaTrashed);
    assert_eq!(Error::from_code(8), Error::NotEnoughMemory);
    assert_eq!(Error::from_code(9), Error::InvalidBlock);
    assert_eq!(Error::from_code(10), Error::BadEnvironment);
    assert_eq!(Error::from_code(11), Error::BadFormat);
    assert_eq!(Error::from_code(12), Error::InvalidAccess);
    assert_eq!(Error::from_code(13), Error::InvalidData);
    assert_eq!(Error::from_code(14), Error::Outofmemory);
    assert_eq!(Error::from_code(15), Error::InvalidDrive);
    assert_eq!(Error::from_code(16), Error::CurrentDirectory);
    assert_eq!(Error::from_code(17), Error::NotSameDevice);
    assert_eq!(Error::from_code(18), Error::NoMoreFiles);
    assert_eq!(Error::from_code(19), Error::WriteProtect);
    assert_eq!(Error::from_code(20), Error::BadUnit);
    assert_eq!(Error::from_code(21), Error::NotReady);
    assert_eq!(Error::from_code(22), Error::BadCommand);
    assert_eq!(Error::from_code(23), Error::Crc);
    assert_eq!(Error::from_code(24), Error::BadLength);
    assert_eq!(Error::from_code(25), Error::Seek);
    assert_eq!(Error::from_code(26), Error::NotDosDisk);
    assert_eq!(Error::from_code(27), Error::SectorNotFound);
    assert_eq!(Error::from_code(28), Error::OutOfPaper);
    assert_eq!(Error::from_code(29), Error::WriteFault);
    assert_eq!(Error::from_code(30), Error::ReadFault);
}

#[test]
fn translates_codes_31_to_72() {
    assert_eq!(Error::from_code(31), Error::GenFailure);
    assert_eq!(Error::from_code(32), Error::SharingViolation);
    assert_eq!(Error::from_code(33), Error::LockViolation);
    assert_eq!(Error::from_code(34), Error::WrongDisk);
    assert_eq!(Error::from_code(36), Error::SharingBufferExceeded);
    assert_eq!(Error::from_code(38), Error::HandleEof);
    assert_eq!(Error::from_code(39), Error::HandleDiskFull);
    assert_eq!(Error::from_code(50), Error::NotSupported);
    assert_eq!(Error::from_code(51), Error::RemNotList);
    assert_eq!(Error::from_code(52), Error::DupName);
    assert_eq!(Error::from_code(53), Error::BadNetpath);
    assert_eq!(Error::from_code(54), Error::NetworkBusy);
    assert_eq!(Error::from_code(55), Error::DevNotExist);
    assert_eq!(Error::from_code(56), Error::TooManyCmds);
    assert_eq!(Error::from_code(57), Error::AdapHdwErr);
    assert_eq!(Error::from_code(58), Error::BadNetResp);
    assert_eq!(Error::from_code(59), Error::UnexpNetErr);
    assert_eq!(Error::from_code(60), Error::BadRemAdap);
    assert_eq!(Error::from_code(61), Error::PrintqFull);
    assert_eq!(Error::from_code(62), Error::NoSpoolSpace);
    assert_eq!(Error::from_code(63), Error::PrintCancelled);
    assert_eq!(Error::from_code(64), Error::NetnameDeleted);
    assert_eq!(Error::from_code(65), Error::NetworkAccessDenied);
    assert_eq!(Error::from_code(66), Error::BadDevType);
    assert_eq!(Error::from_code(67), Error::BadNetName);
    assert_eq!(Error::from_code(68), Error::TooManyNames);
    assert_eq!(Error::from_code(69), Error::TooManySess);
    assert_eq!(Error::from_code(70), Error::SharingPaused);
    assert_eq!(Error::from_code(71), Error::ReqNotAccep);
    assert_eq!(Error::from_code(72), Error::RedirPaused);
}

#[test]
fn translates_codes_80_to_122() {
    assert_eq!(Error::from_code(80), Error::FileExists);
    assert_eq!(Error::from_code(82), Error::CannotMake);
    assert_eq!(Error::from_code(83), Error::FailI24);
    assert_eq!(Error::from_code(84), Error::OutOfStructures);
    assert_eq!(Error::from_code(85), Error::AlreadyAssigned);
    assert_eq!(Error::from_code(86), Error::InvalidPassword);
    assert_eq!(Error::from_code(87), Error::InvalidParameter);
    assert_eq!(Error::from_code(88), Error::NetWriteFault);
    assert_eq!(Error::from_code(89), Error::NoProcSlots);
    assert_eq!(Error::from_code(100), Error::TooManySemaphores);
    assert_eq!(Error::from_code(101), Error::ExclSemAlreadyOwned);
    assert_eq!(Error::from_code(102), Error::SemIsSet);
    assert_eq!(Error::from_code(103), Error::TooManySemRequests);
    assert_eq!(Error::from_code(104), Error::InvalidAtInterruptTime);
    assert_eq!(Error::from_code(105), Error::SemOwnerDied);
    assert_eq!(Error::from_code(106), Error::SemUserLimit);
    assert_eq!(Error::from_code(107), Error::DiskChange);
    assert_eq!(Error::from_code(108), Error::DriveLocked);
    assert_eq!(Error::from_code(109), Error::BrokenPipe);
    assert_eq!(Error::from_code(110), Error::OpenFailed);
    assert_eq!(Error::from_code(111), Error::BufferOverflow);
    assert_eq!(Error::from_code(112), Error::DiskFull);
    assert_eq!(Error::from_code(113), Error::NoMoreSearchHandles);
    assert_eq!(Error::from_code(114), Error::InvalidTargetHandle);
    assert_eq!(Error::from_code(117), Error::InvalidCategory);
    assert_eq!(Error::from_code(118), Error::InvalidVerifySwitch);
    assert_eq!(Error::from_code(119), Error::BadDriverLevel);
    assert_eq!(Error::from_code(120), Error::CallNotImplemented);
    assert_eq!(Error::from_code(121), Error::SemTimeout);
    assert_eq!(Error::from_code(122), Error::InsufficientBuffer);
}

#[test]
fn translates_codes_123_to_152() {
    assert_eq!(Error::from_code(123), Error::InvalidName);
    assert_eq!(Error::from_code(124), Error::InvalidLevel);
    assert_eq!(Error::from_code(125), Error::NoVolumeLabel);
    assert_eq!(Error::from_code(126), Error::ModNotFound);
    assert_eq!(Error::from_code(127), Error::ProcNotFound);
    assert_eq!(Error::from_code(128), Error::WaitNoChildren);
    assert_eq!(Error::from_code(129), Error::ChildNotComplete);
    assert_eq!(Error::from_code(130), Error::DirectAccessHandle);
    assert_eq!(Error::from_code(131), Error::NegativeSeek);
    assert_eq!(Error::from_code(132), Error::SeekOnDevice);
    assert_eq!(Error::from_code(133), Error::IsJoinTarget);
    assert_eq!(Error::from_code(134), Error::IsJoined);
    assert_eq!(Error::from_code(135), Error::IsSubsted);
    assert_eq!(Error::from_code(136), Error::NotJoined);
    assert_eq!(Error::from_code(137), Error::NotSubsted);
    assert_eq!(Error::from_code(138), Error::JoinToJoin);
    assert_eq!(Error::from_code(139), Error::SubstToSubst);
    assert_eq!(Error::from_code(140), Error::JoinToSubst);
    assert_eq!(Error::from_code(141), Error::SubstToJoin);
    assert_eq!(Error::from_code(142), Error::BusyDrive);
    assert_eq!(Error::from_code(143), Error::SameDrive);
    assert_eq!(Error::from_code(144), Error::DirNotRoot);
    assert_eq!(Error::from_code(145), Error::DirNotEmpty);
    assert_eq!(Error::from_code(146), Error::IsSubstPath);
    assert_eq!(Error::from_code(147), Error::IsJoinPath);
    assert_eq!(Error::from_code(148), Error::PathBusy);
    assert_eq!(Error::from_code(149), Error::IsSubstTarget);
    assert_eq!(Error::from_code(150), Error::SystemTrace);
    assert_eq!(Error::from_code(151), Error::InvalidEventCount);
    assert_eq!(Error::from_code(152), Error::TooManyMuxwaiters);
}

#[test]
fn translates_codes_153_to_196() {
    assert_eq!(Error::from_code(153), Error::InvalidListFormat);
    assert_eq!(Error::from_code(154), Error::LabelTooLong);
    assert_eq!(Error::from_code(155), Error::TooManyTcbs);
    assert_eq!(Error::from_code(156), Error::SignalRefused);
    assert_eq!(Error::from_code(157), Error::Discarded);
    assert_eq!(Error::from_code(158), Error::NotLocked);
    assert_eq!(Error::from_code(159), Error::BadThreadidAddr);
    assert_eq!(Error::from_code(160), Error::BadArguments);
    assert_eq!(Error::from_code(161), Error::BadPathname);
    assert_eq!(Error::from_code(162), Error::SignalPending);
    assert_eq!(Error::from_code(164), Error::MaxThrdsReached);
    assert_eq!(Error::from_code(167), Error::LockFailed);
    assert_eq!(Error::from_code(170), Error::Busy);
    assert_eq!(Error::from_code(171), Error::DeviceSupportInProgress);
    assert_eq!(Error::from_code(173), Error::CancelViolation);
    assert_eq!(Error::from_code(174), Error::AtomicLocksNotSupported);
    assert_eq!(Error::from_code(180), Error::InvalidSegmentNumber);
    assert_eq!(Error::from_code(182), Error::InvalidOrdinal);
    assert_eq!(Error::from_code(183), Error::AlreadyExists);
    assert_eq!(Error::from_code(186), Error::InvalidFlagNumber);
    assert_eq!(Error::from_code(187), Error::SemNotFound);
    assert_eq!(Error::from_code(188), Error::InvalidStartingCodeseg);
    assert_eq!(Error::from_code(189), Error::InvalidStackseg);
    assert_eq!(Error::from_code(190), Error::InvalidModuletype);
    assert_eq!(Error::from_code(191), Error::InvalidExeSignature);
    assert_eq!(Error::from_code(192), Error::ExeMarkedInvalid);
    assert_eq!(Error::from_code(193), Error::BadExeFormat);
    assert_eq!(Error::from_code(194), Error::IteratedDataExceeds64k);
    assert_eq!(Error::from_code(195), Error::InvalidMinallocsize);
    assert_eq!(Error::from_code(196), Error::DynlinkFromInvalidRing);
}

#[test]
fn translates_codes_197_to_232() {
    assert_eq!(Error::from_code(197), Error::IoplNotEnabled);
    assert_eq!(Error::from_code(198), Error::InvalidSegdpl);
    assert_eq!(Error::from_code(199), Error::AutodatasegExceeds64k);
    assert_eq!(Error::from_code(200), Error::Ring2segMustBeMovable);
    assert_eq!(Error::from_code(201), Error::RelocChainXeedsSeglim);
    assert_eq!(Error::from_code(202), Error::InfloopInRelocChain);
    assert_eq!(Error::from_code(203), Error::EnvvarNotFound);
    assert_eq!(Error::from_code(205), Error::NoSignalSent);
    assert_eq!(Error::from_code(206), Error::FilenameExcedRange);
    assert_eq!(Error::from_code(207), Error::Ring2StackInUse);
    assert_eq!(Error::from_code(208), Error::MetaExpansionTooLong);
    assert_eq!(Error::from_code(209), Error::InvalidSignalNumber);
    assert_eq!(Error::from_code(210), Error::Thread1Inactive);
    assert_eq!(Error::from_code(212), Error::Locked);
    assert_eq!(Error::from_code(214), Error::TooManyModules);
    assert_eq!(Error::from_code(215), Error::NestingNotAllowed);
    assert_eq!(Error::from_code(216), Error::ExeMachineTypeMismatch);
    assert_eq!(Error::from_code(217), Error::ExeCannotModifySignedBinary);
    assert_eq!(Error::from_code(218), Error::ExeCannotModifyStrongSignedBinary);
    assert_eq!(Error::from_code(220), Error::FileCheckedOut);
    assert_eq!(Error::from_code(221), Error::CheckoutRequired);
    assert_eq!(Error::from_code(222), Error::BadFileType);
    assert_eq!(Error::from_code(223), Error::FileTooLarge);
    assert_eq!(Error::from_code(224), Error::FormsAuthRequired);
    assert_eq!(Error::from_code(225), Error::VirusInfected);
    assert_eq!(Error::from_code(226), Error::VirusDeleted);
    assert_eq!(Error::from_code(229), Error::PipeLocal);
    assert_eq!(Error::from_code(230), Error::BadPipe);
    assert_eq!(Error::from_code(231), Error::PipeBusy);
    assert_eq!(Error::from_code(232), Error::NoData);
}

#[test]
fn translates_codes_233_to_312() {
    assert_eq!(Error::from_code(233), Error::PipeNotConnected);
    assert_eq!(Error::from_code(234), Error::MoreData);
    assert_eq!(Error::from_code(240), Error::VcDisconnected);
    assert_eq!(Error::from_code(254), Error::InvalidEaName);
    assert_eq!(Error::from_code(255), Error::EaListInconsistent);
    assert_eq!(Error::from_code(258), Error::WaitTimeout);
    assert_eq!(Error::from_code(259), Error::NoMoreItems);
    assert_eq!(Error::from_code(266), Error::CannotCopy);
    assert_eq!(Error::from_code(267), Error::Directory);
    assert_eq!(Error::from_code(275), Error::EasDidntFit);
    assert_eq!(Error::from_code(276), Error::EaFileCorrupt);
    assert_eq!(Error::from_code(277), Error::EaTableFull);
    assert_eq!(Error::from_code(278), Error::InvalidEaHandle);
    assert_eq!(Error::from_code(282), Error::EasNotSupported);
    assert_eq!(Error::from_code(288), Error::NotOwner);
    assert_eq!(Error::from_code(298), Error::TooManyPosts);
    assert_eq!(Error::from_code(299), Error::PartialCopy);
    assert_eq!(Error::from_code(300), Error::OplockNotGranted);
    assert_eq!(Error::from_code(301), Error::InvalidOplockProtocol);
    assert_eq!(Error::from_code(302), Error::DiskTooFragmented);
    assert_eq!(Error::from_code(303), Error::DeletePending);
    assert_eq!(Error::from_code(304), Error::IncompatibleWithGlobalShortNameRegistrySetting);
    assert_eq!(Error::from_code(305), Error::ShortNamesNotEnabledOnVolume);
    assert_eq!(Error::from_code(306), Error::SecurityStreamIsInconsistent);
    assert_eq!(Error::from_code(307), Error::InvalidLockRange);
    assert_eq!(Error::from_code(308), Error::ImageSubsystemNotPresent);
    assert_eq!(Error::from_code(309), Error::NotificationGuidAlreadyDefined);
    assert_eq!(Error::from_code(310), Error::InvalidExceptionHandler);
    assert_eq!(Error::from_code(311), Error::DuplicatePrivileges);
    assert_eq!(Error::from_code(312), Error::NoRangesProcessed);
}

#[test]
fn translates_codes_313_to_401() {
    assert_eq!(Error::from_code(313), Error::NotAllowedOnSystemFile);
    assert_eq!(Error::from_code(314), Error::DiskResourcesExhausted);
    assert_eq!(Error::from_code(315), Error::InvalidToken);
    assert_eq!(Error::from_code(316), Error::DeviceFeatureNotSupported);
    assert_eq!(Error::from_code(317), Error::MrMidNotFound);
    assert_eq!(Error::from_code(318), Error::ScopeNotFound);
    assert_eq!(Error::from_code(319), Error::UndefinedScope);
    assert_eq!(Error::from_code(320), Error::InvalidCap);
    assert_eq!(Error::from_code(321), Error::DeviceUnreachable);
    assert_eq!(Error::from_code(322), Error::DeviceNoResources);
    assert_eq!(Error::from_code(323), Error::DataChecksumError);
    assert_eq!(Error::from_code(324), Error::IntermixedKernelEaOperation);
    assert_eq!(Error::from_code(326), Error::FileLevelTrimNotSupported);
    assert_eq!(Error::from_code(327), Error::OffsetAlignmentViolation);
    assert_eq!(Error::from_code(328), Error::InvalidFieldInParameterList);
    assert_eq!(Error::from_code(329), Error::OperationInProgress);
    assert_eq!(Error::from_code(330), Error::BadDevicePath);
    assert_eq!(Error::from_code(331), Error::TooManyDescriptors);
    assert_eq!(Error::from_code(332), Error::ScrubDataDisabled);
    assert_eq!(Error::from_code(333), Error::NotRedundantStorage);
    assert_eq!(Error::from_code(334), Error::ResidentFileNotSupported);
    assert_eq!(Error::from_code(335), Error::CompressedFileNotSupported);
    assert_eq!(Error::from_code(336), Error::DirectoryNotSupported);
    assert_eq!(Error::from_code(337), Error::NotReadFromCopy);
    assert_eq!(Error::from_code(350), Error::FailNoactionReboot);
    assert_eq!(Error::from_code(351), Error::FailShutdown);
    assert_eq!(Error::from_code(352), Error::FailRestart);
    assert_eq!(Error::from_code(353), Error::MaxSessionsReached);
    assert_eq!(Error::from_code(400), Error::ThreadModeAlreadyBackground);
    assert_eq!(Error::from_code(401), Error::ThreadModeNotBackground);
}

#[test]
fn translates_codes_402_to_6002() {
    assert_eq!(Error::from_code(402), Error::ProcessModeAlreadyBackground);
    assert_eq!(Error::from_code(403), Error::ProcessModeNotBackground);
    assert_eq!(Error::from_code(487), Error::InvalidAddress);
    assert_eq!(Error::from_code(618), Error::UnsupportedCompression);
    assert_eq!(Error::from_code(665), Error::FileSystemLimitation);
    assert_eq!(Error::from_code(1392), Error::FileCorrupt);
    assert_eq!(Error::from_code(6002), Error::FileEncrypted);
}
