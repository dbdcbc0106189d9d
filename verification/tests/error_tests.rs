use blend2d::error::{
    errcode_to_result, error_from_errcode, expect_mem_err, Error, FontError, JpegError, OutOfMemory,
    PngError, BL_ERROR_INVALID_GLYPH, BL_ERROR_INVALID_VALUE, BL_ERROR_OUT_OF_MEMORY, BL_SUCCESS,
};

fn every_error() -> Vec<(u32, Error)> {
    vec![
        (0x10001, Error::InvalidValue),
        (0x10002, Error::InvalidState),
        (0x10003, Error::InvalidHandle),
        (0x10004, Error::ValueTooLarge),
        (0x10005, Error::NotInitialized),
        (0x10006, Error::NotImplemented),
        (0x10007, Error::NotPermitted),
        (0x10008, Error::Io),
        (0x10009, Error::Busy),
        (0x1000A, Error::Interrupted),
        (0x1000B, Error::TryAgain),
        (0x1000C, Error::TimedOut),
        (0x1000D, Error::BrokenPipe),
        (0x1000E, Error::InvalidSeek),
        (0x1000F, Error::SymlinkLoop),
        (0x10010, Error::FileTooLarge),
        (0x10011, Error::AlreadyExists),
        (0x10012, Error::AccessDenied),
        (0x10013, Error::MediaChanged),
        (0x10014, Error::ReadOnlyFs),
        (0x10015, Error::NoDevice),
        (0x10016, Error::NoEntry),
        (0x10017, Error::NoMedia),
        (0x10018, Error::NoMoreData),
        (0x10019, Error::NoMoreFiles),
        (0x1001A, Error::NoSpaceLeft),
        (0x1001B, Error::NotEmpty),
        (0x1001C, Error::NotFile),
        (0x1001D, Error::NotDirectory),
        (0x1001E, Error::NotSameDevice),
        (0x1001F, Error::NotBlockDevice),
        (0x10020, Error::InvalidFileName),
        (0x10021, Error::FileNameTooLong),
        (0x10022, Error::TooManyOpenFiles),
        (0x10023, Error::TooManyOpenFilesByOs),
        (0x10024, Error::TooManyLinks),
        (0x10025, Error::TooManyThreads),
        (0x10026, Error::FileEmpty),
        (0x10027, Error::OpenFailed),
        (0x10028, Error::NotRootDevice),
        (0x10029, Error::UnknownSystemError),
        (0x1002A, Error::InvalidSignature),
        (0x1002B, Error::InvalidData),
        (0x1002C, Error::InvalidString),
        (0x1002D, Error::DataTruncated),
        (0x1002E, Error::DataTooLarge),
        (0x1002F, Error::DecompressionFailed),
        (0x10030, Error::InvalidGeometry),
        (0x10031, Error::NoMatchingVertex),
        (0x10032, Error::NoMatchingCookie),
        (0x10033, Error::NoStatesToRestore),
        (0x10034, Error::ImageTooLarge),
        (0x10035, Error::ImageNoMatchingCodec),
        (0x10036, Error::ImageUnknownFileFormat),
        (0x10037, Error::ImageDecoderNotProvided),
        (0x10038, Error::ImageEncoderNotProvided),
        (0x10039, Error::Png(PngError::MultipleIHDR)),
        (0x1003A, Error::Png(PngError::InvalidIDAT)),
        (0x1003B, Error::Png(PngError::InvalidIEND)),
        (0x1003C, Error::Png(PngError::InvalidPLTE)),
        (0x1003D, Error::Png(PngError::InvalidTRNS)),
        (0x1003E, Error::Png(PngError::InvalidFilter)),
        (0x1003F, Error::Jpeg(JpegError::UnsupportedFeature)),
        (0x10040, Error::Jpeg(JpegError::InvalidSOS)),
        (0x10041, Error::Jpeg(JpegError::InvalidSOF)),
        (0x10042, Error::Jpeg(JpegError::MultipleSOF)),
        (0x10043, Error::Jpeg(JpegError::UnsupportedSOF)),
        (0x10044, Error::Font(FontError::NoCharacterMapping)),
        (0x10045, Error::Font(FontError::MissingImportantTable)),
        (0x10046, Error::Font(FontError::FeatureNotAvailable)),
        (0x10047, Error::Font(FontError::CffInvalidData)),
        (0x10048, Error::Font(FontError::ProgramTerminated)),
        (0x10049, Error::InvalidGlyph),
    ]
}

#[test]
fn success_code_is_ok() {
    assert_eq!(BL_SUCCESS, 0);
    assert_eq!(errcode_to_result(0), Ok(()));
}

#[test]
fn every_error_code_maps_to_its_error() {
    for (code, err) in every_error() {
        assert_eq!(error_from_errcode(code), err);
        assert_eq!(errcode_to_result(code), Err(err));
    }
}

#[test]
fn error_codes_are_consecutive_after_out_of_memory() {
    assert_eq!(BL_ERROR_OUT_OF_MEMORY, 0x0001_0000);
    assert_eq!(BL_ERROR_INVALID_VALUE, BL_ERROR_OUT_OF_MEMORY + 1);
    let all = every_error();
    assert_eq!(all.len() as u32, BL_ERROR_INVALID_GLYPH - BL_ERROR_OUT_OF_MEMORY);
    assert_eq!(all.last().unwrap().1, Error::InvalidGlyph);
}

#[test]
fn distinct_errors_have_distinct_codes() {
    let all = every_error();
    for (i, (_, a)) in all.iter().enumerate() {
        for (j, (_, b)) in all.iter().enumerate() {
            assert_eq!(i == j, a == b);
        }
    }
}

#[test]
fn nested_errors_map_to_their_kind() {
    assert_eq!(error_from_errcode(0x0001_0039), Error::Png(PngError::MultipleIHDR));
    assert_eq!(error_from_errcode(0x0001_003F), Error::Jpeg(JpegError::UnsupportedFeature));
    assert_eq!(error_from_errcode(0x0001_0044), Error::Font(FontError::NoCharacterMapping));
}

#[test]
fn error_text_is_its_debug_text() {
    for (_, err) in every_error() {
        assert_eq!(err.to_string(), format!("{:?}", err));
    }
    assert_eq!(Error::Png(PngError::InvalidFilter).to_string(), "Png(InvalidFilter)");
    assert_eq!(OutOfMemory.to_string(), "OutOfMemory");
}

#[test]
fn allocation_result_is_ok_only_for_success() {
    assert_eq!(OutOfMemory::from_errcode(0), Ok(()));
    assert_eq!(OutOfMemory::from_errcode(BL_ERROR_OUT_OF_MEMORY), Err(OutOfMemory));
    assert_eq!(OutOfMemory::from_errcode(BL_ERROR_INVALID_VALUE), Err(OutOfMemory));
}

#[test]
fn memory_check_accepts_other_codes() {
    expect_mem_err(0);
    expect_mem_err(BL_ERROR_INVALID_VALUE);
}
