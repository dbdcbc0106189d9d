use vstd::prelude::*;

verus! {

// Result codes reported by the blend2d runtime. Error codes are consecutive,
// starting at `BL_ERROR_OUT_OF_MEMORY`.
/// Result code of a successful call.
pub const BL_SUCCESS: u32 = 0;
/// First error code; it reports a failed memory allocation.
pub const BL_ERROR_OUT_OF_MEMORY: u32 = 0x0001_0000;
pub const BL_ERROR_INVALID_VALUE: u32 = 0x10001;
pub const BL_ERROR_INVALID_STATE: u32 = 0x10002;
pub const BL_ERROR_INVALID_HANDLE: u32 = 0x10003;
pub const BL_ERROR_VALUE_TOO_LARGE: u32 = 0x10004;
pub const BL_ERROR_NOT_INITIALIZED: u32 = 0x10005;
pub const BL_ERROR_NOT_IMPLEMENTED: u32 = 0x10006;
pub const BL_ERROR_NOT_PERMITTED: u32 = 0x10007;
pub const BL_ERROR_IO: u32 = 0x10008;
pub const BL_ERROR_BUSY: u32 = 0x10009;
pub const BL_ERROR_INTERRUPTED: u32 = 0x1000A;
pub const BL_ERROR_TRY_AGAIN: u32 = 0x1000B;
pub const BL_ERROR_TIMED_OUT: u32 = 0x1000C;
pub const BL_ERROR_BROKEN_PIPE: u32 = 0x1000D;
pub const BL_ERROR_INVALID_SEEK: u32 = 0x1000E;
pub const BL_ERROR_SYMLINK_LOOP: u32 = 0x1000F;
pub const BL_ERROR_FILE_TOO_LARGE: u32 = 0x10010;
pub const BL_ERROR_ALREADY_EXISTS: u32 = 0x10011;
pub const BL_ERROR_ACCESS_DENIED: u32 = 0x10012;
pub const BL_ERROR_MEDIA_CHANGED: u32 = 0x10013;
pub const BL_ERROR_READ_ONLY_FS: u32 = 0x10014;
pub const BL_ERROR_NO_DEVICE: u32 = 0x10015;
pub const BL_ERROR_NO_ENTRY: u32 = 0x10016;
pub const BL_ERROR_NO_MEDIA: u32 = 0x10017;
pub const BL_ERROR_NO_MORE_DATA: u32 = 0x10018;
pub const BL_ERROR_NO_MORE_FILES: u32 = 0x10019;
pub const BL_ERROR_NO_SPACE_LEFT: u32 = 0x1001A;
pub const BL_ERROR_NOT_EMPTY: u32 = 0x1001B;
pub const BL_ERROR_NOT_FILE: u32 = 0x1001C;
pub const BL_ERROR_NOT_DIRECTORY: u32 = 0x1001D;
pub const BL_ERROR_NOT_SAME_DEVICE: u32 = 0x1001E;
pub const BL_ERROR_NOT_BLOCK_DEVICE: u32 = 0x1001F;
pub const BL_ERROR_INVALID_FILE_NAME: u32 = 0x10020;
pub const BL_ERROR_FILE_NAME_TOO_LONG: u32 = 0x10021;
pub const BL_ERROR_TOO_MANY_OPEN_FILES: u32 = 0x10022;
pub const BL_ERROR_TOO_MANY_OPEN_FILES_BY_OS: u32 = 0x10023;
pub const BL_ERROR_TOO_MANY_LINKS: u32 = 0x10024;
pub const BL_ERROR_TOO_MANY_THREADS: u32 = 0x10025;
pub const BL_ERROR_FILE_EMPTY: u32 = 0x10026;
pub const BL_ERROR_OPEN_FAILED: u32 = 0x10027;
pub const BL_ERROR_NOT_ROOT_DEVICE: u32 = 0x10028;
pub const BL_ERROR_UNKNOWN_SYSTEM_ERROR: u32 = 0x10029;
pub const BL_ERROR_INVALID_SIGNATURE: u32 = 0x1002A;
pub const BL_ERROR_INVALID_DATA: u32 = 0x1002B;
pub const BL_ERROR_INVALID_STRING: u32 = 0x1002C;
pub const BL_ERROR_DATA_TRUNCATED: u32 = 0x1002D;
pub const BL_ERROR_DATA_TOO_LARGE: u32 = 0x1002E;
pub const BL_ERROR_DECOMPRESSION_FAILED: u32 = 0x1002F;
pub const BL_ERROR_INVALID_GEOMETRY: u32 = 0x10030;
pub const BL_ERROR_NO_MATCHING_VERTEX: u32 = 0x10031;
pub const BL_ERROR_NO_MATCHING_COOKIE: u32 = 0x10032;
pub const BL_ERROR_NO_STATES_TO_RESTORE: u32 = 0x10033;
pub const BL_ERROR_IMAGE_TOO_LARGE: u32 = 0x10034;
pub const BL_ERROR_IMAGE_NO_MATCHING_CODEC: u32 = 0x10035;
pub const BL_ERROR_IMAGE_UNKNOWN_FILE_FORMAT: u32 = 0x10036;
pub const BL_ERROR_IMAGE_DECODER_NOT_PROVIDED: u32 = 0x10037;
pub const BL_ERROR_IMAGE_ENCODER_NOT_PROVIDED: u32 = 0x10038;
pub const BL_ERROR_PNG_MULTIPLE_IHDR: u32 = 0x10039;
pub const BL_ERROR_PNG_INVALID_IDAT: u32 = 0x1003A;
pub const BL_ERROR_PNG_INVALID_IEND: u32 = 0x1003B;
pub const BL_ERROR_PNG_INVALID_PLTE: u32 = 0x1003C;
pub const BL_ERROR_PNG_INVALID_TRNS: u32 = 0x1003D;
pub const BL_ERROR_PNG_INVALID_FILTER: u32 = 0x1003E;
pub const BL_ERROR_JPEG_UNSUPPORTED_FEATURE: u32 = 0x1003F;
pub const BL_ERROR_JPEG_INVALID_SOS: u32 = 0x10040;
pub const BL_ERROR_JPEG_INVALID_SOF: u32 = 0x10041;
pub const BL_ERROR_JPEG_MULTIPLE_SOF: u32 = 0x10042;
pub const BL_ERROR_JPEG_UNSUPPORTED_SOF: u32 = 0x10043;
pub const BL_ERROR_FONT_NO_CHARACTER_MAPPING: u32 = 0x10044;
pub const BL_ERROR_FONT_MISSING_IMPORTANT_TABLE: u32 = 0x10045;
pub const BL_ERROR_FONT_FEATURE_NOT_AVAILABLE: u32 = 0x10046;
pub const BL_ERROR_FONT_CFF_INVALID_DATA: u32 = 0x10047;
pub const BL_ERROR_FONT_PROGRAM_TERMINATED: u32 = 0x10048;
pub const BL_ERROR_INVALID_GLYPH: u32 = 0x10049;


/// The result type used throughout the library.
pub type Result<T> = core::result::Result<T, Error>;

/// An error returned by a function if it was unable to succeed due to not
/// being able to allocate enough memory.
#[derive(Debug, Clone, Copy, PartialEq, Eq)]
pub struct OutOfMemory;

impl OutOfMemory {
    /// The text of the error.
    pub fn to_string(&self) -> (r: String)
        ensures
            r@ == "OutOfMemory"@,
    {
        "OutOfMemory".to_owned()
    }

    /// Maps a raw result code to an allocation result: zero is success and
    /// any other code is reported as `OutOfMemory`.
    pub fn from_errcode(code: u32) -> (r: core::result::Result<(), OutOfMemory>)
        ensures
            r is Ok <==> code == BL_SUCCESS,
    {
        if code == BL_SUCCESS {
            Ok(())
        } else {
            Err(OutOfMemory)
        }
    }
}

/// An error returned by blend2d due to faulty png data.
#[derive(Debug, Clone, Copy, PartialEq, Eq)]
pub enum PngError {
    MultipleIHDR,
    InvalidIDAT,
    InvalidIEND,
    InvalidPLTE,
    InvalidTRNS,
    InvalidFilter,
}

/// An error returned by blend2d due to faulty jpeg data.
#[derive(Debug, Clone, Copy, PartialEq, Eq)]
pub enum JpegError {
    UnsupportedFeature,
    InvalidSOS,
    InvalidSOF,
    MultipleSOF,
    UnsupportedSOF,
}

/// A font error returned by blend2d.
#[derive(Debug, Clone, Copy, PartialEq, Eq)]
pub enum FontError {
    NoCharacterMapping,
    MissingImportantTable,
    FeatureNotAvailable,
    CffInvalidData,
    ProgramTerminated,
}

/// An error returned by blend2d.
#[derive(Debug, Clone, Copy, PartialEq, Eq)]
pub enum Error {
    InvalidValue,
    InvalidState,
    InvalidHandle,
    ValueTooLarge,
    NotInitialized,
    NotImplemented,
    NotPermitted,
    Io,
    Busy,
    Interrupted,
    TryAgain,
    TimedOut,
    BrokenPipe,
    InvalidSeek,
    SymlinkLoop,
    FileTooLarge,
    AlreadyExists,
    AccessDenied,
    MediaChanged,
    ReadOnlyFs,
    NoDevice,
    NoEntry,
    NoMedia,
    NoMoreData,
    NoMoreFiles,
    NoSpaceLeft,
    NotEmpty,
    NotFile,
    NotDirectory,
    NotSameDevice,
    NotBlockDevice,
    InvalidFileName,
    FileNameTooLong,
    TooManyOpenFiles,
    TooManyOpenFilesByOs,
    TooManyLinks,
    TooManyThreads,
    FileEmpty,
    OpenFailed,
    NotRootDevice,
    UnknownSystemError,
    InvalidSignature,
    InvalidData,
    InvalidString,
    DataTruncated,
    DataTooLarge,
    DecompressionFailed,
    InvalidGeometry,
    NoMatchingVertex,
    NoMatchingCookie,
    NoStatesToRestore,
    ImageTooLarge,
    ImageNoMatchingCodec,
    ImageUnknownFileFormat,
    ImageDecoderNotProvided,
    ImageEncoderNotProvided,
    Png(PngError),
    Jpeg(JpegError),
    Font(FontError),
    InvalidGlyph,
}

impl Error {
    /// The text of the error: the name of its variant, with the inner
    /// error's name in brackets.
    pub open spec fn text(self) -> Seq<char> {
        match self {
            Error::InvalidValue => "InvalidValue"@,
            Error::InvalidState => "InvalidState"@,
            Error::InvalidHandle => "InvalidHandle"@,
            Error::ValueTooLarge => "ValueTooLarge"@,
            Error::NotInitialized => "NotInitialized"@,
            Error::NotImplemented => "NotImplemented"@,
            Error::NotPermitted => "NotPermitted"@,
            Error::Io => "Io"@,
            Error::Busy => "Busy"@,
            Error::Interrupted => "Interrupted"@,
            Error::TryAgain => "TryAgain"@,
            Error::TimedOut => "TimedOut"@,
            Error::BrokenPipe => "BrokenPipe"@,
            Error::InvalidSeek => "InvalidSeek"@,
            Error::SymlinkLoop => "SymlinkLoop"@,
            Error::FileTooLarge => "FileTooLarge"@,
            Error::AlreadyExists => "AlreadyExists"@,
            Error::AccessDenied => "AccessDenied"@,
            Error::MediaChanged => "MediaChanged"@,
            Error::ReadOnlyFs => "ReadOnlyFs"@,
            Error::NoDevice => "NoDevice"@,
            Error::NoEntry => "NoEntry"@,
            Error::NoMedia => "NoMedia"@,
            Error::NoMoreData => "NoMoreData"@,
            Error::NoMoreFiles => "NoMoreFiles"@,
            Error::NoSpaceLeft => "NoSpaceLeft"@,
            Error::NotEmpty => "NotEmpty"@,
            Error::NotFile => "NotFile"@,
            Error::NotDirectory => "NotDirectory"@,
            Error::NotSameDevice => "NotSameDevice"@,
            Error::NotBlockDevice => "NotBlockDevice"@,
            Error::InvalidFileName => "InvalidFileName"@,
            Error::FileNameTooLong => "FileNameTooLong"@,
            Error::TooManyOpenFiles => "TooManyOpenFiles"@,
            Error::TooManyOpenFilesByOs => "TooManyOpenFilesByOs"@,
            Error::TooManyLinks => "TooManyLinks"@,
            Error::TooManyThreads => "TooManyThreads"@,
            Error::FileEmpty => "FileEmpty"@,
            Error::OpenFailed => "OpenFailed"@,
            Error::NotRootDevice => "NotRootDevice"@,
            Error::UnknownSystemError => "UnknownSystemError"@,
            Error::InvalidSignature => "InvalidSignature"@,
            Error::InvalidData => "InvalidData"@,
            Error::InvalidString => "InvalidString"@,
            Error::DataTruncated => "DataTruncated"@,
            Error::DataTooLarge => "DataTooLarge"@,
            Error::DecompressionFailed => "DecompressionFailed"@,
            Error::InvalidGeometry => "InvalidGeometry"@,
            Error::NoMatchingVertex => "NoMatchingVertex"@,
            Error::NoMatchingCookie => "NoMatchingCookie"@,
            Error::NoStatesToRestore => "NoStatesToRestore"@,
            Error::ImageTooLarge => "ImageTooLarge"@,
            Error::ImageNoMatchingCodec => "ImageNoMatchingCodec"@,
            Error::ImageUnknownFileFormat => "ImageUnknownFileFormat"@,
            Error::ImageDecoderNotProvided => "ImageDecoderNotProvided"@,
            Error::ImageEncoderNotProvided => "ImageEncoderNotProvided"@,
            Error::Png(PngError::MultipleIHDR) => "Png(MultipleIHDR)"@,
            Error::Png(PngError::InvalidIDAT) => "Png(InvalidIDAT)"@,
            Error::Png(PngError::InvalidIEND) => "Png(InvalidIEND)"@,
            Error::Png(PngError::InvalidPLTE) => "Png(InvalidPLTE)"@,
            Error::Png(PngError::InvalidTRNS) => "Png(InvalidTRNS)"@,
            Error::Png(PngError::InvalidFilter) => "Png(InvalidFilter)"@,
            Error::Jpeg(JpegError::UnsupportedFeature) => "Jpeg(UnsupportedFeature)"@,
            Error::Jpeg(JpegError::InvalidSOS) => "Jpeg(InvalidSOS)"@,
            Error::Jpeg(JpegError::InvalidSOF) => "Jpeg(InvalidSOF)"@,
            Error::Jpeg(JpegError::MultipleSOF) => "Jpeg(MultipleSOF)"@,
            Error::Jpeg(JpegError::UnsupportedSOF) => "Jpeg(UnsupportedSOF)"@,
            Error::Font(FontError::NoCharacterMapping) => "Font(NoCharacterMapping)"@,
            Error::Font(FontError::MissingImportantTable) => "Font(MissingImportantTable)"@,
            Error::Font(FontError::FeatureNotAvailable) => "Font(FeatureNotAvailable)"@,
            Error::Font(FontError::CffInvalidData) => "Font(CffInvalidData)"@,
            Error::Font(FontError::ProgramTerminated) => "Font(ProgramTerminated)"@,
            Error::InvalidGlyph => "InvalidGlyph"@,
        }
    }

    /// The text of the error, as `text` gives it.
    pub fn to_string(&self) -> (r: String)
        ensures
            r@ == self.text(),
    {
        let s = match self {
            Error::InvalidValue => "InvalidValue",
            Error::InvalidState => "InvalidState",
            Error::InvalidHandle => "InvalidHandle",
            Error::ValueTooLarge => "ValueTooLarge",
            Error::NotInitialized => "NotInitialized",
            Error::NotImplemented => "NotImplemented",
            Error::NotPermitted => "NotPermitted",
            Error::Io => "Io",
            Error::Busy => "Busy",
            Error::Interrupted => "Interrupted",
            Error::TryAgain => "TryAgain",
            Error::TimedOut => "TimedOut",
            Error::BrokenPipe => "BrokenPipe",
            Error::InvalidSeek => "InvalidSeek",
            Error::SymlinkLoop => "SymlinkLoop",
            Error::FileTooLarge => "FileTooLarge",
            Error::AlreadyExists => "AlreadyExists",
            Error::AccessDenied => "AccessDenied",
            Error::MediaChanged => "MediaChanged",
            Error::ReadOnlyFs => "ReadOnlyFs",
            Error::NoDevice => "NoDevice",
            Error::NoEntry => "NoEntry",
            Error::NoMedia => "NoMedia",
            Error::NoMoreData => "NoMoreData",
            Error::NoMoreFiles => "NoMoreFiles",
            Error::NoSpaceLeft => "NoSpaceLeft",
            Error::NotEmpty => "NotEmpty",
            Error::NotFile => "NotFile",
            Error::NotDirectory => "NotDirectory",
            Error::NotSameDevice => "NotSameDevice",
            Error::NotBlockDevice => "NotBlockDevice",
            Error::InvalidFileName => "InvalidFileName",
            Error::FileNameTooLong => "FileNameTooLong",
            Error::TooManyOpenFiles => "TooManyOpenFiles",
            Error::TooManyOpenFilesByOs => "TooManyOpenFilesByOs",
            Error::TooManyLinks => "TooManyLinks",
            Error::TooManyThreads => "TooManyThreads",
            Error::FileEmpty => "FileEmpty",
            Error::OpenFailed => "OpenFailed",
            Error::NotRootDevice => "NotRootDevice",
            Error::UnknownSystemError => "UnknownSystemError",
            Error::InvalidSignature => "InvalidSignature",
            Error::InvalidData => "InvalidData",
            Error::InvalidString => "InvalidString",
            Error::DataTruncated => "DataTruncated",
            Error::DataTooLarge => "DataTooLarge",
            Error::DecompressionFailed => "DecompressionFailed",
            Error::InvalidGeometry => "InvalidGeometry",
            Error::NoMatchingVertex => "NoMatchingVertex",
            Error::NoMatchingCookie => "NoMatchingCookie",
            Error::NoStatesToRestore => "NoStatesToRestore",
            Error::ImageTooLarge => "ImageTooLarge",
            Error::ImageNoMatchingCodec => "ImageNoMatchingCodec",
            Error::ImageUnknownFileFormat => "ImageUnknownFileFormat",
            Error::ImageDecoderNotProvided => "ImageDecoderNotProvided",
            Error::ImageEncoderNotProvided => "ImageEncoderNotProvided",
            Error::Png(PngError::MultipleIHDR) => "Png(MultipleIHDR)",
            Error::Png(PngError::InvalidIDAT) => "Png(InvalidIDAT)",
            Error::Png(PngError::InvalidIEND) => "Png(InvalidIEND)",
            Error::Png(PngError::InvalidPLTE) => "Png(InvalidPLTE)",
            Error::Png(PngError::InvalidTRNS) => "Png(InvalidTRNS)",
            Error::Png(PngError::InvalidFilter) => "Png(InvalidFilter)",
            Error::Jpeg(JpegError::UnsupportedFeature) => "Jpeg(UnsupportedFeature)",
            Error::Jpeg(JpegError::InvalidSOS) => "Jpeg(InvalidSOS)",
            Error::Jpeg(JpegError::InvalidSOF) => "Jpeg(InvalidSOF)",
            Error::Jpeg(JpegError::MultipleSOF) => "Jpeg(MultipleSOF)",
            Error::Jpeg(JpegError::UnsupportedSOF) => "Jpeg(UnsupportedSOF)",
            Error::Font(FontError::NoCharacterMapping) => "Font(NoCharacterMapping)",
            Error::Font(FontError::MissingImportantTable) => "Font(MissingImportantTable)",
            Error::Font(FontError::FeatureNotAvailable) => "Font(FeatureNotAvailable)",
            Error::Font(FontError::CffInvalidData) => "Font(CffInvalidData)",
            Error::Font(FontError::ProgramTerminated) => "Font(ProgramTerminated)",
            Error::InvalidGlyph => "InvalidGlyph",
        };
        s.to_owned()
    }
}

/// The codes that name an `Error`: every error code but the one for a failed
/// allocation, which is not reported as an `Error`.
pub open spec fn is_error_code(code: u32) -> bool {
    BL_ERROR_INVALID_VALUE <= code <= BL_ERROR_INVALID_GLYPH
}

/// The blend2d result code that an `Error` stands for.
pub open spec fn error_code(e: Error) -> u32 {
    match e {
        Error::InvalidValue => BL_ERROR_INVALID_VALUE,
        Error::InvalidState => BL_ERROR_INVALID_STATE,
        Error::InvalidHandle => BL_ERROR_INVALID_HANDLE,
        Error::ValueTooLarge => BL_ERROR_VALUE_TOO_LARGE,
        Error::NotInitialized => BL_ERROR_NOT_INITIALIZED,
        Error::NotImplemented => BL_ERROR_NOT_IMPLEMENTED,
        Error::NotPermitted => BL_ERROR_NOT_PERMITTED,
        Error::Io => BL_ERROR_IO,
        Error::Busy => BL_ERROR_BUSY,
        Error::Interrupted => BL_ERROR_INTERRUPTED,
        Error::TryAgain => BL_ERROR_TRY_AGAIN,
        Error::TimedOut => BL_ERROR_TIMED_OUT,
        Error::BrokenPipe => BL_ERROR_BROKEN_PIPE,
        Error::InvalidSeek => BL_ERROR_INVALID_SEEK,
        Error::SymlinkLoop => BL_ERROR_SYMLINK_LOOP,
        Error::FileTooLarge => BL_ERROR_FILE_TOO_LARGE,
        Error::AlreadyExists => BL_ERROR_ALREADY_EXISTS,
        Error::AccessDenied => BL_ERROR_ACCESS_DENIED,
        Error::MediaChanged => BL_ERROR_MEDIA_CHANGED,
        Error::ReadOnlyFs => BL_ERROR_READ_ONLY_FS,
        Error::NoDevice => BL_ERROR_NO_DEVICE,
        Error::NoEntry => BL_ERROR_NO_ENTRY,
        Error::NoMedia => BL_ERROR_NO_MEDIA,
        Error::NoMoreData => BL_ERROR_NO_MORE_DATA,
        Error::NoMoreFiles => BL_ERROR_NO_MORE_FILES,
        Error::NoSpaceLeft => BL_ERROR_NO_SPACE_LEFT,
        Error::NotEmpty => BL_ERROR_NOT_EMPTY,
        Error::NotFile => BL_ERROR_NOT_FILE,
        Error::NotDirectory => BL_ERROR_NOT_DIRECTORY,
        Error::NotSameDevice => BL_ERROR_NOT_SAME_DEVICE,
        Error::NotBlockDevice => BL_ERROR_NOT_BLOCK_DEVICE,
        Error::InvalidFileName => BL_ERROR_INVALID_FILE_NAME,
        Error::FileNameTooLong => BL_ERROR_FILE_NAME_TOO_LONG,
        Error::TooManyOpenFiles => BL_ERROR_TOO_MANY_OPEN_FILES,
        Error::TooManyOpenFilesByOs => BL_ERROR_TOO_MANY_OPEN_FILES_BY_OS,
        Error::TooManyLinks => BL_ERROR_TOO_MANY_LINKS,
        Error::TooManyThreads => BL_ERROR_TOO_MANY_THREADS,
        Error::FileEmpty => BL_ERROR_FILE_EMPTY,
        Error::OpenFailed => BL_ERROR_OPEN_FAILED,
        Error::NotRootDevice => BL_ERROR_NOT_ROOT_DEVICE,
        Error::UnknownSystemError => BL_ERROR_UNKNOWN_SYSTEM_ERROR,
        Error::InvalidSignature => BL_ERROR_INVALID_SIGNATURE,
        Error::InvalidData => BL_ERROR_INVALID_DATA,
        Error::InvalidString => BL_ERROR_INVALID_STRING,
        Error::DataTruncated => BL_ERROR_DATA_TRUNCATED,
        Error::DataTooLarge => BL_ERROR_DATA_TOO_LARGE,
        Error::DecompressionFailed => BL_ERROR_DECOMPRESSION_FAILED,
        Error::InvalidGeometry => BL_ERROR_INVALID_GEOMETRY,
        Error::NoMatchingVertex => BL_ERROR_NO_MATCHING_VERTEX,
        Error::NoMatchingCookie => BL_ERROR_NO_MATCHING_COOKIE,
        Error::NoStatesToRestore => BL_ERROR_NO_STATES_TO_RESTORE,
        Error::ImageTooLarge => BL_ERROR_IMAGE_TOO_LARGE,
        Error::ImageNoMatchingCodec => BL_ERROR_IMAGE_NO_MATCHING_CODEC,
        Error::ImageUnknownFileFormat => BL_ERROR_IMAGE_UNKNOWN_FILE_FORMAT,
        Error::ImageDecoderNotProvided => BL_ERROR_IMAGE_DECODER_NOT_PROVIDED,
        Error::ImageEncoderNotProvided => BL_ERROR_IMAGE_ENCODER_NOT_PROVIDED,
        Error::Png(PngError::MultipleIHDR) => BL_ERROR_PNG_MULTIPLE_IHDR,
        Error::Png(PngError::InvalidIDAT) => BL_ERROR_PNG_INVALID_IDAT,
        Error::Png(PngError::InvalidIEND) => BL_ERROR_PNG_INVALID_IEND,
        Error::Png(PngError::InvalidPLTE) => BL_ERROR_PNG_INVALID_PLTE,
        Error::Png(PngError::InvalidTRNS) => BL_ERROR_PNG_INVALID_TRNS,
        Error::Png(PngError::InvalidFilter) => BL_ERROR_PNG_INVALID_FILTER,
        Error::Jpeg(JpegError::UnsupportedFeature) => BL_ERROR_JPEG_UNSUPPORTED_FEATURE,
        Error::Jpeg(JpegError::InvalidSOS) => BL_ERROR_JPEG_INVALID_SOS,
        Error::Jpeg(JpegError::InvalidSOF) => BL_ERROR_JPEG_INVALID_SOF,
        Error::Jpeg(JpegError::MultipleSOF) => BL_ERROR_JPEG_MULTIPLE_SOF,
        Error::Jpeg(JpegError::UnsupportedSOF) => BL_ERROR_JPEG_UNSUPPORTED_SOF,
        Error::Font(FontError::NoCharacterMapping) => BL_ERROR_FONT_NO_CHARACTER_MAPPING,
        Error::Font(FontError::MissingImportantTable) => BL_ERROR_FONT_MISSING_IMPORTANT_TABLE,
        Error::Font(FontError::FeatureNotAvailable) => BL_ERROR_FONT_FEATURE_NOT_AVAILABLE,
        Error::Font(FontError::CffInvalidData) => BL_ERROR_FONT_CFF_INVALID_DATA,
        Error::Font(FontError::ProgramTerminated) => BL_ERROR_FONT_PROGRAM_TERMINATED,
        Error::InvalidGlyph => BL_ERROR_INVALID_GLYPH,
    }
}


/// Maps a blend2d error code to the `Error` it stands for.
pub fn error_from_errcode(errcode: u32) -> (e: Error)
    requires
        is_error_code(errcode),
    ensures
        error_code(e) == errcode,
{
    let code = errcode;
        if code == BL_ERROR_INVALID_VALUE {
            Error::InvalidValue
        } else if code == BL_ERROR_INVALID_STATE {
            Error::InvalidState
        } else if code == BL_ERROR_INVALID_HANDLE {
            Error::InvalidHandle
        } else if code == BL_ERROR_VALUE_TOO_LARGE {
            Error::ValueTooLarge
        } else if code == BL_ERROR_NOT_INITIALIZED {
            Error::NotInitialized
        } else if code == BL_ERROR_NOT_IMPLEMENTED {
            Error::NotImplemented
        } else if code == BL_ERROR_NOT_PERMITTED {
            Error::NotPermitted
        } else if code == BL_ERROR_IO {
            Error::Io
        } else if code == BL_ERROR_BUSY {
            Error::Busy
        } else if code == BL_ERROR_INTERRUPTED {
            Error::Interrupted
        } else if code == BL_ERROR_TRY_AGAIN {
            Error::TryAgain
        } else if code == BL_ERROR_TIMED_OUT {
            Error::TimedOut
        } else if code == BL_ERROR_BROKEN_PIPE {
            Error::BrokenPipe
        } else if code == BL_ERROR_INVALID_SEEK {
            Error::InvalidSeek
        } else if code == BL_ERROR_SYMLINK_LOOP {
            Error::SymlinkLoop
        } else if code == BL_ERROR_FILE_TOO_LARGE {
            Error::FileTooLarge
        } else if code == BL_ERROR_ALREADY_EXISTS {
            Error::AlreadyExists
        } else if code == BL_ERROR_ACCESS_DENIED {
            Error::AccessDenied
        } else if code == BL_ERROR_MEDIA_CHANGED {
            Error::MediaChanged
        } else if code == BL_ERROR_READ_ONLY_FS {
            Error::ReadOnlyFs
        } else if code == BL_ERROR_NO_DEVICE {
            Error::NoDevice
        } else if code == BL_ERROR_NO_ENTRY {
            Error::NoEntry
        } else if code == BL_ERROR_NO_MEDIA {
            Error::NoMedia
        } else if code == BL_ERROR_NO_MORE_DATA {
            Error::NoMoreData
        } else if code == BL_ERROR_NO_MORE_FILES {
            Error::NoMoreFiles
        } else if code == BL_ERROR_NO_SPACE_LEFT {
            Error::NoSpaceLeft
        } else if code == BL_ERROR_NOT_EMPTY {
            Error::NotEmpty
        } else if code == BL_ERROR_NOT_FILE {
            Error::NotFile
        } else if code == BL_ERROR_NOT_DIRECTORY {
            Error::NotDirectory
        } else if code == BL_ERROR_NOT_SAME_DEVICE {
            Error::NotSameDevice
        } else if code == BL_ERROR_NOT_BLOCK_DEVICE {
            Error::NotBlockDevice
        } else if code == BL_ERROR_INVALID_FILE_NAME {
            Error::InvalidFileName
        } else if code == BL_ERROR_FILE_NAME_TOO_LONG {
            Error::FileNameTooLong
        } else if code == BL_ERROR_TOO_MANY_OPEN_FILES {
            Error::TooManyOpenFiles
        } else if code == BL_ERROR_TOO_MANY_OPEN_FILES_BY_OS {
            Error::TooManyOpenFilesByOs
        } else if code == BL_ERROR_TOO_MANY_LINKS {
            Error::TooManyLinks
        } else if code == BL_ERROR_TOO_MANY_THREADS {
            Error::TooManyThreads
        } else if code == BL_ERROR_FILE_EMPTY {
            Error::FileEmpty
        } else if code == BL_ERROR_OPEN_FAILED {
            Error::OpenFailed
        } else if code == BL_ERROR_NOT_ROOT_DEVICE {
            Error::NotRootDevice
        } else if code == BL_ERROR_UNKNOWN_SYSTEM_ERROR {
            Error::UnknownSystemError
        } else if code == BL_ERROR_INVALID_SIGNATURE {
            Error::InvalidSignature
        } else if code == BL_ERROR_INVALID_DATA {
            Error::InvalidData
        } else if code == BL_ERROR_INVALID_STRING {
            Error::InvalidString
        } else if code == BL_ERROR_DATA_TRUNCATED {
            Error::DataTruncated
        } else if code == BL_ERROR_DATA_TOO_LARGE {
            Error::DataTooLarge
        } else if code == BL_ERROR_DECOMPRESSION_FAILED {
            Error::DecompressionFailed
        } else if code == BL_ERROR_INVALID_GEOMETRY {
            Error::InvalidGeometry
        } else if code == BL_ERROR_NO_MATCHING_VERTEX {
            Error::NoMatchingVertex
        } else if code == BL_ERROR_NO_MATCHING_COOKIE {
            Error::NoMatchingCookie
        } else if code == BL_ERROR_NO_STATES_TO_RESTORE {
            Error::NoStatesToRestore
        } else if code == BL_ERROR_IMAGE_TOO_LARGE {
            Error::ImageTooLarge
        } else if code == BL_ERROR_IMAGE_NO_MATCHING_CODEC {
            Error::ImageNoMatchingCodec
        } else if code == BL_ERROR_IMAGE_UNKNOWN_FILE_FORMAT {
            Error::ImageUnknownFileFormat
        } else if code == BL_ERROR_IMAGE_DECODER_NOT_PROVIDED {
            Error::ImageDecoderNotProvided
        } else if code == BL_ERROR_IMAGE_ENCODER_NOT_PROVIDED {
            Error::ImageEncoderNotProvided
        } else if code == BL_ERROR_PNG_MULTIPLE_IHDR {
            Error::Png(PngError::MultipleIHDR)
        } else if code == BL_ERROR_PNG_INVALID_IDAT {
            Error::Png(PngError::InvalidIDAT)
        } else if code == BL_ERROR_PNG_INVALID_IEND {
            Error::Png(PngError::InvalidIEND)
        } else if code == BL_ERROR_PNG_INVALID_PLTE {
            Error::Png(PngError::InvalidPLTE)
        } else if code == BL_ERROR_PNG_INVALID_TRNS {
            Error::Png(PngError::InvalidTRNS)
        } else if code == BL_ERROR_PNG_INVALID_FILTER {
            Error::Png(PngError::InvalidFilter)
        } else if code == BL_ERROR_JPEG_UNSUPPORTED_FEATURE {
            Error::Jpeg(JpegError::UnsupportedFeature)
        } else if code == BL_ERROR_JPEG_INVALID_SOS {
            Error::Jpeg(JpegError::InvalidSOS)
        } else if code == BL_ERROR_JPEG_INVALID_SOF {
            Error::Jpeg(JpegError::InvalidSOF)
        } else if code == BL_ERROR_JPEG_MULTIPLE_SOF {
            Error::Jpeg(JpegError::MultipleSOF)
        } else if code == BL_ERROR_JPEG_UNSUPPORTED_SOF {
            Error::Jpeg(JpegError::UnsupportedSOF)
        } else if code == BL_ERROR_FONT_NO_CHARACTER_MAPPING {
            Error::Font(FontError::NoCharacterMapping)
        } else if code == BL_ERROR_FONT_MISSING_IMPORTANT_TABLE {
            Error::Font(FontError::MissingImportantTable)
        } else if code == BL_ERROR_FONT_FEATURE_NOT_AVAILABLE {
            Error::Font(FontError::FeatureNotAvailable)
        } else if code == BL_ERROR_FONT_CFF_INVALID_DATA {
            Error::Font(FontError::CffInvalidData)
        } else if code == BL_ERROR_FONT_PROGRAM_TERMINATED {
            Error::Font(FontError::ProgramTerminated)
        } else {
            Error::InvalidGlyph
        }

}

/// Maps a blend2d result code to a `Result`: success becomes `Ok(())`, any
/// other code the `Error` it stands for.
///
/// A failed allocation is not an error the caller can handle, so the code
/// `BL_ERROR_OUT_OF_MEMORY` is not accepted here.
pub fn errcode_to_result(code: u32) -> (r: Result<()>)
    requires
        code == BL_SUCCESS || is_error_code(code),
    ensures
        match r {
            Ok(()) => code == BL_SUCCESS,
            Err(e) => error_code(e) == code,
        },
{
    if code == BL_SUCCESS {
        Ok(())
    } else {
        Err(error_from_errcode(code))
    }
}

/// Checks a result code of an operation that can only fail by running out of
/// memory; such a failure is not accepted here.
pub fn expect_mem_err(code: u32)
    requires
        code != BL_ERROR_OUT_OF_MEMORY,
{
}

/// Distinct errors stand for distinct result codes.
pub proof fn lemma_error_code_injective(a: Error, b: Error)
    requires
        error_code(a) == error_code(b),
    ensures
        a == b,
{
}

/// Every error stands for an error code.
pub proof fn lemma_error_code_is_error_code(e: Error)
    ensures
        is_error_code(error_code(e)),
{
}

} // verus!
