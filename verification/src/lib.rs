//! Safe ZIP archive reading: container parsing, entry resolution and
//! extraction checks, with defenses against hostile input.

pub mod archive;
pub mod bytes;
pub mod eocdr;
pub mod extract;
pub mod names;
pub mod paths;
pub mod pipeline;
pub mod records;
pub mod timestamp;

use vstd::prelude::*;

verus! {

/// Everything that can go wrong while parsing an archive or extracting
/// one of its entries.
#[derive(Clone, Copy, Debug, PartialEq, Eq, Structural)]
pub enum Error {
    /// The buffer was exhausted in the middle of a structure.
    Eof,
    /// The end-of-central-directory signature was absent or misplaced.
    BadEocdr,
    /// A central-directory record had a bad signature.
    BadCfh,
    /// A local file header had a bad signature.
    BadLfh,
    /// Multi-disk archive, unknown compression method, or encrypted entry.
    Unsupported,
    /// A stored offset or size exceeds the host address width.
    OffsetOverflow,
    /// An entry name is an absolute path.
    PathNotRelative,
    /// An entry name climbs above the extraction root.
    PathLimit,
    /// The decompressed bytes do not match the recorded checksum.
    CrcMismatch,
    /// The compressed byte stream itself is malformed.
    BadStream,
    /// A DOS timestamp field falls outside its calendar-valid range.
    BadTime,
}

impl From<crate::bytes::Eof> for Error {
    fn from(_v: crate::bytes::Eof) -> (r: Error) {
        Error::Eof
    }
}

impl vstd::std_specs::convert::FromSpecImpl<crate::bytes::Eof> for Error {
    open spec fn obeys_from_spec() -> bool {
        true
    }

    open spec fn from_spec(_v: crate::bytes::Eof) -> Error {
        Error::Eof
    }
}

impl Error {
    /// A short description of the error, for reporting.
    pub fn message(&self) -> (r: &'static str)
        ensures
            self is Eof ==> r@ == "eof"@,
            self is BadEocdr ==> r@ == "bad eocdr magic number"@,
            self is BadCfh ==> r@ == "bad cfh magic number"@,
            self is BadLfh ==> r@ == "bad lfh magic number"@,
            self is Unsupported ==> r@ == "not supported"@,
            self is OffsetOverflow ==> r@ == "offset overflow"@,
            self is PathNotRelative ==> r@ == "must relative path"@,
            self is PathLimit ==> r@ == "filename over the path limit"@,
            self is CrcMismatch ==> r@ == "crc32 check failed"@,
            self is BadStream ==> r@ == "compressed stream is malformed"@,
            self is BadTime ==> r@ == "timestamp out of range"@,
    {
        match self {
            Error::Eof => "eof",
            Error::BadEocdr => "bad eocdr magic number",
            Error::BadCfh => "bad cfh magic number",
            Error::BadLfh => "bad lfh magic number",
            Error::Unsupported => "not supported",
            Error::OffsetOverflow => "offset overflow",
            Error::PathNotRelative => "must relative path",
            Error::PathLimit => "filename over the path limit",
            Error::CrcMismatch => "crc32 check failed",
            Error::BadStream => "compressed stream is malformed",
            Error::BadTime => "timestamp out of range",
        }
    }
}

} // verus!
