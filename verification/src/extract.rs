//! Per-entry extraction: decompression dispatch by method code, the
//! decompressed-size cap that defuses zip bombs, content-integrity checking,
//! and permission sanitizing.

use vstd::prelude::*;
use crate::Error;
use crate::bytes::copy_range;
use crate::records::{CentralFileHeader, CfhView};

verus! {

/// Compression method code: stored without compression.
pub const STORE: u16 = 0;

/// Compression method code: DEFLATE.
pub const DEFLATE: u16 = 8;

/// Compression method code: Zstandard.
pub const ZSTD: u16 = 93;

/// Made-by field's high byte marking a UNIX origin, whose external
/// attributes carry permission bits.
pub const UNIX: u16 = 3;

/// The byte stream the DEFLATE decoder emits for a compressed stream, up
/// to its end or the first stream error. It depends on the input alone.
pub uninterp spec fn inflate_of(s: Seq<u8>) -> Seq<u8>;

/// The byte stream the Zstandard decoder emits for a compressed stream, up
/// to its end or the first stream error. It depends on the input alone.
pub uninterp spec fn zstd_of(s: Seq<u8>) -> Seq<u8>;

/// The CRC32 checksum of a byte sequence.
pub uninterp spec fn crc32_of(s: Seq<u8>) -> u32;

/// The decoded stream for a method code, before the size cap.
pub open spec fn spec_decoded(method: u16, s: Seq<u8>) -> Seq<u8> {
    if method == STORE {
        s
    } else if method == DEFLATE {
        inflate_of(s)
    } else {
        zstd_of(s)
    }
}

/// A sequence clipped to at most `n` elements.
pub open spec fn clip(s: Seq<u8>, n: int) -> Seq<u8> {
    if s.len() <= n {
        s
    } else {
        s.take(n)
    }
}

/// A method code the pipeline can decode.
pub open spec fn spec_method_supported(method: u16) -> bool {
    method == STORE || method == DEFLATE || method == ZSTD
}

/// What extraction yields for a record and its compressed bytes: the
/// decoded stream, truncated to the record's claimed uncompressed size.
pub open spec fn spec_extract_output(h: CfhView, comp: Seq<u8>) -> Seq<u8> {
    clip(spec_decoded(h.method, comp), h.uncomp_size as int)
}

/// Relies on `crc32fast::hash`: the CRC32 of the bytes, a function of the
/// bytes alone.
#[verifier::external_body]
fn compute_crc32(data: &[u8]) -> (r: u32)
    ensures
        r == crc32_of(data@),
{
    crc32fast::hash(data)
}

/// Relies on `flate2::bufread::DeflateDecoder` wrapped in `Read::take`: on
/// success the output is the decoded stream, stopped after at most `cap`
/// bytes whatever the decoder would otherwise emit; a stream error before
/// the cap is reported as `None`.
#[verifier::external_body]
fn inflate_up_to(src: &[u8], cap: u64) -> (r: Option<Vec<u8>>)
    ensures
        r matches Some(v) ==> v@ == clip(inflate_of(src@), cap as int),
{
    let decoder = flate2::bufread::DeflateDecoder::new(src);
    let mut limited = std::io::Read::take(decoder, cap);
    let mut out: Vec<u8> = Vec::new();
    match std::io::Read::read_to_end(&mut limited, &mut out) {
        Ok(_) => Some(out),
        Err(_) => None,
    }
}

/// Relies on `zstd::stream::read::Decoder` wrapped in `Read::take`: on
/// success the output is the decoded stream, stopped after at most `cap`
/// bytes whatever the decoder would otherwise emit; a stream error before
/// the cap is reported as `None`.
#[verifier::external_body]
fn zstd_up_to(src: &[u8], cap: u64) -> (r: Option<Vec<u8>>)
    ensures
        r matches Some(v) ==> v@ == clip(zstd_of(src@), cap as int),
{
    let decoder = match zstd::stream::read::Decoder::with_buffer(src) {
        Ok(d) => d,
        Err(_) => return None,
    };
    let mut limited = std::io::Read::take(decoder, cap);
    let mut out: Vec<u8> = Vec::new();
    match std::io::Read::read_to_end(&mut limited, &mut out) {
        Ok(_) => Some(out),
        Err(_) => None,
    }
}

/// Decompresses `src` by method code, emitting at most `cap` bytes:
/// store passes the bytes through, DEFLATE and Zstandard run their
/// decoders, every other code is refused.
pub fn decompress(method: u16, src: &[u8], cap: u64) -> (r: Result<Vec<u8>, Error>)
    ensures
        r matches Ok(v) ==> spec_method_supported(method) && v@ == clip(
            spec_decoded(method, src@),
            cap as int,
        ) && v@.len() <= cap,
        method == STORE ==> (r matches Ok(v) && v@ == clip(src@, cap as int)),
        method == DEFLATE || method == ZSTD ==> (r matches Err(e) ==> e == Error::BadStream),
        !spec_method_supported(method) ==> (r matches Err(e) && e == Error::Unsupported),
{
    if method == STORE {
        let n: usize = if (src.len() as u64) <= cap {
            src.len()
        } else {
            cap as usize
        };
        let v = copy_range(src, 0, n);
        assert(v@ == clip(src@, cap as int));
        Ok(v)
    } else if method == DEFLATE {
        match inflate_up_to(src, cap) {
            Some(v) => Ok(v),
            None => Err(Error::BadStream),
        }
    } else if method == ZSTD {
        match zstd_up_to(src, cap) {
            Some(v) => Ok(v),
            None => Err(Error::BadStream),
        }
    } else {
        Err(Error::Unsupported)
    }
}

/// True exactly when the bytes' checksum equals the expected value.
pub fn check_crc(data: &[u8], expect: u32) -> (r: bool)
    ensures
        r == (crc32_of(data@) == expect),
{
    compute_crc32(data) == expect
}

impl CentralFileHeader {
    /// The low bit of the general-purpose flags marks an encrypted entry,
    /// which the pipeline refuses.
    pub fn is_encrypted(&self) -> (r: bool)
        ensures
            r == (self@.gp_flag & 1u16 != 0u16),
    {
        self.gp_flag & 1u16 != 0u16
    }
}

/// Extracts one file entry's content: refuses encrypted entries, selects
/// the decoder by method code, truncates the decoded stream to the
/// record's claimed uncompressed size, and checks the checksum over
/// exactly those bytes.
pub fn extract_file(cfh: &CentralFileHeader, comp: &[u8]) -> (r: Result<Vec<u8>, Error>)
    ensures
        r matches Ok(v) ==> cfh@.gp_flag & 1u16 == 0u16 && spec_method_supported(cfh@.method) && v@
            == spec_extract_output(cfh@, comp@) && v@.len() <= cfh@.uncomp_size && crc32_of(v@)
            == cfh@.crc32,
        (r matches Err(e) && e == Error::Unsupported) <==> (cfh@.gp_flag & 1u16 != 0u16
            || !spec_method_supported(cfh@.method)),
        r matches Err(e) && e == Error::BadStream ==> cfh@.gp_flag & 1u16 == 0u16 && (cfh@.method
            == DEFLATE || cfh@.method == ZSTD),
        r matches Err(e) && e == Error::CrcMismatch ==> cfh@.gp_flag & 1u16 == 0u16 && crc32_of(
            spec_extract_output(cfh@, comp@),
        ) != cfh@.crc32,
        cfh@.gp_flag & 1u16 == 0u16 && cfh@.method == STORE ==> (r is Ok <==> crc32_of(
            spec_extract_output(cfh@, comp@),
        ) == cfh@.crc32),
        r matches Err(e) ==> e == Error::Unsupported || e == Error::BadStream || e
            == Error::CrcMismatch,
{
    if cfh.is_encrypted() {
        return Err(Error::Unsupported);
    }
    let out = match decompress(cfh.method, comp, cfh.uncomp_size) {
        Ok(v) => v,
        Err(e) => {
            return Err(e);
        },
    };
    if !check_crc(out.as_slice(), cfh.crc32) {
        return Err(Error::CrcMismatch);
    }
    Ok(out)
}

/// Clears the set-uid and set-gid bits from a stored permission mode, so
/// extraction can never create privilege-escalating files.
pub fn sanitize_setuid(mode: u32) -> (r: u32)
    ensures
        r == mode & 0xfffff3ffu32,
        r & 0xc00u32 == 0u32,
{
    let r = mode & 0xfffff3ffu32;
    assert(r & 0xc00u32 == 0u32) by (bit_vector)
        requires
            r == mode & 0xfffff3ffu32,
    ;
    r
}

/// A stored entry round-trips: with the cap at or above its length, the
/// extracted bytes are exactly the stored bytes.
pub proof fn lemma_store_round_trip(s: Seq<u8>, n: int)
    requires
        s.len() <= n,
    ensures
        clip(spec_decoded(STORE, s), n) == s,
{
}

/// The zip-bomb cap: when the decoder would emit at least `uncomp_size`
/// bytes, the extracted content is exactly the first `uncomp_size` of
/// them, whatever else the decoder would go on to emit; the integrity
/// check judges those bytes alone.
pub proof fn lemma_cap_truncates(h: CfhView, comp: Seq<u8>)
    requires
        spec_decoded(h.method, comp).len() >= h.uncomp_size,
    ensures
        spec_extract_output(h, comp).len() == h.uncomp_size,
        spec_extract_output(h, comp) == spec_decoded(h.method, comp).take(h.uncomp_size as int),
{
    if spec_decoded(h.method, comp).len() == h.uncomp_size {
        assert(spec_decoded(h.method, comp).take(h.uncomp_size as int) =~= spec_decoded(
            h.method,
            comp,
        ));
    }
}

} // verus!
