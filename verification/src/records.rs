//! Central-directory and local-file-header records: their binary layout as
//! specification functions, and verified parsers that follow it exactly.

use vstd::prelude::*;
use crate::Error;
use crate::bytes::{le16, le32, le64, read_u16_at, read_u32_at, read_u64_at, copy_range};

verus! {

/// Signature of a central-directory record, little-endian.
pub const CFH_SIGNATURE: u32 = 0x02014b50;

/// Signature of a local file header, little-endian.
pub const LFH_SIGNATURE: u32 = 0x04034b50;

/// Identifier of the ZIP64 extended-information extra field.
pub const ID_ZIP64_EXTENDED_INFO: u16 = 0x0001;

/// Sentinel marking a 32-bit size or offset field as ZIP64-overridden.
pub const ZIP64_SENTINEL: u32 = 0xffffffff;

/// One record of the central directory. Sizes and the local-header offset
/// are the 64-bit logical values: ZIP64-overridden where the 32-bit field
/// held the sentinel, widened otherwise.
#[derive(Debug)]
pub struct CentralFileHeader {
    pub made_by_ver: u16,
    pub extract_ver: u16,
    pub gp_flag: u16,
    pub method: u16,
    pub mod_time: u16,
    pub mod_date: u16,
    pub crc32: u32,
    pub comp_size: u64,
    pub uncomp_size: u64,
    pub disk_nbr_start: u16,
    pub int_attrs: u16,
    pub ext_attrs: u32,
    pub lfh_offset: u64,
    pub name: Vec<u8>,
    pub extra: Vec<u8>,
    pub comment: Vec<u8>,
}

/// The mathematical model of a central-directory record.
pub struct CfhView {
    pub made_by_ver: u16,
    pub extract_ver: u16,
    pub gp_flag: u16,
    pub method: u16,
    pub mod_time: u16,
    pub mod_date: u16,
    pub crc32: u32,
    pub comp_size: u64,
    pub uncomp_size: u64,
    pub disk_nbr_start: u16,
    pub int_attrs: u16,
    pub ext_attrs: u32,
    pub lfh_offset: u64,
    pub name: Seq<u8>,
    pub extra: Seq<u8>,
    pub comment: Seq<u8>,
}

impl View for CentralFileHeader {
    type V = CfhView;

    open spec fn view(&self) -> CfhView {
        CfhView {
            made_by_ver: self.made_by_ver,
            extract_ver: self.extract_ver,
            gp_flag: self.gp_flag,
            method: self.method,
            mod_time: self.mod_time,
            mod_date: self.mod_date,
            crc32: self.crc32,
            comp_size: self.comp_size,
            uncomp_size: self.uncomp_size,
            disk_nbr_start: self.disk_nbr_start,
            int_attrs: self.int_attrs,
            ext_attrs: self.ext_attrs,
            lfh_offset: self.lfh_offset,
            name: self.name@,
            extra: self.extra@,
            comment: self.comment@,
        }
    }
}

/// A local file header, re-parsed at the offset the central directory gave.
/// Its size and checksum copies are never trusted; it only locates the
/// compressed bytes.
#[derive(Debug)]
pub struct LocalFileHeader {
    pub extract_ver: u16,
    pub gp_flag: u16,
    pub method: u16,
    pub mod_time: u16,
    pub mod_date: u16,
    pub crc32: u32,
    pub comp_size: u32,
    pub uncomp_size: u32,
    pub name: Vec<u8>,
    pub extra: Vec<u8>,
}

/// The mathematical model of a local file header.
pub struct LfhView {
    pub extract_ver: u16,
    pub gp_flag: u16,
    pub method: u16,
    pub mod_time: u16,
    pub mod_date: u16,
    pub crc32: u32,
    pub comp_size: u32,
    pub uncomp_size: u32,
    pub name: Seq<u8>,
    pub extra: Seq<u8>,
}

impl View for LocalFileHeader {
    type V = LfhView;

    open spec fn view(&self) -> LfhView {
        LfhView {
            extract_ver: self.extract_ver,
            gp_flag: self.gp_flag,
            method: self.method,
            mod_time: self.mod_time,
            mod_date: self.mod_date,
            crc32: self.crc32,
            comp_size: self.comp_size,
            uncomp_size: self.uncomp_size,
            name: self.name@,
            extra: self.extra@,
        }
    }
}

/// Walks the extensible data fields of an `extra` span and returns the data
/// of the ZIP64 extended-information field, if present. A truncated field
/// list fails with `Eof`.
pub open spec fn spec_find_zip64(extra: Seq<u8>) -> Result<Option<Seq<u8>>, Error>
    decreases extra.len(),
{
    if extra.len() == 0 {
        Ok(None)
    } else if extra.len() < 4 {
        Err(Error::Eof)
    } else {
        let id = le16(extra.subrange(0, 2));
        let len = le16(extra.subrange(2, 4)) as int;
        if extra.len() < 4 + len {
            Err(Error::Eof)
        } else if id == ID_ZIP64_EXTENDED_INFO {
            Ok(Some(extra.subrange(4, 4 + len)))
        } else {
            spec_find_zip64(extra.skip(4 + len))
        }
    }
}

/// Applies the ZIP64 64-bit overrides to the three 32-bit fields, in fixed
/// order: uncompressed size, then compressed size, then local-header offset.
/// A field is overridden when it holds the sentinel, the archive is ZIP64
/// and a ZIP64 extra field is present; each override consumes eight bytes of
/// that field's data. Non-overridden fields widen their 32-bit value.
pub open spec fn spec_zip64_override(
    d: Option<Seq<u8>>,
    is_zip64: bool,
    uncomp32: u32,
    comp32: u32,
    lfh32: u32,
) -> Result<(u64, u64, u64), Error> {
    if !(is_zip64 && d is Some) {
        Ok((uncomp32 as u64, comp32 as u64, lfh32 as u64))
    } else {
        let data = d.unwrap();
        let nu: int = if uncomp32 == ZIP64_SENTINEL { 1 } else { 0 };
        let nc: int = if comp32 == ZIP64_SENTINEL { 1 } else { 0 };
        let nl: int = if lfh32 == ZIP64_SENTINEL { 1 } else { 0 };
        if data.len() < 8 * (nu + nc + nl) {
            Err(Error::Eof)
        } else {
            let uv = if nu == 1 { le64(data.subrange(0, 8)) } else { uncomp32 as u64 };
            let cv = if nc == 1 { le64(data.subrange(8 * nu, 8 * nu + 8)) } else { comp32 as u64 };
            let lv = if nl == 1 { le64(data.subrange(8 * (nu + nc), 8 * (nu + nc) + 8)) } else {
                lfh32 as u64
            };
            Ok((uv, cv, lv))
        }
    }
}

/// Parses one central-directory record from the front of `input`: signature,
/// fixed fields at their offsets, then the name, extra and comment spans,
/// then the ZIP64 overrides. Returns the record and the bytes consumed.
pub open spec fn spec_parse_cfh(input: Seq<u8>, is_zip64: bool) -> Result<(CfhView, int), Error> {
    if input.len() < 4 {
        Err(Error::Eof)
    } else if le32(input.subrange(0, 4)) != CFH_SIGNATURE {
        Err(Error::BadCfh)
    } else if input.len() < 46 {
        Err(Error::Eof)
    } else {
        let name_len = le16(input.subrange(28, 30)) as int;
        let extra_len = le16(input.subrange(30, 32)) as int;
        let comment_len = le16(input.subrange(32, 34)) as int;
        if input.len() < 46 + name_len + extra_len + comment_len {
            Err(Error::Eof)
        } else {
            let extra = input.subrange(46 + name_len, 46 + name_len + extra_len);
            match spec_find_zip64(extra) {
                Err(e) => Err(e),
                Ok(d) => match spec_zip64_override(
                    d,
                    is_zip64,
                    le32(input.subrange(24, 28)),
                    le32(input.subrange(20, 24)),
                    le32(input.subrange(42, 46)),
                ) {
                    Err(e) => Err(e),
                    Ok(sizes) => Ok(
                        (
                            CfhView {
                                made_by_ver: le16(input.subrange(4, 6)),
                                extract_ver: le16(input.subrange(6, 8)),
                                gp_flag: le16(input.subrange(8, 10)),
                                method: le16(input.subrange(10, 12)),
                                mod_time: le16(input.subrange(12, 14)),
                                mod_date: le16(input.subrange(14, 16)),
                                crc32: le32(input.subrange(16, 20)),
                                comp_size: sizes.1,
                                uncomp_size: sizes.0,
                                disk_nbr_start: le16(input.subrange(34, 36)),
                                int_attrs: le16(input.subrange(36, 38)),
                                ext_attrs: le32(input.subrange(38, 42)),
                                lfh_offset: sizes.2,
                                name: input.subrange(46, 46 + name_len),
                                extra: extra,
                                comment: input.subrange(
                                    46 + name_len + extra_len,
                                    46 + name_len + extra_len + comment_len,
                                ),
                            },
                            46 + name_len + extra_len + comment_len,
                        ),
                    ),
                },
            }
        }
    }
}

/// Parses a local file header from the front of `input`: signature, fixed
/// fields at their offsets, then the name and extra spans. Returns the
/// header and the bytes consumed.
pub open spec fn spec_parse_lfh(input: Seq<u8>) -> Result<(LfhView, int), Error> {
    if input.len() < 4 {
        Err(Error::Eof)
    } else if le32(input.subrange(0, 4)) != LFH_SIGNATURE {
        Err(Error::BadLfh)
    } else if input.len() < 30 {
        Err(Error::Eof)
    } else {
        let name_len = le16(input.subrange(26, 28)) as int;
        let extra_len = le16(input.subrange(28, 30)) as int;
        if input.len() < 30 + name_len + extra_len {
            Err(Error::Eof)
        } else {
            Ok(
                (
                    LfhView {
                        extract_ver: le16(input.subrange(4, 6)),
                        gp_flag: le16(input.subrange(6, 8)),
                        method: le16(input.subrange(8, 10)),
                        mod_time: le16(input.subrange(10, 12)),
                        mod_date: le16(input.subrange(12, 14)),
                        crc32: le32(input.subrange(14, 18)),
                        comp_size: le32(input.subrange(18, 22)),
                        uncomp_size: le32(input.subrange(22, 26)),
                        name: input.subrange(30, 30 + name_len),
                        extra: input.subrange(30 + name_len, 30 + name_len + extra_len),
                    },
                    30 + name_len + extra_len,
                ),
            )
        }
    }
}

/// The ZIP64 overrides are drawn in fixed order from the extended-
/// information data: each sentinel field consumes the next eight bytes,
/// uncompressed size first, then compressed size, then local-header
/// offset; a non-sentinel field consumes nothing and widens its 32-bit
/// value.
pub proof fn lemma_zip64_override_order(
    data: Seq<u8>,
    is_zip64: bool,
    uncomp32: u32,
    comp32: u32,
    lfh32: u32,
)
    requires
        is_zip64,
        data.len() >= 8 * ((if uncomp32 == ZIP64_SENTINEL { 1int } else { 0int }) + (
        if comp32 == ZIP64_SENTINEL { 1int } else { 0int }) + (if lfh32 == ZIP64_SENTINEL {
            1int
        } else {
            0int
        })),
    ensures
        ({
            let r = spec_zip64_override(Some(data), is_zip64, uncomp32, comp32, lfh32);
            let nu: int = if uncomp32 == ZIP64_SENTINEL { 1 } else { 0 };
            let nc: int = if comp32 == ZIP64_SENTINEL { 1 } else { 0 };
            &&& r is Ok
            &&& r->Ok_0.0 == (if uncomp32 == ZIP64_SENTINEL { le64(data.subrange(0, 8)) } else {
                uncomp32 as u64
            })
            &&& r->Ok_0.1 == (if comp32 == ZIP64_SENTINEL {
                le64(data.subrange(8 * nu, 8 * nu + 8))
            } else {
                comp32 as u64
            })
            &&& r->Ok_0.2 == (if lfh32 == ZIP64_SENTINEL {
                le64(data.subrange(8 * (nu + nc), 8 * (nu + nc) + 8))
            } else {
                lfh32 as u64
            })
        }),
{
}

/// Finds the ZIP64 extended-information data inside an `extra` span.
fn find_zip64_extra<'a>(extra: &'a [u8]) -> (r: Result<Option<&'a [u8]>, Error>)
    ensures
        (match spec_find_zip64(extra@) {
            Ok(None) => r matches Ok(None),
            Ok(Some(s)) => r matches Ok(Some(d)) && d@ == s,
            Err(e) => r matches Err(e2) && e2 == e,
        }),
{
    let mut cur: &[u8] = extra;
    loop
        invariant
            spec_find_zip64(extra@) == spec_find_zip64(cur@),
        decreases cur@.len(),
    {
        if cur.len() == 0 {
            return Ok(None);
        }
        if cur.len() < 4 {
            return Err(Error::Eof);
        }
        let id = read_u16_at(cur, 0);
        let len = read_u16_at(cur, 2) as usize;
        if cur.len() - 4 < len {
            return Err(Error::Eof);
        }
        if id == ID_ZIP64_EXTENDED_INFO {
            let data = vstd::slice::slice_subrange(cur, 4, 4 + len);
            return Ok(Some(data));
        }
        cur = vstd::slice::slice_subrange(cur, 4 + len, cur.len());
    }
}

/// Applies the ZIP64 overrides as `spec_zip64_override` describes.
fn zip64_override(
    d: Option<&[u8]>,
    is_zip64: bool,
    uncomp32: u32,
    comp32: u32,
    lfh32: u32,
) -> (r: Result<(u64, u64, u64), Error>)
    ensures
        (match spec_zip64_override(
            (match d {
                Some(s) => Some(s@),
                None => None,
            }),
            is_zip64,
            uncomp32,
            comp32,
            lfh32,
        ) {
            Ok(v) => r matches Ok(v2) && v2 == v,
            Err(e) => r matches Err(e2) && e2 == e,
        }),
{
    match d {
        None => Ok(((uncomp32 as u64), (comp32 as u64), (lfh32 as u64))),
        Some(data) => {
            if !is_zip64 {
                return Ok(((uncomp32 as u64), (comp32 as u64), (lfh32 as u64)));
            }
            let nu: usize = if uncomp32 == ZIP64_SENTINEL { 1 } else { 0 };
            let nc: usize = if comp32 == ZIP64_SENTINEL { 1 } else { 0 };
            let nl: usize = if lfh32 == ZIP64_SENTINEL { 1 } else { 0 };
            if data.len() < 8 * (nu + nc + nl) {
                return Err(Error::Eof);
            }
            let uv: u64 = if nu == 1 { read_u64_at(data, 0) } else { uncomp32 as u64 };
            let cv: u64 = if nc == 1 { read_u64_at(data, 8 * nu) } else { comp32 as u64 };
            let lv: u64 = if nl == 1 { read_u64_at(data, 8 * (nu + nc)) } else { lfh32 as u64 };
            Ok((uv, cv, lv))
        },
    }
}

impl CentralFileHeader {
    /// Parses one central-directory record from the front of `input`,
    /// returning the remainder and the record, exactly as
    /// `spec_parse_cfh` describes.
    pub fn parse<'a>(input: &'a [u8], is_zip64: bool) -> (r: Result<
        (&'a [u8], CentralFileHeader),
        Error,
    >)
        ensures
            (match spec_parse_cfh(input@, is_zip64) {
                Ok(hu) => r matches Ok(p) && p.1@ == hu.0 && p.0@ == input@.skip(hu.1),
                Err(e) => r matches Err(e2) && e2 == e,
            }),
    {
        if input.len() < 4 {
            return Err(Error::Eof);
        }
        let sig = read_u32_at(input, 0);
        if sig != CFH_SIGNATURE {
            return Err(Error::BadCfh);
        }
        if input.len() < 46 {
            return Err(Error::Eof);
        }
        let name_len = read_u16_at(input, 28) as usize;
        let extra_len = read_u16_at(input, 30) as usize;
        let comment_len = read_u16_at(input, 32) as usize;
        if input.len() - 46 < name_len || input.len() - 46 - name_len < extra_len || input.len()
            - 46 - name_len - extra_len < comment_len {
            return Err(Error::Eof);
        }
        let total = 46 + name_len + extra_len + comment_len;
        let name = copy_range(input, 46, name_len);
        let extra = copy_range(input, 46 + name_len, extra_len);
        let comment = copy_range(input, 46 + name_len + extra_len, comment_len);
        let d = match find_zip64_extra(extra.as_slice()) {
            Ok(d) => d,
            Err(e) => {
                return Err(e);
            },
        };
        let sizes = match zip64_override(
            d,
            is_zip64,
            read_u32_at(input, 24),
            read_u32_at(input, 20),
            read_u32_at(input, 42),
        ) {
            Ok(v) => v,
            Err(e) => {
                return Err(e);
            },
        };
        let rest = vstd::slice::slice_subrange(input, total, input.len());
        let header = CentralFileHeader {
            made_by_ver: read_u16_at(input, 4),
            extract_ver: read_u16_at(input, 6),
            gp_flag: read_u16_at(input, 8),
            method: read_u16_at(input, 10),
            mod_time: read_u16_at(input, 12),
            mod_date: read_u16_at(input, 14),
            crc32: read_u32_at(input, 16),
            comp_size: sizes.1,
            uncomp_size: sizes.0,
            disk_nbr_start: read_u16_at(input, 34),
            int_attrs: read_u16_at(input, 36),
            ext_attrs: read_u32_at(input, 38),
            lfh_offset: sizes.2,
            name,
            extra,
            comment,
        };
        Ok((rest, header))
    }
}

impl LocalFileHeader {
    /// Parses a local file header from the front of `input`, returning the
    /// remainder and the header, exactly as `spec_parse_lfh` describes.
    pub fn parse<'a>(input: &'a [u8]) -> (r: Result<(&'a [u8], LocalFileHeader), Error>)
        ensures
            (match spec_parse_lfh(input@) {
                Ok(hu) => r matches Ok(p) && p.1@ == hu.0 && p.0@ == input@.skip(hu.1),
                Err(e) => r matches Err(e2) && e2 == e,
            }),
    {
        if input.len() < 4 {
            return Err(Error::Eof);
        }
        let sig = read_u32_at(input, 0);
        if sig != LFH_SIGNATURE {
            return Err(Error::BadLfh);
        }
        if input.len() < 30 {
            return Err(Error::Eof);
        }
        let name_len = read_u16_at(input, 26) as usize;
        let extra_len = read_u16_at(input, 28) as usize;
        if input.len() - 30 < name_len || input.len() - 30 - name_len < extra_len {
            return Err(Error::Eof);
        }
        let total = 30 + name_len + extra_len;
        let name = copy_range(input, 30, name_len);
        let extra = copy_range(input, 30 + name_len, extra_len);
        let rest = vstd::slice::slice_subrange(input, total, input.len());
        let header = LocalFileHeader {
            extract_ver: read_u16_at(input, 4),
            gp_flag: read_u16_at(input, 6),
            method: read_u16_at(input, 8),
            mod_time: read_u16_at(input, 10),
            mod_date: read_u16_at(input, 12),
            crc32: read_u32_at(input, 14),
            comp_size: read_u32_at(input, 18),
            uncomp_size: read_u32_at(input, 22),
            name,
            extra,
        };
        Ok((rest, header))
    }
}

} // verus!
