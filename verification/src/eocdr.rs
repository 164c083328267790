//! Locating and parsing the end-of-central-directory records, 32-bit and
//! ZIP64: a bounded backward scan for the trailer signature, then strictly
//! bounds-checked field reads.

use vstd::prelude::*;
use crate::Error;
use crate::bytes::{
    le16,
    le32,
    le64,
    matches_at,
    rfind,
    read_u16_at,
    read_u32_at,
    read_u64_at,
    copy_range,
};

verus! {

broadcast use vstd::slice::axiom_spec_len;

/// Signature of the ZIP64 end-of-central-directory record, little-endian.
pub const EOCDR64_SIGNATURE: u32 = 0x06064b50;

/// Signature of the ZIP64 end-of-central-directory locator, little-endian.
pub const LOCATOR_SIGNATURE: u32 = 0x07064b50;

/// Fixed size of the ZIP64 end-of-central-directory locator.
pub const LOCATOR_LEN: usize = 20;

/// How far back from the end of the buffer the trailer scan reaches:
/// larger than the trailer plus the largest possible comment.
pub const MAX_BACK_OFFSET: usize = 1024 * 128;

/// The end-of-central-directory signature as bytes.
pub open spec fn eocdr_sig_seq() -> Seq<u8> {
    seq![0x50u8, 0x4bu8, 0x05u8, 0x06u8]
}

/// Start of the backward-scan window: the last `MAX_BACK_OFFSET` bytes.
pub open spec fn window_start(buf: Seq<u8>) -> int {
    if buf.len() >= MAX_BACK_OFFSET {
        buf.len() - MAX_BACK_OFFSET
    } else {
        0
    }
}

/// The trailer signature occurs at `i`, inside the scan window.
pub open spec fn eocdr_candidate(buf: Seq<u8>, i: int) -> bool {
    i >= window_start(buf) && matches_at(buf, eocdr_sig_seq(), i)
}

/// The position of the last candidate signature in the scan window.
pub open spec fn spec_eocdr_pos(buf: Seq<u8>) -> int {
    choose|i: int|
        eocdr_candidate(buf, i) && (forall|j: int| j > i ==> !eocdr_candidate(buf, j))
}

/// The 32-bit end-of-central-directory record.
#[derive(Debug)]
pub struct EocdRecord32 {
    pub sig: u32,
    pub disk_nbr: u16,
    pub cd_start_disk: u16,
    pub disk_cd_entries: u16,
    pub cd_entries: u16,
    pub cd_size: u32,
    pub cd_offset: u32,
    pub comment: Vec<u8>,
}

/// The mathematical model of the 32-bit record.
pub struct Eocd32View {
    pub sig: u32,
    pub disk_nbr: u16,
    pub cd_start_disk: u16,
    pub disk_cd_entries: u16,
    pub cd_entries: u16,
    pub cd_size: u32,
    pub cd_offset: u32,
    pub comment: Seq<u8>,
}

impl View for EocdRecord32 {
    type V = Eocd32View;

    open spec fn view(&self) -> Eocd32View {
        Eocd32View {
            sig: self.sig,
            disk_nbr: self.disk_nbr,
            cd_start_disk: self.cd_start_disk,
            disk_cd_entries: self.disk_cd_entries,
            cd_entries: self.cd_entries,
            cd_size: self.cd_size,
            cd_offset: self.cd_offset,
            comment: self.comment@,
        }
    }
}

/// The ZIP64 end-of-central-directory record.
#[derive(Debug)]
pub struct EocdRecord64 {
    pub sig: u32,
    pub size: usize,
    pub made_by_ver: u16,
    pub extract_ver: u16,
    pub disk_nbr: u32,
    pub cd_start_disk: u32,
    pub disk_cd_entries: u64,
    pub cd_entries: u64,
    pub cd_size: u64,
    pub cd_offset: u64,
    pub ext_data_sector: Vec<u8>,
}

/// The mathematical model of the ZIP64 record.
pub struct Eocd64View {
    pub sig: u32,
    pub size: usize,
    pub made_by_ver: u16,
    pub extract_ver: u16,
    pub disk_nbr: u32,
    pub cd_start_disk: u32,
    pub disk_cd_entries: u64,
    pub cd_entries: u64,
    pub cd_size: u64,
    pub cd_offset: u64,
    pub ext_data_sector: Seq<u8>,
}

impl View for EocdRecord64 {
    type V = Eocd64View;

    open spec fn view(&self) -> Eocd64View {
        Eocd64View {
            sig: self.sig,
            size: self.size,
            made_by_ver: self.made_by_ver,
            extract_ver: self.extract_ver,
            disk_nbr: self.disk_nbr,
            cd_start_disk: self.cd_start_disk,
            disk_cd_entries: self.disk_cd_entries,
            cd_entries: self.cd_entries,
            cd_size: self.cd_size,
            cd_offset: self.cd_offset,
            ext_data_sector: self.ext_data_sector@,
        }
    }
}

/// Parses the fixed fields and comment of a 32-bit trailer whose signature
/// stands at `i`.
pub open spec fn spec_parse_eocdr32_at(buf: Seq<u8>, i: int) -> Result<Eocd32View, Error> {
    if buf.len() < i + 22 {
        Err(Error::Eof)
    } else {
        let comment_len = le16(buf.subrange(i + 20, i + 22)) as int;
        if buf.len() < i + 22 + comment_len {
            Err(Error::Eof)
        } else {
            Ok(
                Eocd32View {
                    sig: le32(buf.subrange(i, i + 4)),
                    disk_nbr: le16(buf.subrange(i + 4, i + 6)),
                    cd_start_disk: le16(buf.subrange(i + 6, i + 8)),
                    disk_cd_entries: le16(buf.subrange(i + 8, i + 10)),
                    cd_entries: le16(buf.subrange(i + 10, i + 12)),
                    cd_size: le32(buf.subrange(i + 12, i + 16)),
                    cd_offset: le32(buf.subrange(i + 16, i + 20)),
                    comment: buf.subrange(i + 22, i + 22 + comment_len),
                },
            )
        }
    }
}

/// Locates and parses the 32-bit trailer: the last signature occurrence in
/// the scan window, or `BadEocdr` when there is none.
pub open spec fn spec_find_eocdr32(buf: Seq<u8>) -> Result<(Eocd32View, int), Error> {
    if !(exists|i: int|
        eocdr_candidate(buf, i) && (forall|j: int| j > i ==> !eocdr_candidate(buf, j))) {
        Err(Error::BadEocdr)
    } else {
        let p = spec_eocdr_pos(buf);
        match spec_parse_eocdr32_at(buf, p) {
            Ok(v) => Ok((v, p)),
            Err(e) => Err(e),
        }
    }
}

/// Parses the ZIP64 locator that ends where the 32-bit trailer starts, then
/// the ZIP64 end-of-central-directory record at the absolute offset the
/// locator holds, clipping its fields to the record's declared size.
pub open spec fn spec_parse_eocdr64(buf: Seq<u8>, eo: int) -> Result<Eocd64View, Error> {
    if eo < LOCATOR_LEN {
        Err(Error::OffsetOverflow)
    } else if eo > buf.len() {
        Err(Error::BadEocdr)
    } else if le32(buf.subrange(eo - 20, eo - 16)) != LOCATOR_SIGNATURE {
        Err(Error::BadEocdr)
    } else {
        let zo = le64(buf.subrange(eo - 12, eo - 4)) as int;
        if zo > usize::MAX {
            Err(Error::OffsetOverflow)
        } else if zo + 4 > buf.len() {
            Err(Error::BadEocdr)
        } else if le32(buf.subrange(zo, zo + 4)) != EOCDR64_SIGNATURE {
            Err(Error::BadEocdr)
        } else if buf.len() < zo + 12 {
            Err(Error::Eof)
        } else {
            let sz = le64(buf.subrange(zo + 4, zo + 12)) as int;
            if sz > usize::MAX {
                Err(Error::OffsetOverflow)
            } else if buf.len() - (zo + 12) < sz {
                Err(Error::BadEocdr)
            } else if sz < 44 {
                Err(Error::Eof)
            } else {
                Ok(
                    Eocd64View {
                        sig: le32(buf.subrange(zo, zo + 4)),
                        size: sz as usize,
                        made_by_ver: le16(buf.subrange(zo + 12, zo + 14)),
                        extract_ver: le16(buf.subrange(zo + 14, zo + 16)),
                        disk_nbr: le32(buf.subrange(zo + 16, zo + 20)),
                        cd_start_disk: le32(buf.subrange(zo + 20, zo + 24)),
                        disk_cd_entries: le64(buf.subrange(zo + 24, zo + 32)),
                        cd_entries: le64(buf.subrange(zo + 32, zo + 40)),
                        cd_size: le64(buf.subrange(zo + 40, zo + 48)),
                        cd_offset: le64(buf.subrange(zo + 48, zo + 56)),
                        ext_data_sector: buf.subrange(zo + 12 + 44, zo + 12 + sz),
                    },
                )
            }
        }
    }
}

/// A signature match in the whole buffer corresponds to one in the window.
proof fn lemma_window_match(buf: Seq<u8>, ws: int, j: int)
    requires
        0 <= ws <= buf.len(),
        ws <= j,
    ensures
        matches_at(buf, eocdr_sig_seq(), j) <==> matches_at(
            buf.subrange(ws, buf.len() as int),
            eocdr_sig_seq(),
            j - ws,
        ),
{
    let w = buf.subrange(ws, buf.len() as int);
    assert(eocdr_sig_seq().len() == 4);
    if j + 4 <= buf.len() {
        assert(w.subrange(j - ws, j - ws + 4) =~= buf.subrange(j, j + 4));
    }
}

/// Two positions that are both the last candidate are the same position.
proof fn lemma_last_candidate_unique(buf: Seq<u8>, i1: int, i2: int)
    requires
        eocdr_candidate(buf, i1),
        forall|j: int| j > i1 ==> !eocdr_candidate(buf, j),
        eocdr_candidate(buf, i2),
        forall|j: int| j > i2 ==> !eocdr_candidate(buf, j),
    ensures
        i1 == i2,
{
    if i1 < i2 {
        assert(!eocdr_candidate(buf, i2));
    } else if i2 < i1 {
        assert(!eocdr_candidate(buf, i1));
    }
}

/// The end-of-central-directory signature as an owned needle.
fn eocdr_sig_vec() -> (r: Vec<u8>)
    ensures
        r@ == eocdr_sig_seq(),
{
    let mut v: Vec<u8> = Vec::new();
    v.push(0x50u8);
    v.push(0x4bu8);
    v.push(0x05u8);
    v.push(0x06u8);
    assert(v@ =~= eocdr_sig_seq());
    v
}

/// Scans backward for the last trailer-signature occurrence in the window.
#[verifier::rlimit(60)]
fn locate_eocdr(buf: &[u8]) -> (r: Option<usize>)
    ensures
        (match r {
            Some(i) => eocdr_candidate(buf@, i as int) && (forall|j: int|
                j > i ==> !eocdr_candidate(buf@, j)) && spec_eocdr_pos(buf@) == i as int,
            None => forall|j: int| !eocdr_candidate(buf@, j),
        }),
{
    let blen = buf.len();
    let ws: usize = if blen >= MAX_BACK_OFFSET {
        blen - MAX_BACK_OFFSET
    } else {
        0
    };
    assert(ws == window_start(buf@));
    let window = vstd::slice::slice_subrange(buf, ws, blen);
    let sig = eocdr_sig_vec();
    let found = rfind(window, sig.as_slice());
    match found {
        None => {
            proof {
                assert forall|j: int| !eocdr_candidate(buf@, j) by {
                    if j >= ws {
                        lemma_window_match(buf@, ws as int, j);
                    }
                }
            }
            None
        },
        Some(wpos) => {
            let pos = ws + wpos;
            proof {
                lemma_window_match(buf@, ws as int, pos as int);
                assert(eocdr_candidate(buf@, pos as int));
                assert forall|j: int| j > pos implies !eocdr_candidate(buf@, j) by {
                    lemma_window_match(buf@, ws as int, j);
                    assert(!matches_at(window@, eocdr_sig_seq(), j - ws));
                }
                assert(exists|i: int|
                    eocdr_candidate(buf@, i) && (forall|j: int|
                        j > i ==> !eocdr_candidate(buf@, j))) by {
                    assert(eocdr_candidate(buf@, pos as int) && (forall|j: int|
                        j > pos ==> !eocdr_candidate(buf@, j)));
                }
                let p = spec_eocdr_pos(buf@);
                assert(eocdr_candidate(buf@, p) && (forall|j: int|
                    j > p ==> !eocdr_candidate(buf@, j)));
                lemma_last_candidate_unique(buf@, p, pos as int);
            }
            Some(pos)
        },
    }
}

impl EocdRecord32 {
    /// Scans backward over the last `MAX_BACK_OFFSET` bytes for the trailer
    /// signature and parses the record there, as `spec_find_eocdr32`
    /// describes. Returns the record and its absolute offset.
    pub fn find(buf: &[u8]) -> (r: Result<(EocdRecord32, usize), Error>)
        ensures
            (match r {
                Ok(p) => spec_find_eocdr32(buf@) == Ok::<_, Error>((p.0@, p.1 as int)),
                Err(e) => spec_find_eocdr32(buf@) == Err::<(Eocd32View, int), Error>(e),
            }),
    {
        let blen = buf.len();
        match locate_eocdr(buf) {
            None => {
                Err(Error::BadEocdr)
            },
            Some(pos) => {
                proof {
                    assert(exists|i: int|
                        eocdr_candidate(buf@, i) && (forall|j: int|
                            j > i ==> !eocdr_candidate(buf@, j))) by {
                        assert(eocdr_candidate(buf@, pos as int) && (forall|j: int|
                            j > pos ==> !eocdr_candidate(buf@, j)));
                    }
                }
                if blen - pos < 22 {
                    return Err(Error::Eof);
                }
                let comment_len = read_u16_at(buf, pos + 20) as usize;
                if blen - pos - 22 < comment_len {
                    return Err(Error::Eof);
                }
                let rec = EocdRecord32 {
                    sig: read_u32_at(buf, pos),
                    disk_nbr: read_u16_at(buf, pos + 4),
                    cd_start_disk: read_u16_at(buf, pos + 6),
                    disk_cd_entries: read_u16_at(buf, pos + 8),
                    cd_entries: read_u16_at(buf, pos + 10),
                    cd_size: read_u32_at(buf, pos + 12),
                    cd_offset: read_u32_at(buf, pos + 16),
                    comment: copy_range(buf, pos + 22, comment_len),
                };
                Ok((rec, pos))
            },
        }
    }
}

impl EocdRecord64 {
    /// Steps back over the fixed-size ZIP64 locator that precedes the
    /// 32-bit trailer at `eocdr_offset`, follows it to the ZIP64 record and
    /// parses it, as `spec_parse_eocdr64` describes.
    pub fn find(buf: &[u8], eocdr_offset: usize) -> (r: Result<EocdRecord64, Error>)
        ensures
            (match r {
                Ok(rec) => spec_parse_eocdr64(buf@, eocdr_offset as int) == Ok::<_, Error>(rec@),
                Err(e) => spec_parse_eocdr64(buf@, eocdr_offset as int) == Err::<Eocd64View, Error>(
                    e,
                ),
            }),
    {
        let blen = buf.len();
        if eocdr_offset < LOCATOR_LEN {
            return Err(Error::OffsetOverflow);
        }
        if eocdr_offset > blen {
            return Err(Error::BadEocdr);
        }
        let lo = eocdr_offset - 20;
        if read_u32_at(buf, lo) != LOCATOR_SIGNATURE {
            return Err(Error::BadEocdr);
        }
        let zo64 = read_u64_at(buf, eocdr_offset - 12);
        if zo64 > usize::MAX as u64 {
            return Err(Error::OffsetOverflow);
        }
        let zo = zo64 as usize;
        if zo > blen || blen - zo < 4 {
            return Err(Error::BadEocdr);
        }
        if read_u32_at(buf, zo) != EOCDR64_SIGNATURE {
            return Err(Error::BadEocdr);
        }
        if blen - zo < 12 {
            return Err(Error::Eof);
        }
        let sz64 = read_u64_at(buf, zo + 4);
        if sz64 > usize::MAX as u64 {
            return Err(Error::OffsetOverflow);
        }
        let sz = sz64 as usize;
        if blen - zo - 12 < sz {
            return Err(Error::BadEocdr);
        }
        if sz < 44 {
            return Err(Error::Eof);
        }
        let rec = EocdRecord64 {
            sig: read_u32_at(buf, zo),
            size: sz,
            made_by_ver: read_u16_at(buf, zo + 12),
            extract_ver: read_u16_at(buf, zo + 14),
            disk_nbr: read_u32_at(buf, zo + 16),
            cd_start_disk: read_u32_at(buf, zo + 20),
            disk_cd_entries: read_u64_at(buf, zo + 24),
            cd_entries: read_u64_at(buf, zo + 32),
            cd_size: read_u64_at(buf, zo + 40),
            cd_offset: read_u64_at(buf, zo + 48),
            ext_data_sector: copy_range(buf, zo + 12 + 44, sz - 44),
        };
        assert(rec.ext_data_sector@ == buf@.subrange(zo + 12 + 44, zo + 12 + sz as int));
        Ok(rec)
    }
}

} // verus!
