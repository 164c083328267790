//! The archive container: trailer discovery, ZIP64 detection, bounded
//! central-directory enumeration, and resolution of an entry's local header
//! and compressed-byte span.

use vstd::prelude::*;
use crate::Error;
use crate::eocdr::{EocdRecord32, EocdRecord64, Eocd32View, Eocd64View, spec_find_eocdr32,
    spec_parse_eocdr64};
use crate::records::{CentralFileHeader, CfhView, LocalFileHeader, LfhView, spec_parse_cfh,
    spec_parse_lfh, ZIP64_SENTINEL};

verus! {

broadcast use vstd::slice::axiom_spec_len;

/// The archive trailer: plain, or the wider ZIP64 form.
#[derive(Debug)]
pub enum EocdRecord {
    Zip(EocdRecord32),
    Zip64(EocdRecord64),
}

/// The mathematical model of the trailer.
pub enum EocdView {
    Zip(Eocd32View),
    Zip64(Eocd64View),
}

impl View for EocdRecord {
    type V = EocdView;

    open spec fn view(&self) -> EocdView {
        match self {
            EocdRecord::Zip(e) => EocdView::Zip(e@),
            EocdRecord::Zip64(e) => EocdView::Zip64(e@),
        }
    }
}

/// The central directory's offset, as the trailer states it.
pub open spec fn spec_cd_offset(e: EocdView) -> int {
    match e {
        EocdView::Zip(v) => v.cd_offset as int,
        EocdView::Zip64(v) => v.cd_offset as int,
    }
}

/// The central directory's entry count, as the trailer states it.
pub open spec fn spec_cd_entries(e: EocdView) -> int {
    match e {
        EocdView::Zip(v) => v.cd_entries as int,
        EocdView::Zip64(v) => v.cd_entries as int,
    }
}

impl EocdRecord {
    /// The central-directory offset, narrowed to the host address width;
    /// `None` when it does not fit.
    pub fn cd_offset(&self) -> (r: Option<usize>)
        ensures
            r == (if spec_cd_offset(self@) <= usize::MAX {
                Some(spec_cd_offset(self@) as usize)
            } else {
                None::<usize>
            }),
    {
        match self {
            EocdRecord::Zip(e) => Some(e.cd_offset as usize),
            EocdRecord::Zip64(e) => {
                if e.cd_offset <= usize::MAX as u64 {
                    Some(e.cd_offset as usize)
                } else {
                    None
                }
            },
        }
    }

    /// The central-directory entry count, narrowed to the host address
    /// width; `None` when it does not fit.
    pub fn cd_entries(&self) -> (r: Option<usize>)
        ensures
            r == (if spec_cd_entries(self@) <= usize::MAX {
                Some(spec_cd_entries(self@) as usize)
            } else {
                None::<usize>
            }),
    {
        match self {
            EocdRecord::Zip(e) => Some(e.cd_entries as usize),
            EocdRecord::Zip64(e) => {
                if e.cd_entries <= usize::MAX as u64 {
                    Some(e.cd_entries as usize)
                } else {
                    None
                }
            },
        }
    }
}

/// A parsed archive: the mapped bytes and the validated trailer.
#[derive(Debug)]
pub struct ZipArchive<'a> {
    buf: &'a [u8],
    eocdr: EocdRecord,
}

/// The mathematical model of an archive.
pub struct ArchiveView {
    pub buf: Seq<u8>,
    pub eocdr: EocdView,
}

impl<'a> View for ZipArchive<'a> {
    type V = ArchiveView;

    closed spec fn view(&self) -> ArchiveView {
        ArchiveView { buf: self.buf@, eocdr: self.eocdr@ }
    }
}

/// Locates and validates the trailer: the 32-bit record first; on count
/// disagreement between "this disk" and "total" the archive is refused as
/// multi-disk; the ZIP64 record is followed when the 32-bit offset holds
/// the sentinel, and its counts are validated the same way.
pub open spec fn spec_parse_archive(buf: Seq<u8>) -> Result<EocdView, Error> {
    match spec_find_eocdr32(buf) {
        Err(e) => Err(e),
        Ok(p) => if p.0.disk_cd_entries != p.0.cd_entries {
            Err(Error::Unsupported)
        } else if p.0.cd_offset != ZIP64_SENTINEL {
            Ok(EocdView::Zip(p.0))
        } else {
            match spec_parse_eocdr64(buf, p.1) {
                Err(e) => Err(e),
                Ok(e64) => if e64.disk_cd_entries != e64.cd_entries {
                    Err(Error::Unsupported)
                } else {
                    Ok(EocdView::Zip64(e64))
                },
            }
        },
    }
}

/// The central-directory enumeration an archive exposes: its bytes from the
/// central directory's start, the declared count, and whether ZIP64
/// overrides apply.
pub open spec fn spec_entries(a: ArchiveView) -> Result<ZipEntriesView, Error> {
    if spec_cd_offset(a.eocdr) > usize::MAX {
        Err(Error::OffsetOverflow)
    } else if spec_cd_offset(a.eocdr) > a.buf.len() {
        Err(Error::Eof)
    } else if spec_cd_entries(a.eocdr) > usize::MAX {
        Err(Error::OffsetOverflow)
    } else {
        Ok(
            ZipEntriesView {
                buf: a.buf.skip(spec_cd_offset(a.eocdr)),
                count: spec_cd_entries(a.eocdr),
                is_zip64: a.eocdr is Zip64,
            },
        )
    }
}

/// Resolves an entry: re-parses the local header at the record's offset and
/// returns it with the compressed-byte span that follows it, whose length
/// is the central directory's `comp_size` (the local header's own size and
/// checksum copies are never trusted).
pub open spec fn spec_read(a: ArchiveView, h: CfhView) -> Result<(LfhView, Seq<u8>), Error> {
    if h.lfh_offset > usize::MAX {
        Err(Error::OffsetOverflow)
    } else if h.lfh_offset > a.buf.len() {
        Err(Error::Eof)
    } else {
        match spec_parse_lfh(a.buf.skip(h.lfh_offset as int)) {
            Err(e) => Err(e),
            Ok(lu) => if h.comp_size > usize::MAX {
                Err(Error::OffsetOverflow)
            } else if a.buf.len() - h.lfh_offset - lu.1 < h.comp_size {
                Err(Error::Eof)
            } else {
                Ok(
                    (
                        lu.0,
                        a.buf.subrange(
                            h.lfh_offset + lu.1,
                            h.lfh_offset + lu.1 + h.comp_size,
                        ),
                    ),
                )
            },
        }
    }
}

/// Parses `count` central-directory records in sequence.
pub open spec fn spec_parse_cd(buf: Seq<u8>, count: int, is_zip64: bool) -> Result<
    Seq<CfhView>,
    Error,
>
    decreases count,
{
    if count <= 0 {
        Ok(Seq::empty())
    } else {
        match spec_parse_cfh(buf, is_zip64) {
            Err(e) => Err(e),
            Ok(hu) => match spec_parse_cd(buf.skip(hu.1), count - 1, is_zip64) {
                Err(e) => Err(e),
                Ok(rest) => Ok(seq![hu.0] + rest),
            },
        }
    }
}

/// The whole central directory of an archive, eagerly parsed.
pub open spec fn spec_archive_cd(a: ArchiveView) -> Result<Seq<CfhView>, Error> {
    match spec_entries(a) {
        Err(e) => Err(e),
        Ok(ev) => spec_parse_cd(ev.buf, ev.count, ev.is_zip64),
    }
}

/// A central directory that parses completely yields exactly the declared
/// number of records.
pub proof fn lemma_cd_count(buf: Seq<u8>, count: int, is_zip64: bool)
    requires
        count >= 0,
        spec_parse_cd(buf, count, is_zip64) is Ok,
    ensures
        spec_parse_cd(buf, count, is_zip64)->Ok_0.len() == count,
    decreases count,
{
    if count > 0 {
        let hu = spec_parse_cfh(buf, is_zip64)->Ok_0;
        lemma_cd_count(buf.skip(hu.1), count - 1, is_zip64);
    }
}

/// Every record a successful parse yields was read whole from inside the
/// buffer: the bytes it consumed do not run past the end, and its name,
/// extra and comment spans lie inside them, after the fixed fields.
pub proof fn lemma_cfh_spans_in_bounds(input: Seq<u8>, is_zip64: bool)
    requires
        spec_parse_cfh(input, is_zip64) is Ok,
    ensures
        ({
            let hu = spec_parse_cfh(input, is_zip64)->Ok_0;
            &&& 46 + hu.0.name.len() + hu.0.extra.len() + hu.0.comment.len() == hu.1
            &&& hu.1 <= input.len()
            &&& hu.0.name == input.subrange(46, 46 + hu.0.name.len() as int)
            &&& hu.0.extra == input.subrange(
                46 + hu.0.name.len() as int,
                46 + hu.0.name.len() as int + hu.0.extra.len() as int,
            )
            &&& hu.0.comment == input.subrange(
                46 + hu.0.name.len() as int + hu.0.extra.len() as int,
                hu.1,
            )
        }),
{
}

/// An archive whose enumeration succeeds yields exactly `cd_entries`
/// records.
pub proof fn lemma_entries_count(a: ArchiveView)
    requires
        spec_entries(a) is Ok,
        spec_archive_cd(a) is Ok,
    ensures
        spec_archive_cd(a)->Ok_0.len() == spec_entries(a)->Ok_0.count,
        spec_archive_cd(a)->Ok_0.len() == spec_cd_entries(a.eocdr),
{
    let ev = spec_entries(a)->Ok_0;
    lemma_cd_count(ev.buf, ev.count, ev.is_zip64);
}

impl<'a> ZipArchive<'a> {
    /// Parses the archive trailer, as `spec_parse_archive` describes.
    pub fn parse(buf: &'a [u8]) -> (r: Result<ZipArchive<'a>, Error>)
        ensures
            (match spec_parse_archive(buf@) {
                Ok(ev) => r matches Ok(z) && z@.buf == buf@ && z@.eocdr == ev,
                Err(e) => r matches Err(e2) && e2 == e,
            }),
    {
        let (e32, off) = match EocdRecord32::find(buf) {
            Ok(p) => p,
            Err(e) => {
                return Err(e);
            },
        };
        if e32.disk_cd_entries != e32.cd_entries {
            return Err(Error::Unsupported);
        }
        if e32.cd_offset != ZIP64_SENTINEL {
            Ok(ZipArchive { buf, eocdr: EocdRecord::Zip(e32) })
        } else {
            match EocdRecord64::find(buf, off) {
                Err(e) => Err(e),
                Ok(e64) => {
                    if e64.disk_cd_entries != e64.cd_entries {
                        Err(Error::Unsupported)
                    } else {
                        Ok(ZipArchive { buf, eocdr: EocdRecord::Zip64(e64) })
                    }
                },
            }
        }
    }

    /// The validated trailer.
    pub fn eocdr(&self) -> (r: &EocdRecord)
        ensures
            r@ == self@.eocdr,
    {
        &self.eocdr
    }

    /// Starts enumerating the central directory, as `spec_entries`
    /// describes.
    pub fn entries(&self) -> (r: Result<ZipEntries<'a>, Error>)
        ensures
            (match spec_entries(self@) {
                Ok(ev) => r matches Ok(it) && it@ == ev,
                Err(e) => r matches Err(e2) && e2 == e,
            }),
    {
        let offset = match self.eocdr.cd_offset() {
            Some(o) => o,
            None => {
                return Err(Error::OffsetOverflow);
            },
        };
        if offset > self.buf.len() {
            return Err(Error::Eof);
        }
        let buf = vstd::slice::slice_subrange(self.buf, offset, self.buf.len());
        let count = match self.eocdr.cd_entries() {
            Some(c) => c,
            None => {
                return Err(Error::OffsetOverflow);
            },
        };
        let is_zip64 = matches!(&self.eocdr, EocdRecord::Zip64(_));
        Ok(ZipEntries { buf, count, is_zip64 })
    }

    /// Resolves one record to its local header and compressed bytes, as
    /// `spec_read` describes.
    pub fn read(&self, cfh: &CentralFileHeader) -> (r: Result<(LocalFileHeader, &'a [u8]), Error>)
        ensures
            (match spec_read(self@, cfh@) {
                Ok(p) => r matches Ok(q) && q.0@ == p.0 && q.1@ == p.1,
                Err(e) => r matches Err(e2) && e2 == e,
            }),
    {
        if cfh.lfh_offset > usize::MAX as u64 {
            return Err(Error::OffsetOverflow);
        }
        let off = cfh.lfh_offset as usize;
        if off > self.buf.len() {
            return Err(Error::Eof);
        }
        let at_lfh = vstd::slice::slice_subrange(self.buf, off, self.buf.len());
        let (after, lfh) = match LocalFileHeader::parse(at_lfh) {
            Ok(p) => p,
            Err(e) => {
                return Err(e);
            },
        };
        if cfh.comp_size > usize::MAX as u64 {
            return Err(Error::OffsetOverflow);
        }
        let cs = cfh.comp_size as usize;
        if after.len() < cs {
            return Err(Error::Eof);
        }
        let data = vstd::slice::slice_subrange(after, 0, cs);
        proof {
            let used = spec_parse_lfh(self.buf@.skip(off as int))->Ok_0.1;
            assert(data@ =~= self.buf@.subrange(off + used, off + used + cfh.comp_size as int));
        }
        Ok((lfh, data))
    }

    /// Parses the whole central directory eagerly, as `spec_archive_cd`
    /// describes: the orchestrator materializes every record before any
    /// extraction is fanned out.
    pub fn collect_entries(&self) -> (r: Result<Vec<CentralFileHeader>, Error>)
        ensures
            (match spec_archive_cd(self@) {
                Ok(s) => r matches Ok(v) && v@.len() == s.len() && (forall|i: int|
                    0 <= i < s.len() ==> v@[i]@ == s[i]),
                Err(e) => r matches Err(e2) && e2 == e,
            }),
    {
        let mut it = match self.entries() {
            Ok(it) => it,
            Err(e) => {
                return Err(e);
            },
        };
        let ghost ev = spec_entries(self@)->Ok_0;
        let mut acc: Vec<CentralFileHeader> = Vec::new();
        loop
            invariant
                it@.is_zip64 == ev.is_zip64,
                0 <= it@.count,
                (match spec_parse_cd(it@.buf, it@.count, ev.is_zip64) {
                    Ok(s) => spec_parse_cd(ev.buf, ev.count, ev.is_zip64) == Ok::<_, Error>(
                        acc@.map_values(|h: CentralFileHeader| h@) + s,
                    ),
                    Err(e) => spec_parse_cd(ev.buf, ev.count, ev.is_zip64) == Err::<
                        Seq<CfhView>,
                        Error,
                    >(e),
                }),
                spec_entries(self@) == Ok::<ZipEntriesView, Error>(ev),
            decreases it@.count,
        {
            let ghost pre = it@;
            match it.next() {
                None => {
                    proof {
                        assert(spec_parse_cd(pre.buf, pre.count, ev.is_zip64) == Ok::<_, Error>(
                            Seq::<CfhView>::empty(),
                        ));
                        let s0 = acc@.map_values(|h: CentralFileHeader| h@);
                        assert(s0 + Seq::<CfhView>::empty() =~= s0);
                    }
                    return Ok(acc);
                },
                Some(Err(e)) => {
                    return Err(e);
                },
                Some(Ok(h)) => {
                    proof {
                        let hu = spec_parse_cfh(pre.buf, ev.is_zip64)->Ok_0;
                        let s0 = acc@.map_values(|h2: CentralFileHeader| h2@);
                        let s1 = acc@.push(h).map_values(|h2: CentralFileHeader| h2@);
                        assert(s1 =~= s0 + seq![hu.0]);
                        if spec_parse_cd(pre.buf.skip(hu.1), pre.count - 1, ev.is_zip64) is Ok {
                            let rest = spec_parse_cd(
                                pre.buf.skip(hu.1),
                                pre.count - 1,
                                ev.is_zip64,
                            )->Ok_0;
                            assert((s0 + seq![hu.0]) + rest =~= s0 + (seq![hu.0] + rest));
                        }
                    }
                    acc.push(h);
                },
            }
        }
    }
}

/// A lazy enumeration of the central directory, bounded by the declared
/// entry count; every record is independently bounds-checked as parsed.
pub struct ZipEntries<'a> {
    buf: &'a [u8],
    count: usize,
    is_zip64: bool,
}

/// The mathematical model of the enumeration's state.
pub struct ZipEntriesView {
    pub buf: Seq<u8>,
    pub count: int,
    pub is_zip64: bool,
}

impl<'a> View for ZipEntries<'a> {
    type V = ZipEntriesView;

    closed spec fn view(&self) -> ZipEntriesView {
        ZipEntriesView { buf: self.buf@, count: self.count as int, is_zip64: self.is_zip64 }
    }
}

impl<'a> ZipEntries<'a> {
    /// Parses the next record; `None` once the declared count is exhausted.
    /// A failing record leaves the enumeration unchanged, so the failure is
    /// delivered per record.
    pub fn next(&mut self) -> (r: Option<Result<CentralFileHeader, Error>>)
        ensures
            old(self)@.count == 0 ==> r is None && final(self)@ == old(self)@,
            old(self)@.count > 0 ==> (match spec_parse_cfh(old(self)@.buf, old(self)@.is_zip64) {
                Ok(hu) => r matches Some(h) && h matches Ok(h2) && h2@ == hu.0 && final(self)@.buf
                    == old(self)@.buf.skip(hu.1) && final(self)@.count == old(self)@.count - 1
                    && final(self)@.is_zip64 == old(self)@.is_zip64,
                Err(e) => r matches Some(h) && h matches Err(e2) && e2 == e && final(self)@ == old(
                    self,
                )@,
            }),
    {
        if self.count == 0 {
            return None;
        }
        let input: &[u8] = self.buf;
        match CentralFileHeader::parse(input, self.is_zip64) {
            Err(e) => Some(Err(e)),
            Ok((rest, cfh)) => {
                self.buf = rest;
                self.count = self.count - 1;
                Some(Ok(cfh))
            },
        }
    }
}

} // verus!
