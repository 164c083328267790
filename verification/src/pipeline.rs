//! Per-entry extraction planning: one verified function turns a
//! central-directory record, its compressed bytes, the filename policy and
//! the destination root into everything the filesystem layer must do, or
//! the exact error that stops the entry.

use vstd::prelude::*;
use crate::Error;
use crate::records::{CentralFileHeader, CfhView};
use crate::names::{FilenameEncoding, FilenameEncodingView, spec_decoded_name, spec_trimmed_len,
    trim_trailing_backslashes};
use crate::paths::{path_join, spec_path_absolute, spec_path_ok, spec_joined};
use crate::extract::{extract_file, sanitize_setuid, spec_extract_output, crc32_of,
    spec_method_supported, STORE, UNIX};
use crate::timestamp::{DosDateTime, dos2time, spec_dos_valid, spec_dos_year, spec_dos_month,
    spec_dos_day, spec_dos_hour, spec_dos_minute, spec_dos_second};

verus! {

broadcast use vstd::slice::axiom_spec_len;

/// What one entry asks of the filesystem: create a directory, or write a
/// file with its content, modification time and optional permission mode.
#[derive(Debug)]
pub enum EntryPlan {
    Dir { path: Vec<u8> },
    File { path: Vec<u8>, content: Vec<u8>, mtime: DosDateTime, mode: Option<u32> },
}

/// The mathematical model of an entry plan.
pub enum EntryPlanView {
    Dir { path: Seq<u8> },
    File { path: Seq<u8>, content: Seq<u8>, mtime: DosDateTime, mode: Option<u32> },
}

impl View for EntryPlan {
    type V = EntryPlanView;

    open spec fn view(&self) -> EntryPlanView {
        match self {
            EntryPlan::Dir { path } => EntryPlanView::Dir { path: path@ },
            EntryPlan::File { path, content, mtime, mode } => EntryPlanView::File {
                path: path@,
                content: content@,
                mtime: *mtime,
                mode: *mode,
            },
        }
    }
}

/// A decoded name marks a directory when it ends with a separator.
pub open spec fn spec_is_dir_name(d: Seq<u8>) -> bool {
    d.len() > 0 && (d.last() == 0x2fu8 || d.last() == 0x5cu8)
}

/// An entry is a directory exactly when its decoded name ends with a
/// separator, its method is store and its payload is empty.
pub open spec fn spec_is_dir_entry(d: Seq<u8>, method: u16, payload_len: int) -> bool {
    spec_is_dir_name(d) && method == STORE && payload_len == 0
}

/// The relative path an entry is checked against: for a directory, its
/// name with trailing backslashes dropped; for a file, the name itself.
pub open spec fn spec_plan_target(d: Seq<u8>, method: u16, payload_len: int) -> Seq<u8> {
    if spec_is_dir_entry(d, method, payload_len) {
        d.take(spec_trimmed_len(d))
    } else {
        d
    }
}

/// The permission mode an entry carries: the high half of the external
/// attributes when they are set and the record is of UNIX origin, with the
/// set-uid and set-gid bits cleared; nothing otherwise.
pub open spec fn spec_entry_mode(h: CfhView) -> Option<u32> {
    if h.ext_attrs != 0u32 && h.made_by_ver >> 8u16 == UNIX {
        Some((h.ext_attrs >> 16u32) & 0xfffff3ffu32)
    } else {
        None
    }
}

/// Everything a successful plan promises of its record and bytes.
pub open spec fn spec_plan_ok(
    h: CfhView,
    comp: Seq<u8>,
    enc: FilenameEncodingView,
    base: Seq<u8>,
    plan: EntryPlanView,
) -> bool {
    &&& h.gp_flag & 1u16 == 0u16
    &&& match spec_decoded_name(enc, h.name) {
        None => false,
        Some(d) => if spec_is_dir_entry(d, h.method, comp.len() as int) {
            match plan {
                EntryPlanView::Dir { path } => {
                    let t = d.take(spec_trimmed_len(d));
                    &&& !spec_path_absolute(t)
                    &&& spec_path_ok(t)
                    &&& path == spec_joined(base, t)
                },
                _ => false,
            }
        } else {
            match plan {
                EntryPlanView::File { path, content, mtime, mode } => {
                    &&& !spec_path_absolute(d)
                    &&& spec_path_ok(d)
                    &&& path == spec_joined(base, d)
                    &&& spec_method_supported(h.method)
                    &&& content == spec_extract_output(h, comp)
                    &&& content.len() <= h.uncomp_size
                    &&& crc32_of(content) == h.crc32
                    &&& spec_dos_valid(h.mod_date, h.mod_time)
                    &&& mtime == (DosDateTime {
                        year: spec_dos_year(h.mod_date),
                        month: spec_dos_month(h.mod_date) as u8,
                        day: spec_dos_day(h.mod_date) as u8,
                        hour: spec_dos_hour(h.mod_time) as u8,
                        minute: spec_dos_minute(h.mod_time) as u8,
                        second: spec_dos_second(h.mod_time) as u8,
                    })
                    &&& mode == spec_entry_mode(h)
                },
                _ => false,
            }
        },
    }
}

/// Turns one resolved entry into its filesystem plan: refuses encrypted
/// entries, decodes the name under the policy, classifies directory
/// against file, validates destination containment, and for files
/// decompresses under the size cap, checks the checksum and decodes the
/// timestamp and permissions.
pub fn plan_entry(
    cfh: &CentralFileHeader,
    comp: &[u8],
    enc: &FilenameEncoding,
    base: &[u8],
) -> (r: Result<EntryPlan, Error>)
    ensures
        r matches Ok(plan) ==> spec_plan_ok(cfh@, comp@, enc@, base@, plan@),
        cfh@.gp_flag & 1u16 != 0u16 ==> (r matches Err(e) && e == Error::Unsupported),
        r matches Err(e) && e == Error::PathNotRelative ==> (match spec_decoded_name(
            enc@,
            cfh@.name,
        ) {
            Some(d) => spec_path_absolute(spec_plan_target(d, cfh@.method, comp@.len() as int)),
            None => false,
        }),
        r matches Err(e) && e == Error::PathLimit ==> (match spec_decoded_name(enc@, cfh@.name) {
            Some(d) => !spec_path_ok(spec_plan_target(d, cfh@.method, comp@.len() as int)),
            None => false,
        }),
        r matches Err(e) && e == Error::CrcMismatch ==> crc32_of(spec_extract_output(cfh@, comp@))
            != cfh@.crc32,
        r matches Err(e) && e == Error::BadTime ==> !spec_dos_valid(cfh@.mod_date, cfh@.mod_time),
        r matches Err(e) && e == Error::Unsupported ==> cfh@.gp_flag & 1u16 != 0u16
            || spec_decoded_name(enc@, cfh@.name) is None || !spec_method_supported(cfh@.method),
        (cfh@.gp_flag & 1u16 == 0u16 && (match spec_decoded_name(enc@, cfh@.name) {
            Some(d) => {
                let t = spec_plan_target(d, cfh@.method, comp@.len() as int);
                &&& spec_is_dir_entry(d, cfh@.method, comp@.len() as int)
                &&& !spec_path_absolute(t)
                &&& spec_path_ok(t)
            },
            None => false,
        })) ==> (r matches Ok(plan) && plan@ is Dir),
        (cfh@.gp_flag & 1u16 == 0u16 && (match spec_decoded_name(enc@, cfh@.name) {
            Some(d) => {
                &&& !spec_is_dir_entry(d, cfh@.method, comp@.len() as int)
                &&& !spec_path_absolute(d)
                &&& spec_path_ok(d)
                &&& cfh@.method == STORE
                &&& crc32_of(spec_extract_output(cfh@, comp@)) == cfh@.crc32
                &&& spec_dos_valid(cfh@.mod_date, cfh@.mod_time)
            },
            None => false,
        })) ==> (r matches Ok(plan) && plan@ is File),
{
    if cfh.is_encrypted() {
        return Err(Error::Unsupported);
    }
    let decoded = match enc.decode(cfh.name.as_slice()) {
        Ok(d) => d,
        Err(e) => {
            return Err(e);
        },
    };
    let dlen = decoded.len();
    let ends_sep = dlen > 0 && {
        let last = decoded[dlen - 1];
        last == 0x2fu8 || last == 0x5cu8
    };
    if ends_sep && cfh.method == STORE && comp.len() == 0 {
        let trimmed = trim_trailing_backslashes(decoded.as_slice());
        match path_join(base, trimmed.as_slice()) {
            Err(e) => Err(e),
            Ok(path) => Ok(EntryPlan::Dir { path }),
        }
    } else {
        let path = match path_join(base, decoded.as_slice()) {
            Ok(p) => p,
            Err(e) => {
                return Err(e);
            },
        };
        let content = match extract_file(cfh, comp) {
            Ok(c) => c,
            Err(e) => {
                return Err(e);
            },
        };
        let mtime = match dos2time(cfh.mod_date, cfh.mod_time) {
            Ok(t) => t,
            Err(e) => {
                return Err(e);
            },
        };
        let mode: Option<u32> = if cfh.ext_attrs != 0u32 && cfh.made_by_ver >> 8u16 == UNIX {
            Some(sanitize_setuid(cfh.ext_attrs >> 16u32))
        } else {
            None
        };
        Ok(EntryPlan::File { path, content, mtime, mode })
    }
}

} // verus!
