//! Extraction-pipeline tests: round trips for every supported method, the
//! decompressed-size cap, content integrity, path containment, directory
//! classification, timestamps and permission sanitizing.

use unzrip::Error;
use unzrip::extract::{decompress, extract_file, check_crc, sanitize_setuid};
use unzrip::paths::path_join;
use unzrip::pipeline::{plan_entry, EntryPlan};
use unzrip::names::FilenameEncoding;
use unzrip::records::CentralFileHeader;
use unzrip::timestamp::dos2time;

const DATE: u16 = (17 << 9) | (6 << 5) | 15; // 1997-06-15
const TIME: u16 = (12 << 11) | (30 << 5) | 5; // 12:30:10

fn record(name: &[u8], method: u16, crc: u32, comp_len: u64, uncomp: u64) -> CentralFileHeader {
    CentralFileHeader {
        made_by_ver: 20,
        extract_ver: 20,
        gp_flag: 0,
        method,
        mod_time: TIME,
        mod_date: DATE,
        crc32: crc,
        comp_size: comp_len,
        uncomp_size: uncomp,
        disk_nbr_start: 0,
        int_attrs: 0,
        ext_attrs: 0,
        lfh_offset: 0,
        name: name.to_vec(),
        extra: Vec::new(),
        comment: Vec::new(),
    }
}

fn deflate(data: &[u8]) -> Vec<u8> {
    let mut enc = flate2::write::DeflateEncoder::new(Vec::new(), flate2::Compression::default());
    std::io::Write::write_all(&mut enc, data).unwrap();
    enc.finish().unwrap()
}

#[test]
fn store_round_trip() {
    let data = b"hello, stored world";
    let crc = crc32fast::hash(data);
    let cfh = record(b"s.txt", 0, crc, data.len() as u64, data.len() as u64);
    let out = extract_file(&cfh, data).unwrap();
    assert_eq!(out, data);
    assert_eq!(crc32fast::hash(&out), cfh.crc32);
}

#[test]
fn deflate_round_trip() {
    let data: Vec<u8> = (0..10000u32).map(|i| (i % 251) as u8).collect();
    let comp = deflate(&data);
    let crc = crc32fast::hash(&data);
    let cfh = record(b"d.bin", 8, crc, comp.len() as u64, data.len() as u64);
    let out = extract_file(&cfh, &comp).unwrap();
    assert_eq!(out, data);
    assert_eq!(crc32fast::hash(&out), cfh.crc32);
}

#[test]
fn zstd_round_trip() {
    let data: Vec<u8> = (0..10000u32).map(|i| (i % 13) as u8).collect();
    let comp = zstd::encode_all(&data[..], 0).unwrap();
    let crc = crc32fast::hash(&data);
    let cfh = record(b"z.bin", 93, crc, comp.len() as u64, data.len() as u64);
    let out = extract_file(&cfh, &comp).unwrap();
    assert_eq!(out, data);
    assert_eq!(crc32fast::hash(&out), cfh.crc32);
}

#[test]
fn oversized_stream_is_capped_at_claimed_size() {
    // the stream inflates to 100 bytes, the record claims 10: exactly 10
    // come out, and the checksum judges those 10 alone
    let data = [7u8; 100];
    let comp = deflate(&data);
    let crc_first_ten = crc32fast::hash(&data[..10]);
    let cfh = record(b"bomb", 8, crc_first_ten, comp.len() as u64, 10);
    let out = extract_file(&cfh, &comp).unwrap();
    assert_eq!(out.len(), 10);
    assert_eq!(out, &data[..10]);
}

#[test]
fn capped_store_ignores_trailing_bytes() {
    let data = b"0123456789tail";
    let out = decompress(0, data, 10).unwrap();
    assert_eq!(out, b"0123456789");
}

#[test]
fn crc_mismatch_is_rejected() {
    let data = b"contents";
    let cfh = record(
        b"bad",
        0,
        crc32fast::hash(data) ^ 1,
        data.len() as u64,
        data.len() as u64,
    );
    assert_eq!(extract_file(&cfh, data).unwrap_err(), Error::CrcMismatch);
    assert!(check_crc(data, crc32fast::hash(data)));
    assert!(!check_crc(data, crc32fast::hash(data) ^ 1));
}

#[test]
fn malformed_deflate_stream_is_rejected() {
    let garbage = [0xffu8; 32];
    let cfh = record(b"g", 8, 0, 32, 1000);
    assert_eq!(extract_file(&cfh, &garbage).unwrap_err(), Error::BadStream);
}

#[test]
fn unknown_method_is_unsupported() {
    let cfh = record(b"m", 99, 0, 0, 0);
    assert_eq!(extract_file(&cfh, b"").unwrap_err(), Error::Unsupported);
}

#[test]
fn encrypted_entry_is_unsupported() {
    let data = b"secret";
    let mut cfh = record(
        b"e",
        0,
        crc32fast::hash(data),
        data.len() as u64,
        data.len() as u64,
    );
    cfh.gp_flag = 1;
    assert_eq!(extract_file(&cfh, data).unwrap_err(), Error::Unsupported);
    assert_eq!(
        plan_entry(&cfh, data, &FilenameEncoding::Auto, b"dest").unwrap_err(),
        Error::Unsupported
    );
}

#[test]
fn traversal_name_is_rejected_with_path_limit() {
    let data = b"";
    let cfh = record(b"../../../../../../../../.bashrc", 0, 0, 0, 0);
    let r = plan_entry(&cfh, data, &FilenameEncoding::Auto, b"");
    assert_eq!(r.unwrap_err(), Error::PathLimit);
    assert_eq!(Error::PathLimit.message(), "filename over the path limit");
    assert_eq!(
        path_join(b"", b"../../../../../../../../.bashrc").unwrap_err(),
        Error::PathLimit
    );
}

#[test]
fn absolute_name_is_rejected() {
    let cfh = record(b"/home/user/.bashrc", 0, 0, 0, 0);
    let r = plan_entry(&cfh, b"", &FilenameEncoding::Auto, b"dest");
    assert_eq!(r.unwrap_err(), Error::PathNotRelative);
    assert_eq!(Error::PathNotRelative.message(), "must relative path");
    assert_eq!(
        path_join(b"dest", b"/home/user/.bashrc").unwrap_err(),
        Error::PathNotRelative
    );
}

#[test]
fn up_segments_below_root_are_allowed() {
    let joined = path_join(b"dest", b"a/../b").unwrap();
    assert_eq!(joined, b"dest/a/../b");
    assert!(path_join(b"dest", b"a/../../b").is_err());
    assert_eq!(path_join(b"dest/", b"c").unwrap(), b"dest/c");
    assert_eq!(path_join(b"", b"c").unwrap(), b"c");
}

#[test]
fn directory_record_plans_a_directory() {
    let cfh = record(b"lock/", 0, 0, 0, 0);
    match plan_entry(&cfh, b"", &FilenameEncoding::Auto, b"dest").unwrap() {
        EntryPlan::Dir { path } => assert_eq!(path, b"dest/lock/"),
        EntryPlan::File { .. } => panic!("expected a directory plan"),
    }
}

#[test]
fn backslash_directory_name_is_trimmed() {
    let cfh = record(b"lock2\\", 0, 0, 0, 0);
    match plan_entry(&cfh, b"", &FilenameEncoding::Auto, b"dest").unwrap() {
        EntryPlan::Dir { path } => assert_eq!(path, b"dest/lock2"),
        EntryPlan::File { .. } => panic!("expected a directory plan"),
    }
}

#[test]
fn separator_name_with_payload_is_a_file() {
    // a name that ends with a separator is a directory only when the
    // method is store and the payload is empty
    let data = b"x";
    let cfh = record(
        b"odd/",
        0,
        crc32fast::hash(data),
        data.len() as u64,
        data.len() as u64,
    );
    match plan_entry(&cfh, data, &FilenameEncoding::Auto, b"dest").unwrap() {
        EntryPlan::File { path, content, .. } => {
            assert_eq!(path, b"dest/odd/");
            assert_eq!(content, data);
        }
        EntryPlan::Dir { .. } => panic!("expected a file plan"),
    }
}

#[test]
fn file_plan_carries_time_and_mode() {
    let data = b"content";
    let mut cfh = record(
        b"f",
        0,
        crc32fast::hash(data),
        data.len() as u64,
        data.len() as u64,
    );
    cfh.made_by_ver = 3 << 8; // UNIX origin
    cfh.ext_attrs = 0o6755u32 << 16;
    match plan_entry(&cfh, data, &FilenameEncoding::Auto, b"dest").unwrap() {
        EntryPlan::File { path, content, mtime, mode } => {
            assert_eq!(path, b"dest/f");
            assert_eq!(content, data);
            assert_eq!(
                (mtime.year, mtime.month, mtime.day, mtime.hour, mtime.minute, mtime.second),
                (1997, 6, 15, 12, 30, 10)
            );
            assert_eq!(mode, Some(0o755));
        }
        EntryPlan::Dir { .. } => panic!("expected a file plan"),
    }
}

#[test]
fn non_unix_entries_carry_no_mode() {
    let data = b"content";
    let cfh = record(
        b"f2",
        0,
        crc32fast::hash(data),
        data.len() as u64,
        data.len() as u64,
    );
    match plan_entry(&cfh, data, &FilenameEncoding::Auto, b"dest").unwrap() {
        EntryPlan::File { mode, .. } => assert_eq!(mode, None),
        EntryPlan::Dir { .. } => panic!("expected a file plan"),
    }
}

#[test]
fn invalid_timestamp_fails_the_entry() {
    let data = b"content";
    let mut cfh = record(
        b"t",
        0,
        crc32fast::hash(data),
        data.len() as u64,
        data.len() as u64,
    );
    cfh.mod_date = 0; // month and day zero
    assert_eq!(
        plan_entry(&cfh, data, &FilenameEncoding::Auto, b"dest").unwrap_err(),
        Error::BadTime
    );
}

#[test]
fn dos_timestamps_decode_exactly() {
    let t = dos2time(DATE, TIME).unwrap();
    assert_eq!(
        (t.year, t.month, t.day, t.hour, t.minute, t.second),
        (1997, 6, 15, 12, 30, 10)
    );
    // leap day in a leap year
    let leap = dos2time((20 << 9) | (2 << 5) | 29, 0).unwrap();
    assert_eq!((leap.year, leap.month, leap.day), (2000, 2, 29));
    // leap day outside one
    assert_eq!(
        dos2time((21 << 9) | (2 << 5) | 29, 0).unwrap_err(),
        Error::BadTime
    );
    // June has thirty days
    assert!(dos2time((17 << 9) | (6 << 5) | 31, 0).is_err());
    // hour, minute, second ranges
    assert!(dos2time(DATE, 24 << 11).is_err());
    assert!(dos2time(DATE, 60 << 5).is_err());
    assert!(dos2time(DATE, 30).is_err()); // second field 30 means 60 seconds
    assert!(dos2time(0, 0).is_err());
}

#[test]
fn setuid_and_setgid_bits_are_cleared() {
    assert_eq!(sanitize_setuid(0o6777), 0o777);
    assert_eq!(sanitize_setuid(0o4755), 0o755);
    assert_eq!(sanitize_setuid(0o1644), 0o1644);
    assert_eq!(sanitize_setuid(0), 0);
}
