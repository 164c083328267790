//! ZIP64 tests: locator and wide-trailer discovery, and the per-record
//! 64-bit overrides drawn in fixed order from the extended-information
//! extra field.

use unzrip::Error;
use unzrip::archive::{EocdRecord, ZipArchive};

const DATE: u16 = (17 << 9) | (6 << 5) | 15;
const TIME: u16 = (12 << 11) | (30 << 5) | 5;

fn cfh64_bytes(name: &[u8], comp32: u32, uncomp32: u32, lfh32: u32, extra: &[u8]) -> Vec<u8> {
    let mut v: Vec<u8> = vec![0x50, 0x4b, 1, 2];
    v.extend_from_slice(&20u16.to_le_bytes());
    v.extend_from_slice(&45u16.to_le_bytes());
    v.extend_from_slice(&0u16.to_le_bytes());
    v.extend_from_slice(&0u16.to_le_bytes());
    v.extend_from_slice(&TIME.to_le_bytes());
    v.extend_from_slice(&DATE.to_le_bytes());
    v.extend_from_slice(&0u32.to_le_bytes());
    v.extend_from_slice(&comp32.to_le_bytes());
    v.extend_from_slice(&uncomp32.to_le_bytes());
    v.extend_from_slice(&(name.len() as u16).to_le_bytes());
    v.extend_from_slice(&(extra.len() as u16).to_le_bytes());
    v.extend_from_slice(&0u16.to_le_bytes());
    v.extend_from_slice(&0u16.to_le_bytes());
    v.extend_from_slice(&0u16.to_le_bytes());
    v.extend_from_slice(&0u32.to_le_bytes());
    v.extend_from_slice(&lfh32.to_le_bytes());
    v.extend_from_slice(name);
    v.extend_from_slice(extra);
    v
}

fn zip64_extra(values: &[u64]) -> Vec<u8> {
    let mut v: Vec<u8> = Vec::new();
    v.extend_from_slice(&1u16.to_le_bytes());
    v.extend_from_slice(&((values.len() * 8) as u16).to_le_bytes());
    for x in values {
        v.extend_from_slice(&x.to_le_bytes());
    }
    v
}

/// Appends the ZIP64 trailer, locator and 32-bit trailer, marking the
/// archive ZIP64 through the offset sentinel.
fn finish_zip64(mut buf: Vec<u8>, cd_off: u64, cd_size: u64, count: u64) -> Vec<u8> {
    let z64_off = buf.len() as u64;
    buf.extend_from_slice(&[0x50, 0x4b, 6, 6]);
    buf.extend_from_slice(&44u64.to_le_bytes()); // record size
    buf.extend_from_slice(&45u16.to_le_bytes());
    buf.extend_from_slice(&45u16.to_le_bytes());
    buf.extend_from_slice(&0u32.to_le_bytes());
    buf.extend_from_slice(&0u32.to_le_bytes());
    buf.extend_from_slice(&count.to_le_bytes());
    buf.extend_from_slice(&count.to_le_bytes());
    buf.extend_from_slice(&cd_size.to_le_bytes());
    buf.extend_from_slice(&cd_off.to_le_bytes());
    // locator
    buf.extend_from_slice(&[0x50, 0x4b, 6, 7]);
    buf.extend_from_slice(&0u32.to_le_bytes());
    buf.extend_from_slice(&z64_off.to_le_bytes());
    buf.extend_from_slice(&1u32.to_le_bytes());
    // 32-bit trailer with the offset sentinel
    buf.extend_from_slice(&[0x50, 0x4b, 5, 6]);
    buf.extend_from_slice(&0u16.to_le_bytes());
    buf.extend_from_slice(&0u16.to_le_bytes());
    buf.extend_from_slice(&(count as u16).to_le_bytes());
    buf.extend_from_slice(&(count as u16).to_le_bytes());
    buf.extend_from_slice(&(cd_size as u32).to_le_bytes());
    buf.extend_from_slice(&0xffffffffu32.to_le_bytes());
    buf.extend_from_slice(&0u16.to_le_bytes());
    buf
}

#[test]
fn zip64_trailer_is_followed() {
    let buf = finish_zip64(Vec::new(), 0, 0, 0);
    let zip = ZipArchive::parse(&buf).unwrap();
    match zip.eocdr() {
        EocdRecord::Zip64(rec) => {
            assert_eq!(rec.cd_entries, 0);
            assert_eq!(rec.cd_offset, 0);
            assert_eq!(rec.size, 44);
        }
        EocdRecord::Zip(_) => panic!("expected the wide trailer"),
    }
    assert_eq!(zip.collect_entries().unwrap().len(), 0);
}

#[test]
fn zip64_overrides_apply_in_order() {
    // all three sentinels: the three 64-bit values are taken in the fixed
    // order uncompressed size, compressed size, local-header offset
    let extra = zip64_extra(&[111_111_111_111, 222_222_222_222, 333_333_333_333]);
    let cd = cfh64_bytes(b"big", 0xffffffff, 0xffffffff, 0xffffffff, &extra);
    let buf = finish_zip64(cd.clone(), 0, cd.len() as u64, 1);
    let zip = ZipArchive::parse(&buf).unwrap();
    let records = zip.collect_entries().unwrap();
    assert_eq!(records.len(), 1);
    assert_eq!(records[0].uncomp_size, 111_111_111_111);
    assert_eq!(records[0].comp_size, 222_222_222_222);
    assert_eq!(records[0].lfh_offset, 333_333_333_333);
}

#[test]
fn zip64_partial_override_widens_the_rest() {
    // only the compressed size holds the sentinel: it takes the first
    // 64-bit value; the other two widen their 32-bit fields
    let extra = zip64_extra(&[222_222_222_222]);
    let cd = cfh64_bytes(b"big", 0xffffffff, 7, 9, &extra);
    let buf = finish_zip64(cd.clone(), 0, cd.len() as u64, 1);
    let zip = ZipArchive::parse(&buf).unwrap();
    let records = zip.collect_entries().unwrap();
    assert_eq!(records[0].uncomp_size, 7);
    assert_eq!(records[0].comp_size, 222_222_222_222);
    assert_eq!(records[0].lfh_offset, 9);
}

#[test]
fn zip64_sentinel_without_extra_field_widens() {
    // outside a ZIP64 extra field the sentinel is just a large value
    let cd = cfh64_bytes(b"x", 0xffffffff, 5, 0, b"");
    let buf = finish_zip64(cd.clone(), 0, cd.len() as u64, 1);
    let zip = ZipArchive::parse(&buf).unwrap();
    let records = zip.collect_entries().unwrap();
    assert_eq!(records[0].comp_size, 0xffffffff);
    assert_eq!(records[0].uncomp_size, 5);
}

#[test]
fn zip64_short_override_data_fails_with_eof() {
    // two sentinels but data for only one value
    let extra = zip64_extra(&[222_222_222_222]);
    let cd = cfh64_bytes(b"big", 0xffffffff, 0xffffffff, 0, &extra);
    let buf = finish_zip64(cd.clone(), 0, cd.len() as u64, 1);
    let zip = ZipArchive::parse(&buf).unwrap();
    assert_eq!(zip.collect_entries().unwrap_err(), Error::Eof);
}

#[test]
fn zip64_trailer_too_close_to_start_overflows() {
    // the offset sentinel with no room for a locator before the trailer
    let mut buf: Vec<u8> = vec![0x50, 0x4b, 5, 6];
    buf.extend_from_slice(&0u16.to_le_bytes());
    buf.extend_from_slice(&0u16.to_le_bytes());
    buf.extend_from_slice(&0u16.to_le_bytes());
    buf.extend_from_slice(&0u16.to_le_bytes());
    buf.extend_from_slice(&0u32.to_le_bytes());
    buf.extend_from_slice(&0xffffffffu32.to_le_bytes());
    buf.extend_from_slice(&0u16.to_le_bytes());
    assert_eq!(ZipArchive::parse(&buf).unwrap_err(), Error::OffsetOverflow);
}

#[test]
fn zip64_missing_locator_signature_is_rejected() {
    let mut buf = vec![0u8; 20]; // room for a locator, but zeros
    buf.extend_from_slice(&[0x50, 0x4b, 5, 6]);
    buf.extend_from_slice(&0u16.to_le_bytes());
    buf.extend_from_slice(&0u16.to_le_bytes());
    buf.extend_from_slice(&0u16.to_le_bytes());
    buf.extend_from_slice(&0u16.to_le_bytes());
    buf.extend_from_slice(&0u32.to_le_bytes());
    buf.extend_from_slice(&0xffffffffu32.to_le_bytes());
    buf.extend_from_slice(&0u16.to_le_bytes());
    assert_eq!(ZipArchive::parse(&buf).unwrap_err(), Error::BadEocdr);
}
