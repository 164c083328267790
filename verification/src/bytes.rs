//! Little-endian fixed-width field reading over a byte slice, plus the
//! backward signature scan used to locate the end-of-central-directory record.

use vstd::prelude::*;

verus! {

broadcast use vstd::slice::axiom_spec_len;

/// Marker for a read that ran past the end of the input bytes.
pub struct Eof;

/// The value of two bytes read as a little-endian integer.
pub open spec fn le16(s: Seq<u8>) -> u16
    recommends
        s.len() == 2,
{
    (s[0] + s[1] * 0x100) as u16
}

/// The value of four bytes read as a little-endian integer.
pub open spec fn le32(s: Seq<u8>) -> u32
    recommends
        s.len() == 4,
{
    (s[0] + s[1] * 0x100 + s[2] * 0x10000 + s[3] * 0x1000000) as u32
}

/// The value of eight bytes read as a little-endian integer.
pub open spec fn le64(s: Seq<u8>) -> u64
    recommends
        s.len() == 8,
{
    (s[0] + s[1] * 0x100 + s[2] * 0x10000 + s[3] * 0x1000000 + s[4] * 0x100000000 + s[5]
        * 0x10000000000 + s[6] * 0x1000000000000 + s[7] * 0x100000000000000) as u64
}

/// Splits `input` at `n`: the remainder and the first `n` bytes.
/// Fails with `Eof` when fewer than `n` bytes remain.
pub fn take(input: &[u8], n: usize) -> (r: Result<(&[u8], &[u8]), Eof>)
    ensures
        input@.len() >= n ==> (r matches Ok(p) && p.0@ == input@.skip(n as int) && p.1@
            == input@.take(n as int)),
        input@.len() < n ==> (r matches Err(_)),
{
    if input.len() >= n {
        let prefix = vstd::slice::slice_subrange(input, 0, n);
        let suffix = vstd::slice::slice_subrange(input, n, input.len());
        assert(suffix@ == input@.skip(n as int));
        assert(prefix@ == input@.take(n as int));
        Ok((suffix, prefix))
    } else {
        Err(Eof)
    }
}

/// Reads a little-endian `u16`, returning the remainder and the value.
pub fn read_u16(input: &[u8]) -> (r: Result<(&[u8], u16), Eof>)
    ensures
        input@.len() >= 2 ==> (r matches Ok(p) && p.0@ == input@.skip(2) && p.1 == le16(
            input@.take(2),
        )),
        input@.len() < 2 ==> (r matches Err(_)),
{
    if input.len() >= 2 {
        let b0 = *vstd::slice::slice_index_get(input, 0);
        let b1 = *vstd::slice::slice_index_get(input, 1);
        let v: u16 = b0 as u16 + b1 as u16 * 0x100;
        let rest = vstd::slice::slice_subrange(input, 2, input.len());
        assert(rest@ == input@.skip(2));
        assert(v == le16(input@.take(2))) by {
            assert(input@.take(2)[0] == input@[0]);
            assert(input@.take(2)[1] == input@[1]);
        }
        Ok((rest, v))
    } else {
        Err(Eof)
    }
}

/// Reads a little-endian `u32`, returning the remainder and the value.
pub fn read_u32(input: &[u8]) -> (r: Result<(&[u8], u32), Eof>)
    ensures
        input@.len() >= 4 ==> (r matches Ok(p) && p.0@ == input@.skip(4) && p.1 == le32(
            input@.take(4),
        )),
        input@.len() < 4 ==> (r matches Err(_)),
{
    if input.len() >= 4 {
        let b0 = *vstd::slice::slice_index_get(input, 0);
        let b1 = *vstd::slice::slice_index_get(input, 1);
        let b2 = *vstd::slice::slice_index_get(input, 2);
        let b3 = *vstd::slice::slice_index_get(input, 3);
        let v: u32 = b0 as u32 + b1 as u32 * 0x100 + b2 as u32 * 0x10000 + b3 as u32 * 0x1000000;
        let rest = vstd::slice::slice_subrange(input, 4, input.len());
        assert(rest@ == input@.skip(4));
        assert(v == le32(input@.take(4))) by {
            assert(forall|i: int| 0 <= i < 4 ==> input@.take(4)[i] == input@[i]);
        }
        Ok((rest, v))
    } else {
        Err(Eof)
    }
}

/// Reads a little-endian `u64`, returning the remainder and the value.
pub fn read_u64(input: &[u8]) -> (r: Result<(&[u8], u64), Eof>)
    ensures
        input@.len() >= 8 ==> (r matches Ok(p) && p.0@ == input@.skip(8) && p.1 == le64(
            input@.take(8),
        )),
        input@.len() < 8 ==> (r matches Err(_)),
{
    if input.len() >= 8 {
        let b0 = *vstd::slice::slice_index_get(input, 0);
        let b1 = *vstd::slice::slice_index_get(input, 1);
        let b2 = *vstd::slice::slice_index_get(input, 2);
        let b3 = *vstd::slice::slice_index_get(input, 3);
        let b4 = *vstd::slice::slice_index_get(input, 4);
        let b5 = *vstd::slice::slice_index_get(input, 5);
        let b6 = *vstd::slice::slice_index_get(input, 6);
        let b7 = *vstd::slice::slice_index_get(input, 7);
        let v: u64 = b0 as u64 + b1 as u64 * 0x100 + b2 as u64 * 0x10000 + b3 as u64 * 0x1000000
            + b4 as u64 * 0x100000000 + b5 as u64 * 0x10000000000 + b6 as u64 * 0x1000000000000
            + b7 as u64 * 0x100000000000000;
        let rest = vstd::slice::slice_subrange(input, 8, input.len());
        assert(rest@ == input@.skip(8));
        assert(v == le64(input@.take(8))) by {
            assert(forall|i: int| 0 <= i < 8 ==> input@.take(8)[i] == input@[i]);
        }
        Ok((rest, v))
    } else {
        Err(Eof)
    }
}

/// Reads a little-endian `u16` at byte offset `off`.
pub fn read_u16_at(input: &[u8], off: usize) -> (r: u16)
    requires
        off + 2 <= input@.len(),
    ensures
        r == le16(input@.subrange(off as int, off + 2)),
{
    let ilen = input.len();
    assert(off + 2 <= ilen);
    let b0 = *vstd::slice::slice_index_get(input, off);
    let b1 = *vstd::slice::slice_index_get(input, off + 1);
    let v: u16 = b0 as u16 + b1 as u16 * 0x100;
    assert(v == le16(input@.subrange(off as int, off + 2))) by {
        assert(forall|i: int| 0 <= i < 2 ==> #[trigger] input@.subrange(off as int, off + 2)[i]
            == input@[off + i]);
    }
    v
}

/// Reads a little-endian `u32` at byte offset `off`.
pub fn read_u32_at(input: &[u8], off: usize) -> (r: u32)
    requires
        off + 4 <= input@.len(),
    ensures
        r == le32(input@.subrange(off as int, off + 4)),
{
    let ilen = input.len();
    assert(off + 4 <= ilen);
    let b0 = *vstd::slice::slice_index_get(input, off);
    let b1 = *vstd::slice::slice_index_get(input, off + 1);
    let b2 = *vstd::slice::slice_index_get(input, off + 2);
    let b3 = *vstd::slice::slice_index_get(input, off + 3);
    let v: u32 = b0 as u32 + b1 as u32 * 0x100 + b2 as u32 * 0x10000 + b3 as u32 * 0x1000000;
    assert(v == le32(input@.subrange(off as int, off + 4))) by {
        assert(forall|i: int| 0 <= i < 4 ==> #[trigger] input@.subrange(off as int, off + 4)[i]
            == input@[off + i]);
    }
    v
}

/// Reads a little-endian `u64` at byte offset `off`.
pub fn read_u64_at(input: &[u8], off: usize) -> (r: u64)
    requires
        off + 8 <= input@.len(),
    ensures
        r == le64(input@.subrange(off as int, off + 8)),
{
    let ilen = input.len();
    assert(off + 8 <= ilen);
    let b0 = *vstd::slice::slice_index_get(input, off);
    let b1 = *vstd::slice::slice_index_get(input, off + 1);
    let b2 = *vstd::slice::slice_index_get(input, off + 2);
    let b3 = *vstd::slice::slice_index_get(input, off + 3);
    let b4 = *vstd::slice::slice_index_get(input, off + 4);
    let b5 = *vstd::slice::slice_index_get(input, off + 5);
    let b6 = *vstd::slice::slice_index_get(input, off + 6);
    let b7 = *vstd::slice::slice_index_get(input, off + 7);
    let v: u64 = b0 as u64 + b1 as u64 * 0x100 + b2 as u64 * 0x10000 + b3 as u64 * 0x1000000 + b4
        as u64 * 0x100000000 + b5 as u64 * 0x10000000000 + b6 as u64 * 0x1000000000000 + b7 as u64
        * 0x100000000000000;
    assert(v == le64(input@.subrange(off as int, off + 8))) by {
        assert(forall|i: int| 0 <= i < 8 ==> #[trigger] input@.subrange(off as int, off + 8)[i]
            == input@[off + i]);
    }
    v
}

/// Copies the bytes at `[off, off + n)` into owned memory.
pub fn copy_range(input: &[u8], off: usize, n: usize) -> (r: Vec<u8>)
    requires
        off + n <= input@.len(),
    ensures
        r@ == input@.subrange(off as int, off + n),
{
    let ilen = input.len();
    assert(off + n <= ilen);
    let s = vstd::slice::slice_subrange(input, off, off + n);
    vstd::slice::slice_to_vec(s)
}

/// The needle occurs in the haystack at position `i`.
pub open spec fn matches_at(haystack: Seq<u8>, needle: Seq<u8>, i: int) -> bool {
    &&& 0 <= i
    &&& i + needle.len() <= haystack.len()
    &&& haystack.subrange(i, i + needle.len() as int) == needle
}

/// Compares `needle` with the bytes of `haystack` starting at `i`.
fn slice_eq_at(haystack: &[u8], needle: &[u8], i: usize) -> (r: bool)
    requires
        i + needle@.len() <= haystack@.len(),
    ensures
        r == matches_at(haystack@, needle@, i as int),
{
    let ghost window = haystack@.subrange(i as int, i + needle@.len());
    let nlen = needle.len();
    let hlen = haystack.len();
    let mut j: usize = 0;
    while j < nlen
        invariant
            nlen == needle@.len(),
            hlen == haystack@.len(),
            i + nlen <= hlen,
            0 <= j <= needle@.len(),
            window == haystack@.subrange(i as int, i + needle@.len()),
            forall|k: int| 0 <= k < j ==> window[k] == needle@[k],
        decreases needle@.len() - j,
    {
        let h = *vstd::slice::slice_index_get(haystack, i + j);
        let n = *vstd::slice::slice_index_get(needle, j);
        if h != n {
            assert(window[j as int] != needle@[j as int]);
            assert(window != needle@);
            return false;
        }
        j += 1;
    }
    assert(window =~= needle@);
    true
}

/// Finds the last position at which `needle` occurs in `haystack`.
/// An empty needle is never found.
pub fn rfind(haystack: &[u8], needle: &[u8]) -> (r: Option<usize>)
    ensures
        r matches Some(i) ==> matches_at(haystack@, needle@, i as int) && forall|j: int|
            i < j ==> !matches_at(haystack@, needle@, j),
        r is None ==> forall|j: int| !matches_at(haystack@, needle@, j) || needle@.len() == 0,
{
    if needle.len() == 0 || needle.len() > haystack.len() {
        return None;
    }
    let mut i: usize = haystack.len() - needle.len() + 1;
    while i > 0
        invariant
            0 < needle@.len() <= haystack@.len(),
            i <= haystack@.len() - needle@.len() + 1,
            forall|j: int| i <= j ==> !matches_at(haystack@, needle@, j),
        decreases i,
    {
        i -= 1;
        if slice_eq_at(haystack, needle, i) {
            return Some(i);
        }
    }
    None
}

} // verus!
