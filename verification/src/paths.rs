//! Destination-path containment: absolute names are rejected, and every
//! traversal segment must keep a non-negative directory depth, so no entry
//! can escape above the extraction root.

use vstd::prelude::*;
use crate::Error;

verus! {

broadcast use vstd::slice::axiom_spec_len;

/// The path separator.
pub const SEP: u8 = 0x2f;

/// Classification of the segment read so far: 0 while empty, 1 after
/// exactly `.`, 2 after exactly `..`, 3 for any other (normal) segment.
pub open spec fn seg_step(k: int, b: u8) -> int {
    if k == 0 {
        if b == 0x2eu8 {
            1
        } else {
            3
        }
    } else if k == 1 {
        if b == 0x2eu8 {
            2
        } else {
            3
        }
    } else {
        3
    }
}

/// Closes a segment: empty and `.` segments leave the depth alone, `..` is
/// honored only above depth zero, a normal segment descends one level.
pub open spec fn close_seg(k: int, depth: int) -> Option<int> {
    if k == 0 || k == 1 {
        Some(depth)
    } else if k == 2 {
        if depth > 0 {
            Some(depth - 1)
        } else {
            None
        }
    } else {
        Some(depth + 1)
    }
}

/// Walks the bytes of a relative path from position `i`, with the current
/// segment classified as `k` and the directory depth so far; `None` when
/// some `..` would climb above the root.
pub open spec fn spec_walk(s: Seq<u8>, i: int, k: int, depth: int) -> Option<int>
    decreases s.len() - i,
{
    if i < 0 || i >= s.len() {
        close_seg(k, depth)
    } else if s[i] == SEP {
        match close_seg(k, depth) {
            None => None,
            Some(d) => spec_walk(s, i + 1, 0, d),
        }
    } else {
        spec_walk(s, i + 1, seg_step(k, s[i]), depth)
    }
}

/// A path is absolute when it starts with the separator.
pub open spec fn spec_path_absolute(s: Seq<u8>) -> bool {
    s.len() > 0 && s[0] == SEP
}

/// A relative path stays under the root: its depth walk never fails.
pub open spec fn spec_path_ok(s: Seq<u8>) -> bool {
    spec_walk(s, 0, 0, 0) is Some
}

/// The joined destination: the base, a separator unless the base already
/// ends with one or is empty, then the validated relative path.
pub open spec fn spec_joined(base: Seq<u8>, path: Seq<u8>) -> Seq<u8> {
    if base.len() == 0 {
        path
    } else if base.last() == SEP {
        base + path
    } else {
        base + seq![SEP] + path
    }
}

/// Validates `path` against the containment rules and joins it onto
/// `base`: absolute paths are rejected, and a `..` that would climb above
/// the root fails with the path-limit error, before anything is created.
pub fn path_join(base: &[u8], path: &[u8]) -> (r: Result<Vec<u8>, Error>)
    ensures
        spec_path_absolute(path@) ==> (r matches Err(e) && e == Error::PathNotRelative),
        !spec_path_absolute(path@) && !spec_path_ok(path@) ==> (r matches Err(e) && e
            == Error::PathLimit),
        !spec_path_absolute(path@) && spec_path_ok(path@) ==> (r matches Ok(v) && v@
            == spec_joined(base@, path@)),
{
    let plen = path.len();
    if plen > 0 && *vstd::slice::slice_index_get(path, 0) == SEP {
        return Err(Error::PathNotRelative);
    }
    let mut i: usize = 0;
    let mut k: u8 = 0;
    let mut depth: usize = 0;
    while i < plen
        invariant
            plen == path@.len(),
            !spec_path_absolute(path@),
            0 <= i <= plen,
            0 <= k <= 3,
            depth + (if k == 0 { 0int } else { 1int }) <= i,
            spec_walk(path@, i as int, k as int, depth as int) == spec_walk(path@, 0, 0, 0),
        decreases plen - i,
    {
        let b = *vstd::slice::slice_index_get(path, i);
        if b == SEP {
            if k == 2 {
                if depth == 0 {
                    return Err(Error::PathLimit);
                }
                depth = depth - 1;
            } else if k == 3 {
                depth = depth + 1;
            }
            k = 0;
        } else {
            k = if k == 0 {
                if b == 0x2eu8 {
                    1
                } else {
                    3
                }
            } else if k == 1 {
                if b == 0x2eu8 {
                    2
                } else {
                    3
                }
            } else {
                3
            };
        }
        i = i + 1;
    }
    if k == 2 && depth == 0 {
        return Err(Error::PathLimit);
    }
    let mut out: Vec<u8> = vstd::slice::slice_to_vec(base);
    let blen = base.len();
    if blen > 0 && *vstd::slice::slice_index_get(base, blen - 1) != SEP {
        out.push(SEP);
    }
    let mut j: usize = 0;
    while j < plen
        invariant
            plen == path@.len(),
            0 <= j <= plen,
            out@ == spec_joined(base@, path@).take(spec_joined(base@, path@).len() - plen + j),
        decreases plen - j,
    {
        out.push(*vstd::slice::slice_index_get(path, j));
        proof {
            let full = spec_joined(base@, path@);
            assert(out@ =~= full.take(full.len() - plen + j + 1));
        }
        j = j + 1;
    }
    proof {
        let full = spec_joined(base@, path@);
        assert(out@ =~= full);
    }
    Ok(out)
}

/// A `..` can never take the walk's depth negative: whenever the walk
/// succeeds, the depth it yields is non-negative, so every honored
/// up-segment was matched by an earlier descent.
pub proof fn lemma_walk_depth_nonnegative(s: Seq<u8>, i: int, k: int, depth: int)
    requires
        depth >= 0,
        spec_walk(s, i, k, depth) is Some,
    ensures
        spec_walk(s, i, k, depth)->0 >= 0,
    decreases s.len() - i,
{
    if i < 0 || i >= s.len() {
    } else if s[i] == SEP {
        let d = close_seg(k, depth)->0;
        lemma_walk_depth_nonnegative(s, i + 1, 0, d);
    } else {
        lemma_walk_depth_nonnegative(s, i + 1, seg_step(k, s[i]), depth);
    }
}

} // verus!
