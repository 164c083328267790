//! Entry-name decoding: raw bytes as a path, an explicit charset by label,
//! or best-effort detection. The policy is an explicit value threaded into
//! every decode call.

use vstd::prelude::*;
use crate::Error;

verus! {

broadcast use vstd::slice::axiom_spec_len;

/// Whether a byte sequence is valid UTF-8.
pub uninterp spec fn is_utf8(s: Seq<u8>) -> bool;

/// The text (as UTF-8 bytes) that the encoding registered under `label`
/// decodes `bytes` to; `None` when no encoding carries that label.
pub uninterp spec fn label_decode_of(label: Seq<u8>, bytes: Seq<u8>) -> Option<Seq<u8>>;

/// The text (as UTF-8 bytes) that `bytes` decode to under the encoding
/// that detection picks for them.
pub uninterp spec fn sniff_decode_of(bytes: Seq<u8>) -> Seq<u8>;

/// Relies on std's `str::from_utf8`: it returns `Ok` exactly on valid
/// UTF-8 input.
#[verifier::external_body]
fn utf8_check(bytes: &[u8]) -> (r: bool)
    ensures
        r == is_utf8(bytes@),
{
    std::str::from_utf8(bytes).is_ok()
}

/// Relies on `encoding_rs::Encoding::for_label` and `Encoding::decode`:
/// the label lookup and the decoded text are functions of the label and
/// input bytes alone.
#[verifier::external_body]
fn decode_with_label(label: &[u8], bytes: &[u8]) -> (r: Option<Vec<u8>>)
    ensures
        (match r {
            Some(v) => label_decode_of(label@, bytes@) == Some(v@),
            None => label_decode_of(label@, bytes@) is None,
        }),
{
    match encoding_rs::Encoding::for_label(label) {
        Some(enc) => {
            let (text, _, _) = enc.decode(bytes);
            Some(text.into_owned().into_bytes())
        },
        None => None,
    }
}

/// Relies on chardetng's `EncodingDetector` (`feed`, then `guess` without
/// a domain hint and with UTF-8 denied) and on `encoding_rs::Encoding::decode`:
/// detection and decoding are functions of the input bytes alone.
#[verifier::external_body]
fn detect_and_decode(bytes: &[u8]) -> (r: Vec<u8>)
    ensures
        r@ == sniff_decode_of(bytes@),
{
    let mut detector = chardetng::EncodingDetector::new(chardetng::Iso2022JpDetection::Allow);
    detector.feed(bytes, true);
    let enc = detector.guess(None, chardetng::Utf8Detection::Deny);
    let (text, _, _) = enc.decode(bytes);
    text.into_owned().into_bytes()
}

/// The filename-decoding policy: raw bytes as the path, a fixed charset
/// named by its label, or automatic detection with UTF-8 preferred.
pub enum FilenameEncoding {
    Os,
    Charset(Vec<u8>),
    Auto,
}

/// The mathematical model of the policy.
pub enum FilenameEncodingView {
    Os,
    Charset(Seq<u8>),
    Auto,
}

impl View for FilenameEncoding {
    type V = FilenameEncodingView;

    open spec fn view(&self) -> FilenameEncodingView {
        match self {
            FilenameEncoding::Os => FilenameEncodingView::Os,
            FilenameEncoding::Charset(label) => FilenameEncodingView::Charset(label@),
            FilenameEncoding::Auto => FilenameEncodingView::Auto,
        }
    }
}

/// What a name decodes to under a policy: the bytes themselves for the
/// raw policy; the labelled charset's text, absent when the label is
/// unknown; under detection, the bytes when they are UTF-8, else the
/// detected charset's text.
pub open spec fn spec_decoded_name(enc: FilenameEncodingView, bytes: Seq<u8>) -> Option<Seq<u8>> {
    match enc {
        FilenameEncodingView::Os => Some(bytes),
        FilenameEncodingView::Charset(label) => label_decode_of(label, bytes),
        FilenameEncodingView::Auto => Some(
            if is_utf8(bytes) {
                bytes
            } else {
                sniff_decode_of(bytes)
            },
        ),
    }
}

impl FilenameEncoding {
    /// Decodes an entry name to path bytes under this policy; an unknown
    /// charset label is refused.
    pub fn decode(&self, name: &[u8]) -> (r: Result<Vec<u8>, Error>)
        ensures
            (match spec_decoded_name(self@, name@) {
                Some(s) => r matches Ok(v) && v@ == s,
                None => r matches Err(e) && e == Error::Unsupported,
            }),
    {
        match self {
            FilenameEncoding::Os => Ok(vstd::slice::slice_to_vec(name)),
            FilenameEncoding::Charset(label) => match decode_with_label(label.as_slice(), name) {
                Some(v) => Ok(v),
                None => Err(Error::Unsupported),
            },
            FilenameEncoding::Auto => {
                if utf8_check(name) {
                    Ok(vstd::slice::slice_to_vec(name))
                } else {
                    Ok(detect_and_decode(name))
                }
            },
        }
    }
}

/// The length of `s` once trailing backslashes are dropped.
pub open spec fn spec_trimmed_len(s: Seq<u8>) -> int
    decreases s.len(),
{
    if s.len() == 0 || s.last() != 0x5cu8 {
        s.len() as int
    } else {
        spec_trimmed_len(s.drop_last())
    }
}

/// Drops trailing backslashes from a directory name, as the platform path
/// separator is the forward slash.
pub fn trim_trailing_backslashes(name: &[u8]) -> (r: Vec<u8>)
    ensures
        r@ == name@.take(spec_trimmed_len(name@)),
{
    let mut n = name.len();
    proof {
        assert(name@.take(n as int) =~= name@);
    }
    while n > 0 && *vstd::slice::slice_index_get(name, n - 1) == 0x5cu8
        invariant
            n <= name@.len(),
            spec_trimmed_len(name@) == spec_trimmed_len(name@.take(n as int)),
        decreases n,
    {
        proof {
            assert(name@.take(n as int).drop_last() =~= name@.take(n - 1));
            assert(name@.take(n as int).last() == name@[n - 1]);
        }
        n = n - 1;
    }
    proof {
        if n > 0 {
            assert(name@.take(n as int).last() == name@[n - 1]);
        }
        assert(spec_trimmed_len(name@.take(n as int)) == n);
    }
    crate::bytes::copy_range(name, 0, n)
}

} // verus!
