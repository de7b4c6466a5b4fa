//! Conversions at the engine's entry points: raw lengths to view bounds, the
//! version text into the engine's buffer, and payload bytes to text.
use vstd::prelude::*;
use vstd::string::StringSliceAdditionalSpecFns;
use vstd::utf8::valid_utf8;
use crate::config::{c_field, strcpy, zeros};

verus! {

/// The number of bytes a view of a payload of raw length `len` covers: a
/// negative length covers nothing.
pub fn payload_len(len: i32) -> (r: usize)
    ensures
        len < 0 ==> r == 0,
        len >= 0 ==> r == len,
{
    if len < 0 {
        0
    } else {
        len as usize
    }
}

/// Fills the engine's version buffer `out` with `version`: zeroed first, then as
/// much of the text as leaves room for the terminating nul.
pub fn write_version(out: &mut [i8], version: &str)
    ensures
        final(out)@ == c_field(old(out)@.len(), version.spec_bytes()),
{
    let cap = out.len();
    let mut i: usize = 0;
    while i < cap
        invariant
            cap == out@.len(),
            i <= cap,
            forall|j: int| 0 <= j < i ==> out@[j] == 0,
        decreases cap - i,
    {
        out[i] = 0;
        i = i + 1;
    }
    assert(out@ =~= zeros(cap as nat));
    strcpy(out, version);
}

/// Relies on `std::str::from_utf8`: it accepts exactly the byte strings that are
/// valid UTF-8, and the text it gives back is those bytes.
#[verifier::external_body]
fn utf8_text(bytes: &[u8]) -> (r: Option<&str>)
    ensures
        r is Some <==> valid_utf8(bytes@),
        r matches Some(s) ==> s.spec_bytes() == bytes@,
{
    std::str::from_utf8(bytes).ok()
}

/// The text a payload holds, or `None` where it is not valid UTF-8.
pub fn decode_text(bytes: &[u8]) -> (r: Option<&str>)
    ensures
        r is Some <==> valid_utf8(bytes@),
        r matches Some(s) ==> s.spec_bytes() == bytes@,
{
    utf8_text(bytes)
}

} // verus!
