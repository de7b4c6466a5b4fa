//! Byte-stream traits, and values that name a host for the engine's lookup primitive.
use vstd::prelude::*;
use cstr_core::CStr;
use super::error::Result;

verus! {

#[verifier::external_type_specification]
#[verifier::external_body]
pub struct ExCStr(cstr_core::CStr);

/// Relies on `cstr_core::CStr::to_bytes_with_nul`: the string's bytes including the
/// trailing nul, which a `CStr` always ends with and holds nowhere else.
#[verifier::external_body]
fn bytes_with_nul(s: &CStr) -> (r: &[u8])
    ensures
        r@.len() >= 1,
        r@.last() == 0,
        forall|i: int| 0 <= i < r@.len() - 1 ==> r@[i] != 0,
{
    s.to_bytes_with_nul()
}

/// Read data from a readable stream.
pub trait Read {
    /// Reads up to `buf.len()` bytes into `buf` and returns how many were read.
    fn read(&mut self, buf: &mut [u8]) -> Result<usize>;
}

/// Write data to a writable stream.
pub trait Write {
    /// Writes from `buf` and returns how many bytes were written.
    fn write(&mut self, buf: &[u8]) -> Result<usize>;

    /// Flushes the stream.
    fn flush(&mut self) -> Result<()>;
}

/// Keeps `ToSocketAddr` closed to this crate's own impls.
pub trait Sealed {}

/// A value that can be turned into an IP address by the engine's lookup primitive.
pub trait ToSocketAddr: Sealed {
    /// The host name as the lookup primitive takes it: nul-terminated, no other nul.
    fn host_name(&self) -> (r: &[u8])
        ensures
            r@.len() >= 1,
            r@.last() == 0,
            forall|i: int| 0 <= i < r@.len() - 1 ==> r@[i] != 0,
    ;
}

impl<'a> Sealed for &'a CStr {}

impl<'a> ToSocketAddr for &'a CStr {
    fn host_name(&self) -> (r: &[u8]) {
        bytes_with_nul(*self)
    }
}

} // verus!
