//! Byte strings in the native calling convention.
//!
//! The HAL identifies modules and devices by fixed ASCII strings with a
//! terminating null byte, and the Wi-Fi control channel sends command text
//! the same way.  This module builds and compares such byte strings.

use vstd::prelude::*;
use vstd::slice::slice_to_vec;
use vstd::string::StringSliceAdditionalSpecFns;

verus! {

/// Compares two byte strings for equality.
pub fn bytes_eq(a: &[u8], b: &[u8]) -> (r: bool)
    ensures
        r == (a@ == b@),
{
    if a.len() != b.len() {
        assert(a@ != b@);
        return false;
    }
    let n: usize = a.len();
    let mut i: usize = 0;
    while i < n
        invariant
            n == a@.len() == b@.len(),
            0 <= i <= n,
            forall|j: int| 0 <= j < i ==> a@[j] == b@[j],
        decreases n - i,
    {
        if a[i] != b[i] {
            return false;
        }
        i += 1;
    }
    assert(a@ =~= b@);
    true
}

/// Appends the terminating null byte that the native side expects.
/// For identifiers that are known to hold no interior null byte; text from
/// a caller goes through [`nul_terminated`] instead.
pub fn cstr_bytes(s: &str) -> (r: Vec<u8>)
    ensures
        r@ == s.spec_bytes() + seq![0u8],
{
    let mut v = slice_to_vec(s.as_bytes());
    v.push(0);
    assert(v@ =~= s.spec_bytes() + seq![0u8]);
    v
}

/// Turns caller text into a null-terminated byte string, or reports that it
/// cannot be sent: text holding an interior null byte is incompatible with
/// the native string convention, a caller mistake rather than a runtime
/// condition.
pub fn nul_terminated(s: &str) -> (r: Option<Vec<u8>>)
    ensures
        r is Some <==> !s.spec_bytes().contains(0u8),
        r is Some ==> r->Some_0@ == s.spec_bytes() + seq![0u8],
{
    let bytes: &[u8] = s.as_bytes();
    let n: usize = bytes.len();
    let mut i: usize = 0;
    while i < n
        invariant
            n == bytes@.len(),
            bytes@ == s.spec_bytes(),
            0 <= i <= n,
            forall|j: int| 0 <= j < i ==> bytes@[j] != 0u8,
        decreases n - i,
    {
        if bytes[i] == 0 {
            assert(s.spec_bytes().contains(0u8));
            return None;
        }
        i += 1;
    }
    assert(!s.spec_bytes().contains(0u8));
    Some(cstr_bytes(s))
}

} // verus!
