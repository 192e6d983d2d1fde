//! Text crossing the native boundary is null-terminated, so the layer must
//! reject input holding an embedded terminator before attempting the
//! crossing, and must check text coming back for valid encoding.

use vstd::prelude::*;
use vstd::string::StrSliceExecFns;
use vstd::string::StringSliceAdditionalSpecFns;
use vstd::utf8::valid_utf8;

verus! {

/// Whether a piece of text can cross the native text boundary: it holds no
/// embedded null terminator.
pub open spec fn crossable(s: Seq<char>) -> bool {
    !s.contains('\0')
}

/// Scans a string for an embedded null terminator.
pub fn contains_nul(s: &str) -> (r: bool)
    ensures
        r == !crossable(s@),
{
    let n: usize = s.unicode_len();
    let mut i: usize = 0;
    while i < n
        invariant
            n == s@.len(),
            i <= n,
            forall|j: int| 0 <= j < i ==> s@[j] != '\0',
        decreases n - i,
    {
        if s.get_char(i) == '\0' {
            assert(s@.contains('\0')) by {
                assert(s@[i as int] == '\0');
            }
            return true;
        }
        i += 1;
    }
    assert(!s@.contains('\0'));
    false
}

/// Relies on `core::str::from_utf8`: it returns `Ok` exactly when the bytes
/// are valid UTF-8, and the returned slice views the very same bytes.
#[verifier::external_body]
pub fn bytes_as_str(v: &[u8]) -> (r: Option<&str>)
    ensures
        r is Some <==> valid_utf8(v@),
        r matches Some(s) ==> s.spec_bytes() == v@,
{
    core::str::from_utf8(v).ok()
}

} // verus!
