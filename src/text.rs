//! Encoding of caller text for the native runtime.
use crate::error::{Error, ErrorCode};
use vstd::prelude::*;
use vstd::string::StringSliceAdditionalSpecFns;

verus! {

/// Diagnostic of text that holds a nul byte.
pub const INTERIOR_NUL_MESSAGE: &'static str = "text holds an interior nul byte";

/// The nul-terminated encoding of `s`.
pub open spec fn c_bytes(s: &str) -> Seq<u8> {
    s.spec_bytes().push(0u8)
}

/// Encodes `s` as a nul-terminated byte string for a native call. Text that
/// holds a nul byte cannot be encoded and is rejected as an invalid argument.
pub fn to_cstring(s: &str) -> (r: Result<Vec<u8>, Error>)
    ensures
        r is Ok <==> !s.spec_bytes().contains(0u8),
        r matches Ok(v) ==> v@ == c_bytes(s),
        r matches Err(e) ==> e.code == ErrorCode::InvalidArg && e.message@
            == INTERIOR_NUL_MESSAGE@,
{
    let bytes = s.as_bytes();
    let mut out: Vec<u8> = Vec::new();
    let mut i: usize = 0;
    while i < bytes.len()
        invariant
            bytes@ == s.spec_bytes(),
            i <= bytes@.len(),
            out@ == bytes@.subrange(0, i as int),
            forall|j: int| 0 <= j < i ==> bytes@[j] != 0u8,
        decreases bytes@.len() - i,
    {
        if bytes[i] == 0u8 {
            assert(s.spec_bytes()[i as int] == 0u8);
            return Err(Error::new(ErrorCode::InvalidArg, INTERIOR_NUL_MESSAGE));
        }
        out.push(bytes[i]);
        i = i + 1;
        assert(out@ =~= bytes@.subrange(0, i as int));
    }
    assert(out@ =~= s.spec_bytes());
    out.push(0u8);
    Ok(out)
}

} // verus!
