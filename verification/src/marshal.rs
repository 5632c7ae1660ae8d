//! Byte-level marshalling for the foreign-call boundary.
//!
//! Every string that crosses to the native side travels as a NUL-terminated
//! byte buffer, and every string that comes back is read out of one.  A
//! payload that already contains a NUL byte cannot be framed that way; that
//! is a programmer error surfaced at the call site, never passed through
//! silently.

use vstd::prelude::*;

verus! {

/// Whether a character sequence is free of embedded NUL characters, and so
/// can be framed as a NUL-terminated buffer.
pub open spec fn no_nul(s: Seq<char>) -> bool {
    forall|i: int| 0 <= i < s.len() ==> s[i] != '\0'
}

/// Whether a byte sequence is free of embedded NUL bytes.
pub open spec fn no_nul_bytes(s: Seq<u8>) -> bool {
    forall|i: int| 0 <= i < s.len() ==> s[i] != 0u8
}

/// Why a payload could not be marshalled.
#[derive(Clone, Copy, PartialEq, Eq, Structural, Debug)]
pub enum MarshalError {
    /// The payload contains an embedded NUL byte.
    InteriorNul,
}

/// Frames a payload as a NUL-terminated buffer: the payload's bytes followed
/// by exactly one terminator.  A payload with an embedded NUL byte is
/// refused, if and only if it has one.
pub fn nul_terminate(data: &[u8]) -> (r: Result<Vec<u8>, MarshalError>)
    ensures
        no_nul_bytes(data@) ==> (r matches Ok(v) && v@ == data@.push(0u8)),
        !no_nul_bytes(data@) ==> r == Err::<Vec<u8>, MarshalError>(MarshalError::InteriorNul),
{
    let n = data.len();
    let mut out: Vec<u8> = Vec::new();
    let mut i: usize = 0;
    while i < n
        invariant
            n == data@.len(),
            i <= n,
            out@ == data@.take(i as int),
            forall|k: int| 0 <= k < i as int ==> data@[k] != 0u8,
        decreases n - i,
    {
        let b = data[i];
        if b == 0 {
            return Err(MarshalError::InteriorNul);
        }
        out.push(b);
        i = i + 1;
    }
    out.push(0);
    proof {
        assert(data@.take(n as int) =~= data@);
    }
    Ok(out)
}

/// Reads the contents of a NUL-terminated buffer: the longest prefix that
/// holds no NUL byte.  A buffer with no terminator at all yields the whole
/// buffer.
pub fn read_nul_terminated(buf: &[u8]) -> (r: Vec<u8>)
    ensures
        r@.len() <= buf@.len(),
        r@ == buf@.take(r@.len() as int),
        forall|i: int| 0 <= i < r@.len() ==> buf@[i] != 0u8,
        r@.len() < buf@.len() ==> buf@[r@.len() as int] == 0u8,
{
    let n = buf.len();
    let mut out: Vec<u8> = Vec::new();
    let mut i: usize = 0;
    while i < n
        invariant
            n == buf@.len(),
            i <= n,
            out@ == buf@.take(i as int),
            forall|k: int| 0 <= k < i as int ==> buf@[k] != 0u8,
        decreases n - i,
    {
        let b = buf[i];
        if b == 0 {
            return out;
        }
        out.push(b);
        i = i + 1;
    }
    out
}

} // verus!
