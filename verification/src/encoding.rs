//! Marshaling of strings across the C boundary.
//!
//! The host's message bus takes null-terminated byte buffers and hands back
//! host-owned, null-terminated buffers. Encoding rejects any string with an
//! embedded null byte instead of silently truncating; decoding copies the
//! bytes before the first null into an owned buffer, because the host's
//! buffer is not guaranteed to outlive the call.

use vstd::prelude::*;
use vstd::string::StringSliceAdditionalSpecFns;

use crate::errors::BridgeError;

verus! {

/// True when no byte of `s` is the null byte.
pub open spec fn nul_free(s: Seq<u8>) -> bool {
    forall|i: int| 0 <= i < s.len() ==> s[i] != 0
}

/// Encodes a byte string for the C boundary: the same bytes followed by one
/// null terminator. Fails with `EncodingError` exactly when `b` already
/// contains a null byte.
pub fn encode_c_bytes(b: &[u8]) -> (r: Result<Vec<u8>, BridgeError>)
    ensures
        match r {
            Ok(v) => nul_free(b@) && v@ == b@.push(0u8),
            Err(e) => e == BridgeError::EncodingError && !nul_free(b@),
        },
{
    let mut out: Vec<u8> = Vec::new();
    let mut i: usize = 0;
    while i < b.len()
        invariant
            0 <= i <= b@.len(),
            out@ == b@.take(i as int),
            nul_free(b@.take(i as int)),
        decreases b@.len() - i,
    {
        let byte = b[i];
        if byte == 0 {
            proof {
                assert(b@[i as int] == 0);
            }
            return Err(BridgeError::EncodingError);
        }
        out.push(byte);
        i = i + 1;
        proof {
            assert(b@.take(i as int) =~= b@.take(i - 1).push(b@[i - 1]));
        }
    }
    proof {
        assert(b@.take(b@.len() as int) =~= b@);
    }
    out.push(0);
    Ok(out)
}

/// Encodes a native string for the C boundary, as `encode_c_bytes` does for
/// its UTF-8 bytes.
pub fn encode_c_string(s: &str) -> (r: Result<Vec<u8>, BridgeError>)
    ensures
        match r {
            Ok(v) => nul_free(s.spec_bytes()) && v@ == s.spec_bytes().push(0u8),
            Err(e) => e == BridgeError::EncodingError && !nul_free(s.spec_bytes()),
        },
{
    encode_c_bytes(s.as_bytes())
}

/// Copies a null-terminated C string out of a host-owned buffer: the result
/// is the (null-free) prefix of `buf` before its first null byte, owned by
/// the caller. Returns `None` exactly when `buf` holds no null byte at all,
/// i.e. when it is not a C string.
pub fn copy_c_string(buf: &[u8]) -> (r: Option<Vec<u8>>)
    ensures
        match r {
            Some(v) => v@.len() < buf@.len() && nul_free(v@) && buf@[v@.len() as int] == 0
                && v@ == buf@.take(v@.len() as int),
            None => nul_free(buf@),
        },
{
    let mut out: Vec<u8> = Vec::new();
    let mut i: usize = 0;
    while i < buf.len()
        invariant
            0 <= i <= buf@.len(),
            out@ == buf@.take(i as int),
            nul_free(buf@.take(i as int)),
        decreases buf@.len() - i,
    {
        let byte = buf[i];
        if byte == 0 {
            return Some(out);
        }
        out.push(byte);
        i = i + 1;
        proof {
            assert(buf@.take(i as int) =~= buf@.take(i - 1).push(buf@[i - 1]));
        }
    }
    proof {
        assert(buf@.take(buf@.len() as int) =~= buf@);
    }
    None
}

/// True exactly when the two byte slices hold the same bytes.
pub fn bytes_eq(a: &[u8], b: &[u8]) -> (r: bool)
    ensures
        r <==> a@ == b@,
{
    if a.len() != b.len() {
        return false;
    }
    let mut i: usize = 0;
    while i < a.len()
        invariant
            0 <= i <= a@.len(),
            a@.len() == b@.len(),
            forall|j: int| 0 <= j < i ==> a@[j] == b@[j],
        decreases a@.len() - i,
    {
        if a[i] != b[i] {
            return false;
        }
        i = i + 1;
    }
    proof {
        assert(a@ =~= b@);
    }
    true
}

/// Prepares one message-identifier lookup for the host: both the namespace
/// and the message name encoded as null-terminated buffers. Fails with
/// `EncodingError` exactly when either string holds an embedded null byte;
/// nothing is handed to the host in that case.
pub fn resolve_request(name_space: &str, name: &str) -> (r: Result<
    (Vec<u8>, Vec<u8>),
    BridgeError,
>)
    ensures
        match r {
            Ok(p) => nul_free(name_space.spec_bytes()) && nul_free(name.spec_bytes())
                && p.0@ == name_space.spec_bytes().push(0u8) && p.1@ == name.spec_bytes().push(
                0u8,
            ),
            Err(e) => e == BridgeError::EncodingError && (!nul_free(name_space.spec_bytes())
                || !nul_free(name.spec_bytes())),
        },
{
    let ns = encode_c_string(name_space)?;
    let nm = encode_c_string(name)?;
    Ok((ns, nm))
}

/// Encodes every candidate value of an option for the C boundary, in order.
/// Fails with `EncodingError` exactly when some value holds an embedded
/// null byte.
pub fn encode_c_byte_strings(values: &Vec<Vec<u8>>) -> (r: Result<Vec<Vec<u8>>, BridgeError>)
    ensures
        match r {
            Ok(vs) => vs@.len() == values@.len() && (forall|i: int|
                0 <= i < vs@.len() ==> nul_free(#[trigger] values@[i]@)) && (forall|i: int|
                0 <= i < vs@.len() ==> #[trigger] vs@[i]@ == values@[i]@.push(0u8)),
            Err(e) => e == BridgeError::EncodingError && exists|i: int|
                0 <= i < values@.len() && !nul_free(#[trigger] values@[i]@),
        },
{
    let mut out: Vec<Vec<u8>> = Vec::new();
    let mut i: usize = 0;
    while i < values.len()
        invariant
            0 <= i <= values@.len(),
            out@.len() == i,
            forall|j: int| 0 <= j < i ==> nul_free(#[trigger] values@[j]@),
            forall|j: int| 0 <= j < i ==> #[trigger] out@[j]@ == values@[j]@.push(0u8),
        decreases values@.len() - i,
    {
        let encoded = encode_c_bytes(values[i].as_slice())?;
        out.push(encoded);
        i = i + 1;
    }
    Ok(out)
}

} // verus!
