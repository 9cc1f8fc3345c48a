//! Conversions between Rust strings and the NUL-terminated byte strings of the C interface.

use vstd::prelude::*;
use vstd::string::StrSliceExecFns;
use vstd::string::StringSliceAdditionalSpecFns;
use vstd::utf8::{encode_utf8, valid_utf8};

verus! {

/// The bytes of a C string holding `bytes`: `bytes` followed by one terminating NUL.
pub open spec fn c_bytes(bytes: Seq<u8>) -> Seq<u8> {
    bytes.push(0u8)
}

/// Index of the first NUL byte of `bytes`, if there is one.
pub open spec fn first_nul(bytes: Seq<u8>, i: int) -> bool {
    &&& 0 <= i < bytes.len()
    &&& bytes[i] == 0
    &&& forall|j: int| 0 <= j < i ==> bytes[j] != 0
}

/// A C string made from bytes without a NUL ends at its one terminator: C reads back
/// exactly those bytes, no fewer.
pub proof fn lemma_c_bytes_read_back(bytes: Seq<u8>)
    requires
        !bytes.contains(0u8),
    ensures
        c_bytes(bytes).last() == 0u8,
        first_nul(c_bytes(bytes), bytes.len() as int),
        c_bytes(bytes).drop_last() == bytes,
{
    assert forall|j: int| 0 <= j < bytes.len() implies c_bytes(bytes)[j] != 0 by {
        if c_bytes(bytes)[j] == 0 {
            assert(bytes[j] == 0u8);
            assert(bytes.contains(0u8));
        }
    }
    assert(c_bytes(bytes).drop_last() =~= bytes);
}

/// A string that goes to C as the bytes of its C string comes back, when those bytes
/// are read before the terminator and decoded, as the same string.
pub proof fn lemma_string_round_trip(s: Seq<char>)
    ensures
        valid_utf8(c_bytes(encode_utf8(s)).drop_last()),
        vstd::utf8::decode_utf8(c_bytes(encode_utf8(s)).drop_last()) == s,
{
    assert(c_bytes(encode_utf8(s)).drop_last() =~= encode_utf8(s));
    vstd::utf8::encode_utf8_valid_utf8(s);
    vstd::utf8::encode_utf8_decode_utf8(s);
}

/// `s` followed by a terminating NUL, whatever `s` holds (a NUL inside `s` is kept).
pub fn nul_terminated(s: &str) -> (v: Vec<u8>)
    ensures
        v@ == c_bytes(s.spec_bytes()),
{
    let mut v = s.as_bytes_vec();
    v.push(0u8);
    v
}

/// The error of [`c_string`]: the input held a NUL byte.
pub struct NulError {
    nul_position: usize,
    bytes: Vec<u8>,
}

impl NulError {
    pub closed spec fn position(&self) -> nat {
        self.nul_position as nat
    }

    pub closed spec fn input(&self) -> Seq<u8> {
        self.bytes@
    }

    /// Index of the first NUL byte of the input.
    pub fn nul_position(&self) -> (p: usize)
        ensures
            p == self.position(),
    {
        self.nul_position
    }

    /// The bytes of the input, unchanged.
    pub fn into_vec(self) -> (v: Vec<u8>)
        ensures
            v@ == self.input(),
    {
        self.bytes
    }
}

/// The C string of `s`: its bytes and a terminating NUL, or an error naming the
/// first NUL byte of `s` when `s` holds one.
pub fn c_string(s: &str) -> (r: Result<Vec<u8>, NulError>)
    ensures
        r is Ok <==> !s.spec_bytes().contains(0u8),
        r matches Ok(v) ==> v@ == c_bytes(s.spec_bytes()),
        r matches Err(e) ==> first_nul(s.spec_bytes(), e.position() as int) && e.input()
            == s.spec_bytes(),
{
    let mut bytes = s.as_bytes_vec();
    let n = bytes.len();
    let mut i: usize = 0;
    while i < n
        invariant
            n == bytes@.len(),
            bytes@ == s.spec_bytes(),
            i <= n,
            forall|j: int| 0 <= j < i ==> bytes@[j] != 0,
        decreases n - i,
    {
        if bytes[i] == 0 {
            return Err(NulError { nul_position: i, bytes });
        }
        i = i + 1;
    }
    assert(!s.spec_bytes().contains(0u8)) by {
        if s.spec_bytes().contains(0u8) {
            let k = choose|k: int| 0 <= k < bytes@.len() && bytes@[k] == 0u8;
            assert(bytes@[k] != 0);
        }
    }
    bytes.push(0u8);
    Ok(bytes)
}

/// The error of [`string_from_c_bytes`]: the bytes were not valid UTF-8.
pub struct IntoStringError {
    bytes: Vec<u8>,
}

impl IntoStringError {
    pub closed spec fn input(&self) -> Seq<u8> {
        self.bytes@
    }

    /// The bytes that were not valid UTF-8, unchanged.
    pub fn into_bytes(self) -> (v: Vec<u8>)
        ensures
            v@ == self.input(),
    {
        self.bytes
    }
}

/// `std::str::from_utf8`: the string slice whose bytes are `bytes`, where they are
/// valid UTF-8, and nothing otherwise (std documents exactly this).
#[verifier::external_body]
fn utf8_str(bytes: &[u8]) -> (r: Option<&str>)
    ensures
        r is Some <==> valid_utf8(bytes@),
        r matches Some(s) ==> s.spec_bytes() == bytes@,
{
    std::str::from_utf8(bytes).ok()
}

/// The string held by the bytes of a C string (without its terminating NUL), where
/// they are valid UTF-8, so that encoding it gives the bytes back; else the error,
/// which gives the bytes back. A function's name is read this way.
pub fn string_from_c_bytes(bytes: &[u8]) -> (r: Result<String, IntoStringError>)
    ensures
        r is Ok <==> valid_utf8(bytes@),
        r matches Ok(s) ==> s@ == vstd::utf8::decode_utf8(bytes@) && encode_utf8(s@) == bytes@,
        r matches Err(e) ==> e.input() == bytes@,
{
    match utf8_str(bytes) {
        Some(s) => {
            let owned = s.to_owned();
            proof {
                vstd::utf8::encode_utf8_decode_utf8(s@);
            }
            Ok(owned)
        },
        None => Err(IntoStringError { bytes: vstd::slice::slice_to_vec(bytes) }),
    }
}

} // verus!
