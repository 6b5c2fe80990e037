//! Paths handed to FFmpeg travel as C strings, which cannot hold a NUL byte.
use vstd::prelude::*;
use vstd::string::StringSliceAdditionalSpecFns;

verus! {

/// The bytes of `s` can form a C string: none of them is NUL.
pub open spec fn is_c_compatible(bytes: Seq<u8>) -> bool {
    !bytes.contains(0u8)
}

/// The UTF-8 bytes of `s`, when they can become a C string (no NUL byte
/// among them), and `None` otherwise.
pub fn c_string_bytes(s: &str) -> (res: Option<Vec<u8>>)
    ensures
        res is Some <==> is_c_compatible(s.spec_bytes()),
        res matches Some(bytes) ==> bytes@ == s.spec_bytes(),
{
    let bytes = s.as_bytes();
    let mut out: Vec<u8> = Vec::new();
    let mut i: usize = 0;
    while i < bytes.len()
        invariant
            bytes@ == s.spec_bytes(),
            i <= bytes@.len(),
            out@ == bytes@.subrange(0, i as int),
            forall|j: int| 0 <= j < i ==> bytes@[j] != 0u8,
        decreases bytes@.len() - i,
    {
        let b = bytes[i];
        if b == 0u8 {
            assert(bytes@[i as int] == 0u8);
            return None;
        }
        out.push(b);
        i = i + 1;
        assert(out@ =~= bytes@.subrange(0, i as int));
    }
    assert(out@ =~= bytes@);
    assert(!bytes@.contains(0u8));
    Some(out)
}

} // verus!
