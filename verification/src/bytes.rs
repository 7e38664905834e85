//! Small helpers on byte vectors.
use vstd::prelude::*;

verus! {

/// A fresh vector of `length` zero bytes.
pub(crate) fn zeroed(length: usize) -> (bytes: Vec<u8>)
    ensures
        bytes@ == Seq::new(length as nat, |i: int| 0u8),
{
    let bytes: Vec<u8> = vec![0; length];
    assert(bytes@ =~= Seq::new(length as nat, |i: int| 0u8));
    bytes
}

/// A copy of `bytes`.
pub(crate) fn copied(bytes: &Vec<u8>) -> (copy: Vec<u8>)
    ensures
        copy@ == bytes@,
{
    let copy = bytes.clone();
    assert(copy@ =~= bytes@);
    copy
}

/// Copies `bytes[start..start + length]` into a fresh vector.
pub(crate) fn copy_range(bytes: &Vec<u8>, start: usize, length: usize) -> (out: Vec<u8>)
    requires
        start + length <= bytes.len(),
    ensures
        out@ == bytes@.subrange(start as int, start + length),
{
    let mut out: Vec<u8> = Vec::with_capacity(length);
    let mut i: usize = 0;
    while i < length
        invariant
            i <= length,
            start + length <= bytes.len(),
            out@ == bytes@.subrange(start as int, start + i),
        decreases length - i,
    {
        out.push(bytes[start + i]);
        i += 1;
        assert(out@ =~= bytes@.subrange(start as int, start + i));
    }
    out
}

} // verus!
