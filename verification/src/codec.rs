//! Byte-level helpers shared by the account layout and the event layout.
use vstd::prelude::*;

verus! {

/// Whether two public keys are the same 32 bytes.
pub fn keys_equal(a: &[u8; 32], b: &[u8; 32]) -> (r: bool)
    ensures
        r == (a@ == b@),
{
    let mut i: usize = 0;
    while i < 32
        invariant
            i <= 32,
            a@.len() == 32,
            b@.len() == 32,
            forall|k: int| 0 <= k < i ==> a@[k] == b@[k],
        decreases 32 - i,
    {
        if a[i] != b[i] {
            assert(a@[i as int] != b@[i as int]);
            return false;
        }
        i = i + 1;
    }
    assert(a@ =~= b@);
    true
}

/// The `N` bytes of `data` that start at `offset`, as an array.
pub fn read_array<const N: usize>(data: &[u8], offset: usize) -> (r: [u8; N])
    requires
        offset + N <= data@.len(),
    ensures
        r@ == data@.subrange(offset as int, offset + N),
{
    let len = data.len();
    let mut out = [0u8; N];
    let mut i: usize = 0;
    while i < N
        invariant
            i <= N,
            len == data@.len(),
            offset + N <= len,
            out@.len() == N,
            forall|k: int| 0 <= k < i ==> out@[k] == data@[offset + k],
        decreases N - i,
    {
        out[i] = data[offset + i];
        i = i + 1;
    }
    assert(out@ =~= data@.subrange(offset as int, offset + N));
    out
}

/// Appends `bytes` to `out`.
pub fn push_bytes(out: &mut Vec<u8>, bytes: &[u8])
    ensures
        final(out)@ == old(out)@ + bytes@,
{
    let ghost start = out@;
    let mut i: usize = 0;
    while i < bytes.len()
        invariant
            i <= bytes@.len(),
            out@ == start + bytes@.subrange(0, i as int),
        decreases bytes@.len() - i,
    {
        out.push(bytes[i]);
        i = i + 1;
        assert(out@ =~= start + bytes@.subrange(0, i as int));
    }
    assert(bytes@.subrange(0, bytes@.len() as int) =~= bytes@);
}

/// Copies `bytes` into `data` at `offset`, leaving every other byte as it was.
pub fn put(data: &mut Vec<u8>, offset: usize, bytes: &[u8])
    requires
        offset + bytes@.len() <= old(data)@.len(),
    ensures
        final(data)@ == old(data)@.subrange(0, offset as int) + bytes@ + old(data)@.subrange(
            offset + bytes@.len(),
            old(data)@.len() as int,
        ),
{
    let ghost start = data@;
    let len = data.len();
    let mut i: usize = 0;
    while i < bytes.len()
        invariant
            i <= bytes@.len(),
            len == start.len(),
            offset + bytes@.len() <= len,
            data@.len() == start.len(),
            forall|k: int| 0 <= k < offset ==> data@[k] == start[k],
            forall|k: int| 0 <= k < i ==> data@[offset + k] == bytes@[k],
            forall|k: int| offset + i <= k < start.len() ==> data@[k] == start[k],
        decreases bytes@.len() - i,
    {
        data.set(offset + i, bytes[i]);
        i = i + 1;
    }
    assert(data@ =~= start.subrange(0, offset as int) + bytes@ + start.subrange(
        offset + bytes@.len(),
        start.len() as int,
    ));
}

} // verus!
