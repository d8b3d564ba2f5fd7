use vstd::prelude::*;

verus! {

/// Byte-for-byte equality of two 32-byte identifiers.
pub fn keys_equal(a: &[u8; 32], b: &[u8; 32]) -> (r: bool)
    ensures
        r == (a@ == b@),
{
    let mut i: usize = 0;
    while i < 32
        invariant
            i <= 32,
            forall|j: int| 0 <= j < i ==> a@[j] == b@[j],
        decreases 32 - i,
    {
        if a[i] != b[i] {
            return false;
        }
        i += 1;
    }
    proof {
        assert(a@ =~= b@);
    }
    true
}

/// A fresh copy of a byte vector.
pub fn copy_bytes(src: &Vec<u8>) -> (r: Vec<u8>)
    ensures
        r@ == src@,
{
    let mut r: Vec<u8> = Vec::new();
    let mut i: usize = 0;
    while i < src.len()
        invariant
            i <= src.len(),
            r@ == src@.subrange(0, i as int),
        decreases src.len() - i,
    {
        r.push(src[i]);
        i += 1;
    }
    proof {
        assert(r@ =~= src@);
    }
    r
}

/// Appends all of `src` to `dst`.
pub fn push_bytes(dst: &mut Vec<u8>, src: &Vec<u8>)
    ensures
        final(dst)@ == old(dst)@ + src@,
{
    let mut i: usize = 0;
    while i < src.len()
        invariant
            i <= src.len(),
            dst@ == old(dst)@ + src@.subrange(0, i as int),
        decreases src.len() - i,
    {
        dst.push(src[i]);
        proof {
            assert(old(dst)@ + src@.subrange(0, i as int) + seq![src@[i as int]] =~= old(
                dst,
            )@ + src@.subrange(0, i + 1));
        }
        i += 1;
    }
    proof {
        assert(old(dst)@ + src@.subrange(0, src@.len() as int) =~= old(dst)@ + src@);
    }
}

/// Appends a 32-byte identifier to `dst`.
pub fn push_key(dst: &mut Vec<u8>, src: &[u8; 32])
    ensures
        final(dst)@ == old(dst)@ + src@,
{
    let mut i: usize = 0;
    while i < 32
        invariant
            i <= 32,
            dst@ == old(dst)@ + src@.subrange(0, i as int),
        decreases 32 - i,
    {
        dst.push(src[i]);
        proof {
            assert(old(dst)@ + src@.subrange(0, i as int) + seq![src@[i as int]] =~= old(
                dst,
            )@ + src@.subrange(0, i + 1));
        }
        i += 1;
    }
    proof {
        assert(old(dst)@ + src@.subrange(0, 32) =~= old(dst)@ + src@);
    }
}

/// A vector holding a copy of a 32-byte identifier.
pub fn key_to_vec(src: &[u8; 32]) -> (r: Vec<u8>)
    ensures
        r@ == src@,
{
    let mut r: Vec<u8> = Vec::new();
    push_key(&mut r, src);
    proof {
        assert(Seq::<u8>::empty() + src@ =~= src@);
    }
    r
}

/// `n` zero bytes.
pub fn zero_bytes(n: usize) -> (r: Vec<u8>)
    ensures
        r@ == Seq::new(n as nat, |i: int| 0u8),
{
    let mut r: Vec<u8> = Vec::new();
    let mut i: usize = 0;
    while i < n
        invariant
            i <= n,
            r@ == Seq::new(i as nat, |j: int| 0u8),
        decreases n - i,
    {
        r.push(0u8);
        proof {
            assert(Seq::new(i as nat, |j: int| 0u8) + seq![0u8] =~= Seq::new(
                (i + 1) as nat,
                |j: int| 0u8,
            ));
        }
        i += 1;
    }
    r
}

/// The 32 bytes of `v` starting at `off`, as a fixed-size identifier.
pub fn read_key_at(v: &Vec<u8>, off: usize) -> (r: [u8; 32])
    requires
        off + 32 <= v.len(),
    ensures
        r@ == v@.subrange(off as int, off as int + 32),
{
    let mut r: [u8; 32] = [0u8; 32];
    let mut i: usize = 0;
    while i < 32
        invariant
            i <= 32,
            off + 32 <= v.len(),
            forall|j: int| 0 <= j < i ==> r@[j] == v@[off + j],
        decreases 32 - i,
    {
        r[i] = v[off + i];
        i += 1;
    }
    proof {
        assert(r@ =~= v@.subrange(off as int, off as int + 32));
    }
    r
}


/// The `n` bytes of `v` starting at `off`, as a fresh vector.
pub fn read_bytes(v: &Vec<u8>, off: usize, n: usize) -> (r: Vec<u8>)
    requires
        off + n <= v.len(),
    ensures
        r@ == v@.subrange(off as int, off as int + n),
{
    let mut r: Vec<u8> = Vec::new();
    let mut i: usize = 0;
    while i < n
        invariant
            i <= n,
            off + n <= v.len(),
            r@ == v@.subrange(off as int, off as int + i),
        decreases n - i,
    {
        r.push(v[off + i]);
        proof {
            assert(v@.subrange(off as int, off as int + i) + seq![v@[off + i]] =~= v@.subrange(
                off as int,
                off as int + i + 1,
            ));
        }
        i += 1;
    }
    r
}

} // verus!
