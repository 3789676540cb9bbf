use vstd::prelude::*;

verus! {

/// Big-endian encoding of a 64-bit value as eight bytes.
#[verifier::opaque]
pub open spec fn be64(x: u64) -> Seq<u8> {
    seq![
        (x >> 56) as u8,
        (x >> 48) as u8,
        (x >> 40) as u8,
        (x >> 32) as u8,
        (x >> 24) as u8,
        (x >> 16) as u8,
        (x >> 8) as u8,
        x as u8,
    ]
}

/// The 64-bit value held by eight big-endian bytes.
#[verifier::opaque]
pub open spec fn be64_val(s: Seq<u8>) -> u64
    recommends
        s.len() == 8,
{
    ((s[0] as u64) << 56) | ((s[1] as u64) << 48) | ((s[2] as u64) << 40) | ((s[3] as u64) << 32)
        | ((s[4] as u64) << 24) | ((s[5] as u64) << 16) | ((s[6] as u64) << 8) | (s[7] as u64)
}

pub proof fn lemma_be64_roundtrip(x: u64)
    ensures
        be64(x).len() == 8,
        be64_val(be64(x)) == x,
{
    reveal(be64);
    reveal(be64_val);
    assert((((x >> 56) as u8 as u64) << 56) | (((x >> 48) as u8 as u64) << 48) | (((x >> 40)
        as u8 as u64) << 40) | (((x >> 32) as u8 as u64) << 32) | (((x >> 24) as u8 as u64) << 24)
        | (((x >> 16) as u8 as u64) << 16) | (((x >> 8) as u8 as u64) << 8) | (x as u8 as u64)
        == x) by (bit_vector);
}

/// Reading a 64-bit length or tag from the front of a byte sequence:
/// the value and the remainder, or nothing if fewer than eight bytes stand there.
pub open spec fn take_u64(s: Seq<u8>) -> Option<(u64, Seq<u8>)> {
    if s.len() >= 8 {
        Some((be64_val(s.take(8)), s.skip(8)))
    } else {
        None
    }
}

pub proof fn lemma_take_u64(x: u64, rest: Seq<u8>)
    ensures
        take_u64(be64(x) + rest) == Some((x, rest)),
{
    lemma_be64_roundtrip(x);
    assert((be64(x) + rest).take(8) =~= be64(x));
    assert((be64(x) + rest).skip(8) =~= rest);
}

/// Appends the eight big-endian bytes of `x`.
pub fn push_be64(v: &mut Vec<u8>, x: u64)
    ensures
        final(v)@ == old(v)@ + be64(x),
{
    v.push(#[verifier::truncate] ((x >> 56) as u8));
    v.push(#[verifier::truncate] ((x >> 48) as u8));
    v.push(#[verifier::truncate] ((x >> 40) as u8));
    v.push(#[verifier::truncate] ((x >> 32) as u8));
    v.push(#[verifier::truncate] ((x >> 24) as u8));
    v.push(#[verifier::truncate] ((x >> 16) as u8));
    v.push(#[verifier::truncate] ((x >> 8) as u8));
    v.push(#[verifier::truncate] (x as u8));
    proof {
        reveal(be64);
        assert(v@ =~= old(v)@ + be64(x));
    }
}

/// Appends a copy of `data`.
pub fn push_bytes(v: &mut Vec<u8>, data: &Vec<u8>)
    ensures
        final(v)@ == old(v)@ + data@,
{
    let mut k: usize = 0;
    while k < data.len()
        invariant
            k <= data@.len(),
            v@ == old(v)@ + data@.take(k as int),
        decreases data@.len() - k,
    {
        v.push(data[k]);
        k = k + 1;
        assert(v@ =~= old(v)@ + data@.take(k as int));
    }
    assert(v@ =~= old(v)@ + data@);
}

/// Reads the eight bytes at `i` as one big-endian value and tells where the
/// remainder begins; nothing if fewer than eight bytes remain.
pub fn read_u64(v: &Vec<u8>, i: usize) -> (r: Option<(u64, usize)>)
    requires
        i <= v@.len(),
    ensures
        match r {
            Some((x, j)) => i <= j <= v@.len() && take_u64(v@.skip(i as int)) == Some((
                x,
                v@.skip(j as int),
            )),
            None => take_u64(v@.skip(i as int)) is None,
        },
{
    if v.len() - i >= 8 {
        let x = ((v[i] as u64) << 56) | ((v[i + 1] as u64) << 48) | ((v[i + 2] as u64) << 40) | ((
        v[i + 3] as u64) << 32) | ((v[i + 4] as u64) << 24) | ((v[i + 5] as u64) << 16) | ((v[i
            + 6] as u64) << 8) | (v[i + 7] as u64);
        proof {
            reveal(be64_val);
            let s = v@.skip(i as int);
            assert(s.take(8) =~= v@.subrange(i as int, i as int + 8));
            assert(s.skip(8) =~= v@.skip(i as int + 8));
            assert(x == be64_val(s.take(8)));
        }
        Some((x, i + 8))
    } else {
        None
    }
}

/// Copies the `n` bytes that begin at `i` into a fresh vector.
pub fn read_bytes(v: &Vec<u8>, i: usize, n: usize) -> (r: Vec<u8>)
    requires
        i + n <= v@.len(),
    ensures
        r@ == v@.subrange(i as int, i as int + n as int),
{
    let vlen = v.len();
    let mut r: Vec<u8> = Vec::new();
    let mut k: usize = 0;
    while k < n
        invariant
            k <= n,
            i + n <= vlen == v@.len(),
            r@ == v@.subrange(i as int, i as int + k as int),
        decreases n - k,
    {
        r.push(v[i + k]);
        k = k + 1;
        assert(r@ =~= v@.subrange(i as int, i as int + k as int));
    }
    r
}

} // verus!
