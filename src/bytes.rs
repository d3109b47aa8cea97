use vstd::prelude::*;

verus! {

/// The eight bytes of `u`, least significant first.
pub open spec fn le8(u: u64) -> Seq<u8> {
    seq![
        (u & 0xff) as u8,
        ((u >> 8u64) & 0xff) as u8,
        ((u >> 16u64) & 0xff) as u8,
        ((u >> 24u64) & 0xff) as u8,
        ((u >> 32u64) & 0xff) as u8,
        ((u >> 40u64) & 0xff) as u8,
        ((u >> 48u64) & 0xff) as u8,
        ((u >> 56u64) & 0xff) as u8,
    ]
}

/// The integer whose little-endian bytes are the first eight of `b`.
pub open spec fn from_le8(b: Seq<u8>) -> u64
    recommends
        b.len() >= 8,
{
    (b[0] as u64) | ((b[1] as u64) << 8u64) | ((b[2] as u64) << 16u64) | ((b[3] as u64) << 24u64)
        | ((b[4] as u64) << 32u64) | ((b[5] as u64) << 40u64) | ((b[6] as u64) << 48u64) | ((
    b[7] as u64) << 56u64)
}

pub proof fn lemma_from_le8_of_le8(u: u64)
    ensures
        from_le8(le8(u)) == u,
{
    let b = le8(u);
    assert(b[0] as u64 == u & 0xff) by {
        assert(u & 0xff < 256) by (bit_vector);
    }
    assert(b[1] as u64 == (u >> 8u64) & 0xff) by {
        assert((u >> 8u64) & 0xff < 256) by (bit_vector);
    }
    assert(b[2] as u64 == (u >> 16u64) & 0xff) by {
        assert((u >> 16u64) & 0xff < 256) by (bit_vector);
    }
    assert(b[3] as u64 == (u >> 24u64) & 0xff) by {
        assert((u >> 24u64) & 0xff < 256) by (bit_vector);
    }
    assert(b[4] as u64 == (u >> 32u64) & 0xff) by {
        assert((u >> 32u64) & 0xff < 256) by (bit_vector);
    }
    assert(b[5] as u64 == (u >> 40u64) & 0xff) by {
        assert((u >> 40u64) & 0xff < 256) by (bit_vector);
    }
    assert(b[6] as u64 == (u >> 48u64) & 0xff) by {
        assert((u >> 48u64) & 0xff < 256) by (bit_vector);
    }
    assert(b[7] as u64 == (u >> 56u64) & 0xff) by {
        assert((u >> 56u64) & 0xff < 256) by (bit_vector);
    }
    assert(u == (u & 0xff) | (((u >> 8u64) & 0xff) << 8u64) | (((u >> 16u64) & 0xff) << 16u64) | ((
    (u >> 24u64) & 0xff) << 24u64) | (((u >> 32u64) & 0xff) << 32u64) | (((u >> 40u64) & 0xff)
        << 40u64) | (((u >> 48u64) & 0xff) << 48u64) | (((u >> 56u64) & 0xff) << 56u64))
        by (bit_vector);
}

/// Writes `u` as eight little-endian bytes after what `out` holds.
pub fn push_le8(out: &mut Vec<u8>, u: u64)
    ensures
        final(out)@ == old(out)@ + le8(u),
{
    out.push((u & 0xff) as u8);
    out.push(((u >> 8u64) & 0xff) as u8);
    out.push(((u >> 16u64) & 0xff) as u8);
    out.push(((u >> 24u64) & 0xff) as u8);
    out.push(((u >> 32u64) & 0xff) as u8);
    out.push(((u >> 40u64) & 0xff) as u8);
    out.push(((u >> 48u64) & 0xff) as u8);
    out.push(((u >> 56u64) & 0xff) as u8);
    assert(final(out)@ =~= old(out)@ + le8(u));
}

/// Reads the eight little-endian bytes of `b` that start at `at`.
pub fn read_le8(b: &[u8], at: usize) -> (r: u64)
    requires
        at + 8 <= b@.len(),
    ensures
        r == from_le8(b@.subrange(at as int, at + 8)),
{
    let ghost w = b@.subrange(at as int, at + 8);
    assert(w[0] == b@[at as int] && w[1] == b@[at + 1] && w[2] == b@[at + 2] && w[3] == b@[at + 3]);
    assert(w[4] == b@[at + 4] && w[5] == b@[at + 5] && w[6] == b@[at + 6] && w[7] == b@[at + 7]);
    (b[at] as u64) | ((b[at + 1] as u64) << 8u64) | ((b[at + 2] as u64) << 16u64) | ((b[at
        + 3] as u64) << 24u64) | ((b[at + 4] as u64) << 32u64) | ((b[at + 5] as u64) << 40u64)
        | ((b[at + 6] as u64) << 48u64) | ((b[at + 7] as u64) << 56u64)
}

} // verus!
