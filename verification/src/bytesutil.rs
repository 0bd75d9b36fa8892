//! Small verified helpers on byte slices and byte vectors, shared by the
//! format parsers and the container codec.

use vstd::prelude::*;

verus! {

/// ASCII lower-casing of a single byte: `'A'..='Z'` map to `'a'..='z'`,
/// everything else is unchanged.
pub open spec fn spec_ascii_lower(b: u8) -> u8 {
    if 0x41 <= b && b <= 0x5a {
        (b + 0x20) as u8
    } else {
        b
    }
}

/// ASCII lower-casing of a byte sequence, element-wise.
pub open spec fn spec_lower_bytes(s: Seq<u8>) -> Seq<u8> {
    s.map_values(|b: u8| spec_ascii_lower(b))
}

/// Lower-case one byte in the ASCII range.
pub fn ascii_lower_byte(b: u8) -> (r: u8)
    ensures
        r == spec_ascii_lower(b),
{
    if 0x41 <= b && b <= 0x5a {
        b + 0x20
    } else {
        b
    }
}

/// Lower-case every byte of a slice, returning a fresh vector.
pub fn ascii_lower_bytes(s: &[u8]) -> (r: Vec<u8>)
    ensures
        r@ == spec_lower_bytes(s@),
{
    let mut r: Vec<u8> = Vec::new();
    let n = s.len();
    for i in 0..n
        invariant
            n == s@.len(),
            r@.len() == i,
            forall|j: int| 0 <= j < i ==> r@[j] == spec_ascii_lower(s@[j]),
    {
        r.push(ascii_lower_byte(s[i]));
    }
    proof {
        assert(r@ =~= spec_lower_bytes(s@));
    }
    r
}

/// Content equality of two byte slices.
pub fn bytes_eq(a: &[u8], b: &[u8]) -> (r: bool)
    ensures
        r <==> a@ == b@,
{
    if a.len() != b.len() {
        proof {
            assert(a@.len() != b@.len());
        }
        return false;
    }
    let n = a.len();
    for i in 0..n
        invariant
            n == a@.len() && n == b@.len(),
            forall|j: int| 0 <= j < i ==> a@[j] == b@[j],
    {
        if a[i] != b[i] {
            return false;
        }
    }
    proof {
        assert(a@ =~= b@);
    }
    true
}

/// Append the whole slice `src` to `dst`.
pub fn push_bytes(dst: &mut Vec<u8>, src: &[u8])
    ensures
        final(dst)@ == old(dst)@ + src@,
{
    let n = src.len();
    for i in 0..n
        invariant
            n == src@.len(),
            dst@ == old(dst)@ + src@.subrange(0, i as int),
    {
        proof {
            assert(src@.subrange(0, i + 1) =~= src@.subrange(0, i as int) + seq![src@[i as int]]);
        }
        dst.push(src[i]);
    }
    proof {
        assert(src@.subrange(0, n as int) =~= src@);
    }
}

/// True when `b` holds exactly the three given bytes.
pub fn is3(b: &[u8], c0: u8, c1: u8, c2: u8) -> (r: bool)
    ensures
        r <==> b@ == seq![c0, c1, c2],
{
    let r = b.len() == 3 && b[0] == c0 && b[1] == c1 && b[2] == c2;
    proof {
        if r {
            assert(b@ =~= seq![c0, c1, c2]);
        }
    }
    r
}

/// True when `b` holds exactly the four given bytes.
pub fn is4(b: &[u8], c0: u8, c1: u8, c2: u8, c3: u8) -> (r: bool)
    ensures
        r <==> b@ == seq![c0, c1, c2, c3],
{
    let r = b.len() == 4 && b[0] == c0 && b[1] == c1 && b[2] == c2 && b[3] == c3;
    proof {
        if r {
            assert(b@ =~= seq![c0, c1, c2, c3]);
        }
    }
    r
}

} // verus!
