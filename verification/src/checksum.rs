//! Incremental CRC32 (ISO-HDLC) checksums over zero-padded chunks.
//!
//! The wire protocol checksums every upload: each chunk is zero-padded to
//! a 4-byte boundary and folded into a running accumulator, and each
//! chunk's finalized value seeds the next chunk's initial state.

use vstd::prelude::*;

use vstd::slice::slice_to_vec;

verus! {

/// The value a fresh CRC-32/ISO-HDLC accumulator is seeded with.
pub const CRC_INITIAL: u32 = 0xFFFFFFFF;

/// What the CRC-32/ISO-HDLC accumulator returns when seeded with
/// `initial` and folded over `data`. The checksum itself is the outside
/// library's to compute; contracts only name it.
pub uninterp spec fn crc32_chained(initial: u32, data: Seq<u8>) -> u32;

/// Relies on `crc::Crc::<u32>::new(&crc::CRC_32_ISO_HDLC)` with
/// `digest_with_initial`, `Digest::update` and `Digest::finalize`: the
/// checksum depends on the seed and the bytes alone. A fresh digest is the
/// same as one seeded with the algorithm's own initial value 0xFFFFFFFF,
/// which is how `Crc::digest` is defined in the library's source.
#[verifier::external_body]
fn crc32_with_initial(initial: u32, data: &[u8]) -> (r: u32)
    ensures
        r == crc32_chained(initial, data@),
{
    let crc = crc::Crc::<u32>::new(&crc::CRC_32_ISO_HDLC);
    let mut digest = crc.digest_with_initial(initial);
    digest.update(data);
    digest.finalize()
}

/// `data` followed by the zero bytes that bring its length to the next
/// 4-byte boundary.
pub open spec fn spec_pad4(data: Seq<u8>) -> Seq<u8> {
    data + Seq::new((((4 - data.len() % 4) % 4) as nat), |i: int| 0u8)
}

/// Zero-pads `data` to a 4-byte boundary.
#[verifier::loop_isolation(false)]
pub fn pad4(data: &[u8]) -> (res: Vec<u8>)
    ensures
        res@ == spec_pad4(data@),
{
    let mut res: Vec<u8> = slice_to_vec(data);
    let pad: usize = (4 - (data.len() % 4)) % 4;
    let mut k: usize = 0;
    while k < pad
        invariant
            k <= pad,
            res@ =~= data@ + Seq::new(k as nat, |i: int| 0u8),
        decreases pad - k,
    {
        res.push(0);
        proof {
            assert(data@ + Seq::new(k as nat + 1, |i: int| 0u8) =~= (data@ + Seq::new(
                k as nat,
                |i: int| 0u8,
            )).push(0u8));
        }
        k = k + 1;
    }
    proof {
        assert(res@ =~= spec_pad4(data@));
    }
    res
}

/// The checksum of a whole payload: zero-padded, folded once from the
/// fresh accumulator.
pub fn crc32_padded(data: &[u8]) -> (r: u32)
    ensures
        r == crc32_chained(CRC_INITIAL, spec_pad4(data@)),
{
    let padded = pad4(data);
    crc32_with_initial(CRC_INITIAL, padded.as_slice())
}

/// The checksum of one more chunk: zero-padded, folded into an accumulator
/// seeded with the previous chunk's finalized value.
pub fn crc32_padded_with_seed(seed: u32, data: &[u8]) -> (r: u32)
    ensures
        r == crc32_chained(seed, spec_pad4(data@)),
{
    let padded = pad4(data);
    crc32_with_initial(seed, padded.as_slice())
}

} // verus!
