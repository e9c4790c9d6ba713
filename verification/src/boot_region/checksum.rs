//! The rolling checksum protecting the boot region, and the sector that
//! stores it.
//!
//! The checksum walks the byte image of sectors 0 through 10 in order,
//! rotating the accumulator right by one bit and adding each byte with
//! 32-bit wrapping arithmetic. The byte offsets holding `volume_flags` and
//! `percent_in_use` are skipped, so those fields may change without
//! invalidating the checksum. The resulting value fills its own sector,
//! repeated every four bytes.

use vstd::arithmetic::div_mod::{lemma_mod_multiples_vanish, lemma_mod_twice, lemma_small_mod};
use vstd::bytes::{
    lemma_auto_spec_u32_to_from_le_bytes, spec_u32_from_le_bytes, spec_u32_to_le_bytes,
    u32_from_le_bytes, u32_to_le_bytes,
};
use vstd::prelude::*;
use vstd::slice::slice_subrange;

use crate::errors::CodecError;
use crate::shift::BytesPerSector;

verus! {

/// One step of the rolling checksum: the accumulator rotated right one
/// bit, plus the byte, wrapping at 32 bits.
pub open spec fn spec_checksum_step(acc: u32, byte: u8) -> u32 {
    ((((acc >> 1) | (acc << 31)) as int + byte as int) % 0x1_0000_0000) as u32
}

/// The rolling checksum over the first `n` bytes of `bytes`, leaving out
/// every offset listed in `skip`.
pub open spec fn spec_checksum_prefix(bytes: Seq<u8>, skip: Seq<usize>, n: int) -> u32
    decreases n,
{
    if n <= 0 {
        0u32
    } else {
        let prev = spec_checksum_prefix(bytes, skip, n - 1);
        if skip.contains((n - 1) as usize) {
            prev
        } else {
            spec_checksum_step(prev, bytes[n - 1])
        }
    }
}

/// The rolling checksum over all of `bytes`, leaving out the offsets in
/// `skip`.
pub open spec fn spec_checksum(bytes: Seq<u8>, skip: Seq<usize>) -> u32 {
    spec_checksum_prefix(bytes, skip, bytes.len() as int)
}

/// Whether `offset` occurs in the slice of skipped offsets.
fn contains_offset(skip_offsets: &[usize], offset: usize) -> (r: bool)
    ensures
        r == skip_offsets@.contains(offset),
{
    let mut i: usize = 0;
    while i < skip_offsets.len()
        invariant
            i <= skip_offsets@.len(),
            forall|j: int| 0 <= j < i ==> skip_offsets@[j] != offset,
        decreases skip_offsets@.len() - i,
    {
        if skip_offsets[i] == offset {
            assert(skip_offsets@.contains(offset));
            return true;
        }
        i = i + 1;
    }
    false
}

/// Computes the rolling checksum of `bytes`, skipping the bytes whose
/// offsets are listed in `skip_offsets`. Order- and position-dependent:
/// the bytes must be in on-disk order.
pub fn compute(bytes: &[u8], skip_offsets: &[usize]) -> (r: u32)
    ensures
        r == spec_checksum(bytes@, skip_offsets@),
{
    let mut acc: u32 = 0;
    let mut i: usize = 0;
    while i < bytes.len()
        invariant
            i <= bytes@.len(),
            acc == spec_checksum_prefix(bytes@, skip_offsets@, i as int),
        decreases bytes@.len() - i,
    {
        if !contains_offset(skip_offsets, i) {
            let rotated = (acc >> 1u32) | (acc << 31u32);
            acc = (((rotated as u64) + (bytes[i] as u64)) % 0x1_0000_0000) as u32;
        }
        i = i + 1;
    }
    acc
}

/// Law: the checksum does not depend on the bytes at skipped offsets. Two
/// images of equal length that agree everywhere outside `skip` have equal
/// checksums, whatever stands at the skipped offsets.
pub proof fn lemma_checksum_skip_independence(b1: Seq<u8>, b2: Seq<u8>, skip: Seq<usize>)
    requires
        b1.len() == b2.len(),
        forall|i: int| #![trigger b1[i]] 0 <= i < b1.len() ==> (skip.contains(i as usize) || b1[i]
            == b2[i]),
    ensures
        spec_checksum(b1, skip) == spec_checksum(b2, skip),
{
    lemma_checksum_prefix_skip_independence(b1, b2, skip, b1.len() as int);
}

proof fn lemma_checksum_prefix_skip_independence(b1: Seq<u8>, b2: Seq<u8>, skip: Seq<usize>, n: int)
    requires
        b1.len() == b2.len(),
        n <= b1.len(),
        forall|i: int| #![trigger b1[i]] 0 <= i < b1.len() ==> (skip.contains(i as usize) || b1[i]
            == b2[i]),
    ensures
        spec_checksum_prefix(b1, skip, n) == spec_checksum_prefix(b2, skip, n),
    decreases n,
{
    if n > 0 {
        lemma_checksum_prefix_skip_independence(b1, b2, skip, n - 1);
    }
}

/// The checksum sector's image: the little-endian encoding of `value`
/// repeated `sector_size / 4` times.
pub open spec fn spec_checksum_sector(value: u32, sector_size: int) -> Seq<u8> {
    Seq::new((sector_size / 4 * 4) as nat, |i: int| spec_u32_to_le_bytes(value)[i % 4])
}

/// Whether the repetitions filling a checksum sector all agree with the
/// first: every byte equals the byte four positions earlier, back down to
/// the leading four.
pub open spec fn spec_reps_consistent(bytes: Seq<u8>, sector_size: int) -> bool {
    forall|i: int| 0 <= i < sector_size / 4 * 4 ==> #[trigger] bytes[i] == bytes[i % 4]
}

/// The checksum of the boot region together with the sector size it is
/// stored at, which fixes how many times the value repeats on disk.
#[derive(Clone, Copy, Debug, PartialEq, Eq, Structural)]
pub struct Checksum {
    /// The 32-bit rolling checksum of sectors 0 through 10.
    pub checksum: u32,
    /// The size in bytes of the sector that stores it.
    pub sector_size: usize,
}

impl Checksum {
    /// Wraps a computed checksum for a region of the given sector size.
    pub fn new(checksum: u32, sector_size: BytesPerSector) -> (r: Self)
        requires
            sector_size.0.0 <= usize::MAX,
        ensures
            r.checksum == checksum,
            r.sector_size == sector_size.0.0,
    {
        Checksum { checksum, sector_size: sector_size.0.0 as usize }
    }

    /// How many times the 32-bit value repeats to fill the sector.
    pub fn repeat_count(&self) -> (r: usize)
        ensures
            r == self.sector_size / 4,
    {
        self.sector_size / 4
    }

    /// The sector image storing this checksum.
    pub fn encode(&self) -> (r: Vec<u8>)
        ensures
            r@ == spec_checksum_sector(self.checksum, self.sector_size as int),
    {
        let reps = self.sector_size / 4;
        let mut out: Vec<u8> = Vec::new();
        let mut k: usize = 0;
        while k < reps
            invariant
                k <= reps,
                reps == self.sector_size / 4,
                out@.len() == 4 * k,
                out@ =~= Seq::new((4 * k) as nat, |i: int| spec_u32_to_le_bytes(self.checksum)[i % 4]),
            decreases reps - k,
        {
            let ghost prev = out@;
            let mut word = u32_to_le_bytes(self.checksum);
            out.append(&mut word);
            proof {
                lemma_auto_spec_u32_to_from_le_bytes();
                assert forall|i: int| 0 <= i < 4 * (k + 1) implies out@[i] == spec_u32_to_le_bytes(
                    self.checksum,
                )[i % 4] by {
                    if i < 4 * k {
                        assert(out@[i] == prev[i]);
                    } else {
                        let j = i - 4 * k;
                        lemma_mod_multiples_vanish(k as int, j, 4);
                        lemma_small_mod(j as nat, 4);
                        assert(out@[i] == spec_u32_to_le_bytes(self.checksum)[j]);
                    }
                }
                assert(out@ =~= Seq::new(
                    (4 * (k + 1)) as nat,
                    |i: int| spec_u32_to_le_bytes(self.checksum)[i % 4],
                ));
            }
            k = k + 1;
        }
        proof {
            assert(out@ =~= spec_checksum_sector(self.checksum, self.sector_size as int));
        }
        out
    }

    /// Reads the checksum back from its sector image. Every repetition
    /// must agree with the first; a sector with disagreeing repetitions is
    /// rejected as inconsistent.
    pub fn decode(bytes: &[u8], sector_size: BytesPerSector) -> (r: Result<Self, CodecError>)
        ensures
            ({
                let ss = sector_size.0.0 as int;
                &&& ss < 4 ==> r == Err::<Checksum, CodecError>(CodecError::SectorTooSmall)
                &&& ss >= 4 && bytes@.len() < ss ==> r == Err::<Checksum, CodecError>(
                    CodecError::TruncatedInput,
                )
                &&& ss >= 4 && bytes@.len() >= ss && !spec_reps_consistent(bytes@, ss) ==> r
                    == Err::<Checksum, CodecError>(CodecError::InconsistentChecksum)
                &&& ss >= 4 && bytes@.len() >= ss && spec_reps_consistent(bytes@, ss) ==> {
                    &&& r matches Ok(c)
                    &&& c.checksum == spec_u32_from_le_bytes(bytes@.subrange(0, 4))
                    &&& c.sector_size == ss
                }
            }),
    {
        let ss = sector_size.0.0;
        if ss < 4 {
            return Err(CodecError::SectorTooSmall);
        }
        if (bytes.len() as u64) < ss {
            return Err(CodecError::TruncatedInput);
        }
        let ssu = ss as usize;
        let span = ssu / 4 * 4;
        let mut i: usize = 0;
        while i < span
            invariant
                i <= span,
                span == (ssu / 4 * 4),
                ssu == sector_size.0.0,
                ssu <= bytes@.len(),
                forall|j: int| 0 <= j < i ==> #[trigger] bytes@[j] == bytes@[j % 4],
            decreases span - i,
        {
            proof {
                lemma_small_mod((i % 4) as nat, 4);
            }
            if bytes[i] != bytes[i % 4] {
                return Err(CodecError::InconsistentChecksum);
            }
            i = i + 1;
        }
        let checksum = u32_from_le_bytes(slice_subrange(bytes, 0, 4));
        Ok(Checksum { checksum, sector_size: ssu })
    }
}

/// Law: a checksum sector decodes back to exactly the value it encodes.
/// The image is whole, its repetitions agree, and its leading word is the
/// value itself -- so decoding what `encode` wrote returns the computed
/// checksum unchanged.
pub proof fn lemma_checksum_sector_round_trip(value: u32, sector_size: int)
    requires
        sector_size >= 4,
        sector_size % 4 == 0,
    ensures
        spec_checksum_sector(value, sector_size).len() == sector_size,
        spec_reps_consistent(spec_checksum_sector(value, sector_size), sector_size),
        spec_u32_from_le_bytes(spec_checksum_sector(value, sector_size).subrange(0, 4)) == value,
{
    lemma_auto_spec_u32_to_from_le_bytes();
    let bytes = spec_checksum_sector(value, sector_size);
    assert forall|i: int| 0 <= i < sector_size / 4 * 4 implies #[trigger] bytes[i] == bytes[i % 4] by {
        lemma_mod_twice(i, 4);
    }
    assert(bytes.subrange(0, 4) =~= spec_u32_to_le_bytes(value)) by {
        assert forall|i: int| 0 <= i < 4 implies bytes[i] == spec_u32_to_le_bytes(value)[i] by {
            lemma_small_mod(i as nat, 4);
        }
    }
}

} // verus!
