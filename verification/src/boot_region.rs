//! The twelve-sector boot region and its on-disk image.
//!
//! The region lays out one geometry sector, eight extended boot sectors, a
//! vendor parameter sector, a zero reserved sector, and a checksum sector
//! covering everything before it. This module computes and parses the byte
//! image of the whole region; moving those bytes to and from storage is
//! the caller's business.

pub mod checksum;

use vstd::arithmetic::div_mod::lemma_mod_multiples_vanish;
use vstd::arithmetic::power2::{lemma2_to64, lemma_pow2_adds, lemma_pow2_strictly_increases, pow2};
use vstd::bytes::{spec_u32_from_le_bytes, spec_u32_to_le_bytes};
use vstd::prelude::*;
use vstd::slice::{slice_subrange, slice_to_vec};

use crate::errors::CodecError;
use crate::oem::{spec_oem_bytes, Oem};
use crate::shift::BytesPerSector;
use crate::super_block::boot_code::BootCode;
use crate::super_block::bound_error::{is_too_big, is_too_small, BoundError};
use crate::super_block::codec::{push_bytes, spec_sb_bytes, spec_sb_decoded};
use crate::super_block::extended_boot_code::{
    spec_ebc_bytes, spec_ebc_wf, ExtendedBootCode, VALID_SIGNATURE,
};
use crate::super_block::extended_boot_sector::ExtendedBootSectors;
use crate::super_block::{pow2_u64, spec_builder_error, spec_builder_ok, SuperBlock};

use self::checksum::{
    compute, lemma_checksum_sector_round_trip, spec_checksum, spec_checksum_sector,
    spec_reps_consistent, Checksum,
};

verus! {

/// The error returned when opening a region image: either a sector failed
/// to decode structurally, or the recorded sector-size exponent fell
/// outside its valid range before any geometry could be trusted.
#[derive(Clone, Debug)]
pub enum OpenError {
    /// A sector failed to decode, or a checksum did not hold.
    Codec(CodecError),
    /// The sector-size exponent was outside its bounds.
    Bound(BoundError),
}

/// The byte offsets the region checksum skips: the two bytes of
/// `volume_flags` and the byte of `percent_in_use`, which are expected to
/// change independently of the rest of the region.
pub open spec fn spec_skip_offsets() -> Seq<usize> {
    seq![106usize, 107usize, 112usize]
}

/// The checksum's skip offsets as a value the engine accepts.
pub fn checksum_skip_offsets() -> (r: Vec<usize>)
    ensures
        r@ == spec_skip_offsets(),
{
    let mut v: Vec<usize> = Vec::new();
    v.push(106);
    v.push(107);
    v.push(112);
    proof {
        assert(v@ =~= spec_skip_offsets());
    }
    v
}

/// The twelve leading sectors of a volume: its geometry record, the eight
/// extended boot sectors, the vendor sector, and the checksum protecting
/// them.
#[derive(Clone, Debug, PartialEq, Eq)]
pub struct BootRegion {
    /// The geometry record occupying sector 0.
    pub boot_sector: SuperBlock,
    /// The eight extended boot sectors occupying sectors 1 through 8.
    pub extended_boot_code: Vec<ExtendedBootCode>,
    /// The vendor sector's raw bytes; their content is outside this
    /// core's concern beyond filling exactly one sector.
    pub oem_sector: Vec<u8>,
    /// The checksum of sectors 0 through 10, stored in sector 11.
    pub boot_checksum: Checksum,
}

/// The region's sector size in bytes, as its own geometry record names it.
pub open spec fn spec_region_sector_size(r: BootRegion) -> int {
    pow2(r.boot_sector.bytes_per_sector_shift.0.0 as nat) as int
}

/// The images of the first `n` extended boot sectors, one after another.
pub open spec fn spec_ebcs_bytes(slots: Seq<ExtendedBootCode>, n: int) -> Seq<u8>
    decreases n,
{
    if n <= 0 {
        Seq::empty()
    } else {
        spec_ebcs_bytes(slots, n - 1) + spec_ebc_bytes(slots[n - 1])
    }
}

proof fn lemma_ebcs_bytes_len(slots: Seq<ExtendedBootCode>, n: int, sector_size: int)
    requires
        0 <= n <= slots.len(),
        forall|i: int| 0 <= i < slots.len() ==> spec_ebc_wf(#[trigger] slots[i], sector_size),
        sector_size >= 4,
    ensures
        spec_ebcs_bytes(slots, n).len() == n * sector_size,
    decreases n,
{
    vstd::bytes::lemma_auto_spec_u32_to_from_le_bytes();
    if n > 0 {
        lemma_ebcs_bytes_len(slots, n - 1, sector_size);
        let prev = spec_ebcs_bytes(slots, n - 1);
        let last = spec_ebc_bytes(slots[n - 1]);
        assert(spec_ebcs_bytes(slots, n) == prev + last);
        assert(prev.len() == (n - 1) * sector_size);
        assert(spec_ebc_wf(slots[n - 1], sector_size));
        assert(last.len() == slots[n - 1].code@.len() + 4);
        assert(last.len() == sector_size);
        assert((n - 1) * sector_size + sector_size == n * sector_size) by (nonlinear_arith);
        assert(spec_ebcs_bytes(slots, n).len() == n * sector_size);
    } else {
        assert(n * sector_size == 0) by (nonlinear_arith)
            requires
                n == 0,
        ;
    }
}

/// The byte image of sectors 0 through 10: the geometry sector, the eight
/// extended boot sectors, the vendor sector, and the zero reserved sector.
/// This is exactly the span the checksum covers.
pub open spec fn spec_region_prefix(r: BootRegion) -> Seq<u8> {
    spec_sb_bytes(r.boot_sector, spec_region_sector_size(r)) + spec_ebcs_bytes(
        r.extended_boot_code@,
        8,
    ) + r.oem_sector@ + Seq::new(spec_region_sector_size(r) as nat, |i: int| 0u8)
}

/// The full twelve-sector image: the checksummed prefix followed by the
/// checksum sector itself.
pub open spec fn spec_region_bytes(r: BootRegion) -> Seq<u8> {
    spec_region_prefix(r) + spec_checksum_sector(
        r.boot_checksum.checksum,
        spec_region_sector_size(r),
    )
}

/// A sector size drawn from a valid shift lies between 512 and 4096 bytes
/// and is a multiple of four.
proof fn lemma_sector_size_range(shift: u8)
    requires
        9 <= shift <= 12,
    ensures
        512 <= pow2(shift as nat) <= 4096,
        pow2(shift as nat) % 4 == 0,
{
    lemma2_to64();
    if shift < 12 {
        lemma_pow2_strictly_increases(shift as nat, 12);
    }
    if 9 < shift {
        lemma_pow2_strictly_increases(9, shift as nat);
    }
    lemma_pow2_adds((shift - 2) as nat, 2);
    lemma_mod_multiples_vanish(pow2((shift - 2) as nat) as int, 0, 4);
}

impl BootRegion {
    /// The region's structural invariant: the geometry record is whole
    /// and names a valid sector size, the eight slots and the vendor
    /// sector all span that size, and the checksum is stored at it too.
    pub open spec fn wf(&self) -> bool {
        &&& self.boot_sector.wf()
        &&& 9 <= self.boot_sector.bytes_per_sector_shift.0.0 <= 12
        &&& self.extended_boot_code@.len() == 8
        &&& forall|i: int|
            0 <= i < 8 ==> spec_ebc_wf(
                #[trigger] self.extended_boot_code@[i],
                spec_region_sector_size(*self),
            )
        &&& self.oem_sector@.len() == spec_region_sector_size(*self)
        &&& self.boot_checksum.sector_size == spec_region_sector_size(*self)
    }

    /// The region's sector size in bytes.
    pub fn sector_size(&self) -> (r: usize)
        requires
            self.wf(),
        ensures
            r == spec_region_sector_size(*self),
            512 <= r <= 4096,
            r % 4 == 0,
    {
        proof {
            lemma_sector_size_range(self.boot_sector.bytes_per_sector_shift.0.0);
        }
        pow2_u64(self.boot_sector.bytes_per_sector_shift.0.0) as usize
    }

    /// The sector size as the geometry record's accessor reports it.
    pub fn bytes_per_sector(&self) -> (r: BytesPerSector)
        requires
            self.wf(),
        ensures
            r.0.0 == spec_region_sector_size(*self),
    {
        self.boot_sector.bytes_per_sector()
    }

    /// The byte image of sectors 0 through 10.
    fn prefix_image(&self) -> (r: Vec<u8>)
        requires
            self.wf(),
        ensures
            r@ == spec_region_prefix(*self),
            r@.len() == 11 * spec_region_sector_size(*self),
    {
        let ghost ss = spec_region_sector_size(*self);
        proof {
            lemma_sector_size_range(self.boot_sector.bytes_per_sector_shift.0.0);
        }
        let mut out = self.boot_sector.encode();
        let mut k: usize = 0;
        while k < 8
            invariant
                self.wf(),
                k <= 8,
                out@ == spec_sb_bytes(self.boot_sector, ss) + spec_ebcs_bytes(
                    self.extended_boot_code@,
                    k as int,
                ),
                ss == spec_region_sector_size(*self),
                512 <= ss <= 4096,
            decreases 8 - k,
        {
            proof {
                vstd::bytes::lemma_auto_spec_u32_to_from_le_bytes();
            }
            let mut sector = self.extended_boot_code[k].encode();
            out.append(&mut sector);
            k = k + 1;
        }
        push_bytes(&mut out, self.oem_sector.as_slice());
        proof {
            lemma_ebcs_bytes_len(self.extended_boot_code@, 8, ss);
        }
        let sector_size = self.sector_size();
        let target = out.len() + sector_size;
        let ghost filled = out@;
        while out.len() < target
            invariant
                filled.len() <= out@.len() <= target,
                target == filled.len() + ss,
                out@ =~= filled + Seq::new((out@.len() - filled.len()) as nat, |i: int| 0u8),
            decreases target - out@.len(),
        {
            out.push(0u8);
            assert(out@ =~= filled + Seq::new((out@.len() - filled.len()) as nat, |i: int| 0u8));
        }
        proof {
            assert(out@ =~= spec_region_prefix(*self));
        }
        out
    }

    /// The rolling checksum over sectors 0 through 10, skipping the
    /// offsets of `volume_flags` and `percent_in_use`.
    pub fn calculate_checksum(&self) -> (r: u32)
        requires
            self.wf(),
        ensures
            r == spec_checksum(spec_region_prefix(*self), spec_skip_offsets()),
    {
        let image = self.prefix_image();
        let skips = checksum_skip_offsets();
        compute(image.as_slice(), skips.as_slice())
    }

    /// Recomputes the checksum from the region's current contents and
    /// stores it, leaving every other part of the region unchanged. Must
    /// be called after any mutation of sectors 0 through 10.
    pub fn update_checksum(&mut self)
        requires
            old(self).wf(),
        ensures
            final(self).wf(),
            final(self).boot_sector == old(self).boot_sector,
            final(self).extended_boot_code@ == old(self).extended_boot_code@,
            final(self).oem_sector@ == old(self).oem_sector@,
            final(self).boot_checksum.checksum == spec_checksum(
                spec_region_prefix(*final(self)),
                spec_skip_offsets(),
            ),
            final(self).boot_checksum.sector_size == spec_region_sector_size(*final(self)),
    {
        let value = self.calculate_checksum();
        let sector_size = self.sector_size();
        self.boot_checksum = Checksum { checksum: value, sector_size };
    }

    /// The full twelve-sector image, checksum sector included.
    pub fn encode(&self) -> (r: Vec<u8>)
        requires
            self.wf(),
        ensures
            r@ == spec_region_bytes(*self),
            r@.len() == 12 * spec_region_sector_size(*self),
    {
        proof {
            lemma_sector_size_range(self.boot_sector.bytes_per_sector_shift.0.0);
        }
        let mut out = self.prefix_image();
        let mut tail = self.boot_checksum.encode();
        out.append(&mut tail);
        out
    }

    /// Assembles a fresh boot region for a volume of `volume_length`
    /// bytes: the geometry record is built and validated, the eight
    /// extended boot sectors start with empty payloads, the vendor slots
    /// are laid out in their sector, and the checksum is computed over the
    /// assembled image. Construction fails exactly when the geometry
    /// record's builder rejects the inputs.
    pub fn format(
        bytes_per_sector_shift: u8,
        sectors_per_cluster_shift: u8,
        boot_code: BootCode,
        volume_length: u64,
        oem: Oem,
        volume_serial_number: u32,
    ) -> (r: Result<BootRegion, BoundError>)
        requires
            boot_code.wf(),
            oem.wf(),
        ensures
            r matches Ok(region) ==> {
                &&& region.wf()
                &&& spec_builder_ok(
                    bytes_per_sector_shift,
                    sectors_per_cluster_shift,
                    boot_code,
                    volume_length,
                    volume_serial_number,
                    region.boot_sector,
                )
                &&& forall|i: int|
                    0 <= i < 8 ==> ((#[trigger] region.extended_boot_code@[i]).code@ == Seq::new(
                        (spec_region_sector_size(region) - 4) as nat,
                        |j: int| 0u8,
                    ) && region.extended_boot_code@[i].signature == VALID_SIGNATURE)
                &&& region.oem_sector@ == spec_oem_bytes(oem, spec_region_sector_size(region))
                &&& region.boot_checksum.checksum == spec_checksum(
                    spec_region_prefix(region),
                    spec_skip_offsets(),
                )
                &&& region.boot_checksum.sector_size == spec_region_sector_size(region)
            },
            r matches Err(e) ==> spec_builder_error(
                bytes_per_sector_shift,
                sectors_per_cluster_shift,
                boot_code,
                volume_length,
                volume_serial_number,
                e,
            ),
    {
        let boot_sector = match SuperBlock::new(
            bytes_per_sector_shift,
            sectors_per_cluster_shift,
            boot_code,
            volume_length,
            volume_serial_number,
        ) {
            Ok(sb) => sb,
            Err(e) => {
                return Err(e);
            }
        };
        proof {
            lemma_sector_size_range(boot_sector.bytes_per_sector_shift.0.0);
        }
        let sector_size_u64 = pow2_u64(boot_sector.bytes_per_sector_shift.0.0);
        let sector_size = BytesPerSector::new(sector_size_u64);
        let slots = match ExtendedBootSectors::init(sector_size) {
            Ok((_, slots)) => slots,
            Err(_) => {
                // Unreachable: a validated record names a sector of at
                // least 512 bytes.
                proof {
                    assert(false);
                }
                return Err(BoundError::too_small("bytes_per_sector_shift", 0, 9));
            }
        };
        let oem_sector = oem.encode(sector_size_u64 as usize);
        let mut region = BootRegion {
            boot_sector,
            extended_boot_code: slots,
            oem_sector,
            boot_checksum: Checksum { checksum: 0, sector_size: sector_size_u64 as usize },
        };
        region.update_checksum();
        Ok(region)
    }
}

/// Whether slot `k`'s sector inside a region image carries the valid
/// extended boot signature in its trailing four bytes.
pub open spec fn spec_slot_sig_ok(bytes: Seq<u8>, sector_size: int, k: int) -> bool {
    spec_u32_from_le_bytes(bytes.subrange((k + 2) * sector_size - 4, (k + 2) * sector_size))
        == VALID_SIGNATURE
}

/// Everything that must hold of a byte image for `open` to accept it: the
/// geometry sector is whole, its sector-size exponent is valid, all twelve
/// sectors are present, every extended boot sector carries the valid
/// signature, the checksum sector's repetitions agree, and the stored
/// checksum equals the one recomputed over sectors 0 through 10.
pub open spec fn spec_open_ok(bytes: Seq<u8>) -> bool {
    &&& bytes.len() >= 512
    &&& 9 <= bytes[108] <= 12
    &&& {
        let ss = pow2(bytes[108] as nat) as int;
        &&& bytes.len() >= 12 * ss
        &&& forall|k: int| 0 <= k < 8 ==> #[trigger] spec_slot_sig_ok(bytes, ss, k)
        &&& spec_reps_consistent(bytes.subrange(11 * ss, 12 * ss), ss)
        &&& spec_checksum(bytes.subrange(0, 11 * ss), spec_skip_offsets())
            == spec_u32_from_le_bytes(bytes.subrange(11 * ss, 11 * ss + 4))
    }
}

impl BootRegion {
    /// Reconstructs a region from its twelve-sector image. The geometry
    /// record is decoded first; the sector size it names then drives the
    /// decoding of every following sector, and the checksum is recomputed
    /// and held against the stored one.
    pub fn open(bytes: &[u8]) -> (r: Result<BootRegion, OpenError>)
        ensures
            r is Ok <==> spec_open_ok(bytes@),
            r matches Ok(region) ==> {
                let ss = pow2(bytes@[108] as nat) as int;
                &&& region.wf()
                &&& spec_sb_decoded(region.boot_sector, bytes@)
                &&& spec_region_sector_size(region) == ss
                &&& forall|k: int|
                    0 <= k < 8 ==> ((#[trigger] region.extended_boot_code@[k]).code@ == bytes@
                        .subrange((k + 1) * ss, (k + 2) * ss - 4)
                        && region.extended_boot_code@[k].signature == VALID_SIGNATURE)
                &&& region.oem_sector@ == bytes@.subrange(9 * ss, 10 * ss)
                &&& region.boot_checksum.checksum == spec_u32_from_le_bytes(
                    bytes@.subrange(11 * ss, 11 * ss + 4),
                )
                &&& region.boot_checksum.checksum == spec_checksum(
                    bytes@.subrange(0, 11 * ss),
                    spec_skip_offsets(),
                )
            },
            bytes@.len() < 512 ==> r == Err::<BootRegion, OpenError>(
                OpenError::Codec(CodecError::TruncatedInput),
            ),
            bytes@.len() >= 512 && bytes@[108] < 9 ==> (r matches Err(e) && e matches
                OpenError::Bound(b) && is_too_small(
                b,
                "bytes_per_sector_shift"@,
                bytes@[108] as u64,
                9,
            )),
            bytes@.len() >= 512 && bytes@[108] > 12 ==> (r matches Err(e) && e matches
                OpenError::Bound(b) && is_too_big(
                b,
                "bytes_per_sector_shift"@,
                bytes@[108] as u64,
                12,
            )),
            bytes@.len() >= 512 && 9 <= bytes@[108] <= 12 && bytes@.len() < 12 * pow2(
                bytes@[108] as nat,
            ) ==> r == Err::<BootRegion, OpenError>(OpenError::Codec(CodecError::TruncatedInput)),
            ({
                let ss = pow2(bytes@[108] as nat) as int;
                bytes@.len() >= 512 && 9 <= bytes@[108] <= 12 && bytes@.len() >= 12 * ss && !(
                forall|k: int| 0 <= k < 8 ==> #[trigger] spec_slot_sig_ok(bytes@, ss, k))
            }) ==> r == Err::<BootRegion, OpenError>(OpenError::Codec(CodecError::CorruptSignature)),
            ({
                let ss = pow2(bytes@[108] as nat) as int;
                bytes@.len() >= 512 && 9 <= bytes@[108] <= 12 && bytes@.len() >= 12 * ss && (forall|
                    k: int,
                | 0 <= k < 8 ==> #[trigger] spec_slot_sig_ok(bytes@, ss, k))
                    && !spec_reps_consistent(bytes@.subrange(11 * ss, 12 * ss), ss)
            }) ==> r == Err::<BootRegion, OpenError>(
                OpenError::Codec(CodecError::InconsistentChecksum),
            ),
            ({
                let ss = pow2(bytes@[108] as nat) as int;
                bytes@.len() >= 512 && 9 <= bytes@[108] <= 12 && bytes@.len() >= 12 * ss && (forall|
                    k: int,
                | 0 <= k < 8 ==> #[trigger] spec_slot_sig_ok(bytes@, ss, k))
                    && spec_reps_consistent(bytes@.subrange(11 * ss, 12 * ss), ss) && spec_checksum(
                    bytes@.subrange(0, 11 * ss),
                    spec_skip_offsets(),
                ) != spec_u32_from_le_bytes(bytes@.subrange(11 * ss, 11 * ss + 4))
            }) ==> r == Err::<BootRegion, OpenError>(OpenError::Codec(CodecError::ChecksumMismatch)),
    {
        let boot_sector = match SuperBlock::decode(bytes) {
            Ok(sb) => sb,
            Err(e) => {
                return Err(OpenError::Codec(e));
            }
        };
        let shift = boot_sector.bytes_per_sector_shift.0.0;
        if shift < 9 {
            return Err(
                OpenError::Bound(BoundError::too_small("bytes_per_sector_shift", shift as u64, 9)),
            );
        }
        if shift > 12 {
            return Err(
                OpenError::Bound(BoundError::too_big("bytes_per_sector_shift", shift as u64, 12)),
            );
        }
        proof {
            lemma_sector_size_range(shift);
        }
        let ss = pow2_u64(shift) as usize;
        if bytes.len() < 12 * ss {
            return Err(OpenError::Codec(CodecError::TruncatedInput));
        }
        let sector_size = BytesPerSector::new(ss as u64);
        let ghost ssi = ss as int;
        let mut slots: Vec<ExtendedBootCode> = Vec::new();
        let mut k: usize = 0;
        while k < 8
            invariant
                k <= 8,
                slots@.len() == k,
                512 <= ss <= 4096,
                ssi == ss as int,
                ssi == pow2(bytes@[108] as nat),
                bytes@.len() >= 512,
                9 <= bytes@[108] <= 12,
                bytes@.len() >= 12 * ssi,
                sector_size.0.0 == ss,
                boot_sector.wf(),
                spec_sb_decoded(boot_sector, bytes@),
                forall|i: int|
                    0 <= i < k ==> ((#[trigger] slots@[i]).code@ == bytes@.subrange(
                        (i + 1) * ssi,
                        (i + 2) * ssi - 4,
                    ) && slots@[i].signature == VALID_SIGNATURE && spec_slot_sig_ok(
                        bytes@,
                        ssi,
                        i,
                    )),
            decreases 8 - k,
        {
            proof {
                assert((k + 2) * ssi <= 12 * ssi) by (nonlinear_arith)
                    requires
                        0 <= k < 8,
                        ssi >= 0,
                ;
                assert((k + 1) * ssi + ssi == (k + 2) * ssi) by (nonlinear_arith);
                assert(0 <= (k + 1) * ssi) by (nonlinear_arith)
                    requires
                        0 <= k,
                        ssi >= 0,
                ;
            }
            let sector = slice_subrange(bytes, (k + 1) * ss, (k + 2) * ss);
            match ExtendedBootCode::decode(sector, sector_size) {
                Ok(slot) => {
                    proof {
                        assert(sector@.subrange(0, ssi - 4) =~= bytes@.subrange(
                            (k + 1) * ssi,
                            (k + 2) * ssi - 4,
                        ));
                        assert(sector@.subrange(ssi - 4, ssi) =~= bytes@.subrange(
                            (k + 2) * ssi - 4,
                            (k + 2) * ssi,
                        ));
                    }
                    slots.push(slot);
                }
                Err(e) => {
                    proof {
                        assert(sector@.subrange(ssi - 4, ssi) =~= bytes@.subrange(
                            (k + 2) * ssi - 4,
                            (k + 2) * ssi,
                        ));
                        assert(!spec_slot_sig_ok(bytes@, ssi, k as int));
                    }
                    return Err(OpenError::Codec(e));
                }
            }
            k = k + 1;
        }
        proof {
            assert forall|k2: int| 0 <= k2 < 8 implies #[trigger] spec_slot_sig_ok(
                bytes@,
                ssi,
                k2,
            ) by {
                assert(slots@[k2].signature == VALID_SIGNATURE);
            }
        }
        let oem_sector = slice_to_vec(slice_subrange(bytes, 9 * ss, 10 * ss));
        let checksum_sector = slice_subrange(bytes, 11 * ss, 12 * ss);
        let stored = match Checksum::decode(checksum_sector, sector_size) {
            Ok(c) => c,
            Err(e) => {
                proof {
                    assert(checksum_sector@ =~= bytes@.subrange(11 * ssi, 12 * ssi));
                }
                return Err(OpenError::Codec(e));
            }
        };
        proof {
            assert(checksum_sector@ =~= bytes@.subrange(11 * ssi, 12 * ssi));
            assert(checksum_sector@.subrange(0, 4) =~= bytes@.subrange(11 * ssi, 11 * ssi + 4));
        }
        let skips = checksum_skip_offsets();
        let prefix = slice_subrange(bytes, 0, 11 * ss);
        let computed = compute(prefix, skips.as_slice());
        if computed != stored.checksum {
            return Err(OpenError::Codec(CodecError::ChecksumMismatch));
        }
        let region = BootRegion {
            boot_sector,
            extended_boot_code: slots,
            oem_sector,
            boot_checksum: stored,
        };
        proof {
            assert(spec_reps_consistent(bytes@.subrange(11 * ssi, 12 * ssi), ssi));
            assert(spec_open_ok(bytes@));
            assert forall|i: int| 0 <= i < 8 implies spec_ebc_wf(
                #[trigger] region.extended_boot_code@[i],
                ssi,
            ) by {
                assert((0 <= (i + 1) * ssi && (i + 2) * ssi <= 12 * ssi && (i + 1) * ssi <= (i + 2)
                    * ssi - 4) && ((i + 2) * ssi - 4) - ((i + 1) * ssi) == ssi - 4)
                    by (nonlinear_arith)
                    requires
                        0 <= i < 8,
                        ssi >= 512,
                ;
                assert(slots@[i].code@ == bytes@.subrange((i + 1) * ssi, (i + 2) * ssi - 4));
            }
            assert(region.wf());
        }
        Ok(region)
    }
}

/// The image of slot `k` inside the concatenated slot images.
proof fn lemma_ebcs_slot_at(slots: Seq<ExtendedBootCode>, n: int, k: int, sector_size: int)
    requires
        0 <= k < n <= slots.len(),
        forall|i: int| 0 <= i < slots.len() ==> spec_ebc_wf(#[trigger] slots[i], sector_size),
        sector_size >= 4,
    ensures
        spec_ebcs_bytes(slots, n).subrange(k * sector_size, (k + 1) * sector_size)
            == spec_ebc_bytes(slots[k]),
    decreases n,
{
    vstd::bytes::lemma_auto_spec_u32_to_from_le_bytes();
    lemma_ebcs_bytes_len(slots, n - 1, sector_size);
    lemma_ebcs_bytes_len(slots, n, sector_size);
    let prev = spec_ebcs_bytes(slots, n - 1);
    let last = spec_ebc_bytes(slots[n - 1]);
    if k == n - 1 {
        assert(spec_ebcs_bytes(slots, n).subrange(k * sector_size, (k + 1) * sector_size)
            =~= last);
    } else {
        lemma_ebcs_slot_at(slots, n - 1, k, sector_size);
        assert((k + 1) * sector_size <= (n - 1) * sector_size && 0 <= k * sector_size && (k + 1)
            * sector_size == k * sector_size + sector_size) by (nonlinear_arith)
            requires
                0 <= k,
                k + 1 <= n - 1,
                sector_size >= 0,
        ;
        assert(spec_ebcs_bytes(slots, n).subrange(k * sector_size, (k + 1) * sector_size)
            =~= prev.subrange(k * sector_size, (k + 1) * sector_size));
    }
}

/// Slot `k` of a well-formed region's image carries the slot's own
/// signature in its trailing four bytes.
proof fn lemma_region_slot_sig(r: BootRegion, k: int)
    requires
        r.wf(),
        0 <= k < 8,
    ensures
        spec_u32_from_le_bytes(
            spec_region_bytes(r).subrange(
                (k + 2) * spec_region_sector_size(r) - 4,
                (k + 2) * spec_region_sector_size(r),
            ),
        ) == r.extended_boot_code@[k].signature,
{
    vstd::bytes::lemma_auto_spec_u32_to_from_le_bytes();
    let ss = spec_region_sector_size(r);
    lemma_sector_size_range(r.boot_sector.bytes_per_sector_shift.0.0);
    crate::super_block::codec::lemma_sb_prefix_layout(r.boot_sector);
    lemma_ebcs_bytes_len(r.extended_boot_code@, 8, ss);
    lemma_checksum_sector_round_trip(r.boot_checksum.checksum, ss);
    lemma_ebcs_slot_at(r.extended_boot_code@, 8, k, ss);
    assert((k + 1) * ss == ss + k * ss && (k + 2) * ss == ss + (k + 1) * ss && 0 <= k * ss && (k
        + 1) * ss <= 8 * ss && (k + 1) * ss == k * ss + ss) by (nonlinear_arith)
        requires
            0 <= k < 8,
            ss >= 0,
    ;
    let eb = spec_ebcs_bytes(r.extended_boot_code@, 8);
    let slot = spec_ebc_bytes(r.extended_boot_code@[k]);
    assert(slot == eb.subrange(k * ss, (k + 1) * ss));
    assert(slot.len() == ss);
    assert(slot.subrange(ss - 4, ss) =~= spec_u32_to_le_bytes(
        r.extended_boot_code@[k].signature,
    ));
    assert(spec_region_bytes(r).subrange((k + 2) * ss - 4, (k + 2) * ss) =~= slot.subrange(
        ss - 4,
        ss,
    ));
}

/// Law: the twelve-sector image of a well-formed region whose slots carry
/// the valid signature and whose stored checksum matches its own contents
/// is accepted when opened again: writing a region out and reading it back
/// round-trips.
pub proof fn lemma_region_image_opens(r: BootRegion)
    requires
        r.wf(),
        forall|k: int|
            0 <= k < 8 ==> (#[trigger] r.extended_boot_code@[k]).signature == VALID_SIGNATURE,
        r.boot_checksum.checksum == spec_checksum(spec_region_prefix(r), spec_skip_offsets()),
    ensures
        spec_open_ok(spec_region_bytes(r)),
{
    vstd::bytes::lemma_auto_spec_u32_to_from_le_bytes();
    let shift = r.boot_sector.bytes_per_sector_shift.0.0;
    let ss = spec_region_sector_size(r);
    lemma_sector_size_range(shift);
    crate::super_block::codec::lemma_sb_prefix_layout(r.boot_sector);
    lemma_ebcs_bytes_len(r.extended_boot_code@, 8, ss);
    lemma_checksum_sector_round_trip(r.boot_checksum.checksum, ss);
    let sbb = spec_sb_bytes(r.boot_sector, ss);
    let prefix = spec_region_prefix(r);
    let tail = spec_checksum_sector(r.boot_checksum.checksum, ss);
    let image = spec_region_bytes(r);
    assert(sbb.len() == ss);
    assert(prefix.len() == 11 * ss);
    assert(image.len() == 12 * ss);
    // The sector-size exponent sits inside the geometry sector.
    assert(image[108] == crate::super_block::codec::spec_sb_prefix(r.boot_sector)[108]);
    assert(image[108] == shift);
    // Every slot's trailing word is the valid signature.
    assert forall|k: int| 0 <= k < 8 implies #[trigger] spec_slot_sig_ok(image, ss, k) by {
        lemma_region_slot_sig(r, k);
    }
    // The checksum sector agrees with itself and with the recomputation.
    assert(image.subrange(11 * ss, 12 * ss) =~= tail);
    assert(spec_reps_consistent(image.subrange(11 * ss, 12 * ss), ss));
    assert(image.subrange(0, 11 * ss) =~= prefix);
    assert(image.subrange(11 * ss, 11 * ss + 4) =~= tail.subrange(0, 4));
    assert(spec_u32_from_le_bytes(image.subrange(11 * ss, 11 * ss + 4))
        == r.boot_checksum.checksum);
}

} // verus!
