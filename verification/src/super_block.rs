//! The canonical geometry record occupying sector 0 of the boot region.
//!
//! The record is built from a small set of inputs by [`SuperBlock::new`],
//! which derives all dependent fields in data-dependency order and then runs
//! the bounds validator; a record that violates any bound is never returned.

pub mod boot_code;
pub mod bound_error;
pub mod codec;
pub mod extended_boot_code;
pub mod extended_boot_sector;
pub mod must_be_zero;
pub mod volume_flags;

use vstd::arithmetic::div_mod::{
    lemma_add_mod_noop_right, lemma_basic_div, lemma_mod_multiples_vanish, lemma_small_mod,
};
use vstd::arithmetic::power2::{
    lemma2_to64, lemma2_to64_rest, lemma_pow2_adds, lemma_pow2_strictly_increases,
    lemma_pow2_subtracts, pow2,
};
use vstd::prelude::*;

use crate::shift::{BytesPerSector, SectorsPerCluster, Shifted, ShiftedBytes, ShiftedSectors};

use self::boot_code::BootCode;
use self::bound_error::{is_too_big, is_too_small, BoundError};
use self::must_be_zero::MustBeZero;
use self::volume_flags::VolumeFlags;

verus! {

/// The geometry record of an exFAT-style volume: 512 bytes of fields,
/// padded with zeros up to one full sector on disk. Field order and widths
/// follow the on-disk layout exactly.
#[derive(Clone, Debug, PartialEq, Eq)]
pub struct SuperBlock {
    /// Jump instruction for the CPU; always `EB 76 90`.
    pub jump_boot: [u8; 3],
    /// The file-system name; always `"EXFAT   "` in ASCII.
    pub file_system_name: [u8; 8],
    /// Reserved run of 53 zero bytes.
    pub must_be_zero: MustBeZero,
    /// Media-relative sector offset of the hosting partition; 0 means the
    /// field is to be ignored.
    pub partition_offset: u64,
    /// Size of the volume in sectors.
    pub volume_length: u64,
    /// Volume-relative sector offset of the first FAT.
    pub fat_offset: u32,
    /// Length in sectors of each FAT table.
    pub fat_length: u32,
    /// Volume-relative sector offset of the cluster heap.
    pub cluster_heap_offset: u32,
    /// Number of clusters in the cluster heap.
    pub cluster_count: u32,
    /// Cluster index of the first cluster of the root directory.
    pub first_cluster_of_root_directory: u32,
    /// A serial number distinguishing this volume from others.
    pub volume_serial_number: u32,
    /// Minor and major revision numbers, in that byte order.
    pub file_system_revision: [u8; 2],
    /// Status bitfield; excluded from the region checksum.
    pub volume_flags: VolumeFlags,
    /// Bytes per sector as a base-2 exponent.
    pub bytes_per_sector_shift: ShiftedBytes,
    /// Sectors per cluster as a base-2 exponent.
    pub sectors_per_cluster_shift: ShiftedSectors,
    /// Number of FATs and allocation bitmaps: 1, or 2 for TexFAT volumes.
    pub number_of_fats: u8,
    /// Extended INT 13h drive number; any value is valid.
    pub drive_select: u8,
    /// Percentage of allocated clusters (0 to 100), or 0xFF for unknown;
    /// excluded from the region checksum.
    pub percent_in_use: u8,
    /// Unconstrained padding.
    pub reserved: [u8; 7],
    /// Boot-strap payload and its 16-bit signature.
    pub boot_code: BootCode,
}

impl SuperBlock {
    /// The variable-length fields span their fixed widths.
    pub open spec fn wf(&self) -> bool {
        &&& self.must_be_zero.wf()
        &&& self.boot_code.0@.len() == 390
    }

    /// The sector size in bytes recorded by this record's shift field.
    pub fn bytes_per_sector(&self) -> (r: BytesPerSector)
        requires
            self.bytes_per_sector_shift.0.0 < 64,
        ensures
            r.0.0 == pow2(self.bytes_per_sector_shift.0.0 as nat),
    {
        self.bytes_per_sector_shift.unshift()
    }

    /// The cluster size in sectors recorded by this record's shift field.
    pub fn sectors_per_cluster(&self) -> (r: SectorsPerCluster)
        requires
            self.sectors_per_cluster_shift.0.0 < 64,
        ensures
            r.0.0 == pow2(self.sectors_per_cluster_shift.0.0 as nat),
    {
        self.sectors_per_cluster_shift.unshift()
    }

    /// Replaces the boot-strap payload, leaving every other field as it is.
    pub fn set_boot_code(&mut self, boot_code: BootCode)
        ensures
            *final(self) == (SuperBlock { boot_code, ..*old(self) }),
    {
        self.boot_code = boot_code;
    }
}

/// The least multiple of `step` that is at least `lhs`.
pub open spec fn spec_round_up(lhs: int, step: int) -> int {
    if lhs % step == 0 {
        lhs
    } else {
        (lhs / step + 1) * step
    }
}

/// Rounds `lhs` up to the next multiple of `step`.
pub fn round_up(lhs: u64, step: u64) -> (r: u64)
    requires
        step >= 1,
        spec_round_up(lhs as int, step as int) <= u64::MAX,
    ensures
        r == spec_round_up(lhs as int, step as int),
{
    let q = lhs / step;
    if lhs % step == 0 {
        lhs
    } else {
        proof {
            assert(spec_round_up(lhs as int, step as int) == (q as int + 1) * (step as int));
            assert((q as int + 1) <= (q as int + 1) * (step as int)) by (nonlinear_arith)
                requires
                    step as int >= 1,
                    q as int >= 0,
            ;
        }
        (q + 1) * step
    }
}

// ---------------------------------------------------------------------------
// Field bounds.
//
// Each bounded field's minimum and maximum is a formula over the other,
// already-assigned fields. Several maximum formulas are evaluated in 32-bit
// wrapping arithmetic, matching how the record's 32-bit fields combine on
// disk; the spec functions below state that arithmetic exactly.
// ---------------------------------------------------------------------------

/// Minimum of `volume_length`: the volume must hold at least one megabyte.
pub open spec fn spec_volume_length_min(sb: SuperBlock) -> int {
    pow2(20) as int / pow2(sb.bytes_per_sector_shift.0.0 as nat) as int
}

/// Maximum of `fat_offset`: the space before the cluster heap left after
/// both FAT copies, evaluated modulo 2^32.
pub open spec fn spec_fat_offset_max(sb: SuperBlock) -> int {
    (sb.cluster_heap_offset - (sb.fat_length * sb.number_of_fats) % 0x1_0000_0000)
        % 0x1_0000_0000
}

/// Minimum of `fat_length`: each FAT must describe every cluster of the
/// heap at four bytes per entry, evaluated modulo 2^32.
pub open spec fn spec_fat_length_min(sb: SuperBlock) -> int {
    (((sb.cluster_count + 2) * 4) / pow2(sb.bytes_per_sector_shift.0.0 as nat) as int)
        % 0x1_0000_0000
}

/// Maximum of `fat_length`: the room between the first FAT and the cluster
/// heap, shared by all FAT copies; the difference is taken modulo 2^32, and
/// the bound collapses to zero when the record names no FAT at all.
pub open spec fn spec_fat_length_max(sb: SuperBlock) -> int {
    let diff = (sb.cluster_heap_offset - sb.fat_offset) % 0x1_0000_0000;
    if sb.number_of_fats == 0 {
        0
    } else {
        diff / (sb.number_of_fats as int)
    }
}

/// Minimum of `cluster_heap_offset`: the heap starts after the FAT region,
/// evaluated modulo 2^32.
pub open spec fn spec_cluster_heap_offset_min(sb: SuperBlock) -> int {
    (sb.fat_offset + sb.fat_length * sb.number_of_fats) % 0x1_0000_0000
}

/// Maximum of `cluster_heap_offset`: the heap and its clusters must fit in
/// the volume, capped at 2^32 - 2; a heap that cannot fit at all gives 0.
pub open spec fn spec_cluster_heap_offset_max(sb: SuperBlock) -> int {
    let d = sb.volume_length - sb.cluster_count * pow2(
        sb.sectors_per_cluster_shift.0.0 as nat,
    );
    if d < 0 {
        0
    } else if d > 0xFFFF_FFFE {
        0xFFFF_FFFE
    } else {
        d
    }
}

/// The one valid value of `cluster_count`: the clusters that fit between
/// the heap start and the volume end, capped at the most a FAT can
/// describe. The subtraction is evaluated in 32-bit wrapping arithmetic and
/// the quotient collapses to zero when the cluster size wraps to zero.
pub open spec fn spec_cluster_count_exact(sb: SuperBlock) -> int {
    let divisor = pow2(sb.sectors_per_cluster_shift.0.0 as nat) as int % 0x1_0000_0000;
    let q = if divisor == 0 {
        0
    } else {
        (((sb.volume_length % 0x1_0000_0000) - sb.cluster_heap_offset) % 0x1_0000_0000) / divisor
    };
    if q > 0xFFFF_FFF4 {
        0xFFFF_FFF4
    } else {
        q
    }
}

/// Maximum of `first_cluster_of_root_directory`: the index of the last
/// cluster in the heap, evaluated modulo 2^32.
pub open spec fn spec_first_cluster_max(sb: SuperBlock) -> int {
    (sb.cluster_count + 1) % 0x1_0000_0000
}

/// `volume_length` meets its minimum (its maximum is the type's own range).
pub open spec fn volume_length_ok(sb: SuperBlock) -> bool {
    spec_volume_length_min(sb) <= sb.volume_length
}

/// `fat_offset` leaves room for the boot regions and precedes the heap.
pub open spec fn fat_offset_ok(sb: SuperBlock) -> bool {
    24 <= sb.fat_offset && sb.fat_offset <= spec_fat_offset_max(sb)
}

/// `fat_length` can describe the heap and fits before it.
pub open spec fn fat_length_ok(sb: SuperBlock) -> bool {
    spec_fat_length_min(sb) <= sb.fat_length && sb.fat_length <= spec_fat_length_max(sb)
}

/// `cluster_heap_offset` sits after the FATs and inside the volume.
pub open spec fn cluster_heap_offset_ok(sb: SuperBlock) -> bool {
    spec_cluster_heap_offset_min(sb) <= sb.cluster_heap_offset
        && sb.cluster_heap_offset <= spec_cluster_heap_offset_max(sb)
}

/// `cluster_count` is exactly the derived value.
pub open spec fn cluster_count_ok(sb: SuperBlock) -> bool {
    sb.cluster_count == spec_cluster_count_exact(sb)
}

/// `first_cluster_of_root_directory` names a cluster of the heap.
pub open spec fn first_cluster_ok(sb: SuperBlock) -> bool {
    2 <= sb.first_cluster_of_root_directory
        && sb.first_cluster_of_root_directory <= spec_first_cluster_max(sb)
}

/// `bytes_per_sector_shift` stays between 512-byte and 4096-byte sectors.
pub open spec fn bytes_per_sector_shift_ok(sb: SuperBlock) -> bool {
    9 <= sb.bytes_per_sector_shift.0.0 && sb.bytes_per_sector_shift.0.0 <= 12
}

/// `sectors_per_cluster_shift` keeps the cluster at or below 32 megabytes.
pub open spec fn sectors_per_cluster_shift_ok(sb: SuperBlock) -> bool {
    sb.sectors_per_cluster_shift.0.0 <= 25 - sb.bytes_per_sector_shift.0.0
}

/// `number_of_fats` is 1, or 2 for TexFAT volumes.
pub open spec fn number_of_fats_ok(sb: SuperBlock) -> bool {
    1 <= sb.number_of_fats && sb.number_of_fats <= 2
}

/// All nine dynamically validated bounds hold at once.
pub open spec fn spec_bounds_hold(sb: SuperBlock) -> bool {
    &&& volume_length_ok(sb)
    &&& fat_offset_ok(sb)
    &&& fat_length_ok(sb)
    &&& cluster_heap_offset_ok(sb)
    &&& cluster_count_ok(sb)
    &&& first_cluster_ok(sb)
    &&& bytes_per_sector_shift_ok(sb)
    &&& sectors_per_cluster_shift_ok(sb)
    &&& number_of_fats_ok(sb)
}

/// The report the validator returns for the record `sb`: the first bound
/// violated in field order, described by field name, observed value, and
/// the bound itself.
pub open spec fn spec_validation_error(sb: SuperBlock, e: BoundError) -> bool {
    if !volume_length_ok(sb) {
        is_too_small(e, "volume_length"@, sb.volume_length, spec_volume_length_min(sb) as u64)
    } else if sb.fat_offset < 24 {
        is_too_small(e, "fat_offset"@, sb.fat_offset as u64, 24)
    } else if sb.fat_offset > spec_fat_offset_max(sb) {
        is_too_big(e, "fat_offset"@, sb.fat_offset as u64, spec_fat_offset_max(sb) as u64)
    } else if sb.fat_length < spec_fat_length_min(sb) {
        is_too_small(e, "fat_length"@, sb.fat_length as u64, spec_fat_length_min(sb) as u64)
    } else if sb.fat_length > spec_fat_length_max(sb) {
        is_too_big(e, "fat_length"@, sb.fat_length as u64, spec_fat_length_max(sb) as u64)
    } else if sb.cluster_heap_offset < spec_cluster_heap_offset_min(sb) {
        is_too_small(
            e,
            "cluster_heap_offset"@,
            sb.cluster_heap_offset as u64,
            spec_cluster_heap_offset_min(sb) as u64,
        )
    } else if sb.cluster_heap_offset > spec_cluster_heap_offset_max(sb) {
        is_too_big(
            e,
            "cluster_heap_offset"@,
            sb.cluster_heap_offset as u64,
            spec_cluster_heap_offset_max(sb) as u64,
        )
    } else if sb.cluster_count < spec_cluster_count_exact(sb) {
        is_too_small(
            e,
            "cluster_count"@,
            sb.cluster_count as u64,
            spec_cluster_count_exact(sb) as u64,
        )
    } else if sb.cluster_count > spec_cluster_count_exact(sb) {
        is_too_big(
            e,
            "cluster_count"@,
            sb.cluster_count as u64,
            spec_cluster_count_exact(sb) as u64,
        )
    } else if sb.first_cluster_of_root_directory < 2 {
        is_too_small(
            e,
            "first_cluster_of_root_directory"@,
            sb.first_cluster_of_root_directory as u64,
            2,
        )
    } else if sb.first_cluster_of_root_directory > spec_first_cluster_max(sb) {
        is_too_big(
            e,
            "first_cluster_of_root_directory"@,
            sb.first_cluster_of_root_directory as u64,
            spec_first_cluster_max(sb) as u64,
        )
    } else if sb.bytes_per_sector_shift.0.0 < 9 {
        is_too_small(e, "bytes_per_sector_shift"@, sb.bytes_per_sector_shift.0.0 as u64, 9)
    } else if sb.bytes_per_sector_shift.0.0 > 12 {
        is_too_big(e, "bytes_per_sector_shift"@, sb.bytes_per_sector_shift.0.0 as u64, 12)
    } else if sb.sectors_per_cluster_shift.0.0 > 25 - sb.bytes_per_sector_shift.0.0 {
        is_too_big(
            e,
            "sectors_per_cluster_shift"@,
            sb.sectors_per_cluster_shift.0.0 as u64,
            (25 - sb.bytes_per_sector_shift.0.0) as u64,
        )
    } else if sb.number_of_fats < 1 {
        is_too_small(e, "number_of_fats"@, sb.number_of_fats as u64, 1)
    } else if sb.number_of_fats > 2 {
        is_too_big(e, "number_of_fats"@, sb.number_of_fats as u64, 2)
    } else {
        false
    }
}

/// `2^e` as a machine word.
pub(crate) fn pow2_u64(e: u8) -> (r: u64)
    requires
        e < 64,
    ensures
        r == pow2(e as nat),
        r >= 1,
{
    proof {
        vstd::arithmetic::power2::lemma_pow2_pos(e as nat);
    }
    Shifted(e).unshift().0
}

/// `(a - b)` reduced modulo 2^32 into the range `[0, 2^32)`.
fn mod32_diff(a: u64, b: u64) -> (r: u64)
    requires
        a < 0x1_0000_0000,
        b < 0x1_0000_0000,
    ensures
        r == (a - b) % 0x1_0000_0000,
        r < 0x1_0000_0000,
{
    proof {
        lemma_mod_multiples_vanish(1, a - b, 0x1_0000_0000);
    }
    (a + 0x1_0000_0000 - b) % 0x1_0000_0000
}

/// The minimum of `volume_length` for a given sector-size exponent.
fn exec_volume_length_min(bps: u8) -> (r: u64)
    ensures
        r == pow2(20) as int / pow2(bps as nat) as int,
{
    proof {
        lemma2_to64();
    }
    if bps <= 20 {
        proof {
            lemma_pow2_subtracts(bps as nat, 20);
        }
        pow2_u64(20 - bps)
    } else {
        proof {
            lemma_pow2_strictly_increases(20, bps as nat);
            broadcast use lemma_basic_div;

        }
        0
    }
}

impl SuperBlock {
    /// Checks every bounded field's minimum and maximum, in field order,
    /// and reports the first violation; a record that passes meets all nine
    /// dynamic bounds of the layout.
    pub fn verify_bounds(&self) -> (r: Result<(), BoundError>)
        ensures
            r is Ok <==> spec_bounds_hold(*self),
            r matches Err(e) ==> spec_validation_error(*self, e),
    {
        let sb = self;
        // volume_length
        let vl_min = exec_volume_length_min(sb.bytes_per_sector_shift.0.0);
        if sb.volume_length < vl_min {
            return Err(BoundError::too_small("volume_length", sb.volume_length, vl_min));
        }
        // fat_offset
        if sb.fat_offset < 24 {
            return Err(BoundError::too_small("fat_offset", sb.fat_offset as u64, 24));
        }
        proof {
            assert((sb.fat_length as int) * (sb.number_of_fats as int) <= 0xFFFF_FFFFi64
                * 0xFF) by (nonlinear_arith)
                requires
                    sb.fat_length <= 0xFFFF_FFFFu32,
                    sb.number_of_fats <= 0xFFu8,
            ;
        }
        let fat_product = ((sb.fat_length as u64) * (sb.number_of_fats as u64)) % 0x1_0000_0000;
        let fo_max = mod32_diff(sb.cluster_heap_offset as u64, fat_product);
        if (sb.fat_offset as u64) > fo_max {
            return Err(BoundError::too_big("fat_offset", sb.fat_offset as u64, fo_max));
        }
        // fat_length
        let fl_min = self.exec_fat_length_min();
        if (sb.fat_length as u64) < fl_min {
            return Err(BoundError::too_small("fat_length", sb.fat_length as u64, fl_min));
        }
        let heap_room = mod32_diff(sb.cluster_heap_offset as u64, sb.fat_offset as u64);
        let fl_max = if sb.number_of_fats == 0 {
            0
        } else {
            heap_room / (sb.number_of_fats as u64)
        };
        if (sb.fat_length as u64) > fl_max {
            return Err(BoundError::too_big("fat_length", sb.fat_length as u64, fl_max));
        }
        // cluster_heap_offset
        proof {
            lemma_add_mod_noop_right(
                sb.fat_offset as int,
                (sb.fat_length * sb.number_of_fats) as int,
                0x1_0000_0000,
            );
            lemma_small_mod(sb.fat_offset as nat, 0x1_0000_0000);
        }
        let cho_min = ((sb.fat_offset as u64) + fat_product) % 0x1_0000_0000;
        if (sb.cluster_heap_offset as u64) < cho_min {
            return Err(
                BoundError::too_small("cluster_heap_offset", sb.cluster_heap_offset as u64, cho_min),
            );
        }
        let cho_max = self.exec_cluster_heap_offset_max();
        if (sb.cluster_heap_offset as u64) > cho_max {
            return Err(
                BoundError::too_big("cluster_heap_offset", sb.cluster_heap_offset as u64, cho_max),
            );
        }
        // cluster_count
        let cc_exact = self.exec_cluster_count_exact();
        if (sb.cluster_count as u64) < cc_exact {
            return Err(BoundError::too_small("cluster_count", sb.cluster_count as u64, cc_exact));
        }
        if (sb.cluster_count as u64) > cc_exact {
            return Err(BoundError::too_big("cluster_count", sb.cluster_count as u64, cc_exact));
        }
        // first_cluster_of_root_directory
        if sb.first_cluster_of_root_directory < 2 {
            return Err(
                BoundError::too_small(
                    "first_cluster_of_root_directory",
                    sb.first_cluster_of_root_directory as u64,
                    2,
                ),
            );
        }
        let fcrd_max = ((sb.cluster_count as u64) + 1) % 0x1_0000_0000;
        if (sb.first_cluster_of_root_directory as u64) > fcrd_max {
            return Err(
                BoundError::too_big(
                    "first_cluster_of_root_directory",
                    sb.first_cluster_of_root_directory as u64,
                    fcrd_max,
                ),
            );
        }
        // bytes_per_sector_shift
        if sb.bytes_per_sector_shift.0.0 < 9 {
            return Err(
                BoundError::too_small(
                    "bytes_per_sector_shift",
                    sb.bytes_per_sector_shift.0.0 as u64,
                    9,
                ),
            );
        }
        if sb.bytes_per_sector_shift.0.0 > 12 {
            return Err(
                BoundError::too_big(
                    "bytes_per_sector_shift",
                    sb.bytes_per_sector_shift.0.0 as u64,
                    12,
                ),
            );
        }
        // sectors_per_cluster_shift
        let spc_max = 25 - sb.bytes_per_sector_shift.0.0;
        if sb.sectors_per_cluster_shift.0.0 > spc_max {
            return Err(
                BoundError::too_big(
                    "sectors_per_cluster_shift",
                    sb.sectors_per_cluster_shift.0.0 as u64,
                    spc_max as u64,
                ),
            );
        }
        // number_of_fats
        if sb.number_of_fats < 1 {
            return Err(BoundError::too_small("number_of_fats", sb.number_of_fats as u64, 1));
        }
        if sb.number_of_fats > 2 {
            return Err(BoundError::too_big("number_of_fats", sb.number_of_fats as u64, 2));
        }
        Ok(())
    }

    /// The minimum of `fat_length` for this record's cluster count and
    /// sector size.
    fn exec_fat_length_min(&self) -> (r: u64)
        ensures
            r == spec_fat_length_min(*self),
    {
        let bps = self.bytes_per_sector_shift.0.0;
        let num: u64 = ((self.cluster_count as u64) + 2) * 4;
        let q: u64 = if bps <= 34 {
            num / pow2_u64(bps)
        } else {
            proof {
                lemma2_to64();
                lemma2_to64_rest();
                if (bps as nat) > 35 {
                    lemma_pow2_strictly_increases(35, bps as nat);
                }
                broadcast use lemma_basic_div;

            }
            0
        };
        q % 0x1_0000_0000
    }

    /// The maximum of `cluster_heap_offset` for this record's volume length
    /// and cluster geometry.
    fn exec_cluster_heap_offset_max(&self) -> (r: u64)
        ensures
            r == spec_cluster_heap_offset_max(*self),
    {
        let spc = self.sectors_per_cluster_shift.0.0;
        let cc = self.cluster_count as u64;
        let vl = self.volume_length;
        if cc == 0 {
            proof {
                assert(self.cluster_count * pow2(spc as nat) == 0) by (nonlinear_arith)
                    requires
                        self.cluster_count == 0,
                ;
            }
            if vl > 0xFFFF_FFFE {
                0xFFFF_FFFE
            } else {
                vl
            }
        } else if spc >= 64 {
            proof {
                lemma2_to64_rest();
                if (spc as nat) > 64 {
                    lemma_pow2_strictly_increases(64, spc as nat);
                }
                let p = pow2(spc as nat) as int;
                assert(cc * p >= p) by (nonlinear_arith)
                    requires
                        cc >= 1,
                        p >= 0,
                ;
            }
            0
        } else {
            let cluster_sectors = pow2_u64(spc);
            match cc.checked_mul(cluster_sectors) {
                Some(used) => {
                    if used > vl {
                        0
                    } else if vl - used > 0xFFFF_FFFE {
                        0xFFFF_FFFE
                    } else {
                        vl - used
                    }
                }
                None => 0,
            }
        }
    }

    /// The one valid `cluster_count` for this record's volume length, heap
    /// offset, and cluster size.
    fn exec_cluster_count_exact(&self) -> (r: u64)
        ensures
            r == spec_cluster_count_exact(*self),
    {
        let spc = self.sectors_per_cluster_shift.0.0;
        let divisor: u64 = if spc < 32 {
            proof {
                lemma2_to64();
                if (spc as nat) < 32 {
                    lemma_pow2_strictly_increases(spc as nat, 32);
                }
                lemma_small_mod(pow2(spc as nat), 0x1_0000_0000);
            }
            pow2_u64(spc)
        } else {
            proof {
                lemma_pow2_adds(32, (spc - 32) as nat);
                lemma2_to64();
                lemma_mod_multiples_vanish(pow2((spc - 32) as nat) as int, 0, 0x1_0000_0000);
            }
            0
        };
        if divisor == 0 {
            0
        } else {
            let q = mod32_diff(self.volume_length % 0x1_0000_0000, self.cluster_heap_offset as u64)
                / divisor;
            if q > 0xFFFF_FFF4 {
                0xFFFF_FFF4
            } else {
                q
            }
        }
    }
}

// ---------------------------------------------------------------------------
// The builder.
//
// All derived fields are computed from four inputs -- the two shift
// exponents, the boot-strap payload, and the target volume size in bytes --
// plus a caller-supplied serial number. The computation follows data
// dependency order: FAT geometry before cluster geometry before the root
// directory pointer.
// ---------------------------------------------------------------------------

/// The volume size in sectors: its byte size divided by the sector size.
pub open spec fn spec_built_volume_length(bps: u8, volume_length_bytes: u64) -> int {
    volume_length_bytes as int / pow2(bps as nat) as int
}

/// The FAT length the builder chooses: enough sectors to describe the
/// largest possible cluster count at four bytes per entry, extended so that
/// the first FAT ends on a cluster-aligned boundary; the final 32-bit field
/// takes the value modulo 2^32.
pub open spec fn spec_built_fat_length(bps: u8, spc: u8, volume_length_bytes: u64) -> int {
    let bytes_per_sector = pow2(bps as nat) as int;
    let cluster_size = pow2((bps + spc) as nat) as int;
    let clusters_max = volume_length_bytes as int / cluster_size;
    let fat_sectors = (clusters_max * 4 + bytes_per_sector - 1) / bytes_per_sector;
    let boundary = spec_round_up(24 + fat_sectors, pow2(spc as nat) as int);
    (boundary - 24) % 0x1_0000_0000
}

/// The heap offset the builder chooses: two clusters' worth of sectors.
pub open spec fn spec_built_cluster_heap_offset(spc: u8) -> int {
    pow2((spc + 1) as nat) as int
}

/// The cluster count the builder chooses: the sectors left past the heap
/// offset, divided by the cluster size, with the subtraction evaluated in
/// 32-bit wrapping arithmetic as the field itself is 32 bits wide.
pub open spec fn spec_built_cluster_count(bps: u8, spc: u8, volume_length_bytes: u64) -> int {
    let vl32 = spec_built_volume_length(bps, volume_length_bytes) % 0x1_0000_0000;
    ((vl32 - spec_built_cluster_heap_offset(spc)) % 0x1_0000_0000) / pow2(spc as nat) as int
}

/// Relates a record to the builder inputs it was populated from: every
/// field holds exactly the value the builder computes for those inputs.
pub open spec fn is_populated(
    sb: SuperBlock,
    bps: u8,
    spc: u8,
    boot_code: BootCode,
    volume_length_bytes: u64,
    serial: u32,
) -> bool {
    &&& sb.jump_boot@ == seq![0xEBu8, 0x76u8, 0x90u8]
    &&& sb.file_system_name@ == seq![0x45u8, 0x58u8, 0x46u8, 0x41u8, 0x54u8, 0x20u8, 0x20u8, 0x20u8]
    &&& sb.must_be_zero.0@ == Seq::new(53, |i: int| 0u8)
    &&& sb.partition_offset == 0
    &&& sb.volume_length == spec_built_volume_length(bps, volume_length_bytes)
    &&& sb.fat_offset == 24
    &&& sb.fat_length == spec_built_fat_length(bps, spc, volume_length_bytes)
    &&& sb.cluster_heap_offset == spec_built_cluster_heap_offset(spc)
    &&& sb.cluster_count == spec_built_cluster_count(bps, spc, volume_length_bytes)
    &&& sb.first_cluster_of_root_directory == 2
    &&& sb.volume_serial_number == serial
    &&& sb.file_system_revision@ == seq![0u8, 1u8]
    &&& sb.volume_flags.flags == 0
    &&& sb.bytes_per_sector_shift.0.0 == bps
    &&& sb.sectors_per_cluster_shift.0.0 == spc
    &&& sb.number_of_fats == 2
    &&& sb.drive_select == 0x80
    &&& sb.percent_in_use == 0
    &&& sb.reserved@ == Seq::new(7, |i: int| 0u8)
    &&& sb.boot_code == boot_code
}

/// Every invariant of the layout table at once: the constant fields hold
/// their required values and every bounded field lies within its range.
pub open spec fn spec_table_bounds(sb: SuperBlock) -> bool {
    &&& sb.jump_boot@ == seq![0xEBu8, 0x76u8, 0x90u8]
    &&& sb.file_system_name@ == seq![0x45u8, 0x58u8, 0x46u8, 0x41u8, 0x54u8, 0x20u8, 0x20u8, 0x20u8]
    &&& sb.must_be_zero.0@ == Seq::new(53, |i: int| 0u8)
    &&& spec_bounds_hold(sb)
    &&& sb.file_system_revision@[0] <= 99
    &&& sb.file_system_revision@[1] <= 99
    &&& sb.percent_in_use <= 100 || sb.percent_in_use == 0xFF
    &&& sb.boot_code.wf()
}

/// Law: a record the builder populated and the validator accepted meets
/// every bound of the layout table simultaneously, the constant fields
/// included.
pub proof fn lemma_built_record_meets_table(
    sb: SuperBlock,
    bps: u8,
    spc: u8,
    boot_code: BootCode,
    volume_length_bytes: u64,
    serial: u32,
)
    requires
        is_populated(sb, bps, spc, boot_code, volume_length_bytes, serial),
        spec_bounds_hold(sb),
        boot_code.wf(),
    ensures
        spec_table_bounds(sb),
{
}

/// Any two records populated from the same builder inputs agree on every
/// field: the builder's outcome is a function of its inputs alone.
pub proof fn lemma_populated_unique(
    sb1: SuperBlock,
    sb2: SuperBlock,
    bps: u8,
    spc: u8,
    boot_code: BootCode,
    volume_length_bytes: u64,
    serial: u32,
)
    requires
        is_populated(sb1, bps, spc, boot_code, volume_length_bytes, serial),
        is_populated(sb2, bps, spc, boot_code, volume_length_bytes, serial),
    ensures
        crate::super_block::codec::spec_sb_same_record(sb1, sb2),
{
}

/// What the builder owes when it succeeds: the returned record is the one
/// populated from the inputs, well-formed, and it meets every bound of the
/// layout table.
pub open spec fn spec_builder_ok(
    bps: u8,
    spc: u8,
    boot_code: BootCode,
    volume_length_bytes: u64,
    serial: u32,
    sb: SuperBlock,
) -> bool {
    &&& bps + spc <= 25
    &&& is_populated(sb, bps, spc, boot_code, volume_length_bytes, serial)
    &&& sb.wf()
    &&& spec_table_bounds(sb)
}

/// What the builder owes when it fails: either the cluster would exceed 32
/// megabytes and construction is rejected outright, or the record populated
/// from the inputs violates some bound and the error reports the first
/// violation.
pub open spec fn spec_builder_error(
    bps: u8,
    spc: u8,
    boot_code: BootCode,
    volume_length_bytes: u64,
    serial: u32,
    e: BoundError,
) -> bool {
    if bps + spc > 25 {
        is_too_big(
            e,
            "sectors_per_cluster_shift"@,
            spc as u64,
            if bps <= 25 {
                (25 - bps) as u64
            } else {
                0
            },
        )
    } else {
        exists|sb: SuperBlock|
            {
                &&& #[trigger] is_populated(sb, bps, spc, boot_code, volume_length_bytes, serial)
                &&& spec_validation_error(sb, e)
                &&& !spec_bounds_hold(sb)
            }
    }
}

impl SuperBlock {
    /// Computes every field of the record from the builder inputs, without
    /// yet checking any bound.
    pub fn populate(
        bytes_per_sector_shift: u8,
        sectors_per_cluster_shift: u8,
        boot_code: BootCode,
        volume_length: u64,
        volume_serial_number: u32,
    ) -> (r: SuperBlock)
        requires
            bytes_per_sector_shift + sectors_per_cluster_shift <= 25,
            boot_code.0@.len() == 390,
        ensures
            is_populated(
                r,
                bytes_per_sector_shift,
                sectors_per_cluster_shift,
                boot_code,
                volume_length,
                volume_serial_number,
            ),
            r.wf(),
    {
        let bps = bytes_per_sector_shift;
        let spc = sectors_per_cluster_shift;
        let bytes_per_sector = pow2_u64(bps);
        let cluster_size = pow2_u64(bps + spc);
        let volume_length_sectors = volume_length / bytes_per_sector;
        let clusters_max = volume_length / cluster_size;
        // Entries are four bytes; round the FAT up to whole sectors, then
        // extend it so the first FAT ends on a cluster boundary. The
        // intermediate values can exceed 64 bits for degenerate shifts, so
        // they are computed in 128 bits and reduced as the field is.
        let bps128 = bytes_per_sector as u128;
        let fat_sectors: u128 = ((clusters_max as u128) * 4 + bps128 - 1) / bps128;
        let cluster_sectors = pow2_u64(spc);
        let spc128 = cluster_sectors as u128;
        let sum: u128 = 24 + fat_sectors;
        proof {
            assert((sum / spc128 + 1) * spc128 <= sum + spc128 && sum
                < (sum / spc128 + 1) * spc128) by (nonlinear_arith)
                requires
                    spc128 >= 1,
                    sum >= 0,
            ;
        }
        let boundary: u128 = if sum % spc128 == 0 {
            sum
        } else {
            (sum / spc128 + 1) * spc128
        };
        let fat_length: u32 = ((boundary - 24) % 0x1_0000_0000) as u32;
        proof {
            lemma2_to64();
            lemma_pow2_strictly_increases((spc + 1) as nat, 32);
        }
        let cluster_heap_offset: u32 = pow2_u64(spc + 1) as u32;
        let vl32: u32 = (volume_length_sectors % 0x1_0000_0000) as u32;
        let heap_sectors = mod32_diff(vl32 as u64, cluster_heap_offset as u64);
        proof {
            assert(heap_sectors as int / cluster_sectors as int <= heap_sectors as int)
                by (nonlinear_arith)
                requires
                    cluster_sectors >= 1,
                    heap_sectors >= 0,
            ;
        }
        let cluster_count: u32 = (heap_sectors / cluster_sectors) as u32;
        let r = SuperBlock {
            jump_boot: [0xEB, 0x76, 0x90],
            file_system_name: [0x45, 0x58, 0x46, 0x41, 0x54, 0x20, 0x20, 0x20],
            must_be_zero: MustBeZero::default(),
            partition_offset: 0,
            volume_length: volume_length_sectors,
            fat_offset: 24,
            fat_length,
            cluster_heap_offset,
            cluster_count,
            first_cluster_of_root_directory: 2,
            volume_serial_number,
            file_system_revision: [0, 1],
            volume_flags: VolumeFlags::default(),
            bytes_per_sector_shift: ShiftedBytes(Shifted(bps)),
            sectors_per_cluster_shift: ShiftedSectors(Shifted(spc)),
            number_of_fats: 2,
            drive_select: 0x80,
            percent_in_use: 0,
            reserved: [0, 0, 0, 0, 0, 0, 0],
            boot_code,
        };
        proof {
            assert(r.jump_boot@ =~= seq![0xEBu8, 0x76u8, 0x90u8]);
            assert(r.file_system_name@ =~= seq![
                0x45u8,
                0x58u8,
                0x46u8,
                0x41u8,
                0x54u8,
                0x20u8,
                0x20u8,
                0x20u8,
            ]);
            assert(r.file_system_revision@ =~= seq![0u8, 1u8]);
            assert(r.reserved@ =~= Seq::new(7, |i: int| 0u8));
        }
        r
    }

    /// Builds the geometry record for a volume of `volume_length` bytes
    /// with the given sector and cluster exponents, then checks every bound
    /// and refuses to return a record that violates any of them. The serial
    /// number comes from the caller, which should draw it from an entropy
    /// source of its choosing.
    pub fn new(
        bytes_per_sector_shift: u8,
        sectors_per_cluster_shift: u8,
        boot_code: BootCode,
        volume_length: u64,
        volume_serial_number: u32,
    ) -> (r: Result<SuperBlock, BoundError>)
        requires
            boot_code.wf(),
        ensures
            r matches Ok(sb) ==> spec_builder_ok(
                bytes_per_sector_shift,
                sectors_per_cluster_shift,
                boot_code,
                volume_length,
                volume_serial_number,
                sb,
            ),
            r matches Err(e) ==> spec_builder_error(
                bytes_per_sector_shift,
                sectors_per_cluster_shift,
                boot_code,
                volume_length,
                volume_serial_number,
                e,
            ),
    {
        if (bytes_per_sector_shift as u16) + (sectors_per_cluster_shift as u16) > 25 {
            // A cluster larger than 32 megabytes is rejected outright,
            // reported against the field whose bound it breaks.
            let should_be: u8 = if bytes_per_sector_shift <= 25 {
                25 - bytes_per_sector_shift
            } else {
                0
            };
            return Err(
                BoundError::too_big(
                    "sectors_per_cluster_shift",
                    sectors_per_cluster_shift as u64,
                    should_be as u64,
                ),
            );
        }
        let sb = Self::populate(
            bytes_per_sector_shift,
            sectors_per_cluster_shift,
            boot_code,
            volume_length,
            volume_serial_number,
        );
        match sb.verify_bounds() {
            Ok(()) => {
                proof {
                    lemma_built_record_meets_table(
                        sb,
                        bytes_per_sector_shift,
                        sectors_per_cluster_shift,
                        boot_code,
                        volume_length,
                        volume_serial_number,
                    );
                }
                Ok(sb)
            }
            Err(e) => Err(e),
        }
    }
}

} // verus!
