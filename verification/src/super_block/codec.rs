//! The byte codec of the geometry record.
//!
//! Encoding lays every field out little-endian at its fixed offset within
//! 512 bytes and pads with zeros to one full sector. Decoding reads the
//! fields back from the leading 512 bytes; it keeps whatever it read, so a
//! decoded record re-encodes to the same bytes bit for bit.

use vstd::bytes::{
    lemma_auto_spec_u16_to_from_le_bytes, lemma_auto_spec_u32_to_from_le_bytes,
    lemma_auto_spec_u64_to_from_le_bytes, spec_u16_from_le_bytes, spec_u16_to_le_bytes,
    spec_u32_from_le_bytes, spec_u32_to_le_bytes, spec_u64_from_le_bytes, spec_u64_to_le_bytes,
    u16_from_le_bytes, u16_to_le_bytes, u32_from_le_bytes, u32_to_le_bytes, u64_from_le_bytes,
    u64_to_le_bytes,
};
use vstd::prelude::*;
use vstd::slice::{slice_subrange, slice_to_vec};

use crate::errors::CodecError;
use crate::shift::{Shifted, ShiftedBytes, ShiftedSectors};

use super::boot_code::BootCode;
use super::must_be_zero::MustBeZero;
use super::pow2_u64;
use super::volume_flags::VolumeFlags;
use super::SuperBlock;

use vstd::arithmetic::power2::pow2;

use crate::boot_region::checksum::{compute, spec_checksum};
use crate::boot_region::{checksum_skip_offsets, spec_skip_offsets};

verus! {

/// The 512 bytes of fields in on-disk order: every integer little-endian,
/// at the offsets fixed by the layout.
pub open spec fn spec_sb_prefix(sb: SuperBlock) -> Seq<u8> {
    sb.jump_boot@ + sb.file_system_name@ + sb.must_be_zero.0@ + spec_u64_to_le_bytes(
        sb.partition_offset,
    ) + spec_u64_to_le_bytes(sb.volume_length) + spec_u32_to_le_bytes(sb.fat_offset)
        + spec_u32_to_le_bytes(sb.fat_length) + spec_u32_to_le_bytes(sb.cluster_heap_offset)
        + spec_u32_to_le_bytes(sb.cluster_count) + spec_u32_to_le_bytes(
        sb.first_cluster_of_root_directory,
    ) + spec_u32_to_le_bytes(sb.volume_serial_number) + sb.file_system_revision@
        + spec_u16_to_le_bytes(sb.volume_flags.flags) + seq![
        sb.bytes_per_sector_shift.0.0,
        sb.sectors_per_cluster_shift.0.0,
        sb.number_of_fats,
        sb.drive_select,
        sb.percent_in_use,
    ] + sb.reserved@ + sb.boot_code.0@ + spec_u16_to_le_bytes(sb.boot_code.1)
}

/// The whole sector image: the field bytes followed by zero fill out to
/// the sector size.
pub open spec fn spec_sb_bytes(sb: SuperBlock, sector_size: int) -> Seq<u8> {
    spec_sb_prefix(sb) + Seq::new((sector_size - 512) as nat, |i: int| 0u8)
}

/// Relates a decoded record to the bytes it was read from: every field
/// holds exactly the value found at its on-disk offset.
pub open spec fn spec_sb_decoded(sb: SuperBlock, bytes: Seq<u8>) -> bool {
    &&& sb.jump_boot@ == bytes.subrange(0, 3)
    &&& sb.file_system_name@ == bytes.subrange(3, 11)
    &&& sb.must_be_zero.0@ == bytes.subrange(11, 64)
    &&& sb.partition_offset == spec_u64_from_le_bytes(bytes.subrange(64, 72))
    &&& sb.volume_length == spec_u64_from_le_bytes(bytes.subrange(72, 80))
    &&& sb.fat_offset == spec_u32_from_le_bytes(bytes.subrange(80, 84))
    &&& sb.fat_length == spec_u32_from_le_bytes(bytes.subrange(84, 88))
    &&& sb.cluster_heap_offset == spec_u32_from_le_bytes(bytes.subrange(88, 92))
    &&& sb.cluster_count == spec_u32_from_le_bytes(bytes.subrange(92, 96))
    &&& sb.first_cluster_of_root_directory == spec_u32_from_le_bytes(bytes.subrange(96, 100))
    &&& sb.volume_serial_number == spec_u32_from_le_bytes(bytes.subrange(100, 104))
    &&& sb.file_system_revision@ == bytes.subrange(104, 106)
    &&& sb.volume_flags.flags == spec_u16_from_le_bytes(bytes.subrange(106, 108))
    &&& sb.bytes_per_sector_shift.0.0 == bytes[108]
    &&& sb.sectors_per_cluster_shift.0.0 == bytes[109]
    &&& sb.number_of_fats == bytes[110]
    &&& sb.drive_select == bytes[111]
    &&& sb.percent_in_use == bytes[112]
    &&& sb.reserved@ == bytes.subrange(113, 120)
    &&& sb.boot_code.0@ == bytes.subrange(120, 510)
    &&& sb.boot_code.1 == spec_u16_from_le_bytes(bytes.subrange(510, 512))
}

/// Two records that are the same bit for bit: every field agrees, so they
/// encode to identical bytes.
pub open spec fn spec_sb_same_record(a: SuperBlock, b: SuperBlock) -> bool {
    &&& a.jump_boot@ == b.jump_boot@
    &&& a.file_system_name@ == b.file_system_name@
    &&& a.must_be_zero.0@ == b.must_be_zero.0@
    &&& a.partition_offset == b.partition_offset
    &&& a.volume_length == b.volume_length
    &&& a.fat_offset == b.fat_offset
    &&& a.fat_length == b.fat_length
    &&& a.cluster_heap_offset == b.cluster_heap_offset
    &&& a.cluster_count == b.cluster_count
    &&& a.first_cluster_of_root_directory == b.first_cluster_of_root_directory
    &&& a.volume_serial_number == b.volume_serial_number
    &&& a.file_system_revision@ == b.file_system_revision@
    &&& a.volume_flags == b.volume_flags
    &&& a.bytes_per_sector_shift == b.bytes_per_sector_shift
    &&& a.sectors_per_cluster_shift == b.sectors_per_cluster_shift
    &&& a.number_of_fats == b.number_of_fats
    &&& a.drive_select == b.drive_select
    &&& a.percent_in_use == b.percent_in_use
    &&& a.reserved@ == b.reserved@
    &&& a.boot_code.0@ == b.boot_code.0@
    &&& a.boot_code.1 == b.boot_code.1
}

/// Where each field lies inside the 512-byte field image.
pub proof fn lemma_sb_prefix_layout(sb: SuperBlock)
    requires
        sb.wf(),
    ensures
        spec_sb_prefix(sb).len() == 512,
        spec_sb_prefix(sb).subrange(0, 3) == sb.jump_boot@,
        spec_sb_prefix(sb).subrange(3, 11) == sb.file_system_name@,
        spec_sb_prefix(sb).subrange(11, 64) == sb.must_be_zero.0@,
        spec_sb_prefix(sb).subrange(64, 72) == spec_u64_to_le_bytes(sb.partition_offset),
        spec_sb_prefix(sb).subrange(72, 80) == spec_u64_to_le_bytes(sb.volume_length),
        spec_sb_prefix(sb).subrange(80, 84) == spec_u32_to_le_bytes(sb.fat_offset),
        spec_sb_prefix(sb).subrange(84, 88) == spec_u32_to_le_bytes(sb.fat_length),
        spec_sb_prefix(sb).subrange(88, 92) == spec_u32_to_le_bytes(sb.cluster_heap_offset),
        spec_sb_prefix(sb).subrange(92, 96) == spec_u32_to_le_bytes(sb.cluster_count),
        spec_sb_prefix(sb).subrange(96, 100) == spec_u32_to_le_bytes(
            sb.first_cluster_of_root_directory,
        ),
        spec_sb_prefix(sb).subrange(100, 104) == spec_u32_to_le_bytes(sb.volume_serial_number),
        spec_sb_prefix(sb).subrange(104, 106) == sb.file_system_revision@,
        spec_sb_prefix(sb).subrange(106, 108) == spec_u16_to_le_bytes(sb.volume_flags.flags),
        spec_sb_prefix(sb)[108] == sb.bytes_per_sector_shift.0.0,
        spec_sb_prefix(sb)[109] == sb.sectors_per_cluster_shift.0.0,
        spec_sb_prefix(sb)[110] == sb.number_of_fats,
        spec_sb_prefix(sb)[111] == sb.drive_select,
        spec_sb_prefix(sb)[112] == sb.percent_in_use,
        spec_sb_prefix(sb).subrange(113, 120) == sb.reserved@,
        spec_sb_prefix(sb).subrange(120, 510) == sb.boot_code.0@,
        spec_sb_prefix(sb).subrange(510, 512) == spec_u16_to_le_bytes(sb.boot_code.1),
{
    lemma_auto_spec_u16_to_from_le_bytes();
    lemma_auto_spec_u32_to_from_le_bytes();
    lemma_auto_spec_u64_to_from_le_bytes();
    let p = spec_sb_prefix(sb);
    assert(p.len() == 512);
    assert(p.subrange(0, 3) =~= sb.jump_boot@);
    assert(p.subrange(3, 11) =~= sb.file_system_name@);
    assert(p.subrange(11, 64) =~= sb.must_be_zero.0@);
    assert(p.subrange(64, 72) =~= spec_u64_to_le_bytes(sb.partition_offset));
    assert(p.subrange(72, 80) =~= spec_u64_to_le_bytes(sb.volume_length));
    assert(p.subrange(80, 84) =~= spec_u32_to_le_bytes(sb.fat_offset));
    assert(p.subrange(84, 88) =~= spec_u32_to_le_bytes(sb.fat_length));
    assert(p.subrange(88, 92) =~= spec_u32_to_le_bytes(sb.cluster_heap_offset));
    assert(p.subrange(92, 96) =~= spec_u32_to_le_bytes(sb.cluster_count));
    assert(p.subrange(96, 100) =~= spec_u32_to_le_bytes(sb.first_cluster_of_root_directory));
    assert(p.subrange(100, 104) =~= spec_u32_to_le_bytes(sb.volume_serial_number));
    assert(p.subrange(104, 106) =~= sb.file_system_revision@);
    assert(p.subrange(106, 108) =~= spec_u16_to_le_bytes(sb.volume_flags.flags));
    assert(p.subrange(113, 120) =~= sb.reserved@);
    assert(p.subrange(120, 510) =~= sb.boot_code.0@);
    assert(p.subrange(510, 512) =~= spec_u16_to_le_bytes(sb.boot_code.1));
}

/// Appends every byte of `bytes` to `out`, in order.
pub(crate) fn push_bytes(out: &mut Vec<u8>, bytes: &[u8])
    ensures
        final(out)@ == old(out)@ + bytes@,
{
    let mut i: usize = 0;
    while i < bytes.len()
        invariant
            i <= bytes@.len(),
            out@ == old(out)@ + bytes@.subrange(0, i as int),
        decreases bytes@.len() - i,
    {
        out.push(bytes[i]);
        assert(out@ =~= old(out)@ + bytes@.subrange(0, i + 1));
        i = i + 1;
    }
    assert(out@ =~= old(out)@ + bytes@);
}

impl SuperBlock {
    /// The canonical byte image of the record: its 512 bytes of fields,
    /// zero-padded to the sector size the record itself names.
    pub fn encode(&self) -> (r: Vec<u8>)
        requires
            self.wf(),
            9 <= self.bytes_per_sector_shift.0.0 <= 12,
        ensures
            r@ == spec_sb_bytes(*self, pow2(self.bytes_per_sector_shift.0.0 as nat) as int),
            r@.len() == pow2(self.bytes_per_sector_shift.0.0 as nat),
            r@.subrange(0, 512) == spec_sb_prefix(*self),
    {
        let mut out: Vec<u8> = Vec::new();
        push_bytes(&mut out, self.jump_boot.as_slice());
        push_bytes(&mut out, self.file_system_name.as_slice());
        push_bytes(&mut out, self.must_be_zero.0.as_slice());
        let mut w64 = u64_to_le_bytes(self.partition_offset);
        out.append(&mut w64);
        let mut w64 = u64_to_le_bytes(self.volume_length);
        out.append(&mut w64);
        let mut w32 = u32_to_le_bytes(self.fat_offset);
        out.append(&mut w32);
        let mut w32 = u32_to_le_bytes(self.fat_length);
        out.append(&mut w32);
        let mut w32 = u32_to_le_bytes(self.cluster_heap_offset);
        out.append(&mut w32);
        let mut w32 = u32_to_le_bytes(self.cluster_count);
        out.append(&mut w32);
        let mut w32 = u32_to_le_bytes(self.first_cluster_of_root_directory);
        out.append(&mut w32);
        let mut w32 = u32_to_le_bytes(self.volume_serial_number);
        out.append(&mut w32);
        push_bytes(&mut out, self.file_system_revision.as_slice());
        let mut w16 = u16_to_le_bytes(self.volume_flags.flags);
        out.append(&mut w16);
        out.push(self.bytes_per_sector_shift.0.0);
        out.push(self.sectors_per_cluster_shift.0.0);
        out.push(self.number_of_fats);
        out.push(self.drive_select);
        out.push(self.percent_in_use);
        push_bytes(&mut out, self.reserved.as_slice());
        push_bytes(&mut out, self.boot_code.0.as_slice());
        let mut w16 = u16_to_le_bytes(self.boot_code.1);
        out.append(&mut w16);
        proof {
            lemma_sb_prefix_layout(*self);
            assert(out@ =~= spec_sb_prefix(*self));
        }
        let sector_size = pow2_u64(self.bytes_per_sector_shift.0.0);
        proof {
            vstd::arithmetic::power2::lemma2_to64();
            if (self.bytes_per_sector_shift.0.0 as nat) < 12 {
                vstd::arithmetic::power2::lemma_pow2_strictly_increases(
                    self.bytes_per_sector_shift.0.0 as nat,
                    12,
                );
            }
            if 9 < (self.bytes_per_sector_shift.0.0 as nat) {
                vstd::arithmetic::power2::lemma_pow2_strictly_increases(
                    9,
                    self.bytes_per_sector_shift.0.0 as nat,
                );
            }
        }
        let target: usize = sector_size as usize;
        while out.len() < target
            invariant
                512 <= out@.len() <= target,
                target <= 4096,
                out@ =~= spec_sb_prefix(*self) + Seq::new(
                    (out@.len() - 512) as nat,
                    |i: int| 0u8,
                ),
            decreases target - out@.len(),
        {
            out.push(0u8);
            assert(out@ =~= spec_sb_prefix(*self) + Seq::new(
                (out@.len() - 512) as nat,
                |i: int| 0u8,
            ));
        }
        proof {
            assert(out@ =~= spec_sb_bytes(
                *self,
                pow2(self.bytes_per_sector_shift.0.0 as nat) as int,
            ));
            assert(out@.subrange(0, 512) =~= spec_sb_prefix(*self));
        }
        out
    }

    /// Reads a record back from the leading 512 bytes of its sector
    /// image. Nothing is validated here: the decoder hands back exactly
    /// what it read, and validation is the bounds validator's business.
    pub fn decode(bytes: &[u8]) -> (r: Result<SuperBlock, CodecError>)
        ensures
            bytes@.len() < 512 ==> r == Err::<SuperBlock, CodecError>(CodecError::TruncatedInput),
            bytes@.len() >= 512 ==> (r matches Ok(sb) && spec_sb_decoded(sb, bytes@) && sb.wf()),
    {
        if bytes.len() < 512 {
            return Err(CodecError::TruncatedInput);
        }
        let jump_boot = [bytes[0], bytes[1], bytes[2]];
        let file_system_name = [
            bytes[3],
            bytes[4],
            bytes[5],
            bytes[6],
            bytes[7],
            bytes[8],
            bytes[9],
            bytes[10],
        ];
        let must_be_zero = MustBeZero(slice_to_vec(slice_subrange(bytes, 11, 64)));
        let partition_offset = u64_from_le_bytes(slice_subrange(bytes, 64, 72));
        let volume_length = u64_from_le_bytes(slice_subrange(bytes, 72, 80));
        let fat_offset = u32_from_le_bytes(slice_subrange(bytes, 80, 84));
        let fat_length = u32_from_le_bytes(slice_subrange(bytes, 84, 88));
        let cluster_heap_offset = u32_from_le_bytes(slice_subrange(bytes, 88, 92));
        let cluster_count = u32_from_le_bytes(slice_subrange(bytes, 92, 96));
        let first_cluster_of_root_directory = u32_from_le_bytes(slice_subrange(bytes, 96, 100));
        let volume_serial_number = u32_from_le_bytes(slice_subrange(bytes, 100, 104));
        let file_system_revision = [bytes[104], bytes[105]];
        let volume_flags = VolumeFlags { flags: u16_from_le_bytes(slice_subrange(bytes, 106, 108)) };
        let bytes_per_sector_shift = ShiftedBytes(Shifted(bytes[108]));
        let sectors_per_cluster_shift = ShiftedSectors(Shifted(bytes[109]));
        let number_of_fats = bytes[110];
        let drive_select = bytes[111];
        let percent_in_use = bytes[112];
        let reserved = [
            bytes[113],
            bytes[114],
            bytes[115],
            bytes[116],
            bytes[117],
            bytes[118],
            bytes[119],
        ];
        let boot_code = BootCode(
            slice_to_vec(slice_subrange(bytes, 120, 510)),
            u16_from_le_bytes(slice_subrange(bytes, 510, 512)),
        );
        let sb = SuperBlock {
            jump_boot,
            file_system_name,
            must_be_zero,
            partition_offset,
            volume_length,
            fat_offset,
            fat_length,
            cluster_heap_offset,
            cluster_count,
            first_cluster_of_root_directory,
            volume_serial_number,
            file_system_revision,
            volume_flags,
            bytes_per_sector_shift,
            sectors_per_cluster_shift,
            number_of_fats,
            drive_select,
            percent_in_use,
            reserved,
            boot_code,
        };
        proof {
            assert(sb.jump_boot@ =~= bytes@.subrange(0, 3));
            assert(sb.file_system_name@ =~= bytes@.subrange(3, 11));
            assert(sb.file_system_revision@ =~= bytes@.subrange(104, 106));
            assert(sb.reserved@ =~= bytes@.subrange(113, 120));
        }
        Ok(sb)
    }
}

impl SuperBlock {
    /// The rolling checksum of this record's own 512-byte field image,
    /// skipping the offsets of `volume_flags` and `percent_in_use` so that
    /// those fields may change without invalidating it.
    pub fn checksum(&self) -> (r: u32)
        requires
            self.wf(),
            9 <= self.bytes_per_sector_shift.0.0 <= 12,
        ensures
            r == spec_checksum(spec_sb_prefix(*self), spec_skip_offsets()),
    {
        let image = self.encode();
        proof {
            vstd::arithmetic::power2::lemma2_to64();
            if 9 < (self.bytes_per_sector_shift.0.0 as nat) {
                vstd::arithmetic::power2::lemma_pow2_strictly_increases(
                    9,
                    self.bytes_per_sector_shift.0.0 as nat,
                );
            }
        }
        let skips = checksum_skip_offsets();
        let fields = slice_subrange(image.as_slice(), 0, 512);
        compute(fields, skips.as_slice())
    }
}

/// Law: encoding a record and decoding the image, at the sector size the
/// record itself names, yields the record back bit for bit: every field of
/// the decoded record equals the field of the record that was encoded.
pub proof fn lemma_super_block_round_trip(sb: SuperBlock, decoded: SuperBlock)
    requires
        sb.wf(),
        9 <= sb.bytes_per_sector_shift.0.0 <= 12,
        spec_sb_decoded(
            decoded,
            spec_sb_bytes(sb, pow2(sb.bytes_per_sector_shift.0.0 as nat) as int),
        ),
    ensures
        spec_sb_same_record(decoded, sb),
{
    lemma_auto_spec_u16_to_from_le_bytes();
    lemma_auto_spec_u32_to_from_le_bytes();
    lemma_auto_spec_u64_to_from_le_bytes();
    lemma_sb_prefix_layout(sb);
    let ss = pow2(sb.bytes_per_sector_shift.0.0 as nat) as int;
    vstd::arithmetic::power2::lemma2_to64();
    if 9 < (sb.bytes_per_sector_shift.0.0 as nat) {
        vstd::arithmetic::power2::lemma_pow2_strictly_increases(
            9,
            sb.bytes_per_sector_shift.0.0 as nat,
        );
    }
    let bytes = spec_sb_bytes(sb, ss);
    let p = spec_sb_prefix(sb);
    assert forall|i: int, j: int| 0 <= i <= j <= 512 implies bytes.subrange(i, j) == p.subrange(
        i,
        j,
    ) by {
        assert(bytes.subrange(i, j) =~= p.subrange(i, j));
    }
    assert(bytes.subrange(0, 3) == p.subrange(0, 3));
    assert(bytes.subrange(3, 11) == p.subrange(3, 11));
    assert(bytes.subrange(11, 64) == p.subrange(11, 64));
    assert(bytes.subrange(64, 72) == p.subrange(64, 72));
    assert(bytes.subrange(72, 80) == p.subrange(72, 80));
    assert(bytes.subrange(80, 84) == p.subrange(80, 84));
    assert(bytes.subrange(84, 88) == p.subrange(84, 88));
    assert(bytes.subrange(88, 92) == p.subrange(88, 92));
    assert(bytes.subrange(92, 96) == p.subrange(92, 96));
    assert(bytes.subrange(96, 100) == p.subrange(96, 100));
    assert(bytes.subrange(100, 104) == p.subrange(100, 104));
    assert(bytes.subrange(104, 106) == p.subrange(104, 106));
    assert(bytes.subrange(106, 108) == p.subrange(106, 108));
    assert(bytes[108] == p[108] && bytes[109] == p[109] && bytes[110] == p[110] && bytes[111]
        == p[111] && bytes[112] == p[112]);
    assert(bytes.subrange(113, 120) == p.subrange(113, 120));
    assert(bytes.subrange(120, 510) == p.subrange(120, 510));
    assert(bytes.subrange(510, 512) == p.subrange(510, 512));
}

} // verus!
