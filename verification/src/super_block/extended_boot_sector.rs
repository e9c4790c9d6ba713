//! The eight extended boot sectors that follow the geometry record.
//!
//! This module computes where each slot lives and what bytes each slot
//! holds; actually moving those bytes to and from storage is left to the
//! caller, which reads or writes whole sectors at the offsets computed
//! here.

pub mod index;

use vstd::bytes::spec_u32_to_le_bytes;
use vstd::prelude::*;

use crate::errors::CodecError;
use crate::shift::BytesPerSector;

use self::index::Index;
use super::extended_boot_code::{
    spec_ebc_decode, spec_ebc_new, ExtendedBootCode, VALID_SIGNATURE,
};

verus! {

/// Accessor for the extended boot sectors of one region, all of which
/// share a single sector size.
#[derive(Clone, Copy, Debug, PartialEq, Eq, Structural)]
pub struct ExtendedBootSectors {
    /// The sector size the region was formatted with.
    pub sector_size: BytesPerSector,
}

impl ExtendedBootSectors {
    /// Opens an accessor over sectors of the given size.
    pub fn open(sector_size: BytesPerSector) -> (r: Self)
        ensures
            r.sector_size == sector_size,
    {
        ExtendedBootSectors { sector_size }
    }

    /// Prepares the region for initial formatting: an accessor together
    /// with the eight fresh slots, each holding an empty, zero-filled
    /// payload and the valid signature.
    pub fn init(sector_size: BytesPerSector) -> (r: Result<
        (Self, Vec<ExtendedBootCode>),
        CodecError,
    >)
        requires
            sector_size.0.0 <= usize::MAX,
        ensures
            sector_size.0.0 < 4 ==> r == Err::<(Self, Vec<ExtendedBootCode>), CodecError>(
                CodecError::SectorTooSmall,
            ),
            sector_size.0.0 >= 4 ==> {
                &&& r matches Ok((s, slots))
                &&& s.sector_size == sector_size
                &&& slots@.len() == 8
                &&& forall|i: int|
                    0 <= i < 8 ==> {
                        &&& (#[trigger] slots@[i]).code@ == Seq::new(
                            (sector_size.0.0 - 4) as nat,
                            |j: int| 0u8,
                        )
                        &&& slots@[i].signature == VALID_SIGNATURE
                    }
            },
    {
        if sector_size.0.0 < 4 {
            return Err(CodecError::SectorTooSmall);
        }
        let mut slots: Vec<ExtendedBootCode> = Vec::new();
        let mut k: usize = 0;
        while k < 8
            invariant
                sector_size.0.0 >= 4,
                sector_size.0.0 <= usize::MAX,
                k == slots@.len(),
                k <= 8,
                forall|i: int|
                    0 <= i < k ==> {
                        &&& (#[trigger] slots@[i]).code@ == Seq::new(
                            (sector_size.0.0 - 4) as nat,
                            |j: int| 0u8,
                        )
                        &&& slots@[i].signature == VALID_SIGNATURE
                    },
            decreases 8 - k,
        {
            match ExtendedBootCode::new(&[], sector_size) {
                Ok(slot) => {
                    assert(slot.code@ =~= Seq::new((sector_size.0.0 - 4) as nat, |j: int| 0u8));
                    slots.push(slot);
                }
                Err(e) => {
                    return Err(e);
                }
            }
            k = k + 1;
        }
        Ok((ExtendedBootSectors { sector_size }, slots))
    }

    /// The byte offset of the given slot from the start of the region:
    /// the slots begin one sector in, right after the geometry record.
    pub fn offset_from_index(&self, index: Index) -> (r: u64)
        requires
            index.0 <= 7,
            self.sector_size.0.0 * 9 <= u64::MAX,
        ensures
            r == self.sector_size.0.0 * (1 + index.0),
    {
        let ss = self.sector_size.0.0;
        proof {
            let ssi = ss as int;
            let idx = index.0 as int;
            assert(ssi + ssi * idx == ssi * (1 + idx) && ssi * (1 + idx) <= ssi * 9)
                by (nonlinear_arith)
                requires
                    0 <= idx <= 7,
                    ssi >= 0,
            ;
        }
        ss + ss * (index.0 as u64)
    }

    /// The sector image to write at the given slot's offset so that the
    /// slot holds the given payload.
    pub fn set_sector_code(&self, _index: Index, code: &[u8]) -> (r: Result<Vec<u8>, CodecError>)
        requires
            self.sector_size.0.0 <= usize::MAX,
        ensures
            ({
                let ss = self.sector_size.0.0 as int;
                &&& ss < 4 ==> r == Err::<Vec<u8>, CodecError>(CodecError::SectorTooSmall)
                &&& ss >= 4 && code@.len() > ss - 4 ==> r == Err::<Vec<u8>, CodecError>(
                    CodecError::PayloadTooLong,
                )
                &&& ss >= 4 && code@.len() <= ss - 4 ==> {
                    &&& r matches Ok(b)
                    &&& b@ == code@ + Seq::new((ss - 4 - code@.len()) as nat, |i: int| 0u8)
                        + spec_u32_to_le_bytes(VALID_SIGNATURE)
                    &&& b@.len() == ss
                }
            }),
    {
        let slot = match ExtendedBootCode::new(code, self.sector_size) {
            Ok(slot) => slot,
            Err(e) => {
                return Err(e);
            }
        };
        let bytes = slot.encode();
        assert(bytes@ =~= code@ + Seq::new(
            (self.sector_size.0.0 - 4 - code@.len()) as nat,
            |i: int| 0u8,
        ) + spec_u32_to_le_bytes(VALID_SIGNATURE));
        Ok(bytes)
    }

    /// Reads one slot back from the sector image found at its offset.
    pub fn load_sector(&self, sector: &[u8]) -> (r: Result<ExtendedBootCode, CodecError>)
        ensures
            spec_ebc_decode(sector@, self.sector_size.0.0 as int, r),
    {
        ExtendedBootCode::decode(sector, self.sector_size)
    }
}

} // verus!
