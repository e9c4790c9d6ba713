//! The boot-strap payload filling each of sectors 1 through 8.

use vstd::bytes::{
    lemma_auto_spec_u32_to_from_le_bytes, spec_u32_from_le_bytes, spec_u32_to_le_bytes,
    u32_from_le_bytes, u32_to_le_bytes,
};
use vstd::prelude::*;
use vstd::slice::{slice_subrange, slice_to_vec};

use crate::errors::CodecError;
use crate::shift::BytesPerSector;

verus! {

/// The only signature value that marks an extended boot sector as valid.
pub const VALID_SIGNATURE: u32 = 0xAA550000;

/// One extended boot sector: a boot-strap payload of `sector_size - 4`
/// bytes followed by a 32-bit signature. The payload length is not recorded
/// on disk, so decoding needs the sector size as outside context.
#[derive(Clone, Debug, PartialEq, Eq)]
pub struct ExtendedBootCode {
    /// Boot-strap instructions, zero-filled when none are provided.
    pub code: Vec<u8>,
    /// The trailing signature; only [`VALID_SIGNATURE`] is accepted.
    pub signature: u32,
}

/// The payload spans the whole sector except the trailing signature.
pub open spec fn spec_ebc_wf(c: ExtendedBootCode, sector_size: int) -> bool {
    c.code@.len() == sector_size - 4
}

/// The on-disk image of one extended boot sector: the payload bytes
/// followed by the little-endian signature.
pub open spec fn spec_ebc_bytes(c: ExtendedBootCode) -> Seq<u8> {
    c.code@ + spec_u32_to_le_bytes(c.signature)
}

/// What constructing an extended boot sector from a payload returns: the
/// payload zero-padded to `sector_size - 4` bytes with the valid signature,
/// or the error singling out which requirement failed.
pub open spec fn spec_ebc_new(
    code: Seq<u8>,
    sector_size: int,
    r: Result<ExtendedBootCode, CodecError>,
) -> bool {
    &&& sector_size < 4 ==> r == Err::<ExtendedBootCode, CodecError>(CodecError::SectorTooSmall)
    &&& sector_size >= 4 && code.len() > sector_size - 4 ==> r == Err::<
        ExtendedBootCode,
        CodecError,
    >(CodecError::PayloadTooLong)
    &&& sector_size >= 4 && code.len() <= sector_size - 4 ==> {
        &&& r matches Ok(c)
        &&& c.code@ == code + Seq::new((sector_size - 4 - code.len()) as nat, |i: int| 0u8)
        &&& c.signature == VALID_SIGNATURE
    }
}

/// What decoding one extended boot sector returns. A signature other than
/// the valid one is rejected regardless of the payload content.
pub open spec fn spec_ebc_decode(
    bytes: Seq<u8>,
    sector_size: int,
    r: Result<ExtendedBootCode, CodecError>,
) -> bool {
    &&& sector_size < 4 ==> r == Err::<ExtendedBootCode, CodecError>(CodecError::SectorTooSmall)
    &&& sector_size >= 4 && bytes.len() < sector_size ==> r == Err::<
        ExtendedBootCode,
        CodecError,
    >(CodecError::TruncatedInput)
    &&& sector_size >= 4 && bytes.len() >= sector_size ==> {
        let sig = spec_u32_from_le_bytes(bytes.subrange(sector_size - 4, sector_size));
        &&& sig != VALID_SIGNATURE ==> r == Err::<ExtendedBootCode, CodecError>(
            CodecError::CorruptSignature,
        )
        &&& sig == VALID_SIGNATURE ==> {
            &&& r matches Ok(c)
            &&& c.code@ == bytes.subrange(0, sector_size - 4)
            &&& c.signature == sig
        }
    }
}

impl ExtendedBootCode {
    /// Builds an extended boot sector from the given payload, zero-padded
    /// to fill the sector up to its trailing signature.
    pub fn new(boot_code: &[u8], sector_size: BytesPerSector) -> (r: Result<Self, CodecError>)
        requires
            sector_size.0.0 <= usize::MAX,
        ensures
            spec_ebc_new(boot_code@, sector_size.0.0 as int, r),
            r matches Ok(c) ==> spec_ebc_wf(c, sector_size.0.0 as int),
    {
        let ss = sector_size.0.0;
        if ss < 4 {
            return Err(CodecError::SectorTooSmall);
        }
        let cap: usize = (ss - 4) as usize;
        if boot_code.len() > cap {
            return Err(CodecError::PayloadTooLong);
        }
        let mut code: Vec<u8> = slice_to_vec(boot_code);
        while code.len() < cap
            invariant
                boot_code@.len() <= code@.len() <= cap,
                code@ == boot_code@ + Seq::new(
                    (code@.len() - boot_code@.len()) as nat,
                    |i: int| 0u8,
                ),
            decreases cap - code@.len(),
        {
            code.push(0u8);
            assert(code@ =~= boot_code@ + Seq::new(
                (code@.len() - boot_code@.len()) as nat,
                |i: int| 0u8,
            ));
        }
        Ok(ExtendedBootCode { code, signature: VALID_SIGNATURE })
    }

    /// The on-disk image of this sector: payload then signature.
    pub fn encode(&self) -> (r: Vec<u8>)
        requires
            self.code@.len() + 4 <= usize::MAX,
        ensures
            r@ == spec_ebc_bytes(*self),
            r@.len() == self.code@.len() + 4,
    {
        proof {
            lemma_auto_spec_u32_to_from_le_bytes();
        }
        let mut out: Vec<u8> = slice_to_vec(self.code.as_slice());
        let mut sig = u32_to_le_bytes(self.signature);
        out.append(&mut sig);
        out
    }

    /// Reads one extended boot sector back from its on-disk image. The
    /// sector size cannot be inferred from the bytes and must be supplied.
    pub fn decode(bytes: &[u8], sector_size: BytesPerSector) -> (r: Result<Self, CodecError>)
        ensures
            spec_ebc_decode(bytes@, sector_size.0.0 as int, r),
            r matches Ok(c) ==> spec_ebc_wf(c, sector_size.0.0 as int),
    {
        let ss = sector_size.0.0;
        if ss < 4 {
            return Err(CodecError::SectorTooSmall);
        }
        if (bytes.len() as u64) < ss {
            return Err(CodecError::TruncatedInput);
        }
        let ssu: usize = ss as usize;
        let sig_bytes = slice_subrange(bytes, ssu - 4, ssu);
        let signature = u32_from_le_bytes(sig_bytes);
        if signature != VALID_SIGNATURE {
            return Err(CodecError::CorruptSignature);
        }
        let code = slice_to_vec(slice_subrange(bytes, 0, ssu - 4));
        Ok(ExtendedBootCode { code, signature })
    }
}

} // verus!
