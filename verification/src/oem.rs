//! The vendor (OEM) parameters sector.
//!
//! Sector 9 of the boot region carries ten fixed-size parameter slots.
//! Each slot is an envelope of a 16-byte identifier followed by a 32-byte
//! payload; the payloads themselves are vendor-specific and opaque to this
//! crate, except for the flash-media slot whose fields are public.

pub mod flash;

use vstd::bytes::{
    lemma_auto_spec_u32_to_from_le_bytes, spec_u32_from_le_bytes, spec_u32_to_le_bytes,
    u32_from_le_bytes, u32_to_le_bytes,
};
use vstd::prelude::*;
use vstd::slice::slice_subrange;

use crate::errors::CodecError;
use crate::super_block::codec::push_bytes;

use self::flash::{flash_guid, spec_flash_guid, FlashParameter};

verus! {

/// A parameter slot whose identifier this crate does not interpret: the
/// raw envelope of identifier and payload.
#[derive(Clone, Copy, Debug, PartialEq, Eq)]
pub struct UnknownParameter {
    /// The 16-byte identifier keying the slot, in on-disk byte order.
    pub guid: [u8; 16],
    /// The 32 payload bytes of the slot.
    pub custom_defined: [u8; 32],
}

impl UnknownParameter {
    /// Wraps a raw identifier and payload.
    pub fn new(guid: [u8; 16], custom_defined: [u8; 32]) -> (r: Self)
        ensures
            r.guid == guid,
            r.custom_defined == custom_defined,
    {
        UnknownParameter { guid, custom_defined }
    }

    /// The slot's identifier.
    pub fn guid(&self) -> (r: [u8; 16])
        ensures
            r == self.guid,
    {
        self.guid
    }

    /// The slot's payload bytes.
    pub fn custom_defined(&self) -> (r: [u8; 32])
        ensures
            r == self.custom_defined,
    {
        self.custom_defined
    }
}

/// One of the ten parameter slots: empty, the flash-media parameters, or
/// an envelope this crate does not interpret.
#[derive(Clone, Copy, Debug, PartialEq, Eq)]
pub enum Parameter {
    /// An empty slot: identifier and payload all zero.
    Null,
    /// The flash-media parameter slot.
    Flash(FlashParameter),
    /// A slot carried through without interpretation.
    Unknown(UnknownParameter),
}

/// The 48-byte on-disk image of one slot: its identifier followed by its
/// payload, with the flash payload's seven words little-endian and padded
/// with four zero bytes.
pub open spec fn spec_parameter_bytes(p: Parameter) -> Seq<u8> {
    match p {
        Parameter::Null => Seq::new(48, |i: int| 0u8),
        Parameter::Flash(f) => spec_flash_guid() + spec_u32_to_le_bytes(f.erase_block_size)
            + spec_u32_to_le_bytes(f.page_size) + spec_u32_to_le_bytes(f.spare_sectors)
            + spec_u32_to_le_bytes(f.random_access_time) + spec_u32_to_le_bytes(
            f.programming_time,
        ) + spec_u32_to_le_bytes(f.read_cycle) + spec_u32_to_le_bytes(f.write_cycle) + Seq::new(
            4,
            |i: int| 0u8,
        ),
        Parameter::Unknown(u) => u.guid@ + u.custom_defined@,
    }
}

/// Every slot image spans exactly 48 bytes.
pub proof fn lemma_parameter_bytes_len(p: Parameter)
    ensures
        spec_parameter_bytes(p).len() == 48,
{
    lemma_auto_spec_u32_to_from_le_bytes();
}

/// The images of the first `n` slots, one after the other.
pub open spec fn spec_slots_bytes(params: Seq<Parameter>, n: int) -> Seq<u8>
    decreases n,
{
    if n <= 0 {
        Seq::empty()
    } else {
        spec_slots_bytes(params, n - 1) + spec_parameter_bytes(params[n - 1])
    }
}

proof fn lemma_slots_bytes_len(params: Seq<Parameter>, n: int)
    requires
        n >= 0,
    ensures
        spec_slots_bytes(params, n).len() == 48 * n,
    decreases n,
{
    if n > 0 {
        lemma_slots_bytes_len(params, n - 1);
        lemma_parameter_bytes_len(params[n - 1]);
    }
}

/// The vendor sector's image: the ten slots followed by zero fill out to
/// the sector size.
pub open spec fn spec_oem_bytes(oem: Oem, sector_size: int) -> Seq<u8> {
    spec_slots_bytes(oem.parameters@, 10) + Seq::new((sector_size - 480) as nat, |i: int| 0u8)
}

impl Parameter {
    /// The 48-byte image of this slot.
    pub fn encode(&self) -> (r: Vec<u8>)
        ensures
            r@ == spec_parameter_bytes(*self),
    {
        let mut out: Vec<u8> = Vec::new();
        match self {
            Parameter::Null => {
                while out.len() < 48
                    invariant
                        out@ =~= Seq::new(out@.len(), |i: int| 0u8),
                        out@.len() <= 48,
                    decreases 48 - out@.len(),
                {
                    out.push(0u8);
                }
                assert(out@ =~= Seq::new(48, |i: int| 0u8));
            }
            Parameter::Flash(f) => {
                let guid = flash_guid();
                push_bytes(&mut out, guid.as_slice());
                let mut w = u32_to_le_bytes(f.erase_block_size);
                out.append(&mut w);
                let mut w = u32_to_le_bytes(f.page_size);
                out.append(&mut w);
                let mut w = u32_to_le_bytes(f.spare_sectors);
                out.append(&mut w);
                let mut w = u32_to_le_bytes(f.random_access_time);
                out.append(&mut w);
                let mut w = u32_to_le_bytes(f.programming_time);
                out.append(&mut w);
                let mut w = u32_to_le_bytes(f.read_cycle);
                out.append(&mut w);
                let mut w = u32_to_le_bytes(f.write_cycle);
                out.append(&mut w);
                out.push(0u8);
                out.push(0u8);
                out.push(0u8);
                out.push(0u8);
                proof {
                    assert(out@ =~= spec_parameter_bytes(*self));
                }
            }
            Parameter::Unknown(u) => {
                push_bytes(&mut out, u.guid.as_slice());
                push_bytes(&mut out, u.custom_defined.as_slice());
            }
        }
        out
    }
}

/// The ten parameter slots of the vendor sector.
#[derive(Clone, Debug, PartialEq, Eq)]
pub struct Oem {
    /// The slots, in on-disk order; always exactly ten.
    pub parameters: Vec<Parameter>,
}

impl Oem {
    /// There are always exactly ten slots.
    pub open spec fn wf(&self) -> bool {
        self.parameters@.len() == 10
    }

    /// A sector with all ten slots empty.
    pub fn new() -> (r: Self)
        ensures
            r.wf(),
            forall|i: int| 0 <= i < 10 ==> r.parameters@[i] == Parameter::Null,
    {
        let mut parameters: Vec<Parameter> = Vec::new();
        while parameters.len() < 10
            invariant
                parameters@.len() <= 10,
                forall|i: int| 0 <= i < parameters@.len() ==> parameters@[i] == Parameter::Null,
            decreases 10 - parameters@.len(),
        {
            parameters.push(Parameter::Null);
        }
        Oem { parameters }
    }

    /// Replaces the slot at `index`, leaving the other nine unchanged.
    pub fn insert(&mut self, param: Parameter, index: usize)
        requires
            old(self).wf(),
            index < 10,
        ensures
            final(self).wf(),
            final(self).parameters@ == old(self).parameters@.update(index as int, param),
    {
        let _ = self.parameters.remove(index);
        self.parameters.insert(index, param);
        proof {
            assert(self.parameters@ =~= old(self).parameters@.update(index as int, param));
        }
    }

    /// The sector image: the ten slot images in order, zero-padded out to
    /// the sector size.
    pub fn encode(&self, sector_size: usize) -> (r: Vec<u8>)
        requires
            self.wf(),
            sector_size >= 480,
        ensures
            r@ == spec_oem_bytes(*self, sector_size as int),
            r@.len() == sector_size,
    {
        let mut out: Vec<u8> = Vec::new();
        let mut k: usize = 0;
        while k < 10
            invariant
                self.wf(),
                k <= 10,
                out@ == spec_slots_bytes(self.parameters@, k as int),
                out@.len() == 48 * k,
            decreases 10 - k,
        {
            let mut slot = self.parameters[k].encode();
            proof {
                lemma_parameter_bytes_len(self.parameters@[k as int]);
            }
            out.append(&mut slot);
            k = k + 1;
        }
        proof {
            lemma_slots_bytes_len(self.parameters@, 10);
        }
        while out.len() < sector_size
            invariant
                480 <= out@.len() <= sector_size,
                out@ =~= spec_slots_bytes(self.parameters@, 10) + Seq::new(
                    (out@.len() - 480) as nat,
                    |i: int| 0u8,
                ),
            decreases sector_size - out@.len(),
        {
            out.push(0u8);
            assert(out@ =~= spec_slots_bytes(self.parameters@, 10) + Seq::new(
                (out@.len() - 480) as nat,
                |i: int| 0u8,
            ));
        }
        proof {
            assert(out@ =~= spec_oem_bytes(*self, sector_size as int));
        }
        out
    }
}

/// Whether two byte slices hold the same bytes.
fn bytes_eq(a: &[u8], b: &[u8]) -> (r: bool)
    ensures
        r == (a@ == b@),
{
    if a.len() != b.len() {
        return false;
    }
    let mut i: usize = 0;
    while i < a.len()
        invariant
            a@.len() == b@.len(),
            i <= a@.len(),
            forall|j: int| 0 <= j < i ==> a@[j] == b@[j],
        decreases a@.len() - i,
    {
        if a[i] != b[i] {
            return false;
        }
        i = i + 1;
    }
    proof {
        assert(a@ =~= b@);
    }
    true
}

/// Whether every byte of the slice is zero.
fn bytes_all_zero(a: &[u8]) -> (r: bool)
    ensures
        r == (a@ == Seq::new(a@.len(), |i: int| 0u8)),
{
    let mut i: usize = 0;
    while i < a.len()
        invariant
            i <= a@.len(),
            forall|j: int| 0 <= j < i ==> a@[j] == 0,
        decreases a@.len() - i,
    {
        if a[i] != 0 {
            return false;
        }
        i = i + 1;
    }
    proof {
        assert(a@ =~= Seq::new(a@.len(), |i: int| 0u8));
    }
    true
}

/// Relates a decoded slot to its 48-byte image: the flash identifier
/// yields the flash parameters, an all-zero identifier yields the empty
/// slot, and any other identifier is carried through as an uninterpreted
/// envelope.
pub open spec fn spec_parameter_decoded(p: Parameter, slot: Seq<u8>) -> bool {
    let guid = slot.subrange(0, 16);
    if guid == spec_flash_guid() {
        &&& p matches Parameter::Flash(f)
        &&& f.erase_block_size == spec_u32_from_le_bytes(slot.subrange(16, 20))
        &&& f.page_size == spec_u32_from_le_bytes(slot.subrange(20, 24))
        &&& f.spare_sectors == spec_u32_from_le_bytes(slot.subrange(24, 28))
        &&& f.random_access_time == spec_u32_from_le_bytes(slot.subrange(28, 32))
        &&& f.programming_time == spec_u32_from_le_bytes(slot.subrange(32, 36))
        &&& f.read_cycle == spec_u32_from_le_bytes(slot.subrange(36, 40))
        &&& f.write_cycle == spec_u32_from_le_bytes(slot.subrange(40, 44))
    } else if guid == Seq::new(16, |i: int| 0u8) {
        p == Parameter::Null
    } else {
        &&& p matches Parameter::Unknown(u)
        &&& u.guid@ == guid
        &&& u.custom_defined@ == slot.subrange(16, 48)
    }
}

impl Parameter {
    /// Reads one slot back from its 48-byte image.
    pub fn decode(slot: &[u8]) -> (r: Parameter)
        requires
            slot@.len() == 48,
        ensures
            spec_parameter_decoded(r, slot@),
    {
        let guid_bytes = slice_subrange(slot, 0, 16);
        let flash = flash_guid();
        if bytes_eq(guid_bytes, flash.as_slice()) {
            Parameter::Flash(
                FlashParameter {
                    erase_block_size: u32_from_le_bytes(slice_subrange(slot, 16, 20)),
                    page_size: u32_from_le_bytes(slice_subrange(slot, 20, 24)),
                    spare_sectors: u32_from_le_bytes(slice_subrange(slot, 24, 28)),
                    random_access_time: u32_from_le_bytes(slice_subrange(slot, 28, 32)),
                    programming_time: u32_from_le_bytes(slice_subrange(slot, 32, 36)),
                    read_cycle: u32_from_le_bytes(slice_subrange(slot, 36, 40)),
                    write_cycle: u32_from_le_bytes(slice_subrange(slot, 40, 44)),
                },
            )
        } else if bytes_all_zero(guid_bytes) {
            Parameter::Null
        } else {
            let guid = [
                slot[0],
                slot[1],
                slot[2],
                slot[3],
                slot[4],
                slot[5],
                slot[6],
                slot[7],
                slot[8],
                slot[9],
                slot[10],
                slot[11],
                slot[12],
                slot[13],
                slot[14],
                slot[15],
            ];
            let custom_defined = [
                slot[16],
                slot[17],
                slot[18],
                slot[19],
                slot[20],
                slot[21],
                slot[22],
                slot[23],
                slot[24],
                slot[25],
                slot[26],
                slot[27],
                slot[28],
                slot[29],
                slot[30],
                slot[31],
                slot[32],
                slot[33],
                slot[34],
                slot[35],
                slot[36],
                slot[37],
                slot[38],
                slot[39],
                slot[40],
                slot[41],
                slot[42],
                slot[43],
                slot[44],
                slot[45],
                slot[46],
                slot[47],
            ];
            proof {
                assert(guid@ =~= slot@.subrange(0, 16));
                assert(custom_defined@ =~= slot@.subrange(16, 48));
            }
            Parameter::Unknown(UnknownParameter { guid, custom_defined })
        }
    }
}

impl Oem {
    /// Reads the ten slots back from the leading 480 bytes of the vendor
    /// sector's image; the zero fill past them carries no information.
    pub fn decode(bytes: &[u8]) -> (r: Result<Oem, CodecError>)
        ensures
            bytes@.len() < 480 ==> r == Err::<Oem, CodecError>(CodecError::TruncatedInput),
            bytes@.len() >= 480 ==> {
                &&& r matches Ok(oem)
                &&& oem.wf()
                &&& forall|k: int|
                    0 <= k < 10 ==> spec_parameter_decoded(
                        #[trigger] oem.parameters@[k],
                        bytes@.subrange(48 * k, 48 * k + 48),
                    )
            },
    {
        if bytes.len() < 480 {
            return Err(CodecError::TruncatedInput);
        }
        let mut parameters: Vec<Parameter> = Vec::new();
        let mut k: usize = 0;
        while k < 10
            invariant
                k <= 10,
                parameters@.len() == k,
                bytes@.len() >= 480,
                forall|i: int|
                    0 <= i < k ==> spec_parameter_decoded(
                        #[trigger] parameters@[i],
                        bytes@.subrange(48 * i, 48 * i + 48),
                    ),
            decreases 10 - k,
        {
            let slot = slice_subrange(bytes, 48 * k, 48 * k + 48);
            parameters.push(Parameter::decode(slot));
            k = k + 1;
        }
        Ok(Oem { parameters })
    }
}

} // verus!
