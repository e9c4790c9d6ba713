//! The flash-media parameter slot of the vendor sector.

use vstd::prelude::*;

verus! {

/// The identifier keying a flash parameter slot, in on-disk byte order:
/// the GUID 0A0C7E46-3399-4021-90C8-FA6D389C4BA2 with its leading three
/// groups little-endian.
pub open spec fn spec_flash_guid() -> Seq<u8> {
    seq![
        0x46u8,
        0x7Eu8,
        0x0Cu8,
        0x0Au8,
        0x99u8,
        0x33u8,
        0x21u8,
        0x40u8,
        0x90u8,
        0xC8u8,
        0xFAu8,
        0x6Du8,
        0x38u8,
        0x9Cu8,
        0x4Bu8,
        0xA2u8,
    ]
}

/// The flash parameter identifier as stored on disk.
pub fn flash_guid() -> (r: [u8; 16])
    ensures
        r@ == spec_flash_guid(),
{
    let r = [
        0x46u8,
        0x7Eu8,
        0x0Cu8,
        0x0Au8,
        0x99u8,
        0x33u8,
        0x21u8,
        0x40u8,
        0x90u8,
        0xC8u8,
        0xFAu8,
        0x6Du8,
        0x38u8,
        0x9Cu8,
        0x4Bu8,
        0xA2u8,
    ];
    proof {
        assert(r@ =~= spec_flash_guid());
    }
    r
}

/// Characteristics of the flash media hosting the volume, as carried in
/// its parameter slot. All durations are in nanoseconds, all sizes in
/// bytes.
#[derive(Clone, Copy, Debug, PartialEq, Eq, Structural)]
pub struct FlashParameter {
    /// Size of the flash media's erase block.
    pub erase_block_size: u32,
    /// Size of the flash media's page.
    pub page_size: u32,
    /// Sectors the media keeps available for internal sparing.
    pub spare_sectors: u32,
    /// Average random access time.
    pub random_access_time: u32,
    /// Average programming time.
    pub programming_time: u32,
    /// Average read cycle time.
    pub read_cycle: u32,
    /// Average write cycle time.
    pub write_cycle: u32,
}

/// The caller-facing bundle of flash characteristics used to build a
/// [`FlashParameter`].
#[derive(Clone, Copy, Debug, PartialEq, Eq, Structural)]
pub struct FlashOptions {
    /// Size of the flash media's erase block.
    pub erase_block_size: u32,
    /// Size of the flash media's page.
    pub page_size: u32,
    /// Sectors the media keeps available for internal sparing.
    pub spare_sectors: u32,
    /// Average random access time.
    pub random_access_time: u32,
    /// Average programming time.
    pub programming_time: u32,
    /// Average read cycle time.
    pub read_cycle: u32,
    /// Average write cycle time.
    pub write_cycle: u32,
}

impl Default for FlashOptions {
    /// All characteristics left at zero.
    fn default() -> (r: Self)
        ensures
            r.erase_block_size == 0,
            r.page_size == 0,
            r.spare_sectors == 0,
            r.random_access_time == 0,
            r.programming_time == 0,
            r.read_cycle == 0,
            r.write_cycle == 0,
    {
        FlashOptions {
            erase_block_size: 0,
            page_size: 0,
            spare_sectors: 0,
            random_access_time: 0,
            programming_time: 0,
            read_cycle: 0,
            write_cycle: 0,
        }
    }
}

impl FlashParameter {
    /// Builds the parameter slot value from the given characteristics.
    pub fn new(options: FlashOptions) -> (r: FlashParameter)
        ensures
            r.erase_block_size == options.erase_block_size,
            r.page_size == options.page_size,
            r.spare_sectors == options.spare_sectors,
            r.random_access_time == options.random_access_time,
            r.programming_time == options.programming_time,
            r.read_cycle == options.read_cycle,
            r.write_cycle == options.write_cycle,
    {
        FlashParameter {
            erase_block_size: options.erase_block_size,
            page_size: options.page_size,
            spare_sectors: options.spare_sectors,
            random_access_time: options.random_access_time,
            programming_time: options.programming_time,
            read_cycle: options.read_cycle,
            write_cycle: options.write_cycle,
        }
    }
}

} // verus!
