//! The pair of boot regions a volume carries.

use vstd::prelude::*;

use crate::oem::Oem;
use crate::super_block::SuperBlock;

verus! {

/// The geometry records of the main and backup boot regions together with
/// the vendor parameters they share. The backup record is a full copy of
/// the main one with only the boot-strap payload replaced.
#[derive(Clone, Debug, PartialEq, Eq)]
pub struct FileSystem {
    /// The geometry record of the main boot region.
    pub main_boot_sector: SuperBlock,
    /// The geometry record of the backup boot region.
    pub backup_boot_sector: SuperBlock,
    /// The vendor parameter slots.
    pub oem_parameters: Oem,
}

} // verus!
