//! The 16-bit status bitfield of the geometry record.

use vstd::prelude::*;

verus! {

/// Status flags for the volume's file-system structures. The field is
/// excluded from the boot-region checksum so that it can change without
/// invalidating the rest of the region.
#[derive(Clone, Copy, Debug, PartialEq, Eq, Structural)]
pub struct VolumeFlags {
    /// The raw bitfield as persisted at offset 106 of the record.
    pub flags: u16,
}

impl VolumeFlags {
    /// Set when the second FAT and second allocation bitmap are the active
    /// pair; clear when the first pair is active.
    pub const ACTIVE_FAT: u16 = 0b10000000;

    /// Set when the volume is probably in an inconsistent state.
    pub const VOLUME_DIRTY: u16 = 0b01000000;

    /// Set when the hosting media has reported failed reads or writes that
    /// are not yet recorded as bad clusters.
    pub const MEDIA_FAILURE: u16 = 0b00100000;

    /// Set when implementations shall clear this field to zero before
    /// modifying any file-system structure.
    pub const CLEAR_TO_ZERO: u16 = 0b00010000;

    /// Turns a single flag bit on or off, leaving all other bits unchanged.
    fn set_flag(&mut self, flag: u16, on: bool)
        ensures
            final(self).flags == if on {
                old(self).flags | flag
            } else {
                old(self).flags & !flag
            },
    {
        if on {
            self.flags = self.flags | flag;
        } else {
            self.flags = self.flags & !flag;
        }
    }

    /// Records which FAT and allocation bitmap pair is active.
    pub fn set_active_fat(&mut self, second_active: bool)
        ensures
            final(self).flags == if second_active {
                old(self).flags | VolumeFlags::ACTIVE_FAT
            } else {
                old(self).flags & !VolumeFlags::ACTIVE_FAT
            },
    {
        self.set_flag(Self::ACTIVE_FAT, second_active);
    }

    /// Records whether the volume is probably inconsistent.
    pub fn set_volume_dirty(&mut self, inconsistent: bool)
        ensures
            final(self).flags == if inconsistent {
                old(self).flags | VolumeFlags::VOLUME_DIRTY
            } else {
                old(self).flags & !VolumeFlags::VOLUME_DIRTY
            },
    {
        self.set_flag(Self::VOLUME_DIRTY, inconsistent);
    }

    /// Records whether the hosting media has reported failures.
    pub fn set_media_failure(&mut self, failed: bool)
        ensures
            final(self).flags == if failed {
                old(self).flags | VolumeFlags::MEDIA_FAILURE
            } else {
                old(self).flags & !VolumeFlags::MEDIA_FAILURE
            },
    {
        self.set_flag(Self::MEDIA_FAILURE, failed);
    }

    /// Records whether the field must be cleared before modifications.
    pub fn set_clear_to_zero(&mut self, clear_before_modification: bool)
        ensures
            final(self).flags == if clear_before_modification {
                old(self).flags | VolumeFlags::CLEAR_TO_ZERO
            } else {
                old(self).flags & !VolumeFlags::CLEAR_TO_ZERO
            },
    {
        self.set_flag(Self::CLEAR_TO_ZERO, clear_before_modification);
    }
}

impl Default for VolumeFlags {
    /// A freshly formatted volume starts with every flag clear.
    fn default() -> (r: Self)
        ensures
            r.flags == 0,
    {
        VolumeFlags { flags: 0 }
    }
}

} // verus!
