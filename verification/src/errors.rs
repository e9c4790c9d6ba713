//! Errors raised while encoding or decoding on-disk structures.

use vstd::prelude::*;

verus! {

/// A failure detected while turning an on-disk structure into bytes or
/// bytes back into a structure. These are always surfaced to the caller and
/// never retried internally: a corrupt read cannot be repaired at this
/// layer.
#[derive(Clone, Copy, Debug, PartialEq, Eq, Structural)]
pub enum CodecError {
    /// Fewer input bytes were available than the structure needs.
    TruncatedInput,
    /// A boot-sector signature held something other than its one valid value.
    CorruptSignature,
    /// The repetitions filling the checksum sector did not all agree.
    InconsistentChecksum,
    /// A boot-strap payload was longer than its sector can hold.
    PayloadTooLong,
    /// A sector too small to hold even the trailing signature.
    SectorTooSmall,
    /// The checksum recomputed over the region disagreed with the stored one.
    ChecksumMismatch,
}

} // verus!
