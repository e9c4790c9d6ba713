//! The 53-byte reserved run that follows the file-system name on disk.

use vstd::prelude::*;

verus! {

/// The bytes at offsets 11 through 63 of the geometry record. The format
/// requires them to be zero on a freshly formatted volume; the decoder keeps
/// whatever it read so that re-encoding reproduces the sector bit for bit.
#[derive(Clone, Debug, PartialEq, Eq)]
pub struct MustBeZero(pub Vec<u8>);

impl MustBeZero {
    /// The run always spans exactly 53 bytes.
    pub open spec fn wf(&self) -> bool {
        self.0@.len() == 53
    }
}

impl Default for MustBeZero {
    /// The canonical all-zero run written by a format operation.
    fn default() -> (r: Self)
        ensures
            r.wf(),
            r.0@ == Seq::new(53, |i: int| 0u8),
    {
        let mut bytes: Vec<u8> = Vec::new();
        while bytes.len() < 53
            invariant
                bytes@ =~= Seq::new(bytes@.len(), |i: int| 0u8),
                bytes@.len() <= 53,
            decreases 53 - bytes@.len(),
        {
            bytes.push(0u8);
        }
        assert(bytes@ =~= Seq::new(53, |i: int| 0u8));
        MustBeZero(bytes)
    }
}

} // verus!
