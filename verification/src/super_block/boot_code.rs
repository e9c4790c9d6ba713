//! The boot-strap payload carried inside the geometry record.

use vstd::prelude::*;
use vstd::slice::slice_to_vec;

verus! {

/// The 390-byte boot-strap payload and its trailing 16-bit signature, as
/// laid out at offsets 120 through 511 of the geometry record. A format
/// operation that supplies no instructions fills the payload with 0xF4, the
/// halt instruction of CPUs common in personal computers.
#[derive(Clone, Debug, PartialEq, Eq)]
pub struct BootCode(pub Vec<u8>, pub u16);

impl BootCode {
    /// The payload always spans 390 bytes and the signature is 0xAA55.
    pub open spec fn wf(&self) -> bool {
        &&& self.0@.len() == 390
        &&& self.1 == 0xAA55
    }

    /// Builds a payload from the given instructions, padded with halt
    /// instructions up to the fixed payload size.
    pub fn new(boot_code: &[u8]) -> (r: Self)
        requires
            boot_code@.len() <= 390,
        ensures
            r.wf(),
            r.0@ == boot_code@ + Seq::new((390 - boot_code@.len()) as nat, |i: int| 0xF4u8),
    {
        let mut code: Vec<u8> = slice_to_vec(boot_code);
        while code.len() < 390
            invariant
                boot_code@.len() <= code@.len() <= 390,
                code@ == boot_code@ + Seq::new(
                    (code@.len() - boot_code@.len()) as nat,
                    |i: int| 0xF4u8,
                ),
            decreases 390 - code@.len(),
        {
            code.push(0xF4u8);
            assert(code@ =~= boot_code@ + Seq::new(
                (code@.len() - boot_code@.len()) as nat,
                |i: int| 0xF4u8,
            ));
        }
        assert(code@ =~= boot_code@ + Seq::new((390 - boot_code@.len()) as nat, |i: int| 0xF4u8));
        BootCode(code, 0xAA55)
    }
}

impl Default for BootCode {
    /// A payload of nothing but halt instructions, with the valid signature.
    fn default() -> (r: Self)
        ensures
            r.wf(),
            r.0@ == Seq::new(390, |i: int| 0xF4u8),
    {
        let r = BootCode::new(&[]);
        assert(r.0@ =~= Seq::new(390, |i: int| 0xF4u8));
        r
    }
}

} // verus!
