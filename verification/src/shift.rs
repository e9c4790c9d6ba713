//! Power-of-two quantities and their on-disk "shift" form.
//!
//! Geometry parameters that are always exact powers of two (bytes per sector,
//! sectors per cluster) are stored on disk as their base-2 exponent to save
//! space. [`Shifted`] holds such an exponent and [`Unshifted`] the magnitude
//! `2^exponent`; [`ShiftedBytes`] / [`BytesPerSector`] and [`ShiftedSectors`]
//! / [`SectorsPerCluster`] are the two concrete pairs used by the geometry
//! record.

use vstd::arithmetic::power2::{
    lemma2_to64, lemma2_to64_rest, lemma_pow2_adds, lemma_pow2_pos, lemma_pow2_strictly_increases,
    pow2,
};
use vstd::bits::lemma_u64_shl_is_mul;
use vstd::prelude::*;

verus! {

/// Error returned when an exponent is requested for a magnitude that is not
/// an exact power of two. This signals a usage error by the caller, not
/// corruption of on-disk data.
#[derive(Clone, Copy, Debug, PartialEq, Eq, Structural)]
pub struct InvalidMagnitude;

/// A power-of-two magnitude in its on-disk form: the base-2 exponent.
#[derive(Clone, Copy, Debug, Default, PartialEq, Eq, Structural)]
pub struct Shifted(pub u8);

/// A power-of-two magnitude in its in-memory form: the magnitude itself.
#[derive(Clone, Copy, Debug, PartialEq, Eq, Structural)]
pub struct Unshifted(pub u64);

/// True when `n` is a power of two representable in the magnitude type,
/// that is, `n == 2^e` for some exponent `e` below the width of `u64`.
pub open spec fn is_power_of_two(n: int) -> bool {
    exists|e: nat| e < 64 && n == pow2(e)
}

/// The exponent of a power of two: the unique `e` with `2^e == m`.
pub open spec fn spec_shift(m: int) -> nat {
    choose|e: nat| e < 64 && m == pow2(e)
}

/// A power of two with exponent below 64 fits in a `u64`.
proof fn lemma_pow2_fits_word(e: nat)
    requires
        e < 64,
    ensures
        pow2(e) <= 0x8000_0000_0000_0000,
{
    if e < 63 {
        lemma_pow2_strictly_increases(e, 63);
    }
    lemma2_to64_rest();
}

/// An odd number greater than one times a power of two is never itself a
/// power of two.
proof fn lemma_odd_multiple_not_pow2(v: nat, e: nat, k: nat)
    requires
        v % 2 == 1,
        v > 1,
    ensures
        v * pow2(e) != pow2(k),
    decreases e,
{
    lemma_pow2_pos(e);
    lemma_pow2_pos(k);
    if e == 0 {
        lemma2_to64();
        if k > 0 {
            lemma_pow2_adds((k - 1) as nat, 1);
            // pow2(k) is even while v is odd, so they differ.
            assert(pow2(k) == pow2((k - 1) as nat) * 2);
        }
    } else {
        lemma_pow2_adds((e - 1) as nat, 1);
        lemma2_to64();
        assert(v * pow2(e) == (v * pow2((e - 1) as nat)) * 2) by (nonlinear_arith)
            requires
                pow2(e) == pow2((e - 1) as nat) * 2,
        ;
        if k == 0 {
            lemma_pow2_pos((e - 1) as nat);
            assert(v * pow2((e - 1) as nat) >= 1) by (nonlinear_arith)
                requires
                    v >= 1,
                    pow2((e - 1) as nat) >= 1,
            ;
        } else {
            lemma_pow2_adds((k - 1) as nat, 1);
            lemma_odd_multiple_not_pow2(v, (e - 1) as nat, (k - 1) as nat);
            assert(v * pow2(e) != pow2(k)) by (nonlinear_arith)
                requires
                    v * pow2(e) == (v * pow2((e - 1) as nat)) * 2,
                    pow2(k) == pow2((k - 1) as nat) * 2,
                    v * pow2((e - 1) as nat) != pow2((k - 1) as nat),
            ;
        }
    }
}

/// Law: for every power of two `m` representable in the magnitude type
/// (that is, `1 <= m <= 2^63`), taking its shift and unshifting the result
/// yields exactly `m` again.
pub proof fn lemma_unshift_inverts_shift(m: u64)
    requires
        is_power_of_two(m as int),
    ensures
        spec_shift(m as int) < 64,
        pow2(spec_shift(m as int)) == m,
{
    let e = choose|e: nat| e < 64 && m as int == pow2(e);
    assert(spec_shift(m as int) < 64 && m as int == pow2(spec_shift(m as int)));
}

impl Shifted {
    /// The magnitude `2^exponent` this on-disk exponent denotes.
    pub fn unshift(&self) -> (r: Unshifted)
        requires
            self.0 < 64,
        ensures
            r.0 == pow2(self.0 as nat),
    {
        proof {
            lemma_pow2_fits_word(self.0 as nat);
            lemma_u64_shl_is_mul(1u64, self.0 as u64);
        }
        Unshifted(1u64 << (self.0 as u64))
    }
}

impl Unshifted {
    /// The on-disk exponent of this magnitude. Fails with
    /// [`InvalidMagnitude`] exactly when the magnitude is not a power of two.
    pub fn shift(&self) -> (r: Result<Shifted, InvalidMagnitude>)
        ensures
            match r {
                Ok(s) => s.0 < 64 && self.0 == pow2(s.0 as nat),
                Err(_) => !is_power_of_two(self.0 as int),
            },
            r is Ok <==> is_power_of_two(self.0 as int),
    {
        if self.0 == 0 {
            proof {
                assert forall|e: nat| e < 64 implies 0int != pow2(e) by {
                    lemma_pow2_pos(e);
                }
            }
            return Err(InvalidMagnitude);
        }
        let mut v: u64 = self.0;
        let mut e: u8 = 0;
        proof {
            lemma2_to64();
        }
        while v % 2 == 0
            invariant
                1 <= v,
                e < 64,
                self.0 == v * pow2(e as nat),
            decreases v,
        {
            proof {
                lemma_pow2_adds(e as nat, 1);
                lemma2_to64();
                assert(self.0 == (v / 2) * pow2((e + 1) as nat)) by (nonlinear_arith)
                    requires
                        v % 2 == 0,
                        v >= 1,
                        self.0 == v * pow2(e as nat),
                        pow2((e + 1) as nat) == pow2(e as nat) * 2,
                ;
                // The exponent stays below the word width because the product
                // still fits in `u64`.
                lemma_pow2_pos((e + 1) as nat);
                assert(pow2((e + 1) as nat) <= (v / 2) * pow2((e + 1) as nat)) by (nonlinear_arith)
                    requires
                        v / 2 >= 1,
                        pow2((e + 1) as nat) >= 1,
                ;
                if e + 1 >= 64 {
                    lemma2_to64_rest();
                    if e + 1 > 64 {
                        lemma_pow2_strictly_increases(64, (e + 1) as nat);
                    }
                }
            }
            v = v / 2;
            e = e + 1;
        }
        if v == 1 {
            assert(self.0 == pow2(e as nat));
            Ok(Shifted(e))
        } else {
            proof {
                assert forall|k: nat| k < 64 implies self.0 as int != pow2(k) by {
                    lemma_odd_multiple_not_pow2(v as nat, e as nat, k);
                }
            }
            Err(InvalidMagnitude)
        }
    }
}

/// The bytes-per-sector exponent as persisted to disk.
#[derive(Clone, Copy, Debug, Default, PartialEq, Eq, Structural)]
pub struct ShiftedBytes(pub Shifted);

/// The sectors-per-cluster exponent as persisted to disk.
#[derive(Clone, Copy, Debug, Default, PartialEq, Eq, Structural)]
pub struct ShiftedSectors(pub Shifted);

/// The number of sectors in one cluster, in magnitude form.
#[derive(Clone, Copy, Debug, PartialEq, Eq, Structural)]
pub struct SectorsPerCluster(pub Unshifted);

/// The number of bytes in one sector, in magnitude form.
#[derive(Clone, Copy, Debug, PartialEq, Eq, Structural)]
pub struct BytesPerSector(pub Unshifted);

impl ShiftedBytes {
    /// The sector size in bytes denoted by this exponent.
    pub fn unshift(&self) -> (r: BytesPerSector)
        requires
            self.0.0 < 64,
        ensures
            r.0.0 == pow2(self.0.0 as nat),
    {
        BytesPerSector(self.0.unshift())
    }

    /// Wraps a raw exponent read from disk.
    pub fn new(shifted_bytes: u8) -> (r: Self)
        ensures
            r.0.0 == shifted_bytes,
    {
        ShiftedBytes(Shifted(shifted_bytes))
    }

    /// The raw exponent value.
    pub fn inner(&self) -> (r: u8)
        ensures
            r == self.0.0,
    {
        self.0.0
    }
}

impl ShiftedSectors {
    /// The cluster size in sectors denoted by this exponent.
    pub fn unshift(&self) -> (r: SectorsPerCluster)
        requires
            self.0.0 < 64,
        ensures
            r.0.0 == pow2(self.0.0 as nat),
    {
        SectorsPerCluster(self.0.unshift())
    }

    /// Wraps a raw exponent read from disk.
    pub fn new(shifted_sectors: u8) -> (r: Self)
        ensures
            r.0.0 == shifted_sectors,
    {
        ShiftedSectors(Shifted(shifted_sectors))
    }

    /// The raw exponent value.
    pub fn inner(&self) -> (r: u8)
        ensures
            r == self.0.0,
    {
        self.0.0
    }
}

impl BytesPerSector {
    /// The on-disk exponent of this sector size; fails when the size is not
    /// a power of two.
    pub fn shift(&self) -> (r: Result<ShiftedBytes, InvalidMagnitude>)
        ensures
            match r {
                Ok(s) => s.0.0 < 64 && self.0.0 == pow2(s.0.0 as nat),
                Err(_) => !is_power_of_two(self.0.0 as int),
            },
            r is Ok <==> is_power_of_two(self.0.0 as int),
    {
        match self.0.shift() {
            Ok(s) => Ok(ShiftedBytes(s)),
            Err(e) => Err(e),
        }
    }

    /// Wraps a sector size given in bytes.
    pub fn new(bytes: u64) -> (r: Self)
        ensures
            r.0.0 == bytes,
    {
        BytesPerSector(Unshifted(bytes))
    }
}

impl SectorsPerCluster {
    /// The on-disk exponent of this cluster size; fails when the size is not
    /// a power of two.
    pub fn shift(&self) -> (r: Result<ShiftedSectors, InvalidMagnitude>)
        ensures
            match r {
                Ok(s) => s.0.0 < 64 && self.0.0 == pow2(s.0.0 as nat),
                Err(_) => !is_power_of_two(self.0.0 as int),
            },
            r is Ok <==> is_power_of_two(self.0.0 as int),
    {
        match self.0.shift() {
            Ok(s) => Ok(ShiftedSectors(s)),
            Err(e) => Err(e),
        }
    }
}

} // verus!
