//! Construction and validation of the boot metadata region of an exFAT-style
//! volume: the twelve leading sectors that record volume geometry, carry
//! boot-strap payloads, and protect themselves with a rolling checksum.
//!
//! The crate is organised around the on-disk layout:
//!
//! - [`shift`] converts between power-of-two magnitudes and the base-2
//!   exponent ("shift") form stored on disk.
//! - [`super_block`] holds the canonical 512-byte geometry record, its
//!   builder, its bounds validator, and its byte codec.
//! - [`oem`] models the vendor parameter sector as a tagged-union envelope
//!   keyed by a 128-bit identifier.
//! - [`boot_region`] assembles the twelve-sector region, including the
//!   checksum engine and the checksum sector codec.
//! - [`filesystem`] groups the main and backup copies of the region's
//!   geometry record.

use vstd::prelude::*;

pub mod boot_region;
pub mod errors;
pub mod filesystem;
pub mod oem;
pub mod shift;
pub mod super_block;
