use exfat_boot::boot_region::checksum::compute;
use exfat_boot::boot_region::{BootRegion, OpenError};
use exfat_boot::errors::CodecError;
use exfat_boot::oem::Oem;
use exfat_boot::shift::ShiftedBytes;
use exfat_boot::super_block::boot_code::BootCode;

#[test]
fn test_format() {
    const DISK_SIZE: usize = 1usize << 25;
    let bytes_per_sector = ShiftedBytes::new(12).unshift();
    let region = BootRegion::format(
        12,
        8,
        BootCode::new(&[]),
        DISK_SIZE as u64,
        Oem::new(),
        0,
    )
    .unwrap();
    assert_eq!(region.bytes_per_sector().0.0, bytes_per_sector.0.0);
    let emulated_disk = region.encode();
    assert_eq!(emulated_disk.len(), 4096 * 12);
}

#[test]
fn format_then_open_round_trips() {
    let region = BootRegion::format(9, 8, BootCode::default(), 1u64 << 30, Oem::new(), 77)
        .unwrap();
    let image = region.encode();
    assert_eq!(image.len(), 512 * 12);
    let opened = BootRegion::open(&image).unwrap();
    assert_eq!(opened, region);
}

#[test]
fn stored_checksum_matches_recomputation() {
    let region = BootRegion::format(12, 8, BootCode::default(), 1u64 << 25, Oem::new(), 3)
        .unwrap();
    let image = region.encode();
    let skip: Vec<usize> = vec![106, 107, 112];
    let expected = compute(&image[..11 * 4096], &skip);
    assert_eq!(region.boot_checksum.checksum, expected);
    assert_eq!(region.calculate_checksum(), expected);
    // The checksum sector repeats the value every four bytes.
    let tail = &image[11 * 4096..];
    for chunk in tail.chunks(4) {
        assert_eq!(chunk, &expected.to_le_bytes());
    }
}

#[test]
fn open_rejects_a_damaged_region() {
    let region = BootRegion::format(9, 8, BootCode::default(), 1u64 << 30, Oem::new(), 0)
        .unwrap();
    let mut image = region.encode();
    // Damage a checksummed byte of the geometry sector.
    image[0] ^= 0xFF;
    match BootRegion::open(&image).unwrap_err() {
        OpenError::Codec(e) => assert_eq!(e, CodecError::ChecksumMismatch),
        other => panic!("unexpected error {other:?}"),
    }
}

#[test]
fn open_ignores_the_unprotected_bytes() {
    // The volume-flags and percent-in-use bytes are outside the checksum,
    // so mutating them leaves the region openable.
    let region = BootRegion::format(9, 8, BootCode::default(), 1u64 << 30, Oem::new(), 0)
        .unwrap();
    let mut image = region.encode();
    image[106] = 0x40;
    image[107] = 0x00;
    image[112] = 0x55;
    let opened = BootRegion::open(&image).unwrap();
    assert_eq!(opened.boot_sector.volume_flags.flags, 0x40);
    assert_eq!(opened.boot_sector.percent_in_use, 0x55);
}

#[test]
fn open_rejects_a_corrupt_slot_signature() {
    let region = BootRegion::format(9, 8, BootCode::default(), 1u64 << 30, Oem::new(), 0)
        .unwrap();
    let mut image = region.encode();
    // The last four bytes of sector 1 hold the first slot's signature.
    let sig_at = 2 * 512 - 1;
    image[sig_at] ^= 0x01;
    match BootRegion::open(&image).unwrap_err() {
        OpenError::Codec(e) => assert_eq!(e, CodecError::CorruptSignature),
        other => panic!("unexpected error {other:?}"),
    }
}

#[test]
fn open_rejects_short_images() {
    match BootRegion::open(&[0u8; 100]).unwrap_err() {
        OpenError::Codec(e) => assert_eq!(e, CodecError::TruncatedInput),
        other => panic!("unexpected error {other:?}"),
    }
    // A whole geometry sector whose shift demands more data than given.
    let region = BootRegion::format(9, 8, BootCode::default(), 1u64 << 30, Oem::new(), 0)
        .unwrap();
    let image = region.encode();
    match BootRegion::open(&image[..512 * 11]).unwrap_err() {
        OpenError::Codec(e) => assert_eq!(e, CodecError::TruncatedInput),
        other => panic!("unexpected error {other:?}"),
    }
}

#[test]
fn open_rejects_an_invalid_sector_shift() {
    let mut image = vec![0u8; 512 * 12];
    image[108] = 8;
    match BootRegion::open(&image).unwrap_err() {
        OpenError::Bound(b) => {
            let exfat_boot::super_block::bound_error::BoundError::TooSmall {
                field,
                value,
                should_be,
            } = b
            else {
                panic!("expected a too-small report");
            };
            assert_eq!(field, "bytes_per_sector_shift");
            assert_eq!(value, 8);
            assert_eq!(should_be, 9);
        }
        other => panic!("unexpected error {other:?}"),
    }
}

#[test]
fn update_checksum_tracks_mutation() {
    let mut region = BootRegion::format(9, 8, BootCode::default(), 1u64 << 30, Oem::new(), 0)
        .unwrap();
    region.boot_sector.set_boot_code(BootCode::new(&[0xEB, 0xFE]));
    let stale = region.boot_checksum.checksum;
    region.update_checksum();
    assert_ne!(region.boot_checksum.checksum, stale);
    let image = region.encode();
    assert!(BootRegion::open(&image).is_ok());
}
