use exfat_boot::super_block::boot_code::BootCode;
use exfat_boot::super_block::bound_error::BoundError;
use exfat_boot::super_block::{round_up, SuperBlock};

#[test]
fn super_block_serialize() {
    let v_size: u64 = 1u64 << 35;
    let bs = SuperBlock::new(12, 8, BootCode::default(), v_size, 0).unwrap();
    let serialized = bs.encode();
    assert_eq!(serialized.len(), 4096);
    println!("{serialized:?}");
}

#[test]
fn builder_meets_every_bound() {
    let sb = SuperBlock::new(12, 8, BootCode::default(), 1u64 << 35, 42).unwrap();
    assert!(sb.verify_bounds().is_ok());
    let sb2 = SuperBlock::new(9, 8, BootCode::new(&[0x90]), 1u64 << 30, 7).unwrap();
    assert!(sb2.verify_bounds().is_ok());
}

#[test]
fn builder_derived_fields() {
    // Sector 4096 bytes, cluster 256 sectors, volume 2^35 bytes.
    let sb = SuperBlock::new(12, 8, BootCode::default(), 1u64 << 35, 5).unwrap();
    assert_eq!(sb.volume_length, (1u64 << 35) / 4096);
    assert_eq!(sb.fat_offset, 24);
    // The first FAT ends on the next cluster boundary past its 32 sectors.
    assert_eq!(sb.fat_length, 256 - 24);
    assert_eq!(sb.cluster_heap_offset, 512);
    assert_eq!(sb.cluster_count, (8388608 - 512) / 256);
    assert_eq!(sb.first_cluster_of_root_directory, 2);
    assert_eq!(sb.volume_serial_number, 5);
    assert_eq!(sb.number_of_fats, 2);
    assert_eq!(sb.drive_select, 0x80);
    assert_eq!(sb.bytes_per_sector().0.0, 4096);
    assert_eq!(sb.sectors_per_cluster().0.0, 256);
}

#[test]
fn builder_rejects_oversized_cluster() {
    let e = SuperBlock::new(13, 13, BootCode::default(), 1u64 << 35, 0).unwrap_err();
    match e {
        BoundError::TooBig { field, value, should_be } => {
            assert_eq!(field, "sectors_per_cluster_shift");
            assert_eq!(value, 13);
            assert_eq!(should_be, 12);
        }
        other => panic!("unexpected error {other:?}"),
    }
}

#[test]
fn small_cluster_geometry_fails_heap_bound() {
    // Sector 4096 bytes, cluster 8 sectors, volume 2^35 bytes: the derived
    // fields are exactly the documented formulas, but a heap two clusters
    // in cannot sit after both FAT copies, so validation refuses it.
    let sb = SuperBlock::populate(12, 3, BootCode::default(), 1u64 << 35, 0);
    assert_eq!(sb.fat_offset, 24);
    assert_eq!(sb.cluster_heap_offset, 16);
    assert_eq!(sb.volume_length, 8388608);
    assert_eq!(sb.cluster_count, (8388608 - 16) / 8);
    match sb.verify_bounds().unwrap_err() {
        BoundError::TooSmall { field, value, should_be } => {
            assert_eq!(field, "cluster_heap_offset");
            assert_eq!(value, 16);
            assert_eq!(should_be, 2072);
        }
        other => panic!("unexpected error {other:?}"),
    }
    let e = SuperBlock::new(12, 3, BootCode::default(), 1u64 << 35, 0).unwrap_err();
    assert!(matches!(e, BoundError::TooSmall { .. }));
}

#[test]
fn validator_rejects_large_sector_shift() {
    // Hand-build a record whose every earlier bound holds, with a
    // sector-size exponent of 13 (one past the 4096-byte maximum).
    let mut bytes = vec![0u8; 512];
    bytes[72..80].copy_from_slice(&(1u64 << 22).to_le_bytes());
    bytes[80..84].copy_from_slice(&24u32.to_le_bytes());
    bytes[84..88].copy_from_slice(&1024u32.to_le_bytes());
    bytes[88..92].copy_from_slice(&2072u32.to_le_bytes());
    bytes[92..96].copy_from_slice(&2096116u32.to_le_bytes());
    bytes[96..100].copy_from_slice(&2u32.to_le_bytes());
    bytes[108] = 13;
    bytes[109] = 1;
    bytes[110] = 2;
    let sb = SuperBlock::decode(&bytes).unwrap();
    match sb.verify_bounds().unwrap_err() {
        BoundError::TooBig { field, value, should_be } => {
            assert_eq!(field, "bytes_per_sector_shift");
            assert_eq!(value, 13);
            assert_eq!(should_be, 12);
        }
        other => panic!("unexpected error {other:?}"),
    }
}

#[test]
fn codec_round_trip_is_bit_identical() {
    let sb = SuperBlock::new(12, 8, BootCode::new(&[0xEB, 0xFE]), 1u64 << 35, 0xDEAD_BEEF)
        .unwrap();
    let bytes = sb.encode();
    let decoded = SuperBlock::decode(&bytes).unwrap();
    assert_eq!(decoded, sb);
    // Re-encoding the decoded record reproduces the image byte for byte.
    assert_eq!(decoded.encode(), bytes);
}

#[test]
fn decode_needs_whole_field_image() {
    assert!(SuperBlock::decode(&[0u8; 511]).is_err());
    assert!(SuperBlock::decode(&[0u8; 512]).is_ok());
}

#[test]
fn encoded_fields_sit_at_their_offsets() {
    let sb = SuperBlock::new(12, 8, BootCode::default(), 1u64 << 35, 0x01020304).unwrap();
    let bytes = sb.encode();
    assert_eq!(&bytes[0..3], &[0xEB, 0x76, 0x90]);
    assert_eq!(&bytes[3..11], b"EXFAT   ");
    assert_eq!(&bytes[80..84], &24u32.to_le_bytes());
    assert_eq!(&bytes[100..104], &0x01020304u32.to_le_bytes());
    assert_eq!(bytes[108], 12);
    assert_eq!(bytes[109], 8);
    assert_eq!(bytes[110], 2);
    assert_eq!(&bytes[510..512], &[0x55, 0xAA]);
    assert!(bytes[512..].iter().all(|b| *b == 0));
}

#[test]
fn round_up_returns_next_multiple() {
    assert_eq!(round_up(0, 8), 0);
    assert_eq!(round_up(8, 8), 8);
    assert_eq!(round_up(9, 8), 16);
    assert_eq!(round_up(56, 256), 256);
    assert_eq!(round_up(1048, 8), 1048);
}

#[test]
fn boot_code_pads_with_halt_instructions() {
    let bc = BootCode::new(&[1, 2, 3]);
    assert_eq!(bc.0.len(), 390);
    assert_eq!(&bc.0[0..3], &[1, 2, 3]);
    assert!(bc.0[3..].iter().all(|b| *b == 0xF4));
    assert_eq!(bc.1, 0xAA55);
    let default = BootCode::default();
    assert!(default.0.iter().all(|b| *b == 0xF4));
}

#[test]
fn set_boot_code_replaces_only_the_payload() {
    let mut sb = SuperBlock::new(12, 8, BootCode::default(), 1u64 << 35, 9).unwrap();
    let before = sb.clone();
    sb.set_boot_code(BootCode::new(&[0x31, 0xC0]));
    assert_eq!(sb.fat_offset, before.fat_offset);
    assert_eq!(sb.volume_serial_number, before.volume_serial_number);
    assert_eq!(&sb.boot_code.0[0..2], &[0x31, 0xC0]);
}
