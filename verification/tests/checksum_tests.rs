use exfat_boot::boot_region::checksum::{compute, Checksum};
use exfat_boot::errors::CodecError;
use exfat_boot::shift::BytesPerSector;

#[test]
fn compute_rotates_and_adds() {
    assert_eq!(compute(&[], &[]), 0);
    assert_eq!(compute(&[1], &[]), 1);
    // After the first byte the accumulator is 1; rotating it right one bit
    // moves the low bit to the top before the second byte is added.
    assert_eq!(compute(&[1, 2], &[]), 0x8000_0002);
    assert_eq!(compute(&[1, 2], &[0]), 2);
    assert_eq!(compute(&[1, 2], &[1]), 1);
    assert_eq!(compute(&[1, 2], &[0, 1]), 0);
}

#[test]
fn skipped_offsets_do_not_affect_the_checksum() {
    let skip: Vec<usize> = vec![106, 107, 112];
    let mut image = vec![0u8; 512];
    for (i, b) in image.iter_mut().enumerate() {
        *b = (i % 251) as u8;
    }
    let before = compute(&image, &skip);
    let mut mutated = image.clone();
    mutated[106] = 0xAA;
    mutated[107] = 0xBB;
    mutated[112] = 0xCC;
    assert_eq!(compute(&mutated, &skip), before);
    // A byte outside the skip list does count.
    let mut touched = image.clone();
    touched[0] ^= 0xFF;
    assert_ne!(compute(&touched, &skip), before);
}

#[test]
fn checksum_sector_round_trip() {
    let bps = BytesPerSector::new(512);
    let image = vec![7u8; 64];
    let skip: Vec<usize> = vec![5];
    let value = compute(&image, &skip);
    let sector = Checksum::new(value, bps);
    assert_eq!(sector.repeat_count(), 128);
    let encoded = sector.encode();
    assert_eq!(encoded.len(), 512);
    let decoded = Checksum::decode(&encoded, bps).unwrap();
    assert_eq!(decoded.checksum, value);
    assert_eq!(decoded, sector);
}

#[test]
fn disagreeing_repetitions_are_rejected() {
    let bps = BytesPerSector::new(512);
    let mut encoded = Checksum::new(0x12345678, bps).encode();
    encoded[200] ^= 0x01;
    let e = Checksum::decode(&encoded, bps).unwrap_err();
    assert_eq!(e, CodecError::InconsistentChecksum);
}

#[test]
fn checksum_sector_needs_whole_sector() {
    let bps = BytesPerSector::new(512);
    assert_eq!(
        Checksum::decode(&[0u8; 100], bps).unwrap_err(),
        CodecError::TruncatedInput
    );
    assert_eq!(
        Checksum::decode(&[0u8; 2], BytesPerSector::new(2)).unwrap_err(),
        CodecError::SectorTooSmall
    );
}
