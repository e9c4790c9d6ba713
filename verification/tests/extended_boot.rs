use exfat_boot::errors::CodecError;
use exfat_boot::shift::{BytesPerSector, ShiftedBytes};
use exfat_boot::super_block::extended_boot_code::ExtendedBootCode;
use exfat_boot::super_block::extended_boot_sector::index::{Error, Index};
use exfat_boot::super_block::extended_boot_sector::ExtendedBootSectors;

#[test]
fn extended_boot_code_serde() {
    let bytes_per_sector: BytesPerSector = ShiftedBytes::new(3).unshift();
    let ebs = ExtendedBootCode::new(b"code", bytes_per_sector).unwrap();
    let encoded = ebs.encode();
    assert_eq!(encoded.len(), 8);
    let deserialized = ExtendedBootCode::decode(&encoded, bytes_per_sector).unwrap();
    assert!(deserialized == ebs);
}

#[test]
fn corrupted_signature_is_rejected() {
    let bps = BytesPerSector::new(512);
    for payload in [&b""[..], &b"code"[..], &[0xFFu8; 100][..]] {
        let ebc = ExtendedBootCode::new(payload, bps).unwrap();
        let mut encoded = ebc.encode();
        // Damage one byte of the trailing signature.
        encoded[511] ^= 0x01;
        let e = ExtendedBootCode::decode(&encoded, bps).unwrap_err();
        assert_eq!(e, CodecError::CorruptSignature);
    }
}

#[test]
fn sector_too_small_for_signature() {
    let e = ExtendedBootCode::new(b"", BytesPerSector::new(3)).unwrap_err();
    assert_eq!(e, CodecError::SectorTooSmall);
}

#[test]
fn payload_longer_than_sector_is_rejected() {
    let e = ExtendedBootCode::new(&[0u8; 509], BytesPerSector::new(512)).unwrap_err();
    assert_eq!(e, CodecError::PayloadTooLong);
    // One byte less just fits.
    assert!(ExtendedBootCode::new(&[0u8; 508], BytesPerSector::new(512)).is_ok());
}

#[test]
fn decode_needs_a_whole_sector() {
    let e = ExtendedBootCode::decode(&[0u8; 511], BytesPerSector::new(512)).unwrap_err();
    assert_eq!(e, CodecError::TruncatedInput);
}

#[test]
fn slot_offsets_start_one_sector_in() {
    let sectors = ExtendedBootSectors::open(BytesPerSector::new(4096));
    assert_eq!(sectors.offset_from_index(Index::new(0).unwrap()), 4096);
    assert_eq!(sectors.offset_from_index(Index::new(2).unwrap()), 3 * 4096);
    assert_eq!(sectors.offset_from_index(Index::new(7).unwrap()), 8 * 4096);
}

#[test]
fn index_validates_slot_numbers() {
    assert_eq!(Index::new(0).unwrap().0, 0);
    assert_eq!(Index::new(7).unwrap().0, 7);
    assert_eq!(Index::new(8).unwrap_err(), Error::TooBig(8));
}

#[test]
fn init_yields_eight_fresh_slots() {
    let (_, slots) = ExtendedBootSectors::init(BytesPerSector::new(512)).unwrap();
    assert_eq!(slots.len(), 8);
    for slot in &slots {
        assert_eq!(slot.code.len(), 508);
        assert!(slot.code.iter().all(|b| *b == 0));
        assert_eq!(slot.signature, 0xAA550000);
    }
    assert_eq!(
        ExtendedBootSectors::init(BytesPerSector::new(2)).unwrap_err(),
        CodecError::SectorTooSmall
    );
}

#[test]
fn slot_write_read_round_trip() {
    let sectors = ExtendedBootSectors::open(BytesPerSector::new(512));
    let index = Index::new(3).unwrap();
    let image = sectors.set_sector_code(index, b"jump").unwrap();
    assert_eq!(image.len(), 512);
    let loaded = sectors.load_sector(&image).unwrap();
    assert_eq!(&loaded.code[0..4], b"jump");
    assert!(loaded.code[4..].iter().all(|b| *b == 0));
    assert_eq!(loaded.signature, 0xAA550000);
}
