use exfat_boot::oem::flash::{flash_guid, FlashOptions, FlashParameter};
use exfat_boot::oem::{Oem, Parameter, UnknownParameter};

#[test]
fn test() {
    let param = FlashParameter::new(FlashOptions::default());
    assert_eq!(param.erase_block_size, 0);
    assert_eq!(param.write_cycle, 0);
}

#[test]
fn empty_slots_encode_to_zeros() {
    let oem = Oem::new();
    let sector = oem.encode(512);
    assert_eq!(sector.len(), 512);
    assert!(sector.iter().all(|b| *b == 0));
}

#[test]
fn flash_slot_carries_its_identifier_and_fields() {
    let mut oem = Oem::new();
    let flash = FlashParameter::new(FlashOptions {
        erase_block_size: 0x11,
        page_size: 0x22,
        spare_sectors: 0x33,
        random_access_time: 0x44,
        programming_time: 0x55,
        read_cycle: 0x66,
        write_cycle: 0x77,
    });
    oem.insert(Parameter::Flash(flash), 1);
    let sector = oem.encode(512);
    let slot = &sector[48..96];
    assert_eq!(&slot[0..16], &flash_guid());
    assert_eq!(&slot[16..20], &0x11u32.to_le_bytes());
    assert_eq!(&slot[40..44], &0x77u32.to_le_bytes());
    assert_eq!(&slot[44..48], &[0, 0, 0, 0]);
}

#[test]
fn oem_sector_round_trips() {
    let mut oem = Oem::new();
    oem.insert(
        Parameter::Flash(FlashParameter::new(FlashOptions {
            erase_block_size: 131072,
            page_size: 4096,
            spare_sectors: 64,
            random_access_time: 25000,
            programming_time: 600000,
            read_cycle: 50,
            write_cycle: 50,
        })),
        0,
    );
    let mut guid = [0u8; 16];
    guid[0] = 0xD0;
    guid[15] = 0x0D;
    oem.insert(Parameter::Unknown(UnknownParameter::new(guid, [9u8; 32])), 4);
    let sector = oem.encode(4096);
    assert_eq!(sector.len(), 4096);
    let decoded = Oem::decode(&sector).unwrap();
    assert_eq!(decoded, oem);
}

#[test]
fn unknown_parameter_keeps_its_envelope() {
    let guid = [3u8; 16];
    let payload = [7u8; 32];
    let p = UnknownParameter::new(guid, payload);
    assert_eq!(p.guid(), guid);
    assert_eq!(p.custom_defined(), payload);
}
