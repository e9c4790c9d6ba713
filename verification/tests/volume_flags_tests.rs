use exfat_boot::super_block::volume_flags::VolumeFlags;

#[test]
fn flags_set_and_clear_their_own_bit() {
    let mut flags = VolumeFlags { flags: 0 };
    flags.set_volume_dirty(true);
    assert_eq!(flags.flags, 0b01000000);
    flags.set_active_fat(true);
    assert_eq!(flags.flags, 0b11000000);
    flags.set_media_failure(true);
    assert_eq!(flags.flags, 0b11100000);
    flags.set_clear_to_zero(true);
    assert_eq!(flags.flags, 0b11110000);
    flags.set_volume_dirty(false);
    assert_eq!(flags.flags, 0b10110000);
    flags.set_active_fat(false);
    flags.set_media_failure(false);
    flags.set_clear_to_zero(false);
    assert_eq!(flags.flags, 0);
}
