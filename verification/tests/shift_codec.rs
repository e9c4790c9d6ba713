use exfat_boot::shift::{
    BytesPerSector, InvalidMagnitude, SectorsPerCluster, Shifted, ShiftedBytes, ShiftedSectors,
    Unshifted,
};

#[test]
fn unshift_of_shift_is_identity_on_powers_of_two() {
    for e in 0u8..64 {
        let m: u64 = 1u64 << e;
        let shifted = Unshifted(m).shift().unwrap();
        assert_eq!(shifted.0, e);
        assert_eq!(shifted.unshift().0, m);
    }
}

#[test]
fn shift_rejects_non_powers_of_two() {
    assert_eq!(Unshifted(0).shift().unwrap_err(), InvalidMagnitude);
    assert_eq!(Unshifted(3).shift().unwrap_err(), InvalidMagnitude);
    assert!(Unshifted(12).shift().is_err());
    assert!(Unshifted(4095).shift().is_err());
    assert!(Unshifted(u64::MAX).shift().is_err());
}

#[test]
fn shift_accepts_exact_powers() {
    assert_eq!(Unshifted(1).shift().unwrap(), Shifted(0));
    assert_eq!(Unshifted(2).shift().unwrap(), Shifted(1));
    assert_eq!(Unshifted(512).shift().unwrap(), Shifted(9));
    assert_eq!(Unshifted(4096).shift().unwrap(), Shifted(12));
    assert_eq!(Unshifted(1u64 << 63).shift().unwrap(), Shifted(63));
}

#[test]
fn shifted_bytes_round_trip() {
    let sb = ShiftedBytes::new(12);
    assert_eq!(sb.inner(), 12);
    let bps = sb.unshift();
    assert_eq!(bps.0.0, 4096);
    assert_eq!(bps.shift().unwrap(), sb);
}

#[test]
fn shifted_sectors_round_trip() {
    let sc = ShiftedSectors::new(3);
    assert_eq!(sc.inner(), 3);
    let spc = sc.unshift();
    assert_eq!(spc.0.0, 8);
    assert_eq!(spc.shift().unwrap(), sc);
}

#[test]
fn bytes_per_sector_shift_rejects_odd_sizes() {
    assert!(BytesPerSector::new(4000).shift().is_err());
    assert!(SectorsPerCluster(Unshifted(7)).shift().is_err());
}
