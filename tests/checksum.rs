use rtpacket::checksum::{compute_checksum, fold_checksum};

#[test]
fn test_checksum() {
    let test_data = vec![
        (
            "sum has two carries",
            "4540005800000000ff11ffff0aeb1d070aed8877",
            "fffe",
        ),
        (
            "wikipedia case",
            "45000073000040004011b861c0a80001c0a800c7",
            "b861",
        ),
    ];

    for (name, header, want) in test_data {
        let bytes = hex::decode(header).expect("Failed to decode header");
        let want_bytes = hex::decode(want).expect("Failed to decode want checksum");
        let want_checksum: u16 = u16::from_be_bytes([want_bytes[0], want_bytes[1]]);

        let mut bytes_copy = bytes.clone();
        bytes_copy[10] = 0;
        bytes_copy[11] = 0;

        let csum = compute_checksum(&bytes_copy, 0);
        let folded_csum = fold_checksum(csum);

        assert_eq!(
            folded_csum, want_checksum,
            "In test {:?}, got incorrect checksum: got({:x}), want({:x})",
            name, folded_csum, want_checksum
        );
    }
}

#[test]
fn odd_length_pads_last_byte_once() {
    assert_eq!(compute_checksum(&[0x12, 0x34, 0x56], 0), 0x1234 + 0x5600);
    assert_eq!(compute_checksum(&[0xab], 7), 0xab00 + 7);
    assert_eq!(compute_checksum(&[], 42), 42);
}

#[test]
fn fold_adds_carries_then_complements() {
    assert_eq!(fold_checksum(0), 0xffff);
    assert_eq!(fold_checksum(0xffff), 0);
    assert_eq!(fold_checksum(0x1_0000), 0xfffe);
    assert_eq!(fold_checksum(0x2_fffe), 0xfffe);
    assert_eq!(fold_checksum(0xffff_ffff), 0);
}
