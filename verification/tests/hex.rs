use spi_poll::hex::hex_dump;

#[test]
fn dump_of_nothing_is_a_pair_of_brackets() {
    assert_eq!(hex_dump(&vec![]), "[]");
}

#[test]
fn dump_of_one_byte_has_no_separator() {
    assert_eq!(hex_dump(&vec![0]), "[00]");
    assert_eq!(hex_dump(&vec![0x0A]), "[0A]");
    assert_eq!(hex_dump(&vec![0xFF]), "[FF]");
}

#[test]
fn dump_separates_bytes_by_comma_and_space() {
    assert_eq!(hex_dump(&vec![0x00, 0x01, 0x7F, 0x80, 0xAB, 0xFF]), "[00, 01, 7F, 80, AB, FF]");
}

#[test]
fn dump_digits_are_upper_case_and_padded() {
    assert_eq!(hex_dump(&vec![0x0f, 0xf0, 0x9a, 0xbc, 0xde]), "[0F, F0, 9A, BC, DE]");
}

#[test]
fn dump_length_is_four_per_byte() {
    for n in 1usize..40 {
        let bytes: Vec<u8> = (0..n).map(|i| (i * 7) as u8).collect();
        assert_eq!(hex_dump(&bytes).len(), 4 * n);
    }
}

#[test]
fn dump_of_every_byte_value_matches_the_debug_format() {
    for b in 0u8..=255 {
        assert_eq!(hex_dump(&vec![b]), format!("{:02X?}", vec![b]));
    }
    let all: Vec<u8> = (0u8..=255).collect();
    assert_eq!(hex_dump(&all), format!("{:02X?}", all));
}
