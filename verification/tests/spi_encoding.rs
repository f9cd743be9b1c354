use tasbot_eyes::spi_encoding::{
    convert_to_spi_format, decode_spi_symbols, ONE_BIT_PATTERN, ZERO_BIT_PATTERN,
};

#[test]
fn encode_all_zero_bits() {
    let w = convert_to_spi_format(0x00);
    assert_eq!(w, vec![ZERO_BIT_PATTERN; 8]);
}

#[test]
fn encode_all_one_bits() {
    let w = convert_to_spi_format(0xFF);
    assert_eq!(w, vec![ONE_BIT_PATTERN; 8]);
}

#[test]
fn encode_is_msb_first() {
    // 0b1000_0010: only the most significant bit and bit 6 (counting from
    // the least significant end) are set.
    let w = convert_to_spi_format(0b1000_0010);
    assert_eq!(
        w,
        vec![
            ONE_BIT_PATTERN,
            ZERO_BIT_PATTERN,
            ZERO_BIT_PATTERN,
            ZERO_BIT_PATTERN,
            ZERO_BIT_PATTERN,
            ZERO_BIT_PATTERN,
            ONE_BIT_PATTERN,
            ZERO_BIT_PATTERN,
        ]
    );
}

#[test]
fn encode_low_nibble() {
    // 0x0F = 0b0000_1111: four zero symbols, then four one symbols.
    let w = convert_to_spi_format(0x0F);
    let mut expected = vec![ZERO_BIT_PATTERN; 4];
    expected.extend(vec![ONE_BIT_PATTERN; 4]);
    assert_eq!(w, expected);
}

#[test]
fn symbol_patterns_are_the_protocol_constants() {
    assert_eq!(ZERO_BIT_PATTERN, 0b1000_0000);
    assert_eq!(ONE_BIT_PATTERN, 0b1111_0000);
}

#[test]
fn every_byte_encodes_to_eight_symbols() {
    for b in 0..=255u8 {
        let w = convert_to_spi_format(b);
        assert_eq!(w.len(), 8);
        for s in &w {
            assert!(*s == ZERO_BIT_PATTERN || *s == ONE_BIT_PATTERN);
        }
    }
}

#[test]
fn round_trip_every_byte() {
    for b in 0..=255u8 {
        let w = convert_to_spi_format(b);
        assert_eq!(decode_spi_symbols(&w), b);
    }
}
