use filecopy::bits::tobin;

#[test]
fn tobin_of_two_is_one_byte() {
    assert_eq!(tobin(2), "00000010");
}

#[test]
fn tobin_of_zero_is_empty() {
    assert_eq!(tobin(0), "");
}

#[test]
fn tobin_of_one() {
    assert_eq!(tobin(1), "00000001");
}

#[test]
fn tobin_of_a_full_byte() {
    assert_eq!(tobin(255), "11111111");
}

#[test]
fn tobin_leaves_out_a_trailing_zero_byte() {
    assert_eq!(tobin(0x0100), "00000001");
}

#[test]
fn tobin_leaves_out_a_zero_byte_in_the_middle() {
    assert_eq!(tobin(0x01_00_01), "00000001 00000001");
}

#[test]
fn tobin_separates_bytes_by_one_space() {
    assert_eq!(tobin(0x01_02_03), "00000001 00000010 00000011");
}

#[test]
fn tobin_writes_the_most_significant_byte_first() {
    assert_eq!(tobin(0xA5_0F), "10100101 00001111");
}

#[test]
fn tobin_of_the_top_bit() {
    assert_eq!(tobin(1u128 << 127), "10000000");
}

#[test]
fn tobin_of_the_largest_value() {
    let expected = vec!["11111111"; 16].join(" ");
    assert_eq!(tobin(u128::MAX), expected);
}

#[test]
fn tobin_digits_follow_the_bits() {
    let value: u128 = 0x8000_0000_0000_0000_0000_0000_0000_0301;
    let text = tobin(value);
    assert_eq!(text, "10000000 00000011 00000001");
    for group in text.split(' ') {
        assert_eq!(group.len(), 8);
    }
}
