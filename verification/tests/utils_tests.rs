use mad_nes::utils::{binary_string, hex_string, hex_string8};

#[test]
fn hex_string_pads_to_two_digits() {
    assert_eq!(hex_string(0x0a), "0x0A");
    assert_eq!(hex_string(0), "0x00");
    assert_eq!(hex_string(0x1234), "0x1234");
    assert_eq!(hex_string(0xffff), "0xFFFF");
}

#[test]
fn hex_string8_has_no_padding() {
    assert_eq!(hex_string8(5), "0x5");
    assert_eq!(hex_string8(0xab), "0xAB");
}

#[test]
fn binary_string_is_right_aligned() {
    assert_eq!(binary_string(5), "             101");
    assert_eq!(binary_string(0), "               0");
    assert_eq!(binary_string(0xffff), "1111111111111111");
}

#[test]
fn formatting_agrees_with_std_formatting() {
    for v in [0u16, 1, 9, 10, 15, 16, 255, 256, 4095, 4096, 0x8000, 0xffff] {
        assert_eq!(hex_string(v), format!("{:#04X?}", v));
        assert_eq!(binary_string(v), format!("{:16b}", v));
    }
    for v in [0u8, 1, 15, 16, 255] {
        assert_eq!(hex_string8(v), format!("{:#02X?}", v));
    }
}
