use libcoap::codec::{
    decode_var_len_u16, decode_var_len_u32, encode_var_len_u16, encode_var_len_u32,
    encode_var_len_u8,
};

#[test]
fn zero_encodes_empty() {
    assert_eq!(encode_var_len_u8(0), Vec::<u8>::new());
    assert_eq!(encode_var_len_u16(0), Vec::<u8>::new());
    assert_eq!(encode_var_len_u32(0), Vec::<u8>::new());
}

#[test]
fn leading_zero_bytes_are_dropped() {
    assert_eq!(encode_var_len_u16(7), vec![7]);
    assert_eq!(encode_var_len_u32(7), vec![7]);
    assert_eq!(encode_var_len_u32(256), vec![1, 0]);
}

#[test]
fn exact_big_endian_bytes() {
    assert_eq!(encode_var_len_u8(0xab), vec![0xab]);
    assert_eq!(encode_var_len_u16(0x1234), vec![0x12, 0x34]);
    assert_eq!(encode_var_len_u32(0x0102_0304), vec![1, 2, 3, 4]);
    assert_eq!(encode_var_len_u32(0x0001_0203), vec![1, 2, 3]);
    assert_eq!(encode_var_len_u32(u32::MAX), vec![0xff, 0xff, 0xff, 0xff]);
    assert_eq!(encode_var_len_u16(u16::MAX), vec![0xff, 0xff]);
}

#[test]
fn decode_zero_extends_short_input() {
    assert_eq!(decode_var_len_u16(&vec![]), 0);
    assert_eq!(decode_var_len_u32(&vec![]), 0);
    assert_eq!(decode_var_len_u16(&vec![9]), 9);
    assert_eq!(decode_var_len_u32(&vec![1, 2]), 0x0102);
}

#[test]
fn decode_exact_values() {
    assert_eq!(decode_var_len_u16(&vec![0x12, 0x34]), 0x1234);
    assert_eq!(decode_var_len_u32(&vec![1, 2, 3, 4]), 0x0102_0304);
    assert_eq!(decode_var_len_u32(&vec![0xff, 0xff, 0xff, 0xff]), u32::MAX);
}

#[test]
fn codec_round_trip_samples() {
    for v in [0u32, 1, 255, 256, 65535, 65536, 16777216, u32::MAX] {
        assert_eq!(decode_var_len_u32(&encode_var_len_u32(v)), v);
    }
    for v in [0u16, 1, 255, 256, u16::MAX] {
        assert_eq!(decode_var_len_u16(&encode_var_len_u16(v)), v);
    }
}
