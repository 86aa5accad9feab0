use pg_wire::wire::{
    i16_from_be, i32_from_be, i64_from_be, push_bytes, push_i16, push_i32, push_i64, push_low16,
    push_low32, push_u32, rest_of_packet, u32_from_be,
};

#[test]
fn integers_are_read_most_significant_byte_first() {
    assert_eq!(i16_from_be(0x12, 0x34), 0x1234);
    assert_eq!(i16_from_be(0xFF, 0xFF), -1);
    assert_eq!(i16_from_be(0x80, 0x00), i16::MIN);
    assert_eq!(i16_from_be(0x7F, 0xFF), i16::MAX);
    assert_eq!(u32_from_be(0x12, 0x34, 0x56, 0x78), 0x1234_5678);
    assert_eq!(u32_from_be(0xFF, 0xFF, 0xFF, 0xFF), u32::MAX);
    assert_eq!(i32_from_be(0x12, 0x34, 0x56, 0x78), 0x1234_5678);
    assert_eq!(i32_from_be(0xFF, 0xFF, 0xFF, 0xFE), -2);
    assert_eq!(i32_from_be(0x80, 0, 0, 0), i32::MIN);
    assert_eq!(i32_from_be(0x7F, 0xFF, 0xFF, 0xFF), i32::MAX);
    assert_eq!(i64_from_be(1, 2, 3, 4, 5, 6, 7, 8), 0x0102_0304_0506_0708);
    assert_eq!(i64_from_be(0xFF, 0xFF, 0xFF, 0xFF, 0xFF, 0xFF, 0xFF, 0xFF), -1);
    assert_eq!(i64_from_be(0x80, 0, 0, 0, 0, 0, 0, 0), i64::MIN);
}

#[test]
fn integers_are_written_as_the_standard_library_writes_them() {
    for value in [0i16, 1, -1, 255, 256, -256, i16::MIN, i16::MAX].iter() {
        let mut buffer = vec![9];
        push_i16(&mut buffer, *value);
        assert_eq!(buffer[0], 9);
        assert_eq!(buffer[1..], value.to_be_bytes());
        assert_eq!(i16_from_be(buffer[1], buffer[2]), *value);
    }
    for value in [0i32, 1, -1, 65536, -65537, 80877103, i32::MIN, i32::MAX].iter() {
        let mut buffer = vec![];
        push_i32(&mut buffer, *value);
        assert_eq!(buffer, value.to_be_bytes());
        assert_eq!(i32_from_be(buffer[0], buffer[1], buffer[2], buffer[3]), *value);
    }
    for value in [0u32, 23, 1043, 0x8000_0000, u32::MAX].iter() {
        let mut buffer = vec![];
        push_u32(&mut buffer, *value);
        assert_eq!(buffer, value.to_be_bytes());
        assert_eq!(u32_from_be(buffer[0], buffer[1], buffer[2], buffer[3]), *value);
    }
    for value in [0i64, 1, -1, 1 << 32, -(1 << 32) - 1, -(1 << 40), i64::MIN, i64::MAX].iter() {
        let mut buffer = vec![];
        push_i64(&mut buffer, *value);
        assert_eq!(buffer, value.to_be_bytes());
        assert_eq!(
            i64_from_be(
                buffer[0], buffer[1], buffer[2], buffer[3], buffer[4], buffer[5], buffer[6],
                buffer[7]
            ),
            *value
        );
    }
}

#[test]
fn lengths_keep_their_low_bits() {
    let mut buffer = vec![];
    push_low16(&mut buffer, 0x1_2345);
    assert_eq!(buffer, vec![0x23, 0x45]);
    push_low32(&mut buffer, 0x1_2345_6789_ABCD);
    assert_eq!(buffer, vec![0x23, 0x45, 0x67, 0x89, 0xAB, 0xCD]);
    push_low32(&mut buffer, 7);
    assert_eq!(buffer[6..], [0, 0, 0, 7]);
    push_bytes(&mut buffer, &[1, 2]);
    assert_eq!(buffer.len(), 12);
    assert_eq!(buffer[10..], [1, 2]);
}

#[test]
fn what_follows_the_length_of_a_packet() {
    assert_eq!(rest_of_packet(4), 0);
    assert_eq!(rest_of_packet(33), 29);
    assert_eq!(rest_of_packet(i32::MAX), i32::MAX as usize - 4);
    assert_eq!(rest_of_packet(3), usize::MAX);
    assert_eq!(rest_of_packet(0), usize::MAX - 3);
    assert_eq!(rest_of_packet(-1), (-5i32) as usize);
    assert_eq!(rest_of_packet(i32::MIN + 4), i32::MIN as usize);
    assert_eq!(rest_of_packet(i32::MIN), i32::MIN.wrapping_sub(4) as usize);
    assert_eq!(rest_of_packet(i32::MIN + 3), i32::MAX as usize);
}
