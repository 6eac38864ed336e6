use btc_primitives::{
    byte_order_of_layout, host_byte_order, swap_endian_u32, swap_endian_u32_on, to_big_endian, ByteOrder,
};

#[test]
fn reverse_of_nothing_is_nothing() {
    assert_eq!(to_big_endian(&[]), Vec::<u8>::new());
}

#[test]
fn reverse_of_one_byte_is_that_byte() {
    assert_eq!(to_big_endian(&[0x01]), vec![0x01]);
}

#[test]
fn reverse_turns_the_order_round() {
    assert_eq!(to_big_endian(&[1, 2, 3, 4]), vec![4, 3, 2, 1]);
    assert_eq!(to_big_endian(&[0xde, 0xad, 0xbe]), vec![0xbe, 0xad, 0xde]);
}

#[test]
fn reverse_twice_is_the_identity() {
    let samples: [&[u8]; 5] = [&[], &[7], &[1, 2], &[1, 2, 3], &[0xff, 0x00, 0xff, 0x10, 0x20]];
    for bytes in samples {
        assert_eq!(to_big_endian(&to_big_endian(bytes)), bytes.to_vec());
    }
}

#[test]
fn word_swap_on_a_little_endian_host() {
    assert_eq!(swap_endian_u32_on(0x12345678, ByteOrder::LittleEndian), [0x78, 0x56, 0x34, 0x12]);
    assert_eq!(swap_endian_u32_on(1, ByteOrder::LittleEndian), [1, 0, 0, 0]);
    assert_eq!(swap_endian_u32_on(0, ByteOrder::LittleEndian), [0, 0, 0, 0]);
    assert_eq!(swap_endian_u32_on(0xff000000, ByteOrder::LittleEndian), [0, 0, 0, 0xff]);
}

#[test]
fn word_swap_on_a_big_endian_host() {
    assert_eq!(swap_endian_u32_on(0x12345678, ByteOrder::BigEndian), [0x12, 0x34, 0x56, 0x78]);
    assert_eq!(swap_endian_u32_on(1, ByteOrder::BigEndian), [0, 0, 0, 1]);
    assert_eq!(swap_endian_u32_on(u32::MAX, ByteOrder::BigEndian), [0xff, 0xff, 0xff, 0xff]);
}

#[test]
fn word_swap_is_swap_then_opposite_order() {
    for num in [0u32, 1, 0x12345678, 0xdeadbeef, 0x00ff00ff, u32::MAX, 0x80000001] {
        assert_eq!(swap_endian_u32_on(num, ByteOrder::LittleEndian), num.swap_bytes().to_be_bytes());
        assert_eq!(swap_endian_u32_on(num, ByteOrder::BigEndian), num.swap_bytes().to_le_bytes());
    }
}

#[test]
fn layout_of_one_shows_the_order() {
    assert_eq!(byte_order_of_layout([1, 0, 0, 0]), ByteOrder::LittleEndian);
    assert_eq!(byte_order_of_layout([0, 0, 0, 1]), ByteOrder::BigEndian);
    assert_eq!(byte_order_of_layout(1u32.to_le_bytes()), ByteOrder::LittleEndian);
    assert_eq!(byte_order_of_layout(1u32.to_be_bytes()), ByteOrder::BigEndian);
}

#[test]
fn host_order_is_the_machines() {
    let little = u16::from_ne_bytes([1, 0]) == 1;
    let expected = if little { ByteOrder::LittleEndian } else { ByteOrder::BigEndian };
    assert_eq!(host_byte_order(), expected);
    assert_eq!(host_byte_order(), byte_order_of_layout(1u32.to_ne_bytes()));
}

#[test]
fn word_swap_follows_the_host() {
    for num in [0u32, 1, 0x12345678, 0xdeadbeef, u32::MAX] {
        assert_eq!(swap_endian_u32(num), swap_endian_u32_on(num, host_byte_order()));
        assert_eq!(swap_endian_u32(num), num.to_ne_bytes());
    }
}
