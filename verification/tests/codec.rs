use arcgame::codec::u64_from_le_prefix;

fn block_with(value: u64, padding: u8) -> [u8; 32] {
    let mut block = [padding; 32];
    block[0..8].copy_from_slice(&value.to_le_bytes());
    block
}

#[test]
fn decodes_little_endian_prefix() {
    assert_eq!(u64_from_le_prefix(&block_with(0, 0)), 0);
    assert_eq!(u64_from_le_prefix(&block_with(1, 0)), 1);
    assert_eq!(u64_from_le_prefix(&block_with(0x0123_4567_89ab_cdef, 0)), 0x0123_4567_89ab_cdef);
    assert_eq!(u64_from_le_prefix(&block_with(u64::MAX, 0)), u64::MAX);
}

#[test]
fn ignores_bytes_after_the_prefix() {
    assert_eq!(u64_from_le_prefix(&block_with(50, 0xff)), 50);
}

#[test]
fn byte_order_is_little_endian() {
    let mut block = [0u8; 32];
    block[0] = 2;
    block[1] = 1;
    assert_eq!(u64_from_le_prefix(&block), 0x0102);
}
