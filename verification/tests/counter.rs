use totpgen::counter::counter_message;

#[test]
fn counter_message_is_big_endian() {
    assert_eq!(
        counter_message(0x0102_0304_0506_0708),
        vec![1, 2, 3, 4, 5, 6, 7, 8]
    );
    assert_eq!(counter_message(33), vec![0, 0, 0, 0, 0, 0, 0, 33]);
    assert_eq!(counter_message(0x1234), vec![0, 0, 0, 0, 0, 0, 0x12, 0x34]);
}

#[test]
fn counter_message_at_the_ends() {
    assert_eq!(counter_message(0), vec![0u8; 8]);
    assert_eq!(counter_message(u64::MAX), vec![0xffu8; 8]);
    assert_eq!(
        counter_message(1 << 63),
        vec![0x80, 0, 0, 0, 0, 0, 0, 0]
    );
}

#[test]
fn counter_message_agrees_with_std() {
    for value in [1u64, 255, 256, 65_535, 4_115_226, 1 << 32, 0xdead_beef_cafe_f00d] {
        assert_eq!(counter_message(value), value.to_be_bytes().to_vec());
    }
}
