use emb_esp_exp::word::{signed_word, Fraction, FRACTION_STEPS};

#[test]
fn fraction_takes_the_high_byte_first() {
    assert_eq!(Fraction::from_be_bytes(0x12, 0x34).bits, 0x1234);
    assert_eq!(Fraction::from_be_bytes(0x34, 0x12).bits, 0x3412);
}

#[test]
fn fraction_covers_the_whole_word() {
    assert_eq!(Fraction::from_be_bytes(0x00, 0x00).bits, 0);
    assert_eq!(Fraction::from_be_bytes(0x00, 0x01).bits, 1);
    assert_eq!(Fraction::from_be_bytes(0x01, 0x00).bits, 256);
    assert_eq!(Fraction::from_be_bytes(0x80, 0x00).bits, 32768);
    assert_eq!(Fraction::from_be_bytes(0xFF, 0xFF).bits, 65535);
}

#[test]
fn fraction_steps_is_two_to_the_sixteenth() {
    assert_eq!(FRACTION_STEPS, 1 << 16);
}

#[test]
fn scale_of_zero_is_the_offset() {
    let zero = Fraction { bits: 0 };
    assert_eq!(zero.scale(-45, 175), -45 * 65536);
    assert_eq!(zero.scale(0, 100), 0);
    assert_eq!(zero.scale(7, 0), 7 * 65536);
}

#[test]
fn scale_of_a_half_is_the_middle() {
    let half = Fraction { bits: 0x8000 };
    assert_eq!(half.scale(0, 100), 50 * 65536);
    assert_eq!(half.scale(-45, 175), 42 * 65536 + 32768);
    assert_eq!(half.scale(10, 1), 10 * 65536 + 32768);
}

#[test]
fn scale_at_the_limits_of_its_arguments() {
    let top = Fraction { bits: 0xFFFF };
    assert_eq!(top.scale(i16::MAX, u16::MAX), 32767 * 65536 + 65535 * 65535);
    assert_eq!(top.scale(i16::MIN, 0), -32768 * 65536);
    assert_eq!(top.scale(i16::MIN, u16::MAX), -32768 * 65536 + 65535 * 65535);
}

#[test]
fn signed_word_of_small_values() {
    assert_eq!(signed_word(0x00, 0x00), 0);
    assert_eq!(signed_word(0x00, 0x01), 1);
    assert_eq!(signed_word(0x12, 0x34), 0x1234);
    assert_eq!(signed_word(0x7F, 0xFF), i16::MAX);
}

#[test]
fn signed_word_of_values_with_the_sign_bit() {
    assert_eq!(signed_word(0x80, 0x00), i16::MIN);
    assert_eq!(signed_word(0xFF, 0xFF), -1);
    assert_eq!(signed_word(0xFF, 0x00), -256);
    assert_eq!(signed_word(0xC0, 0x00), -16384);
}

#[test]
fn signed_word_agrees_with_std_on_every_word() {
    for hi in 0..=255u8 {
        for lo in 0..=255u8 {
            assert_eq!(signed_word(hi, lo), i16::from_be_bytes([hi, lo]));
            assert_eq!(Fraction::from_be_bytes(hi, lo).bits, u16::from_be_bytes([hi, lo]));
        }
    }
}
