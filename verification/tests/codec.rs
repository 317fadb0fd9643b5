use wasi_nn_tract::bytes::{bytes_to_floats, floats_to_bytes, word_from_bytes, word_to_bytes, ByteOrder};
use wasi_nn_tract::wasi_nn::Error;

#[test]
fn one_is_decoded_in_little_endian() {
    let words = bytes_to_floats(&vec![0x00, 0x00, 0x80, 0x3f], ByteOrder::Little).unwrap();
    assert_eq!(words, vec![0x3f80_0000]);
    assert_eq!(f32::from_bits(words[0]), 1.0f32);
}

#[test]
fn one_is_decoded_in_big_endian() {
    let words = bytes_to_floats(&vec![0x3f, 0x80, 0x00, 0x00], ByteOrder::Big).unwrap();
    assert_eq!(words, vec![0x3f80_0000]);
}

#[test]
fn words_are_encoded_in_sequence() {
    let words = vec![0x0403_0201, 0xdead_beef];
    assert_eq!(
        floats_to_bytes(&words, ByteOrder::Little),
        vec![0x01, 0x02, 0x03, 0x04, 0xef, 0xbe, 0xad, 0xde]
    );
    assert_eq!(
        floats_to_bytes(&words, ByteOrder::Big),
        vec![0x04, 0x03, 0x02, 0x01, 0xde, 0xad, 0xbe, 0xef]
    );
}

#[test]
fn empty_buffer_is_no_word() {
    assert_eq!(bytes_to_floats(&Vec::new(), ByteOrder::Little), Ok(Vec::new()));
    assert_eq!(floats_to_bytes(&Vec::new(), ByteOrder::Big), Vec::<u8>::new());
}

#[test]
fn length_must_be_a_multiple_of_four() {
    for len in [1usize, 2, 3, 5, 6, 7, 9] {
        let buffer = vec![0u8; len];
        assert_eq!(bytes_to_floats(&buffer, ByteOrder::Little), Err(Error::RuntimeError));
        assert_eq!(bytes_to_floats(&buffer, ByteOrder::Big), Err(Error::RuntimeError));
    }
}

#[test]
fn bytes_survive_decoding_and_encoding() {
    let buffer: Vec<u8> = (0..=255u8).collect();
    for order in [ByteOrder::Little, ByteOrder::Big] {
        let words = bytes_to_floats(&buffer, order).unwrap();
        assert_eq!(words.len(), 64);
        assert_eq!(floats_to_bytes(&words, order), buffer);
    }
}

#[test]
fn nan_payloads_survive_bit_for_bit() {
    let words = vec![0x7fc0_0001, 0xffff_ffff, 0x7f80_0001, 0x8000_0000, 0x0000_0001];
    for order in [ByteOrder::Little, ByteOrder::Big] {
        let buffer = floats_to_bytes(&words, order);
        assert_eq!(buffer.len(), 20);
        assert_eq!(bytes_to_floats(&buffer, order).unwrap(), words);
    }
}

#[test]
fn the_two_orders_mirror_each_other() {
    assert_eq!(word_from_bytes(ByteOrder::Little, 1, 2, 3, 4), 0x0403_0201);
    assert_eq!(word_from_bytes(ByteOrder::Big, 1, 2, 3, 4), 0x0102_0304);
    assert_eq!(word_to_bytes(ByteOrder::Little, 0x0102_0304), [4, 3, 2, 1]);
    assert_eq!(word_to_bytes(ByteOrder::Big, 0x0102_0304), [1, 2, 3, 4]);
}

#[test]
fn native_order_is_that_of_the_machine() {
    let order = ByteOrder::native();
    let values = [1.0f32, -2.5, 3.25e10, f32::MIN_POSITIVE];
    let words: Vec<u32> = values.iter().map(|v| v.to_bits()).collect();
    let expected: Vec<u8> = values.iter().flat_map(|v| v.to_ne_bytes()).collect();
    assert_eq!(floats_to_bytes(&words, order), expected);
    assert_eq!(bytes_to_floats(&expected, order).unwrap(), words);
    let probe = if u32::from_ne_bytes([1, 0, 0, 0]) == 1 { ByteOrder::Little } else { ByteOrder::Big };
    assert_eq!(order, probe);
}

#[test]
fn probe_word_tells_the_order() {
    assert_eq!(ByteOrder::from_probe(1), ByteOrder::Little);
    assert_eq!(ByteOrder::from_probe(0x0100_0000), ByteOrder::Big);
    assert_eq!(ByteOrder::from_probe(0), ByteOrder::Big);
    assert_eq!(ByteOrder::from_probe(u32::from_le_bytes([1, 0, 0, 0])), ByteOrder::Little);
    assert_eq!(ByteOrder::from_probe(u32::from_be_bytes([1, 0, 0, 0])), ByteOrder::Big);
    assert_eq!(ByteOrder::from_probe(u32::from_ne_bytes([1, 0, 0, 0])), ByteOrder::native());
}
