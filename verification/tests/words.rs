use compute::codec::{decode_u32s, encode_u32s};
use compute::layout::align_up;

#[test]
fn encode_is_little_endian() {
    assert_eq!(encode_u32s(&vec![1]), vec![1u8, 0, 0, 0]);
    assert_eq!(encode_u32s(&vec![0x01020304]), vec![4u8, 3, 2, 1]);
    assert_eq!(encode_u32s(&vec![]), Vec::<u8>::new());
}

#[test]
fn decode_reads_four_byte_words() {
    assert_eq!(decode_u32s(&vec![2, 0, 0, 0, 5, 0, 0, 0]), vec![2u32, 5]);
    assert_eq!(decode_u32s(&vec![]), Vec::<u32>::new());
}

#[test]
fn round_trip_returns_the_sequence() {
    let input: Vec<u32> = vec![1, 2, 3, 4];
    assert_eq!(decode_u32s(&encode_u32s(&input)), input);
    let wide: Vec<u32> = vec![0, u32::MAX, 0x8000_0000, 7];
    assert_eq!(decode_u32s(&encode_u32s(&wide)), wide);
}

#[test]
fn encode_matches_raw_byte_cast() {
    let words: Vec<u32> = vec![7, 8, 9, 0xdead_beef];
    let raw: Vec<u8> = bytemuck::cast_slice(&words).to_vec();
    assert_eq!(encode_u32s(&words), raw);
}

#[test]
fn pair_sequence_data_path() {
    // The byte image of the pairs {1,1},{2,2},{3,3},{4,4} and of the
    // doubled pairs {2,2},{4,4},{6,6},{8,8}, as a shader doubling each
    // 32-bit lane would produce them.
    let input: Vec<u32> = vec![1, 1, 2, 2, 3, 3, 4, 4];
    let expected: Vec<u32> = vec![2, 2, 4, 4, 6, 6, 8, 8];
    let bytes = encode_u32s(&input);
    assert_eq!(bytes.len(), 32);
    let doubled: Vec<u32> = decode_u32s(&bytes).iter().map(|n| n * 2).collect();
    assert_eq!(doubled, expected);
}

#[test]
fn align_up_rounds_to_copy_alignment() {
    assert_eq!(align_up(0), 0);
    assert_eq!(align_up(1), 4);
    assert_eq!(align_up(4), 4);
    assert_eq!(align_up(5), 8);
    assert_eq!(align_up(7), 8);
    assert_eq!(align_up(8), 8);
}
