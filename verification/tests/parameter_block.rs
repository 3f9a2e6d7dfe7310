use customsyscall::codec::{decode_params, encode_params, from_fields};
use customsyscall::shared::InvokeParams;
use customsyscall::SyscallError;

fn block(user_index: &[u8], matrix: &[u8], k: &[u8]) -> Vec<u8> {
    let mut out = vec![0x83];
    out.extend_from_slice(user_index);
    assert!(matrix.len() >= 256 && matrix.len() < 65536);
    out.push(0x59);
    out.extend_from_slice(&(matrix.len() as u16).to_be_bytes());
    out.extend_from_slice(matrix);
    out.extend_from_slice(k);
    out
}

#[test]
fn zero_params_encode_as_a_list_of_three() {
    let params = InvokeParams { user_index: 3, user_activity_matrix: [0u8; 1000], k: 5 };
    let encoded = encode_params(&params).unwrap();
    assert_eq!(encoded.len(), 1006);
    assert_eq!(encoded, block(&[0x03], &[0u8; 1000], &[0x05]));
    assert_eq!(&encoded[..5], &[0x83, 0x03, 0x59, 0x03, 0xe8]);
}

#[test]
fn negative_and_wide_integers_encode_as_cbor_integers() {
    let params = InvokeParams { user_index: -1, user_activity_matrix: [7u8; 1000], k: 1000 };
    let encoded = encode_params(&params).unwrap();
    assert_eq!(encoded, block(&[0x20], &[7u8; 1000], &[0x19, 0x03, 0xe8]));
}

#[test]
fn decode_reads_what_encode_wrote() {
    let matrix: Vec<u8> = (0..1000u32).map(|i| (i * 7 % 256) as u8).collect();
    let cases = [
        InvokeParams::new(3, &[], 5).unwrap(),
        InvokeParams::new(0, &[1], 0).unwrap(),
        InvokeParams::new(i64::MAX, &matrix, i64::MIN).unwrap(),
        InvokeParams::new(-42, &[0xff; 1000], 42).unwrap(),
    ];
    for params in cases {
        let encoded = encode_params(&params).unwrap();
        assert_eq!(decode_params(&encoded), Ok(params));
    }
}

#[test]
fn decode_reads_a_block_written_by_hand() {
    let mut matrix = [0u8; 1000];
    matrix[0] = 1;
    matrix[999] = 2;
    let bytes = block(&[0x18, 0x64], &matrix, &[0x38, 0x63]);
    let params = decode_params(&bytes).unwrap();
    assert_eq!(params.user_index, 100);
    assert_eq!(params.k, -100);
    assert_eq!(params.user_activity_matrix, matrix);
}

#[test]
fn matrix_shorter_than_the_buffer_is_an_encoding_error() {
    let bytes = block(&[0x03], &[0u8; 999], &[0x05]);
    assert_eq!(decode_params(&bytes), Err(SyscallError::Encoding));
}

#[test]
fn matrix_longer_than_the_buffer_is_an_encoding_error() {
    let bytes = block(&[0x03], &[0u8; 1001], &[0x05]);
    assert_eq!(decode_params(&bytes), Err(SyscallError::Encoding));
}

#[test]
fn block_that_is_no_cbor_is_an_encoding_error() {
    assert_eq!(decode_params(&[]), Err(SyscallError::Encoding));
    assert_eq!(decode_params(&[0xff, 0x00, 0x13]), Err(SyscallError::Encoding));
    assert_eq!(decode_params(b"not a parameter block"), Err(SyscallError::Encoding));
}

#[test]
fn block_with_a_missing_field_is_an_encoding_error() {
    let mut two = vec![0x82, 0x03, 0x59, 0x03, 0xe8];
    two.extend_from_slice(&[0u8; 1000]);
    assert_eq!(decode_params(&two), Err(SyscallError::Encoding));
}

#[test]
fn block_with_an_extra_field_is_an_encoding_error() {
    let mut four = vec![0x84, 0x03, 0x59, 0x03, 0xe8];
    four.extend_from_slice(&[0u8; 1000]);
    four.extend_from_slice(&[0x05, 0x06]);
    assert_eq!(decode_params(&four), Err(SyscallError::Encoding));
}

#[test]
fn block_with_trailing_bytes_is_an_encoding_error() {
    let mut bytes = block(&[0x03], &[0u8; 1000], &[0x05]);
    bytes.push(0x00);
    assert_eq!(decode_params(&bytes), Err(SyscallError::Encoding));
}

#[test]
fn truncated_block_is_an_encoding_error() {
    let bytes = block(&[0x03], &[0u8; 1000], &[0x05]);
    assert_eq!(decode_params(&bytes[..bytes.len() - 1]), Err(SyscallError::Encoding));
    assert_eq!(decode_params(&bytes[..500]), Err(SyscallError::Encoding));
}

#[test]
fn matrix_as_a_list_of_numbers_is_an_encoding_error() {
    let bytes = [0x83, 0x03, 0x83, 0x01, 0x02, 0x03, 0x05];
    assert_eq!(decode_params(&bytes), Err(SyscallError::Encoding));
}

#[test]
fn matrix_as_text_is_an_encoding_error() {
    let bytes = [0x83, 0x03, 0x63, b'a', b'b', b'c', 0x05];
    assert_eq!(decode_params(&bytes), Err(SyscallError::Encoding));
}

#[test]
fn from_fields_wants_the_matrix_to_fill_the_buffer_exactly() {
    assert_eq!(from_fields(None), Err(SyscallError::Encoding));
    assert_eq!(from_fields(Some((1, vec![], 2))), Err(SyscallError::Encoding));
    assert_eq!(from_fields(Some((1, vec![0u8; 999], 2))), Err(SyscallError::Encoding));
    assert_eq!(from_fields(Some((1, vec![0u8; 1001], 2))), Err(SyscallError::Encoding));
    assert_eq!(
        from_fields(Some((1, vec![9u8; 1000], 2))),
        Ok(InvokeParams { user_index: 1, user_activity_matrix: [9u8; 1000], k: 2 })
    );
}

#[test]
fn encoding_the_same_parameters_twice_gives_the_same_block() {
    let params = InvokeParams::new(7, &[1, 2, 3], -7).unwrap();
    let first = encode_params(&params);
    let second = encode_params(&params);
    assert!(first.is_ok());
    assert_eq!(first, second);
}

#[test]
fn every_parameter_record_has_a_block() {
    for params in [
        InvokeParams::default(),
        InvokeParams { user_index: i64::MIN, user_activity_matrix: [0xff; 1000], k: i64::MAX },
        InvokeParams { user_index: -1, user_activity_matrix: [1; 1000], k: -1 },
    ] {
        let block = encode_params(&params).unwrap();
        assert_eq!(block[0], 0x83);
        assert!(block.len() >= 1006 && block.len() <= 1022);
        assert_eq!(decode_params(&block), Ok(params));
    }
}
