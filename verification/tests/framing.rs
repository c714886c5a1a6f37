use airsense::framing::{decode_varint, VarintDecoder, VarintPrefix, VarintStep, MAX_VARINT_LEN};

fn decode(bytes: &[u8]) -> Option<u64> {
    let mut decoder = VarintDecoder::new();
    for &byte in bytes {
        if let VarintStep::Value(value) = decoder.push(byte) {
            return Some(value);
        }
    }
    None
}

#[test]
fn varint_single_byte() {
    assert_eq!(decode(&[0x00]), Some(0));
    assert_eq!(decode(&[0x7F]), Some(127));
}

#[test]
fn varint_multi_byte() {
    assert_eq!(decode(&[0xAC, 0x02]), Some(300));
    assert_eq!(decode(&[0x80, 0x80, 0x01]), Some(16384));
    assert_eq!(decode(&[0x96, 0x01, 0xFF]), Some(150));
}

#[test]
fn varint_incomplete() {
    assert_eq!(decode(&[0x80, 0x80]), None);
    assert_eq!(decode_varint(&[0x80, 0x80]), VarintPrefix::Incomplete);
    assert_eq!(decode_varint(&[]), VarintPrefix::Incomplete);
}

#[test]
fn varint_ten_bytes_wraps_to_64_bits() {
    let bytes = [0xFF, 0xFF, 0xFF, 0xFF, 0xFF, 0xFF, 0xFF, 0xFF, 0xFF, 0x01];
    assert_eq!(decode(&bytes), Some(u64::MAX));
    let bytes = [0xFF, 0xFF, 0xFF, 0xFF, 0xFF, 0xFF, 0xFF, 0xFF, 0xFF, 0x7F];
    assert_eq!(decode(&bytes), Some(u64::MAX));
}

#[test]
fn varint_overlong_is_refused() {
    let mut decoder = VarintDecoder::new();
    for _ in 0..MAX_VARINT_LEN {
        assert_eq!(decoder.push(0x80), VarintStep::Continue);
    }
    assert_eq!(decoder.push(0x01), VarintStep::Overlong);
    assert_eq!(decoder.push(0x01), VarintStep::Overlong);
    assert_eq!(decode_varint(&[0x80; 10]), VarintPrefix::Overlong);
    assert_eq!(decode_varint(&[0x80; 12]), VarintPrefix::Overlong);
}

#[test]
fn varint_prefix_of_a_stream() {
    assert_eq!(decode_varint(&[0x96, 0x01]), VarintPrefix::Complete(150, 2));
    assert_eq!(decode_varint(&[0x96, 0x01, 0x08, 0x96]), VarintPrefix::Complete(150, 2));
    assert_eq!(decode_varint(&[0x05, 0xFF]), VarintPrefix::Complete(5, 1));
}

#[test]
fn decodes_what_the_encoder_wrote() {
    for value in [0u64, 1, 127, 128, 300, 16_383, 16_384, 1 << 35, u64::MAX - 1, u64::MAX] {
        let mut buf = Vec::new();
        prost::encoding::encode_varint(value, &mut buf);
        let encoded_len = buf.len();
        assert_eq!(encoded_len, prost::encoding::encoded_len_varint(value));
        assert!(encoded_len <= MAX_VARINT_LEN);
        let mut decoder = VarintDecoder::new();
        for (i, &byte) in buf.iter().enumerate() {
            let step = decoder.push(byte);
            if i + 1 < encoded_len {
                assert_eq!(step, VarintStep::Continue);
            } else {
                assert_eq!(step, VarintStep::Value(value));
            }
        }
        // whatever follows the encoding in the stream is not read
        buf.extend_from_slice(&[0x80, 0x01, 0x7F]);
        assert_eq!(decode_varint(&buf), VarintPrefix::Complete(value, encoded_len));
    }
}
