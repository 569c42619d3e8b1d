use counter_service::decode_u32;
use counter_service::encode_u32;

#[test]
fn encode_is_little_endian() {
    assert_eq!(encode_u32(0), vec![0, 0, 0, 0]);
    assert_eq!(encode_u32(1), vec![1, 0, 0, 0]);
    assert_eq!(encode_u32(0x0A0B0C0D), vec![0x0D, 0x0C, 0x0B, 0x0A]);
    assert_eq!(encode_u32(u32::MAX), vec![255, 255, 255, 255]);
}

#[test]
fn decode_reads_little_endian() {
    assert_eq!(decode_u32(&vec![0x78, 0x56, 0x34, 0x12]), Some(0x12345678));
    assert_eq!(decode_u32(&vec![0, 0, 0, 0]), Some(0));
}

#[test]
fn decode_inverts_encode() {
    for v in [0u32, 1, 2, 49, 50, 100, 123456789, u32::MAX - 1, u32::MAX] {
        assert_eq!(decode_u32(&encode_u32(v)), Some(v));
    }
}

#[test]
fn decode_rejects_wrong_lengths() {
    assert_eq!(decode_u32(&vec![]), None);
    assert_eq!(decode_u32(&vec![1, 2, 3]), None);
    assert_eq!(decode_u32(&vec![1, 2, 3, 4, 5]), None);
}
