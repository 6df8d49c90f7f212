use echonet_sensehat::codec::{decode_payload, encode_payload};

#[test]
fn decode_big_endian() {
    assert_eq!(decode_payload(&vec![0x30]), Some(0x30));
    assert_eq!(decode_payload(&vec![0x01, 0x02]), Some(0x0102));
    assert_eq!(decode_payload(&vec![0x12, 0x34, 0x56, 0x78]), Some(0x12345678));
    assert_eq!(decode_payload(&vec![]), Some(0));
}

#[test]
fn decode_too_wide() {
    assert_eq!(decode_payload(&vec![0, 0, 0, 0, 0x30]), None);
}

#[test]
fn encode_big_endian() {
    assert_eq!(encode_payload(0x0102, 2), vec![0x01, 0x02]);
    assert_eq!(encode_payload(0x12345678, 4), vec![0x12, 0x34, 0x56, 0x78]);
    assert_eq!(encode_payload(0x1234, 1), vec![0x34]);
    assert_eq!(encode_payload(7, 0), Vec::<u8>::new());
}
