use asn1box::short_msg::NullNetworking;
use asn1box::short_msg::ShortMsgBcPDU;
use asn1box::short_msg::ShortMsgNpdu;
use asn1box::short_msg::ShortMsgSubtype;
use asn1box::short_msg::ShortMsgTpdus;
use asn1box::short_msg::VarLengthNumber;
use asn1box::uper_decode_full;
use asn1box::uper_encode_full;
use asn1box::Provenance;

fn create_short_msg_npdu(data: &[u8], version: i64, dest_address: i64) -> ShortMsgNpdu {
    ShortMsgNpdu {
        subtype: ShortMsgSubtype::NullNetworking(NullNetworking { version }),
        transport: ShortMsgTpdus::BcMode(ShortMsgBcPDU {
            dest_address: VarLengthNumber::Content(dest_address),
        }),
        body: data.to_vec(),
    }
}

#[test]
fn loopback_short_msg_n_pdu() {
    let data = vec![0xFEu8; 10];
    let version = 2;
    let dest_address = 12;
    let mut encoded_data = vec![0u8; 128];

    let short_msg = create_short_msg_npdu(&data, version, dest_address);

    if let Some(n) = uper_encode_full::<ShortMsgNpdu>(&short_msg, &mut encoded_data) {
        if let Some(msg) = uper_decode_full::<ShortMsgNpdu>(&encoded_data[0..n]) {
            assert_eq!(msg.get().version(), 2);
            assert_eq!(msg.get().dest_address(), 12);
        } else {
            panic!("Decode failed")
        }
    } else {
        panic!("Encode failed");
    }
}

#[test]
fn encode_writes_exact_byte_image() {
    let msg = create_short_msg_npdu(&[0xFE, 0xFE], 2, 12);
    let mut buffer = vec![0u8; 16];
    let n = uper_encode_full::<ShortMsgNpdu>(&msg, &mut buffer).expect("encode must succeed");
    assert_eq!(n, 5);
    assert_eq!(&buffer[0..5], &[2, 12, 2, 0xFE, 0xFE]);
    assert_eq!(buffer.len(), 16);
}

#[test]
fn encode_empty_body() {
    let msg = create_short_msg_npdu(&[], 0, 0);
    let mut buffer = vec![0u8; 8];
    let n = uper_encode_full::<ShortMsgNpdu>(&msg, &mut buffer).expect("encode must succeed");
    assert!(n > 0);
    assert_eq!(&buffer[0..n], &[0, 0, 0]);
}

#[test]
fn encode_fails_on_undersized_buffer() {
    let msg = create_short_msg_npdu(&[0xFEu8; 10], 2, 12);
    // the packed image needs 13 bytes; offer 12
    let mut buffer = vec![0u8; 12];
    assert!(uper_encode_full::<ShortMsgNpdu>(&msg, &mut buffer).is_none());
    let mut empty = vec![0u8; 0];
    assert!(uper_encode_full::<ShortMsgNpdu>(&msg, &mut empty).is_none());
}

#[test]
fn encode_fails_on_constraint_violation() {
    let mut buffer = vec![0u8; 64];
    let bad_version = create_short_msg_npdu(&[1, 2, 3], 99, 12);
    assert!(uper_encode_full::<ShortMsgNpdu>(&bad_version, &mut buffer).is_none());
    let bad_dest = create_short_msg_npdu(&[1, 2, 3], 2, 1000);
    assert!(uper_encode_full::<ShortMsgNpdu>(&bad_dest, &mut buffer).is_none());
    let negative_version = create_short_msg_npdu(&[1, 2, 3], -1, 12);
    assert!(uper_encode_full::<ShortMsgNpdu>(&negative_version, &mut buffer).is_none());
    let oversized_body = create_short_msg_npdu(&vec![0u8; 300], 2, 12);
    let mut big_buffer = vec![0u8; 512];
    assert!(uper_encode_full::<ShortMsgNpdu>(&oversized_body, &mut big_buffer).is_none());
}

#[test]
fn decode_zero_bytes_fails() {
    assert!(uper_decode_full::<ShortMsgNpdu>(&[]).is_none());
}

#[test]
fn decode_truncated_image_fails() {
    let msg = create_short_msg_npdu(&[0xFEu8; 10], 2, 12);
    let mut buffer = vec![0u8; 128];
    let n = uper_encode_full::<ShortMsgNpdu>(&msg, &mut buffer).expect("encode must succeed");
    for cut in 0..n {
        assert!(uper_decode_full::<ShortMsgNpdu>(&buffer[0..cut]).is_none());
    }
}

#[test]
fn decode_malformed_header_fails() {
    // version field above its constraint
    assert!(uper_decode_full::<ShortMsgNpdu>(&[16, 0, 0]).is_none());
    // destination address with the extension bit set
    assert!(uper_decode_full::<ShortMsgNpdu>(&[2, 128, 0]).is_none());
    // length octet promising more body than there is
    assert!(uper_decode_full::<ShortMsgNpdu>(&[2, 12, 5, 1, 2]).is_none());
    // trailing bytes beyond the promised body
    assert!(uper_decode_full::<ShortMsgNpdu>(&[2, 12, 1, 7, 7]).is_none());
}

#[test]
fn decode_minimal_image() {
    let handle = uper_decode_full::<ShortMsgNpdu>(&[0, 0, 0]).expect("decode must succeed");
    assert_eq!(handle.get().version(), 0);
    assert_eq!(handle.get().dest_address(), 0);
    assert!(handle.get().body.is_empty());
}

#[test]
fn roundtrip_preserves_every_field() {
    let msg = create_short_msg_npdu(&[9, 8, 7, 6, 5], 15, 127);
    let mut buffer = vec![0u8; 32];
    let n = uper_encode_full::<ShortMsgNpdu>(&msg, &mut buffer).expect("encode must succeed");
    let handle = uper_decode_full::<ShortMsgNpdu>(&buffer[0..n]).expect("decode must succeed");
    assert_eq!(handle.get().version(), 15);
    assert_eq!(handle.get().dest_address(), 127);
    assert_eq!(handle.get().body, vec![9, 8, 7, 6, 5]);
    assert_eq!(handle.provenance(), Provenance::Asn1CodecAllocated);
}
