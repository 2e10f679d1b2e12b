use launcher::codec::decode_ack;
use launcher::codec::decode_envelope;
use launcher::codec::decode_register;
use launcher::codec::decode_spawn;
use launcher::codec::encode_ack;
use launcher::codec::encode_register;
use launcher::codec::encode_spawn;
use launcher::codec::try_encode_envelope;
use launcher::codec::Envelope;
use launcher::codec::Register;
use launcher::codec::Spawn;
use launcher::error::Error;

#[test]
fn envelope_round_trips() {
    let env = Envelope {
        message_id: String::from("Register"),
        payload: vec![1, 2, 3, 255],
    };
    let bytes = try_encode_envelope(&env).unwrap();
    let back = decode_envelope(&bytes).unwrap();
    assert_eq!(back.message_id, "Register");
    assert_eq!(back.payload, vec![1, 2, 3, 255]);
}

#[test]
fn envelope_wire_layout_is_exact() {
    let env = Envelope { message_id: String::from("ok"), payload: Vec::new() };
    let bytes = try_encode_envelope(&env).unwrap();
    assert_eq!(bytes, vec![2, 0, 0, 0, b'o', b'k']);
}

#[test]
fn truncated_envelope_is_a_serialization_error() {
    assert_eq!(decode_envelope(&[1, 2, 3]).unwrap_err(), Error::Serialization);
}

#[test]
fn overlong_tag_length_is_a_serialization_error() {
    // The prefix announces ten tag bytes; only one follows.
    assert_eq!(decode_envelope(&[10, 0, 0, 0, b'a']).unwrap_err(), Error::Serialization);
}

#[test]
fn non_utf8_tag_is_a_serialization_error() {
    assert_eq!(decode_envelope(&[1, 0, 0, 0, 0xff]).unwrap_err(), Error::Serialization);
}

#[test]
fn unicode_tag_round_trips() {
    let env = Envelope { message_id: String::from("héllo✓"), payload: vec![0] };
    let bytes = try_encode_envelope(&env).unwrap();
    let back = decode_envelope(&bytes).unwrap();
    assert_eq!(back.message_id, "héllo✓");
    assert_eq!(back.payload, vec![0]);
}

#[test]
fn register_round_trips() {
    let reg = Register { reply_address: String::from("ipc-rendezvous-17") };
    let bytes = encode_register(&reg);
    let back = decode_register(&bytes).unwrap();
    assert_eq!(back.reply_address, "ipc-rendezvous-17");
}

#[test]
fn register_rejects_non_utf8_bytes() {
    assert_eq!(decode_register(&[0xc3, 0x28]).unwrap_err(), Error::Serialization);
}

#[test]
fn ack_is_empty_and_strict() {
    let bytes = encode_ack();
    assert!(bytes.is_empty());
    assert!(decode_ack(&bytes).is_ok());
    assert_eq!(decode_ack(&[0]).unwrap_err(), Error::Serialization);
}

#[test]
fn spawn_payload_is_opaque() {
    let req = Spawn { body: vec![9, 8, 7] };
    let bytes = encode_spawn(&req);
    assert_eq!(bytes, vec![9, 8, 7]);
    let back = decode_spawn(&bytes);
    assert_eq!(back.body, vec![9, 8, 7]);
}
