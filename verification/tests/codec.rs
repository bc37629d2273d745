//! Wire-level tests: encoding produces the documented bytes, decoding
//! inverts encoding for every packet kind, and malformed bytes are
//! rejected.

use ledclock::bufwrite::BufWrite;
use ledclock::client::frame_length;
use ledclock::decode::decode_packet;
use ledclock::encode::encode_packet;
use ledclock::error::MqttClientError;
use ledclock::packet::Connack;
use ledclock::packet::Connect;
use ledclock::packet::Disconnect;
use ledclock::packet::Packet;
use ledclock::packet::Puback;
use ledclock::packet::Publish;
use ledclock::packet::Qos;
use ledclock::packet::RetainHandling;
use ledclock::packet::Suback;
use ledclock::packet::Subscribe;
use ledclock::packet::Subscription;
use ledclock::packet::SubscriptionOptions;
use ledclock::packet::Will;

fn encode(p: &Packet) -> Vec<u8> {
    let mut w = BufWrite::new(4096);
    encode_packet(p, &mut w).expect("packet fits");
    w.into_vec()
}

fn round_trip(p: Packet) -> Packet {
    let bytes = encode(&p);
    let back = decode_packet(&bytes).expect("own encoding decodes");
    assert_eq!(p, back);
    back
}

fn options() -> SubscriptionOptions {
    SubscriptionOptions {
        quality_of_service: Qos::AtMostOnce,
        no_local: true,
        retain_as_published: true,
        retain_handling: RetainHandling::SendRetainedMessagesAlways,
    }
}

#[test]
fn round_trip_connect_minimal() {
    round_trip(Packet::Connect(Connect {
        client_identifier: b"clock".to_vec(),
        username: None,
        password: None,
        clean_start: true,
        will: None,
        keep_alive: 30,
    }));
}

#[test]
fn round_trip_connect_full() {
    round_trip(Packet::Connect(Connect {
        client_identifier: b"clock".to_vec(),
        username: Some(b"user".to_vec()),
        password: Some(b"SECRET-REDACTED".to_vec()),
        clean_start: true,
        will: Some(Will {
            topic: b"device/1/state".to_vec(),
            payload: b"disconnected".to_vec(),
            qos: Qos::AtLeastOnce,
            retain: true,
        }),
        keep_alive: 60,
    }));
}

#[test]
fn round_trip_connack() {
    round_trip(Packet::Connack(Connack { session_present: true, reason_code: 0 }));
    round_trip(Packet::Connack(Connack { session_present: false, reason_code: 0x87 }));
}

#[test]
fn round_trip_subscribe() {
    round_trip(Packet::Subscribe(Subscribe {
        packet_identifier: 1,
        subscriptions: vec![
            Subscription { topic_filter: b"device/1/command/start_program".to_vec(), options: options() },
            Subscription { topic_filter: b"device/1/command/timezone_offset".to_vec(), options: options() },
        ],
    }));
}

#[test]
fn round_trip_suback() {
    round_trip(Packet::Suback(Suback { packet_identifier: 1, reasons: vec![0, 1, 2] }));
}

#[test]
fn round_trip_publish_qos0() {
    round_trip(Packet::Publish(Publish {
        duplicate: false,
        quality_of_service: Qos::AtMostOnce,
        retain: false,
        topic_name: b"device/1/state".to_vec(),
        packet_identifier: None,
        payload: b"booting".to_vec(),
    }));
}

#[test]
fn round_trip_publish_qos1() {
    round_trip(Packet::Publish(Publish {
        duplicate: true,
        quality_of_service: Qos::AtLeastOnce,
        retain: true,
        topic_name: b"t".to_vec(),
        packet_identifier: Some(7),
        payload: vec![1, 2, 3],
    }));
}

#[test]
fn round_trip_puback() {
    round_trip(Packet::Puback(Puback { packet_identifier: 7, reason_code: 0 }));
}

#[test]
fn round_trip_pings_and_disconnect() {
    round_trip(Packet::Pingreq);
    round_trip(Packet::Pingresp);
    round_trip(Packet::Disconnect(Disconnect { reason_code: 4 }));
}

#[test]
fn connack_exact_bytes() {
    let bytes = encode(&Packet::Connack(Connack { session_present: true, reason_code: 0 }));
    assert_eq!(bytes, vec![0x20, 3, 1, 0, 0]);
}

#[test]
fn pingreq_exact_bytes() {
    assert_eq!(encode(&Packet::Pingreq), vec![0xC0, 0]);
    assert_eq!(encode(&Packet::Pingresp), vec![0xD0, 0]);
}

#[test]
fn puback_exact_bytes() {
    let bytes = encode(&Packet::Puback(Puback { packet_identifier: 5, reason_code: 0 }));
    assert_eq!(bytes, vec![0x40, 4, 0, 5, 0, 0]);
}

#[test]
fn publish_exact_bytes() {
    let bytes = encode(&Packet::Publish(Publish {
        duplicate: false,
        quality_of_service: Qos::AtMostOnce,
        retain: false,
        topic_name: b"a".to_vec(),
        packet_identifier: None,
        payload: vec![7],
    }));
    assert_eq!(bytes, vec![0x30, 5, 0, 1, b'a', 0, 7]);
}

#[test]
fn long_remaining_length_uses_two_bytes() {
    let bytes = encode(&Packet::Publish(Publish {
        duplicate: false,
        quality_of_service: Qos::AtMostOnce,
        retain: false,
        topic_name: b"t".to_vec(),
        packet_identifier: None,
        payload: vec![9; 200],
    }));
    // body = 3 (topic) + 1 (properties) + 200 = 204 = 0x4C + 1 * 128
    assert_eq!(bytes[0], 0x30);
    assert_eq!(bytes[1], 204 % 128 + 128);
    assert_eq!(bytes[2], 204 / 128);
    assert_eq!(bytes.len(), 3 + 204);
    let back = decode_packet(&bytes).expect("decodes");
    match back {
        Packet::Publish(p) => assert_eq!(p.payload.len(), 200),
        other => panic!("wrong packet kind: {:?}", other),
    }
}

#[test]
fn decode_rejects_malformed_input() {
    assert!(decode_packet(&[]).is_err());
    assert!(decode_packet(&[0x20]).is_err());
    // remaining length says 3 bytes but 2 follow
    assert!(decode_packet(&[0x20, 3, 1, 0]).is_err());
    // trailing garbage after a complete packet
    assert!(decode_packet(&[0xC0, 0, 0]).is_err());
    // unknown packet kind
    assert!(decode_packet(&[0xF0, 0]).is_err());
    // connack with a non-empty property section
    assert!(decode_packet(&[0x20, 3, 0, 0, 1]).is_err());
    // connack with a flags byte that is neither 0 nor 1
    assert!(decode_packet(&[0x20, 3, 2, 0, 0]).is_err());
    // puback with packet identifier zero
    assert!(decode_packet(&[0x40, 4, 0, 0, 0, 0]).is_err());
}

#[test]
fn decode_accepts_short_disconnect() {
    assert_eq!(
        decode_packet(&[0xE0, 0]).expect("bare disconnect decodes"),
        Packet::Disconnect(Disconnect { reason_code: 0 })
    );
}

#[test]
fn frame_length_reports_packet_size() {
    assert_eq!(frame_length(&[]), Ok(None));
    assert_eq!(frame_length(&[0x30]), Ok(None));
    assert_eq!(frame_length(&[0x30, 5]), Ok(Some(7)));
    assert_eq!(frame_length(&[0x30, 204 % 128 + 128]), Ok(None));
    assert_eq!(frame_length(&[0x30, 204 % 128 + 128, 1]), Ok(Some(3 + 204)));
    assert_eq!(
        frame_length(&[0x30, 0x80, 0x80, 0x80, 0x80]),
        Err(MqttClientError::MqttPacketParsing)
    );
}

#[test]
fn bufwrite_fails_only_past_capacity() {
    let mut w = BufWrite::new(3);
    assert!(w.write_byte(1).is_ok());
    assert!(w.write_slice(&[2, 3]).is_ok());
    assert!(w.write_byte(4).is_err());
    assert_eq!(w.len(), 3);
    assert_eq!(w.as_bytes(), &[1, 2, 3]);
    assert_eq!(w.into_vec(), vec![1, 2, 3]);

    let mut small = BufWrite::new(1);
    let r = encode_packet(&Packet::Pingreq, &mut small);
    assert!(r.is_err());
    assert_eq!(small.len(), 0);
}
