//! Session-level tests: the handshake in both outcomes, the single-action
//! discipline, publish in both delivery modes, acknowledgement of inbound
//! messages, and the keep-alive timing.

use ledclock::bufwrite::BufWrite;
use ledclock::client::MqttClient;
use ledclock::client::MqttPayload;
use ledclock::client::TickOutcome;
use ledclock::client::TopicSet;
use ledclock::decode::decode_packet;
use ledclock::encode::encode_packet;
use ledclock::error::MqttClientError;
use ledclock::fsm::ClientState;
use ledclock::keep_alive::MqttKeepAliver;
use ledclock::packet::Connack;
use ledclock::packet::Connect;
use ledclock::packet::Packet;
use ledclock::packet::Puback;
use ledclock::packet::Publish;
use ledclock::packet::Qos;
use ledclock::packet::RetainHandling;
use ledclock::packet::Suback;
use ledclock::packet::Subscription;
use ledclock::packet::SubscriptionOptions;
use ledclock::render::Renderable;

fn connect_params() -> Connect {
    Connect {
        client_identifier: b"clock".to_vec(),
        username: Some(b"user".to_vec()),
        password: Some(b"SECRET-REDACTED".to_vec()),
        clean_start: true,
        will: None,
        keep_alive: 30,
    }
}

fn subscriptions() -> Vec<Subscription> {
    let options = SubscriptionOptions {
        quality_of_service: Qos::AtMostOnce,
        no_local: true,
        retain_as_published: true,
        retain_handling: RetainHandling::SendRetainedMessagesAlways,
    };
    vec![
        Subscription { topic_filter: b"device/1/command/start_program".to_vec(), options },
        Subscription { topic_filter: b"device/1/command/timezone_offset".to_vec(), options },
    ]
}

fn encode(p: &Packet) -> Vec<u8> {
    let mut w = BufWrite::new(4096);
    encode_packet(p, &mut w).expect("packet fits");
    w.into_vec()
}

fn connected_client() -> MqttClient {
    let (mut client, connect_bytes) =
        MqttClient::new(0, connect_params(), 1024).expect("connect fits");
    assert_eq!(decode_packet(&connect_bytes), Ok(Packet::Connect(connect_params())));
    assert_eq!(client.state(), ClientState::AwaitingConnack);
    let sp = client
        .handle_connack(1, Packet::Connack(Connack { session_present: false, reason_code: 0 }))
        .expect("broker accepted");
    assert!(!sp);
    assert_eq!(client.state(), ClientState::Connected);
    client
}

fn active_client() -> MqttClient {
    let mut client = connected_client();
    let sub_bytes = client.subscribe(2, subscriptions()).expect("subscribe fits");
    let sub_packet = decode_packet(&sub_bytes).expect("subscribe decodes");
    match sub_packet {
        Packet::Subscribe(s) => {
            assert_eq!(s.packet_identifier, 1);
            assert_eq!(s.subscriptions.len(), 2);
        }
        other => panic!("expected a subscribe packet, got {:?}", other),
    }
    assert_eq!(client.state(), ClientState::AwaitingSuback);
    client
        .handle_suback(3, Packet::Suback(Suback { packet_identifier: 1, reasons: vec![0, 1] }))
        .expect("every filter granted");
    assert_eq!(client.state(), ClientState::Active);
    client
}

#[test]
fn handshake_success_reaches_active() {
    let client = active_client();
    assert_eq!(client.state(), ClientState::Active);
}

#[test]
fn handshake_rejection_reports_reason_and_sends_nothing_more() {
    let (mut client, _bytes) = MqttClient::new(0, connect_params(), 1024).expect("connect fits");
    let r = client
        .handle_connack(1, Packet::Connack(Connack { session_present: false, reason_code: 0x87 }));
    assert_eq!(r, Err(MqttClientError::ConnackUnsuccessful(0x87)));
    assert_eq!(client.state(), ClientState::Disconnected);
    // the connect sequence is over; no subscribe packet can be produced
    assert!(client.tick(2).is_ok_and(|t| t == TickOutcome::Idle));
}

#[test]
fn suback_with_one_rejected_filter_fails_the_subscribe() {
    let mut client = connected_client();
    client.subscribe(2, subscriptions()).expect("subscribe fits");
    let r = client
        .handle_suback(3, Packet::Suback(Suback { packet_identifier: 1, reasons: vec![0, 0x80] }));
    assert_eq!(r, Err(MqttClientError::AnySubscribeFailed));
    assert_eq!(client.state(), ClientState::Disconnected);
}

#[test]
fn suback_with_wrong_identifier_is_a_protocol_error() {
    let mut client = connected_client();
    client.subscribe(2, subscriptions()).expect("subscribe fits");
    let r = client
        .handle_suback(3, Packet::Suback(Suback { packet_identifier: 9, reasons: vec![0] }));
    assert_eq!(r, Err(MqttClientError::UnexpectedPacket));
}

#[test]
fn connack_must_answer_the_connect() {
    let (mut client, _bytes) = MqttClient::new(0, connect_params(), 1024).expect("connect fits");
    let r = client.handle_connack(1, Packet::Pingresp);
    assert_eq!(r, Err(MqttClientError::UnexpectedPacket));
}

#[test]
fn publish_at_most_once_sends_immediately() {
    let mut client = active_client();
    let (bytes, store) = client
        .publish(4, Publish {
            duplicate: false,
            quality_of_service: Qos::AtMostOnce,
            retain: false,
            topic_name: b"device/1/state/current_program".to_vec(),
            packet_identifier: None,
            payload: b"booting".to_vec(),
        })
        .expect("publish fits");
    assert_eq!(store, None);
    match decode_packet(&bytes).expect("publish decodes") {
        Packet::Publish(p) => {
            assert_eq!(p.packet_identifier, None);
            assert_eq!(p.payload, b"booting".to_vec());
        }
        other => panic!("expected a publish packet, got {:?}", other),
    }
}

#[test]
fn publish_at_least_once_stores_under_a_fresh_identifier() {
    let mut client = active_client();
    let (bytes, store) = client
        .publish(4, Publish {
            duplicate: false,
            quality_of_service: Qos::AtLeastOnce,
            retain: false,
            topic_name: b"t".to_vec(),
            packet_identifier: None,
            payload: vec![1],
        })
        .expect("publish fits");
    // identifier 1 went to the subscribe; the publish gets the next one
    assert_eq!(store, Some(2));
    match decode_packet(&bytes).expect("publish decodes") {
        Packet::Publish(p) => assert_eq!(p.packet_identifier, Some(2)),
        other => panic!("expected a publish packet, got {:?}", other),
    }

    // the broker acknowledges: the stored bytes are released
    client
        .handle_bytes(5, &encode(&Packet::Puback(Puback { packet_identifier: 2, reason_code: 0 })))
        .expect("acknowledgement consumed");
    assert_eq!(client.tick(6), Ok(TickOutcome::Release { id: 2 }));
}

#[test]
fn unknown_acknowledgement_is_a_protocol_error() {
    let mut client = active_client();
    let r = client
        .handle_bytes(5, &encode(&Packet::Puback(Puback { packet_identifier: 9, reason_code: 0 })));
    assert_eq!(r, Err(MqttClientError::UnexpectedPacket));
    assert_eq!(client.state(), ClientState::Disconnected);
}

#[test]
fn inbound_qos1_publish_is_acknowledged_before_delivery() {
    let mut client = active_client();
    let inbound = Publish {
        duplicate: false,
        quality_of_service: Qos::AtLeastOnce,
        retain: false,
        topic_name: b"device/1/command/start_program".to_vec(),
        packet_identifier: Some(7),
        payload: b"clock".to_vec(),
    };
    client.handle_bytes(5, &encode(&Packet::Publish(clone_publish(&inbound)))).expect("consumed");
    match client.tick(6).expect("tick works") {
        TickOutcome::Deliver { message, acknowledgement } => {
            assert_eq!(message.packet_identifier, Some(7));
            assert_eq!(message.payload, b"clock".to_vec());
            let ack = acknowledgement.expect("an acknowledgement is owed");
            assert_eq!(
                decode_packet(&ack),
                Ok(Packet::Puback(Puback { packet_identifier: 7, reason_code: 0 }))
            );
        }
        other => panic!("expected a delivery, got {:?}", other),
    }
    // the action was drained: an immediate second tick yields nothing
    assert_eq!(client.tick(7), Ok(TickOutcome::Idle));
}

fn clone_publish(p: &Publish) -> Publish {
    Publish {
        duplicate: p.duplicate,
        quality_of_service: p.quality_of_service,
        retain: p.retain,
        topic_name: p.topic_name.clone(),
        packet_identifier: p.packet_identifier,
        payload: p.payload.clone(),
    }
}

#[test]
fn inbound_qos0_publish_is_delivered_without_acknowledgement() {
    let mut client = active_client();
    let inbound = Publish {
        duplicate: false,
        quality_of_service: Qos::AtMostOnce,
        retain: false,
        topic_name: b"device/1/command/timezone_offset".to_vec(),
        packet_identifier: None,
        payload: b"+2".to_vec(),
    };
    client.handle_bytes(5, &encode(&Packet::Publish(inbound))).expect("consumed");
    match client.tick(6).expect("tick works") {
        TickOutcome::Deliver { message, acknowledgement } => {
            assert_eq!(acknowledgement, None);
            assert_eq!(message.payload, b"+2".to_vec());
        }
        other => panic!("expected a delivery, got {:?}", other),
    }
}

#[test]
fn malformed_bytes_are_fatal() {
    let mut client = active_client();
    let r = client.handle_bytes(5, &[0x20, 3, 1, 0]);
    assert_eq!(r, Err(MqttClientError::MqttPacketParsing));
}

#[test]
fn ping_bytes_are_a_ping_request() {
    let client = active_client();
    assert_eq!(client.ping().expect("ping fits"), vec![0xC0, 0]);
}

#[test]
fn connect_that_cannot_fit_reports_capacity() {
    let r = MqttClient::new(0, connect_params(), 4);
    assert_eq!(r.err(), Some(MqttClientError::Capacity));
}

#[test]
fn keep_alive_asks_for_a_ping_after_half_the_interval() {
    let mut keep_aliver = MqttKeepAliver::new(60, 1000);
    assert_eq!(keep_aliver.as_secs(), 60);
    assert!(!keep_aliver.needs_cycle(1000));
    assert!(!keep_aliver.needs_cycle(1030));
    assert!(keep_aliver.needs_cycle(1031));
    assert_eq!(keep_aliver.get_next_cycle_time(), 1030);
    keep_aliver.update_to_now(2000);
    assert!(!keep_aliver.needs_cycle(2000));
    assert!(!keep_aliver.needs_cycle(2030));
    assert!(keep_aliver.needs_cycle(2031));
}

#[test]
fn payload_classification_follows_the_topic() {
    let topics = TopicSet {
        timezone_offset: b"device/1/command/timezone_offset".to_vec(),
        set_color: b"device/1/command/set_color".to_vec(),
        start_program: b"device/1/command/start_program".to_vec(),
    };
    assert_eq!(
        MqttPayload::classify(&topics, b"device/1/command/set_color".to_vec(), vec![1, 2, 3]),
        MqttPayload::SetColor(vec![1, 2, 3])
    );
    assert_eq!(
        MqttPayload::classify(&topics, b"device/1/other".to_vec(), vec![9]),
        MqttPayload::Unknown { topic: b"device/1/other".to_vec(), payload: vec![9] }
    );
}
