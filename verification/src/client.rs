//! The session orchestrator. It composes the codec, the state machine
//! and the bounded write buffer into the connect, subscribe, publish and
//! steady-state tick operations, all as pure computations: the caller
//! performs every read and write, hands decoded-frame bytes in, and takes
//! encoded bytes out. Reads must be framed by the length-prefix header —
//! `frame_length` says how many bytes one packet occupies — never by
//! transport idleness.

use vstd::prelude::*;

use crate::bufwrite::BufWrite;
use crate::codec::spec_decode;
use crate::decode::decode_packet;
use crate::encode::encode_packet;
use crate::error::MqttClientError;
use crate::fsm::ActionView;
use crate::fsm::ClientState;
use crate::fsm::ExpectedAction;
use crate::fsm::FsmView;
use crate::fsm::MqttClientFsm;
use crate::fsm::fsm_wf;
use crate::fsm::spec_acknowledge;
use crate::fsm::spec_consume;
use crate::fsm::spec_publish;
use crate::fsm::spec_run;
use crate::fsm::spec_subscribe;
use crate::packet::Connect;
use crate::packet::Packet;
use crate::packet::PacketView;
use crate::packet::Publish;
use crate::packet::Subscribe;
use crate::packet::SubscribeView;
use crate::packet::Subscription;
use crate::packet::packet_bytes;
use crate::packet::packet_valid;
use crate::packet::subscriptions_bytes;
use crate::wire::bytes_eq;
use crate::wire::parse_varint;
use crate::wire::lemma_parse_varint_rec_bounds;
use crate::wire::take_varint;
use crate::wire::VARINT_MAX;

verus! {

/// How many bytes the packet at the head of `buf` occupies in all:
/// `Ok(Some(n))` once the fixed header and remaining length are readable,
/// `Ok(None)` while more bytes are needed to tell, and an error when the
/// length field itself is malformed and no further bytes can mend it.
pub fn frame_length(buf: &[u8]) -> (r: Result<Option<usize>, MqttClientError>)
    ensures
        match r {
            Ok(Some(n)) => buf@.len() >= 1 && (parse_varint(buf@, 1) matches Some((l, j))
                && n == j + l),
            Ok(None) => buf@.len() < 5 && (buf@.len() == 0 || parse_varint(buf@, 1) is None),
            Err(e) => e == MqttClientError::MqttPacketParsing && buf@.len() >= 5
                && parse_varint(buf@, 1) is None,
        },
{
    if buf.len() == 0 {
        return Ok(None);
    }
    proof {
        lemma_parse_varint_rec_bounds(buf@, 1, 4);
    }
    match take_varint(buf, 1) {
        Some((l, j)) => Ok(Some(j + l as usize)),
        None => {
            if buf.len() >= 5 {
                Err(MqttClientError::MqttPacketParsing)
            } else {
                Ok(None)
            }
        },
    }
}

/// A payload received over the session, classified by the command topic
/// it arrived on.
#[derive(Debug, PartialEq, Eq)]
pub enum MqttPayload {
    /// A new time-zone offset.
    Timezone(Vec<u8>),
    /// A colour to show.
    SetColor(Vec<u8>),
    /// The name of a program to start.
    StartProgram(Vec<u8>),
    /// A message on a topic this device has no command for.
    Unknown { topic: Vec<u8>, payload: Vec<u8> },
}

/// The command topics one device listens on.
pub struct TopicSet {
    pub timezone_offset: Vec<u8>,
    pub set_color: Vec<u8>,
    pub start_program: Vec<u8>,
}

impl MqttPayload {
    /// Classify one received message by comparing its topic against the
    /// device's command topics, first match in the order time zone,
    /// colour, program.
    pub fn classify(topics: &TopicSet, topic: Vec<u8>, payload: Vec<u8>) -> (r: MqttPayload)
        ensures
            r == (if topic@ == topics.timezone_offset@ {
                MqttPayload::Timezone(payload)
            } else if topic@ == topics.set_color@ {
                MqttPayload::SetColor(payload)
            } else if topic@ == topics.start_program@ {
                MqttPayload::StartProgram(payload)
            } else {
                MqttPayload::Unknown { topic, payload }
            }),
    {
        if bytes_eq(topic.as_slice(), topics.timezone_offset.as_slice()) {
            MqttPayload::Timezone(payload)
        } else if bytes_eq(topic.as_slice(), topics.set_color.as_slice()) {
            MqttPayload::SetColor(payload)
        } else if bytes_eq(topic.as_slice(), topics.start_program.as_slice()) {
            MqttPayload::StartProgram(payload)
        } else {
            MqttPayload::Unknown { topic, payload }
        }
    }
}

/// Mathematical view of the orchestrator.
pub struct ClientView {
    pub fsm: FsmView,
    pub write_capacity: int,
}

/// What one steady-state tick asks the caller to do.
#[derive(Debug, PartialEq, Eq)]
pub enum TickOutcome {
    /// Nothing is pending.
    Idle,
    /// Drop the bytes stored under `id`: their delivery completed.
    Release { id: u16 },
    /// Hand this message to the application. When an acknowledgement is
    /// attached, write it to the transport first.
    Deliver { message: Publish, acknowledgement: Option<Vec<u8>> },
    /// The state machine asked for the connection to be torn down.
    Disconnected,
}

/// The session orchestrator: a state machine plus the capacity of the
/// fixed outbound buffer each packet is serialized into.
pub struct MqttClient {
    fsm: MqttClientFsm,
    write_capacity: usize,
}

impl View for MqttClient {
    type V = ClientView;

    closed spec fn view(&self) -> ClientView {
        ClientView { fsm: self.fsm@, write_capacity: self.write_capacity as int }
    }
}

/// Encode `p` into a fresh buffer of `cap` bytes; the write succeeds
/// exactly when the encoding fits.
fn encode_to_vec(p: &Packet, cap: usize) -> (r: Result<Vec<u8>, MqttClientError>)
    requires
        packet_valid(p@),
    ensures
        match r {
            Ok(bytes) => bytes@ == packet_bytes(p@) && packet_bytes(p@).len() <= cap,
            Err(e) => e == MqttClientError::Capacity && packet_bytes(p@).len() > cap,
        },
{
    let mut w = BufWrite::new(cap);
    match encode_packet(p, &mut w) {
        Ok(()) => {
            proof {
                assert(w@ =~= packet_bytes(p@));
            }
            Ok(w.into_vec())
        },
        Err(_) => Err(MqttClientError::Capacity),
    }
}

impl MqttClient {
    /// Start one connection attempt: a fresh session whose connect packet
    /// is handed back as the bytes to write, sized against a write buffer
    /// of `write_capacity` bytes. Fails exactly when the connect packet
    /// does not fit that buffer.
    pub fn new(now: u64, connect: Connect, write_capacity: usize) -> (r: Result<
        (MqttClient, Vec<u8>),
        MqttClientError,
    >)
        requires
            packet_valid(PacketView::Connect(connect@)),
        ensures
            match r {
                Ok((c, bytes)) => {
                    &&& bytes@ == packet_bytes(PacketView::Connect(connect@))
                    &&& c@.fsm.state == ClientState::AwaitingConnack
                    &&& c@.fsm.pending is None
                    &&& c@.fsm.next_packet_identifier == 1
                    &&& c@.fsm.outstanding == Seq::<u16>::empty()
                    &&& c@.fsm.keep_alive == connect@.keep_alive
                    &&& c@.write_capacity == write_capacity
                    &&& fsm_wf(c@.fsm)
                },
                Err(e) => e == MqttClientError::Capacity && packet_bytes(
                    PacketView::Connect(connect@),
                ).len() > write_capacity,
            },
    {
        let mut fsm = MqttClientFsm::new(connect.keep_alive);
        fsm.handle_connect(now, connect);
        match fsm.run(now) {
            Some(ExpectedAction::SendPacket(p)) => {
                let bytes = match encode_to_vec(&p, write_capacity) {
                    Ok(b) => b,
                    Err(e) => {
                        return Err(e);
                    },
                };
                Ok((MqttClient { fsm, write_capacity }, bytes))
            },
            _ => {
                proof {
                    assert(false);
                }
                Err(MqttClientError::FsmUnexpectedAction)
            },
        }
    }

    /// The phase the session is in.
    pub fn state(&self) -> (r: ClientState)
        ensures
            r == self@.fsm.state,
    {
        self.fsm.state()
    }

    /// Feed the packet that answers the connect. A success reason code
    /// moves the session to `Connected` and yields the session-present
    /// flag; any other reason code is the broker's rejection, returned as
    /// the specific error; anything that is not a connection
    /// acknowledgement is a protocol error. Both failures end the
    /// session.
    pub fn handle_connack(&mut self, now: u64, packet: Packet) -> (r: Result<
        bool,
        MqttClientError,
    >)
        requires
            old(self)@.fsm.state == ClientState::AwaitingConnack,
            old(self)@.fsm.pending is None,
            fsm_wf(old(self)@.fsm),
        ensures
            final(self)@.fsm == spec_consume(old(self)@.fsm, packet@).0,
            final(self)@.write_capacity == old(self)@.write_capacity,
            fsm_wf(final(self)@.fsm),
            match r {
                Ok(sp) => packet@ matches PacketView::Connack(c) && c.reason_code == 0 && sp
                    == c.session_present && final(self)@.fsm.state == ClientState::Connected,
                Err(e) => match packet@ {
                    PacketView::Connack(c) => c.reason_code != 0 && e
                        == MqttClientError::ConnackUnsuccessful(c.reason_code),
                    _ => e == MqttClientError::UnexpectedPacket,
                },
            },
    {
        match packet {
            Packet::Connack(c) => {
                let sp = c.session_present;
                match self.fsm.consume(now, Packet::Connack(c)) {
                    Ok(()) => Ok(sp),
                    Err(e) => Err(e),
                }
            },
            other => {
                let _ = self.fsm.consume(now, other);
                Err(MqttClientError::UnexpectedPacket)
            },
        }
    }

    /// Ask for these subscriptions under a freshly allocated packet
    /// identifier, yielding the subscribe packet's bytes to write. Fails
    /// exactly when the identifier space is used up or the packet does
    /// not fit the write buffer.
    pub fn subscribe(&mut self, now: u64, subscriptions: Vec<Subscription>) -> (r: Result<
        Vec<u8>,
        MqttClientError,
    >)
        requires
            old(self)@.fsm.state == ClientState::Connected,
            old(self)@.fsm.pending is None,
            fsm_wf(old(self)@.fsm),
            subscriptions@.len() >= 1,
            forall|k: int| 0 <= k < subscriptions@.len()
                ==> (#[trigger] subscriptions@[k])@.topic_filter.len() <= 65535,
            3 + subscriptions_bytes(
                Seq::new(subscriptions@.len(), |k: int| subscriptions@[k]@),
                0,
            ).len() <= VARINT_MAX,
        ensures
            final(self)@.write_capacity == old(self)@.write_capacity,
            fsm_wf(final(self)@.fsm),
            ({
                let views = Seq::new(subscriptions@.len(), |k: int| subscriptions@[k]@);
                let (s1, e1) = spec_subscribe(old(self)@.fsm, views);
                match r {
                    Ok(bytes) => e1 is None && final(self)@.fsm == spec_run(s1).0 && bytes@
                        == packet_bytes(
                        PacketView::Subscribe(
                            SubscribeView {
                                packet_identifier: old(self)@.fsm.next_packet_identifier,
                                subscriptions: views,
                            },
                        ),
                    ),
                    Err(e) => (e == MqttClientError::PacketIdentifiersExhausted && e1 == Some(e)
                        && final(self)@.fsm == old(self)@.fsm) || (e == MqttClientError::Capacity
                        && e1 is None && final(self)@.fsm == spec_run(s1).0 && packet_bytes(
                        PacketView::Subscribe(
                            SubscribeView {
                                packet_identifier: old(self)@.fsm.next_packet_identifier,
                                subscriptions: views,
                            },
                        ),
                    ).len() > old(self)@.write_capacity),
                }
            }),
    {
        let request = Subscribe { packet_identifier: 1, subscriptions };
        proof {
            assert(request@.subscriptions =~= Seq::new(
                request.subscriptions@.len(),
                |k: int| request.subscriptions@[k]@,
            ));
        }
        match self.fsm.subscribe(now, request) {
            Err(e) => Err(e),
            Ok(()) => {
                match self.fsm.run(now) {
                    Some(ExpectedAction::SendPacket(p)) => {
                        proof {
                            assert(p@ matches PacketView::Subscribe(sv)
                                && sv.packet_identifier >= 1);
                        }
                        encode_to_vec(&p, self.write_capacity)
                    },
                    _ => {
                        proof {
                            assert(false);
                        }
                        Err(MqttClientError::FsmUnexpectedAction)
                    },
                }
            },
        }
    }

    /// Feed the packet that answers the subscribe. The subscription
    /// stands — the session becomes `Active` — exactly when the packet is
    /// the matching subscription acknowledgement and every one of its
    /// reasons grants a quality-of-service level; one rejected filter
    /// fails the whole subscribe. Both failures end the session.
    pub fn handle_suback(&mut self, now: u64, packet: Packet) -> (r: Result<
        (),
        MqttClientError,
    >)
        requires
            old(self)@.fsm.state == ClientState::AwaitingSuback,
            old(self)@.fsm.pending is None,
            fsm_wf(old(self)@.fsm),
        ensures
            final(self)@.fsm == spec_consume(old(self)@.fsm, packet@).0,
            final(self)@.write_capacity == old(self)@.write_capacity,
            fsm_wf(final(self)@.fsm),
            match r {
                Ok(()) => (packet@ matches PacketView::Suback(sb)
                    && old(self)@.fsm.sub_pending == Some(sb.packet_identifier)
                    && crate::fsm::all_reasons_granted(sb.reasons)) && final(self)@.fsm.state
                    == ClientState::Active,
                Err(e) => match packet@ {
                    PacketView::Suback(sb) => if old(self)@.fsm.sub_pending == Some(
                        sb.packet_identifier,
                    ) {
                        !crate::fsm::all_reasons_granted(sb.reasons) && e
                            == MqttClientError::AnySubscribeFailed
                    } else {
                        e == MqttClientError::UnexpectedPacket
                    },
                    _ => e == MqttClientError::UnexpectedPacket,
                },
            },
    {
        match packet {
            Packet::Suback(sb) => self.fsm.consume(now, Packet::Suback(sb)),
            other => {
                let _ = self.fsm.consume(now, other);
                Err(MqttClientError::UnexpectedPacket)
            },
        }
    }

    /// Publish one application message. The returned outcome carries the
    /// bytes to write; for at-least-once delivery it also names the fresh
    /// packet identifier under which the caller must store those bytes
    /// until the matching release. Fails exactly when the identifier
    /// space is used up or the packet does not fit the write buffer.
    pub fn publish(&mut self, now: u64, packet: Publish) -> (r: Result<
        (Vec<u8>, Option<u16>),
        MqttClientError,
    >)
        requires
            old(self)@.fsm.state == ClientState::Connected || old(self)@.fsm.state
                == ClientState::Active,
            fsm_wf(old(self)@.fsm),
            packet@.packet_identifier is None,
            !packet@.duplicate,
            packet@.topic_name.len() <= 65535,
            5 + packet@.topic_name.len() + packet@.payload.len() <= VARINT_MAX,
        ensures
            final(self)@.write_capacity == old(self)@.write_capacity,
            fsm_wf(final(self)@.fsm),
            ({
                let (s1, a) = spec_publish(old(self)@.fsm, packet@);
                match r {
                    Ok((bytes, store)) => a matches Some(av) && final(self)@.fsm == s1 && (match av {
                        ActionView::SendPacket(pv) => store is None && bytes@ == packet_bytes(pv),
                        ActionView::StorePacket { id, packet: pv } => store == Some(id) && bytes@
                            == packet_bytes(pv),
                        _ => false,
                    }),
                    Err(e) => (e == MqttClientError::PacketIdentifiersExhausted && a is None
                        && final(self)@.fsm == old(self)@.fsm) || (e == MqttClientError::Capacity
                        && final(self)@.fsm == s1 && (a matches Some(av) && (match av {
                        ActionView::SendPacket(pv) => packet_bytes(pv).len()
                            > old(self)@.write_capacity,
                        ActionView::StorePacket { packet: pv, .. } => packet_bytes(pv).len()
                            > old(self)@.write_capacity,
                        _ => false,
                    }))),
                }
            }),
    {
        match self.fsm.publish(packet) {
            Err(e) => Err(e),
            Ok(ExpectedAction::SendPacket(p)) => {
                match encode_to_vec(&p, self.write_capacity) {
                    Ok(bytes) => Ok((bytes, None)),
                    Err(e) => Err(e),
                }
            },
            Ok(ExpectedAction::StorePacket { id, packet: p }) => {
                match encode_to_vec(&p, self.write_capacity) {
                    Ok(bytes) => Ok((bytes, Some(id))),
                    Err(e) => Err(e),
                }
            },
            Ok(_) => {
                proof {
                    assert(false);
                }
                Err(MqttClientError::FsmUnexpectedAction)
            },
        }
    }

    /// The keep-alive ping packet's bytes. Fails exactly when even this
    /// two-byte packet does not fit the write buffer.
    pub fn ping(&self) -> (r: Result<Vec<u8>, MqttClientError>)
        ensures
            match r {
                Ok(bytes) => bytes@ == packet_bytes(PacketView::Pingreq),
                Err(e) => e == MqttClientError::Capacity && packet_bytes(
                    PacketView::Pingreq,
                ).len() > self@.write_capacity,
            },
    {
        encode_to_vec(&Packet::Pingreq, self.write_capacity)
    }

    /// Decode exactly one framed packet and feed it to the state
    /// machine. Bytes that are not one well-formed packet are fatal:
    /// the parse error comes back and the caller must tear the session
    /// down — the same bytes are never retried.
    pub fn handle_bytes(&mut self, now: u64, bytes: &[u8]) -> (r: Result<(), MqttClientError>)
        requires
            old(self)@.fsm.pending is None,
            fsm_wf(old(self)@.fsm),
        ensures
            final(self)@.write_capacity == old(self)@.write_capacity,
            fsm_wf(final(self)@.fsm),
            match spec_decode(bytes@) {
                None => r == Err::<(), MqttClientError>(MqttClientError::MqttPacketParsing)
                    && final(self)@.fsm == old(self)@.fsm,
                Some(pv) => final(self)@.fsm == spec_consume(old(self)@.fsm, pv).0 && (match r {
                    Ok(()) => None,
                    Err(e) => Some(e),
                }) == spec_consume(old(self)@.fsm, pv).1,
            },
    {
        match decode_packet(bytes) {
            Err(_) => Err(MqttClientError::MqttPacketParsing),
            Ok(p) => self.fsm.consume(now, p),
        }
    }

    /// Drain one pending action; the outcome is fixed by what was
    /// pending. Nothing pending yields the idle outcome, so a second call
    /// right after one that returned work yields idle. A delivery comes
    /// back with its acknowledgement, already encoded, so the caller
    /// writes exactly one acknowledgement packet — carrying the
    /// identifier of the inbound message — before handing the payload to
    /// the application; it fails only when that acknowledgement exceeds
    /// the write buffer, or when the pending action is one this
    /// orchestrator never queues.
    pub fn tick(&mut self, now: u64) -> (r: Result<TickOutcome, MqttClientError>)
        requires
            fsm_wf(old(self)@.fsm),
        ensures
            final(self)@.write_capacity == old(self)@.write_capacity,
            fsm_wf(final(self)@.fsm),
            final(self)@.fsm == spec_run(old(self)@.fsm).0,
            ({
                let popped = spec_run(old(self)@.fsm).1;
                match popped {
                    None => r matches Ok(TickOutcome::Idle),
                    Some(ActionView::ReleasePacket { id }) => r matches Ok(
                        TickOutcome::Release { id: rid },
                    ) && rid == id,
                    Some(ActionView::Disconnect) => r matches Ok(TickOutcome::Disconnected),
                    Some(ActionView::Deliver { packet, acknowledge }) => if !(packet matches
                    PacketView::Publish(_)) {
                        r matches Err(e) && e == MqttClientError::FsmUnexpectedAction
                    } else {
                        match acknowledge {
                            None => r matches Ok(
                                TickOutcome::Deliver { message, acknowledgement },
                            ) && PacketView::Publish(message@) == packet
                                && acknowledgement is None,
                            Some(i) => if i == 0 {
                                r matches Err(e) && e == MqttClientError::FsmUnexpectedAction
                            } else if packet_bytes(spec_acknowledge(i)).len() > old(
                                self,
                            )@.write_capacity {
                                r matches Err(e) && e == MqttClientError::Capacity
                            } else {
                                r matches Ok(TickOutcome::Deliver { message, acknowledgement })
                                    && PacketView::Publish(message@) == packet
                                    && (acknowledgement matches Some(ab) && ab@ == packet_bytes(
                                    spec_acknowledge(i),
                                ))
                            },
                        }
                    },
                    Some(_) => r matches Err(e) && e == MqttClientError::FsmUnexpectedAction,
                }
            }),
    {
        match self.fsm.run(now) {
            None => Ok(TickOutcome::Idle),
            Some(ExpectedAction::ReleasePacket { id }) => Ok(TickOutcome::Release { id }),
            Some(ExpectedAction::Disconnect) => Ok(TickOutcome::Disconnected),
            Some(ExpectedAction::Deliver { packet, acknowledge }) => {
                let message = match packet {
                    Packet::Publish(pb) => pb,
                    _ => {
                        return Err(MqttClientError::FsmUnexpectedAction);
                    },
                };
                match acknowledge {
                    None => Ok(TickOutcome::Deliver { message, acknowledgement: None }),
                    Some(a) => {
                        if a.packet_identifier == 0 {
                            return Err(MqttClientError::FsmUnexpectedAction);
                        }
                        let ack_action = self.fsm.acknowledge(now, a);
                        match ack_action {
                            ExpectedAction::SendPacket(pk) => {
                                let bytes = match encode_to_vec(&pk, self.write_capacity) {
                                    Ok(b) => b,
                                    Err(e) => {
                                        return Err(e);
                                    },
                                };
                                Ok(
                                    TickOutcome::Deliver {
                                        message,
                                        acknowledgement: Some(bytes),
                                    },
                                )
                            },
                            _ => {
                                proof {
                                    assert(false);
                                }
                                Err(MqttClientError::FsmUnexpectedAction)
                            },
                        }
                    },
                }
            },
            Some(_) => Err(MqttClientError::FsmUnexpectedAction),
        }
    }
}

} // verus!
