//! Typed control packets of the wire protocol, their validity conditions,
//! and the specification-level encoding of each packet into bytes.
//!
//! Every field is a plain value; string and binary fields are byte vectors
//! limited to the two-byte length prefix the wire format allows.

use vstd::prelude::*;

use crate::wire::enc_bin;
use crate::wire::enc_u16;
use crate::wire::enc_varint;
use crate::wire::VARINT_MAX;

verus! {

/// Delivery guarantee level for one message.
#[derive(Clone, Copy, Debug, PartialEq, Eq, Structural)]
pub enum Qos {
    AtMostOnce,
    AtLeastOnce,
    ExactlyOnce,
}

/// The wire value of a quality-of-service level.
pub open spec fn qos_value(q: Qos) -> u8 {
    match q {
        Qos::AtMostOnce => 0,
        Qos::AtLeastOnce => 1,
        Qos::ExactlyOnce => 2,
    }
}

impl Qos {
    /// The wire value of this quality-of-service level.
    pub fn to_byte(self) -> (r: u8)
        ensures
            r == qos_value(self),
    {
        match self {
            Qos::AtMostOnce => 0,
            Qos::AtLeastOnce => 1,
            Qos::ExactlyOnce => 2,
        }
    }

    /// Reads a quality-of-service level back from its wire value.
    pub fn from_byte(b: u8) -> (r: Option<Qos>)
        ensures
            match r {
                Some(q) => b == qos_value(q),
                None => b > 2,
            },
    {
        if b == 0 {
            Some(Qos::AtMostOnce)
        } else if b == 1 {
            Some(Qos::AtLeastOnce)
        } else if b == 2 {
            Some(Qos::ExactlyOnce)
        } else {
            None
        }
    }
}

/// How retained messages are replayed when a subscription is made.
#[derive(Clone, Copy, Debug, PartialEq, Eq, Structural)]
pub enum RetainHandling {
    SendRetainedMessagesAlways,
    SendRetainedMessagesOnNewSubscribe,
    DoNotSendRetainedMessages,
}

/// The wire value of a retain-handling policy.
pub open spec fn retain_handling_value(r: RetainHandling) -> u8 {
    match r {
        RetainHandling::SendRetainedMessagesAlways => 0,
        RetainHandling::SendRetainedMessagesOnNewSubscribe => 1,
        RetainHandling::DoNotSendRetainedMessages => 2,
    }
}

// ---------------------------------------------------------------------
// Packet structures and their mathematical views.

/// Message the broker publishes on the client's behalf after an unclean
/// disconnect.
#[derive(Debug, PartialEq, Eq)]
pub struct Will {
    pub topic: Vec<u8>,
    pub payload: Vec<u8>,
    pub qos: Qos,
    pub retain: bool,
}

/// Mathematical view of a will message.
pub struct WillView {
    pub topic: Seq<u8>,
    pub payload: Seq<u8>,
    pub qos: Qos,
    pub retain: bool,
}

impl View for Will {
    type V = WillView;

    open spec fn view(&self) -> WillView {
        WillView {
            topic: self.topic@,
            payload: self.payload@,
            qos: self.qos,
            retain: self.retain,
        }
    }
}

/// Connection request sent by the client.
#[derive(Debug, PartialEq, Eq)]
pub struct Connect {
    pub client_identifier: Vec<u8>,
    pub username: Option<Vec<u8>>,
    pub password: Option<Vec<u8>>,
    pub clean_start: bool,
    pub will: Option<Will>,
    pub keep_alive: u16,
}

/// Mathematical view of a connection request.
pub struct ConnectView {
    pub client_identifier: Seq<u8>,
    pub username: Option<Seq<u8>>,
    pub password: Option<Seq<u8>>,
    pub clean_start: bool,
    pub will: Option<WillView>,
    pub keep_alive: u16,
}

impl View for Connect {
    type V = ConnectView;

    open spec fn view(&self) -> ConnectView {
        ConnectView {
            client_identifier: self.client_identifier@,
            username: match self.username {
                Some(u) => Some(u@),
                None => None,
            },
            password: match self.password {
                Some(p) => Some(p@),
                None => None,
            },
            clean_start: self.clean_start,
            will: match self.will {
                Some(w) => Some(w@),
                None => None,
            },
            keep_alive: self.keep_alive,
        }
    }
}

/// Broker's answer to a connection request.
#[derive(Debug, PartialEq, Eq)]
pub struct Connack {
    pub session_present: bool,
    pub reason_code: u8,
}

/// Mathematical view of a connection acknowledgement.
pub struct ConnackView {
    pub session_present: bool,
    pub reason_code: u8,
}

impl View for Connack {
    type V = ConnackView;

    open spec fn view(&self) -> ConnackView {
        ConnackView { session_present: self.session_present, reason_code: self.reason_code }
    }
}

/// Delivery options requested for one topic filter.
#[derive(Clone, Copy, Debug, PartialEq, Eq, Structural)]
pub struct SubscriptionOptions {
    pub quality_of_service: Qos,
    pub no_local: bool,
    pub retain_as_published: bool,
    pub retain_handling: RetainHandling,
}

/// One topic filter with its delivery options.
#[derive(Debug, PartialEq, Eq)]
pub struct Subscription {
    pub topic_filter: Vec<u8>,
    pub options: SubscriptionOptions,
}

/// Mathematical view of one subscription entry.
pub struct SubscriptionView {
    pub topic_filter: Seq<u8>,
    pub options: SubscriptionOptions,
}

impl View for Subscription {
    type V = SubscriptionView;

    open spec fn view(&self) -> SubscriptionView {
        SubscriptionView { topic_filter: self.topic_filter@, options: self.options }
    }
}

/// Subscription request sent by the client.
#[derive(Debug, PartialEq, Eq)]
pub struct Subscribe {
    pub packet_identifier: u16,
    pub subscriptions: Vec<Subscription>,
}

/// Mathematical view of a subscription request.
pub struct SubscribeView {
    pub packet_identifier: u16,
    pub subscriptions: Seq<SubscriptionView>,
}

impl View for Subscribe {
    type V = SubscribeView;

    open spec fn view(&self) -> SubscribeView {
        SubscribeView {
            packet_identifier: self.packet_identifier,
            subscriptions: Seq::new(
                self.subscriptions@.len(),
                |k: int| self.subscriptions@[k]@,
            ),
        }
    }
}

/// Broker's answer to a subscription request: one reason per filter.
#[derive(Debug, PartialEq, Eq)]
pub struct Suback {
    pub packet_identifier: u16,
    pub reasons: Vec<u8>,
}

/// Mathematical view of a subscription acknowledgement.
pub struct SubackView {
    pub packet_identifier: u16,
    pub reasons: Seq<u8>,
}

impl View for Suback {
    type V = SubackView;

    open spec fn view(&self) -> SubackView {
        SubackView { packet_identifier: self.packet_identifier, reasons: self.reasons@ }
    }
}

/// Application message travelling in either direction.
#[derive(Debug, PartialEq, Eq)]
pub struct Publish {
    pub duplicate: bool,
    pub quality_of_service: Qos,
    pub retain: bool,
    pub topic_name: Vec<u8>,
    pub packet_identifier: Option<u16>,
    pub payload: Vec<u8>,
}

/// Mathematical view of an application message.
pub struct PublishView {
    pub duplicate: bool,
    pub quality_of_service: Qos,
    pub retain: bool,
    pub topic_name: Seq<u8>,
    pub packet_identifier: Option<u16>,
    pub payload: Seq<u8>,
}

impl View for Publish {
    type V = PublishView;

    open spec fn view(&self) -> PublishView {
        PublishView {
            duplicate: self.duplicate,
            quality_of_service: self.quality_of_service,
            retain: self.retain,
            topic_name: self.topic_name@,
            packet_identifier: self.packet_identifier,
            payload: self.payload@,
        }
    }
}

/// Acknowledgement of an at-least-once publish.
#[derive(Debug, PartialEq, Eq)]
pub struct Puback {
    pub packet_identifier: u16,
    pub reason_code: u8,
}

/// Mathematical view of a publish acknowledgement.
pub struct PubackView {
    pub packet_identifier: u16,
    pub reason_code: u8,
}

impl View for Puback {
    type V = PubackView;

    open spec fn view(&self) -> PubackView {
        PubackView {
            packet_identifier: self.packet_identifier,
            reason_code: self.reason_code,
        }
    }
}

/// Orderly end of the session.
#[derive(Debug, PartialEq, Eq)]
pub struct Disconnect {
    pub reason_code: u8,
}

/// Mathematical view of a disconnect notice.
pub struct DisconnectView {
    pub reason_code: u8,
}

impl View for Disconnect {
    type V = DisconnectView;

    open spec fn view(&self) -> DisconnectView {
        DisconnectView { reason_code: self.reason_code }
    }
}

/// One typed control packet.
#[derive(Debug, PartialEq, Eq)]
pub enum Packet {
    Connect(Connect),
    Connack(Connack),
    Subscribe(Subscribe),
    Suback(Suback),
    Publish(Publish),
    Puback(Puback),
    Pingreq,
    Pingresp,
    Disconnect(Disconnect),
}

/// Mathematical view of one control packet.
pub enum PacketView {
    Connect(ConnectView),
    Connack(ConnackView),
    Subscribe(SubscribeView),
    Suback(SubackView),
    Publish(PublishView),
    Puback(PubackView),
    Pingreq,
    Pingresp,
    Disconnect(DisconnectView),
}

impl View for Packet {
    type V = PacketView;

    open spec fn view(&self) -> PacketView {
        match self {
            Packet::Connect(c) => PacketView::Connect(c@),
            Packet::Connack(c) => PacketView::Connack(c@),
            Packet::Subscribe(s) => PacketView::Subscribe(s@),
            Packet::Suback(s) => PacketView::Suback(s@),
            Packet::Publish(p) => PacketView::Publish(p@),
            Packet::Puback(p) => PacketView::Puback(p@),
            Packet::Pingreq => PacketView::Pingreq,
            Packet::Pingresp => PacketView::Pingresp,
            Packet::Disconnect(d) => PacketView::Disconnect(d@),
        }
    }
}

// ---------------------------------------------------------------------
// Validity: which packet values the wire format can represent.

/// A will message the wire format can carry.
pub open spec fn will_valid(w: WillView) -> bool {
    &&& w.topic.len() <= 65535
    &&& w.payload.len() <= 65535
}

/// A connection request the wire format can carry.
pub open spec fn connect_valid(c: ConnectView) -> bool {
    &&& c.client_identifier.len() <= 65535
    &&& match c.username {
        Some(u) => u.len() <= 65535,
        None => true,
    }
    &&& match c.password {
        Some(p) => p.len() <= 65535,
        None => true,
    }
    &&& match c.will {
        Some(w) => will_valid(w),
        None => true,
    }
}

/// A connection acknowledgement the wire format can carry.
pub open spec fn connack_valid(c: ConnackView) -> bool {
    true
}

/// One subscription entry the wire format can carry.
pub open spec fn subscription_valid(s: SubscriptionView) -> bool {
    s.topic_filter.len() <= 65535
}

/// A subscription request the wire format can carry.
pub open spec fn subscribe_valid(s: SubscribeView) -> bool {
    &&& s.packet_identifier != 0
    &&& s.subscriptions.len() >= 1
    &&& forall|k: int| 0 <= k < s.subscriptions.len()
        ==> subscription_valid(#[trigger] s.subscriptions[k])
}

/// A subscription acknowledgement the wire format can carry.
pub open spec fn suback_valid(s: SubackView) -> bool {
    s.packet_identifier != 0
}

/// An application message the wire format can carry.
pub open spec fn publish_valid(p: PublishView) -> bool {
    &&& p.topic_name.len() <= 65535
    &&& match p.packet_identifier {
        Some(i) => i != 0 && p.quality_of_service != Qos::AtMostOnce,
        None => p.quality_of_service == Qos::AtMostOnce,
    }
    &&& p.quality_of_service == Qos::AtMostOnce ==> !p.duplicate
}

/// A publish acknowledgement the wire format can carry.
pub open spec fn puback_valid(p: PubackView) -> bool {
    p.packet_identifier != 0
}

/// A packet the wire format can represent: its fields fit their length
/// prefixes and its body fits the variable-length remaining-length field.
pub open spec fn packet_valid(p: PacketView) -> bool {
    &&& match p {
        PacketView::Connect(c) => connect_valid(c),
        PacketView::Connack(c) => connack_valid(c),
        PacketView::Subscribe(s) => subscribe_valid(s),
        PacketView::Suback(s) => suback_valid(s),
        PacketView::Publish(pb) => publish_valid(pb),
        PacketView::Puback(pb) => puback_valid(pb),
        PacketView::Pingreq => true,
        PacketView::Pingresp => true,
        PacketView::Disconnect(d) => true,
    }
    &&& body_bytes(p).len() <= VARINT_MAX
}

// ---------------------------------------------------------------------
// Specification-level encoding.

/// The protocol name that opens every connection request.
pub open spec fn protocol_name() -> Seq<u8> {
    seq![77u8, 81u8, 84u8, 84u8]
}

/// The wire level of the protocol this codec speaks.
pub const PROTOCOL_LEVEL: u8 = 5;

/// The first byte of the fixed header: packet kind in the upper four bits,
/// kind-specific flags in the lower four.
pub open spec fn header_byte(p: PacketView) -> u8 {
    match p {
        PacketView::Connect(_) => 16,
        PacketView::Connack(_) => 32,
        PacketView::Publish(pb) => (48 + (if pb.duplicate { 8int } else { 0int }) + 2
            * qos_value(pb.quality_of_service) + (if pb.retain { 1int } else { 0int })) as u8,
        PacketView::Puback(_) => 64,
        PacketView::Subscribe(_) => 130,
        PacketView::Suback(_) => 144,
        PacketView::Pingreq => 192,
        PacketView::Pingresp => 208,
        PacketView::Disconnect(_) => 224,
    }
}

/// The connect-flags byte: one bit per optional field, the will quality
/// of service in bits three and four.
pub open spec fn connect_flags(c: ConnectView) -> u8 {
    ((if c.username is Some { 128int } else { 0int })
        + (if c.password is Some { 64int } else { 0int })
        + (match c.will {
            Some(w) => 32 * (if w.retain { 1int } else { 0int }) + 8 * (qos_value(w.qos) as int)
                + 4,
            None => 0int,
        })
        + (if c.clean_start { 2int } else { 0int })) as u8
}

/// Encoding of the will fields: empty will properties, topic, payload —
/// or nothing when no will was asked for.
pub open spec fn will_bytes(w: Option<WillView>) -> Seq<u8> {
    match w {
        Some(w) => seq![0u8] + enc_bin(w.topic) + enc_bin(w.payload),
        None => Seq::<u8>::empty(),
    }
}

/// Encoding of an optional length-prefixed field.
pub open spec fn opt_bin_bytes(o: Option<Seq<u8>>) -> Seq<u8> {
    match o {
        Some(b) => enc_bin(b),
        None => Seq::<u8>::empty(),
    }
}

/// Body of a connection request: protocol name and level, flags,
/// keep-alive, empty properties, then the payload fields in order.
pub open spec fn connect_body(c: ConnectView) -> Seq<u8> {
    enc_bin(protocol_name()) + seq![PROTOCOL_LEVEL] + seq![connect_flags(c)]
        + enc_u16(c.keep_alive) + seq![0u8] + enc_bin(c.client_identifier)
        + will_bytes(c.will) + opt_bin_bytes(c.username) + opt_bin_bytes(c.password)
}

/// Body of a connection acknowledgement: flags byte, reason code, empty
/// properties.
pub open spec fn connack_body(c: ConnackView) -> Seq<u8> {
    seq![(if c.session_present { 1u8 } else { 0u8 }), c.reason_code, 0u8]
}

/// Encoding of one subscription entry: filter, then the options byte.
pub open spec fn subscription_bytes(s: SubscriptionView) -> Seq<u8> {
    enc_bin(s.topic_filter) + seq![subscription_options_byte(s.options)]
}

/// The options byte of one subscription entry.
pub open spec fn subscription_options_byte(o: SubscriptionOptions) -> u8 {
    (qos_value(o.quality_of_service) + (if o.no_local { 4int } else { 0int })
        + (if o.retain_as_published { 8int } else { 0int })
        + 16 * (retain_handling_value(o.retain_handling) as int)) as u8
}

/// Concatenated encodings of the subscription entries from index `k` on.
pub open spec fn subscriptions_bytes(subs: Seq<SubscriptionView>, k: int) -> Seq<u8>
    decreases subs.len() - k,
{
    if k < 0 || k >= subs.len() {
        Seq::<u8>::empty()
    } else {
        subscription_bytes(subs[k]) + subscriptions_bytes(subs, k + 1)
    }
}

/// Body of a subscription request: identifier, empty properties, entries.
pub open spec fn subscribe_body(s: SubscribeView) -> Seq<u8> {
    enc_u16(s.packet_identifier) + seq![0u8] + subscriptions_bytes(s.subscriptions, 0)
}

/// Body of a subscription acknowledgement: identifier, empty properties,
/// one reason byte per filter.
pub open spec fn suback_body(s: SubackView) -> Seq<u8> {
    enc_u16(s.packet_identifier) + seq![0u8] + s.reasons
}

/// Body of an application message: topic, identifier when one is owed,
/// empty properties, payload.
pub open spec fn publish_body(p: PublishView) -> Seq<u8> {
    enc_bin(p.topic_name)
        + (match p.packet_identifier {
            Some(i) => enc_u16(i),
            None => Seq::<u8>::empty(),
        })
        + seq![0u8] + p.payload
}

/// Body of a publish acknowledgement: identifier, reason, empty
/// properties.
pub open spec fn puback_body(p: PubackView) -> Seq<u8> {
    enc_u16(p.packet_identifier) + seq![p.reason_code, 0u8]
}

/// Body of a disconnect notice: reason, empty properties.
pub open spec fn disconnect_body(d: DisconnectView) -> Seq<u8> {
    seq![d.reason_code, 0u8]
}

/// Variable header and payload of a packet, the part the remaining-length
/// field counts.
pub open spec fn body_bytes(p: PacketView) -> Seq<u8> {
    match p {
        PacketView::Connect(c) => connect_body(c),
        PacketView::Connack(c) => connack_body(c),
        PacketView::Subscribe(s) => subscribe_body(s),
        PacketView::Suback(s) => suback_body(s),
        PacketView::Publish(pb) => publish_body(pb),
        PacketView::Puback(pb) => puback_body(pb),
        PacketView::Pingreq => Seq::<u8>::empty(),
        PacketView::Pingresp => Seq::<u8>::empty(),
        PacketView::Disconnect(d) => disconnect_body(d),
    }
}

/// The full wire encoding of a packet: fixed-header byte, remaining
/// length, body.
pub open spec fn packet_bytes(p: PacketView) -> Seq<u8> {
    seq![header_byte(p)] + enc_varint(body_bytes(p).len() as int) + body_bytes(p)
}

} // verus!
