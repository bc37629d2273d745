//! Specification-level decoding of wire bytes back into typed packets,
//! and the proofs that decoding inverts encoding for every representable
//! packet.

use vstd::prelude::*;

use crate::packet::Connack;
use crate::packet::ConnackView;
use crate::packet::Connect;
use crate::packet::ConnectView;
use crate::packet::Disconnect;
use crate::packet::DisconnectView;
use crate::packet::PacketView;
use crate::packet::Puback;
use crate::packet::PubackView;
use crate::packet::Publish;
use crate::packet::PublishView;
use crate::packet::Qos;
use crate::packet::RetainHandling;
use crate::packet::Suback;
use crate::packet::SubackView;
use crate::packet::Subscribe;
use crate::packet::SubscribeView;
use crate::packet::Subscription;
use crate::packet::SubscriptionOptions;
use crate::packet::SubscriptionView;
use crate::packet::WillView;
use crate::packet::PROTOCOL_LEVEL;
use crate::packet::protocol_name;
use crate::packet::qos_value;
use crate::packet::retain_handling_value;
use crate::packet::connect_flags;
use crate::packet::connect_body;
use crate::packet::connack_body;
use crate::packet::subscribe_body;
use crate::packet::suback_body;
use crate::packet::publish_body;
use crate::packet::puback_body;
use crate::packet::disconnect_body;
use crate::packet::body_bytes;
use crate::packet::packet_bytes;
use crate::packet::packet_valid;
use crate::packet::connect_valid;
use crate::packet::subscribe_valid;
use crate::packet::suback_valid;
use crate::packet::publish_valid;
use crate::packet::puback_valid;
use crate::packet::subscription_valid;
use crate::packet::subscription_bytes;
use crate::packet::subscriptions_bytes;
use crate::packet::subscription_options_byte;
use crate::packet::header_byte;
use crate::packet::will_bytes;
use crate::packet::opt_bin_bytes;
use crate::wire::enc_bin;
use crate::wire::enc_u16;
use crate::wire::enc_varint;
use crate::wire::parse_bin;
use crate::wire::parse_u16;
use crate::wire::parse_u8;
use crate::wire::parse_varint;
use crate::wire::lemma_parse_bin;
use crate::wire::lemma_parse_u16;
use crate::wire::lemma_parse_u8;
use crate::wire::lemma_parse_varint;
use crate::wire::VARINT_MAX;

verus! {

// ---------------------------------------------------------------------
// Specification-level decoders, one per packet kind. Each takes the body
// (the bytes counted by the remaining length) and yields the packet when
// the body is exactly one well-formed encoding.

/// Decode a connection acknowledgement body.
pub open spec fn decode_connack(body: Seq<u8>) -> Option<ConnackView> {
    if body.len() == 3 && (body[0] == 0 || body[0] == 1) && body[2] == 0 {
        Some(ConnackView { session_present: body[0] == 1, reason_code: body[1] })
    } else {
        None
    }
}

/// Decode a publish acknowledgement body.
pub open spec fn decode_puback(body: Seq<u8>) -> Option<PubackView> {
    if body.len() == 4 && body[3] == 0 && ((body[0] as int) * 256 + (body[1] as int)) != 0 {
        Some(
            PubackView {
                packet_identifier: ((body[0] as int) * 256 + (body[1] as int)) as u16,
                reason_code: body[2],
            },
        )
    } else {
        None
    }
}

/// Decode a disconnect body. An empty body stands for a normal
/// disconnect.
pub open spec fn decode_disconnect(body: Seq<u8>) -> Option<DisconnectView> {
    if body.len() == 0 {
        Some(DisconnectView { reason_code: 0 })
    } else if body.len() == 2 && body[1] == 0 {
        Some(DisconnectView { reason_code: body[0] })
    } else {
        None
    }
}

/// Decode a subscription acknowledgement body.
pub open spec fn decode_suback(body: Seq<u8>) -> Option<SubackView> {
    match parse_u16(body, 0) {
        None => None,
        Some((pid, i)) => if pid != 0 && i + 1 <= body.len() && body[i] == 0 {
            Some(
                SubackView {
                    packet_identifier: pid,
                    reasons: body.subrange(i + 1, body.len() as int),
                },
            )
        } else {
            None
        },
    }
}

/// Decode the options byte of one subscription entry.
pub open spec fn decode_subscription_options(b: u8) -> Option<SubscriptionOptions> {
    if b % 4 <= 2 && (b / 16) % 4 <= 2 && b / 64 == 0 {
        Some(
            SubscriptionOptions {
                quality_of_service: qos_of_value((b % 4) as int),
                no_local: (b / 4) % 2 == 1,
                retain_as_published: (b / 8) % 2 == 1,
                retain_handling: retain_handling_of_value(((b / 16) % 4) as int),
            },
        )
    } else {
        None
    }
}

/// The quality-of-service level a wire value stands for.
pub open spec fn qos_of_value(v: int) -> Qos {
    if v == 0 {
        Qos::AtMostOnce
    } else if v == 1 {
        Qos::AtLeastOnce
    } else {
        Qos::ExactlyOnce
    }
}

/// The retain-handling policy a wire value stands for.
pub open spec fn retain_handling_of_value(v: int) -> RetainHandling {
    if v == 0 {
        RetainHandling::SendRetainedMessagesAlways
    } else if v == 1 {
        RetainHandling::SendRetainedMessagesOnNewSubscribe
    } else {
        RetainHandling::DoNotSendRetainedMessages
    }
}

/// Decode the subscription entries of a subscribe body from cursor `i` to
/// the end, extending `acc` in order.
pub open spec fn parse_subscriptions(
    body: Seq<u8>,
    i: int,
    acc: Seq<SubscriptionView>,
) -> Option<Seq<SubscriptionView>>
    decreases body.len() - i,
{
    if i == body.len() {
        Some(acc)
    } else {
        match parse_bin(body, i) {
            None => None,
            Some((filter, j)) => match parse_u8(body, j) {
                None => None,
                Some((ob, k)) => match decode_subscription_options(ob) {
                    None => None,
                    Some(opts) => parse_subscriptions(
                        body,
                        k,
                        acc.push(SubscriptionView { topic_filter: filter, options: opts }),
                    ),
                },
            },
        }
    }
}

/// Decode a subscription request body.
pub open spec fn decode_subscribe(body: Seq<u8>) -> Option<SubscribeView> {
    match parse_u16(body, 0) {
        None => None,
        Some((pid, i)) => if pid != 0 && i + 1 <= body.len() && body[i] == 0 {
            match parse_subscriptions(body, i + 1, Seq::empty()) {
                None => None,
                Some(subs) => if subs.len() >= 1 {
                    Some(SubscribeView { packet_identifier: pid, subscriptions: subs })
                } else {
                    None
                },
            }
        } else {
            None
        },
    }
}

/// Decode an application-message body; the fixed-header byte `h` carries
/// the duplicate, quality-of-service and retain flags.
pub open spec fn decode_publish(h: u8, body: Seq<u8>) -> Option<PublishView> {
    if (h / 2) % 4 <= 2 && !((h / 2) % 4 == 0 && (h / 8) % 2 == 1) {
        let qos = qos_of_value(((h / 2) % 4) as int);
        match parse_bin(body, 0) {
            None => None,
            Some((topic, i)) => {
                if qos == Qos::AtMostOnce {
                    if i + 1 <= body.len() && body[i] == 0 {
                        Some(
                            PublishView {
                                duplicate: (h / 8) % 2 == 1,
                                quality_of_service: qos,
                                retain: h % 2 == 1,
                                topic_name: topic,
                                packet_identifier: None,
                                payload: body.subrange(i + 1, body.len() as int),
                            },
                        )
                    } else {
                        None
                    }
                } else {
                    match parse_u16(body, i) {
                        None => None,
                        Some((pid, j)) => if pid != 0 && j + 1 <= body.len() && body[j] == 0 {
                            Some(
                                PublishView {
                                    duplicate: (h / 8) % 2 == 1,
                                    quality_of_service: qos,
                                    retain: h % 2 == 1,
                                    topic_name: topic,
                                    packet_identifier: Some(pid),
                                    payload: body.subrange(j + 1, body.len() as int),
                                },
                            )
                        } else {
                            None
                        },
                    }
                }
            },
        }
    } else {
        None
    }
}

/// The optional fields at the tail of a connect body, in order: will,
/// username, password. `f` is the connect-flags byte.
pub open spec fn decode_connect_tail(
    body: Seq<u8>,
    i: int,
    f: u8,
) -> Option<(Option<WillView>, Option<Seq<u8>>, Option<Seq<u8>>)> {
    match decode_connect_will(body, i, f) {
        None => None,
        Some((will, j)) => match decode_opt_bin(body, j, f / 128 == 1) {
            None => None,
            Some((user, k)) => match decode_opt_bin(body, k, (f / 64) % 2 == 1) {
                None => None,
                Some((pass, m)) => if m == body.len() {
                    Some((will, user, pass))
                } else {
                    None
                },
            },
        },
    }
}

/// The will fields of a connect body, when the will flag is set.
pub open spec fn decode_connect_will(body: Seq<u8>, i: int, f: u8) -> Option<
    (Option<WillView>, int),
> {
    if (f / 4) % 2 == 1 {
        if (f / 8) % 4 <= 2 {
            match parse_u8(body, i) {
                None => None,
                Some((wp, i1)) => if wp == 0 {
                    match parse_bin(body, i1) {
                        None => None,
                        Some((topic, i2)) => match parse_bin(body, i2) {
                            None => None,
                            Some((payload, i3)) => Some(
                                (
                                    Some(
                                        WillView {
                                            topic: topic,
                                            payload: payload,
                                            qos: qos_of_value(((f / 8) % 4) as int),
                                            retain: (f / 32) % 2 == 1,
                                        },
                                    ),
                                    i3,
                                ),
                            ),
                        },
                    }
                } else {
                    None
                },
            }
        } else {
            None
        }
    } else {
        if (f / 8) % 4 == 0 && (f / 32) % 2 == 0 {
            Some((None, i))
        } else {
            None
        }
    }
}

/// A length-prefixed field that is present exactly when its flag is set.
pub open spec fn decode_opt_bin(body: Seq<u8>, i: int, present: bool) -> Option<
    (Option<Seq<u8>>, int),
> {
    if present {
        match parse_bin(body, i) {
            None => None,
            Some((b, j)) => Some((Some(b), j)),
        }
    } else {
        Some((None, i))
    }
}

/// Decode a connection request body.
pub open spec fn decode_connect(body: Seq<u8>) -> Option<ConnectView> {
    match parse_bin(body, 0) {
        None => None,
        Some((pname, i1)) => if pname == protocol_name() {
            match parse_u8(body, i1) {
                None => None,
                Some((lvl, i2)) => if lvl == PROTOCOL_LEVEL {
                    match parse_u8(body, i2) {
                        None => None,
                        Some((f, i3)) => if f % 2 == 0 {
                            match parse_u16(body, i3) {
                                None => None,
                                Some((ka, i4)) => match parse_u8(body, i4) {
                                    None => None,
                                    Some((props, i5)) => if props == 0 {
                                        match parse_bin(body, i5) {
                                            None => None,
                                            Some((cid, i6)) => match decode_connect_tail(
                                                body,
                                                i6,
                                                f,
                                            ) {
                                                None => None,
                                                Some((will, user, pass)) => Some(
                                                    ConnectView {
                                                        client_identifier: cid,
                                                        username: user,
                                                        password: pass,
                                                        clean_start: (f / 2) % 2 == 1,
                                                        will: will,
                                                        keep_alive: ka,
                                                    },
                                                ),
                                            },
                                        }
                                    } else {
                                        None
                                    },
                                },
                            }
                        } else {
                            None
                        },
                    }
                } else {
                    None
                },
            }
        } else {
            None
        },
    }
}

/// Dispatch on the fixed-header byte and decode the body.
pub open spec fn decode_body(h: u8, body: Seq<u8>) -> Option<PacketView> {
    if h == 16 {
        match decode_connect(body) {
            None => None,
            Some(c) => Some(PacketView::Connect(c)),
        }
    } else if h == 32 {
        match decode_connack(body) {
            None => None,
            Some(c) => Some(PacketView::Connack(c)),
        }
    } else if 48 <= h && h < 64 {
        match decode_publish(h, body) {
            None => None,
            Some(p) => Some(PacketView::Publish(p)),
        }
    } else if h == 64 {
        match decode_puback(body) {
            None => None,
            Some(p) => Some(PacketView::Puback(p)),
        }
    } else if h == 130 {
        match decode_subscribe(body) {
            None => None,
            Some(s) => Some(PacketView::Subscribe(s)),
        }
    } else if h == 144 {
        match decode_suback(body) {
            None => None,
            Some(s) => Some(PacketView::Suback(s)),
        }
    } else if h == 192 {
        if body.len() == 0 {
            Some(PacketView::Pingreq)
        } else {
            None
        }
    } else if h == 208 {
        if body.len() == 0 {
            Some(PacketView::Pingresp)
        } else {
            None
        }
    } else if h == 224 {
        match decode_disconnect(body) {
            None => None,
            Some(d) => Some(PacketView::Disconnect(d)),
        }
    } else {
        None
    }
}

/// Decode one complete packet: fixed-header byte, remaining length that
/// must count exactly the bytes that follow, then the body.
pub open spec fn spec_decode(s: Seq<u8>) -> Option<PacketView> {
    match parse_u8(s, 0) {
        None => None,
        Some((h, i)) => match parse_varint(s, i) {
            None => None,
            Some((l, j)) => if j + l == s.len() {
                decode_body(h, s.subrange(j, s.len() as int))
            } else {
                None
            },
        },
    }
}

// ---------------------------------------------------------------------
// Round trip: decoding the encoding of any representable packet yields
// the packet back.

/// The fixed-header byte and remaining length of an encoding parse back,
/// and what is left is exactly the body.
proof fn lemma_decode_frame(p: PacketView)
    requires
        body_bytes(p).len() <= VARINT_MAX,
    ensures
        spec_decode(packet_bytes(p)) == decode_body(header_byte(p), body_bytes(p)),
{
    let h = header_byte(p);
    let body = body_bytes(p);
    let lenc = enc_varint(body.len() as int);
    let s = packet_bytes(p);
    lemma_parse_u8(Seq::empty(), h, lenc + body);
    assert(s =~= Seq::empty() + seq![h] + (lenc + body));
    assert(parse_u8(s, 0) == Some((h, 1int)));
    lemma_parse_varint(seq![h], body.len() as int, body);
    assert(s =~= seq![h] + enc_varint(body.len() as int) + body);
    assert(parse_varint(s, 1) == Some((body.len() as int, 1 + lenc.len() as int)));
    let j = 1 + lenc.len() as int;
    assert(j + body.len() == s.len());
    assert(s.subrange(j, s.len() as int) =~= body);
}

/// A connection acknowledgement body decodes back.
proof fn lemma_decode_connack_body(c: ConnackView)
    ensures
        decode_connack(connack_body(c)) == Some(c),
{
}

/// A publish acknowledgement body decodes back.
proof fn lemma_decode_puback_body(p: PubackView)
    requires
        puback_valid(p),
    ensures
        decode_puback(puback_body(p)) == Some(p),
{
    let body = puback_body(p);
    assert(body =~= Seq::empty() + enc_u16(p.packet_identifier) + seq![p.reason_code, 0u8]);
    assert(body[0] == (p.packet_identifier / 256) as u8);
    assert(body[1] == (p.packet_identifier % 256) as u8);
    assert(body[2] == p.reason_code);
    assert(body[3] == 0);
}

/// A disconnect body decodes back.
proof fn lemma_decode_disconnect_body(d: DisconnectView)
    ensures
        decode_disconnect(disconnect_body(d)) == Some(d),
{
}

/// A subscription acknowledgement body decodes back.
proof fn lemma_decode_suback_body(sb: SubackView)
    requires
        suback_valid(sb),
    ensures
        decode_suback(suback_body(sb)) == Some(sb),
{
    let body = suback_body(sb);
    lemma_parse_u16(Seq::empty(), sb.packet_identifier, seq![0u8] + sb.reasons);
    assert(body =~= Seq::empty() + enc_u16(sb.packet_identifier) + (seq![0u8] + sb.reasons));
    assert(parse_u16(body, 0) == Some((sb.packet_identifier, 2int)));
    assert(body[2] == 0);
    assert(body.subrange(3, body.len() as int) =~= sb.reasons);
}

/// The options byte of a subscription entry decodes back.
proof fn lemma_decode_subscription_options(o: SubscriptionOptions)
    ensures
        decode_subscription_options(subscription_options_byte(o)) == Some(o),
{
    let b = subscription_options_byte(o);
    let q = qos_value(o.quality_of_service) as int;
    let nl: int = if o.no_local { 1 } else { 0 };
    let rap: int = if o.retain_as_published { 1 } else { 0 };
    let rh = retain_handling_value(o.retain_handling) as int;
    assert(b == q + 4 * nl + 8 * rap + 16 * rh);
    assert(b % 4 == q);
    assert((b / 4) % 2 == nl);
    assert((b / 8) % 2 == rap);
    assert((b / 16) % 4 == rh);
    assert(b / 64 == 0);
}

/// Subscription entries laid out after any prefix parse back in order.
#[verifier::rlimit(100)]
proof fn lemma_parse_subscriptions(
    pre: Seq<u8>,
    subs: Seq<SubscriptionView>,
    k: int,
    acc: Seq<SubscriptionView>,
)
    requires
        0 <= k <= subs.len(),
        forall|m: int| 0 <= m < subs.len() ==> subscription_valid(#[trigger] subs[m]),
    ensures
        parse_subscriptions(pre + subscriptions_bytes(subs, k), pre.len() as int, acc)
            == Some(acc + subs.skip(k)),
    decreases subs.len() - k,
{
    let body = pre + subscriptions_bytes(subs, k);
    if k == subs.len() {
        assert(subscriptions_bytes(subs, k) =~= Seq::<u8>::empty());
        assert(body =~= pre);
        assert(acc + subs.skip(k) =~= acc);
    } else {
        let sv = subs[k];
        let filter = sv.topic_filter;
        let ob = subscription_options_byte(sv.options);
        let rest = subscriptions_bytes(subs, k + 1);
        assert(subscriptions_bytes(subs, k) == subscription_bytes(sv) + rest);
        assert(body =~= pre + enc_bin(filter) + (seq![ob] + rest));
        lemma_parse_bin(pre, filter, seq![ob] + rest);
        assert(parse_bin(body, pre.len() as int)
            == Some((filter, pre.len() + 2 + filter.len() as int)));
        let pre2 = pre + enc_bin(filter);
        assert(body =~= pre2 + seq![ob] + rest);
        lemma_parse_u8(pre2, ob, rest);
        assert(parse_u8(body, pre2.len() as int) == Some((ob, pre2.len() + 1int)));
        lemma_decode_subscription_options(sv.options);
        let pre3 = pre2 + seq![ob];
        assert(body =~= pre3 + subscriptions_bytes(subs, k + 1));
        let acc2 = acc.push(SubscriptionView { topic_filter: filter, options: sv.options });
        lemma_parse_subscriptions(pre3, subs, k + 1, acc2);
        assert(acc2 =~= acc.push(sv));
        assert(acc.push(sv) + subs.skip(k + 1) =~= acc + subs.skip(k));
    }
}

/// A subscription request body decodes back.
proof fn lemma_decode_subscribe_body(sb: SubscribeView)
    requires
        subscribe_valid(sb),
    ensures
        decode_subscribe(subscribe_body(sb)) == Some(sb),
{
    let body = subscribe_body(sb);
    let tail = subscriptions_bytes(sb.subscriptions, 0);
    lemma_parse_u16(Seq::empty(), sb.packet_identifier, seq![0u8] + tail);
    assert(body =~= Seq::empty() + enc_u16(sb.packet_identifier) + (seq![0u8] + tail));
    assert(parse_u16(body, 0) == Some((sb.packet_identifier, 2int)));
    assert(body[2] == 0);
    let pre = enc_u16(sb.packet_identifier) + seq![0u8];
    assert(body =~= pre + tail);
    lemma_parse_subscriptions(pre, sb.subscriptions, 0, Seq::empty());
    assert(parse_subscriptions(body, 3, Seq::empty())
        == Some(Seq::empty() + sb.subscriptions.skip(0)));
    assert(Seq::empty() + sb.subscriptions.skip(0) =~= sb.subscriptions);
}

/// An application-message body and its header flags decode back.
proof fn lemma_decode_publish_body(p: PublishView)
    requires
        publish_valid(p),
    ensures
        48 <= header_byte(PacketView::Publish(p)) < 64,
        decode_publish(header_byte(PacketView::Publish(p)), publish_body(p)) == Some(p),
{
    let h = header_byte(PacketView::Publish(p));
    let body = publish_body(p);
    let d: int = if p.duplicate { 1 } else { 0 };
    let q = qos_value(p.quality_of_service) as int;
    let r: int = if p.retain { 1 } else { 0 };
    assert(h == 48 + 8 * d + 2 * q + r);
    assert((h / 2) % 4 == q);
    assert((h / 8) % 2 == d);
    assert(h % 2 == r);
    match p.packet_identifier {
        None => {
            assert(body =~= Seq::empty() + enc_bin(p.topic_name) + (seq![0u8] + p.payload));
            lemma_parse_bin(Seq::empty(), p.topic_name, seq![0u8] + p.payload);
            let i = 2 + p.topic_name.len() as int;
            assert(parse_bin(body, 0) == Some((p.topic_name, i)));
            let pre = enc_bin(p.topic_name);
            assert(body =~= pre + seq![0u8] + p.payload);
            lemma_parse_u8(pre, 0u8, p.payload);
            assert(body[i] == 0);
            assert(body.subrange(i + 1, body.len() as int) =~= p.payload);
        },
        Some(pid) => {
            assert(body =~= Seq::empty() + enc_bin(p.topic_name)
                + (enc_u16(pid) + seq![0u8] + p.payload));
            lemma_parse_bin(Seq::empty(), p.topic_name, enc_u16(pid) + seq![0u8] + p.payload);
            let i = 2 + p.topic_name.len() as int;
            assert(parse_bin(body, 0) == Some((p.topic_name, i)));
            let pre = enc_bin(p.topic_name);
            assert(body =~= pre + enc_u16(pid) + (seq![0u8] + p.payload));
            lemma_parse_u16(pre, pid, seq![0u8] + p.payload);
            assert(parse_u16(body, i) == Some((pid, i + 2)));
            let pre2 = pre + enc_u16(pid);
            assert(body =~= pre2 + seq![0u8] + p.payload);
            lemma_parse_u8(pre2, 0u8, p.payload);
            assert(body[i + 2] == 0);
            assert(body.subrange(i + 3, body.len() as int) =~= p.payload);
        },
    }
}

/// The connect-flags byte decomposes back into the fields it was built
/// from.
proof fn lemma_connect_flags(c: ConnectView)
    ensures
        ({
            let f = connect_flags(c);
            &&& (f / 128 == 1 <==> c.username is Some)
            &&& ((f / 64) % 2 == 1 <==> c.password is Some)
            &&& ((f / 4) % 2 == 1 <==> c.will is Some)
            &&& ((f / 2) % 2 == 1 <==> c.clean_start)
            &&& f % 2 == 0
            &&& match c.will {
                Some(w) => (f / 8) % 4 == qos_value(w.qos)
                    && ((f / 32) % 2 == 1 <==> w.retain),
                None => (f / 8) % 4 == 0 && (f / 32) % 2 == 0,
            }
        }),
{
    let f = connect_flags(c);
    let u: int = if c.username is Some { 1 } else { 0 };
    let pw: int = if c.password is Some { 1 } else { 0 };
    let w: int = if c.will is Some { 1 } else { 0 };
    let wr: int = match c.will {
        Some(wl) => if wl.retain { 1int } else { 0int },
        None => 0int,
    };
    let wq: int = match c.will {
        Some(wl) => qos_value(wl.qos) as int,
        None => 0int,
    };
    let cl: int = if c.clean_start { 1 } else { 0 };
    assert(f == 128 * u + 64 * pw + 32 * wr + 8 * wq + 4 * w + 2 * cl);
    assert(f / 128 == u);
    assert((f / 64) % 2 == pw);
    assert((f / 32) % 2 == wr);
    assert((f / 8) % 4 == wq);
    assert((f / 4) % 2 == w);
    assert((f / 2) % 2 == cl);
    assert(f % 2 == 0);
}

/// The will fields laid out after any prefix parse back.
proof fn lemma_decode_connect_will(pre: Seq<u8>, c: ConnectView, post: Seq<u8>)
    requires
        connect_valid(c),
    ensures
        decode_connect_will(pre + will_bytes(c.will) + post, pre.len() as int, connect_flags(c))
            == Some((c.will, pre.len() + will_bytes(c.will).len() as int)),
{
    let f = connect_flags(c);
    lemma_connect_flags(c);
    let body = pre + will_bytes(c.will) + post;
    match c.will {
        None => {
            assert(body =~= pre + post);
        },
        Some(w) => {
            assert(body =~= pre + seq![0u8] + (enc_bin(w.topic) + enc_bin(w.payload) + post));
            lemma_parse_u8(pre, 0u8, enc_bin(w.topic) + enc_bin(w.payload) + post);
            assert(parse_u8(body, pre.len() as int) == Some((0u8, pre.len() + 1int)));
            let pre2 = pre + seq![0u8];
            assert(body =~= pre2 + enc_bin(w.topic) + (enc_bin(w.payload) + post));
            lemma_parse_bin(pre2, w.topic, enc_bin(w.payload) + post);
            let pre3 = pre2 + enc_bin(w.topic);
            assert(body =~= pre3 + enc_bin(w.payload) + post);
            lemma_parse_bin(pre3, w.payload, post);
            assert(qos_of_value(qos_value(w.qos) as int) == w.qos);
        },
    }
}

/// An optional length-prefixed field laid out after any prefix parses
/// back.
proof fn lemma_decode_opt_bin(pre: Seq<u8>, o: Option<Seq<u8>>, post: Seq<u8>, present: bool)
    requires
        present <==> o is Some,
        o matches Some(b) ==> b.len() <= 65535,
    ensures
        decode_opt_bin(pre + opt_bin_bytes(o) + post, pre.len() as int, present)
            == Some((o, pre.len() + opt_bin_bytes(o).len() as int)),
{
    let body = pre + opt_bin_bytes(o) + post;
    match o {
        None => {
            assert(body =~= pre + post);
        },
        Some(b) => {
            lemma_parse_bin(pre, b, post);
        },
    }
}

/// The optional tail of a connect body — will, username, password —
/// parses back when nothing follows it.
#[verifier::rlimit(60)]
proof fn lemma_decode_connect_tail(pre: Seq<u8>, c: ConnectView)
    requires
        connect_valid(c),
    ensures
        ({
            let body = pre + (will_bytes(c.will) + opt_bin_bytes(c.username)
                + opt_bin_bytes(c.password));
            decode_connect_tail(body, pre.len() as int, connect_flags(c))
                == Some((c.will, c.username, c.password))
        }),
{
    let f = connect_flags(c);
    lemma_connect_flags(c);
    let s6 = will_bytes(c.will);
    let s7 = opt_bin_bytes(c.username);
    let s8 = opt_bin_bytes(c.password);
    let body = pre + (s6 + s7 + s8);
    assert(body =~= pre + s6 + (s7 + s8));
    lemma_decode_connect_will(pre, c, s7 + s8);
    assert(decode_connect_will(body, pre.len() as int, f)
        == Some((c.will, pre.len() + s6.len() as int)));
    let p7 = pre + s6;
    assert(body =~= p7 + s7 + s8);
    lemma_decode_opt_bin(p7, c.username, s8, f / 128 == 1);
    let p8 = p7 + s7;
    assert(body =~= p8 + s8 + Seq::<u8>::empty());
    lemma_decode_opt_bin(p8, c.password, Seq::empty(), (f / 64) % 2 == 1);
    assert(p8.len() + s8.len() == body.len());
}

/// The fixed head of a connect body — protocol name, level, flags,
/// keep-alive, empty properties — parses back in front of any rest.
#[verifier::rlimit(60)]
proof fn lemma_decode_connect_head(f: u8, ka: u16, rest: Seq<u8>)
    ensures
        ({
            let body = enc_bin(protocol_name()) + seq![PROTOCOL_LEVEL] + seq![f] + enc_u16(ka)
                + seq![0u8] + rest;
            &&& parse_bin(body, 0) == Some((protocol_name(), 6int))
            &&& parse_u8(body, 6) == Some((PROTOCOL_LEVEL, 7int))
            &&& parse_u8(body, 7) == Some((f, 8int))
            &&& parse_u16(body, 8) == Some((ka, 10int))
            &&& parse_u8(body, 10) == Some((0u8, 11int))
        }),
{
    let s0 = enc_bin(protocol_name());
    let s1 = seq![PROTOCOL_LEVEL];
    let s2 = seq![f];
    let s3 = enc_u16(ka);
    let s4 = seq![0u8];
    let body = s0 + s1 + s2 + s3 + s4 + rest;
    assert(parse_bin(body, 0) == Some((protocol_name(), 6int))) by {
        assert(body =~= Seq::empty() + s0 + (s1 + s2 + s3 + s4 + rest));
        lemma_parse_bin(Seq::empty(), protocol_name(), s1 + s2 + s3 + s4 + rest);
    }
    assert(parse_u8(body, 6) == Some((PROTOCOL_LEVEL, 7int))) by {
        assert(body =~= s0 + seq![PROTOCOL_LEVEL] + (s2 + s3 + s4 + rest));
        lemma_parse_u8(s0, PROTOCOL_LEVEL, s2 + s3 + s4 + rest);
    }
    assert(parse_u8(body, 7) == Some((f, 8int))) by {
        assert(body =~= (s0 + s1) + seq![f] + (s3 + s4 + rest));
        lemma_parse_u8(s0 + s1, f, s3 + s4 + rest);
    }
    assert(parse_u16(body, 8) == Some((ka, 10int))) by {
        assert(body =~= (s0 + s1 + s2) + s3 + (s4 + rest));
        lemma_parse_u16(s0 + s1 + s2, ka, s4 + rest);
    }
    assert(parse_u8(body, 10) == Some((0u8, 11int))) by {
        assert(body =~= (s0 + s1 + s2 + s3) + seq![0u8] + rest);
        lemma_parse_u8(s0 + s1 + s2 + s3, 0u8, rest);
    }
}

/// A connection request body decodes back.
#[verifier::rlimit(100)]
proof fn lemma_decode_connect_body(c: ConnectView)
    requires
        connect_valid(c),
    ensures
        decode_connect(connect_body(c)) == Some(c),
{
    let body = connect_body(c);
    let f = connect_flags(c);
    lemma_connect_flags(c);
    let s0 = enc_bin(protocol_name());
    let s1 = seq![PROTOCOL_LEVEL];
    let s2 = seq![f];
    let s3 = enc_u16(c.keep_alive);
    let s4 = seq![0u8];
    let s5 = enc_bin(c.client_identifier);
    let tail = will_bytes(c.will) + opt_bin_bytes(c.username) + opt_bin_bytes(c.password);
    assert(body =~= s0 + s1 + s2 + s3 + s4 + (s5 + tail));
    lemma_decode_connect_head(f, c.keep_alive, s5 + tail);
    let i6 = 13 + c.client_identifier.len() as int;
    assert(parse_bin(body, 11) == Some((c.client_identifier, i6))) by {
        assert(body =~= (s0 + s1 + s2 + s3 + s4) + s5 + tail);
        lemma_parse_bin(s0 + s1 + s2 + s3 + s4, c.client_identifier, tail);
    }
    assert(decode_connect_tail(body, i6, f) == Some((c.will, c.username, c.password))) by {
        let p6 = s0 + s1 + s2 + s3 + s4 + s5;
        assert(body =~= p6 + (will_bytes(c.will) + opt_bin_bytes(c.username)
            + opt_bin_bytes(c.password)));
        lemma_decode_connect_tail(p6, c);
    }
    assert(decode_connect(body) == Some(c));
}

/// Decoding inverts encoding: every representable packet comes back from
/// its own wire bytes unchanged.
pub proof fn lemma_codec_round_trip(p: PacketView)
    requires
        packet_valid(p),
    ensures
        spec_decode(packet_bytes(p)) == Some(p),
{
    lemma_decode_frame(p);
    match p {
        PacketView::Connect(c) => lemma_decode_connect_body(c),
        PacketView::Connack(c) => lemma_decode_connack_body(c),
        PacketView::Subscribe(sb) => lemma_decode_subscribe_body(sb),
        PacketView::Suback(sb) => lemma_decode_suback_body(sb),
        PacketView::Publish(pb) => lemma_decode_publish_body(pb),
        PacketView::Puback(pb) => lemma_decode_puback_body(pb),
        PacketView::Pingreq => {},
        PacketView::Pingresp => {},
        PacketView::Disconnect(d) => lemma_decode_disconnect_body(d),
    }
}

} // verus!
