//! Executable encoding of typed packets into wire bytes, proved to
//! produce exactly the specification encoding of the packet.

use vstd::prelude::*;

use crate::bufwrite::BufWrite;
use crate::bufwrite::CapacityError;
use crate::packet::Connack;
use crate::packet::Connect;
use crate::packet::Disconnect;
use crate::packet::Packet;
use crate::packet::Puback;
use crate::packet::Publish;
use crate::packet::RetainHandling;
use crate::packet::Suback;
use crate::packet::Subscribe;
use crate::packet::SubscriptionOptions;
use crate::packet::PROTOCOL_LEVEL;
use crate::packet::body_bytes;
use crate::packet::connack_body;
use crate::packet::connect_body;
use crate::packet::connect_flags;
use crate::packet::connect_valid;
use crate::packet::disconnect_body;
use crate::packet::header_byte;
use crate::packet::opt_bin_bytes;
use crate::packet::packet_bytes;
use crate::packet::packet_valid;
use crate::packet::protocol_name;
use crate::packet::puback_body;
use crate::packet::publish_body;
use crate::packet::publish_valid;
use crate::packet::suback_body;
use crate::packet::subscribe_body;
use crate::packet::subscribe_valid;
use crate::packet::subscription_bytes;
use crate::packet::subscription_options_byte;
use crate::packet::subscription_valid;
use crate::packet::subscriptions_bytes;
use crate::packet::will_bytes;
use crate::wire::enc_bin;
use crate::wire::push_bin;
use crate::wire::push_byte;
use crate::wire::push_slice;
use crate::wire::push_u16;
use crate::wire::push_varint;
use crate::wire::VARINT_MAX;

verus! {

// ---------------------------------------------------------------------
// Executable encoding, proved to produce exactly the specification
// encoding.

/// The connect-flags byte of a connection request.
fn connect_flags_byte(c: &Connect) -> (r: u8)
    ensures
        r == connect_flags(c@),
{
    let mut f: u8 = 0;
    if c.username.is_some() {
        f = f + 128;
    }
    if c.password.is_some() {
        f = f + 64;
    }
    match &c.will {
        Some(w) => {
            f = f + 4;
            if w.retain {
                f = f + 32;
            }
            f = f + 8 * w.qos.to_byte();
        },
        None => {},
    }
    if c.clean_start {
        f = f + 2;
    }
    f
}

/// The options byte of one subscription entry.
fn options_byte(o: &SubscriptionOptions) -> (r: u8)
    ensures
        r == subscription_options_byte(*o),
{
    let mut b: u8 = o.quality_of_service.to_byte();
    if o.no_local {
        b = b + 4;
    }
    if o.retain_as_published {
        b = b + 8;
    }
    match o.retain_handling {
        RetainHandling::SendRetainedMessagesAlways => {},
        RetainHandling::SendRetainedMessagesOnNewSubscribe => {
            b = b + 16;
        },
        RetainHandling::DoNotSendRetainedMessages => {
            b = b + 32;
        },
    }
    b
}

/// Append the protocol name with its length prefix.
fn push_protocol_name(out: &mut Vec<u8>)
    ensures
        final(out)@ == old(out)@ + enc_bin(protocol_name()),
{
    let mut pn: Vec<u8> = Vec::new();
    pn.push(77);
    pn.push(81);
    pn.push(84);
    pn.push(84);
    assert(pn@ =~= protocol_name());
    push_bin(out, pn.as_slice());
}

/// Body bytes of a connection request.
fn encode_connect_body(c: &Connect) -> (r: Vec<u8>)
    requires
        connect_valid(c@),
    ensures
        r@ == connect_body(c@),
{
    let mut out: Vec<u8> = Vec::new();
    push_protocol_name(&mut out);
    push_byte(&mut out, PROTOCOL_LEVEL);
    let f = connect_flags_byte(c);
    push_byte(&mut out, f);
    push_u16(&mut out, c.keep_alive);
    push_byte(&mut out, 0);
    push_bin(&mut out, c.client_identifier.as_slice());
    let ghost head = out@;
    match &c.will {
        None => {
            assert(out@ =~= head + will_bytes(c@.will));
        },
        Some(w) => {
            push_byte(&mut out, 0);
            push_bin(&mut out, w.topic.as_slice());
            push_bin(&mut out, w.payload.as_slice());
            assert(out@ =~= head + will_bytes(c@.will));
        },
    }
    let ghost head2 = out@;
    match &c.username {
        None => {
            assert(out@ =~= head2 + opt_bin_bytes(c@.username));
        },
        Some(u) => {
            push_bin(&mut out, u.as_slice());
        },
    }
    let ghost head3 = out@;
    match &c.password {
        None => {
            assert(out@ =~= head3 + opt_bin_bytes(c@.password));
        },
        Some(pw) => {
            push_bin(&mut out, pw.as_slice());
        },
    }
    assert(out@ =~= connect_body(c@));
    out
}

/// Body bytes of a connection acknowledgement.
fn encode_connack_body(c: &Connack) -> (r: Vec<u8>)
    ensures
        r@ == connack_body(c@),
{
    let mut out: Vec<u8> = Vec::new();
    out.push(if c.session_present { 1 } else { 0 });
    out.push(c.reason_code);
    out.push(0);
    assert(out@ =~= connack_body(c@));
    out
}

/// Body bytes of a subscription request.
fn encode_subscribe_body(s: &Subscribe) -> (r: Vec<u8>)
    requires
        subscribe_valid(s@),
    ensures
        r@ == subscribe_body(s@),
{
    let mut out: Vec<u8> = Vec::new();
    push_u16(&mut out, s.packet_identifier);
    push_byte(&mut out, 0);
    let ghost pre = out@;
    let ghost subs = s@.subscriptions;
    let mut k: usize = 0;
    while k < s.subscriptions.len()
        invariant
            k <= s.subscriptions@.len(),
            subs == s@.subscriptions,
            subs.len() == s.subscriptions@.len(),
            forall|m: int| 0 <= m < subs.len() ==> subs[m] == s.subscriptions@[m]@,
            forall|m: int| 0 <= m < subs.len() ==> subscription_valid(#[trigger] subs[m]),
            out@ + subscriptions_bytes(subs, k as int) == pre + subscriptions_bytes(subs, 0),
        decreases s.subscriptions@.len() - k,
    {
        let ghost before = out@;
        let sub = &s.subscriptions[k];
        push_bin(&mut out, sub.topic_filter.as_slice());
        let ob = options_byte(&sub.options);
        push_byte(&mut out, ob);
        proof {
            assert(subscription_bytes(subs[k as int])
                == enc_bin(sub.topic_filter@) + seq![ob]);
            assert(out@ =~= before + subscription_bytes(subs[k as int]));
            assert(out@ + subscriptions_bytes(subs, k + 1)
                =~= before + subscriptions_bytes(subs, k as int));
        }
        k = k + 1;
    }
    assert(subscriptions_bytes(subs, k as int) =~= Seq::<u8>::empty());
    assert(out@ =~= pre + subscriptions_bytes(subs, 0));
    assert(out@ =~= subscribe_body(s@));
    out
}

/// Body bytes of a subscription acknowledgement.
fn encode_suback_body(s: &Suback) -> (r: Vec<u8>)
    ensures
        r@ == suback_body(s@),
{
    let mut out: Vec<u8> = Vec::new();
    push_u16(&mut out, s.packet_identifier);
    push_byte(&mut out, 0);
    push_slice(&mut out, s.reasons.as_slice());
    assert(out@ =~= suback_body(s@));
    out
}

/// Body bytes of an application message.
fn encode_publish_body(p: &Publish) -> (r: Vec<u8>)
    requires
        publish_valid(p@),
    ensures
        r@ == publish_body(p@),
{
    let mut out: Vec<u8> = Vec::new();
    push_bin(&mut out, p.topic_name.as_slice());
    match &p.packet_identifier {
        Some(pid) => {
            push_u16(&mut out, *pid);
        },
        None => {},
    }
    push_byte(&mut out, 0);
    push_slice(&mut out, p.payload.as_slice());
    assert(out@ =~= publish_body(p@));
    out
}

/// Body bytes of a publish acknowledgement.
fn encode_puback_body(p: &Puback) -> (r: Vec<u8>)
    ensures
        r@ == puback_body(p@),
{
    let mut out: Vec<u8> = Vec::new();
    push_u16(&mut out, p.packet_identifier);
    out.push(p.reason_code);
    out.push(0);
    assert(out@ =~= puback_body(p@));
    out
}

/// Body bytes of a disconnect notice.
fn encode_disconnect_body(d: &Disconnect) -> (r: Vec<u8>)
    ensures
        r@ == disconnect_body(d@),
{
    let mut out: Vec<u8> = Vec::new();
    out.push(d.reason_code);
    out.push(0);
    assert(out@ =~= disconnect_body(d@));
    out
}

/// Variable header and payload of a packet.
fn encode_body(p: &Packet) -> (r: Vec<u8>)
    requires
        packet_valid(p@),
    ensures
        r@ == body_bytes(p@),
{
    match p {
        Packet::Connect(c) => encode_connect_body(c),
        Packet::Connack(c) => encode_connack_body(c),
        Packet::Subscribe(s) => encode_subscribe_body(s),
        Packet::Suback(s) => encode_suback_body(s),
        Packet::Publish(pb) => encode_publish_body(pb),
        Packet::Puback(pb) => encode_puback_body(pb),
        Packet::Pingreq => Vec::new(),
        Packet::Pingresp => Vec::new(),
        Packet::Disconnect(d) => encode_disconnect_body(d),
    }
}

/// The fixed-header byte of a packet.
fn packet_header_byte(p: &Packet) -> (r: u8)
    ensures
        r == header_byte(p@),
{
    match p {
        Packet::Connect(_) => 16,
        Packet::Connack(_) => 32,
        Packet::Publish(pb) => {
            let mut h: u8 = 48;
            if pb.duplicate {
                h = h + 8;
            }
            h = h + 2 * pb.quality_of_service.to_byte();
            if pb.retain {
                h = h + 1;
            }
            h
        },
        Packet::Puback(_) => 64,
        Packet::Subscribe(_) => 130,
        Packet::Suback(_) => 144,
        Packet::Pingreq => 192,
        Packet::Pingresp => 208,
        Packet::Disconnect(_) => 224,
    }
}

/// Serialize one packet into a caller-supplied bounded buffer. The write
/// fails, leaving the buffer unchanged, exactly when the encoded packet
/// does not fit in the remaining capacity.
pub fn encode_packet(p: &Packet, w: &mut BufWrite) -> (r: Result<(), CapacityError>)
    requires
        packet_valid(p@),
        old(w).wf(),
    ensures
        final(w).wf(),
        final(w).cap() == old(w).cap(),
        match r {
            Ok(()) => final(w)@ == old(w)@ + packet_bytes(p@),
            Err(_) => final(w)@ == old(w)@
                && old(w)@.len() + packet_bytes(p@).len() > old(w).cap(),
        },
{
    let body = encode_body(p);
    let mut full: Vec<u8> = Vec::new();
    push_byte(&mut full, packet_header_byte(p));
    assert(body@.len() <= VARINT_MAX);
    push_varint(&mut full, body.len() as u32);
    push_slice(&mut full, body.as_slice());
    assert(full@ =~= packet_bytes(p@));
    w.write_slice(full.as_slice())
}

} // verus!
