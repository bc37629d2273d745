//! Executable decoding of wire bytes into typed packets, proved to agree
//! exactly with the specification decoder: it succeeds with packet `p`
//! precisely when the specification decoder yields `p`, and fails
//! precisely when it yields nothing.

use vstd::prelude::*;

use crate::codec::decode_connack;
use crate::codec::decode_connect;
use crate::codec::decode_connect_will;
use crate::codec::decode_disconnect;
use crate::codec::decode_opt_bin;
use crate::codec::decode_puback;
use crate::codec::decode_publish;
use crate::codec::decode_suback;
use crate::codec::decode_subscribe;
use crate::codec::decode_subscription_options;
use crate::codec::parse_subscriptions;
use crate::codec::qos_of_value;
use crate::codec::spec_decode;
use crate::packet::Connack;
use crate::packet::Connect;
use crate::packet::Disconnect;
use crate::packet::Packet;
use crate::packet::Puback;
use crate::packet::Publish;
use crate::packet::Qos;
use crate::packet::RetainHandling;
use crate::packet::Suback;
use crate::packet::Subscribe;
use crate::packet::Subscription;
use crate::packet::SubscriptionOptions;
use crate::packet::SubscriptionView;
use crate::packet::Will;
use crate::packet::PROTOCOL_LEVEL;
use crate::packet::protocol_name;
use crate::wire::copy_range;
use crate::wire::lemma_parse_varint_rec_bounds;
use crate::wire::take_bin;
use crate::wire::take_u16;
use crate::wire::take_u8;
use crate::wire::take_varint;

verus! {

/// The bytes are not exactly one well-formed packet.
#[derive(Clone, Copy, Debug, PartialEq, Eq, Structural)]
pub struct DecodeError;

/// Decode a connection acknowledgement body.
fn connack_from_body(body: &[u8]) -> (r: Result<Connack, DecodeError>)
    ensures
        match r {
            Ok(c) => decode_connack(body@) == Some(c@),
            Err(_) => decode_connack(body@) is None,
        },
{
    if body.len() == 3 && (body[0] == 0 || body[0] == 1) && body[2] == 0 {
        Ok(Connack { session_present: body[0] == 1, reason_code: body[1] })
    } else {
        Err(DecodeError)
    }
}

/// Decode a publish acknowledgement body.
fn puback_from_body(body: &[u8]) -> (r: Result<Puback, DecodeError>)
    ensures
        match r {
            Ok(p) => decode_puback(body@) == Some(p@),
            Err(_) => decode_puback(body@) is None,
        },
{
    if body.len() == 4 && body[3] == 0 {
        let pid: u16 = (body[0] as u16) * 256 + (body[1] as u16);
        if pid != 0 {
            Ok(Puback { packet_identifier: pid, reason_code: body[2] })
        } else {
            Err(DecodeError)
        }
    } else {
        Err(DecodeError)
    }
}

/// Decode a disconnect body.
fn disconnect_from_body(body: &[u8]) -> (r: Result<Disconnect, DecodeError>)
    ensures
        match r {
            Ok(d) => decode_disconnect(body@) == Some(d@),
            Err(_) => decode_disconnect(body@) is None,
        },
{
    if body.len() == 0 {
        Ok(Disconnect { reason_code: 0 })
    } else if body.len() == 2 && body[1] == 0 {
        Ok(Disconnect { reason_code: body[0] })
    } else {
        Err(DecodeError)
    }
}

/// Decode a subscription acknowledgement body.
fn suback_from_body(body: &[u8]) -> (r: Result<Suback, DecodeError>)
    ensures
        match r {
            Ok(s) => decode_suback(body@) == Some(s@),
            Err(_) => decode_suback(body@) is None,
        },
{
    match take_u16(body, 0) {
        None => Err(DecodeError),
        Some((pid, i)) => {
            if pid != 0 && i < body.len() && body[i] == 0 {
                let reasons = copy_range(body, i + 1, body.len());
                Ok(Suback { packet_identifier: pid, reasons })
            } else {
                Err(DecodeError)
            }
        },
    }
}

/// Read a quality-of-service level from its two-bit wire value.
fn qos_from_bits(b: u8) -> (r: Qos)
    requires
        b <= 2,
    ensures
        r == qos_of_value(b as int),
{
    if b == 0 {
        Qos::AtMostOnce
    } else if b == 1 {
        Qos::AtLeastOnce
    } else {
        Qos::ExactlyOnce
    }
}

/// Decode the options byte of one subscription entry.
fn options_from_byte(b: u8) -> (r: Option<SubscriptionOptions>)
    ensures
        r == decode_subscription_options(b),
{
    if b % 4 <= 2 && (b / 16) % 4 <= 2 && b / 64 == 0 {
        let rh: u8 = (b / 16) % 4;
        Some(
            SubscriptionOptions {
                quality_of_service: qos_from_bits(b % 4),
                no_local: (b / 4) % 2 == 1,
                retain_as_published: (b / 8) % 2 == 1,
                retain_handling: if rh == 0 {
                    RetainHandling::SendRetainedMessagesAlways
                } else if rh == 1 {
                    RetainHandling::SendRetainedMessagesOnNewSubscribe
                } else {
                    RetainHandling::DoNotSendRetainedMessages
                },
            },
        )
    } else {
        None
    }
}

/// Decode a subscription request body.
fn subscribe_from_body(body: &[u8]) -> (r: Result<Subscribe, DecodeError>)
    ensures
        match r {
            Ok(s) => decode_subscribe(body@) == Some(s@),
            Err(_) => decode_subscribe(body@) is None,
        },
{
    match take_u16(body, 0) {
        None => Err(DecodeError),
        Some((pid, start)) => {
            if pid != 0 && start < body.len() && body[start] == 0 {
                let mut subs: Vec<Subscription> = Vec::new();
                let mut i: usize = start + 1;
                let mut failed = false;
                proof {
                    assert(Seq::new(subs@.len(), |k: int| subs@[k]@)
                        =~= Seq::<SubscriptionView>::empty());
                }
                loop
                    invariant_except_break
                        start + 1 <= i <= body@.len(),
                        !failed,
                        parse_subscriptions(
                            body@,
                            start + 1,
                            Seq::empty(),
                        ) == parse_subscriptions(
                            body@,
                            i as int,
                            Seq::new(subs@.len(), |k: int| subs@[k]@),
                        ),
                    ensures
                        if failed {
                            parse_subscriptions(body@, start + 1, Seq::empty()) is None
                        } else {
                            i == body@.len() && parse_subscriptions(body@, start + 1, Seq::empty())
                                == Some(Seq::new(subs@.len(), |k: int| subs@[k]@))
                        },
                    decreases body@.len() - i,
                {
                    if i >= body.len() {
                        break;
                    }
                    let ghost acc = Seq::new(subs@.len(), |k: int| subs@[k]@);
                    match take_bin(body, i) {
                        None => {
                            failed = true;
                            break;
                        },
                        Some((filter, j)) => match take_u8(body, j) {
                            None => {
                                failed = true;
                                break;
                            },
                            Some((ob, next)) => match options_from_byte(ob) {
                                None => {
                                    failed = true;
                                    break;
                                },
                                Some(opts) => {
                                    let ghost fv = filter@;
                                    subs.push(Subscription { topic_filter: filter, options: opts });
                                    proof {
                                        assert(Seq::new(subs@.len(), |k: int| subs@[k]@)
                                            =~= acc.push(
                                                SubscriptionView {
                                                    topic_filter: fv,
                                                    options: opts,
                                                },
                                            ));
                                    }
                                    i = next;
                                },
                            },
                        },
                    }
                }
                if !failed && subs.len() >= 1 {
                    let s = Subscribe { packet_identifier: pid, subscriptions: subs };
                    proof {
                        assert(s@.subscriptions =~= Seq::new(s.subscriptions@.len(), |k: int|
                            s.subscriptions@[k]@));
                    }
                    Ok(s)
                } else {
                    Err(DecodeError)
                }
            } else {
                Err(DecodeError)
            }
        },
    }
}

/// Decode an application-message body under the fixed-header byte `h`.
fn publish_from_body(h: u8, body: &[u8]) -> (r: Result<Publish, DecodeError>)
    ensures
        match r {
            Ok(p) => decode_publish(h, body@) == Some(p@),
            Err(_) => decode_publish(h, body@) is None,
        },
{
    let qbits: u8 = (h / 2) % 4;
    let dup = (h / 8) % 2 == 1;
    if qbits > 2 || (qbits == 0 && dup) {
        return Err(DecodeError);
    }
    let retain = h % 2 == 1;
    match take_bin(body, 0) {
        None => Err(DecodeError),
        Some((topic, i)) => {
            if qbits == 0 {
                if i < body.len() && body[i] == 0 {
                    let payload = copy_range(body, i + 1, body.len());
                    Ok(
                        Publish {
                            duplicate: dup,
                            quality_of_service: qos_from_bits(qbits),
                            retain,
                            topic_name: topic,
                            packet_identifier: None,
                            payload,
                        },
                    )
                } else {
                    Err(DecodeError)
                }
            } else {
                match take_u16(body, i) {
                    None => Err(DecodeError),
                    Some((pid, j)) => {
                        if pid != 0 && j < body.len() && body[j] == 0 {
                            let payload = copy_range(body, j + 1, body.len());
                            Ok(
                                Publish {
                                    duplicate: dup,
                                    quality_of_service: qos_from_bits(qbits),
                                    retain,
                                    topic_name: topic,
                                    packet_identifier: Some(pid),
                                    payload,
                                },
                            )
                        } else {
                            Err(DecodeError)
                        }
                    },
                }
            }
        },
    }
}

/// Decode the will fields of a connect body when the flags ask for them.
fn will_from_body(body: &[u8], i: usize, f: u8) -> (r: Result<
    (Option<Will>, usize),
    DecodeError,
>)
    requires
        i <= body@.len(),
    ensures
        match r {
            Ok((w, j)) => decode_connect_will(body@, i as int, f) == Some(
                (
                    match w {
                        Some(wl) => Some(wl@),
                        None => None,
                    },
                    j as int,
                ),
            ) && j <= body@.len(),
            Err(_) => decode_connect_will(body@, i as int, f) is None,
        },
{
    if (f / 4) % 2 == 1 {
        let wq: u8 = (f / 8) % 4;
        if wq > 2 {
            return Err(DecodeError);
        }
        match take_u8(body, i) {
            None => Err(DecodeError),
            Some((wp, i1)) => {
                if wp != 0 {
                    return Err(DecodeError);
                }
                match take_bin(body, i1) {
                    None => Err(DecodeError),
                    Some((topic, i2)) => match take_bin(body, i2) {
                        None => Err(DecodeError),
                        Some((payload, i3)) => Ok(
                            (
                                Some(
                                    Will {
                                        topic,
                                        payload,
                                        qos: qos_from_bits(wq),
                                        retain: (f / 32) % 2 == 1,
                                    },
                                ),
                                i3,
                            ),
                        ),
                    },
                }
            },
        }
    } else {
        if (f / 8) % 4 == 0 && (f / 32) % 2 == 0 {
            Ok((None, i))
        } else {
            Err(DecodeError)
        }
    }
}

/// Decode a length-prefixed field that is present exactly when `present`.
fn opt_bin_from_body(body: &[u8], i: usize, present: bool) -> (r: Result<
    (Option<Vec<u8>>, usize),
    DecodeError,
>)
    requires
        i <= body@.len(),
    ensures
        match r {
            Ok((o, j)) => decode_opt_bin(body@, i as int, present) == Some(
                (
                    match o {
                        Some(b) => Some(b@),
                        None => None,
                    },
                    j as int,
                ),
            ) && j <= body@.len(),
            Err(_) => decode_opt_bin(body@, i as int, present) is None,
        },
{
    if present {
        match take_bin(body, i) {
            None => Err(DecodeError),
            Some((b, j)) => Ok((Some(b), j)),
        }
    } else {
        Ok((None, i))
    }
}

/// Decode a connection request body.
fn connect_from_body(body: &[u8]) -> (r: Result<Connect, DecodeError>)
    ensures
        match r {
            Ok(c) => decode_connect(body@) == Some(c@),
            Err(_) => decode_connect(body@) is None,
        },
{
    let (pname, i1) = match take_bin(body, 0) {
        None => {
            return Err(DecodeError);
        },
        Some(x) => x,
    };
    if !(pname.len() == 4 && pname[0] == 77 && pname[1] == 81 && pname[2] == 84 && pname[3]
        == 84) {
        proof {
            if pname@ == protocol_name() {
                assert(pname@[0] == 77 && pname@[1] == 81 && pname@[2] == 84 && pname@[3] == 84);
            }
        }
        return Err(DecodeError);
    }
    assert(pname@ =~= protocol_name());
    let (lvl, i2) = match take_u8(body, i1) {
        None => {
            return Err(DecodeError);
        },
        Some(x) => x,
    };
    if lvl != PROTOCOL_LEVEL {
        return Err(DecodeError);
    }
    let (f, i3) = match take_u8(body, i2) {
        None => {
            return Err(DecodeError);
        },
        Some(x) => x,
    };
    if f % 2 != 0 {
        return Err(DecodeError);
    }
    let (ka, i4) = match take_u16(body, i3) {
        None => {
            return Err(DecodeError);
        },
        Some(x) => x,
    };
    let (props, i5) = match take_u8(body, i4) {
        None => {
            return Err(DecodeError);
        },
        Some(x) => x,
    };
    if props != 0 {
        return Err(DecodeError);
    }
    let (cid, i6) = match take_bin(body, i5) {
        None => {
            return Err(DecodeError);
        },
        Some(x) => x,
    };
    let (will, i7) = match will_from_body(body, i6, f) {
        Err(e) => {
            return Err(e);
        },
        Ok(x) => x,
    };
    let (user, i8) = match opt_bin_from_body(body, i7, f / 128 == 1) {
        Err(e) => {
            return Err(e);
        },
        Ok(x) => x,
    };
    let (pass, i9) = match opt_bin_from_body(body, i8, (f / 64) % 2 == 1) {
        Err(e) => {
            return Err(e);
        },
        Ok(x) => x,
    };
    if i9 != body.len() {
        return Err(DecodeError);
    }
    Ok(
        Connect {
            client_identifier: cid,
            username: user,
            password: pass,
            clean_start: (f / 2) % 2 == 1,
            will,
            keep_alive: ka,
        },
    )
}

/// Decode exactly one complete packet from `s`. Succeeds with packet `p`
/// precisely when the specification decoder reads `p` out of `s`, and
/// fails precisely when `s` is not one well-formed packet.
pub fn decode_packet(s: &[u8]) -> (r: Result<Packet, DecodeError>)
    ensures
        match r {
            Ok(p) => spec_decode(s@) == Some(p@),
            Err(_) => spec_decode(s@) is None,
        },
{
    let (h, i) = match take_u8(s, 0) {
        None => {
            return Err(DecodeError);
        },
        Some(x) => x,
    };
    let (l, j) = match take_varint(s, i) {
        None => {
            return Err(DecodeError);
        },
        Some(x) => x,
    };
    proof {
        lemma_parse_varint_rec_bounds(s@, i as int, 4);
    }
    if !(l as usize <= s.len() && j == s.len() - l as usize) {
        return Err(DecodeError);
    }
    let body = copy_range(s, j, s.len());
    assert(body@ == s@.subrange(j as int, s@.len() as int));
    if h == 16 {
        match connect_from_body(body.as_slice()) {
            Ok(c) => Ok(Packet::Connect(c)),
            Err(e) => Err(e),
        }
    } else if h == 32 {
        match connack_from_body(body.as_slice()) {
            Ok(c) => Ok(Packet::Connack(c)),
            Err(e) => Err(e),
        }
    } else if 48 <= h && h < 64 {
        match publish_from_body(h, body.as_slice()) {
            Ok(p) => Ok(Packet::Publish(p)),
            Err(e) => Err(e),
        }
    } else if h == 64 {
        match puback_from_body(body.as_slice()) {
            Ok(p) => Ok(Packet::Puback(p)),
            Err(e) => Err(e),
        }
    } else if h == 130 {
        match subscribe_from_body(body.as_slice()) {
            Ok(sb) => Ok(Packet::Subscribe(sb)),
            Err(e) => Err(e),
        }
    } else if h == 144 {
        match suback_from_body(body.as_slice()) {
            Ok(sb) => Ok(Packet::Suback(sb)),
            Err(e) => Err(e),
        }
    } else if h == 192 {
        if body.len() == 0 {
            Ok(Packet::Pingreq)
        } else {
            Err(DecodeError)
        }
    } else if h == 208 {
        if body.len() == 0 {
            Ok(Packet::Pingresp)
        } else {
            Err(DecodeError)
        }
    } else if h == 224 {
        match disconnect_from_body(body.as_slice()) {
            Ok(d) => Ok(Packet::Disconnect(d)),
            Err(e) => Err(e),
        }
    } else {
        Err(DecodeError)
    }
}

} // verus!
