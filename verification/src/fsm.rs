//! The pure client state machine. Given the current phase and one
//! external event — a command from the caller or one decoded inbound
//! packet — it moves to the next phase and holds at most one pending
//! action, which the caller drains with `run`. It performs no I/O and no
//! suspension: every method is a deterministic function of its inputs,
//! specified against the transition functions below.

use vstd::prelude::*;

use crate::error::MqttClientError;
use crate::packet::Connect;
use crate::packet::ConnectView;
use crate::packet::Packet;
use crate::packet::PacketView;
use crate::packet::Publish;
use crate::packet::PublishView;
use crate::packet::PubackView;
use crate::packet::Qos;
use crate::packet::Subscribe;
use crate::packet::SubscribeView;
use crate::packet::SubscriptionView;

verus! {

/// The phase of one connection attempt.
#[derive(Clone, Copy, Debug, PartialEq, Eq, Structural)]
pub enum ClientState {
    /// No connection attempt has been started.
    Idle,
    /// A connect packet is queued or sent; its acknowledgement is owed.
    AwaitingConnack,
    /// The broker accepted the connection.
    Connected,
    /// A subscribe packet is queued or sent; its acknowledgement is owed.
    AwaitingSuback,
    /// The subscription stands; application traffic flows.
    Active,
    /// The session is over; only a fresh state machine can connect again.
    Disconnected,
}

/// The obligation to acknowledge one inbound publish, handed to the
/// caller together with the delivered packet.
#[derive(Clone, Copy, Debug, PartialEq, Eq, Structural)]
pub struct Acknowledge {
    pub packet_identifier: u16,
}

/// One piece of follow-up work the caller must perform. At most one is
/// pending inside the state machine at any time.
#[derive(Debug, PartialEq, Eq)]
pub enum ExpectedAction {
    /// Serialize this packet and write it to the transport.
    SendPacket(Packet),
    /// Remember the client identifier the broker assigned.
    SaveClientIdentifier(Vec<u8>),
    /// Store this packet, keyed by `id`, for resending, then send it.
    StorePacket { id: u16, packet: Packet },
    /// Drop the stored packet keyed by `id`: its delivery is complete.
    ReleasePacket { id: u16 },
    /// Hand this packet to the application, honouring the acknowledgement
    /// obligation first when one is attached.
    Deliver { packet: Packet, acknowledge: Option<Acknowledge> },
    /// Tear the connection down.
    Disconnect,
}

/// Mathematical view of a pending action.
pub enum ActionView {
    SendPacket(PacketView),
    SaveClientIdentifier(Seq<u8>),
    StorePacket { id: u16, packet: PacketView },
    ReleasePacket { id: u16 },
    Deliver { packet: PacketView, acknowledge: Option<u16> },
    Disconnect,
}

impl View for ExpectedAction {
    type V = ActionView;

    open spec fn view(&self) -> ActionView {
        match self {
            ExpectedAction::SendPacket(p) => ActionView::SendPacket(p@),
            ExpectedAction::SaveClientIdentifier(c) => ActionView::SaveClientIdentifier(c@),
            ExpectedAction::StorePacket { id, packet } => ActionView::StorePacket {
                id: *id,
                packet: packet@,
            },
            ExpectedAction::ReleasePacket { id } => ActionView::ReleasePacket { id: *id },
            ExpectedAction::Deliver { packet, acknowledge } => ActionView::Deliver {
                packet: packet@,
                acknowledge: match acknowledge {
                    Some(a) => Some(a.packet_identifier),
                    None => None,
                },
            },
            ExpectedAction::Disconnect => ActionView::Disconnect,
        }
    }
}

/// Mathematical view of the state machine.
pub struct FsmView {
    pub state: ClientState,
    pub pending: Option<ActionView>,
    pub next_packet_identifier: u16,
    pub sub_pending: Option<u16>,
    pub outstanding: Seq<u16>,
    pub keep_alive: u16,
}

/// Well-formedness: identifiers are allocated from one, monotonically,
/// and the identifiers still in flight are pairwise distinct and all
/// below the allocator's cursor.
pub open spec fn fsm_wf(s: FsmView) -> bool {
    &&& 1 <= s.next_packet_identifier
    &&& forall|k: int| 0 <= k < s.outstanding.len()
        ==> 1 <= #[trigger] s.outstanding[k] < s.next_packet_identifier
    &&& forall|k: int, m: int|
        #![trigger s.outstanding[k], s.outstanding[m]]
        0 <= k < m < s.outstanding.len() ==> s.outstanding[k] != s.outstanding[m]
}

/// Every reason code in a subscription acknowledgement grants one of the
/// three quality-of-service levels.
pub open spec fn all_reasons_granted(reasons: Seq<u8>) -> bool {
    forall|k: int| 0 <= k < reasons.len() ==> #[trigger] reasons[k] <= 2
}

// ---------------------------------------------------------------------
// Transition functions: the mathematical behaviour each method is held
// to.

/// Starting a connection attempt queues the connect packet and waits for
/// its acknowledgement.
pub open spec fn spec_handle_connect(s: FsmView, c: ConnectView) -> FsmView {
    FsmView {
        state: ClientState::AwaitingConnack,
        pending: Some(ActionView::SendPacket(PacketView::Connect(c))),
        keep_alive: c.keep_alive,
        ..s
    }
}

/// Draining hands out the pending action, leaving none behind.
pub open spec fn spec_run(s: FsmView) -> (FsmView, Option<ActionView>) {
    (FsmView { pending: None, ..s }, s.pending)
}

/// Consuming one inbound packet: the next state and the error reported,
/// if any.
pub open spec fn spec_consume(s: FsmView, p: PacketView) -> (FsmView, Option<MqttClientError>) {
    match p {
        PacketView::Connack(c) => if s.state == ClientState::AwaitingConnack {
            if c.reason_code == 0 {
                (FsmView { state: ClientState::Connected, ..s }, None)
            } else {
                (
                    FsmView { state: ClientState::Disconnected, ..s },
                    Some(MqttClientError::ConnackUnsuccessful(c.reason_code)),
                )
            }
        } else {
            (
                FsmView { state: ClientState::Disconnected, ..s },
                Some(MqttClientError::UnexpectedPacket),
            )
        },
        PacketView::Suback(sb) => if s.state == ClientState::AwaitingSuback && s.sub_pending
            == Some(sb.packet_identifier) {
            if all_reasons_granted(sb.reasons) {
                (FsmView { state: ClientState::Active, sub_pending: None, ..s }, None)
            } else {
                (
                    FsmView { state: ClientState::Disconnected, ..s },
                    Some(MqttClientError::AnySubscribeFailed),
                )
            }
        } else {
            (
                FsmView { state: ClientState::Disconnected, ..s },
                Some(MqttClientError::UnexpectedPacket),
            )
        },
        PacketView::Publish(pb) => if s.state == ClientState::Connected || s.state
            == ClientState::Active {
            if pb.quality_of_service == Qos::AtMostOnce {
                (
                    FsmView {
                        pending: Some(ActionView::Deliver { packet: p, acknowledge: None }),
                        ..s
                    },
                    None,
                )
            } else {
                match pb.packet_identifier {
                    Some(i) => (
                        FsmView {
                            pending: Some(
                                ActionView::Deliver { packet: p, acknowledge: Some(i) },
                            ),
                            ..s
                        },
                        None,
                    ),
                    None => (
                        FsmView { state: ClientState::Disconnected, ..s },
                        Some(MqttClientError::MissingPacketIdentifier),
                    ),
                }
            }
        } else {
            (
                FsmView { state: ClientState::Disconnected, ..s },
                Some(MqttClientError::UnexpectedPacket),
            )
        },
        PacketView::Puback(pb) => if (s.state == ClientState::Connected || s.state
            == ClientState::Active) && s.outstanding.contains(pb.packet_identifier) {
            (
                FsmView {
                    outstanding: s.outstanding.remove_value(pb.packet_identifier),
                    pending: Some(ActionView::ReleasePacket { id: pb.packet_identifier }),
                    ..s
                },
                None,
            )
        } else {
            (
                FsmView { state: ClientState::Disconnected, ..s },
                Some(MqttClientError::UnexpectedPacket),
            )
        },
        PacketView::Pingresp => (s, None),
        PacketView::Disconnect(_) => (
            FsmView {
                state: ClientState::Disconnected,
                pending: Some(ActionView::Disconnect),
                ..s
            },
            None,
        ),
        _ => (
            FsmView { state: ClientState::Disconnected, ..s },
            Some(MqttClientError::UnexpectedPacket),
        ),
    }
}

/// Subscribing allocates a fresh packet identifier and queues the
/// subscribe packet; it fails only when the identifier space of this
/// session is used up.
pub open spec fn spec_subscribe(s: FsmView, subs: Seq<SubscriptionView>) -> (
    FsmView,
    Option<MqttClientError>,
) {
    if s.next_packet_identifier == 0xffff {
        (s, Some(MqttClientError::PacketIdentifiersExhausted))
    } else {
        (
            FsmView {
                state: ClientState::AwaitingSuback,
                pending: Some(
                    ActionView::SendPacket(
                        PacketView::Subscribe(
                            SubscribeView {
                                packet_identifier: s.next_packet_identifier,
                                subscriptions: subs,
                            },
                        ),
                    ),
                ),
                next_packet_identifier: (s.next_packet_identifier + 1) as u16,
                sub_pending: Some(s.next_packet_identifier),
                ..s
            },
            None,
        )
    }
}

/// Publishing at most once yields the send action straight away; at
/// least once, it allocates a fresh identifier, marks it outstanding,
/// and yields the store-for-resend action carrying the identified packet.
pub open spec fn spec_publish(s: FsmView, p: PublishView) -> (FsmView, Option<ActionView>) {
    if p.quality_of_service == Qos::AtMostOnce {
        (s, Some(ActionView::SendPacket(PacketView::Publish(p))))
    } else if s.next_packet_identifier == 0xffff {
        (s, None)
    } else {
        let id = s.next_packet_identifier;
        (
            FsmView {
                next_packet_identifier: (id + 1) as u16,
                outstanding: s.outstanding.push(id),
                ..s
            },
            Some(
                ActionView::StorePacket {
                    id,
                    packet: PacketView::Publish(
                        PublishView { packet_identifier: Some(id), ..p },
                    ),
                },
            ),
        )
    }
}

/// The acknowledgement packet owed for one delivered publish.
pub open spec fn spec_acknowledge(id: u16) -> PacketView {
    PacketView::Puback(PubackView { packet_identifier: id, reason_code: 0 })
}

// ---------------------------------------------------------------------
// The state machine itself.

/// Pure client state machine: no I/O, no allocation beyond the one
/// pending action, at most one action returned per call.
pub struct MqttClientFsm {
    state: ClientState,
    pending: Option<ExpectedAction>,
    next_packet_identifier: u16,
    sub_pending: Option<u16>,
    outstanding: Vec<u16>,
    keep_alive: u16,
}

impl View for MqttClientFsm {
    type V = FsmView;

    closed spec fn view(&self) -> FsmView {
        FsmView {
            state: self.state,
            pending: match self.pending {
                Some(a) => Some(a@),
                None => None,
            },
            next_packet_identifier: self.next_packet_identifier,
            sub_pending: self.sub_pending,
            outstanding: self.outstanding@,
            keep_alive: self.keep_alive,
        }
    }
}

impl MqttClientFsm {
    /// A fresh state machine, idle, with nothing pending and the whole
    /// identifier space ahead of it.
    pub fn new(keep_alive: u16) -> (r: MqttClientFsm)
        ensures
            r@ == (FsmView {
                state: ClientState::Idle,
                pending: None,
                next_packet_identifier: 1,
                sub_pending: None,
                outstanding: Seq::empty(),
                keep_alive: keep_alive,
            }),
            fsm_wf(r@),
    {
        let r = MqttClientFsm {
            state: ClientState::Idle,
            pending: None,
            next_packet_identifier: 1,
            sub_pending: None,
            outstanding: Vec::new(),
            keep_alive,
        };
        proof {
            assert(r@.outstanding =~= Seq::<u16>::empty());
        }
        r
    }

    /// The current phase.
    pub fn state(&self) -> (r: ClientState)
        ensures
            r == self@.state,
    {
        self.state
    }

    /// Start the connection handshake. Calling this anywhere but on a
    /// fresh, drained machine is a caller error, ruled out here.
    pub fn handle_connect(&mut self, _now: u64, connect: Connect)
        requires
            old(self)@.state == ClientState::Idle,
            old(self)@.pending is None,
            fsm_wf(old(self)@),
        ensures
            final(self)@ == spec_handle_connect(old(self)@, connect@),
            fsm_wf(final(self)@),
    {
        self.keep_alive = connect.keep_alive;
        self.state = ClientState::AwaitingConnack;
        self.pending = Some(ExpectedAction::SendPacket(Packet::Connect(connect)));
    }

    /// Pop and return the single pending action, or nothing. Right after
    /// a call that returned an action, nothing is pending, so a second
    /// call before any new event returns nothing: never two outstanding
    /// sends for the same phase.
    pub fn run(&mut self, _now: u64) -> (r: Option<ExpectedAction>)
        requires
            fsm_wf(old(self)@),
        ensures
            final(self)@ == spec_run(old(self)@).0,
            (match r {
                Some(a) => Some(a@),
                None => None,
            }) == spec_run(old(self)@).1,
            final(self)@.pending is None,
            fsm_wf(final(self)@),
    {
        self.pending.take()
    }

    /// Feed one decoded inbound packet. Acknowledgements move the
    /// handshake forward; rejections and unexpected packets end the
    /// session with the error that says why; deliveries and releases are
    /// queued as the single pending action.
    #[verifier::rlimit(100)]
    pub fn consume(&mut self, _now: u64, packet: Packet) -> (r: Result<(), MqttClientError>)
        requires
            fsm_wf(old(self)@),
            old(self)@.pending is None,
        ensures
            final(self)@ == spec_consume(old(self)@, packet@).0,
            (match r {
                Ok(()) => None,
                Err(e) => Some(e),
            }) == spec_consume(old(self)@, packet@).1,
            fsm_wf(final(self)@),
    {
        match packet {
            Packet::Connack(c) => {
                if self.state == ClientState::AwaitingConnack {
                    if c.reason_code == 0 {
                        self.state = ClientState::Connected;
                        Ok(())
                    } else {
                        self.state = ClientState::Disconnected;
                        Err(MqttClientError::ConnackUnsuccessful(c.reason_code))
                    }
                } else {
                    self.state = ClientState::Disconnected;
                    Err(MqttClientError::UnexpectedPacket)
                }
            },
            Packet::Suback(sb) => {
                let expected = self.state == ClientState::AwaitingSuback && match self.sub_pending {
                    Some(i) => i == sb.packet_identifier,
                    None => false,
                };
                if expected {
                    if all_granted(&sb.reasons) {
                        self.state = ClientState::Active;
                        self.sub_pending = None;
                        Ok(())
                    } else {
                        self.state = ClientState::Disconnected;
                        Err(MqttClientError::AnySubscribeFailed)
                    }
                } else {
                    self.state = ClientState::Disconnected;
                    Err(MqttClientError::UnexpectedPacket)
                }
            },
            Packet::Publish(pb) => {
                if self.state == ClientState::Connected || self.state == ClientState::Active {
                    match pb.packet_identifier {
                        None => {
                            if pb.quality_of_service == Qos::AtMostOnce {
                                self.pending = Some(
                                    ExpectedAction::Deliver {
                                        packet: Packet::Publish(pb),
                                        acknowledge: None,
                                    },
                                );
                                Ok(())
                            } else {
                                self.state = ClientState::Disconnected;
                                Err(MqttClientError::MissingPacketIdentifier)
                            }
                        },
                        Some(i) => {
                            if pb.quality_of_service == Qos::AtMostOnce {
                                self.pending = Some(
                                    ExpectedAction::Deliver {
                                        packet: Packet::Publish(pb),
                                        acknowledge: None,
                                    },
                                );
                                Ok(())
                            } else {
                                self.pending = Some(
                                    ExpectedAction::Deliver {
                                        packet: Packet::Publish(pb),
                                        acknowledge: Some(Acknowledge { packet_identifier: i }),
                                    },
                                );
                                Ok(())
                            }
                        },
                    }
                } else {
                    self.state = ClientState::Disconnected;
                    Err(MqttClientError::UnexpectedPacket)
                }
            },
            Packet::Puback(pb) => {
                if self.state == ClientState::Connected || self.state == ClientState::Active {
                    let removed = self.take_outstanding(pb.packet_identifier);
                    if removed {
                        let ghost mid = self@;
                        self.pending = Some(
                            ExpectedAction::ReleasePacket { id: pb.packet_identifier },
                        );
                        proof {
                            assert(self@.outstanding == mid.outstanding);
                        }
                        Ok(())
                    } else {
                        self.state = ClientState::Disconnected;
                        Err(MqttClientError::UnexpectedPacket)
                    }
                } else {
                    self.state = ClientState::Disconnected;
                    Err(MqttClientError::UnexpectedPacket)
                }
            },
            Packet::Pingresp => Ok(()),
            Packet::Disconnect(_) => {
                self.state = ClientState::Disconnected;
                self.pending = Some(ExpectedAction::Disconnect);
                Ok(())
            },
            _ => {
                self.state = ClientState::Disconnected;
                Err(MqttClientError::UnexpectedPacket)
            },
        }
    }

    /// Remove `id` from the outstanding identifiers; false when it was
    /// not there.
    fn take_outstanding(&mut self, id: u16) -> (r: bool)
        requires
            fsm_wf(old(self)@),
        ensures
            r == old(self)@.outstanding.contains(id),
            r ==> final(self)@ == (FsmView {
                outstanding: old(self)@.outstanding.remove_value(id),
                ..old(self)@
            }),
            !r ==> final(self)@ == old(self)@,
            fsm_wf(final(self)@),
    {
        let ghost out = self.outstanding@;
        let n = self.outstanding.len();
        let mut k: usize = 0;
        let mut at: usize = n;
        loop
            invariant_except_break
                k <= n,
                at == n,
                n == self.outstanding@.len(),
                self.outstanding@ == out,
                forall|m: int| 0 <= m < k ==> out[m] != id,
            ensures
                self.outstanding@ == out,
                n == out.len(),
                if at < n {
                    out[at as int] == id && (forall|m: int| 0 <= m < at ==> out[m] != id)
                } else {
                    !out.contains(id)
                },
            decreases n - k,
        {
            if k >= n {
                break;
            }
            if self.outstanding[k] == id {
                at = k;
                break;
            }
            k = k + 1;
        }
        if at < n {
            self.outstanding.remove(at);
            proof {
                out.index_of_first_ensures(id);
                let fi = out.index_of_first(id);
                assert(fi matches Some(i) && out[i] == id);
                if let Some(i) = fi {
                    assert(i <= at as int);
                    assert(at as int <= i);
                }
                assert(self.outstanding@ == out.remove_value(id));
                assert(fsm_wf(self@)) by {
                    out.remove_ensures(at as int);
                }
            }
            true
        } else {
            false
        }
    }

    /// Ask for the subscriptions of `request`, under a freshly allocated
    /// packet identifier. Valid only once connected and drained; fails
    /// exactly when the identifier space is used up.
    pub fn subscribe(&mut self, _now: u64, request: Subscribe) -> (r: Result<
        (),
        MqttClientError,
    >)
        requires
            fsm_wf(old(self)@),
            old(self)@.state == ClientState::Connected,
            old(self)@.pending is None,
        ensures
            final(self)@ == spec_subscribe(old(self)@, request@.subscriptions).0,
            (match r {
                Ok(()) => None,
                Err(e) => Some(e),
            }) == spec_subscribe(old(self)@, request@.subscriptions).1,
            fsm_wf(final(self)@),
    {
        if self.next_packet_identifier == 0xffff {
            return Err(MqttClientError::PacketIdentifiersExhausted);
        }
        let id = self.next_packet_identifier;
        self.next_packet_identifier = self.next_packet_identifier + 1;
        self.sub_pending = Some(id);
        self.state = ClientState::AwaitingSuback;
        let Subscribe { packet_identifier: _, subscriptions } = request;
        let packet = Subscribe { packet_identifier: id, subscriptions };
        proof {
            assert(packet@.subscriptions =~= request@.subscriptions);
        }
        self.pending = Some(ExpectedAction::SendPacket(Packet::Subscribe(packet)));
        Ok(())
    }

    /// Publish one application message. At most once, the send action
    /// comes straight back; at least once, the returned action asks the
    /// caller to store the identified packet for resending, and the
    /// identifier stays outstanding until its acknowledgement releases
    /// it. Fails exactly when the identifier space is used up.
    pub fn publish(&mut self, packet: Publish) -> (r: Result<ExpectedAction, MqttClientError>)
        requires
            fsm_wf(old(self)@),
            old(self)@.state == ClientState::Connected || old(self)@.state
                == ClientState::Active,
            packet@.packet_identifier is None,
        ensures
            final(self)@ == spec_publish(old(self)@, packet@).0,
            (match r {
                Ok(a) => spec_publish(old(self)@, packet@).1 == Some(a@),
                Err(e) => spec_publish(old(self)@, packet@).1 is None && e
                    == MqttClientError::PacketIdentifiersExhausted,
            }),
            fsm_wf(final(self)@),
    {
        if packet.quality_of_service == Qos::AtMostOnce {
            Ok(ExpectedAction::SendPacket(Packet::Publish(packet)))
        } else if self.next_packet_identifier == 0xffff {
            Err(MqttClientError::PacketIdentifiersExhausted)
        } else {
            let id = self.next_packet_identifier;
            self.next_packet_identifier = self.next_packet_identifier + 1;
            self.outstanding.push(id);
            let identified = Publish { packet_identifier: Some(id), ..packet };
            Ok(ExpectedAction::StorePacket { id, packet: Packet::Publish(identified) })
        }
    }

    /// Produce the acknowledgement packet owed for one delivered
    /// publish: a send action carrying the puback whose identifier is
    /// the one delivered.
    pub fn acknowledge(&self, _now: u64, descriptor: Acknowledge) -> (r: ExpectedAction)
        ensures
            r@ == ActionView::SendPacket(spec_acknowledge(descriptor.packet_identifier)),
    {
        ExpectedAction::SendPacket(
            Packet::Puback(
                crate::packet::Puback {
                    packet_identifier: descriptor.packet_identifier,
                    reason_code: 0,
                },
            ),
        )
    }
}

// ---------------------------------------------------------------------
// Laws of the state machine.

/// Law: at most one action is ever outstanding. After a drain that
/// returned an action, a second drain before any new event returns
/// nothing.
pub proof fn lemma_single_action(s: FsmView)
    ensures
        spec_run(spec_run(s).0).1 is None,
{
}

/// Law: the full handshake succeeds. From an idle machine, connecting,
/// draining the connect send, consuming a success connection
/// acknowledgement, subscribing, draining the subscribe send, and
/// consuming a subscription acknowledgement that matches the subscribe's
/// identifier and grants every filter, reports no error at any step and
/// ends with the session active.
pub proof fn lemma_handshake_success(
    s0: FsmView,
    c: ConnectView,
    session_present: bool,
    subs: Seq<SubscriptionView>,
    reasons: Seq<u8>,
)
    requires
        s0.state == ClientState::Idle,
        s0.pending is None,
        s0.next_packet_identifier != 0xffff,
        fsm_wf(s0),
        all_reasons_granted(reasons),
    ensures
        ({
            let s1 = spec_handle_connect(s0, c);
            let (s2, connect_send) = spec_run(s1);
            let ca = crate::packet::ConnackView { session_present, reason_code: 0 };
            let (s3, e3) = spec_consume(s2, PacketView::Connack(ca));
            let (s4, e4) = spec_subscribe(s3, subs);
            let (s5, subscribe_send) = spec_run(s4);
            let sa = crate::packet::SubackView {
                packet_identifier: s3.next_packet_identifier,
                reasons,
            };
            let (s6, e6) = spec_consume(s5, PacketView::Suback(sa));
            &&& connect_send == Some(ActionView::SendPacket(PacketView::Connect(c)))
            &&& e3 is None && s3.state == ClientState::Connected
            &&& e4 is None
            &&& subscribe_send == Some(
                ActionView::SendPacket(
                    PacketView::Subscribe(
                        SubscribeView {
                            packet_identifier: s3.next_packet_identifier,
                            subscriptions: subs,
                        },
                    ),
                ),
            )
            &&& e6 is None && s6.state == ClientState::Active
        }),
{
}

/// Law: a rejected connection acknowledgement fails the connect with
/// exactly the broker's reason code, ends the session, and leaves it in
/// a phase from which no subscribe can ever be issued — so no subscribe
/// packet follows a rejection.
pub proof fn lemma_handshake_rejection(s: FsmView, ca: crate::packet::ConnackView)
    requires
        s.state == ClientState::AwaitingConnack,
        ca.reason_code != 0,
    ensures
        ({
            let (s2, e) = spec_consume(s, PacketView::Connack(ca));
            &&& e == Some(MqttClientError::ConnackUnsuccessful(ca.reason_code))
            &&& s2.state == ClientState::Disconnected
            &&& s2.state != ClientState::Connected
            &&& s2.pending == s.pending
        }),
{
}

/// Law: a subscribe succeeds exactly when every reason in the matching
/// subscription acknowledgement grants a quality-of-service level; one
/// rejected filter fails the whole subscribe and ends the session.
pub proof fn lemma_subscribe_outcome(s: FsmView, sa: crate::packet::SubackView)
    requires
        s.state == ClientState::AwaitingSuback,
        s.sub_pending == Some(sa.packet_identifier),
    ensures
        ({
            let (s2, e) = spec_consume(s, PacketView::Suback(sa));
            &&& e is None <==> all_reasons_granted(sa.reasons)
            &&& all_reasons_granted(sa.reasons) ==> s2.state == ClientState::Active
            &&& !all_reasons_granted(sa.reasons) ==> e == Some(MqttClientError::AnySubscribeFailed)
                && s2.state == ClientState::Disconnected
        }),
{
}

/// Law: an inbound publish that requires acknowledgement is delivered
/// together with an acknowledgement obligation carrying the inbound
/// packet identifier, and resolving that obligation yields exactly one
/// acknowledgement packet whose identifier is that same one.
pub proof fn lemma_qos1_delivery(s: FsmView, p: PublishView, i: u16)
    requires
        s.state == ClientState::Active,
        p.quality_of_service != Qos::AtMostOnce,
        p.packet_identifier == Some(i),
    ensures
        ({
            let (s2, e) = spec_consume(s, PacketView::Publish(p));
            &&& e is None
            &&& s2.pending == Some(
                ActionView::Deliver { packet: PacketView::Publish(p), acknowledge: Some(i) },
            )
            &&& spec_acknowledge(i) == PacketView::Puback(
                PubackView { packet_identifier: i, reason_code: 0 },
            )
        }),
{
}

/// Every reason code grants one of the three quality-of-service levels.
pub fn all_granted(reasons: &Vec<u8>) -> (r: bool)
    ensures
        r == all_reasons_granted(reasons@),
{
    let mut k: usize = 0;
    while k < reasons.len()
        invariant
            k <= reasons@.len(),
            forall|m: int| 0 <= m < k ==> #[trigger] reasons@[m] <= 2,
        decreases reasons@.len() - k,
    {
        if reasons[k] > 2 {
            return false;
        }
        k = k + 1;
    }
    true
}

} // verus!
