use vstd::prelude::*;

use crate::commitment::CommitmentLevel;
use crate::ext::instant_now;
use crate::json::{
    build_signature_json, build_slot_json, signature_notification_json, slot_notification_json,
};
use crate::registry::{
    SubscriptionKey, SubscriptionKeyV, SubscriptionRegistry, empty_registry_map, event_match,
};

verus! {

/// A signature confirmation observed upstream.
pub struct SignatureNotification {
    pub signature: String,
    pub commitment: CommitmentLevel,
    pub slot: u64,
    pub error: Option<String>,
}

/// An inbound event from the upstream confirmation and slot sources.
pub enum NotificationType {
    Signature(SignatureNotification),
    Slot(u64),
}

/// The outbound unit: one serialized notification, stamped with the
/// subscription it answers, whether that subscription is satisfied by it,
/// and the instant it was built.
#[derive(Clone)]
pub struct LiteRpcNotification {
    pub subscription_id: u64,
    pub is_final: bool,
    pub json: String,
    pub created_at: std::time::Instant,
}

/// Relies on `crossbeam_channel::Receiver::recv`: blocks for the next event;
/// `None` only once the queue is empty and every producer is gone.
#[verifier::external_body]
fn recv_event(r: &crossbeam_channel::Receiver<NotificationType>) -> (ev: Option<NotificationType>) {
    match r.recv() {
        Ok(event) => Some(event),
        Err(_closed) => None,
    }
}

/// Relies on `tokio::sync::broadcast::Sender::send`: delivers the envelope
/// to every attached consumer; with no consumer attached it hands the
/// envelope back instead of sending.
#[verifier::external_body]
fn fanout_send(
    s: &tokio::sync::broadcast::Sender<LiteRpcNotification>,
    n: LiteRpcNotification,
) -> (r: Result<usize, LiteRpcNotification>)
    ensures
        r matches Err(returned) ==> returned == n,
{
    match s.send(n) {
        Ok(receiver_count) => Ok(receiver_count),
        Err(tokio::sync::broadcast::error::SendError(returned)) => Err(returned),
    }
}

/// What `build_notification` promises for one event against one registry
/// image: no envelope exactly when no subscription matches, and otherwise
/// one envelope carrying the matched identifier, the terminal flag and the
/// serialized notification.
pub open spec fn dispatch_post(
    subs: Map<SubscriptionKeyV, u64>,
    event: NotificationType,
    r: Option<LiteRpcNotification>,
) -> bool {
    match event {
        NotificationType::Signature(data) => {
            let matched = event_match(subs, data.signature@, data.commitment);
            match r {
                Some(n) => matched == Some(n.subscription_id) && n.is_final
                    == data.commitment.is_terminal() && n.json@ == signature_notification_json(
                    data.slot,
                    data.error.deep_view(),
                    n.subscription_id,
                ),
                None => matched is None,
            }
        },
        NotificationType::Slot(slot) => {
            match r {
                Some(n) => subs.contains_key(SubscriptionKeyV::Slot) && n.subscription_id
                    == subs[SubscriptionKeyV::Slot] && !n.is_final && n.json@
                    == slot_notification_json(slot, n.subscription_id),
                None => !subs.contains_key(SubscriptionKeyV::Slot),
            }
        },
    }
}

/// Matches inbound events against the live subscriptions and broadcasts one
/// envelope per matched event to every connection's fanout consumer.
pub struct LiteRpcSubsrciptionControl {
    pub broadcast_sender: tokio::sync::broadcast::Sender<LiteRpcNotification>,
    pub notification_reciever: crossbeam_channel::Receiver<NotificationType>,
    /// The live subscriptions; connection handlers register and unregister
    /// here while the dispatcher resolves events against it.
    pub subscriptions: SubscriptionRegistry,
}

impl LiteRpcSubsrciptionControl {
    /// Wires the dispatcher to its event queue and its fanout stream,
    /// starting with no subscription.
    pub fn new(
        broadcast_sender: tokio::sync::broadcast::Sender<LiteRpcNotification>,
        notification_reciever: crossbeam_channel::Receiver<NotificationType>,
    ) -> (r: Self)
        ensures
            r.broadcast_sender == broadcast_sender,
            r.notification_reciever == notification_reciever,
            r.subscriptions@ == empty_registry_map(),
            r.subscriptions.wf(),
            r.subscriptions.minted() == 1,
    {
        LiteRpcSubsrciptionControl {
            broadcast_sender,
            notification_reciever,
            subscriptions: SubscriptionRegistry::new(),
        }
    }

    /// Resolves one event: an event no subscription matches yields nothing
    /// and nothing changes; a matched signature observation yields one
    /// envelope on the registered identifier, final exactly when the
    /// observed level is terminal; a slot advance yields one never-final
    /// envelope for the shared slot subscription.
    pub fn build_notification(&self, event: &NotificationType) -> (r: Option<LiteRpcNotification>)
        ensures
            dispatch_post(self.subscriptions@, *event, r),
    {
        match event {
            NotificationType::Signature(data) => {
                let matched = self.subscriptions.lookup_signature_event(
                    &data.signature,
                    data.commitment,
                );
                match matched {
                    None => None,
                    Some(subscription_id) => {
                        let json = build_signature_json(data.slot, &data.error, subscription_id);
                        Some(
                            LiteRpcNotification {
                                subscription_id,
                                is_final: data.commitment == CommitmentLevel::Finalized,
                                json,
                                created_at: instant_now(),
                            },
                        )
                    },
                }
            },
            NotificationType::Slot(slot) => {
                let matched = self.subscriptions.lookup(&SubscriptionKey::Slot);
                match matched {
                    None => None,
                    Some(subscription_id) => {
                        let json = build_slot_json(*slot, subscription_id);
                        Some(
                            LiteRpcNotification {
                                subscription_id,
                                is_final: false,
                                json,
                                created_at: instant_now(),
                            },
                        )
                    },
                }
            },
        }
    }

    /// Drains the event queue in arrival order, publishing one envelope per
    /// matched event; an unmatched event is dropped silently. The loop ends
    /// as a controlled shutdown, returning true, once the producers close
    /// the queue; it pauses and returns false after `max_events` events, so
    /// that a caller may loop it forever. An envelope nobody consumes is
    /// dropped: the fanout only reaches consumers attached when it was
    /// published.
    pub fn start_broadcasting(&self, max_events: u64) -> (closed: bool)
        ensures
            max_events == 0 ==> !closed,
            closed ==> max_events >= 1,
    {
        let mut remaining = max_events;
        loop
            invariant
                remaining <= max_events,
            decreases remaining,
        {
            if remaining == 0 {
                return false;
            }
            remaining = remaining - 1;
            let next = recv_event(&self.notification_reciever);
            match next {
                Some(event) => {
                    let built = self.build_notification(&event);
                    match built {
                        Some(notification) => {
                            let _ = fanout_send(&self.broadcast_sender, notification);
                        },
                        None => {},
                    }
                },
                None => {
                    return true;
                },
            }
        }
    }
}

} // verus!
