use lite_rpc::commitment::CommitmentLevel;
use lite_rpc::context::{BlockInformation, LiteRpcContext};
use lite_rpc::dispatch::{LiteRpcSubsrciptionControl, NotificationType, SignatureNotification};
use lite_rpc::registry::SubscriptionKey;

fn signature_event(
    signature: &str,
    commitment: CommitmentLevel,
    slot: u64,
    error: Option<String>,
) -> NotificationType {
    NotificationType::Signature(SignatureNotification {
        signature: signature.to_string(),
        commitment,
        slot,
        error,
    })
}

fn new_control() -> (
    LiteRpcSubsrciptionControl,
    crossbeam_channel::Sender<NotificationType>,
    tokio::sync::broadcast::Sender<lite_rpc::dispatch::LiteRpcNotification>,
) {
    let (event_sender, event_receiver) = crossbeam_channel::unbounded();
    let (broadcast_sender, _keepalive) = tokio::sync::broadcast::channel(64);
    let control = LiteRpcSubsrciptionControl::new(broadcast_sender.clone(), event_receiver);
    (control, event_sender, broadcast_sender)
}

#[test]
fn unmatched_event_produces_no_envelope() {
    let (control, _event_sender, _broadcast) = new_control();
    let built =
        control.build_notification(&signature_event("sigA", CommitmentLevel::Confirmed, 5, None));
    assert!(built.is_none());
    let built = control.build_notification(&NotificationType::Slot(7));
    assert!(built.is_none());
}

#[test]
fn event_for_other_commitment_is_dropped() {
    let (mut control, _event_sender, _broadcast) = new_control();
    control.subscriptions.register(&SubscriptionKey::Signature {
        signature: "sigA".to_string(),
        commitment: CommitmentLevel::Finalized,
    });
    // A weaker observation does not satisfy a subscription waiting for more.
    let built =
        control.build_notification(&signature_event("sigA", CommitmentLevel::Confirmed, 5, None));
    assert!(built.is_none());
}

#[test]
fn matched_event_carries_id_flag_and_json() {
    let (mut control, _event_sender, _broadcast) = new_control();
    let id = control.subscriptions.register(&SubscriptionKey::Signature {
        signature: "sigA".to_string(),
        commitment: CommitmentLevel::Confirmed,
    });
    let built = control
        .build_notification(&signature_event("sigA", CommitmentLevel::Confirmed, 101, None))
        .expect("a subscribed event must produce an envelope");
    assert_eq!(built.subscription_id, id);
    assert!(!built.is_final);
    assert_eq!(
        built.json,
        format!(
            "{{\"jsonrpc\":\"2.0\",\"method\":\"signatureSubscription\",\"params\":{{\"result\":{{\"context\":{{\"slot\":101}},\"value\":\"receivedSignature\"}},\"subscription\":{}}}}}",
            id
        )
    );
}

#[test]
fn error_event_embeds_the_escaped_error() {
    let (mut control, _event_sender, _broadcast) = new_control();
    let id = control.subscriptions.register(&SubscriptionKey::Signature {
        signature: "sigA".to_string(),
        commitment: CommitmentLevel::Confirmed,
    });
    let built = control
        .build_notification(&signature_event(
            "sigA",
            CommitmentLevel::Confirmed,
            9,
            Some("bad \"tx\"".to_string()),
        ))
        .expect("a subscribed event must produce an envelope");
    assert_eq!(
        built.json,
        format!(
            "{{\"jsonrpc\":\"2.0\",\"method\":\"signatureSubscription\",\"params\":{{\"result\":{{\"context\":{{\"slot\":9}},\"value\":{{\"err\":\"bad \\\"tx\\\"\"}}}},\"subscription\":{}}}}}",
            id
        )
    );
}

#[test]
fn built_json_is_valid_jsonrpc() {
    let (mut control, _event_sender, _broadcast) = new_control();
    let id = control.subscriptions.register(&SubscriptionKey::Slot);
    let built = control
        .build_notification(&NotificationType::Slot(42))
        .expect("a subscribed slot advance must produce an envelope");
    assert!(!built.is_final);
    let parsed: serde_json::Value = serde_json::from_str(&built.json).expect("well-formed JSON");
    assert_eq!(parsed["jsonrpc"], serde_json::Value::String("2.0".to_string()));
    assert_eq!(parsed["method"], serde_json::Value::String("slotSubscription".to_string()));
    assert_eq!(parsed["params"]["subscription"], serde_json::Value::from(id));
    assert_eq!(parsed["params"]["result"]["context"]["slot"], serde_json::Value::from(42u64));
    assert_eq!(parsed["params"]["result"]["value"]["slot"], serde_json::Value::from(42u64));
}

#[test]
fn confirmed_then_finalized_reaches_the_one_subscription() {
    // A client subscribes to a signature at "confirmed"; the cache knows
    // slot 100; a confirmed observation at slot 101 and a finalized one at
    // slot 105 each produce one envelope on the same subscription id, the
    // second one final.
    let (mut control, event_sender, broadcast_sender) = new_control();
    let context = LiteRpcContext::new(
        BlockInformation::new("hashC".to_string(), 90, 100, CommitmentLevel::Confirmed),
        BlockInformation::new("hashF".to_string(), 88, 98, CommitmentLevel::Finalized),
    );
    assert_eq!(context.read_block_info(CommitmentLevel::Confirmed).slot, 100);
    let id = control.subscriptions.register(&SubscriptionKey::Signature {
        signature: "sigS".to_string(),
        commitment: CommitmentLevel::Confirmed,
    });
    let mut consumer = broadcast_sender.subscribe();
    event_sender
        .send(signature_event("sigS", CommitmentLevel::Confirmed, 101, None))
        .expect("the queue accepts events");
    event_sender
        .send(signature_event("sigS", CommitmentLevel::Finalized, 105, None))
        .expect("the queue accepts events");
    drop(event_sender);
    let closed = control.start_broadcasting(16);
    assert!(closed);
    let first = consumer.try_recv().expect("the confirmed envelope was broadcast");
    assert_eq!(first.subscription_id, id);
    assert!(!first.is_final);
    assert!(first.json.contains("\"slot\":101"));
    let second = consumer.try_recv().expect("the finalized envelope was broadcast");
    assert_eq!(second.subscription_id, id);
    assert!(second.is_final);
    assert!(second.json.contains("\"slot\":105"));
    assert!(consumer.try_recv().is_err());
}

#[test]
fn two_connections_share_one_id_and_both_receive() {
    // Two connections subscribe to the same signature and commitment: the
    // registry hands both the same id, one envelope is broadcast, and each
    // connection's consumer receives it.
    let (mut control, event_sender, broadcast_sender) = new_control();
    let key = SubscriptionKey::Signature {
        signature: "sigS".to_string(),
        commitment: CommitmentLevel::Confirmed,
    };
    let first_id = control.subscriptions.register(&key);
    let second_id = control.subscriptions.register(&SubscriptionKey::Signature {
        signature: "sigS".to_string(),
        commitment: CommitmentLevel::Confirmed,
    });
    assert_eq!(first_id, second_id);
    let mut consumer_one = broadcast_sender.subscribe();
    let mut consumer_two = broadcast_sender.subscribe();
    event_sender
        .send(signature_event("sigS", CommitmentLevel::Confirmed, 55, None))
        .expect("the queue accepts events");
    drop(event_sender);
    assert!(control.start_broadcasting(16));
    let to_one = consumer_one.try_recv().expect("first consumer receives the envelope");
    let to_two = consumer_two.try_recv().expect("second consumer receives the envelope");
    assert_eq!(to_one.subscription_id, first_id);
    assert_eq!(to_two.subscription_id, first_id);
    assert_eq!(to_one.json, to_two.json);
    assert!(consumer_one.try_recv().is_err());
    assert!(consumer_two.try_recv().is_err());
}

#[test]
fn budget_pauses_and_close_ends_the_loop() {
    let (control, event_sender, _broadcast) = new_control();
    event_sender
        .send(NotificationType::Slot(1))
        .expect("the queue accepts events");
    assert!(!control.start_broadcasting(1));
    drop(event_sender);
    assert!(control.start_broadcasting(16));
}
