use lite_rpc::commitment::CommitmentLevel;
use lite_rpc::registry::{SubscriptionKey, SubscriptionRegistry};

fn sig_key(signature: &str, commitment: CommitmentLevel) -> SubscriptionKey {
    SubscriptionKey::Signature { signature: signature.to_string(), commitment }
}

#[test]
fn register_same_key_returns_same_id() {
    let mut registry = SubscriptionRegistry::new();
    let key = sig_key("sigA", CommitmentLevel::Confirmed);
    let first = registry.register(&key);
    let second = registry.register(&sig_key("sigA", CommitmentLevel::Confirmed));
    assert_eq!(first, second);
    assert_eq!(registry.lookup(&key), Some(first));
}

#[test]
fn register_distinct_keys_mints_distinct_ids() {
    let mut registry = SubscriptionRegistry::new();
    let a = registry.register(&sig_key("sigA", CommitmentLevel::Confirmed));
    let b = registry.register(&sig_key("sigB", CommitmentLevel::Confirmed));
    let c = registry.register(&sig_key("sigA", CommitmentLevel::Finalized));
    let d = registry.register(&SubscriptionKey::Slot);
    assert_ne!(a, b);
    assert_ne!(a, c);
    assert_ne!(a, d);
    assert_ne!(b, c);
    assert_ne!(b, d);
    assert_ne!(c, d);
}

#[test]
fn lookup_misses_until_registered() {
    let mut registry = SubscriptionRegistry::new();
    assert_eq!(registry.lookup(&sig_key("sigA", CommitmentLevel::Confirmed)), None);
    assert_eq!(registry.lookup(&SubscriptionKey::Slot), None);
    let id = registry.register(&SubscriptionKey::Slot);
    assert_eq!(registry.lookup(&SubscriptionKey::Slot), Some(id));
}

#[test]
fn unregister_removes_the_key() {
    let mut registry = SubscriptionRegistry::new();
    let key = sig_key("sigA", CommitmentLevel::Confirmed);
    let id = registry.register(&key);
    registry.unregister(id);
    assert_eq!(registry.lookup(&key), None);
    let again = registry.register(&key);
    assert_eq!(registry.lookup(&key), Some(again));
}

#[test]
fn unregister_unknown_id_is_a_no_op() {
    let mut registry = SubscriptionRegistry::new();
    let key = sig_key("sigA", CommitmentLevel::Finalized);
    let id = registry.register(&key);
    registry.unregister(id + 1000);
    assert_eq!(registry.lookup(&key), Some(id));
}

#[test]
fn unregister_only_drops_the_matching_binding() {
    let mut registry = SubscriptionRegistry::new();
    let key_a = sig_key("sigA", CommitmentLevel::Confirmed);
    let key_b = sig_key("sigB", CommitmentLevel::Finalized);
    let a = registry.register(&key_a);
    let b = registry.register(&key_b);
    registry.unregister(a);
    assert_eq!(registry.lookup(&key_a), None);
    assert_eq!(registry.lookup(&key_b), Some(b));
}
