use vstd::prelude::*;

verus! {

/// `dashmap::DashMap` is the sharded concurrent hash map that holds the
/// subscription and signature-status tables. Its contents are reasoned about
/// through named views declared beside the wrappers that use them.
#[verifier::external_type_specification]
#[verifier::external_body]
#[verifier::reject_recursive_types(K)]
#[verifier::reject_recursive_types(V)]
#[verifier::reject_recursive_types(S)]
pub struct ExDashMap<K, V, S>(dashmap::DashMap<K, V, S>);

/// `std::time::Instant` is an opaque monotonic timestamp; every outbound
/// envelope carries the instant it was built.
#[verifier::external_type_specification]
#[verifier::external_body]
pub struct ExInstant(std::time::Instant);

/// Relies on `std::time::Instant::now`: an opaque reading of the monotonic
/// clock; nothing is promised of its value.
#[verifier::external_body]
pub fn instant_now() -> std::time::Instant {
    std::time::Instant::now()
}

/// Relies on `std::time::Instant` being `Copy`: cloning an instant (as the
/// envelope's derived `Clone` does) returns the same instant.
pub assume_specification[ <std::time::Instant as Clone>::clone ](
    v: &std::time::Instant,
) -> (r: std::time::Instant)
    ensures
        r == *v,
;

/// `tokio::sync::broadcast::Sender` is the producer side of the fanout
/// stream: one dispatcher publishes, every attached consumer receives.
#[verifier::external_type_specification]
#[verifier::external_body]
#[verifier::reject_recursive_types(T)]
pub struct ExBroadcastSender<T>(tokio::sync::broadcast::Sender<T>);

/// `crossbeam_channel::Receiver` is the consumer side of the inbound event
/// queue the dispatcher drains.
#[verifier::external_type_specification]
#[verifier::external_body]
#[verifier::reject_recursive_types(T)]
pub struct ExCrossbeamReceiver<T>(crossbeam_channel::Receiver<T>);

} // verus!
