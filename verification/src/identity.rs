//! The identity of a subscription.
//!
//! A subscription is declared anew on every cycle. What tells the runtime
//! that a declaration names a stream it is already running is the identity:
//! a plain key, compared part by part.
use vstd::prelude::*;

verus! {

/// The kind of a subscription: one marker per way of declaring one.
#[derive(Clone, Copy, Debug, PartialEq, Eq, Hash)]
pub enum Kind {
    /// Interactions, put through a filter, redraw requests left out.
    EventsWith,
    /// Interactions, put through a filter, redraw requests included.
    RawEvents,
    /// Application events.
    AppEvents,
}

/// The key by which a runtime recognises a subscription from one cycle to
/// the next: the kind, and the data that the declaration captured.
///
/// Two identities are the same exactly when both parts are.
#[derive(Clone, Copy, Debug, PartialEq, Eq, Hash)]
pub struct Identity<D> {
    pub kind: Kind,
    pub data: D,
}

/// The identity of a subscription declared by [`listen`](crate::subscription::listen).
pub open spec fn unclaimed_events() -> Identity<()> {
    Identity { kind: Kind::EventsWith, data: () }
}

/// The identity of a subscription declared by [`listen_with`](crate::subscription::listen_with) on `f`.
pub open spec fn events_with<F>(f: F) -> Identity<F> {
    Identity { kind: Kind::EventsWith, data: f }
}

/// The identity of a subscription declared by [`listen_raw`](crate::subscription::listen_raw) on `f`.
pub open spec fn raw_events<F>(f: F) -> Identity<F> {
    Identity { kind: Kind::RawEvents, data: f }
}

/// The identity of a subscription declared by [`listen_application`](crate::subscription::listen_application).
pub open spec fn app_events() -> Identity<()> {
    Identity { kind: Kind::AppEvents, data: () }
}

/// Two subscriptions declared by [`listen_with`](crate::subscription::listen_with) are the same stream
/// exactly when they were declared with the same filter: the same filter
/// gives the same identity on every cycle, another filter another identity.
pub proof fn filtered_identity_follows_filter<F>(first: F, second: F)
    ensures
        events_with(first) == events_with(second) <==> first == second,
{
}

/// Two subscriptions declared by [`listen_raw`](crate::subscription::listen_raw) are the same stream exactly
/// when they were declared with the same filter.
pub proof fn raw_identity_follows_filter<F>(first: F, second: F)
    ensures
        raw_events(first) == raw_events(second) <==> first == second,
{
}

/// Subscriptions of different kinds are never taken for one another,
/// whatever they captured.
pub proof fn kinds_keep_apart<F>(filtered: F, raw: F)
    ensures
        events_with(filtered) != raw_events(raw),
        unclaimed_events() != app_events(),
{
}

} // verus!
