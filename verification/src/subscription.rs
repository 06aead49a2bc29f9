//! Subscriptions to runtime events: what they are, and the ways to declare
//! one.
use crate::event::{ApplicationEvent, Event, RuntimeEvent, Status, WindowId};
use crate::identity::{app_events, events_with, raw_events, unclaimed_events, Identity, Kind};
use std::marker::PhantomData;
use vstd::prelude::*;

verus! {

/// A declared stream of messages: which stream it is, and how each runtime
/// event turns into a message or into nothing.
#[verifier::reject_recursive_types(Message)]
pub struct Subscription<Message, D, P: Fn(RuntimeEvent) -> Option<Message>> {
    identity: Identity<D>,
    project: P,
    message: PhantomData<Message>,
}

impl<Message, D, P: Fn(RuntimeEvent) -> Option<Message>> Subscription<Message, D, P> {
    /// The projection can be applied to every runtime event.
    #[verifier::type_invariant]
    spec fn total(self) -> bool {
        forall|event: RuntimeEvent| #[trigger] call_requires(self.project, (event,))
    }

    /// The identity this subscription was declared with.
    pub closed spec fn id(&self) -> Identity<D> {
        self.identity
    }

    /// `outcome` is a possible result of the projection on `event`.
    pub closed spec fn yields(&self, event: RuntimeEvent, outcome: Option<Message>) -> bool {
        call_ensures(self.project, (event,), outcome)
    }

    /// Hands out the identity.
    pub fn identity(&self) -> (identity: &Identity<D>)
        ensures
            *identity == self.id(),
    {
        &self.identity
    }

    /// `outcomes` is a possible run of the projection over `events`: one
    /// outcome for each event, in the order of dispatch.
    pub open spec fn answers(
        &self,
        events: Seq<RuntimeEvent>,
        outcomes: Seq<Option<Message>>,
    ) -> bool {
        &&& outcomes.len() == events.len()
        &&& forall|i: int|
            #![trigger outcomes[i]]
            0 <= i < events.len() ==> self.yields(events[i], outcomes[i])
    }

    /// Applies the projection to one dispatched event.
    pub fn project(&self, event: RuntimeEvent) -> (outcome: Option<Message>)
        ensures
            self.yields(event, outcome),
    {
        proof {
            use_type_invariant(self);
        }
        (self.project)(event)
    }

    /// Feeds the events of one tick through the projection, each of them
    /// once and in the order given, and collects the messages to queue.
    ///
    /// An event that projects to `None` leaves no trace. One that projects
    /// to `Some` message queues that message once, behind the messages of
    /// the events before it.
    pub fn dispatch(&self, events: &[RuntimeEvent]) -> (messages: Vec<Message>)
        ensures
            exists|outcomes: Seq<Option<Message>>| #[trigger]
                self.answers(events@, outcomes) && messages@ == queued(outcomes),
            messages@.len() <= events@.len(),
    {
        let mut messages: Vec<Message> = Vec::new();
        let ghost mut outcomes: Seq<Option<Message>> = Seq::empty();
        let mut next: usize = 0;
        while next < events.len()
            invariant
                next <= events.len(),
                self.answers(events@.take(next as int), outcomes),
                messages@ == queued(outcomes),
            decreases events.len() - next,
        {
            let outcome = self.project(events[next]);
            proof {
                assert(outcomes.push(outcome).drop_last() == outcomes);
                outcomes = outcomes.push(outcome);
            }
            if let Some(message) = outcome {
                messages.push(message);
            }
            next += 1;
        }
        proof {
            assert(events@.take(next as int) == events@);
            queued_is_no_longer(outcomes);
        }
        messages
    }
}

/// The messages that a run of outcomes queues, in order: each `Some` once,
/// each `None` not at all.
pub open spec fn queued<Message>(outcomes: Seq<Option<Message>>) -> Seq<Message>
    decreases outcomes.len(),
{
    if outcomes.len() == 0 {
        Seq::empty()
    } else {
        let before = queued(outcomes.drop_last());
        match outcomes.last() {
            Some(message) => before.push(message),
            None => before,
        }
    }
}

/// No event queues more than one message.
proof fn queued_is_no_longer<Message>(outcomes: Seq<Option<Message>>)
    ensures
        queued(outcomes).len() <= outcomes.len(),
    decreases outcomes.len(),
{
    if outcomes.len() > 0 {
        queued_is_no_longer(outcomes.drop_last());
    }
}

/// Declares a subscription from its identity and its projection.
fn filter_map<Message, D, P>(identity: Identity<D>, project: P) -> (sub: Subscription<
    Message,
    D,
    P,
>) where P: Fn(RuntimeEvent) -> Option<Message>
    requires
        forall|event: RuntimeEvent| #[trigger] call_requires(project, (event,)),
    ensures
        sub.id() == identity,
        forall|event: RuntimeEvent, outcome: Option<Message>|
            #[trigger] sub.yields(event, outcome) <==> call_ensures(project, (event,), outcome),
{
    Subscription { identity, project, message: PhantomData }
}

/// What the projection of [`listen_with`] may produce: nothing for a redraw
/// request or an application event, and for any other interaction whatever
/// `f` may return on it.
spec fn filtered<Message, F: Fn(Event, Status, WindowId) -> Option<Message>>(
    f: F,
    event: RuntimeEvent,
    outcome: Option<Message>,
) -> bool {
    match event {
        RuntimeEvent::Interaction { window, event, status } => if event.is_redraw() {
            outcome is None
        } else {
            call_ensures(f, (event, status, window), outcome)
        },
        RuntimeEvent::Application { .. } => outcome is None,
    }
}

/// What the projection of [`listen_raw`] may produce: for an interaction
/// whatever `f` may return on it, and nothing for an application event.
spec fn unfiltered<Message, F: Fn(Event, Status, WindowId) -> Option<Message>>(
    f: F,
    event: RuntimeEvent,
    outcome: Option<Message>,
) -> bool {
    match event {
        RuntimeEvent::Interaction { window, event, status } => call_ensures(
            f,
            (event, status, window),
            outcome,
        ),
        RuntimeEvent::Application { .. } => outcome is None,
    }
}

/// What the projection of [`listen_application`] produces.
spec fn reopened(event: RuntimeEvent) -> Option<ApplicationEvent> {
    match event {
        RuntimeEvent::Interaction { .. } => None,
        RuntimeEvent::Application { has_visible_windows } => Some(
            ApplicationEvent::ReOpen { has_visible_windows },
        ),
    }
}

/// What the filter of [`listen`] produces.
spec fn unclaimed(event: Event, status: Status) -> Option<Event> {
    match status {
        Status::Ignored => Some(event),
        Status::Captured => None,
    }
}

/// Returns a subscription to the interactions that no widget captured.
///
/// Redraw requests are left out, as in every subscription that is built on
/// [`listen_with`]: an application that answered each of them with a
/// message would never come to rest.
pub fn listen() -> (sub: Subscription<Event, (), impl Fn(RuntimeEvent) -> Option<Event>>)
    ensures
        sub.id() == unclaimed_events(),
        forall|window: WindowId, event: Event, outcome: Option<Event>|
            !event.is_redraw() && #[trigger] sub.yields(
                RuntimeEvent::Interaction { window, event, status: Status::Ignored },
                outcome,
            ) ==> outcome == Some(event),
        forall|window: WindowId, event: Event, outcome: Option<Event>| #[trigger]
            sub.yields(
                RuntimeEvent::Interaction { window, event, status: Status::Captured },
                outcome,
            ) ==> outcome is None,
        forall|window: WindowId, event: Event, status: Status, outcome: Option<Event>|
            event.is_redraw() && #[trigger] sub.yields(
                RuntimeEvent::Interaction { window, event, status },
                outcome,
            ) ==> outcome is None,
        forall|has_visible_windows: bool, outcome: Option<Event>| #[trigger]
            sub.yields(RuntimeEvent::Application { has_visible_windows }, outcome)
                ==> outcome is None,
{
    let unclaimed_only = |event: Event, status: Status, _window: WindowId| -> (outcome: Option<
        Event,
    >)
        ensures
            outcome == unclaimed(event, status),
        {
            match status {
                Status::Ignored => Some(event),
                Status::Captured => None,
            }
        };
    let inner = listen_with(unclaimed_only);
    // The filter above captures nothing and has no name that a key could
    // hold: the unit stands for it in the identity.
    proof {
        use_type_invariant(&inner);
        assert forall|event: RuntimeEvent, outcome: Option<Event>| #[trigger]
            call_ensures(inner.project, (event,), outcome) implies inner.yields(event, outcome) by {}
    }
    filter_map(Identity { kind: Kind::EventsWith, data: () }, inner.project)
}

/// Creates a subscription that listens and filters all the runtime events
/// with the provided function, producing messages accordingly.
///
/// The function is called for every interaction that the runtime handles,
/// captured or not, except for redraw requests, which it never sees. If it
/// returns `None` the event is discarded; if it returns `Some` message, the
/// message is produced. Application events produce nothing.
pub fn listen_with<Message, F>(f: F) -> (sub: Subscription<
    Message,
    F,
    impl Fn(RuntimeEvent) -> Option<Message>,
>) where Message: 'static + Send, F: Fn(Event, Status, WindowId) -> Option<Message> + Copy
    requires
        forall|event: Event, status: Status, window: WindowId|
            !event.is_redraw() ==> #[trigger] call_requires(f, (event, status, window)),
    ensures
        sub.id() == events_with(f),
        forall|window: WindowId, event: Event, status: Status, outcome: Option<Message>|
            event.is_redraw() && #[trigger] sub.yields(
                RuntimeEvent::Interaction { window, event, status },
                outcome,
            ) ==> outcome is None,
        forall|window: WindowId, event: Event, status: Status, outcome: Option<Message>|
            !event.is_redraw() && #[trigger] sub.yields(
                RuntimeEvent::Interaction { window, event, status },
                outcome,
            ) ==> call_ensures(f, (event, status, window), outcome),
        forall|has_visible_windows: bool, outcome: Option<Message>| #[trigger]
            sub.yields(RuntimeEvent::Application { has_visible_windows }, outcome)
                ==> outcome is None,
{
    let project = move |event: RuntimeEvent| -> (outcome: Option<Message>)
        ensures
            filtered(f, event, outcome),
        {
            match event {
                RuntimeEvent::Interaction { window, event, status } => if event.is_redraw() {
                    None
                } else {
                    f(event, status, window)
                },
                RuntimeEvent::Application { .. } => None,
            }
        };
    filter_map(Identity { kind: Kind::EventsWith, data: f }, project)
}

/// Creates a subscription that produces a message for every runtime event,
/// including the redraw request events.
///
/// **Warning:** an application that answers a redraw request with a message
/// that causes another redraw produces messages without end. Keeping `f`
/// from doing so is the caller's business.
pub fn listen_raw<Message, F>(f: F) -> (sub: Subscription<
    Message,
    F,
    impl Fn(RuntimeEvent) -> Option<Message>,
>) where Message: 'static + Send, F: Fn(Event, Status, WindowId) -> Option<Message> + Copy
    requires
        forall|event: Event, status: Status, window: WindowId| #[trigger]
            call_requires(f, (event, status, window)),
    ensures
        sub.id() == raw_events(f),
        forall|window: WindowId, event: Event, status: Status, outcome: Option<Message>| #[trigger]
            sub.yields(RuntimeEvent::Interaction { window, event, status }, outcome)
                ==> call_ensures(f, (event, status, window), outcome),
        forall|has_visible_windows: bool, outcome: Option<Message>| #[trigger]
            sub.yields(RuntimeEvent::Application { has_visible_windows }, outcome)
                ==> outcome is None,
{
    let project = move |event: RuntimeEvent| -> (outcome: Option<Message>)
        ensures
            unfiltered(f, event, outcome),
        {
            match event {
                RuntimeEvent::Interaction { window, event, status } => f(event, status, window),
                RuntimeEvent::Application { has_visible_windows: _ } => None,
            }
        };
    filter_map(Identity { kind: Kind::RawEvents, data: f }, project)
}

/// Creates a subscription that produces a message for every event of the
/// application, and none for an interaction.
pub fn listen_application() -> (sub: Subscription<
    ApplicationEvent,
    (),
    impl Fn(RuntimeEvent) -> Option<ApplicationEvent>,
>)
    ensures
        sub.id() == app_events(),
        forall|window: WindowId, event: Event, status: Status, outcome: Option<ApplicationEvent>| #[trigger]
            sub.yields(RuntimeEvent::Interaction { window, event, status }, outcome)
                ==> outcome is None,
        forall|has_visible_windows: bool, outcome: Option<ApplicationEvent>| #[trigger]
            sub.yields(RuntimeEvent::Application { has_visible_windows }, outcome)
                ==> outcome == Some(ApplicationEvent::ReOpen { has_visible_windows }),
{
    let project = move |event: RuntimeEvent| -> (outcome: Option<ApplicationEvent>)
        ensures
            outcome == reopened(event),
        {
            match event {
                RuntimeEvent::Interaction { .. } => None,
                RuntimeEvent::Application { has_visible_windows } => Some(
                    ApplicationEvent::ReOpen { has_visible_windows },
                ),
            }
        };
    filter_map(Identity { kind: Kind::AppEvents, data: () }, project)
}

} // verus!
