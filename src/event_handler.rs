//! The decisions of the event dispatcher: which event source is registered
//! with the reactor, and what a fired event leads to. The reactor glue
//! performs them.

use vstd::prelude::*;

verus! {

/// Tag of the activation event.
pub const PROCESS_ACTIVATE: u32 = 0;

/// Tag of the request queue's notification event.
pub const PROCESS_RDMA_QUEUE: u32 = 1;

/// The event sources registered with the reactor.
#[derive(Debug, Clone, Copy, PartialEq, Eq, Structural)]
pub enum Registration {
    /// Only the activation event: the device is not active yet.
    ActivateEvent,
    /// The queue notification events: the device is active.
    QueueEvents,
}

/// What the dispatcher does with a fired event.
#[derive(Debug, Clone, Copy, PartialEq, Eq, Structural)]
pub enum EventAction {
    /// Consume the activation event, register the queue events, and
    /// unregister the activation event.
    ProcessActivate,
    /// Consume the queue notification and drain the queue.
    ProcessQueue,
    /// Drop an event that is not readable.
    UnknownEventSet,
    /// Drop an event that came before activation.
    Spurious,
    /// Drop an event whose tag is neither of the device's.
    UnknownSource,
}

/// The registration a dispatcher starts with.
pub open spec fn initial_registration(activated: bool) -> Registration {
    if activated {
        Registration::QueueEvents
    } else {
        Registration::ActivateEvent
    }
}

/// The action for an event with tag `source`, readable or not, on a device
/// activated or not.
pub open spec fn action_for(readable: bool, source: u32, activated: bool) -> EventAction {
    if !readable {
        EventAction::UnknownEventSet
    } else if !activated {
        EventAction::Spurious
    } else if source == PROCESS_ACTIVATE {
        EventAction::ProcessActivate
    } else if source == PROCESS_RDMA_QUEUE {
        EventAction::ProcessQueue
    } else {
        EventAction::UnknownSource
    }
}

/// The registration after `action` was performed from `reg`: processing
/// the activation event hands over to the queue events, for good.
pub open spec fn registration_after(reg: Registration, action: EventAction) -> Registration {
    if action is ProcessActivate {
        Registration::QueueEvents
    } else {
        reg
    }
}

/// The registration to make when the dispatcher is set up.
pub fn init_registration(activated: bool) -> (r: Registration)
    ensures
        r == initial_registration(activated),
{
    if activated {
        Registration::QueueEvents
    } else {
        Registration::ActivateEvent
    }
}

/// Routes a fired event: a readable event with a known tag reaches the
/// device only once it is activated; everything else is dropped.
pub fn route_event(readable: bool, source: u32, activated: bool) -> (r: EventAction)
    ensures
        r == action_for(readable, source, activated),
{
    if !readable {
        EventAction::UnknownEventSet
    } else if !activated {
        EventAction::Spurious
    } else if source == PROCESS_ACTIVATE {
        EventAction::ProcessActivate
    } else if source == PROCESS_RDMA_QUEUE {
        EventAction::ProcessQueue
    } else {
        EventAction::UnknownSource
    }
}

/// The registration that follows `action` from `reg`.
pub fn next_registration(reg: Registration, action: EventAction) -> (r: Registration)
    ensures
        r == registration_after(reg, action),
{
    match action {
        EventAction::ProcessActivate => Registration::QueueEvents,
        _ => reg,
    }
}

/// No event reaches the queue, nor the activation handler, while the
/// device is inactive.
pub proof fn lemma_no_work_before_activation(readable: bool, source: u32)
    ensures
        !(action_for(readable, source, false) is ProcessQueue),
        !(action_for(readable, source, false) is ProcessActivate),
{
}

/// Once the queue events are registered, no sequence of actions brings the
/// activation event back.
pub proof fn lemma_handover_is_one_shot(actions: Seq<EventAction>)
    ensures
        actions.fold_left(Registration::QueueEvents, |reg: Registration, a: EventAction| registration_after(reg, a))
            == Registration::QueueEvents,
    decreases actions.len(),
{
    if actions.len() > 0 {
        lemma_handover_is_one_shot(actions.drop_last());
    }
}

} // verus!
