//! The life cycle of the hosted runtime, and the slot that keeps it single.

use crate::error::HostError;
use vstd::prelude::*;

verus! {

/// The token by which the runtime knows its instance. The host hands it
/// back as it came and reads nothing from it.
#[derive(Clone, Copy, Debug, PartialEq, Eq, Structural)]
pub struct HostHandle(pub usize);

/// The number of an application domain inside the runtime.
#[derive(Clone, Copy, Debug, PartialEq, Eq, Structural)]
pub struct DomainId(pub u32);

/// The token of a managed entry point. It is of use only while the runtime
/// that gave it runs.
#[derive(Clone, Copy, Debug, PartialEq, Eq, Structural)]
pub struct DelegateHandle(pub usize);

/// Where a host stands in its life.
#[derive(Clone, Copy, Debug, PartialEq, Eq, Structural)]
pub enum HostState {
    /// Nothing native is held.
    Uninitialized,
    /// The runtime is up; the pair is what native calls take.
    Running { host_handle: HostHandle, domain_id: DomainId },
    /// The runtime was stopped. Nothing follows.
    ShutDown,
}

/// What can move a host from one state to the next.
#[derive(Clone, Copy, Debug, PartialEq, Eq, Structural)]
pub enum HostEvent {
    /// The runtime came up and gave this pair.
    Initialized { host_handle: HostHandle, domain_id: DomainId },
    /// The host gave the runtime up.
    Stopped,
}

impl HostState {
    /// How far along the state is.
    pub open spec fn rank(self) -> int {
        match self {
            HostState::Uninitialized => 0,
            HostState::Running { .. } => 1,
            HostState::ShutDown => 2,
        }
    }

    /// The state that `event` leads to, where it leads anywhere.
    pub open spec fn after(self, event: HostEvent) -> Option<HostState> {
        match (self, event) {
            (HostState::Uninitialized, HostEvent::Initialized { host_handle, domain_id }) => Some(
                HostState::Running { host_handle, domain_id },
            ),
            (HostState::Running { .. }, HostEvent::Stopped) => Some(HostState::ShutDown),
            _ => None,
        }
    }

    /// The pair that native calls take, which only a running host has.
    pub open spec fn spec_credentials(self) -> Option<(HostHandle, DomainId)> {
        match self {
            HostState::Running { host_handle, domain_id } => Some((host_handle, domain_id)),
            _ => None,
        }
    }

    /// The state that `event` leads to. An event that does not belong to
    /// the state leads nowhere.
    pub fn on(self, event: HostEvent) -> (next: Option<HostState>)
        ensures
            next == self.after(event),
            next matches Some(state) ==> self.rank() < state.rank(),
    {
        match self {
            HostState::Uninitialized => match event {
                HostEvent::Initialized { host_handle, domain_id } => Some(
                    HostState::Running { host_handle, domain_id },
                ),
                HostEvent::Stopped => None,
            },
            HostState::Running { .. } => match event {
                HostEvent::Stopped => Some(HostState::ShutDown),
                HostEvent::Initialized { .. } => None,
            },
            HostState::ShutDown => None,
        }
    }

    pub fn is_running(&self) -> (running: bool)
        ensures
            running == (*self is Running),
    {
        match self {
            HostState::Running { .. } => true,
            _ => false,
        }
    }

    #[verifier::when_used_as_spec(spec_credentials)]
    pub fn credentials(self) -> (pair: Option<(HostHandle, DomainId)>)
        ensures
            pair == self.spec_credentials(),
            pair is Some <==> self is Running,
    {
        match self {
            HostState::Running { host_handle, domain_id } => Some((host_handle, domain_id)),
            _ => None,
        }
    }
}

/// The state after `events`, taken in order from `state`; `None` once an
/// event does not belong to the state it meets.
pub open spec fn run(state: HostState, events: Seq<HostEvent>) -> Option<HostState>
    decreases events.len(),
{
    if events.len() == 0 {
        Some(state)
    } else {
        match state.after(events[0]) {
            Some(next) => run(next, events.drop_first()),
            None => None,
        }
    }
}

/// A host only moves forward: each event that it takes brings it to a
/// state further along, so no state comes twice.
pub proof fn lemma_forward_only(state: HostState, events: Seq<HostEvent>)
    requires
        run(state, events) is Some,
    ensures
        run(state, events)->0.rank() == state.rank() + events.len(),
        events.len() <= 2,
    decreases events.len(),
{
    if events.len() > 0 {
        let next = state.after(events[0])->0;
        lemma_forward_only(next, events.drop_first());
    }
}

/// A stopped host takes no event; a running host can only be stopped; a
/// host that has not started can only be initialized.
pub proof fn lemma_terminal(event: HostEvent, running: HostState)
    requires
        running is Running,
    ensures
        (HostState::ShutDown.after(event) is None),
        (running.after(event) is Some) <==> (event is Stopped),
        (HostState::Uninitialized.after(event) is Some) <==> (event is Initialized),
{
}

/// The place of the one runtime that a process can hold. A program keeps a
/// single slot for its whole life and hands it to every `init` and every
/// shutdown.
#[derive(Debug)]
pub struct RuntimeSlot {
    occupied: bool,
}

/// The proof of having taken a slot. It cannot be copied, and only giving
/// it back frees the slot.
#[derive(Debug)]
pub struct SlotToken {
    _held: (),
}

impl RuntimeSlot {
    /// True while a host holds the slot.
    pub closed spec fn is_occupied(&self) -> bool {
        self.occupied
    }

    /// A free slot.
    pub fn new() -> (slot: RuntimeSlot)
        ensures
            !slot.is_occupied(),
    {
        RuntimeSlot { occupied: false }
    }

    #[verifier::when_used_as_spec(is_occupied)]
    pub fn occupied(&self) -> (occupied: bool)
        ensures
            occupied == self.is_occupied(),
    {
        self.occupied
    }

    /// Takes the slot. A slot that is held stays as it is.
    pub fn acquire(&mut self) -> (r: Result<SlotToken, HostError>)
        ensures
            old(self).is_occupied() ==> r is Err && r->Err_0 == HostError::AlreadyInitialized
                && *final(self) == *old(self),
            !old(self).is_occupied() ==> r is Ok && final(self).is_occupied(),
    {
        if self.occupied {
            Err(HostError::AlreadyInitialized)
        } else {
            self.occupied = true;
            Ok(SlotToken { _held: () })
        }
    }

    /// Gives the slot back.
    pub fn release(&mut self, token: SlotToken)
        ensures
            !final(self).is_occupied(),
    {
        let _ = token;
        self.occupied = false;
    }
}

} // verus!
