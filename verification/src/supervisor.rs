//! The supervisor activity: starts the two workers, looks at the store once,
//! submits one payload and then keeps the process alive.

use vstd::prelude::*;

verus! {

/// How long the supervisor lets data come in before it looks at the store,
/// in seconds.
pub const SETTLE_SECS: u64 = 2;

/// The length of one sleep of a parked supervisor, in seconds.
pub const PARK_SECS: u64 = 10;

/// The bytes of the one payload that the supervisor submits.
pub open spec fn greeting_bytes() -> Seq<u8> {
    seq![0x41u8, 0x42u8, 0x43u8]
}

/// The one payload that the supervisor submits: the three bytes `ABC`.
pub fn greeting() -> (payload: Vec<u8>)
    ensures
        payload@ == greeting_bytes(),
{
    let mut payload: Vec<u8> = Vec::new();
    payload.push(0x41);
    payload.push(0x42);
    payload.push(0x43);
    assert(payload@ =~= greeting_bytes());
    payload
}

/// What the driver of the supervisor has to do next.
#[derive(Clone, Debug, PartialEq, Eq)]
pub enum SupervisorAction {
    /// Start the reader and the writer, each as an activity of its own.
    StartWorkers,
    /// Sleep for this many seconds.
    Sleep(u64),
    /// Take a copy of the store's contents under its lock and show it on the
    /// console.
    Inspect,
    /// Put this payload on the outgoing queue.
    Submit(Vec<u8>),
}

/// A [`SupervisorAction`] with its bytes as a sequence.
pub enum SupervisorActionView {
    StartWorkers,
    Sleep(u64),
    Inspect,
    Submit(Seq<u8>),
}

impl View for SupervisorAction {
    type V = SupervisorActionView;

    open spec fn view(&self) -> SupervisorActionView {
        match self {
            SupervisorAction::StartWorkers => SupervisorActionView::StartWorkers,
            SupervisorAction::Sleep(secs) => SupervisorActionView::Sleep(*secs),
            SupervisorAction::Inspect => SupervisorActionView::Inspect,
            SupervisorAction::Submit(bytes) => SupervisorActionView::Submit(bytes@),
        }
    }
}

/// The supervisor activity, by the step that is due.
///
/// The steps follow each other in a fixed order, without a branch, and the
/// last one never ends.
#[derive(Clone, Copy, Debug, PartialEq, Eq, Structural)]
pub enum Supervisor {
    /// The workers have not been started.
    Starting,
    /// The workers run; data is given time to come in.
    Settling,
    /// The store is due to be looked at.
    Inspecting,
    /// The payload is due to be submitted.
    Submitting,
    /// All is done. The supervisor sleeps, again and again, so that the
    /// process stays alive for the workers.
    Parked,
}

impl Supervisor {
    /// A supervisor that has yet to start the workers.
    pub fn new() -> (supervisor: Self)
        ensures
            supervisor == Supervisor::Starting,
    {
        Supervisor::Starting
    }

    /// The step that follows this one.
    pub open spec fn successor(self) -> Supervisor {
        match self {
            Supervisor::Starting => Supervisor::Settling,
            Supervisor::Settling => Supervisor::Inspecting,
            Supervisor::Inspecting => Supervisor::Submitting,
            Supervisor::Submitting => Supervisor::Parked,
            Supervisor::Parked => Supervisor::Parked,
        }
    }

    /// What the driver has to do in this step.
    pub open spec fn action(self) -> SupervisorActionView {
        match self {
            Supervisor::Starting => SupervisorActionView::StartWorkers,
            Supervisor::Settling => SupervisorActionView::Sleep(SETTLE_SECS),
            Supervisor::Inspecting => SupervisorActionView::Inspect,
            Supervisor::Submitting => SupervisorActionView::Submit(greeting_bytes()),
            Supervisor::Parked => SupervisorActionView::Sleep(PARK_SECS),
        }
    }

    /// Hands out the action of the step that is due and moves on to the
    /// next step.
    pub fn next_action(&mut self) -> (action: SupervisorAction)
        ensures
            action@ == old(self).action(),
            *final(self) == old(self).successor(),
    {
        match *self {
            Supervisor::Starting => {
                *self = Supervisor::Settling;
                SupervisorAction::StartWorkers
            },
            Supervisor::Settling => {
                *self = Supervisor::Inspecting;
                SupervisorAction::Sleep(SETTLE_SECS)
            },
            Supervisor::Inspecting => {
                *self = Supervisor::Submitting;
                SupervisorAction::Inspect
            },
            Supervisor::Submitting => {
                *self = Supervisor::Parked;
                SupervisorAction::Submit(greeting())
            },
            Supervisor::Parked => SupervisorAction::Sleep(PARK_SECS),
        }
    }
}

} // verus!
