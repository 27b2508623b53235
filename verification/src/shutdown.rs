//! Ending the conversation with the agent: the agent is asked to shut down and
//! is given a few seconds to say that it has.

use vstd::prelude::*;
use crate::text::joined;

verus! {

/// How long the agent is given, in nanoseconds.
pub const SHUTDOWN_TIMEOUT_NANOS: u64 = 5_000_000_000;

/// Where a shutdown stands, that is, what it waits for.
#[derive(Debug, PartialEq)]
pub enum ShutdownPhase {
    /// The result of asking the agent.
    Asking,
    /// The time that has passed since the agent was asked.
    Timing,
    /// The agent's next event, for at most `remaining_nanos`.
    Waiting { remaining_nanos: u64 },
    /// Nothing: the conversation is over.
    Done,
    /// Nothing: the agent did not shut down in order.
    Failed { message: String },
}

/// What happened.
#[derive(Debug, PartialEq)]
pub enum ShutdownEvent {
    /// The agent was asked to shut down, or could not be.
    Asked { sent: bool },
    /// This much time has passed since the agent was asked.
    Elapsed { nanos: u128 },
    /// The agent has shut down.
    ShutdownComplete,
    /// The agent reported something else.
    OtherEvent,
    /// The agent's events cannot be read, for this reason.
    EventError { error: String },
    /// No event came in time.
    TimedOut,
}

/// Model of [`ShutdownPhase`].
pub enum ShutdownPhaseView {
    Asking,
    Timing,
    Waiting { remaining_nanos: u64 },
    Done,
    Failed { message: Seq<char> },
}

/// Model of [`ShutdownEvent`].
pub enum ShutdownEventView {
    Asked { sent: bool },
    Elapsed { nanos: u128 },
    ShutdownComplete,
    OtherEvent,
    EventError { error: Seq<char> },
    TimedOut,
}

impl View for ShutdownPhase {
    type V = ShutdownPhaseView;

    open spec fn view(&self) -> ShutdownPhaseView {
        match self {
            ShutdownPhase::Asking => ShutdownPhaseView::Asking,
            ShutdownPhase::Timing => ShutdownPhaseView::Timing,
            ShutdownPhase::Waiting { remaining_nanos } => {
                ShutdownPhaseView::Waiting { remaining_nanos: *remaining_nanos }
            },
            ShutdownPhase::Done => ShutdownPhaseView::Done,
            ShutdownPhase::Failed { message } => ShutdownPhaseView::Failed { message: message@ },
        }
    }
}

impl View for ShutdownEvent {
    type V = ShutdownEventView;

    open spec fn view(&self) -> ShutdownEventView {
        match self {
            ShutdownEvent::Asked { sent } => ShutdownEventView::Asked { sent: *sent },
            ShutdownEvent::Elapsed { nanos } => ShutdownEventView::Elapsed { nanos: *nanos },
            ShutdownEvent::ShutdownComplete => ShutdownEventView::ShutdownComplete,
            ShutdownEvent::OtherEvent => ShutdownEventView::OtherEvent,
            ShutdownEvent::EventError { error } => {
                ShutdownEventView::EventError { error: error@ }
            },
            ShutdownEvent::TimedOut => ShutdownEventView::TimedOut,
        }
    }
}

impl ShutdownPhaseView {
    /// Whether an event can happen in this phase: it is what the phase waits for.
    pub open spec fn awaits(self, event: ShutdownEventView) -> bool {
        match self {
            ShutdownPhaseView::Asking => event is Asked,
            ShutdownPhaseView::Timing => event is Elapsed,
            ShutdownPhaseView::Waiting { .. } => {
                event is ShutdownComplete || event is OtherEvent || event is EventError
                    || event is TimedOut
            },
            ShutdownPhaseView::Done | ShutdownPhaseView::Failed { .. } => false,
        }
    }
}

/// The phase that an awaited event leads to. An agent that cannot be asked has
/// nothing to shut down.
pub open spec fn after_shutdown_event(event: ShutdownEventView) -> ShutdownPhaseView {
    match event {
        ShutdownEventView::Asked { sent } => {
            if sent {
                ShutdownPhaseView::Timing
            } else {
                ShutdownPhaseView::Done
            }
        },
        ShutdownEventView::Elapsed { nanos } => {
            if nanos >= SHUTDOWN_TIMEOUT_NANOS {
                ShutdownPhaseView::Failed { message: "timeout waiting for shutdown"@ }
            } else {
                ShutdownPhaseView::Waiting {
                    remaining_nanos: (SHUTDOWN_TIMEOUT_NANOS - nanos) as u64,
                }
            }
        },
        ShutdownEventView::ShutdownComplete => ShutdownPhaseView::Done,
        ShutdownEventView::OtherEvent => ShutdownPhaseView::Timing,
        ShutdownEventView::EventError { error } => {
            ShutdownPhaseView::Failed { message: "shutdown event error: "@ + error }
        },
        ShutdownEventView::TimedOut => {
            ShutdownPhaseView::Failed { message: "timeout waiting for shutdown"@ }
        },
    }
}

/// A shutdown under way.
#[derive(Debug, PartialEq)]
pub struct Shutdown {
    pub phase: ShutdownPhase,
}

impl Shutdown {
    /// A shutdown that begins with asking the agent.
    pub fn new() -> (res: Shutdown)
        ensures
            res.phase@ == ShutdownPhaseView::Asking,
    {
        Shutdown { phase: ShutdownPhase::Asking }
    }

    /// Whether the shutdown waits for this event.
    pub fn accepts(&self, event: &ShutdownEvent) -> (res: bool)
        ensures
            res == self.phase@.awaits(event@),
    {
        match (&self.phase, event) {
            (ShutdownPhase::Asking, ShutdownEvent::Asked { .. }) => true,
            (ShutdownPhase::Timing, ShutdownEvent::Elapsed { .. }) => true,
            (ShutdownPhase::Waiting { .. }, ShutdownEvent::ShutdownComplete) => true,
            (ShutdownPhase::Waiting { .. }, ShutdownEvent::OtherEvent) => true,
            (ShutdownPhase::Waiting { .. }, ShutdownEvent::EventError { .. }) => true,
            (ShutdownPhase::Waiting { .. }, ShutdownEvent::TimedOut) => true,
            _ => false,
        }
    }

    /// Takes an event in.
    pub fn step(&mut self, event: ShutdownEvent)
        requires
            old(self).phase@.awaits(event@),
        ensures
            final(self).phase@ == after_shutdown_event(event@),
    {
        self.phase = match event {
            ShutdownEvent::Asked { sent } => {
                if sent {
                    ShutdownPhase::Timing
                } else {
                    ShutdownPhase::Done
                }
            },
            ShutdownEvent::Elapsed { nanos } => {
                if nanos >= SHUTDOWN_TIMEOUT_NANOS as u128 {
                    ShutdownPhase::Failed { message: "timeout waiting for shutdown".to_owned() }
                } else {
                    ShutdownPhase::Waiting {
                        remaining_nanos: SHUTDOWN_TIMEOUT_NANOS - nanos as u64,
                    }
                }
            },
            ShutdownEvent::ShutdownComplete => ShutdownPhase::Done,
            ShutdownEvent::OtherEvent => ShutdownPhase::Timing,
            ShutdownEvent::EventError { error } => ShutdownPhase::Failed {
                message: joined("shutdown event error: ", error.as_str()),
            },
            ShutdownEvent::TimedOut => ShutdownPhase::Failed {
                message: "timeout waiting for shutdown".to_owned(),
            },
        };
    }
}

} // verus!
