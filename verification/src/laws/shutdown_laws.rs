//! Laws of a shutdown, over every sequence of events that can happen in it.

use vstd::prelude::*;
use crate::shutdown::{after_shutdown_event, ShutdownEventView, ShutdownPhaseView};

verus! {

/// Where a shutdown stands after these events.
pub open spec fn run_shutdown(events: Seq<ShutdownEventView>) -> ShutdownPhaseView {
    if events.len() == 0 {
        ShutdownPhaseView::Asking
    } else {
        after_shutdown_event(events.last())
    }
}

/// Whether these events can happen in a shutdown, one after the other.
pub open spec fn possible(events: Seq<ShutdownEventView>) -> bool
    decreases events.len(),
{
    events.len() == 0 || (possible(events.drop_last()) && run_shutdown(
        events.drop_last(),
    ).awaits(events.last()))
}

/// A wait for the agent ends when the time that it is given is up, however many
/// waits there were before.
pub proof fn law_waits_end_in_time(events: Seq<ShutdownEventView>)
    requires
        possible(events),
        run_shutdown(events) is Waiting,
    ensures
        events.last() matches ShutdownEventView::Elapsed { nanos } && nanos + run_shutdown(
            events,
        )->remaining_nanos == 5_000_000_000,
        run_shutdown(events)->remaining_nanos > 0,
{
}

proof fn lemma_asking_comes_first(events: Seq<ShutdownEventView>)
    requires
        possible(events),
        events.len() > 0,
    ensures
        events[0] is Asked,
        forall|i: int| 0 < i < events.len() ==> !((#[trigger] events[i]) is Asked),
        events.len() > 1 ==> events[0] == (ShutdownEventView::Asked { sent: true }),
    decreases events.len(),
{
    let rest = events.drop_last();
    if rest.len() > 0 {
        lemma_asking_comes_first(rest);
        assert(rest[0] == events[0]);
        assert forall|i: int| 0 < i < events.len() implies !((#[trigger] events[i]) is Asked) by {
            if i < rest.len() {
                assert(rest[i] == events[i]);
            }
        }
        if rest.len() == 1 {
            assert(rest.last() == events[0]);
        }
    }
}

/// A shutdown is in order exactly if the agent could not be asked, or was asked
/// and reported at the end that it has shut down.
pub proof fn law_shutdown_in_order(events: Seq<ShutdownEventView>)
    requires
        possible(events),
    ensures
        run_shutdown(events) is Done <==> {
            ||| events == seq![ShutdownEventView::Asked { sent: false }]
            ||| events.len() > 1 && events[0] == (ShutdownEventView::Asked { sent: true })
                && events.last() is ShutdownComplete
        },
{
    if events.len() > 0 {
        lemma_asking_comes_first(events);
        if events.len() == 1 {
            assert(events =~= seq![events[0]]);
        } else {
            assert(!(events[events.len() - 1] is Asked));
        }
    }
}

/// Once the agent has had its time, a shutdown that is still under way fails.
pub proof fn law_late_shutdowns_fail(nanos: u128)
    ensures
        after_shutdown_event(ShutdownEventView::Elapsed { nanos }) is Failed <==> nanos
            >= 5_000_000_000,
{
}

/// Before the agent has had its five seconds, it is waited for as long as is left
/// of them: two looks at the clock differ in the wait by the time between them.
pub proof fn law_waits_share_one_deadline(a: u128, b: u128)
    requires
        a <= b < 5_000_000_000,
    ensures
        ({
            let first = after_shutdown_event(ShutdownEventView::Elapsed { nanos: a });
            let second = after_shutdown_event(ShutdownEventView::Elapsed { nanos: b });
            &&& first is Waiting
            &&& second is Waiting
            &&& first->remaining_nanos - second->remaining_nanos == b - a
            &&& a + first->remaining_nanos == 5_000_000_000
        }),
{
}

/// What each event comes to. An agent that was asked is timed, and timed again
/// after every event that is not the end of it.
pub proof fn law_shutdown_events(error: Seq<char>, nanos: u128)
    requires
        nanos >= 5_000_000_000,
    ensures
        after_shutdown_event(ShutdownEventView::Asked { sent: true }) is Timing,
        after_shutdown_event(ShutdownEventView::Asked { sent: false }) is Done,
        after_shutdown_event(ShutdownEventView::ShutdownComplete) is Done,
        after_shutdown_event(ShutdownEventView::OtherEvent) is Timing,
        after_shutdown_event(ShutdownEventView::EventError { error }) == (
        ShutdownPhaseView::Failed { message: "shutdown event error: "@ + error }),
        after_shutdown_event(ShutdownEventView::TimedOut) == (ShutdownPhaseView::Failed {
            message: "timeout waiting for shutdown"@,
        }),
        after_shutdown_event(ShutdownEventView::Elapsed { nanos }) == after_shutdown_event(
            ShutdownEventView::TimedOut,
        ),
{
}

/// Which events can happen when.
pub proof fn law_what_shutdowns_await(phase: ShutdownPhaseView, event: ShutdownEventView)
    ensures
        phase.awaits(event) <==> match event {
            ShutdownEventView::Asked { .. } => phase is Asking,
            ShutdownEventView::Elapsed { .. } => phase is Timing,
            ShutdownEventView::ShutdownComplete => phase is Waiting,
            ShutdownEventView::OtherEvent => phase is Waiting,
            ShutdownEventView::EventError { .. } => phase is Waiting,
            ShutdownEventView::TimedOut => phase is Waiting,
        },
{
}

} // verus!
