//! Whole runs of the controller: what it has become, what it has answered
//! and what it has asked for after any sequence of events.

use vstd::prelude::*;
use crate::args::PollPolicy;
use crate::controller::{
    ActionView, Controller, ControllerView, Event, EventView, InitStage, Phase, Step, StepView,
};
use crate::error::ErrorKind;
use crate::session::{seeded, BusMode};

verus! {

/// The controller after it has been handed `events`, one after the other.
pub open spec fn state_after(start: ControllerView, events: Seq<EventView>) -> ControllerView
    decreases events.len(),
{
    if events.len() == 0 {
        start
    } else {
        state_after(start, events.drop_last()).next(events.last())
    }
}

/// The answers the controller gave, in order: one for each event that was
/// accepted.
pub open spec fn answers_after(start: ControllerView, events: Seq<EventView>) -> Seq<StepView>
    decreases events.len(),
{
    if events.len() == 0 {
        Seq::empty()
    } else {
        let before = state_after(start, events.drop_last());
        let earlier = answers_after(start, events.drop_last());
        if before.accepts(events.last()) {
            earlier.push(before.answer(events.last()))
        } else {
            earlier
        }
    }
}

/// Every action the driver was asked for, in order: the one outstanding at
/// the start, then one for each event that was accepted.
pub open spec fn actions_after(start: ControllerView, events: Seq<EventView>) -> Seq<ActionView>
    decreases events.len(),
{
    if events.len() == 0 {
        seq![start.action()]
    } else {
        let before = state_after(start, events.drop_last());
        let earlier = actions_after(start, events.drop_last());
        if before.accepts(events.last()) {
            earlier.push(before.next(events.last()).action())
        } else {
            earlier
        }
    }
}

/// The actions that set a session up, when nothing fails.
pub open spec fn startup(start: ControllerView) -> Seq<ActionView> {
    seq![
        ActionView::CheckPath(start.dev),
        ActionView::Open(start.dev),
        ActionView::Configure(BusMode::session_mode()),
        ActionView::Proceed,
    ]
}

/// The `k`-th action since the session was ready: reads take turns with what
/// follows a report, which is the pause of a continuous run.
pub open spec fn polling_action(start: ControllerView, k: int) -> ActionView {
    if k % 2 == 0 {
        ActionView::Read(seeded(start.buffer_size as nat))
    } else {
        match start.policy {
            PollPolicy::Continuous { interval_ms } => ActionView::Sleep(interval_ms),
            PollPolicy::SingleShot => ActionView::Proceed,
        }
    }
}

/// The actions of a run that has reached `phase`, as far as the phase fixes
/// them: the set-up as far as it came, then reads in turn with pauses, then
/// the exit if the run is over.
pub open spec fn shaped(start: ControllerView, phase: Phase, actions: Seq<ActionView>) -> bool {
    let read = ActionView::Read(seeded(start.buffer_size as nat));
    match phase {
        Phase::Initializing(InitStage::PathCheck) => actions == startup(start).take(1),
        Phase::Initializing(InitStage::Open) => actions == startup(start).take(2),
        Phase::Initializing(InitStage::Configure) => actions == startup(start).take(3),
        Phase::Ready => actions == startup(start),
        Phase::Failed(ErrorKind::DeviceNotFound) => actions == startup(start).take(1).push(
            ActionView::Exit(10),
        ),
        Phase::Failed(ErrorKind::OpenFailed) => actions == startup(start).take(2).push(
            ActionView::Exit(11),
        ),
        Phase::Failed(ErrorKind::ConfigureFailed) => actions == startup(start).take(3).push(
            ActionView::Exit(12),
        ),
        Phase::Terminated => start.policy is SingleShot && actions == startup(start) + seq![
            read,
            ActionView::Proceed,
            ActionView::Exit(0),
        ],
        Phase::Reading => {
            &&& actions.len() >= 5
            &&& (actions.len() - 4) % 2 == 1
            &&& start.policy is SingleShot ==> actions.len() == 5
            &&& actions.take(4) == startup(start)
            &&& forall|k: int|
                4 <= k < actions.len() ==> #[trigger] actions[k] == polling_action(start, k - 4)
        },
        Phase::Reported => {
            &&& actions.len() >= 6
            &&& (actions.len() - 4) % 2 == 0
            &&& start.policy is SingleShot ==> actions.len() == 6
            &&& actions.take(4) == startup(start)
            &&& forall|k: int|
                4 <= k < actions.len() ==> #[trigger] actions[k] == polling_action(start, k - 4)
        },
        Phase::Failed(ErrorKind::ReadFailed) => {
            &&& actions.len() >= 6
            &&& (actions.len() - 4) % 2 == 0
            &&& start.policy is SingleShot ==> actions.len() == 6
            &&& actions.take(4) == startup(start)
            &&& actions.last() == ActionView::Exit(13)
            &&& forall|k: int|
                4 <= k < actions.len() - 1 ==> #[trigger] actions[k] == polling_action(
                    start,
                    k - 4,
                )
        },
    }
}

/// The events of a script as the controller sees them.
pub open spec fn views_of(events: Seq<Event>) -> Seq<EventView> {
    events.map_values(|event: Event| event@)
}

/// The answers of a driver's log as the controller gave them.
pub open spec fn step_views_of(steps: Seq<Step>) -> Seq<StepView> {
    steps.map_values(|step: Step| step@)
}

impl Controller {
    /// Hands the controller a script of events, one after the other, and
    /// returns its answers to those it accepted.
    pub fn replay(&mut self, events: Vec<Event>) -> (steps: Vec<Step>)
        ensures
            final(self)@ == state_after(old(self)@, views_of(events@)),
            step_views_of(steps@) == answers_after(old(self)@, views_of(events@)),
    {
        let ghost script = views_of(events@);
        let mut steps: Vec<Step> = Vec::new();
        for event in it: events.into_iter()
            invariant
                it.seq() == events@,
                script == views_of(events@),
                self@ == state_after(old(self)@, script.take(it.index())),
                step_views_of(steps@) == answers_after(old(self)@, script.take(it.index())),
        {
            proof {
                let done = script.take(it.index());
                let now = script.take(it.index() + 1);
                assert(now.drop_last() =~= done);
            }
            if let Some(step) = self.step(event) {
                steps.push(step);
            }
        }
        proof {
            assert(script.take(events@.len() as int) =~= script);
        }
        steps
    }
}

/// The configuration is fixed for the whole run: whatever events come, only
/// the phase changes.
pub proof fn lemma_configuration_is_kept(start: ControllerView, events: Seq<EventView>)
    ensures
        state_after(start, events) == (ControllerView {
            phase: state_after(start, events).phase,
            ..start
        }),
    decreases events.len(),
{
    if events.len() > 0 {
        lemma_configuration_is_kept(start, events.drop_last());
    }
}

/// Once a run is over, further events change neither the state nor what was
/// asked for or reported.
pub proof fn lemma_nothing_after_the_end(
    start: ControllerView,
    events: Seq<EventView>,
    more: Seq<EventView>,
)
    requires
        state_after(start, events).is_over(),
    ensures
        state_after(start, events + more) == state_after(start, events),
        actions_after(start, events + more) == actions_after(start, events),
        answers_after(start, events + more) == answers_after(start, events),
    decreases more.len(),
{
    if more.len() > 0 {
        lemma_nothing_after_the_end(start, events, more.drop_last());
        assert((events + more).drop_last() =~= events + more.drop_last());
    }
}

/// The actions asked for are the one outstanding at the start and then the
/// action of each answer.
pub proof fn lemma_actions_are_answered(start: ControllerView, events: Seq<EventView>)
    ensures
        actions_after(start, events) == seq![start.action()] + answers_after(
            start,
            events,
        ).map_values(|step: StepView| step.action),
    decreases events.len(),
{
    if events.len() > 0 {
        lemma_actions_are_answered(start, events.drop_last());
    }
}

/// In a run from its start, the last action asked for is the one outstanding
/// in the phase reached, and the actions so far have the shape that belongs
/// to that phase.
pub proof fn lemma_run_is_shaped(start: ControllerView, events: Seq<EventView>)
    requires
        start.phase == Phase::Initializing(InitStage::PathCheck),
    ensures
        actions_after(start, events).len() >= 1,
        actions_after(start, events).last() == state_after(start, events).action(),
        shaped(start, state_after(start, events).phase, actions_after(start, events)),
    decreases events.len(),
{
    if events.len() == 0 {
        assert(actions_after(start, events) =~= startup(start).take(1));
    } else {
        let before = state_after(start, events.drop_last());
        let earlier = actions_after(start, events.drop_last());
        let event = events.last();
        lemma_run_is_shaped(start, events.drop_last());
        lemma_configuration_is_kept(start, events.drop_last());
        if before.accepts(event) {
            let after = before.next(event);
            let actions = earlier.push(after.action());
            match after.phase {
                Phase::Initializing(InitStage::PathCheck) => {},
                Phase::Initializing(InitStage::Open) => {
                    assert(actions =~= startup(start).take(2));
                },
                Phase::Initializing(InitStage::Configure) => {
                    assert(actions =~= startup(start).take(3));
                },
                Phase::Ready => {
                    assert(actions =~= startup(start));
                },
                Phase::Failed(ErrorKind::ReadFailed) => {
                    assert(actions.take(4) =~= earlier.take(4));
                },
                Phase::Failed(_) => {},
                Phase::Terminated => {
                    assert(actions =~= startup(start) + seq![
                        ActionView::Read(seeded(start.buffer_size as nat)),
                        ActionView::Proceed,
                        ActionView::Exit(0),
                    ]);
                },
                Phase::Reading => {
                    assert(actions.take(4) =~= earlier.take(4));
                    if before.phase is Ready {
                        assert(earlier.take(4) =~= earlier);
                    }
                },
                Phase::Reported => {
                    assert(actions.take(4) =~= earlier.take(4));
                },
            }
        }
    }
}

} // verus!
