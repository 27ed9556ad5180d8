//! What holds of the controller whatever happens outside: of each single
//! answer, and of every run from its start.

use vstd::prelude::*;
use crate::args::PollPolicy;
use crate::controller::{
    ActionView, ControllerView, EventView, InitStage, Phase, ReportView, StepView,
};
use crate::error::{ErrorKind, PollErrorView};
use crate::hex::hex_dump_of;
use crate::run::{
    actions_after, answers_after, lemma_nothing_after_the_end, lemma_run_is_shaped, startup,
    state_after,
};
use crate::session::{delivered, lemma_empty_read, seeded, BusMode, TransferView};

verus! {

/// A run that is over stays as it is: no event is accepted any more.
pub proof fn lemma_over_is_final(state: ControllerView, event: EventView)
    requires
        state.is_over(),
    ensures
        !state.accepts(event),
        state.next(event) == state,
{
}

/// The description that goes with a failure: the device path when the path
/// was not found, else what the operating system or the driver said.
pub open spec fn failure_detail(state: ControllerView, event: EventView) -> Seq<char> {
    match event {
        EventView::Opened(Err(detail)) => detail,
        EventView::Configured(Err(detail)) => detail,
        EventView::ReadDone(Err(detail)) => detail,
        _ => state.dev,
    }
}

/// Every fatal condition is reported with its description, and the action
/// that follows ends the process with the exit code of that condition, one
/// of 10 to 13.
pub proof fn lemma_failure_is_reported(state: ControllerView, event: EventView)
    requires
        state.accepts(event),
        state.next(event).phase is Failed,
    ensures
        state.report(event) == Some(
            ReportView::Fatal(
                PollErrorView {
                    kind: state.next(event).phase->Failed_0,
                    detail: failure_detail(state, event),
                },
            ),
        ),
        state.next(event).action() == ActionView::Exit(
            state.next(event).phase->Failed_0.code(),
        ),
        10 <= state.next(event).phase->Failed_0.code() <= 13,
{
}

/// A read that succeeds is reported with its count and the dump of exactly
/// the bytes that were transferred. The count never exceeds the requested
/// size, and when the driver filled the buffer the dump is that of the whole
/// buffer. What follows is the pause of a continuous run, or nothing to wait
/// for in a single-shot run.
pub proof fn lemma_successful_read_is_reported(state: ControllerView, transfer: TransferView)
    requires
        state.phase is Reading,
        transfer.buffer.len() == state.buffer_size,
        transfer.wf(),
    ensures
        state.accepts(EventView::ReadDone(Ok(transfer))),
        state.next(EventView::ReadDone(Ok(transfer))).phase is Reported,
        state.report(EventView::ReadDone(Ok(transfer))) == Some(
            ReportView::Read {
                count: transfer.count,
                dump: hex_dump_of(delivered(transfer.buffer, transfer.count)),
            },
        ),
        transfer.count <= state.buffer_size,
        delivered(transfer.buffer, transfer.count).len() == transfer.count,
        transfer.count == state.buffer_size ==> delivered(transfer.buffer, transfer.count)
            == transfer.buffer,
        state.next(EventView::ReadDone(Ok(transfer))).action() == match state.policy {
            PollPolicy::SingleShot => ActionView::Proceed,
            PollPolicy::Continuous { interval_ms } => ActionView::Sleep(interval_ms),
        },
{
}

/// A request for no bytes is served like any other: the read starts from an
/// empty buffer, the empty transfer is accepted, and what is reported is a
/// read of no bytes with an empty dump, not an error.
pub proof fn lemma_empty_request_succeeds(state: ControllerView)
    requires
        state.phase is Reading,
        state.buffer_size == 0,
    ensures
        state.action() == ActionView::Read(Seq::empty()),
        state.accepts(
            EventView::ReadDone(Ok(TransferView { buffer: Seq::empty(), count: 0 })),
        ),
        state.report(EventView::ReadDone(Ok(TransferView { buffer: Seq::empty(), count: 0 })))
            == Some(ReportView::Read { count: 0, dump: seq!['[', ']'] }),
        state.next(
            EventView::ReadDone(Ok(TransferView { buffer: Seq::empty(), count: 0 })),
        ).phase is Reported,
{
    lemma_empty_read();
    assert(hex_dump_of(Seq::<u8>::empty()) =~= seq!['[', ']']);
}

/// Whatever a read ends in is reported, and the action that follows is
/// never a read: no read is asked for before the one before it has been
/// reported.
pub proof fn lemma_read_outcome_is_reported(state: ControllerView, event: EventView)
    requires
        state.phase is Reading,
        state.accepts(event),
    ensures
        event is ReadDone,
        state.report(event) is Some,
        !(state.next(event).action() is Read),
{
}

/// A single-shot run ends after its report: there is nothing to wait for,
/// and the next action is the exit with code 0.
pub proof fn lemma_single_shot_ends_after_report(state: ControllerView)
    requires
        state.policy is SingleShot,
        state.phase is Reported,
    ensures
        state.action() == ActionView::Proceed,
        state.accepts(EventView::Resumed),
        state.report(EventView::Resumed) is None,
        state.next(EventView::Resumed).phase is Terminated,
        state.next(EventView::Resumed).action() == ActionView::Exit(0),
{
}

/// While a continuous run has not failed, it goes on: when the pause after a
/// report is over, the next read is asked for.
pub proof fn lemma_continuous_keeps_reading(state: ControllerView)
    requires
        state.policy is Continuous,
        state.phase is Reported,
    ensures
        state.action() == ActionView::Sleep(state.policy->interval_ms),
        state.accepts(EventView::Resumed),
        state.next(EventView::Resumed).phase is Reading,
        state.next(EventView::Resumed).action() == ActionView::Read(
            seeded(state.buffer_size as nat),
        ),
{
}

/// Whether `event` says that the device was opened.
pub open spec fn is_open_success(event: EventView) -> bool {
    event matches EventView::Opened(Ok(_))
}

/// The device is asked to configure only in answer to a successful open.
pub proof fn lemma_configure_answers_open(state: ControllerView, event: EventView)
    requires
        state.accepts(event),
        state.next(event).action() is Configure,
    ensures
        state.phase == Phase::Initializing(InitStage::Open),
        state.action() is Open,
        is_open_success(event),
{
}

/// A read is asked for only once the session is configured: from the ready
/// session, or after a report.
pub proof fn lemma_read_needs_session(state: ControllerView, event: EventView)
    requires
        state.accepts(event),
        state.next(event).action() is Read,
    ensures
        state.phase is Ready || state.phase is Reported,
        event == EventView::Resumed,
{
}

/// How many of `actions` are reads.
pub open spec fn reads_in(actions: Seq<ActionView>) -> nat
    decreases actions.len(),
{
    if actions.len() == 0 {
        0
    } else {
        reads_in(actions.drop_last()) + if actions.last() is Read {
            1nat
        } else {
            0nat
        }
    }
}

/// One more action is one more read exactly when it is a read.
pub proof fn lemma_reads_in_push(actions: Seq<ActionView>, action: ActionView)
    ensures
        reads_in(actions.push(action)) == reads_in(actions) + if action is Read {
            1nat
        } else {
            0nat
        },
{
    assert(actions.push(action).drop_last() =~= actions);
}

/// Where no action is a read, the reads count none.
proof fn lemma_no_read_counts_none(actions: Seq<ActionView>)
    requires
        forall|k: int| 0 <= k < actions.len() ==> !(#[trigger] actions[k] is Read),
    ensures
        reads_in(actions) == 0,
    decreases actions.len(),
{
    if actions.len() > 0 {
        lemma_no_read_counts_none(actions.drop_last());
    }
}

/// The milliseconds of pause that `actions` ask for, all in all.
pub open spec fn pause_in(actions: Seq<ActionView>) -> nat
    decreases actions.len(),
{
    if actions.len() == 0 {
        0
    } else {
        pause_in(actions.drop_last()) + match actions.last() {
            ActionView::Sleep(millis) => millis as nat,
            _ => 0nat,
        }
    }
}

/// When the device path does not exist, the run is over at once: the one
/// answer reports that error with the path and asks for the exit with code
/// 10, and the device was never asked to open, to configure or to read,
/// whatever events follow.
pub proof fn lemma_missing_device_stops_the_run(start: ControllerView, events: Seq<EventView>)
    requires
        start.phase == Phase::Initializing(InitStage::PathCheck),
        events.len() >= 1,
        events[0] == (EventView::PathChecked { exists: false }),
    ensures
        state_after(start, events).phase == Phase::Failed(ErrorKind::DeviceNotFound),
        actions_after(start, events) == seq![
            ActionView::CheckPath(start.dev),
            ActionView::Exit(10),
        ],
        answers_after(start, events) == seq![
            StepView {
                report: Some(
                    ReportView::Fatal(
                        PollErrorView { kind: ErrorKind::DeviceNotFound, detail: start.dev },
                    ),
                ),
                action: ActionView::Exit(10),
            },
        ],
{
    let first = events.take(1);
    let more = events.skip(1);
    assert(actions_after(start, first.drop_last()) =~= seq![start.action()]);
    assert(answers_after(start, first.drop_last()) =~= Seq::<StepView>::empty());
    assert(answers_after(start, first) =~= seq![
        StepView {
            report: Some(
                ReportView::Fatal(
                    PollErrorView { kind: ErrorKind::DeviceNotFound, detail: start.dev },
                ),
            ),
            action: ActionView::Exit(10),
        },
    ]);
    lemma_nothing_after_the_end(start, first, more);
    assert(first + more =~= events);
}

/// Whenever the device has been asked to configure, an open succeeded before:
/// one of the events is that success, and it was accepted.
pub proof fn lemma_configure_comes_after_open(start: ControllerView, events: Seq<EventView>)
    requires
        start.phase == Phase::Initializing(InitStage::PathCheck),
        exists|j: int|
            0 <= j < actions_after(start, events).len() && actions_after(start, events)[j]
                is Configure,
    ensures
        exists|i: int|
            0 <= i < events.len() && is_open_success(events[i]) && #[trigger] state_after(
                start,
                events.take(i),
            ).accepts(events[i]),
    decreases events.len(),
{
    if events.len() > 0 {
        let before = state_after(start, events.drop_last());
        let event = events.last();
        let last = events.len() - 1;
        if before.accepts(event) && is_open_success(event) {
            // The last event is an open that succeeded.
            assert(events.take(last) =~= events.drop_last());
        } else {
            // The last event asked for no configure, so an earlier one did.
            lemma_configure_comes_after_open(start, events.drop_last());
            let i = choose|i: int|
                0 <= i < events.drop_last().len() && is_open_success(events.drop_last()[i])
                    && #[trigger] state_after(start, events.drop_last().take(i)).accepts(
                    events.drop_last()[i],
                );
            assert(events.drop_last().take(i) =~= events.take(i));
        }
    }
}

/// A configure that fails was asked for right after the open, and no read is
/// ever asked for in that run: its actions are the path check, the open, the
/// configure and the exit with code 12, whatever events follow the failure.
pub proof fn lemma_failed_configure_never_reads(
    start: ControllerView,
    events: Seq<EventView>,
    at: int,
)
    requires
        start.phase == Phase::Initializing(InitStage::PathCheck),
        0 <= at < events.len(),
        events[at] matches EventView::Configured(Err(_)),
        state_after(start, events.take(at)).accepts(events[at]),
    ensures
        state_after(start, events).phase == Phase::Failed(ErrorKind::ConfigureFailed),
        actions_after(start, events) == seq![
            ActionView::CheckPath(start.dev),
            ActionView::Open(start.dev),
            ActionView::Configure(BusMode::session_mode()),
            ActionView::Exit(12),
        ],
        reads_in(actions_after(start, events)) == 0,
{
    let failed = events.take(at + 1);
    assert(failed.drop_last() =~= events.take(at));
    lemma_run_is_shaped(start, failed);
    lemma_nothing_after_the_end(start, failed, events.skip(at + 1));
    assert(failed + events.skip(at + 1) =~= events);
    lemma_no_read_counts_none(actions_after(start, events));
}

/// Whether a read has been asked for by the time a single-shot run is in `phase`.
pub open spec fn has_read(phase: Phase) -> bool {
    match phase {
        Phase::Reading | Phase::Reported | Phase::Terminated => true,
        Phase::Failed(kind) => kind == ErrorKind::ReadFailed,
        _ => false,
    }
}

/// A single-shot run asks for one read and no more: none before the session
/// is configured, and exactly one from then on, whatever events follow. When
/// it has ended normally, its actions are the set-up, that one read and the
/// exit with code 0; when it has failed, its last action is the exit with the
/// code of the fatal condition.
pub proof fn lemma_single_shot_reads_once(start: ControllerView, events: Seq<EventView>)
    requires
        start.phase == Phase::Initializing(InitStage::PathCheck),
        start.policy is SingleShot,
    ensures
        reads_in(actions_after(start, events)) == if has_read(state_after(start, events).phase) {
            1nat
        } else {
            0nat
        },
        state_after(start, events).phase is Terminated ==> actions_after(start, events)
            == startup(start) + seq![
            ActionView::Read(seeded(start.buffer_size as nat)),
            ActionView::Proceed,
            ActionView::Exit(0),
        ],
        state_after(start, events).phase matches Phase::Failed(kind) ==> actions_after(
            start,
            events,
        ).last() == ActionView::Exit(kind.code()),
    decreases events.len(),
{
    if events.len() == 0 {
        lemma_reads_in_push(Seq::empty(), start.action());
    } else {
        let before = state_after(start, events.drop_last());
        let earlier = actions_after(start, events.drop_last());
        lemma_single_shot_reads_once(start, events.drop_last());
        lemma_run_is_shaped(start, events.drop_last());
        if before.accepts(events.last()) {
            lemma_reads_in_push(earlier, before.next(events.last()).action());
        }
    }
}

/// In a continuous run a pause of the configured interval lies between any
/// two reads: the action just before every read but the first is that pause.
/// The run never ends normally: it is over only once something has failed.
pub proof fn lemma_continuous_reads_are_spaced(start: ControllerView, events: Seq<EventView>)
    requires
        start.phase == Phase::Initializing(InitStage::PathCheck),
        start.policy is Continuous,
    ensures
        forall|i: int, j: int|
            #![trigger actions_after(start, events)[i], actions_after(start, events)[j]]
            0 <= i < j < actions_after(start, events).len()
                && actions_after(start, events)[i] is Read
                && actions_after(start, events)[j] is Read
                ==> i < j - 1
                && actions_after(start, events)[j - 1] == ActionView::Sleep(
                start.policy->interval_ms,
            ),
        !(state_after(start, events).phase is Terminated),
        state_after(start, events).is_over() ==> state_after(start, events).phase is Failed,
{
    lemma_run_is_shaped(start, events);
}

/// Between two reads of a continuous run the driver is asked to pause for no
/// less than the configured interval: on a clock that every pause advances by
/// its length, the later read is asked for at least that interval after the
/// earlier one.
pub proof fn lemma_interval_passes_between_reads(
    start: ControllerView,
    events: Seq<EventView>,
    i: int,
    j: int,
)
    requires
        start.phase == Phase::Initializing(InitStage::PathCheck),
        start.policy is Continuous,
        0 <= i < j < actions_after(start, events).len(),
        actions_after(start, events)[i] is Read,
        actions_after(start, events)[j] is Read,
    ensures
        pause_in(actions_after(start, events).subrange(i, j)) >= start.policy->interval_ms,
{
    lemma_continuous_reads_are_spaced(start, events);
    let actions = actions_after(start, events);
    assert(actions.subrange(i, j).last() == actions[j - 1]);
}

} // verus!
