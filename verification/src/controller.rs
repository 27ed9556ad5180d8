//! The poll controller: a state machine that is told what happened outside
//! and answers with what to report and what to do next. It performs no I/O
//! itself; whoever drives it carries out each action and hands back the event
//! that the action ended in.

use vstd::prelude::*;
use crate::args::{policy_of, Args, PollPolicy};
use crate::error::{ErrorKind, PollError, PollErrorView};
use crate::hex::{hex_dump, hex_dump_of};
use crate::session::{
    delivered, finish_read, seed_buffer, seeded, BusMode, Transfer, TransferView,
};

verus! {

/// How far the set-up of the device session has come.
#[derive(Clone, Copy, Debug, PartialEq, Eq, Structural)]
pub enum InitStage {
    /// The device path is being looked up.
    PathCheck,
    /// The device is being opened.
    Open,
    /// The open device is being given its bus mode.
    Configure,
}

/// Where the controller stands.
#[derive(Clone, Copy, Debug, PartialEq, Eq, Structural)]
pub enum Phase {
    /// The device session is being set up.
    Initializing(InitStage),
    /// The session is open and configured; no read has been issued yet.
    Ready,
    /// A read is under way.
    Reading,
    /// The last read succeeded and has been reported.
    Reported,
    /// The run ended normally.
    Terminated,
    /// The run ended with a fatal condition.
    Failed(ErrorKind),
}

/// What happened outside: the end of the action that was outstanding.
#[derive(Debug, PartialEq, Eq)]
pub enum Event {
    /// The device path was looked up.
    PathChecked { exists: bool },
    /// The device was opened, or the operating system said why not.
    Opened(Result<(), String>),
    /// The bus mode was applied, or the driver said why not.
    Configured(Result<(), String>),
    /// The bus transaction ended, or the driver said why it failed.
    ReadDone(Result<Transfer, String>),
    /// An action that yields nothing is over: a pause has passed, or there
    /// was nothing to wait for.
    Resumed,
}

/// An event with its strings and buffers as sequences.
pub enum EventView {
    PathChecked { exists: bool },
    Opened(Result<(), Seq<char>>),
    Configured(Result<(), Seq<char>>),
    ReadDone(Result<TransferView, Seq<char>>),
    Resumed,
}

impl View for Event {
    type V = EventView;

    open spec fn view(&self) -> EventView {
        match *self {
            Event::PathChecked { exists } => EventView::PathChecked { exists },
            Event::Opened(Ok(_)) => EventView::Opened(Ok(())),
            Event::Opened(Err(detail)) => EventView::Opened(Err(detail@)),
            Event::Configured(Ok(_)) => EventView::Configured(Ok(())),
            Event::Configured(Err(detail)) => EventView::Configured(Err(detail@)),
            Event::ReadDone(Ok(transfer)) => EventView::ReadDone(Ok(transfer@)),
            Event::ReadDone(Err(detail)) => EventView::ReadDone(Err(detail@)),
            Event::Resumed => EventView::Resumed,
        }
    }
}

/// What the driver has to do next.
#[derive(Clone, Debug, PartialEq, Eq)]
pub enum Action {
    /// Look up whether the device path exists.
    CheckPath(String),
    /// Open the device at this path.
    Open(String),
    /// Apply this bus mode to the open device.
    Configure(BusMode),
    /// Run one bus transaction that fills this buffer.
    Read(Vec<u8>),
    /// Pause for this many milliseconds.
    Sleep(u64),
    /// Nothing to do outside: go on at once.
    Proceed,
    /// End the process with this exit code.
    Exit(i32),
}

/// An action with its strings and buffers as sequences.
pub enum ActionView {
    CheckPath(Seq<char>),
    Open(Seq<char>),
    Configure(BusMode),
    Read(Seq<u8>),
    Sleep(u64),
    Proceed,
    Exit(int),
}

impl View for Action {
    type V = ActionView;

    open spec fn view(&self) -> ActionView {
        match *self {
            Action::CheckPath(path) => ActionView::CheckPath(path@),
            Action::Open(path) => ActionView::Open(path@),
            Action::Configure(mode) => ActionView::Configure(mode),
            Action::Read(buffer) => ActionView::Read(buffer@),
            Action::Sleep(millis) => ActionView::Sleep(millis),
            Action::Proceed => ActionView::Proceed,
            Action::Exit(code) => ActionView::Exit(code as int),
        }
    }
}

/// Something to hand to the log.
#[derive(Clone, Debug, PartialEq, Eq)]
pub enum Report {
    /// Continuous polling starts: reads will be `interval_ms` apart.
    Started { interval_ms: u64 },
    /// A read succeeded: how many bytes came, and their dump.
    Read { count: usize, dump: String },
    /// The run is about to end with this error.
    Fatal(PollError),
}

/// A report with its strings as sequences.
pub enum ReportView {
    Started { interval_ms: u64 },
    Read { count: nat, dump: Seq<char> },
    Fatal(PollErrorView),
}

impl View for Report {
    type V = ReportView;

    open spec fn view(&self) -> ReportView {
        match *self {
            Report::Started { interval_ms } => ReportView::Started { interval_ms },
            Report::Read { count, dump } => ReportView::Read { count: count as nat, dump: dump@ },
            Report::Fatal(error) => ReportView::Fatal(error@),
        }
    }
}

impl Report {
    /// Whether the report is an error; the others are informational.
    pub fn is_error(&self) -> (error: bool)
        ensures
            error == (self@ is Fatal),
    {
        match self {
            Report::Fatal(_) => true,
            _ => false,
        }
    }
}

/// The controller's answer to an event.
#[derive(Clone, Debug, PartialEq, Eq)]
pub struct Step {
    /// What to report, if anything, before acting.
    pub report: Option<Report>,
    /// What to do next.
    pub action: Action,
}

/// An answer with its strings and buffers as sequences.
pub struct StepView {
    pub report: Option<ReportView>,
    pub action: ActionView,
}

impl View for Step {
    type V = StepView;

    open spec fn view(&self) -> StepView {
        StepView {
            report: match self.report {
                Some(report) => Some(report@),
                None => None,
            },
            action: self.action@,
        }
    }
}

/// The poll controller: the configuration of the run and the phase it is in.
#[derive(Clone, Debug, PartialEq, Eq)]
pub struct Controller {
    /// Path of the device node.
    pub dev: String,
    /// Whether the run reads once or keeps reading.
    pub policy: PollPolicy,
    /// Bytes asked for per read.
    pub buffer_size: usize,
    /// Where the run stands.
    pub phase: Phase,
}

/// The controller with its path as a sequence of characters.
pub struct ControllerView {
    pub dev: Seq<char>,
    pub policy: PollPolicy,
    pub buffer_size: usize,
    pub phase: Phase,
}

impl View for Controller {
    type V = ControllerView;

    open spec fn view(&self) -> ControllerView {
        ControllerView {
            dev: self.dev@,
            policy: self.policy,
            buffer_size: self.buffer_size,
            phase: self.phase,
        }
    }
}

impl ControllerView {
    /// Whether the run is over.
    pub open spec fn is_over(self) -> bool {
        self.phase is Terminated || self.phase is Failed
    }

    /// Whether `event` is the end of the action outstanding in this phase. A
    /// finished transaction must hand back a buffer of the requested size and
    /// a count that fits it.
    pub open spec fn accepts(self, event: EventView) -> bool {
        match (self.phase, event) {
            (Phase::Initializing(InitStage::PathCheck), EventView::PathChecked { .. }) => true,
            (Phase::Initializing(InitStage::Open), EventView::Opened(_)) => true,
            (Phase::Initializing(InitStage::Configure), EventView::Configured(_)) => true,
            (Phase::Ready, EventView::Resumed) => true,
            (Phase::Reading, EventView::ReadDone(Ok(transfer))) => transfer.buffer.len()
                == self.buffer_size && transfer.wf(),
            (Phase::Reading, EventView::ReadDone(Err(_))) => true,
            (Phase::Reported, EventView::Resumed) => true,
            _ => false,
        }
    }

    /// The phase that follows when `event` is accepted.
    pub open spec fn phase_after(self, event: EventView) -> Phase {
        match (self.phase, event) {
            (Phase::Initializing(InitStage::PathCheck), EventView::PathChecked { exists }) => {
                if exists {
                    Phase::Initializing(InitStage::Open)
                } else {
                    Phase::Failed(ErrorKind::DeviceNotFound)
                }
            },
            (Phase::Initializing(InitStage::Open), EventView::Opened(Ok(_))) => {
                Phase::Initializing(InitStage::Configure)
            },
            (Phase::Initializing(InitStage::Open), EventView::Opened(Err(_))) => {
                Phase::Failed(ErrorKind::OpenFailed)
            },
            (Phase::Initializing(InitStage::Configure), EventView::Configured(Ok(_))) => {
                Phase::Ready
            },
            (Phase::Initializing(InitStage::Configure), EventView::Configured(Err(_))) => {
                Phase::Failed(ErrorKind::ConfigureFailed)
            },
            (Phase::Ready, EventView::Resumed) => Phase::Reading,
            (Phase::Reading, EventView::ReadDone(Ok(_))) => Phase::Reported,
            (Phase::Reading, EventView::ReadDone(Err(_))) => Phase::Failed(ErrorKind::ReadFailed),
            (Phase::Reported, EventView::Resumed) => match self.policy {
                PollPolicy::SingleShot => Phase::Terminated,
                PollPolicy::Continuous { .. } => Phase::Reading,
            },
            _ => self.phase,
        }
    }

    /// The controller after `event`: the phase moves on if the event is
    /// accepted, and nothing changes if it is not.
    pub open spec fn next(self, event: EventView) -> ControllerView {
        if self.accepts(event) {
            ControllerView { phase: self.phase_after(event), ..self }
        } else {
            self
        }
    }

    /// What is reported when `event` is accepted: every failure with its
    /// description, every successful read with its count and dump, and the
    /// start of continuous polling with its interval.
    pub open spec fn report(self, event: EventView) -> Option<ReportView> {
        match (self.phase, event) {
            (Phase::Initializing(InitStage::PathCheck), EventView::PathChecked { exists }) => {
                if exists {
                    None
                } else {
                    Some(
                        ReportView::Fatal(
                            PollErrorView { kind: ErrorKind::DeviceNotFound, detail: self.dev },
                        ),
                    )
                }
            },
            (Phase::Initializing(InitStage::Open), EventView::Opened(Err(detail))) => Some(
                ReportView::Fatal(PollErrorView { kind: ErrorKind::OpenFailed, detail }),
            ),
            (Phase::Initializing(InitStage::Configure), EventView::Configured(Ok(_))) => {
                match self.policy {
                    PollPolicy::SingleShot => None,
                    PollPolicy::Continuous { interval_ms } => Some(
                        ReportView::Started { interval_ms },
                    ),
                }
            },
            (Phase::Initializing(InitStage::Configure), EventView::Configured(Err(detail))) => {
                Some(ReportView::Fatal(PollErrorView { kind: ErrorKind::ConfigureFailed, detail }))
            },
            (Phase::Reading, EventView::ReadDone(Ok(transfer))) => Some(
                ReportView::Read {
                    count: transfer.count,
                    dump: hex_dump_of(delivered(transfer.buffer, transfer.count)),
                },
            ),
            (Phase::Reading, EventView::ReadDone(Err(detail))) => Some(
                ReportView::Fatal(PollErrorView { kind: ErrorKind::ReadFailed, detail }),
            ),
            _ => None,
        }
    }

    /// The action that is outstanding in this phase.
    pub open spec fn action(self) -> ActionView {
        match self.phase {
            Phase::Initializing(InitStage::PathCheck) => ActionView::CheckPath(self.dev),
            Phase::Initializing(InitStage::Open) => ActionView::Open(self.dev),
            Phase::Initializing(InitStage::Configure) => ActionView::Configure(
                BusMode::session_mode(),
            ),
            Phase::Ready => ActionView::Proceed,
            Phase::Reading => ActionView::Read(seeded(self.buffer_size as nat)),
            Phase::Reported => match self.policy {
                PollPolicy::SingleShot => ActionView::Proceed,
                PollPolicy::Continuous { interval_ms } => ActionView::Sleep(interval_ms),
            },
            Phase::Terminated => ActionView::Exit(0),
            Phase::Failed(kind) => ActionView::Exit(kind.code()),
        }
    }

    /// The controller's answer when `event` is accepted.
    pub open spec fn answer(self, event: EventView) -> StepView {
        StepView { report: self.report(event), action: self.next(event).action() }
    }
}

/// The controller a run starts with: nothing has happened yet, and the first
/// thing to do is to look up the device path.
pub open spec fn initial(
    dev: Seq<char>,
    policy: PollPolicy,
    buffer_size: usize,
) -> ControllerView {
    ControllerView { dev, policy, buffer_size, phase: Phase::Initializing(InitStage::PathCheck) }
}

impl Controller {
    /// The controller for a run with this configuration, together with the
    /// first action.
    pub fn start(args: Args) -> (started: (Controller, Action))
        ensures
            started.0@ == initial(
                args.dev@,
                policy_of(args.once, args.read_interval),
                args.buffer_size,
            ),
            started.1@ == started.0@.action(),
    {
        let policy = args.policy();
        let controller = Controller {
            dev: args.dev,
            policy,
            buffer_size: args.buffer_size,
            phase: Phase::Initializing(InitStage::PathCheck),
        };
        let action = controller.action();
        (controller, action)
    }

    /// Whether the run is over: the outstanding action ends the process.
    pub fn is_over(&self) -> (over: bool)
        ensures
            over == self@.is_over(),
    {
        match self.phase {
            Phase::Terminated => true,
            Phase::Failed(_) => true,
            _ => false,
        }
    }

    /// Whether `event` is the end of the action outstanding in this phase.
    pub fn accepts(&self, event: &Event) -> (ok: bool)
        ensures
            ok == self@.accepts(event@),
    {
        match (self.phase, event) {
            (Phase::Initializing(InitStage::PathCheck), Event::PathChecked { .. }) => true,
            (Phase::Initializing(InitStage::Open), Event::Opened(_)) => true,
            (Phase::Initializing(InitStage::Configure), Event::Configured(_)) => true,
            (Phase::Ready, Event::Resumed) => true,
            (Phase::Reading, Event::ReadDone(Ok(transfer))) => transfer.buffer.len()
                == self.buffer_size && transfer.is_wf(),
            (Phase::Reading, Event::ReadDone(Err(_))) => true,
            (Phase::Reported, Event::Resumed) => true,
            _ => false,
        }
    }

    /// The action that is outstanding in this phase.
    pub fn action(&self) -> (action: Action)
        ensures
            action@ == self@.action(),
    {
        match self.phase {
            Phase::Initializing(InitStage::PathCheck) => Action::CheckPath(self.dev.clone()),
            Phase::Initializing(InitStage::Open) => Action::Open(self.dev.clone()),
            Phase::Initializing(InitStage::Configure) => Action::Configure(BusMode::session()),
            Phase::Ready => Action::Proceed,
            Phase::Reading => Action::Read(seed_buffer(self.buffer_size)),
            Phase::Reported => match self.policy {
                PollPolicy::SingleShot => Action::Proceed,
                PollPolicy::Continuous { interval_ms } => Action::Sleep(interval_ms),
            },
            Phase::Terminated => Action::Exit(0),
            Phase::Failed(kind) => Action::Exit(kind.exit_code()),
        }
    }

    /// Ends the run with a fatal condition and gives the report of it.
    fn fail(&mut self, error: PollError) -> (report: Option<Report>)
        ensures
            final(self)@ == (ControllerView { phase: Phase::Failed(error.kind), ..old(self)@ }),
            report matches Some(r) && r@ == ReportView::Fatal(error@),
    {
        self.phase = Phase::Failed(error.kind);
        Some(Report::Fatal(error))
    }

    /// Takes in what happened outside. An event that is not the end of the
    /// outstanding action is dropped and changes nothing. Any other moves the
    /// controller on and is answered with what to report and what to do next.
    pub fn step(&mut self, event: Event) -> (out: Option<Step>)
        ensures
            out.is_some() == old(self)@.accepts(event@),
            final(self)@ == old(self)@.next(event@),
            out is None ==> *final(self) == *old(self),
            out matches Some(step) ==> step@ == old(self)@.answer(event@),
    {
        if !self.accepts(&event) {
            return None;
        }
        let report: Option<Report> = match event {
            Event::PathChecked { exists } => {
                if exists {
                    self.phase = Phase::Initializing(InitStage::Open);
                    None
                } else {
                    let detail = self.dev.clone();
                    self.fail(PollError { kind: ErrorKind::DeviceNotFound, detail })
                }
            },
            Event::Opened(Ok(_)) => {
                self.phase = Phase::Initializing(InitStage::Configure);
                None
            },
            Event::Opened(Err(detail)) => self.fail(
                PollError { kind: ErrorKind::OpenFailed, detail },
            ),
            Event::Configured(Ok(_)) => {
                self.phase = Phase::Ready;
                match self.policy {
                    PollPolicy::SingleShot => None,
                    PollPolicy::Continuous { interval_ms } => Some(Report::Started { interval_ms }),
                }
            },
            Event::Configured(Err(detail)) => self.fail(
                PollError { kind: ErrorKind::ConfigureFailed, detail },
            ),
            Event::ReadDone(answer) => match finish_read(answer) {
                Ok(result) => {
                    let dump = hex_dump(&result.bytes);
                    self.phase = Phase::Reported;
                    Some(Report::Read { count: result.bytes.len(), dump })
                },
                Err(error) => self.fail(error),
            },
            Event::Resumed => {
                self.phase = match (self.phase, self.policy) {
                    (Phase::Reported, PollPolicy::SingleShot) => Phase::Terminated,
                    _ => Phase::Reading,
                };
                None
            },
        };
        let action = self.action();
        Some(Step { report, action })
    }
}

} // verus!
