use spi_poll::args::Args;
use spi_poll::controller::{Action, Controller, Event, Phase, Report, Step};
use spi_poll::error::{ErrorKind, PollError};
use spi_poll::session::Transfer;

fn fresh(once: bool, read_interval: u64, buffer_size: usize) -> Controller {
    let args = Args { dev: String::from("/dev/spidev1.0"), once, read_interval, buffer_size };
    Controller::start(args).0
}

fn filled(bytes: &[u8]) -> Event {
    Event::ReadDone(Ok(Transfer { buffer: bytes.to_vec(), count: bytes.len() }))
}

fn set_up_events() -> Vec<Event> {
    vec![
        Event::PathChecked { exists: true },
        Event::Opened(Ok(())),
        Event::Configured(Ok(())),
        Event::Resumed,
    ]
}

fn actions_of(steps: &[Step]) -> Vec<Action> {
    steps.iter().map(|step| step.action.clone()).collect()
}

fn reports_of(steps: &[Step]) -> Vec<Report> {
    steps.iter().filter_map(|step| step.report.clone()).collect()
}

#[test]
fn replay_of_nothing_changes_nothing() {
    let mut controller = fresh(true, 500, 2);
    let before = controller.clone();
    assert_eq!(controller.replay(vec![]), vec![]);
    assert_eq!(controller, before);
}

#[test]
fn replay_of_a_single_shot_run() {
    let mut controller = fresh(true, 500, 2);
    let mut events = set_up_events();
    events.push(filled(&[0xCA, 0xFE]));
    events.push(Event::Resumed);
    let steps = controller.replay(events);
    assert_eq!(
        actions_of(&steps),
        vec![
            Action::Open(String::from("/dev/spidev1.0")),
            Action::Configure(spi_poll::session::BusMode::session()),
            Action::Proceed,
            Action::Read(vec![0, 1]),
            Action::Proceed,
            Action::Exit(0),
        ]
    );
    assert_eq!(
        reports_of(&steps),
        vec![Report::Read { count: 2, dump: String::from("[CA, FE]") }]
    );
    assert_eq!(controller.phase, Phase::Terminated);
}

#[test]
fn replay_equals_step_by_step() {
    let script = || {
        let mut events = set_up_events();
        events.push(filled(&[1, 2, 3]));
        events.push(Event::Resumed);
        events.push(Event::ReadDone(Err(String::from("EIO"))));
        events
    };
    let mut replayed = fresh(false, 10, 3);
    let steps = replayed.replay(script());
    let mut stepped = fresh(false, 10, 3);
    let mut one_by_one = vec![];
    for event in script() {
        one_by_one.extend(stepped.step(event));
    }
    assert_eq!(steps, one_by_one);
    assert_eq!(replayed, stepped);
    assert_eq!(replayed.phase, Phase::Failed(ErrorKind::ReadFailed));
}

#[test]
fn replay_drops_events_that_answer_nothing() {
    let mut controller = fresh(true, 500, 1);
    let steps = controller.replay(vec![
        Event::Resumed,
        Event::PathChecked { exists: true },
        Event::PathChecked { exists: true },
        Event::Configured(Ok(())),
        Event::Opened(Ok(())),
        Event::Opened(Ok(())),
    ]);
    assert_eq!(
        actions_of(&steps),
        vec![
            Action::Open(String::from("/dev/spidev1.0")),
            Action::Configure(spi_poll::session::BusMode::session()),
        ]
    );
    assert_eq!(controller.phase, Phase::Initializing(spi_poll::controller::InitStage::Configure));
}

#[test]
fn replay_asks_for_nothing_once_the_run_is_over() {
    let mut controller = fresh(false, 500, 1);
    let mut events = vec![Event::PathChecked { exists: false }];
    events.extend(set_up_events());
    events.push(filled(&[7]));
    events.push(Event::Resumed);
    let steps = controller.replay(events);
    assert_eq!(
        steps,
        vec![Step {
            report: Some(Report::Fatal(PollError {
                kind: ErrorKind::DeviceNotFound,
                detail: String::from("/dev/spidev1.0"),
            })),
            action: Action::Exit(10),
        }]
    );
    assert_eq!(controller.phase, Phase::Failed(ErrorKind::DeviceNotFound));
}

#[test]
fn replay_of_a_continuous_run_reads_after_every_pause() {
    let mut controller = fresh(false, 25, 2);
    let mut events = set_up_events();
    for round in 0u8..4 {
        events.push(filled(&[round, round]));
        events.push(Event::Resumed);
    }
    let steps = controller.replay(events);
    let actions = actions_of(&steps);
    let polling = &actions[3..];
    assert_eq!(polling.len(), 9);
    for (k, action) in polling.iter().enumerate() {
        if k % 2 == 0 {
            assert_eq!(*action, Action::Read(vec![0, 1]));
        } else {
            assert_eq!(*action, Action::Sleep(25));
        }
    }
    assert_eq!(
        reports_of(&steps),
        vec![
            Report::Started { interval_ms: 25 },
            Report::Read { count: 2, dump: String::from("[00, 00]") },
            Report::Read { count: 2, dump: String::from("[01, 01]") },
            Report::Read { count: 2, dump: String::from("[02, 02]") },
            Report::Read { count: 2, dump: String::from("[03, 03]") },
        ]
    );
    assert_eq!(controller.phase, Phase::Reading);
    assert!(!controller.is_over());
}

#[test]
fn single_shot_run_never_reads_twice() {
    let mut controller = fresh(true, 500, 1);
    let mut events = set_up_events();
    for _ in 0..5 {
        events.push(filled(&[9]));
        events.push(Event::Resumed);
    }
    let steps = controller.replay(events);
    let reads = steps.iter().filter(|step| matches!(step.action, Action::Read(_))).count();
    assert_eq!(reads, 1);
    assert_eq!(steps.last().map(|step| step.action.clone()), Some(Action::Exit(0)));
    assert_eq!(controller.phase, Phase::Terminated);
}

#[test]
fn failed_configure_leaves_four_actions() {
    let mut controller = fresh(false, 500, 8);
    let first = controller.action();
    let steps = controller.replay(vec![
        Event::PathChecked { exists: true },
        Event::Opened(Ok(())),
        Event::Configured(Err(String::from("Inappropriate ioctl for device"))),
        Event::Resumed,
        filled(&[0; 8]),
        Event::Resumed,
    ]);
    let mut actions = vec![first];
    actions.extend(actions_of(&steps));
    assert_eq!(
        actions,
        vec![
            Action::CheckPath(String::from("/dev/spidev1.0")),
            Action::Open(String::from("/dev/spidev1.0")),
            Action::Configure(spi_poll::session::BusMode::session()),
            Action::Exit(12),
        ]
    );
    assert_eq!(
        reports_of(&steps),
        vec![Report::Fatal(PollError {
            kind: ErrorKind::ConfigureFailed,
            detail: String::from("Inappropriate ioctl for device"),
        })]
    );
}
