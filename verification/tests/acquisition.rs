use iphlpapi::abi::{OsError, ERROR_BUFFER_OVERFLOW, ERROR_SUCCESS};
use iphlpapi::acquisition::{outcome, start, step, Action, Event, Outcome, Phase};
use iphlpapi::IpAdapterInfoList;

fn run(events: &[Event]) -> (Phase, Vec<Action>) {
    let (mut phase, first) = start();
    let mut actions = vec![first];
    for event in events {
        let (next, action) = step(phase, *event);
        phase = next;
        actions.push(action);
    }
    (phase, actions)
}

fn releases(actions: &[Action]) -> usize {
    actions.iter().filter(|a| **a == Action::Release).count()
}

#[test]
fn an_acquisition_starts_with_the_probe() {
    assert_eq!(start(), (Phase::Probing, Action::Probe));
    assert_eq!(outcome(Phase::Probing), None);
}

#[test]
fn no_adapters_is_an_empty_table_and_no_error() {
    let (phase, action) = step(
        Phase::Probing,
        Event::ProbeReturned { status: ERROR_SUCCESS, size: 0 },
    );
    assert_eq!(phase, Phase::Empty);
    assert_eq!(action, Action::Nothing);
    assert_eq!(outcome(phase), Some(Ok(Outcome::Empty)));

    let table = IpAdapterInfoList::empty();
    assert!(table.is_empty());
    assert!(table.iter().next().is_none());
}

#[test]
fn a_probe_that_needs_room_asks_the_heap_for_exactly_that_size() {
    let (phase, action) = step(
        Phase::Probing,
        Event::ProbeReturned { status: ERROR_BUFFER_OVERFLOW, size: 1280 },
    );
    assert_eq!(phase, Phase::Allocating { size: 1280 });
    assert_eq!(action, Action::Allocate { size: 1280 });
    assert_eq!(outcome(phase), None);
}

#[test]
fn a_probe_that_fails_is_a_failure_with_its_status() {
    let (phase, action) = step(Phase::Probing, Event::ProbeReturned { status: 50, size: 0 });
    assert_eq!(phase, Phase::Failed { status: 50 });
    assert_eq!(action, Action::Nothing);
    assert_eq!(outcome(phase), Some(Err(OsError { status: 50 })));
}

#[test]
fn the_block_is_filled_with_the_size_that_was_probed() {
    let (phase, action) = step(Phase::Allocating { size: 640 }, Event::Allocated);
    assert_eq!(phase, Phase::Filling { size: 640 });
    assert_eq!(action, Action::Fill { size: 640 });
}

#[test]
fn running_out_of_memory_is_fatal() {
    let (phase, action) = step(Phase::Allocating { size: 640 }, Event::AllocationFailed);
    assert_eq!(phase, Phase::OutOfMemory);
    assert_eq!(action, Action::Abort);
    assert_eq!(outcome(phase), None);
}

#[test]
fn a_fill_that_succeeds_hands_over_the_table() {
    let (phase, action) = step(
        Phase::Filling { size: 640 },
        Event::FillReturned { status: ERROR_SUCCESS },
    );
    assert_eq!(phase, Phase::Holding);
    assert_eq!(action, Action::Nothing);
    assert_eq!(outcome(phase), Some(Ok(Outcome::Table)));
}

#[test]
fn a_fill_that_fails_gives_the_block_back_before_the_failure() {
    let (phase, action) = step(Phase::Filling { size: 640 }, Event::FillReturned { status: 87 });
    assert_eq!(phase, Phase::Failed { status: 87 });
    assert_eq!(action, Action::Release);
    assert_eq!(outcome(phase), Some(Err(OsError { status: 87 })));
}

#[test]
fn a_table_that_grew_between_the_calls_is_a_failure_and_no_retry() {
    let (phase, actions) = run(&[
        Event::ProbeReturned { status: ERROR_BUFFER_OVERFLOW, size: 640 },
        Event::Allocated,
        Event::FillReturned { status: ERROR_BUFFER_OVERFLOW },
    ]);
    assert_eq!(phase, Phase::Failed { status: ERROR_BUFFER_OVERFLOW });
    assert_eq!(
        actions,
        vec![
            Action::Probe,
            Action::Allocate { size: 640 },
            Action::Fill { size: 640 },
            Action::Release,
        ]
    );
    assert_eq!(releases(&actions), 1);
}

#[test]
fn a_held_table_is_released_exactly_once() {
    let (phase, actions) = run(&[
        Event::ProbeReturned { status: ERROR_BUFFER_OVERFLOW, size: 2048 },
        Event::Allocated,
        Event::FillReturned { status: ERROR_SUCCESS },
    ]);
    assert_eq!(phase, Phase::Holding);
    assert_eq!(releases(&actions), 0);

    let (phase, actions) = run(&[
        Event::ProbeReturned { status: ERROR_BUFFER_OVERFLOW, size: 2048 },
        Event::Allocated,
        Event::FillReturned { status: ERROR_SUCCESS },
        Event::Dropped,
        Event::Dropped,
        Event::FillReturned { status: 5 },
    ]);
    assert_eq!(phase, Phase::Released);
    assert_eq!(releases(&actions), 1);
    assert_eq!(outcome(phase), None);
}

#[test]
fn an_empty_table_is_never_released() {
    let (phase, actions) = run(&[
        Event::ProbeReturned { status: ERROR_SUCCESS, size: 0 },
        Event::Dropped,
        Event::Allocated,
        Event::FillReturned { status: 5 },
        Event::Dropped,
    ]);
    assert_eq!(phase, Phase::Empty);
    assert_eq!(releases(&actions), 0);
}

#[test]
fn a_failed_probe_releases_nothing() {
    let (phase, actions) = run(&[
        Event::ProbeReturned { status: 1, size: 77 },
        Event::Dropped,
    ]);
    assert_eq!(phase, Phase::Failed { status: 1 });
    assert_eq!(releases(&actions), 0);
}

#[test]
fn an_event_out_of_place_changes_nothing() {
    assert_eq!(
        step(Phase::Probing, Event::Dropped),
        (Phase::Probing, Action::Nothing)
    );
    assert_eq!(
        step(Phase::Probing, Event::Allocated),
        (Phase::Probing, Action::Nothing)
    );
    assert_eq!(
        step(Phase::Allocating { size: 8 }, Event::FillReturned { status: 0 }),
        (Phase::Allocating { size: 8 }, Action::Nothing)
    );
    assert_eq!(
        step(Phase::Filling { size: 8 }, Event::Dropped),
        (Phase::Filling { size: 8 }, Action::Nothing)
    );
    assert_eq!(
        step(Phase::Holding, Event::ProbeReturned { status: 0, size: 0 }),
        (Phase::Holding, Action::Nothing)
    );
    assert_eq!(
        step(Phase::Released, Event::Dropped),
        (Phase::Released, Action::Nothing)
    );
    assert_eq!(
        step(Phase::Failed { status: 3 }, Event::Dropped),
        (Phase::Failed { status: 3 }, Action::Nothing)
    );
    assert_eq!(
        step(Phase::OutOfMemory, Event::Allocated),
        (Phase::OutOfMemory, Action::Nothing)
    );
}

#[test]
fn no_run_of_events_releases_twice() {
    let alphabet = [
        Event::ProbeReturned { status: ERROR_SUCCESS, size: 0 },
        Event::ProbeReturned { status: ERROR_BUFFER_OVERFLOW, size: 64 },
        Event::ProbeReturned { status: 5, size: 0 },
        Event::Allocated,
        Event::AllocationFailed,
        Event::FillReturned { status: ERROR_SUCCESS },
        Event::FillReturned { status: ERROR_BUFFER_OVERFLOW },
        Event::Dropped,
    ];
    let n = alphabet.len();
    for code in 0..n * n * n * n * n {
        let mut events = Vec::new();
        let mut rest = code;
        for _ in 0..5 {
            events.push(alphabet[rest % n]);
            rest /= n;
        }
        let (phase, actions) = run(&events);
        let released = releases(&actions);
        let taken = actions.iter().filter(|a| matches!(a, Action::Fill { .. })).count();
        assert!(released <= 1);
        match phase {
            Phase::Filling { .. } | Phase::Holding => {
                assert_eq!(taken, 1);
                assert_eq!(released, 0);
            }
            Phase::Probing | Phase::Allocating { .. } => {
                assert_eq!(taken, 0);
                assert_eq!(released, 0);
            }
            Phase::Released => assert_eq!(released, 1),
            Phase::Empty => assert_eq!(released, 0),
            Phase::Failed { .. } | Phase::OutOfMemory => assert_eq!(released, taken),
        }
    }
}
