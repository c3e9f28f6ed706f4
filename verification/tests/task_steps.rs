use news_sync::config::{Config, DEBOUNCE_MILLIS, READY_TIMEOUT_SECS};
use news_sync::event::ChangeKind;
use news_sync::watch_loop::{Action, LoopError, LoopEvent, Phase, WatchLoop};

fn config() -> Config {
    Config::new(String::from("/srv/news"), 8000)
}

fn build() -> Action {
    Action::Build { root: String::from("/srv/news") }
}

fn watch() -> Action {
    Action::Watch { root: String::from("/srv/news"), recursive: true, debounce_millis: 200 }
}

/// A task that has had its first build and whose watcher stands.
fn watching() -> WatchLoop {
    let (mut task, _) = WatchLoop::start(&config());
    assert_eq!(task.step(LoopEvent::Ready), Ok(build()));
    assert_eq!(task.step(LoopEvent::BuildSucceeded), Ok(watch()));
    assert_eq!(task.step(LoopEvent::WatchStarted), Ok(Action::NextEvent));
    task
}

const ALL_EVENTS: [LoopEvent; 16] = [
    LoopEvent::Ready,
    LoopEvent::ReadyTimedOut,
    LoopEvent::BuildSucceeded,
    LoopEvent::BuildFailed,
    LoopEvent::WatchStarted,
    LoopEvent::WatchFailed,
    LoopEvent::Closed,
    LoopEvent::Change(ChangeKind::NoticeWrite),
    LoopEvent::Change(ChangeKind::NoticeRemove),
    LoopEvent::Change(ChangeKind::Create),
    LoopEvent::Change(ChangeKind::Write),
    LoopEvent::Change(ChangeKind::Chmod),
    LoopEvent::Change(ChangeKind::Remove),
    LoopEvent::Change(ChangeKind::Rename),
    LoopEvent::Change(ChangeKind::Rescan),
    LoopEvent::Change(ChangeKind::Error),
];

#[test]
fn the_reference_timings_are_five_seconds_and_two_hundred_millis() {
    assert_eq!(READY_TIMEOUT_SECS, 5);
    assert_eq!(DEBOUNCE_MILLIS, 200);
}

#[test]
fn a_new_task_waits_for_the_readiness_signal() {
    let (task, first) = WatchLoop::start(&config());
    assert_eq!(first, Action::AwaitReady { timeout_secs: 5 });
    assert_eq!(task.phase(), Phase::AwaitingReady);
    assert_eq!(task.root(), "/srv/news");
    assert!(!task.watcher_established());
}

#[test]
fn the_signal_starts_the_first_build_from_the_configured_root() {
    let (mut task, _) = WatchLoop::start(&config());
    assert_eq!(task.step(LoopEvent::Ready), Ok(build()));
    assert_eq!(task.phase(), Phase::InitialBuild);
}

#[test]
fn nothing_but_the_signal_starts_the_first_build() {
    for event in ALL_EVENTS {
        let (mut task, _) = WatchLoop::start(&config());
        let response = task.step(event);
        if event == LoopEvent::Ready {
            assert_eq!(response, Ok(build()));
        } else {
            assert!(!matches!(response, Ok(Action::Build { .. })));
            assert!(task.phase() == Phase::AwaitingReady || task.phase() == Phase::Terminated);
        }
    }
}

#[test]
fn a_signal_sent_after_six_seconds_misses_the_five_second_wait() {
    let (mut task, first) = WatchLoop::start(&config());
    let waited = match first {
        Action::AwaitReady { timeout_secs } => timeout_secs,
        other => panic!("the task asked for {:?}", other),
    };
    assert!(waited < 6);
    // The wait ends first, so that is what the task hears of.
    assert_eq!(task.step(LoopEvent::ReadyTimedOut), Err(LoopError::ReadyTimeout));
    assert_eq!(task.phase(), Phase::Terminated);
    // The signal itself comes too late to start anything.
    assert_eq!(task.step(LoopEvent::Ready), Err(LoopError::UnexpectedEvent));
    assert_eq!(task.phase(), Phase::Terminated);
}

#[test]
fn a_failed_first_build_is_not_fatal() {
    let (mut task, _) = WatchLoop::start(&config());
    assert_eq!(task.step(LoopEvent::Ready), Ok(build()));
    assert_eq!(task.step(LoopEvent::BuildFailed), Ok(watch()));
    assert_eq!(task.phase(), Phase::Watching);
    assert!(!task.watcher_established());
}

#[test]
fn the_watcher_is_asked_for_recursively_with_the_fixed_quiet_period() {
    let (mut task, _) = WatchLoop::start(&config());
    assert_eq!(task.step(LoopEvent::Ready), Ok(build()));
    assert_eq!(
        task.step(LoopEvent::BuildSucceeded),
        Ok(Action::Watch {
            root: String::from("/srv/news"),
            recursive: true,
            debounce_millis: DEBOUNCE_MILLIS,
        })
    );
}

#[test]
fn an_unwatchable_root_aborts_the_startup() {
    let (mut task, _) = WatchLoop::start(&Config::new(String::from("/srv/deleted"), 8000));
    assert_eq!(task.step(LoopEvent::Ready), Ok(Action::Build { root: String::from("/srv/deleted") }));
    assert_eq!(
        task.step(LoopEvent::BuildFailed),
        Ok(Action::Watch {
            root: String::from("/srv/deleted"),
            recursive: true,
            debounce_millis: 200,
        })
    );
    assert_eq!(task.step(LoopEvent::WatchFailed), Err(LoopError::WatchSetup));
    assert_eq!(task.phase(), Phase::Terminated);
    for event in ALL_EVENTS {
        assert_eq!(task.step(event), Err(LoopError::UnexpectedEvent));
        assert_eq!(task.phase(), Phase::Terminated);
    }
}

#[test]
fn a_standing_watcher_is_waited_on() {
    let (mut task, _) = WatchLoop::start(&config());
    assert_eq!(task.step(LoopEvent::Ready), Ok(build()));
    assert_eq!(task.step(LoopEvent::BuildSucceeded), Ok(watch()));
    assert_eq!(task.step(LoopEvent::WatchStarted), Ok(Action::NextEvent));
    assert_eq!(task.phase(), Phase::Watching);
    assert!(task.watcher_established());
}

#[test]
fn a_creation_triggers_a_rebuild() {
    let mut task = watching();
    assert_eq!(task.step(LoopEvent::Change(ChangeKind::Create)), Ok(build()));
    assert_eq!(task.phase(), Phase::Rebuilding);
}

#[test]
fn a_write_triggers_a_rebuild() {
    let mut task = watching();
    assert_eq!(task.step(LoopEvent::Change(ChangeKind::Write)), Ok(build()));
    assert_eq!(task.phase(), Phase::Rebuilding);
}

#[test]
fn other_notifications_trigger_nothing() {
    let others = [
        ChangeKind::NoticeWrite,
        ChangeKind::NoticeRemove,
        ChangeKind::Chmod,
        ChangeKind::Remove,
        ChangeKind::Rename,
        ChangeKind::Rescan,
        ChangeKind::Error,
    ];
    let mut task = watching();
    for kind in others {
        assert_eq!(task.step(LoopEvent::Change(kind)), Ok(Action::NextEvent));
        assert_eq!(task.phase(), Phase::Watching);
    }
}

#[test]
fn a_successful_rebuild_goes_back_to_watching() {
    let mut task = watching();
    assert_eq!(task.step(LoopEvent::Change(ChangeKind::Write)), Ok(build()));
    assert_eq!(task.step(LoopEvent::BuildSucceeded), Ok(Action::NextEvent));
    assert_eq!(task.phase(), Phase::Watching);
    assert!(task.watcher_established());
}

#[test]
fn a_failed_rebuild_goes_back_to_watching() {
    let mut task = watching();
    assert_eq!(task.step(LoopEvent::Change(ChangeKind::Create)), Ok(build()));
    assert_eq!(task.step(LoopEvent::BuildFailed), Ok(Action::NextEvent));
    assert_eq!(task.phase(), Phase::Watching);
    // The task keeps serving notifications.
    assert_eq!(task.step(LoopEvent::Change(ChangeKind::Write)), Ok(build()));
}

#[test]
fn a_closed_channel_ends_the_task() {
    let mut task = watching();
    assert_eq!(task.step(LoopEvent::Closed), Ok(Action::Stop));
    assert_eq!(task.phase(), Phase::Terminated);
    for event in ALL_EVENTS {
        assert_eq!(task.step(event), Err(LoopError::UnexpectedEvent));
        assert_eq!(task.phase(), Phase::Terminated);
    }
}

#[test]
fn a_watcher_is_set_up_once() {
    let mut task = watching();
    assert_eq!(task.step(LoopEvent::WatchStarted), Err(LoopError::UnexpectedEvent));
    assert_eq!(task.step(LoopEvent::WatchFailed), Err(LoopError::UnexpectedEvent));
    assert_eq!(task.phase(), Phase::Watching);
    assert!(task.watcher_established());
}

#[test]
fn notifications_wait_for_the_watcher() {
    let (mut task, _) = WatchLoop::start(&config());
    assert_eq!(task.step(LoopEvent::Ready), Ok(build()));
    assert_eq!(task.step(LoopEvent::BuildSucceeded), Ok(watch()));
    assert_eq!(task.step(LoopEvent::Change(ChangeKind::Create)), Err(LoopError::UnexpectedEvent));
    assert_eq!(task.step(LoopEvent::Closed), Err(LoopError::UnexpectedEvent));
    assert_eq!(task.phase(), Phase::Watching);
    assert!(!task.watcher_established());
}

#[test]
fn a_build_in_progress_takes_only_its_outcome() {
    let mut task = watching();
    assert_eq!(task.step(LoopEvent::Change(ChangeKind::Create)), Ok(build()));
    for event in ALL_EVENTS {
        if event != LoopEvent::BuildSucceeded && event != LoopEvent::BuildFailed {
            assert_eq!(task.step(event), Err(LoopError::UnexpectedEvent));
            assert_eq!(task.phase(), Phase::Rebuilding);
        }
    }
    let (mut task, _) = WatchLoop::start(&config());
    assert_eq!(task.step(LoopEvent::Ready), Ok(build()));
    for event in ALL_EVENTS {
        if event != LoopEvent::BuildSucceeded && event != LoopEvent::BuildFailed {
            assert_eq!(task.step(event), Err(LoopError::UnexpectedEvent));
            assert_eq!(task.phase(), Phase::InitialBuild);
        }
    }
}

#[test]
fn the_signal_is_taken_once() {
    let (mut task, _) = WatchLoop::start(&config());
    assert_eq!(task.step(LoopEvent::Ready), Ok(build()));
    assert_eq!(task.step(LoopEvent::Ready), Err(LoopError::UnexpectedEvent));
    assert_eq!(task.step(LoopEvent::ReadyTimedOut), Err(LoopError::UnexpectedEvent));
    assert_eq!(task.phase(), Phase::InitialBuild);
    let mut task = watching();
    for event in ALL_EVENTS {
        assert!(!matches!(task.step(event), Ok(Action::AwaitReady { .. })));
        assert_ne!(task.phase(), Phase::AwaitingReady);
    }
}

#[test]
fn each_delivered_notification_gets_a_rebuild_of_its_own() {
    // What the watcher made of two bursts: one notification each.
    let delivered = [
        LoopEvent::Change(ChangeKind::NoticeWrite),
        LoopEvent::Change(ChangeKind::Write),
        LoopEvent::Change(ChangeKind::Chmod),
        LoopEvent::Change(ChangeKind::Create),
        LoopEvent::Change(ChangeKind::Remove),
    ];
    let mut task = watching();
    let mut builds = 0;
    for event in delivered {
        let response = task.step(event);
        if response == Ok(build()) {
            builds += 1;
            assert_eq!(task.step(LoopEvent::BuildSucceeded), Ok(Action::NextEvent));
        } else {
            assert_eq!(response, Ok(Action::NextEvent));
        }
    }
    assert_eq!(builds, 2);
}

#[test]
fn a_run_asks_for_no_more_builds_than_signals_and_triggers() {
    let run = [
        LoopEvent::Change(ChangeKind::Create),
        LoopEvent::Ready,
        LoopEvent::Change(ChangeKind::Write),
        LoopEvent::BuildFailed,
        LoopEvent::WatchStarted,
        LoopEvent::Change(ChangeKind::Create),
        LoopEvent::Change(ChangeKind::Write),
        LoopEvent::Ready,
        LoopEvent::BuildSucceeded,
        LoopEvent::Change(ChangeKind::Rename),
        LoopEvent::Closed,
        LoopEvent::Change(ChangeKind::Create),
    ];
    let (mut task, _) = WatchLoop::start(&config());
    let mut builds = 0;
    let mut refused = 0;
    for event in run {
        match task.step(event) {
            Ok(Action::Build { root }) => {
                assert_eq!(root, "/srv/news");
                builds += 1;
            }
            Err(LoopError::UnexpectedEvent) => refused += 1,
            _ => {}
        }
    }
    // Two signals and five triggers were reported; one signal and one
    // trigger came in turn.
    assert_eq!(builds, 2);
    assert_eq!(refused, 5);
    assert_eq!(task.phase(), Phase::Terminated);
}
