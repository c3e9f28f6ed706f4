//! The decisions of the synchronisation task.
//!
//! The task itself waits, scans and watches, and so cannot be run from here.
//! What it decides can: [`WatchLoop::step`] takes what has just happened and
//! answers with what to do next. The program performs that and comes back
//! with the result.

use crate::config::{Config, DEBOUNCE_MILLIS, READY_TIMEOUT_SECS};
use crate::event::ChangeKind;
use crate::index::SharedIndex;
use vstd::prelude::*;

verus! {

/// Where the task stands.
#[derive(Clone, Copy, Debug, PartialEq, Eq, Structural)]
pub enum Phase {
    /// Waiting for the serving layer to say that it accepts connections.
    AwaitingReady,
    /// Building the index for the first time.
    InitialBuild,
    /// Setting the watcher up, or waiting for its next notification.
    Watching,
    /// Building the index anew after a change.
    Rebuilding,
    /// Over: the watcher is gone, or the start-up failed.
    Terminated,
}

/// What the program reports back to the task.
#[derive(Clone, Copy, Debug, PartialEq, Eq, Structural)]
pub enum LoopEvent {
    /// The readiness signal arrived in time.
    Ready,
    /// The wait for the readiness signal ended without it.
    ReadyTimedOut,
    /// A build ran to its end and its index was installed.
    BuildSucceeded,
    /// A build failed; the index is what it was.
    BuildFailed,
    /// The watcher stands on the root path.
    WatchStarted,
    /// The watcher could not be set up.
    WatchFailed,
    /// The watcher delivered a notification.
    Change(ChangeKind),
    /// The watcher's channel closed.
    Closed,
}

/// What the task asks the program to do next.
#[derive(Clone, Debug, PartialEq, Eq)]
pub enum Action {
    /// Wait for the readiness signal, `timeout_secs` seconds at most.
    AwaitReady { timeout_secs: u64 },
    /// Build the index from `root` under exclusive access and install it.
    Build { root: String },
    /// Set a watcher on `root`.
    Watch { root: String, recursive: bool, debounce_millis: u64 },
    /// Wait for the watcher's next notification.
    NextEvent,
    /// Leave the loop.
    Stop,
}

/// An [`Action`] as contracts speak of it.
pub ghost enum ActionView {
    AwaitReady { timeout_secs: u64 },
    Build { root: Seq<char> },
    Watch { root: Seq<char>, recursive: bool, debounce_millis: u64 },
    NextEvent,
    Stop,
}

impl View for Action {
    type V = ActionView;

    open spec fn view(&self) -> ActionView {
        match *self {
            Action::AwaitReady { timeout_secs } => ActionView::AwaitReady { timeout_secs },
            Action::Build { root } => ActionView::Build { root: root@ },
            Action::Watch { root, recursive, debounce_millis } => ActionView::Watch {
                root: root@,
                recursive,
                debounce_millis,
            },
            Action::NextEvent => ActionView::NextEvent,
            Action::Stop => ActionView::Stop,
        }
    }
}

/// Why the task gives no action.
#[derive(Clone, Copy, Debug, PartialEq, Eq, Structural)]
pub enum LoopError {
    /// The readiness signal did not come in time: the start-up is abandoned.
    ReadyTimeout,
    /// The root path could not be watched: the start-up is abandoned.
    WatchSetup,
    /// The event answers nothing that the task asked for; the task is where
    /// it was.
    UnexpectedEvent,
}

/// A [`WatchLoop`] as contracts speak of it.
pub ghost struct LoopState {
    /// The directory that is built from and watched.
    pub root: Seq<char>,
    pub phase: Phase,
    /// Whether the watcher stands.
    pub watcher_up: bool,
}

impl LoopState {
    /// The state that a task for `root` starts in.
    pub open spec fn initial(root: Seq<char>) -> LoopState {
        LoopState { root, phase: Phase::AwaitingReady, watcher_up: false }
    }

    /// No watcher stands before the first build is over, and none is missing
    /// during a rebuild.
    pub open spec fn wf(self) -> bool {
        &&& self.phase is AwaitingReady || self.phase is InitialBuild ==> !self.watcher_up
        &&& self.phase is Rebuilding ==> self.watcher_up
    }

    /// Whether `event` answers what the task asked for last.
    pub open spec fn accepts(self, event: LoopEvent) -> bool {
        match self.phase {
            Phase::AwaitingReady => event is Ready || event is ReadyTimedOut,
            Phase::InitialBuild | Phase::Rebuilding => event is BuildSucceeded
                || event is BuildFailed,
            Phase::Watching => if self.watcher_up {
                event is Change || event is Closed
            } else {
                event is WatchStarted || event is WatchFailed
            },
            Phase::Terminated => false,
        }
    }

    /// The phase that follows an accepted `event`.
    pub open spec fn next_phase(self, event: LoopEvent) -> Phase {
        match event {
            LoopEvent::Ready => Phase::InitialBuild,
            LoopEvent::BuildSucceeded | LoopEvent::BuildFailed | LoopEvent::WatchStarted =>
                Phase::Watching,
            LoopEvent::Change(kind) => if kind.triggers_rebuild() {
                Phase::Rebuilding
            } else {
                Phase::Watching
            },
            LoopEvent::ReadyTimedOut | LoopEvent::WatchFailed | LoopEvent::Closed =>
                Phase::Terminated,
        }
    }

    /// The state after `event`: an event that is not accepted changes
    /// nothing.
    pub open spec fn after(self, event: LoopEvent) -> LoopState {
        if self.accepts(event) {
            LoopState {
                root: self.root,
                phase: self.next_phase(event),
                watcher_up: self.watcher_up || event is WatchStarted,
            }
        } else {
            self
        }
    }

    /// The build that the task asks for.
    pub open spec fn build(self) -> ActionView {
        ActionView::Build { root: self.root }
    }

    /// The watcher that the task asks for: on the root path, recursive, with
    /// the fixed quiet period.
    pub open spec fn watch(self) -> ActionView {
        ActionView::Watch { root: self.root, recursive: true, debounce_millis: DEBOUNCE_MILLIS }
    }

    /// The answer to `event`.
    pub open spec fn response(self, event: LoopEvent) -> Result<ActionView, LoopError> {
        if !self.accepts(event) {
            Err(LoopError::UnexpectedEvent)
        } else {
            match event {
                LoopEvent::Ready => Ok(self.build()),
                LoopEvent::ReadyTimedOut => Err(LoopError::ReadyTimeout),
                LoopEvent::BuildSucceeded | LoopEvent::BuildFailed => if self.phase
                    is InitialBuild {
                    Ok(self.watch())
                } else {
                    Ok(ActionView::NextEvent)
                },
                LoopEvent::WatchStarted => Ok(ActionView::NextEvent),
                LoopEvent::WatchFailed => Err(LoopError::WatchSetup),
                LoopEvent::Change(kind) => if kind.triggers_rebuild() {
                    Ok(self.build())
                } else {
                    Ok(ActionView::NextEvent)
                },
                LoopEvent::Closed => Ok(ActionView::Stop),
            }
        }
    }
}

/// The answer of [`WatchLoop::step`] as contracts speak of it.
pub open spec fn response_view(response: Result<Action, LoopError>) -> Result<
    ActionView,
    LoopError,
> {
    match response {
        Ok(action) => Ok(action@),
        Err(error) => Err(error),
    }
}

/// The event that reports a build with the outcome `outcome`.
pub open spec fn build_event<T, E>(outcome: Result<T, E>) -> LoopEvent {
    match outcome {
        Ok(_) => LoopEvent::BuildSucceeded,
        Err(_) => LoopEvent::BuildFailed,
    }
}

/// The error that a build with the outcome `outcome` leaves to be logged.
pub open spec fn build_error<T, E>(outcome: Result<T, E>) -> Option<E> {
    match outcome {
        Ok(_) => None,
        Err(error) => Some(error),
    }
}

/// The synchronisation task, reduced to its decisions.
#[derive(Debug)]
pub struct WatchLoop {
    root: String,
    phase: Phase,
    watcher_up: bool,
}

impl View for WatchLoop {
    type V = LoopState;

    closed spec fn view(&self) -> LoopState {
        LoopState { root: self.root@, phase: self.phase, watcher_up: self.watcher_up }
    }
}

impl WatchLoop {
    #[verifier::type_invariant]
    spec fn well_formed(self) -> bool {
        self@.wf()
    }

    /// A task for the root path of `config`, and its first request: to wait
    /// for the readiness signal. No build is asked for before that wait has
    /// been answered.
    pub fn start(config: &Config) -> (started: (Self, Action))
        ensures
            started.0@ == LoopState::initial(config@.news_root),
            started.1@ == (ActionView::AwaitReady { timeout_secs: READY_TIMEOUT_SECS }),
    {
        let task = WatchLoop {
            root: config.news_root().to_owned(),
            phase: Phase::AwaitingReady,
            watcher_up: false,
        };
        (task, Action::AwaitReady { timeout_secs: READY_TIMEOUT_SECS })
    }

    /// Takes what has just happened and answers with what to do next.
    ///
    /// `ReadyTimeout` and `WatchSetup` end the task for good. An event that
    /// answers nothing the task asked for is refused, and the task stays
    /// where it was.
    pub fn step(&mut self, event: LoopEvent) -> (response: Result<Action, LoopError>)
        ensures
            final(self)@.wf(),
            final(self)@ == old(self)@.after(event),
            response_view(response) == old(self)@.response(event),
    {
        proof {
            use_type_invariant(&*self);
        }
        match self.phase {
            Phase::AwaitingReady => match event {
                LoopEvent::Ready => {
                    self.phase = Phase::InitialBuild;
                    Ok(Action::Build { root: self.root.clone() })
                },
                LoopEvent::ReadyTimedOut => {
                    self.phase = Phase::Terminated;
                    Err(LoopError::ReadyTimeout)
                },
                _ => Err(LoopError::UnexpectedEvent),
            },
            Phase::InitialBuild => match event {
                LoopEvent::BuildSucceeded | LoopEvent::BuildFailed => {
                    self.phase = Phase::Watching;
                    Ok(
                        Action::Watch {
                            root: self.root.clone(),
                            recursive: true,
                            debounce_millis: DEBOUNCE_MILLIS,
                        },
                    )
                },
                _ => Err(LoopError::UnexpectedEvent),
            },
            Phase::Watching => if self.watcher_up {
                match event {
                    LoopEvent::Change(kind) => {
                        if kind.is_rebuild_trigger() {
                            self.phase = Phase::Rebuilding;
                            Ok(Action::Build { root: self.root.clone() })
                        } else {
                            Ok(Action::NextEvent)
                        }
                    },
                    LoopEvent::Closed => {
                        self.phase = Phase::Terminated;
                        Ok(Action::Stop)
                    },
                    _ => Err(LoopError::UnexpectedEvent),
                }
            } else {
                match event {
                    LoopEvent::WatchStarted => {
                        self.watcher_up = true;
                        Ok(Action::NextEvent)
                    },
                    LoopEvent::WatchFailed => {
                        self.phase = Phase::Terminated;
                        Err(LoopError::WatchSetup)
                    },
                    _ => Err(LoopError::UnexpectedEvent),
                }
            },
            Phase::Rebuilding => match event {
                LoopEvent::BuildSucceeded | LoopEvent::BuildFailed => {
                    self.phase = Phase::Watching;
                    Ok(Action::NextEvent)
                },
                _ => Err(LoopError::UnexpectedEvent),
            },
            Phase::Terminated => Err(LoopError::UnexpectedEvent),
        }
    }

    /// Carries out the build that the task has asked for, and takes the step
    /// that follows it.
    ///
    /// In `InitialBuild` and in `Rebuilding` the index behind `index` is
    /// rebuilt from the task's root path with `build`, and the task goes on
    /// to watching whether or not the build succeeded; the error of a failed
    /// build comes back to be logged. In any other phase no build is due:
    /// `build` is not run and the task stays where it was.
    pub fn run_build<T, E, F: FnOnce(&str) -> Result<T, E>>(
        &mut self,
        index: &SharedIndex<T>,
        build: F,
    ) -> (done: (Result<Action, LoopError>, Option<E>))
        requires
            forall|root: &str| root@ == old(self)@.root ==> build.requires((root,)),
            forall|root: &str, fresh: T|
                root@ == old(self)@.root && build.ensures((root,), Ok(fresh)) ==> index.allows(
                    fresh,
                ),
        ensures
            final(self)@.wf(),
            old(self)@.phase is InitialBuild || old(self)@.phase is Rebuilding ==> exists|
                root: &str,
                outcome: Result<T, E>,
            |
                {
                    &&& root@ == old(self)@.root
                    &&& build.ensures((root,), outcome)
                    &&& done.1 == build_error(outcome)
                    &&& final(self)@ == old(self)@.after(build_event(outcome))
                    &&& response_view(done.0) == old(self)@.response(build_event(outcome))
                },
            !(old(self)@.phase is InitialBuild || old(self)@.phase is Rebuilding) ==> {
                &&& final(self)@ == old(self)@
                &&& done.0 == Err::<Action, LoopError>(LoopError::UnexpectedEvent)
                &&& done.1 is None
            },
    {
        proof {
            use_type_invariant(&*self);
        }
        match self.phase {
            Phase::InitialBuild | Phase::Rebuilding => {
                let report = index.rebuild_with(self.root.as_str(), build);
                match report {
                    Ok(()) => (self.step(LoopEvent::BuildSucceeded), None),
                    Err(error) => (self.step(LoopEvent::BuildFailed), Some(error)),
                }
            },
            _ => (Err(LoopError::UnexpectedEvent), None),
        }
    }

    /// Where the task stands.
    pub fn phase(&self) -> (phase: Phase)
        ensures
            phase == self@.phase,
    {
        self.phase
    }

    /// The directory that the task builds from and watches.
    pub fn root(&self) -> (root: &str)
        ensures
            root@ == self@.root,
    {
        self.root.as_str()
    }

    /// Whether the watcher stands.
    pub fn watcher_established(&self) -> (up: bool)
        ensures
            up == self@.watcher_up,
    {
        self.watcher_up
    }
}

} // verus!
