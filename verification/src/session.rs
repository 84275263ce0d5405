//! The playback of one file: a player process, and beside it an optional
//! visualizer that lives no longer than the player.
//!
//! A session never touches a process. It says which step is due
//! ([`SessionAction`]), the caller carries the step out and reports what
//! happened ([`SessionEvent`]), and the session moves on:
//!
//! ```text
//! Idle -> PrimaryStarted -> CompanionAttempted -> PrimaryAwaited -> Succeeded | Failed
//! ```
//!
//! States are only ever passed in this order, some are skipped: without a
//! visualizer the session goes from `PrimaryStarted` straight to its end, and
//! `PrimaryAwaited` is entered only while a running visualizer is being stopped.

use vstd::prelude::*;
use crate::error::PlaybackError;
use crate::media::{MediaFile, MediaFileView};
use crate::process::{ExitStatus, Invocation, InvocationView};

verus! {

/// How long the player is given to open the audio device before the
/// visualizer is started, in milliseconds. A pause, not a handshake: the
/// player may still not be ready when it has passed.
pub const COMPANION_DELAY_MS: u64 = 500;

/// Where a session stands.
#[derive(Clone, Copy, Debug, PartialEq, Eq, Structural)]
pub enum SessionState {
    /// Nothing has been started.
    Idle,
    /// The player runs; the visualizer has not been tried.
    PrimaryStarted,
    /// The player runs; the visualizer was tried and runs or does not.
    CompanionAttempted { companion_running: bool },
    /// The player ended; the visualizer still runs and is being stopped.
    PrimaryAwaited { primary_ok: bool },
    /// The player ended with success, and no visualizer is left.
    Succeeded,
    /// The session failed, and no visualizer is left.
    Failed(PlaybackError),
}

/// The step that a session asks its caller to carry out.
#[derive(Clone, Copy, Debug, PartialEq, Eq)]
pub enum SessionAction {
    /// Start the player on the session's file.
    LaunchPrimary,
    /// Wait `delay_ms` milliseconds, then start the visualizer.
    LaunchCompanion { delay_ms: u64 },
    /// Block until the player ends, and report its exit status.
    AwaitPrimary,
    /// Kill the visualizer and wait until it is gone; errors are ignored.
    TerminateCompanion,
    /// Nothing is left to do; this is the session's result.
    Finish(Result<(), PlaybackError>),
}

/// What the caller reports after carrying out a step.
#[derive(Clone, Copy, Debug, PartialEq, Eq, Structural)]
pub enum SessionEvent {
    PrimaryLaunched,
    PrimaryLaunchFailed,
    CompanionLaunched,
    CompanionLaunchFailed,
    PrimaryExited(ExitStatus),
    CompanionTerminated,
}

/// The result that the player's exit status stands for.
pub open spec fn verdict(status: ExitStatus) -> Result<(), PlaybackError> {
    if status.succeeded() {
        Ok(())
    } else {
        Err(PlaybackError::Interrupted)
    }
}

/// The terminal state for a player that ended well or badly.
pub open spec fn concluded(primary_ok: bool) -> SessionState {
    if primary_ok {
        SessionState::Succeeded
    } else {
        SessionState::Failed(PlaybackError::Interrupted)
    }
}

impl SessionState {
    /// Terminal states are `Succeeded` and `Failed`.
    pub open spec fn is_terminal(self) -> bool {
        self is Succeeded || self is Failed
    }

    /// The session's result, once it is terminal.
    pub open spec fn outcome(self) -> Option<Result<(), PlaybackError>> {
        match self {
            SessionState::Succeeded => Some(Ok(())),
            SessionState::Failed(e) => Some(Err(e)),
            _ => None,
        }
    }

    /// Whether a visualizer process exists in this state.
    pub open spec fn companion_running(self) -> bool {
        match self {
            SessionState::CompanionAttempted { companion_running } => companion_running,
            SessionState::PrimaryAwaited { .. } => true,
            _ => false,
        }
    }

    /// Position of the state in the order in which states are passed.
    pub open spec fn rank(self) -> nat {
        match self {
            SessionState::Idle => 0,
            SessionState::PrimaryStarted => 1,
            SessionState::CompanionAttempted { .. } => 2,
            SessionState::PrimaryAwaited { .. } => 3,
            SessionState::Succeeded => 4,
            SessionState::Failed(_) => 4,
        }
    }

    /// The step that is due in this state.
    pub open spec fn pending(self, enable_companion: bool) -> SessionAction {
        match self {
            SessionState::Idle => SessionAction::LaunchPrimary,
            SessionState::PrimaryStarted => if enable_companion {
                SessionAction::LaunchCompanion { delay_ms: COMPANION_DELAY_MS }
            } else {
                SessionAction::AwaitPrimary
            },
            SessionState::CompanionAttempted { .. } => SessionAction::AwaitPrimary,
            SessionState::PrimaryAwaited { .. } => SessionAction::TerminateCompanion,
            SessionState::Succeeded => SessionAction::Finish(Ok(())),
            SessionState::Failed(e) => SessionAction::Finish(Err(e)),
        }
    }

    /// Whether `event` reports on the step that is due. Any other event is
    /// ignored.
    pub open spec fn accepts(self, enable_companion: bool, event: SessionEvent) -> bool {
        match self.pending(enable_companion) {
            SessionAction::LaunchPrimary => event is PrimaryLaunched || event is PrimaryLaunchFailed,
            SessionAction::LaunchCompanion { .. } => event is CompanionLaunched
                || event is CompanionLaunchFailed,
            SessionAction::AwaitPrimary => event is PrimaryExited,
            SessionAction::TerminateCompanion => event is CompanionTerminated,
            SessionAction::Finish(_) => false,
        }
    }

    /// The state after `event`.
    ///
    /// * A player that cannot be started ends the session at once.
    /// * A visualizer that cannot be started is no failure: the session goes
    ///   on without one.
    /// * When the player ends, its exit status decides the result; a running
    ///   visualizer is stopped first, whatever the status.
    pub open spec fn after(self, enable_companion: bool, event: SessionEvent) -> SessionState {
        if !self.accepts(enable_companion, event) {
            self
        } else {
            match event {
                SessionEvent::PrimaryLaunched => SessionState::PrimaryStarted,
                SessionEvent::PrimaryLaunchFailed => SessionState::Failed(
                    PlaybackError::PrimaryLaunchFailed,
                ),
                SessionEvent::CompanionLaunched => SessionState::CompanionAttempted {
                    companion_running: true,
                },
                SessionEvent::CompanionLaunchFailed => SessionState::CompanionAttempted {
                    companion_running: false,
                },
                SessionEvent::PrimaryExited(status) => if self.companion_running() {
                    SessionState::PrimaryAwaited { primary_ok: status.succeeded() }
                } else {
                    concluded(status.succeeded())
                },
                SessionEvent::CompanionTerminated => match self {
                    SessionState::PrimaryAwaited { primary_ok } => concluded(primary_ok),
                    _ => self,
                },
            }
        }
    }

    /// Computes the step that is due.
    pub fn pending_action(self, enable_companion: bool) -> (action: SessionAction)
        ensures
            action == self.pending(enable_companion),
    {
        match self {
            SessionState::Idle => SessionAction::LaunchPrimary,
            SessionState::PrimaryStarted => {
                if enable_companion {
                    SessionAction::LaunchCompanion { delay_ms: COMPANION_DELAY_MS }
                } else {
                    SessionAction::AwaitPrimary
                }
            },
            SessionState::CompanionAttempted { .. } => SessionAction::AwaitPrimary,
            SessionState::PrimaryAwaited { .. } => SessionAction::TerminateCompanion,
            SessionState::Succeeded => SessionAction::Finish(Ok(())),
            SessionState::Failed(e) => SessionAction::Finish(Err(e)),
        }
    }

    /// Computes the state after `event`.
    pub fn advance(self, enable_companion: bool, event: SessionEvent) -> (next: SessionState)
        ensures
            next == self.after(enable_companion, event),
    {
        match (self, event) {
            (SessionState::Idle, SessionEvent::PrimaryLaunched) => SessionState::PrimaryStarted,
            (SessionState::Idle, SessionEvent::PrimaryLaunchFailed) => SessionState::Failed(
                PlaybackError::PrimaryLaunchFailed,
            ),
            (SessionState::PrimaryStarted, SessionEvent::CompanionLaunched) => {
                if enable_companion {
                    SessionState::CompanionAttempted { companion_running: true }
                } else {
                    self
                }
            },
            (SessionState::PrimaryStarted, SessionEvent::CompanionLaunchFailed) => {
                if enable_companion {
                    SessionState::CompanionAttempted { companion_running: false }
                } else {
                    self
                }
            },
            (SessionState::PrimaryStarted, SessionEvent::PrimaryExited(status)) => {
                if enable_companion {
                    self
                } else {
                    conclude(status.success())
                }
            },
            (
                SessionState::CompanionAttempted { companion_running },
                SessionEvent::PrimaryExited(status),
            ) => {
                if companion_running {
                    SessionState::PrimaryAwaited { primary_ok: status.success() }
                } else {
                    conclude(status.success())
                }
            },
            (SessionState::PrimaryAwaited { primary_ok }, SessionEvent::CompanionTerminated) => {
                conclude(primary_ok)
            },
            _ => self,
        }
    }
}

/// Computes the terminal state for a player that ended well or badly.
pub fn conclude(primary_ok: bool) -> (state: SessionState)
    ensures
        state == concluded(primary_ok),
{
    if primary_ok {
        SessionState::Succeeded
    } else {
        SessionState::Failed(PlaybackError::Interrupted)
    }
}

/// The player's arguments for the file at `path`: quiet, no video, full
/// volume, and the path last.
pub open spec fn player_args(path: Seq<char>) -> Seq<Seq<char>> {
    seq!["--really-quiet"@, "--no-video"@, "--volume=100"@, path]
}

/// The player's whole command line.
pub open spec fn player_command(path: Seq<char>) -> InvocationView {
    InvocationView { program: "mpv"@, args: player_args(path) }
}

/// The visualizer's command line: it takes no arguments.
pub open spec fn companion_command() -> InvocationView {
    InvocationView { program: "cava"@, args: Seq::<Seq<char>>::empty() }
}

/// Builds the command line that plays the file at `path`.
pub fn player_invocation(path: &str) -> (invocation: Invocation)
    ensures
        invocation@ == player_command(path@),
{
    let mut args: Vec<String> = Vec::new();
    args.push("--really-quiet".to_owned());
    args.push("--no-video".to_owned());
    args.push("--volume=100".to_owned());
    args.push(path.to_owned());
    assert(args.deep_view() =~= player_args(path@));
    Invocation { program: "mpv".to_owned(), args }
}

/// Builds the command line that starts the visualizer.
pub fn companion_invocation() -> (invocation: Invocation)
    ensures
        invocation@ == companion_command(),
{
    let args: Vec<String> = Vec::new();
    assert(args.deep_view() =~= Seq::<Seq<char>>::empty());
    Invocation { program: "cava".to_owned(), args }
}

/// The state of a fresh session after `events`, each applied in turn.
pub open spec fn trace_state(enable_companion: bool, events: Seq<SessionEvent>) -> SessionState
    decreases events.len(),
{
    if events.len() == 0 {
        SessionState::Idle
    } else {
        trace_state(enable_companion, events.drop_last()).after(enable_companion, events.last())
    }
}

/// Whether a visualizer process is alive after `events`: one was reported
/// started when its start was due, and has not been reported stopped since.
pub open spec fn companion_alive(enable_companion: bool, events: Seq<SessionEvent>) -> bool
    decreases events.len(),
{
    if events.len() == 0 {
        false
    } else {
        let before = trace_state(enable_companion, events.drop_last());
        let event = events.last();
        if before.accepts(enable_companion, event) && event is CompanionLaunched {
            true
        } else if before.accepts(enable_companion, event) && event is CompanionTerminated {
            false
        } else {
            companion_alive(enable_companion, events.drop_last())
        }
    }
}

/// The exit status of the player in `events`, if the player was waited for and
/// its end reported.
pub open spec fn primary_exit(enable_companion: bool, events: Seq<SessionEvent>) -> Option<
    ExitStatus,
>
    decreases events.len(),
{
    if events.len() == 0 {
        None
    } else {
        let before = trace_state(enable_companion, events.drop_last());
        match events.last() {
            SessionEvent::PrimaryExited(status) => if before.accepts(
                enable_companion,
                events.last(),
            ) {
                Some(status)
            } else {
                primary_exit(enable_companion, events.drop_last())
            },
            _ => primary_exit(enable_companion, events.drop_last()),
        }
    }
}

/// The result of a session whose player ended with `exit`, or was never
/// started when `exit` is `None`.
pub open spec fn result_of(exit: Option<ExitStatus>) -> Result<(), PlaybackError> {
    match exit {
        Some(status) => verdict(status),
        None => Err(PlaybackError::PrimaryLaunchFailed),
    }
}

proof fn lemma_trace(enable_companion: bool, events: Seq<SessionEvent>)
    ensures
        ({
            let state = trace_state(enable_companion, events);
            let exit = primary_exit(enable_companion, events);
            &&& companion_alive(enable_companion, events) == state.companion_running()
            &&& !enable_companion ==> !(state is CompanionAttempted) && !(state is PrimaryAwaited)
            &&& match state {
                SessionState::PrimaryAwaited { primary_ok } => exit is Some
                    && exit->0.succeeded() == primary_ok,
                SessionState::Succeeded => exit is Some && exit->0.succeeded(),
                SessionState::Failed(e) => if e == PlaybackError::Interrupted {
                    exit is Some && !exit->0.succeeded()
                } else {
                    exit is None
                },
                _ => exit is None,
            }
        }),
    decreases events.len(),
{
    if events.len() > 0 {
        lemma_trace(enable_companion, events.drop_last());
    }
}

/// A session without visualizer never asks for one to be started, whatever
/// is reported to it and however the player ends: not after `events`, and not
/// at any point on the way there. No visualizer process ever exists.
pub proof fn law_disabled_companion_is_never_launched(events: Seq<SessionEvent>)
    ensures
        !(trace_state(false, events).pending(false) is LaunchCompanion),
        !trace_state(false, events).companion_running(),
        !companion_alive(false, events),
        forall|k: int|
            0 <= k <= events.len() ==> !(#[trigger] trace_state(false, events.take(k)).pending(
                false,
            ) is LaunchCompanion),
{
    lemma_trace(false, events);
    assert forall|k: int| 0 <= k <= events.len() implies !(#[trigger] trace_state(
        false,
        events.take(k),
    ).pending(false) is LaunchCompanion) by {
        lemma_trace(false, events.take(k));
    }
}

/// A visualizer that cannot be started does not end the session: the player
/// is waited for next, and the session ends at once with the result that the
/// player's exit status stands for.
pub proof fn law_companion_failure_is_not_fatal(status: ExitStatus)
    ensures
        ({
            let attempted = SessionState::PrimaryStarted.after(
                true,
                SessionEvent::CompanionLaunchFailed,
            );
            let ended = attempted.after(true, SessionEvent::PrimaryExited(status));
            &&& !attempted.is_terminal()
            &&& !attempted.companion_running()
            &&& attempted.pending(true) == SessionAction::AwaitPrimary
            &&& ended.is_terminal()
            &&& ended.outcome() == Some(verdict(status))
        }),
{
}

/// Whatever happened to the visualizer, a session that has ended has the
/// result of its player: that of the exit status where the player ran, and
/// `PrimaryLaunchFailed` where it could not be started.
pub proof fn law_outcome_is_the_primarys(enable_companion: bool, events: Seq<SessionEvent>)
    ensures
        trace_state(enable_companion, events).is_terminal() ==> trace_state(
            enable_companion,
            events,
        ).outcome() == Some(result_of(primary_exit(enable_companion, events))),
        !trace_state(enable_companion, events).is_terminal() ==> trace_state(
            enable_companion,
            events,
        ).outcome() is None,
{
    lemma_trace(enable_companion, events);
}

/// A visualizer that was started is stopped before the session ends, whether
/// the player ended well or badly: in a terminal state no visualizer is alive.
/// At every point, one is alive exactly when the state says so.
pub proof fn law_companion_stopped_before_terminal(
    enable_companion: bool,
    events: Seq<SessionEvent>,
)
    ensures
        trace_state(enable_companion, events).is_terminal() ==> !companion_alive(
            enable_companion,
            events,
        ),
        companion_alive(enable_companion, events) == trace_state(
            enable_companion,
            events,
        ).companion_running(),
        companion_alive(enable_companion, events) && trace_state(
            enable_companion,
            events,
        ) is PrimaryAwaited ==> trace_state(enable_companion, events).pending(enable_companion)
            == SessionAction::TerminateCompanion,
{
    lemma_trace(enable_companion, events);
}

/// No state is entered twice: an event either leaves the state as it is or
/// moves it forward in the order of states. Terminal states are never left.
pub proof fn law_states_only_advance(
    state: SessionState,
    enable_companion: bool,
    event: SessionEvent,
)
    ensures
        state.after(enable_companion, event) == state || state.after(
            enable_companion,
            event,
        ).rank() > state.rank(),
        state.accepts(enable_companion, event) ==> state.after(enable_companion, event) != state,
        state.is_terminal() ==> state.after(enable_companion, event) == state,
{
}

/// Mathematical value of a [`PlaybackSession`]: its file, its setting, its
/// state, and every event that was reported to it, oldest first.
pub struct SessionView {
    pub file: MediaFileView,
    pub enable_companion: bool,
    pub state: SessionState,
    pub history: Seq<SessionEvent>,
}

impl SessionView {
    /// The state is the one that the reported events lead to.
    pub open spec fn well_formed(self) -> bool {
        self.state == trace_state(self.enable_companion, self.history)
    }
}

/// The playback of one file.
pub struct PlaybackSession {
    file: MediaFile,
    enable_companion: bool,
    state: SessionState,
    history: Ghost<Seq<SessionEvent>>,
}

impl View for PlaybackSession {
    type V = SessionView;

    closed spec fn view(&self) -> SessionView {
        SessionView {
            file: self.file@,
            enable_companion: self.enable_companion,
            state: self.state,
            history: self.history@,
        }
    }
}

impl PlaybackSession {
    #[verifier::type_invariant]
    spec fn consistent(self) -> bool {
        self.state == trace_state(self.enable_companion, self.history@)
    }

    /// A fresh session for `file`, with or without visualizer.
    pub fn new(file: MediaFile, enable_companion: bool) -> (session: PlaybackSession)
        ensures
            session@ == (SessionView {
                file: file@,
                enable_companion,
                state: SessionState::Idle,
                history: Seq::<SessionEvent>::empty(),
            }),
            session@.well_formed(),
    {
        PlaybackSession {
            file,
            enable_companion,
            state: SessionState::Idle,
            history: Ghost(Seq::empty()),
        }
    }

    /// The file that this session plays.
    pub fn file(&self) -> (file: &MediaFile)
        ensures
            file@ == self@.file,
    {
        &self.file
    }

    /// Whether this session runs a visualizer beside the player.
    pub fn companion_enabled(&self) -> (enabled: bool)
        ensures
            enabled == self@.enable_companion,
    {
        self.enable_companion
    }

    /// Where the session stands. A session that has ended has no visualizer
    /// left, and has the result of its player.
    pub fn state(&self) -> (state: SessionState)
        ensures
            state == self@.state,
            self@.well_formed(),
            state.companion_running() == companion_alive(self@.enable_companion, self@.history),
            state.is_terminal() ==> !companion_alive(self@.enable_companion, self@.history),
            state.outcome() == if state.is_terminal() {
                Some(result_of(primary_exit(self@.enable_companion, self@.history)))
            } else {
                None
            },
    {
        proof {
            use_type_invariant(self);
            lemma_trace(self.enable_companion, self.history@);
        }
        self.state
    }

    /// The step that is due.
    pub fn pending(&self) -> (action: SessionAction)
        ensures
            action == self@.state.pending(self@.enable_companion),
    {
        self.state.pending_action(self.enable_companion)
    }

    /// The session's result, once it has ended.
    pub fn outcome(&self) -> (outcome: Option<Result<(), PlaybackError>>)
        ensures
            outcome == self@.state.outcome(),
    {
        match self.state {
            SessionState::Succeeded => Some(Ok(())),
            SessionState::Failed(e) => Some(Err(e)),
            _ => None,
        }
    }

    /// The command line that starts this session's player.
    pub fn primary_invocation(&self) -> (invocation: Invocation)
        ensures
            invocation@ == player_command(self@.file.path),
    {
        player_invocation(self.file.path.as_str())
    }

    /// Takes the report on the step that was due, and moves on. A report on
    /// anything else changes nothing.
    pub fn advance(self, event: SessionEvent) -> (next: PlaybackSession)
        ensures
            next@ == (SessionView {
                file: self@.file,
                enable_companion: self@.enable_companion,
                state: self@.state.after(self@.enable_companion, event),
                history: self@.history.push(event),
            }),
            next@.well_formed(),
    {
        proof {
            use_type_invariant(&self);
            assert(self.history@.push(event).drop_last() =~= self.history@);
        }
        let PlaybackSession { file, enable_companion, state, history } = self;
        PlaybackSession {
            file,
            enable_companion,
            state: state.advance(enable_companion, event),
            history: Ghost(history@.push(event)),
        }
    }
}

} // verus!
