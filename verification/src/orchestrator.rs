//! The sequence of playback sessions over a discovered file set.
//!
//! Files are played one at a time, in the order of the set. Each file gets a
//! session of its own, which is run to its end before the next one starts.
//! The first session that fails ends the whole run with its failure: the
//! files behind it are not played. There is no partial result.

use vstd::prelude::*;
use crate::discovery::{well_formed, DiscoveredFileSet, MAX_DISCOVERED};
use crate::error::PlaybackError;
use crate::media::{MediaFile, MediaFileView};
use crate::process::Invocation;
use crate::session::{player_command, PlaybackSession, SessionAction, SessionEvent, SessionState};

verus! {

/// Where the run over the files stands.
pub enum PlayPhase {
    /// The file at `index` is being played, and its session is in `session`.
    Playing { index: int, session: SessionState },
    /// Every file was played, or one failed.
    Finished(Result<(), PlaybackError>),
}

impl PlayPhase {
    /// The phase in which a run starts: the first file, nothing started.
    pub open spec fn start() -> PlayPhase {
        PlayPhase::Playing { index: 0, session: SessionState::Idle }
    }

    /// The step that is due: that of the current session, or the end.
    pub open spec fn pending(self, enable_companion: bool) -> SessionAction {
        match self {
            PlayPhase::Playing { session, .. } => session.pending(enable_companion),
            PlayPhase::Finished(result) => SessionAction::Finish(result),
        }
    }

    /// The phase after `event`, for a set of `count` files.
    ///
    /// The event goes to the current session. When that ends with success,
    /// the next file gets a fresh session, or the run ends with success after
    /// the last file. When it ends with a failure, the run ends with that
    /// failure. A run that has ended stays as it is.
    pub open spec fn after(self, count: int, enable_companion: bool, event: SessionEvent) -> PlayPhase {
        match self {
            PlayPhase::Finished(_) => self,
            PlayPhase::Playing { index, session } => {
                let next = session.after(enable_companion, event);
                match next {
                    SessionState::Succeeded => if index + 1 < count {
                        PlayPhase::Playing { index: index + 1, session: SessionState::Idle }
                    } else {
                        PlayPhase::Finished(Ok(()))
                    },
                    SessionState::Failed(e) => PlayPhase::Finished(Err(e)),
                    _ => PlayPhase::Playing { index, session: next },
                }
            },
        }
    }
}

/// The phase of a fresh run over `count` files after `events`, each applied
/// in turn.
pub open spec fn play_trace(count: int, enable_companion: bool, events: Seq<SessionEvent>) -> PlayPhase
    decreases events.len(),
{
    if events.len() == 0 {
        PlayPhase::start()
    } else {
        play_trace(count, enable_companion, events.drop_last()).after(
            count,
            enable_companion,
            events.last(),
        )
    }
}

/// The files whose player was tried to start in the course of `events`, by
/// their index in the set, in the order of the attempts.
pub open spec fn attempts(count: int, enable_companion: bool, events: Seq<SessionEvent>) -> Seq<int>
    decreases events.len(),
{
    if events.len() == 0 {
        Seq::empty()
    } else {
        let earlier = attempts(count, enable_companion, events.drop_last());
        match play_trace(count, enable_companion, events.drop_last()) {
            PlayPhase::Playing { index, session } => if session is Idle && session.accepts(
                enable_companion,
                events.last(),
            ) {
                earlier.push(index)
            } else {
                earlier
            },
            PlayPhase::Finished(_) => earlier,
        }
    }
}

proof fn lemma_play_trace(count: int, enable_companion: bool, events: Seq<SessionEvent>)
    requires
        count >= 1,
    ensures
        ({
            let tried = attempts(count, enable_companion, events);
            &&& forall|i: int| 0 <= i < tried.len() ==> tried[i] == i
            &&& match play_trace(count, enable_companion, events) {
                PlayPhase::Playing { index, session } => {
                    &&& 0 <= index < count
                    &&& !session.is_terminal()
                    &&& tried.len() == if session is Idle {
                        index
                    } else {
                        index + 1
                    }
                },
                PlayPhase::Finished(result) => if result is Ok {
                    tried.len() == count
                } else {
                    1 <= tried.len() <= count
                },
            }
        }),
    decreases events.len(),
{
    if events.len() > 0 {
        lemma_play_trace(count, enable_companion, events.drop_last());
    }
}

/// Files are played in the order of the set, none is skipped and none is
/// played twice: the n-th attempt to start a player is for the n-th file. A
/// run that ended with success has tried every file; a run that failed has
/// tried at least one and has stopped at the one that failed.
pub proof fn law_files_play_in_order(count: int, enable_companion: bool, events: Seq<SessionEvent>)
    requires
        count >= 1,
    ensures
        forall|i: int|
            0 <= i < attempts(count, enable_companion, events).len() ==> attempts(
                count,
                enable_companion,
                events,
            )[i] == i,
        attempts(count, enable_companion, events).len() <= count,
        play_trace(count, enable_companion, events) == PlayPhase::Finished(Ok(())) ==> attempts(
            count,
            enable_companion,
            events,
        ).len() == count,
        play_trace(count, enable_companion, events) is Finished ==> attempts(
            count,
            enable_companion,
            events,
        ).len() >= 1,
{
    lemma_play_trace(count, enable_companion, events);
}

/// The failure of a session is the failure of the run, at once; the success
/// of a session moves the run to the next file, and ends it with success
/// after the last one.
pub proof fn law_session_end_decides(
    count: int,
    enable_companion: bool,
    index: int,
    session: SessionState,
    event: SessionEvent,
)
    requires
        0 <= index < count,
    ensures
        ({
            let phase = PlayPhase::Playing { index, session };
            let next = session.after(enable_companion, event);
            &&& next matches SessionState::Failed(e) ==> phase.after(count, enable_companion, event)
                == PlayPhase::Finished(Err(e))
            &&& next is Succeeded && index + 1 < count ==> phase.after(
                count,
                enable_companion,
                event,
            ) == (PlayPhase::Playing { index: index + 1, session: SessionState::Idle })
            &&& next is Succeeded && index + 1 == count ==> phase.after(
                count,
                enable_companion,
                event,
            ) == PlayPhase::Finished(Ok(()))
            &&& !next.is_terminal() ==> phase.after(count, enable_companion, event)
                == (PlayPhase::Playing { index, session: next })
        }),
{
}

/// A run that has ended stays ended: whatever is reported afterwards, its
/// result stands, no step but the end is due, and no further file is tried.
pub proof fn law_nothing_follows_the_end(
    count: int,
    enable_companion: bool,
    events: Seq<SessionEvent>,
    later: Seq<SessionEvent>,
)
    requires
        play_trace(count, enable_companion, events) is Finished,
    ensures
        play_trace(count, enable_companion, events + later) == play_trace(
            count,
            enable_companion,
            events,
        ),
        attempts(count, enable_companion, events + later) == attempts(
            count,
            enable_companion,
            events,
        ),
        play_trace(count, enable_companion, events + later).pending(enable_companion)
            == SessionAction::Finish(play_trace(count, enable_companion, events)->Finished_0),
    decreases later.len(),
{
    if later.len() == 0 {
        assert(events + later =~= events);
    } else {
        law_nothing_follows_the_end(count, enable_companion, events, later.drop_last());
        assert((events + later).drop_last() =~= events + later.drop_last());
        assert((events + later).last() == later.last());
    }
}

/// Mathematical value of an [`Orchestrator`]: the files, the setting, the
/// phase, and every event that was reported to it, oldest first.
pub struct OrchestratorView {
    pub files: Seq<MediaFileView>,
    pub enable_companion: bool,
    pub phase: PlayPhase,
    pub history: Seq<SessionEvent>,
}

impl OrchestratorView {
    /// The files form a discovered set, and the phase is the one that the
    /// reported events lead to.
    pub open spec fn well_formed(self) -> bool {
        &&& well_formed(self.files)
        &&& self.phase == play_trace(self.files.len() as int, self.enable_companion, self.history)
    }

    /// The file that is being played, or was played last.
    pub open spec fn current(self) -> int {
        match self.phase {
            PlayPhase::Playing { index, .. } => index,
            PlayPhase::Finished(_) => attempts(
                self.files.len() as int,
                self.enable_companion,
                self.history,
            ).len() - 1,
        }
    }
}

/// The run over a discovered file set.
pub struct Orchestrator {
    files: DiscoveredFileSet,
    enable_companion: bool,
    index: usize,
    session: PlaybackSession,
    finished: Option<Result<(), PlaybackError>>,
    history: Ghost<Seq<SessionEvent>>,
}

impl View for Orchestrator {
    type V = OrchestratorView;

    closed spec fn view(&self) -> OrchestratorView {
        OrchestratorView {
            files: self.files@,
            enable_companion: self.enable_companion,
            phase: match self.finished {
                Some(result) => PlayPhase::Finished(result),
                None => PlayPhase::Playing { index: self.index as int, session: self.session@.state },
            },
            history: self.history@,
        }
    }
}

impl Orchestrator {
    #[verifier::type_invariant]
    spec fn consistent(self) -> bool {
        &&& well_formed(self.files@)
        &&& self.index < self.files@.len()
        &&& self.session@.file == self.files@[self.index as int]
        &&& self.session@.enable_companion == self.enable_companion
        &&& self.finished is None ==> !self.session@.state.is_terminal()
        &&& self.finished is Some ==> self.index + 1 == attempts(
            self.files@.len() as int,
            self.enable_companion,
            self.history@,
        ).len()
        &&& self@.phase == play_trace(
            self.files@.len() as int,
            self.enable_companion,
            self.history@,
        )
    }

    /// A fresh run over `files`, with or without visualizer: the first file
    /// is due, and nothing has been started.
    pub fn new(files: DiscoveredFileSet, enable_companion: bool) -> (run: Orchestrator)
        ensures
            run@ == (OrchestratorView {
                files: files@,
                enable_companion,
                phase: PlayPhase::start(),
                history: Seq::<SessionEvent>::empty(),
            }),
            run@.well_formed(),
    {
        let first: MediaFile = files.first().clone();
        let session = PlaybackSession::new(first, enable_companion);
        Orchestrator {
            files,
            enable_companion,
            index: 0,
            session,
            finished: None,
            history: Ghost(Seq::empty()),
        }
    }

    /// The step that is due: a step of the current session while files are
    /// played, and the end with the run's result after that.
    pub fn pending(&self) -> (action: SessionAction)
        ensures
            action == self@.phase.pending(self@.enable_companion),
            self@.well_formed(),
    {
        proof {
            use_type_invariant(self);
        }
        match self.finished {
            Some(result) => SessionAction::Finish(result),
            None => self.session.pending(),
        }
    }

    /// The run's result, once it has ended.
    pub fn result(&self) -> (result: Option<Result<(), PlaybackError>>)
        ensures
            result == match self@.phase {
                PlayPhase::Finished(r) => Some(r),
                PlayPhase::Playing { .. } => None,
            },
    {
        self.finished
    }

    /// The number of files in the run.
    pub fn total(&self) -> (total: usize)
        ensures
            total == self@.files.len(),
            1 <= total <= MAX_DISCOVERED,
    {
        self.files.len()
    }

    /// The index of the file that is being played, or was played last.
    pub fn current_index(&self) -> (index: usize)
        ensures
            index == self@.current(),
            index < self@.files.len(),
    {
        proof {
            use_type_invariant(self);
        }
        self.index
    }

    /// The file that is being played, or was played last.
    pub fn current_file(&self) -> (file: &MediaFile)
        ensures
            0 <= self@.current() < self@.files.len(),
            file@ == self@.files[self@.current()],
    {
        proof {
            use_type_invariant(self);
        }
        self.files.at(self.index)
    }

    /// The files of the run.
    pub fn files(&self) -> (files: &DiscoveredFileSet)
        ensures
            files@ == self@.files,
    {
        &self.files
    }

    /// The command line that starts the player for the current file.
    pub fn primary_invocation(&self) -> (invocation: Invocation)
        ensures
            0 <= self@.current() < self@.files.len(),
            invocation@ == player_command(self@.files[self@.current()].path),
    {
        proof {
            use_type_invariant(self);
        }
        self.session.primary_invocation()
    }

    /// Takes the report on the step that was due, and moves on.
    pub fn advance(self, event: SessionEvent) -> (next: Orchestrator)
        ensures
            next@ == (OrchestratorView {
                files: self@.files,
                enable_companion: self@.enable_companion,
                phase: self@.phase.after(
                    self@.files.len() as int,
                    self@.enable_companion,
                    event,
                ),
                history: self@.history.push(event),
            }),
            next@.well_formed(),
    {
        proof {
            use_type_invariant(&self);
        }
        let Orchestrator { files, enable_companion, index, session, finished, history } = self;
        let ghost extended = history@.push(event);
        let total: usize = files.len();
        proof {
            assert(extended.drop_last() =~= history@);
            lemma_play_trace(total as int, enable_companion, history@);
        }
        if finished.is_some() {
            return Orchestrator {
                files,
                enable_companion,
                index,
                session,
                finished,
                history: Ghost(extended),
            };
        }
        let moved = session.advance(event);
        match moved.outcome() {
            None => Orchestrator {
                files,
                enable_companion,
                index,
                session: moved,
                finished: None,
                history: Ghost(extended),
            },
            Some(Err(e)) => Orchestrator {
                files,
                enable_companion,
                index,
                session: moved,
                finished: Some(Err(e)),
                history: Ghost(extended),
            },
            Some(Ok(())) => {
                if index + 1 < total {
                    let file: MediaFile = files.at(index + 1).clone();
                    let fresh = PlaybackSession::new(file, enable_companion);
                    Orchestrator {
                        files,
                        enable_companion,
                        index: index + 1,
                        session: fresh,
                        finished: None,
                        history: Ghost(extended),
                    }
                } else {
                    Orchestrator {
                        files,
                        enable_companion,
                        index,
                        session: moved,
                        finished: Some(Ok(())),
                        history: Ghost(extended),
                    }
                }
            },
        }
    }
}

} // verus!
