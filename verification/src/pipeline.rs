//! The whole run, from the first tool probe to the last file.
//!
//! A run passes through its stages in one order: the tools are probed, the
//! address is settled and checked, the downloader runs, the target directory
//! is scanned, and the files found are played. Any failure on the way ends
//! the run with that failure; there is no retry and no partial result.
//!
//! As with a single session, the run does nothing itself. It names the step
//! that is due ([`RunAction`]), the caller carries it out and reports back
//! ([`RunEvent`]).

use vstd::prelude::*;
use crate::acquisition::{acquisition_outcome, downloader_command, downloader_invocation, outcome_of};
use crate::discovery::{discover, discovered, well_formed};
use crate::error::{AcquisitionError, DiscoveryError, RunError, RunErrorView};
use crate::media::{MediaFileView, ScannedEntry, ScannedEntryView};
use crate::orchestrator::{Orchestrator, PlayPhase};
use crate::preflight::{
    identifier_from_line, probe_command, probe_invocation, required_tool_list, required_tools,
    tool_found, typed_identifier, validate_identifier, validated, was_found,
};
use crate::process::{ExitStatus, Invocation, InvocationView};
use crate::session::{
    companion_command, companion_invocation, player_command, SessionAction, SessionEvent,
};
use crate::settings::Settings;

verus! {

/// The step that a run asks its caller to carry out.
#[derive(Clone, Copy, Debug, PartialEq, Eq)]
pub enum RunAction {
    /// Ask whether the required tool at `index` is installed.
    ProbeTool { index: usize },
    /// Ask the user for the address, and report the line that was typed.
    PromptIdentifier,
    /// Run the downloader and wait for it to end.
    RunDownloader,
    /// List the target directory, without descending into it.
    ScanDirectory,
    /// A step of the session that plays the current file.
    Play(SessionAction),
    /// Nothing is left to do.
    Finish,
}

/// What the caller reports after carrying out a step.
#[derive(Debug)]
pub enum RunEvent {
    /// How the probe of a tool ended; `None` when it could not be run.
    ToolProbed(Option<ExitStatus>),
    /// The line that the user typed.
    IdentifierEntered(String),
    /// How the downloader ended.
    DownloaderExited(ExitStatus),
    /// The entries of the target directory.
    DirectoryScanned(Vec<ScannedEntry>),
    /// A report to the session that plays the current file.
    Player(SessionEvent),
}

/// Mathematical value of a [`RunEvent`].
pub enum RunEventView {
    ToolProbed(Option<ExitStatus>),
    IdentifierEntered(Seq<char>),
    DownloaderExited(ExitStatus),
    DirectoryScanned(Seq<ScannedEntryView>),
    Player(SessionEvent),
}

impl View for RunEvent {
    type V = RunEventView;

    open spec fn view(&self) -> RunEventView {
        match *self {
            RunEvent::ToolProbed(probe) => RunEventView::ToolProbed(probe),
            RunEvent::IdentifierEntered(line) => RunEventView::IdentifierEntered(line@),
            RunEvent::DownloaderExited(status) => RunEventView::DownloaderExited(status),
            RunEvent::DirectoryScanned(entries) => RunEventView::DirectoryScanned(
                entries.deep_view(),
            ),
            RunEvent::Player(event) => RunEventView::Player(event),
        }
    }
}

/// What a run is started with.
pub struct RunSetup {
    /// The directory that downloads are written to and played from.
    pub target_dir: Seq<char>,
    /// Whether a visualizer runs beside the player.
    pub enable_companion: bool,
    /// The address from the command line, if one was given there.
    pub given: Option<Seq<char>>,
}

/// Where a run stands.
pub enum Stage {
    /// The required tool at `next` is being probed; those before it are there.
    Probing { next: nat },
    /// The user is being asked for the address.
    Prompting,
    /// The address is settled and valid, and is being downloaded.
    Downloading { identifier: Seq<char> },
    /// The download went well, and the target directory is being listed.
    Scanning,
    /// The files found are being played.
    Playing { files: Seq<MediaFileView>, phase: PlayPhase },
    /// The run has ended.
    Finished(Result<(), RunErrorView>),
}

/// The stage that an address leads to: the download if the address is valid,
/// the end if it is not.
pub open spec fn with_identifier(identifier: Seq<char>) -> Stage {
    match validated(identifier) {
        Ok(()) => Stage::Downloading { identifier },
        Err(e) => Stage::Finished(Err(e)),
    }
}

/// The stage that follows the probes: an address from the command line is
/// taken as it is, and the user is asked only where none was given.
pub open spec fn with_tools(setup: RunSetup) -> Stage {
    match setup.given {
        Some(identifier) => with_identifier(identifier),
        None => Stage::Prompting,
    }
}

/// The stage that a playing phase stands for: the end of the last session is
/// the end of the run.
pub open spec fn with_phase(files: Seq<MediaFileView>, phase: PlayPhase) -> Stage {
    match phase {
        PlayPhase::Finished(Ok(())) => Stage::Finished(Ok(())),
        PlayPhase::Finished(Err(e)) => Stage::Finished(Err(RunErrorView::Playback(e))),
        PlayPhase::Playing { .. } => Stage::Playing { files, phase },
    }
}

impl Stage {
    /// The stage in which every run starts: the first tool is probed.
    pub open spec fn start() -> Stage {
        Stage::Probing { next: 0 }
    }

    /// Position of the stage in the order in which stages are passed.
    pub open spec fn rank(self) -> nat {
        match self {
            Stage::Probing { .. } => 0,
            Stage::Prompting => 1,
            Stage::Downloading { .. } => 2,
            Stage::Scanning => 3,
            Stage::Playing { .. } => 4,
            Stage::Finished(_) => 5,
        }
    }

    /// The step that is due in this stage.
    pub open spec fn pending(self, setup: RunSetup) -> RunAction {
        match self {
            Stage::Probing { next } => RunAction::ProbeTool { index: next as usize },
            Stage::Prompting => RunAction::PromptIdentifier,
            Stage::Downloading { .. } => RunAction::RunDownloader,
            Stage::Scanning => RunAction::ScanDirectory,
            Stage::Playing { phase, .. } => RunAction::Play(phase.pending(setup.enable_companion)),
            Stage::Finished(_) => RunAction::Finish,
        }
    }

    /// The command line of the step that is due, where that step runs a
    /// program.
    pub open spec fn command(self, setup: RunSetup) -> Option<InvocationView> {
        match self {
            Stage::Probing { next } => Some(
                probe_command(required_tools(setup.enable_companion)[next as int]),
            ),
            Stage::Downloading { identifier } => Some(
                downloader_command(identifier, setup.target_dir),
            ),
            Stage::Playing { files, phase } => match phase {
                PlayPhase::Playing { index, session } => match session.pending(
                    setup.enable_companion,
                ) {
                    SessionAction::LaunchPrimary => Some(player_command(files[index].path)),
                    SessionAction::LaunchCompanion { .. } => Some(companion_command()),
                    _ => None,
                },
                PlayPhase::Finished(_) => None,
            },
            _ => None,
        }
    }

    /// The stage after `event`. An event that does not report on the step
    /// that is due changes nothing.
    ///
    /// * A tool that is missing ends the run and is named in the error; the
    ///   tools behind it are not probed.
    /// * A typed line is trimmed and must not be empty; an address from the
    ///   command line is taken as it is. Either must be valid.
    /// * A downloader that fails ends the run: the directory is not scanned.
    /// * A directory without playable files ends the run.
    /// * The result of playing the files is the result of the run.
    pub open spec fn after(self, setup: RunSetup, event: RunEventView) -> Stage {
        match self {
            Stage::Probing { next } => match event {
                RunEventView::ToolProbed(probe) => {
                    let tools = required_tools(setup.enable_companion);
                    if !tool_found(probe) {
                        Stage::Finished(Err(RunErrorView::DependencyMissing(tools[next as int])))
                    } else if next + 1 < tools.len() {
                        Stage::Probing { next: next + 1 }
                    } else {
                        with_tools(setup)
                    }
                },
                _ => self,
            },
            Stage::Prompting => match event {
                RunEventView::IdentifierEntered(line) => match typed_identifier(line) {
                    Ok(identifier) => with_identifier(identifier),
                    Err(e) => Stage::Finished(Err(e)),
                },
                _ => self,
            },
            Stage::Downloading { .. } => match event {
                RunEventView::DownloaderExited(status) => match outcome_of(status) {
                    Ok(()) => Stage::Scanning,
                    Err(e) => Stage::Finished(Err(RunErrorView::Acquisition(e))),
                },
                _ => self,
            },
            Stage::Scanning => match event {
                RunEventView::DirectoryScanned(entries) => if discovered(entries).len() == 0 {
                    Stage::Finished(Err(RunErrorView::Discovery(DiscoveryError::Empty)))
                } else {
                    Stage::Playing { files: discovered(entries), phase: PlayPhase::start() }
                },
                _ => self,
            },
            Stage::Playing { files, phase } => match event {
                RunEventView::Player(report) => with_phase(
                    files,
                    phase.after(files.len() as int, setup.enable_companion, report),
                ),
                _ => self,
            },
            Stage::Finished(_) => self,
        }
    }
}

/// The stage of a fresh run after `events`, each applied in turn.
pub open spec fn run_trace(setup: RunSetup, events: Seq<RunEventView>) -> Stage
    decreases events.len(),
{
    if events.len() == 0 {
        Stage::start()
    } else {
        run_trace(setup, events.drop_last()).after(setup, events.last())
    }
}

/// What holds of every stage that a run can be in.
pub open spec fn reachable(stage: Stage, setup: RunSetup) -> bool {
    match stage {
        Stage::Probing { next } => next < required_tools(setup.enable_companion).len(),
        Stage::Playing { files, phase } => {
            &&& well_formed(files)
            &&& phase matches PlayPhase::Playing { index, session }
            &&& 0 <= index < files.len()
            &&& !session.is_terminal()
        },
        _ => true,
    }
}

proof fn lemma_step(stage: Stage, setup: RunSetup, event: RunEventView)
    requires
        reachable(stage, setup),
    ensures
        reachable(stage.after(setup, event), setup),
        stage.after(setup, event) == stage || stage.after(setup, event).rank() > stage.rank() || (
        stage.after(setup, event).rank() == stage.rank() && !(stage is Finished)),
{
    match stage {
        Stage::Scanning => {
            if let RunEventView::DirectoryScanned(entries) = event {
                crate::discovery::law_only_recognized_files(entries);
                crate::discovery::law_newest_come_first(entries);
            }
        },
        _ => {},
    }
}

/// Every stage that a run reaches is a sound one: a probe is for a tool on
/// the list, and files are played only from a proper file set, one that is
/// there and whose session has not ended.
pub proof fn law_stages_are_sound(setup: RunSetup, events: Seq<RunEventView>)
    ensures
        reachable(run_trace(setup, events), setup),
    decreases events.len(),
{
    if events.len() > 0 {
        law_stages_are_sound(setup, events.drop_last());
        lemma_step(run_trace(setup, events.drop_last()), setup, events.last());
    }
}

/// Stages are passed in one order, and none is gone back to: an event leaves
/// the stage where it is in that order, or moves it forward.
pub proof fn law_stages_only_advance(setup: RunSetup, events: Seq<RunEventView>, event: RunEventView)
    ensures
        run_trace(setup, events).after(setup, event).rank() >= run_trace(setup, events).rank(),
{
    law_stages_are_sound(setup, events);
    lemma_step(run_trace(setup, events), setup, event);
}

/// A run that has ended stays ended: whatever is reported afterwards, its
/// result stands and no step but the end is due.
pub proof fn law_nothing_follows_the_end(
    setup: RunSetup,
    events: Seq<RunEventView>,
    later: Seq<RunEventView>,
)
    requires
        run_trace(setup, events) is Finished,
    ensures
        run_trace(setup, events + later) == run_trace(setup, events),
        run_trace(setup, events + later).pending(setup) == RunAction::Finish,
    decreases later.len(),
{
    if later.len() == 0 {
        assert(events + later =~= events);
    } else {
        law_nothing_follows_the_end(setup, events, later.drop_last());
        assert((events + later).drop_last() =~= events + later.drop_last());
        assert((events + later).last() == later.last());
    }
}

/// A downloader that ends with anything but exit code zero ends the run with
/// `ToolFailure`, and the target directory is never scanned: not at once, and
/// not after anything that is reported later.
pub proof fn law_failed_download_skips_discovery(
    setup: RunSetup,
    events: Seq<RunEventView>,
    status: ExitStatus,
    later: Seq<RunEventView>,
)
    requires
        run_trace(setup, events) is Downloading,
        !status.succeeded(),
    ensures
        run_trace(setup, events.push(RunEventView::DownloaderExited(status)) + later)
            == Stage::Finished(Err(RunErrorView::Acquisition(AcquisitionError::ToolFailure))),
        run_trace(setup, events.push(RunEventView::DownloaderExited(status)) + later).pending(
            setup,
        ) != RunAction::ScanDirectory,
        !(run_trace(setup, events.push(RunEventView::DownloaderExited(status)) + later)
            is Scanning),
{
    let failed = events.push(RunEventView::DownloaderExited(status));
    assert(failed.drop_last() =~= events);
    law_nothing_follows_the_end(setup, failed, later);
}

/// A directory without a regular file of a recognized extension ends the
/// run with `Empty`: nothing is played.
pub proof fn law_nothing_found_ends_the_run(
    setup: RunSetup,
    events: Seq<RunEventView>,
    entries: Seq<ScannedEntryView>,
)
    requires
        run_trace(setup, events) is Scanning,
        forall|j: int| 0 <= j < entries.len() ==> !crate::discovery::is_candidate(#[trigger] entries[j]),
    ensures
        run_trace(setup, events.push(RunEventView::DirectoryScanned(entries))) == Stage::Finished(
            Err(RunErrorView::Discovery(DiscoveryError::Empty)),
        ),
{
    let scanned = events.push(RunEventView::DirectoryScanned(entries));
    assert(scanned.drop_last() =~= events);
    crate::discovery::law_empty_without_recognized_files(entries);
}

/// Mathematical value of a [`Pipeline`]: what it was started with, its
/// stage, and every event that was reported to it, oldest first.
pub struct PipelineView {
    pub setup: RunSetup,
    pub stage: Stage,
    pub history: Seq<RunEventView>,
}

impl PipelineView {
    /// The stage is the one that the reported events lead to.
    pub open spec fn well_formed(self) -> bool {
        self.stage == run_trace(self.setup, self.history)
    }
}

/// Mathematical value of an optional owned text.
pub open spec fn given_view(given: Option<String>) -> Option<Seq<char>> {
    match given {
        Some(text) => Some(text@),
        None => None,
    }
}

/// Mathematical value of an optional command line.
pub open spec fn command_view(command: Option<Invocation>) -> Option<InvocationView> {
    match command {
        Some(invocation) => Some(invocation@),
        None => None,
    }
}

/// Mathematical value of the result of a run, where there is one.
pub open spec fn result_view(result: Option<Result<(), RunError>>) -> Option<
    Result<(), RunErrorView>,
> {
    match result {
        Some(Ok(())) => Some(Ok(())),
        Some(Err(e)) => Some(Err(e@)),
        None => None,
    }
}

enum Progress {
    Probing { next: usize },
    Prompting,
    Downloading { identifier: String },
    Scanning,
    Playing(Orchestrator),
    Finished(Result<(), RunError>),
}

impl Progress {
    spec fn stage(self) -> Stage {
        match self {
            Progress::Probing { next } => Stage::Probing { next: next as nat },
            Progress::Prompting => Stage::Prompting,
            Progress::Downloading { identifier } => Stage::Downloading { identifier: identifier@ },
            Progress::Scanning => Stage::Scanning,
            Progress::Playing(run) => Stage::Playing { files: run@.files, phase: run@.phase },
            Progress::Finished(result) => Stage::Finished(
                match result {
                    Ok(()) => Ok(()),
                    Err(e) => Err(e@),
                },
            ),
        }
    }

    /// Checks an address and moves on to its download, or ends the run.
    fn for_identifier(identifier: String) -> (progress: Progress)
        ensures
            progress.stage() == with_identifier(identifier@),
    {
        match validate_identifier(identifier.as_str()) {
            Ok(()) => Progress::Downloading { identifier },
            Err(e) => Progress::Finished(Err(e)),
        }
    }
}

/// One run of the program.
pub struct Pipeline {
    settings: Settings,
    given: Option<String>,
    tools: Vec<String>,
    progress: Progress,
    history: Ghost<Seq<RunEventView>>,
}

impl View for Pipeline {
    type V = PipelineView;

    closed spec fn view(&self) -> PipelineView {
        PipelineView {
            setup: RunSetup {
                target_dir: self.settings.target_dir@,
                enable_companion: self.settings.enable_companion,
                given: given_view(self.given),
            },
            stage: self.progress.stage(),
            history: self.history@,
        }
    }
}

impl Pipeline {
    #[verifier::type_invariant]
    spec fn consistent(self) -> bool {
        &&& self.tools.deep_view() == required_tools(self.settings.enable_companion)
        &&& self@.stage == run_trace(self@.setup, self.history@)
        &&& self.progress matches Progress::Playing(run) ==> run@.enable_companion
            == self.settings.enable_companion
    }

    /// A fresh run with `settings`, for the address `given` on the command
    /// line or, without one, for an address that the user is asked for.
    pub fn new(settings: Settings, given: Option<String>) -> (run: Pipeline)
        ensures
            run@ == (PipelineView {
                setup: RunSetup {
                    target_dir: settings.target_dir@,
                    enable_companion: settings.enable_companion,
                    given: given_view(given),
                },
                stage: Stage::start(),
                history: Seq::<RunEventView>::empty(),
            }),
            run@.well_formed(),
    {
        let tools = required_tool_list(settings.enable_companion);
        Pipeline {
            settings,
            given,
            tools,
            progress: Progress::Probing { next: 0 },
            history: Ghost(Seq::empty()),
        }
    }

    /// The step that is due.
    pub fn pending(&self) -> (action: RunAction)
        ensures
            action == self@.stage.pending(self@.setup),
            self@.well_formed(),
            reachable(self@.stage, self@.setup),
    {
        proof {
            use_type_invariant(self);
            law_stages_are_sound(self@.setup, self.history@);
        }
        match &self.progress {
            Progress::Probing { next } => RunAction::ProbeTool { index: *next },
            Progress::Prompting => RunAction::PromptIdentifier,
            Progress::Downloading { .. } => RunAction::RunDownloader,
            Progress::Scanning => RunAction::ScanDirectory,
            Progress::Playing(run) => RunAction::Play(run.pending()),
            Progress::Finished(_) => RunAction::Finish,
        }
    }

    /// The command line of the step that is due, where that step runs a
    /// program: the probe of a tool, the downloader, the player or the
    /// visualizer.
    pub fn pending_invocation(&self) -> (command: Option<Invocation>)
        ensures
            command_view(command) == self@.stage.command(self@.setup),
    {
        proof {
            use_type_invariant(self);
            law_stages_are_sound(self@.setup, self.history@);
        }
        match &self.progress {
            Progress::Probing { next } => {
                assert(self.tools.deep_view()[*next as int] == self.tools@[*next as int]@);
                Some(probe_invocation(self.tools[*next].as_str()))
            },
            Progress::Downloading { identifier } => Some(
                downloader_invocation(identifier.as_str(), self.settings.target_dir.as_str()),
            ),
            Progress::Playing(run) => match run.pending() {
                SessionAction::LaunchPrimary => Some(run.primary_invocation()),
                SessionAction::LaunchCompanion { .. } => Some(companion_invocation()),
                _ => None,
            },
            _ => None,
        }
    }

    /// The directory that downloads are written to and played from.
    pub fn target_dir(&self) -> (dir: &str)
        ensures
            dir@ == self@.setup.target_dir,
    {
        self.settings.target_dir.as_str()
    }

    /// Whether a visualizer runs beside the player.
    pub fn companion_enabled(&self) -> (enabled: bool)
        ensures
            enabled == self@.setup.enable_companion,
    {
        self.settings.enable_companion
    }

    /// The run over the files, while they are played.
    pub fn playing(&self) -> (run: Option<&Orchestrator>)
        ensures
            run is Some <==> self@.stage is Playing,
            run matches Some(r) ==> self@.stage == (Stage::Playing {
                files: r@.files,
                phase: r@.phase,
            }) && r@.enable_companion == self@.setup.enable_companion,
    {
        proof {
            use_type_invariant(self);
        }
        match &self.progress {
            Progress::Playing(run) => Some(run),
            _ => None,
        }
    }

    /// Whether the run has ended.
    pub fn is_finished(&self) -> (finished: bool)
        ensures
            finished == self@.stage is Finished,
    {
        match &self.progress {
            Progress::Finished(_) => true,
            _ => false,
        }
    }

    /// The result of the run, once it has ended.
    pub fn into_result(self) -> (result: Option<Result<(), RunError>>)
        ensures
            result_view(result) == match self@.stage {
                Stage::Finished(r) => Some(r),
                _ => None,
            },
    {
        match self.progress {
            Progress::Finished(result) => Some(result),
            _ => None,
        }
    }

    /// Takes the report on the step that was due, and moves on.
    pub fn advance(self, event: RunEvent) -> (next: Pipeline)
        ensures
            next@ == (PipelineView {
                setup: self@.setup,
                stage: self@.stage.after(self@.setup, event@),
                history: self@.history.push(event@),
            }),
            next@.well_formed(),
    {
        proof {
            use_type_invariant(&self);
            law_stages_are_sound(self@.setup, self.history@);
        }
        let ghost setup = self@.setup;
        let ghost extended = self.history@.push(event@);
        proof {
            assert(extended.drop_last() =~= self.history@);
        }
        let Pipeline { settings, given, tools, progress, history } = self;
        let moved: Progress = match progress {
            Progress::Probing { next } => match event {
                RunEvent::ToolProbed(probe) => {
                    assert(tools.deep_view()[next as int] == tools@[next as int]@);
                    if !was_found(probe) {
                        Progress::Finished(Err(RunError::DependencyMissing(tools[next].clone())))
                    } else if next + 1 < tools.len() {
                        Progress::Probing { next: next + 1 }
                    } else {
                        match &given {
                            Some(identifier) => Progress::for_identifier(identifier.clone()),
                            None => Progress::Prompting,
                        }
                    }
                },
                _ => Progress::Probing { next },
            },
            Progress::Prompting => match event {
                RunEvent::IdentifierEntered(line) => match identifier_from_line(line.as_str()) {
                    Ok(identifier) => Progress::for_identifier(identifier),
                    Err(e) => Progress::Finished(Err(e)),
                },
                _ => Progress::Prompting,
            },
            Progress::Downloading { identifier } => match event {
                RunEvent::DownloaderExited(status) => match acquisition_outcome(status) {
                    Ok(()) => Progress::Scanning,
                    Err(e) => Progress::Finished(Err(RunError::Acquisition(e))),
                },
                _ => Progress::Downloading { identifier },
            },
            Progress::Scanning => match event {
                RunEvent::DirectoryScanned(entries) => match discover(&entries) {
                    Ok(files) => Progress::Playing(
                        Orchestrator::new(files, settings.enable_companion),
                    ),
                    Err(e) => Progress::Finished(Err(RunError::Discovery(e))),
                },
                _ => Progress::Scanning,
            },
            Progress::Playing(run) => match event {
                RunEvent::Player(report) => {
                    let played = run.advance(report);
                    match played.result() {
                        None => Progress::Playing(played),
                        Some(Ok(())) => Progress::Finished(Ok(())),
                        Some(Err(e)) => Progress::Finished(Err(RunError::Playback(e))),
                    }
                },
                _ => Progress::Playing(run),
            },
            Progress::Finished(result) => Progress::Finished(result),
        };
        Pipeline { settings, given, tools, progress: moved, history: Ghost(extended) }
    }
}

} // verus!
