//! The ways in which a run can fail, and the message shown for each.

use vstd::prelude::*;

verus! {

/// Failure of the download step.
#[derive(Clone, Copy, Debug, PartialEq, Eq, Structural)]
pub enum AcquisitionError {
    /// The downloader ended with anything but exit code zero.
    ToolFailure,
}

/// Failure to find anything playable after a download.
#[derive(Clone, Copy, Debug, PartialEq, Eq, Structural)]
pub enum DiscoveryError {
    /// No regular file with a recognized extension is in the directory.
    Empty,
}

/// Failure of one playback session.
#[derive(Clone, Copy, Debug, PartialEq, Eq, Structural)]
pub enum PlaybackError {
    /// The player could not even be started.
    PrimaryLaunchFailed,
    /// The player ran and ended with anything but exit code zero.
    Interrupted,
}

/// Everything that ends a run early.
#[derive(Debug)]
pub enum RunError {
    /// A required tool is not installed; the field is its command name.
    DependencyMissing(String),
    /// No address was given on the command line, and none was typed in.
    NoIdentifierProvided,
    /// The address does not look like one of a supported site.
    InvalidIdentifier,
    /// The address pattern itself was refused by the pattern engine.
    ValidatorUnavailable,
    Acquisition(AcquisitionError),
    Discovery(DiscoveryError),
    Playback(PlaybackError),
}

/// Mathematical value of a [`RunError`]: the same cases, with text as a
/// sequence of characters.
pub enum RunErrorView {
    DependencyMissing(Seq<char>),
    NoIdentifierProvided,
    InvalidIdentifier,
    ValidatorUnavailable,
    Acquisition(AcquisitionError),
    Discovery(DiscoveryError),
    Playback(PlaybackError),
}

impl View for RunError {
    type V = RunErrorView;

    open spec fn view(&self) -> RunErrorView {
        match *self {
            RunError::DependencyMissing(tool) => RunErrorView::DependencyMissing(tool@),
            RunError::NoIdentifierProvided => RunErrorView::NoIdentifierProvided,
            RunError::InvalidIdentifier => RunErrorView::InvalidIdentifier,
            RunError::ValidatorUnavailable => RunErrorView::ValidatorUnavailable,
            RunError::Acquisition(e) => RunErrorView::Acquisition(e),
            RunError::Discovery(e) => RunErrorView::Discovery(e),
            RunError::Playback(e) => RunErrorView::Playback(e),
        }
    }
}

impl AcquisitionError {
    pub open spec fn message_text(self) -> Seq<char> {
        "Loading failed"@
    }

    /// The line shown to the user.
    pub fn message(&self) -> (text: String)
        ensures
            text@ == self.message_text(),
    {
        "Loading failed".to_owned()
    }
}

impl DiscoveryError {
    pub open spec fn message_text(self) -> Seq<char> {
        "No files were Loaded"@
    }

    /// The line shown to the user.
    pub fn message(&self) -> (text: String)
        ensures
            text@ == self.message_text(),
    {
        "No files were Loaded".to_owned()
    }
}

impl PlaybackError {
    pub open spec fn message_text(self) -> Seq<char> {
        match self {
            PlaybackError::PrimaryLaunchFailed => "Failed to start mpv"@,
            PlaybackError::Interrupted => "Playback interrupted"@,
        }
    }

    /// The line shown to the user.
    pub fn message(&self) -> (text: String)
        ensures
            text@ == self.message_text(),
    {
        match self {
            PlaybackError::PrimaryLaunchFailed => "Failed to start mpv".to_owned(),
            PlaybackError::Interrupted => "Playback interrupted".to_owned(),
        }
    }
}

impl RunErrorView {
    pub open spec fn message_text(self) -> Seq<char> {
        match self {
            RunErrorView::DependencyMissing(tool) => tool
                + " is not installed. Install it with: sudo pacman -S "@ + tool,
            RunErrorView::NoIdentifierProvided => "No URL provided"@,
            RunErrorView::InvalidIdentifier => "Invalid YouTube URL"@,
            RunErrorView::ValidatorUnavailable => "URL pattern was not accepted"@,
            RunErrorView::Acquisition(e) => e.message_text(),
            RunErrorView::Discovery(e) => e.message_text(),
            RunErrorView::Playback(e) => e.message_text(),
        }
    }
}

impl RunError {
    /// The line shown to the user. A missing tool is named twice: once as
    /// what is missing, once in the command that installs it.
    pub fn message(&self) -> (text: String)
        ensures
            text@ == self@.message_text(),
    {
        match self {
            RunError::DependencyMissing(tool) => {
                let mut text: String = tool.clone();
                text.append(" is not installed. Install it with: sudo pacman -S ");
                text.append(tool.as_str());
                text
            },
            RunError::NoIdentifierProvided => "No URL provided".to_owned(),
            RunError::InvalidIdentifier => "Invalid YouTube URL".to_owned(),
            RunError::ValidatorUnavailable => "URL pattern was not accepted".to_owned(),
            RunError::Acquisition(e) => e.message(),
            RunError::Discovery(e) => e.message(),
            RunError::Playback(e) => e.message(),
        }
    }
}

/// Mathematical value of the result of a step that hands nothing out.
pub open spec fn outcome_view(outcome: Result<(), RunError>) -> Result<(), RunErrorView> {
    match outcome {
        Ok(()) => Ok(()),
        Err(e) => Err(e@),
    }
}

/// The exit code of the program for the result of a run: zero for success,
/// one for every failure.
pub open spec fn exit_code_of(outcome: Result<(), RunErrorView>) -> i32 {
    if outcome is Ok {
        0
    } else {
        1
    }
}

/// Computes the exit code of the program for the result of a run.
pub fn exit_code(outcome: &Result<(), RunError>) -> (code: i32)
    ensures
        code == exit_code_of(outcome_view(*outcome)),
{
    match outcome {
        Ok(()) => 0,
        Err(_) => 1,
    }
}

} // verus!
