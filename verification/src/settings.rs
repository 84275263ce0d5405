//! What a run is started with: where downloads go, and whether the
//! visualizer is wanted.

use vstd::prelude::*;

verus! {

/// The settings of one run.
#[derive(Debug)]
pub struct Settings {
    /// The directory that downloads are written to and played from.
    pub target_dir: String,
    /// Whether a visualizer runs beside the player.
    pub enable_companion: bool,
}

/// Mathematical value of an optional text.
pub open spec fn optional_text(text: Option<&str>) -> Option<Seq<char>> {
    match text {
        Some(t) => Some(t@),
        None => None,
    }
}

/// True when `input` is a tilde alone or a tilde followed by a slash: the
/// forms that stand for the home directory.
pub open spec fn starts_at_home(input: Seq<char>) -> bool {
    input.len() >= 1 && input[0] == '~' && (input.len() == 1 || input[1] == '/')
}

/// True when `input` is a tilde followed by a backslash: a form that stands
/// for the home directory on some systems and for itself on others.
pub open spec fn starts_at_home_elsewhere(input: Seq<char>) -> bool {
    input.len() >= 2 && input[0] == '~' && input[1] == '\\'
}

/// `input` with its leading tilde replaced by `home`.
pub open spec fn at_home(input: Seq<char>, home: Seq<char>) -> Seq<char> {
    home + input.subrange(1, input.len() as int)
}

/// `input` with a leading tilde expanded: where it stands for the home
/// directory and that is known, the tilde is replaced by it; anything else,
/// `~name/..` included, stays as it is.
pub open spec fn tilde_expanded(input: Seq<char>, home: Option<Seq<char>>) -> Seq<char> {
    if starts_at_home(input) && home is Some {
        at_home(input, home->0)
    } else {
        input
    }
}

/// `shellexpand::tilde_with_context`, with `home` as its answer for the home
/// directory. The result is [`tilde_expanded`], but for a tilde followed
/// by a backslash: that is expanded on Windows only, so there the result is
/// one of the two.
#[verifier::external_body]
fn expand_tilde(input: &str, home: Option<&str>) -> (expanded: String)
    ensures
        !starts_at_home_elsewhere(input@) ==> expanded@ == tilde_expanded(
            input@,
            optional_text(home),
        ),
        starts_at_home_elsewhere(input@) ==> expanded@ == input@ || (home is Some && expanded@
            == at_home(input@, optional_text(home)->0)),
{
    shellexpand::tilde_with_context(input, move || home).into_owned()
}

impl Settings {
    /// The settings for an output directory as the user wrote it, with a
    /// leading `~` expanded to `home`, and for the switch that turns the
    /// visualizer off.
    pub fn new(output: &str, no_visualizer: bool, home: Option<&str>) -> (settings: Settings)
        ensures
            settings.enable_companion == !no_visualizer,
            !starts_at_home_elsewhere(output@) ==> settings.target_dir@ == tilde_expanded(
                output@,
                optional_text(home),
            ),
            starts_at_home_elsewhere(output@) ==> settings.target_dir@ == output@ || (home is Some
                && settings.target_dir@ == at_home(output@, optional_text(home)->0)),
    {
        Settings { target_dir: expand_tilde(output, home), enable_companion: !no_visualizer }
    }
}

} // verus!
