//! The download step: the downloader's command line, and what its exit means.
//!
//! The downloader writes its files into the target directory and is not asked
//! where it put them; the directory is scanned afterwards instead.

use vstd::prelude::*;
use crate::error::AcquisitionError;
use crate::process::{ExitStatus, Invocation, InvocationView};

verus! {

/// The file name part of the output template: title and extension are filled
/// in by the downloader.
pub open spec fn template_name() -> Seq<char> {
    "%(title)s.%(ext)s"@
}

/// True when a separator has to be put between `target_dir` and a file name:
/// the directory is not empty and does not already end in one.
pub open spec fn needs_separator(target_dir: Seq<char>) -> bool {
    target_dir.len() > 0 && target_dir.last() != '/'
}

/// The output template for `target_dir`: the directory, a separator where one
/// is needed, and the template's file name.
pub open spec fn output_template(target_dir: Seq<char>) -> Seq<char> {
    if needs_separator(target_dir) {
        target_dir + "/"@ + template_name()
    } else {
        target_dir + template_name()
    }
}

/// The downloader's arguments: quiet, audio only, converted to mp3 at the best
/// quality, written under the output template, printing each final path; the
/// address comes last.
pub open spec fn downloader_args(identifier: Seq<char>, target_dir: Seq<char>) -> Seq<Seq<char>> {
    seq![
        "-q"@,
        "-x"@,
        "--audio-format"@,
        "mp3"@,
        "--audio-quality"@,
        "0"@,
        "-o"@,
        output_template(target_dir),
        "--print"@,
        "after_move:filepath"@,
        identifier,
    ]
}

/// The whole downloader command line.
pub open spec fn downloader_command(identifier: Seq<char>, target_dir: Seq<char>) -> InvocationView {
    InvocationView { program: "yt-dlp"@, args: downloader_args(identifier, target_dir) }
}

/// What a downloader exit means: success on exit code zero, `ToolFailure` on
/// anything else.
pub open spec fn outcome_of(status: ExitStatus) -> Result<(), AcquisitionError> {
    if status.succeeded() {
        Ok(())
    } else {
        Err(AcquisitionError::ToolFailure)
    }
}

/// Builds the output template for `target_dir`.
pub fn build_output_template(target_dir: &str) -> (template: String)
    ensures
        template@ == output_template(target_dir@),
{
    let n: usize = target_dir.unicode_len();
    let mut template: String = target_dir.to_owned();
    if n > 0 && target_dir.get_char(n - 1) != '/' {
        template.append("/");
    }
    template.append("%(title)s.%(ext)s");
    template
}

/// Builds the command line that downloads `identifier` into `target_dir`.
pub fn downloader_invocation(identifier: &str, target_dir: &str) -> (invocation: Invocation)
    ensures
        invocation@ == downloader_command(identifier@, target_dir@),
{
    let mut args: Vec<String> = Vec::new();
    args.push("-q".to_owned());
    args.push("-x".to_owned());
    args.push("--audio-format".to_owned());
    args.push("mp3".to_owned());
    args.push("--audio-quality".to_owned());
    args.push("0".to_owned());
    args.push("-o".to_owned());
    args.push(build_output_template(target_dir));
    args.push("--print".to_owned());
    args.push("after_move:filepath".to_owned());
    args.push(identifier.to_owned());
    assert(args.deep_view() =~= downloader_args(identifier@, target_dir@));
    Invocation { program: "yt-dlp".to_owned(), args }
}

/// Reads the downloader's exit. A failure here ends the run: the directory is
/// not scanned and nothing is played.
pub fn acquisition_outcome(status: ExitStatus) -> (outcome: Result<(), AcquisitionError>)
    ensures
        outcome == outcome_of(status),
{
    if status.success() {
        Ok(())
    } else {
        Err(AcquisitionError::ToolFailure)
    }
}

} // verus!
